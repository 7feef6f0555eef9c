//! Monster kinds and the templates built from their content definitions.
use vstd::prelude::*;
use crate::error::{ContentError, Fault, fault_of};
use crate::data::schema::{ContentRegistry, keyed_entry, MonsterData};
use crate::domain::combat::{AttackProfile, DamageRoll};
use crate::domain::item::{parse_damage, damage_named};
use crate::text::str_eq;

verus! {

/// How a monster moves.
#[derive(Debug, Clone, Copy, PartialEq, Eq, Hash, Structural)]
pub enum MonsterAiKind {
    Wander,
    ChaseVisiblePlayer,
    Stationary,
}

/// The kinds of monster.
#[derive(Debug, Clone, Copy, PartialEq, Eq, Hash, Structural)]
pub enum MonsterKind {
    Jackal,
    Goblin,
    FloatingEye,
}

/// The starting numbers of a monster kind.
#[derive(Debug, Clone, Copy, PartialEq, Eq)]
pub struct MonsterTemplate {
    pub kind: MonsterKind,
    pub ai_kind: MonsterAiKind,
    pub hp: i16,
    pub ac: i16,
    pub hit_bonus: i16,
    pub damage_bonus: i16,
    pub attack_profile: AttackProfile,
}

/// The content identifier of each monster kind.
pub open spec fn monster_id_text(kind: MonsterKind) -> Seq<char> {
    match kind {
        MonsterKind::Jackal => "monster.jackal"@,
        MonsterKind::Goblin => "monster.goblin"@,
        MonsterKind::FloatingEye => "monster.floating_eye"@,
    }
}

fn monster_id(kind: MonsterKind) -> (r: &'static str)
    ensures
        r@ == monster_id_text(kind),
{
    match kind {
        MonsterKind::Jackal => "monster.jackal",
        MonsterKind::Goblin => "monster.goblin",
        MonsterKind::FloatingEye => "monster.floating_eye",
    }
}

/// The AI named by a content string.
pub open spec fn ai_named(s: Seq<char>) -> Option<MonsterAiKind> {
    if s == "wander"@ { Some(MonsterAiKind::Wander) }
    else if s == "chase_on_sight"@ { Some(MonsterAiKind::ChaseVisiblePlayer) }
    else if s == "stationary"@ { Some(MonsterAiKind::Stationary) }
    else { None }
}

/// The name of each monster kind's attack.
pub open spec fn monster_attack_name(kind: MonsterKind) -> Seq<char> {
    match kind {
        MonsterKind::Jackal => "bite"@,
        MonsterKind::Goblin => "short sword"@,
        MonsterKind::FloatingEye => "gaze"@,
    }
}

/// The fault in looking up and building the template of `kind`: an
/// unknown reference (owner `monster factory`) when the registry lacks
/// its definition, an unknown AI, or a bad damage string.
pub open spec fn monster_fault(registry: ContentRegistry, kind: MonsterKind) -> Option<Fault> {
    match keyed_entry(registry.monster_seq(), monster_id_text(kind)) {
        None => Some(Fault::Unknown("monster factory"@, monster_id_text(kind))),
        Some(d) => if ai_named(d.ai@) is None {
            Some(Fault::Unknown(monster_id_text(kind), d.ai@))
        } else if damage_named(d.damage@) is None {
            Some(Fault::Dice(d.damage@))
        } else {
            None
        },
    }
}

/// Whether `t` is the template of `kind` built from definition `d`: its AI,
/// hit points, AC and hit bonus, no damage bonus, and a natural attack of
/// the kind's name with the definition's damage.
pub open spec fn template_from(t: MonsterTemplate, kind: MonsterKind, d: MonsterData) -> bool {
    &&& t.kind == kind
    &&& Some(t.ai_kind) == ai_named(d.ai@)
    &&& t.hp == d.hp && t.ac == d.ac && t.hit_bonus == d.hit_bonus && t.damage_bonus == 0
    &&& t.attack_profile.name@ == monster_attack_name(kind)
    &&& t.attack_profile.hit_bonus == 0
    &&& Some(t.attack_profile.damage) == damage_named(d.damage@)
}

impl MonsterKind {
    /// The AI of this kind, from the registry.
    pub fn ai_kind(self, registry: &ContentRegistry) -> (r: MonsterAiKind)
        requires
            monster_fault(*registry, self) is None,
        ensures
            Some(r) == ai_named(keyed_entry(registry.monster_seq(), monster_id_text(self))->0.ai@),
    {
        monster_ai_kind(self, registry)
    }

    /// How dangerous the kind is: 1, 2 and 5.
    pub fn difficulty(self) -> (r: u8)
        ensures
            r == (match self { MonsterKind::Jackal => 1u8, MonsterKind::Goblin => 2u8, MonsterKind::FloatingEye => 5u8 }),
    {
        match self {
            MonsterKind::Jackal => 1,
            MonsterKind::Goblin => 2,
            MonsterKind::FloatingEye => 5,
        }
    }
}

/// The template of `kind` from the registry's definition, or the first
/// fault.
pub fn try_monster_template(kind: MonsterKind, registry: &ContentRegistry) -> (r: Result<MonsterTemplate, ContentError>)
    ensures
        match monster_fault(*registry, kind) {
            Some(f) => r matches Err(e) && fault_of(e) == f,
            None => r matches Ok(t) && template_from(t, kind, keyed_entry(registry.monster_seq(), monster_id_text(kind))->0),
        },
{
    let id = monster_id(kind);
    let definition = match registry.monster(id) {
        Some(d) => d,
        None => return Err(ContentError::UnknownReference { owner: "monster factory".to_string(), target: id.to_string() }),
    };
    let ai = definition.ai.as_str();
    let ai_kind = if str_eq(ai, "wander") {
        MonsterAiKind::Wander
    } else if str_eq(ai, "chase_on_sight") {
        MonsterAiKind::ChaseVisiblePlayer
    } else if str_eq(ai, "stationary") {
        MonsterAiKind::Stationary
    } else {
        return Err(ContentError::UnknownReference { owner: id.to_string(), target: definition.ai.clone() });
    };
    let damage = match parse_damage(definition.damage.as_str()) { Ok(d) => d, Err(e) => return Err(e) };
    let name: &'static str = match kind {
        MonsterKind::Jackal => "bite",
        MonsterKind::Goblin => "short sword",
        MonsterKind::FloatingEye => "gaze",
    };
    Ok(MonsterTemplate {
        kind,
        ai_kind,
        hp: definition.hp,
        ac: definition.ac,
        hit_bonus: definition.hit_bonus,
        damage_bonus: 0,
        attack_profile: AttackProfile::natural(name, damage),
    })
}

/// The template of `kind`; the registry must define it without fault.
pub fn monster_template(kind: MonsterKind, registry: &ContentRegistry) -> (r: MonsterTemplate)
    requires
        monster_fault(*registry, kind) is None,
    ensures
        template_from(r, kind, keyed_entry(registry.monster_seq(), monster_id_text(kind))->0),
{
    match try_monster_template(kind, registry) {
        Ok(t) => t,
        Err(_) => {
            proof {
                assert(false);
            }
            MonsterTemplate {
                kind,
                ai_kind: MonsterAiKind::Stationary,
                hp: 0,
                ac: 0,
                hit_bonus: 0,
                damage_bonus: 0,
                attack_profile: AttackProfile::natural("", DamageRoll::none()),
            }
        },
    }
}

/// The monster kind with content identifier `id`, if any.
pub open spec fn monster_kind_of_id(id: Seq<char>) -> Option<MonsterKind> {
    if id == monster_id_text(MonsterKind::Jackal) { Some(MonsterKind::Jackal) }
    else if id == monster_id_text(MonsterKind::Goblin) { Some(MonsterKind::Goblin) }
    else if id == monster_id_text(MonsterKind::FloatingEye) { Some(MonsterKind::FloatingEye) }
    else { None }
}

/// The monster kind of a content identifier; `UnknownReference` (owner
/// `monster kind`) for any other identifier.
pub fn monster_kind_from_id(id: &str) -> (r: Result<MonsterKind, ContentError>)
    ensures
        match monster_kind_of_id(id@) {
            Some(k) => r == Ok::<MonsterKind, ContentError>(k),
            None => r matches Err(e) && fault_of(e) == Fault::Unknown("monster kind"@, id@),
        },
{
    if str_eq(id, monster_id(MonsterKind::Jackal)) {
        Ok(MonsterKind::Jackal)
    } else if str_eq(id, monster_id(MonsterKind::Goblin)) {
        Ok(MonsterKind::Goblin)
    } else if str_eq(id, monster_id(MonsterKind::FloatingEye)) {
        Ok(MonsterKind::FloatingEye)
    } else {
        Err(ContentError::UnknownReference { owner: "monster kind".to_string(), target: id.to_string() })
    }
}

/// The AI of `kind`, from its template.
pub fn monster_ai_kind(kind: MonsterKind, registry: &ContentRegistry) -> (r: MonsterAiKind)
    requires
        monster_fault(*registry, kind) is None,
    ensures
        Some(r) == ai_named(keyed_entry(registry.monster_seq(), monster_id_text(kind))->0.ai@),
{
    monster_template(kind, registry).ai_kind
}

} // verus!
