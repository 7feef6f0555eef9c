//! Actors (the player and monsters) and items in one store of entities,
//! each with a fresh identifier.
use vstd::prelude::*;
use crate::ids::{EntityId, LevelId, Pos};
use crate::data::schema::ContentRegistry;
use crate::domain::combat::{AttackProfile, DamageRoll};
use crate::domain::inventory::InventoryLetter;
use crate::domain::item::{item_data, item_fault, built_from, item_id_text, ItemData, ItemKind};
use crate::domain::monster::{monster_template, monster_fault, template_from, monster_id_text, monster_attack_name, MonsterKind};
use crate::domain::player::adventurer_template;
use crate::data::schema::keyed_entry;

verus! {

/// What kind of actor an actor is.
#[derive(Debug, Clone, Copy, PartialEq, Eq, Hash, Structural)]
pub enum ActorKind {
    Player,
    Monster(MonsterKind),
}

/// What kind of entity an entity is.
#[derive(Debug, Clone, Copy, PartialEq, Eq, Hash, Structural)]
pub enum EntityKind {
    Player,
    Monster(MonsterKind),
    Item(ItemKind),
}

/// Whose side an actor is on.
#[derive(Debug, Clone, Copy, PartialEq, Eq, Hash, Structural)]
pub enum Faction {
    Player,
    Hostile,
    Neutral,
}

/// The fighting numbers of an actor.
#[derive(Debug, Clone, Copy, PartialEq, Eq, Hash, Structural)]
pub struct ActorStats {
    pub hp: i16,
    pub max_hp: i16,
    pub ac: i16,
    pub hit_bonus: i16,
    pub damage_bonus: i16,
    pub damage_reduction: i16,
    pub damage: DamageRoll,
    pub weapon_hit_bonus: i16,
}

/// Where an entity is: on a level, in someone's pack, or used up.
#[derive(Debug, Clone, Copy, PartialEq, Eq, Hash, Structural)]
pub enum EntityLocation {
    OnMap { level: LevelId, pos: Pos },
    Inventory { owner: EntityId },
    Consumed,
}

impl EntityLocation {
    /// `pos` on the first main level.
    pub fn on_main_level(pos: Pos) -> (r: Self)
        ensures
            r == (EntityLocation::OnMap { level: LevelId::spec_main(1), pos }),
    {
        EntityLocation::OnMap { level: LevelId::main(1), pos }
    }

    /// The level and position, for a location on a level.
    pub open spec fn position_of(self) -> Option<(LevelId, Pos)> {
        match self {
            EntityLocation::OnMap { level, pos } => Some((level, pos)),
            _ => None,
        }
    }

    /// The level and position, for a location on a level.
    pub fn map_position(self) -> (r: Option<(LevelId, Pos)>)
        ensures
            r == self.position_of(),
    {
        match self {
            EntityLocation::OnMap { level, pos } => Some((level, pos)),
            EntityLocation::Inventory { .. } | EntityLocation::Consumed => None,
        }
    }
}

/// What an entity is: an actor or an item.
#[derive(Debug, Clone, PartialEq, Eq)]
pub enum EntityPayload {
    Actor { kind: ActorKind, faction: Faction, location: EntityLocation, stats: ActorStats, alive: bool },
    Item { kind: ItemKind, data: ItemData, location: EntityLocation, assigned_letter: Option<InventoryLetter> },
}

/// An entity of the store.
#[derive(Debug, Clone, PartialEq, Eq)]
pub struct Entity {
    pub id: EntityId,
    pub payload: EntityPayload,
}

/// The actor view of an entity on a level: kind, faction, level, position,
/// stats and whether it lives; `None` for items and actors off the map.
pub open spec fn actor_view(e: Entity) -> Option<(ActorKind, Faction, LevelId, Pos, ActorStats, bool)> {
    match e.payload {
        EntityPayload::Actor { kind, faction, location, stats, alive } => match location {
            EntityLocation::OnMap { level, pos } => Some((kind, faction, level, pos, stats, alive)),
            _ => None,
        },
        EntityPayload::Item { .. } => None,
    }
}

/// The item view of an entity: kind, data, location and letter.
pub open spec fn item_view(e: Entity) -> Option<(ItemKind, ItemData, EntityLocation, Option<InventoryLetter>)> {
    match e.payload {
        EntityPayload::Item { kind, data, location, assigned_letter } => Some((kind, data, location, assigned_letter)),
        EntityPayload::Actor { .. } => None,
    }
}

/// The kind of an entity.
pub open spec fn kind_of(e: Entity) -> EntityKind {
    match e.payload {
        EntityPayload::Actor { kind, .. } => match kind {
            ActorKind::Player => EntityKind::Player,
            ActorKind::Monster(k) => EntityKind::Monster(k),
        },
        EntityPayload::Item { kind, .. } => EntityKind::Item(kind),
    }
}

impl Entity {
    /// The kind of the entity.
    pub fn kind(&self) -> (r: EntityKind)
        ensures
            r == kind_of(*self),
    {
        match &self.payload {
            EntityPayload::Actor { kind, .. } => match kind {
                ActorKind::Player => EntityKind::Player,
                ActorKind::Monster(k) => EntityKind::Monster(*k),
            },
            EntityPayload::Item { kind, .. } => EntityKind::Item(*kind),
        }
    }

    /// The actor view, for an actor on a level.
    pub fn actor(&self) -> (r: Option<(ActorKind, Faction, LevelId, Pos, &ActorStats, bool)>)
        ensures
            match actor_view(*self) {
                Some(v) => r matches Some(t) && t.0 == v.0 && t.1 == v.1 && t.2 == v.2 && t.3 == v.3
                    && *t.4 == v.4 && t.5 == v.5,
                None => r is None,
            },
    {
        match &self.payload {
            EntityPayload::Actor { kind, faction, location, stats, alive } => {
                let (level, pos) = match location.map_position() {
                    Some(p) => p,
                    None => return None,
                };
                Some((*kind, *faction, level, pos, stats, *alive))
            },
            EntityPayload::Item { .. } => None,
        }
    }

    /// The location, stats and life of an actor, to change.
    pub fn actor_mut(&mut self) -> (r: Option<(&mut EntityLocation, &mut ActorStats, &mut bool)>)
        ensures
            match old(self).payload {
                EntityPayload::Actor { kind, faction, location, stats, alive } => r matches Some(t)
                    && *t.0 == location && *t.1 == stats && *t.2 == alive
                    && *final(self) == (Entity { id: old(self).id, payload: EntityPayload::Actor {
                        kind, faction, location: *final(t.0), stats: *final(t.1), alive: *final(t.2) } }),
                EntityPayload::Item { .. } => r is None && *final(self) == *old(self),
            },
    {
        match &mut self.payload {
            EntityPayload::Actor { location, stats, alive, .. } => Some((location, stats, alive)),
            EntityPayload::Item { .. } => None,
        }
    }

    /// The item view, for an item.
    pub fn item(&self) -> (r: Option<(ItemKind, &ItemData, EntityLocation, Option<InventoryLetter>)>)
        ensures
            match item_view(*self) {
                Some(v) => r matches Some(t) && t.0 == v.0 && *t.1 == v.1 && t.2 == v.2 && t.3 == v.3,
                None => r is None,
            },
    {
        match &self.payload {
            EntityPayload::Item { kind, data, location, assigned_letter } => Some((*kind, data, *location, *assigned_letter)),
            EntityPayload::Actor { .. } => None,
        }
    }

    /// The data of an item, with its location and letter to change.
    pub fn item_mut(&mut self) -> (r: Option<(&ItemData, &mut EntityLocation, &mut Option<InventoryLetter>)>)
        ensures
            match old(self).payload {
                EntityPayload::Item { kind, data, location, assigned_letter } => r matches Some(t)
                    && *t.0 == data && *t.1 == location && *t.2 == assigned_letter
                    && *final(self) == (Entity { id: old(self).id, payload: EntityPayload::Item {
                        kind, data, location: *final(t.1), assigned_letter: *final(t.2) } }),
                EntityPayload::Actor { .. } => r is None && *final(self) == *old(self),
            },
    {
        match &mut self.payload {
            EntityPayload::Item { data, location, assigned_letter, .. } => Some((&*data, location, assigned_letter)),
            EntityPayload::Actor { .. } => None,
        }
    }

    /// The attack an entity makes without a weapon: a monster's natural
    /// attack (bite, short sword or gaze) with its damage, an item's own
    /// attack, none for the player.
    pub fn natural_attack_profile(&self) -> (r: Option<AttackProfile>)
        ensures
            match self.payload {
                EntityPayload::Actor { kind: ActorKind::Monster(k), stats, .. } => r matches Some(a)
                    && a.name@ == monster_attack_name(k) && a.hit_bonus == 0 && a.damage == stats.damage,
                EntityPayload::Actor { kind: ActorKind::Player, .. } => r is None,
                EntityPayload::Item { data, .. } => r == data.attack_profile,
            },
    {
        match &self.payload {
            EntityPayload::Actor { kind: ActorKind::Monster(MonsterKind::Jackal), stats, .. } =>
                Some(AttackProfile::natural("bite", stats.damage)),
            EntityPayload::Actor { kind: ActorKind::Monster(MonsterKind::Goblin), stats, .. } =>
                Some(AttackProfile::natural("short sword", stats.damage)),
            EntityPayload::Actor { kind: ActorKind::Monster(MonsterKind::FloatingEye), stats, .. } =>
                Some(AttackProfile::natural("gaze", stats.damage)),
            EntityPayload::Actor { kind: ActorKind::Player, .. } => None,
            EntityPayload::Item { data, .. } => data.attack_profile,
        }
    }
}

/// Whether some entity of `s` has identifier `id`.
pub open spec fn has_id(s: Seq<Entity>, id: EntityId) -> bool {
    exists|i: int| 0 <= i < s.len() && #[trigger] s[i].id == id
}

/// The position of the first entity of `s` with identifier `id`
/// (meaningful when there is one).
pub open spec fn id_index(s: Seq<Entity>, id: EntityId) -> int {
    choose|i: int| 0 <= i < s.len() && #[trigger] s[i].id == id && forall|j: int| 0 <= j < i ==> s[j].id != id
}

/// The entity that `get` finds: none for identifier 0, else the first
/// with that identifier.
pub open spec fn lookup(s: Seq<Entity>, id: EntityId) -> Option<Entity> {
    if id.0 != 0 && has_id(s, id) { Some(s[id_index(s, id)]) } else { None }
}

/// When some entity has identifier `id`, `id_index` names the first one.
pub proof fn lemma_id_index(s: Seq<Entity>, id: EntityId)
    requires
        has_id(s, id),
    ensures
        0 <= id_index(s, id) < s.len(),
        s[id_index(s, id)].id == id,
        forall|j: int| 0 <= j < id_index(s, id) ==> s[j].id != id,
{
    let k = choose|k: int| 0 <= k < s.len() && #[trigger] s[k].id == id;
    lemma_first_id_exists(s, id, k);
}

proof fn lemma_first_id_exists(s: Seq<Entity>, id: EntityId, k: int)
    requires
        0 <= k < s.len(),
        s[k].id == id,
    ensures
        exists|i: int| 0 <= i < s.len() && #[trigger] s[i].id == id && forall|j: int| 0 <= j < i ==> s[j].id != id,
    decreases k,
{
    if exists|j: int| 0 <= j < k && #[trigger] s[j].id == id {
        let j = choose|j: int| 0 <= j < k && #[trigger] s[j].id == id;
        lemma_first_id_exists(s, id, j);
    } else {
        assert(forall|j: int| 0 <= j < k ==> s[j].id != id);
    }
}

/// A freshly spawned living actor.
pub open spec fn new_actor(id: EntityId, kind: ActorKind, faction: Faction, pos: Pos, stats: ActorStats) -> Entity {
    Entity { id, payload: EntityPayload::Actor { kind, faction, location: EntityLocation::OnMap {
        level: LevelId::spec_main(1), pos }, stats, alive: true } }
}

/// The stats an actor starts with from its template numbers.
pub open spec fn starting_stats(hp: i16, ac: i16, hit_bonus: i16, damage_bonus: i16, damage: DamageRoll,
    weapon_hit_bonus: i16) -> ActorStats {
    ActorStats { hp, max_hp: hp, ac, hit_bonus, damage_bonus, damage_reduction: 0, damage, weapon_hit_bonus }
}

/// The identifiers of the items of `s` lying at `pos` of `level`, in
/// store order.
pub open spec fn items_on(s: Seq<Entity>, level: LevelId, pos: Pos) -> Seq<EntityId>
    decreases s.len(),
{
    if s.len() == 0 {
        Seq::empty()
    } else {
        items_on(s.drop_last(), level, pos) + if item_view(s.last()) matches Some(v)
            && v.2 == (EntityLocation::OnMap { level, pos }) { seq![s.last().id] } else { Seq::empty() }
    }
}

/// The identifiers of the items of `s` in the pack of `owner`, in store
/// order.
pub open spec fn items_held(s: Seq<Entity>, owner: EntityId) -> Seq<EntityId>
    decreases s.len(),
{
    if s.len() == 0 {
        Seq::empty()
    } else {
        items_held(s.drop_last(), owner) + if item_view(s.last()) matches Some(v)
            && v.2 == (EntityLocation::Inventory { owner }) { seq![s.last().id] } else { Seq::empty() }
    }
}

/// Whether `e` is a living actor at `pos` of `level` (and hostile, when
/// `hostile_only`).
pub open spec fn living_at(e: Entity, level: LevelId, pos: Pos, hostile_only: bool) -> bool {
    actor_view(e) matches Some(v) && v.5 && v.2 == level && v.3 == pos && (!hostile_only || v.1 == Faction::Hostile)
}

/// The first living actor of `s` at `pos` of `level`.
pub open spec fn first_living_at(s: Seq<Entity>, level: LevelId, pos: Pos, hostile_only: bool) -> Option<EntityId>
    decreases s.len(),
{
    if s.len() == 0 {
        None
    } else if living_at(s[0], level, pos, hostile_only) {
        Some(s[0].id)
    } else {
        first_living_at(s.drop_first(), level, pos, hostile_only)
    }
}

/// Whether `e` is a living hostile monster on `level`.
pub open spec fn hostile_monster_on(e: Entity, level: LevelId) -> bool {
    actor_view(e) matches Some(v) && v.0 is Monster && v.1 == Faction::Hostile && v.2 == level && v.5
}

/// The identifiers of the living hostile monsters of `s` on `level`.
pub open spec fn hostiles_on(s: Seq<Entity>, level: LevelId) -> Seq<EntityId>
    decreases s.len(),
{
    if s.len() == 0 {
        Seq::empty()
    } else {
        hostiles_on(s.drop_last(), level) + if hostile_monster_on(s.last(), level) { seq![s.last().id] } else { Seq::empty() }
    }
}

/// `e` with every monster's life taken.
pub open spec fn without_monster(e: Entity) -> Entity {
    match e.payload {
        EntityPayload::Actor { kind: ActorKind::Monster(k), faction, location, stats, .. } =>
            Entity { id: e.id, payload: EntityPayload::Actor { kind: ActorKind::Monster(k), faction, location, stats, alive: false } },
        _ => e,
    }
}

/// `e`, an actor, at location `loc`.
pub open spec fn with_location(e: Entity, loc: EntityLocation) -> Entity {
    match e.payload {
        EntityPayload::Actor { kind, faction, stats, alive, .. } =>
            Entity { id: e.id, payload: EntityPayload::Actor { kind, faction, location: loc, stats, alive } },
        _ => e,
    }
}

impl Entity {
    /// An equal copy.
    pub fn clone_entity(&self) -> (r: Entity)
        ensures
            r == *self,
    {
        Entity {
            id: self.id,
            payload: match &self.payload {
                EntityPayload::Actor { kind, faction, location, stats, alive } =>
                    EntityPayload::Actor { kind: *kind, faction: *faction, location: *location, stats: *stats, alive: *alive },
                EntityPayload::Item { kind, data, location, assigned_letter } =>
                    EntityPayload::Item { kind: *kind, data: *data, location: *location, assigned_letter: *assigned_letter },
            },
        }
    }
}

/// The store of entities, in spawn order, and the next identifier.
#[derive(Debug, Clone, PartialEq, Eq)]
pub struct EntityStore {
    entities: Vec<Entity>,
    next_id: u32,
}

impl Default for EntityStore {
    fn default() -> (r: Self)
        ensures
            r.ents().len() == 0,
            r.next() == 1,
            r.wf(),
    {
        EntityStore::new()
    }
}

impl EntityStore {
    /// The entities, in spawn order.
    pub closed spec fn ents(&self) -> Seq<Entity> {
        self.entities@
    }

    /// The identifier the next spawn gets.
    pub closed spec fn next(&self) -> u32 {
        self.next_id
    }

    /// Identifiers run from 1 up, strictly increasing in store order, all
    /// below the next one.
    pub open spec fn wf(&self) -> bool {
        &&& self.next() >= 1
        &&& forall|i: int| 0 <= i < self.ents().len() ==> 1 <= (#[trigger] self.ents()[i]).id.0 < self.next()
        &&& forall|i: int, j: int| 0 <= i < j < self.ents().len() ==> (#[trigger] self.ents()[i]).id.0 < (#[trigger] self.ents()[j]).id.0
    }

    /// An empty store; the first identifier will be 1.
    pub fn new() -> (r: Self)
        ensures
            r.ents().len() == 0,
            r.next() == 1,
            r.wf(),
    {
        EntityStore { entities: Vec::new(), next_id: 1 }
    }

    fn next_entity_id(&mut self) -> (r: EntityId)
        requires
            old(self).next() < u32::MAX,
        ensures
            r == EntityId(old(self).next()),
            final(self).next() == old(self).next() + 1,
            final(self).ents() == old(self).ents(),
    {
        let id = EntityId(self.next_id);
        self.next_id = self.next_id + 1;
        id
    }

    /// Spawns a living actor at `pos` of the first main level and returns
    /// its identifier.
    pub fn spawn_actor(&mut self, kind: ActorKind, faction: Faction, pos: Pos, stats: ActorStats) -> (r: EntityId)
        requires
            old(self).wf(),
            old(self).next() < u32::MAX,
        ensures
            final(self).wf(),
            r == EntityId(old(self).next()),
            final(self).ents() == old(self).ents().push(new_actor(r, kind, faction, pos, stats)),
            final(self).next() == old(self).next() + 1,
    {
        let id = self.next_entity_id();
        let location = EntityLocation::on_main_level(pos);
        self.entities.push(Entity { id, payload: EntityPayload::Actor { kind, faction, location, stats, alive: true } });
        id
    }

    /// Spawns the player at `pos` with the adventurer's numbers: 16 hit
    /// points, AC 0, +2 to hit, a dagger's 1d4 and +1.
    pub fn spawn_player(&mut self, pos: Pos) -> (r: EntityId)
        requires
            old(self).wf(),
            old(self).next() < u32::MAX,
        ensures
            final(self).wf(),
            r == EntityId(old(self).next()),
            final(self).ents() == old(self).ents().push(new_actor(r, ActorKind::Player, Faction::Player, pos,
                starting_stats(16, 0, 2, 0, DamageRoll { dice: 1, sides: 4 }, 1))),
            final(self).next() == old(self).next() + 1,
    {
        let template = adventurer_template();
        self.spawn_actor(ActorKind::Player, Faction::Player, pos, ActorStats {
            hp: template.hp,
            max_hp: template.hp,
            ac: template.ac,
            hit_bonus: template.hit_bonus,
            damage_bonus: template.damage_bonus,
            damage_reduction: 0,
            damage: template.attack_profile.damage,
            weapon_hit_bonus: template.attack_profile.hit_bonus,
        })
    }

    /// Spawns a hostile monster of `kind` at `pos` with its template's
    /// numbers.
    pub fn spawn_monster(&mut self, kind: MonsterKind, pos: Pos, registry: &ContentRegistry) -> (r: EntityId)
        requires
            old(self).wf(),
            old(self).next() < u32::MAX,
            monster_fault(*registry, kind) is None,
        ensures
            final(self).wf(),
            r == EntityId(old(self).next()),
            final(self).next() == old(self).next() + 1,
            final(self).ents().len() == old(self).ents().len() + 1,
            final(self).ents().drop_last() == old(self).ents(),
            exists|t| #[trigger] template_from(t, kind, keyed_entry(registry.monster_seq(), monster_id_text(kind))->0)
                && final(self).ents().last() == new_actor(r, ActorKind::Monster(kind), Faction::Hostile, pos,
                    starting_stats(t.hp, t.ac, t.hit_bonus, t.damage_bonus, t.attack_profile.damage, t.attack_profile.hit_bonus)),
    {
        let template = monster_template(kind, registry);
        let r = self.spawn_actor(ActorKind::Monster(kind), Faction::Hostile, pos, ActorStats {
            hp: template.hp,
            max_hp: template.hp,
            ac: template.ac,
            hit_bonus: template.hit_bonus,
            damage_bonus: template.damage_bonus,
            damage_reduction: 0,
            damage: template.attack_profile.damage,
            weapon_hit_bonus: template.attack_profile.hit_bonus,
        });
        proof {
            assert(self.ents().drop_last() == old(self).ents());
        }
        r
    }

    /// Spawns an item of `kind` at `location`, with its data and no letter.
    pub fn spawn_item(&mut self, kind: ItemKind, location: EntityLocation, registry: &ContentRegistry) -> (r: EntityId)
        requires
            old(self).wf(),
            old(self).next() < u32::MAX,
            item_fault(*registry, kind) is None,
        ensures
            final(self).wf(),
            r == EntityId(old(self).next()),
            final(self).next() == old(self).next() + 1,
            final(self).ents().len() == old(self).ents().len() + 1,
            final(self).ents().drop_last() == old(self).ents(),
            final(self).ents().last().id == r,
            final(self).ents().last().payload matches EntityPayload::Item { kind: k, data, location: l, assigned_letter }
                && k == kind && l == location && assigned_letter is None
                && built_from(data, kind, keyed_entry(registry.item_seq(), item_id_text(kind))->0),
    {
        let id = self.next_entity_id();
        let data = item_data(kind, registry);
        self.entities.push(Entity { id, payload: EntityPayload::Item { kind, data, location, assigned_letter: None } });
        proof {
            assert(self.ents().drop_last() == old(self).ents());
        }
        id
    }

    /// Spawns an entity of `kind`: an actor with the given faction and
    /// stats, or an item on the first main level at `pos`.
    pub fn spawn(&mut self, kind: EntityKind, faction: Faction, pos: Pos, stats: ActorStats, registry: &ContentRegistry) -> (r: EntityId)
        requires
            old(self).wf(),
            old(self).next() < u32::MAX,
            kind matches EntityKind::Item(k) ==> item_fault(*registry, k) is None,
        ensures
            final(self).wf(),
            r == EntityId(old(self).next()),
            final(self).next() == old(self).next() + 1,
            final(self).ents().drop_last() == old(self).ents(),
            final(self).ents().len() == old(self).ents().len() + 1,
            kind == EntityKind::Player ==> final(self).ents().last() == new_actor(r, ActorKind::Player, faction, pos, stats),
            kind matches EntityKind::Monster(m) ==> final(self).ents().last() == new_actor(r, ActorKind::Monster(m), faction, pos, stats),
            kind matches EntityKind::Item(k) ==> (kind_of(final(self).ents().last()) == kind
                && (item_view(final(self).ents().last()) matches Some(v) && v.2 == (EntityLocation::OnMap { level: LevelId::spec_main(1), pos }))),
    {
        let r = match kind {
            EntityKind::Player => self.spawn_actor(ActorKind::Player, faction, pos, stats),
            EntityKind::Monster(m) => self.spawn_actor(ActorKind::Monster(m), faction, pos, stats),
            EntityKind::Item(k) => self.spawn_item(k, EntityLocation::on_main_level(pos), registry),
        };
        proof {
            assert(self.ents().drop_last() == old(self).ents());
        }
        r
    }

    fn find(&self, id: EntityId) -> (r: Option<usize>)
        ensures
            match lookup(self.ents(), id) {
                Some(_) => (r matches Some(k) && k == id_index(self.ents(), id) && k < self.ents().len()),
                None => r is None,
            },
    {
        if id.0 == 0 {
            return None;
        }
        let n = self.entities.len();
        let mut k: usize = 0;
        while k < n
            invariant
                k <= n,
                n == self.entities@.len(),
                id.0 != 0,
                forall|j: int| 0 <= j < k ==> #[trigger] self.entities@[j].id != id,
            decreases n - k,
        {
            if self.entities[k].id == id {
                assert(self.entities@[k as int].id == id);
                proof {
                    assert(has_id(self.entities@, id));
                    lemma_id_index(self.entities@, id);
                    let i = id_index(self.entities@, id);
                    if i > k {
                        assert(self.entities@[k as int].id == id);
                    } else if i < k {
                        assert(self.entities@[i].id != id);
                    }
                    assert(i == k);
                    assert(self.ents() == self.entities@);
                    assert(id.0 != 0);
                    assert(lookup(self.ents(), id) is Some);
                }
                return Some(k);
            }
            k = k + 1;
        }
        None
    }

    /// The entity with identifier `id` (never for identifier 0).
    pub fn get(&self, id: EntityId) -> (r: Option<&Entity>)
        ensures
            match lookup(self.ents(), id) {
                Some(e) => r == Some(&e),
                None => r is None,
            },
    {
        match self.find(id) {
            Some(k) => Some(&self.entities[k]),
            None => None,
        }
    }

    /// The entity with identifier `id`, to change; the store keeps its
    /// order and every other entity.
    pub fn get_mut(&mut self, id: EntityId) -> (r: Option<&mut Entity>)
        ensures
            match lookup(old(self).ents(), id) {
                Some(e) => r matches Some(m) && *m == e
                    && final(self).ents() == old(self).ents().update(id_index(old(self).ents(), id), *final(m))
                    && final(self).next() == old(self).next(),
                None => r is None && *final(self) == *old(self),
            },
    {
        match self.find(id) {
            Some(k) => Some(&mut self.entities[k]),
            None => None,
        }
    }

    /// All entities, in spawn order.
    pub fn entities(&self) -> (r: &[Entity])
        ensures
            r@ == self.ents(),
    {
        self.entities.as_slice()
    }

    /// The first living actor at `pos` of `level`.
    pub fn alive_actor_at(&self, level: LevelId, pos: Pos) -> (r: Option<EntityId>)
        ensures
            r == first_living_at(self.ents(), level, pos, false),
    {
        self.first_living(level, pos, false)
    }

    /// The first living actor at `pos` of `level`.
    pub fn alive_entity_at(&self, level: LevelId, pos: Pos) -> (r: Option<EntityId>)
        ensures
            r == first_living_at(self.ents(), level, pos, false),
    {
        self.alive_actor_at(level, pos)
    }

    /// The first living hostile actor at `pos` of `level`.
    pub fn alive_hostile_at(&self, level: LevelId, pos: Pos) -> (r: Option<EntityId>)
        ensures
            r == first_living_at(self.ents(), level, pos, true),
    {
        self.first_living(level, pos, true)
    }

    fn first_living(&self, level: LevelId, pos: Pos, hostile_only: bool) -> (r: Option<EntityId>)
        ensures
            r == first_living_at(self.ents(), level, pos, hostile_only),
    {
        let n = self.entities.len();
        let mut k: usize = 0;
        proof { assert(self.entities@.skip(0) == self.entities@); }
        while k < n
            invariant
                k <= n,
                n == self.entities@.len(),
                first_living_at(self.entities@, level, pos, hostile_only)
                    == first_living_at(self.entities@.skip(k as int), level, pos, hostile_only),
            decreases n - k,
        {
            proof {
                assert(self.entities@.skip(k as int)[0] == self.entities@[k as int]);
                assert(self.entities@.skip(k as int).drop_first() == self.entities@.skip(k + 1));
            }
            let e = &self.entities[k];
            match e.actor() {
                Some((_, faction, actor_level, actor_pos, _, alive)) => {
                    if alive && actor_level == level && actor_pos == pos && (!hostile_only || faction == Faction::Hostile) {
                        return Some(e.id);
                    }
                },
                None => {},
            }
            k = k + 1;
        }
        None
    }

    /// The items lying at `pos` of `level`, in order of identifier.
    pub fn items_at(&self, level: LevelId, pos: Pos) -> (r: Vec<EntityId>)
        requires
            self.wf(),
        ensures
            r@ == items_on(self.ents(), level, pos),
    {
        let n = self.entities.len();
        let mut out: Vec<EntityId> = Vec::new();
        let mut k: usize = 0;
        while k < n
            invariant
                k <= n,
                n == self.entities@.len(),
                out@ == items_on(self.entities@.take(k as int), level, pos),
            decreases n - k,
        {
            proof {
                assert(self.entities@.take(k + 1).drop_last() == self.entities@.take(k as int));
                assert(self.entities@.take(k + 1).last() == self.entities@[k as int]);
            }
            let e = &self.entities[k];
            match e.item() {
                Some((_, _, location, _)) => {
                    if location == (EntityLocation::OnMap { level, pos }) {
                        out.push(e.id);
                    }
                },
                None => {},
            }
            proof {
                assert(out@ == items_on(self.entities@.take(k + 1), level, pos));
            }
            k = k + 1;
        }
        proof { assert(self.entities@.take(n as int) == self.entities@); }
        out
    }

    /// The first item (lowest identifier) lying at `pos` of `level`.
    pub fn item_at(&self, level: LevelId, pos: Pos) -> (r: Option<EntityId>)
        requires
            self.wf(),
        ensures
            items_on(self.ents(), level, pos).len() > 0 ==> r == Some(items_on(self.ents(), level, pos)[0]),
            items_on(self.ents(), level, pos).len() == 0 ==> r is None,
    {
        let items = self.items_at(level, pos);
        if items.len() > 0 {
            Some(items[0])
        } else {
            None
        }
    }

    /// The items in the pack of `owner`, in store order.
    pub fn inventory_items(&self, owner: EntityId) -> (r: Vec<EntityId>)
        ensures
            r@ == items_held(self.ents(), owner),
    {
        let n = self.entities.len();
        let mut out: Vec<EntityId> = Vec::new();
        let mut k: usize = 0;
        while k < n
            invariant
                k <= n,
                n == self.entities@.len(),
                out@ == items_held(self.entities@.take(k as int), owner),
            decreases n - k,
        {
            proof {
                assert(self.entities@.take(k + 1).drop_last() == self.entities@.take(k as int));
                assert(self.entities@.take(k + 1).last() == self.entities@[k as int]);
            }
            let e = &self.entities[k];
            match e.item() {
                Some((_, _, location, _)) => {
                    if location == (EntityLocation::Inventory { owner }) {
                        out.push(e.id);
                    }
                },
                None => {},
            }
            proof {
                assert(out@ == items_held(self.entities@.take(k + 1), owner));
            }
            k = k + 1;
        }
        proof { assert(self.entities@.take(n as int) == self.entities@); }
        out
    }

    /// The living hostile monsters on `level`, in store order.
    pub fn hostile_monsters_on_level(&self, level: LevelId) -> (r: Vec<EntityId>)
        ensures
            r@ == hostiles_on(self.ents(), level),
    {
        let n = self.entities.len();
        let mut out: Vec<EntityId> = Vec::new();
        let mut k: usize = 0;
        while k < n
            invariant
                k <= n,
                n == self.entities@.len(),
                out@ == hostiles_on(self.entities@.take(k as int), level),
            decreases n - k,
        {
            proof {
                assert(self.entities@.take(k + 1).drop_last() == self.entities@.take(k as int));
                assert(self.entities@.take(k + 1).last() == self.entities@[k as int]);
            }
            let e = &self.entities[k];
            match e.actor() {
                Some((kind, faction, actor_level, _, _, alive)) => {
                    let is_monster = match kind { ActorKind::Monster(_) => true, ActorKind::Player => false };
                    if is_monster && faction == Faction::Hostile && actor_level == level && alive {
                        out.push(e.id);
                    }
                },
                None => {},
            }
            proof {
                assert(out@ == hostiles_on(self.entities@.take(k + 1), level));
            }
            k = k + 1;
        }
        proof { assert(self.entities@.take(n as int) == self.entities@); }
        out
    }

    /// Sets whether the actor `id` lives; false (and no change) when `id`
    /// names no actor.
    pub fn set_alive(&mut self, id: EntityId, alive: bool) -> (r: bool)
        ensures
            (old(self).wf() ==> final(self).wf()),
            final(self).next() == old(self).next(),
            match lookup(old(self).ents(), id) {
                Some(e) => match e.payload {
                    EntityPayload::Actor { kind, faction, location, stats, .. } => r && final(self).ents()
                        == old(self).ents().update(id_index(old(self).ents(), id), Entity { id: e.id,
                            payload: EntityPayload::Actor { kind, faction, location, stats, alive } }),
                    EntityPayload::Item { .. } => !r && *final(self) == *old(self),
                },
                None => !r && *final(self) == *old(self),
            },
    {
        let k = match self.find(id) {
            Some(k) => k,
            None => return false,
        };
        let ghost before = self.entities@;
        let e = self.entities[k].clone_entity();
        match e.payload {
            EntityPayload::Actor { kind, faction, location, stats, .. } => {
                self.entities.set(k, Entity { id: e.id, payload: EntityPayload::Actor { kind, faction, location, stats, alive } });
                proof { self.lemma_same_ids(before, k as int); }
                true
            },
            EntityPayload::Item { .. } => false,
        }
    }

    /// In a well-formed store each entity is the one its identifier finds.
    pub proof fn lemma_lookup_at(&self, k: int)
        requires
            self.wf(),
            0 <= k < self.ents().len(),
        ensures
            lookup(self.ents(), self.ents()[k].id) == Some(self.ents()[k]),
            id_index(self.ents(), self.ents()[k].id) == k,
    {
        let s = self.ents();
        let id = s[k].id;
        assert(has_id(s, id));
        lemma_id_index(s, id);
        let i = id_index(s, id);
        if i < k {
            assert(s[i].id.0 < s[k].id.0);
        } else if i > k {
            assert(s[k].id.0 < s[i].id.0);
        }
    }

    proof fn lemma_same_ids(&self, before: Seq<Entity>, k: int)
        requires
            0 <= k < before.len(),
            self.entities@.len() == before.len(),
            self.entities@[k].id == before[k].id,
            forall|j: int| 0 <= j < before.len() && j != k ==> self.entities@[j] == before[j],
        ensures
            forall|j: int| 0 <= j < before.len() ==> (#[trigger] self.entities@[j]).id == before[j].id,
    {
    }

    /// Moves the actor `id` to `pos` of its current level; false (and no
    /// change) when `id` names no actor on a level.
    pub fn set_pos(&mut self, id: EntityId, pos: Pos) -> (r: bool)
        ensures
            (old(self).wf() ==> final(self).wf()),
            final(self).next() == old(self).next(),
            match lookup(old(self).ents(), id) {
                Some(e) => match actor_view(e) {
                    Some(v) => r && final(self).ents() == old(self).ents().update(id_index(old(self).ents(), id),
                        with_location(e, EntityLocation::OnMap { level: v.2, pos })),
                    None => !r && *final(self) == *old(self),
                },
                None => !r && *final(self) == *old(self),
            },
    {
        let level = match self.actor_location(id) {
            Some((level, _)) => level,
            None => return false,
        };
        self.set_actor_location(id, level, pos)
    }

    /// The level and position of the actor `id`, when it is on a level.
    pub fn actor_location(&self, id: EntityId) -> (r: Option<(LevelId, Pos)>)
        ensures
            r == (match lookup(self.ents(), id) {
                Some(e) => match actor_view(e) { Some(v) => Some((v.2, v.3)), None => None },
                None => None,
            }),
    {
        match self.get(id) {
            Some(entity) => match entity.actor() {
                Some((_, _, level, pos, _, _)) => Some((level, pos)),
                None => None,
            },
            None => None,
        }
    }

    /// Puts the actor `id` at `pos` of `level`; false (and no change) when
    /// `id` names no actor.
    pub(crate) fn set_actor_location(&mut self, id: EntityId, level: LevelId, pos: Pos) -> (r: bool)
        ensures
            (old(self).wf() ==> final(self).wf()),
            final(self).next() == old(self).next(),
            match lookup(old(self).ents(), id) {
                Some(e) => if e.payload is Actor {
                    r && final(self).ents() == old(self).ents().update(id_index(old(self).ents(), id),
                        with_location(e, EntityLocation::OnMap { level, pos }))
                } else {
                    !r && *final(self) == *old(self)
                },
                None => !r && *final(self) == *old(self),
            },
    {
        let k = match self.find(id) {
            Some(k) => k,
            None => return false,
        };
        let ghost before = self.entities@;
        let e = self.entities[k].clone_entity();
        match e.payload {
            EntityPayload::Actor { kind, faction, stats, alive, .. } => {
                self.entities.set(k, Entity { id: e.id, payload: EntityPayload::Actor { kind, faction,
                    location: EntityLocation::OnMap { level, pos }, stats, alive } });
                proof { self.lemma_same_ids(before, k as int); }
                true
            },
            EntityPayload::Item { .. } => false,
        }
    }

    /// Moves the item `id` to `next`; false (and no change) when `id` names
    /// no item.
    pub fn set_item_location(&mut self, id: EntityId, next: EntityLocation) -> (r: bool)
        ensures
            (old(self).wf() ==> final(self).wf()),
            final(self).next() == old(self).next(),
            match lookup(old(self).ents(), id) {
                Some(e) => match e.payload {
                    EntityPayload::Item { kind, data, assigned_letter, .. } => r && final(self).ents()
                        == old(self).ents().update(id_index(old(self).ents(), id), Entity { id: e.id,
                            payload: EntityPayload::Item { kind, data, location: next, assigned_letter } }),
                    EntityPayload::Actor { .. } => !r && *final(self) == *old(self),
                },
                None => !r && *final(self) == *old(self),
            },
    {
        let k = match self.find(id) {
            Some(k) => k,
            None => return false,
        };
        let ghost before = self.entities@;
        let e = self.entities[k].clone_entity();
        match e.payload {
            EntityPayload::Item { kind, data, assigned_letter, .. } => {
                self.entities.set(k, Entity { id: e.id, payload: EntityPayload::Item { kind, data, location: next, assigned_letter } });
                proof { self.lemma_same_ids(before, k as int); }
                true
            },
            EntityPayload::Actor { .. } => false,
        }
    }

    /// Gives the item `id` the letter `letter`; false (and no change) when
    /// `id` names no item.
    pub fn set_item_letter(&mut self, id: EntityId, letter: InventoryLetter) -> (r: bool)
        ensures
            (old(self).wf() ==> final(self).wf()),
            final(self).next() == old(self).next(),
            match lookup(old(self).ents(), id) {
                Some(e) => match e.payload {
                    EntityPayload::Item { kind, data, location, .. } => r && final(self).ents()
                        == old(self).ents().update(id_index(old(self).ents(), id), Entity { id: e.id,
                            payload: EntityPayload::Item { kind, data, location, assigned_letter: Some(letter) } }),
                    EntityPayload::Actor { .. } => !r && *final(self) == *old(self),
                },
                None => !r && *final(self) == *old(self),
            },
    {
        let k = match self.find(id) {
            Some(k) => k,
            None => return false,
        };
        let ghost before = self.entities@;
        let e = self.entities[k].clone_entity();
        match e.payload {
            EntityPayload::Item { kind, data, location, .. } => {
                self.entities.set(k, Entity { id: e.id, payload: EntityPayload::Item { kind, data, location,
                    assigned_letter: Some(letter) } });
                proof { self.lemma_same_ids(before, k as int); }
                true
            },
            EntityPayload::Actor { .. } => false,
        }
    }

    /// The stats of the actor `id`, when it is on a level.
    pub fn actor_stats(&self, id: EntityId) -> (r: Option<&ActorStats>)
        ensures
            match lookup(self.ents(), id) {
                Some(e) => match actor_view(e) { Some(v) => r == Some(&v.4), None => r is None },
                None => r is None,
            },
    {
        match self.get(id) {
            Some(entity) => match entity.actor() {
                Some((_, _, _, _, stats, _)) => Some(stats),
                None => None,
            },
            None => None,
        }
    }

    /// The stats of the actor `id`, to change.
    pub fn actor_stats_mut(&mut self, id: EntityId) -> (r: Option<&mut ActorStats>)
        ensures
            final(self).next() == old(self).next(),
            match lookup(old(self).ents(), id) {
                Some(e) => match e.payload {
                    EntityPayload::Actor { kind, faction, location, stats, alive } => r matches Some(m) && *m == stats
                        && final(self).ents() == old(self).ents().update(id_index(old(self).ents(), id), Entity { id: e.id,
                            payload: EntityPayload::Actor { kind, faction, location, stats: *final(m), alive } }),
                    EntityPayload::Item { .. } => r is None && final(self).ents() == old(self).ents(),
                },
                None => r is None && *final(self) == *old(self),
            },
    {
        let ghost before = self.ents();
        match self.get_mut(id) {
            Some(entity) => match entity.actor_mut() {
                Some((_, stats, _)) => Some(stats),
                None => {
                    proof { lemma_id_index(before, id); }
                    None
                },
            },
            None => None,
        }
    }

    /// The data of the item `id`.
    pub fn item_data(&self, id: EntityId) -> (r: Option<&ItemData>)
        ensures
            match lookup(self.ents(), id) {
                Some(e) => match item_view(e) { Some(v) => r == Some(&v.1), None => r is None },
                None => r is None,
            },
    {
        match self.get(id) {
            Some(entity) => match entity.item() {
                Some((_, data, _, _)) => Some(data),
                None => None,
            },
            None => None,
        }
    }

    /// The location of the item `id`.
    pub fn item_location(&self, id: EntityId) -> (r: Option<EntityLocation>)
        ensures
            r == (match lookup(self.ents(), id) {
                Some(e) => match item_view(e) { Some(v) => Some(v.2), None => None },
                None => None,
            }),
    {
        match self.get(id) {
            Some(entity) => match entity.item() {
                Some((_, _, location, _)) => Some(location),
                None => None,
            },
            None => None,
        }
    }

    /// The letter of the item `id`, if it has one.
    pub fn item_letter(&self, id: EntityId) -> (r: Option<InventoryLetter>)
        ensures
            r == (match lookup(self.ents(), id) {
                Some(e) => match item_view(e) { Some(v) => v.3, None => None },
                None => None,
            }),
    {
        match self.get(id) {
            Some(entity) => match entity.item() {
                Some((_, _, _, letter)) => letter,
                None => None,
            },
            None => None,
        }
    }

    /// Takes the life of every monster; players and items are left alone.
    pub fn clear_monsters(&mut self)
        ensures
            (old(self).wf() ==> final(self).wf()),
            final(self).next() == old(self).next(),
            final(self).ents().len() == old(self).ents().len(),
            forall|i: int| 0 <= i < old(self).ents().len() ==> #[trigger] final(self).ents()[i]
                == without_monster(old(self).ents()[i]),
    {
        let ghost start = self.entities@;
        let n = self.entities.len();
        let mut k: usize = 0;
        while k < n
            invariant
                k <= n,
                n == self.entities@.len(),
                start.len() == n,
                self.next_id == old(self).next_id,
                start == old(self).entities@,
                forall|i: int| 0 <= i < k ==> #[trigger] self.entities@[i] == without_monster(start[i]),
                forall|i: int| k <= i < n ==> #[trigger] self.entities@[i] == start[i],
            decreases n - k,
        {
            let e = self.entities[k].clone_entity();
            match e.payload {
                EntityPayload::Actor { kind: ActorKind::Monster(m), faction, location, stats, .. } => {
                    self.entities.set(k, Entity { id: e.id, payload: EntityPayload::Actor {
                        kind: ActorKind::Monster(m), faction, location, stats, alive: false } });
                },
                _ => {},
            }
            k = k + 1;
        }
        proof {
            assert forall|i: int| 0 <= i < n implies (#[trigger] self.entities@[i]).id == start[i].id by {
                assert(self.entities@[i] == without_monster(start[i]));
            }
        }
    }
}

/// A spawned entity is what its new identifier finds, and every earlier
/// entity is still found by its own identifier.
pub proof fn spawned_entity_is_found(before: EntityStore, after: EntityStore, e: Entity)
    requires
        before.wf(),
        e.id == EntityId(before.next()),
        after.ents() == before.ents().push(e),
        after.next() == before.next() + 1,
    ensures
        after.wf(),
        lookup(after.ents(), e.id) == Some(e),
        forall|k: int| 0 <= k < before.ents().len() ==> lookup(after.ents(), #[trigger] before.ents()[k].id)
            == Some(before.ents()[k]),
{
    assert(after.wf()) by {
        assert forall|i: int, j: int| 0 <= i < j < after.ents().len() implies (#[trigger] after.ents()[i]).id.0
            < (#[trigger] after.ents()[j]).id.0 by {
            if j == before.ents().len() {
                assert(after.ents()[i] == before.ents()[i]);
            } else {
                assert(after.ents()[i] == before.ents()[i]);
                assert(after.ents()[j] == before.ents()[j]);
            }
        }
        assert forall|i: int| 0 <= i < after.ents().len() implies 1 <= (#[trigger] after.ents()[i]).id.0 < after.next() by {
            if i < before.ents().len() {
                assert(after.ents()[i] == before.ents()[i]);
            }
        }
    }
    after.lemma_lookup_at(after.ents().len() - 1);
    assert forall|k: int| 0 <= k < before.ents().len() implies lookup(after.ents(), #[trigger] before.ents()[k].id)
        == Some(before.ents()[k]) by {
        assert(after.ents()[k] == before.ents()[k]);
        after.lemma_lookup_at(k);
    }
}

/// A moved actor is found where it was moved, on the same level and with
/// the same stats and life; every other identifier finds what it found
/// before.
pub proof fn moved_actor_is_found_there(before: EntityStore, after: EntityStore, id: EntityId, pos: Pos, other: EntityId)
    requires
        before.wf(),
        after.wf(),
        lookup(before.ents(), id) is Some,
        actor_view(lookup(before.ents(), id)->0) is Some,
        after.ents() == before.ents().update(id_index(before.ents(), id), with_location(lookup(before.ents(), id)->0,
            EntityLocation::OnMap { level: (actor_view(lookup(before.ents(), id)->0)->0).2, pos })),
    ensures
        ({
            let v = actor_view(lookup(before.ents(), id)->0)->0;
            lookup(after.ents(), id) matches Some(e) && actor_view(e) matches Some(w)
                && w == (v.0, v.1, v.2, pos, v.4, v.5)
        }),
        other != id ==> lookup(after.ents(), other) == lookup(before.ents(), other),
{
    let b = before.ents();
    let a = after.ents();
    lemma_id_index(b, id);
    let k = id_index(b, id);
    assert(a[k].id == id);
    after.lemma_lookup_at(k);
    if other != id {
        if has_id(b, other) {
            lemma_id_index(b, other);
            let j = id_index(b, other);
            before.lemma_lookup_at(j);
            assert(a[j] == b[j]);
            after.lemma_lookup_at(j);
        } else {
            assert forall|i: int| 0 <= i < a.len() implies #[trigger] a[i].id != other by {
                assert(a[i].id == b[i].id);
            }
        }
    }
}

} // verus!
