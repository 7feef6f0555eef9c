//! Item kinds and the game data built from their content definitions.
use vstd::prelude::*;
use crate::error::{ContentError, Fault, fault_of};
use crate::data::schema::{ContentRegistry, keyed_entry};
use crate::data::schema::ItemData as ItemDefinition;
use crate::data::dice::{dice_parts, parse_dice};
use crate::domain::combat::{AttackProfile, DamageRoll};
use crate::text::{str_eq, str_chars};

verus! {

/// The kinds of item.
#[derive(Debug, Clone, Copy, PartialEq, Eq, Hash, Structural)]
pub enum ItemKind {
    Dagger,
    FoodRation,
    PotionHealing,
    WandMagicMissile,
    ScrollReveal,
    ScrollIdentify,
    ScrollLevelTeleport,
    Rock,
    ArmorLeather,
    CorpseJackal,
}

/// The broad class of an item, which decides what can be done with it.
#[derive(Debug, Clone, Copy, PartialEq, Eq, Hash, Structural)]
pub enum ItemClass {
    Weapon,
    Food,
    Potion,
    Wand,
    Scroll,
    Rock,
    Armor,
    Corpse,
}

/// Where an item is worn or wielded.
#[derive(Debug, Clone, Copy, PartialEq, Eq, Hash, Structural)]
pub enum EquipmentSlot {
    Melee,
    Body,
}

/// What using up an item does.
#[derive(Debug, Clone, Copy, PartialEq, Eq, Hash, Structural)]
pub enum ConsumableEffect {
    Heal { dice: i16, sides: i16, bonus: i16 },
    RevealLevel,
    IdentifySingle,
    LevelTeleport,
}

/// What zapping a wand does.
#[derive(Debug, Clone, Copy, PartialEq, Eq, Hash, Structural)]
pub enum WandEffect {
    MagicMissile,
}

/// The game data of an item kind.
#[derive(Debug, Clone, Copy, PartialEq, Eq)]
pub struct ItemData {
    pub kind: ItemKind,
    pub class: ItemClass,
    pub glyph: char,
    pub weight: i16,
    pub base_price: u32,
    pub attack_profile: Option<AttackProfile>,
    pub consumable_effect: Option<ConsumableEffect>,
    pub wand_effect: Option<WandEffect>,
    pub max_charges: Option<u8>,
    pub nutrition: Option<i16>,
}

/// The content identifier of each item kind.
pub open spec fn item_id_text(kind: ItemKind) -> Seq<char> {
    match kind {
        ItemKind::Dagger => "item.weapon.dagger"@,
        ItemKind::FoodRation => "item.food.ration"@,
        ItemKind::PotionHealing => "item.potion.healing"@,
        ItemKind::WandMagicMissile => "item.wand.magic_missile"@,
        ItemKind::ScrollReveal => "item.scroll.reveal"@,
        ItemKind::ScrollIdentify => "item.scroll.identify"@,
        ItemKind::ScrollLevelTeleport => "item.scroll.teleport"@,
        ItemKind::Rock => "item.weapon.rock"@,
        ItemKind::ArmorLeather => "item.armor.leather"@,
        ItemKind::CorpseJackal => "item.corpse.jackal"@,
    }
}

fn item_id(kind: ItemKind) -> (r: &'static str)
    ensures
        r@ == item_id_text(kind),
{
    match kind {
        ItemKind::Dagger => "item.weapon.dagger",
        ItemKind::FoodRation => "item.food.ration",
        ItemKind::PotionHealing => "item.potion.healing",
        ItemKind::WandMagicMissile => "item.wand.magic_missile",
        ItemKind::ScrollReveal => "item.scroll.reveal",
        ItemKind::ScrollIdentify => "item.scroll.identify",
        ItemKind::ScrollLevelTeleport => "item.scroll.teleport",
        ItemKind::Rock => "item.weapon.rock",
        ItemKind::ArmorLeather => "item.armor.leather",
        ItemKind::CorpseJackal => "item.corpse.jackal",
    }
}

/// The item kind with content identifier `id`, if any.
pub open spec fn kind_of_id(id: Seq<char>) -> Option<ItemKind> {
    if id == item_id_text(ItemKind::Dagger) { Some(ItemKind::Dagger) }
    else if id == item_id_text(ItemKind::FoodRation) { Some(ItemKind::FoodRation) }
    else if id == item_id_text(ItemKind::PotionHealing) { Some(ItemKind::PotionHealing) }
    else if id == item_id_text(ItemKind::WandMagicMissile) { Some(ItemKind::WandMagicMissile) }
    else if id == item_id_text(ItemKind::ScrollReveal) { Some(ItemKind::ScrollReveal) }
    else if id == item_id_text(ItemKind::ScrollIdentify) { Some(ItemKind::ScrollIdentify) }
    else if id == item_id_text(ItemKind::ScrollLevelTeleport) { Some(ItemKind::ScrollLevelTeleport) }
    else if id == item_id_text(ItemKind::Rock) { Some(ItemKind::Rock) }
    else if id == item_id_text(ItemKind::ArmorLeather) { Some(ItemKind::ArmorLeather) }
    else if id == item_id_text(ItemKind::CorpseJackal) { Some(ItemKind::CorpseJackal) }
    else { None }
}

/// The item kind of a content identifier; `UnknownReference` (owner
/// `item kind`) for any other identifier.
pub fn item_kind_from_id(id: &str) -> (r: Result<ItemKind, ContentError>)
    ensures
        match kind_of_id(id@) {
            Some(k) => r == Ok::<ItemKind, ContentError>(k),
            None => r matches Err(e) && fault_of(e) == Fault::Unknown("item kind"@, id@),
        },
{
    if str_eq(id, item_id(ItemKind::Dagger)) { Ok(ItemKind::Dagger) }
    else if str_eq(id, item_id(ItemKind::FoodRation)) { Ok(ItemKind::FoodRation) }
    else if str_eq(id, item_id(ItemKind::PotionHealing)) { Ok(ItemKind::PotionHealing) }
    else if str_eq(id, item_id(ItemKind::WandMagicMissile)) { Ok(ItemKind::WandMagicMissile) }
    else if str_eq(id, item_id(ItemKind::ScrollReveal)) { Ok(ItemKind::ScrollReveal) }
    else if str_eq(id, item_id(ItemKind::ScrollIdentify)) { Ok(ItemKind::ScrollIdentify) }
    else if str_eq(id, item_id(ItemKind::ScrollLevelTeleport)) { Ok(ItemKind::ScrollLevelTeleport) }
    else if str_eq(id, item_id(ItemKind::Rock)) { Ok(ItemKind::Rock) }
    else if str_eq(id, item_id(ItemKind::ArmorLeather)) { Ok(ItemKind::ArmorLeather) }
    else if str_eq(id, item_id(ItemKind::CorpseJackal)) { Ok(ItemKind::CorpseJackal) }
    else {
        Err(ContentError::UnknownReference { owner: "item kind".to_string(), target: id.to_string() })
    }
}

/// The item class named by a content kind string.
pub open spec fn class_named(s: Seq<char>) -> Option<ItemClass> {
    if s == "weapon"@ { Some(ItemClass::Weapon) }
    else if s == "food"@ { Some(ItemClass::Food) }
    else if s == "potion"@ { Some(ItemClass::Potion) }
    else if s == "wand"@ { Some(ItemClass::Wand) }
    else if s == "scroll"@ { Some(ItemClass::Scroll) }
    else if s == "armor"@ { Some(ItemClass::Armor) }
    else if s == "corpse"@ { Some(ItemClass::Corpse) }
    else { None }
}

/// The damage of a damage string: none for `0`, else the two numbers of
/// `NdM`.
pub open spec fn damage_named(s: Seq<char>) -> Option<DamageRoll> {
    if s == "0"@ {
        Some(DamageRoll { dice: 0, sides: 0 })
    } else {
        match dice_parts(s) {
            Some((a, b)) => Some(DamageRoll { dice: a as i16, sides: b as i16 }),
            None => None,
        }
    }
}

/// Reads a damage string: no damage for `0`, else `NdM`; `InvalidDice`
/// with the string otherwise.
pub fn parse_damage(value: &str) -> (r: Result<DamageRoll, ContentError>)
    ensures
        match damage_named(value@) {
            Some(d) => r == Ok::<DamageRoll, ContentError>(d),
            None => r matches Err(e) && fault_of(e) == Fault::Dice(value@),
        },
{
    if str_eq(value, "0") {
        return Ok(DamageRoll::none());
    }
    match parse_dice(value) {
        Some((dice, sides)) => Ok(DamageRoll::new(dice, sides)),
        None => Err(ContentError::InvalidDice { value: value.to_string() }),
    }
}

/// The consumable effect named by an effect string; `Err` for an unknown
/// name. A magic missile (or no effect) is no consumable effect.
pub open spec fn effect_named(e: Option<Seq<char>>) -> Result<Option<ConsumableEffect>, ()> {
    match e {
        None => Ok(None),
        Some(s) => if s == "heal_1d8_plus_4"@ { Ok(Some(ConsumableEffect::Heal { dice: 1, sides: 8, bonus: 4 })) }
            else if s == "reveal"@ { Ok(Some(ConsumableEffect::RevealLevel)) }
            else if s == "identify"@ { Ok(Some(ConsumableEffect::IdentifySingle)) }
            else if s == "teleport"@ { Ok(Some(ConsumableEffect::LevelTeleport)) }
            else if s == "magic_missile"@ { Ok(None) }
            else { Err(()) },
    }
}

/// The name of the attack an item kind makes.
pub open spec fn attack_name(kind: ItemKind) -> Seq<char> {
    match kind {
        ItemKind::Dagger => "dagger"@,
        ItemKind::Rock => "rock"@,
        _ => "weapon"@,
    }
}

/// The view of an optional string.
pub open spec fn opt_view(o: Option<String>) -> Option<Seq<char>> {
    match o {
        Some(s) => Some(s@),
        None => None,
    }
}

/// The first fault in building the data of `kind` from its definition `d`:
/// an unknown class, an empty glyph, a bad damage string, an unknown
/// effect.
pub open spec fn definition_fault(kind: ItemKind, d: ItemDefinition) -> Option<Fault> {
    if class_named(d.kind@) is None {
        Some(Fault::Unknown(item_id_text(kind), d.kind@))
    } else if d.glyph@.len() == 0 {
        Some(Fault::Parse(item_id_text(kind), "glyph must contain one character"@))
    } else if d.damage matches Some(v) && damage_named(v@) is None {
        Some(Fault::Dice(d.damage->0@))
    } else if effect_named(opt_view(d.effect)) is Err {
        Some(Fault::Unknown(item_id_text(kind), d.effect->0@))
    } else {
        None
    }
}

/// Whether `r` is the data of `kind` built from the definition `d` (which
/// has no fault): the class named by the definition (always `Rock` for a
/// rock), the first glyph character, weight, price (0 when absent, as
/// `u32`), attack from the damage string with the definition's hit bonus
/// (0 when absent), effects, charges and nutrition.
pub open spec fn built_from(r: ItemData, kind: ItemKind, d: ItemDefinition) -> bool {
    &&& r.kind == kind
    &&& r.class == (if kind == ItemKind::Rock { ItemClass::Rock } else { class_named(d.kind@)->0 })
    &&& r.glyph == d.glyph@[0]
    &&& r.weight == d.weight
    &&& r.base_price == (match d.base_price { Some(p) => p as u32, None => 0u32 })
    &&& match d.damage {
        Some(v) => r.attack_profile matches Some(a) && a.name@ == attack_name(kind)
            && a.hit_bonus == (match d.hit_bonus { Some(h) => h, None => 0i16 })
            && Some(a.damage) == damage_named(v@),
        None => r.attack_profile is None,
    }
    &&& Ok::<Option<ConsumableEffect>, ()>(r.consumable_effect) == effect_named(opt_view(d.effect))
    &&& r.wand_effect == (if opt_view(d.effect) == Some("magic_missile"@) { Some(WandEffect::MagicMissile) } else { None })
    &&& r.max_charges == d.charges
    &&& r.nutrition == d.nutrition
}

fn effect_of(kind: ItemKind, e: &Option<String>) -> (r: Result<Option<ConsumableEffect>, ContentError>)
    ensures
        match effect_named(opt_view(*e)) {
            Ok(x) => r == Ok::<Option<ConsumableEffect>, ContentError>(x),
            Err(_) => r matches Err(err) && fault_of(err) == Fault::Unknown(item_id_text(kind), e->0@),
        },
{
    match e {
        None => Ok(None),
        Some(s) => {
            if str_eq(s.as_str(), "heal_1d8_plus_4") {
                Ok(Some(ConsumableEffect::Heal { dice: 1, sides: 8, bonus: 4 }))
            } else if str_eq(s.as_str(), "reveal") {
                Ok(Some(ConsumableEffect::RevealLevel))
            } else if str_eq(s.as_str(), "identify") {
                Ok(Some(ConsumableEffect::IdentifySingle))
            } else if str_eq(s.as_str(), "teleport") {
                Ok(Some(ConsumableEffect::LevelTeleport))
            } else if str_eq(s.as_str(), "magic_missile") {
                Ok(None)
            } else {
                Err(ContentError::UnknownReference { owner: item_id(kind).to_string(), target: s.clone() })
            }
        },
    }
}

fn class_of(kind: ItemKind, s: &String) -> (r: Result<ItemClass, ContentError>)
    ensures
        match class_named(s@) {
            Some(c) => r == Ok::<ItemClass, ContentError>(c),
            None => r matches Err(err) && fault_of(err) == Fault::Unknown(item_id_text(kind), s@),
        },
{
    let t = s.as_str();
    if str_eq(t, "weapon") { Ok(ItemClass::Weapon) }
    else if str_eq(t, "food") { Ok(ItemClass::Food) }
    else if str_eq(t, "potion") { Ok(ItemClass::Potion) }
    else if str_eq(t, "wand") { Ok(ItemClass::Wand) }
    else if str_eq(t, "scroll") { Ok(ItemClass::Scroll) }
    else if str_eq(t, "armor") { Ok(ItemClass::Armor) }
    else if str_eq(t, "corpse") { Ok(ItemClass::Corpse) }
    else { Err(ContentError::UnknownReference { owner: item_id(kind).to_string(), target: s.clone() }) }
}

/// Builds the data of `kind` from its definition.
pub fn item_data_from_definition(kind: ItemKind, definition: &ItemDefinition) -> (r: Result<ItemData, ContentError>)
    ensures
        match definition_fault(kind, *definition) {
            Some(f) => r matches Err(e) && fault_of(e) == f,
            None => r matches Ok(d) && built_from(d, kind, *definition),
        },
{
    let class = match class_of(kind, &definition.kind) { Ok(c) => c, Err(e) => return Err(e) };
    let class = if kind == ItemKind::Rock { ItemClass::Rock } else { class };
    let glyph_chars = str_chars(definition.glyph.as_str());
    if glyph_chars.len() == 0 {
        return Err(ContentError::Parse {
            file: item_id(kind).to_string(),
            message: "glyph must contain one character".to_string(),
        });
    }
    let glyph = glyph_chars[0];
    let attack_profile = match &definition.damage {
        Some(value) => {
            let damage = match parse_damage(value.as_str()) { Ok(d) => d, Err(e) => return Err(e) };
            let name: &'static str = match kind {
                ItemKind::Dagger => "dagger",
                ItemKind::Rock => "rock",
                _ => "weapon",
            };
            let hit_bonus: i16 = match definition.hit_bonus { Some(h) => h, None => 0 };
            Some(AttackProfile { name, hit_bonus, damage })
        },
        None => None,
    };
    let consumable_effect = match effect_of(kind, &definition.effect) { Ok(x) => x, Err(e) => return Err(e) };
    let is_missile = match &definition.effect {
        Some(s) => str_eq(s.as_str(), "magic_missile"),
        None => false,
    };
    let base_price: u32 = match definition.base_price { Some(p) => p as u32, None => 0 };
    Ok(ItemData {
        kind,
        class,
        glyph,
        weight: definition.weight,
        base_price,
        attack_profile,
        consumable_effect,
        wand_effect: if is_missile { Some(WandEffect::MagicMissile) } else { None },
        max_charges: definition.charges,
        nutrition: definition.nutrition,
    })
}

/// The fault in looking up and building the data of `kind`: an unknown
/// reference (owner `item factory`) when the registry lacks its
/// definition, else the definition's own fault.
pub open spec fn item_fault(registry: ContentRegistry, kind: ItemKind) -> Option<Fault> {
    match keyed_entry(registry.item_seq(), item_id_text(kind)) {
        None => Some(Fault::Unknown("item factory"@, item_id_text(kind))),
        Some(d) => definition_fault(kind, d),
    }
}

/// The data of `kind` from the registry's definition of it, or the first
/// fault.
pub fn try_item_data(kind: ItemKind, registry: &ContentRegistry) -> (r: Result<ItemData, ContentError>)
    ensures
        match item_fault(*registry, kind) {
            Some(f) => r matches Err(e) && fault_of(e) == f,
            None => r matches Ok(d) && built_from(d, kind, keyed_entry(registry.item_seq(), item_id_text(kind))->0),
        },
{
    let id = item_id(kind);
    match registry.item(id) {
        None => Err(ContentError::UnknownReference { owner: "item factory".to_string(), target: id.to_string() }),
        Some(definition) => item_data_from_definition(kind, definition),
    }
}

/// The data of `kind`; the registry must define it without fault.
pub fn item_data(kind: ItemKind, registry: &ContentRegistry) -> (r: ItemData)
    requires
        item_fault(*registry, kind) is None,
    ensures
        built_from(r, kind, keyed_entry(registry.item_seq(), item_id_text(kind))->0),
{
    match try_item_data(kind, registry) {
        Ok(d) => d,
        Err(_) => {
            proof {
                assert(false);
            }
            ItemData {
        kind,
        class: ItemClass::Rock,
        glyph: ' ',
        weight: 0,
        base_price: 0,
        attack_profile: None,
        consumable_effect: None,
        wand_effect: None,
                max_charges: None,
                nutrition: None,
            }
        },
    }
}

/// An unarmed blow: no bonus to hit, 1d2.
pub fn unarmed_attack() -> (r: AttackProfile)
    ensures
        r.name@ == "unarmed"@,
        r.hit_bonus == 0,
        r.damage == (DamageRoll { dice: 1, sides: 2 }),
{
    AttackProfile { name: "unarmed", hit_bonus: 0, damage: DamageRoll { dice: 1, sides: 2 } }
}

/// The shop price of `kind`: its base price.
pub fn shop_base_price(kind: ItemKind, registry: &ContentRegistry) -> (r: u32)
    requires
        item_fault(*registry, kind) is None,
    ensures
        r == (match keyed_entry(registry.item_seq(), item_id_text(kind))->0.base_price {
            Some(p) => p as u32,
            None => 0u32,
        }),
{
    item_data(kind, registry).base_price
}

} // verus!
