//! The game world: the fixed levels, the current level, every entity, the
//! player's pack and the player's running state.
use vstd::prelude::*;
use crate::ids::{EntityId, LevelId, Pos};
use crate::data::schema::ContentRegistry;
use crate::domain::combat::DeathCause;
use crate::domain::entity::{EntityLocation, EntityStore, Entity, EntityPayload, ActorKind, lookup, actor_view,
    item_view, kind_of, hostiles_on, EntityKind, without_monster, with_location, id_index};
use crate::domain::inventory::{Inventory, InventoryLetter, InventoryEntry, nth_letter};
use crate::domain::item::{ItemKind, item_fault};
use crate::domain::level::{LevelRegistry, has_level, level_index, lemma_level_index, phase5_level1_id};
use crate::domain::map::{GameMap, phase2_player_start};
use crate::domain::monster::{MonsterKind, monster_fault};
use crate::domain::status::{HungerState, Status, hunger_of};

verus! {

/// Where the jackal starts.
pub open spec fn phase3_jackal_start() -> Pos { Pos { x: 6, y: 5 } }
/// Where the goblin starts.
pub open spec fn phase3_goblin_start() -> Pos { Pos { x: 20, y: 12 } }
/// Where the potion lies.
pub open spec fn phase4_potion_start() -> Pos { Pos { x: 8, y: 5 } }
/// The charges a starting wand has.
pub const PHASE7_WAND_START_CHARGES: u8 = 3;

/// The world.
#[derive(Debug, Clone, PartialEq, Eq)]
pub struct GameWorld {
    pub levels: LevelRegistry,
    pub current_level: LevelId,
    pub entities: EntityStore,
    pub player_id: EntityId,
    pub inventory: Inventory,
    pub nutrition: i16,
    pub luck: i16,
    pub prayer_cooldown: u16,
    pub paralysis_turns: u8,
    pub hallucinating: bool,
    pub kill_count: u32,
    pub gold: u32,
    pub identified_items: Vec<ItemKind>,
    pub last_death_cause: Option<DeathCause>,
}

/// The place of each item kind in the order of declaration.
pub open spec fn kind_rank(k: ItemKind) -> int {
    match k {
        ItemKind::Dagger => 0,
        ItemKind::FoodRation => 1,
        ItemKind::PotionHealing => 2,
        ItemKind::WandMagicMissile => 3,
        ItemKind::ScrollReveal => 4,
        ItemKind::ScrollIdentify => 5,
        ItemKind::ScrollLevelTeleport => 6,
        ItemKind::Rock => 7,
        ItemKind::ArmorLeather => 8,
        ItemKind::CorpseJackal => 9,
    }
}

fn kind_rank_exec(k: ItemKind) -> (r: u8)
    ensures
        r == kind_rank(k),
{
    match k {
        ItemKind::Dagger => 0,
        ItemKind::FoodRation => 1,
        ItemKind::PotionHealing => 2,
        ItemKind::WandMagicMissile => 3,
        ItemKind::ScrollReveal => 4,
        ItemKind::ScrollIdentify => 5,
        ItemKind::ScrollLevelTeleport => 6,
        ItemKind::Rock => 7,
        ItemKind::ArmorLeather => 8,
        ItemKind::CorpseJackal => 9,
    }
}

/// Item kinds in strictly increasing declaration order.
pub open spec fn kinds_sorted(s: Seq<ItemKind>) -> bool {
    forall|i: int, j: int| 0 <= i < j < s.len() ==> kind_rank(#[trigger] s[i]) < kind_rank(#[trigger] s[j])
}

/// Whether the registry defines every monster and item of the fixed
/// dungeon without fault.
pub open spec fn content_complete(reg: ContentRegistry) -> bool {
    &&& monster_fault(reg, MonsterKind::Jackal) is None
    &&& monster_fault(reg, MonsterKind::Goblin) is None
    &&& forall|k: ItemKind| item_fault(reg, k) is None
}

/// The item kind and place of the `k`-th item of the fixed dungeon
/// (counting from 0 after the player and the two monsters).
pub open spec fn fixture_item(k: int) -> (ItemKind, Option<Pos>) {
    if k == 0 { (ItemKind::PotionHealing, Some(phase4_potion_start())) }
    else if k == 1 { (ItemKind::Dagger, None) }
    else if k == 2 { (ItemKind::FoodRation, None) }
    else if k == 3 { (ItemKind::WandMagicMissile, None) }
    else if k == 4 { (ItemKind::ScrollReveal, None) }
    else if k == 5 { (ItemKind::Rock, None) }
    else if k == 6 { (ItemKind::ArmorLeather, Some(Pos { x: 7, y: 5 })) }
    else if k == 7 { (ItemKind::ScrollIdentify, Some(Pos { x: 9, y: 5 })) }
    else { (ItemKind::ScrollLevelTeleport, Some(Pos { x: 11, y: 5 })) }
}

impl GameWorld {
    /// The current level.
    pub open spec fn level_now(&self) -> LevelId {
        self.current_level
    }

    /// The world is consistent: the store is well formed, every map is well
    /// formed, and the player is an actor (alive or not) on the current
    /// level.
    pub open spec fn wf(&self) -> bool {
        &&& self.entities.wf()
        &&& self.levels.wf()
        &&& lookup(self.entities.ents(), self.player_id) matches Some(e)
            && actor_view(e) matches Some(v) && v.2 == self.current_level
    }

    /// The player's entity.
    pub open spec fn player(&self) -> Entity {
        lookup(self.entities.ents(), self.player_id)->0
    }

    /// The player's level and position.
    pub open spec fn player_place(&self) -> (LevelId, Pos) {
        let v = actor_view(self.player())->0;
        (v.2, v.3)
    }

    /// The identified item kinds.
    pub open spec fn identified(&self) -> Seq<ItemKind> {
        self.identified_items@
    }

    /// The fixed world: two levels, the player (1) at (5, 5) of the first,
    /// a jackal (2) at (6, 5) and a goblin (3) at (20, 12), then nine items
    /// (4 to 12, see `fixture_item`): those with a place lie there on the
    /// first level, the others are in the player's pack with letters `a`
    /// to `e` in that order. 900 nutrition, no luck, nothing identified.
    pub open spec fn is_fixture(&self) -> bool {
        let r = *self;
        &&& r.level_now() == phase5_level1_id()
        &&& r.player_id == EntityId(1)
        &&& r.entities.ents().len() == 12
        &&& forall|i: int| 0 <= i < 12 ==> (#[trigger] r.entities.ents()[i]).id == EntityId((i + 1) as u32)
        &&& actor_view(r.entities.ents()[0]) matches Some(v) && v.0 == ActorKind::Player && v.3 == phase2_player_start() && v.5
        &&& actor_view(r.entities.ents()[1]) matches Some(v) && v.0 == ActorKind::Monster(MonsterKind::Jackal)
                && v.3 == phase3_jackal_start() && v.5
        &&& actor_view(r.entities.ents()[2]) matches Some(v) && v.0 == ActorKind::Monster(MonsterKind::Goblin)
                && v.3 == phase3_goblin_start() && v.5
        &&& forall|k: int| 0 <= k < 9 ==> #[trigger] fixture_item_placed(r.entities.ents()[k + 3], k)
        &&& r.inventory.owner == EntityId(1)
        &&& r.inventory.entries@.len() == 5
        &&& forall|k: int| 0 <= k < 5 ==> #[trigger] r.inventory.entries@[k] == (InventoryEntry {
                item: EntityId((k + 5) as u32), letter: InventoryLetter(nth_letter(k)) })
        &&& r.inventory.equipped_melee is None
        &&& r.nutrition == 900 && r.luck == 0 && r.prayer_cooldown == 0 && r.paralysis_turns == 0
        &&& !r.hallucinating && r.kill_count == 0 && r.gold == 0
        &&& r.identified().len() == 0
        &&& r.last_death_cause is None
    }

    /// The fixed world, as in the tests of earlier phases.
    pub fn fixture_phase2(registry: &ContentRegistry) -> (r: Self)
        requires
            content_complete(*registry),
        ensures
            r.wf(),
            r.is_fixture(),
    {
        Self::fixture_phase5(registry)
    }

    /// The fixed world, as in the tests of earlier phases.
    pub fn fixture_phase3(registry: &ContentRegistry) -> (r: Self)
        requires
            content_complete(*registry),
        ensures
            r.wf(),
            r.is_fixture(),
    {
        Self::fixture_phase5(registry)
    }

    /// The fixed world, as in the tests of earlier phases.
    pub fn fixture_phase4(registry: &ContentRegistry) -> (r: Self)
        requires
            content_complete(*registry),
        ensures
            r.wf(),
            r.is_fixture(),
    {
        Self::fixture_phase5(registry)
    }

    /// The fixed world (see `is_fixture`).
    pub fn fixture_phase5(registry: &ContentRegistry) -> (r: Self)
        requires
            content_complete(*registry),
        ensures
            r.wf(),
            r.is_fixture(),
    {
        let (entities, inventory) = fixture_entities(registry);
        let levels = LevelRegistry::fixture_phase5();
        proof {
            assert(levels.levels@[0].id == LevelId::spec_main(1));
            entities.lemma_lookup_at(0);
        }
        GameWorld {
            levels,
            current_level: LevelId::main(1),
            entities,
            player_id: EntityId(1),
            inventory,
            nutrition: 900,
            luck: 0,
            prayer_cooldown: 0,
            paralysis_turns: 0,
            hallucinating: false,
            kill_count: 0,
            gold: 0,
            identified_items: Vec::new(),
            last_death_cause: None,
        }
    }

    /// The fixed world without its monsters: every monster is dead.
    pub fn fixture_without_monsters(registry: &ContentRegistry) -> (r: Self)
        requires
            content_complete(*registry),
        ensures
            r.wf(),
            r.entities.ents().len() == 12,
            forall|i: int| 0 <= i < 12 ==> !(#[trigger] actor_view(r.entities.ents()[i]) matches Some(v)
                && v.0 is Monster && v.5),
            actor_view(r.entities.ents()[0]) matches Some(v) && v.0 == ActorKind::Player && v.5,
    {
        let mut world = Self::fixture_phase5(registry);
        world.entities.clear_monsters();
        proof {
            assert(world.entities.ents()[0] == without_monster(world.entities.ents()[0]));
            world.entities.lemma_lookup_at(0);
        }
        world
    }

    /// The current level.
    pub fn current_level(&self) -> (r: LevelId)
        ensures
            r == self.level_now(),
    {
        self.current_level
    }

    /// The map of the current level.
    pub fn current_map(&self) -> (r: &GameMap)
        requires
            has_level(self.levels.levels@, self.current_level),
        ensures
            *r == self.levels.map_of(self.current_level),
    {
        self.map(self.current_level)
    }

    /// The map of the current level, to change.
    pub fn current_map_mut(&mut self) -> (r: &mut GameMap)
        requires
            has_level(old(self).levels.levels@, old(self).current_level),
        ensures
            *r == old(self).levels.map_of(old(self).current_level),
            final(self).levels.levels@ == old(self).levels.levels@.update(level_index(old(self).levels.levels@,
                old(self).current_level), crate::domain::level::GameLevel { id: old(self).current_level, map: *final(r) }),
            final(self).current_level == old(self).current_level,
            final(self).entities == old(self).entities,
            final(self).player_id == old(self).player_id,
    {
        let level = self.current_level;
        self.map_mut(level)
    }

    /// The map of `level`, which must exist.
    pub fn map(&self, level: LevelId) -> (r: &GameMap)
        requires
            has_level(self.levels.levels@, level),
        ensures
            *r == self.levels.map_of(level),
    {
        match self.levels.map(level) {
            Some(m) => m,
            None => {
                proof { assert(false); }
                &self.levels.levels[0].map
            },
        }
    }

    /// The map of `level`, which must exist, to change.
    pub fn map_mut(&mut self, level: LevelId) -> (r: &mut GameMap)
        requires
            has_level(old(self).levels.levels@, level),
        ensures
            *r == old(self).levels.map_of(level),
            final(self).levels.levels@ == old(self).levels.levels@.update(level_index(old(self).levels.levels@, level),
                crate::domain::level::GameLevel { id: level, map: *final(r) }),
            final(self).current_level == old(self).current_level,
            final(self).entities == old(self).entities,
            final(self).player_id == old(self).player_id,
    {
        proof {
            lemma_level_index(self.levels.levels@, level);
        }
        let i = match self.levels.position(level) {
            Some(i) => i,
            None => {
                proof { assert(false); }
                0
            },
        };
        &mut self.levels.levels[i].map
    }

    /// The player's level and position.
    pub fn player_location(&self) -> (r: (LevelId, Pos))
        requires
            self.wf(),
        ensures
            r == self.player_place(),
            r.0 == self.level_now(),
    {
        match self.entities.actor_location(self.player_id) {
            Some(p) => p,
            None => {
                proof { assert(false); }
                (self.current_level, Pos { x: 0, y: 0 })
            },
        }
    }

    /// Moves the player to `pos` of `level`, which becomes the current
    /// level.
    pub fn set_player_location(&mut self, level: LevelId, pos: Pos)
        requires
            old(self).wf(),
        ensures
            final(self).wf(),
            final(self).level_now() == level,
            final(self).player_place() == (level, pos),
            final(self).player_id == old(self).player_id,
            final(self).levels == old(self).levels,
            final(self).entities.ents() == old(self).entities.ents().update(id_index(old(self).entities.ents(),
                old(self).player_id), with_location(old(self).player(), EntityLocation::OnMap { level, pos })),
    {
        let moved = self.entities.set_actor_location(self.player_id, level, pos);
        proof {
            let k = id_index(old(self).entities.ents(), old(self).player_id);
            crate::domain::entity::lemma_id_index(old(self).entities.ents(), old(self).player_id);
            crate::domain::entity::lemma_id_index(self.entities.ents(), self.player_id);
            assert(self.entities.ents()[k].id == self.player_id);
            assert(id_index(self.entities.ents(), self.player_id) == k);
        }
        self.current_level = level;
    }

    /// The player's position (on the current level).
    pub fn player_pos(&self) -> (r: Pos)
        requires
            self.wf(),
        ensures
            r == self.player_place().1,
    {
        let (_, pos) = self.player_location();
        pos
    }

    /// Moves the player to `pos` of the current level.
    pub fn set_player_pos(&mut self, pos: Pos)
        requires
            old(self).wf(),
        ensures
            final(self).wf(),
            final(self).level_now() == old(self).level_now(),
            final(self).player_place() == (old(self).level_now(), pos),
    {
        let level = self.current_level;
        self.set_player_location(level, pos);
    }

    /// Whether the player lives.
    pub fn player_alive(&self) -> (r: bool)
        ensures
            r == (match lookup(self.entities.ents(), self.player_id) {
                Some(e) => actor_view(e) matches Some(v) && v.5,
                None => false,
            }),
    {
        match self.entities.get(self.player_id) {
            Some(entity) => match entity.actor() {
                Some((_, _, _, _, _, alive)) => alive,
                None => false,
            },
            None => false,
        }
    }

    /// The living hostile monsters of the current level.
    pub fn current_level_hostile_monsters(&self) -> (r: Vec<EntityId>)
        ensures
            r@ == hostiles_on(self.entities.ents(), self.current_level),
    {
        self.entities.hostile_monsters_on_level(self.current_level)
    }

    /// Marks `kind` as identified; the identified kinds stay in declaration
    /// order, each once.
    pub fn identify_item_kind(&mut self, kind: ItemKind)
        requires
            kinds_sorted(old(self).identified()),
        ensures
            kinds_sorted(final(self).identified()),
            forall|k: ItemKind| #[trigger] final(self).identified().contains(k) == (old(self).identified().contains(k) || k == kind),
            final(self).identified().len() == old(self).identified().len() + (if old(self).identified().contains(kind) { 0int } else { 1int }),
            final(self).entities == old(self).entities,
            final(self).player_id == old(self).player_id,
            final(self).current_level == old(self).current_level,
    {
        let n = self.identified_items.len();
        let rank = kind_rank_exec(kind);
        let mut p: usize = 0;
        while p < n && kind_rank_exec(self.identified_items[p]) < rank
            invariant
                p <= n,
                n == self.identified_items@.len(),
                rank == kind_rank(kind),
                forall|q: int| 0 <= q < p ==> kind_rank(#[trigger] self.identified_items@[q]) < kind_rank(kind),
            decreases n - p,
        {
            p = p + 1;
        }
        let ghost before = self.identified_items@;
        if p < n && self.identified_items[p] == kind {
            proof {
                assert(before.contains(kind));
            }
            return;
        }
        proof {
            assert forall|q: int| p <= q < n implies kind_rank(kind) < kind_rank(#[trigger] before[q]) by {
                if q > p {
                    assert(kind_rank(before[p as int]) < kind_rank(before[q]));
                }
                if kind_rank(before[q]) == kind_rank(kind) {
                    assert(before[q] == kind);
                }
            }
            assert(!before.contains(kind)) by {
                if before.contains(kind) {
                    let q = choose|q: int| 0 <= q < before.len() && before[q] == kind;
                }
            }
        }
        self.identified_items.insert(p, kind);
        proof {
            let after = self.identified_items@;
            assert(after == before.insert(p as int, kind));
            assert forall|a: int, b: int| 0 <= a < b < after.len() implies kind_rank(#[trigger] after[a]) < kind_rank(#[trigger] after[b]) by {
                if b < p {
                } else if a < p && b == p {
                } else if a < p {
                    assert(kind_rank(before[a]) < kind_rank(kind));
                } else if a == p {
                } else {
                }
            }
            assert forall|k: ItemKind| #[trigger] after.contains(k) == (before.contains(k) || k == kind) by {
                if after.contains(k) {
                    let q = choose|q: int| 0 <= q < after.len() && after[q] == k;
                    if q < p {
                        assert(before[q] == k);
                    } else if q > p {
                        assert(before[q - 1] == k);
                    }
                }
                if before.contains(k) {
                    let q = choose|q: int| 0 <= q < before.len() && before[q] == k;
                    if q < p {
                        assert(after[q] == k);
                    } else {
                        assert(after[q + 1] == k);
                    }
                }
                if k == kind {
                    assert(after[p as int] == k);
                }
            }
        }
    }

    /// Whether `kind` is identified.
    pub fn is_item_identified(&self, kind: ItemKind) -> (r: bool)
        ensures
            r == self.identified().contains(kind),
    {
        let n = self.identified_items.len();
        let mut k: usize = 0;
        while k < n
            invariant
                k <= n,
                n == self.identified_items@.len(),
                forall|j: int| 0 <= j < k ==> self.identified_items@[j] != kind,
            decreases n - k,
        {
            if self.identified_items[k] == kind {
                return true;
            }
            k = k + 1;
        }
        false
    }

    /// The player's running state.
    pub fn status(&self) -> (r: Status)
        ensures
            r == (Status { nutrition: self.nutrition, luck: self.luck, prayer_cooldown: self.prayer_cooldown,
                paralysis_turns: self.paralysis_turns, hallucinating: self.hallucinating }),
    {
        Status {
            nutrition: self.nutrition,
            luck: self.luck,
            prayer_cooldown: self.prayer_cooldown,
            paralysis_turns: self.paralysis_turns,
            hallucinating: self.hallucinating,
        }
    }

    /// Replaces the player's running state.
    pub fn set_status(&mut self, status: Status)
        ensures
            final(self).nutrition == status.nutrition,
            final(self).luck == status.luck,
            final(self).prayer_cooldown == status.prayer_cooldown,
            final(self).paralysis_turns == status.paralysis_turns,
            final(self).hallucinating == status.hallucinating,
            final(self).entities == old(self).entities,
            final(self).levels == old(self).levels,
            final(self).player_id == old(self).player_id,
            final(self).current_level == old(self).current_level,
            final(self).inventory == old(self).inventory,
    {
        self.nutrition = status.nutrition;
        self.luck = status.luck;
        self.prayer_cooldown = status.prayer_cooldown;
        self.paralysis_turns = status.paralysis_turns;
        self.hallucinating = status.hallucinating;
    }

    /// How hungry the player is.
    pub fn hunger_state(&self) -> (r: HungerState)
        ensures
            r == hunger_of(self.nutrition as int),
    {
        self.status().hunger_state()
    }

    /// The total weight of the items in the pack (entries whose item has no
    /// item data count for nothing).
    pub fn carried_weight(&self) -> (r: i16)
        requires
            forall|k: int| 0 <= k <= self.inventory.entries@.len() ==> i16::MIN <= #[trigger] pack_weight(self.entities.ents(),
                self.inventory.entries@.take(k)) <= i16::MAX,
        ensures
            r == pack_weight(self.entities.ents(), self.inventory.entries@),
    {
        let n = self.inventory.entries.len();
        let mut total: i16 = 0;
        let mut k: usize = 0;
        while k < n
            invariant
                k <= n,
                n == self.inventory.entries@.len(),
                total == pack_weight(self.entities.ents(), self.inventory.entries@.take(k as int)),
                forall|j: int| 0 <= j <= self.inventory.entries@.len() ==> i16::MIN <= #[trigger] pack_weight(self.entities.ents(),
                    self.inventory.entries@.take(j)) <= i16::MAX,
            decreases n - k,
        {
            proof {
                assert(self.inventory.entries@.take(k + 1).drop_last() == self.inventory.entries@.take(k as int));
                assert(self.inventory.entries@.take(k + 1).last() == self.inventory.entries@[k as int]);
                assert(i16::MIN <= pack_weight(self.entities.ents(), self.inventory.entries@.take(k + 1)) <= i16::MAX);
            }
            match self.entities.item_data(self.inventory.entries[k].item) {
                Some(data) => {
                    total = total + data.weight;
                },
                None => {},
            }
            k = k + 1;
        }
        proof {
            assert(self.inventory.entries@.take(n as int) == self.inventory.entries@);
        }
        total
    }
}

/// The weight of an item entity, 0 for one without item data.
pub open spec fn weight_of(s: Seq<Entity>, id: EntityId) -> int {
    match lookup(s, id) {
        Some(e) => match item_view(e) { Some(v) => v.1.weight as int, None => 0 },
        None => 0,
    }
}

/// The total weight of the pack entries `entries`.
pub open spec fn pack_weight(s: Seq<Entity>, entries: Seq<InventoryEntry>) -> int
    decreases entries.len(),
{
    if entries.len() == 0 {
        0
    } else {
        pack_weight(s, entries.drop_last()) + weight_of(s, entries.last().item)
    }
}

/// Whether `e` is the `k`-th item of the fixed dungeon, lying at its
/// place or in the player's pack.
pub open spec fn fixture_item_placed(e: Entity, k: int) -> bool {
    item_view(e) matches Some(v) && v.0 == fixture_item(k).0
        && v.2 == (match fixture_item(k).1 {
            Some(p) => EntityLocation::OnMap { level: phase5_level1_id(), pos: p },
            None => EntityLocation::Inventory { owner: EntityId(1) },
        })
}

/// The entities and pack of the fixed world (see `fixture_phase5`).
fn fixture_entities(registry: &ContentRegistry) -> (r: (EntityStore, Inventory))
    requires
        content_complete(*registry),
    ensures
        r.0.wf(),
        r.0.ents().len() == 12,
        forall|i: int| 0 <= i < 12 ==> (#[trigger] r.0.ents()[i]).id == EntityId((i + 1) as u32),
        actor_view(r.0.ents()[0]) matches Some(v) && v.0 == ActorKind::Player && v.3 == phase2_player_start() && v.5
            && v.2 == phase5_level1_id(),
        actor_view(r.0.ents()[1]) matches Some(v) && v.0 == ActorKind::Monster(MonsterKind::Jackal)
            && v.3 == phase3_jackal_start() && v.5,
        actor_view(r.0.ents()[2]) matches Some(v) && v.0 == ActorKind::Monster(MonsterKind::Goblin)
            && v.3 == phase3_goblin_start() && v.5,
        forall|k: int| 0 <= k < 9 ==> #[trigger] fixture_item_placed(r.0.ents()[k + 3], k),
        r.1.owner == EntityId(1),
        r.1.entries@.len() == 5,
        forall|k: int| 0 <= k < 5 ==> #[trigger] r.1.entries@[k] == (InventoryEntry {
            item: EntityId((k + 5) as u32), letter: InventoryLetter(nth_letter(k)) }),
        r.1.equipped_melee is None,
{
    let level1 = LevelId::main(1);
    let mut entities = EntityStore::new();
    let player_id = entities.spawn_player(Pos { x: 5, y: 5 });
    let ghost p0 = entities.ents()[0];
    assert(actor_view(p0) matches Some(v) && v.2 == phase5_level1_id());
    entities.spawn_monster(MonsterKind::Jackal, Pos { x: 6, y: 5 }, registry);
    assert(entities.ents().drop_last()[0] == entities.ents()[0]);
    let ghost p1 = entities.ents()[1];
    entities.spawn_monster(MonsterKind::Goblin, Pos { x: 20, y: 12 }, registry);
    assert(entities.ents().drop_last()[0] == entities.ents()[0]);
    assert(entities.ents().drop_last()[1] == entities.ents()[1]);
    let ghost p2 = entities.ents()[2];
    place_item(&mut entities, ItemKind::PotionHealing, Pos { x: 8, y: 5 }, registry);
    assert(entities.ents()[0] == p0 && entities.ents()[1] == p1 && entities.ents()[2] == p2);
    proof {
        assert(fixture_item_placed(entities.ents()[3], 0));
    }
    let mut inventory = Inventory::new(player_id);
    pack_item(&mut entities, &mut inventory, ItemKind::Dagger, registry);
    assert(entities.ents()[0] == p0 && entities.ents()[1] == p1 && entities.ents()[2] == p2);
    pack_item(&mut entities, &mut inventory, ItemKind::FoodRation, registry);
    assert(entities.ents()[0] == p0 && entities.ents()[1] == p1 && entities.ents()[2] == p2);
    pack_item(&mut entities, &mut inventory, ItemKind::WandMagicMissile, registry);
    assert(entities.ents()[0] == p0 && entities.ents()[1] == p1 && entities.ents()[2] == p2);
    pack_item(&mut entities, &mut inventory, ItemKind::ScrollReveal, registry);
    assert(entities.ents()[0] == p0 && entities.ents()[1] == p1 && entities.ents()[2] == p2);
    pack_item(&mut entities, &mut inventory, ItemKind::Rock, registry);
    assert(entities.ents()[0] == p0 && entities.ents()[1] == p1 && entities.ents()[2] == p2);
    place_item(&mut entities, ItemKind::ArmorLeather, Pos { x: 7, y: 5 }, registry);
    assert(entities.ents()[0] == p0 && entities.ents()[1] == p1 && entities.ents()[2] == p2);
    place_item(&mut entities, ItemKind::ScrollIdentify, Pos { x: 9, y: 5 }, registry);
    assert(entities.ents()[0] == p0 && entities.ents()[1] == p1 && entities.ents()[2] == p2);
    place_item(&mut entities, ItemKind::ScrollLevelTeleport, Pos { x: 11, y: 5 }, registry);
    assert(entities.ents()[0] == p0 && entities.ents()[1] == p1 && entities.ents()[2] == p2);
    proof {
        assert forall|k: int| 0 <= k < 9 implies #[trigger] fixture_item_placed(entities.ents()[k + 3], k) by {
        }
    }
    (entities, inventory)
}

/// Puts a new item of `kind` at `pos` of the first level.
fn place_item(entities: &mut EntityStore, kind: ItemKind, pos: Pos, registry: &ContentRegistry) -> (r: EntityId)
    requires
        old(entities).wf(),
        old(entities).next() as int == old(entities).ents().len() + 1,
        old(entities).next() < 100,
        item_fault(*registry, kind) is None,
    ensures
        final(entities).wf(),
        final(entities).next() == old(entities).next() + 1,
        final(entities).ents().len() == old(entities).ents().len() + 1,
        forall|i: int| 0 <= i < old(entities).ents().len() ==> #[trigger] final(entities).ents()[i] == old(entities).ents()[i],
        final(entities).ents().last().id == r,
        r == EntityId(old(entities).next()),
        item_view(final(entities).ents().last()) matches Some(v) && v.0 == kind
            && v.2 == (EntityLocation::OnMap { level: phase5_level1_id(), pos }),
{
    let r = entities.spawn_item(kind, EntityLocation::OnMap { level: LevelId::main(1), pos }, registry);
    proof {
        assert forall|i: int| 0 <= i < old(entities).ents().len() implies #[trigger] entities.ents()[i] == old(entities).ents()[i] by {
            assert(entities.ents().drop_last()[i] == entities.ents()[i]);
        }
    }
    r
}

/// Puts a new item of `kind` in the pack under the next letter.
fn pack_item(entities: &mut EntityStore, inventory: &mut Inventory, kind: ItemKind, registry: &ContentRegistry) -> (r: EntityId)
    requires
        old(entities).wf(),
        old(entities).next() as int == old(entities).ents().len() + 1,
        old(entities).next() < 100,
        old(inventory).next_letter_index < 26,
        item_fault(*registry, kind) is None,
    ensures
        final(entities).wf(),
        final(entities).next() == old(entities).next() + 1,
        final(entities).ents().len() == old(entities).ents().len() + 1,
        forall|i: int| 0 <= i < old(entities).ents().len() ==> #[trigger] final(entities).ents()[i] == old(entities).ents()[i],
        final(entities).ents().last().id == r,
        r == EntityId(old(entities).next()),
        item_view(final(entities).ents().last()) matches Some(v) && v.0 == kind
            && v.2 == (EntityLocation::Inventory { owner: old(inventory).owner })
            && v.3 == Some(InventoryLetter(nth_letter(old(inventory).next_letter_index as int))),
        final(inventory).entries@ == old(inventory).entries@.push(InventoryEntry { item: r,
            letter: InventoryLetter(nth_letter(old(inventory).next_letter_index as int)) }),
        final(inventory).next_letter_index == old(inventory).next_letter_index + 1,
        final(inventory).owner == old(inventory).owner,
        final(inventory).equipped_melee == old(inventory).equipped_melee,
{
    let owner = inventory.owner;
    let item = entities.spawn_item(kind, EntityLocation::Inventory { owner }, registry);
    let ghost mid = entities.ents();
    let letter = match inventory.add_existing_with_next_letter(item) {
        Some(l) => l,
        None => {
            proof { assert(false); }
            InventoryLetter('a')
        },
    };
    proof {
        entities.lemma_lookup_at(entities.ents().len() - 1);
    }
    entities.set_item_letter(item, letter);
    proof {
        assert forall|i: int| 0 <= i < old(entities).ents().len() implies #[trigger] entities.ents()[i] == old(entities).ents()[i] by {
            assert(mid.drop_last()[i] == mid[i]);
        }
    }
    item
}

} // verus!
