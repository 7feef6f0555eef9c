use aihack::data::schema::{ContentRegistry, ItemData, MonsterData, CONTENT_SCHEMA_VERSION};
use aihack::domain::entity::{ActorKind, ActorStats, EntityKind, EntityLocation, EntityStore, Faction};
use aihack::domain::combat::DamageRoll;
use aihack::domain::inventory::{Inventory, InventoryLetter};
use aihack::domain::item::ItemKind;
use aihack::domain::level::LevelRegistry;
use aihack::domain::map::{GameMap, PHASE2_HEIGHT, PHASE2_WIDTH};
use aihack::domain::monster::MonsterKind;
use aihack::domain::status::{HungerState, Status};
use aihack::domain::tile::{DoorState, TileKind, TrapKind};
use aihack::error::GameError;
use aihack::ids::{EntityId, LevelId, Pos};
use aihack::world::GameWorld;

fn item(id: &str, kind: &str, weight: i16, damage: Option<&str>, effect: Option<&str>) -> ItemData {
    ItemData {
        id: id.to_string(),
        kind: kind.to_string(),
        glyph: "?".to_string(),
        weight,
        slot: None,
        hit_bonus: None,
        damage: damage.map(|d| d.to_string()),
        effect: effect.map(|e| e.to_string()),
        charges: None,
        nutrition: None,
        ac_bonus: None,
        base_price: None,
    }
}

fn monster(id: &str, hp: i16) -> MonsterData {
    MonsterData {
        id: id.to_string(),
        glyph: "d".to_string(),
        hp,
        ac: 7,
        hit_bonus: 0,
        damage: "1d3".to_string(),
        ai: "wander".to_string(),
        speed: 12,
        difficulty: 1,
        passive: None,
    }
}

fn full_registry() -> ContentRegistry {
    let items = vec![
        item("item.weapon.dagger", "weapon", 10, Some("1d4"), None),
        item("item.food.ration", "food", 20, None, None),
        item("item.potion.healing", "potion", 20, None, Some("heal_1d8_plus_4")),
        item("item.wand.magic_missile", "wand", 7, None, Some("magic_missile")),
        item("item.scroll.reveal", "scroll", 5, None, Some("reveal")),
        item("item.scroll.identify", "scroll", 5, None, Some("identify")),
        item("item.scroll.teleport", "scroll", 5, None, Some("teleport")),
        item("item.weapon.rock", "weapon", 10, Some("1d3"), None),
        item("item.armor.leather", "armor", 150, None, None),
        item("item.corpse.jackal", "corpse", 300, None, None),
    ];
    let monsters = vec![monster("monster.jackal", 3), monster("monster.goblin", 5)];
    ContentRegistry::from_parsed(CONTENT_SCHEMA_VERSION, items, monsters, vec![], b"{}").unwrap()
}

#[test]
fn tile_blocker_contract_matches_phase2_prd() {
    let cases = [
        (TileKind::Wall, false, false),
        (TileKind::Floor, true, true),
        (TileKind::Door(DoorState::Closed), false, false),
        (TileKind::Door(DoorState::Open), true, true),
        (TileKind::HiddenDoor, false, false),
        (TileKind::Trap(TrapKind::Pit), true, true),
        (TileKind::HiddenTrap(TrapKind::Pit), true, true),
        (TileKind::StairsDown, true, true),
        (TileKind::StairsUp, true, true),
    ];

    for (tile, movement, los) in cases {
        assert_eq!(tile.is_movement_passable(), movement);
        assert_eq!(tile.is_los_transparent(), los);
    }
}

#[test]
fn map_fixture_is_40x20() {
    let map = GameMap::fixture_phase2();

    assert_eq!(map.width, PHASE2_WIDTH);
    assert_eq!(map.height, PHASE2_HEIGHT);
    assert_eq!(map.tile_count(), 800);
}

#[test]
fn map_bounds_returns_error() {
    let map = GameMap::fixture_phase2();
    let cases = [
        Pos { x: -1, y: 0 },
        Pos { x: 0, y: -1 },
        Pos { x: 40, y: 0 },
        Pos { x: 0, y: 20 },
    ];

    for pos in cases {
        assert!(map.tile(pos).is_err());
    }
}

#[test]
fn hidden_tiles_reveal_and_disguise() {
    assert_eq!(TileKind::HiddenDoor.revealed_equivalent(), TileKind::Door(DoorState::Closed));
    assert_eq!(TileKind::HiddenTrap(TrapKind::Pit).observation_equivalent(), TileKind::Floor);
    assert_eq!(TileKind::HiddenDoor.observation_equivalent(), TileKind::Wall);
    assert!(TileKind::HiddenDoor.is_hidden());
    assert!(!TileKind::Floor.is_hidden());
}

#[test]
fn map_write_then_read() {
    let mut map = GameMap::fixture_phase2();
    assert_eq!(map.tile(Pos { x: 10, y: 5 }), Ok(TileKind::Door(DoorState::Closed)));
    assert_eq!(map.tile(Pos { x: 12, y: 6 }), Ok(TileKind::Wall));
    assert_eq!(map.tile(Pos { x: 34, y: 15 }), Ok(TileKind::StairsDown));
    map.set_tile(Pos { x: 3, y: 3 }, TileKind::StairsUp).unwrap();
    assert_eq!(map.tile(Pos { x: 3, y: 3 }), Ok(TileKind::StairsUp));
    assert_eq!(map.tile(Pos { x: 4, y: 3 }), Ok(TileKind::Floor));
    let far = Pos { x: 40, y: 3 };
    assert_eq!(map.set_tile(far, TileKind::Wall), Err(GameError::OutOfBounds { pos: far }));
    assert_eq!(map.tiles().len(), 800);
}

#[test]
fn level_registry_finds_stairs() {
    let levels = LevelRegistry::fixture_phase5();
    assert_eq!(levels.len(), 2);
    assert!(!levels.is_empty());
    assert!(levels.contains(LevelId::main(2)));
    assert!(!levels.contains(LevelId::main(3)));
    assert_eq!(levels.stairs_down_pos(LevelId::main(1)), Some(Pos { x: 34, y: 15 }));
    assert_eq!(levels.stairs_up_pos(LevelId::main(2)), Some(Pos { x: 5, y: 5 }));
    assert_eq!(levels.stairs_up_pos(LevelId::main(1)), None);
    assert_eq!(levels.stairs_down_pos(LevelId::main(3)), None);
    assert_eq!(levels.map(LevelId::main(2)).unwrap().tile(Pos { x: 8, y: 5 }), Ok(TileKind::Door(DoorState::Closed)));
    let mut levels = levels;
    levels.map_mut(LevelId::main(2)).unwrap().set_tile(Pos { x: 8, y: 5 }, TileKind::Door(DoorState::Open)).unwrap();
    assert_eq!(levels.get(LevelId::main(2)).unwrap().map.tile(Pos { x: 8, y: 5 }), Ok(TileKind::Door(DoorState::Open)));
}

#[test]
fn status_hunger_thresholds() {
    let s = Status::default_adventurer();
    assert_eq!(s.nutrition, 900);
    assert_eq!(s.hunger_state(), HungerState::Satiated);
    let mut t = s.clone();
    for (n, h) in [
        (0, HungerState::Fainting),
        (150, HungerState::Fainting),
        (151, HungerState::Weak),
        (300, HungerState::Weak),
        (500, HungerState::Hungry),
        (2000, HungerState::Satiated),
        (2001, HungerState::Oversatiated),
        (-1, HungerState::Oversatiated),
    ] {
        t.nutrition = n;
        assert_eq!(t.hunger_state(), h);
    }
}

#[test]
fn inventory_letters_are_sequential_and_never_reused() {
    let mut inv = Inventory::new(EntityId(1));
    for i in 0..26u32 {
        let l = inv.add_existing_with_next_letter(EntityId(100 + i)).unwrap();
        assert_eq!(l, InventoryLetter((b'a' + i as u8) as char));
    }
    assert_eq!(inv.add_existing_with_next_letter(EntityId(999)), None);
    assert_eq!(inv.letter_for(EntityId(102)), Some(InventoryLetter('c')));
    inv.equip_melee(EntityId(102));
    let removed = inv.remove(EntityId(102)).unwrap();
    assert_eq!(removed.letter, InventoryLetter('c'));
    assert_eq!(inv.equipped_melee, None);
    assert!(!inv.contains(EntityId(102)));
    assert_eq!(inv.remove(EntityId(102)), None);
    assert_eq!(inv.add_existing_with_next_letter(EntityId(102)), None);
}

#[test]
fn removing_a_new_item_gives_back_its_letter() {
    let mut inv = Inventory::new(EntityId(1));
    inv.add_existing_with_next_letter(EntityId(10)).unwrap();
    let before = inv.clone();
    let letter = inv.add_existing_with_next_letter(EntityId(11)).unwrap();
    assert_eq!(letter, InventoryLetter('b'));
    let taken = inv.remove(EntityId(11)).unwrap();
    assert_eq!(taken.letter, InventoryLetter('b'));
    assert_eq!(inv.entries, before.entries);
    assert_eq!(inv.add_existing_with_next_letter(EntityId(12)), Some(InventoryLetter('c')));
}

#[test]
fn entity_store_spawns_and_updates() {
    let reg = full_registry();
    let mut store = EntityStore::new();
    let p = store.spawn_player(Pos { x: 1, y: 1 });
    let j = store.spawn_monster(MonsterKind::Jackal, Pos { x: 2, y: 1 }, &reg);
    let i = store.spawn_item(ItemKind::Rock, EntityLocation::on_main_level(Pos { x: 2, y: 1 }), &reg);
    let k = store.spawn_item(ItemKind::Dagger, EntityLocation::on_main_level(Pos { x: 2, y: 1 }), &reg);
    assert_eq!((p, j, i, k), (EntityId(1), EntityId(2), EntityId(3), EntityId(4)));
    assert!(store.get(EntityId(0)).is_none());
    assert_eq!(store.get(j).unwrap().kind(), EntityKind::Monster(MonsterKind::Jackal));
    let level = LevelId::main(1);
    assert_eq!(store.alive_actor_at(level, Pos { x: 2, y: 1 }), Some(j));
    assert_eq!(store.alive_hostile_at(level, Pos { x: 1, y: 1 }), None);
    assert_eq!(store.items_at(level, Pos { x: 2, y: 1 }), vec![i, k]);
    assert_eq!(store.item_at(level, Pos { x: 2, y: 1 }), Some(i));
    assert_eq!(store.actor_stats(p).unwrap().hp, 16);
    assert_eq!(store.actor_stats(j).unwrap().max_hp, 3);
    assert!(store.set_pos(p, Pos { x: 3, y: 3 }));
    assert_eq!(store.actor_location(p), Some((level, Pos { x: 3, y: 3 })));
    assert!(!store.set_pos(i, Pos { x: 3, y: 3 }));
    assert!(store.set_item_location(i, EntityLocation::Inventory { owner: p }));
    assert!(store.set_item_letter(i, InventoryLetter('a')));
    assert_eq!(store.inventory_items(p), vec![i]);
    assert_eq!(store.item_letter(i), Some(InventoryLetter('a')));
    assert_eq!(store.item_location(i), Some(EntityLocation::Inventory { owner: p }));
    assert_eq!(store.item_data(k).unwrap().weight, 10);
    store.actor_stats_mut(j).unwrap().hp = 1;
    assert_eq!(store.actor_stats(j).unwrap().hp, 1);
    assert!(store.set_alive(j, false));
    assert_eq!(store.alive_actor_at(level, Pos { x: 2, y: 1 }), None);
    let ghost_stats = ActorStats {
        hp: 1, max_hp: 1, ac: 9, hit_bonus: 0, damage_bonus: 0, damage_reduction: 0,
        damage: DamageRoll { dice: 1, sides: 1 }, weapon_hit_bonus: 0,
    };
    let g = store.spawn(EntityKind::Monster(MonsterKind::Goblin), Faction::Neutral, Pos { x: 9, y: 9 }, ghost_stats, &reg);
    assert_eq!(store.alive_hostile_at(level, Pos { x: 9, y: 9 }), None);
    assert_eq!(store.alive_entity_at(level, Pos { x: 9, y: 9 }), Some(g));
    store.clear_monsters();
    assert_eq!(store.alive_entity_at(level, Pos { x: 9, y: 9 }), None);
    assert_eq!(store.entities().len(), 5);
    assert!(store.get(p).unwrap().natural_attack_profile().is_none());
    assert_eq!(store.get(g).unwrap().natural_attack_profile().unwrap().name, "short sword");
    assert!(matches!(store.get(p).unwrap().actor(), Some((ActorKind::Player, Faction::Player, _, _, _, true))));
}

#[test]
fn fixture_world_layout() {
    let reg = full_registry();
    let w = GameWorld::fixture_phase5(&reg);
    assert_eq!(w.current_level(), LevelId::main(1));
    assert_eq!(w.player_location(), (LevelId::main(1), Pos { x: 5, y: 5 }));
    assert!(w.player_alive());
    assert_eq!(w.current_level_hostile_monsters(), vec![EntityId(2), EntityId(3)]);
    assert_eq!(w.inventory.entries.len(), 5);
    assert_eq!(w.inventory.letter_for(EntityId(9)), Some(InventoryLetter('e')));
    assert_eq!(w.entities.item_letter(EntityId(6)), Some(InventoryLetter('b')));
    assert_eq!(w.carried_weight(), 10 + 20 + 7 + 5 + 10);
    assert_eq!(w.hunger_state(), HungerState::Satiated);
    assert_eq!(w.current_map().tile(Pos { x: 34, y: 15 }), Ok(TileKind::StairsDown));
    let quiet = GameWorld::fixture_without_monsters(&reg);
    assert!(quiet.current_level_hostile_monsters().is_empty());
    assert_eq!(GameWorld::fixture_phase2(&reg), w);
}

#[test]
fn world_moves_the_player_and_identifies() {
    let reg = full_registry();
    let mut w = GameWorld::fixture_phase5(&reg);
    w.set_player_pos(Pos { x: 7, y: 7 });
    assert_eq!(w.player_pos(), Pos { x: 7, y: 7 });
    w.set_player_location(LevelId::main(2), Pos { x: 5, y: 5 });
    assert_eq!(w.current_level(), LevelId::main(2));
    assert_eq!(w.current_map().tile(Pos { x: 5, y: 5 }), Ok(TileKind::StairsUp));
    assert_eq!(w.current_level_hostile_monsters(), Vec::<EntityId>::new());
    w.current_map_mut().set_tile(Pos { x: 6, y: 6 }, TileKind::Wall).unwrap();
    assert_eq!(w.map(LevelId::main(2)).tile(Pos { x: 6, y: 6 }), Ok(TileKind::Wall));
    w.identify_item_kind(ItemKind::Rock);
    w.identify_item_kind(ItemKind::Dagger);
    w.identify_item_kind(ItemKind::Rock);
    assert_eq!(w.identified_items, vec![ItemKind::Dagger, ItemKind::Rock]);
    assert!(w.is_item_identified(ItemKind::Dagger));
    assert!(!w.is_item_identified(ItemKind::FoodRation));
    let mut st = w.status();
    st.nutrition = 100;
    st.luck = 3;
    w.set_status(st);
    assert_eq!(w.hunger_state(), HungerState::Fainting);
    assert_eq!(w.luck, 3);
}
