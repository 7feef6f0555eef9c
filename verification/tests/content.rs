use aihack::data::dice::parse_dice;
use aihack::data::schema::{
    check_schema_version, content_hash_of, index_by_id, validate, validate_dice,
    validate_level_coordinates, ContentRegistry, DoorData, ItemData, LevelData, LevelItemData,
    LevelMonsterData, MonsterData, WallData, CONTENT_SCHEMA_VERSION,
};
use aihack::data::load::{load_items, load_level, load_monsters};
use aihack::domain::item::{
    item_kind_from_id, parse_damage, shop_base_price, try_item_data, ConsumableEffect, ItemClass,
    ItemKind, WandEffect,
};
use aihack::domain::monster::{
    monster_kind_from_id, monster_template, try_monster_template, MonsterAiKind, MonsterKind,
};
use aihack::error::ContentError;

fn item(id: &str, kind: &str, damage: Option<&str>, effect: Option<&str>) -> ItemData {
    ItemData {
        id: id.to_string(),
        kind: kind.to_string(),
        glyph: ")".to_string(),
        weight: 10,
        slot: None,
        hit_bonus: Some(1),
        damage: damage.map(|d| d.to_string()),
        effect: effect.map(|e| e.to_string()),
        charges: None,
        nutrition: None,
        ac_bonus: None,
        base_price: Some(4),
    }
}

fn monster(id: &str, damage: &str, ai: &str) -> MonsterData {
    MonsterData {
        id: id.to_string(),
        glyph: "d".to_string(),
        hp: 3,
        ac: 7,
        hit_bonus: 0,
        damage: damage.to_string(),
        ai: ai.to_string(),
        speed: 12,
        difficulty: 1,
        passive: None,
    }
}

fn level(id: &str, depth: i16, down: bool, up: bool) -> LevelData {
    LevelData {
        level_id: id.to_string(),
        branch: "main".to_string(),
        depth,
        width: 40,
        height: 20,
        player_start: vec![5, 5],
        stairs_down: if down { Some(vec![34, 15]) } else { None },
        stairs_up: if up { Some(vec![5, 5]) } else { None },
        wall: Some(vec![WallData { x: 12, y_range: vec![4, 8] }]),
        door: Some(vec![DoorData { pos: vec![10, 5], state: "closed".to_string() }]),
        hidden_door: None,
        hidden_trap: None,
        monster: Some(vec![LevelMonsterData { id: "monster.jackal".to_string(), pos: vec![6, 5] }]),
        item: Some(vec![LevelItemData { id: "item.weapon.dagger".to_string(), pos: vec![7, 5] }]),
    }
}

fn registry() -> ContentRegistry {
    let items = vec![
        item("item.weapon.rock", "weapon", Some("1d3"), None),
        item("item.weapon.dagger", "weapon", Some("1d4"), None),
        item("item.potion.healing", "potion", None, Some("heal_1d8_plus_4")),
        item("item.wand.magic_missile", "wand", Some("0"), Some("magic_missile")),
    ];
    let monsters = vec![
        monster("monster.jackal", "1d2", "wander"),
        monster("monster.goblin", "1d6", "chase_on_sight"),
    ];
    let levels = vec![level("main_2", 2, false, true), level("main_1", 1, true, false)];
    ContentRegistry::from_parsed(CONTENT_SCHEMA_VERSION, items, monsters, levels, b"canonical").unwrap()
}

#[test]
fn dice_strings_are_read_like_rust_numbers() {
    assert_eq!(parse_dice("1d4"), Some((1, 4)));
    assert_eq!(parse_dice("+2d-3"), Some((2, -3)));
    assert_eq!(parse_dice("2d"), None);
    assert_eq!(parse_dice("d6"), None);
    assert_eq!(parse_dice("3x6"), None);
    assert_eq!(parse_dice("1d99999"), None);
    assert_eq!(parse_dice("1d32767"), Some((1, 32767)));
    assert_eq!(parse_dice("-32768d1"), Some((-32768, 1)));
    assert_eq!(parse_dice("1d2d3"), None);
}

#[test]
fn written_dice_read_back_as_written() {
    for (a, b) in [(0i16, 0i16), (3, 6), (12, 100), (32767, 9)] {
        assert_eq!(parse_dice(&format!("{}d{}", a, b)), Some((a, b)));
    }
}

#[test]
fn dice_validation() {
    assert!(validate_dice("0").is_ok());
    assert!(validate_dice("2d6").is_ok());
    assert_eq!(validate_dice("0d6"), Err(ContentError::InvalidDice { value: "0d6".to_string() }));
    assert_eq!(validate_dice("two"), Err(ContentError::InvalidDice { value: "two".to_string() }));
    assert_eq!(parse_damage("0").unwrap().dice, 0);
    assert_eq!(parse_damage("1d8").unwrap().sides, 8);
    assert!(parse_damage("bad").is_err());
}

#[test]
fn schema_version_is_checked() {
    assert!(check_schema_version(CONTENT_SCHEMA_VERSION).is_ok());
    assert_eq!(
        check_schema_version(7),
        Err(ContentError::Parse {
            file: "content".to_string(),
            message: "unsupported schema_version: 7".to_string()
        })
    );
}

#[test]
fn index_sorts_and_rejects_duplicates() {
    let v = index_by_id(vec![
        monster("b", "1d2", "wander"),
        monster("a", "1d2", "wander"),
        monster("ab", "1d2", "wander"),
    ])
    .unwrap();
    let ids: Vec<String> = v.iter().map(|m| m.id.clone()).collect();
    assert_eq!(ids, vec!["a".to_string(), "ab".to_string(), "b".to_string()]);
    let dup = index_by_id(vec![
        monster("x", "1d2", "wander"),
        monster("y", "1d2", "wander"),
        monster("y", "1d3", "wander"),
        monster("x", "1d3", "wander"),
    ]);
    assert_eq!(dup.unwrap_err(), ContentError::DuplicateId { id: "y".to_string() });
}

#[test]
fn level_coordinates_are_checked_in_order() {
    let mut l = level("main_1", 1, true, false);
    assert!(validate_level_coordinates(&l).is_ok());
    l.wall = Some(vec![WallData { x: 12, y_range: vec![18, 21] }]);
    assert_eq!(
        validate_level_coordinates(&l),
        Err(ContentError::InvalidCoordinate { level: "main_1".to_string(), x: 12, y: 20 })
    );
    l.wall = Some(vec![WallData { x: 3, y_range: vec![1] }]);
    assert_eq!(
        validate_level_coordinates(&l),
        Err(ContentError::InvalidCoordinate { level: "main_1".to_string(), x: 3, y: 0 })
    );
    l.player_start = vec![41];
    assert_eq!(
        validate_level_coordinates(&l),
        Err(ContentError::InvalidCoordinate { level: "main_1".to_string(), x: 41, y: 0 })
    );
}

#[test]
fn validation_reports_references_and_stairs() {
    let items = vec![item("item.weapon.dagger", "weapon", Some("1d4"), None)];
    let monsters = vec![monster("monster.jackal", "1d2", "wander")];
    let ok_levels = vec![level("main_1", 1, true, false), level("main_2", 2, false, true)];
    assert!(validate(&items, &monsters, &ok_levels).is_ok());
    let lonely = vec![level("main_1", 1, true, false)];
    assert_eq!(
        validate(&items, &monsters, &lonely),
        Err(ContentError::MissingStairsPair { level: "main_1".to_string() })
    );
    let mut l = level("main_1", 1, false, false);
    l.monster = Some(vec![LevelMonsterData { id: "monster.dragon".to_string(), pos: vec![1, 1] }]);
    assert_eq!(
        validate(&items, &monsters, &vec![l]),
        Err(ContentError::UnknownReference {
            owner: "main_1".to_string(),
            target: "monster.dragon".to_string()
        })
    );
    let bad_items = vec![item("item.weapon.dagger", "weapon", Some("1x4"), None)];
    assert_eq!(
        validate(&bad_items, &monsters, &ok_levels),
        Err(ContentError::InvalidDice { value: "1x4".to_string() })
    );
}

#[test]
fn content_hash_is_fnv1a_in_hex() {
    assert_eq!(content_hash_of(b""), "cbf29ce484222325");
    assert_eq!(content_hash_of(b"a"), "af63dc4c8601ec8c");
}

#[test]
fn registry_indexes_and_finds() {
    let reg = registry();
    assert_eq!(reg.schema_version(), 1);
    assert_eq!(reg.content_hash().len(), 16);
    assert_eq!(reg.items()[0].id, "item.potion.healing");
    assert_eq!(reg.levels()[0].level_id, "main_1");
    assert!(reg.item("item.weapon.dagger").is_some());
    assert!(reg.item("item.weapon.sword").is_none());
    assert_eq!(reg.monster("monster.goblin").unwrap().hp, 3);
    assert_eq!(load_items(&reg).unwrap().len(), 4);
    assert_eq!(load_monsters(&reg).unwrap().len(), 2);
    assert_eq!(load_level(&reg, "main_2").unwrap().depth, 2);
    assert_eq!(
        load_level(&reg, "main_9").unwrap_err(),
        ContentError::UnknownReference {
            owner: "load_level".to_string(),
            target: "main_9".to_string()
        }
    );
}

#[test]
fn registry_refuses_duplicates_and_versions() {
    let r = ContentRegistry::from_parsed(
        CONTENT_SCHEMA_VERSION,
        vec![item("a", "weapon", None, None), item("a", "food", None, None)],
        vec![],
        vec![],
        b"",
    );
    assert_eq!(r.unwrap_err(), ContentError::DuplicateId { id: "a".to_string() });
    assert!(ContentRegistry::from_parsed(2, vec![], vec![], vec![], b"").is_err());
}

#[test]
fn item_data_is_built_from_definitions() {
    let reg = registry();
    let dagger = try_item_data(ItemKind::Dagger, &reg).unwrap();
    assert_eq!(dagger.class, ItemClass::Weapon);
    assert_eq!(dagger.glyph, ')');
    let attack = dagger.attack_profile.unwrap();
    assert_eq!(attack.name, "dagger");
    assert_eq!(attack.hit_bonus, 1);
    assert_eq!((attack.damage.dice, attack.damage.sides), (1, 4));
    let rock = try_item_data(ItemKind::Rock, &reg).unwrap();
    assert_eq!(rock.class, ItemClass::Rock);
    let potion = try_item_data(ItemKind::PotionHealing, &reg).unwrap();
    assert_eq!(potion.consumable_effect, Some(ConsumableEffect::Heal { dice: 1, sides: 8, bonus: 4 }));
    let wand = try_item_data(ItemKind::WandMagicMissile, &reg).unwrap();
    assert_eq!(wand.wand_effect, Some(WandEffect::MagicMissile));
    assert_eq!(wand.consumable_effect, None);
    assert_eq!(shop_base_price(ItemKind::Dagger, &reg), 4);
    assert_eq!(
        try_item_data(ItemKind::FoodRation, &reg).unwrap_err(),
        ContentError::UnknownReference {
            owner: "item factory".to_string(),
            target: "item.food.ration".to_string()
        }
    );
    assert_eq!(item_kind_from_id("item.weapon.rock").unwrap(), ItemKind::Rock);
    assert!(item_kind_from_id("item.weapon.sword").is_err());
}

#[test]
fn monster_templates_are_built_from_definitions() {
    let reg = registry();
    let jackal = monster_template(MonsterKind::Jackal, &reg);
    assert_eq!(jackal.ai_kind, MonsterAiKind::Wander);
    assert_eq!(jackal.attack_profile.name, "bite");
    assert_eq!((jackal.hp, jackal.ac), (3, 7));
    let goblin = try_monster_template(MonsterKind::Goblin, &reg).unwrap();
    assert_eq!(goblin.ai_kind, MonsterAiKind::ChaseVisiblePlayer);
    assert!(try_monster_template(MonsterKind::FloatingEye, &reg).is_err());
    assert_eq!(MonsterKind::Goblin.ai_kind(&reg), MonsterAiKind::ChaseVisiblePlayer);
    assert_eq!(MonsterKind::FloatingEye.difficulty(), 5);
    assert_eq!(monster_kind_from_id("monster.floating_eye").unwrap(), MonsterKind::FloatingEye);
    assert!(monster_kind_from_id("monster.orc").is_err());
}
