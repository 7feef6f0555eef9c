//! Dungeon features that can be used: drinking from and washing at
//! fountains, sitting on thrones, digging up graves, and the harm of
//! dangerous terrain.
use vstd::prelude::*;
use crate::rng::{NetHackRng, rng_roll, rng_next};
use crate::text::{str_eq, texts, opt_text};

verus! {

/// A dungeon feature.
#[derive(Debug, Clone, Copy, PartialEq, Eq, Structural)]
pub enum TerrainFeature {
    Fountain,
    Sink,
    Throne,
    Grave,
    Altar,
    Tree,
    Pool,
    Lava,
    Ice,
    Cloud,
    Air,
}

/// What using a feature did.
#[derive(Debug, Clone)]
pub struct TerrainInteraction {
    pub feature: TerrainFeature,
    pub action: String,
    pub outcome: String,
    pub hp_change: i32,
    pub items_generated: Vec<String>,
    pub monster_spawned: Option<String>,
    pub feature_destroyed: bool,
}

/// The expected outcome text, hit point change, items, monster and whether
/// the feature is destroyed.
pub type Outcome = (Seq<char>, int, Seq<Seq<char>>, Option<Seq<char>>, bool);

/// `r` reports `e` for `feature` and `action`.
pub open spec fn reports(r: TerrainInteraction, feature: TerrainFeature, action: Seq<char>, e: Outcome) -> bool {
    &&& r.feature == feature
    &&& r.action@ == action
    &&& r.outcome@ == e.0
    &&& r.hp_change == e.1
    &&& texts(r.items_generated@) == e.2
    &&& opt_text(r.monster_spawned) == e.3
    &&& r.feature_destroyed == e.4
}

/// The word for drinking from a fountain.
pub open spec fn drink_word() -> Seq<char> {
    "마시기"@
}

/// The word for washing one's hands at a fountain.
pub open spec fn wash_word() -> Seq<char> {
    "손 씻기"@
}

/// What drinking (when `action` is the drinking word), washing (the washing
/// word) or anything else at a fountain does for a draw `roll` from `0..30`.
pub open spec fn fountain_outcome(action: Seq<char>, roll: int) -> Outcome {
    if action == drink_word() {
        if roll <= 5 {
            ("시원한 물을 마셨다."@, 1, seq![], None, false)
        } else if roll <= 8 {
            ("독이 든 물이었다!"@, -5, seq![], None, false)
        } else if roll <= 11 {
            ("물이 마법처럼 빛난다!"@, 5, seq![], None, false)
        } else if roll <= 14 {
            ("바닥에서 동전이 올라온다!"@, 0, seq!["금화"@], None, false)
        } else if roll <= 17 {
            ("물의 요정이 나타났다!"@, 0, seq![], Some("물의 요정"@), false)
        } else if roll <= 20 {
            ("갑자기 소원이 생겼다!"@, 0, seq!["소원"@], None, true)
        } else {
            ("아무 일도 일어나지 않았다."@, 0, seq![], None, false)
        }
    } else if action == wash_word() {
        if roll <= 10 {
            ("반지가 빠졌다!"@, 0, seq!["반지"@], None, false)
        } else {
            ("손을 깨끗이 씻었다."@, 0, seq![], None, false)
        }
    } else {
        ("분수를 바라보았다."@, 0, seq![], None, false)
    }
}

fn one_item(name: &str) -> (v: Vec<String>)
    ensures
        texts(v@) == seq![name@],
{
    let mut v: Vec<String> = Vec::new();
    v.push(name.to_string());
    assert(texts(v@) =~= seq![name@]);
    v
}

fn no_items() -> (v: Vec<String>)
    ensures
        texts(v@) == Seq::<Seq<char>>::empty(),
{
    let v: Vec<String> = Vec::new();
    assert(texts(v@) =~= Seq::<Seq<char>>::empty());
    v
}

/// Uses a fountain: one draw from `0..30` decides what drinking or washing
/// does; any other action only looks at the fountain.
pub fn interact_fountain(action: &str, rng: &mut NetHackRng) -> (r: TerrainInteraction)
    ensures
        reports(r, TerrainFeature::Fountain, action@, fountain_outcome(action@, rng_roll(old(rng)@, 30))),
        final(rng)@ == rng_next(old(rng)@),
{
    let roll = rng.rn2(30);
    let (outcome, hp, items, monster, destroyed) = if str_eq(action, "마시기") {
        if roll <= 5 {
            ("시원한 물을 마셨다.".to_string(), 1, no_items(), None, false)
        } else if roll <= 8 {
            ("독이 든 물이었다!".to_string(), -5, no_items(), None, false)
        } else if roll <= 11 {
            ("물이 마법처럼 빛난다!".to_string(), 5, no_items(), None, false)
        } else if roll <= 14 {
            ("바닥에서 동전이 올라온다!".to_string(), 0, one_item("금화"), None, false)
        } else if roll <= 17 {
            ("물의 요정이 나타났다!".to_string(), 0, no_items(), Some("물의 요정".to_string()), false)
        } else if roll <= 20 {
            ("갑자기 소원이 생겼다!".to_string(), 0, one_item("소원"), None, true)
        } else {
            ("아무 일도 일어나지 않았다.".to_string(), 0, no_items(), None, false)
        }
    } else if str_eq(action, "손 씻기") {
        if roll <= 10 {
            ("반지가 빠졌다!".to_string(), 0, one_item("반지"), None, false)
        } else {
            ("손을 깨끗이 씻었다.".to_string(), 0, no_items(), None, false)
        }
    } else {
        ("분수를 바라보았다.".to_string(), 0, no_items(), None, false)
    };
    TerrainInteraction {
        feature: TerrainFeature::Fountain,
        action: action.to_string(),
        outcome,
        hp_change: hp,
        items_generated: items,
        monster_spawned: monster,
        feature_destroyed: destroyed,
    }
}

/// What sitting on a throne does for a draw `roll` from `0..20`.
pub open spec fn throne_outcome(roll: int) -> Outcome {
    if roll <= 3 {
        ("왕좌에 앉았지만 아무 일도 없다."@, 0, seq![], None, false)
    } else if roll <= 6 {
        ("보석이 굴러 나왔다!"@, 0, seq!["보석"@], None, false)
    } else if roll <= 9 {
        ("왕의 유령이 나타나 찬사를 보낸다!"@, 0, seq![], None, false)
    } else if roll <= 12 {
        ("전기 충격을 받았다!"@, -10, seq![], None, false)
    } else if roll <= 15 {
        ("왕좌가 텔레포트를 부여한다!"@, 0, seq![], None, false)
    } else if roll <= 18 {
        ("왕관이 나타났다!"@, 0, seq!["왕관"@], None, false)
    } else {
        ("왕좌가 부서졌다!"@, 0, seq![], None, true)
    }
}

/// Sits on a throne: one draw from `0..20` decides what happens.
pub fn interact_throne(rng: &mut NetHackRng) -> (r: TerrainInteraction)
    ensures
        reports(r, TerrainFeature::Throne, "앉기"@, throne_outcome(rng_roll(old(rng)@, 20))),
        final(rng)@ == rng_next(old(rng)@),
{
    let roll = rng.rn2(20);
    let (outcome, hp, items) = if roll <= 3 {
        ("왕좌에 앉았지만 아무 일도 없다.".to_string(), 0, no_items())
    } else if roll <= 6 {
        ("보석이 굴러 나왔다!".to_string(), 0, one_item("보석"))
    } else if roll <= 9 {
        ("왕의 유령이 나타나 찬사를 보낸다!".to_string(), 0, no_items())
    } else if roll <= 12 {
        ("전기 충격을 받았다!".to_string(), -10, no_items())
    } else if roll <= 15 {
        ("왕좌가 텔레포트를 부여한다!".to_string(), 0, no_items())
    } else if roll <= 18 {
        ("왕관이 나타났다!".to_string(), 0, one_item("왕관"))
    } else {
        ("왕좌가 부서졌다!".to_string(), 0, no_items())
    };
    TerrainInteraction {
        feature: TerrainFeature::Throne,
        action: "앉기".to_string(),
        outcome,
        hp_change: hp,
        items_generated: items,
        monster_spawned: None,
        feature_destroyed: roll >= 19,
    }
}

/// What digging up a grave yields for a draw `roll` from `0..10`; the grave
/// is always destroyed.
pub open spec fn grave_outcome(roll: int) -> Outcome {
    if roll <= 2 {
        ("무덤을 파헤치자 보물이 나왔다!"@, 0, seq!["보물 상자"@], None, true)
    } else if roll <= 5 {
        ("좀비가 깨어났다!"@, 0, seq![], Some("좀비"@), true)
    } else if roll <= 7 {
        ("유령이 나타났다!"@, 0, seq![], Some("유령"@), true)
    } else {
        ("빈 무덤이었다."@, 0, seq![], None, true)
    }
}

/// Digs up a grave: one draw from `0..10` decides what comes out.
pub fn interact_grave(rng: &mut NetHackRng) -> (r: TerrainInteraction)
    ensures
        reports(r, TerrainFeature::Grave, "파기"@, grave_outcome(rng_roll(old(rng)@, 10))),
        final(rng)@ == rng_next(old(rng)@),
{
    let roll = rng.rn2(10);
    let (outcome, monster, items) = if roll <= 2 {
        ("무덤을 파헤치자 보물이 나왔다!".to_string(), None, one_item("보물 상자"))
    } else if roll <= 5 {
        ("좀비가 깨어났다!".to_string(), Some("좀비".to_string()), no_items())
    } else if roll <= 7 {
        ("유령이 나타났다!".to_string(), Some("유령".to_string()), no_items())
    } else {
        ("빈 무덤이었다.".to_string(), None, no_items())
    };
    TerrainInteraction {
        feature: TerrainFeature::Grave,
        action: "파기".to_string(),
        outcome,
        hp_change: 0,
        items_generated: items,
        monster_spawned: monster,
        feature_destroyed: true,
    }
}

/// The damage and message of standing on `terrain`.
pub open spec fn terrain_harm(terrain: TerrainFeature, has_resistance: bool, has_levitation: bool) -> (int, Seq<char>) {
    match terrain {
        TerrainFeature::Lava => if has_levitation {
            (0, "용암 위를 떠다닌다."@)
        } else if has_resistance {
            (5, "용암이 뜨겁지만 견딜 만하다."@)
        } else {
            (100, "용암에 빠졌다! 치명적!"@)
        },
        TerrainFeature::Pool => if has_levitation {
            (0, "물 위를 떠다닌다."@)
        } else {
            (0, "헤엄치고 있다."@)
        },
        TerrainFeature::Ice => if has_resistance {
            (0, "얼음 위를 안전하게 걷는다."@)
        } else {
            (2, "미끄러졌다!"@)
        },
        _ => (0, "안전한 지형이다."@),
    }
}

/// The harm of standing on dangerous terrain: lava does 100, 5 with
/// resistance, nothing to one levitating; water does no harm; ice does 2
/// without resistance.
pub fn environmental_damage(terrain: TerrainFeature, has_resistance: bool, has_levitation: bool) -> (r: (i32, String))
    ensures
        r.0 == terrain_harm(terrain, has_resistance, has_levitation).0,
        r.1@ == terrain_harm(terrain, has_resistance, has_levitation).1,
{
    match terrain {
        TerrainFeature::Lava => {
            if has_levitation {
                (0, "용암 위를 떠다닌다.".to_string())
            } else if has_resistance {
                (5, "용암이 뜨겁지만 견딜 만하다.".to_string())
            } else {
                (100, "용암에 빠졌다! 치명적!".to_string())
            }
        },
        TerrainFeature::Pool => {
            if has_levitation {
                (0, "물 위를 떠다닌다.".to_string())
            } else {
                (0, "헤엄치고 있다.".to_string())
            }
        },
        TerrainFeature::Ice => {
            if has_resistance {
                (0, "얼음 위를 안전하게 걷는다.".to_string())
            } else {
                (2, "미끄러졌다!".to_string())
            }
        },
        _ => (0, "안전한 지형이다.".to_string()),
    }
}

} // verus!
