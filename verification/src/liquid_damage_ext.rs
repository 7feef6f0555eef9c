//! What lava, water and acid do to an item, by what it is made of.
use vstd::prelude::*;
use crate::rng::{NetHackRng, rng_roll, rng_next};

verus! {

/// What an item is made of.
#[derive(Debug, Clone, Copy, PartialEq, Eq, Structural)]
pub enum ItemMaterial {
    Metal,
    Wood,
    Leather,
    Cloth,
    Glass,
    Stone,
    Paper,
    Liquid,
    Food,
    Bone,
    DragonHide,
    Magical,
}

/// What lava does to an item.
#[derive(Debug, Clone, PartialEq, Eq)]
pub enum LavaDamageResult {
    Destroyed { message: String },
    Survived { message: String },
    Damaged { erosion_increase: i32, message: String },
}

/// The kind of outcome: 0 destroyed, 1 survived, 2 damaged, 3 diluted.
pub type Fate = (int, int, Seq<char>);

/// The fate `(kind, erosion, message)` of an item in lava; `roll` is the
/// draw from `0..4` made for metal below +3.
pub open spec fn lava_fate(material: ItemMaterial, is_fireproof: bool, is_artifact: bool, enchantment: int, roll: int) -> Fate {
    if is_artifact {
        (1, 0, "아티팩트가 용암의 열기를 견뎌냈다!"@)
    } else if is_fireproof {
        (1, 0, "방화 처리된 아이템이 용암에서 생존했다."@)
    } else {
        match material {
            ItemMaterial::Stone | ItemMaterial::DragonHide | ItemMaterial::Magical =>
                (1, 0, "이 재질은 용암에 견딜 수 있다."@),
            ItemMaterial::Metal => if enchantment >= 3 || roll == 0 {
                (2, 1, "금속이 용암의 열에 약간 손상되었다."@)
            } else {
                (0, 0, "금속 아이템이 용암에 녹아내렸다!"@)
            },
            ItemMaterial::Glass => (0, 0, "유리 아이템이 용암에 녹아내렸다!"@),
            ItemMaterial::Liquid => (0, 0, "포션이 용암의 열에 증발했다!"@),
            _ => (0, 0, "아이템이 용암에 타버렸다!"@),
        }
    }
}

/// Whether lava makes a draw for this item: unprotected metal below +3.
pub open spec fn lava_draws(material: ItemMaterial, is_fireproof: bool, is_artifact: bool, enchantment: int) -> bool {
    !is_artifact && !is_fireproof && material == ItemMaterial::Metal && enchantment < 3
}

/// `r` has fate `f`.
pub open spec fn lava_is(r: LavaDamageResult, f: Fate) -> bool {
    match r {
        LavaDamageResult::Destroyed { message } => f.0 == 0 && message@ == f.2,
        LavaDamageResult::Survived { message } => f.0 == 1 && message@ == f.2,
        LavaDamageResult::Damaged { erosion_increase, message } => f.0 == 2 && erosion_increase == f.1 && message@ == f.2,
    }
}

/// What lava does to an item: artifacts, fireproofed items and stone,
/// dragon hide or magical items survive; metal is damaged at +3 or better,
/// otherwise one time in four, and melts the rest of the time; everything
/// else is destroyed.
pub fn lava_damage_result(
    material: ItemMaterial,
    is_fireproof: bool,
    is_artifact: bool,
    enchantment: i32,
    rng: &mut NetHackRng,
) -> (r: LavaDamageResult)
    ensures
        lava_is(r, lava_fate(material, is_fireproof, is_artifact, enchantment as int, rng_roll(old(rng)@, 4))),
        final(rng)@ == (if lava_draws(material, is_fireproof, is_artifact, enchantment as int) {
            rng_next(old(rng)@)
        } else {
            old(rng)@
        }),
{
    if is_artifact {
        return LavaDamageResult::Survived { message: "아티팩트가 용암의 열기를 견뎌냈다!".to_string() };
    }
    if is_fireproof {
        return LavaDamageResult::Survived { message: "방화 처리된 아이템이 용암에서 생존했다.".to_string() };
    }
    match material {
        ItemMaterial::Stone | ItemMaterial::DragonHide | ItemMaterial::Magical => {
            LavaDamageResult::Survived { message: "이 재질은 용암에 견딜 수 있다.".to_string() }
        },
        ItemMaterial::Metal => {
            if enchantment >= 3 || rng.rn2(4) == 0 {
                LavaDamageResult::Damaged {
                    erosion_increase: 1,
                    message: "금속이 용암의 열에 약간 손상되었다.".to_string(),
                }
            } else {
                LavaDamageResult::Destroyed { message: "금속 아이템이 용암에 녹아내렸다!".to_string() }
            }
        },
        ItemMaterial::Glass => LavaDamageResult::Destroyed { message: "유리 아이템이 용암에 녹아내렸다!".to_string() },
        ItemMaterial::Wood | ItemMaterial::Leather | ItemMaterial::Cloth | ItemMaterial::Paper
        | ItemMaterial::Food | ItemMaterial::Bone => {
            LavaDamageResult::Destroyed { message: "아이템이 용암에 타버렸다!".to_string() }
        },
        ItemMaterial::Liquid => LavaDamageResult::Destroyed { message: "포션이 용암의 열에 증발했다!".to_string() },
    }
}

/// What water does to an item.
#[derive(Debug, Clone, PartialEq, Eq)]
pub enum WaterDamageResult {
    Destroyed { message: String },
    Survived { message: String },
    Damaged { erosion_increase: i32, message: String },
    Diluted { message: String },
}

/// The draw bound water uses for this item, or 0 when it makes no draw:
/// paper 3, leather and cloth 2, food 5.
pub open spec fn water_bound(material: ItemMaterial, is_waterproof: bool, is_artifact: bool) -> int {
    if is_artifact || is_waterproof {
        0
    } else {
        match material {
            ItemMaterial::Paper => 3,
            ItemMaterial::Leather | ItemMaterial::Cloth => 2,
            ItemMaterial::Food => 5,
            _ => 0,
        }
    }
}

/// The fate of an item in water; `roll` is the draw, when one is made.
pub open spec fn water_fate(material: ItemMaterial, is_waterproof: bool, is_artifact: bool, already_diluted: bool, roll: int) -> Fate {
    if is_artifact {
        (1, 0, "아티팩트가 물에 젖지 않았다!"@)
    } else if is_waterproof {
        (1, 0, "방수 처리된 아이템이 물에서 생존했다."@)
    } else {
        match material {
            ItemMaterial::Stone | ItemMaterial::Metal | ItemMaterial::Glass | ItemMaterial::DragonHide
            | ItemMaterial::Bone | ItemMaterial::Magical => (1, 0, "이 재질은 물에 영향을 받지 않는다."@),
            ItemMaterial::Paper => if roll == 0 {
                (1, 0, "두루마리가 간신히 물을 피했다."@)
            } else {
                (0, 0, "두루마리가 물에 젖어 글자가 지워졌다!"@)
            },
            ItemMaterial::Liquid => if already_diluted {
                (0, 0, "희석된 포션이 완전히 물이 되었다!"@)
            } else {
                (3, 0, "포션이 물에 희석되었다."@)
            },
            ItemMaterial::Leather | ItemMaterial::Cloth => if roll == 0 {
                (2, 1, "아이템이 물에 젖어 손상되었다."@)
            } else {
                (1, 0, "아이템이 약간 젖었지만 괜찮다."@)
            },
            ItemMaterial::Wood => (2, 1, "나무 아이템이 물에 젖어 부풀었다."@),
            ItemMaterial::Food => if roll == 0 {
                (1, 0, "식품이 물에 살짝 젖었다."@)
            } else {
                (0, 0, "식품이 물에 젖어 부패했다!"@)
            },
        }
    }
}

/// `r` has fate `f`.
pub open spec fn water_is(r: WaterDamageResult, f: Fate) -> bool {
    match r {
        WaterDamageResult::Destroyed { message } => f.0 == 0 && message@ == f.2,
        WaterDamageResult::Survived { message } => f.0 == 1 && message@ == f.2,
        WaterDamageResult::Damaged { erosion_increase, message } => f.0 == 2 && erosion_increase == f.1 && message@ == f.2,
        WaterDamageResult::Diluted { message } => f.0 == 3 && message@ == f.2,
    }
}

/// What water does to an item: artifacts and waterproofed items survive,
/// as do stone, metal, glass, dragon hide, bone and magical items; paper
/// survives one time in three; a potion is diluted, or becomes water when
/// already diluted; leather and cloth are damaged one time in two; wood
/// swells; food survives one time in five.
pub fn water_damage_result(
    material: ItemMaterial,
    is_waterproof: bool,
    is_artifact: bool,
    already_diluted: bool,
    rng: &mut NetHackRng,
) -> (r: WaterDamageResult)
    ensures
        ({
            let b = water_bound(material, is_waterproof, is_artifact);
            &&& water_is(r, water_fate(material, is_waterproof, is_artifact, already_diluted,
                if b > 0 { rng_roll(old(rng)@, b) } else { 0 }))
            &&& final(rng)@ == (if b > 0 { rng_next(old(rng)@) } else { old(rng)@ })
        }),
{
    if is_artifact {
        return WaterDamageResult::Survived { message: "아티팩트가 물에 젖지 않았다!".to_string() };
    }
    if is_waterproof {
        return WaterDamageResult::Survived { message: "방수 처리된 아이템이 물에서 생존했다.".to_string() };
    }
    match material {
        ItemMaterial::Stone | ItemMaterial::Metal | ItemMaterial::Glass | ItemMaterial::DragonHide
        | ItemMaterial::Bone | ItemMaterial::Magical => {
            WaterDamageResult::Survived { message: "이 재질은 물에 영향을 받지 않는다.".to_string() }
        },
        ItemMaterial::Paper => {
            if rng.rn2(3) == 0 {
                WaterDamageResult::Survived { message: "두루마리가 간신히 물을 피했다.".to_string() }
            } else {
                WaterDamageResult::Destroyed { message: "두루마리가 물에 젖어 글자가 지워졌다!".to_string() }
            }
        },
        ItemMaterial::Liquid => {
            if already_diluted {
                WaterDamageResult::Destroyed { message: "희석된 포션이 완전히 물이 되었다!".to_string() }
            } else {
                WaterDamageResult::Diluted { message: "포션이 물에 희석되었다.".to_string() }
            }
        },
        ItemMaterial::Leather | ItemMaterial::Cloth => {
            if rng.rn2(2) == 0 {
                WaterDamageResult::Damaged { erosion_increase: 1, message: "아이템이 물에 젖어 손상되었다.".to_string() }
            } else {
                WaterDamageResult::Survived { message: "아이템이 약간 젖었지만 괜찮다.".to_string() }
            }
        },
        ItemMaterial::Wood => {
            WaterDamageResult::Damaged { erosion_increase: 1, message: "나무 아이템이 물에 젖어 부풀었다.".to_string() }
        },
        ItemMaterial::Food => {
            if rng.rn2(5) == 0 {
                WaterDamageResult::Survived { message: "식품이 물에 살짝 젖었다.".to_string() }
            } else {
                WaterDamageResult::Destroyed { message: "식품이 물에 젖어 부패했다!".to_string() }
            }
        },
    }
}

/// A hostile environment.
#[derive(Debug, Clone, Copy, PartialEq, Eq, Structural)]
pub enum EnvironmentType {
    Lava,
    Water,
    Acid,
}

/// What an environment does to an item.
#[derive(Debug, Clone, PartialEq, Eq)]
pub enum EnvDamageResult {
    Destroyed { message: String },
    Survived { message: String },
    Damaged { erosion: i32, message: String },
    Diluted { message: String },
}

/// `r` has fate `f`.
pub open spec fn env_is(r: EnvDamageResult, f: Fate) -> bool {
    match r {
        EnvDamageResult::Destroyed { message } => f.0 == 0 && message@ == f.2,
        EnvDamageResult::Survived { message } => f.0 == 1 && message@ == f.2,
        EnvDamageResult::Damaged { erosion, message } => f.0 == 2 && erosion == f.1 && message@ == f.2,
        EnvDamageResult::Diluted { message } => f.0 == 3 && message@ == f.2,
    }
}

/// The fate of an item in acid; `roll` is the draw from `0..3` made for
/// metal.
pub open spec fn acid_fate(material: ItemMaterial, is_artifact: bool, roll: int) -> Fate {
    if is_artifact {
        (1, 0, "아티팩트가 산성을 견뎌냈다!"@)
    } else {
        match material {
            ItemMaterial::Stone | ItemMaterial::Glass | ItemMaterial::DragonHide => (1, 0, "이 재질은 산에 견딜 수 있다."@),
            ItemMaterial::Metal => if roll == 0 {
                (0, 0, "금속이 산에 녹아내렸다!"@)
            } else {
                (2, 2, "금속이 산에 부식되었다."@)
            },
            _ => (0, 0, "아이템이 산에 녹아내렸다!"@),
        }
    }
}

/// What an environment does to an item: lava and water as
/// `lava_damage_result` and `water_damage_result` (with `is_proofed` as the
/// protection); in acid artifacts and stone, glass or dragon hide survive,
/// metal melts one time in three and is corroded by 2 otherwise, and
/// anything else melts.
pub fn env_destroy_item(
    env: EnvironmentType,
    material: ItemMaterial,
    is_proofed: bool,
    is_artifact: bool,
    enchantment: i32,
    already_diluted: bool,
    rng: &mut NetHackRng,
) -> (r: EnvDamageResult)
    ensures
        env == EnvironmentType::Lava ==> {
            &&& env_is(r, lava_fate(material, is_proofed, is_artifact, enchantment as int, rng_roll(old(rng)@, 4)))
            &&& final(rng)@ == (if lava_draws(material, is_proofed, is_artifact, enchantment as int) {
                rng_next(old(rng)@)
            } else {
                old(rng)@
            })
        },
        env == EnvironmentType::Water ==> {
            let b = water_bound(material, is_proofed, is_artifact);
            &&& env_is(r, water_fate(material, is_proofed, is_artifact, already_diluted,
                if b > 0 { rng_roll(old(rng)@, b) } else { 0 }))
            &&& final(rng)@ == (if b > 0 { rng_next(old(rng)@) } else { old(rng)@ })
        },
        env == EnvironmentType::Acid ==> {
            let draws = !is_artifact && material == ItemMaterial::Metal;
            &&& env_is(r, acid_fate(material, is_artifact, rng_roll(old(rng)@, 3)))
            &&& final(rng)@ == (if draws { rng_next(old(rng)@) } else { old(rng)@ })
        },
{
    match env {
        EnvironmentType::Lava => {
            let result = lava_damage_result(material, is_proofed, is_artifact, enchantment, rng);
            match result {
                LavaDamageResult::Destroyed { message } => EnvDamageResult::Destroyed { message },
                LavaDamageResult::Survived { message } => EnvDamageResult::Survived { message },
                LavaDamageResult::Damaged { erosion_increase, message } => {
                    EnvDamageResult::Damaged { erosion: erosion_increase, message }
                },
            }
        },
        EnvironmentType::Water => {
            let result = water_damage_result(material, is_proofed, is_artifact, already_diluted, rng);
            match result {
                WaterDamageResult::Destroyed { message } => EnvDamageResult::Destroyed { message },
                WaterDamageResult::Survived { message } => EnvDamageResult::Survived { message },
                WaterDamageResult::Damaged { erosion_increase, message } => {
                    EnvDamageResult::Damaged { erosion: erosion_increase, message }
                },
                WaterDamageResult::Diluted { message } => EnvDamageResult::Diluted { message },
            }
        },
        EnvironmentType::Acid => {
            if is_artifact {
                return EnvDamageResult::Survived { message: "아티팩트가 산성을 견뎌냈다!".to_string() };
            }
            match material {
                ItemMaterial::Stone | ItemMaterial::Glass | ItemMaterial::DragonHide => {
                    EnvDamageResult::Survived { message: "이 재질은 산에 견딜 수 있다.".to_string() }
                },
                ItemMaterial::Metal => {
                    if rng.rn2(3) == 0 {
                        EnvDamageResult::Destroyed { message: "금속이 산에 녹아내렸다!".to_string() }
                    } else {
                        EnvDamageResult::Damaged { erosion: 2, message: "금속이 산에 부식되었다.".to_string() }
                    }
                },
                _ => EnvDamageResult::Destroyed { message: "아이템이 산에 녹아내렸다!".to_string() },
            }
        },
    }
}

} // verus!
