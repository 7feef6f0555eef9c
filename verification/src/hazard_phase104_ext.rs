//! Traps met in the dungeon: what springing each kind does to the hero,
//! and the chances of spotting and disarming one.
use vstd::prelude::*;
use crate::rng::{NetHackRng, rng_roll, rng_next};
use crate::num::{div_trunc, clamp};
use crate::text::{int_text, text_with_int, concat2, opt_text};

verus! {

/// A kind of trap.
#[derive(Debug, Clone, Copy, PartialEq, Eq, Structural)]
pub enum HazardType {
    ArrowTrap,
    DartTrap,
    FallingRock,
    Pit,
    SpikedPit,
    BearTrap,
    LandMine,
    SqueakyBoard,
    MagicPortal,
    Teleporter,
    LevelTeleporter,
    FireTrap,
    SleepGas,
    RustTrap,
    PolymorphTrap,
}

/// What springing a trap did.
#[derive(Debug, Clone)]
pub struct HazardResult {
    pub hazard: HazardType,
    pub damage: i32,
    pub status_effect: Option<String>,
    pub message: String,
    pub avoided: bool,
}

/// The name of a kind of trap as its debug form prints it.
pub open spec fn hazard_name(h: HazardType) -> Seq<char> {
    match h {
        HazardType::ArrowTrap => "ArrowTrap"@,
        HazardType::DartTrap => "DartTrap"@,
        HazardType::FallingRock => "FallingRock"@,
        HazardType::Pit => "Pit"@,
        HazardType::SpikedPit => "SpikedPit"@,
        HazardType::BearTrap => "BearTrap"@,
        HazardType::LandMine => "LandMine"@,
        HazardType::SqueakyBoard => "SqueakyBoard"@,
        HazardType::MagicPortal => "MagicPortal"@,
        HazardType::Teleporter => "Teleporter"@,
        HazardType::LevelTeleporter => "LevelTeleporter"@,
        HazardType::FireTrap => "FireTrap"@,
        HazardType::SleepGas => "SleepGas"@,
        HazardType::RustTrap => "RustTrap"@,
        HazardType::PolymorphTrap => "PolymorphTrap"@,
    }
}

/// The name of a kind of trap as its debug form prints it.
pub fn hazard_type_name(h: HazardType) -> (r: &'static str)
    ensures
        r@ == hazard_name(h),
{
    match h {
        HazardType::ArrowTrap => "ArrowTrap",
        HazardType::DartTrap => "DartTrap",
        HazardType::FallingRock => "FallingRock",
        HazardType::Pit => "Pit",
        HazardType::SpikedPit => "SpikedPit",
        HazardType::BearTrap => "BearTrap",
        HazardType::LandMine => "LandMine",
        HazardType::SqueakyBoard => "SqueakyBoard",
        HazardType::MagicPortal => "MagicPortal",
        HazardType::Teleporter => "Teleporter",
        HazardType::LevelTeleporter => "LevelTeleporter",
        HazardType::FireTrap => "FireTrap",
        HazardType::SleepGas => "SleepGas",
        HazardType::RustTrap => "RustTrap",
        HazardType::PolymorphTrap => "PolymorphTrap",
    }
}

/// The expected damage, status effect, message, whether it was avoided, and
/// the number of draws after the first.
pub type HazardOutcome = (int, Option<Seq<char>>, Seq<char>, bool, nat);

/// A damage `d` with its message around it.
pub open spec fn dmg_text(prefix: Seq<char>, d: int) -> Seq<char> {
    prefix + int_text(d) + " 데미지)"@
}

/// What trap `h` does to a hero whose avoidance `avoid_check` is weighed
/// against `roll` (the first draw, in `1..=20`); `s1` is the state after
/// that draw, from which any second draw comes.
pub open spec fn hazard_outcome(h: HazardType, avoid_check: int, roll: int, lev: bool, s1: u64) -> HazardOutcome {
    let avoided = avoid_check > roll;
    match h {
        HazardType::Pit | HazardType::SpikedPit => if lev {
            (0, None, "공중에 떠 있어 구덩이를 피했다!"@, true, 0)
        } else {
            let d = if h == HazardType::SpikedPit { rng_roll(s1, 6) + 8 } else { rng_roll(s1, 6) + 2 };
            (d, None, dmg_text("구덩이에 빠졌다! ("@, d), false, 1)
        },
        HazardType::ArrowTrap => if avoided {
            (0, None, "화살을 피했다!"@, true, 0)
        } else {
            let d = rng_roll(s1, 6) + 3;
            (d, None, dmg_text("화살에 맞았다! ("@, d), false, 1)
        },
        HazardType::FireTrap => {
            let d = rng_roll(s1, 10) + 5;
            (d, Some("화상"@), dmg_text("불길이 솟아올랐다! ("@, d), false, 1)
        },
        HazardType::SleepGas => if avoided {
            (0, None, "가스를 피했다!"@, true, 0)
        } else {
            (0, Some("수면"@), "수면 가스에 쓰러진다!"@, false, 0)
        },
        HazardType::Teleporter => (0, Some("텔레포트"@), "공간이 비틀린다!"@, false, 0),
        HazardType::PolymorphTrap => (0, Some("변이"@), "몸이 변하기 시작한다!"@, false, 0),
        HazardType::BearTrap => if lev {
            (0, None, "공중에서 곰 함정을 피했다."@, true, 0)
        } else {
            (rng_roll(s1, 4) + 2, Some("속박"@), "곰 함정에 걸렸다!"@, false, 1)
        },
        HazardType::LandMine => if lev {
            (0, None, "지뢰 위를 떠다닌다."@, true, 0)
        } else {
            let d = rng_roll(s1, 16) + 10;
            (d, None, dmg_text("💥 지뢰가 폭발했다! ("@, d), false, 1)
        },
        _ => {
            let d = rng_roll(s1, 4) + 1;
            (d, None, hazard_name(h) + dmg_text(" 함정 작동! ("@, d), false, 1)
        },
    }
}

fn hazard_hit(hazard: HazardType, damage: i32, status: Option<String>, prefix: &str) -> (r: HazardResult)
    ensures
        r.hazard == hazard,
        r.damage == damage,
        r.status_effect == status,
        r.message@ == dmg_text(prefix@, damage as int),
        !r.avoided,
{
    HazardResult {
        hazard,
        damage,
        status_effect: status,
        message: text_with_int(prefix, damage as i64, " 데미지)"),
        avoided: false,
    }
}

fn hazard_plain(hazard: HazardType, damage: i32, status: Option<String>, message: &str, avoided: bool) -> (r: HazardResult)
    ensures
        r.hazard == hazard,
        r.damage == damage,
        r.status_effect == status,
        r.message@ == message@,
        r.avoided == avoided,
{
    HazardResult { hazard, damage, status_effect: status, message: message.to_string(), avoided }
}

fn some_text(s: &str) -> (r: Option<String>)
    ensures
        opt_text(r) == Some(s@),
{
    Some(s.to_string())
}

/// Springs a trap on the hero.
///
/// A first draw from `1..=20` is weighed against the hero's avoidance, half
/// of dexterity plus level: arrows and sleeping gas are avoided when the
/// avoidance exceeds it. Pits, bear traps and land mines do nothing to a
/// levitating hero. Otherwise a pit does 2 to 7 (a spiked one 8 to 13),
/// arrows 3 to 8, fire 5 to 14 with burns, a bear trap 2 to 5 and holds, a
/// land mine 10 to 25; sleeping gas puts to sleep; a teleporter and a
/// polymorph trap change place or form; any other trap does 1 to 4. Each
/// such amount is a second draw.
pub fn trigger_hazard(
    hazard: HazardType,
    player_dex: i32,
    player_level: i32,
    has_levitation: bool,
    rng: &mut NetHackRng,
) -> (r: HazardResult)
    requires
        i32::MIN <= player_dex + player_level <= i32::MAX,
    ensures
        ({
            let s0 = old(rng)@;
            let e = hazard_outcome(hazard, div_trunc(player_dex + player_level, 2), rng_roll(s0, 20) + 1,
                has_levitation, rng_next(s0));
            &&& r.hazard == hazard
            &&& r.damage == e.0
            &&& opt_text(r.status_effect) == e.1
            &&& r.message@ == e.2
            &&& r.avoided == e.3
            &&& final(rng)@ == (if e.4 == 0 { rng_next(s0) } else { rng_next(rng_next(s0)) })
        }),
{
    let ghost s0 = rng@;
    let avoid_check = (player_dex + player_level) / 2;
    assert(avoid_check == div_trunc(player_dex + player_level, 2));
    let roll = rng.rn2(20) + 1;
    let base_avoided = avoid_check > roll;
    match hazard {
        HazardType::Pit | HazardType::SpikedPit => {
            if has_levitation {
                return hazard_plain(hazard, 0, None, "공중에 떠 있어 구덩이를 피했다!", true);
            }
            let dmg = if hazard == HazardType::SpikedPit { rng.rn2(6) + 8 } else { rng.rn2(6) + 2 };
            hazard_hit(hazard, dmg, None, "구덩이에 빠졌다! (")
        },
        HazardType::ArrowTrap => {
            if base_avoided {
                hazard_plain(hazard, 0, None, "화살을 피했다!", true)
            } else {
                let dmg = rng.rn2(6) + 3;
                hazard_hit(hazard, dmg, None, "화살에 맞았다! (")
            }
        },
        HazardType::FireTrap => {
            let dmg = rng.rn2(10) + 5;
            hazard_hit(hazard, dmg, some_text("화상"), "불길이 솟아올랐다! (")
        },
        HazardType::SleepGas => {
            if base_avoided {
                hazard_plain(hazard, 0, None, "가스를 피했다!", true)
            } else {
                hazard_plain(hazard, 0, some_text("수면"), "수면 가스에 쓰러진다!", false)
            }
        },
        HazardType::Teleporter => hazard_plain(hazard, 0, some_text("텔레포트"), "공간이 비틀린다!", false),
        HazardType::PolymorphTrap => hazard_plain(hazard, 0, some_text("변이"), "몸이 변하기 시작한다!", false),
        HazardType::BearTrap => {
            if has_levitation {
                return hazard_plain(hazard, 0, None, "공중에서 곰 함정을 피했다.", true);
            }
            let dmg = rng.rn2(4) + 2;
            hazard_plain(hazard, dmg, some_text("속박"), "곰 함정에 걸렸다!", false)
        },
        HazardType::LandMine => {
            if has_levitation {
                return hazard_plain(hazard, 0, None, "지뢰 위를 떠다닌다.", true);
            }
            let dmg = rng.rn2(16) + 10;
            hazard_hit(hazard, dmg, None, "💥 지뢰가 폭발했다! (")
        },
        _ => {
            let dmg = rng.rn2(4) + 1;
            let prefix = concat2(hazard_type_name(hazard), " 함정 작동! (");
            let r = hazard_hit(hazard, dmg, None, prefix.as_str());
            assert(r.message@ == hazard_name(hazard) + dmg_text(" 함정 작동! ("@, dmg as int)) by {
                assert(prefix@ + int_text(dmg as int) + " 데미지)"@
                    =~= hazard_name(hazard) + (" 함정 작동! ("@ + int_text(dmg as int) + " 데미지)"@));
            }
            r
        },
    }
}

/// The chance in a hundred of spotting a trap: five times perception less
/// three times its difficulty, kept in `5..=95`.
pub open spec fn detect_chance(perception: int, trap_difficulty: int) -> int {
    clamp(perception * 5 - trap_difficulty * 3, 5, 95)
}

/// Whether a trap is spotted: a draw from `0..100` falls under the chance.
pub fn detect_hazard(perception: i32, trap_difficulty: i32, rng: &mut NetHackRng) -> (r: bool)
    requires
        i32::MIN <= perception * 5 <= i32::MAX,
        i32::MIN <= trap_difficulty * 3 <= i32::MAX,
        i32::MIN <= perception * 5 - trap_difficulty * 3 <= i32::MAX,
    ensures
        r == (rng_roll(old(rng)@, 100) < detect_chance(perception as int, trap_difficulty as int)),
        final(rng)@ == rng_next(old(rng)@),
{
    let c = perception * 5 - trap_difficulty * 3;
    let chance = if c < 5 { 5 } else if c > 95 { 95 } else { c };
    rng.rn2(100) < chance
}

/// The chance in a hundred of disarming a trap: three times dexterity plus
/// level, less five times its difficulty, kept in `5..=90`.
pub open spec fn disarm_chance(dex: int, level: int, trap_difficulty: int) -> int {
    clamp((dex + level) * 3 - trap_difficulty * 5, 5, 90)
}

/// Tries to disarm a trap: it succeeds when a draw from `0..100` falls
/// under the chance.
pub fn disarm_hazard(dex: i32, level: i32, trap_difficulty: i32, rng: &mut NetHackRng) -> (r: (bool, String))
    requires
        i32::MIN <= dex + level <= i32::MAX,
        i32::MIN <= (dex + level) * 3 <= i32::MAX,
        i32::MIN <= trap_difficulty * 5 <= i32::MAX,
        i32::MIN <= (dex + level) * 3 - trap_difficulty * 5 <= i32::MAX,
    ensures
        ({
            let ok = rng_roll(old(rng)@, 100) < disarm_chance(dex as int, level as int, trap_difficulty as int);
            &&& r.0 == ok
            &&& r.1@ == (if ok { "함정을 해제했다!"@ } else { "함정 해제에 실패했다! 함정이 작동한다!"@ })
            &&& final(rng)@ == rng_next(old(rng)@)
        }),
{
    let c = (dex + level) * 3 - trap_difficulty * 5;
    let chance = if c < 5 { 5 } else if c > 90 { 90 } else { c };
    if rng.rn2(100) < chance {
        (true, "함정을 해제했다!".to_string())
    } else {
        (false, "함정 해제에 실패했다! 함정이 작동한다!".to_string())
    }
}

} // verus!
