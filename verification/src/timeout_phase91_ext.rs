//! Timers: how a status ailment runs out or worsens, how an object timer
//! (rotting corpse, lamp, candle, egg, orb, bomb) ends, and which periodic
//! events a turn brings.
use vstd::prelude::*;
use crate::rng::{NetHackRng, rng_roll, rng_next};
use crate::text::{int_text, text_with_int};

verus! {

/// Status ailments and boons that wear off.
#[derive(Debug, Clone, Copy, PartialEq, Eq, Hash, Structural)]
pub enum StatusType {
    Confusion,
    Stun,
    Blind,
    Hallucination,
    Sick,
    Slimed,
    Petrifying,
    Paralyzed,
    Sleeping,
    Levitation,
    Invisibility,
    SeeInvisible,
    SpeedBoost,
    Protection,
    Wounded,
}

/// A running status timer; `severity` goes from 1 (mild) to 4 (deadly).
#[derive(Debug, Clone)]
pub struct StatusTimer {
    pub status: StatusType,
    pub turns_remaining: i32,
    pub source: String,
    pub severity: i32,
}

/// A status timer after one more turn.
#[derive(Debug, Clone, PartialEq, Eq)]
pub enum TimerTickResult {
    Continuing { turns_left: i32 },
    Expired { message: String },
    Worsened { new_severity: i32, message: String },
    Fatal { cause: String },
}

/// Whether a status kills when it runs out: stoning and sliming always,
/// sickness at severity 4.
pub open spec fn expiry_is_fatal(status: StatusType, severity: int) -> bool {
    status == StatusType::Petrifying || status == StatusType::Slimed
        || (status == StatusType::Sick && severity >= 4)
}

/// What is said when a status runs out.
pub open spec fn expiry_text(status: StatusType, severity: int) -> Seq<char> {
    match status {
        StatusType::Petrifying => "석화가 완료되었다!"@,
        StatusType::Sick => if severity >= 4 { "질병으로 사망했다."@ } else { "병이 나았다."@ },
        StatusType::Slimed => "슬라임으로 변했다!"@,
        StatusType::Confusion => "혼란이 풀렸다."@,
        StatusType::Stun => "기절이 풀렸다."@,
        StatusType::Blind => "시야가 돌아왔다!"@,
        StatusType::Hallucination => "환각이 사라졌다."@,
        StatusType::Paralyzed => "다시 움직일 수 있다!"@,
        StatusType::Sleeping => "잠에서 깨어났다."@,
        StatusType::Levitation => "부유가 끝났다."@,
        StatusType::SpeedBoost => "속도 증가가 끝났다."@,
        StatusType::Protection => "보호 효과가 사라졌다."@,
        _ => "효과가 끝났다."@,
    }
}

/// Whether `r` is a worsening to `severity` with the warning `prefix`, the
/// turns left, and `suffix`.
pub open spec fn is_worsening(r: TimerTickResult, severity: int, prefix: Seq<char>, left: int, suffix: Seq<char>) -> bool {
    r matches TimerTickResult::Worsened { new_severity, message }
        && new_severity == severity && message@ == prefix + int_text(left) + suffix
}

fn expire_status(status: StatusType, severity: i32) -> (r: TimerTickResult)
    ensures
        expiry_is_fatal(status, severity as int) ==> (r matches TimerTickResult::Fatal { cause }
            && cause@ == expiry_text(status, severity as int)),
        !expiry_is_fatal(status, severity as int) ==> (r matches TimerTickResult::Expired { message }
            && message@ == expiry_text(status, severity as int)),
{
    match status {
        StatusType::Petrifying => TimerTickResult::Fatal { cause: "석화가 완료되었다!".to_string() },
        StatusType::Sick => {
            if severity >= 4 {
                TimerTickResult::Fatal { cause: "질병으로 사망했다.".to_string() }
            } else {
                TimerTickResult::Expired { message: "병이 나았다.".to_string() }
            }
        },
        StatusType::Slimed => TimerTickResult::Fatal { cause: "슬라임으로 변했다!".to_string() },
        StatusType::Confusion => TimerTickResult::Expired { message: "혼란이 풀렸다.".to_string() },
        StatusType::Stun => TimerTickResult::Expired { message: "기절이 풀렸다.".to_string() },
        StatusType::Blind => TimerTickResult::Expired { message: "시야가 돌아왔다!".to_string() },
        StatusType::Hallucination => TimerTickResult::Expired { message: "환각이 사라졌다.".to_string() },
        StatusType::Paralyzed => TimerTickResult::Expired { message: "다시 움직일 수 있다!".to_string() },
        StatusType::Sleeping => TimerTickResult::Expired { message: "잠에서 깨어났다.".to_string() },
        StatusType::Levitation => TimerTickResult::Expired { message: "부유가 끝났다.".to_string() },
        StatusType::SpeedBoost => TimerTickResult::Expired { message: "속도 증가가 끝났다.".to_string() },
        StatusType::Protection => TimerTickResult::Expired { message: "보호 효과가 사라졌다.".to_string() },
        _ => TimerTickResult::Expired { message: "효과가 끝났다.".to_string() },
    }
}

/// Counts a turn off a status timer. When it runs out it ends, fatally for
/// stoning, sliming and deadly sickness. In their last turns stoning and
/// sliming (three) and sickness (five) warn and worsen; anything else just
/// continues. The random stream is not drawn from.
pub fn tick_status_timer(timer: &StatusTimer, rng: &mut NetHackRng) -> (r: TimerTickResult)
    requires
        timer.turns_remaining > i32::MIN,
        timer.status == StatusType::Sick && 0 < timer.turns_remaining - 1 <= 5 ==> timer.severity < i32::MAX,
    ensures
        final(rng)@ == old(rng)@,
        ({
            let left = timer.turns_remaining - 1;
            let sev = timer.severity as int;
            if left <= 0 {
                if expiry_is_fatal(timer.status, sev) {
                    r matches TimerTickResult::Fatal { cause } && cause@ == expiry_text(timer.status, sev)
                } else {
                    r matches TimerTickResult::Expired { message } && message@ == expiry_text(timer.status, sev)
                }
            } else if timer.status == StatusType::Petrifying && left <= 3 {
                is_worsening(r, 4, "몸이 점점 굳어간다... ("@, left, "턴 남음)"@)
            } else if timer.status == StatusType::Sick && left <= 5 {
                is_worsening(r, sev + 1, "병이 악화되고 있다... ("@, left, "턴 남음)"@)
            } else if timer.status == StatusType::Slimed && left <= 3 {
                is_worsening(r, 4, "슬라임이 퍼지고 있다... ("@, left, "턴 남음)"@)
            } else {
                r == (TimerTickResult::Continuing { turns_left: left as i32 })
            }
        }),
{
    let new_turns = timer.turns_remaining - 1;
    if new_turns <= 0 {
        return expire_status(timer.status, timer.severity);
    }
    match timer.status {
        StatusType::Petrifying if new_turns <= 3 => TimerTickResult::Worsened {
            new_severity: 4,
            message: text_with_int("몸이 점점 굳어간다... (", new_turns as i64, "턴 남음)"),
        },
        StatusType::Sick if new_turns <= 5 => TimerTickResult::Worsened {
            new_severity: timer.severity + 1,
            message: text_with_int("병이 악화되고 있다... (", new_turns as i64, "턴 남음)"),
        },
        StatusType::Slimed if new_turns <= 3 => TimerTickResult::Worsened {
            new_severity: 4,
            message: text_with_int("슬라임이 퍼지고 있다... (", new_turns as i64, "턴 남음)"),
        },
        _ => TimerTickResult::Continuing { turns_left: new_turns },
    }
}

/// Kinds of object timer.
#[derive(Debug, Clone, Copy, PartialEq, Eq, Structural)]
pub enum ItemTimerType {
    CorpseRot,
    LampFuel,
    CandleBurn,
    EggHatch,
    OrbRecharge,
    BombFuse,
}

/// An object timer after one more turn.
#[derive(Debug, Clone, PartialEq, Eq)]
pub enum ItemTimerResult {
    Continuing { turns_left: i32 },
    Rotted,
    LampOut,
    Hatched { monster_type: String },
    BurnedOut,
    Exploded { damage: i32, radius: i32 },
    Recharged,
}

/// Counts a turn off an object timer. When it runs out the corpse rots, the
/// lamp goes out, the candle burns out, the egg hatches, the orb recharges,
/// or the bomb explodes for 20 to 49 damage in radius 3.
pub fn tick_item_timer(timer_type: ItemTimerType, turns_remaining: i32, rng: &mut NetHackRng) -> (r: ItemTimerResult)
    requires
        turns_remaining > i32::MIN,
    ensures
        ({
            let left = turns_remaining - 1;
            let s0 = old(rng)@;
            if left > 0 {
                r == (ItemTimerResult::Continuing { turns_left: left as i32 }) && final(rng)@ == s0
            } else {
                match timer_type {
                    ItemTimerType::CorpseRot => r == ItemTimerResult::Rotted && final(rng)@ == s0,
                    ItemTimerType::LampFuel => r == ItemTimerResult::LampOut && final(rng)@ == s0,
                    ItemTimerType::CandleBurn => r == ItemTimerResult::BurnedOut && final(rng)@ == s0,
                    ItemTimerType::EggHatch => (r matches ItemTimerResult::Hatched { monster_type }
                        && monster_type@ == "해칭 몬스터"@) && final(rng)@ == s0,
                    ItemTimerType::OrbRecharge => r == ItemTimerResult::Recharged && final(rng)@ == s0,
                    ItemTimerType::BombFuse => {
                        &&& r == (ItemTimerResult::Exploded { damage: (rng_roll(s0, 30) + 20) as i32, radius: 3 })
                        &&& final(rng)@ == rng_next(s0)
                    },
                }
            }
        }),
{
    let new_turns = turns_remaining - 1;
    if new_turns <= 0 {
        return match timer_type {
            ItemTimerType::CorpseRot => ItemTimerResult::Rotted,
            ItemTimerType::LampFuel => ItemTimerResult::LampOut,
            ItemTimerType::CandleBurn => ItemTimerResult::BurnedOut,
            ItemTimerType::EggHatch => ItemTimerResult::Hatched { monster_type: "해칭 몬스터".to_string() },
            ItemTimerType::OrbRecharge => ItemTimerResult::Recharged,
            ItemTimerType::BombFuse => ItemTimerResult::Exploded { damage: rng.rn2(30) + 20, radius: 3 },
        };
    }
    ItemTimerResult::Continuing { turns_left: new_turns }
}

/// Things that happen on a schedule of turns.
#[derive(Debug, Clone, PartialEq, Eq, Structural)]
pub enum PeriodicEvent {
    MonsterRegen,
    PlayerRegen { hp: i32, energy: i32 },
    HungerTick { drain: i32 },
    TrapReset,
    NoEvent,
}

/// The events of turn `turn`, in order: hunger every turn, monster
/// regeneration on even turns, the hero's regeneration every fifth turn
/// (two hit points from level 10, two energy from level 15), and a trap
/// reset every fiftieth turn.
pub open spec fn periodic_events(turn: u64, level: int, hunger_rate: i32) -> Seq<PeriodicEvent> {
    let e1 = seq![PeriodicEvent::HungerTick { drain: hunger_rate }];
    let e2 = if turn % 2 == 0 { e1.push(PeriodicEvent::MonsterRegen) } else { e1 };
    let e3 = if turn % 5 == 0 {
        e2.push(PeriodicEvent::PlayerRegen {
            hp: if level >= 10 { 2 } else { 1 },
            energy: if level >= 15 { 2 } else { 1 },
        })
    } else {
        e2
    };
    if turn % 50 == 0 { e3.push(PeriodicEvent::TrapReset) } else { e3 }
}

/// The events of a turn; the random stream is not drawn from.
pub fn check_periodic_events(
    current_turn: u64,
    player_level: i32,
    hunger_rate: i32,
    rng: &mut NetHackRng,
) -> (r: Vec<PeriodicEvent>)
    ensures
        r@ == periodic_events(current_turn, player_level as int, hunger_rate),
        final(rng)@ == old(rng)@,
{
    let mut events: Vec<PeriodicEvent> = Vec::new();
    events.push(PeriodicEvent::HungerTick { drain: hunger_rate });
    if current_turn % 2 == 0 {
        events.push(PeriodicEvent::MonsterRegen);
    }
    if current_turn % 5 == 0 {
        let hp_regen = if player_level >= 10 { 2 } else { 1 };
        let energy_regen = if player_level >= 15 { 2 } else { 1 };
        events.push(PeriodicEvent::PlayerRegen { hp: hp_regen, energy: energy_regen });
    }
    if current_turn % 50 == 0 {
        events.push(PeriodicEvent::TrapReset);
    }
    events
}

} // verus!
