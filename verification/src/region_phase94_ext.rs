//! Lasting area effects (gas, fire, ice, silence, sanctuaries, darkness)
//! and the message log that reports them.
use vstd::prelude::*;
use crate::num::{abs, max};
use crate::rng::{NetHackRng, rng_roll, rng_next};

verus! {

/// Kinds of lasting area effect.
#[derive(Debug, Clone, Copy, PartialEq, Eq, Structural)]
pub enum RegionType {
    PoisonGas,
    StinkingCloud,
    Fog,
    Fire,
    Ice,
    Silence,
    AntiMagic,
    Sanctuary,
    Darkness,
    Light,
}

/// An area effect centred on `(x, y)`.
#[derive(Debug, Clone)]
pub struct Region {
    pub region_type: RegionType,
    pub x: i32,
    pub y: i32,
    pub radius: i32,
    pub turns_remaining: i32,
    pub source: String,
}

/// What an area effect does to a creature inside it.
#[derive(Debug, Clone, PartialEq, Eq)]
pub enum RegionEffect {
    Damage { amount: i32, element: String },
    StatusInflict { status: String, turns: i32 },
    SpellBlock,
    Protection { ac_bonus: i32 },
    VisionChange { blind: bool },
    NoEffect,
}

/// The chessboard distance from the centre of `region` to `(tx, ty)`.
pub open spec fn region_distance(region: Region, tx: int, ty: int) -> int {
    max(abs(region.x - tx), abs(region.y - ty))
}

/// Whether `r` is damage of `amount` of the element named `element`.
pub open spec fn is_damage(r: RegionEffect, amount: int, element: Seq<char>) -> bool {
    r matches RegionEffect::Damage { amount: a, element: e } && a == amount && e@ == element
}

/// The effect of a region on a creature at `(target_x, target_y)`. Out of
/// its reach nothing happens. Poison gas deals 2 to 5, a stinking cloud
/// confuses for 5 to 14 turns, fire deals 4 to 11 and ice 3 to 8, unless
/// `has_resistance` says the creature resists that element ("독" for poison,
/// "화염" for fire, "냉기" for cold). Silence and anti-magic block spells, a
/// sanctuary protects by 5, darkness blinds, fog and light do not.
pub fn apply_region_effect<F: Fn(&str) -> bool>(
    region: &Region,
    target_x: i32,
    target_y: i32,
    has_resistance: &F,
    rng: &mut NetHackRng,
) -> (r: RegionEffect)
    requires
        i32::MIN < region.x - target_x <= i32::MAX,
        i32::MIN < region.y - target_y <= i32::MAX,
        forall|s: &str| has_resistance.requires((s,)),
    ensures
        ({
            let s0 = old(rng)@;
            let s1 = rng_next(s0);
            let unchanged = final(rng)@ == s0;
            let drew = final(rng)@ == s1;
            if region_distance(*region, target_x as int, target_y as int) > region.radius {
                r == RegionEffect::NoEffect && unchanged
            } else {
                match region.region_type {
                    RegionType::PoisonGas =>
                        (r == RegionEffect::NoEffect && unchanged && has_resistance.ensures(("독",), true))
                        || (is_damage(r, rng_roll(s0, 4) + 2, "독"@) && drew
                            && has_resistance.ensures(("독",), false)),
                    RegionType::StinkingCloud =>
                        (r == RegionEffect::NoEffect && unchanged && has_resistance.ensures(("독",), true))
                        || ((r matches RegionEffect::StatusInflict { status, turns }
                            && status@ == "혼란"@ && turns == rng_roll(s0, 10) + 5) && drew
                            && has_resistance.ensures(("독",), false)),
                    RegionType::Fire =>
                        (r == RegionEffect::NoEffect && unchanged && has_resistance.ensures(("화염",), true))
                        || (is_damage(r, rng_roll(s0, 8) + 4, "화염"@) && drew
                            && has_resistance.ensures(("화염",), false)),
                    RegionType::Ice =>
                        (r == RegionEffect::NoEffect && unchanged && has_resistance.ensures(("냉기",), true))
                        || (is_damage(r, rng_roll(s0, 6) + 3, "냉기"@) && drew
                            && has_resistance.ensures(("냉기",), false)),
                    RegionType::Fog => r == (RegionEffect::VisionChange { blind: false }) && unchanged,
                    RegionType::Silence => r == RegionEffect::SpellBlock && unchanged,
                    RegionType::AntiMagic => r == RegionEffect::SpellBlock && unchanged,
                    RegionType::Sanctuary => r == (RegionEffect::Protection { ac_bonus: 5 }) && unchanged,
                    RegionType::Darkness => r == (RegionEffect::VisionChange { blind: true }) && unchanged,
                    RegionType::Light => r == (RegionEffect::VisionChange { blind: false }) && unchanged,
                }
            }
        }),
{
    let ddx = region.x - target_x;
    let ddy = region.y - target_y;
    let adx = if ddx < 0 { -ddx } else { ddx };
    let ady = if ddy < 0 { -ddy } else { ddy };
    let dist = if adx > ady { adx } else { ady };
    if dist > region.radius {
        return RegionEffect::NoEffect;
    }
    match region.region_type {
        RegionType::PoisonGas => {
            if has_resistance("독") {
                RegionEffect::NoEffect
            } else {
                RegionEffect::Damage { amount: rng.rn2(4) + 2, element: "독".to_string() }
            }
        },
        RegionType::StinkingCloud => {
            if has_resistance("독") {
                RegionEffect::NoEffect
            } else {
                RegionEffect::StatusInflict { status: "혼란".to_string(), turns: rng.rn2(10) + 5 }
            }
        },
        RegionType::Fog => RegionEffect::VisionChange { blind: false },
        RegionType::Fire => {
            if has_resistance("화염") {
                RegionEffect::NoEffect
            } else {
                RegionEffect::Damage { amount: rng.rn2(8) + 4, element: "화염".to_string() }
            }
        },
        RegionType::Ice => {
            if has_resistance("냉기") {
                RegionEffect::NoEffect
            } else {
                RegionEffect::Damage { amount: rng.rn2(6) + 3, element: "냉기".to_string() }
            }
        },
        RegionType::Silence => RegionEffect::SpellBlock,
        RegionType::AntiMagic => RegionEffect::SpellBlock,
        RegionType::Sanctuary => RegionEffect::Protection { ac_bonus: 5 },
        RegionType::Darkness => RegionEffect::VisionChange { blind: true },
        RegionType::Light => RegionEffect::VisionChange { blind: false },
    }
}

/// A region after one more turn.
#[derive(Debug, Clone, PartialEq, Eq, Structural)]
pub enum RegionTickResult {
    Active { turns_left: i32 },
    Fading { turns_left: i32 },
    Expired,
}

/// Counts a turn off a region: it expires at zero and fades in its last
/// three turns.
pub fn region_tick(region: &Region) -> (r: RegionTickResult)
    requires
        region.turns_remaining > i32::MIN,
    ensures
        ({
            let left = region.turns_remaining - 1;
            if left <= 0 {
                r == RegionTickResult::Expired
            } else if left <= 3 {
                r == (RegionTickResult::Fading { turns_left: left as i32 })
            } else {
                r == (RegionTickResult::Active { turns_left: left as i32 })
            }
        }),
{
    let remaining = region.turns_remaining - 1;
    if remaining <= 0 {
        RegionTickResult::Expired
    } else if remaining <= 3 {
        RegionTickResult::Fading { turns_left: remaining }
    } else {
        RegionTickResult::Active { turns_left: remaining }
    }
}

/// Kinds of message.
#[derive(Debug, Clone, Copy, PartialEq, Eq, Structural)]
pub enum MessageType {
    Normal,
    Warning,
    Danger,
    StatusChange,
    ItemAction,
    MonsterAction,
    MapAction,
    Quest,
    Achievement,
    System,
}

/// A message of the game, with the turn it was given and its priority.
#[derive(Debug, Clone, PartialEq, Eq)]
pub struct GameMessage {
    pub msg_type: MessageType,
    pub text: String,
    pub turn: i32,
    pub priority: i32,
}

/// How urgent a kind of message is, from 10 (danger) down to 1 (system).
pub open spec fn message_priority(t: MessageType) -> i32 {
    match t {
        MessageType::Danger => 10,
        MessageType::Warning => 8,
        MessageType::Quest => 7,
        MessageType::Achievement => 7,
        MessageType::StatusChange => 5,
        MessageType::MonsterAction => 4,
        MessageType::ItemAction => 4,
        MessageType::Normal => 3,
        MessageType::MapAction => 2,
        MessageType::System => 1,
    }
}

/// A message of kind `msg_type` given on `turn`.
pub fn create_message(msg_type: MessageType, text: &str, turn: i32) -> (m: GameMessage)
    ensures
        m.msg_type == msg_type,
        m.text@ == text@,
        m.turn == turn,
        m.priority == message_priority(msg_type),
{
    let priority = match msg_type {
        MessageType::Danger => 10,
        MessageType::Warning => 8,
        MessageType::Quest => 7,
        MessageType::Achievement => 7,
        MessageType::StatusChange => 5,
        MessageType::MonsterAction => 4,
        MessageType::ItemAction => 4,
        MessageType::Normal => 3,
        MessageType::MapAction => 2,
        MessageType::System => 1,
    };
    GameMessage { msg_type, text: text.to_string(), turn, priority }
}

/// The messages given so far, oldest first, keeping at most `max_size`.
#[derive(Debug, Clone)]
pub struct MessageLog {
    pub messages: Vec<GameMessage>,
    pub max_size: usize,
}

/// The log `msgs` after `m` is added to it: the oldest message goes once
/// there are more than `max_size`.
pub open spec fn log_after_add(msgs: Seq<GameMessage>, max_size: nat, m: GameMessage) -> Seq<GameMessage> {
    if msgs.len() + 1 > max_size {
        msgs.push(m).drop_first()
    } else {
        msgs.push(m)
    }
}

impl MessageLog {
    /// An empty log that keeps at most `max_size` messages.
    pub fn new(max_size: usize) -> (l: MessageLog)
        ensures
            l.messages@.len() == 0,
            l.max_size == max_size,
    {
        MessageLog { messages: Vec::new(), max_size }
    }

    /// Adds a message, dropping the oldest one when the log overflows.
    pub fn add(&mut self, msg: GameMessage)
        ensures
            final(self).max_size == old(self).max_size,
            final(self).messages@ == log_after_add(old(self).messages@, old(self).max_size as nat, msg),
    {
        let ghost m = msg;
        self.messages.push(msg);
        if self.messages.len() > self.max_size {
            self.messages.remove(0);
            assert(self.messages@ =~= old(self).messages@.push(m).drop_first());
        }
    }

    /// The last `count` messages, or all of them if there are fewer.
    pub fn recent(&self, count: usize) -> (r: &[GameMessage])
        ensures
            r@ == self.messages@.subrange(
                if self.messages@.len() > count { self.messages@.len() - count } else { 0 },
                self.messages@.len() as int,
            ),
    {
        let n = self.messages.len();
        let start = if n > count { n - count } else { 0 };
        &self.messages.as_slice()[start..n]
    }

    /// The messages of kind `msg_type`, oldest first.
    pub fn filter_by_type(&self, msg_type: MessageType) -> (r: Vec<&GameMessage>)
        ensures
            r@.len() == self.messages@.filter(|m: GameMessage| m.msg_type == msg_type).len(),
            forall|k: int| 0 <= k < r@.len()
                ==> *r@[k] == self.messages@.filter(|m: GameMessage| m.msg_type == msg_type)[k],
    {
        let ghost pred = |m: GameMessage| m.msg_type == msg_type;
        let mut r: Vec<&GameMessage> = Vec::new();
        let mut i: usize = 0;
        while i < self.messages.len()
            invariant
                i <= self.messages@.len(),
                pred == (|m: GameMessage| m.msg_type == msg_type),
                r@.len() == self.messages@.take(i as int).filter(pred).len(),
                forall|k: int| 0 <= k < r@.len() ==> *r@[k] == self.messages@.take(i as int).filter(pred)[k],
            decreases self.messages@.len() - i,
        {
            proof {
                let s = self.messages@;
                assert(s.take(i as int + 1).drop_last() =~= s.take(i as int));
                reveal(Seq::filter);
            }
            if self.messages[i].msg_type == msg_type {
                r.push(&self.messages[i]);
            }
            i = i + 1;
        }
        assert(self.messages@.take(i as int) =~= self.messages@);
        r
    }
}

} // verus!
