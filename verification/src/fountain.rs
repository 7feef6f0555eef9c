//! Fountains: drinking from them, wishes and water demons, drying up,
//! dipping objects (and Excalibur), washing, and the counts of it all.
use vstd::prelude::*;
use crate::num::clamp;
use crate::rng::{NetHackRng, rng_roll, rng_next};
use crate::text::{has_sub, str_contains, text_with_int, int_text};
use crate::tile::TileType;
use crate::game_log::{GameLog, Message, after_add, DEFAULT_COLOR};

verus! {

/// What drinking from a fountain can change about the hero.
#[derive(Debug, Clone, Copy, PartialEq, Eq, Structural)]
pub struct Drinker {
    pub experience: u64,
    pub gold: u64,
    pub nutrition: i32,
    pub hp: i32,
    pub hp_max: i32,
}

/// How a drink from a fountain went, for the world to apply.
#[derive(Debug, Clone, Copy, PartialEq, Eq, Structural)]
pub struct FountainDrink {
    pub drank: bool,
    pub dried_up: bool,
    pub rust_slot: Option<usize>,
}

/// The log `ms` after the messages `new` are added in turn.
pub open spec fn logged(ms: Seq<Message>, new: Seq<Message>, cap: nat) -> Seq<Message>
    decreases new.len(),
{
    if new.len() == 0 {
        ms
    } else {
        after_add(logged(ms, new.drop_last(), cap), new.last(), cap)
    }
}

proof fn lemma_logged_two(ms: Seq<Message>, a: Message, b: Message, cap: nat)
    ensures
        logged(ms, seq![a, b], cap) == after_add(after_add(ms, a, cap), b, cap),
{
    reveal_with_fuel(logged, 3);
    assert(seq![a, b].drop_last() =~= seq![a]);
    assert(seq![a].drop_last() =~= Seq::<Message>::empty());
    assert(seq![a, b].last() == b);
    assert(seq![a].last() == a);
}

proof fn lemma_logged_one(ms: Seq<Message>, a: Message, cap: nat)
    ensures
        logged(ms, seq![a], cap) == after_add(ms, a, cap),
{
    reveal_with_fuel(logged, 2);
    assert(seq![a].drop_last() =~= Seq::<Message>::empty());
    assert(seq![a].last() == a);
}

/// The messages, the hero afterwards, the result and the final stream
/// state when the hero drinks while standing on a square of kind `tile`
/// with `slots` pieces of equipment, the stream starting in state `s0`.
pub open spec fn drink_outcome(tile: Option<TileType>, p: Drinker, slots: usize, turn: u64, s0: u64)
    -> (Seq<Message>, Drinker, FountainDrink, u64) {
    let s1 = rng_next(s0);
    let s2 = rng_next(s1);
    let none = FountainDrink { drank: true, dried_up: false, rust_slot: None };
    let first = ("You drink from the fountain."@, DEFAULT_COLOR, turn);
    match tile {
        None => (Seq::empty(), p, FountainDrink { drank: false, dried_up: false, rust_slot: None }, s0),
        Some(t) => if t != TileType::Fountain {
            (seq![("There is no fountain here."@, DEFAULT_COLOR, turn)], p,
                FountainDrink { drank: false, dried_up: false, rust_slot: None }, s0)
        } else if rng_roll(s0, 100) < 20 {
            (seq![first, ("The fountain dries up!"@, DEFAULT_COLOR, turn)], p,
                FountainDrink { drank: true, dried_up: true, rust_slot: None }, s1)
        } else {
            let roll = rng_roll(s1, 100);
            if roll < 5 {
                (seq![first, ("You feel a strange power flow through you."@, DEFAULT_COLOR, turn)],
                    Drinker { experience: (p.experience + 500) as u64, ..p }, none, s2)
            } else if roll < 15 {
                (seq![first, ("You feel better."@, DEFAULT_COLOR, turn)], Drinker { hp: p.hp_max, ..p }, none, s2)
            } else if roll < 25 {
                (seq![first, ("A water demon appears!"@, [255u8, 0u8, 0u8], turn)], p, none, s2)
            } else if roll < 30 {
                (seq![first, ("You feel lucky! (Wish chance)"@, [255u8, 215u8, 0u8], turn)],
                    Drinker { gold: (p.gold + 5000) as u64, ..p }, none, s2)
            } else if roll < 50 {
                let g = rng_roll(s2, 100) + 50;
                (seq![first, ("You found "@ + int_text(g) + " gold pieces in the fountain."@, DEFAULT_COLOR, turn)],
                    Drinker { gold: (p.gold + g) as u64, ..p }, none, rng_next(s2))
            } else if roll < 60 {
                (seq![first, ("The water tastes foul!"@, DEFAULT_COLOR, turn)], Drinker { hp: (p.hp - 5) as i32, ..p },
                    none, s2)
            } else if roll < 70 {
                let msgs = seq![first, ("A gush of water hits you!"@, DEFAULT_COLOR, turn)];
                if rng_roll(s2, 3) == 0 && slots > 0 {
                    (msgs, p, FountainDrink { rust_slot: Some(rng_roll(rng_next(s2), slots as int) as usize), ..none },
                        rng_next(rng_next(s2)))
                } else {
                    (msgs, p, none, rng_next(s2))
                }
            } else {
                (seq![first, ("It tastes like clear water."@, DEFAULT_COLOR, turn)],
                    Drinker { nutrition: (p.nutrition + 50) as i32, ..p }, none, s2)
            }
        },
    }
}

/// The hero drinks from a fountain (nothing happens on an unknown square).
/// Off a fountain the hero is told there is none. One time in five the
/// fountain dries up. Otherwise a draw from `0..100` decides: under 5
/// 500 experience, under 15 full health, under 25 a water demon, under 30 a
/// wish (5000 gold for now), under 50 50 to 149 gold, under 60 foul water
/// for 5 hit points, under 70 a gush of water that one time in three rusts
/// a random piece of equipment, else clear water worth 50 nutrition.
pub fn try_drink_fountain(
    tile: Option<TileType>,
    drinker: &mut Drinker,
    equipment_slots: usize,
    log: &mut GameLog,
    turn: u64,
    rng: &mut NetHackRng,
) -> (r: FountainDrink)
    requires
        old(log).wf(),
        old(drinker).experience <= u64::MAX - 500,
        old(drinker).gold <= u64::MAX - 5000,
        old(drinker).nutrition <= i32::MAX - 50,
        old(drinker).hp >= i32::MIN + 5,
        equipment_slots <= i32::MAX,
    ensures
        final(log).wf(),
        final(log).cap() == old(log).cap(),
        ({
            let (msgs, p, res, s) = drink_outcome(tile, *old(drinker), equipment_slots, turn, old(rng)@);
            &&& final(log).messages() == logged(old(log).messages(), msgs, old(log).cap())
            &&& *final(drinker) == p
            &&& r == res
            &&& final(rng)@ == s
        }),
{
    let ghost ms0 = log.messages();
    let ghost cap = log.cap();
    let t = match tile {
        None => {
            return FountainDrink { drank: false, dried_up: false, rust_slot: None };
        },
        Some(t) => t,
    };
    if t != TileType::Fountain {
        log.add("There is no fountain here.", turn);
        proof {
            lemma_logged_one(ms0, ("There is no fountain here."@, DEFAULT_COLOR, turn), cap);
        }
        return FountainDrink { drank: false, dried_up: false, rust_slot: None };
    }
    log.add("You drink from the fountain.", turn);
    let ghost first = ("You drink from the fountain."@, DEFAULT_COLOR, turn);
    if rng.rn2(100) < 20 {
        log.add("The fountain dries up!", turn);
        proof {
            lemma_logged_two(ms0, first, ("The fountain dries up!"@, DEFAULT_COLOR, turn), cap);
        }
        return FountainDrink { drank: true, dried_up: true, rust_slot: None };
    }
    let roll = rng.rn2(100);
    let mut rust_slot: Option<usize> = None;
    let (text, color): (&str, [u8; 3]) = if roll < 5 {
        drinker.experience = drinker.experience + 500;
        ("You feel a strange power flow through you.", DEFAULT_COLOR)
    } else if roll < 15 {
        drinker.hp = drinker.hp_max;
        ("You feel better.", DEFAULT_COLOR)
    } else if roll < 25 {
        ("A water demon appears!", [255, 0, 0])
    } else if roll < 30 {
        drinker.gold = drinker.gold + 5000;
        ("You feel lucky! (Wish chance)", [255, 215, 0])
    } else if roll < 50 {
        let g = rng.rn1(100, 50);
        drinker.gold = drinker.gold + (g as u64);
        let line = text_with_int("You found ", g as i64, " gold pieces in the fountain.");
        log.add(line.as_str(), turn);
        proof {
            lemma_logged_two(ms0, first, (line@, DEFAULT_COLOR, turn), cap);
        }
        return FountainDrink { drank: true, dried_up: false, rust_slot: None };
    } else if roll < 60 {
        drinker.hp = drinker.hp - 5;
        ("The water tastes foul!", DEFAULT_COLOR)
    } else if roll < 70 {
        if rng.rn2(3) == 0 && equipment_slots > 0 {
            let k = rng.rn2(equipment_slots as i32);
            rust_slot = Some(k as usize);
        }
        ("A gush of water hits you!", DEFAULT_COLOR)
    } else {
        drinker.nutrition = drinker.nutrition + 50;
        ("It tastes like clear water.", DEFAULT_COLOR)
    };
    log.add_colored(text, color, turn);
    proof {
        lemma_logged_two(ms0, first, (text@, color, turn), cap);
    }
    FountainDrink { drank: true, dried_up: false, rust_slot }
}

/// What wishing at a fountain gives.
#[derive(Debug, Clone, PartialEq, Eq, Structural)]
pub enum FountainWishResult {
    NoWish,
    MinorWish,
    MajorWish,
    WaterDemon,
}

/// What a fountain grants: a draw from `0..100`, shifted by luck (within
/// -5..=5), under 3 is a major wish and under 8 a minor one; otherwise the
/// unshifted draw under 18 calls a water demon; else nothing.
pub fn fountain_wish_roll(luck: i32, rng: &mut NetHackRng) -> (r: FountainWishResult)
    ensures
        ({
            let roll = rng_roll(old(rng)@, 100);
            let l = clamp(luck as int, -5, 5);
            r == if roll + l < 3 {
                FountainWishResult::MajorWish
            } else if roll + l < 8 {
                FountainWishResult::MinorWish
            } else if roll < 18 {
                FountainWishResult::WaterDemon
            } else {
                FountainWishResult::NoWish
            }
        }),
        final(rng)@ == rng_next(old(rng)@),
{
    let roll = rng.rn2(100);
    let luck_bonus = if luck < -5 { -5 } else if luck > 5 { 5 } else { luck };
    if roll + luck_bonus < 3 {
        FountainWishResult::MajorWish
    } else if roll + luck_bonus < 8 {
        FountainWishResult::MinorWish
    } else if roll < 18 {
        FountainWishResult::WaterDemon
    } else {
        FountainWishResult::NoWish
    }
}

/// Whether a fountain dries up: a draw from `0..100` under 20 plus five per
/// use, the addition at most 40.
pub fn fountain_dryup_chance(times_used: u32, rng: &mut NetHackRng) -> (r: bool)
    requires
        times_used <= u32::MAX / 5,
    ensures
        r == (rng_roll(old(rng)@, 100) < 20 + (if times_used * 5 < 40 { times_used * 5 } else { 40 })),
        final(rng)@ == rng_next(old(rng)@),
{
    let m = times_used * 5;
    let base_chance = 20 + (if m < 40 { m } else { 40 });
    rng.rn2(100) < base_chance as i32
}

/// What dipping an object in a fountain does.
#[derive(Debug, Clone, PartialEq, Eq, Structural)]
pub enum DipEffect {
    Nothing,
    Curse,
    Bless,
    Rust,
    Dilute,
    Erode,
    ExcalSuccess,
    ExcalFail,
}

/// What dipping an object named `name` does for a draw `k` from `0..30`.
pub open spec fn dip_effect_for(name: Seq<char>, k: int) -> DipEffect {
    if k <= 4 {
        DipEffect::Nothing
    } else if k <= 9 {
        DipEffect::Curse
    } else if k <= 14 {
        DipEffect::Bless
    } else if k <= 19 {
        if has_sub(name, "sword"@) || has_sub(name, "mace"@) || has_sub(name, "armor"@) || has_sub(name, "shield"@) {
            DipEffect::Rust
        } else {
            DipEffect::Nothing
        }
    } else if k <= 24 {
        DipEffect::Dilute
    } else {
        DipEffect::Erode
    }
}

/// Dips an object in a fountain. A lawful hero of level 5 or more dipping a
/// long sword first draws from `0..10`: under 3 it becomes Excalibur, under
/// 5 a water demon appears. Otherwise a draw from `0..30` decides: nothing,
/// a curse, a blessing, rust (for swords, maces, armor and shields), a
/// diluted potion, or erosion.
pub fn dip_in_fountain(
    item_name: &str,
    item_is_long_sword: bool,
    player_is_lawful: bool,
    player_level: i32,
    rng: &mut NetHackRng,
) -> (r: DipEffect)
    ensures
        ({
            let s0 = old(rng)@;
            let excal = item_is_long_sword && player_is_lawful && player_level >= 5;
            if excal && rng_roll(s0, 10) < 3 {
                r == DipEffect::ExcalSuccess && final(rng)@ == rng_next(s0)
            } else if excal && rng_roll(s0, 10) < 5 {
                r == DipEffect::ExcalFail && final(rng)@ == rng_next(s0)
            } else {
                let s1 = if excal { rng_next(s0) } else { s0 };
                r == dip_effect_for(item_name@, rng_roll(s1, 30)) && final(rng)@ == rng_next(s1)
            }
        }),
{
    if item_is_long_sword && player_is_lawful && player_level >= 5 {
        let excal_chance = rng.rn2(10);
        if excal_chance < 3 {
            return DipEffect::ExcalSuccess;
        } else if excal_chance < 5 {
            return DipEffect::ExcalFail;
        }
    }
    let roll = rng.rn2(30);
    if roll <= 4 {
        DipEffect::Nothing
    } else if roll <= 9 {
        DipEffect::Curse
    } else if roll <= 14 {
        DipEffect::Bless
    } else if roll <= 19 {
        if str_contains(item_name, "sword") || str_contains(item_name, "mace") || str_contains(item_name, "armor")
            || str_contains(item_name, "shield") {
            DipEffect::Rust
        } else {
            DipEffect::Nothing
        }
    } else if roll <= 24 {
        DipEffect::Dilute
    } else {
        DipEffect::Erode
    }
}

/// What the hero sees after dipping.
pub fn dip_effect_message(effect: &DipEffect) -> (r: &'static str)
    ensures
        r@ == match *effect {
            DipEffect::Nothing => "The water glistens for a moment."@,
            DipEffect::Curse => "The water turns black. A curse falls upon your item!"@,
            DipEffect::Bless => "The water glows briefly. Your item feels blessed!"@,
            DipEffect::Rust => "The water causes rust! Your item corrodes!"@,
            DipEffect::Dilute => "The potion is diluted by the water."@,
            DipEffect::Erode => "The water eats away at your item!"@,
            DipEffect::ExcalSuccess => "A brilliant light erupts from the water! Excalibur!"@,
            DipEffect::ExcalFail => "A water demon appears!"@,
        },
{
    match effect {
        DipEffect::Nothing => "The water glistens for a moment.",
        DipEffect::Curse => "The water turns black. A curse falls upon your item!",
        DipEffect::Bless => "The water glows briefly. Your item feels blessed!",
        DipEffect::Rust => "The water causes rust! Your item corrodes!",
        DipEffect::Dilute => "The potion is diluted by the water.",
        DipEffect::Erode => "The water eats away at your item!",
        DipEffect::ExcalSuccess => "A brilliant light erupts from the water! Excalibur!",
        DipEffect::ExcalFail => "A water demon appears!",
    }
}

/// What washing at a fountain does.
#[derive(Debug, Clone, PartialEq, Eq, Structural)]
pub enum WashEffect {
    Clean,
    RemoveBlind,
    RemoveSlime,
    Nothing,
    WaterGush,
}

/// Washing at a fountain, by a draw from `0..20`: under 5 it washes slime
/// off the slimed, under 8 it clears the eyes of the blinded; otherwise
/// under 6 clean hands, under 11 a splash, else a gush in the face.
pub fn wash_at_fountain(is_blinded: bool, is_slimed: bool, rng: &mut NetHackRng) -> (r: WashEffect)
    ensures
        ({
            let roll = rng_roll(old(rng)@, 20);
            r == if is_slimed && roll < 5 {
                WashEffect::RemoveSlime
            } else if is_blinded && roll < 8 {
                WashEffect::RemoveBlind
            } else if roll <= 5 {
                WashEffect::Clean
            } else if roll <= 10 {
                WashEffect::Nothing
            } else {
                WashEffect::WaterGush
            }
        }),
        final(rng)@ == rng_next(old(rng)@),
{
    let roll = rng.rn2(20);
    if is_slimed && roll < 5 {
        return WashEffect::RemoveSlime;
    }
    if is_blinded && roll < 8 {
        return WashEffect::RemoveBlind;
    }
    if roll <= 5 {
        WashEffect::Clean
    } else if roll <= 10 {
        WashEffect::Nothing
    } else {
        WashEffect::WaterGush
    }
}

/// What the hero feels on washing.
pub fn wash_effect_message(effect: &WashEffect) -> (r: &'static str)
    ensures
        r@ == match *effect {
            WashEffect::Clean => "You wash your hands in the cool water."@,
            WashEffect::RemoveBlind => "Your eyes tingle! You can see again!"@,
            WashEffect::RemoveSlime => "The slime dissolves in the water!"@,
            WashEffect::Nothing => "You splash some water around."@,
            WashEffect::WaterGush => "A gush of water hits you in the face!"@,
        },
{
    match effect {
        WashEffect::Clean => "You wash your hands in the cool water.",
        WashEffect::RemoveBlind => "Your eyes tingle! You can see again!",
        WashEffect::RemoveSlime => "The slime dissolves in the water!",
        WashEffect::Nothing => "You splash some water around.",
        WashEffect::WaterGush => "A gush of water hits you in the face!",
    }
}

/// Counts of fountain use.
#[derive(Debug, Clone)]
pub struct FountainStatistics {
    pub drinks: u32,
    pub dips: u32,
    pub washes: u32,
    pub wishes_granted: u32,
    pub demons_summoned: u32,
    pub fountains_dried: u32,
    pub excaliburs_created: u32,
}

impl FountainStatistics {
    /// All counts at zero.
    pub fn new() -> (s: FountainStatistics)
        ensures
            s.drinks == 0 && s.dips == 0 && s.washes == 0 && s.wishes_granted == 0,
            s.demons_summoned == 0 && s.fountains_dried == 0 && s.excaliburs_created == 0,
    {
        FountainStatistics {
            drinks: 0,
            dips: 0,
            washes: 0,
            wishes_granted: 0,
            demons_summoned: 0,
            fountains_dried: 0,
            excaliburs_created: 0,
        }
    }

    /// Counts a drink.
    pub fn record_drink(&mut self)
        requires
            old(self).drinks < u32::MAX,
        ensures
            *final(self) == (FountainStatistics { drinks: (old(self).drinks + 1) as u32, ..*old(self) }),
    {
        self.drinks = self.drinks + 1;
    }

    /// Counts a dip.
    pub fn record_dip(&mut self)
        requires
            old(self).dips < u32::MAX,
        ensures
            *final(self) == (FountainStatistics { dips: (old(self).dips + 1) as u32, ..*old(self) }),
    {
        self.dips = self.dips + 1;
    }

    /// Counts a wash.
    pub fn record_wash(&mut self)
        requires
            old(self).washes < u32::MAX,
        ensures
            *final(self) == (FountainStatistics { washes: (old(self).washes + 1) as u32, ..*old(self) }),
    {
        self.washes = self.washes + 1;
    }

    /// Counts a granted wish.
    pub fn record_wish(&mut self)
        requires
            old(self).wishes_granted < u32::MAX,
        ensures
            *final(self) == (FountainStatistics { wishes_granted: (old(self).wishes_granted + 1) as u32, ..*old(self) }),
    {
        self.wishes_granted = self.wishes_granted + 1;
    }

    /// Counts a water demon.
    pub fn record_demon(&mut self)
        requires
            old(self).demons_summoned < u32::MAX,
        ensures
            *final(self) == (FountainStatistics { demons_summoned: (old(self).demons_summoned + 1) as u32, ..*old(self) }),
    {
        self.demons_summoned = self.demons_summoned + 1;
    }

    /// Counts a fountain that dried up.
    pub fn record_dry(&mut self)
        requires
            old(self).fountains_dried < u32::MAX,
        ensures
            *final(self) == (FountainStatistics { fountains_dried: (old(self).fountains_dried + 1) as u32, ..*old(self) }),
    {
        self.fountains_dried = self.fountains_dried + 1;
    }

    /// Counts an Excalibur made.
    pub fn record_excalibur(&mut self)
        requires
            old(self).excaliburs_created < u32::MAX,
        ensures
            *final(self) == (FountainStatistics {
                excaliburs_created: (old(self).excaliburs_created + 1) as u32,
                ..*old(self)
            }),
    {
        self.excaliburs_created = self.excaliburs_created + 1;
    }
}

/// Feeling better means being healed in full: whenever a drink ends with
/// "You feel better.", the drinker afterwards has all its hit points, and
/// nothing else about it has changed.
pub proof fn feeling_better_restores_health(tile: Option<TileType>, p: Drinker, slots: usize, turn: u64, s0: u64)
    ensures
        ({
            let (msgs, q, _, _) = drink_outcome(tile, p, slots, turn, s0);
            msgs.len() > 0 && msgs.last().0 == "You feel better."@ ==> q == (Drinker { hp: p.hp_max, ..p })
        }),
{
    reveal_strlit("You feel better.");
    reveal_strlit("There is no fountain here.");
    reveal_strlit("The fountain dries up!");
    reveal_strlit("You feel a strange power flow through you.");
    reveal_strlit("A water demon appears!");
    reveal_strlit("You feel lucky! (Wish chance)");
    reveal_strlit("You found ");
    reveal_strlit("The water tastes foul!");
    reveal_strlit("A gush of water hits you!");
    reveal_strlit("It tastes like clear water.");
    let (msgs, q, _, _) = drink_outcome(tile, p, slots, turn, s0);
    if msgs.len() > 0 && msgs.last().0 == "You feel better."@ {
        let m = msgs.last().0;
        assert(m.len() == 16);
        assert(m[4] == 'f' && m[5] == 'e' && m[9] == 'b');
        let g = rng_roll(rng_next(rng_next(s0)), 100) + 50;
        let found = "You found "@ + int_text(g) + " gold pieces in the fountain."@;
        assert(found[5] == 'o');
    }
}

} // verus!
