//! Sitting down: on thrones and other furniture, what a throne does,
//! random curses and lost intrinsics, and laying eggs.
use vstd::prelude::*;
use crate::rng::{NetHackRng, rng_roll, rng_next, rng_after};
use crate::text::{int_text, text_with_int, concat3};
use crate::tile::TileType;
use crate::game_log::{GameLog, Message, after_add, DEFAULT_COLOR};

verus! {

/// What the hero has that sitting can change.
#[derive(Debug, Clone, Copy, PartialEq, Eq, Structural)]
pub struct Sitter {
    pub gold: u64,
    pub hp: i32,
    pub hp_max: i32,
    pub str_base: i32,
}

/// The messages, and the hero afterwards, when the hero sits down on a
/// square of kind `tile` (unknown when none) on `turn`, the stream starting
/// in state `s0`; and the final stream state.
pub open spec fn sit_outcome(tile: Option<TileType>, p: Sitter, turn: u64, s0: u64) -> (Seq<Message>, Sitter, u64) {
    let s1 = rng_next(s0);
    match tile {
        None => (Seq::empty(), p, s0),
        Some(t) => if t == TileType::Throne {
            let first = ("You sit on the throne."@, DEFAULT_COLOR, turn);
            let roll = rng_roll(s0, 100);
            if roll < 5 {
                (seq![first, ("You feel lucky! (Wish implemented partially)"@, [255u8, 215u8, 0u8], turn)],
                    Sitter { gold: (p.gold + 5000) as u64, ..p }, s1)
            } else if roll < 15 {
                let g = rng_roll(s1, 500) + 200;
                (seq![first, ("You find "@ + int_text(g) + " gold pieces in the cushions."@, DEFAULT_COLOR, turn)],
                    Sitter { gold: (p.gold + g) as u64, ..p }, rng_next(s1))
            } else if roll < 25 {
                (seq![first, ("You feel restored."@, DEFAULT_COLOR, turn)],
                    Sitter { hp: p.hp_max, str_base: if p.str_base + 1 > 18 { 18 } else { (p.str_base + 1) as i32 }, ..p }, s1)
            } else if roll < 35 {
                (seq![first, ("The world spins around you!"@, DEFAULT_COLOR, turn)], p, s1)
            } else if roll < 50 {
                (seq![first, ("Monsters appear from nowhere!"@, [255u8, 0u8, 0u8], turn)], p, s1)
            } else if roll < 60 {
                let hp = p.hp - (rng_roll(s1, 10) + 6);
                let shock = seq![first, ("A shock runs through your body!"@, DEFAULT_COLOR, turn)];
                (if hp <= 0 { shock.push(("You die from the electric shock..."@, [255u8, 0u8, 0u8], turn)) } else { shock },
                    Sitter { hp: hp as i32, ..p }, rng_next(s1))
            } else if roll < 70 {
                (seq![first, ("Your vision blurs."@, DEFAULT_COLOR, turn)], p, s1)
            } else {
                (seq![first, ("You feel very comfortable."@, DEFAULT_COLOR, turn)], p, s1)
            }
        } else if p.hp < p.hp_max {
            (seq![("You sit on the floor."@, DEFAULT_COLOR, turn), ("You feel slightly rested."@, DEFAULT_COLOR, turn)],
                Sitter { hp: (p.hp + 1) as i32, ..p }, s0)
        } else {
            (seq![("You sit on the floor."@, DEFAULT_COLOR, turn)], p, s0)
        },
    }
}

/// The log `ms` after the messages `new` are added in turn.
pub open spec fn logged(ms: Seq<Message>, new: Seq<Message>, cap: nat) -> Seq<Message>
    decreases new.len(),
{
    if new.len() == 0 {
        ms
    } else {
        after_add(logged(ms, new.drop_last(), cap), new.last(), cap)
    }
}

proof fn lemma_logged_push(ms: Seq<Message>, new: Seq<Message>, m: Message, cap: nat)
    ensures
        logged(ms, new.push(m), cap) == after_add(logged(ms, new, cap), m, cap),
{
    assert(new.push(m).drop_last() =~= new);
}

/// The hero sits down on a square of kind `tile` (nothing happens when the
/// square is unknown). On a throne a draw from `0..100` decides: under 5 a
/// wish (5000 gold for now), under 15 200 to 699 gold from the cushions,
/// under 25 full health and a point of strength (at most 18), under 35 the
/// world spins, under 50 monsters appear, under 60 a shock of 6 to 15 hit
/// points (which may kill), under 70 blurred vision, else comfort.
/// Anywhere else the hero rests, regaining a hit point if hurt.
pub fn try_sit(tile: Option<TileType>, player: &mut Sitter, log: &mut GameLog, turn: u64, rng: &mut NetHackRng)
    requires
        old(log).wf(),
        old(player).gold <= u64::MAX - 5000,
        old(player).hp >= i32::MIN + 15,
        old(player).str_base < i32::MAX,
    ensures
        final(log).wf(),
        final(log).cap() == old(log).cap(),
        ({
            let (msgs, p, s) = sit_outcome(tile, *old(player), turn, old(rng)@);
            &&& final(log).messages() == logged(old(log).messages(), msgs, old(log).cap())
            &&& *final(player) == p
            &&& final(rng)@ == s
        }),
{
    let ghost ms0 = log.messages();
    let ghost cap = log.cap();
    let ghost s0 = rng@;
    let t = match tile {
        None => {
            return;
        },
        Some(t) => t,
    };
    let ghost m0: Message;
    if t == TileType::Throne {
        log.add("You sit on the throne.", turn);
        proof {
            m0 = ("You sit on the throne."@, DEFAULT_COLOR, turn);
            lemma_logged_push(ms0, Seq::empty(), m0, cap);
            assert(Seq::<Message>::empty().push(m0) =~= seq![m0]);
        }
        let roll = rng.rn2(100);
        if roll < 5 {
            log.add_colored("You feel lucky! (Wish implemented partially)", [255, 215, 0], turn);
            player.gold = player.gold + 5000;
            proof {
                lemma_logged_push(ms0, seq![m0], ("You feel lucky! (Wish implemented partially)"@, [255u8, 215u8, 0u8], turn), cap);
                assert(seq![m0].push(("You feel lucky! (Wish implemented partially)"@, [255u8, 215u8, 0u8], turn))
                    =~= seq![m0, ("You feel lucky! (Wish implemented partially)"@, [255u8, 215u8, 0u8], turn)]);
            }
        } else if roll < 15 {
            let g = rng.rn1(500, 200);
            player.gold = player.gold + (g as u64);
            let text = text_with_int("You find ", g as i64, " gold pieces in the cushions.");
            log.add(text.as_str(), turn);
            proof {
                let m = (text@, DEFAULT_COLOR, turn);
                lemma_logged_push(ms0, seq![m0], m, cap);
                assert(seq![m0].push(m) =~= seq![m0, m]);
            }
        } else if roll < 25 {
            log.add("You feel restored.", turn);
            player.hp = player.hp_max;
            player.str_base = player.str_base + 1;
            if player.str_base > 18 {
                player.str_base = 18;
            }
            proof {
                let m = ("You feel restored."@, DEFAULT_COLOR, turn);
                lemma_logged_push(ms0, seq![m0], m, cap);
                assert(seq![m0].push(m) =~= seq![m0, m]);
            }
        } else if roll < 60 && roll >= 50 {
            log.add("A shock runs through your body!", turn);
            let loss = rng.rn1(10, 6);
            player.hp = player.hp - loss;
            proof {
                let m = ("A shock runs through your body!"@, DEFAULT_COLOR, turn);
                lemma_logged_push(ms0, seq![m0], m, cap);
                assert(seq![m0].push(m) =~= seq![m0, m]);
            }
            if player.hp <= 0 {
                log.add_colored("You die from the electric shock...", [255, 0, 0], turn);
                proof {
                    let m = ("A shock runs through your body!"@, DEFAULT_COLOR, turn);
                    let d = ("You die from the electric shock..."@, [255u8, 0u8, 0u8], turn);
                    lemma_logged_push(ms0, seq![m0, m], d, cap);
                }
            }
        } else {
            let (text, color): (&str, [u8; 3]) = if roll < 35 {
                ("The world spins around you!", DEFAULT_COLOR)
            } else if roll < 50 {
                ("Monsters appear from nowhere!", [255, 0, 0])
            } else if roll < 70 {
                ("Your vision blurs.", DEFAULT_COLOR)
            } else {
                ("You feel very comfortable.", DEFAULT_COLOR)
            };
            log.add_colored(text, color, turn);
            proof {
                let m = (text@, color, turn);
                lemma_logged_push(ms0, seq![m0], m, cap);
                assert(seq![m0].push(m) =~= seq![m0, m]);
            }
        }
    } else {
        log.add("You sit on the floor.", turn);
        proof {
            m0 = ("You sit on the floor."@, DEFAULT_COLOR, turn);
            lemma_logged_push(ms0, Seq::empty(), m0, cap);
            assert(Seq::<Message>::empty().push(m0) =~= seq![m0]);
        }
        if player.hp < player.hp_max {
            player.hp = player.hp + 1;
            log.add("You feel slightly rested.", turn);
            proof {
                let m = ("You feel slightly rested."@, DEFAULT_COLOR, turn);
                lemma_logged_push(ms0, seq![m0], m, cap);
                assert(seq![m0].push(m) =~= seq![m0, m]);
            }
        }
    }
}

/// What sitting on a throne can do.
#[derive(Debug, Clone, PartialEq, Eq, Structural)]
pub enum ThroneEffect {
    Nothing,
    Wish,
    GoldDrop,
    Genocide,
    Identify,
    Heal,
    StatIncrease,
    StatDecrease,
    Teleport,
    MonsterSummon,
    ElectricShock,
    Blind,
    Confuse,
    Poison,
    Polymorph,
    Alignment,
}

/// The throne effect for a draw `k` from `0..100`.
pub open spec fn throne_effect_for(k: int) -> ThroneEffect {
    if k <= 2 {
        ThroneEffect::Wish
    } else if k <= 7 {
        ThroneEffect::GoldDrop
    } else if k <= 9 {
        ThroneEffect::Genocide
    } else if k <= 14 {
        ThroneEffect::Identify
    } else if k <= 24 {
        ThroneEffect::Heal
    } else if k <= 32 {
        ThroneEffect::StatIncrease
    } else if k <= 37 {
        ThroneEffect::StatDecrease
    } else if k <= 47 {
        ThroneEffect::Teleport
    } else if k <= 57 {
        ThroneEffect::MonsterSummon
    } else if k <= 65 {
        ThroneEffect::ElectricShock
    } else if k <= 72 {
        ThroneEffect::Blind
    } else if k <= 78 {
        ThroneEffect::Confuse
    } else if k <= 83 {
        ThroneEffect::Poison
    } else if k <= 88 {
        ThroneEffect::Polymorph
    } else if k <= 93 {
        ThroneEffect::Alignment
    } else {
        ThroneEffect::Nothing
    }
}

/// What sitting on a throne does, by a draw from `0..100`.
pub fn throne_effect(rng: &mut NetHackRng) -> (r: ThroneEffect)
    ensures
        r == throne_effect_for(rng_roll(old(rng)@, 100)),
        final(rng)@ == rng_next(old(rng)@),
{
    let k = rng.rn2(100);
    if k <= 2 {
        ThroneEffect::Wish
    } else if k <= 7 {
        ThroneEffect::GoldDrop
    } else if k <= 9 {
        ThroneEffect::Genocide
    } else if k <= 14 {
        ThroneEffect::Identify
    } else if k <= 24 {
        ThroneEffect::Heal
    } else if k <= 32 {
        ThroneEffect::StatIncrease
    } else if k <= 37 {
        ThroneEffect::StatDecrease
    } else if k <= 47 {
        ThroneEffect::Teleport
    } else if k <= 57 {
        ThroneEffect::MonsterSummon
    } else if k <= 65 {
        ThroneEffect::ElectricShock
    } else if k <= 72 {
        ThroneEffect::Blind
    } else if k <= 78 {
        ThroneEffect::Confuse
    } else if k <= 83 {
        ThroneEffect::Poison
    } else if k <= 88 {
        ThroneEffect::Polymorph
    } else if k <= 93 {
        ThroneEffect::Alignment
    } else {
        ThroneEffect::Nothing
    }
}

/// What the hero is told of a throne's effect.
pub open spec fn throne_text(e: ThroneEffect) -> Seq<char> {
    match e {
        ThroneEffect::Nothing => "You feel very comfortable."@,
        ThroneEffect::Wish => "You feel telepathic... A voice booms: \"Thy wish is granted!\""@,
        ThroneEffect::GoldDrop => "You find gold coins in the cushion!"@,
        ThroneEffect::Genocide => "A voice whispers: \"Choose a species to genocide.\""@,
        ThroneEffect::Identify => "You feel more knowledgeable."@,
        ThroneEffect::Heal => "You feel restored to health!"@,
        ThroneEffect::StatIncrease => "You feel your abilities increasing!"@,
        ThroneEffect::StatDecrease => "You feel your abilities diminishing!"@,
        ThroneEffect::Teleport => "The world spins around you!"@,
        ThroneEffect::MonsterSummon => "Monsters appear from nowhere!"@,
        ThroneEffect::ElectricShock => "A shock runs through your body!"@,
        ThroneEffect::Blind => "Your vision goes dark!"@,
        ThroneEffect::Confuse => "Your head spins!"@,
        ThroneEffect::Poison => "Something sharp pricks you from the cushion!"@,
        ThroneEffect::Polymorph => "You feel different!"@,
        ThroneEffect::Alignment => "You feel a change in your moral compass."@,
    }
}

/// What the hero is told of a throne's effect.
pub fn throne_effect_message(effect: &ThroneEffect) -> (r: &'static str)
    ensures
        r@ == throne_text(*effect),
{
    match effect {
        ThroneEffect::Nothing => "You feel very comfortable.",
        ThroneEffect::Wish => "You feel telepathic... A voice booms: \"Thy wish is granted!\"",
        ThroneEffect::GoldDrop => "You find gold coins in the cushion!",
        ThroneEffect::Genocide => "A voice whispers: \"Choose a species to genocide.\"",
        ThroneEffect::Identify => "You feel more knowledgeable.",
        ThroneEffect::Heal => "You feel restored to health!",
        ThroneEffect::StatIncrease => "You feel your abilities increasing!",
        ThroneEffect::StatDecrease => "You feel your abilities diminishing!",
        ThroneEffect::Teleport => "The world spins around you!",
        ThroneEffect::MonsterSummon => "Monsters appear from nowhere!",
        ThroneEffect::ElectricShock => "A shock runs through your body!",
        ThroneEffect::Blind => "Your vision goes dark!",
        ThroneEffect::Confuse => "Your head spins!",
        ThroneEffect::Poison => "Something sharp pricks you from the cushion!",
        ThroneEffect::Polymorph => "You feel different!",
        ThroneEffect::Alignment => "You feel a change in your moral compass.",
    }
}

/// The gold a throne yields: 100 to 599, plus 50 per point of good luck.
pub fn throne_gold_amount(luck: i32, rng: &mut NetHackRng) -> (r: u64)
    ensures
        r == rng_roll(old(rng)@, 500) + 100 + (if luck > 0 { luck * 50 } else { 0 }),
        final(rng)@ == rng_next(old(rng)@),
{
    let base = rng.rn1(500, 100) as u64;
    if luck > 0 {
        base + (luck as u64) * 50
    } else {
        base
    }
}

/// Where the hero sat down.
#[derive(Debug, Clone, PartialEq, Eq)]
pub enum SitResult {
    Floor,
    Throne(ThroneEffect),
    Sink,
    Fountain,
    Altar,
    Trap(String),
    Lava,
    Water,
    Grave,
}

/// What the hero is told on sitting down.
pub fn sit_result_message(result: &SitResult) -> (r: String)
    ensures
        r@ == match *result {
            SitResult::Floor => "You sit on the floor. You feel slightly rested."@,
            SitResult::Throne(effect) => throne_text(effect),
            SitResult::Sink => "You sit on the sink. You get wet!"@,
            SitResult::Fountain => "You sit in the fountain. You get soaked!"@,
            SitResult::Altar => "You sit on the altar. You feel a holy presence."@,
            SitResult::Trap(name) => "You sit on a "@ + name@ + " and it activates!"@,
            SitResult::Lava => "You sit in lava! Bad idea!"@,
            SitResult::Water => "You sit in the water. Splosh!"@,
            SitResult::Grave => "You sit on a grave. You feel disrespectful."@,
        },
{
    match result {
        SitResult::Floor => "You sit on the floor. You feel slightly rested.".to_string(),
        SitResult::Throne(effect) => throne_effect_message(effect).to_string(),
        SitResult::Sink => "You sit on the sink. You get wet!".to_string(),
        SitResult::Fountain => "You sit in the fountain. You get soaked!".to_string(),
        SitResult::Altar => "You sit on the altar. You feel a holy presence.".to_string(),
        SitResult::Trap(name) => concat3("You sit on a ", name.as_str(), " and it activates!"),
        SitResult::Lava => "You sit in lava! Bad idea!".to_string(),
        SitResult::Water => "You sit in the water. Splosh!".to_string(),
        SitResult::Grave => "You sit on a grave. You feel disrespectful.".to_string(),
    }
}

/// What sitting on an altar does.
#[derive(Debug, Clone, PartialEq, Eq, Structural)]
pub enum AltarSitEffect {
    Nothing,
    AlignmentBonus,
    AlignmentPenalty,
    Curse,
}

/// What sitting on an altar does: on one's own god's altar one time in
/// three a bonus, on another's one time in two a penalty.
pub fn altar_sit_effect(player_alignment: i32, altar_alignment: i32, rng: &mut NetHackRng) -> (r: AltarSitEffect)
    ensures
        final(rng)@ == rng_next(old(rng)@),
        player_alignment == altar_alignment ==> r == (if rng_roll(old(rng)@, 3) == 0 {
            AltarSitEffect::AlignmentBonus
        } else {
            AltarSitEffect::Nothing
        }),
        player_alignment != altar_alignment ==> r == (if rng_roll(old(rng)@, 2) == 0 {
            AltarSitEffect::AlignmentPenalty
        } else {
            AltarSitEffect::Nothing
        }),
{
    if player_alignment == altar_alignment {
        if rng.rn2(3) == 0 {
            AltarSitEffect::AlignmentBonus
        } else {
            AltarSitEffect::Nothing
        }
    } else {
        if rng.rn2(2) == 0 {
            AltarSitEffect::AlignmentPenalty
        } else {
            AltarSitEffect::Nothing
        }
    }
}

/// Counts of sitting down.
#[derive(Debug, Clone)]
pub struct SitStatistics {
    pub total_sits: u32,
    pub throne_sits: u32,
    pub wishes_from_throne: u32,
    pub gold_from_throne: u64,
    pub damage_from_sitting: i32,
    pub floor_sits: u32,
}

impl SitStatistics {
    /// All counts at zero.
    pub fn new() -> (s: SitStatistics)
        ensures
            s.total_sits == 0 && s.throne_sits == 0 && s.wishes_from_throne == 0,
            s.gold_from_throne == 0 && s.damage_from_sitting == 0 && s.floor_sits == 0,
    {
        SitStatistics {
            total_sits: 0,
            throne_sits: 0,
            wishes_from_throne: 0,
            gold_from_throne: 0,
            damage_from_sitting: 0,
            floor_sits: 0,
        }
    }

    /// Counts a sit: thrones and wishes from them, and floors.
    pub fn record_sit(&mut self, result: &SitResult)
        requires
            old(self).total_sits < u32::MAX,
            old(self).throne_sits < u32::MAX,
            old(self).wishes_from_throne < u32::MAX,
            old(self).floor_sits < u32::MAX,
        ensures
            final(self).total_sits == old(self).total_sits + 1,
            final(self).throne_sits == old(self).throne_sits + (if result is Throne { 1int } else { 0int }),
            final(self).wishes_from_throne == old(self).wishes_from_throne
                + (if *result == SitResult::Throne(ThroneEffect::Wish) { 1int } else { 0int }),
            final(self).floor_sits == old(self).floor_sits + (if *result == SitResult::Floor { 1int } else { 0int }),
            final(self).gold_from_throne == old(self).gold_from_throne,
            final(self).damage_from_sitting == old(self).damage_from_sitting,
    {
        self.total_sits = self.total_sits + 1;
        match result {
            SitResult::Throne(effect) => {
                self.throne_sits = self.throne_sits + 1;
                if *effect == ThroneEffect::Wish {
                    self.wishes_from_throne = self.wishes_from_throne + 1;
                }
            },
            SitResult::Floor => {
                self.floor_sits = self.floor_sits + 1;
            },
            _ => {},
        }
    }
}

/// What taking the hero's gold does.
#[derive(Debug, Clone, PartialEq, Eq, Structural)]
pub enum TakeGoldResult {
    NoMoney,
    MoneyLost,
}

/// The hero's money is lost if there is any.
pub fn take_gold_result(has_coins: bool) -> (r: TakeGoldResult)
    ensures
        r == (if has_coins { TakeGoldResult::MoneyLost } else { TakeGoldResult::NoMoney }),
{
    if has_coins { TakeGoldResult::MoneyLost } else { TakeGoldResult::NoMoney }
}

/// What a random curse does.
#[derive(Debug, Clone)]
pub struct RndCurseResult {
    pub magicbane_absorbed: bool,
    pub antimagic_shield: bool,
    pub items_to_curse: Vec<usize>,
    pub already_cursed_skips: i32,
    pub artifact_resists: i32,
    pub saddle_cursed: bool,
}

/// The outcome of the first `k` curse attempts on `item_count` items from
/// state `s`: the items cursed, the skips for items already cursed, the
/// resists by intelligent artifacts (eight times in ten), and the final
/// state. Each attempt picks an item with a draw from `1..=item_count`.
pub open spec fn curse_attempts(
    s: u64,
    item_count: int,
    cursed: Seq<bool>,
    smart: Seq<bool>,
    k: nat,
) -> (Seq<usize>, int, int, u64)
    decreases k,
{
    if k == 0 {
        (Seq::empty(), 0, 0, s)
    } else {
        let (items, skips, resists, s1) = curse_attempts(s, item_count, cursed, smart, (k - 1) as nat);
        let idx = rng_roll(s1, item_count);
        let s2 = rng_next(s1);
        if idx < cursed.len() && cursed[idx] {
            (items, skips + 1, resists, s2)
        } else if idx < smart.len() && smart[idx] {
            if rng_roll(s2, 10) < 8 {
                (items, skips, resists + 1, rng_next(s2))
            } else {
                (items.push(idx as usize), skips, resists, rng_next(s2))
            }
        } else {
            (items.push(idx as usize), skips, resists, s2)
        }
    }
}

/// Curses random items of the hero's. A wielded Magicbane absorbs the curse
/// nineteen times in twenty. Otherwise `1..=6` attempts (a half or a third
/// as many with anti-magic or half spell damage, or both) each pick an
/// item; an item already cursed is skipped and an intelligent artifact
/// resists eight times in ten; then a steed's saddle not yet cursed is
/// cursed one time in four.
pub fn rndcurse_result(
    has_magicbane_wielded: bool,
    has_antimagic: bool,
    has_half_spell_damage: bool,
    item_count: usize,
    item_cursed: &[bool],
    item_is_intelligent_artifact: &[bool],
    has_steed_with_saddle: bool,
    saddle_already_cursed: bool,
    rng: &mut NetHackRng,
) -> (r: RndCurseResult)
    requires
        item_count <= i32::MAX,
    ensures
        ({
            let s0 = old(rng)@;
            let absorbed = has_magicbane_wielded && rng_roll(s0, 20) != 0;
            let s1 = if has_magicbane_wielded { rng_next(s0) } else { s0 };
            if absorbed {
                &&& r.magicbane_absorbed && !r.antimagic_shield && r.items_to_curse@.len() == 0
                &&& r.already_cursed_skips == 0 && r.artifact_resists == 0 && !r.saddle_cursed
                &&& final(rng)@ == s1
            } else {
                let divisor = 1 + (if has_antimagic { 1int } else { 0int }) + (if has_half_spell_damage { 1int } else { 0int });
                let count = rng_roll(s1, 6int / divisor) + 1;
                let s2 = rng_next(s1);
                let (items, skips, resists, s3) = if item_count > 0 {
                    curse_attempts(s2, item_count as int, item_cursed@, item_is_intelligent_artifact@, count as nat)
                } else {
                    (Seq::empty(), 0, 0, s2)
                };
                let saddle_draw = has_steed_with_saddle && !saddle_already_cursed;
                &&& !r.magicbane_absorbed
                &&& r.antimagic_shield == has_antimagic
                &&& r.items_to_curse@ == items
                &&& r.already_cursed_skips == skips
                &&& r.artifact_resists == resists
                &&& r.saddle_cursed == (saddle_draw && rng_roll(s3, 4) == 0)
                &&& final(rng)@ == (if saddle_draw { rng_next(s3) } else { s3 })
            }
        }),
{
    let ghost s0 = rng@;
    if has_magicbane_wielded && rng.rn2(20) != 0 {
        return RndCurseResult {
            magicbane_absorbed: true,
            antimagic_shield: false,
            items_to_curse: Vec::new(),
            already_cursed_skips: 0,
            artifact_resists: 0,
            saddle_cursed: false,
        };
    }
    let divisor: i32 = 1 + (if has_antimagic { 1 } else { 0 }) + (if has_half_spell_damage { 1 } else { 0 });
    assert(2 <= 6i32 / divisor <= 6) by (nonlinear_arith)
        requires
            1 <= divisor <= 3,
    ;
    let curse_count = rng.rnd(6 / divisor);
    let ghost s2 = rng@;
    let mut items_to_curse: Vec<usize> = Vec::new();
    let mut already_cursed: i32 = 0;
    let mut artifact_resists: i32 = 0;
    if item_count > 0 {
        let mut k: i32 = 0;
        while k < curse_count
            invariant
                0 <= k <= curse_count <= 6,
                0 < item_count <= i32::MAX,
                0 <= already_cursed <= k,
                0 <= artifact_resists <= k,
                (items_to_curse@, already_cursed as int, artifact_resists as int, rng@)
                    == curse_attempts(s2, item_count as int, item_cursed@, item_is_intelligent_artifact@, k as nat),
            decreases curse_count - k,
        {
            proof {
                crate::rng::lemma_roll_range(rng@, item_count as int);
            }
            let target_idx = (rng.rnd(item_count as i32) as usize) - 1;
            if target_idx < item_cursed.len() && item_cursed[target_idx] {
                already_cursed = already_cursed + 1;
            } else if target_idx < item_is_intelligent_artifact.len() && item_is_intelligent_artifact[target_idx] {
                if rng.rn2(10) < 8 {
                    artifact_resists = artifact_resists + 1;
                } else {
                    items_to_curse.push(target_idx);
                }
            } else {
                items_to_curse.push(target_idx);
            }
            k = k + 1;
        }
    }
    let saddle = has_steed_with_saddle && !saddle_already_cursed && rng.rn2(4) == 0;
    RndCurseResult {
        magicbane_absorbed: false,
        antimagic_shield: has_antimagic,
        items_to_curse,
        already_cursed_skips: already_cursed,
        artifact_resists,
        saddle_cursed: saddle,
    }
}

/// Intrinsics a curse can take away.
#[derive(Debug, Clone, Copy, PartialEq, Eq, Structural)]
pub enum IntrinsicAbility {
    FireResistance,
    Teleportation,
    PoisonResistance,
    Telepathy,
    ColdResistance,
    Invisibility,
    SeeInvisible,
    Fast,
    Stealth,
    Protection,
    AggravateMonster,
}

/// Which intrinsic lost.
#[derive(Debug, Clone)]
pub struct AttrCurseResult {
    pub removed_ability: Option<IntrinsicAbility>,
    pub message: &'static str,
}

/// Intrinsic number `k`, for `k` in `0..11`.
pub open spec fn ability_at(k: int) -> IntrinsicAbility {
    if k == 0 {
        IntrinsicAbility::FireResistance
    } else if k == 1 {
        IntrinsicAbility::Teleportation
    } else if k == 2 {
        IntrinsicAbility::PoisonResistance
    } else if k == 3 {
        IntrinsicAbility::Telepathy
    } else if k == 4 {
        IntrinsicAbility::ColdResistance
    } else if k == 5 {
        IntrinsicAbility::Invisibility
    } else if k == 6 {
        IntrinsicAbility::SeeInvisible
    } else if k == 7 {
        IntrinsicAbility::Fast
    } else if k == 8 {
        IntrinsicAbility::Stealth
    } else if k == 9 {
        IntrinsicAbility::Protection
    } else {
        IntrinsicAbility::AggravateMonster
    }
}

/// What the hero feels on losing intrinsic number `k`.
pub open spec fn loss_text(k: int) -> Seq<char> {
    if k == 0 {
        "You feel warmer."@
    } else if k == 1 {
        "You feel less jumpy."@
    } else if k == 2 {
        "You feel a little sick!"@
    } else if k == 3 {
        "Your senses fail!"@
    } else if k == 4 {
        "You feel cooler."@
    } else if k == 5 {
        "You feel paranoid."@
    } else if k == 6 {
        "You thought you saw something!"@
    } else if k == 7 {
        "You feel slower."@
    } else if k == 8 {
        "You feel clumsy."@
    } else if k == 9 {
        "You feel vulnerable."@
    } else {
        "You feel less attractive."@
    }
}

fn ability_entry(k: usize) -> (r: (IntrinsicAbility, &'static str))
    requires
        k < 11,
    ensures
        r.0 == ability_at(k as int),
        r.1@ == loss_text(k as int),
{
    if k == 0 {
        (IntrinsicAbility::FireResistance, "You feel warmer.")
    } else if k == 1 {
        (IntrinsicAbility::Teleportation, "You feel less jumpy.")
    } else if k == 2 {
        (IntrinsicAbility::PoisonResistance, "You feel a little sick!")
    } else if k == 3 {
        (IntrinsicAbility::Telepathy, "Your senses fail!")
    } else if k == 4 {
        (IntrinsicAbility::ColdResistance, "You feel cooler.")
    } else if k == 5 {
        (IntrinsicAbility::Invisibility, "You feel paranoid.")
    } else if k == 6 {
        (IntrinsicAbility::SeeInvisible, "You thought you saw something!")
    } else if k == 7 {
        (IntrinsicAbility::Fast, "You feel slower.")
    } else if k == 8 {
        (IntrinsicAbility::Stealth, "You feel clumsy.")
    } else if k == 9 {
        (IntrinsicAbility::Protection, "You feel vulnerable.")
    } else {
        (IntrinsicAbility::AggravateMonster, "You feel less attractive.")
    }
}

/// The first intrinsic held, looking from number `start` round the eleven
/// with `offset` steps already taken; 11 when none is held.
pub open spec fn first_held(flags: Seq<bool>, start: int, offset: int) -> int
    decreases 11 - offset,
{
    if offset > 10 {
        11
    } else if flags[(start + offset) % 11] {
        (start + offset) % 11
    } else {
        first_held(flags, start, offset + 1)
    }
}

/// Takes away an intrinsic: starting at one drawn from the eleven and going
/// round, the first one the hero holds; none if the hero holds none.
pub fn attrcurse_result(intrinsic_flags: &[bool; 11], rng: &mut NetHackRng) -> (r: AttrCurseResult)
    ensures
        final(rng)@ == rng_next(old(rng)@),
        ({
            let k = first_held(intrinsic_flags@, rng_roll(old(rng)@, 11), 0);
            &&& k == 11 ==> r.removed_ability.is_none() && r.message@ == ""@
            &&& k < 11 ==> r.removed_ability == Some(ability_at(k)) && r.message@ == loss_text(k)
        }),
{
    let start = (rng.rnd(11) as usize) - 1;
    let mut offset: usize = 0;
    while offset <= 10
        invariant
            0 <= offset <= 11,
            start < 11,
            start as int == rng_roll(old(rng)@, 11),
            rng@ == rng_next(old(rng)@),
            first_held(intrinsic_flags@, start as int, offset as int) == first_held(intrinsic_flags@, start as int, 0),
        decreases 11 - offset,
    {
        let idx = (start + offset) % 11;
        if intrinsic_flags[idx] {
            let (ab, msg) = ability_entry(idx);
            return AttrCurseResult { removed_ability: Some(ab), message: msg };
        }
        offset = offset + 1;
    }
    AttrCurseResult { removed_ability: None, message: "" }
}

/// Whether a throne vanishes after use: one time in three.
pub fn throne_vanishes(rng: &mut NetHackRng) -> (r: bool)
    ensures
        r == (rng_roll(old(rng)@, 3) == 0),
        final(rng)@ == rng_next(old(rng)@),
{
    rng.rn2(3) == 0
}

/// How trying to lay an egg turns out.
#[derive(Debug, Clone, PartialEq, Eq, Structural)]
pub enum LayEggResult {
    MaleCantLay,
    TooHungry,
    NeedWater,
    Success { nutrition_cost: i32 },
}

/// Whether the hero can lay an egg: only a female egg layer with enough
/// nutrition, and in water if her kind lays there; it costs the egg's
/// nutrition.
pub fn lay_egg_result(
    is_egg_layer: bool,
    is_female: bool,
    hunger: i32,
    egg_nutrition: i32,
    lays_in_water: bool,
    is_underwater: bool,
) -> (r: LayEggResult)
    ensures
        r == if !is_egg_layer || !is_female {
            LayEggResult::MaleCantLay
        } else if hunger < egg_nutrition {
            LayEggResult::TooHungry
        } else if lays_in_water && !is_underwater {
            LayEggResult::NeedWater
        } else {
            LayEggResult::Success { nutrition_cost: egg_nutrition }
        },
{
    if !is_egg_layer {
        return LayEggResult::MaleCantLay;
    }
    if !is_female {
        return LayEggResult::MaleCantLay;
    }
    if hunger < egg_nutrition {
        return LayEggResult::TooHungry;
    }
    if lays_in_water && !is_underwater {
        return LayEggResult::NeedWater;
    }
    LayEggResult::Success { nutrition_cost: egg_nutrition }
}

} // verus!
