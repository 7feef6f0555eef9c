//! Searching: what a search of the squares around the hero turns up, how
//! likely searches succeed, how hard hidden things are to find, and the
//! messages and counts that go with them.
use vstd::prelude::*;
use crate::num::clamp;
use crate::rng::{NetHackRng, rng_roll, rng_next};
use crate::text::{str_eq, concat3, text_with_int, int_text};
use crate::game_log::{GameLog, Message, after_add, DEFAULT_COLOR};

verus! {

/// What lies hidden on one square next to the hero.
#[derive(Debug, Clone, Copy, PartialEq, Eq, Structural)]
pub struct SearchSquare {
    pub hidden_traps: u32,
    pub secret_door: bool,
}

/// What a search turned up, for the world to apply.
#[derive(Debug, Clone, PartialEq, Eq, Structural)]
pub struct SearchFindings {
    pub found_something: bool,
    pub read_engraving: bool,
}

/// The offset of square `k` of the nine around the hero, row by row from
/// the north-west.
pub open spec fn around(k: int) -> (int, int) {
    (k % 3 - 1, k / 3 - 1)
}

/// Whether square `k` around `(x, y)` lies on the map.
pub open spec fn on_map(x: int, y: int, k: int) -> bool {
    let (dx, dy) = around(k);
    0 <= x + dx < 80 && 0 <= y + dy < 21
}

/// The messages of a search of the first `k` squares around `(x, y)`: one
/// per hidden trap found, then one for a secret door.
pub open spec fn search_msgs(x: int, y: int, sq: Seq<SearchSquare>, turn: u64, k: nat) -> Seq<Message>
    decreases k,
{
    if k == 0 {
        Seq::empty()
    } else {
        let prev = search_msgs(x, y, sq, turn, (k - 1) as nat);
        let j = k - 1;
        if on_map(x, y, j) {
            let traps = Seq::new(sq[j].hidden_traps as nat, |i: int| ("You find a trap!"@, DEFAULT_COLOR, turn));
            let door = if sq[j].secret_door { seq![("You find a secret door!"@, DEFAULT_COLOR, turn)] } else { Seq::empty() };
            prev + traps + door
        } else {
            prev
        }
    }
}

/// The log `ms` after the messages `new` are added in turn.
pub open spec fn logged(ms: Seq<Message>, new: Seq<Message>, cap: nat) -> Seq<Message>
    decreases new.len(),
{
    if new.len() == 0 {
        ms
    } else {
        after_add(logged(ms, new.drop_last(), cap), new.last(), cap)
    }
}

proof fn lemma_logged_push(ms: Seq<Message>, new: Seq<Message>, m: Message, cap: nat)
    ensures
        logged(ms, new.push(m), cap) == after_add(logged(ms, new, cap), m, cap),
{
    assert(new.push(m).drop_last() =~= new);
}

/// Searches the nine squares around the hero at `(x, y)` (`squares` in
/// rows from the north-west; squares off the 80 by 21 map are skipped):
/// every hidden trap and secret door on them is found and reported. If
/// nothing turned up, one time in five the hero notices writing on the
/// floor (which the caller then reads out); otherwise the hero is told that
/// nothing was found.
pub fn try_search(x: i32, y: i32, squares: &[SearchSquare; 9], log: &mut GameLog, turn: u64, rng: &mut NetHackRng) -> (r: SearchFindings)
    requires
        old(log).wf(),
        i32::MIN < x < i32::MAX,
        i32::MIN < y < i32::MAX,
    ensures
        final(log).wf(),
        final(log).cap() == old(log).cap(),
        ({
            let found = search_msgs(x as int, y as int, squares@, turn, 9);
            let s0 = old(rng)@;
            let ms = old(log).messages();
            let cap = old(log).cap();
            if found.len() > 0 {
                &&& r == (SearchFindings { found_something: true, read_engraving: false })
                &&& final(log).messages() == logged(ms, found, cap)
                &&& final(rng)@ == s0
            } else if rng_roll(s0, 5) == 0 {
                &&& r == (SearchFindings { found_something: true, read_engraving: true })
                &&& final(log).messages() == ms
                &&& final(rng)@ == rng_next(s0)
            } else {
                &&& r == (SearchFindings { found_something: false, read_engraving: false })
                &&& final(log).messages() == after_add(ms, ("You find nothing."@, DEFAULT_COLOR, turn), cap)
                &&& final(rng)@ == rng_next(s0)
            }
        }),
{
    let ghost ms0 = log.messages();
    let ghost cap = log.cap();
    let mut found = false;
    let mut k: usize = 0;
    while k < 9
        invariant
            k <= 9,
            log.wf(),
            log.cap() == cap,
            i32::MIN < x < i32::MAX,
            i32::MIN < y < i32::MAX,
            log.messages() == logged(ms0, search_msgs(x as int, y as int, squares@, turn, k as nat), cap),
            found == (search_msgs(x as int, y as int, squares@, turn, k as nat).len() > 0),
            rng@ == old(rng)@,
        decreases 9 - k,
    {
        let ghost before = search_msgs(x as int, y as int, squares@, turn, k as nat);
        let tx = x + ((k % 3) as i32 - 1);
        let ty = y + ((k / 3) as i32 - 1);
        if tx >= 0 && tx < 80 && ty >= 0 && ty < 21 {
            let sq = squares[k];
            let mut t: u32 = 0;
            while t < sq.hidden_traps
                invariant
                    t <= sq.hidden_traps,
                    log.wf(),
                    log.cap() == cap,
                    log.messages() == logged(ms0, before + Seq::new(t as nat, |i: int| ("You find a trap!"@, DEFAULT_COLOR, turn)), cap),
                    found == (before.len() + t > 0),
                decreases sq.hidden_traps - t,
            {
                let ghost cur = before + Seq::new(t as nat, |i: int| ("You find a trap!"@, DEFAULT_COLOR, turn));
                log.add("You find a trap!", turn);
                proof {
                    lemma_logged_push(ms0, cur, ("You find a trap!"@, DEFAULT_COLOR, turn), cap);
                    assert(cur.push(("You find a trap!"@, DEFAULT_COLOR, turn))
                        =~= before + Seq::new((t + 1) as nat, |i: int| ("You find a trap!"@, DEFAULT_COLOR, turn)));
                }
                found = true;
                t = t + 1;
            }
            let ghost traps = Seq::new(sq.hidden_traps as nat, |i: int| ("You find a trap!"@, DEFAULT_COLOR, turn));
            if sq.secret_door {
                log.add("You find a secret door!", turn);
                proof {
                    lemma_logged_push(ms0, before + traps, ("You find a secret door!"@, DEFAULT_COLOR, turn), cap);
                    assert((before + traps).push(("You find a secret door!"@, DEFAULT_COLOR, turn))
                        =~= before + traps + seq![("You find a secret door!"@, DEFAULT_COLOR, turn)]);
                }
                found = true;
            } else {
                assert(before + traps + Seq::<Message>::empty() =~= before + traps);
            }
            proof {
                assert(on_map(x as int, y as int, k as int));
            }
        } else {
            proof {
                assert(!on_map(x as int, y as int, k as int));
            }
        }
        k = k + 1;
    }
    if !found && rng.rn2(5) == 0 {
        return SearchFindings { found_something: true, read_engraving: true };
    }
    if !found {
        log.add("You find nothing.", turn);
        return SearchFindings { found_something: false, read_engraving: false };
    }
    SearchFindings { found_something: true, read_engraving: false }
}

/// The signed value of the 32 bits of `c`, as `c as i32` reads them.
pub open spec fn as_signed(c: u32) -> int {
    if c <= i32::MAX { c as int } else { c - 0x1_0000_0000 }
}

/// The bonus for wisdom above 14: two per point.
pub open spec fn wisdom_bonus(wisdom: int) -> int {
    if wisdom >= 15 { (wisdom - 14) * 2 } else { 0 }
}

/// The bonus for searches in a row after the first: five per search, the
/// count read as a signed 32-bit number.
pub open spec fn streak_bonus(consecutive: u32) -> int {
    if consecutive > 1 { (as_signed(consecutive) - 1) * 5 } else { 0 }
}

/// The percent chance a search succeeds: the base, plus twice the wisdom
/// above 14, three per point of luck, five per skill level and five per
/// search in a row after the first, kept within 5..=95.
pub open spec fn search_chance(base: int, luck: int, wisdom: int, skill: int, consecutive: u32) -> int {
    clamp(base + wisdom_bonus(wisdom) + luck * 3 + skill * 5 + streak_bonus(consecutive), 5, 95)
}

/// Whether `v` fits in an `i32`.
pub open spec fn fits(v: int) -> bool {
    i32::MIN <= v <= i32::MAX
}

/// The percent chance a search succeeds. Each step of the sum must fit in
/// an `i32`.
pub fn search_success_rate(base_chance: i32, luck: i32, wisdom: i32, search_skill: i32, consecutive_searches: u32) -> (r: i32)
    requires
        fits(wisdom_bonus(wisdom as int)),
        fits(base_chance + wisdom_bonus(wisdom as int)),
        fits(luck * 3),
        fits(base_chance + wisdom_bonus(wisdom as int) + luck * 3),
        fits(search_skill * 5),
        fits(base_chance + wisdom_bonus(wisdom as int) + luck * 3 + search_skill * 5),
        consecutive_searches > 1 ==> fits(as_signed(consecutive_searches) - 1),
        fits(streak_bonus(consecutive_searches)),
        fits(base_chance + wisdom_bonus(wisdom as int) + luck * 3 + search_skill * 5 + streak_bonus(consecutive_searches)),
    ensures
        r == search_chance(base_chance as int, luck as int, wisdom as int, search_skill as int, consecutive_searches),
{
    let mut chance = base_chance;
    if wisdom >= 15 {
        chance = chance + (wisdom - 14) * 2;
    }
    chance = chance + luck * 3;
    chance = chance + search_skill * 5;
    if consecutive_searches > 1 {
        let signed = consecutive_searches as i32;
        assert(signed == as_signed(consecutive_searches)) by (bit_vector)
            requires signed == consecutive_searches as i32;
        chance = chance + (signed - 1) * 5;
    }
    if chance < 5 {
        5
    } else if chance > 95 {
        95
    } else {
        chance
    }
}

/// How hard a trap of a given name is to find; 50 for names not listed.
pub open spec fn trap_find_difficulty(n: Seq<char>) -> i32 {
    if n == "pit"@ || n == "spiked pit"@ {
        20
    } else if n == "bear trap"@ {
        30
    } else if n == "land mine"@ {
        40
    } else if n == "rolling boulder"@ {
        35
    } else if n == "arrow trap"@ || n == "dart trap"@ {
        45
    } else if n == "falling rock trap"@ {
        50
    } else if n == "squeaky board"@ {
        25
    } else if n == "teleportation trap"@ {
        60
    } else if n == "level teleporter"@ {
        65
    } else if n == "fire trap"@ {
        55
    } else if n == "sleeping gas trap"@ {
        50
    } else if n == "magic trap"@ {
        70
    } else if n == "anti-magic field"@ {
        75
    } else if n == "polymorph trap"@ {
        70
    } else if n == "web"@ {
        15
    } else if n == "statue trap"@ {
        80
    } else if n == "magic portal"@ {
        90
    } else {
        50
    }
}

/// How hard a trap of a given name is to find.
pub fn trap_detection_difficulty(trap_name: &str) -> (r: i32)
    ensures
        r == trap_find_difficulty(trap_name@),
{
    let n = trap_name;
    if str_eq(n, "pit") || str_eq(n, "spiked pit") {
        20
    } else if str_eq(n, "bear trap") {
        30
    } else if str_eq(n, "land mine") {
        40
    } else if str_eq(n, "rolling boulder") {
        35
    } else if str_eq(n, "arrow trap") || str_eq(n, "dart trap") {
        45
    } else if str_eq(n, "falling rock trap") {
        50
    } else if str_eq(n, "squeaky board") {
        25
    } else if str_eq(n, "teleportation trap") {
        60
    } else if str_eq(n, "level teleporter") {
        65
    } else if str_eq(n, "fire trap") {
        55
    } else if str_eq(n, "sleeping gas trap") {
        50
    } else if str_eq(n, "magic trap") {
        70
    } else if str_eq(n, "anti-magic field") {
        75
    } else if str_eq(n, "polymorph trap") {
        70
    } else if str_eq(n, "web") {
        15
    } else if str_eq(n, "statue trap") {
        80
    } else if str_eq(n, "magic portal") {
        90
    } else {
        50
    }
}

/// How hard a hidden passage of a given kind is to find.
pub fn secret_passage_difficulty(wall_type: &str) -> (r: i32)
    ensures
        r == if wall_type@ == "secret_door"@ {
            40i32
        } else if wall_type@ == "secret_corridor"@ {
            50i32
        } else if wall_type@ == "hidden_staircase"@ {
            70i32
        } else {
            45i32
        },
{
    if str_eq(wall_type, "secret_door") {
        40
    } else if str_eq(wall_type, "secret_corridor") {
        50
    } else if str_eq(wall_type, "hidden_staircase") {
        70
    } else {
        45
    }
}

/// What a search found.
#[derive(Debug, Clone, PartialEq, Eq)]
pub enum SearchResult {
    Nothing,
    TrapFound(String),
    SecretDoorFound,
    SecretCorridorFound,
    HiddenStaircaseFound,
    EngravingFound(String),
    MimicDetected,
    GoldFound(u32),
}

/// What the hero is told of a search.
pub fn search_result_message(result: &SearchResult) -> (r: String)
    ensures
        r@ == match *result {
            SearchResult::Nothing => "You find nothing."@,
            SearchResult::TrapFound(name) => "You find a "@ + name@ + "!"@,
            SearchResult::SecretDoorFound => "You find a secret door!"@,
            SearchResult::SecretCorridorFound => "You find a hidden corridor!"@,
            SearchResult::HiddenStaircaseFound => "You find a hidden staircase!"@,
            SearchResult::EngravingFound(text) => "You see some writing on the floor: '"@ + text@ + "'"@,
            SearchResult::MimicDetected => "That's a mimic!"@,
            SearchResult::GoldFound(amount) => "You find "@ + int_text(amount as int) + " gold pieces!"@,
        },
{
    match result {
        SearchResult::Nothing => "You find nothing.".to_string(),
        SearchResult::TrapFound(name) => concat3("You find a ", name.as_str(), "!"),
        SearchResult::SecretDoorFound => "You find a secret door!".to_string(),
        SearchResult::SecretCorridorFound => "You find a hidden corridor!".to_string(),
        SearchResult::HiddenStaircaseFound => "You find a hidden staircase!".to_string(),
        SearchResult::EngravingFound(text) => concat3("You see some writing on the floor: '", text.as_str(), "'"),
        SearchResult::MimicDetected => "That's a mimic!".to_string(),
        SearchResult::GoldFound(amount) => text_with_int("You find ", *amount as i64, " gold pieces!"),
    }
}

/// How far a search reaches: one more with enhanced searching (at most 3),
/// else at most 2.
pub fn search_radius(base: i32, has_enhanced_search: bool) -> (r: i32)
    requires
        base < i32::MAX,
    ensures
        r == if has_enhanced_search {
            if base + 1 < 3 { base + 1 } else { 3 }
        } else {
            if base < 2 { base as int } else { 2 }
        },
{
    if has_enhanced_search {
        let b = base + 1;
        if b < 3 { b } else { 3 }
    } else {
        if base < 2 { base } else { 2 }
    }
}

/// The percent chance of searching without trying: none without the
/// searching intrinsic, else 15 plus two per point of luck, within 5..=40.
pub fn auto_search_chance(luck: i32, has_searching: bool) -> (r: i32)
    requires
        has_searching ==> fits(luck * 2) && 15 + luck * 2 <= i32::MAX,
    ensures
        r == (if has_searching { clamp(15 + luck * 2, 5, 40) } else { 0 }),
{
    if !has_searching {
        return 0;
    }
    let base = 15 + luck * 2;
    if base < 5 {
        5
    } else if base > 40 {
        40
    } else {
        base
    }
}

/// Whether the hero sees through an adjacent mimic: a draw from `0..100`
/// under 20 plus three per point of luck, within 5..=60; never from
/// further away.
pub fn detect_mimic_chance(distance: i32, luck: i32, rng: &mut NetHackRng) -> (r: bool)
    requires
        distance <= 1 ==> fits(luck * 3) && 20 + luck * 3 <= i32::MAX,
    ensures
        distance > 1 ==> !r && final(rng)@ == old(rng)@,
        distance <= 1 ==> {
            &&& r == (rng_roll(old(rng)@, 100) < clamp(20 + luck * 3, 5, 60))
            &&& final(rng)@ == rng_next(old(rng)@)
        },
{
    if distance > 1 {
        return false;
    }
    let chance = 20 + luck * 3;
    let c = if chance < 5 {
        5
    } else if chance > 60 {
        60
    } else {
        chance
    };
    rng.rn2(100) < c
}

/// Counts of searches.
#[derive(Debug, Clone)]
pub struct SearchStatistics {
    pub total_searches: u32,
    pub traps_found: u32,
    pub secret_doors_found: u32,
    pub secret_corridors_found: u32,
    pub mimics_detected: u32,
    pub nothing_found: u32,
    pub auto_searches: u32,
}

impl SearchStatistics {
    /// All counts at zero.
    pub fn new() -> (s: SearchStatistics)
        ensures
            s.total_searches == 0 && s.traps_found == 0 && s.secret_doors_found == 0,
            s.secret_corridors_found == 0 && s.mimics_detected == 0 && s.nothing_found == 0 && s.auto_searches == 0,
    {
        SearchStatistics {
            total_searches: 0,
            traps_found: 0,
            secret_doors_found: 0,
            secret_corridors_found: 0,
            mimics_detected: 0,
            nothing_found: 0,
            auto_searches: 0,
        }
    }

    /// Counts a search and what it found.
    pub fn record_search(&mut self, result: &SearchResult)
        requires
            old(self).total_searches < u32::MAX,
            old(self).nothing_found < u32::MAX,
            old(self).traps_found < u32::MAX,
            old(self).secret_doors_found < u32::MAX,
            old(self).secret_corridors_found < u32::MAX,
            old(self).mimics_detected < u32::MAX,
        ensures
            final(self).total_searches == old(self).total_searches + 1,
            final(self).nothing_found == old(self).nothing_found + (if *result == SearchResult::Nothing { 1int } else { 0int }),
            final(self).traps_found == old(self).traps_found + (if result is TrapFound { 1int } else { 0int }),
            final(self).secret_doors_found == old(self).secret_doors_found
                + (if *result == SearchResult::SecretDoorFound { 1int } else { 0int }),
            final(self).secret_corridors_found == old(self).secret_corridors_found
                + (if *result == SearchResult::SecretCorridorFound { 1int } else { 0int }),
            final(self).mimics_detected == old(self).mimics_detected
                + (if *result == SearchResult::MimicDetected { 1int } else { 0int }),
            final(self).auto_searches == old(self).auto_searches,
    {
        self.total_searches = self.total_searches + 1;
        match result {
            SearchResult::Nothing => {
                self.nothing_found = self.nothing_found + 1;
            },
            SearchResult::TrapFound(_) => {
                self.traps_found = self.traps_found + 1;
            },
            SearchResult::SecretDoorFound => {
                self.secret_doors_found = self.secret_doors_found + 1;
            },
            SearchResult::SecretCorridorFound => {
                self.secret_corridors_found = self.secret_corridors_found + 1;
            },
            SearchResult::MimicDetected => {
                self.mimics_detected = self.mimics_detected + 1;
            },
            _ => {},
        }
    }
}

} // verus!
