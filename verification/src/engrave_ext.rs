//! Engravings: how writing wears away, what surface and ceiling a square
//! has, searching, wiping and reading engravings, reaching the floor and
//! having a free hand, graves, relocating engravings, blind writing, and
//! which tools and gems can engrave.
use vstd::prelude::*;
use crate::text::{has_sub, lowercase, str_chars, string_from_chars, str_to_lowercase, str_contains, concat3};
use crate::tile::EngraveType;
use crate::num::div_trunc;
use crate::rng::{NetHackRng, rng_roll, rng_next, rng_after};

verus! {

/// The characters that a worn-away `c` may turn into; empty when it has
/// no partial form.
pub open spec fn rubout_of(c: char) -> Seq<char> {
    if c == 'A' {
        seq!['^']
    } else if c == 'B' {
        seq!['P', 'b', '[']
    } else if c == 'C' {
        seq!['(']
    } else if c == 'D' {
        seq!['|', ')', '[']
    } else if c == 'E' {
        seq!['|', 'F', 'L', '[', '_']
    } else if c == 'F' {
        seq!['|', '-']
    } else if c == 'G' {
        seq!['C', '(']
    } else if c == 'H' {
        seq!['|', '-']
    } else if c == 'I' {
        seq!['|']
    } else if c == 'K' {
        seq!['|', '<']
    } else if c == 'L' {
        seq!['|', '_']
    } else if c == 'M' {
        seq!['|']
    } else if c == 'N' {
        seq!['|', '\\']
    } else if c == 'O' {
        seq!['C', '(']
    } else if c == 'P' {
        seq!['F']
    } else if c == 'Q' {
        seq!['C', '(']
    } else if c == 'R' {
        seq!['P', 'F']
    } else if c == 'T' {
        seq!['|']
    } else if c == 'U' {
        seq!['J']
    } else if c == 'V' {
        seq!['/', '\\']
    } else if c == 'W' {
        seq!['V', '/', '\\']
    } else if c == 'Z' {
        seq!['/']
    } else if c == 'b' {
        seq!['|']
    } else if c == 'd' {
        seq!['c', '|']
    } else if c == 'e' {
        seq!['c']
    } else if c == 'g' {
        seq!['c']
    } else if c == 'h' {
        seq!['n']
    } else if c == 'j' {
        seq!['i']
    } else if c == 'k' {
        seq!['|']
    } else if c == 'l' {
        seq!['|']
    } else if c == 'm' {
        seq!['n', 'r']
    } else if c == 'n' {
        seq!['r']
    } else if c == 'o' {
        seq!['c']
    } else if c == 'q' {
        seq!['c']
    } else if c == 'w' {
        seq!['v']
    } else if c == 'y' {
        seq!['v']
    } else if c == ':' {
        seq!['.']
    } else if c == ';' {
        seq![',', ':']
    } else if c == ',' {
        seq!['.']
    } else if c == '=' {
        seq!['-']
    } else if c == '+' {
        seq!['-', '|']
    } else if c == '*' {
        seq!['+']
    } else if c == '@' {
        seq!['0']
    } else if c == '0' {
        seq!['C', '(']
    } else if c == '1' {
        seq!['|']
    } else if c == '6' {
        seq!['o']
    } else if c == '7' {
        seq!['/']
    } else if c == '8' {
        seq!['3', 'o']
    } else {
        Seq::empty()
    }
}

fn rubout_chars(c: char) -> (v: Vec<char>)
    ensures
        v@ == rubout_of(c),
{
    if c == 'A' {
        vec!['^']
    } else if c == 'B' {
        vec!['P', 'b', '[']
    } else if c == 'C' {
        vec!['(']
    } else if c == 'D' {
        vec!['|', ')', '[']
    } else if c == 'E' {
        vec!['|', 'F', 'L', '[', '_']
    } else if c == 'F' {
        vec!['|', '-']
    } else if c == 'G' {
        vec!['C', '(']
    } else if c == 'H' {
        vec!['|', '-']
    } else if c == 'I' {
        vec!['|']
    } else if c == 'K' {
        vec!['|', '<']
    } else if c == 'L' {
        vec!['|', '_']
    } else if c == 'M' {
        vec!['|']
    } else if c == 'N' {
        vec!['|', '\\']
    } else if c == 'O' {
        vec!['C', '(']
    } else if c == 'P' {
        vec!['F']
    } else if c == 'Q' {
        vec!['C', '(']
    } else if c == 'R' {
        vec!['P', 'F']
    } else if c == 'T' {
        vec!['|']
    } else if c == 'U' {
        vec!['J']
    } else if c == 'V' {
        vec!['/', '\\']
    } else if c == 'W' {
        vec!['V', '/', '\\']
    } else if c == 'Z' {
        vec!['/']
    } else if c == 'b' {
        vec!['|']
    } else if c == 'd' {
        vec!['c', '|']
    } else if c == 'e' {
        vec!['c']
    } else if c == 'g' {
        vec!['c']
    } else if c == 'h' {
        vec!['n']
    } else if c == 'j' {
        vec!['i']
    } else if c == 'k' {
        vec!['|']
    } else if c == 'l' {
        vec!['|']
    } else if c == 'm' {
        vec!['n', 'r']
    } else if c == 'n' {
        vec!['r']
    } else if c == 'o' {
        vec!['c']
    } else if c == 'q' {
        vec!['c']
    } else if c == 'w' {
        vec!['v']
    } else if c == 'y' {
        vec!['v']
    } else if c == ':' {
        vec!['.']
    } else if c == ';' {
        vec![',', ':']
    } else if c == ',' {
        vec!['.']
    } else if c == '=' {
        vec!['-']
    } else if c == '+' {
        vec!['-', '|']
    } else if c == '*' {
        vec!['+']
    } else if c == '@' {
        vec!['0']
    } else if c == '0' {
        vec!['C', '(']
    } else if c == '1' {
        vec!['|']
    } else if c == '6' {
        vec!['o']
    } else if c == '7' {
        vec!['/']
    } else if c == '8' {
        vec!['3', 'o']
    } else {
        Vec::new()
    }
}

/// Punctuation too small to survive wear: it becomes a space.
pub open spec fn is_small_punct(c: char) -> bool {
    c == '?' || c == '.' || c == ',' || c == '\'' || c == '`' || c == '-' || c == '|' || c == '_'
}

fn small_punct(c: char) -> (b: bool)
    ensures
        b == is_small_punct(c),
{
    c == '?' || c == '.' || c == ',' || c == '\'' || c == '`' || c == '-' || c == '|' || c == '_'
}

/// Whether `c` is white space in the Unicode sense (`char::is_whitespace`).
pub open spec fn is_ws(c: char) -> bool {
    ('\u{9}' <= c <= '\u{d}') || c == ' ' || c == '\u{85}' || c == '\u{a0}' || c == '\u{1680}'
        || ('\u{2000}' <= c <= '\u{200a}') || c == '\u{2028}' || c == '\u{2029}' || c == '\u{202f}'
        || c == '\u{205f}' || c == '\u{3000}'
}

fn ws(c: char) -> (b: bool)
    ensures
        b == is_ws(c),
{
    ('\u{9}' <= c && c <= '\u{d}') || c == ' ' || c == '\u{85}' || c == '\u{a0}' || c == '\u{1680}'
        || ('\u{2000}' <= c && c <= '\u{200a}') || c == '\u{2028}' || c == '\u{2029}' || c == '\u{202f}'
        || c == '\u{205f}' || c == '\u{3000}'
}

/// `s` without its trailing white space.
pub open spec fn trim_end_ws(s: Seq<char>) -> Seq<char>
    decreases s.len(),
{
    if s.len() > 0 && is_ws(s.last()) {
        trim_end_ws(s.drop_last())
    } else {
        s
    }
}

/// `s` without its leading white space.
pub open spec fn trim_start_ws(s: Seq<char>) -> Seq<char>
    decreases s.len(),
{
    if s.len() > 0 && is_ws(s[0]) {
        trim_start_ws(s.drop_first())
    } else {
        s
    }
}

fn trimmed_end(v: &Vec<char>) -> (r: Vec<char>)
    ensures
        r@ == trim_end_ws(v@),
{
    let mut n = v.len();
    assert(v@.subrange(0, n as int) =~= v@);
    while n > 0 && ws(v[n - 1])
        invariant
            n <= v@.len(),
            trim_end_ws(v@.subrange(0, n as int)) == trim_end_ws(v@),
        decreases n,
    {
        assert(v@.subrange(0, n as int).drop_last() =~= v@.subrange(0, n - 1));
        n = n - 1;
    }
    let mut r: Vec<char> = Vec::new();
    let mut i: usize = 0;
    while i < n
        invariant
            i <= n <= v@.len(),
            r@ =~= v@.subrange(0, i as int),
        decreases n - i,
    {
        r.push(v[i]);
        i = i + 1;
    }
    assert(v@.subrange(0, n as int) == trim_end_ws(v@.subrange(0, n as int)));
    r
}

fn trimmed_start(v: &Vec<char>) -> (r: Vec<char>)
    ensures
        r@ == trim_start_ws(v@),
{
    let mut k: usize = 0;
    assert(v@.subrange(0, v@.len() as int) =~= v@);
    while k < v.len() && ws(v[k])
        invariant
            k <= v@.len(),
            trim_start_ws(v@.subrange(k as int, v@.len() as int)) == trim_start_ws(v@),
        decreases v@.len() - k,
    {
        assert(v@.subrange(k as int, v@.len() as int).drop_first() =~= v@.subrange(k + 1, v@.len() as int));
        k = k + 1;
    }
    let mut r: Vec<char> = Vec::new();
    let mut i: usize = k;
    while i < v.len()
        invariant
            k <= i <= v@.len(),
            r@ =~= v@.subrange(k as int, i as int),
        decreases v@.len() - i,
    {
        r.push(v[i]);
        i = i + 1;
    }
    assert(r@ == trim_start_ws(v@.subrange(k as int, v@.len() as int)));
    r
}

/// The next value of a fixed wear sequence.
pub open spec fn next_wear_seed(seed: u32) -> u32 {
    ((seed as int * 31) % 0x1_0000_0000 % 255) as u32
}

fn wear_seed_step(seed: u32) -> (r: u32)
    ensures
        r == next_wear_seed(seed),
{
    (((seed as u64) * 31u64 % 0x1_0000_0000u64) % 255u64) as u32
}

/// One character of `chars` worn away, with a fixed wear sequence at
/// `seed` (or the random stream in state `s` while it is 0): the position
/// and whether a partial form is used come from the sequence or from two
/// draws; a space stays, small punctuation becomes a space, a character with
/// partial forms may become one of them (chosen by the sequence or a draw),
/// and anything else becomes `?`. Gives the new characters, sequence value
/// and stream state.
pub open spec fn wear_step(chars: Seq<char>, seed: u32, s: u64) -> (Seq<char>, u32, u64) {
    let lth = chars.len() as int;
    let n = if seed == 0 { rng_roll(s, lth) } else { seed as int % lth };
    let seed1 = if seed == 0 { 0u32 } else { next_wear_seed(seed) };
    let partial = if seed == 0 { rng_roll(rng_next(s), 4) != 0 } else { seed1 % 4 != 0 };
    let s1 = if seed == 0 { rng_next(rng_next(s)) } else { s };
    let ch = chars[n];
    let forms = rubout_of(ch);
    if ch == ' ' {
        (chars, seed1, s1)
    } else if is_small_punct(ch) {
        (chars.update(n, ' '), seed1, s1)
    } else if partial && forms.len() > 0 {
        if seed1 == 0 {
            (chars.update(n, forms[rng_roll(s1, forms.len() as int)]), seed1, rng_next(s1))
        } else {
            let seed2 = next_wear_seed(seed1);
            (chars.update(n, forms[seed2 as int % forms.len() as int]), seed2, s1)
        }
    } else {
        (chars.update(n, '?'), seed1, s1)
    }
}

/// `k` characters of `chars` worn away in turn.
pub open spec fn wear(chars: Seq<char>, seed: u32, s: u64, k: nat) -> (Seq<char>, u32, u64)
    decreases k,
{
    if k == 0 {
        (chars, seed, s)
    } else {
        let (c, sd, st) = wear(chars, seed, s, (k - 1) as nat);
        wear_step(c, sd, st)
    }
}

proof fn lemma_wear_len(chars: Seq<char>, seed: u32, s: u64, k: nat)
    requires
        chars.len() > 0,
    ensures
        wear(chars, seed, s, k).0.len() == chars.len(),
    decreases k,
{
    if k > 0 {
        lemma_wear_len(chars, seed, s, (k - 1) as nat);
        let (c, sd, st) = wear(chars, seed, s, (k - 1) as nat);
        lemma_wear_step_len(c, sd, st);
    }
}

proof fn lemma_wear_step_len(chars: Seq<char>, seed: u32, s: u64)
    requires
        chars.len() > 0,
    ensures
        wear_step(chars, seed, s).0.len() == chars.len(),
{
    crate::rng::lemma_roll_range(s, chars.len() as int);
}

fn wear_one(chars: &mut Vec<char>, seed: u32, rng: &mut NetHackRng) -> (r: u32)
    requires
        0 < old(chars)@.len() <= i32::MAX,
    ensures
        (final(chars)@, r, final(rng)@) == wear_step(old(chars)@, seed, old(rng)@),
        final(chars)@.len() == old(chars)@.len(),
{
    let lth = chars.len();
    let ghost c0 = chars@;
    let ghost s0 = rng@;
    let mut cur = seed;
    let nxt: usize;
    let partial: bool;
    if cur == 0 {
        nxt = rng.rn2(lth as i32) as usize;
        partial = rng.rn2(4) != 0;
    } else {
        nxt = (cur as usize) % lth;
        cur = wear_seed_step(cur);
        partial = cur % 4 != 0;
    }
    let ch = chars[nxt];
    if ch == ' ' {
        return cur;
    }
    if small_punct(ch) {
        chars.set(nxt, ' ');
        return cur;
    }
    let forms = rubout_chars(ch);
    if partial && forms.len() > 0 {
        let j: usize;
        if cur == 0 {
            j = rng.rn2(forms.len() as i32) as usize;
        } else {
            cur = wear_seed_step(cur);
            j = (cur as usize) % forms.len();
        }
        chars.set(nxt, forms[j]);
    } else {
        chars.set(nxt, '?');
    }
    cur
}

/// Wears `cnt` characters of `text` away, following the fixed sequence from
/// `seed` (random draws while it is 0), then drops trailing white space. An
/// empty text, or a count that is not positive, leaves the text as it is.
pub fn wipeout_text(text: &str, cnt: i32, seed: u32, rng: &mut NetHackRng) -> (r: String)
    requires
        text@.len() <= i32::MAX,
    ensures
        text@.len() == 0 || cnt <= 0 ==> r@ == text@ && final(rng)@ == old(rng)@,
        text@.len() > 0 && cnt > 0 ==> {
            let (c, _, s) = wear(text@, seed, old(rng)@, cnt as nat);
            r@ == trim_end_ws(c) && final(rng)@ == s
        },
{
    let mut chars = str_chars(text);
    let lth = chars.len();
    if lth == 0 || cnt <= 0 {
        return text.to_string();
    }
    let ghost s0 = rng@;
    let mut remaining = cnt;
    let mut cur = seed;
    while remaining > 0
        invariant
            0 <= remaining <= cnt,
            chars@.len() == lth,
            0 < lth <= i32::MAX,
            text@.len() == lth,
            (chars@, cur, rng@) == wear(text@, seed, s0, (cnt - remaining) as nat),
        decreases remaining,
    {
        proof {
            lemma_wear_len(text@, seed, s0, (cnt - remaining) as nat);
        }
        remaining = remaining - 1;
        cur = wear_one(&mut chars, cur, rng);
    }
    let t = trimmed_end(&chars);
    string_from_chars(&t)
}

/// The `i`-th value of the fixed wear sequence started at `seed`.
pub open spec fn wear_seq(seed: u32, i: nat) -> u32
    decreases i,
{
    if i == 0 { seed } else { next_wear_seed(wear_seq(seed, (i - 1) as nat)) }
}

proof fn lemma_wear_keeps_stream(chars: Seq<char>, seed: u32, s: u64, s2: u64, k: nat) -> (j: nat)
    requires
        chars.len() > 0,
        forall|i: nat| i <= 2 * k ==> #[trigger] wear_seq(seed, i) != 0,
    ensures
        j <= 2 * k,
        wear(chars, seed, s, k).1 == wear_seq(seed, j),
        wear(chars, seed, s2, k).1 == wear_seq(seed, j),
        wear(chars, seed, s, k).2 == s,
        wear(chars, seed, s2, k).2 == s2,
        wear(chars, seed, s, k).0 == wear(chars, seed, s2, k).0,
    decreases k,
{
    if k == 0 {
        assert(wear_seq(seed, 0) == seed);
        0
    } else {
        let j = lemma_wear_keeps_stream(chars, seed, s, s2, (k - 1) as nat);
        lemma_wear_len(chars, seed, s, (k - 1) as nat);
        let (c, sd, st) = wear(chars, seed, s, (k - 1) as nat);
        assert(wear_seq(seed, j) != 0);
        assert(wear_seq(seed, j + 1) != 0);
        assert(wear_seq(seed, j + 2) != 0);
        assert(wear_seq(seed, j + 1) == next_wear_seed(wear_seq(seed, j)));
        assert(wear_seq(seed, j + 2) == next_wear_seed(wear_seq(seed, j + 1)));
        let seed1 = next_wear_seed(sd);
        let n = sd as int % c.len() as int;
        let ch = c[n];
        let forms = rubout_of(ch);
        if ch == ' ' || is_small_punct(ch) || !(seed1 % 4 != 0 && forms.len() > 0) {
            j + 1
        } else {
            j + 2
        }
    }
}

/// While the fixed wear sequence started at `seed` never reaches 0 (its
/// first `2 * cnt + 1` values are all non-zero), wearing a text away draws
/// nothing from the random stream: the stream is left as it was, and the
/// worn text is the same whatever state the stream is in.
pub proof fn wipeout_with_live_seed_draws_nothing(chars: Seq<char>, seed: u32, cnt: nat, s: u64, s2: u64)
    requires
        chars.len() > 0,
        forall|i: nat| i <= 2 * cnt ==> #[trigger] wear_seq(seed, i) != 0,
    ensures
        wear(chars, seed, s, cnt).2 == s,
        wear(chars, seed, s, cnt).0 == wear(chars, seed, s2, cnt).0,
{
    lemma_wear_keeps_stream(chars, seed, s, s2, cnt);
}

/// What the hero stands on.
#[derive(Debug, Clone, Copy, PartialEq, Eq, Structural)]
pub enum SurfaceType {
    Air,
    Water,
    WaterBottom,
    Ice,
    Lava,
    Bridge,
    Altar,
    Headstone,
    Fountain,
    Floor,
    Ground,
    Maw,
}

/// The word for a surface.
pub open spec fn surface_word(s: SurfaceType) -> Seq<char> {
    match s {
        SurfaceType::Maw => "maw"@,
        SurfaceType::Air => "air"@,
        SurfaceType::Water => "water"@,
        SurfaceType::WaterBottom => "bottom"@,
        SurfaceType::Ice => "ice"@,
        SurfaceType::Lava => "lava"@,
        SurfaceType::Bridge => "bridge"@,
        SurfaceType::Altar => "altar"@,
        SurfaceType::Headstone => "headstone"@,
        SurfaceType::Fountain => "fountain"@,
        SurfaceType::Floor => "floor"@,
        SurfaceType::Ground => "ground"@,
    }
}

/// The word for a surface.
pub fn surface_name(surface: SurfaceType) -> (r: &'static str)
    ensures
        r@ == surface_word(surface),
{
    match surface {
        SurfaceType::Maw => "maw",
        SurfaceType::Air => "air",
        SurfaceType::Water => "water",
        SurfaceType::WaterBottom => "bottom",
        SurfaceType::Ice => "ice",
        SurfaceType::Lava => "lava",
        SurfaceType::Bridge => "bridge",
        SurfaceType::Altar => "altar",
        SurfaceType::Headstone => "headstone",
        SurfaceType::Fountain => "fountain",
        SurfaceType::Floor => "floor",
        SurfaceType::Ground => "ground",
    }
}

/// The surface of a square whose kind, in lowercase, is `l`: the first of
/// air, water (pool, moat, water; its bottom when under water), ice, lava,
/// drawbridge, altar, grave or headstone, fountain, or floor (room, wall,
/// door, corridor) that the name mentions, else the ground.
pub open spec fn surface_of(l: Seq<char>, underwater: bool) -> SurfaceType {
    if has_sub(l, "air"@) {
        SurfaceType::Air
    } else if has_sub(l, "pool"@) || has_sub(l, "moat"@) || has_sub(l, "water"@) {
        if underwater { SurfaceType::WaterBottom } else { SurfaceType::Water }
    } else if has_sub(l, "ice"@) {
        SurfaceType::Ice
    } else if has_sub(l, "lava"@) {
        SurfaceType::Lava
    } else if has_sub(l, "drawbridge"@) {
        SurfaceType::Bridge
    } else if has_sub(l, "altar"@) {
        SurfaceType::Altar
    } else if has_sub(l, "grave"@) || has_sub(l, "headstone"@) {
        SurfaceType::Headstone
    } else if has_sub(l, "fountain"@) {
        SurfaceType::Fountain
    } else if has_sub(l, "room"@) || has_sub(l, "wall"@) || has_sub(l, "door"@) || has_sub(l, "corr"@) {
        SurfaceType::Floor
    } else {
        SurfaceType::Ground
    }
}

/// The surface of a square, from the name of its kind in lowercase.
pub fn surface_from_lowercase(t: &str, is_underwater: bool) -> (r: SurfaceType)
    ensures
        r == surface_of(t@, is_underwater),
{
    if str_contains(t, "air") {
        return SurfaceType::Air;
    }
    if str_contains(t, "pool") || str_contains(t, "moat") || str_contains(t, "water") {
        return if is_underwater { SurfaceType::WaterBottom } else { SurfaceType::Water };
    }
    if str_contains(t, "ice") {
        return SurfaceType::Ice;
    }
    if str_contains(t, "lava") {
        return SurfaceType::Lava;
    }
    if str_contains(t, "drawbridge") {
        return SurfaceType::Bridge;
    }
    if str_contains(t, "altar") {
        return SurfaceType::Altar;
    }
    if str_contains(t, "grave") || str_contains(t, "headstone") {
        return SurfaceType::Headstone;
    }
    if str_contains(t, "fountain") {
        return SurfaceType::Fountain;
    }
    if str_contains(t, "room") || str_contains(t, "wall") || str_contains(t, "door") || str_contains(t, "corr") {
        return SurfaceType::Floor;
    }
    SurfaceType::Ground
}

/// The surface of a square, from the name of its kind in any case.
pub fn surface_from_tile(tile_type: &str, is_underwater: bool) -> (r: SurfaceType)
    ensures
        r == surface_of(lowercase(tile_type@), is_underwater),
{
    let lower = str_to_lowercase(tile_type);
    surface_from_lowercase(lower.as_str(), is_underwater)
}

/// What is above the hero.
#[derive(Debug, Clone, Copy, PartialEq, Eq, Structural)]
pub enum CeilingType {
    VaultCeiling,
    TempleCeiling,
    ShopCeiling,
    WaterAbove,
    Sky,
    WaterSurface,
    Ceiling,
    RockCavern,
}

/// The words for what is above.
pub open spec fn ceiling_word(c: CeilingType) -> Seq<char> {
    match c {
        CeilingType::VaultCeiling => "vault's ceiling"@,
        CeilingType::TempleCeiling => "temple's ceiling"@,
        CeilingType::ShopCeiling => "shop's ceiling"@,
        CeilingType::WaterAbove => "water above"@,
        CeilingType::Sky => "sky"@,
        CeilingType::WaterSurface => "water's surface"@,
        CeilingType::Ceiling => "ceiling"@,
        CeilingType::RockCavern => "rock cavern"@,
    }
}

/// The words for what is above.
pub fn ceiling_name(ceiling: CeilingType) -> (r: &'static str)
    ensures
        r@ == ceiling_word(ceiling),
{
    match ceiling {
        CeilingType::VaultCeiling => "vault's ceiling",
        CeilingType::TempleCeiling => "temple's ceiling",
        CeilingType::ShopCeiling => "shop's ceiling",
        CeilingType::WaterAbove => "water above",
        CeilingType::Sky => "sky",
        CeilingType::WaterSurface => "water's surface",
        CeilingType::Ceiling => "ceiling",
        CeilingType::RockCavern => "rock cavern",
    }
}

/// `c` with an ASCII capital turned to lowercase.
pub open spec fn ascii_lower(c: char) -> char {
    if 'A' <= c <= 'Z' { ((c as u32) + 32) as char } else { c }
}

/// Whether `a` and `b` are the same text when ASCII letters are compared
/// without regard to case.
pub open spec fn same_ignoring_ascii_case(a: Seq<char>, b: Seq<char>) -> bool {
    a.len() == b.len() && forall|i: int| 0 <= i < a.len() ==> ascii_lower(#[trigger] a[i]) == ascii_lower(b[i])
}

fn lower_ascii(c: char) -> (r: char)
    ensures
        r == ascii_lower(c),
{
    if 'A' <= c && c <= 'Z' {
        ((c as u8) + 32) as char
    } else {
        c
    }
}

fn eq_ignoring_ascii_case(a: &str, b: &str) -> (r: bool)
    ensures
        r == same_ignoring_ascii_case(a@, b@),
{
    let x = str_chars(a);
    let y = str_chars(b);
    if x.len() != y.len() {
        return false;
    }
    let mut i: usize = 0;
    while i < x.len()
        invariant
            i <= x@.len(),
            x@.len() == y@.len(),
            x@ == a@,
            y@ == b@,
            forall|k: int| 0 <= k < i ==> ascii_lower(#[trigger] x@[k]) == ascii_lower(y@[k]),
        decreases x@.len() - i,
    {
        if lower_ascii(x[i]) != lower_ascii(y[i]) {
            return false;
        }
        i = i + 1;
    }
    true
}

/// Whether the engraving `engraving_text` (if any) says `search_text`:
/// exactly, ignoring ASCII case, when `strict`; otherwise anywhere in it,
/// ignoring case.
pub fn sengr_at_result(
    search_text: &str,
    engraving_text: Option<&str>,
    engraving_type: Option<EngraveType>,
    strict: bool,
) -> (r: bool)
    ensures
        engraving_text.is_none() ==> !r,
        engraving_text.is_some() && strict ==> r == same_ignoring_ascii_case(engraving_text.unwrap()@, search_text@),
        engraving_text.is_some() && !strict ==> r == has_sub(lowercase(engraving_text.unwrap()@), lowercase(search_text@)),
{
    match engraving_text {
        None => false,
        Some(text) => {
            if strict {
                eq_ignoring_ascii_case(text, search_text)
            } else {
                let t = str_to_lowercase(text);
                let s = str_to_lowercase(search_text);
                str_contains(t.as_str(), s.as_str())
            }
        },
    }
}

/// An engraving after wiping.
#[derive(Debug, Clone, PartialEq, Eq)]
pub struct WipeEngrResult {
    pub remaining_text: Option<String>,
    pub was_eroded: bool,
}

/// Whether a wipe leaves `text` untouched: `r` keeps it whole and says no
/// erosion happened.
pub open spec fn untouched(r: WipeEngrResult, text: Seq<char>) -> bool {
    &&& !r.was_eroded
    &&& r.remaining_text matches Some(t) && t@ == text
}

/// Wipes `cnt` characters of an engraving. A burned engraving only wipes on
/// ice, or by magic one time in two. A permanent one (not dust or blood)
/// loses a single character one time in `1 + 50 / (cnt + 1)`, else none.
/// The wiped text loses its leading white space, and is gone if nothing is
/// left.
pub fn wipe_engr_result(
    text: &str,
    engrave_type: EngraveType,
    cnt: i32,
    magical: bool,
    is_ice: bool,
    rng: &mut NetHackRng,
) -> (r: WipeEngrResult)
    requires
        text@.len() <= i32::MAX,
        engrave_type != EngraveType::Dust && engrave_type != EngraveType::Blood
            ==> (cnt >= 0 || cnt <= -52) && cnt < i32::MAX,
    ensures
        ({
            let s0 = old(rng)@;
            let draws_erase = engrave_type == EngraveType::Burned && !is_ice && magical;
            let can_erase = engrave_type != EngraveType::Burned || is_ice
                || (magical && rng_roll(s0, 2) == 0);
            let s1 = if draws_erase { rng_next(s0) } else { s0 };
            let permanent = engrave_type != EngraveType::Dust && engrave_type != EngraveType::Blood;
            let actual = if permanent {
                if rng_roll(s1, 1 + div_trunc(50, cnt + 1)) != 0 { 0 } else { 1 }
            } else {
                cnt as int
            };
            let s2 = if permanent { rng_next(s1) } else { s1 };
            if !can_erase {
                untouched(r, text@) && final(rng)@ == s1
            } else if actual <= 0 {
                untouched(r, text@) && final(rng)@ == s2
            } else {
                let (c, _, s3) = wear(text@, 0, s2, actual as nat);
                let left = if text@.len() == 0 { text@ } else { trim_start_ws(trim_end_ws(c)) };
                let s_end = if text@.len() == 0 { s2 } else { s3 };
                &&& r.was_eroded
                &&& final(rng)@ == s_end
                &&& left.len() == 0 ==> r.remaining_text.is_none()
                &&& left.len() > 0 ==> (r.remaining_text matches Some(t) && t@ == left)
            }
        }),
{
    let can_erase = engrave_type != EngraveType::Burned || is_ice || (magical && rng.rn2(2) == 0);
    if !can_erase {
        return WipeEngrResult { remaining_text: Some(text.to_string()), was_eroded: false };
    }
    let actual_cnt = if engrave_type != EngraveType::Dust && engrave_type != EngraveType::Blood {
        let d = cnt + 1;
        let q: i32 = if d > 0 {
            assert(0 <= 50i32 / d <= 50) by (nonlinear_arith)
                requires
                    d > 0,
            ;
            50 / d
        } else {
            0
        };
        assert(q == div_trunc(50, d as int)) by (nonlinear_arith)
            requires
                d > 0 ==> q == 50i32 / d,
                d <= 0 ==> q == 0 && d <= -51,
        ;
        if rng.rn2(1 + q) != 0 { 0 } else { 1 }
    } else {
        cnt
    };
    if actual_cnt <= 0 {
        return WipeEngrResult { remaining_text: Some(text.to_string()), was_eroded: false };
    }
    let wiped = wipeout_text(text, actual_cnt, 0, rng);
    let wc = str_chars(wiped.as_str());
    let tc = trimmed_start(&wc);
    if tc.len() == 0 {
        WipeEngrResult { remaining_text: None, was_eroded: true }
    } else {
        WipeEngrResult { remaining_text: Some(string_from_chars(&tc)), was_eroded: true }
    }
}

/// What the hero makes out of an engraving.
#[derive(Debug, Clone)]
pub struct ReadEngrResult {
    pub type_description: &'static str,
    pub text: String,
    pub blind_sensible: bool,
}

/// How an engraving of a kind announces itself, and whether it can be felt
/// without sight.
pub open spec fn engraving_notice(t: EngraveType, is_ice: bool) -> (Seq<char>, bool) {
    match t {
        EngraveType::Dust => (if is_ice {
            "Something is written here in the frost."@
        } else {
            "Something is written here in the dust."@
        }, false),
        EngraveType::Scratched => ("Something is engraved here on the surface."@, true),
        EngraveType::Etched => ("Something is engraved here on the surface."@, true),
        EngraveType::Burned => (if is_ice {
            "Some text has been melted into the surface here."@
        } else {
            "Some text has been burned into the surface here."@
        }, true),
        EngraveType::Blood => ("You see a message scrawled in blood here."@, false),
    }
}

/// The part of `text` that is read: its first 220 bytes when it is longer.
pub open spec fn shown_text(text: Seq<char>) -> Seq<char> {
    if vstd::utf8::encode_utf8(text).len() > 220 {
        vstd::utf8::decode_utf8(vstd::utf8::encode_utf8(text).subrange(0, 220))
    } else {
        text
    }
}

fn engraving_notice_text(engrave_type: EngraveType, is_ice: bool) -> (r: (&'static str, bool))
    ensures
        (r.0@, r.1) == engraving_notice(engrave_type, is_ice),
{
    match engrave_type {
        EngraveType::Dust => (if is_ice {
            "Something is written here in the frost."
        } else {
            "Something is written here in the dust."
        }, false),
        EngraveType::Scratched => ("Something is engraved here on the surface.", true),
        EngraveType::Etched => ("Something is engraved here on the surface.", true),
        EngraveType::Burned => (if is_ice {
            "Some text has been melted into the surface here."
        } else {
            "Some text has been burned into the surface here."
        }, true),
        EngraveType::Blood => ("You see a message scrawled in blood here.", false),
    }
}

/// What reading the engraving `text` of kind `t` gives (blind or not, on
/// ice or not): nothing for an empty text or one the blind cannot feel;
/// otherwise how it shows, whether it can be felt, and the line read.
pub open spec fn reading(text: Seq<char>, t: EngraveType, is_blind: bool, is_ice: bool, r: Option<ReadEngrResult>) -> bool {
    let (desc, felt) = engraving_notice(t, is_ice);
    if text.len() == 0 || (is_blind && !felt) {
        r.is_none()
    } else {
        &&& r matches Some(e)
        &&& e.type_description@ == desc
        &&& e.blind_sensible == felt
        &&& e.text@ == "You "@ + (if is_blind { "feel the words"@ } else { "read"@ }) + ": \""@
            + shown_text(text) + "\"."@
    }
}

/// Only engravings in dust or blood cannot be felt: reading a non-empty
/// engraving blind gives nothing exactly for those, and every scratched,
/// etched or burned engraving is read, and marked as one that can be felt.
pub proof fn blind_readers_feel_all_but_dust_and_blood(text: Seq<char>, t: EngraveType, is_blind: bool, is_ice: bool,
    r: Option<ReadEngrResult>)
    requires
        text.len() > 0,
        reading(text, t, is_blind, is_ice, r),
    ensures
        r is None <==> is_blind && (t == EngraveType::Dust || t == EngraveType::Blood),
        r matches Some(e) ==> e.blind_sensible == !(t == EngraveType::Dust || t == EngraveType::Blood),
{
}

/// Reads an engraving. There is nothing to read in an empty one, and a
/// blind hero cannot feel dust or blood. Otherwise the result tells how the
/// engraving shows, whether it can be felt, and the line "You read: ..." (or
/// "You feel the words: ..." when blind) with the text, cut to its first 220
/// bytes.
pub fn read_engr_result(
    text: &str,
    engrave_type: EngraveType,
    is_blind: bool,
    is_ice: bool,
    surface: &str,
) -> (r: Option<ReadEngrResult>)
    requires
        vstd::utf8::encode_utf8(text@).len() <= usize::MAX,
        vstd::utf8::encode_utf8(text@).len() > 220 ==> vstd::utf8::is_char_boundary(
            vstd::utf8::encode_utf8(text@),
            220,
        ),
    ensures
        reading(text@, engrave_type, is_blind, is_ice, r),
{
    if text.is_empty() {
        return None;
    }
    let (type_desc, blind_ok) = engraving_notice_text(engrave_type, is_ice);
    if is_blind && !blind_ok {
        return None;
    }
    let display: &str = if text.len() > 220 {
        let (head, _) = text.split_at(220);
        proof {
            vstd::utf8::encode_utf8_decode_utf8(head@);
        }
        head
    } else {
        text
    };
    let read_verb = if is_blind { "feel the words" } else { "read" };
    let lead = concat3("You ", read_verb, ": \"");
    let line = concat3(lead.as_str(), display, "\".");
    Some(ReadEngrResult { type_description: type_desc, text: line, blind_sensible: blind_ok })
}

/// The hero's situation when reaching for the floor.
#[derive(Debug, Clone)]
pub struct CanReachFloorInput {
    pub is_swallowed: bool,
    pub is_riding: bool,
    pub riding_skill_basic_plus: bool,
    pub is_levitating: bool,
    pub is_air_level: bool,
    pub is_water_level: bool,
    pub is_flying: bool,
    pub is_in_pit: bool,
    pub check_pit: bool,
    pub is_hidden_hider: bool,
    pub is_trapper: bool,
}

/// Whether the hero can reach the floor: not when swallowed, riding without
/// skill, stuck in a pit (when pits count) without flying, levitating except
/// on the air and water levels, or hiding (unless a trapper).
pub fn can_reach_floor_result(input: &CanReachFloorInput) -> (r: bool)
    ensures
        r == (!input.is_swallowed
            && !(input.is_riding && !input.riding_skill_basic_plus)
            && !(input.check_pit && !input.is_flying && input.is_in_pit)
            && (!input.is_levitating || input.is_air_level || input.is_water_level)
            && (!input.is_hidden_hider || input.is_trapper)),
{
    if input.is_swallowed {
        return false;
    }
    if input.is_riding && !input.riding_skill_basic_plus {
        return false;
    }
    if input.check_pit && !input.is_flying && input.is_in_pit {
        return false;
    }
    let levitation_ok = !input.is_levitating || input.is_air_level || input.is_water_level;
    let hiding_ok = !input.is_hidden_hider || input.is_trapper;
    levitation_ok && hiding_ok
}

/// Whether the hero has a hand free: only a welded weapon can take it,
/// two-handed, or one-handed beside a cursed shield.
pub fn freehand_result(
    has_weapon: bool,
    weapon_welded: bool,
    weapon_bimanual: bool,
    has_shield: bool,
    shield_cursed: bool,
) -> (r: bool)
    ensures
        r == (!has_weapon || !weapon_welded || (!weapon_bimanual && !(has_shield && shield_cursed))),
{
    if !has_weapon {
        return true;
    }
    if !weapon_welded {
        return true;
    }
    if weapon_bimanual {
        return false;
    }
    if has_shield && shield_cursed {
        return false;
    }
    true
}

/// The epitaph of a grave dug without one, for a draw `k` from `0..12`.
pub open spec fn headstone_text(k: int) -> Seq<char> {
    if k == 0 {
        "Rest in peace"@
    } else if k == 1 {
        "R.I.P."@
    } else if k == 2 {
        "Rest In Pieces"@
    } else if k == 3 {
        "Note -- there are NO valid items in this grave"@
    } else if k == 4 {
        "The Grave of the Unknown Hacker"@
    } else if k == 5 {
        "We weren't sure who this was, but we buried him here anyway"@
    } else if k == 6 {
        "Sparky -- he was a very good dog"@
    } else if k == 7 {
        "Beware of Electric Third Rail"@
    } else if k == 8 {
        "Made in Taiwan"@
    } else if k == 9 {
        "Og friend. Og good dude. Og died. Og now food"@
    } else if k == 10 {
        "Look out below!"@
    } else {
        "Be careful, or this could happen to you!"@
    }
}

/// An epitaph for a grave dug without one, drawn from twelve.
pub fn random_headstone_message(rng: &mut NetHackRng) -> (r: &'static str)
    ensures
        r@ == headstone_text(rng_roll(old(rng)@, 12)),
        final(rng)@ == rng_next(old(rng)@),
{
    let k = rng.rn2(12);
    if k == 0 {
        "Rest in peace"
    } else if k == 1 {
        "R.I.P."
    } else if k == 2 {
        "Rest In Pieces"
    } else if k == 3 {
        "Note -- there are NO valid items in this grave"
    } else if k == 4 {
        "The Grave of the Unknown Hacker"
    } else if k == 5 {
        "We weren't sure who this was, but we buried him here anyway"
    } else if k == 6 {
        "Sparky -- he was a very good dog"
    } else if k == 7 {
        "Beware of Electric Third Rail"
    } else if k == 8 {
        "Made in Taiwan"
    } else if k == 9 {
        "Og friend. Og good dude. Og died. Og now food"
    } else if k == 10 {
        "Look out below!"
    } else {
        "Be careful, or this could happen to you!"
    }
}

/// A grave that was or was not dug.
#[derive(Debug, Clone)]
pub struct MakeGraveResult {
    pub epitaph: String,
    pub created: bool,
}

/// Digs a grave: only on a room square or an old grave without a trap. Its
/// epitaph is the one given, or one drawn at random.
pub fn make_grave_result(
    tile_is_room: bool,
    tile_is_grave: bool,
    has_trap: bool,
    custom_epitaph: Option<&str>,
    rng: &mut NetHackRng,
) -> (r: MakeGraveResult)
    ensures
        (!tile_is_room && !tile_is_grave) || has_trap ==> {
            &&& !r.created
            &&& r.epitaph@.len() == 0
            &&& final(rng)@ == old(rng)@
        },
        !((!tile_is_room && !tile_is_grave) || has_trap) ==> {
            &&& r.created
            &&& custom_epitaph.is_some() ==> r.epitaph@ == custom_epitaph.unwrap()@ && final(rng)@ == old(rng)@
            &&& custom_epitaph.is_none() ==> {
                &&& r.epitaph@ == headstone_text(rng_roll(old(rng)@, 12))
                &&& final(rng)@ == rng_next(old(rng)@)
            }
        },
{
    if (!tile_is_room && !tile_is_grave) || has_trap {
        return MakeGraveResult { epitaph: String::new(), created: false };
    }
    let epitaph = match custom_epitaph {
        Some(s) => s.to_string(),
        None => random_headstone_message(rng).to_string(),
    };
    MakeGraveResult { epitaph, created: true }
}

/// Whether `c` is a control character (general category Cc).
pub open spec fn is_control_char(c: char) -> bool {
    c <= '\u{1f}' || ('\u{7f}' <= c <= '\u{9f}')
}

/// Whether a character survives sanitizing: newlines and anything that is
/// not a control character.
pub open spec fn keeps_char(c: char) -> bool {
    !is_control_char(c) || c == '\n'
}

/// `t` without its control characters, newlines kept.
pub open spec fn sanitized(t: Seq<char>) -> Seq<char> {
    t.filter(|c: char| keeps_char(c))
}

/// An engraving's text without its control characters, newlines kept.
pub fn sanitize_engraving(text: &str) -> (r: String)
    ensures
        r@ == sanitized(text@),
{
    let v = str_chars(text);
    let ghost pred = |c: char| keeps_char(c);
    let mut out: Vec<char> = Vec::new();
    let mut i: usize = 0;
    while i < v.len()
        invariant
            i <= v@.len(),
            v@ == text@,
            pred == (|c: char| keeps_char(c)),
            out@ == v@.take(i as int).filter(pred),
        decreases v@.len() - i,
    {
        proof {
            assert(v@.take(i as int + 1).drop_last() =~= v@.take(i as int));
            reveal(Seq::filter);
        }
        let c = v[i];
        let control = c <= '\u{1f}' || ('\u{7f}' <= c && c <= '\u{9f}');
        if !control || c == '\n' {
            out.push(c);
        }
        i = i + 1;
    }
    assert(v@.take(i as int) =~= v@);
    string_from_chars(&out)
}

/// Sanitizing is idempotent: a sanitized text has no control characters
/// left but newlines, so sanitizing it again changes nothing.
pub proof fn sanitizing_twice_changes_nothing(t: Seq<char>)
    ensures
        sanitized(sanitized(t)) == sanitized(t),
    decreases t.len(),
{
    reveal(Seq::filter);
    if t.len() > 0 {
        let rest = t.drop_last();
        sanitizing_twice_changes_nothing(rest);
        let f = sanitized(rest);
        if keeps_char(t.last()) {
            assert(sanitized(t) == f.push(t.last()));
            assert(f.push(t.last()).drop_last() =~= f);
            assert(sanitized(f.push(t.last())) == sanitized(f).push(t.last()));
        } else {
            assert(sanitized(t) == f);
        }
    } else {
        assert(sanitized(t) =~= t);
    }
}

/// The spot that try `k` of relocating an engraving picks, from a stream
/// that started in state `s`: a column `2..cols - 1` and a row `0..rows`.
pub open spec fn reloc_try(s: u64, cols: int, rows: int, k: nat) -> (i32, i32) {
    ((rng_roll(rng_after(s, 2 * k), cols - 3) + 2) as i32, rng_roll(rng_after(s, 2 * k + 1), rows) as i32)
}

/// A random free spot for an engraving: up to 200 tries, each a column in
/// `2..cols - 1` and a row in `0..rows`, taking the first that
/// `is_occupied` says is free; none if all are taken.
pub fn rloc_engr_coords<F: Fn(i32, i32) -> bool>(
    cols: i32,
    rows: i32,
    rng: &mut NetHackRng,
    is_occupied: &F,
) -> (r: Option<(i32, i32)>)
    requires
        cols > 3,
        rows > 0,
        forall|x: i32, y: i32| is_occupied.requires((x, y)),
    ensures
        ({
            let s0 = old(rng)@;
            match r {
                None => {
                    &&& final(rng)@ == rng_after(s0, 400)
                    &&& forall|k: nat| k < 200 ==> is_occupied.ensures(#[trigger] reloc_try(s0, cols as int, rows as int, k), true)
                },
                Some(p) => exists|n: nat| {
                    &&& n < 200
                    &&& p == #[trigger] reloc_try(s0, cols as int, rows as int, n)
                    &&& is_occupied.ensures(p, false)
                    &&& final(rng)@ == rng_after(s0, 2 * n + 2)
                    &&& forall|k: nat| k < n ==> is_occupied.ensures(#[trigger] reloc_try(s0, cols as int, rows as int, k), true)
                },
            }
        }),
{
    let ghost s0 = rng@;
    let mut tryct: i32 = 200;
    loop
        invariant
            0 <= tryct <= 200,
            s0 == old(rng)@,
            cols > 3,
            rows > 0,
            forall|x: i32, y: i32| is_occupied.requires((x, y)),
            rng@ == rng_after(s0, (2 * (200 - tryct)) as nat),
            forall|k: nat| k < 200 - tryct ==> is_occupied.ensures(#[trigger] reloc_try(s0, cols as int, rows as int, k), true),
        decreases tryct,
    {
        if tryct <= 0 {
            return None;
        }
        let ghost n: nat = (200 - tryct) as nat;
        tryct = tryct - 1;
        let tx = rng.rn1(cols - 3, 2);
        let ty = rng.rn2(rows);
        assert(rng_after(s0, 2 * n + 1) == rng_next(rng_after(s0, 2 * n)));
        assert(rng_after(s0, 2 * n + 2) == rng_next(rng_after(s0, 2 * n + 1)));
        assert((tx, ty) == reloc_try(s0, cols as int, rows as int, n));
        if !is_occupied(tx, ty) {
            return Some((tx, ty));
        }
    }
}

/// The text hidden in scrambled bytes `b` from position `i` on: each byte
/// xored with its position plus one, up to the first zero byte.
pub open spec fn unscramble(b: Seq<u8>, i: int) -> Seq<char>
    decreases b.len() - i,
{
    if i < 0 || i >= b.len() || b[i] == 0 {
        Seq::empty()
    } else {
        seq![(b[i] ^ ((i + 1) as u8)) as char] + unscramble(b, i + 1)
    }
}
/// The scrambled bytes of blind writing number `k`, for `k` in `0..9`.
pub open spec fn blind_row(k: int) -> Seq<u8> {
    if k == 0 {
        seq![0x44u8, 0x66u8, 0x6du8, 0x69u8, 0x62u8, 0x65u8, 0x22u8, 0x45u8, 0x7bu8, 0x71u8, 0x65u8, 0x6du8, 0x72u8, 0x00u8, 0x00u8, 0x00u8, 0x00u8, 0x00u8, 0x00u8, 0x00u8, 0x00u8]
    } else if k == 1 {
        seq![0x51u8, 0x67u8, 0x60u8, 0x7au8, 0x7fu8, 0x21u8, 0x40u8, 0x71u8, 0x6bu8, 0x71u8, 0x6fu8, 0x67u8, 0x63u8, 0x00u8, 0x00u8, 0x00u8, 0x00u8, 0x00u8, 0x00u8, 0x00u8, 0x00u8]
    } else if k == 2 {
        seq![0x49u8, 0x6du8, 0x73u8, 0x69u8, 0x62u8, 0x65u8, 0x22u8, 0x4cu8, 0x61u8, 0x7cu8, 0x6du8, 0x67u8, 0x24u8, 0x42u8, 0x7fu8, 0x69u8, 0x6cu8, 0x77u8, 0x67u8, 0x7eu8, 0x00u8]
    } else if k == 3 {
        seq![0x4bu8, 0x6du8, 0x6cu8, 0x66u8, 0x30u8, 0x4cu8, 0x6bu8, 0x68u8, 0x7cu8, 0x7fu8, 0x6fu8, 0x00u8, 0x00u8, 0x00u8, 0x00u8, 0x00u8, 0x00u8, 0x00u8, 0x00u8, 0x00u8, 0x00u8]
    } else if k == 4 {
        seq![0x51u8, 0x67u8, 0x70u8, 0x7au8, 0x7fu8, 0x6fu8, 0x67u8, 0x68u8, 0x64u8, 0x71u8, 0x21u8, 0x4fu8, 0x6bu8, 0x6du8, 0x7eu8, 0x72u8, 0x00u8, 0x00u8, 0x00u8, 0x00u8, 0x00u8]
    } else if k == 5 {
        seq![0x4cu8, 0x63u8, 0x76u8, 0x61u8, 0x71u8, 0x21u8, 0x48u8, 0x6bu8, 0x7bu8, 0x75u8, 0x67u8, 0x63u8, 0x24u8, 0x45u8, 0x65u8, 0x6bu8, 0x6bu8, 0x65u8, 0x00u8, 0x00u8, 0x00u8]
    } else if k == 6 {
        seq![0x4cu8, 0x67u8, 0x68u8, 0x6bu8, 0x78u8, 0x68u8, 0x6du8, 0x76u8, 0x7au8, 0x75u8, 0x21u8, 0x4fu8, 0x71u8, 0x7au8, 0x75u8, 0x6fu8, 0x77u8, 0x00u8, 0x00u8, 0x00u8, 0x00u8]
    } else if k == 7 {
        seq![0x44u8, 0x66u8, 0x6du8, 0x7cu8, 0x78u8, 0x21u8, 0x50u8, 0x65u8, 0x66u8, 0x65u8, 0x6cu8, 0x00u8, 0x00u8, 0x00u8, 0x00u8, 0x00u8, 0x00u8, 0x00u8, 0x00u8, 0x00u8, 0x00u8]
    } else {
        seq![0x44u8, 0x66u8, 0x73u8, 0x69u8, 0x62u8, 0x65u8, 0x22u8, 0x56u8, 0x7du8, 0x63u8, 0x69u8, 0x76u8, 0x6bu8, 0x66u8, 0x00u8, 0x00u8, 0x00u8, 0x00u8, 0x00u8, 0x00u8, 0x00u8]
    }
}

fn blind_row_bytes(k: i32) -> (v: Vec<u8>)
    requires
        0 <= k < 9,
    ensures
        v@ == blind_row(k as int),
{
    if k == 0 {
        vec![0x44u8, 0x66u8, 0x6du8, 0x69u8, 0x62u8, 0x65u8, 0x22u8, 0x45u8, 0x7bu8, 0x71u8, 0x65u8, 0x6du8, 0x72u8, 0x00u8, 0x00u8, 0x00u8, 0x00u8, 0x00u8, 0x00u8, 0x00u8, 0x00u8]
    } else if k == 1 {
        vec![0x51u8, 0x67u8, 0x60u8, 0x7au8, 0x7fu8, 0x21u8, 0x40u8, 0x71u8, 0x6bu8, 0x71u8, 0x6fu8, 0x67u8, 0x63u8, 0x00u8, 0x00u8, 0x00u8, 0x00u8, 0x00u8, 0x00u8, 0x00u8, 0x00u8]
    } else if k == 2 {
        vec![0x49u8, 0x6du8, 0x73u8, 0x69u8, 0x62u8, 0x65u8, 0x22u8, 0x4cu8, 0x61u8, 0x7cu8, 0x6du8, 0x67u8, 0x24u8, 0x42u8, 0x7fu8, 0x69u8, 0x6cu8, 0x77u8, 0x67u8, 0x7eu8, 0x00u8]
    } else if k == 3 {
        vec![0x4bu8, 0x6du8, 0x6cu8, 0x66u8, 0x30u8, 0x4cu8, 0x6bu8, 0x68u8, 0x7cu8, 0x7fu8, 0x6fu8, 0x00u8, 0x00u8, 0x00u8, 0x00u8, 0x00u8, 0x00u8, 0x00u8, 0x00u8, 0x00u8, 0x00u8]
    } else if k == 4 {
        vec![0x51u8, 0x67u8, 0x70u8, 0x7au8, 0x7fu8, 0x6fu8, 0x67u8, 0x68u8, 0x64u8, 0x71u8, 0x21u8, 0x4fu8, 0x6bu8, 0x6du8, 0x7eu8, 0x72u8, 0x00u8, 0x00u8, 0x00u8, 0x00u8, 0x00u8]
    } else if k == 5 {
        vec![0x4cu8, 0x63u8, 0x76u8, 0x61u8, 0x71u8, 0x21u8, 0x48u8, 0x6bu8, 0x7bu8, 0x75u8, 0x67u8, 0x63u8, 0x24u8, 0x45u8, 0x65u8, 0x6bu8, 0x6bu8, 0x65u8, 0x00u8, 0x00u8, 0x00u8]
    } else if k == 6 {
        vec![0x4cu8, 0x67u8, 0x68u8, 0x6bu8, 0x78u8, 0x68u8, 0x6du8, 0x76u8, 0x7au8, 0x75u8, 0x21u8, 0x4fu8, 0x71u8, 0x7au8, 0x75u8, 0x6fu8, 0x77u8, 0x00u8, 0x00u8, 0x00u8, 0x00u8]
    } else if k == 7 {
        vec![0x44u8, 0x66u8, 0x6du8, 0x7cu8, 0x78u8, 0x21u8, 0x50u8, 0x65u8, 0x66u8, 0x65u8, 0x6cu8, 0x00u8, 0x00u8, 0x00u8, 0x00u8, 0x00u8, 0x00u8, 0x00u8, 0x00u8, 0x00u8, 0x00u8]
    } else {
        vec![0x44u8, 0x66u8, 0x73u8, 0x69u8, 0x62u8, 0x65u8, 0x22u8, 0x56u8, 0x7du8, 0x63u8, 0x69u8, 0x76u8, 0x6bu8, 0x66u8, 0x00u8, 0x00u8, 0x00u8, 0x00u8, 0x00u8, 0x00u8, 0x00u8]
    }
}

/// Writes blind: one of nine scrambled texts, drawn at random, unscrambled.
pub fn blind_engraving(rng: &mut NetHackRng) -> (r: String)
    ensures
        r@ == unscramble(blind_row(rng_roll(old(rng)@, 9)), 0),
        final(rng)@ == rng_next(old(rng)@),
{
    let idx = rng.rn2(9);
    let encoded = blind_row_bytes(idx);
    let mut out: Vec<char> = Vec::new();
    let mut i: usize = 0;
    while i < encoded.len() && encoded[i] != 0
        invariant
            i <= encoded@.len(),
            encoded@.len() == 21,
            out@ + unscramble(encoded@, i as int) == unscramble(encoded@, 0),
        decreases encoded@.len() - i,
    {
        let byte = encoded[i];
        let decoded: u8 = byte ^ ((i as u8) + 1);
        assert(unscramble(encoded@, i as int) == seq![decoded as char] + unscramble(encoded@, i + 1));
        out.push(decoded as char);
        assert(out@ + unscramble(encoded@, i + 1) =~= unscramble(encoded@, 0));
        i = i + 1;
    }
    assert(unscramble(encoded@, i as int) =~= Seq::<char>::empty());
    assert(out@ =~= unscramble(encoded@, 0));
    string_from_chars(&out)
}

/// The hardness of a gem whose name, in lowercase, is `l`, by the first of
/// diamond (10), ruby or sapphire (9), topaz, emerald or aquamarine (8),
/// garnet, agate, amethyst, jasper or onyx (7), moonstone, jade, turquoise
/// or opal (6), glass (5), fluorite or dilithium (4) that it mentions, else 3.
pub open spec fn hardness_of(l: Seq<char>) -> i32 {
    if has_sub(l, "diamond"@) {
        10
    } else if has_sub(l, "ruby"@) || has_sub(l, "sapphire"@) {
        9
    } else if has_sub(l, "topaz"@) {
        8
    } else if has_sub(l, "emerald"@) || has_sub(l, "aquamarine"@) {
        8
    } else if has_sub(l, "garnet"@) {
        7
    } else if has_sub(l, "agate"@) || has_sub(l, "amethyst"@) || has_sub(l, "jasper"@) || has_sub(l, "onyx"@) {
        7
    } else if has_sub(l, "moonstone"@) || has_sub(l, "jade"@) || has_sub(l, "turquoise"@) || has_sub(l, "opal"@) {
        6
    } else if has_sub(l, "glass"@) {
        5
    } else if has_sub(l, "fluorite"@) || has_sub(l, "dilithium"@) {
        4
    } else {
        3
    }
}

/// The hardness of a gem, from its name in lowercase.
pub fn hardness_from_lowercase(l: &str) -> (r: i32)
    ensures
        r == hardness_of(l@),
{
    if str_contains(l, "diamond") {
        10
    } else if str_contains(l, "ruby") || str_contains(l, "sapphire") {
        9
    } else if str_contains(l, "topaz") {
        8
    } else if str_contains(l, "emerald") || str_contains(l, "aquamarine") {
        8
    } else if str_contains(l, "garnet") {
        7
    } else if str_contains(l, "agate") || str_contains(l, "amethyst") || str_contains(l, "jasper")
        || str_contains(l, "onyx") {
        7
    } else if str_contains(l, "moonstone") || str_contains(l, "jade") || str_contains(l, "turquoise")
        || str_contains(l, "opal") {
        6
    } else if str_contains(l, "glass") {
        5
    } else if str_contains(l, "fluorite") || str_contains(l, "dilithium") {
        4
    } else {
        3
    }
}

/// The hardness of a gem, from its name in any case.
pub fn gem_hardness(gem_name: &str) -> (r: i32)
    ensures
        r == hardness_of(lowercase(gem_name@)),
{
    let lower = str_to_lowercase(gem_name);
    hardness_from_lowercase(lower.as_str())
}

/// Whether a gem is hard enough (8 or more) to engrave with.
pub fn can_engrave_with_gem(gem_name: &str) -> (r: bool)
    ensures
        r == (hardness_of(lowercase(gem_name@)) >= 8),
{
    gem_hardness(gem_name) >= 8
}

/// Why an object cannot engrave.
#[derive(Debug, Clone, PartialEq, Eq, Structural)]
pub enum EngraveRejectReason {
    TooLarge,
    TooSilly,
    BootsOnly,
    NoneSelected,
}

/// How an object whose class, in lowercase, is `l` engraves: rings and
/// gems scratch if hard and write in the dust if not; boots write in the
/// dust and other armor is too large; balls and rocks are too large; food,
/// scrolls and spellbooks are silly; weapons and tools scratch; anything
/// else writes in the dust.
pub open spec fn engrave_tool_of(l: Seq<char>, is_boots: bool, is_gem_hard: bool) -> Result<EngraveType, EngraveRejectReason> {
    if has_sub(l, "ring"@) || has_sub(l, "gem"@) {
        if is_gem_hard { Ok(EngraveType::Scratched) } else { Ok(EngraveType::Dust) }
    } else if has_sub(l, "armor"@) {
        if is_boots { Ok(EngraveType::Dust) } else { Err(EngraveRejectReason::TooLarge) }
    } else if has_sub(l, "ball"@) || has_sub(l, "rock"@) {
        Err(EngraveRejectReason::TooLarge)
    } else if has_sub(l, "food"@) || has_sub(l, "scroll"@) || has_sub(l, "spbook"@) {
        Err(EngraveRejectReason::TooSilly)
    } else if has_sub(l, "weapon"@) || has_sub(l, "tool"@) {
        Ok(EngraveType::Scratched)
    } else {
        Ok(EngraveType::Dust)
    }
}

/// How an object of a class named in lowercase engraves, or why it cannot.
pub fn engrave_tool_from_lowercase(cls: &str, is_boots: bool, is_gem_hard: bool) -> (r: Result<EngraveType, EngraveRejectReason>)
    ensures
        r == engrave_tool_of(cls@, is_boots, is_gem_hard),
{
    if str_contains(cls, "ring") || str_contains(cls, "gem") {
        return if is_gem_hard { Ok(EngraveType::Scratched) } else { Ok(EngraveType::Dust) };
    }
    if str_contains(cls, "armor") {
        return if is_boots { Ok(EngraveType::Dust) } else { Err(EngraveRejectReason::TooLarge) };
    }
    if str_contains(cls, "ball") || str_contains(cls, "rock") {
        return Err(EngraveRejectReason::TooLarge);
    }
    if str_contains(cls, "food") || str_contains(cls, "scroll") || str_contains(cls, "spbook") {
        return Err(EngraveRejectReason::TooSilly);
    }
    if str_contains(cls, "weapon") || str_contains(cls, "tool") {
        return Ok(EngraveType::Scratched);
    }
    Ok(EngraveType::Dust)
}

/// How an object of a class (named in any case) engraves, or why it cannot.
pub fn check_engrave_tool(
    item_class: &str,
    is_boots: bool,
    is_gem_hard: bool,
) -> (r: Result<EngraveType, EngraveRejectReason>)
    ensures
        r == engrave_tool_of(lowercase(item_class@), is_boots, is_gem_hard),
{
    let lower = str_to_lowercase(item_class);
    engrave_tool_from_lowercase(lower.as_str(), is_boots, is_gem_hard)
}

} // verus!
