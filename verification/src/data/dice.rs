//! Reading decimal numbers and `NdM` dice strings.
use vstd::prelude::*;
use crate::text::{str_chars, dec_digits, digit_char};

verus! {

/// Whether every character of `s` is an ASCII digit.
pub open spec fn all_digits(s: Seq<char>) -> bool {
    forall|i: int| 0 <= i < s.len() ==> '0' <= #[trigger] s[i] <= '9'
}

/// The value of a string of ASCII digits.
pub open spec fn digits_val(s: Seq<char>) -> int
    decreases s.len(),
{
    if s.len() == 0 {
        0
    } else {
        digits_val(s.drop_last()) * 10 + (s.last() as int - '0' as int)
    }
}

/// The value of a decimal integer as Rust reads it: an optional `+` or `-`
/// and at least one digit; `None` for anything else or a value outside
/// `i16`.
pub open spec fn i16_value(s: Seq<char>) -> Option<int> {
    let neg = s.len() > 0 && s[0] == '-';
    let body = if s.len() > 0 && (s[0] == '+' || s[0] == '-') { s.drop_first() } else { s };
    if body.len() > 0 && all_digits(body) {
        let v = if neg { -digits_val(body) } else { digits_val(body) };
        if i16::MIN <= v <= i16::MAX { Some(v) } else { None }
    } else {
        None
    }
}

/// The index of the first `d` in `s`, if any.
pub open spec fn first_d(s: Seq<char>) -> Option<int> {
    if exists|i: int| 0 <= i < s.len() && s[i] == 'd' {
        Some(choose|i: int| 0 <= i < s.len() && s[i] == 'd' && forall|j: int| 0 <= j < i ==> s[j] != 'd')
    } else {
        None
    }
}

/// The two numbers of `NdM`: the text is split at its first `d` and both
/// sides must read as `i16`.
pub open spec fn dice_parts(s: Seq<char>) -> Option<(int, int)> {
    match first_d(s) {
        Some(k) => match (i16_value(s.take(k)), i16_value(s.skip(k + 1))) {
            (Some(a), Some(b)) => Some((a, b)),
            _ => None,
        },
        None => None,
    }
}

proof fn lemma_digits_val_nonneg(s: Seq<char>)
    requires
        all_digits(s),
    ensures
        digits_val(s) >= 0,
    decreases s.len(),
{
    if s.len() > 0 {
        lemma_digits_val_nonneg(s.drop_last());
    }
}

/// Adding digits never lowers the value.
proof fn lemma_digits_val_grows(s: Seq<char>, k: int)
    requires
        all_digits(s),
        0 <= k <= s.len(),
    ensures
        digits_val(s.take(k)) <= digits_val(s),
    decreases s.len() - k,
{
    if k < s.len() {
        lemma_digits_val_grows(s, k + 1);
        assert(s.take(k + 1).drop_last() == s.take(k));
        lemma_digits_val_nonneg(s.take(k));
    } else {
        assert(s.take(k) == s);
    }
}

/// Reads `s[from..]` as an `i16` the way `str::parse::<i16>` does.
fn parse_i16_from(s: &Vec<char>, from: usize) -> (r: Option<i16>)
    requires
        from <= s@.len(),
    ensures
        match i16_value(s@.skip(from as int)) {
            Some(v) => r == Some(v as i16),
            None => r is None,
        },
{
    let ghost t = s@.skip(from as int);
    let n = s.len();
    if from >= n {
        return None;
    }
    let mut i = from;
    let neg = s[from] == '-';
    if s[from] == '+' || s[from] == '-' {
        i = i + 1;
    }
    let start = i;
    let ghost body = s@.skip(start as int);
    proof {
        assert(body == (if t.len() > 0 && (t[0] == '+' || t[0] == '-') { t.drop_first() } else { t }));
    }
    if start >= n {
        return None;
    }
    let mut acc: i32 = 0;
    while i < n
        invariant
            start <= i <= n,
            n == s@.len(),
            start < n,
            body == s@.skip(start as int),
            t == s@.skip(from as int),
            body == (if t.len() > 0 && (t[0] == '+' || t[0] == '-') { t.drop_first() } else { t }),
            neg == (t.len() > 0 && t[0] == '-'),
            all_digits(body.take(i - start)),
            acc == digits_val(body.take(i - start)),
            0 <= acc <= 32768,
        decreases n - i,
    {
        let c = s[i];
        if !('0' <= c && c <= '9') {
            proof {
                assert(body[i - start] == c);
            }
            return None;
        }
        let d = (c as u32 - '0' as u32) as i32;
        proof {
            assert(body.take(i - start + 1).drop_last() == body.take(i - start));
            assert(body.take(i - start + 1).last() == c);
        }
        if acc > 3276 || acc * 10 + d > 32768 {
            proof {
                assert(all_digits(body.take(i - start + 1)));
                assert(digits_val(body.take(i - start + 1)) > 32768);
                if all_digits(body) {
                    lemma_digits_val_grows(body, i - start + 1);
                    assert(body.take(i - start + 1) == body.take(i - start + 1));
                }
            }
            return None;
        }
        acc = acc * 10 + d;
        i = i + 1;
    }
    proof {
        assert(body.take(n - start) == body);
    }
    if neg {
        Some((0 - acc) as i16)
    } else if acc > 32767 {
        None
    } else {
        Some(acc as i16)
    }
}

/// The two numbers of an `NdM` dice string, or `None` when it has no `d`
/// or either side is not an `i16`.
pub fn parse_dice(value: &str) -> (r: Option<(i16, i16)>)
    ensures
        match dice_parts(value@) {
            Some((a, b)) => r == Some((a as i16, b as i16)),
            None => r is None,
        },
{
    let s = str_chars(value);
    let n = s.len();
    let mut k: usize = 0;
    while k < n && s[k] != 'd'
        invariant
            k <= n,
            n == s@.len(),
            s@ == value@,
            forall|j: int| 0 <= j < k ==> s@[j] != 'd',
        decreases n - k,
    {
        k = k + 1;
    }
    if k == n {
        return None;
    }
    proof {
        assert(s@[k as int] == 'd');
        let c = choose|i: int| 0 <= i < s@.len() && s@[i] == 'd' && forall|j: int| 0 <= j < i ==> s@[j] != 'd';
        assert(c == k);
    }
    let mut left: Vec<char> = Vec::new();
    let mut i: usize = 0;
    while i < k
        invariant
            i <= k,
            k < n,
            n == s@.len(),
            left@ == s@.take(i as int),
        decreases k - i,
    {
        left.push(s[i]);
        i = i + 1;
        proof {
            assert(left@ == s@.take(i as int));
        }
    }
    proof {
        assert(left@.skip(0) == s@.take(k as int));
        assert(s@.skip(k + 1) == s@.skip(k + 1));
    }
    let a = parse_i16_from(&left, 0);
    let b = parse_i16_from(&s, k + 1);
    match (a, b) {
        (Some(x), Some(y)) => Some((x, y)),
        _ => None,
    }
}

proof fn lemma_digit_char(d: int)
    requires
        0 <= d < 10,
    ensures
        '0' <= digit_char(d) <= '9',
        digit_char(d) as int - '0' as int == d,
{
}

/// The decimal digits of `n` read back as `n`.
proof fn lemma_digits_read_back(n: nat)
    ensures
        dec_digits(n).len() > 0,
        all_digits(dec_digits(n)),
        digits_val(dec_digits(n)) == n,
    decreases n,
{
    if n < 10 {
        lemma_digit_char(n as int);
        assert(dec_digits(n).drop_last() =~= Seq::<char>::empty());
        assert(digits_val(dec_digits(n)) == digits_val(Seq::<char>::empty()) * 10 + (digit_char(n as int) as int - '0' as int));
    } else {
        lemma_digits_read_back(n / 10);
        lemma_digit_char((n % 10) as int);
        let s = dec_digits(n);
        assert(s.drop_last() == dec_digits(n / 10));
        assert(s.last() == digit_char((n % 10) as int));
        assert(digits_val(s) == digits_val(dec_digits(n / 10)) * 10 + (s.last() as int - '0' as int));
        assert((n / 10) * 10 + n % 10 == n);
        assert forall|i: int| 0 <= i < s.len() implies '0' <= #[trigger] s[i] <= '9' by {
            if i < s.len() - 1 {
                assert(s[i] == dec_digits(n / 10)[i]);
            }
        }
    }
}

/// A dice string written as the decimal digits of `dice`, a `d` and the
/// decimal digits of `sides` reads back as those two numbers.
pub proof fn written_dice_read_back(dice: int, sides: int)
    requires
        0 <= dice <= i16::MAX,
        0 <= sides <= i16::MAX,
    ensures
        dice_parts(dec_digits(dice as nat) + seq!['d'] + dec_digits(sides as nat)) == Some((dice, sides)),
{
    let a = dec_digits(dice as nat);
    let b = dec_digits(sides as nat);
    let s = a + seq!['d'] + b;
    lemma_digits_read_back(dice as nat);
    lemma_digits_read_back(sides as nat);
    let k = a.len() as int;
    assert(s[k] == 'd');
    assert forall|j: int| 0 <= j < k implies s[j] != 'd' by {
        assert(s[j] == a[j]);
    }
    let c = choose|i: int| 0 <= i < s.len() && s[i] == 'd' && forall|j: int| 0 <= j < i ==> s[j] != 'd';
    if c < k {
        assert(s[c] == a[c]);
    }
    assert(first_d(s) == Some(k));
    assert(s.take(k) =~= a);
    assert(s.skip(k + 1) =~= b);
    assert(a[0] != '+' && a[0] != '-');
    assert(b[0] != '+' && b[0] != '-');
}

} // verus!
