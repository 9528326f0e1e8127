//! Text utilities shared by the two games: trimming, decimal parsing and
//! decimal formatting, each specified over sequences of characters.

use vstd::prelude::*;
use vstd::string::StringExecFns;
use vstd::string::StrSliceExecFns;

verus! {

/// The characters trimmed from an input line: the Unicode `White_Space`
/// code points.
pub open spec fn is_space_char(c: char) -> bool {
    let u = c as u32;
    (9 <= u && u <= 13) || u == 32 || u == 0x85 || u == 0xa0 || u == 0x1680 || (0x2000 <= u && u
        <= 0x200a) || u == 0x2028 || u == 0x2029 || u == 0x202f || u == 0x205f || u == 0x3000
}

/// A decimal digit character.
pub open spec fn is_digit_char(c: char) -> bool {
    48 <= c as u32 && c as u32 <= 57
}

/// The numeric value of a decimal digit character (0 for any other character).
pub open spec fn digit_val(c: char) -> nat {
    if is_digit_char(c) {
        (c as u32 - 48) as nat
    } else {
        0
    }
}

/// The decimal digit character of a value below ten.
pub open spec fn spec_digit_char(d: nat) -> char {
    if d == 0 {
        '0'
    } else if d == 1 {
        '1'
    } else if d == 2 {
        '2'
    } else if d == 3 {
        '3'
    } else if d == 4 {
        '4'
    } else if d == 5 {
        '5'
    } else if d == 6 {
        '6'
    } else if d == 7 {
        '7'
    } else if d == 8 {
        '8'
    } else {
        '9'
    }
}

/// The decimal numeral of `n`, most significant digit first, without leading
/// zeros (a single `'0'` for zero).
pub open spec fn spec_dec(n: nat) -> Seq<char>
    decreases n,
{
    if n < 10 {
        seq![spec_digit_char(n)]
    } else {
        spec_dec(n / 10) + seq![spec_digit_char(n % 10)]
    }
}

/// The sequence with its leading whitespace removed.
pub open spec fn trim_start(s: Seq<char>) -> Seq<char>
    decreases s.len(),
{
    if s.len() > 0 && is_space_char(s[0]) {
        trim_start(s.drop_first())
    } else {
        s
    }
}

/// The sequence with its trailing whitespace removed.
pub open spec fn trim_end(s: Seq<char>) -> Seq<char>
    decreases s.len(),
{
    if s.len() > 0 && is_space_char(s.last()) {
        trim_end(s.drop_last())
    } else {
        s
    }
}

/// The sequence with whitespace removed from both ends.
pub open spec fn spec_trim(s: Seq<char>) -> Seq<char> {
    trim_end(trim_start(s))
}

/// Whether every character of `s` is a decimal digit.
pub open spec fn all_digits(s: Seq<char>) -> bool {
    forall|i: int| 0 <= i < s.len() ==> is_digit_char(s[i])
}

/// The value of a sequence of decimal digits, most significant first.
pub open spec fn digits_val(s: Seq<char>) -> nat
    decreases s.len(),
{
    if s.len() == 0 {
        0
    } else {
        digits_val(s.drop_last()) * 10 + digit_val(s.last())
    }
}

/// The number denoted by a non-empty, all-digit sequence, if it fits in
/// a `u32`.
pub open spec fn parse_digits(d: Seq<char>) -> Option<u32> {
    if d.len() > 0 && all_digits(d) && digits_val(d) <= u32::MAX {
        Some(digits_val(d) as u32)
    } else {
        None
    }
}

/// The non-negative integer denoted by `s` after trimming whitespace:
/// an optional leading `'+'`, then one or more decimal digits whose value
/// fits in a `u32`; anything else parses to `None`.
pub open spec fn spec_parse_u32(s: Seq<char>) -> Option<u32> {
    let t = spec_trim(s);
    if t.len() > 0 && t[0] == '+' {
        parse_digits(t.drop_first())
    } else {
        parse_digits(t)
    }
}

/// Extending an all-digit prefix by one digit multiplies its value by ten
/// and adds the new digit.
proof fn lemma_digits_val_take_step(s: Seq<char>, m: int)
    requires
        0 <= m < s.len(),
    ensures
        digits_val(s.take(m + 1)) == digits_val(s.take(m)) * 10 + digit_val(s[m]),
{
    assert(s.take(m + 1).drop_last() =~= s.take(m));
    assert(s.take(m + 1).last() == s[m]);
}

/// The value of a prefix never exceeds the value of the whole sequence.
proof fn lemma_digits_val_take_bound(s: Seq<char>, m: int)
    requires
        0 <= m <= s.len(),
    ensures
        digits_val(s.take(m)) <= digits_val(s),
    decreases s.len() - m,
{
    if m < s.len() {
        lemma_digits_val_take_step(s, m);
        assert(digits_val(s.take(m)) * 10 >= digits_val(s.take(m))) by (nonlinear_arith);
        lemma_digits_val_take_bound(s, m + 1);
    } else {
        assert(s.take(m) =~= s);
    }
}

/// Whether `c` is a whitespace character.
pub fn is_space(c: char) -> (r: bool)
    ensures
        r == is_space_char(c),
{
    let u = c as u32;
    (9 <= u && u <= 13) || u == 32 || u == 0x85 || u == 0xa0 || u == 0x1680 || (0x2000 <= u && u
        <= 0x200a) || u == 0x2028 || u == 0x2029 || u == 0x202f || u == 0x205f || u == 0x3000
}

/// Parses `s`, trimmed of surrounding whitespace, as a non-negative integer.
pub fn parse_u32(s: &str) -> (r: Option<u32>)
    ensures
        r == spec_parse_u32(s@),
{
    let n = s.unicode_len();
    proof {
        assert(s@.skip(0) =~= s@);
    }
    let mut i: usize = 0;
    while i < n && is_space(s.get_char(i))
        invariant
            i <= n,
            n == s@.len(),
            trim_start(s@) == trim_start(s@.skip(i as int)),
        decreases n - i,
    {
        proof {
            assert(s@.skip(i as int).drop_first() =~= s@.skip(i as int + 1));
        }
        i = i + 1;
    }
    proof {
        assert(trim_start(s@.skip(i as int)) == s@.skip(i as int));
        assert(s@.skip(i as int) =~= s@.subrange(i as int, n as int));
    }
    let mut j: usize = n;
    while j > i && is_space(s.get_char(j - 1))
        invariant
            i <= j <= n,
            n == s@.len(),
            trim_start(s@) == s@.subrange(i as int, n as int),
            trim_end(s@.subrange(i as int, n as int)) == trim_end(
                s@.subrange(i as int, j as int),
            ),
        decreases j,
    {
        proof {
            assert(s@.subrange(i as int, j as int).drop_last() =~= s@.subrange(
                i as int,
                j as int - 1,
            ));
            assert(s@.subrange(i as int, j as int).last() == s@[j as int - 1]);
        }
        j = j - 1;
    }
    let ghost t = s@.subrange(i as int, j as int);
    proof {
        assert(spec_trim(s@) == t);
    }
    let mut k: usize = i;
    if k < j && s.get_char(k) == '+' {
        k = k + 1;
    }
    let ghost d = s@.subrange(k as int, j as int);
    proof {
        if k > i {
            assert(t.drop_first() =~= d);
        }
        assert(spec_parse_u32(s@) == parse_digits(d));
    }
    if k == j {
        return None;
    }
    let mut acc: u64 = 0;
    let mut idx: usize = k;
    while idx < j
        invariant
            k <= idx <= j <= n,
            n == s@.len(),
            j > k,
            d == s@.subrange(k as int, j as int),
            spec_parse_u32(s@) == parse_digits(d),
            all_digits(d.take(idx - k)),
            acc == digits_val(d.take(idx - k)),
            acc <= u32::MAX,
        decreases j - idx,
    {
        let c = s.get_char(idx);
        proof {
            assert(d[idx - k] == s@[idx as int]);
        }
        let u = c as u32;
        if !(48 <= u && u <= 57) {
            proof {
                assert(!is_digit_char(d[idx - k]));
            }
            return None;
        }
        let dv = (u - 48) as u64;
        let next = acc * 10 + dv;
        proof {
            lemma_digits_val_take_step(d, idx - k);
            assert(digits_val(d.take(idx - k + 1)) == acc * 10 + digit_val(d[idx - k]));
        }
        if next > u32::MAX as u64 {
            proof {
                lemma_digits_val_take_bound(d, idx - k + 1);
                assert(digits_val(d) > u32::MAX);
            }
            return None;
        }
        acc = next;
        proof {
            assert(forall|q: int|
                0 <= q < idx - k + 1 ==> is_digit_char(#[trigger] d.take(idx - k + 1)[q]));
        }
        idx = idx + 1;
    }
    proof {
        assert(d.take(j - k) =~= d);
    }
    Some(acc as u32)
}

/// Whether `c` lower-cases to the letter `lower`: it is that letter, its
/// ASCII upper-case form, or the Kelvin sign, whose lower case is `k`.
pub open spec fn char_matches_ci(c: char, lower: char) -> bool {
    c == lower || (65 <= c as u32 && c as u32 <= 90 && c as u32 + 32 == lower as u32) || (
    c as u32 == 0x212a && lower == 'k')
}

/// Whether `s` spells `word` (a lower-case word) once lower-cased.
pub open spec fn text_matches_ci(s: Seq<char>, word: Seq<char>) -> bool {
    s.len() == word.len() && (forall|i: int| 0 <= i < s.len() ==> char_matches_ci(s[i], word[i]))
}

/// Compares `s`, lower-cased, against the lower-case word `word`.
pub fn matches_ci(s: &str, word: &str) -> (r: bool)
    ensures
        r == text_matches_ci(s@, word@),
{
    let n = s.unicode_len();
    if n != word.unicode_len() {
        return false;
    }
    let mut i: usize = 0;
    while i < n
        invariant
            i <= n,
            n == s@.len(),
            n == word@.len(),
            forall|q: int| 0 <= q < i ==> char_matches_ci(s@[q], word@[q]),
        decreases n - i,
    {
        let c = s.get_char(i);
        let w = word.get_char(i);
        let cu = c as u32;
        let wu = w as u32;
        if !(c == w || (65 <= cu && cu <= 90 && cu + 32 == wu) || (cu == 0x212a && w == 'k')) {
            return false;
        }
        i = i + 1;
    }
    true
}

/// The line with exactly one trailing line feed removed, if it ends in one.
pub open spec fn spec_chomp(s: Seq<char>) -> Seq<char> {
    if s.len() > 0 && s.last() == '\n' {
        s.drop_last()
    } else {
        s
    }
}

/// Strips exactly one trailing line feed from a line of input.
pub fn chomp(s: &str) -> (r: String)
    ensures
        r@ == spec_chomp(s@),
{
    let n = s.unicode_len();
    if n > 0 && s.get_char(n - 1) == '\n' {
        let t = s.substring_char(0, n - 1);
        proof {
            assert(s@.subrange(0, n as int - 1) =~= s@.drop_last());
        }
        String::from_str(t)
    } else {
        String::from_str(s)
    }
}

/// The one-character string of a single decimal digit.
fn digit_str(d: u64) -> (r: &'static str)
    requires
        d < 10,
    ensures
        r@ == seq![spec_digit_char(d as nat)],
{
    let r: &'static str = match d {
        0 => "0",
        1 => "1",
        2 => "2",
        3 => "3",
        4 => "4",
        5 => "5",
        6 => "6",
        7 => "7",
        8 => "8",
        _ => "9",
    };
    proof {
        reveal_strlit("0");
        reveal_strlit("1");
        reveal_strlit("2");
        reveal_strlit("3");
        reveal_strlit("4");
        reveal_strlit("5");
        reveal_strlit("6");
        reveal_strlit("7");
        reveal_strlit("8");
        reveal_strlit("9");
        assert(r@ =~= seq![spec_digit_char(d as nat)]);
    }
    r
}

/// Formats `n` as its decimal numeral.
pub fn dec_string(n: u64) -> (r: String)
    ensures
        r@ == spec_dec(n as nat),
    decreases n,
{
    if n < 10 {
        String::from_str(digit_str(n))
    } else {
        let mut s = dec_string(n / 10);
        s.append(digit_str(n % 10));
        s
    }
}

} // verus!
