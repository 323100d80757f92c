//! Verified decimal formatting and parsing.
//!
//! Connector payloads carry numeric identifiers as decimal text in one
//! direction and as integers in the other; both conversions are implemented
//! and proved here against one spec-level decimal representation.

use vstd::prelude::*;

verus! {

/// The decimal digit character for one digit value.
pub open spec fn spec_digit_char(d: nat) -> char
    recommends
        d < 10,
{
    if d == 0 {
        '0'
    } else if d == 1 {
        '1'
    } else if d == 2 {
        '2'
    } else if d == 3 {
        '3'
    } else if d == 4 {
        '4'
    } else if d == 5 {
        '5'
    } else if d == 6 {
        '6'
    } else if d == 7 {
        '7'
    } else if d == 8 {
        '8'
    } else {
        '9'
    }
}

/// The decimal representation of a natural number, most significant digit
/// first, with no leading zeros (a single zero for zero itself).
pub open spec fn spec_dec(n: nat) -> Seq<char>
    decreases n,
{
    if n < 10 {
        seq![spec_digit_char(n)]
    } else {
        spec_dec(n / 10).push(spec_digit_char(n % 10))
    }
}

/// A decimal representation has at least one digit.
pub proof fn lemma_dec_nonempty(n: nat)
    ensures
        spec_dec(n).len() >= 1,
    decreases n,
{
    if n >= 10 {
        lemma_dec_nonempty(n / 10);
    }
}

/// The decimal representation of a signed integer: a minus sign before the
/// magnitude for negative values.
pub open spec fn spec_int_dec(n: int) -> Seq<char> {
    if n < 0 {
        seq!['-'] + spec_dec((-n) as nat)
    } else {
        spec_dec(n as nat)
    }
}

/// The one-character string for one digit value.
fn digit_str(d: u64) -> (r: &'static str)
    requires
        d < 10,
    ensures
        r@ == seq![spec_digit_char(d as nat)],
{
    let r: &'static str = if d == 0 {
        "0"
    } else if d == 1 {
        "1"
    } else if d == 2 {
        "2"
    } else if d == 3 {
        "3"
    } else if d == 4 {
        "4"
    } else if d == 5 {
        "5"
    } else if d == 6 {
        "6"
    } else if d == 7 {
        "7"
    } else if d == 8 {
        "8"
    } else {
        "9"
    };
    proof {
        reveal_strlit("0");
        reveal_strlit("1");
        reveal_strlit("2");
        reveal_strlit("3");
        reveal_strlit("4");
        reveal_strlit("5");
        reveal_strlit("6");
        reveal_strlit("7");
        reveal_strlit("8");
        reveal_strlit("9");
        assert(r@ =~= seq![spec_digit_char(d as nat)]);
    }
    r
}

/// Render an unsigned integer in decimal.
pub fn u64_to_string(n: u64) -> (s: String)
    ensures
        s@ == spec_dec(n as nat),
    decreases n,
{
    if n < 10 {
        digit_str(n).to_owned()
    } else {
        let mut s = u64_to_string(n / 10);
        s.append(digit_str(n % 10));
        proof {
            assert(s@ =~= spec_dec(n as nat));
        }
        s
    }
}

/// Render a signed integer in decimal.
pub fn i64_to_string(n: i64) -> (s: String)
    ensures
        s@ == spec_int_dec(n as int),
{
    if n >= 0 {
        u64_to_string(n as u64)
    } else {
        let m: u64 = (-(n as i128)) as u64;
        let mut s = String::from_str("-");
        let mag = u64_to_string(m);
        s.append(mag.as_str());
        proof {
            reveal_strlit("-");
            assert(s@ =~= spec_int_dec(n as int));
        }
        s
    }
}

/// A character trimmed from the ends of numeric input.
pub open spec fn spec_is_space(c: char) -> bool {
    c == ' ' || c == '\t' || c == '\n' || c == '\r'
}

/// A decimal digit character.
pub open spec fn spec_is_digit(c: char) -> bool {
    '0' as int <= c as int && c as int <= '9' as int
}

/// The numeric value of a digit character.
pub open spec fn spec_digit_val(c: char) -> nat
    recommends
        spec_is_digit(c),
{
    (c as int - '0' as int) as nat
}

/// Every character of the sequence is a decimal digit.
pub open spec fn spec_all_digits(s: Seq<char>) -> bool {
    forall|i: int| 0 <= i < s.len() ==> spec_is_digit(#[trigger] s[i])
}

/// The value of a digit sequence, most significant digit first.
pub open spec fn spec_digits_val(s: Seq<char>) -> nat
    decreases s.len(),
{
    if s.len() == 0 {
        0
    } else {
        spec_digits_val(s.drop_last()) * 10 + spec_digit_val(s.last())
    }
}

/// The sequence with leading space characters removed.
pub open spec fn spec_trim_front(s: Seq<char>) -> Seq<char>
    decreases s.len(),
{
    if s.len() > 0 && spec_is_space(s[0]) {
        spec_trim_front(s.drop_first())
    } else {
        s
    }
}

/// The sequence with trailing space characters removed.
pub open spec fn spec_trim_back(s: Seq<char>) -> Seq<char>
    decreases s.len(),
{
    if s.len() > 0 && spec_is_space(s.last()) {
        spec_trim_back(s.drop_last())
    } else {
        s
    }
}

/// The sequence with space characters removed from both ends.
pub open spec fn spec_trim(s: Seq<char>) -> Seq<char> {
    spec_trim_back(spec_trim_front(s))
}

/// Whether the executable treats this character as space.
fn is_space(c: char) -> (r: bool)
    ensures
        r == spec_is_space(c),
{
    c == ' ' || c == '\t' || c == '\n' || c == '\r'
}

/// Remove space characters from both ends of a string.
pub fn trim(s: &str) -> (t: &str)
    ensures
        t@ == spec_trim(s@),
{
    let len = s.unicode_len();
    let mut from: usize = 0;
    proof {
        assert(s@.skip(0) =~= s@);
    }
    while from < len && is_space(s.get_char(from))
        invariant
            0 <= from <= len,
            len == s@.len(),
            spec_trim_front(s@) == spec_trim_front(s@.skip(from as int)),
        decreases len - from,
    {
        proof {
            assert(s@.skip(from as int).drop_first() =~= s@.skip(from as int + 1));
        }
        from += 1;
    }
    proof {
        if from < len {
            assert(spec_trim_front(s@.skip(from as int)) == s@.skip(from as int));
        } else {
            assert(s@.skip(from as int) =~= Seq::<char>::empty());
        }
        assert(spec_trim_front(s@) == s@.skip(from as int));
    }
    let mut to: usize = len;
    while to > from && is_space(s.get_char(to - 1))
        invariant
            from <= to <= len,
            len == s@.len(),
            spec_trim_back(s@.subrange(from as int, len as int)) == spec_trim_back(
                s@.subrange(from as int, to as int),
            ),
        decreases to,
    {
        proof {
            assert(s@.subrange(from as int, to as int).drop_last() =~= s@.subrange(
                from as int,
                to as int - 1,
            ));
        }
        to -= 1;
    }
    proof {
        assert(s@.skip(from as int) =~= s@.subrange(from as int, len as int));
        assert(spec_trim_back(s@.subrange(from as int, to as int)) == s@.subrange(
            from as int,
            to as int,
        ));
        assert(spec_trim(s@) == s@.subrange(from as int, to as int));
    }
    s.substring_char(from, to)
}

/// Largest magnitude that fits in a signed 64-bit integer, by sign.
pub open spec fn spec_i64_limit(negative: bool) -> nat {
    if negative {
        0x8000000000000000
    } else {
        0x7fffffffffffffff
    }
}

/// What parsing a signed decimal string yields: the input is trimmed at both
/// ends; an optional leading minus sign is followed by one or more digits and
/// nothing else; the value must fit in a signed 64-bit integer.
pub open spec fn spec_parse_i64(s: Seq<char>) -> Option<i64> {
    let t = spec_trim(s);
    if t.len() > 0 && t[0] == '-' {
        let d = t.drop_first();
        if d.len() > 0 && spec_all_digits(d) && spec_digits_val(d) <= spec_i64_limit(true) {
            Some((-(spec_digits_val(d) as int)) as i64)
        } else {
            None
        }
    } else {
        if t.len() > 0 && spec_all_digits(t) && spec_digits_val(t) <= spec_i64_limit(false) {
            Some(spec_digits_val(t) as i64)
        } else {
            None
        }
    }
}

/// Every character of a decimal representation is a digit.
proof fn lemma_dec_all_digits(n: nat)
    ensures
        spec_all_digits(spec_dec(n)),
    decreases n,
{
    if n < 10 {
        assert(spec_is_digit(spec_dec(n)[0]));
    } else {
        lemma_dec_all_digits(n / 10);
        assert forall|i: int| 0 <= i < spec_dec(n).len() implies spec_is_digit(
            #[trigger] spec_dec(n)[i],
        ) by {
            if i < spec_dec(n).len() - 1 {
                assert(spec_dec(n)[i] == spec_dec(n / 10)[i]);
            } else {
                assert(spec_dec(n)[i] == spec_digit_char(n % 10));
            }
        }
    }
}

/// The digit character of a digit value reads back as that value.
proof fn lemma_digit_char_val(d: nat)
    requires
        d < 10,
    ensures
        spec_digit_val(spec_digit_char(d)) == d,
{
}

/// Reading a decimal representation back yields the value it renders.
proof fn lemma_dec_value(n: nat)
    ensures
        spec_digits_val(spec_dec(n)) == n,
    decreases n,
{
    let s = spec_dec(n);
    assert(spec_digits_val(s) == spec_digits_val(s.drop_last()) * 10 + spec_digit_val(s.last()));
    if n < 10 {
        lemma_digit_char_val(n);
        assert(s == seq![spec_digit_char(n)]);
        assert(s.drop_last() =~= Seq::<char>::empty());
        assert(spec_digits_val(s.drop_last()) == 0);
        assert(s.last() == spec_digit_char(n));
    } else {
        lemma_dec_value(n / 10);
        lemma_digit_char_val(n % 10);
        assert(s == spec_dec(n / 10).push(spec_digit_char(n % 10)));
        assert(s.drop_last() =~= spec_dec(n / 10));
        assert(s.last() == spec_digit_char(n % 10));
    }
}

/// A non-empty digit string is left unchanged by trimming.
proof fn lemma_trim_digits_identity(s: Seq<char>)
    requires
        s.len() > 0,
        spec_all_digits(s),
    ensures
        spec_trim(s) == s,
{
    assert(spec_is_digit(s[0]));
    assert(spec_is_digit(s.last()));
    assert(spec_trim_front(s) == s);
    assert(spec_trim_back(s) == s);
}

/// Law: rendering any value in decimal and parsing the text back yields the
/// value again.
pub proof fn lemma_decimal_round_trip(n: i64)
    ensures
        spec_parse_i64(spec_int_dec(n as int)) == Some(n),
{
    if n >= 0 {
        let s = spec_dec(n as nat);
        lemma_dec_nonempty(n as nat);
        lemma_dec_all_digits(n as nat);
        lemma_dec_value(n as nat);
        lemma_trim_digits_identity(s);
        assert(spec_is_digit(s[0]));
        assert(s[0] != '-');
    } else {
        let m = (-(n as int)) as nat;
        let s = seq!['-'] + spec_dec(m);
        lemma_dec_nonempty(m);
        lemma_dec_all_digits(m);
        lemma_dec_value(m);
        assert(s[0] == '-');
        assert(s.last() == spec_dec(m).last());
        assert(spec_is_digit(s.last()));
        assert(spec_trim_front(s) == s);
        assert(spec_trim_back(s) == s);
        assert(s.drop_first() =~= spec_dec(m));
    }
}

/// A longer digit prefix never has a smaller value.
proof fn lemma_digits_val_prefix_monotone(s: Seq<char>, j: int, k: int)
    requires
        0 <= j <= k <= s.len(),
    ensures
        spec_digits_val(s.take(j)) <= spec_digits_val(s.take(k)),
    decreases k - j,
{
    if j < k {
        lemma_digits_val_prefix_monotone(s, j, k - 1);
        assert(s.take(k).drop_last() =~= s.take(k - 1));
        assert(spec_digits_val(s.take(k)) == spec_digits_val(s.take(k - 1)) * 10 + spec_digit_val(
            s.take(k).last(),
        ));
    }
}

/// Parse a signed decimal string, trimming spaces at both ends, into a
/// signed 64-bit integer. Returns `None` when any non-digit remains after
/// the optional sign, when no digit is present, or when the value does not
/// fit.
pub fn parse_i64(s: &str) -> (r: Option<i64>)
    ensures
        r == spec_parse_i64(s@),
{
    let t = trim(s);
    let len = t.unicode_len();
    if len == 0 {
        return None;
    }
    let neg: bool = t.get_char(0) == '-';
    let start: usize = if neg {
        1
    } else {
        0
    };
    if start == len {
        return None;
    }
    let ghost digits: Seq<char> = if neg {
        t@.drop_first()
    } else {
        t@
    };
    let limit: u64 = if neg {
        0x8000000000000000
    } else {
        0x7fffffffffffffff
    };
    let mut acc: u64 = 0;
    let mut i: usize = start;
    while i < len
        invariant
            start <= i <= len,
            len == t@.len(),
            start == if neg {
                1int
            } else {
                0int
            },
            neg ==> t@[0] == '-',
            !neg ==> !(t@.len() > 0 && t@[0] == '-'),
            t@ == spec_trim(s@),
            digits == if neg {
                t@.drop_first()
            } else {
                t@
            },
            limit == spec_i64_limit(neg),
            spec_all_digits(digits.take(i - start)),
            acc == spec_digits_val(digits.take(i - start)),
            acc <= limit,
        decreases len - i,
    {
        let c = t.get_char(i);
        let u: u32 = c as u32;
        if u < 48 || u > 57 {
            proof {
                assert(digits[i - start] == c);
                assert(!spec_is_digit(c));
            }
            return None;
        }
        let d: u64 = (u - 48) as u64;
        let wide: u128 = acc as u128 * 10 + d as u128;
        proof {
            assert(digits.take(i - start + 1).drop_last() =~= digits.take(i - start));
            assert(digits.take(i - start + 1).last() == digits[i - start]);
            assert(spec_digit_val(c) == d as nat);
            assert(spec_digits_val(digits.take(i - start + 1)) == acc as nat * 10 + d as nat);
        }
        if wide > limit as u128 {
            proof {
                lemma_digits_val_prefix_monotone(digits, i - start + 1, digits.len() as int);
                assert(digits.take(digits.len() as int) =~= digits);
                assert(spec_digits_val(digits) > spec_i64_limit(neg));
            }
            return None;
        }
        acc = wide as u64;
        i += 1;
    }
    proof {
        assert(digits.take(len - start) =~= digits);
    }
    if neg {
        let v: i64 = (-(acc as i128)) as i64;
        Some(v)
    } else {
        Some(acc as i64)
    }
}

} // verus!
