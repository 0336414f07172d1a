//! Decimal numerals: writing integers as text and reading them back.

use vstd::prelude::*;

use crate::text::chars_of;

verus! {

/// The decimal digit for a value below ten.
pub open spec fn digit_char(d: int) -> char {
    (('0' as u32 + d) as u32) as char
}

/// The decimal numeral of a natural number, without leading zeros.
pub open spec fn nat_text(n: nat) -> Seq<char>
    decreases n,
{
    if n < 10 {
        seq![digit_char(n as int)]
    } else {
        nat_text(n / 10).push(digit_char((n % 10) as int))
    }
}

/// The decimal numeral of an integer, with a leading `-` below zero.
pub open spec fn int_text(i: int) -> Seq<char> {
    if i < 0 {
        seq!['-'] + nat_text((-i) as nat)
    } else {
        nat_text(i as nat)
    }
}

/// `k` zeros in a row.
pub open spec fn zeros(k: nat) -> Seq<char> {
    Seq::new(k, |i: int| '0')
}

/// The numeral of `n`, filled up with leading zeros to `width` characters.
pub open spec fn padded_text(n: nat, width: nat) -> Seq<char> {
    let t = nat_text(n);
    if t.len() < width {
        zeros((width - t.len()) as nat) + t
    } else {
        t
    }
}

fn push_digit(s: &mut String, d: u8)
    requires
        d < 10,
    ensures
        final(s)@ == old(s)@.push(digit_char(d as int)),
{
    let c: u8 = 48 + d;
    s.push(c as char);
}

/// The decimal numeral of `n`.
pub(crate) fn nat_to_text(n: u128) -> (r: String)
    ensures
        r@ == nat_text(n as nat),
    decreases n,
{
    if n < 10 {
        let mut s = String::new();
        push_digit(&mut s, n as u8);
        assert(s@ =~= seq![digit_char(n as int)]);
        s
    } else {
        let mut s = nat_to_text(n / 10);
        let d: u8 = (n % 10) as u8;
        push_digit(&mut s, d);
        s
    }
}

/// The decimal numeral of `i`.
pub(crate) fn int_to_text(i: i64) -> (r: String)
    ensures
        r@ == int_text(i as int),
{
    if i < 0 {
        let m: i128 = -(i as i128);
        let digits = nat_to_text(m as u128);
        let mut s = String::new();
        s.push('-');
        s.append(digits.as_str());
        assert(s@ =~= seq!['-'] + nat_text((-(i as int)) as nat));
        s
    } else {
        nat_to_text(i as u128)
    }
}

/// The numeral of `n`, filled up with leading zeros to `width` characters.
pub(crate) fn nat_to_padded(n: u128, width: usize) -> (r: String)
    ensures
        r@ == padded_text(n as nat, width as nat),
{
    let digits = nat_to_text(n);
    let len: usize = digits.as_str().unicode_len();
    if len >= width {
        return digits;
    }
    let mut s = String::new();
    let mut i: usize = 0;
    let missing: usize = width - len;
    while i < missing
        invariant
            i <= missing,
            s@ =~= zeros(i as nat),
        decreases missing - i,
    {
        s.push('0');
        i += 1;
    }
    s.append(digits.as_str());
    s
}

// ---------------------------------------------------------------------------
// Reading
// ---------------------------------------------------------------------------

/// Whether the text is one or more decimal digits.
pub open spec fn is_digits(s: Seq<char>) -> bool {
    s.len() > 0 && forall|i: int| 0 <= i < s.len() ==> '0' <= #[trigger] s[i] <= '9'
}

/// The number that a row of digits stands for.
pub open spec fn digits_value(s: Seq<char>) -> int
    decreases s.len(),
{
    if s.len() == 0 {
        0
    } else {
        digits_value(s.drop_last()) * 10 + (s.last() as u32 - '0' as u32)
    }
}

/// The natural number that a numeral stands for: digits, after an optional
/// `+`.
pub open spec fn parsed_nat(s: Seq<char>) -> Option<int> {
    if is_digits(s) {
        Some(digits_value(s))
    } else if s.len() > 0 && s[0] == '+' && is_digits(s.skip(1)) {
        Some(digits_value(s.skip(1)))
    } else {
        None
    }
}

/// The integer that a numeral stands for: digits, after an optional sign.
pub open spec fn parsed_int(s: Seq<char>) -> Option<int> {
    if s.len() > 0 && s[0] == '-' && is_digits(s.skip(1)) {
        Some(-digits_value(s.skip(1)))
    } else {
        parsed_nat(s)
    }
}

/// A number read from text, when it is one and lies in the given range.
pub open spec fn in_bounds(v: Option<int>, lo: int, hi: int) -> Option<int> {
    match v {
        Some(n) => if lo <= n <= hi {
            Some(n)
        } else {
            None
        },
        None => None,
    }
}

/// Reads the digits from position `from` on, when their value is at most
/// `cap`.
fn read_digits(cs: &Vec<char>, from: usize, cap: u64) -> (r: Option<u64>)
    requires
        from <= cs@.len(),
    ensures
        match r {
            Some(v) => is_digits(cs@.skip(from as int)) && digits_value(cs@.skip(from as int)) == v
                && v <= cap,
            None => !is_digits(cs@.skip(from as int)) || digits_value(cs@.skip(from as int)) > cap,
        },
{
    let ghost t = cs@.skip(from as int);
    if from >= cs.len() {
        return None;
    }
    let mut acc: u128 = 0;
    let mut big: bool = false;
    let mut i: usize = from;
    while i < cs.len()
        invariant
            from <= i <= cs@.len(),
            t == cs@.skip(from as int),
            forall|j: int| 0 <= j < i - from ==> '0' <= #[trigger] t[j] <= '9',
            !big ==> acc == digits_value(t.take(i - from)) && acc <= 0x1_0000_0000_0000_0000,
            big ==> digits_value(t.take(i - from)) > cap,
        decreases cs@.len() - i,
    {
        let c = cs[i];
        assert(t[i - from] == c);
        if !('0' <= c && c <= '9') {
            return None;
        }
        assert(t.take(i - from + 1).drop_last() =~= t.take(i - from));
        assert(t.take(i - from + 1).last() == c);
        if !big {
            let d: u32 = c as u32 - 48;
            acc = acc * 10 + d as u128;
            if acc > cap as u128 {
                big = true;
            }
        }
        i += 1;
    }
    assert(t.take(t.len() as int) =~= t);
    if big {
        None
    } else if acc <= cap as u128 {
        Some(acc as u64)
    } else {
        None
    }
}

/// Reads a natural number of at most `cap`.
pub(crate) fn parse_nat(s: &str, cap: u64) -> (r: Option<u64>)
    ensures
        match r {
            Some(v) => parsed_nat(s@) == Some(v as int) && v <= cap,
            None => in_bounds(parsed_nat(s@), 0, cap as int) is None,
        },
{
    let cs = chars_of(s);
    assert(cs@.skip(0) =~= cs@);
    proof {
        lemma_digits_value_nonneg(s@);
    }
    if cs.len() > 0 && cs[0] == '+' {
        assert(!is_digits(s@)) by {
            if is_digits(s@) {
                assert('0' <= s@[0] <= '9');
            }
        }
        proof {
            lemma_digits_value_nonneg(s@.skip(1));
        }
        read_digits(&cs, 1, cap)
    } else {
        read_digits(&cs, 0, cap)
    }
}

/// Reads an `i64`.
pub(crate) fn parse_i64(s: &str) -> (r: Option<i64>)
    ensures
        match r {
            Some(v) => parsed_int(s@) == Some(v as int),
            None => in_bounds(parsed_int(s@), i64::MIN as int, i64::MAX as int) is None,
        },
{
    let cs = chars_of(s);
    if cs.len() > 0 && cs[0] == '-' {
        assert(!is_digits(s@)) by {
            if is_digits(s@) {
                assert('0' <= s@[0] <= '9');
            }
        }
        match read_digits(&cs, 1, 0x8000_0000_0000_0000) {
            Some(v) => {
                let m: i128 = v as i128;
                Some((-m) as i64)
            },
            None => None,
        }
    } else {
        match parse_nat(s, 0x7fff_ffff_ffff_ffff) {
            Some(v) => Some(v as i64),
            None => {
                proof {
                    lemma_digits_value_nonneg(s@);
                    if s@.len() > 0 {
                        lemma_digits_value_nonneg(s@.skip(1));
                    }
                }
                None
            },
        }
    }
}

/// A row of digits never stands for a negative number.
pub proof fn lemma_digits_value_nonneg(s: Seq<char>)
    ensures
        is_digits(s) ==> digits_value(s) >= 0,
    decreases s.len(),
{
    if is_digits(s) {
        assert('0' <= s[s.len() - 1] <= '9');
        if s.len() > 1 {
            assert(is_digits(s.drop_last())) by {
                assert forall|i: int| 0 <= i < s.len() - 1 implies '0' <= #[trigger] s.drop_last()[i]
                    <= '9' by {
                    assert(s.drop_last()[i] == s[i]);
                }
            }
            lemma_digits_value_nonneg(s.drop_last());
        } else {
            assert(s.drop_last().len() == 0);
        }
    }
}

/// Reading a numeral gives back the number that was written.
pub proof fn lemma_nat_text_round_trip(n: nat)
    ensures
        is_digits(nat_text(n)),
        digits_value(nat_text(n)) == n,
    decreases n,
{
    let t = nat_text(n);
    if n < 10 {
        assert(t.drop_last() =~= Seq::<char>::empty());
        assert(t.last() == digit_char(n as int));
        assert(digits_value(t.drop_last()) == 0);
    } else {
        lemma_nat_text_round_trip(n / 10);
        let p = nat_text(n / 10);
        assert(t.drop_last() =~= p);
        assert forall|i: int| 0 <= i < t.len() implies '0' <= #[trigger] t[i] <= '9' by {
            if i < p.len() {
                assert(t[i] == p[i]);
            }
        }
    }
}

/// Numerals are written as they are read: digits for what is not negative, and a minus before
/// them for what is; filled up with zeros they are as wide as asked and stand for the same.
pub proof fn law_numerals_are_read_as_written(n: nat, width: nat)
    ensures
        parsed_nat(nat_text(n)) == Some(n as int),
        parsed_int(int_text(n as int)) == Some(n as int),
        n > 0 ==> parsed_int(int_text(-n)) == Some(-n),
        nat_text(n).len() <= width ==> padded_text(n, width).len() == width,
        nat_text(n).len() >= width ==> padded_text(n, width) == nat_text(n),
{
    lemma_nat_text_round_trip(n);
    let t = nat_text(n);
    assert('0' <= t[0] <= '9');
    if n > 0 {
        let m = int_text(-n);
        assert(m =~= seq!['-'] + t);
        assert(m.skip(1) =~= t);
        assert(m[0] == '-');
    }
}

} // verus!
