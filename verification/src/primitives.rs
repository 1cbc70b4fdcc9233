use vstd::prelude::*;

use crate::types::{Cordinate, Date, Decimal, Time};

verus! {

// ---------------------------------------------------------------------------
// Character classes
// ---------------------------------------------------------------------------

/// Holds when `c` is an ASCII decimal digit.
pub open spec fn is_digit_char(c: char) -> bool {
    48 <= c as int && c as int <= 57
}

/// Numeric value of a decimal digit.
pub open spec fn digit_value(c: char) -> nat {
    (c as int - 48) as nat
}

/// Holds when every character of `s` is a decimal digit.
pub open spec fn all_digits(s: Seq<char>) -> bool {
    forall|i: int| 0 <= i < s.len() ==> is_digit_char(#[trigger] s[i])
}

/// Value of a digit string read in base ten; the empty string reads as zero.
pub open spec fn digits_value(s: Seq<char>) -> nat
    decreases s.len(),
{
    if s.len() == 0 {
        0
    } else {
        10 * digits_value(s.drop_last()) + digit_value(s.last())
    }
}

/// Holds when `c` is an ASCII hexadecimal digit, of either case.
pub open spec fn is_hex_digit_char(c: char) -> bool {
    ||| 48 <= c as int && c as int <= 57
    ||| 97 <= c as int && c as int <= 102
    ||| 65 <= c as int && c as int <= 70
}

/// Numeric value of a hexadecimal digit, of either case.
pub open spec fn hex_digit_value(c: char) -> nat {
    if 48 <= c as int && c as int <= 57 {
        (c as int - 48) as nat
    } else if 97 <= c as int && c as int <= 102 {
        (c as int - 87) as nat
    } else {
        (c as int - 55) as nat
    }
}

/// Holds when every character of `s` is a hexadecimal digit.
pub open spec fn all_hex_digits(s: Seq<char>) -> bool {
    forall|i: int| 0 <= i < s.len() ==> is_hex_digit_char(#[trigger] s[i])
}

/// Value of a hexadecimal digit string; the empty string reads as zero.
pub open spec fn hex_digits_value(s: Seq<char>) -> nat
    decreases s.len(),
{
    if s.len() == 0 {
        0
    } else {
        16 * hex_digits_value(s.drop_last()) + hex_digit_value(s.last())
    }
}

// ---------------------------------------------------------------------------
// String equality and scanning
// ---------------------------------------------------------------------------

/// Compares two strings character by character.
pub fn str_eq(a: &str, b: &str) -> (r: bool)
    ensures
        r == (a@ == b@),
{
    let na = a.unicode_len();
    let nb = b.unicode_len();
    if na != nb {
        return false;
    }
    let mut i: usize = 0;
    while i < na
        invariant
            na == a@.len(),
            na == b@.len(),
            0 <= i <= na,
            forall|k: int| 0 <= k < i ==> a@[k] == b@[k],
        decreases na - i,
    {
        if a.get_char(i) != b.get_char(i) {
            return false;
        }
        i = i + 1;
    }
    proof {
        assert(a@ =~= b@);
    }
    true
}

/// Index of the first occurrence of `c` in `s` at or after `from`, if any.
pub fn find_first_from(s: &str, from: usize, c: char) -> (r: Option<usize>)
    requires
        from <= s@.len(),
    ensures
        (match r {
            Some(j) => {
                &&& from <= j < s@.len()
                &&& s@[j as int] == c
                &&& forall|k: int| from <= k < j ==> s@[k] != c
            },
            None => forall|k: int| from <= k < s@.len() ==> s@[k] != c,
        }),
{
    let n = s.unicode_len();
    let mut i: usize = from;
    while i < n
        invariant
            n == s@.len(),
            from <= i <= n,
            forall|k: int| from <= k < i ==> s@[k] != c,
        decreases n - i,
    {
        if s.get_char(i) == c {
            return Some(i);
        }
        i = i + 1;
    }
    None
}

/// Index of the last occurrence of `c` in `s`, if any.
pub fn find_last(s: &str, c: char) -> (r: Option<usize>)
    ensures
        (match r {
            Some(j) => {
                &&& j < s@.len()
                &&& s@[j as int] == c
                &&& forall|k: int| j < k < s@.len() ==> s@[k] != c
            },
            None => forall|k: int| 0 <= k < s@.len() ==> s@[k] != c,
        }),
{
    let n = s.unicode_len();
    let mut i: usize = n;
    while i > 0
        invariant
            n == s@.len(),
            0 <= i <= n,
            forall|k: int| i <= k < n ==> s@[k] != c,
        decreases i,
    {
        let j = i - 1;
        if s.get_char(j) == c {
            return Some(j);
        }
        i = j;
    }
    None
}

// ---------------------------------------------------------------------------
// Unsigned integers
// ---------------------------------------------------------------------------

/// The digits of an unsigned numeral: a single leading `+` is dropped.
pub open spec fn uint_digits(s: Seq<char>) -> Seq<char> {
    if s.len() > 0 && s[0] == '+' {
        s.drop_first()
    } else {
        s
    }
}

/// Holds when `s` is an unsigned decimal numeral: an optional leading `+`
/// followed by one or more digits.
pub open spec fn is_uint_str(s: Seq<char>) -> bool {
    uint_digits(s).len() > 0 && all_digits(uint_digits(s))
}

/// Value of an unsigned decimal numeral.
pub open spec fn uint_value(s: Seq<char>) -> nat {
    digits_value(uint_digits(s))
}

/// Result of reading `s` as a `u64`: the value when `s` is an unsigned
/// numeral that fits, `None` otherwise.
pub open spec fn spec_parse_u64(s: Seq<char>) -> Option<u64> {
    if is_uint_str(s) && uint_value(s) <= u64::MAX {
        Some(uint_value(s) as u64)
    } else {
        None
    }
}

/// Result of reading `s` as a `u8`.
pub open spec fn spec_parse_u8(s: Seq<char>) -> Option<u8> {
    if is_uint_str(s) && uint_value(s) <= u8::MAX {
        Some(uint_value(s) as u8)
    } else {
        None
    }
}

/// Result of reading `s` as a `u16`.
pub open spec fn spec_parse_u16(s: Seq<char>) -> Option<u16> {
    if is_uint_str(s) && uint_value(s) <= u16::MAX {
        Some(uint_value(s) as u16)
    } else {
        None
    }
}

/// Result of reading `s` as a `usize`.
pub open spec fn spec_parse_usize(s: Seq<char>) -> Option<usize> {
    if is_uint_str(s) && uint_value(s) <= usize::MAX {
        Some(uint_value(s) as usize)
    } else {
        None
    }
}

/// Reads an unsigned decimal numeral as a `u64`.
pub fn parse_u64(s: &str) -> (r: Option<u64>)
    ensures
        r == spec_parse_u64(s@),
{
    let n = s.unicode_len();
    let start: usize = if n > 0 && s.get_char(0) == '+' {
        1
    } else {
        0
    };
    proof {
        assert(uint_digits(s@) =~= s@.subrange(start as int, n as int));
    }
    if start >= n {
        return None;
    }
    let mut acc: u64 = 0;
    let mut big = false;
    let mut i: usize = start;
    while i < n
        invariant
            n == s@.len(),
            start <= i <= n,
            start <= n,
            uint_digits(s@) =~= s@.subrange(start as int, n as int),
            all_digits(s@.subrange(start as int, i as int)),
            !big ==> acc == digits_value(s@.subrange(start as int, i as int)),
            big ==> digits_value(s@.subrange(start as int, i as int)) > u64::MAX,
        decreases n - i,
    {
        let c = s.get_char(i);
        let u = c as u32;
        if !(48 <= u && u <= 57) {
            proof {
                assert(uint_digits(s@)[i - start] == s@[i as int]);
                assert(!is_uint_str(s@));
            }
            return None;
        }
        let dv: u64 = (u - 48) as u64;
        proof {
            assert(s@.subrange(start as int, (i + 1) as int).drop_last() =~= s@.subrange(
                start as int,
                i as int,
            ));
            assert(s@.subrange(start as int, (i + 1) as int).last() == s@[i as int]);
            assert(s@.subrange(start as int, (i + 1) as int) =~= s@.subrange(
                start as int,
                i as int,
            ).push(s@[i as int]));
        }
        if big {
            proof {
                assert(digits_value(s@.subrange(start as int, (i + 1) as int)) > u64::MAX);
            }
        } else {
            let wide: u128 = acc as u128 * 10 + dv as u128;
            if wide > u64::MAX as u128 {
                big = true;
            } else {
                acc = wide as u64;
            }
        }
        i = i + 1;
    }
    if big {
        None
    } else {
        Some(acc)
    }
}

/// Reads an unsigned decimal numeral as a `u8`.
pub fn parse_u8(s: &str) -> (r: Option<u8>)
    ensures
        r == spec_parse_u8(s@),
{
    match parse_u64(s) {
        Some(v) => {
            if v <= u8::MAX as u64 {
                Some(v as u8)
            } else {
                None
            }
        },
        None => None,
    }
}

/// Reads an unsigned decimal numeral as a `u16`.
pub fn parse_u16(s: &str) -> (r: Option<u16>)
    ensures
        r == spec_parse_u16(s@),
{
    match parse_u64(s) {
        Some(v) => {
            if v <= u16::MAX as u64 {
                Some(v as u16)
            } else {
                None
            }
        },
        None => None,
    }
}

/// Reads an unsigned decimal numeral as a `usize`.
pub fn parse_usize(s: &str) -> (r: Option<usize>)
    ensures
        r == spec_parse_usize(s@),
{
    match parse_u64(s) {
        Some(v) => {
            if v <= usize::MAX as u64 {
                Some(v as usize)
            } else {
                None
            }
        },
        None => None,
    }
}

// ---------------------------------------------------------------------------
// Hexadecimal bytes
// ---------------------------------------------------------------------------

/// The digits of a hexadecimal numeral: a single leading `+` is dropped.
pub open spec fn hex_digits(s: Seq<char>) -> Seq<char> {
    if s.len() > 0 && s[0] == '+' {
        s.drop_first()
    } else {
        s
    }
}

/// Holds when `s` is a hexadecimal numeral: an optional leading `+` followed
/// by one or more hexadecimal digits.
pub open spec fn is_hex_str(s: Seq<char>) -> bool {
    hex_digits(s).len() > 0 && all_hex_digits(hex_digits(s))
}

/// Result of reading `s` as a base-sixteen byte: the value when `s` is a
/// hexadecimal numeral no greater than 255, `None` otherwise.
pub open spec fn spec_parse_hex_u8(s: Seq<char>) -> Option<u8> {
    if is_hex_str(s) && hex_digits_value(hex_digits(s)) <= u8::MAX {
        Some(hex_digits_value(hex_digits(s)) as u8)
    } else {
        None
    }
}

/// Reads a hexadecimal numeral as a byte.
pub fn parse_hex_u8(s: &str) -> (r: Option<u8>)
    ensures
        r == spec_parse_hex_u8(s@),
{
    let n = s.unicode_len();
    let start: usize = if n > 0 && s.get_char(0) == '+' {
        1
    } else {
        0
    };
    proof {
        assert(hex_digits(s@) =~= s@.subrange(start as int, n as int));
    }
    if start >= n {
        return None;
    }
    let mut acc: u32 = 0;
    let mut big = false;
    let mut i: usize = start;
    while i < n
        invariant
            n == s@.len(),
            start <= i <= n,
            start <= n,
            hex_digits(s@) =~= s@.subrange(start as int, n as int),
            all_hex_digits(s@.subrange(start as int, i as int)),
            !big ==> acc == hex_digits_value(s@.subrange(start as int, i as int)) && acc <= 255,
            big ==> hex_digits_value(s@.subrange(start as int, i as int)) > 255,
        decreases n - i,
    {
        let c = s.get_char(i);
        let u = c as u32;
        let dv: u32 = if 48 <= u && u <= 57 {
            u - 48
        } else if 97 <= u && u <= 102 {
            u - 87
        } else if 65 <= u && u <= 70 {
            u - 55
        } else {
            proof {
                assert(hex_digits(s@)[i - start] == s@[i as int]);
                assert(!is_hex_str(s@));
            }
            return None;
        };
        proof {
            assert(s@.subrange(start as int, (i + 1) as int).drop_last() =~= s@.subrange(
                start as int,
                i as int,
            ));
            assert(s@.subrange(start as int, (i + 1) as int).last() == s@[i as int]);
            assert(s@.subrange(start as int, (i + 1) as int) =~= s@.subrange(
                start as int,
                i as int,
            ).push(s@[i as int]));
        }
        if big {
            proof {
                assert(hex_digits_value(s@.subrange(start as int, (i + 1) as int)) > 255);
            }
        } else {
            let wide: u32 = acc * 16 + dv;
            if wide > 255 {
                big = true;
            } else {
                acc = wide;
            }
        }
        i = i + 1;
    }
    if big {
        None
    } else {
        Some(acc as u8)
    }
}

// ---------------------------------------------------------------------------
// Checksum accumulation
// ---------------------------------------------------------------------------

/// Low eight bits of a character's scalar value.
pub open spec fn char_byte(c: char) -> u8 {
    (c as int % 256) as u8
}

/// Exclusive-or of the byte values of all characters of `s`.
pub open spec fn xor_of(s: Seq<char>) -> u8
    decreases s.len(),
{
    if s.len() == 0 {
        0
    } else {
        xor_of(s.drop_last()) ^ char_byte(s.last())
    }
}

/// Folds the exclusive-or of the byte values of all characters of `s`.
pub fn xor_str(s: &str) -> (r: u8)
    ensures
        r == xor_of(s@),
{
    let n = s.unicode_len();
    let mut acc: u8 = 0;
    let mut i: usize = 0;
    while i < n
        invariant
            n == s@.len(),
            0 <= i <= n,
            acc == xor_of(s@.subrange(0, i as int)),
        decreases n - i,
    {
        let c = s.get_char(i);
        let b: u8 = ((c as u32) % 256) as u8;
        proof {
            assert(s@.subrange(0, (i + 1) as int).drop_last() =~= s@.subrange(0, i as int));
            assert(s@.subrange(0, (i + 1) as int).last() == s@[i as int]);
            assert(b == char_byte(s@[i as int]));
        }
        acc = acc ^ b;
        i = i + 1;
    }
    proof {
        assert(s@.subrange(0, n as int) =~= s@);
    }
    acc
}

// ---------------------------------------------------------------------------
// Splitting a sequence at a delimiter
// ---------------------------------------------------------------------------

/// The characters of `s` before the first occurrence of `c`; all of `s` when
/// `c` does not occur.
pub open spec fn before_first(s: Seq<char>, c: char) -> Seq<char>
    decreases s.len(),
{
    if s.len() == 0 {
        s
    } else if s[0] == c {
        Seq::empty()
    } else {
        seq![s[0]] + before_first(s.drop_first(), c)
    }
}

/// The characters of `s` after the first occurrence of `c`; empty when `c`
/// does not occur.
pub open spec fn after_first(s: Seq<char>, c: char) -> Seq<char>
    decreases s.len(),
{
    if s.len() == 0 {
        s
    } else if s[0] == c {
        s.drop_first()
    } else {
        after_first(s.drop_first(), c)
    }
}

/// The characters of `s` after the last occurrence of `c`; all of `s` when
/// `c` does not occur.
pub open spec fn after_last(s: Seq<char>, c: char) -> Seq<char>
    decreases s.len(),
{
    if s.len() == 0 {
        s
    } else if s.last() == c {
        Seq::empty()
    } else {
        after_last(s.drop_last(), c).push(s.last())
    }
}

/// Characterizes [`before_first`] and [`after_first`] by the index `k` of the
/// first occurrence of `c` (with `k == s.len()` when `c` does not occur).
pub proof fn lemma_split_first(s: Seq<char>, c: char, k: int)
    requires
        0 <= k <= s.len(),
        forall|j: int| 0 <= j < k ==> s[j] != c,
        k == s.len() || s[k] == c,
    ensures
        before_first(s, c) =~= s.subrange(0, k),
        after_first(s, c) =~= (if k == s.len() {
            Seq::<char>::empty()
        } else {
            s.subrange(k + 1, s.len() as int)
        }),
        s.contains(c) <==> k < s.len(),
    decreases s.len(),
{
    if s.len() == 0 {
        assert(!s.contains(c));
    } else if k == 0 && s[0] == c {
        assert(s.contains(c));
    } else {
        assert(s[0] != c);
        lemma_split_first(s.drop_first(), c, k - 1);
        assert(before_first(s, c) =~= seq![s[0]] + s.drop_first().subrange(0, k - 1));
        if k < s.len() {
            assert(s.drop_first()[k - 1] == s[k]);
            assert(s.contains(c));
            assert(after_first(s, c) =~= s.drop_first().subrange(k, s.len() - 1));
        } else {
            if s.contains(c) {
                let w = choose|w: int| 0 <= w < s.len() && s[w] == c;
                assert(false);
            }
        }
    }
}

/// Characterizes [`after_last`] by the index `j` of the last occurrence of
/// `c`.
pub proof fn lemma_after_last_some(s: Seq<char>, c: char, j: int)
    requires
        0 <= j < s.len(),
        s[j] == c,
        forall|k: int| j < k < s.len() ==> s[k] != c,
    ensures
        after_last(s, c) =~= s.subrange(j + 1, s.len() as int),
    decreases s.len(),
{
    if j == s.len() - 1 {
        assert(s.last() == c);
    } else {
        assert(s.last() != c);
        lemma_after_last_some(s.drop_last(), c, j);
        assert(after_last(s, c) =~= s.drop_last().subrange(j + 1, s.len() - 1).push(s.last()));
    }
}

/// [`after_last`] leaves `s` unchanged when `c` does not occur in it.
pub proof fn lemma_after_last_none(s: Seq<char>, c: char)
    requires
        forall|k: int| 0 <= k < s.len() ==> s[k] != c,
    ensures
        after_last(s, c) =~= s,
    decreases s.len(),
{
    if s.len() > 0 {
        lemma_after_last_none(s.drop_last(), c);
    }
}

// ---------------------------------------------------------------------------
// Digit runs
// ---------------------------------------------------------------------------

/// Result of reading `s` as a bare digit run: its value when every character
/// is a digit and the value fits a `u64`, `None` otherwise.  The empty run
/// reads as zero.
pub open spec fn spec_parse_digits(s: Seq<char>) -> Option<u64> {
    if all_digits(s) && digits_value(s) <= u64::MAX {
        Some(digits_value(s) as u64)
    } else {
        None
    }
}

/// Reads a bare digit run as a `u64`.
pub fn parse_digits(s: &str) -> (r: Option<u64>)
    ensures
        r == spec_parse_digits(s@),
{
    let n = s.unicode_len();
    let mut acc: u64 = 0;
    let mut big = false;
    let mut i: usize = 0;
    while i < n
        invariant
            n == s@.len(),
            0 <= i <= n,
            all_digits(s@.subrange(0, i as int)),
            !big ==> acc == digits_value(s@.subrange(0, i as int)),
            big ==> digits_value(s@.subrange(0, i as int)) > u64::MAX,
        decreases n - i,
    {
        let c = s.get_char(i);
        let u = c as u32;
        if !(48 <= u && u <= 57) {
            proof {
                assert(!all_digits(s@));
            }
            return None;
        }
        let dv: u64 = (u - 48) as u64;
        proof {
            assert(s@.subrange(0, (i + 1) as int).drop_last() =~= s@.subrange(0, i as int));
            assert(s@.subrange(0, (i + 1) as int).last() == s@[i as int]);
            assert(s@.subrange(0, (i + 1) as int) =~= s@.subrange(0, i as int).push(s@[i as int]));
        }
        if big {
            proof {
                assert(digits_value(s@.subrange(0, (i + 1) as int)) > u64::MAX);
            }
        } else {
            let wide: u128 = acc as u128 * 10 + dv as u128;
            if wide > u64::MAX as u128 {
                big = true;
            } else {
                acc = wide as u64;
            }
        }
        i = i + 1;
    }
    proof {
        assert(s@.subrange(0, n as int) =~= s@);
    }
    if big {
        None
    } else {
        Some(acc)
    }
}

// ---------------------------------------------------------------------------
// Decimal numerals
// ---------------------------------------------------------------------------

/// Holds when the numeral carries a leading minus sign.
pub open spec fn dec_is_negative(s: Seq<char>) -> bool {
    s.len() > 0 && s[0] == '-'
}

/// The numeral with a single leading sign character dropped.
pub open spec fn dec_body(s: Seq<char>) -> Seq<char> {
    if s.len() > 0 && (s[0] == '-' || s[0] == '+') {
        s.drop_first()
    } else {
        s
    }
}

/// Result of reading `s` as a decimal numeral: an optional sign, digits, and
/// at most one point, with at least one digit in all.  Values whose integer
/// or fraction digits overflow a `u64` are rejected.
pub open spec fn spec_parse_decimal(s: Seq<char>) -> Option<Decimal> {
    let b = dec_body(s);
    let ip = before_first(b, '.');
    let fp = after_first(b, '.');
    if all_digits(ip) && all_digits(fp) && !fp.contains('.') && ip.len() + fp.len() > 0
        && digits_value(ip) <= u64::MAX && digits_value(fp) <= u64::MAX && fp.len() <= usize::MAX {
        Some(
            Decimal {
                negative: dec_is_negative(s),
                units: digits_value(ip) as u64,
                fraction: digits_value(fp) as u64,
                scale: fp.len() as usize,
            },
        )
    } else {
        None
    }
}

/// Reads a decimal numeral.
pub fn parse_decimal(s: &str) -> (r: Option<Decimal>)
    ensures
        r == spec_parse_decimal(s@),
{
    let n = s.unicode_len();
    let mut start: usize = 0;
    let mut negative = false;
    if n > 0 {
        let c0 = s.get_char(0);
        if c0 == '-' {
            negative = true;
            start = 1;
        } else if c0 == '+' {
            start = 1;
        }
    }
    let ghost b = dec_body(s@);
    proof {
        assert(b =~= s@.subrange(start as int, n as int));
        assert(negative == dec_is_negative(s@));
    }
    let k = match find_first_from(s, start, '.') {
        Some(j) => j,
        None => n,
    };
    proof {
        lemma_split_first(b, '.', k - start);
    }
    let ip = s.substring_char(start, k);
    proof {
        assert(ip@ =~= before_first(b, '.'));
    }
    let units = match parse_digits(ip) {
        Some(v) => v,
        None => {
            return None;
        },
    };
    if k == n {
        if start == k {
            return None;
        }
        Some(Decimal { negative, units, fraction: 0, scale: 0 })
    } else {
        let fp = s.substring_char(k + 1, n);
        proof {
            assert(fp@ =~= after_first(b, '.'));
        }
        let fraction = match parse_digits(fp) {
            Some(v) => v,
            None => {
                return None;
            },
        };
        proof {
            if after_first(b, '.').contains('.') {
                let w = choose|w: int|
                    0 <= w < after_first(b, '.').len() && after_first(b, '.')[w] == '.';
                assert(is_digit_char(after_first(b, '.')[w]));
                assert(false);
            }
        }
        if start == k && k + 1 == n {
            return None;
        }
        Some(Decimal { negative, units, fraction, scale: n - (k + 1) })
    }
}

// ---------------------------------------------------------------------------
// Time, date and coordinate fields
// ---------------------------------------------------------------------------

/// Result of reading a time-of-day field `hhmmss` or `hhmmss.ss`: the first
/// six characters before the point split into pairs, and the whole remainder
/// after the point read as the fraction.  A field whose six-character prefix
/// is short or not numeric is rejected, as is one with a second point.
pub open spec fn spec_time(s: Seq<char>) -> Option<Time> {
    let whole = before_first(s, '.');
    let frac = after_first(s, '.');
    if whole.len() < 6 {
        None
    } else {
        match (
            spec_parse_u8(whole.subrange(0, 2)),
            spec_parse_u8(whole.subrange(2, 4)),
            spec_parse_u8(whole.subrange(4, 6)),
            if s.contains('.') {
                spec_parse_u8(frac)
            } else {
                Some(0u8)
            },
        ) {
            (Some(h), Some(m), Some(sec), Some(ds)) => Some(
                Time { hour: h, minute: m, second: sec, decimal_seconds: ds },
            ),
            _ => None,
        }
    }
}

/// Reads a time-of-day field.
pub fn parse_time(s: &str) -> (r: Option<Time>)
    ensures
        r == spec_time(s@),
{
    let n = s.unicode_len();
    let k = match find_first_from(s, 0, '.') {
        Some(j) => j,
        None => n,
    };
    proof {
        lemma_split_first(s@, '.', k as int);
    }
    if k < 6 {
        return None;
    }
    proof {
        assert(before_first(s@, '.').subrange(0, 2) =~= s@.subrange(0, 2));
        assert(before_first(s@, '.').subrange(2, 4) =~= s@.subrange(2, 4));
        assert(before_first(s@, '.').subrange(4, 6) =~= s@.subrange(4, 6));
    }
    let hour = match parse_u8(s.substring_char(0, 2)) {
        Some(v) => v,
        None => {
            return None;
        },
    };
    let minute = match parse_u8(s.substring_char(2, 4)) {
        Some(v) => v,
        None => {
            return None;
        },
    };
    let second = match parse_u8(s.substring_char(4, 6)) {
        Some(v) => v,
        None => {
            return None;
        },
    };
    let ds: u8;
    if k == n {
        ds = 0;
    } else {
        proof {
            assert(after_first(s@, '.') =~= s@.subrange(k + 1, n as int));
        }
        ds = match parse_u8(s.substring_char(k + 1, n)) {
            Some(v) => v,
            None => {
                return None;
            },
        };
    }
    Some(Time { hour, minute, second, decimal_seconds: ds })
}

/// Result of reading a date field `ddmmyy`: day and month from the first two
/// character pairs, and everything from the fifth character on as the year.
/// A field shorter than the six characters of `ddmmyy` is rejected.
pub open spec fn spec_date(s: Seq<char>) -> Option<Date> {
    if s.len() < 6 {
        None
    } else {
        match (
            spec_parse_u8(s.subrange(0, 2)),
            spec_parse_u8(s.subrange(2, 4)),
            spec_parse_usize(s.subrange(4, s.len() as int)),
        ) {
            (Some(d), Some(m), Some(y)) => Some(Date { year: y, month: m, day: d }),
            _ => None,
        }
    }
}

/// Reads a date field.
pub fn parse_date(s: &str) -> (r: Option<Date>)
    ensures
        r == spec_date(s@),
{
    let n = s.unicode_len();
    if n < 6 {
        return None;
    }
    let day = match parse_u8(s.substring_char(0, 2)) {
        Some(v) => v,
        None => {
            return None;
        },
    };
    let month = match parse_u8(s.substring_char(2, 4)) {
        Some(v) => v,
        None => {
            return None;
        },
    };
    let year = match parse_usize(s.substring_char(4, n)) {
        Some(v) => v,
        None => {
            return None;
        },
    };
    Some(Date { year, month, day })
}

/// Result of reading a coordinate field `dddmm.mmmm`: the first three
/// characters as whole degrees, the remainder as a decimal minute.
pub open spec fn spec_coordinate(s: Seq<char>) -> Option<Cordinate> {
    if s.len() < 3 {
        None
    } else {
        match (
            spec_parse_usize(s.subrange(0, 3)),
            spec_parse_decimal(s.subrange(3, s.len() as int)),
        ) {
            (Some(d), Some(m)) => Some(Cordinate { degree: d, minute: m }),
            _ => None,
        }
    }
}

/// Reads a coordinate field.
pub fn parse_coordinate(s: &str) -> (r: Option<Cordinate>)
    ensures
        r == spec_coordinate(s@),
{
    let n = s.unicode_len();
    if n < 3 {
        return None;
    }
    let degree = match parse_usize(s.substring_char(0, 3)) {
        Some(v) => v,
        None => {
            return None;
        },
    };
    let minute = match parse_decimal(s.substring_char(3, n)) {
        Some(v) => v,
        None => {
            return None;
        },
    };
    Some(Cordinate { degree, minute })
}

// ---------------------------------------------------------------------------
// Small character utilities
// ---------------------------------------------------------------------------

/// First character of `s`, if any.
pub fn first_char(s: &str) -> (r: Option<char>)
    ensures
        r == (if s@.len() > 0 {
            Some(s@[0])
        } else {
            None::<char>
        }),
{
    if s.unicode_len() > 0 {
        Some(s.get_char(0))
    } else {
        None
    }
}

/// The only character of a one-character string, `None` otherwise.
pub open spec fn spec_single_char(s: Seq<char>) -> Option<char> {
    if s.len() == 1 {
        Some(s[0])
    } else {
        None
    }
}

/// Reads a one-character string.
pub fn single_char(s: &str) -> (r: Option<char>)
    ensures
        r == spec_single_char(s@),
{
    if s.unicode_len() == 1 {
        Some(s.get_char(0))
    } else {
        None
    }
}

/// `s` with every comma removed.
pub open spec fn strip_commas(s: Seq<char>) -> Seq<char>
    decreases s.len(),
{
    if s.len() == 0 {
        s
    } else if s[0] == ',' {
        strip_commas(s.drop_first())
    } else {
        seq![s[0]] + strip_commas(s.drop_first())
    }
}

/// Copies `s` with every comma removed.
pub fn strip_commas_str(s: &str) -> (r: String)
    ensures
        r@ == strip_commas(s@),
{
    let n = s.unicode_len();
    let mut out = String::new();
    let mut i: usize = 0;
    proof {
        assert(s@.subrange(0, n as int) =~= s@);
        assert(Seq::<char>::empty() + strip_commas(s@) =~= strip_commas(s@));
    }
    while i < n
        invariant
            n == s@.len(),
            0 <= i <= n,
            strip_commas(s@) =~= out@ + strip_commas(s@.subrange(i as int, n as int)),
        decreases n - i,
    {
        let c = s.get_char(i);
        proof {
            assert(s@.subrange(i as int, n as int)[0] == s@[i as int]);
            assert(s@.subrange(i as int, n as int).drop_first() =~= s@.subrange(
                (i + 1) as int,
                n as int,
            ));
        }
        if c != ',' {
            out.append(s.substring_char(i, i + 1));
            proof {
                assert(s@.subrange(i as int, (i + 1) as int) =~= seq![s@[i as int]]);
            }
        }
        i = i + 1;
    }
    proof {
        assert(strip_commas(s@.subrange(n as int, n as int)) =~= Seq::<char>::empty());
        assert(out@ + Seq::<char>::empty() =~= out@);
    }
    out
}

// ---------------------------------------------------------------------------
// Rendering an integer back to digits
// ---------------------------------------------------------------------------

/// The digit character for a value below ten.
pub open spec fn digit_char_of(d: nat) -> char {
    if d == 0 {
        '0'
    } else if d == 1 {
        '1'
    } else if d == 2 {
        '2'
    } else if d == 3 {
        '3'
    } else if d == 4 {
        '4'
    } else if d == 5 {
        '5'
    } else if d == 6 {
        '6'
    } else if d == 7 {
        '7'
    } else if d == 8 {
        '8'
    } else {
        '9'
    }
}

/// The base-ten digits of `n`, most significant first, with no leading zero
/// except for `n == 0` itself.
pub open spec fn dec_digits_of(n: nat) -> Seq<char>
    decreases n,
{
    if n < 10 {
        seq![digit_char_of(n)]
    } else {
        dec_digits_of(n / 10).push(digit_char_of(n % 10))
    }
}

/// The one-character string for a digit value.
fn digit_str(v: u64) -> (r: &'static str)
    requires
        v < 10,
    ensures
        r@ =~= seq![digit_char_of(v as nat)],
{
    if v == 0 {
        proof {
            reveal_strlit("0");
        }
        "0"
    } else if v == 1 {
        proof {
            reveal_strlit("1");
        }
        "1"
    } else if v == 2 {
        proof {
            reveal_strlit("2");
        }
        "2"
    } else if v == 3 {
        proof {
            reveal_strlit("3");
        }
        "3"
    } else if v == 4 {
        proof {
            reveal_strlit("4");
        }
        "4"
    } else if v == 5 {
        proof {
            reveal_strlit("5");
        }
        "5"
    } else if v == 6 {
        proof {
            reveal_strlit("6");
        }
        "6"
    } else if v == 7 {
        proof {
            reveal_strlit("7");
        }
        "7"
    } else if v == 8 {
        proof {
            reveal_strlit("8");
        }
        "8"
    } else {
        proof {
            reveal_strlit("9");
        }
        "9"
    }
}

/// Renders `v` in base ten with no leading zeroes.
pub fn u64_to_string(v: u64) -> (r: String)
    ensures
        r@ == dec_digits_of(v as nat),
    decreases v,
{
    if v < 10 {
        String::from_str(digit_str(v))
    } else {
        let mut front = u64_to_string(v / 10);
        front.append(digit_str(v % 10));
        proof {
            assert(dec_digits_of((v / 10) as nat) + seq![digit_char_of((v % 10) as nat)]
                =~= dec_digits_of((v / 10) as nat).push(digit_char_of((v % 10) as nat)));
        }
        front
    }
}

/// Renders a count in base ten with no leading zeroes.
pub fn usize_to_string(v: usize) -> (r: String)
    ensures
        r@ == dec_digits_of(v as nat),
{
    u64_to_string(v as u64)
}

} // verus!
