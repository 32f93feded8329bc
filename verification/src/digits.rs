//! Textual numerals: the `0x`-prefixed lowercase hexadecimal form in which
//! the upstream client renders quantities, and the decimal form used for
//! command-line arguments and output file names.

use vstd::prelude::*;
use vstd::arithmetic::div_mod::lemma_fundamental_div_mod;
use vstd::string::StrSliceExecFns;
use vstd::string::StringExecFns;

verus! {

// ---------------------------------------------------------------------------
// Hexadecimal
// ---------------------------------------------------------------------------

/// `c` is a lowercase hexadecimal digit.
pub open spec fn is_hex_digit(c: char) -> bool {
    ('0' <= c && c <= '9') || ('a' <= c && c <= 'f')
}

/// The lowercase hexadecimal digit for a value below sixteen.
pub open spec fn hex_digit_char(d: nat) -> char {
    if d == 0 { '0' } else if d == 1 { '1' } else if d == 2 { '2' }
    else if d == 3 { '3' } else if d == 4 { '4' } else if d == 5 { '5' }
    else if d == 6 { '6' } else if d == 7 { '7' } else if d == 8 { '8' }
    else if d == 9 { '9' } else if d == 10 { 'a' } else if d == 11 { 'b' }
    else if d == 12 { 'c' } else if d == 13 { 'd' } else if d == 14 { 'e' }
    else { 'f' }
}

/// The value of a lowercase hexadecimal digit (zero on any other character).
pub open spec fn hex_char_val(c: char) -> nat {
    if c == '0' { 0 } else if c == '1' { 1 } else if c == '2' { 2 }
    else if c == '3' { 3 } else if c == '4' { 4 } else if c == '5' { 5 }
    else if c == '6' { 6 } else if c == '7' { 7 } else if c == '8' { 8 }
    else if c == '9' { 9 } else if c == 'a' { 10 } else if c == 'b' { 11 }
    else if c == 'c' { 12 } else if c == 'd' { 13 } else if c == 'e' { 14 }
    else if c == 'f' { 15 } else { 0 }
}

/// The hexadecimal digits of `n`, most significant first, no leading zeros
/// (a single `0` for zero).
pub open spec fn spec_hex_digits(n: nat) -> Seq<char>
    decreases n,
{
    if n < 16 {
        seq![hex_digit_char(n)]
    } else {
        spec_hex_digits(n / 16).push(hex_digit_char(n % 16))
    }
}

/// The canonical upstream text of a quantity: `0x` and its hex digits.
pub open spec fn spec_hex_text(n: nat) -> Seq<char> {
    seq!['0', 'x'] + spec_hex_digits(n)
}

/// The text has a `0x` prefix followed only by lowercase hex digits
/// (possibly none, as in the rendering of an empty byte string).
pub open spec fn is_hex_text(s: Seq<char>) -> bool {
    s.len() >= 2 && s[0] == '0' && s[1] == 'x'
        && (forall|i: int| 2 <= i < s.len() ==> is_hex_digit(#[trigger] s[i]))
}

/// The value of a sequence of hexadecimal digits, most significant first.
pub open spec fn spec_hex_val(s: Seq<char>) -> nat
    decreases s.len(),
{
    if s.len() == 0 {
        0
    } else {
        spec_hex_val(s.drop_last()) * 16 + hex_char_val(s.last())
    }
}

/// What parsing a `0x`-prefixed hexadecimal numeral yields: the value when
/// the text has at least one digit, only hex digits, and fits in 64 bits;
/// nothing otherwise.
pub open spec fn spec_parse_hex_text(s: Seq<char>) -> Option<u64> {
    if s.len() >= 3 && s[0] == '0' && s[1] == 'x'
        && (forall|i: int| 2 <= i < s.len() ==> is_hex_digit(#[trigger] s[i]))
        && spec_hex_val(s.subrange(2, s.len() as int)) <= u64::MAX
    {
        Some(spec_hex_val(s.subrange(2, s.len() as int)) as u64)
    } else {
        None
    }
}

pub proof fn lemma_hex_digit_char_val(d: nat)
    requires
        d < 16,
    ensures
        hex_char_val(hex_digit_char(d)) == d,
        is_hex_digit(hex_digit_char(d)),
{
}

/// The digit string of `n` is non-empty and holds hex digits only.
pub proof fn lemma_hex_digits_wf(n: nat)
    ensures
        spec_hex_digits(n).len() >= 1,
        forall|i: int|
            0 <= i < spec_hex_digits(n).len() ==> is_hex_digit(
                #[trigger] spec_hex_digits(n)[i],
            ),
    decreases n,
{
    if n < 16 {
        lemma_hex_digit_char_val(n);
    } else {
        lemma_hex_digits_wf(n / 16);
        lemma_hex_digit_char_val(n % 16);
    }
}

/// Reading the digit string of `n` back gives `n`.
pub proof fn lemma_hex_val_of_digits(n: nat)
    ensures
        spec_hex_val(spec_hex_digits(n)) == n,
    decreases n,
{
    if n < 16 {
        let s = spec_hex_digits(n);
        assert(s == seq![hex_digit_char(n)]);
        assert(s.len() == 1);
        assert(s.drop_last() =~= Seq::<char>::empty());
        assert(s.last() == hex_digit_char(n));
        lemma_hex_digit_char_val(n);
        assert(spec_hex_val(s) == spec_hex_val(s.drop_last()) * 16 + hex_char_val(s.last()));
        assert(spec_hex_val(s.drop_last()) == 0);
        assert(spec_hex_val(s) == n);
    } else {
        lemma_hex_val_of_digits(n / 16);
        lemma_hex_digit_char_val(n % 16);
        let s = spec_hex_digits(n);
        assert(s == spec_hex_digits(n / 16).push(hex_digit_char(n % 16)));
        assert(s.drop_last() =~= spec_hex_digits(n / 16));
        assert(s.last() == hex_digit_char(n % 16));
        assert(spec_hex_val(s) == spec_hex_val(s.drop_last()) * 16 + hex_char_val(s.last()));
        assert(spec_hex_val(s) == (n / 16) * 16 + (n % 16));
        lemma_fundamental_div_mod(n as int, 16);
        assert(n == 16 * (n as int / 16) + (n as int % 16));
        assert(spec_hex_val(s) == n);
    }
}

/// The value of a digit prefix never exceeds the value of the whole string.
pub proof fn lemma_hex_val_prefix_le(t: Seq<char>, j: int)
    requires
        0 <= j <= t.len(),
    ensures
        spec_hex_val(t.subrange(0, j)) <= spec_hex_val(t),
    decreases t.len() - j,
{
    if j == t.len() {
        assert(t.subrange(0, j) =~= t);
    } else {
        assert(t.subrange(0, j + 1).drop_last() =~= t.subrange(0, j));
        assert(t.subrange(0, j + 1).last() == t[j]);
        lemma_hex_val_prefix_le(t, j + 1);
    }
}

/// Round trip: parsing the rendered hexadecimal text of `n` yields `n`.
pub proof fn lemma_parse_of_hex_text(n: u64)
    ensures
        spec_parse_hex_text(spec_hex_text(n as nat)) == Some(n),
{
    let s = spec_hex_text(n as nat);
    lemma_hex_digits_wf(n as nat);
    lemma_hex_val_of_digits(n as nat);
    assert(s.subrange(2, s.len() as int) =~= spec_hex_digits(n as nat));
}

/// The one-character string for a hexadecimal digit value.
fn hex_digit_str(d: u64) -> (s: &'static str)
    requires
        d < 16,
    ensures
        s@.len() == 1,
        s@[0] == hex_digit_char(d as nat),
{
    proof {
        reveal_strlit("0");
        reveal_strlit("1");
        reveal_strlit("2");
        reveal_strlit("3");
        reveal_strlit("4");
        reveal_strlit("5");
        reveal_strlit("6");
        reveal_strlit("7");
        reveal_strlit("8");
        reveal_strlit("9");
        reveal_strlit("a");
        reveal_strlit("b");
        reveal_strlit("c");
        reveal_strlit("d");
        reveal_strlit("e");
        reveal_strlit("f");
    }
    match d {
        0 => "0",
        1 => "1",
        2 => "2",
        3 => "3",
        4 => "4",
        5 => "5",
        6 => "6",
        7 => "7",
        8 => "8",
        9 => "9",
        10 => "a",
        11 => "b",
        12 => "c",
        13 => "d",
        14 => "e",
        _ => "f",
    }
}

/// The hexadecimal digits of `n`, most significant first.
fn hex_digits_string(n: u64) -> (s: String)
    ensures
        s@ == spec_hex_digits(n as nat),
    decreases n,
{
    if n < 16 {
        let d = hex_digit_str(n);
        let s = d.to_owned();
        proof {
            assert(s@ =~= spec_hex_digits(n as nat));
        }
        s
    } else {
        let mut s = hex_digits_string(n / 16);
        s.append(hex_digit_str(n % 16));
        proof {
            assert(s@ =~= spec_hex_digits(n as nat));
        }
        s
    }
}

/// Renders `n` in the upstream canonical form, `0x` plus lowercase hex.
pub fn hex_text_of(n: u64) -> (s: String)
    ensures
        s@ == spec_hex_text(n as nat),
        is_hex_text(s@),
{
    proof {
        reveal_strlit("0x");
    }
    let mut s = String::from_str("0x");
    s.append(hex_digits_string(n).as_str());
    proof {
        assert(s@ =~= spec_hex_text(n as nat));
        lemma_hex_digits_wf(n as nat);
    }
    s
}

/// Decides whether a text is `0x` followed only by lowercase hex digits.
pub fn check_hex_text(s: &str) -> (b: bool)
    ensures
        b == is_hex_text(s@),
{
    let n = s.unicode_len();
    if n < 2 {
        return false;
    }
    if s.get_char(0) != '0' || s.get_char(1) != 'x' {
        return false;
    }
    let mut i: usize = 2;
    while i < n
        invariant
            2 <= i <= n,
            n == s@.len(),
            s@[0] == '0',
            s@[1] == 'x',
            forall|k: int| 2 <= k < i ==> is_hex_digit(#[trigger] s@[k]),
        decreases n - i,
    {
        let c = s.get_char(i);
        if !(('0' <= c && c <= '9') || ('a' <= c && c <= 'f')) {
            return false;
        }
        i += 1;
    }
    true
}

/// Parses a `0x`-prefixed lowercase hexadecimal numeral into a `u64`.
pub fn parse_hex_u64(s: &str) -> (r: Option<u64>)
    ensures
        r == spec_parse_hex_text(s@),
{
    let n = s.unicode_len();
    if n < 3 {
        return None;
    }
    if s.get_char(0) != '0' || s.get_char(1) != 'x' {
        return None;
    }
    let ghost t = s@.subrange(2, s@.len() as int);
    let mut acc: u64 = 0;
    let mut i: usize = 2;
    while i < n
        invariant
            2 <= i <= n,
            n == s@.len(),
            s@[0] == '0',
            s@[1] == 'x',
            t == s@.subrange(2, s@.len() as int),
            forall|k: int| 2 <= k < i ==> is_hex_digit(#[trigger] s@[k]),
            acc == spec_hex_val(t.subrange(0, i - 2)),
        decreases n - i,
    {
        let c = s.get_char(i);
        if !(('0' <= c && c <= '9') || ('a' <= c && c <= 'f')) {
            return None;
        }
        let d: u64 = if c <= '9' {
            (c as u64) - ('0' as u64)
        } else {
            (c as u64) - ('a' as u64) + 10
        };
        proof {
            assert(d == hex_char_val(c));
            assert(t.subrange(0, i - 2 + 1).drop_last() =~= t.subrange(0, i - 2));
            assert(t.subrange(0, i - 2 + 1).last() == s@[i as int]);
        }
        let shifted = match acc.checked_mul(16) {
            Some(v) => v,
            None => {
                proof {
                    lemma_hex_val_prefix_le(t, i - 2 + 1);
                }
                return None;
            },
        };
        acc = match shifted.checked_add(d) {
            Some(v) => v,
            None => {
                proof {
                    lemma_hex_val_prefix_le(t, i - 2 + 1);
                }
                return None;
            },
        };
        i += 1;
    }
    proof {
        assert(t.subrange(0, n - 2) =~= t);
    }
    Some(acc)
}

// ---------------------------------------------------------------------------
// Decimal
// ---------------------------------------------------------------------------

/// `c` is a decimal digit.
pub open spec fn is_dec_digit(c: char) -> bool {
    '0' <= c && c <= '9'
}

/// The decimal digit for a value below ten.
pub open spec fn dec_digit_char(d: nat) -> char {
    if d == 0 { '0' } else if d == 1 { '1' } else if d == 2 { '2' }
    else if d == 3 { '3' } else if d == 4 { '4' } else if d == 5 { '5' }
    else if d == 6 { '6' } else if d == 7 { '7' } else if d == 8 { '8' }
    else { '9' }
}

/// The value of a decimal digit (zero on any other character).
pub open spec fn dec_char_val(c: char) -> nat {
    if c == '0' { 0 } else if c == '1' { 1 } else if c == '2' { 2 }
    else if c == '3' { 3 } else if c == '4' { 4 } else if c == '5' { 5 }
    else if c == '6' { 6 } else if c == '7' { 7 } else if c == '8' { 8 }
    else if c == '9' { 9 } else { 0 }
}

/// The decimal digits of `n`, most significant first, no leading zeros.
pub open spec fn spec_dec_digits(n: nat) -> Seq<char>
    decreases n,
{
    if n < 10 {
        seq![dec_digit_char(n)]
    } else {
        spec_dec_digits(n / 10).push(dec_digit_char(n % 10))
    }
}

/// The value of a sequence of decimal digits, most significant first.
pub open spec fn spec_dec_val(s: Seq<char>) -> nat
    decreases s.len(),
{
    if s.len() == 0 {
        0
    } else {
        spec_dec_val(s.drop_last()) * 10 + dec_char_val(s.last())
    }
}

/// What parsing a decimal numeral yields: the value when the text is
/// non-empty, all digits, and fits in 64 bits; nothing otherwise.
pub open spec fn spec_parse_dec_text(s: Seq<char>) -> Option<u64> {
    if s.len() >= 1
        && (forall|i: int| 0 <= i < s.len() ==> is_dec_digit(#[trigger] s[i]))
        && spec_dec_val(s) <= u64::MAX
    {
        Some(spec_dec_val(s) as u64)
    } else {
        None
    }
}

/// The value of a decimal digit prefix never exceeds that of the whole.
pub proof fn lemma_dec_val_prefix_le(t: Seq<char>, j: int)
    requires
        0 <= j <= t.len(),
    ensures
        spec_dec_val(t.subrange(0, j)) <= spec_dec_val(t),
    decreases t.len() - j,
{
    if j == t.len() {
        assert(t.subrange(0, j) =~= t);
    } else {
        assert(t.subrange(0, j + 1).drop_last() =~= t.subrange(0, j));
        assert(t.subrange(0, j + 1).last() == t[j]);
        lemma_dec_val_prefix_le(t, j + 1);
    }
}

pub proof fn lemma_dec_digit_char_val(d: nat)
    requires
        d < 10,
    ensures
        dec_char_val(dec_digit_char(d)) == d,
        is_dec_digit(dec_digit_char(d)),
{
}

/// The decimal digit string of `n` is non-empty and holds digits only.
pub proof fn lemma_dec_digits_wf(n: nat)
    ensures
        spec_dec_digits(n).len() >= 1,
        forall|i: int|
            0 <= i < spec_dec_digits(n).len() ==> is_dec_digit(
                #[trigger] spec_dec_digits(n)[i],
            ),
    decreases n,
{
    if n < 10 {
        lemma_dec_digit_char_val(n);
    } else {
        lemma_dec_digits_wf(n / 10);
        lemma_dec_digit_char_val(n % 10);
    }
}

/// Reading the decimal digit string of `n` back gives `n`.
pub proof fn lemma_dec_val_of_digits(n: nat)
    ensures
        spec_dec_val(spec_dec_digits(n)) == n,
    decreases n,
{
    if n < 10 {
        let s = spec_dec_digits(n);
        assert(s == seq![dec_digit_char(n)]);
        assert(s.drop_last() =~= Seq::<char>::empty());
        assert(s.last() == dec_digit_char(n));
        lemma_dec_digit_char_val(n);
        assert(spec_dec_val(s) == spec_dec_val(s.drop_last()) * 10 + dec_char_val(s.last()));
        assert(spec_dec_val(s.drop_last()) == 0);
    } else {
        lemma_dec_val_of_digits(n / 10);
        lemma_dec_digit_char_val(n % 10);
        let s = spec_dec_digits(n);
        assert(s == spec_dec_digits(n / 10).push(dec_digit_char(n % 10)));
        assert(s.drop_last() =~= spec_dec_digits(n / 10));
        assert(s.last() == dec_digit_char(n % 10));
        assert(spec_dec_val(s) == spec_dec_val(s.drop_last()) * 10 + dec_char_val(s.last()));
        assert(spec_dec_val(s) == (n / 10) * 10 + (n % 10));
        lemma_fundamental_div_mod(n as int, 10);
        assert(n == 10 * (n as int / 10) + (n as int % 10));
    }
}

/// Round trip: parsing the rendered decimal text of `n` yields `n`, so
/// any block number can be given back to the program exactly as it is
/// rendered.
pub proof fn lemma_parse_of_dec_text(n: u64)
    ensures
        spec_parse_dec_text(spec_dec_digits(n as nat)) == Some(n),
{
    lemma_dec_digits_wf(n as nat);
    lemma_dec_val_of_digits(n as nat);
}

/// The one-character string for a decimal digit value.
fn dec_digit_str(d: u64) -> (s: &'static str)
    requires
        d < 10,
    ensures
        s@.len() == 1,
        s@[0] == dec_digit_char(d as nat),
{
    proof {
        reveal_strlit("0");
        reveal_strlit("1");
        reveal_strlit("2");
        reveal_strlit("3");
        reveal_strlit("4");
        reveal_strlit("5");
        reveal_strlit("6");
        reveal_strlit("7");
        reveal_strlit("8");
        reveal_strlit("9");
    }
    match d {
        0 => "0",
        1 => "1",
        2 => "2",
        3 => "3",
        4 => "4",
        5 => "5",
        6 => "6",
        7 => "7",
        8 => "8",
        _ => "9",
    }
}

/// Renders `n` in decimal, most significant digit first.
pub fn dec_text_of(n: u64) -> (s: String)
    ensures
        s@ == spec_dec_digits(n as nat),
    decreases n,
{
    if n < 10 {
        let s = dec_digit_str(n).to_owned();
        proof {
            assert(s@ =~= spec_dec_digits(n as nat));
        }
        s
    } else {
        let mut s = dec_text_of(n / 10);
        s.append(dec_digit_str(n % 10));
        proof {
            assert(s@ =~= spec_dec_digits(n as nat));
        }
        s
    }
}

/// Parses a decimal numeral into a `u64`.
pub fn parse_dec_u64(s: &str) -> (r: Option<u64>)
    ensures
        r == spec_parse_dec_text(s@),
{
    let n = s.unicode_len();
    if n == 0 {
        return None;
    }
    let mut acc: u64 = 0;
    let mut i: usize = 0;
    while i < n
        invariant
            0 <= i <= n,
            n == s@.len(),
            forall|k: int| 0 <= k < i ==> is_dec_digit(#[trigger] s@[k]),
            acc == spec_dec_val(s@.subrange(0, i as int)),
        decreases n - i,
    {
        let c = s.get_char(i);
        if !('0' <= c && c <= '9') {
            return None;
        }
        let d: u64 = (c as u64) - ('0' as u64);
        proof {
            assert(d == dec_char_val(c));
            assert(s@.subrange(0, i + 1).drop_last() =~= s@.subrange(0, i as int));
            assert(s@.subrange(0, i + 1).last() == s@[i as int]);
        }
        let shifted = match acc.checked_mul(10) {
            Some(v) => v,
            None => {
                proof {
                    lemma_dec_val_prefix_le(s@, i + 1);
                    assert(s@.subrange(0, s@.len() as int) =~= s@);
                }
                return None;
            },
        };
        acc = match shifted.checked_add(d) {
            Some(v) => v,
            None => {
                proof {
                    lemma_dec_val_prefix_le(s@, i + 1);
                    assert(s@.subrange(0, s@.len() as int) =~= s@);
                }
                return None;
            },
        };
        i += 1;
    }
    proof {
        assert(s@.subrange(0, n as int) =~= s@);
    }
    Some(acc)
}

} // verus!
