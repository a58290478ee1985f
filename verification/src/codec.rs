//! Delegation record codec.
//!
//! One delegation's stake is written into a single opaque trait value of
//! the form `"<amount>@<denom>"`, with `@` the one reserved delimiter.
//! Amounts are unsigned 128-bit integers written in decimal.  Decoding
//! fails with [`ContractError::MalformedRecord`] when the delimiter is
//! absent or occurs more than once, when the amount part is empty or not
//! all digits, or when the value does not fit 128 bits.
//!
//! The formatter and parser are written here and proved against the
//! mathematical decimal expansion, so the round trip is a theorem
//! ([`lemma_codec_round_trip`]), not a convention.

use vstd::prelude::*;

use crate::error::ContractError;

verus! {

/// The value of a decimal digit character, `-1` for any other character.
pub open spec fn digit_of_char(c: char) -> int {
    if c == '0' {
        0
    } else if c == '1' {
        1
    } else if c == '2' {
        2
    } else if c == '3' {
        3
    } else if c == '4' {
        4
    } else if c == '5' {
        5
    } else if c == '6' {
        6
    } else if c == '7' {
        7
    } else if c == '8' {
        8
    } else if c == '9' {
        9
    } else {
        -1
    }
}

pub open spec fn is_digit(c: char) -> bool {
    digit_of_char(c) != -1
}

/// The character of a decimal digit value in `[0, 9]`.
pub open spec fn char_of_digit(d: int) -> char {
    if d == 0 {
        '0'
    } else if d == 1 {
        '1'
    } else if d == 2 {
        '2'
    } else if d == 3 {
        '3'
    } else if d == 4 {
        '4'
    } else if d == 5 {
        '5'
    } else if d == 6 {
        '6'
    } else if d == 7 {
        '7'
    } else if d == 8 {
        '8'
    } else {
        '9'
    }
}

pub open spec fn all_digits(s: Seq<char>) -> bool {
    forall|i: int| 0 <= i < s.len() ==> is_digit(#[trigger] s[i])
}

/// The integer a digit string denotes, most significant digit first.
pub open spec fn dec_value(s: Seq<char>) -> int
    decreases s.len(),
{
    if s.len() == 0 {
        0
    } else {
        dec_value(s.drop_last()) * 10 + digit_of_char(s.last())
    }
}

/// The canonical decimal expansion of a non-negative integer: no sign, no
/// leading zeros (except for zero itself).
pub open spec fn dec_str(n: int) -> Seq<char>
    decreases n,
{
    if n < 10 {
        seq![char_of_digit(n)]
    } else {
        dec_str(n / 10).push(char_of_digit(n % 10))
    }
}

/// Digit characters and their values correspond, and no digit is the
/// record delimiter.
pub proof fn lemma_digit_char(d: int)
    requires
        0 <= d <= 9,
    ensures
        digit_of_char(char_of_digit(d)) == d,
        is_digit(char_of_digit(d)),
        char_of_digit(d) != '@',
{
}

/// The canonical expansion is non-empty, consists of digits, and denotes
/// the number it expands.
pub proof fn lemma_dec_str(n: int)
    requires
        n >= 0,
    ensures
        dec_str(n).len() >= 1,
        all_digits(dec_str(n)),
        dec_value(dec_str(n)) == n,
    decreases n,
{
    if n < 10 {
        lemma_digit_char(n);
        assert(dec_str(n).drop_last() =~= Seq::<char>::empty());
        assert(dec_value(Seq::<char>::empty()) == 0);
        assert(dec_str(n).last() == char_of_digit(n));
        assert(dec_value(dec_str(n)) == dec_value(dec_str(n).drop_last()) * 10 + digit_of_char(
            dec_str(n).last(),
        ));
    } else {
        lemma_dec_str(n / 10);
        lemma_digit_char(n % 10);
        assert(dec_str(n).drop_last() =~= dec_str(n / 10));
        assert(dec_value(dec_str(n)) == (n / 10) * 10 + n % 10);
        assert(n == 10 * (n / 10) + n % 10) by {
            vstd::arithmetic::div_mod::lemma_fundamental_div_mod(n, 10);
        }
    }
}

pub proof fn lemma_dec_value_nonneg(s: Seq<char>)
    requires
        all_digits(s),
    ensures
        dec_value(s) >= 0,
    decreases s.len(),
{
    if s.len() > 0 {
        lemma_dec_value_nonneg(s.drop_last());
    }
}

/// A digit string denotes at least what any of its prefixes denotes.
pub proof fn lemma_dec_value_prefix(s: Seq<char>, i: int)
    requires
        all_digits(s),
        0 <= i <= s.len(),
    ensures
        dec_value(s.subrange(0, i)) <= dec_value(s),
    decreases s.len() - i,
{
    if i < s.len() {
        assert(s.subrange(0, i + 1).drop_last() =~= s.subrange(0, i));
        assert(forall|j: int| 0 <= j < i + 1 ==> is_digit(#[trigger] s.subrange(0, i + 1)[j]));
        lemma_dec_value_nonneg(s.subrange(0, i));
        lemma_dec_value_prefix(s, i + 1);
    } else {
        assert(s.subrange(0, i) =~= s);
    }
}

/// The digit value of a character, or `None` for a non-digit.
fn digit_val(c: char) -> (r: Option<u8>)
    ensures
        match r {
            Some(d) => is_digit(c) && d as int == digit_of_char(c),
            None => !is_digit(c),
        },
{
    match c {
        '0' => Some(0),
        '1' => Some(1),
        '2' => Some(2),
        '3' => Some(3),
        '4' => Some(4),
        '5' => Some(5),
        '6' => Some(6),
        '7' => Some(7),
        '8' => Some(8),
        '9' => Some(9),
        _ => None,
    }
}

/// The one-character string of a digit value.
fn digit_str(d: u8) -> (r: &'static str)
    requires
        d < 10,
    ensures
        r@ =~= seq![char_of_digit(d as int)],
{
    let r: &'static str = if d == 0 {
        "0"
    } else if d == 1 {
        "1"
    } else if d == 2 {
        "2"
    } else if d == 3 {
        "3"
    } else if d == 4 {
        "4"
    } else if d == 5 {
        "5"
    } else if d == 6 {
        "6"
    } else if d == 7 {
        "7"
    } else if d == 8 {
        "8"
    } else {
        "9"
    };
    proof {
        reveal_strlit("0");
        reveal_strlit("1");
        reveal_strlit("2");
        reveal_strlit("3");
        reveal_strlit("4");
        reveal_strlit("5");
        reveal_strlit("6");
        reveal_strlit("7");
        reveal_strlit("8");
        reveal_strlit("9");
    }
    r
}

/// Appends the decimal expansion of `n` to `out`.
fn push_dec(n: u128, out: &mut String)
    ensures
        final (out)@ == old(out)@ + dec_str(n as int),
    decreases n,
{
    if n >= 10 {
        push_dec(n / 10, out);
        out.append(digit_str((n % 10) as u8));
        proof {
            assert(dec_str(n as int) =~= dec_str(n as int / 10) + seq![
                char_of_digit(n as int % 10),
            ]);
            assert(final (out)@ =~= old(out)@ + dec_str(n as int));
        }
    } else {
        out.append(digit_str(n as u8));
        proof {
            assert(final (out)@ =~= old(out)@ + dec_str(n as int));
        }
    }
}

/// The decimal expansion of a 128-bit amount, as a fresh string.
pub fn format_u128(n: u128) -> (r: String)
    ensures
        r@ == dec_str(n as int),
{
    let mut out = String::new();
    push_dec(n, &mut out);
    proof {
        assert(out@ =~= dec_str(n as int));
    }
    out
}

/// The decimal expansion of a 64-bit counter or identifier.
pub fn format_u64(n: u64) -> (r: String)
    ensures
        r@ == dec_str(n as int),
{
    format_u128(n as u128)
}

/// Parses a decimal digit string into a 128-bit amount.
///
/// Returns `None` exactly when the string is empty, contains a non-digit,
/// or denotes a value above `u128::MAX`.
pub fn parse_u128(s: &str) -> (r: Option<u128>)
    ensures
        match r {
            Some(v) => s@.len() > 0 && all_digits(s@) && v as int == dec_value(s@),
            None => s@.len() == 0 || !all_digits(s@) || dec_value(s@) > u128::MAX as int,
        },
{
    let len = s.unicode_len();
    if len == 0 {
        return None;
    }
    let mut acc: u128 = 0;
    let mut i: usize = 0;
    while i < len
        invariant
            0 <= i <= len,
            len == s@.len(),
            acc as int == dec_value(s@.subrange(0, i as int)),
            forall|j: int| 0 <= j < i ==> is_digit(#[trigger] s@[j]),
        decreases len - i,
    {
        let c = s.get_char(i);
        let d = match digit_val(c) {
            Some(d) => d,
            None => {
                return None;
            },
        };
        proof {
            assert(s@.subrange(0, i + 1).drop_last() =~= s@.subrange(0, i as int));
            assert(forall|j: int|
                0 <= j < i + 1 ==> is_digit(#[trigger] s@.subrange(0, i + 1)[j]));
        }
        if acc > u128::MAX / 10 || (acc == u128::MAX / 10 && d > (u128::MAX % 10) as u8) {
            proof {
                if all_digits(s@) {
                    lemma_dec_value_prefix(s@, i + 1);
                }
            }
            return None;
        }
        acc = acc * 10 + (d as u128);
        i = i + 1;
    }
    proof {
        assert(s@.subrange(0, len as int) =~= s@);
    }
    Some(acc)
}

/// `i` splits `s` at its only delimiter: `s[i]` is `@` and no other
/// position is.
pub open spec fn is_delim_split(s: Seq<char>, i: int) -> bool {
    &&& 0 <= i < s.len()
    &&& s[i] == '@'
    &&& forall|j: int| 0 <= j < s.len() && j != i ==> s[j] != '@'
}

/// The encoded trait value of one delegation's stake.
pub open spec fn spec_encode(amount: int, denom: Seq<char>) -> Seq<char> {
    dec_str(amount) + seq!['@'] + denom
}

/// What decoding a trait value yields: the amount before the unique
/// delimiter and the denomination after it, or `None` when the value is
/// malformed.
pub open spec fn spec_decode(s: Seq<char>) -> Option<(int, Seq<char>)> {
    if exists|i: int| is_delim_split(s, i) {
        let i = choose|i: int| is_delim_split(s, i);
        let amount = s.subrange(0, i);
        let denom = s.subrange(i + 1, s.len() as int);
        if amount.len() > 0 && all_digits(amount) && dec_value(amount) <= u128::MAX as int {
            Some((dec_value(amount), denom))
        } else {
            None
        }
    } else {
        None
    }
}

/// Encodes an amount and denomination into one trait value.
pub fn encode_value(amount: u128, denom: &str) -> (r: String)
    ensures
        r@ == spec_encode(amount as int, denom@),
{
    let mut out = format_u128(amount);
    out.append("@");
    out.append(denom);
    proof {
        reveal_strlit("@");
        assert("@"@ =~= seq!['@']);
        assert(out@ =~= spec_encode(amount as int, denom@));
    }
    out
}

/// Decodes one trait value back into an amount and denomination.
///
/// Fails with [`ContractError::MalformedRecord`] exactly when
/// [`spec_decode`] yields nothing.
pub fn decode_value(s: &str) -> (r: Result<(u128, String), ContractError>)
    ensures
        match r {
            Ok(pair) => spec_decode(s@) == Some((pair.0 as int, pair.1@)),
            Err(e) => spec_decode(s@) is None && e == (ContractError::MalformedRecord {  }),
        },
{
    let len = s.unicode_len();
    let mut delim: Option<usize> = None;
    let mut i: usize = 0;
    while i < len
        invariant
            0 <= i <= len,
            len == s@.len(),
            match delim {
                Some(k) => 0 <= k < i && s@[k as int] == '@' && forall|j: int|
                    0 <= j < i && j != k ==> s@[j] != '@',
                None => forall|j: int| 0 <= j < i ==> s@[j] != '@',
            },
        decreases len - i,
    {
        if s.get_char(i) == '@' {
            match delim {
                Some(_) => {
                    proof {
                        assert(forall|k: int| !is_delim_split(s@, k));
                    }
                    return Err(ContractError::MalformedRecord {  });
                },
                None => {
                    delim = Some(i);
                },
            }
        }
        i = i + 1;
    }
    let at = match delim {
        Some(k) => k,
        None => {
            proof {
                assert(forall|k: int| !is_delim_split(s@, k));
            }
            return Err(ContractError::MalformedRecord {  });
        },
    };
    proof {
        assert(is_delim_split(s@, at as int));
        let w = choose|i: int| is_delim_split(s@, i);
        assert(w == at as int);
    }
    let amount_part = s.substring_char(0, at);
    let denom_part = s.substring_char(at + 1, len);
    match parse_u128(amount_part) {
        Some(v) => Ok((v, denom_part.to_owned())),
        None => {
            proof {
                lemma_dec_value_nonneg_or_not(s@.subrange(0, at as int));
            }
            Err(ContractError::MalformedRecord {  })
        },
    }
}

/// A digit string never denotes a negative value, stated in the form the
/// decoder's failure path needs.
proof fn lemma_dec_value_nonneg_or_not(s: Seq<char>)
    ensures
        all_digits(s) ==> dec_value(s) >= 0,
{
    if all_digits(s) {
        lemma_dec_value_nonneg(s);
    }
}

/// The round trip: any amount paired with any denomination that does
/// not contain the delimiter decodes, after encoding, to exactly the pair
/// it came from.
pub proof fn lemma_codec_round_trip(amount: int, denom: Seq<char>)
    requires
        0 <= amount <= u128::MAX as int,
        !denom.contains('@'),
    ensures
        spec_decode(spec_encode(amount, denom)) == Some((amount, denom)),
{
    lemma_dec_str(amount);
    let s = spec_encode(amount, denom);
    let n = dec_str(amount).len();
    assert forall|j: int| 0 <= j < n implies s[j] != '@' by {
        assert(is_digit(dec_str(amount)[j]));
        assert(s[j] == dec_str(amount)[j]);
    }
    assert forall|j: int| n < j < s.len() implies s[j] != '@' by {
        assert(s[j] == denom[j - n - 1]);
        assert(!denom.contains('@'));
        if denom[j - n - 1] == '@' {
            assert(denom.contains('@'));
        }
    }
    assert(s[n as int] == '@');
    assert(is_delim_split(s, n as int));
    let w = choose|i: int| is_delim_split(s, i);
    assert(w == n as int);
    assert(s.subrange(0, n as int) =~= dec_str(amount));
    assert(s.subrange(n as int + 1, s.len() as int) =~= denom);
}

/// Whether two string slices hold the same characters.
pub fn str_eq(a: &str, b: &str) -> (r: bool)
    ensures
        r == (a@ == b@),
{
    let alen = a.unicode_len();
    let blen = b.unicode_len();
    if alen != blen {
        return false;
    }
    let mut i: usize = 0;
    while i < alen
        invariant
            0 <= i <= alen,
            alen == a@.len(),
            blen == b@.len(),
            alen == blen,
            forall|j: int| 0 <= j < i ==> a@[j] == b@[j],
        decreases alen - i,
    {
        if a.get_char(i) != b.get_char(i) {
            return false;
        }
        i = i + 1;
    }
    proof {
        assert(a@ =~= b@);
    }
    true
}

} // verus!
