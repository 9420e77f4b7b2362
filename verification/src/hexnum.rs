//! Numeric literals and their hexadecimal renderings.
//!
//! A literal operand is either a run of decimal digits or a `0x`-prefixed run
//! of hexadecimal digits. Both are rendered as an uppercase hex string of
//! whole bytes: an even number of digits, with one `'0'` prepended when the
//! minimal rendering would be odd, and the empty string for the value zero.

use crate::chars::{
    digit_val, hex_val, is_dec_digit, is_dec_digit_char, is_hex_digit, is_hex_digit_char,
    is_upper_hex, upper_char, upper_seq,
};
use vstd::prelude::*;

verus! {

/// The numeric value of a run of decimal digits.
pub open spec fn dec_val(s: Seq<char>) -> nat
    decreases s.len(),
{
    if s.len() == 0 {
        0
    } else {
        dec_val(s.drop_last()) * 10 + digit_val(s.last())
    }
}

/// The least value that does not fit in 256 bits.
pub open spec fn pow2_256() -> nat {
    0x10000000000000000000000000000000000000000000000000000000000000000nat
}

/// The digit characters of an uppercase hexadecimal rendering, one per value
/// `0` through `15`.
pub open spec fn hex_digit_char(d: nat) -> char {
    if d == 0 {
        '0'
    } else if d == 1 {
        '1'
    } else if d == 2 {
        '2'
    } else if d == 3 {
        '3'
    } else if d == 4 {
        '4'
    } else if d == 5 {
        '5'
    } else if d == 6 {
        '6'
    } else if d == 7 {
        '7'
    } else if d == 8 {
        '8'
    } else if d == 9 {
        '9'
    } else if d == 10 {
        'A'
    } else if d == 11 {
        'B'
    } else if d == 12 {
        'C'
    } else if d == 13 {
        'D'
    } else if d == 14 {
        'E'
    } else {
        'F'
    }
}

/// The minimal big-endian uppercase hexadecimal rendering of a value: no
/// leading zero digit, and empty for zero.
pub open spec fn hex_of(n: nat) -> Seq<char>
    decreases n,
{
    if n == 0 {
        Seq::empty()
    } else {
        hex_of(n / 16) + seq![hex_digit_char(n % 16)]
    }
}


/// Every character of a minimal hexadecimal rendering is an uppercase hex
/// digit.
pub proof fn lemma_hex_of_wf(n: nat)
    ensures
        forall|i: int| 0 <= i < hex_of(n).len() ==> is_upper_hex(#[trigger] hex_of(n)[i]),
    decreases n,
{
    if n > 0 {
        lemma_hex_of_wf(n / 16);
        let front = hex_of(n / 16);
        assert(is_upper_hex(hex_digit_char(n % 16)));
        assert forall|i: int| 0 <= i < hex_of(n).len() implies is_upper_hex(
            #[trigger] hex_of(n)[i],
        ) by {
            if i < front.len() {
                assert(hex_of(n)[i] == front[i]);
            } else {
                assert(hex_of(n)[i] == hex_digit_char(n % 16));
            }
        }
    }
}

/// The rendering `{:X}` produces: minimal uppercase hex digits, `"0"` for zero.
pub open spec fn upper_hex_str(n: nat) -> Seq<char> {
    if n == 0 {
        seq!['0']
    } else {
        hex_of(n)
    }
}

/// The whole-byte uppercase hexadecimal rendering of a value: the minimal
/// rendering, preceded by one `'0'` when that rendering has odd length.
pub open spec fn bytes_hex_of(n: nat) -> Seq<char> {
    if hex_of(n).len() % 2 == 1 {
        seq!['0'] + hex_of(n)
    } else {
        hex_of(n)
    }
}

/// The minimal number of whole bytes that hold a value; zero holds in none.
pub open spec fn byte_width_of(n: nat) -> nat {
    bytes_hex_of(n).len() / 2
}

/// The whole-byte uppercase rendering of a run of hexadecimal digits: the
/// digits uppercased, preceded by one `'0'` when the run has odd length.
pub open spec fn canon_hex_digits(d: Seq<char>) -> Seq<char> {
    if d.len() % 2 == 1 {
        seq!['0'] + upper_seq(d)
    } else {
        upper_seq(d)
    }
}

/// Relies on `num256::Uint256`: `from_str` on a run of decimal digits parses
/// it as an unsigned 256-bit integer, failing exactly when the value needs
/// more than 256 bits, and `{:X}` formats the parsed value as its minimal
/// uppercase hexadecimal digits, `"0"` for zero.
#[verifier::external_body]
fn uint256_dec_to_hex(s: &str) -> (r: Option<String>)
    requires
        s@.len() > 0,
        forall|i: int| 0 <= i < s@.len() ==> is_dec_digit(#[trigger] s@[i]),
    ensures
        r is Some <==> dec_val(s@) < pow2_256(),
        r matches Some(h) ==> h@ == upper_hex_str(dec_val(s@)),
{
    match <num256::Uint256 as std::str::FromStr>::from_str(s) {
        Ok(v) => Some(format!("{:X}", v)),
        Err(_) => None,
    }
}

/// Whether a run of decimal digits names a value that fits in 256 bits.
pub fn dec_str_fits(s: &str) -> (b: bool)
    requires
        s@.len() > 0,
        forall|i: int| 0 <= i < s@.len() ==> is_dec_digit(#[trigger] s@[i]),
    ensures
        b == (dec_val(s@) < pow2_256()),
{
    uint256_dec_to_hex(s).is_some()
}

/// A run of decimal digits names zero exactly when every digit is `'0'`.
pub proof fn lemma_dec_val_zero(s: Seq<char>)
    requires
        forall|i: int| 0 <= i < s.len() ==> is_dec_digit(#[trigger] s[i]),
    ensures
        (dec_val(s) == 0) <==> (forall|i: int| 0 <= i < s.len() ==> s[i] == '0'),
    decreases s.len(),
{
    if s.len() > 0 {
        let front = s.drop_last();
        lemma_dec_val_zero(front);
        assert(forall|i: int| 0 <= i < front.len() ==> front[i] == #[trigger] s[i]);
        assert(s.last() == s[s.len() - 1]);
    }
}

fn all_zero_digits(s: &str) -> (b: bool)
    requires
        forall|i: int| 0 <= i < s@.len() ==> is_dec_digit(#[trigger] s@[i]),
    ensures
        b == (dec_val(s@) == 0),
{
    let n = s.unicode_len();
    let mut k: usize = 0;
    let mut all_zero = true;
    while k < n
        invariant
            0 <= k <= n,
            n == s@.len(),
            forall|i: int| 0 <= i < s@.len() ==> is_dec_digit(#[trigger] s@[i]),
            all_zero == (forall|i: int| 0 <= i < k ==> s@[i] == '0'),
        decreases n - k,
    {
        if s.get_char(k) != '0' {
            all_zero = false;
        }
        k = k + 1;
    }
    proof {
        lemma_dec_val_zero(s@);
    }
    all_zero
}

/// Renders a run of decimal digits as the whole-byte uppercase hexadecimal
/// string of its value.
pub fn dec_digits_to_bytes_hex(s: &str) -> (r: String)
    requires
        s@.len() > 0,
        forall|i: int| 0 <= i < s@.len() ==> is_dec_digit(#[trigger] s@[i]),
        dec_val(s@) < pow2_256(),
    ensures
        r@ == bytes_hex_of(dec_val(s@)),
{
    if all_zero_digits(s) {
        assert(bytes_hex_of(0) =~= Seq::<char>::empty());
        String::new()
    } else {
        let h = uint256_dec_to_hex(s).unwrap();
        assert(h@ == hex_of(dec_val(s@)));
        if h.as_str().unicode_len() % 2 == 1 {
            let mut r = String::from_str("0");
            r.append(h.as_str());
            proof {
                reveal_strlit("0");
                assert(r@ =~= bytes_hex_of(dec_val(s@)));
            }
            r
        } else {
            h
        }
    }
}

/// Appends a hexadecimal digit, uppercased, to a string.
pub fn append_upper_hex(out: &mut String, c: char)
    requires
        is_hex_digit(c),
    ensures
        final(out)@ == old(out)@ + seq![upper_char(c)],
{
    match c {
        '0' => out.append("0"),
        '1' => out.append("1"),
        '2' => out.append("2"),
        '3' => out.append("3"),
        '4' => out.append("4"),
        '5' => out.append("5"),
        '6' => out.append("6"),
        '7' => out.append("7"),
        '8' => out.append("8"),
        '9' => out.append("9"),
        'a' | 'A' => out.append("A"),
        'b' | 'B' => out.append("B"),
        'c' | 'C' => out.append("C"),
        'd' | 'D' => out.append("D"),
        'e' | 'E' => out.append("E"),
        _ => out.append("F"),
    }
    proof {
        reveal_strlit("0");
        reveal_strlit("1");
        reveal_strlit("2");
        reveal_strlit("3");
        reveal_strlit("4");
        reveal_strlit("5");
        reveal_strlit("6");
        reveal_strlit("7");
        reveal_strlit("8");
        reveal_strlit("9");
        reveal_strlit("A");
        reveal_strlit("B");
        reveal_strlit("C");
        reveal_strlit("D");
        reveal_strlit("E");
        reveal_strlit("F");
        assert(final(out)@ =~= old(out)@ + seq![upper_char(c)]);
    }
}

/// The all-zero padding that widens a rendering by `m` bytes.
pub open spec fn pad_zeros(m: nat) -> Seq<char> {
    Seq::new(2 * m, |i: int| '0')
}

/// Appends `count` zero bytes, rendered as `"00"` pairs, to a string.
pub fn append_zero_bytes(out: &mut String, count: usize)
    ensures
        final(out)@ == old(out)@ + pad_zeros(count as nat),
{
    let mut k: usize = 0;
    while k < count
        invariant
            0 <= k <= count,
            out@ == old(out)@ + pad_zeros(k as nat),
        decreases count - k,
    {
        out.append("00");
        proof {
            reveal_strlit("00");
            assert(out@ =~= old(out)@ + pad_zeros((k + 1) as nat));
        }
        k = k + 1;
    }
}

/// The bytes named by an even-length run of hexadecimal digits, two digits to
/// a byte, most significant first.
pub open spec fn hex_bytes_of(s: Seq<char>) -> Seq<u8> {
    Seq::new(s.len() / 2, |k: int| (16 * hex_val(s[2 * k]) + hex_val(s[2 * k + 1])) as u8)
}

fn hex_val_char(c: char) -> (v: u8)
    requires
        is_hex_digit(c),
    ensures
        v == hex_val(c),
{
    match c {
        '0' => 0,
        '1' => 1,
        '2' => 2,
        '3' => 3,
        '4' => 4,
        '5' => 5,
        '6' => 6,
        '7' => 7,
        '8' => 8,
        '9' => 9,
        'a' | 'A' => 10,
        'b' | 'B' => 11,
        'c' | 'C' => 12,
        'd' | 'D' => 13,
        'e' | 'E' => 14,
        _ => 15,
    }
}

/// Decodes a run of hexadecimal digit characters into the bytes it names.
/// Fails exactly when the run has odd length or holds a stray character.
pub fn decode_hex(s: &str) -> (r: Option<Vec<u8>>)
    ensures
        r is Some <==> (s@.len() % 2 == 0 && forall|i: int|
            0 <= i < s@.len() ==> is_hex_digit(#[trigger] s@[i])),
        r matches Some(v) ==> v@ == hex_bytes_of(s@),
{
    let n = s.unicode_len();
    if n % 2 != 0 {
        return None;
    }
    let mut out: Vec<u8> = Vec::new();
    let mut k: usize = 0;
    while k < n
        invariant
            0 <= k <= n,
            k % 2 == 0,
            n % 2 == 0,
            n == s@.len(),
            forall|i: int| 0 <= i < k ==> is_hex_digit(#[trigger] s@[i]),
            out@ == hex_bytes_of(s@.subrange(0, k as int)),
        decreases n - k,
    {
        let hi = s.get_char(k);
        let lo = s.get_char(k + 1);
        if !is_hex_digit_char(hi) || !is_hex_digit_char(lo) {
            return None;
        }
        let b: u8 = 16 * hex_val_char(hi) + hex_val_char(lo);
        out.push(b);
        proof {
            assert(out@ =~= hex_bytes_of(s@.subrange(0, k + 2)));
        }
        k = k + 2;
    }
    proof {
        assert(s@.subrange(0, n as int) =~= s@);
    }
    Some(out)
}

/// The digit characters of a decimal rendering, one per value `0` through `9`.
pub open spec fn dec_digit_char(d: nat) -> char {
    if d == 0 {
        '0'
    } else if d == 1 {
        '1'
    } else if d == 2 {
        '2'
    } else if d == 3 {
        '3'
    } else if d == 4 {
        '4'
    } else if d == 5 {
        '5'
    } else if d == 6 {
        '6'
    } else if d == 7 {
        '7'
    } else if d == 8 {
        '8'
    } else {
        '9'
    }
}

/// The decimal rendering of a number, without leading zeros.
pub open spec fn dec_str_of(n: nat) -> Seq<char>
    decreases n,
{
    if n < 10 {
        seq![dec_digit_char(n)]
    } else {
        dec_str_of(n / 10) + seq![dec_digit_char(n % 10)]
    }
}

fn append_dec_digit(out: &mut String, d: usize)
    requires
        d < 10,
    ensures
        final(out)@ == old(out)@ + seq![dec_digit_char(d as nat)],
{
    match d {
        0 => out.append("0"),
        1 => out.append("1"),
        2 => out.append("2"),
        3 => out.append("3"),
        4 => out.append("4"),
        5 => out.append("5"),
        6 => out.append("6"),
        7 => out.append("7"),
        8 => out.append("8"),
        _ => out.append("9"),
    }
    proof {
        reveal_strlit("0");
        reveal_strlit("1");
        reveal_strlit("2");
        reveal_strlit("3");
        reveal_strlit("4");
        reveal_strlit("5");
        reveal_strlit("6");
        reveal_strlit("7");
        reveal_strlit("8");
        reveal_strlit("9");
        assert(final(out)@ =~= old(out)@ + seq![dec_digit_char(d as nat)]);
    }
}

/// Renders a number in decimal, without leading zeros.
pub fn usize_to_string(n: usize) -> (r: String)
    ensures
        r@ == dec_str_of(n as nat),
    decreases n,
{
    if n < 10 {
        let mut r = String::new();
        append_dec_digit(&mut r, n);
        proof {
            assert(r@ =~= dec_str_of(n as nat));
        }
        r
    } else {
        let mut r = usize_to_string(n / 10);
        append_dec_digit(&mut r, n % 10);
        r
    }
}

} // verus!
