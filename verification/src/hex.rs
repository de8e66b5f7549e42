//! Hexadecimal text to bytes and back.

use vstd::prelude::*;
use vstd::string::*;
use vstd::utf8::*;

verus! {

/// Why a string is not the hexadecimal form of a byte sequence.
#[derive(Debug, Clone, Copy, PartialEq, Eq, Structural)]
pub enum FormatError {
    /// The string has an odd number of characters.
    OddLength,
    /// The length is even, but some character is not a hexadecimal digit.
    InvalidDigit,
}

/// `c` is one of `0-9`, `a-f`, `A-F`.
pub open spec fn is_hex_digit(c: char) -> bool {
    ('0' <= c <= '9') || ('a' <= c <= 'f') || ('A' <= c <= 'F')
}

/// The number that the hexadecimal digit `c` stands for.
pub open spec fn hex_digit_value(c: char) -> int {
    if '0' <= c <= '9' {
        c as int - '0' as int
    } else if 'a' <= c <= 'f' {
        c as int - 'a' as int + 10
    } else {
        c as int - 'A' as int + 10
    }
}

/// The lower-case hexadecimal digit for `n < 16`.
pub open spec fn hex_digit_char(n: int) -> char {
    if n < 10 {
        ('0' as int + n) as char
    } else {
        ('a' as int + n - 10) as char
    }
}

/// `c` with an upper-case hexadecimal letter replaced by its lower-case form.
pub open spec fn lower_hex_digit(c: char) -> char {
    if 'A' <= c <= 'F' {
        (c as int + 32) as char
    } else {
        c
    }
}

/// `s` has an even number of characters, all of them hexadecimal digits.
pub open spec fn is_hex_string(s: Seq<char>) -> bool {
    s.len() % 2 == 0 && forall|i: int| 0 <= i < s.len() ==> is_hex_digit(#[trigger] s[i])
}

/// The byte written by the two digits `hi` and `lo`, most significant first.
pub open spec fn hex_pair_value(hi: char, lo: char) -> int {
    16 * hex_digit_value(hi) + hex_digit_value(lo)
}

/// The bytes that a hexadecimal string stands for: one byte per two
/// characters, most significant nibble first.
pub open spec fn hex_decoded(s: Seq<char>) -> Seq<u8> {
    Seq::new((s.len() / 2) as nat, |i: int| hex_pair_value(s[2 * i], s[2 * i + 1]) as u8)
}

/// The lower-case hexadecimal form of a byte sequence.
pub open spec fn hex_encoded(bytes: Seq<u8>) -> Seq<char> {
    Seq::new(
        2 * bytes.len(),
        |i: int|
            if i % 2 == 0 {
                hex_digit_char(bytes[i / 2] as int / 16)
            } else {
                hex_digit_char(bytes[i / 2] as int % 16)
            },
    )
}

/// `s` with every upper-case hexadecimal letter in lower case.
pub open spec fn lower_hex(s: Seq<char>) -> Seq<char> {
    Seq::new(s.len(), |i: int| lower_hex_digit(s[i]))
}

/// The value of one ASCII hexadecimal digit, or `None` for any other byte.
fn nibble(b: u8) -> (r: Option<u8>)
    ensures
        r.is_some() == is_hex_digit(b as char),
        r matches Some(v) ==> v as int == hex_digit_value(b as char),
{
    if 0x30 <= b && b <= 0x39 {
        Some(b - 0x30)
    } else if 0x61 <= b && b <= 0x66 {
        Some(b - 0x61 + 10)
    } else if 0x41 <= b && b <= 0x46 {
        Some(b - 0x41 + 10)
    } else {
        None
    }
}

/// Decodes a string of hexadecimal digits, such as `"AABB"`, into the bytes
/// it stands for.
pub fn decode_hex(s: &str) -> (r: Result<Vec<u8>, FormatError>)
    ensures
        r.is_ok() == is_hex_string(s@),
        r matches Ok(bytes) ==> bytes@ == hex_decoded(s@),
        r == Err::<Vec<u8>, FormatError>(FormatError::OddLength) <==> s@.len() % 2 != 0,
{
    let n: usize = s.unicode_len();
    if n % 2 != 0 {
        return Err(FormatError::OddLength);
    }
    if !s.is_ascii() {
        return Err(FormatError::InvalidDigit);
    }
    proof {
        is_ascii_spec_bytes(s);
    }
    let raw = s.as_bytes();
    let mut out: Vec<u8> = Vec::new();
    let mut i: usize = 0;
    while i < n / 2
        invariant
            n == s@.len(),
            n % 2 == 0,
            raw@.len() == n,
            is_ascii_chars(s@),
            forall|k: int| 0 <= k < n ==> raw@[k] == #[trigger] s@[k] as u8,
            i <= n / 2,
            out@.len() == i,
            forall|k: int| 0 <= k < 2 * i ==> is_hex_digit(#[trigger] s@[k]),
            forall|k: int|
                0 <= k < i ==> #[trigger] out@[k] == hex_pair_value(s@[2 * k], s@[2 * k + 1]) as u8,
        decreases n / 2 - i,
    {
        let hi = nibble(raw[2 * i]);
        let lo = nibble(raw[2 * i + 1]);
        proof {
            assert(raw@[2 * i as int] as char == s@[2 * i as int]);
            assert(raw@[2 * i + 1] as char == s@[2 * i + 1]);
        }
        match (hi, lo) {
            (Some(h), Some(l)) => {
                out.push(h * 16 + l);
            },
            _ => {
                return Err(FormatError::InvalidDigit);
            },
        }
        i += 1;
    }
    proof {
        assert(out@ =~= hex_decoded(s@));
    }
    Ok(out)
}

/// The one-character string that holds the lower-case digit for `n`.
fn digit_str(n: u8) -> (r: &'static str)
    requires
        n < 16,
    ensures
        r@ == seq![hex_digit_char(n as int)],
{
    proof {
        reveal_strlit("0");
        reveal_strlit("1");
        reveal_strlit("2");
        reveal_strlit("3");
        reveal_strlit("4");
        reveal_strlit("5");
        reveal_strlit("6");
        reveal_strlit("7");
        reveal_strlit("8");
        reveal_strlit("9");
        reveal_strlit("a");
        reveal_strlit("b");
        reveal_strlit("c");
        reveal_strlit("d");
        reveal_strlit("e");
        reveal_strlit("f");
    }
    let r = match n {
        0 => "0",
        1 => "1",
        2 => "2",
        3 => "3",
        4 => "4",
        5 => "5",
        6 => "6",
        7 => "7",
        8 => "8",
        9 => "9",
        10 => "a",
        11 => "b",
        12 => "c",
        13 => "d",
        14 => "e",
        _ => "f",
    };
    proof {
        assert(r@ =~= seq![hex_digit_char(n as int)]);
    }
    r
}

/// Writes a byte sequence as lower-case hexadecimal text, two characters
/// per byte, most significant nibble first.
pub fn encode_hex(bytes: &[u8]) -> (r: String)
    ensures
        r@ == hex_encoded(bytes@),
{
    let mut out = String::new();
    let mut i: usize = 0;
    while i < bytes.len()
        invariant
            i <= bytes@.len(),
            out@ == hex_encoded(bytes@.subrange(0, i as int)),
        decreases bytes@.len() - i,
    {
        let b: u8 = bytes[i];
        out.append(digit_str(b / 16));
        out.append(digit_str(b % 16));
        proof {
            let next = bytes@.subrange(0, i + 1);
            assert(out@ =~= hex_encoded(next));
        }
        i += 1;
    }
    proof {
        assert(bytes@.subrange(0, i as int) =~= bytes@);
    }
    out
}

/// Decoding a hexadecimal string and encoding the bytes again gives the
/// string back, up to the case of its letters.
pub proof fn lemma_decode_then_encode(s: Seq<char>)
    requires
        is_hex_string(s),
    ensures
        hex_encoded(hex_decoded(s)) == lower_hex(s),
{
    let bytes = hex_decoded(s);
    assert forall|i: int| 0 <= i < s.len() implies #[trigger] hex_encoded(bytes)[i] == lower_hex(
        s,
    )[i] by {
        let k = i / 2;
        assert(is_hex_digit(s[2 * k]));
        assert(is_hex_digit(s[2 * k + 1]));
        let v = hex_pair_value(s[2 * k], s[2 * k + 1]);
        assert(0 <= v < 256);
        assert(bytes[k] as int == v);
        assert(v / 16 == hex_digit_value(s[2 * k]));
        assert(v % 16 == hex_digit_value(s[2 * k + 1]));
    }
    assert(hex_encoded(bytes) =~= lower_hex(s));
}

/// Encoding a byte sequence and decoding the text gives the bytes back.
pub proof fn lemma_encode_then_decode(bytes: Seq<u8>)
    ensures
        is_hex_string(hex_encoded(bytes)),
        hex_decoded(hex_encoded(bytes)) == bytes,
{
    let s = hex_encoded(bytes);
    assert forall|i: int| 0 <= i < s.len() implies is_hex_digit(#[trigger] s[i]) by {
        let b = bytes[i / 2] as int;
        assert(0 <= b / 16 < 16 && 0 <= b % 16 < 16);
    }
    assert forall|k: int| 0 <= k < bytes.len() implies #[trigger] hex_decoded(s)[k] == bytes[k] by {
        let b = bytes[k] as int;
        assert((2 * k) / 2 == k && (2 * k + 1) / 2 == k);
        assert(0 <= b / 16 < 16 && 0 <= b % 16 < 16);
        assert(hex_digit_value(s[2 * k]) == b / 16);
        assert(hex_digit_value(s[2 * k + 1]) == b % 16);
    }
    assert(hex_decoded(s) =~= bytes);
}

} // verus!
