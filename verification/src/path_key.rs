//! Reversible keys for file paths: the bytes of a path as lowercase hex.
use crate::text::{chars_of, push_char};
use vstd::prelude::*;

verus! {

/// The hex digit for a value below 16 (lowercase).
pub open spec fn hex_char(n: int) -> char {
    if n < 10 {
        (48 + n) as char
    } else {
        (87 + n) as char
    }
}

/// The value of a hex digit (either case), or `None`.
pub open spec fn nibble_value(c: int) -> Option<int> {
    if 48 <= c <= 57 {
        Some(c - 48)
    } else if 97 <= c <= 102 {
        Some(c - 87)
    } else if 65 <= c <= 70 {
        Some(c - 55)
    } else {
        None
    }
}

/// Two lowercase hex digits per byte, high half first.
pub open spec fn hex_of(bytes: Seq<u8>) -> Seq<char> {
    Seq::new(
        2 * bytes.len(),
        |i: int|
            if i % 2 == 0 {
                hex_char((bytes[i / 2] / 16) as int)
            } else {
                hex_char((bytes[i / 2] % 16) as int)
            },
    )
}

/// The bytes that `s` spells in hex: `None` unless it has an even number
/// of characters, all hex digits.
pub open spec fn hex_decoded(s: Seq<char>) -> Option<Seq<u8>> {
    if s.len() % 2 == 0 && forall|i: int| 0 <= i < s.len() ==> (#[trigger] nibble_value(s[i] as int)) is Some {
        Some(
            Seq::new(
                s.len() / 2,
                |k: int|
                    (nibble_value(s[2 * k] as int).unwrap() * 16 + nibble_value(
                        s[2 * k + 1] as int,
                    ).unwrap()) as u8,
            ),
        )
    } else {
        None
    }
}

fn hex_digit(n: u8) -> (c: char)
    requires
        n < 16,
    ensures
        c == hex_char(n as int),
{
    if n < 10 {
        (48 + n) as char
    } else {
        (87 + n) as char
    }
}

/// Encodes bytes as lowercase hex, two digits per byte.
pub fn hex_encode(bytes: &[u8]) -> (s: String)
    ensures
        s@ == hex_of(bytes@),
{
    let mut s = String::new();
    let mut i: usize = 0;
    while i < bytes.len()
        invariant
            i <= bytes@.len(),
            s@.len() == 2 * i,
            forall|j: int| 0 <= j < 2 * i ==> s@[j] == #[trigger] hex_of(bytes@)[j],
        decreases bytes@.len() - i,
    {
        let b = bytes[i];
        push_char(&mut s, hex_digit(b / 16));
        push_char(&mut s, hex_digit(b % 16));
        assert forall|j: int| 0 <= j < 2 * i + 2 implies s@[j] == #[trigger] hex_of(bytes@)[j] by {
            if j >= 2 * i {
                assert(j / 2 == i);
            }
        }
        i += 1;
    }
    assert(s@ =~= hex_of(bytes@));
    s
}

/// The value of one hex digit (either case).
pub fn decode_hex_nibble(byte: u8) -> (r: Option<u8>)
    ensures
        match r {
            Some(v) => nibble_value(byte as int) == Some(v as int),
            None => nibble_value(byte as int) is None,
        },
{
    if 48 <= byte && byte <= 57 {
        Some(byte - 48)
    } else if 97 <= byte && byte <= 102 {
        Some(byte - 87)
    } else if 65 <= byte && byte <= 70 {
        Some(byte - 55)
    } else {
        None
    }
}

fn char_nibble(c: char) -> (r: Option<u8>)
    ensures
        match r {
            Some(v) => nibble_value(c as int) == Some(v as int),
            None => nibble_value(c as int) is None,
        },
{
    let code = c as u32;
    if code < 128 {
        decode_hex_nibble(code as u8)
    } else {
        None
    }
}

/// Decodes hex (either case) back into bytes; `None` for an odd length or
/// a character that is no hex digit.
pub fn hex_decode(encoded: &str) -> (r: Option<Vec<u8>>)
    ensures
        match r {
            Some(v) => hex_decoded(encoded@) == Some(v@),
            None => hex_decoded(encoded@) is None,
        },
{
    let c = chars_of(encoded);
    let n = c.len();
    if n % 2 != 0 {
        return None;
    }
    let mut bytes: Vec<u8> = Vec::new();
    let mut k: usize = 0;
    while k < n / 2
        invariant
            n == c@.len(),
            c@ == encoded@,
            n % 2 == 0,
            k <= n / 2,
            bytes@.len() == k,
            forall|i: int| 0 <= i < 2 * k ==> (#[trigger] nibble_value(c@[i] as int)) is Some,
            forall|j: int|
                0 <= j < k ==> #[trigger] bytes@[j] == (nibble_value(c@[2 * j] as int).unwrap() * 16
                    + nibble_value(c@[2 * j + 1] as int).unwrap()) as u8,
        decreases n / 2 - k,
    {
        let high = char_nibble(c[2 * k]);
        let low = char_nibble(c[2 * k + 1]);
        match (high, low) {
            (Some(h), Some(l)) => {
                bytes.push(h * 16 + l);
                assert forall|i: int| 0 <= i < 2 * k + 2 implies (#[trigger] nibble_value(
                    c@[i] as int,
                )) is Some by {
                    if i == 2 * k {
                    } else if i == 2 * k + 1 {
                    }
                }
                k += 1;
            },
            _ => {
                assert(!(forall|i: int| 0 <= i < c@.len() ==> (#[trigger] nibble_value(c@[i] as int)) is Some)) by {
                    if high is None {
                        assert(nibble_value(c@[2 * k as int] as int) is None);
                    } else {
                        assert(nibble_value(c@[2 * k + 1] as int) is None);
                    }
                }
                return None;
            },
        }
    }
    assert(bytes@ =~= hex_decoded(encoded@).unwrap());
    Some(bytes)
}

/// Decoding the hex encoding of any bytes gives those bytes back.
pub proof fn lemma_hex_round_trip(bytes: Seq<u8>)
    ensures
        hex_decoded(hex_of(bytes)) == Some(bytes),
{
    let s = hex_of(bytes);
    assert forall|i: int| 0 <= i < s.len() implies (#[trigger] nibble_value(s[i] as int)) is Some by {
        let b = bytes[i / 2];
        if i % 2 == 0 {
            assert(0 <= b / 16 < 16);
        } else {
            assert(0 <= b % 16 < 16);
        }
    }
    assert(s.len() % 2 == 0);
    let d = hex_decoded(s).unwrap();
    assert forall|k: int| 0 <= k < bytes.len() implies #[trigger] d[k] == bytes[k] by {
        assert((2 * k) / 2 == k);
        assert((2 * k + 1) / 2 == k);
        assert((2 * k) % 2 == 0);
        assert((2 * k + 1) % 2 == 1);
        let b = bytes[k];
        assert(nibble_value(hex_char((b / 16) as int) as int) == Some((b / 16) as int));
        assert(nibble_value(hex_char((b % 16) as int) as int) == Some((b % 16) as int));
        assert((b / 16) * 16 + b % 16 == b);
    }
    assert(d =~= bytes);
}

} // verus!
