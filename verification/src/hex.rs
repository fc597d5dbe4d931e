//! Hexadecimal text to bytes.

use vstd::prelude::*;
use vstd::string::*;

verus! {

/// Why a text is not the hexadecimal form of a byte string.
#[derive(Debug, Clone, Copy, PartialEq, Eq, Structural)]
pub enum HexError {
    /// The text has an odd number of bytes.
    OddLength,
    /// The byte at this offset is not one of `0-9`, `a-f`, `A-F`.
    InvalidDigit(usize),
}

/// The value of one hexadecimal digit, if `b` is one.
pub open spec fn hex_digit_value(b: u8) -> Option<u8> {
    if 0x30 <= b <= 0x39 {
        Some((b - 0x30) as u8)
    } else if 0x61 <= b <= 0x66 {
        Some((b - 0x61 + 10) as u8)
    } else if 0x41 <= b <= 0x46 {
        Some((b - 0x41 + 10) as u8)
    } else {
        None
    }
}

/// Offset of the first byte of `s` that is no hexadecimal digit, or
/// `s.len()` if there is none.
pub open spec fn first_non_hex(s: Seq<u8>) -> int
    decreases s.len(),
{
    if s.len() == 0 {
        0
    } else if hex_digit_value(s[0]) is None {
        0
    } else {
        1 + first_non_hex(s.drop_first())
    }
}

/// Whether `s` is an even number of hexadecimal digits.
pub open spec fn is_hex(s: Seq<u8>) -> bool {
    &&& s.len() % 2 == 0
    &&& forall|i: int| 0 <= i < s.len() ==> hex_digit_value(#[trigger] s[i]) is Some
}

/// The byte that the two digits `hi` and `lo` spell.
pub open spec fn hex_pair_value(hi: u8, lo: u8) -> u8 {
    (hex_digit_value(hi).unwrap() * 16 + hex_digit_value(lo).unwrap()) as u8
}

/// The bytes that the hexadecimal text `s` spells, two digits per byte, the
/// high digit first.
pub open spec fn hex_bytes(s: Seq<u8>) -> Seq<u8> {
    Seq::new((s.len() / 2) as nat, |i: int| hex_pair_value(s[2 * i], s[2 * i + 1]))
}

/// What decoding the text `s` gives: its bytes, or the reason it has none.
/// An odd length is reported before a bad digit; of several bad digits the
/// first is reported.
pub open spec fn hex_decoding(s: Seq<u8>) -> Result<Seq<u8>, HexError> {
    if s.len() % 2 != 0 {
        Err(HexError::OddLength)
    } else if first_non_hex(s) < s.len() {
        Err(HexError::InvalidDigit(first_non_hex(s) as usize))
    } else {
        Ok(hex_bytes(s))
    }
}

/// `first_non_hex` is the least offset that holds no digit.
pub proof fn lemma_first_non_hex(s: Seq<u8>)
    ensures
        0 <= first_non_hex(s) <= s.len(),
        forall|i: int| 0 <= i < first_non_hex(s) ==> hex_digit_value(#[trigger] s[i]) is Some,
        first_non_hex(s) < s.len() ==> hex_digit_value(s[first_non_hex(s)]) is None,
    decreases s.len(),
{
    if s.len() != 0 && hex_digit_value(s[0]) is Some {
        let t = s.drop_first();
        lemma_first_non_hex(t);
        assert forall|i: int| 0 <= i < first_non_hex(s) implies hex_digit_value(
            #[trigger] s[i],
        ) is Some by {
            if i > 0 {
                assert(s[i] == t[i - 1]);
            }
        }
        if first_non_hex(s) < s.len() {
            assert(s[first_non_hex(s)] == t[first_non_hex(t)]);
        }
    }
}

/// A prefix of digits followed by a non-digit at `k` fixes `first_non_hex`.
pub proof fn lemma_first_non_hex_is(s: Seq<u8>, k: int)
    requires
        0 <= k <= s.len(),
        forall|i: int| 0 <= i < k ==> hex_digit_value(#[trigger] s[i]) is Some,
        k < s.len() ==> hex_digit_value(s[k]) is None,
    ensures
        first_non_hex(s) == k,
{
    lemma_first_non_hex(s);
    let f = first_non_hex(s);
    if f < k {
        assert(hex_digit_value(s[f]) is Some);
    } else if k < f {
        assert(hex_digit_value(s[k]) is Some);
    }
}

/// Decoding succeeds exactly on an even number of hexadecimal digits.
pub proof fn lemma_hex_decoding_ok(s: Seq<u8>)
    ensures
        hex_decoding(s) is Ok <==> is_hex(s),
        hex_decoding(s) is Ok ==> hex_decoding(s)->Ok_0.len() * 2 == s.len(),
{
    lemma_first_non_hex(s);
    if is_hex(s) {
        if first_non_hex(s) < s.len() {
            assert(hex_digit_value(s[first_non_hex(s)]) is Some);
        }
    }
}

/// The value of the hexadecimal digit `b`.
fn digit_value(b: u8) -> (r: Option<u8>)
    ensures
        r == hex_digit_value(b),
{
    if 0x30 <= b && b <= 0x39 {
        Some(b - 0x30)
    } else if 0x61 <= b && b <= 0x66 {
        Some(b - 0x61 + 10)
    } else if 0x41 <= b && b <= 0x46 {
        Some(b - 0x41 + 10)
    } else {
        None
    }
}

/// Decodes hexadecimal digits, two per byte.
pub fn decode_hex_bytes(s: &[u8]) -> (r: Result<Vec<u8>, HexError>)
    ensures
        match r {
            Ok(v) => hex_decoding(s@) == Ok::<Seq<u8>, HexError>(v@),
            Err(e) => hex_decoding(s@) == Err::<Seq<u8>, HexError>(e),
        },
{
    let n: usize = s.len();
    if n % 2 != 0 {
        return Err(HexError::OddLength);
    }
    let mut out: Vec<u8> = Vec::with_capacity(n / 2);
    let mut i: usize = 0;
    while i < n
        invariant
            n == s@.len(),
            n % 2 == 0,
            i % 2 == 0,
            i <= n,
            out@.len() == i / 2,
            forall|j: int| 0 <= j < i ==> hex_digit_value(#[trigger] s@[j]) is Some,
            forall|k: int| 0 <= k < out@.len() ==> out@[k] == hex_pair_value(s@[2 * k], s@[2 * k + 1]),
        decreases n - i,
    {
        let hi = match digit_value(s[i]) {
            Some(d) => d,
            None => {
                proof {
                    lemma_first_non_hex_is(s@, i as int);
                }
                return Err(HexError::InvalidDigit(i));
            },
        };
        let lo = match digit_value(s[i + 1]) {
            Some(d) => d,
            None => {
                proof {
                    lemma_first_non_hex_is(s@, i + 1);
                }
                return Err(HexError::InvalidDigit(i + 1));
            },
        };
        out.push(hi * 16 + lo);
        i += 2;
    }
    proof {
        lemma_first_non_hex_is(s@, n as int);
        assert(out@ =~= hex_bytes(s@));
    }
    Ok(out)
}

/// Decodes a hexadecimal text into the bytes it spells. The text is read
/// as its UTF-8 bytes, so a character outside ASCII is a bad digit.
pub fn decode_hex(s: &str) -> (r: Result<Vec<u8>, HexError>)
    ensures
        match r {
            Ok(v) => hex_decoding(s.spec_bytes()) == Ok::<Seq<u8>, HexError>(v@),
            Err(e) => hex_decoding(s.spec_bytes()) == Err::<Seq<u8>, HexError>(e),
        },
{
    decode_hex_bytes(s.as_bytes())
}

} // verus!
