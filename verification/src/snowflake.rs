//! The platform's 64-bit identifiers.

use crate::decode::{DecodeError, FromJson};
use crate::encode::ToJson;
use crate::json::{Json, JsonView};
use crate::text::{decimal_text, push_decimal};
use vstd::prelude::*;
use vstd::string::*;

verus! {

/// Milliseconds between the Unix epoch and the first second of 2015, from
/// which the platform counts time.
pub const EPOCH_MS: i64 = 1420070400000;

/// An identifier of the platform: 64 bits, of which the upper 42 tell when
/// it was made. On the wire it is a string of decimal digits.
#[derive(Debug, Clone, Copy, PartialEq, Eq, Hash, Structural)]
pub struct Snowflake(pub u64);

impl DeepView for Snowflake {
    type V = u64;

    open spec fn deep_view(&self) -> u64 {
        self.0
    }
}

/// The number that the decimal digits `s` spell; `None` if `s` is empty or
/// holds anything but digits.
pub open spec fn digits_value(s: Seq<u8>) -> Option<nat>
    decreases s.len(),
{
    if s.len() == 0 {
        None
    } else if !(0x30 <= s.last() <= 0x39) {
        None
    } else if s.len() == 1 {
        Some((s.last() - 0x30) as nat)
    } else {
        match digits_value(s.drop_last()) {
            Some(front) => Some(front * 10 + (s.last() - 0x30) as nat),
            None => None,
        }
    }
}

/// The identifier that the text `s` spells: decimal digits, with at most
/// one `+` before them, that give a number below 2^64.
pub open spec fn snowflake_value(s: Seq<u8>) -> Option<u64> {
    let digits = if s.len() > 0 && s[0] == 0x2b {
        s.drop_first()
    } else {
        s
    };
    match digits_value(digits) {
        Some(n) => if n <= u64::MAX {
            Some(n as u64)
        } else {
            None
        },
        None => None,
    }
}

/// Once a prefix of digits is too large, or holds a non-digit, the whole
/// text spells no 64-bit number.
proof fn lemma_digits_prefix(s: Seq<u8>, n: int)
    requires
        1 <= n <= s.len(),
    ensures
        digits_value(s.subrange(0, n)) is None ==> digits_value(s) is None,
        digits_value(s.subrange(0, n)) is Some && digits_value(s) is Some ==> digits_value(
            s.subrange(0, n),
        )->0 <= digits_value(s)->0,
    decreases s.len() - n,
{
    if n == s.len() {
        assert(s.subrange(0, n) =~= s);
    } else {
        let next = s.subrange(0, n + 1);
        assert(next.drop_last() =~= s.subrange(0, n));
        lemma_digits_prefix(s, n + 1);
    }
}

impl Snowflake {
    /// The time at which the identifier was made, in milliseconds since the
    /// Unix epoch. The upper 42 bits are read as a signed count of
    /// milliseconds since the first second of 2015.
    pub open spec fn spec_timestamp(self) -> int {
        (if self.0 < 0x8000_0000_0000_0000 {
            (self.0 as int) / 0x40_0000
        } else {
            (self.0 as int - 0x1_0000_0000_0000_0000) / 0x40_0000
        }) + EPOCH_MS
    }

    /// The identifier with the given bits.
    pub fn new(value: u64) -> (r: Snowflake)
        ensures
            r.0 == value,
    {
        Snowflake(value)
    }

    /// The time at which the identifier was made, in milliseconds since the
    /// Unix epoch.
    pub fn timestamp(&self) -> (r: i64)
        ensures
            r == self.spec_timestamp(),
    {
        let v: u64 = self.0;
        let high: u64 = v >> 22;
        assert(high == v / 0x40_0000 && high < 0x400_0000_0000) by (bit_vector)
            requires
                high == v >> 22,
        ;
        if v < 0x8000_0000_0000_0000 {
            high as i64 + EPOCH_MS
        } else {
            // The sign bit is set: the 42 bits stand for a negative count.
            (high as i64 - 0x400_0000_0000) + EPOCH_MS
        }
    }

    /// The identifier's eight bytes, the lowest first.
    pub fn bytes(&self) -> (r: [u8; 8])
        ensures
            forall|i: int| 0 <= i < 8 ==> #[trigger] r[i] as int == (self.0 as int / pow256(i)) % 256,
    {
        let v = self.0;
        let r = [
            (v & 0xff) as u8,
            ((v >> 8) & 0xff) as u8,
            ((v >> 16) & 0xff) as u8,
            ((v >> 24) & 0xff) as u8,
            ((v >> 32) & 0xff) as u8,
            ((v >> 40) & 0xff) as u8,
            ((v >> 48) & 0xff) as u8,
            ((v >> 56) & 0xff) as u8,
        ];
        assert((v & 0xff) == v % 256) by (bit_vector);
        assert(((v >> 8) & 0xff) == (v / 0x100) % 256) by (bit_vector);
        assert(((v >> 16) & 0xff) == (v / 0x1_0000) % 256) by (bit_vector);
        assert(((v >> 24) & 0xff) == (v / 0x100_0000) % 256) by (bit_vector);
        assert(((v >> 32) & 0xff) == (v / 0x1_0000_0000) % 256) by (bit_vector);
        assert(((v >> 40) & 0xff) == (v / 0x100_0000_0000) % 256) by (bit_vector);
        assert(((v >> 48) & 0xff) == (v / 0x1_0000_0000_0000) % 256) by (bit_vector);
        assert(((v >> 56) & 0xff) == (v / 0x100_0000_0000_0000) % 256) by (bit_vector);
        r
    }

    /// Reads an identifier from its decimal text.
    pub fn parse(s: &str) -> (r: Option<Snowflake>)
        ensures
            r.deep_view() == snowflake_value(s.spec_bytes()),
    {
        let bytes = s.as_bytes();
        let start: usize = if bytes.len() > 0 && bytes[0] == 0x2b {
            1
        } else {
            0
        };
        let ghost digits = if start == 1 {
            bytes@.drop_first()
        } else {
            bytes@
        };
        if start == bytes.len() {
            return None;
        }
        assert(digits =~= bytes@.subrange(start as int, bytes@.len() as int));
        let mut value: u64 = 0;
        let mut i: usize = start;
        while i < bytes.len()
            invariant
                start <= i <= bytes@.len(),
                start < bytes@.len(),
                digits == bytes@.subrange(start as int, bytes@.len() as int),
                s.spec_bytes() == bytes@,
                digits == if bytes@.len() > 0 && bytes@[0] == 0x2b {
                    bytes@.drop_first()
                } else {
                    bytes@
                },
                i > start ==> digits_value(digits.subrange(0, i - start)) == Some(value as nat),
                i == start ==> value == 0,
            decreases bytes@.len() - i,
        {
            let b = bytes[i];
            let ghost next = digits.subrange(0, i + 1 - start);
            assert(next.last() == b);
            assert(next.drop_last() =~= digits.subrange(0, i - start));
            if !(0x30 <= b && b <= 0x39) {
                proof {
                    lemma_digits_prefix(digits, i + 1 - start);
                }
                return None;
            }
            let d: u64 = (b - 0x30) as u64;
            if value > (u64::MAX - d) / 10 {
                proof {
                    lemma_digits_prefix(digits, i + 1 - start);
                }
                return None;
            }
            value = value * 10 + d;
            i += 1;
        }
        assert(digits.subrange(0, i - start) =~= digits);
        Some(Snowflake(value))
    }

    /// The identifier in decimal, as it is written on the wire.
    pub fn to_string(&self) -> (r: String)
        ensures
            r@ == decimal_text(self.0 as nat),
    {
        let mut out = String::new();
        push_decimal(&mut out, self.0);
        out
    }
}

/// 256 to the power `i`, for the eight byte positions of a `u64`.
pub open spec fn pow256(i: int) -> int {
    if i <= 0 {
        1
    } else if i == 1 {
        0x100
    } else if i == 2 {
        0x1_0000
    } else if i == 3 {
        0x100_0000
    } else if i == 4 {
        0x1_0000_0000
    } else if i == 5 {
        0x100_0000_0000
    } else if i == 6 {
        0x1_0000_0000_0000
    } else {
        0x100_0000_0000_0000
    }
}

impl FromJson for Snowflake {
    open spec fn decoding(j: JsonView) -> Result<u64, DecodeError> {
        match j {
            JsonView::String(s) => match snowflake_value(vstd::utf8::encode_utf8(s)) {
                Some(v) => Ok(v),
                None => Err(DecodeError::InvalidValue("snowflake")),
            },
            _ => Err(DecodeError::InvalidType("string")),
        }
    }

    fn from_json(j: &Json) -> (r: Result<Snowflake, DecodeError>) {
        match j {
            Json::String(s) => match Snowflake::parse(s.as_str()) {
                Some(v) => Ok(v),
                None => Err(DecodeError::InvalidValue("snowflake")),
            },
            _ => Err(DecodeError::InvalidType("string")),
        }
    }
}

impl ToJson for Snowflake {
    open spec fn encoding(m: u64) -> JsonView {
        JsonView::String(decimal_text(m as nat))
    }

    fn to_json(&self) -> (j: Json) {
        Json::String(self.to_string())
    }
}

} // verus!
