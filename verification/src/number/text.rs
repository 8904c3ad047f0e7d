//! Literals that the backend cannot read.
//!
//! The backend counts the digits of a literal and reckons its exponent in 32
//! bits.  A literal with a point lowers its exponent by the number of digits
//! after the point; where the exponent is so far below zero that this
//! leaves the 32 bits, the literal is read here.  Its value is below every
//! number, so it is read as the backend reads every literal below its
//! range: as a zero with the sign of the literal.

use vstd::prelude::*;
use vstd::string::StringSliceAdditionalSpecFns;
use crate::number::{Number, ParseError};

verus! {

/// The longest text that is parsed, in bytes: the digits of a longer one
/// could not be counted in 32 bits.
pub const MAX_TEXT: usize = 2_147_483_000;

/// The least exponent that the backend reads, without its sign: `2^31`.
pub const EXPONENT_LIMIT: u64 = 2_147_483_648;

/// The letter that opens the exponent of a literal, in either case.
pub open spec fn exponent_mark(byte: u8) -> bool {
    byte == 0x65 || byte == 0x45
}

/// A decimal digit.
pub open spec fn digit(byte: u8) -> bool {
    0x30 <= byte <= 0x39
}

/// A sign.
pub open spec fn sign(byte: u8) -> bool {
    byte == 0x2b || byte == 0x2d
}

/// What may stand before the exponent mark: a digit, the point or an
/// underscore.
pub open spec fn mantissa_byte(byte: u8) -> bool {
    digit(byte) || byte == 0x2e || byte == 0x5f
}

/// Where the mantissa begins: behind the sign, if there is one.
pub open spec fn mantissa_start(bytes: Seq<u8>) -> int {
    if bytes.len() > 0 && sign(bytes[0]) {
        1
    } else {
        0
    }
}

/// The number of points from `from` up to `to`.
pub open spec fn points(bytes: Seq<u8>, from: int, to: int) -> nat
    decreases to - from,
{
    if to <= from {
        0
    } else {
        points(bytes, from, to - 1) + if bytes[to - 1] == 0x2e {
            1nat
        } else {
            0nat
        }
    }
}

/// The number of digits from `from` up to `to` that stand behind a point.
pub open spec fn fraction_digits(bytes: Seq<u8>, from: int, to: int) -> nat
    decreases to - from,
{
    if to <= from {
        0
    } else {
        fraction_digits(bytes, from, to - 1) + if digit(bytes[to - 1]) && points(bytes, from, to - 1) > 0 {
            1nat
        } else {
            0nat
        }
    }
}

/// The whole number that the digits from `from` up to `to` write; what is no
/// digit is passed over.
pub open spec fn digits_value(bytes: Seq<u8>, from: int, to: int) -> nat
    decreases to - from,
{
    if to <= from {
        0
    } else if digit(bytes[to - 1]) {
        digits_value(bytes, from, to - 1) * 10 + (bytes[to - 1] - 0x30) as nat
    } else {
        digits_value(bytes, from, to - 1)
    }
}

/// Whether the text is a literal with the exponent mark at `mark` whose
/// exponent falls below the backend's reckoning: before the mark a mantissa
/// with one point and a coefficient that fits 128 bits, behind it a minus
/// and digits that write no more than [`EXPONENT_LIMIT`], but more than it
/// together with the number of digits behind the point.
pub open spec fn falls_below_at(bytes: Seq<u8>, mark: int) -> bool {
    let start = mantissa_start(bytes);
    &&& start <= mark < bytes.len() - 2
    &&& exponent_mark(bytes[mark])
    &&& forall|i: int| start <= i < mark ==> mantissa_byte(#[trigger] bytes[i])
    &&& points(bytes, start, mark) == 1
    &&& digits_value(bytes, start, mark) <= u128::MAX
    &&& bytes[mark + 1] == 0x2d
    &&& forall|i: int| mark + 2 <= i < bytes.len() ==> digit(#[trigger] bytes[i])
    &&& digits_value(bytes, mark + 2, bytes.len() as int) <= EXPONENT_LIMIT
    &&& digits_value(bytes, mark + 2, bytes.len() as int) + fraction_digits(bytes, start, mark) > EXPONENT_LIMIT
}

/// Whether the text is a literal whose exponent falls below the backend's
/// reckoning.
pub open spec fn falls_below(bytes: Seq<u8>) -> bool {
    exists|mark: int| falls_below_at(bytes, mark)
}

/// The first byte from `from` on that is no part of a mantissa, or the
/// length of the text.
pub open spec fn mantissa_end(bytes: Seq<u8>, from: int) -> int
    decreases bytes.len() - from,
{
    if from < 0 || from >= bytes.len() || !mantissa_byte(bytes[from]) {
        from
    } else {
        mantissa_end(bytes, from + 1)
    }
}

/// The zero as which a literal below the backend's range is read: with the
/// sign of the literal, at the largest scale where the mantissa is zero and
/// at scale zero where it is not.
pub open spec fn vanished(bytes: Seq<u8>) -> Number {
    let start = mantissa_start(bytes);
    Number::Finite {
        negative: bytes.len() > 0 && bytes[0] == 0x2d,
        digits: 0,
        scale: if digits_value(bytes, start, mantissa_end(bytes, start)) == 0 {
            i16::MAX
        } else {
            0
        },
    }
}

/// The mantissa ends at the first byte that is no part of one.
proof fn lemma_mantissa_end(bytes: Seq<u8>, from: int, to: int)
    requires
        0 <= from <= to <= bytes.len(),
        forall|i: int| from <= i < to ==> mantissa_byte(#[trigger] bytes[i]),
        to == bytes.len() || !mantissa_byte(bytes[to]),
    ensures
        mantissa_end(bytes, from) == to,
    decreases to - from,
{
    if from < to {
        assert(mantissa_byte(bytes[from]));
        lemma_mantissa_end(bytes, from + 1, to);
    }
}

/// What the mantissa of a text holds, counted from its first byte up to
/// `end`.
struct Mantissa {
    end: usize,
    points: usize,
    fraction: usize,
    value: u128,
    wide: bool,
}

/// Walks over the mantissa of a text.
fn mantissa(bytes: &[u8], start: usize) -> (r: Mantissa)
    requires
        start <= bytes@.len() <= MAX_TEXT,
    ensures
        start <= r.end <= bytes@.len(),
        forall|i: int| start <= i < r.end ==> mantissa_byte(#[trigger] bytes@[i]),
        r.end == bytes@.len() || !mantissa_byte(bytes@[r.end as int]),
        r.points == points(bytes@, start as int, r.end as int),
        r.fraction == fraction_digits(bytes@, start as int, r.end as int),
        r.fraction <= r.end - start,
        r.wide == (digits_value(bytes@, start as int, r.end as int) > u128::MAX),
        !r.wide ==> r.value == digits_value(bytes@, start as int, r.end as int),
{
    let n: usize = bytes.len();
    let mut i: usize = start;
    let mut dots: usize = 0;
    let mut fraction: usize = 0;
    let mut value: u128 = 0;
    let mut wide = false;
    while i < n
        invariant_except_break
            start <= i <= n,
        invariant
            n == bytes@.len(),
            n <= MAX_TEXT,
            start <= i <= n,
            forall|j: int| start <= j < i ==> mantissa_byte(#[trigger] bytes@[j]),
            dots == points(bytes@, start as int, i as int),
            fraction == fraction_digits(bytes@, start as int, i as int),
            dots <= i - start,
            fraction <= i - start,
            wide == (digits_value(bytes@, start as int, i as int) > u128::MAX),
            !wide ==> value == digits_value(bytes@, start as int, i as int),
        ensures
            i == n || !mantissa_byte(bytes@[i as int]),
        decreases n - i,
    {
        let byte: u8 = bytes[i];
        if byte == 0x2e {
            dots = dots + 1;
        } else if 0x30 <= byte && byte <= 0x39 {
            let d: u128 = (byte - 0x30) as u128;
            if dots > 0 {
                fraction = fraction + 1;
            }
            if !wide {
                if value > (u128::MAX - d) / 10 {
                    wide = true;
                } else {
                    value = value * 10 + d;
                }
            }
        } else if byte != 0x5f {
            break;
        }
        i = i + 1;
    }
    Mantissa { end: i, points: dots, fraction, value, wide }
}

/// The number that the digits from `from` to the end write, where they are
/// all digits and write no more than [`EXPONENT_LIMIT`].
fn exponent_digits(bytes: &[u8], from: usize) -> (r: Option<u64>)
    requires
        from <= bytes@.len(),
    ensures
        match r {
            Some(v) => {
                &&& forall|i: int| from <= i < bytes@.len() ==> digit(#[trigger] bytes@[i])
                &&& v == digits_value(bytes@, from as int, bytes@.len() as int)
                &&& v <= EXPONENT_LIMIT
            },
            None => {
                ||| exists|i: int| from <= i < bytes@.len() && !digit(#[trigger] bytes@[i])
                ||| digits_value(bytes@, from as int, bytes@.len() as int) > EXPONENT_LIMIT
            },
        },
{
    let n: usize = bytes.len();
    let mut i: usize = from;
    let mut value: u64 = 0;
    let mut over = false;
    while i < n
        invariant
            n == bytes@.len(),
            from <= i <= n,
            forall|j: int| from <= j < i ==> digit(#[trigger] bytes@[j]),
            over == (digits_value(bytes@, from as int, i as int) > EXPONENT_LIMIT),
            !over ==> value == digits_value(bytes@, from as int, i as int),
        decreases n - i,
    {
        let byte: u8 = bytes[i];
        if !(0x30 <= byte && byte <= 0x39) {
            assert(!digit(bytes@[i as int]));
            return None;
        }
        if !over {
            value = value * 10 + (byte - 0x30) as u64;
            if value > EXPONENT_LIMIT {
                over = true;
            }
        }
        i = i + 1;
    }
    if over {
        None
    } else {
        Some(value)
    }
}

impl Number {
    /// What is made of a text that the backend cannot read: a text
    /// longer than [`MAX_TEXT`] is no literal of the library, and a literal
    /// whose exponent falls below the backend's reckoning is a zero.
    /// Nothing for any other text: that one is the backend's to read.
    pub open spec fn beyond_backend(bytes: Seq<u8>) -> Option<Result<Number, ParseError>> {
        if bytes.len() > MAX_TEXT {
            Some(Err(ParseError::Unknown))
        } else if falls_below(bytes) {
            Some(Ok(vanished(bytes)))
        } else {
            None
        }
    }

    /// Reads a text that the backend cannot read.
    pub fn read_beyond_backend(text: &str) -> (r: Option<Result<Number, ParseError>>)
        ensures
            r == Number::beyond_backend(text.spec_bytes()),
    {
        let bytes = text.as_bytes();
        let n: usize = bytes.len();
        if n > MAX_TEXT {
            return Some(Err(ParseError::Unknown));
        }
        let start: usize = if n > 0 && (bytes[0] == 0x2b || bytes[0] == 0x2d) {
            1
        } else {
            0
        };
        let m = mantissa(bytes, start);
        let mark: usize = m.end;
        proof {
            lemma_mantissa_end(bytes@, start as int, mark as int);
            assert forall|other: int| falls_below_at(bytes@, other) implies other == mark by {
                if other < mark {
                    assert(mantissa_byte(bytes@[other]));
                } else if other > mark {
                    assert(mantissa_byte(bytes@[mark as int]));
                }
            }
        }
        if n - mark < 3 || !(bytes[mark] == 0x65 || bytes[mark] == 0x45) || m.points != 1 || m.wide || bytes[mark
            + 1] != 0x2d {
            return None;
        }
        match exponent_digits(bytes, mark + 2) {
            Some(value) => {
                if value + m.fraction as u64 > EXPONENT_LIMIT {
                    assert(falls_below_at(bytes@, mark as int));
                    let scale: i16 = if m.value == 0 {
                        i16::MAX
                    } else {
                        0
                    };
                    Some(Ok(Number::Finite { negative: bytes[0] == 0x2d, digits: 0, scale }))
                } else {
                    None
                }
            },
            None => None,
        }
    }
}

} // verus!
