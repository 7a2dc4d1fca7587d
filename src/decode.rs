//! Decoding one result cell to text, trying its interpretations in a fixed
//! order of precedence.
use vstd::prelude::*;
use crate::text::{digits, int_text, integer_text};

verus! {

/// The largest magnitude of a decimal mantissa: 2^96 - 1.
pub const MAX_DECIMAL_MANTISSA: i128 = 79228162514264337593543950335;

/// The largest scale of a decimal.
pub const MAX_DECIMAL_SCALE: u32 = 28;

/// An arbitrary-precision decimal: `mantissa / 10^scale`.
#[derive(Debug, Clone, Copy, PartialEq, Eq)]
pub struct DecimalValue {
    pub mantissa: i128,
    pub scale: u32,
}

impl DecimalValue {
    /// The mantissa and scale fit a 96-bit decimal.
    pub open spec fn in_range(&self) -> bool {
        &&& self.scale <= MAX_DECIMAL_SCALE
        &&& -MAX_DECIMAL_MANTISSA <= self.mantissa <= MAX_DECIMAL_MANTISSA
    }
}

/// `d` with leading zeros added until it has at least `width` characters.
pub open spec fn zero_padded(d: Seq<char>, width: nat) -> Seq<char> {
    if d.len() < width {
        Seq::new((width - d.len()) as nat, |i: int| '0') + d
    } else {
        d
    }
}

/// The canonical text of the decimal `mantissa / 10^scale`: a `-` for a
/// negative value; with scale 0 the digits of the magnitude; otherwise the
/// whole digits (`0` where there are none), a `.`, then exactly `scale`
/// fractional digits.
pub open spec fn decimal_text(mantissa: int, scale: nat) -> Seq<char> {
    let sign = if mantissa < 0 { seq!['-'] } else { Seq::<char>::empty() };
    let magnitude = if mantissa < 0 { -mantissa } else { mantissa };
    let padded = zero_padded(digits(magnitude as nat), scale);
    let whole_len = padded.len() - scale;
    if scale == 0 {
        sign + padded
    } else {
        sign + (if whole_len == 0 { seq!['0'] } else { padded.take(whole_len) }) + seq!['.']
            + padded.skip(whole_len)
    }
}

/// Relies on rust_decimal::Decimal::from_i128_with_scale (which panics when
/// the scale exceeds 28 or the mantissa exceeds 2^96 - 1 in magnitude) and
/// on Decimal's `Display` without a precision, which writes the text
/// `decimal_text` describes.
#[verifier::external_body]
fn render_decimal(mantissa: i128, scale: u32) -> (r: String)
    requires
        scale <= MAX_DECIMAL_SCALE,
        -MAX_DECIMAL_MANTISSA <= mantissa <= MAX_DECIMAL_MANTISSA,
    ensures
        r@ == decimal_text(mantissa as int, scale as nat),
{
    rust_decimal::Decimal::from_i128_with_scale(mantissa, scale).to_string()
}

/// The interpretations that one result cell admits, each `None` where that
/// decoding fails. Floating-point values arrive already rendered as text.
#[derive(Debug, Clone)]
pub struct CellValue {
    pub text: Option<String>,
    pub int4: Option<i32>,
    pub int8: Option<i64>,
    pub float4: Option<String>,
    pub float8: Option<String>,
    pub decimal: Option<DecimalValue>,
}

/// The text of a cell: the first interpretation that succeeds, in the order
/// text, 32-bit integer, 64-bit integer, 32-bit float, 64-bit float, decimal;
/// `None` where none does.
pub open spec fn decoded(c: CellValue) -> Option<Seq<char>> {
    if c.text is Some {
        Some(c.text->0@)
    } else if c.int4 is Some {
        Some(int_text(c.int4->0 as int))
    } else if c.int8 is Some {
        Some(int_text(c.int8->0 as int))
    } else if c.float4 is Some {
        Some(c.float4->0@)
    } else if c.float8 is Some {
        Some(c.float8->0@)
    } else if c.decimal is Some && c.decimal->0.in_range() {
        Some(decimal_text(c.decimal->0.mantissa as int, c.decimal->0.scale as nat))
    } else {
        None
    }
}

/// Decodes one cell as `decoded` says; `None` where no interpretation fits.
pub fn decode_cell(c: &CellValue) -> (r: Option<String>)
    ensures
        r is Some <==> decoded(*c) is Some,
        r matches Some(s) ==> decoded(*c) == Some(s@),
{
    if let Some(t) = &c.text {
        Some(t.clone())
    } else if let Some(v) = c.int4 {
        Some(integer_text(v as i64))
    } else if let Some(v) = c.int8 {
        Some(integer_text(v))
    } else if let Some(t) = &c.float4 {
        Some(t.clone())
    } else if let Some(t) = &c.float8 {
        Some(t.clone())
    } else if let Some(d) = c.decimal {
        if d.scale <= MAX_DECIMAL_SCALE && -MAX_DECIMAL_MANTISSA <= d.mantissa
            && d.mantissa <= MAX_DECIMAL_MANTISSA {
            Some(render_decimal(d.mantissa, d.scale))
        } else {
            None
        }
    } else {
        None
    }
}

} // verus!
