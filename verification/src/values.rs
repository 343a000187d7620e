//! Values the backend reads from and writes as text: UUIDs and decimals
//! (through the `uuid` and `rust_decimal` crates), and booleans.
use vstd::prelude::*;

verus! {

/// A decimal number as `rust_decimal` holds it: `mantissa / 10^scale`.
#[derive(Clone, Copy, Debug, PartialEq, Eq, Structural)]
pub struct DecimalValue {
    pub mantissa: i128,
    pub scale: u32,
}

/// The decimals `rust_decimal` can represent: a 96-bit mantissa and a scale of at most 28.
pub open spec fn decimal_valid(d: DecimalValue) -> bool {
    -0xFFFF_FFFF_FFFF_FFFF_FFFF_FFFF <= d.mantissa <= 0xFFFF_FFFF_FFFF_FFFF_FFFF_FFFF && d.scale
        <= 28
}

/// Zero, with no digits after the point.
pub open spec fn decimal_zero() -> DecimalValue {
    DecimalValue { mantissa: 0, scale: 0 }
}

/// The decimal `Decimal::from_str` reads from a text, if it reads one.
pub uninterp spec fn decimal_parse(s: Seq<char>) -> Option<DecimalValue>;

/// The text `Decimal`'s `Display` writes for a decimal.
pub uninterp spec fn decimal_text(d: DecimalValue) -> Seq<char>;

/// The UUID `Uuid::parse_str` reads from a text, by its 128-bit value, if it reads one.
pub uninterp spec fn uuid_parse(s: Seq<char>) -> Option<u128>;

/// The text `Uuid`'s `Display` writes: the hyphenated lower-case form.
pub uninterp spec fn uuid_text(u: u128) -> Seq<char>;

/// Reads a decimal with `rust_decimal::Decimal::from_str`; what it reads is
/// a decimal `rust_decimal` can represent.
#[verifier::external_body]
pub(crate) fn parse_decimal(s: &str) -> (r: Option<DecimalValue>)
    ensures
        r == decimal_parse(s@),
        r matches Some(d) ==> decimal_valid(d),
{
    <rust_decimal::Decimal as std::str::FromStr>::from_str(s).ok().map(
        |d| DecimalValue { mantissa: d.mantissa(), scale: d.scale() },
    )
}

/// Writes a decimal with the `Display` of `rust_decimal::Decimal`
/// (built by `Decimal::from_i128_with_scale`, which panics outside the valid
/// range). `Display` writes every digit of the mantissa, the point before the
/// last `scale` of them, and a sign for a negative value; `Decimal::from_str`
/// reads that text back to the same mantissa and scale.
#[verifier::external_body]
pub(crate) fn format_decimal(d: DecimalValue) -> (r: String)
    requires
        decimal_valid(d),
    ensures
        r@ == decimal_text(d),
        decimal_parse(r@) == Some(d),
{
    rust_decimal::Decimal::from_i128_with_scale(d.mantissa, d.scale).to_string()
}

/// Reads a UUID with `uuid::Uuid::parse_str`.
#[verifier::external_body]
pub(crate) fn parse_uuid(s: &str) -> (r: Option<u128>)
    ensures
        r == uuid_parse(s@),
{
    uuid::Uuid::parse_str(s).ok().map(|u| u.as_u128())
}

/// Writes a UUID with the `Display` of `uuid::Uuid`; as the crate documents,
/// `Uuid::parse_str` reads every form the crate writes back to the same UUID.
#[verifier::external_body]
pub(crate) fn format_uuid(u: u128) -> (r: String)
    ensures
        r@ == uuid_text(u),
        uuid_parse(r@) == Some(u),
{
    uuid::Uuid::from_u128(u).to_string()
}

/// The text `bool`'s `Display` writes.
pub open spec fn bool_text(b: bool) -> Seq<char> {
    if b {
        "true"@
    } else {
        "false"@
    }
}

/// Writes a boolean as `bool::to_string` does.
pub fn format_bool(b: bool) -> (r: String)
    ensures
        r@ == bool_text(b),
{
    if b {
        "true".to_owned()
    } else {
        "false".to_owned()
    }
}

} // verus!
