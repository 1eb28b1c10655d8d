//! Tolerant decoding of scalars that a JSON document may write either as a
//! number or as a string holding a numeral.

use vstd::prelude::*;

verus! {

/// `serde_json::Value`, a parsed JSON value: carried through as it is, with
/// nothing known of what it holds.
#[verifier::external_type_specification]
#[verifier::external_body]
pub struct ExJsonValue(serde_json::Value);

/// What the decoders read of a JSON value.
pub enum Scalar {
    /// A JSON number, with its value as an unsigned 64-bit integer where it
    /// is one.
    Number(Option<u64>),
    /// A JSON string.
    Text(String),
    /// The JSON null.
    Null,
    /// A JSON boolean.
    Bool,
    /// A JSON array.
    Array,
    /// A JSON object.
    Object,
}

/// The mathematical content of a [`Scalar`].
pub enum ScalarView {
    Number(Option<u64>),
    Text(Seq<char>),
    Null,
    Bool,
    Array,
    Object,
}

impl View for Scalar {
    type V = ScalarView;

    open spec fn view(&self) -> ScalarView {
        match self {
            Scalar::Number(n) => ScalarView::Number(*n),
            Scalar::Text(s) => ScalarView::Text(s@),
            Scalar::Null => ScalarView::Null,
            Scalar::Bool => ScalarView::Bool,
            Scalar::Array => ScalarView::Array,
            Scalar::Object => ScalarView::Object,
        }
    }
}

/// Why a scalar could not be decoded.
#[derive(Clone, Copy, Debug, PartialEq, Eq, Structural)]
pub enum DecodeError {
    /// A number or a string that does not hold a value of the target type.
    InvalidNumeric,
}

/// The scalar that a JSON value holds, as [`decode_integer`] reads it from
/// the value: a function of the value alone.
pub uninterp spec fn scalar_of(value: serde_json::Value) -> ScalarView;

/// Reads the shape of a `serde_json::Value`, variant by variant: a `Number`
/// gives what `serde_json::Number::as_u64` returns for it, a `String` its
/// text, and `Null`, `Bool`, `Array` and `Object` the shape of the same name.
/// The result is named by [`scalar_of`]; nothing more is claimed of it.
#[verifier::external_body]
fn scalar_shape(value: &serde_json::Value) -> (r: Scalar)
    ensures
        r@ == scalar_of(*value),
{
    match value {
        serde_json::Value::Number(n) => Scalar::Number(n.as_u64()),
        serde_json::Value::String(s) => Scalar::Text(s.clone()),
        serde_json::Value::Null => Scalar::Null,
        serde_json::Value::Bool(_) => Scalar::Bool,
        serde_json::Value::Array(_) => Scalar::Array,
        serde_json::Value::Object(_) => Scalar::Object,
    }
}

/// Whether `c` is one of the ten ASCII digits.
pub open spec fn is_digit(c: char) -> bool {
    '0' <= c && c <= '9'
}

/// The number that the digits of `s` write in base ten; 0 for no digits.
pub open spec fn digits_value(s: Seq<char>) -> nat
    decreases s.len(),
{
    if s.len() == 0 {
        0
    } else {
        digits_value(s.drop_last()) * 10 + (s.last() as nat - '0' as nat) as nat
    }
}

/// `s` without one leading plus sign, if it has one.
pub open spec fn unsigned_part(s: Seq<char>) -> Seq<char> {
    if s.len() > 0 && s[0] == '+' {
        s.skip(1)
    } else {
        s
    }
}

/// Whether `s` is a numeral of an unsigned 64-bit integer: an optional plus
/// sign, then one ASCII digit or more and nothing else, writing a number of
/// at most `u64::MAX`.
pub open spec fn is_numeral(s: Seq<char>) -> bool {
    let body = unsigned_part(s);
    &&& body.len() > 0
    &&& forall|i: int| 0 <= i < body.len() ==> is_digit(#[trigger] body[i])
    &&& digits_value(body) <= u64::MAX
}

/// The integer that `s` writes, where `s` is a numeral.
pub open spec fn numeral_value(s: Seq<char>) -> Option<u64> {
    if is_numeral(s) {
        Some(digits_value(unsigned_part(s)) as u64)
    } else {
        None
    }
}

/// Parses a decimal numeral with `str::parse::<u64>`, whose documentation
/// asks for an optional `+` followed by decimal digits only and reports
/// empty text, any other character and overflow as errors. Which of these
/// errors came is dropped.
#[verifier::external_body]
fn parse_u64(s: &str) -> (r: Option<u64>)
    ensures
        r == numeral_value(s@),
{
    s.parse::<u64>().ok()
}

/// What decoding an integer from a scalar gives.
pub open spec fn decoded_integer(scalar: ScalarView) -> Result<Option<u64>, DecodeError> {
    match scalar {
        ScalarView::Number(Some(n)) => Ok(Some(n)),
        ScalarView::Number(None) => Err(DecodeError::InvalidNumeric),
        ScalarView::Text(s) => match numeral_value(s) {
            Some(n) => Ok(Some(n)),
            None => Err(DecodeError::InvalidNumeric),
        },
        ScalarView::Null => Ok(None),
        ScalarView::Bool => Ok(None),
        ScalarView::Array => Ok(None),
        ScalarView::Object => Ok(None),
    }
}

/// Decodes an optional unsigned integer from a scalar: a number must be an
/// unsigned 64-bit integer, a string must be a numeral of one, and null, a
/// boolean, an array and an object are each absent.
pub fn decode_integer_scalar(scalar: &Scalar) -> (r: Result<Option<u64>, DecodeError>)
    ensures
        r == decoded_integer(scalar@),
{
    match scalar {
        Scalar::Number(Some(n)) => Ok(Some(*n)),
        Scalar::Number(None) => Err(DecodeError::InvalidNumeric),
        Scalar::Text(s) => match parse_u64(s.as_str()) {
            Some(n) => Ok(Some(n)),
            None => Err(DecodeError::InvalidNumeric),
        },
        Scalar::Null => Ok(None),
        Scalar::Bool => Ok(None),
        Scalar::Array => Ok(None),
        Scalar::Object => Ok(None),
    }
}

/// Decodes an optional unsigned integer from a JSON value; see
/// [`decode_integer_scalar`] for the rule.
pub fn decode_integer(value: &serde_json::Value) -> (r: Result<Option<u64>, DecodeError>)
    ensures
        r == decoded_integer(scalar_of(*value)),
{
    let scalar = scalar_shape(value);
    decode_integer_scalar(&scalar)
}

/// What the price decoder reads of a JSON value once its host has converted
/// the numeric content: each payload is the bit pattern of a binary64
/// floating-point number, absent where the conversion failed.
#[derive(Clone, Copy, Debug, PartialEq, Eq, Structural)]
pub enum FloatScalar {
    /// A JSON number, converted to binary64 where it can be.
    Number(Option<u64>),
    /// A JSON string, parsed as a binary64 numeral where it is one.
    Text(Option<u64>),
    /// Null, a boolean, an array or an object.
    Other,
}

/// What decoding a floating-point scalar gives, as a bit pattern.
pub open spec fn decoded_float(scalar: FloatScalar) -> Result<Option<u64>, DecodeError> {
    match scalar {
        FloatScalar::Number(Some(bits)) => Ok(Some(bits)),
        FloatScalar::Text(Some(bits)) => Ok(Some(bits)),
        FloatScalar::Number(None) => Err(DecodeError::InvalidNumeric),
        FloatScalar::Text(None) => Err(DecodeError::InvalidNumeric),
        FloatScalar::Other => Ok(None),
    }
}

/// Decodes an optional floating-point number, carried as its bit pattern: a
/// number or a string whose conversion failed is an error, every other shape
/// is absent.
pub fn decode_float(scalar: FloatScalar) -> (r: Result<Option<u64>, DecodeError>)
    ensures
        r == decoded_float(scalar),
{
    match scalar {
        FloatScalar::Number(Some(bits)) => Ok(Some(bits)),
        FloatScalar::Text(Some(bits)) => Ok(Some(bits)),
        FloatScalar::Number(None) => Err(DecodeError::InvalidNumeric),
        FloatScalar::Text(None) => Err(DecodeError::InvalidNumeric),
        FloatScalar::Other => Ok(None),
    }
}

/// A number and a string holding a numeral of the same integer decode alike.
pub proof fn lemma_integer_shapes_agree(n: u64, s: Seq<char>)
    requires
        numeral_value(s) == Some(n),
    ensures
        decoded_integer(ScalarView::Text(s)) == decoded_integer(ScalarView::Number(Some(n))),
        decoded_integer(ScalarView::Text(s)) == Ok::<Option<u64>, DecodeError>(Some(n)),
{
}

/// A number and a numeric string that convert to the same floating-point
/// value decode alike.
pub proof fn lemma_float_shapes_agree(bits: u64)
    ensures
        decoded_float(FloatScalar::Text(Some(bits))) == decoded_float(
            FloatScalar::Number(Some(bits)),
        ),
        decoded_float(FloatScalar::Text(Some(bits))) == Ok::<Option<u64>, DecodeError>(
            Some(bits),
        ),
{
}

/// The decimal text of an integer is a numeral of it.
pub proof fn lemma_decimal_is_numeral(n: u64)
    ensures
        numeral_value(crate::text::decimal(n as nat)) == Some(n),
{
    lemma_decimal_digits(n as nat);
}

/// The decimal text of `n` is made of digits that write `n`, and does not
/// start with a sign.
pub proof fn lemma_decimal_digits(n: nat)
    ensures
        crate::text::decimal(n).len() > 0,
        forall|i: int|
            0 <= i < crate::text::decimal(n).len() ==> is_digit(
                #[trigger] crate::text::decimal(n)[i],
            ),
        digits_value(crate::text::decimal(n)) == n,
    decreases n,
{
    let s = crate::text::decimal(n);
    if n < 10 {
        assert(digits_value(s.drop_last()) == 0);
    } else {
        lemma_decimal_digits(n / 10);
        let p = crate::text::decimal(n / 10);
        assert(s.drop_last() =~= p);
        assert forall|i: int| 0 <= i < s.len() implies is_digit(#[trigger] s[i]) by {
            if i < p.len() {
                assert(s[i] == p[i]);
            }
        }
    }
}

/// Neither null, a boolean, an array nor an object is ever an error: each
/// decodes to an absent integer.
pub proof fn lemma_other_shapes_absent(scalar: ScalarView)
    requires
        !(scalar is Number),
        !(scalar is Text),
    ensures
        decoded_integer(scalar) == Ok::<Option<u64>, DecodeError>(None),
        decoded_integer(ScalarView::Null) == Ok::<Option<u64>, DecodeError>(None),
        decoded_integer(ScalarView::Bool) == Ok::<Option<u64>, DecodeError>(None),
        decoded_integer(ScalarView::Array) == Ok::<Option<u64>, DecodeError>(None),
        decoded_integer(ScalarView::Object) == Ok::<Option<u64>, DecodeError>(None),
        decoded_float(FloatScalar::Other) == Ok::<Option<u64>, DecodeError>(None),
{
}

} // verus!
