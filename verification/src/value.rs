//! The tagged value that stands for one SQL scalar.

use vstd::prelude::*;
use vstd::utf8::{decode_utf8, encode_utf8, valid_utf8};
use vstd::utf8::{encode_utf8_decode_utf8, encode_utf8_valid_utf8};

use crate::error::DsError;

verus! {

/// A SQL scalar as the engine holds it. A real is the bit pattern of its
/// IEEE 754 double; a text is its bytes.
pub ghost enum Scalar {
    Null,
    Integer(i64),
    Real(u64),
    Text(Seq<u8>),
    Blob(Seq<u8>),
}

impl Scalar {
    /// Whether an application can read the scalar: any scalar but a text whose
    /// bytes are not UTF-8.
    pub open spec fn readable(self) -> bool {
        self matches Scalar::Text(bytes) ==> valid_utf8(bytes)
    }
}

/// One column of a result row as the driver hands it over, before its text is
/// decoded.
#[derive(Debug, PartialEq, Eq)]
pub enum RawValue {
    Null,
    Integer(i64),
    Real(u64),
    Text(Vec<u8>),
    Blob(Vec<u8>),
}

impl View for RawValue {
    type V = Scalar;

    open spec fn view(&self) -> Scalar {
        match self {
            RawValue::Null => Scalar::Null,
            RawValue::Integer(i) => Scalar::Integer(*i),
            RawValue::Real(bits) => Scalar::Real(*bits),
            RawValue::Text(bytes) => Scalar::Text(bytes@),
            RawValue::Blob(bytes) => Scalar::Blob(bytes@),
        }
    }
}

/// One SQL scalar, owned by the caller.
///
/// `Real` holds the bit pattern of the double (`f64::to_bits`), so that equal
/// values are equal bit for bit.
#[derive(Debug, Clone, PartialEq, Eq)]
pub enum DsValue {
    Null,
    Integer(i64),
    Real(u64),
    Text(String),
    Blob(Vec<u8>),
}

impl View for DsValue {
    type V = Scalar;

    /// The scalar that this value stands for; a text by its UTF-8 encoding.
    open spec fn view(&self) -> Scalar {
        match self {
            DsValue::Null => Scalar::Null,
            DsValue::Integer(i) => Scalar::Integer(*i),
            DsValue::Real(bits) => Scalar::Real(*bits),
            DsValue::Text(s) => Scalar::Text(encode_utf8(s@)),
            DsValue::Blob(bytes) => Scalar::Blob(bytes@),
        }
    }
}

impl DsValue {
    /// The characters of a `Text`; of any other variant, none.
    pub open spec fn text(&self) -> Seq<char> {
        match self {
            DsValue::Text(s) => s@,
            _ => Seq::empty(),
        }
    }

    /// The number in an `Integer`; of any other variant, zero.
    pub open spec fn integer(&self) -> i64 {
        match self {
            DsValue::Integer(i) => *i,
            _ => 0,
        }
    }

    /// The bit pattern in a `Real`; of any other variant, that of `0.0`.
    pub open spec fn real_bits(&self) -> u64 {
        match self {
            DsValue::Real(bits) => *bits,
            _ => 0,
        }
    }

    /// The bytes of a `Blob`; of any other variant, none.
    pub open spec fn bytes(&self) -> Seq<u8> {
        match self {
            DsValue::Blob(bytes) => bytes@,
            _ => Seq::empty(),
        }
    }

    /// Whether the value is `Null`.
    pub fn is_none(&self) -> (b: bool)
        ensures
            b <==> self is Null,
    {
        match self {
            DsValue::Null => true,
            _ => false,
        }
    }

    /// The text, borrowed; the empty string where the value is no `Text`.
    pub fn as_str(&self) -> (s: &str)
        ensures
            s@ == self.text(),
    {
        match self {
            DsValue::Text(s) => s.as_str(),
            _ => {
                proof {
                    reveal_strlit("");
                }
                ""
            },
        }
    }

    /// True for `Integer(1)` and for nothing else.
    pub fn as_bool(&self) -> (b: bool)
        ensures
            b <==> self@ == Scalar::Integer(1),
    {
        match self {
            DsValue::Integer(i) => *i == 1,
            _ => false,
        }
    }

    /// The integer; zero where the value is no `Integer`.
    pub fn as_i64(self) -> (i: i64)
        ensures
            i == self.integer(),
    {
        match self {
            DsValue::Integer(i) => i,
            _ => 0,
        }
    }

    /// The text, owned; the empty string where the value is no `Text`.
    pub fn as_string(self) -> (s: String)
        ensures
            s@ == self.text(),
    {
        match self {
            DsValue::Text(s) => s,
            _ => String::new(),
        }
    }

    /// The real, as the bit pattern of its double (`f64::from_bits` gives the
    /// number); the bits of `0.0`, which are all zero, where the value is no
    /// `Real`.
    pub fn as_f64(self) -> (bits: u64)
        ensures
            bits == self.real_bits(),
    {
        match self {
            DsValue::Real(bits) => bits,
            _ => 0,
        }
    }

    /// The bytes; none where the value is no `Blob`.
    pub fn as_vec(self) -> (v: Vec<u8>)
        ensures
            v@ == self.bytes(),
    {
        match self {
            DsValue::Blob(v) => v,
            _ => Vec::new(),
        }
    }
    /// Decodes one column as the driver handed it over.
    ///
    /// Every scalar but a text that is no UTF-8 gives the value of the same
    /// variant with the same payload; such a text gives `QueryRow`.
    pub fn decode(raw: RawValue) -> (r: Result<DsValue, DsError>)
        ensures
            raw@.readable() ==> (r matches Ok(v) && v@ == raw@),
            !raw@.readable() ==> r == Err::<DsValue, DsError>(DsError::QueryRow),
    {
        match raw {
            RawValue::Null => Ok(DsValue::Null),
            RawValue::Integer(i) => Ok(DsValue::Integer(i)),
            RawValue::Real(bits) => Ok(DsValue::Real(bits)),
            RawValue::Text(bytes) => match String::from_utf8(bytes) {
                Ok(s) => Ok(DsValue::Text(s)),
                Err(_) => Err(DsError::QueryRow),
            },
            RawValue::Blob(bytes) => Ok(DsValue::Blob(bytes)),
        }
    }
}

/// Every value stands for a scalar that can be read: the text of a value is
/// UTF-8 by construction.
pub proof fn lemma_value_is_readable(value: DsValue)
    ensures
        value@.readable(),
{
    if let DsValue::Text(s) = value {
        encode_utf8_valid_utf8(s@);
    }
}

/// The scalar pins the value down: two values that stand for the same scalar
/// are of the same variant and carry the same payload. A text gets its
/// characters back from the bytes of its scalar.
pub proof fn lemma_scalar_pins_value(a: DsValue, b: DsValue)
    requires
        a@ == b@,
    ensures
        a is Null <==> b is Null,
        a is Integer <==> b is Integer,
        a is Real <==> b is Real,
        a is Text <==> b is Text,
        a is Blob <==> b is Blob,
        a.integer() == b.integer(),
        a.real_bits() == b.real_bits(),
        a.text() == b.text(),
        a.bytes() == b.bytes(),
        a@ matches Scalar::Text(bytes) ==> a.text() == decode_utf8(bytes),
{
    encode_utf8_decode_utf8(a.text());
    encode_utf8_decode_utf8(b.text());
}

/// Decoding loses nothing. A value that stands for the scalar of a column,
/// as every value that `decode` returns does, is of the column's variant and
/// carries its payload: the same integer, the same bits of a real, the same
/// bytes of a blob, and for a text the characters that the column's bytes
/// encode.
pub proof fn lemma_decode_is_faithful(raw: RawValue, value: DsValue)
    requires
        value@ == raw@,
    ensures
        match raw {
            RawValue::Null => value is Null,
            RawValue::Integer(i) => value is Integer && value.integer() == i,
            RawValue::Real(bits) => value is Real && value.real_bits() == bits,
            RawValue::Text(bytes) => {
                &&& value is Text
                &&& valid_utf8(bytes@)
                &&& value.text() == decode_utf8(bytes@)
                &&& encode_utf8(value.text()) == bytes@
            },
            RawValue::Blob(bytes) => value is Blob && value.bytes() == bytes@,
        },
{
    lemma_value_is_readable(value);
    encode_utf8_decode_utf8(value.text());
}

} // verus!
