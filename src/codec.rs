//! How a value is written to and read from a structured-data format.
//!
//! Writing: a present payload is emitted with its own encoding, an explicit
//! null as the format's null token, and an absent value as the format's unit
//! token (or not at all, where the enclosing record skips absent fields
//! with `Option3::is_none`).
//!
//! Reading: the null token is checked first and gives `Null`; any other
//! input goes to the payload's own decoder and gives `Present`; a field
//! missing from its record gives `Absent`.
use crate::Option3;
use vstd::prelude::*;

verus! {

/// What a serializer is asked to emit for one value.
#[derive(Copy, Clone, PartialEq, Eq, Debug)]
pub enum Token<T> {
    /// A payload, written with its own encoding.
    Value(T),
    /// The format's explicit null.
    Null,
    /// The format's unit, a token with no payload.
    Unit,
}

/// The token emitted for `o`.
pub open spec fn token_of<T>(o: Option3<T>) -> Token<T> {
    match o {
        Option3::Present(x) => Token::Value(x),
        Option3::Null => Token::Null,
        Option3::Absent => Token::Unit,
    }
}

/// What a null-first reader finds where token `t` was written: the payload,
/// or `None` for a token that carries none.
pub open spec fn input_of<T>(t: Token<T>) -> Option<T> {
    match t {
        Token::Value(x) => Some(x),
        _ => None,
    }
}

/// What a reader finds for a record field written from `o` when absent
/// fields are skipped: `None` for a missing key, else what the field holds.
pub open spec fn field_input<T>(o: Option3<T>) -> Option<Option<T>> {
    if o is Absent {
        None
    } else {
        Some(input_of(token_of(o)))
    }
}

/// The value decoded from an input that is either the null token (`None`)
/// or what the payload's decoder produced (`Some`).
pub open spec fn decoded_value<T>(input: Option<T>) -> Option3<T> {
    match input {
        None => Option3::Null,
        Some(x) => Option3::Present(x),
    }
}

/// The value decoded for a record field, `None` when its key is missing.
pub open spec fn decoded_field<T>(field: Option<Option<T>>) -> Option3<T> {
    match field {
        None => Option3::Absent,
        Some(input) => decoded_value(input),
    }
}

impl<T> Option3<T> {
    /// The token that a serializer emits for this value. Call it on
    /// `as_ref()` to serialize from a borrow.
    pub fn token(self) -> (r: Token<T>)
        ensures
            r == token_of(self),
    {
        match self {
            Option3::Present(x) => Token::Value(x),
            Option3::Null => Token::Null,
            Option3::Absent => Token::Unit,
        }
    }
}

/// Decodes a value that stands in the input. `input` is `None` when the raw
/// input is the null token, checked before the payload's decoder runs, and
/// otherwise holds what that decoder produced.
pub fn decode_value<T>(input: Option<T>) -> (r: Option3<T>)
    ensures
        r == decoded_value(input),
{
    match input {
        None => Option3::Null,
        Some(x) => Option3::Present(x),
    }
}

/// Decodes a record field: `None` when the key is missing, which gives the
/// default, `Absent`; otherwise the field's input as for `decode_value`.
pub fn decode_field<T>(field: Option<Option<T>>) -> (r: Option3<T>)
    ensures
        r == decoded_field(field),
{
    match field {
        None => Option3::default(),
        Some(input) => decode_value(input),
    }
}

/// Reading back what was written gives the value again: a present payload
/// or an explicit null as a bare value, and each of the three states as a
/// record field whose absent value was skipped.
pub proof fn lemma_round_trip<T>(o: Option3<T>)
    ensures
        o !is Absent ==> decoded_value(input_of(token_of(o))) == o,
        decoded_field(field_input(o)) == o,
{
}

} // verus!
