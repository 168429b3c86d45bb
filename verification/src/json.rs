//! A plain model of JSON values as they arrive in, and leave, error bodies.
//!
//! Scalars are held as such. Numbers keep the three shapes JSON parsers
//! distinguish: non-negative integers, negative integers and other numbers,
//! the latter by their textual form. Arrays and objects are held by their
//! JSON text, since no decision here looks inside them.

use vstd::prelude::*;

verus! {

/// A JSON number.
#[derive(Debug, PartialEq)]
pub enum JsonNumber {
    /// An integer that is zero or positive.
    PosInt(u64),
    /// An integer that is negative.
    NegInt(i64),
    /// Any other number, by its textual form.
    Float(String),
}

/// A JSON value.
#[derive(Debug, PartialEq)]
pub enum JsonValue {
    Null,
    Bool(bool),
    Number(JsonNumber),
    String(String),
    /// An array or an object, by its JSON text.
    Composite(String),
}

/// The mathematical view of a [`JsonNumber`].
pub enum JsonNumberView {
    PosInt(u64),
    NegInt(i64),
    Float(Seq<char>),
}

/// The mathematical view of a [`JsonValue`].
pub enum JsonView {
    Null,
    Bool(bool),
    Number(JsonNumberView),
    String(Seq<char>),
    Composite(Seq<char>),
}

impl View for JsonNumber {
    type V = JsonNumberView;

    open spec fn view(&self) -> JsonNumberView {
        match self {
            JsonNumber::PosInt(n) => JsonNumberView::PosInt(*n),
            JsonNumber::NegInt(n) => JsonNumberView::NegInt(*n),
            JsonNumber::Float(s) => JsonNumberView::Float(s@),
        }
    }
}

impl View for JsonValue {
    type V = JsonView;

    open spec fn view(&self) -> JsonView {
        match self {
            JsonValue::Null => JsonView::Null,
            JsonValue::Bool(b) => JsonView::Bool(*b),
            JsonValue::Number(n) => JsonView::Number(n@),
            JsonValue::String(s) => JsonView::String(s@),
            JsonValue::Composite(s) => JsonView::Composite(s@),
        }
    }
}

impl JsonNumber {
    /// Returns a copy of this number.
    pub fn deep_clone(&self) -> (r: JsonNumber)
        ensures
            r@ == self@,
    {
        match self {
            JsonNumber::PosInt(n) => JsonNumber::PosInt(*n),
            JsonNumber::NegInt(n) => JsonNumber::NegInt(*n),
            JsonNumber::Float(s) => JsonNumber::Float(s.clone()),
        }
    }
}

impl JsonValue {
    /// Returns a copy of this value.
    pub fn deep_clone(&self) -> (r: JsonValue)
        ensures
            r@ == self@,
    {
        match self {
            JsonValue::Null => JsonValue::Null,
            JsonValue::Bool(b) => JsonValue::Bool(*b),
            JsonValue::Number(n) => JsonValue::Number(n.deep_clone()),
            JsonValue::String(s) => JsonValue::String(s.clone()),
            JsonValue::Composite(s) => JsonValue::Composite(s.clone()),
        }
    }
}

} // verus!
