//! Dynamic values: the closed set of shapes, and the typed values that
//! each stand for one shape.

use crate::private::Sealed;
use vstd::prelude::*;

verus! {

/// A value of the dynamically typed host, as one of the shapes that the
/// conversions know.
///
/// A number or a date carries the bit pattern of its IEEE 754 double, so
/// that conversion never rounds and never compares floats.
#[derive(Debug, Clone, PartialEq, Eq)]
pub enum JsValue {
    Undefined,
    Null,
    Boolean(bool),
    /// A number, as the bits of its double.
    Number(u64),
    String(String),
    /// A date, as the bits of its time value in milliseconds.
    Date(u64),
    ArrayBuffer(Vec<u8>),
    Buffer(Vec<u8>),
    Uint8Array(Vec<u8>),
    /// Any other object. No native type is read from it.
    Object,
}

/// The mathematical view of a [`JsValue`].
pub enum Dynamic {
    Undefined,
    Null,
    Boolean(bool),
    Number(u64),
    String(Seq<char>),
    Date(u64),
    ArrayBuffer(Seq<u8>),
    Buffer(Seq<u8>),
    Uint8Array(Seq<u8>),
    Object,
}

/// The views of a row of dynamic values.
pub open spec fn dynamics(values: Seq<JsValue>) -> Seq<Dynamic> {
    Seq::new(values.len(), |i: int| values[i]@)
}

impl Dynamic {
    /// Whether this is one of the two values that stand for "no value".
    pub open spec fn is_nullish(self) -> bool {
        self is Undefined || self is Null
    }
}

impl View for JsValue {
    type V = Dynamic;

    open spec fn view(&self) -> Dynamic {
        match self {
            JsValue::Undefined => Dynamic::Undefined,
            JsValue::Null => Dynamic::Null,
            JsValue::Boolean(b) => Dynamic::Boolean(*b),
            JsValue::Number(bits) => Dynamic::Number(*bits),
            JsValue::String(s) => Dynamic::String(s@),
            JsValue::Date(bits) => Dynamic::Date(*bits),
            JsValue::ArrayBuffer(bytes) => Dynamic::ArrayBuffer(bytes@),
            JsValue::Buffer(bytes) => Dynamic::Buffer(bytes@),
            JsValue::Uint8Array(bytes) => Dynamic::Uint8Array(bytes@),
            JsValue::Object => Dynamic::Object,
        }
    }
}

impl JsValue {
    /// Whether the value is `null` or `undefined`.
    pub fn is_null_or_undefined(&self) -> (b: bool)
        ensures
            b == self@.is_nullish(),
    {
        match self {
            JsValue::Undefined | JsValue::Null => true,
            _ => false,
        }
    }
}

/// A dynamic type: a subset of the dynamic values, with the name under
/// which a mismatch reports it.
///
/// A value of an implementing type is a dynamic value already known to
/// belong to that type; its view is that dynamic value. The types are
/// those of this crate.
pub trait Value: Sealed + Sized + View<V = Dynamic> {
    /// The name of the type.
    spec fn kind_name() -> Seq<char>;

    /// Whether a dynamic value belongs to the type.
    spec fn is_instance(v: Dynamic) -> bool;

    /// The name of the type.
    fn name() -> (s: &'static str)
        ensures
            s@ == Self::kind_name(),
    ;

    /// Forgets the type: the same dynamic value, as a [`JsValue`]. It
    /// is an instance of the type.
    fn upcast(self) -> (v: JsValue)
        ensures
            v@ == self@,
            Self::is_instance(v@),
    ;
}

impl Value for JsValue {
    open spec fn kind_name() -> Seq<char> {
        "any"@
    }

    open spec fn is_instance(v: Dynamic) -> bool {
        true
    }

    fn name() -> (s: &'static str) {
        "any"
    }

    fn upcast(self) -> (v: JsValue) {
        self
    }
}

/// A boolean.
#[derive(Debug, Clone, Copy, PartialEq, Eq)]
pub struct JsBoolean(pub bool);

impl View for JsBoolean {
    type V = Dynamic;

    open spec fn view(&self) -> Dynamic {
        Dynamic::Boolean(self.0)
    }
}

impl Value for JsBoolean {
    open spec fn kind_name() -> Seq<char> {
        "boolean"@
    }

    open spec fn is_instance(v: Dynamic) -> bool {
        v is Boolean
    }

    fn name() -> (s: &'static str) {
        "boolean"
    }

    fn upcast(self) -> (v: JsValue) {
        JsValue::Boolean(self.0)
    }
}

/// A number, as the bits of its double.
#[derive(Debug, Clone, Copy, PartialEq, Eq)]
pub struct JsNumber(pub u64);

impl View for JsNumber {
    type V = Dynamic;

    open spec fn view(&self) -> Dynamic {
        Dynamic::Number(self.0)
    }
}

impl Value for JsNumber {
    open spec fn kind_name() -> Seq<char> {
        "number"@
    }

    open spec fn is_instance(v: Dynamic) -> bool {
        v is Number
    }

    fn name() -> (s: &'static str) {
        "number"
    }

    fn upcast(self) -> (v: JsValue) {
        JsValue::Number(self.0)
    }
}

/// A string.
#[derive(Debug, Clone, PartialEq, Eq)]
pub struct JsString(pub String);

impl View for JsString {
    type V = Dynamic;

    open spec fn view(&self) -> Dynamic {
        Dynamic::String(self.0@)
    }
}

impl Value for JsString {
    open spec fn kind_name() -> Seq<char> {
        "string"@
    }

    open spec fn is_instance(v: Dynamic) -> bool {
        v is String
    }

    fn name() -> (s: &'static str) {
        "string"
    }

    fn upcast(self) -> (v: JsValue) {
        JsValue::String(self.0)
    }
}

/// A date, as the bits of its time value in milliseconds.
#[derive(Debug, Clone, Copy, PartialEq, Eq)]
pub struct JsDate(pub u64);

impl View for JsDate {
    type V = Dynamic;

    open spec fn view(&self) -> Dynamic {
        Dynamic::Date(self.0)
    }
}

impl Value for JsDate {
    open spec fn kind_name() -> Seq<char> {
        "Date"@
    }

    open spec fn is_instance(v: Dynamic) -> bool {
        v is Date
    }

    fn name() -> (s: &'static str) {
        "Date"
    }

    fn upcast(self) -> (v: JsValue) {
        JsValue::Date(self.0)
    }
}

/// A raw buffer of bytes.
#[derive(Debug, Clone, PartialEq, Eq)]
pub struct JsArrayBuffer(pub Vec<u8>);

impl View for JsArrayBuffer {
    type V = Dynamic;

    open spec fn view(&self) -> Dynamic {
        Dynamic::ArrayBuffer(self.0@)
    }
}

impl Value for JsArrayBuffer {
    open spec fn kind_name() -> Seq<char> {
        "ArrayBuffer"@
    }

    open spec fn is_instance(v: Dynamic) -> bool {
        v is ArrayBuffer
    }

    fn name() -> (s: &'static str) {
        "ArrayBuffer"
    }

    fn upcast(self) -> (v: JsValue) {
        JsValue::ArrayBuffer(self.0)
    }
}

/// A buffer of bytes of the host's own buffer type.
#[derive(Debug, Clone, PartialEq, Eq)]
pub struct JsBuffer(pub Vec<u8>);

impl View for JsBuffer {
    type V = Dynamic;

    open spec fn view(&self) -> Dynamic {
        Dynamic::Buffer(self.0@)
    }
}

impl Value for JsBuffer {
    open spec fn kind_name() -> Seq<char> {
        "Buffer"@
    }

    open spec fn is_instance(v: Dynamic) -> bool {
        v is Buffer
    }

    fn name() -> (s: &'static str) {
        "Buffer"
    }

    fn upcast(self) -> (v: JsValue) {
        JsValue::Buffer(self.0)
    }
}

/// A typed array of bytes.
#[derive(Debug, Clone, PartialEq, Eq)]
pub struct JsUint8Array(pub Vec<u8>);

impl View for JsUint8Array {
    type V = Dynamic;

    open spec fn view(&self) -> Dynamic {
        Dynamic::Uint8Array(self.0@)
    }
}

impl Value for JsUint8Array {
    open spec fn kind_name() -> Seq<char> {
        "Uint8Array"@
    }

    open spec fn is_instance(v: Dynamic) -> bool {
        v is Uint8Array
    }

    fn name() -> (s: &'static str) {
        "Uint8Array"
    }

    fn upcast(self) -> (v: JsValue) {
        JsValue::Uint8Array(self.0)
    }
}

} // verus!
