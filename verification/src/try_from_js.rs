//! Reading a native value from a dynamic value.

use crate::context::{Context, Exception, NeonResult};
use crate::error::{mismatch_text, ResultExt, TypeExpected};
use crate::native::{ArrayBuffer, Buffer, Date, F64};
use crate::private::Sealed;
use crate::value::{
    Dynamic, JsArrayBuffer, JsBoolean, JsBuffer, JsDate, JsNumber, JsString, JsUint8Array,
    JsValue, Value,
};
use vstd::prelude::*;

verus! {

/// Extract native data from a dynamic value.
///
/// A native type requires one shape of dynamic value ([`Self::matches`])
/// and says which of its values a dynamic value of that shape is read
/// as ([`Self::stands_for`]).
///
/// There are two forms. The probing form, [`Self::try_from_js`], reports
/// a wrong shape as data and never raises. The strict form,
/// [`Self::from_js`], is the probing form followed by escalation: a wrong
/// shape is raised as a type error. Neither form fails at the runtime
/// level otherwise, because reading a dynamic value runs no code of the
/// host.
pub trait TryFromJs: Sealed + Sized {
    /// The error of a dynamic value of the wrong shape.
    type Error;

    /// Whether a dynamic value has the shape that this type requires.
    spec fn matches(v: Dynamic) -> bool;

    /// Whether this native value is what the dynamic value `v` is read
    /// as.
    spec fn stands_for(self, v: Dynamic) -> bool;

    /// The name of the dynamic type that a mismatch reports as expected.
    spec fn expected() -> Seq<char>;

    /// Extract this native type from a dynamic value, reporting a wrong
    /// shape in the inner result. The context stays as it is.
    fn try_from_js(cx: &mut Context, v: &JsValue) -> (r: NeonResult<Result<Self, Self::Error>>)
        ensures
            final(cx)@ == old(cx)@,
            match r {
                Ok(Ok(x)) => Self::matches(v@) && x.stands_for(v@),
                Ok(Err(_)) => !Self::matches(v@),
                Err(_) => false,
            },
    ;

    /// Same as [`Self::try_from_js`], but a wrong shape is raised as a
    /// type error that names the type expected.
    fn from_js(cx: &mut Context, v: &JsValue) -> (r: NeonResult<Self>)
        ensures
            match r {
                Ok(x) => Self::matches(v@) && x.stands_for(v@) && final(cx)@ == old(cx)@,
                Err(_) => !Self::matches(v@) && final(cx)@ == Some(
                    Exception::type_error(mismatch_text(Self::expected())),
                ),
            },
    ;
}

impl TryFromJs for F64 {
    type Error = TypeExpected<JsNumber>;

    open spec fn matches(v: Dynamic) -> bool {
        v is Number
    }

    open spec fn stands_for(self, v: Dynamic) -> bool {
        v == Dynamic::Number(self.bits)
    }

    open spec fn expected() -> Seq<char> {
        JsNumber::kind_name()
    }

    fn try_from_js(cx: &mut Context, v: &JsValue) -> (r: NeonResult<Result<Self, Self::Error>>) {
        match v {
            JsValue::Number(bits) => Ok(Ok(F64 { bits: *bits })),
            _ => Ok(Err(TypeExpected::new())),
        }
    }

    fn from_js(cx: &mut Context, v: &JsValue) -> (r: NeonResult<Self>) {
        Self::try_from_js(cx, v)?.or_throw(cx)
    }
}

impl TryFromJs for bool {
    type Error = TypeExpected<JsBoolean>;

    open spec fn matches(v: Dynamic) -> bool {
        v is Boolean
    }

    open spec fn stands_for(self, v: Dynamic) -> bool {
        v == Dynamic::Boolean(self)
    }

    open spec fn expected() -> Seq<char> {
        JsBoolean::kind_name()
    }

    fn try_from_js(cx: &mut Context, v: &JsValue) -> (r: NeonResult<Result<Self, Self::Error>>) {
        match v {
            JsValue::Boolean(b) => Ok(Ok(*b)),
            _ => Ok(Err(TypeExpected::new())),
        }
    }

    fn from_js(cx: &mut Context, v: &JsValue) -> (r: NeonResult<Self>) {
        Self::try_from_js(cx, v)?.or_throw(cx)
    }
}

impl TryFromJs for String {
    type Error = TypeExpected<JsString>;

    open spec fn matches(v: Dynamic) -> bool {
        v is String
    }

    open spec fn stands_for(self, v: Dynamic) -> bool {
        v == Dynamic::String(self@)
    }

    open spec fn expected() -> Seq<char> {
        JsString::kind_name()
    }

    fn try_from_js(cx: &mut Context, v: &JsValue) -> (r: NeonResult<Result<Self, Self::Error>>) {
        match v {
            JsValue::String(s) => Ok(Ok(s.clone())),
            _ => Ok(Err(TypeExpected::new())),
        }
    }

    fn from_js(cx: &mut Context, v: &JsValue) -> (r: NeonResult<Self>) {
        Self::try_from_js(cx, v)?.or_throw(cx)
    }
}

impl TryFromJs for Vec<u8> {
    type Error = TypeExpected<JsUint8Array>;

    open spec fn matches(v: Dynamic) -> bool {
        v is Uint8Array
    }

    open spec fn stands_for(self, v: Dynamic) -> bool {
        v == Dynamic::Uint8Array(self@)
    }

    open spec fn expected() -> Seq<char> {
        JsUint8Array::kind_name()
    }

    fn try_from_js(cx: &mut Context, v: &JsValue) -> (r: NeonResult<Result<Self, Self::Error>>) {
        match v {
            JsValue::Uint8Array(bytes) => Ok(Ok(bytes.clone())),
            _ => Ok(Err(TypeExpected::new())),
        }
    }

    fn from_js(cx: &mut Context, v: &JsValue) -> (r: NeonResult<Self>) {
        Self::try_from_js(cx, v)?.or_throw(cx)
    }
}

impl TryFromJs for Date {
    type Error = TypeExpected<JsDate>;

    open spec fn matches(v: Dynamic) -> bool {
        v is Date
    }

    open spec fn stands_for(self, v: Dynamic) -> bool {
        v == Dynamic::Date(self.0.bits)
    }

    open spec fn expected() -> Seq<char> {
        JsDate::kind_name()
    }

    fn try_from_js(cx: &mut Context, v: &JsValue) -> (r: NeonResult<Result<Self, Self::Error>>) {
        match v {
            JsValue::Date(bits) => Ok(Ok(Date(F64 { bits: *bits }))),
            _ => Ok(Err(TypeExpected::new())),
        }
    }

    fn from_js(cx: &mut Context, v: &JsValue) -> (r: NeonResult<Self>) {
        Self::try_from_js(cx, v)?.or_throw(cx)
    }
}

impl TryFromJs for ArrayBuffer {
    type Error = TypeExpected<JsArrayBuffer>;

    open spec fn matches(v: Dynamic) -> bool {
        v is ArrayBuffer
    }

    open spec fn stands_for(self, v: Dynamic) -> bool {
        v == Dynamic::ArrayBuffer(self.0@)
    }

    open spec fn expected() -> Seq<char> {
        JsArrayBuffer::kind_name()
    }

    fn try_from_js(cx: &mut Context, v: &JsValue) -> (r: NeonResult<Result<Self, Self::Error>>) {
        match v {
            JsValue::ArrayBuffer(bytes) => Ok(Ok(ArrayBuffer(bytes.clone()))),
            _ => Ok(Err(TypeExpected::new())),
        }
    }

    fn from_js(cx: &mut Context, v: &JsValue) -> (r: NeonResult<Self>) {
        Self::try_from_js(cx, v)?.or_throw(cx)
    }
}

impl TryFromJs for Buffer {
    type Error = TypeExpected<JsBuffer>;

    open spec fn matches(v: Dynamic) -> bool {
        v is Buffer
    }

    open spec fn stands_for(self, v: Dynamic) -> bool {
        v == Dynamic::Buffer(self.0@)
    }

    open spec fn expected() -> Seq<char> {
        JsBuffer::kind_name()
    }

    fn try_from_js(cx: &mut Context, v: &JsValue) -> (r: NeonResult<Result<Self, Self::Error>>) {
        match v {
            JsValue::Buffer(bytes) => Ok(Ok(Buffer(bytes.clone()))),
            _ => Ok(Err(TypeExpected::new())),
        }
    }

    fn from_js(cx: &mut Context, v: &JsValue) -> (r: NeonResult<Self>) {
        Self::try_from_js(cx, v)?.or_throw(cx)
    }
}

/// `null` and `undefined` are read as no value, whatever `T` is. Any
/// other dynamic value is read as `T` reads it.
impl<T: TryFromJs> TryFromJs for Option<T> {
    type Error = T::Error;

    open spec fn matches(v: Dynamic) -> bool {
        v.is_nullish() || T::matches(v)
    }

    open spec fn stands_for(self, v: Dynamic) -> bool {
        match self {
            None => v.is_nullish(),
            Some(x) => !v.is_nullish() && x.stands_for(v),
        }
    }

    open spec fn expected() -> Seq<char> {
        T::expected()
    }

    fn try_from_js(cx: &mut Context, v: &JsValue) -> (r: NeonResult<Result<Self, Self::Error>>) {
        if v.is_null_or_undefined() {
            return Ok(Ok(None));
        }
        match T::try_from_js(cx, v)? {
            Ok(x) => Ok(Ok(Some(x))),
            Err(e) => Ok(Err(e)),
        }
    }

    fn from_js(cx: &mut Context, v: &JsValue) -> (r: NeonResult<Self>) {
        if v.is_null_or_undefined() {
            return Ok(None);
        }
        match T::from_js(cx, v) {
            Ok(x) => Ok(Some(x)),
            Err(t) => Err(t),
        }
    }
}

} // verus!
