//! Producing a dynamic value from a native value.

use crate::context::{Context, JsResult};
use crate::native::{ArrayBuffer, Buffer, Date, F64};
use crate::private::Sealed;
use crate::value::{
    Dynamic, JsArrayBuffer, JsBoolean, JsBuffer, JsDate, JsNumber, JsString, JsUint8Array,
    JsValue, Value,
};
use vstd::prelude::*;

verus! {

/// Convert native data into a dynamic value.
///
/// The native type fixes the dynamic type of what is produced
/// ([`Self::Value`]), so no shape can be wrong in this direction. The
/// result type leaves room for a failure at the runtime level; producing
/// a value of one of the shapes that this library knows runs no code of
/// the host, so that the conversion succeeds and the context stays as it
/// is.
pub trait TryIntoJs: Sealed + Sized {
    /// The type of dynamic value that is produced: the narrowest one
    /// that holds every value of the native type.
    type Value: Value;

    /// The dynamic value that this native value becomes.
    spec fn into_dynamic(self) -> Dynamic;

    /// Convert `self` into a dynamic value.
    fn try_into_js(self, cx: &mut Context) -> (r: JsResult<Self::Value>)
        ensures
            final(cx)@ == old(cx)@,
            r matches Ok(d) && d@ == self.into_dynamic() && Self::Value::is_instance(d@),
    ;
}

impl TryIntoJs for F64 {
    type Value = JsNumber;

    open spec fn into_dynamic(self) -> Dynamic {
        Dynamic::Number(self.bits)
    }

    fn try_into_js(self, cx: &mut Context) -> (r: JsResult<Self::Value>) {
        Ok(JsNumber(self.bits))
    }
}

impl TryIntoJs for bool {
    type Value = JsBoolean;

    open spec fn into_dynamic(self) -> Dynamic {
        Dynamic::Boolean(self)
    }

    fn try_into_js(self, cx: &mut Context) -> (r: JsResult<Self::Value>) {
        Ok(JsBoolean(self))
    }
}

impl TryIntoJs for String {
    type Value = JsString;

    open spec fn into_dynamic(self) -> Dynamic {
        Dynamic::String(self@)
    }

    fn try_into_js(self, cx: &mut Context) -> (r: JsResult<Self::Value>) {
        Ok(JsString(self))
    }
}

impl TryIntoJs for Vec<u8> {
    type Value = JsUint8Array;

    open spec fn into_dynamic(self) -> Dynamic {
        Dynamic::Uint8Array(self@)
    }

    fn try_into_js(self, cx: &mut Context) -> (r: JsResult<Self::Value>) {
        Ok(JsUint8Array(self))
    }
}

impl TryIntoJs for Date {
    type Value = JsDate;

    open spec fn into_dynamic(self) -> Dynamic {
        Dynamic::Date(self.0.bits)
    }

    fn try_into_js(self, cx: &mut Context) -> (r: JsResult<Self::Value>) {
        Ok(JsDate(self.0.bits))
    }
}

impl TryIntoJs for ArrayBuffer {
    type Value = JsArrayBuffer;

    open spec fn into_dynamic(self) -> Dynamic {
        Dynamic::ArrayBuffer(self.0@)
    }

    fn try_into_js(self, cx: &mut Context) -> (r: JsResult<Self::Value>) {
        Ok(JsArrayBuffer(self.0))
    }
}

impl TryIntoJs for Buffer {
    type Value = JsBuffer;

    open spec fn into_dynamic(self) -> Dynamic {
        Dynamic::Buffer(self.0@)
    }

    fn try_into_js(self, cx: &mut Context) -> (r: JsResult<Self::Value>) {
        Ok(JsBuffer(self.0))
    }
}

/// No value becomes `undefined`. A value becomes what `T` makes of it,
/// with its type forgotten, since the dynamic type of the result is not
/// known before.
impl<T: TryIntoJs> TryIntoJs for Option<T> {
    type Value = JsValue;

    open spec fn into_dynamic(self) -> Dynamic {
        match self {
            None => Dynamic::Undefined,
            Some(x) => x.into_dynamic(),
        }
    }

    fn try_into_js(self, cx: &mut Context) -> (r: JsResult<Self::Value>) {
        match self {
            None => Ok(JsValue::Undefined),
            Some(x) => match x.try_into_js(cx) {
                Ok(d) => Ok(d.upcast()),
                Err(t) => Err(t),
            },
        }
    }
}

} // verus!
