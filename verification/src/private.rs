//! The seal of the conversion traits.

use crate::native::{ArrayBuffer, Buffer, Date, F64};
use crate::value::{
    JsArrayBuffer, JsBoolean, JsBuffer, JsDate, JsNumber, JsString, JsUint8Array, JsValue,
};
use vstd::prelude::*;

verus! {

/// Implemented only in this crate. It bounds the conversion traits and
/// the trait of the dynamic types, so that every implementation of them
/// is one that was verified here.
///
/// The tuples are sealed where their extraction is implemented.
pub trait Sealed {
}

impl Sealed for JsValue {
}

impl Sealed for JsBoolean {
}

impl Sealed for JsNumber {
}

impl Sealed for JsString {
}

impl Sealed for JsDate {
}

impl Sealed for JsArrayBuffer {
}

impl Sealed for JsBuffer {
}

impl Sealed for JsUint8Array {
}

impl Sealed for F64 {
}

impl Sealed for bool {
}

impl Sealed for String {
}

impl Sealed for Vec<u8> {
}

impl Sealed for Date {
}

impl Sealed for ArrayBuffer {
}

impl Sealed for Buffer {
}

impl<T: Sealed> Sealed for Option<T> {
}

impl Sealed for () {
}

} // verus!
