//! Type-directed conversion between dynamic values and native values.
//!
//! A dynamic value is one of a closed set of shapes ([`JsValue`]). A native
//! type says which shape it requires ([`TryFromJs`]) and which shape it
//! becomes ([`TryIntoJs`]). A tuple of native types extracts the ordered
//! arguments of a call ([`FromArgs`]), either strictly, where a wrong shape
//! raises a type error, or by probing, where a wrong shape is reported as
//! "no match" and leaves no trace, so that a caller can try another shape.
//!
//! Every contract is stated over the mathematical view of the values
//! involved: [`Dynamic`] for a dynamic value, [`Exception`] for what a
//! context has pending, and [`Call`] for a function call.

pub mod context;
pub mod error;
pub mod from_args;
pub mod laws;
pub mod native;
mod private;
mod tuples;
pub mod try_from_js;
pub mod try_into_js;
pub mod value;

pub use context::{
    Call, Context, ErrorKind, Exception, FunctionContext, JsError, JsResult, NeonResult, Throw,
};
pub use error::{mismatch_text, ResultExt, TypeExpected};
pub use from_args::FromArgs;
pub use native::{ArrayBuffer, Buffer, Date, F64};
pub use try_from_js::TryFromJs;
pub use try_into_js::TryIntoJs;
pub use value::{
    dynamics, Dynamic, JsArrayBuffer, JsBoolean, JsBuffer, JsDate, JsNumber, JsString,
    JsUint8Array, JsValue, Value,
};
