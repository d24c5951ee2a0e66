//! The error of a value that has not the type expected, and its
//! escalation into a type error of the host.

use crate::context::{Context, Exception, NeonResult, Throw};
use crate::value::Value;
use std::marker::PhantomData;
use vstd::prelude::*;

verus! {

/// The text of a mismatch against the dynamic type of the given name.
pub open spec fn mismatch_text(name: Seq<char>) -> Seq<char> {
    "expected "@ + name
}

/// Error returned when a dynamic value is not of the type expected.
///
/// It carries nothing but the type `T` that was expected. Its view is its
/// text, which names `T`.
pub struct TypeExpected<T: Value>(PhantomData<T>);

impl<T: Value> View for TypeExpected<T> {
    type V = Seq<char>;

    open spec fn view(&self) -> Seq<char> {
        mismatch_text(T::kind_name())
    }
}

impl<T: Value> TypeExpected<T> {
    /// The error that a value of type `T` was expected.
    pub fn new() -> (e: Self)
        ensures
            e@ == mismatch_text(T::kind_name()),
    {
        TypeExpected(PhantomData)
    }

    /// The text of the error: the word `expected` and the name of `T`.
    pub fn message(&self) -> (s: String)
        ensures
            s@ == self@,
    {
        String::from_str("expected ").concat(T::name())
    }

    /// The text that shows the error for debugging: the name of `T`, in
    /// double quotes, as the one field of `TypeExpected`.
    pub fn debug_text(&self) -> (s: String)
        ensures
            s@ == "TypeExpected(\""@ + T::kind_name() + "\")"@,
    {
        String::from_str("TypeExpected(\"").concat(T::name()).concat("\")")
    }
}

/// A result whose error can be raised as an exception.
pub trait ResultExt<T>: Sized {
    /// The value of a success, or the exception that the error becomes.
    spec fn escalated(self) -> Result<T, Exception>;

    /// Hands out the value of a success and leaves the context as it
    /// is; raises the error of a failure as an exception.
    fn or_throw(self, cx: &mut Context) -> (r: NeonResult<T>)
        ensures
            match self.escalated() {
                Ok(v) => r == Ok::<T, Throw>(v) && final(cx)@ == old(cx)@,
                Err(e) => r is Err && final(cx)@ == Some(e),
            },
    ;
}

impl<T, U: Value> ResultExt<T> for Result<T, TypeExpected<U>> {
    /// A mismatch becomes a type error with the text of the mismatch.
    open spec fn escalated(self) -> Result<T, Exception> {
        match self {
            Ok(v) => Ok(v),
            Err(e) => Err(Exception::type_error(e@)),
        }
    }

    fn or_throw(self, cx: &mut Context) -> (r: NeonResult<T>) {
        match self {
            Ok(v) => Ok(v),
            Err(e) => cx.throw_type_error(e.message()),
        }
    }
}

} // verus!
