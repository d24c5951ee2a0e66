//! The execution context: the exception that is pending, and the
//! arguments of the call being served.

use crate::error::mismatch_text;
use crate::from_args::FromArgs;
use crate::try_from_js::TryFromJs;
use crate::value::{dynamics, Dynamic, JsValue};
use vstd::prelude::*;

verus! {

/// The marker of a runtime-level failure: an exception has been raised
/// and is pending in the context.
#[derive(Debug, Clone, Copy, PartialEq, Eq)]
pub struct Throw;

/// A result that fails only at the runtime level.
pub type NeonResult<T> = Result<T, Throw>;

/// The result of producing a dynamic value.
pub type JsResult<T> = NeonResult<T>;

/// The kind of an exception.
#[derive(Debug, Clone, Copy, PartialEq, Eq, Structural)]
pub enum ErrorKind {
    Error,
    TypeError,
    RangeError,
}

/// An exception of the host: its kind and its message.
#[derive(Debug, Clone, PartialEq, Eq)]
pub struct JsError {
    pub kind: ErrorKind,
    pub message: String,
}

/// The mathematical view of a [`JsError`].
pub struct Exception {
    pub kind: ErrorKind,
    pub message: Seq<char>,
}

impl Exception {
    /// The type error with the given message.
    pub open spec fn type_error(message: Seq<char>) -> Exception {
        Exception { kind: ErrorKind::TypeError, message }
    }
}

impl View for JsError {
    type V = Exception;

    open spec fn view(&self) -> Exception {
        Exception { kind: self.kind, message: self.message@ }
    }
}

impl JsError {
    /// The type error with the given message.
    pub fn type_error(message: String) -> (e: JsError)
        ensures
            e@ == Exception::type_error(message@),
    {
        JsError { kind: ErrorKind::TypeError, message }
    }
}

/// An execution context. It holds the exception that was raised last
/// and has not been taken out, if there is one.
///
/// Its view is that pending exception.
pub struct Context {
    pending: Option<JsError>,
}

impl View for Context {
    type V = Option<Exception>;

    closed spec fn view(&self) -> Option<Exception> {
        match self.pending {
            Some(e) => Some(e@),
            None => None,
        }
    }
}

impl Context {
    /// A context with no exception pending.
    pub fn new() -> (cx: Context)
        ensures
            cx@ is None,
    {
        Context { pending: None }
    }

    /// Raises an exception. It replaces one that was pending.
    pub fn throw<T>(&mut self, exception: JsError) -> (r: NeonResult<T>)
        ensures
            r is Err,
            final(self)@ == Some(exception@),
    {
        self.pending = Some(exception);
        Err(Throw)
    }

    /// Raises a type error with the given message.
    pub fn throw_type_error<T>(&mut self, message: String) -> (r: NeonResult<T>)
        ensures
            r is Err,
            final(self)@ == Some(Exception::type_error(message@)),
    {
        self.throw(JsError::type_error(message))
    }

    /// Whether an exception is pending.
    pub fn is_throwing(&self) -> (b: bool)
        ensures
            b == self@ is Some,
    {
        self.pending.is_some()
    }

    /// The pending exception.
    pub fn exception(&self) -> (e: Option<&JsError>)
        ensures
            e is Some == self@ is Some,
            e matches Some(x) ==> self@ == Some(x@),
    {
        self.pending.as_ref()
    }

    /// Takes the pending exception out, as a handler that catches it
    /// does. None is pending afterwards.
    pub fn take_exception(&mut self) -> (e: Option<JsError>)
        ensures
            final(self)@ is None,
            e is Some == old(self)@ is Some,
            e matches Some(x) ==> old(self)@ == Some(x@),
    {
        self.pending.take()
    }
}

/// The mathematical view of a [`FunctionContext`].
pub struct Call {
    /// The exception that is pending.
    pub pending: Option<Exception>,
    /// The arguments that the caller supplied.
    pub arguments: Seq<Dynamic>,
}

impl Call {
    /// The raw argument at a position: the argument that the caller
    /// supplied there, and `undefined` where it supplied none.
    pub open spec fn argument(self, i: int) -> Dynamic {
        argument(self.arguments, i)
    }
}

/// The raw argument at a position of an argument list: the argument at
/// that position, and `undefined` where the list has none.
pub open spec fn argument(arguments: Seq<Dynamic>, i: int) -> Dynamic {
    if 0 <= i < arguments.len() {
        arguments[i]
    } else {
        Dynamic::Undefined
    }
}

/// The first `n` raw arguments of an argument list, `undefined` standing
/// for each that is missing.
pub open spec fn argv(arguments: Seq<Dynamic>, n: nat) -> Seq<Dynamic> {
    Seq::new(n, |i: int| argument(arguments, i))
}

/// The context of one function call: an execution context, and the
/// arguments that the caller supplied.
pub struct FunctionContext {
    runtime: Context,
    arguments: Vec<JsValue>,
}

impl View for FunctionContext {
    type V = Call;

    closed spec fn view(&self) -> Call {
        Call {
            pending: self.runtime@,
            arguments: dynamics(self.arguments@),
        }
    }
}

impl FunctionContext {
    /// The context of a call with the given arguments and no exception
    /// pending.
    pub fn new(arguments: Vec<JsValue>) -> (cx: FunctionContext)
        ensures
            cx@.pending is None,
            cx@.arguments == dynamics(arguments@),
    {
        FunctionContext { runtime: Context::new(), arguments }
    }

    /// The number of arguments that the caller supplied.
    pub fn len(&self) -> (n: usize)
        ensures
            n == self@.arguments.len(),
    {
        self.arguments.len()
    }

    /// The argument at a position, if the caller supplied one.
    pub fn argument_opt(&self, i: usize) -> (v: Option<&JsValue>)
        ensures
            v is Some == (i < self@.arguments.len()),
            v matches Some(x) ==> x@ == self@.arguments[i as int],
    {
        if i < self.arguments.len() {
            Some(&self.arguments[i])
        } else {
            None
        }
    }

    /// The execution context of the call.
    pub fn context(&self) -> (cx: &Context)
        ensures
            cx@ == self@.pending,
    {
        &self.runtime
    }

    /// Raises a type error with the given message.
    pub fn throw_type_error<T>(&mut self, message: String) -> (r: NeonResult<T>)
        ensures
            r is Err,
            final(self)@.pending == Some(Exception::type_error(message@)),
            final(self)@.arguments == old(self)@.arguments,
    {
        self.runtime.throw_type_error(message)
    }

    /// Converts the raw argument at a position strictly: a wrong shape
    /// is raised as a type error that names the type expected.
    pub fn arg<T: TryFromJs>(&mut self, i: usize) -> (r: NeonResult<T>)
        ensures
            final(self)@.arguments == old(self)@.arguments,
            match r {
                Ok(x) => {
                    &&& T::matches(old(self)@.argument(i as int))
                    &&& x.stands_for(old(self)@.argument(i as int))
                    &&& final(self)@.pending == old(self)@.pending
                },
                Err(_) => {
                    &&& !T::matches(old(self)@.argument(i as int))
                    &&& final(self)@.pending == Some(
                        Exception::type_error(mismatch_text(T::expected())),
                    )
                },
            },
    {
        if i < self.arguments.len() {
            T::from_js(&mut self.runtime, &self.arguments[i])
        } else {
            let undefined = JsValue::Undefined;
            T::from_js(&mut self.runtime, &undefined)
        }
    }

    /// Probes the raw argument at a position: a wrong shape is reported
    /// in the inner result, and the context stays as it is.
    pub fn try_arg<T: TryFromJs>(&mut self, i: usize) -> (r: NeonResult<Result<T, T::Error>>)
        ensures
            final(self)@ == old(self)@,
            match r {
                Ok(Ok(x)) => {
                    &&& T::matches(old(self)@.argument(i as int))
                    &&& x.stands_for(old(self)@.argument(i as int))
                },
                Ok(Err(_)) => !T::matches(old(self)@.argument(i as int)),
                Err(_) => false,
            },
    {
        if i < self.arguments.len() {
            T::try_from_js(&mut self.runtime, &self.arguments[i])
        } else {
            let undefined = JsValue::Undefined;
            T::try_from_js(&mut self.runtime, &undefined)
        }
    }

    /// Extracts the arguments of the call into `T`, strictly.
    pub fn args<T: FromArgs>(&mut self) -> (r: NeonResult<T>)
        ensures
            final(self)@.arguments == old(self)@.arguments,
            match r {
                Ok(value) => {
                    &&& T::mismatch(old(self)@.arguments) is None
                    &&& value.extracted_from(old(self)@.arguments)
                    &&& final(self)@.pending == old(self)@.pending
                },
                Err(_) => {
                    &&& T::mismatch(old(self)@.arguments) matches Some(name)
                    &&& final(self)@.pending == Some(Exception::type_error(mismatch_text(name)))
                },
            },
    {
        T::from_args(self)
    }

    /// Probes the arguments of the call for `T`: no match where a slot
    /// has the wrong shape, with the context as it was.
    pub fn args_opt<T: FromArgs>(&mut self) -> (r: NeonResult<Option<T>>)
        ensures
            final(self)@ == old(self)@,
            match r {
                Ok(Some(value)) => {
                    &&& T::mismatch(old(self)@.arguments) is None
                    &&& value.extracted_from(old(self)@.arguments)
                },
                Ok(None) => T::mismatch(old(self)@.arguments) is Some,
                Err(_) => false,
            },
    {
        T::from_args_opt(self)
    }

    /// Takes the pending exception out. None is pending afterwards.
    pub fn take_exception(&mut self) -> (e: Option<JsError>)
        ensures
            final(self)@.pending is None,
            final(self)@.arguments == old(self)@.arguments,
            e is Some == old(self)@.pending is Some,
            e matches Some(x) ==> old(self)@.pending == Some(x@),
    {
        self.runtime.take_exception()
    }
}

} // verus!
