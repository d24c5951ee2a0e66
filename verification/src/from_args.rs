//! Extracting the arguments of a call into a tuple of native types.

use crate::context::{argv, Exception, FunctionContext, NeonResult};
use crate::error::mismatch_text;
use crate::private::Sealed;
use crate::try_from_js::TryFromJs;
use crate::value::Dynamic;
use vstd::prelude::*;

verus! {

/// Values that may be extracted from the arguments of a function call.
///
/// It is implemented for tuples of up to 32 native types, and for a
/// single native type, which stands for the tuple of one. The type of
/// each slot is applied to the raw argument at the slot's position, from
/// left to right; of the arguments that the caller supplied, those
/// beyond the last slot are not read, and a slot that the caller left
/// empty reads `undefined`.
pub trait FromArgs: Sealed + Sized {
    /// The number of slots.
    spec fn arity() -> nat;

    /// The name that a failed extraction reports as expected: that of
    /// the first slot, from the left, whose raw argument has the wrong
    /// shape. `None` where the raw argument of every slot has the shape
    /// that the slot requires.
    spec fn mismatch(arguments: Seq<Dynamic>) -> Option<Seq<char>>;

    /// Whether each component of this value is what the raw argument at
    /// its position is read as.
    spec fn extracted_from(self, arguments: Seq<Dynamic>) -> bool;

    /// An extraction reads exactly as many raw arguments as the tuple
    /// has slots: it decides on an argument list as on the list of its
    /// first `arity` raw arguments.
    proof fn lemma_reads_arity(value: Self, arguments: Seq<Dynamic>)
        ensures
            Self::mismatch(arguments) == Self::mismatch(argv(arguments, Self::arity())),
            value.extracted_from(arguments) == value.extracted_from(
                argv(arguments, Self::arity()),
            ),
    ;

    /// Extracts the arguments strictly: the value where every slot
    /// matches; where not, the type error of the first slot that does
    /// not match is raised, whatever stands in the slots after it.
    fn from_args(cx: &mut FunctionContext) -> (r: NeonResult<Self>)
        ensures
            final(cx)@.arguments == old(cx)@.arguments,
            match r {
                Ok(value) => {
                    &&& Self::mismatch(old(cx)@.arguments) is None
                    &&& value.extracted_from(old(cx)@.arguments)
                    &&& final(cx)@.pending == old(cx)@.pending
                },
                Err(_) => {
                    &&& Self::mismatch(old(cx)@.arguments) matches Some(name)
                    &&& final(cx)@.pending == Some(Exception::type_error(mismatch_text(name)))
                },
            },
    ;

    /// Probes the arguments: the value where every slot matches, and no
    /// match where one does not. Nothing is raised and the context stays
    /// as it is.
    fn from_args_opt(cx: &mut FunctionContext) -> (r: NeonResult<Option<Self>>)
        ensures
            final(cx)@ == old(cx)@,
            match r {
                Ok(Some(value)) => {
                    &&& Self::mismatch(old(cx)@.arguments) is None
                    &&& value.extracted_from(old(cx)@.arguments)
                },
                Ok(None) => Self::mismatch(old(cx)@.arguments) is Some,
                Err(_) => false,
            },
    ;
}

/// A single native type is extracted as the tuple of one is.
impl<T: TryFromJs> FromArgs for T {
    open spec fn arity() -> nat {
        1
    }

    open spec fn mismatch(arguments: Seq<Dynamic>) -> Option<Seq<char>> {
        <(T,) as FromArgs>::mismatch(arguments)
    }

    open spec fn extracted_from(self, arguments: Seq<Dynamic>) -> bool {
        <(T,) as FromArgs>::extracted_from((self,), arguments)
    }

    proof fn lemma_reads_arity(value: Self, arguments: Seq<Dynamic>) {
        <(T,) as FromArgs>::lemma_reads_arity((value,), arguments);
    }

    fn from_args(cx: &mut FunctionContext) -> (r: NeonResult<Self>) {
        let (v,) = <(T,) as FromArgs>::from_args(cx)?;
        Ok(v)
    }

    fn from_args_opt(cx: &mut FunctionContext) -> (r: NeonResult<Option<Self>>) {
        if let Some((v,)) = <(T,) as FromArgs>::from_args_opt(cx)? {
            Ok(Some(v))
        } else {
            Ok(None)
        }
    }
}

/// The empty tuple has no slot: its extraction reads nothing and
/// succeeds, whatever the arguments are.
impl FromArgs for () {
    open spec fn arity() -> nat {
        0
    }

    open spec fn mismatch(arguments: Seq<Dynamic>) -> Option<Seq<char>> {
        None
    }

    open spec fn extracted_from(self, arguments: Seq<Dynamic>) -> bool {
        true
    }

    proof fn lemma_reads_arity(value: Self, arguments: Seq<Dynamic>) {
    }

    fn from_args(cx: &mut FunctionContext) -> (r: NeonResult<Self>) {
        Ok(())
    }

    fn from_args_opt(cx: &mut FunctionContext) -> (r: NeonResult<Option<Self>>) {
        Ok(Some(()))
    }
}

} // verus!
