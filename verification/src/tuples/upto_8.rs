//! Extraction for the tuples of one to eight slots.

use crate::context::{argument, FunctionContext, NeonResult};
use crate::from_args::FromArgs;
use crate::private::Sealed;
use crate::try_from_js::TryFromJs;
use crate::value::Dynamic;
use vstd::prelude::*;

verus! {

impl<T1: TryFromJs> Sealed for (T1,) {
}

impl<T1: TryFromJs> FromArgs for (T1,) {
    open spec fn arity() -> nat {
        1
    }

    open spec fn mismatch(arguments: Seq<Dynamic>) -> Option<Seq<char>> {
        if !T1::matches(argument(arguments, 0)) {
            Some(T1::expected())
        } else {
            None
        }
    }

    open spec fn extracted_from(self, arguments: Seq<Dynamic>) -> bool {
        self.0.stands_for(argument(arguments, 0))
    }

    proof fn lemma_reads_arity(value: Self, arguments: Seq<Dynamic>) {
    }

    fn from_args(cx: &mut FunctionContext) -> (r: NeonResult<Self>) {
        Ok((cx.arg::<T1>(0)?,))
    }

    fn from_args_opt(cx: &mut FunctionContext) -> (r: NeonResult<Option<Self>>) {
        Ok(Some((
            match cx.try_arg::<T1>(0)? {
                Ok(v) => v,
                Err(_) => return Ok(None),
            },
        )))
    }
}

impl<T1: TryFromJs, T2: TryFromJs> Sealed for (T1, T2) {
}

impl<T1: TryFromJs, T2: TryFromJs> FromArgs for (T1, T2) {
    open spec fn arity() -> nat {
        2
    }

    open spec fn mismatch(arguments: Seq<Dynamic>) -> Option<Seq<char>> {
        if !T1::matches(argument(arguments, 0)) {
            Some(T1::expected())
        } else if !T2::matches(argument(arguments, 1)) {
            Some(T2::expected())
        } else {
            None
        }
    }

    open spec fn extracted_from(self, arguments: Seq<Dynamic>) -> bool {
        &&& self.0.stands_for(argument(arguments, 0))
        &&& self.1.stands_for(argument(arguments, 1))
    }

    proof fn lemma_reads_arity(value: Self, arguments: Seq<Dynamic>) {
    }

    fn from_args(cx: &mut FunctionContext) -> (r: NeonResult<Self>) {
        Ok((cx.arg::<T1>(0)?, cx.arg::<T2>(1)?))
    }

    fn from_args_opt(cx: &mut FunctionContext) -> (r: NeonResult<Option<Self>>) {
        Ok(Some((
            match cx.try_arg::<T1>(0)? {
                Ok(v) => v,
                Err(_) => return Ok(None),
            },
            match cx.try_arg::<T2>(1)? {
                Ok(v) => v,
                Err(_) => return Ok(None),
            },
        )))
    }
}

impl<T1: TryFromJs, T2: TryFromJs, T3: TryFromJs> Sealed for (T1, T2, T3) {
}

impl<T1: TryFromJs, T2: TryFromJs, T3: TryFromJs> FromArgs for (T1, T2, T3) {
    open spec fn arity() -> nat {
        3
    }

    open spec fn mismatch(arguments: Seq<Dynamic>) -> Option<Seq<char>> {
        if !T1::matches(argument(arguments, 0)) {
            Some(T1::expected())
        } else if !T2::matches(argument(arguments, 1)) {
            Some(T2::expected())
        } else if !T3::matches(argument(arguments, 2)) {
            Some(T3::expected())
        } else {
            None
        }
    }

    open spec fn extracted_from(self, arguments: Seq<Dynamic>) -> bool {
        &&& self.0.stands_for(argument(arguments, 0))
        &&& self.1.stands_for(argument(arguments, 1))
        &&& self.2.stands_for(argument(arguments, 2))
    }

    proof fn lemma_reads_arity(value: Self, arguments: Seq<Dynamic>) {
    }

    fn from_args(cx: &mut FunctionContext) -> (r: NeonResult<Self>) {
        Ok((cx.arg::<T1>(0)?, cx.arg::<T2>(1)?, cx.arg::<T3>(2)?))
    }

    fn from_args_opt(cx: &mut FunctionContext) -> (r: NeonResult<Option<Self>>) {
        Ok(Some((
            match cx.try_arg::<T1>(0)? {
                Ok(v) => v,
                Err(_) => return Ok(None),
            },
            match cx.try_arg::<T2>(1)? {
                Ok(v) => v,
                Err(_) => return Ok(None),
            },
            match cx.try_arg::<T3>(2)? {
                Ok(v) => v,
                Err(_) => return Ok(None),
            },
        )))
    }
}

impl<T1: TryFromJs, T2: TryFromJs, T3: TryFromJs, T4: TryFromJs> Sealed for (T1, T2, T3, T4) {
}

impl<T1: TryFromJs, T2: TryFromJs, T3: TryFromJs, T4: TryFromJs> FromArgs for (T1, T2, T3, T4) {
    open spec fn arity() -> nat {
        4
    }

    open spec fn mismatch(arguments: Seq<Dynamic>) -> Option<Seq<char>> {
        if !T1::matches(argument(arguments, 0)) {
            Some(T1::expected())
        } else if !T2::matches(argument(arguments, 1)) {
            Some(T2::expected())
        } else if !T3::matches(argument(arguments, 2)) {
            Some(T3::expected())
        } else if !T4::matches(argument(arguments, 3)) {
            Some(T4::expected())
        } else {
            None
        }
    }

    open spec fn extracted_from(self, arguments: Seq<Dynamic>) -> bool {
        &&& self.0.stands_for(argument(arguments, 0))
        &&& self.1.stands_for(argument(arguments, 1))
        &&& self.2.stands_for(argument(arguments, 2))
        &&& self.3.stands_for(argument(arguments, 3))
    }

    proof fn lemma_reads_arity(value: Self, arguments: Seq<Dynamic>) {
    }

    fn from_args(cx: &mut FunctionContext) -> (r: NeonResult<Self>) {
        Ok((cx.arg::<T1>(0)?, cx.arg::<T2>(1)?, cx.arg::<T3>(2)?, cx.arg::<T4>(3)?))
    }

    fn from_args_opt(cx: &mut FunctionContext) -> (r: NeonResult<Option<Self>>) {
        Ok(Some((
            match cx.try_arg::<T1>(0)? {
                Ok(v) => v,
                Err(_) => return Ok(None),
            },
            match cx.try_arg::<T2>(1)? {
                Ok(v) => v,
                Err(_) => return Ok(None),
            },
            match cx.try_arg::<T3>(2)? {
                Ok(v) => v,
                Err(_) => return Ok(None),
            },
            match cx.try_arg::<T4>(3)? {
                Ok(v) => v,
                Err(_) => return Ok(None),
            },
        )))
    }
}

impl<
    T1: TryFromJs, T2: TryFromJs, T3: TryFromJs, T4: TryFromJs, T5: TryFromJs,
> Sealed for (T1, T2, T3, T4, T5) {
}

impl<
    T1: TryFromJs, T2: TryFromJs, T3: TryFromJs, T4: TryFromJs, T5: TryFromJs,
> FromArgs for (T1, T2, T3, T4, T5) {
    open spec fn arity() -> nat {
        5
    }

    open spec fn mismatch(arguments: Seq<Dynamic>) -> Option<Seq<char>> {
        if !T1::matches(argument(arguments, 0)) {
            Some(T1::expected())
        } else if !T2::matches(argument(arguments, 1)) {
            Some(T2::expected())
        } else if !T3::matches(argument(arguments, 2)) {
            Some(T3::expected())
        } else if !T4::matches(argument(arguments, 3)) {
            Some(T4::expected())
        } else if !T5::matches(argument(arguments, 4)) {
            Some(T5::expected())
        } else {
            None
        }
    }

    open spec fn extracted_from(self, arguments: Seq<Dynamic>) -> bool {
        &&& self.0.stands_for(argument(arguments, 0))
        &&& self.1.stands_for(argument(arguments, 1))
        &&& self.2.stands_for(argument(arguments, 2))
        &&& self.3.stands_for(argument(arguments, 3))
        &&& self.4.stands_for(argument(arguments, 4))
    }

    proof fn lemma_reads_arity(value: Self, arguments: Seq<Dynamic>) {
    }

    fn from_args(cx: &mut FunctionContext) -> (r: NeonResult<Self>) {
        Ok((
            cx.arg::<T1>(0)?,
            cx.arg::<T2>(1)?,
            cx.arg::<T3>(2)?,
            cx.arg::<T4>(3)?,
            cx.arg::<T5>(4)?,
        ))
    }

    fn from_args_opt(cx: &mut FunctionContext) -> (r: NeonResult<Option<Self>>) {
        Ok(Some((
            match cx.try_arg::<T1>(0)? {
                Ok(v) => v,
                Err(_) => return Ok(None),
            },
            match cx.try_arg::<T2>(1)? {
                Ok(v) => v,
                Err(_) => return Ok(None),
            },
            match cx.try_arg::<T3>(2)? {
                Ok(v) => v,
                Err(_) => return Ok(None),
            },
            match cx.try_arg::<T4>(3)? {
                Ok(v) => v,
                Err(_) => return Ok(None),
            },
            match cx.try_arg::<T5>(4)? {
                Ok(v) => v,
                Err(_) => return Ok(None),
            },
        )))
    }
}

impl<
    T1: TryFromJs, T2: TryFromJs, T3: TryFromJs, T4: TryFromJs, T5: TryFromJs, T6: TryFromJs,
> Sealed for (T1, T2, T3, T4, T5, T6) {
}

impl<
    T1: TryFromJs, T2: TryFromJs, T3: TryFromJs, T4: TryFromJs, T5: TryFromJs, T6: TryFromJs,
> FromArgs for (T1, T2, T3, T4, T5, T6) {
    open spec fn arity() -> nat {
        6
    }

    open spec fn mismatch(arguments: Seq<Dynamic>) -> Option<Seq<char>> {
        if !T1::matches(argument(arguments, 0)) {
            Some(T1::expected())
        } else if !T2::matches(argument(arguments, 1)) {
            Some(T2::expected())
        } else if !T3::matches(argument(arguments, 2)) {
            Some(T3::expected())
        } else if !T4::matches(argument(arguments, 3)) {
            Some(T4::expected())
        } else if !T5::matches(argument(arguments, 4)) {
            Some(T5::expected())
        } else if !T6::matches(argument(arguments, 5)) {
            Some(T6::expected())
        } else {
            None
        }
    }

    open spec fn extracted_from(self, arguments: Seq<Dynamic>) -> bool {
        &&& self.0.stands_for(argument(arguments, 0))
        &&& self.1.stands_for(argument(arguments, 1))
        &&& self.2.stands_for(argument(arguments, 2))
        &&& self.3.stands_for(argument(arguments, 3))
        &&& self.4.stands_for(argument(arguments, 4))
        &&& self.5.stands_for(argument(arguments, 5))
    }

    proof fn lemma_reads_arity(value: Self, arguments: Seq<Dynamic>) {
    }

    fn from_args(cx: &mut FunctionContext) -> (r: NeonResult<Self>) {
        Ok((
            cx.arg::<T1>(0)?,
            cx.arg::<T2>(1)?,
            cx.arg::<T3>(2)?,
            cx.arg::<T4>(3)?,
            cx.arg::<T5>(4)?,
            cx.arg::<T6>(5)?,
        ))
    }

    fn from_args_opt(cx: &mut FunctionContext) -> (r: NeonResult<Option<Self>>) {
        Ok(Some((
            match cx.try_arg::<T1>(0)? {
                Ok(v) => v,
                Err(_) => return Ok(None),
            },
            match cx.try_arg::<T2>(1)? {
                Ok(v) => v,
                Err(_) => return Ok(None),
            },
            match cx.try_arg::<T3>(2)? {
                Ok(v) => v,
                Err(_) => return Ok(None),
            },
            match cx.try_arg::<T4>(3)? {
                Ok(v) => v,
                Err(_) => return Ok(None),
            },
            match cx.try_arg::<T5>(4)? {
                Ok(v) => v,
                Err(_) => return Ok(None),
            },
            match cx.try_arg::<T6>(5)? {
                Ok(v) => v,
                Err(_) => return Ok(None),
            },
        )))
    }
}

impl<
    T1: TryFromJs, T2: TryFromJs, T3: TryFromJs, T4: TryFromJs, T5: TryFromJs, T6: TryFromJs,
    T7: TryFromJs,
> Sealed for (T1, T2, T3, T4, T5, T6, T7) {
}

impl<
    T1: TryFromJs, T2: TryFromJs, T3: TryFromJs, T4: TryFromJs, T5: TryFromJs, T6: TryFromJs,
    T7: TryFromJs,
> FromArgs for (T1, T2, T3, T4, T5, T6, T7) {
    open spec fn arity() -> nat {
        7
    }

    open spec fn mismatch(arguments: Seq<Dynamic>) -> Option<Seq<char>> {
        if !T1::matches(argument(arguments, 0)) {
            Some(T1::expected())
        } else if !T2::matches(argument(arguments, 1)) {
            Some(T2::expected())
        } else if !T3::matches(argument(arguments, 2)) {
            Some(T3::expected())
        } else if !T4::matches(argument(arguments, 3)) {
            Some(T4::expected())
        } else if !T5::matches(argument(arguments, 4)) {
            Some(T5::expected())
        } else if !T6::matches(argument(arguments, 5)) {
            Some(T6::expected())
        } else if !T7::matches(argument(arguments, 6)) {
            Some(T7::expected())
        } else {
            None
        }
    }

    open spec fn extracted_from(self, arguments: Seq<Dynamic>) -> bool {
        &&& self.0.stands_for(argument(arguments, 0))
        &&& self.1.stands_for(argument(arguments, 1))
        &&& self.2.stands_for(argument(arguments, 2))
        &&& self.3.stands_for(argument(arguments, 3))
        &&& self.4.stands_for(argument(arguments, 4))
        &&& self.5.stands_for(argument(arguments, 5))
        &&& self.6.stands_for(argument(arguments, 6))
    }

    proof fn lemma_reads_arity(value: Self, arguments: Seq<Dynamic>) {
    }

    fn from_args(cx: &mut FunctionContext) -> (r: NeonResult<Self>) {
        Ok((
            cx.arg::<T1>(0)?,
            cx.arg::<T2>(1)?,
            cx.arg::<T3>(2)?,
            cx.arg::<T4>(3)?,
            cx.arg::<T5>(4)?,
            cx.arg::<T6>(5)?,
            cx.arg::<T7>(6)?,
        ))
    }

    fn from_args_opt(cx: &mut FunctionContext) -> (r: NeonResult<Option<Self>>) {
        Ok(Some((
            match cx.try_arg::<T1>(0)? {
                Ok(v) => v,
                Err(_) => return Ok(None),
            },
            match cx.try_arg::<T2>(1)? {
                Ok(v) => v,
                Err(_) => return Ok(None),
            },
            match cx.try_arg::<T3>(2)? {
                Ok(v) => v,
                Err(_) => return Ok(None),
            },
            match cx.try_arg::<T4>(3)? {
                Ok(v) => v,
                Err(_) => return Ok(None),
            },
            match cx.try_arg::<T5>(4)? {
                Ok(v) => v,
                Err(_) => return Ok(None),
            },
            match cx.try_arg::<T6>(5)? {
                Ok(v) => v,
                Err(_) => return Ok(None),
            },
            match cx.try_arg::<T7>(6)? {
                Ok(v) => v,
                Err(_) => return Ok(None),
            },
        )))
    }
}

impl<
    T1: TryFromJs, T2: TryFromJs, T3: TryFromJs, T4: TryFromJs, T5: TryFromJs, T6: TryFromJs,
    T7: TryFromJs, T8: TryFromJs,
> Sealed for (T1, T2, T3, T4, T5, T6, T7, T8) {
}

impl<
    T1: TryFromJs, T2: TryFromJs, T3: TryFromJs, T4: TryFromJs, T5: TryFromJs, T6: TryFromJs,
    T7: TryFromJs, T8: TryFromJs,
> FromArgs for (T1, T2, T3, T4, T5, T6, T7, T8) {
    open spec fn arity() -> nat {
        8
    }

    open spec fn mismatch(arguments: Seq<Dynamic>) -> Option<Seq<char>> {
        if !T1::matches(argument(arguments, 0)) {
            Some(T1::expected())
        } else if !T2::matches(argument(arguments, 1)) {
            Some(T2::expected())
        } else if !T3::matches(argument(arguments, 2)) {
            Some(T3::expected())
        } else if !T4::matches(argument(arguments, 3)) {
            Some(T4::expected())
        } else if !T5::matches(argument(arguments, 4)) {
            Some(T5::expected())
        } else if !T6::matches(argument(arguments, 5)) {
            Some(T6::expected())
        } else if !T7::matches(argument(arguments, 6)) {
            Some(T7::expected())
        } else if !T8::matches(argument(arguments, 7)) {
            Some(T8::expected())
        } else {
            None
        }
    }

    open spec fn extracted_from(self, arguments: Seq<Dynamic>) -> bool {
        &&& self.0.stands_for(argument(arguments, 0))
        &&& self.1.stands_for(argument(arguments, 1))
        &&& self.2.stands_for(argument(arguments, 2))
        &&& self.3.stands_for(argument(arguments, 3))
        &&& self.4.stands_for(argument(arguments, 4))
        &&& self.5.stands_for(argument(arguments, 5))
        &&& self.6.stands_for(argument(arguments, 6))
        &&& self.7.stands_for(argument(arguments, 7))
    }

    proof fn lemma_reads_arity(value: Self, arguments: Seq<Dynamic>) {
    }

    fn from_args(cx: &mut FunctionContext) -> (r: NeonResult<Self>) {
        Ok((
            cx.arg::<T1>(0)?,
            cx.arg::<T2>(1)?,
            cx.arg::<T3>(2)?,
            cx.arg::<T4>(3)?,
            cx.arg::<T5>(4)?,
            cx.arg::<T6>(5)?,
            cx.arg::<T7>(6)?,
            cx.arg::<T8>(7)?,
        ))
    }

    fn from_args_opt(cx: &mut FunctionContext) -> (r: NeonResult<Option<Self>>) {
        Ok(Some((
            match cx.try_arg::<T1>(0)? {
                Ok(v) => v,
                Err(_) => return Ok(None),
            },
            match cx.try_arg::<T2>(1)? {
                Ok(v) => v,
                Err(_) => return Ok(None),
            },
            match cx.try_arg::<T3>(2)? {
                Ok(v) => v,
                Err(_) => return Ok(None),
            },
            match cx.try_arg::<T4>(3)? {
                Ok(v) => v,
                Err(_) => return Ok(None),
            },
            match cx.try_arg::<T5>(4)? {
                Ok(v) => v,
                Err(_) => return Ok(None),
            },
            match cx.try_arg::<T6>(5)? {
                Ok(v) => v,
                Err(_) => return Ok(None),
            },
            match cx.try_arg::<T7>(6)? {
                Ok(v) => v,
                Err(_) => return Ok(None),
            },
            match cx.try_arg::<T8>(7)? {
                Ok(v) => v,
                Err(_) => return Ok(None),
            },
        )))
    }
}

} // verus!
