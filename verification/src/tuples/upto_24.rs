//! Extraction for the tuples of seventeen to twenty-four slots.

use crate::context::{argument, FunctionContext, NeonResult};
use crate::from_args::FromArgs;
use crate::private::Sealed;
use crate::try_from_js::TryFromJs;
use crate::value::Dynamic;
use vstd::prelude::*;

verus! {

impl<
    T1: TryFromJs, T2: TryFromJs, T3: TryFromJs, T4: TryFromJs, T5: TryFromJs, T6: TryFromJs,
    T7: TryFromJs, T8: TryFromJs, T9: TryFromJs, T10: TryFromJs, T11: TryFromJs, T12: TryFromJs,
    T13: TryFromJs, T14: TryFromJs, T15: TryFromJs, T16: TryFromJs, T17: TryFromJs,
> Sealed for (T1, T2, T3, T4, T5, T6, T7, T8, T9, T10, T11, T12, T13, T14, T15, T16, T17) {
}

impl<
    T1: TryFromJs, T2: TryFromJs, T3: TryFromJs, T4: TryFromJs, T5: TryFromJs, T6: TryFromJs,
    T7: TryFromJs, T8: TryFromJs, T9: TryFromJs, T10: TryFromJs, T11: TryFromJs, T12: TryFromJs,
    T13: TryFromJs, T14: TryFromJs, T15: TryFromJs, T16: TryFromJs, T17: TryFromJs,
> FromArgs for (T1, T2, T3, T4, T5, T6, T7, T8, T9, T10, T11, T12, T13, T14, T15, T16, T17) {
    open spec fn arity() -> nat {
        17
    }

    open spec fn mismatch(arguments: Seq<Dynamic>) -> Option<Seq<char>> {
        if !T1::matches(argument(arguments, 0)) {
            Some(T1::expected())
        } else if !T2::matches(argument(arguments, 1)) {
            Some(T2::expected())
        } else if !T3::matches(argument(arguments, 2)) {
            Some(T3::expected())
        } else if !T4::matches(argument(arguments, 3)) {
            Some(T4::expected())
        } else if !T5::matches(argument(arguments, 4)) {
            Some(T5::expected())
        } else if !T6::matches(argument(arguments, 5)) {
            Some(T6::expected())
        } else if !T7::matches(argument(arguments, 6)) {
            Some(T7::expected())
        } else if !T8::matches(argument(arguments, 7)) {
            Some(T8::expected())
        } else if !T9::matches(argument(arguments, 8)) {
            Some(T9::expected())
        } else if !T10::matches(argument(arguments, 9)) {
            Some(T10::expected())
        } else if !T11::matches(argument(arguments, 10)) {
            Some(T11::expected())
        } else if !T12::matches(argument(arguments, 11)) {
            Some(T12::expected())
        } else if !T13::matches(argument(arguments, 12)) {
            Some(T13::expected())
        } else if !T14::matches(argument(arguments, 13)) {
            Some(T14::expected())
        } else if !T15::matches(argument(arguments, 14)) {
            Some(T15::expected())
        } else if !T16::matches(argument(arguments, 15)) {
            Some(T16::expected())
        } else if !T17::matches(argument(arguments, 16)) {
            Some(T17::expected())
        } else {
            None
        }
    }

    open spec fn extracted_from(self, arguments: Seq<Dynamic>) -> bool {
        &&& self.0.stands_for(argument(arguments, 0))
        &&& self.1.stands_for(argument(arguments, 1))
        &&& self.2.stands_for(argument(arguments, 2))
        &&& self.3.stands_for(argument(arguments, 3))
        &&& self.4.stands_for(argument(arguments, 4))
        &&& self.5.stands_for(argument(arguments, 5))
        &&& self.6.stands_for(argument(arguments, 6))
        &&& self.7.stands_for(argument(arguments, 7))
        &&& self.8.stands_for(argument(arguments, 8))
        &&& self.9.stands_for(argument(arguments, 9))
        &&& self.10.stands_for(argument(arguments, 10))
        &&& self.11.stands_for(argument(arguments, 11))
        &&& self.12.stands_for(argument(arguments, 12))
        &&& self.13.stands_for(argument(arguments, 13))
        &&& self.14.stands_for(argument(arguments, 14))
        &&& self.15.stands_for(argument(arguments, 15))
        &&& self.16.stands_for(argument(arguments, 16))
    }

    proof fn lemma_reads_arity(value: Self, arguments: Seq<Dynamic>) {
    }

    fn from_args(cx: &mut FunctionContext) -> (r: NeonResult<Self>) {
        Ok((
            cx.arg::<T1>(0)?,
            cx.arg::<T2>(1)?,
            cx.arg::<T3>(2)?,
            cx.arg::<T4>(3)?,
            cx.arg::<T5>(4)?,
            cx.arg::<T6>(5)?,
            cx.arg::<T7>(6)?,
            cx.arg::<T8>(7)?,
            cx.arg::<T9>(8)?,
            cx.arg::<T10>(9)?,
            cx.arg::<T11>(10)?,
            cx.arg::<T12>(11)?,
            cx.arg::<T13>(12)?,
            cx.arg::<T14>(13)?,
            cx.arg::<T15>(14)?,
            cx.arg::<T16>(15)?,
            cx.arg::<T17>(16)?,
        ))
    }

    fn from_args_opt(cx: &mut FunctionContext) -> (r: NeonResult<Option<Self>>) {
        Ok(Some((
            match cx.try_arg::<T1>(0)? {
                Ok(v) => v,
                Err(_) => return Ok(None),
            },
            match cx.try_arg::<T2>(1)? {
                Ok(v) => v,
                Err(_) => return Ok(None),
            },
            match cx.try_arg::<T3>(2)? {
                Ok(v) => v,
                Err(_) => return Ok(None),
            },
            match cx.try_arg::<T4>(3)? {
                Ok(v) => v,
                Err(_) => return Ok(None),
            },
            match cx.try_arg::<T5>(4)? {
                Ok(v) => v,
                Err(_) => return Ok(None),
            },
            match cx.try_arg::<T6>(5)? {
                Ok(v) => v,
                Err(_) => return Ok(None),
            },
            match cx.try_arg::<T7>(6)? {
                Ok(v) => v,
                Err(_) => return Ok(None),
            },
            match cx.try_arg::<T8>(7)? {
                Ok(v) => v,
                Err(_) => return Ok(None),
            },
            match cx.try_arg::<T9>(8)? {
                Ok(v) => v,
                Err(_) => return Ok(None),
            },
            match cx.try_arg::<T10>(9)? {
                Ok(v) => v,
                Err(_) => return Ok(None),
            },
            match cx.try_arg::<T11>(10)? {
                Ok(v) => v,
                Err(_) => return Ok(None),
            },
            match cx.try_arg::<T12>(11)? {
                Ok(v) => v,
                Err(_) => return Ok(None),
            },
            match cx.try_arg::<T13>(12)? {
                Ok(v) => v,
                Err(_) => return Ok(None),
            },
            match cx.try_arg::<T14>(13)? {
                Ok(v) => v,
                Err(_) => return Ok(None),
            },
            match cx.try_arg::<T15>(14)? {
                Ok(v) => v,
                Err(_) => return Ok(None),
            },
            match cx.try_arg::<T16>(15)? {
                Ok(v) => v,
                Err(_) => return Ok(None),
            },
            match cx.try_arg::<T17>(16)? {
                Ok(v) => v,
                Err(_) => return Ok(None),
            },
        )))
    }
}

impl<
    T1: TryFromJs, T2: TryFromJs, T3: TryFromJs, T4: TryFromJs, T5: TryFromJs, T6: TryFromJs,
    T7: TryFromJs, T8: TryFromJs, T9: TryFromJs, T10: TryFromJs, T11: TryFromJs, T12: TryFromJs,
    T13: TryFromJs, T14: TryFromJs, T15: TryFromJs, T16: TryFromJs, T17: TryFromJs, T18: TryFromJs,
> Sealed for (T1, T2, T3, T4, T5, T6, T7, T8, T9, T10, T11, T12, T13, T14, T15, T16, T17, T18) {
}

impl<
    T1: TryFromJs, T2: TryFromJs, T3: TryFromJs, T4: TryFromJs, T5: TryFromJs, T6: TryFromJs,
    T7: TryFromJs, T8: TryFromJs, T9: TryFromJs, T10: TryFromJs, T11: TryFromJs, T12: TryFromJs,
    T13: TryFromJs, T14: TryFromJs, T15: TryFromJs, T16: TryFromJs, T17: TryFromJs, T18: TryFromJs,
> FromArgs for (T1, T2, T3, T4, T5, T6, T7, T8, T9, T10, T11, T12, T13, T14, T15, T16, T17, T18) {
    open spec fn arity() -> nat {
        18
    }

    open spec fn mismatch(arguments: Seq<Dynamic>) -> Option<Seq<char>> {
        if !T1::matches(argument(arguments, 0)) {
            Some(T1::expected())
        } else if !T2::matches(argument(arguments, 1)) {
            Some(T2::expected())
        } else if !T3::matches(argument(arguments, 2)) {
            Some(T3::expected())
        } else if !T4::matches(argument(arguments, 3)) {
            Some(T4::expected())
        } else if !T5::matches(argument(arguments, 4)) {
            Some(T5::expected())
        } else if !T6::matches(argument(arguments, 5)) {
            Some(T6::expected())
        } else if !T7::matches(argument(arguments, 6)) {
            Some(T7::expected())
        } else if !T8::matches(argument(arguments, 7)) {
            Some(T8::expected())
        } else if !T9::matches(argument(arguments, 8)) {
            Some(T9::expected())
        } else if !T10::matches(argument(arguments, 9)) {
            Some(T10::expected())
        } else if !T11::matches(argument(arguments, 10)) {
            Some(T11::expected())
        } else if !T12::matches(argument(arguments, 11)) {
            Some(T12::expected())
        } else if !T13::matches(argument(arguments, 12)) {
            Some(T13::expected())
        } else if !T14::matches(argument(arguments, 13)) {
            Some(T14::expected())
        } else if !T15::matches(argument(arguments, 14)) {
            Some(T15::expected())
        } else if !T16::matches(argument(arguments, 15)) {
            Some(T16::expected())
        } else if !T17::matches(argument(arguments, 16)) {
            Some(T17::expected())
        } else if !T18::matches(argument(arguments, 17)) {
            Some(T18::expected())
        } else {
            None
        }
    }

    open spec fn extracted_from(self, arguments: Seq<Dynamic>) -> bool {
        &&& self.0.stands_for(argument(arguments, 0))
        &&& self.1.stands_for(argument(arguments, 1))
        &&& self.2.stands_for(argument(arguments, 2))
        &&& self.3.stands_for(argument(arguments, 3))
        &&& self.4.stands_for(argument(arguments, 4))
        &&& self.5.stands_for(argument(arguments, 5))
        &&& self.6.stands_for(argument(arguments, 6))
        &&& self.7.stands_for(argument(arguments, 7))
        &&& self.8.stands_for(argument(arguments, 8))
        &&& self.9.stands_for(argument(arguments, 9))
        &&& self.10.stands_for(argument(arguments, 10))
        &&& self.11.stands_for(argument(arguments, 11))
        &&& self.12.stands_for(argument(arguments, 12))
        &&& self.13.stands_for(argument(arguments, 13))
        &&& self.14.stands_for(argument(arguments, 14))
        &&& self.15.stands_for(argument(arguments, 15))
        &&& self.16.stands_for(argument(arguments, 16))
        &&& self.17.stands_for(argument(arguments, 17))
    }

    proof fn lemma_reads_arity(value: Self, arguments: Seq<Dynamic>) {
    }

    fn from_args(cx: &mut FunctionContext) -> (r: NeonResult<Self>) {
        Ok((
            cx.arg::<T1>(0)?,
            cx.arg::<T2>(1)?,
            cx.arg::<T3>(2)?,
            cx.arg::<T4>(3)?,
            cx.arg::<T5>(4)?,
            cx.arg::<T6>(5)?,
            cx.arg::<T7>(6)?,
            cx.arg::<T8>(7)?,
            cx.arg::<T9>(8)?,
            cx.arg::<T10>(9)?,
            cx.arg::<T11>(10)?,
            cx.arg::<T12>(11)?,
            cx.arg::<T13>(12)?,
            cx.arg::<T14>(13)?,
            cx.arg::<T15>(14)?,
            cx.arg::<T16>(15)?,
            cx.arg::<T17>(16)?,
            cx.arg::<T18>(17)?,
        ))
    }

    fn from_args_opt(cx: &mut FunctionContext) -> (r: NeonResult<Option<Self>>) {
        Ok(Some((
            match cx.try_arg::<T1>(0)? {
                Ok(v) => v,
                Err(_) => return Ok(None),
            },
            match cx.try_arg::<T2>(1)? {
                Ok(v) => v,
                Err(_) => return Ok(None),
            },
            match cx.try_arg::<T3>(2)? {
                Ok(v) => v,
                Err(_) => return Ok(None),
            },
            match cx.try_arg::<T4>(3)? {
                Ok(v) => v,
                Err(_) => return Ok(None),
            },
            match cx.try_arg::<T5>(4)? {
                Ok(v) => v,
                Err(_) => return Ok(None),
            },
            match cx.try_arg::<T6>(5)? {
                Ok(v) => v,
                Err(_) => return Ok(None),
            },
            match cx.try_arg::<T7>(6)? {
                Ok(v) => v,
                Err(_) => return Ok(None),
            },
            match cx.try_arg::<T8>(7)? {
                Ok(v) => v,
                Err(_) => return Ok(None),
            },
            match cx.try_arg::<T9>(8)? {
                Ok(v) => v,
                Err(_) => return Ok(None),
            },
            match cx.try_arg::<T10>(9)? {
                Ok(v) => v,
                Err(_) => return Ok(None),
            },
            match cx.try_arg::<T11>(10)? {
                Ok(v) => v,
                Err(_) => return Ok(None),
            },
            match cx.try_arg::<T12>(11)? {
                Ok(v) => v,
                Err(_) => return Ok(None),
            },
            match cx.try_arg::<T13>(12)? {
                Ok(v) => v,
                Err(_) => return Ok(None),
            },
            match cx.try_arg::<T14>(13)? {
                Ok(v) => v,
                Err(_) => return Ok(None),
            },
            match cx.try_arg::<T15>(14)? {
                Ok(v) => v,
                Err(_) => return Ok(None),
            },
            match cx.try_arg::<T16>(15)? {
                Ok(v) => v,
                Err(_) => return Ok(None),
            },
            match cx.try_arg::<T17>(16)? {
                Ok(v) => v,
                Err(_) => return Ok(None),
            },
            match cx.try_arg::<T18>(17)? {
                Ok(v) => v,
                Err(_) => return Ok(None),
            },
        )))
    }
}

impl<
    T1: TryFromJs, T2: TryFromJs, T3: TryFromJs, T4: TryFromJs, T5: TryFromJs, T6: TryFromJs,
    T7: TryFromJs, T8: TryFromJs, T9: TryFromJs, T10: TryFromJs, T11: TryFromJs, T12: TryFromJs,
    T13: TryFromJs, T14: TryFromJs, T15: TryFromJs, T16: TryFromJs, T17: TryFromJs, T18: TryFromJs,
    T19: TryFromJs,
> Sealed for (
    T1, T2, T3, T4, T5, T6, T7, T8, T9, T10, T11, T12, T13, T14, T15, T16, T17, T18, T19,
) {
}

impl<
    T1: TryFromJs, T2: TryFromJs, T3: TryFromJs, T4: TryFromJs, T5: TryFromJs, T6: TryFromJs,
    T7: TryFromJs, T8: TryFromJs, T9: TryFromJs, T10: TryFromJs, T11: TryFromJs, T12: TryFromJs,
    T13: TryFromJs, T14: TryFromJs, T15: TryFromJs, T16: TryFromJs, T17: TryFromJs, T18: TryFromJs,
    T19: TryFromJs,
> FromArgs for (
    T1, T2, T3, T4, T5, T6, T7, T8, T9, T10, T11, T12, T13, T14, T15, T16, T17, T18, T19,
) {
    open spec fn arity() -> nat {
        19
    }

    open spec fn mismatch(arguments: Seq<Dynamic>) -> Option<Seq<char>> {
        if !T1::matches(argument(arguments, 0)) {
            Some(T1::expected())
        } else if !T2::matches(argument(arguments, 1)) {
            Some(T2::expected())
        } else if !T3::matches(argument(arguments, 2)) {
            Some(T3::expected())
        } else if !T4::matches(argument(arguments, 3)) {
            Some(T4::expected())
        } else if !T5::matches(argument(arguments, 4)) {
            Some(T5::expected())
        } else if !T6::matches(argument(arguments, 5)) {
            Some(T6::expected())
        } else if !T7::matches(argument(arguments, 6)) {
            Some(T7::expected())
        } else if !T8::matches(argument(arguments, 7)) {
            Some(T8::expected())
        } else if !T9::matches(argument(arguments, 8)) {
            Some(T9::expected())
        } else if !T10::matches(argument(arguments, 9)) {
            Some(T10::expected())
        } else if !T11::matches(argument(arguments, 10)) {
            Some(T11::expected())
        } else if !T12::matches(argument(arguments, 11)) {
            Some(T12::expected())
        } else if !T13::matches(argument(arguments, 12)) {
            Some(T13::expected())
        } else if !T14::matches(argument(arguments, 13)) {
            Some(T14::expected())
        } else if !T15::matches(argument(arguments, 14)) {
            Some(T15::expected())
        } else if !T16::matches(argument(arguments, 15)) {
            Some(T16::expected())
        } else if !T17::matches(argument(arguments, 16)) {
            Some(T17::expected())
        } else if !T18::matches(argument(arguments, 17)) {
            Some(T18::expected())
        } else if !T19::matches(argument(arguments, 18)) {
            Some(T19::expected())
        } else {
            None
        }
    }

    open spec fn extracted_from(self, arguments: Seq<Dynamic>) -> bool {
        &&& self.0.stands_for(argument(arguments, 0))
        &&& self.1.stands_for(argument(arguments, 1))
        &&& self.2.stands_for(argument(arguments, 2))
        &&& self.3.stands_for(argument(arguments, 3))
        &&& self.4.stands_for(argument(arguments, 4))
        &&& self.5.stands_for(argument(arguments, 5))
        &&& self.6.stands_for(argument(arguments, 6))
        &&& self.7.stands_for(argument(arguments, 7))
        &&& self.8.stands_for(argument(arguments, 8))
        &&& self.9.stands_for(argument(arguments, 9))
        &&& self.10.stands_for(argument(arguments, 10))
        &&& self.11.stands_for(argument(arguments, 11))
        &&& self.12.stands_for(argument(arguments, 12))
        &&& self.13.stands_for(argument(arguments, 13))
        &&& self.14.stands_for(argument(arguments, 14))
        &&& self.15.stands_for(argument(arguments, 15))
        &&& self.16.stands_for(argument(arguments, 16))
        &&& self.17.stands_for(argument(arguments, 17))
        &&& self.18.stands_for(argument(arguments, 18))
    }

    proof fn lemma_reads_arity(value: Self, arguments: Seq<Dynamic>) {
    }

    fn from_args(cx: &mut FunctionContext) -> (r: NeonResult<Self>) {
        Ok((
            cx.arg::<T1>(0)?,
            cx.arg::<T2>(1)?,
            cx.arg::<T3>(2)?,
            cx.arg::<T4>(3)?,
            cx.arg::<T5>(4)?,
            cx.arg::<T6>(5)?,
            cx.arg::<T7>(6)?,
            cx.arg::<T8>(7)?,
            cx.arg::<T9>(8)?,
            cx.arg::<T10>(9)?,
            cx.arg::<T11>(10)?,
            cx.arg::<T12>(11)?,
            cx.arg::<T13>(12)?,
            cx.arg::<T14>(13)?,
            cx.arg::<T15>(14)?,
            cx.arg::<T16>(15)?,
            cx.arg::<T17>(16)?,
            cx.arg::<T18>(17)?,
            cx.arg::<T19>(18)?,
        ))
    }

    fn from_args_opt(cx: &mut FunctionContext) -> (r: NeonResult<Option<Self>>) {
        Ok(Some((
            match cx.try_arg::<T1>(0)? {
                Ok(v) => v,
                Err(_) => return Ok(None),
            },
            match cx.try_arg::<T2>(1)? {
                Ok(v) => v,
                Err(_) => return Ok(None),
            },
            match cx.try_arg::<T3>(2)? {
                Ok(v) => v,
                Err(_) => return Ok(None),
            },
            match cx.try_arg::<T4>(3)? {
                Ok(v) => v,
                Err(_) => return Ok(None),
            },
            match cx.try_arg::<T5>(4)? {
                Ok(v) => v,
                Err(_) => return Ok(None),
            },
            match cx.try_arg::<T6>(5)? {
                Ok(v) => v,
                Err(_) => return Ok(None),
            },
            match cx.try_arg::<T7>(6)? {
                Ok(v) => v,
                Err(_) => return Ok(None),
            },
            match cx.try_arg::<T8>(7)? {
                Ok(v) => v,
                Err(_) => return Ok(None),
            },
            match cx.try_arg::<T9>(8)? {
                Ok(v) => v,
                Err(_) => return Ok(None),
            },
            match cx.try_arg::<T10>(9)? {
                Ok(v) => v,
                Err(_) => return Ok(None),
            },
            match cx.try_arg::<T11>(10)? {
                Ok(v) => v,
                Err(_) => return Ok(None),
            },
            match cx.try_arg::<T12>(11)? {
                Ok(v) => v,
                Err(_) => return Ok(None),
            },
            match cx.try_arg::<T13>(12)? {
                Ok(v) => v,
                Err(_) => return Ok(None),
            },
            match cx.try_arg::<T14>(13)? {
                Ok(v) => v,
                Err(_) => return Ok(None),
            },
            match cx.try_arg::<T15>(14)? {
                Ok(v) => v,
                Err(_) => return Ok(None),
            },
            match cx.try_arg::<T16>(15)? {
                Ok(v) => v,
                Err(_) => return Ok(None),
            },
            match cx.try_arg::<T17>(16)? {
                Ok(v) => v,
                Err(_) => return Ok(None),
            },
            match cx.try_arg::<T18>(17)? {
                Ok(v) => v,
                Err(_) => return Ok(None),
            },
            match cx.try_arg::<T19>(18)? {
                Ok(v) => v,
                Err(_) => return Ok(None),
            },
        )))
    }
}

impl<
    T1: TryFromJs, T2: TryFromJs, T3: TryFromJs, T4: TryFromJs, T5: TryFromJs, T6: TryFromJs,
    T7: TryFromJs, T8: TryFromJs, T9: TryFromJs, T10: TryFromJs, T11: TryFromJs, T12: TryFromJs,
    T13: TryFromJs, T14: TryFromJs, T15: TryFromJs, T16: TryFromJs, T17: TryFromJs, T18: TryFromJs,
    T19: TryFromJs, T20: TryFromJs,
> Sealed for (
    T1, T2, T3, T4, T5, T6, T7, T8, T9, T10, T11, T12, T13, T14, T15, T16, T17, T18, T19, T20,
) {
}

impl<
    T1: TryFromJs, T2: TryFromJs, T3: TryFromJs, T4: TryFromJs, T5: TryFromJs, T6: TryFromJs,
    T7: TryFromJs, T8: TryFromJs, T9: TryFromJs, T10: TryFromJs, T11: TryFromJs, T12: TryFromJs,
    T13: TryFromJs, T14: TryFromJs, T15: TryFromJs, T16: TryFromJs, T17: TryFromJs, T18: TryFromJs,
    T19: TryFromJs, T20: TryFromJs,
> FromArgs for (
    T1, T2, T3, T4, T5, T6, T7, T8, T9, T10, T11, T12, T13, T14, T15, T16, T17, T18, T19, T20,
) {
    open spec fn arity() -> nat {
        20
    }

    open spec fn mismatch(arguments: Seq<Dynamic>) -> Option<Seq<char>> {
        if !T1::matches(argument(arguments, 0)) {
            Some(T1::expected())
        } else if !T2::matches(argument(arguments, 1)) {
            Some(T2::expected())
        } else if !T3::matches(argument(arguments, 2)) {
            Some(T3::expected())
        } else if !T4::matches(argument(arguments, 3)) {
            Some(T4::expected())
        } else if !T5::matches(argument(arguments, 4)) {
            Some(T5::expected())
        } else if !T6::matches(argument(arguments, 5)) {
            Some(T6::expected())
        } else if !T7::matches(argument(arguments, 6)) {
            Some(T7::expected())
        } else if !T8::matches(argument(arguments, 7)) {
            Some(T8::expected())
        } else if !T9::matches(argument(arguments, 8)) {
            Some(T9::expected())
        } else if !T10::matches(argument(arguments, 9)) {
            Some(T10::expected())
        } else if !T11::matches(argument(arguments, 10)) {
            Some(T11::expected())
        } else if !T12::matches(argument(arguments, 11)) {
            Some(T12::expected())
        } else if !T13::matches(argument(arguments, 12)) {
            Some(T13::expected())
        } else if !T14::matches(argument(arguments, 13)) {
            Some(T14::expected())
        } else if !T15::matches(argument(arguments, 14)) {
            Some(T15::expected())
        } else if !T16::matches(argument(arguments, 15)) {
            Some(T16::expected())
        } else if !T17::matches(argument(arguments, 16)) {
            Some(T17::expected())
        } else if !T18::matches(argument(arguments, 17)) {
            Some(T18::expected())
        } else if !T19::matches(argument(arguments, 18)) {
            Some(T19::expected())
        } else if !T20::matches(argument(arguments, 19)) {
            Some(T20::expected())
        } else {
            None
        }
    }

    open spec fn extracted_from(self, arguments: Seq<Dynamic>) -> bool {
        &&& self.0.stands_for(argument(arguments, 0))
        &&& self.1.stands_for(argument(arguments, 1))
        &&& self.2.stands_for(argument(arguments, 2))
        &&& self.3.stands_for(argument(arguments, 3))
        &&& self.4.stands_for(argument(arguments, 4))
        &&& self.5.stands_for(argument(arguments, 5))
        &&& self.6.stands_for(argument(arguments, 6))
        &&& self.7.stands_for(argument(arguments, 7))
        &&& self.8.stands_for(argument(arguments, 8))
        &&& self.9.stands_for(argument(arguments, 9))
        &&& self.10.stands_for(argument(arguments, 10))
        &&& self.11.stands_for(argument(arguments, 11))
        &&& self.12.stands_for(argument(arguments, 12))
        &&& self.13.stands_for(argument(arguments, 13))
        &&& self.14.stands_for(argument(arguments, 14))
        &&& self.15.stands_for(argument(arguments, 15))
        &&& self.16.stands_for(argument(arguments, 16))
        &&& self.17.stands_for(argument(arguments, 17))
        &&& self.18.stands_for(argument(arguments, 18))
        &&& self.19.stands_for(argument(arguments, 19))
    }

    proof fn lemma_reads_arity(value: Self, arguments: Seq<Dynamic>) {
    }

    fn from_args(cx: &mut FunctionContext) -> (r: NeonResult<Self>) {
        Ok((
            cx.arg::<T1>(0)?,
            cx.arg::<T2>(1)?,
            cx.arg::<T3>(2)?,
            cx.arg::<T4>(3)?,
            cx.arg::<T5>(4)?,
            cx.arg::<T6>(5)?,
            cx.arg::<T7>(6)?,
            cx.arg::<T8>(7)?,
            cx.arg::<T9>(8)?,
            cx.arg::<T10>(9)?,
            cx.arg::<T11>(10)?,
            cx.arg::<T12>(11)?,
            cx.arg::<T13>(12)?,
            cx.arg::<T14>(13)?,
            cx.arg::<T15>(14)?,
            cx.arg::<T16>(15)?,
            cx.arg::<T17>(16)?,
            cx.arg::<T18>(17)?,
            cx.arg::<T19>(18)?,
            cx.arg::<T20>(19)?,
        ))
    }

    fn from_args_opt(cx: &mut FunctionContext) -> (r: NeonResult<Option<Self>>) {
        Ok(Some((
            match cx.try_arg::<T1>(0)? {
                Ok(v) => v,
                Err(_) => return Ok(None),
            },
            match cx.try_arg::<T2>(1)? {
                Ok(v) => v,
                Err(_) => return Ok(None),
            },
            match cx.try_arg::<T3>(2)? {
                Ok(v) => v,
                Err(_) => return Ok(None),
            },
            match cx.try_arg::<T4>(3)? {
                Ok(v) => v,
                Err(_) => return Ok(None),
            },
            match cx.try_arg::<T5>(4)? {
                Ok(v) => v,
                Err(_) => return Ok(None),
            },
            match cx.try_arg::<T6>(5)? {
                Ok(v) => v,
                Err(_) => return Ok(None),
            },
            match cx.try_arg::<T7>(6)? {
                Ok(v) => v,
                Err(_) => return Ok(None),
            },
            match cx.try_arg::<T8>(7)? {
                Ok(v) => v,
                Err(_) => return Ok(None),
            },
            match cx.try_arg::<T9>(8)? {
                Ok(v) => v,
                Err(_) => return Ok(None),
            },
            match cx.try_arg::<T10>(9)? {
                Ok(v) => v,
                Err(_) => return Ok(None),
            },
            match cx.try_arg::<T11>(10)? {
                Ok(v) => v,
                Err(_) => return Ok(None),
            },
            match cx.try_arg::<T12>(11)? {
                Ok(v) => v,
                Err(_) => return Ok(None),
            },
            match cx.try_arg::<T13>(12)? {
                Ok(v) => v,
                Err(_) => return Ok(None),
            },
            match cx.try_arg::<T14>(13)? {
                Ok(v) => v,
                Err(_) => return Ok(None),
            },
            match cx.try_arg::<T15>(14)? {
                Ok(v) => v,
                Err(_) => return Ok(None),
            },
            match cx.try_arg::<T16>(15)? {
                Ok(v) => v,
                Err(_) => return Ok(None),
            },
            match cx.try_arg::<T17>(16)? {
                Ok(v) => v,
                Err(_) => return Ok(None),
            },
            match cx.try_arg::<T18>(17)? {
                Ok(v) => v,
                Err(_) => return Ok(None),
            },
            match cx.try_arg::<T19>(18)? {
                Ok(v) => v,
                Err(_) => return Ok(None),
            },
            match cx.try_arg::<T20>(19)? {
                Ok(v) => v,
                Err(_) => return Ok(None),
            },
        )))
    }
}

impl<
    T1: TryFromJs, T2: TryFromJs, T3: TryFromJs, T4: TryFromJs, T5: TryFromJs, T6: TryFromJs,
    T7: TryFromJs, T8: TryFromJs, T9: TryFromJs, T10: TryFromJs, T11: TryFromJs, T12: TryFromJs,
    T13: TryFromJs, T14: TryFromJs, T15: TryFromJs, T16: TryFromJs, T17: TryFromJs, T18: TryFromJs,
    T19: TryFromJs, T20: TryFromJs, T21: TryFromJs,
> Sealed for (
    T1, T2, T3, T4, T5, T6, T7, T8, T9, T10, T11, T12, T13, T14, T15, T16, T17, T18, T19, T20, T21,
) {
}

impl<
    T1: TryFromJs, T2: TryFromJs, T3: TryFromJs, T4: TryFromJs, T5: TryFromJs, T6: TryFromJs,
    T7: TryFromJs, T8: TryFromJs, T9: TryFromJs, T10: TryFromJs, T11: TryFromJs, T12: TryFromJs,
    T13: TryFromJs, T14: TryFromJs, T15: TryFromJs, T16: TryFromJs, T17: TryFromJs, T18: TryFromJs,
    T19: TryFromJs, T20: TryFromJs, T21: TryFromJs,
> FromArgs for (
    T1, T2, T3, T4, T5, T6, T7, T8, T9, T10, T11, T12, T13, T14, T15, T16, T17, T18, T19, T20, T21,
) {
    open spec fn arity() -> nat {
        21
    }

    open spec fn mismatch(arguments: Seq<Dynamic>) -> Option<Seq<char>> {
        if !T1::matches(argument(arguments, 0)) {
            Some(T1::expected())
        } else if !T2::matches(argument(arguments, 1)) {
            Some(T2::expected())
        } else if !T3::matches(argument(arguments, 2)) {
            Some(T3::expected())
        } else if !T4::matches(argument(arguments, 3)) {
            Some(T4::expected())
        } else if !T5::matches(argument(arguments, 4)) {
            Some(T5::expected())
        } else if !T6::matches(argument(arguments, 5)) {
            Some(T6::expected())
        } else if !T7::matches(argument(arguments, 6)) {
            Some(T7::expected())
        } else if !T8::matches(argument(arguments, 7)) {
            Some(T8::expected())
        } else if !T9::matches(argument(arguments, 8)) {
            Some(T9::expected())
        } else if !T10::matches(argument(arguments, 9)) {
            Some(T10::expected())
        } else if !T11::matches(argument(arguments, 10)) {
            Some(T11::expected())
        } else if !T12::matches(argument(arguments, 11)) {
            Some(T12::expected())
        } else if !T13::matches(argument(arguments, 12)) {
            Some(T13::expected())
        } else if !T14::matches(argument(arguments, 13)) {
            Some(T14::expected())
        } else if !T15::matches(argument(arguments, 14)) {
            Some(T15::expected())
        } else if !T16::matches(argument(arguments, 15)) {
            Some(T16::expected())
        } else if !T17::matches(argument(arguments, 16)) {
            Some(T17::expected())
        } else if !T18::matches(argument(arguments, 17)) {
            Some(T18::expected())
        } else if !T19::matches(argument(arguments, 18)) {
            Some(T19::expected())
        } else if !T20::matches(argument(arguments, 19)) {
            Some(T20::expected())
        } else if !T21::matches(argument(arguments, 20)) {
            Some(T21::expected())
        } else {
            None
        }
    }

    open spec fn extracted_from(self, arguments: Seq<Dynamic>) -> bool {
        &&& self.0.stands_for(argument(arguments, 0))
        &&& self.1.stands_for(argument(arguments, 1))
        &&& self.2.stands_for(argument(arguments, 2))
        &&& self.3.stands_for(argument(arguments, 3))
        &&& self.4.stands_for(argument(arguments, 4))
        &&& self.5.stands_for(argument(arguments, 5))
        &&& self.6.stands_for(argument(arguments, 6))
        &&& self.7.stands_for(argument(arguments, 7))
        &&& self.8.stands_for(argument(arguments, 8))
        &&& self.9.stands_for(argument(arguments, 9))
        &&& self.10.stands_for(argument(arguments, 10))
        &&& self.11.stands_for(argument(arguments, 11))
        &&& self.12.stands_for(argument(arguments, 12))
        &&& self.13.stands_for(argument(arguments, 13))
        &&& self.14.stands_for(argument(arguments, 14))
        &&& self.15.stands_for(argument(arguments, 15))
        &&& self.16.stands_for(argument(arguments, 16))
        &&& self.17.stands_for(argument(arguments, 17))
        &&& self.18.stands_for(argument(arguments, 18))
        &&& self.19.stands_for(argument(arguments, 19))
        &&& self.20.stands_for(argument(arguments, 20))
    }

    proof fn lemma_reads_arity(value: Self, arguments: Seq<Dynamic>) {
    }

    fn from_args(cx: &mut FunctionContext) -> (r: NeonResult<Self>) {
        Ok((
            cx.arg::<T1>(0)?,
            cx.arg::<T2>(1)?,
            cx.arg::<T3>(2)?,
            cx.arg::<T4>(3)?,
            cx.arg::<T5>(4)?,
            cx.arg::<T6>(5)?,
            cx.arg::<T7>(6)?,
            cx.arg::<T8>(7)?,
            cx.arg::<T9>(8)?,
            cx.arg::<T10>(9)?,
            cx.arg::<T11>(10)?,
            cx.arg::<T12>(11)?,
            cx.arg::<T13>(12)?,
            cx.arg::<T14>(13)?,
            cx.arg::<T15>(14)?,
            cx.arg::<T16>(15)?,
            cx.arg::<T17>(16)?,
            cx.arg::<T18>(17)?,
            cx.arg::<T19>(18)?,
            cx.arg::<T20>(19)?,
            cx.arg::<T21>(20)?,
        ))
    }

    fn from_args_opt(cx: &mut FunctionContext) -> (r: NeonResult<Option<Self>>) {
        Ok(Some((
            match cx.try_arg::<T1>(0)? {
                Ok(v) => v,
                Err(_) => return Ok(None),
            },
            match cx.try_arg::<T2>(1)? {
                Ok(v) => v,
                Err(_) => return Ok(None),
            },
            match cx.try_arg::<T3>(2)? {
                Ok(v) => v,
                Err(_) => return Ok(None),
            },
            match cx.try_arg::<T4>(3)? {
                Ok(v) => v,
                Err(_) => return Ok(None),
            },
            match cx.try_arg::<T5>(4)? {
                Ok(v) => v,
                Err(_) => return Ok(None),
            },
            match cx.try_arg::<T6>(5)? {
                Ok(v) => v,
                Err(_) => return Ok(None),
            },
            match cx.try_arg::<T7>(6)? {
                Ok(v) => v,
                Err(_) => return Ok(None),
            },
            match cx.try_arg::<T8>(7)? {
                Ok(v) => v,
                Err(_) => return Ok(None),
            },
            match cx.try_arg::<T9>(8)? {
                Ok(v) => v,
                Err(_) => return Ok(None),
            },
            match cx.try_arg::<T10>(9)? {
                Ok(v) => v,
                Err(_) => return Ok(None),
            },
            match cx.try_arg::<T11>(10)? {
                Ok(v) => v,
                Err(_) => return Ok(None),
            },
            match cx.try_arg::<T12>(11)? {
                Ok(v) => v,
                Err(_) => return Ok(None),
            },
            match cx.try_arg::<T13>(12)? {
                Ok(v) => v,
                Err(_) => return Ok(None),
            },
            match cx.try_arg::<T14>(13)? {
                Ok(v) => v,
                Err(_) => return Ok(None),
            },
            match cx.try_arg::<T15>(14)? {
                Ok(v) => v,
                Err(_) => return Ok(None),
            },
            match cx.try_arg::<T16>(15)? {
                Ok(v) => v,
                Err(_) => return Ok(None),
            },
            match cx.try_arg::<T17>(16)? {
                Ok(v) => v,
                Err(_) => return Ok(None),
            },
            match cx.try_arg::<T18>(17)? {
                Ok(v) => v,
                Err(_) => return Ok(None),
            },
            match cx.try_arg::<T19>(18)? {
                Ok(v) => v,
                Err(_) => return Ok(None),
            },
            match cx.try_arg::<T20>(19)? {
                Ok(v) => v,
                Err(_) => return Ok(None),
            },
            match cx.try_arg::<T21>(20)? {
                Ok(v) => v,
                Err(_) => return Ok(None),
            },
        )))
    }
}

impl<
    T1: TryFromJs, T2: TryFromJs, T3: TryFromJs, T4: TryFromJs, T5: TryFromJs, T6: TryFromJs,
    T7: TryFromJs, T8: TryFromJs, T9: TryFromJs, T10: TryFromJs, T11: TryFromJs, T12: TryFromJs,
    T13: TryFromJs, T14: TryFromJs, T15: TryFromJs, T16: TryFromJs, T17: TryFromJs, T18: TryFromJs,
    T19: TryFromJs, T20: TryFromJs, T21: TryFromJs, T22: TryFromJs,
> Sealed for (
    T1, T2, T3, T4, T5, T6, T7, T8, T9, T10, T11, T12, T13, T14, T15, T16, T17, T18, T19, T20, T21,
    T22,
) {
}

impl<
    T1: TryFromJs, T2: TryFromJs, T3: TryFromJs, T4: TryFromJs, T5: TryFromJs, T6: TryFromJs,
    T7: TryFromJs, T8: TryFromJs, T9: TryFromJs, T10: TryFromJs, T11: TryFromJs, T12: TryFromJs,
    T13: TryFromJs, T14: TryFromJs, T15: TryFromJs, T16: TryFromJs, T17: TryFromJs, T18: TryFromJs,
    T19: TryFromJs, T20: TryFromJs, T21: TryFromJs, T22: TryFromJs,
> FromArgs for (
    T1, T2, T3, T4, T5, T6, T7, T8, T9, T10, T11, T12, T13, T14, T15, T16, T17, T18, T19, T20, T21,
    T22,
) {
    open spec fn arity() -> nat {
        22
    }

    open spec fn mismatch(arguments: Seq<Dynamic>) -> Option<Seq<char>> {
        if !T1::matches(argument(arguments, 0)) {
            Some(T1::expected())
        } else if !T2::matches(argument(arguments, 1)) {
            Some(T2::expected())
        } else if !T3::matches(argument(arguments, 2)) {
            Some(T3::expected())
        } else if !T4::matches(argument(arguments, 3)) {
            Some(T4::expected())
        } else if !T5::matches(argument(arguments, 4)) {
            Some(T5::expected())
        } else if !T6::matches(argument(arguments, 5)) {
            Some(T6::expected())
        } else if !T7::matches(argument(arguments, 6)) {
            Some(T7::expected())
        } else if !T8::matches(argument(arguments, 7)) {
            Some(T8::expected())
        } else if !T9::matches(argument(arguments, 8)) {
            Some(T9::expected())
        } else if !T10::matches(argument(arguments, 9)) {
            Some(T10::expected())
        } else if !T11::matches(argument(arguments, 10)) {
            Some(T11::expected())
        } else if !T12::matches(argument(arguments, 11)) {
            Some(T12::expected())
        } else if !T13::matches(argument(arguments, 12)) {
            Some(T13::expected())
        } else if !T14::matches(argument(arguments, 13)) {
            Some(T14::expected())
        } else if !T15::matches(argument(arguments, 14)) {
            Some(T15::expected())
        } else if !T16::matches(argument(arguments, 15)) {
            Some(T16::expected())
        } else if !T17::matches(argument(arguments, 16)) {
            Some(T17::expected())
        } else if !T18::matches(argument(arguments, 17)) {
            Some(T18::expected())
        } else if !T19::matches(argument(arguments, 18)) {
            Some(T19::expected())
        } else if !T20::matches(argument(arguments, 19)) {
            Some(T20::expected())
        } else if !T21::matches(argument(arguments, 20)) {
            Some(T21::expected())
        } else if !T22::matches(argument(arguments, 21)) {
            Some(T22::expected())
        } else {
            None
        }
    }

    open spec fn extracted_from(self, arguments: Seq<Dynamic>) -> bool {
        &&& self.0.stands_for(argument(arguments, 0))
        &&& self.1.stands_for(argument(arguments, 1))
        &&& self.2.stands_for(argument(arguments, 2))
        &&& self.3.stands_for(argument(arguments, 3))
        &&& self.4.stands_for(argument(arguments, 4))
        &&& self.5.stands_for(argument(arguments, 5))
        &&& self.6.stands_for(argument(arguments, 6))
        &&& self.7.stands_for(argument(arguments, 7))
        &&& self.8.stands_for(argument(arguments, 8))
        &&& self.9.stands_for(argument(arguments, 9))
        &&& self.10.stands_for(argument(arguments, 10))
        &&& self.11.stands_for(argument(arguments, 11))
        &&& self.12.stands_for(argument(arguments, 12))
        &&& self.13.stands_for(argument(arguments, 13))
        &&& self.14.stands_for(argument(arguments, 14))
        &&& self.15.stands_for(argument(arguments, 15))
        &&& self.16.stands_for(argument(arguments, 16))
        &&& self.17.stands_for(argument(arguments, 17))
        &&& self.18.stands_for(argument(arguments, 18))
        &&& self.19.stands_for(argument(arguments, 19))
        &&& self.20.stands_for(argument(arguments, 20))
        &&& self.21.stands_for(argument(arguments, 21))
    }

    proof fn lemma_reads_arity(value: Self, arguments: Seq<Dynamic>) {
    }

    fn from_args(cx: &mut FunctionContext) -> (r: NeonResult<Self>) {
        Ok((
            cx.arg::<T1>(0)?,
            cx.arg::<T2>(1)?,
            cx.arg::<T3>(2)?,
            cx.arg::<T4>(3)?,
            cx.arg::<T5>(4)?,
            cx.arg::<T6>(5)?,
            cx.arg::<T7>(6)?,
            cx.arg::<T8>(7)?,
            cx.arg::<T9>(8)?,
            cx.arg::<T10>(9)?,
            cx.arg::<T11>(10)?,
            cx.arg::<T12>(11)?,
            cx.arg::<T13>(12)?,
            cx.arg::<T14>(13)?,
            cx.arg::<T15>(14)?,
            cx.arg::<T16>(15)?,
            cx.arg::<T17>(16)?,
            cx.arg::<T18>(17)?,
            cx.arg::<T19>(18)?,
            cx.arg::<T20>(19)?,
            cx.arg::<T21>(20)?,
            cx.arg::<T22>(21)?,
        ))
    }

    fn from_args_opt(cx: &mut FunctionContext) -> (r: NeonResult<Option<Self>>) {
        Ok(Some((
            match cx.try_arg::<T1>(0)? {
                Ok(v) => v,
                Err(_) => return Ok(None),
            },
            match cx.try_arg::<T2>(1)? {
                Ok(v) => v,
                Err(_) => return Ok(None),
            },
            match cx.try_arg::<T3>(2)? {
                Ok(v) => v,
                Err(_) => return Ok(None),
            },
            match cx.try_arg::<T4>(3)? {
                Ok(v) => v,
                Err(_) => return Ok(None),
            },
            match cx.try_arg::<T5>(4)? {
                Ok(v) => v,
                Err(_) => return Ok(None),
            },
            match cx.try_arg::<T6>(5)? {
                Ok(v) => v,
                Err(_) => return Ok(None),
            },
            match cx.try_arg::<T7>(6)? {
                Ok(v) => v,
                Err(_) => return Ok(None),
            },
            match cx.try_arg::<T8>(7)? {
                Ok(v) => v,
                Err(_) => return Ok(None),
            },
            match cx.try_arg::<T9>(8)? {
                Ok(v) => v,
                Err(_) => return Ok(None),
            },
            match cx.try_arg::<T10>(9)? {
                Ok(v) => v,
                Err(_) => return Ok(None),
            },
            match cx.try_arg::<T11>(10)? {
                Ok(v) => v,
                Err(_) => return Ok(None),
            },
            match cx.try_arg::<T12>(11)? {
                Ok(v) => v,
                Err(_) => return Ok(None),
            },
            match cx.try_arg::<T13>(12)? {
                Ok(v) => v,
                Err(_) => return Ok(None),
            },
            match cx.try_arg::<T14>(13)? {
                Ok(v) => v,
                Err(_) => return Ok(None),
            },
            match cx.try_arg::<T15>(14)? {
                Ok(v) => v,
                Err(_) => return Ok(None),
            },
            match cx.try_arg::<T16>(15)? {
                Ok(v) => v,
                Err(_) => return Ok(None),
            },
            match cx.try_arg::<T17>(16)? {
                Ok(v) => v,
                Err(_) => return Ok(None),
            },
            match cx.try_arg::<T18>(17)? {
                Ok(v) => v,
                Err(_) => return Ok(None),
            },
            match cx.try_arg::<T19>(18)? {
                Ok(v) => v,
                Err(_) => return Ok(None),
            },
            match cx.try_arg::<T20>(19)? {
                Ok(v) => v,
                Err(_) => return Ok(None),
            },
            match cx.try_arg::<T21>(20)? {
                Ok(v) => v,
                Err(_) => return Ok(None),
            },
            match cx.try_arg::<T22>(21)? {
                Ok(v) => v,
                Err(_) => return Ok(None),
            },
        )))
    }
}

impl<
    T1: TryFromJs, T2: TryFromJs, T3: TryFromJs, T4: TryFromJs, T5: TryFromJs, T6: TryFromJs,
    T7: TryFromJs, T8: TryFromJs, T9: TryFromJs, T10: TryFromJs, T11: TryFromJs, T12: TryFromJs,
    T13: TryFromJs, T14: TryFromJs, T15: TryFromJs, T16: TryFromJs, T17: TryFromJs, T18: TryFromJs,
    T19: TryFromJs, T20: TryFromJs, T21: TryFromJs, T22: TryFromJs, T23: TryFromJs,
> Sealed for (
    T1, T2, T3, T4, T5, T6, T7, T8, T9, T10, T11, T12, T13, T14, T15, T16, T17, T18, T19, T20, T21,
    T22, T23,
) {
}

impl<
    T1: TryFromJs, T2: TryFromJs, T3: TryFromJs, T4: TryFromJs, T5: TryFromJs, T6: TryFromJs,
    T7: TryFromJs, T8: TryFromJs, T9: TryFromJs, T10: TryFromJs, T11: TryFromJs, T12: TryFromJs,
    T13: TryFromJs, T14: TryFromJs, T15: TryFromJs, T16: TryFromJs, T17: TryFromJs, T18: TryFromJs,
    T19: TryFromJs, T20: TryFromJs, T21: TryFromJs, T22: TryFromJs, T23: TryFromJs,
> FromArgs for (
    T1, T2, T3, T4, T5, T6, T7, T8, T9, T10, T11, T12, T13, T14, T15, T16, T17, T18, T19, T20, T21,
    T22, T23,
) {
    open spec fn arity() -> nat {
        23
    }

    open spec fn mismatch(arguments: Seq<Dynamic>) -> Option<Seq<char>> {
        if !T1::matches(argument(arguments, 0)) {
            Some(T1::expected())
        } else if !T2::matches(argument(arguments, 1)) {
            Some(T2::expected())
        } else if !T3::matches(argument(arguments, 2)) {
            Some(T3::expected())
        } else if !T4::matches(argument(arguments, 3)) {
            Some(T4::expected())
        } else if !T5::matches(argument(arguments, 4)) {
            Some(T5::expected())
        } else if !T6::matches(argument(arguments, 5)) {
            Some(T6::expected())
        } else if !T7::matches(argument(arguments, 6)) {
            Some(T7::expected())
        } else if !T8::matches(argument(arguments, 7)) {
            Some(T8::expected())
        } else if !T9::matches(argument(arguments, 8)) {
            Some(T9::expected())
        } else if !T10::matches(argument(arguments, 9)) {
            Some(T10::expected())
        } else if !T11::matches(argument(arguments, 10)) {
            Some(T11::expected())
        } else if !T12::matches(argument(arguments, 11)) {
            Some(T12::expected())
        } else if !T13::matches(argument(arguments, 12)) {
            Some(T13::expected())
        } else if !T14::matches(argument(arguments, 13)) {
            Some(T14::expected())
        } else if !T15::matches(argument(arguments, 14)) {
            Some(T15::expected())
        } else if !T16::matches(argument(arguments, 15)) {
            Some(T16::expected())
        } else if !T17::matches(argument(arguments, 16)) {
            Some(T17::expected())
        } else if !T18::matches(argument(arguments, 17)) {
            Some(T18::expected())
        } else if !T19::matches(argument(arguments, 18)) {
            Some(T19::expected())
        } else if !T20::matches(argument(arguments, 19)) {
            Some(T20::expected())
        } else if !T21::matches(argument(arguments, 20)) {
            Some(T21::expected())
        } else if !T22::matches(argument(arguments, 21)) {
            Some(T22::expected())
        } else if !T23::matches(argument(arguments, 22)) {
            Some(T23::expected())
        } else {
            None
        }
    }

    open spec fn extracted_from(self, arguments: Seq<Dynamic>) -> bool {
        &&& self.0.stands_for(argument(arguments, 0))
        &&& self.1.stands_for(argument(arguments, 1))
        &&& self.2.stands_for(argument(arguments, 2))
        &&& self.3.stands_for(argument(arguments, 3))
        &&& self.4.stands_for(argument(arguments, 4))
        &&& self.5.stands_for(argument(arguments, 5))
        &&& self.6.stands_for(argument(arguments, 6))
        &&& self.7.stands_for(argument(arguments, 7))
        &&& self.8.stands_for(argument(arguments, 8))
        &&& self.9.stands_for(argument(arguments, 9))
        &&& self.10.stands_for(argument(arguments, 10))
        &&& self.11.stands_for(argument(arguments, 11))
        &&& self.12.stands_for(argument(arguments, 12))
        &&& self.13.stands_for(argument(arguments, 13))
        &&& self.14.stands_for(argument(arguments, 14))
        &&& self.15.stands_for(argument(arguments, 15))
        &&& self.16.stands_for(argument(arguments, 16))
        &&& self.17.stands_for(argument(arguments, 17))
        &&& self.18.stands_for(argument(arguments, 18))
        &&& self.19.stands_for(argument(arguments, 19))
        &&& self.20.stands_for(argument(arguments, 20))
        &&& self.21.stands_for(argument(arguments, 21))
        &&& self.22.stands_for(argument(arguments, 22))
    }

    proof fn lemma_reads_arity(value: Self, arguments: Seq<Dynamic>) {
    }

    fn from_args(cx: &mut FunctionContext) -> (r: NeonResult<Self>) {
        Ok((
            cx.arg::<T1>(0)?,
            cx.arg::<T2>(1)?,
            cx.arg::<T3>(2)?,
            cx.arg::<T4>(3)?,
            cx.arg::<T5>(4)?,
            cx.arg::<T6>(5)?,
            cx.arg::<T7>(6)?,
            cx.arg::<T8>(7)?,
            cx.arg::<T9>(8)?,
            cx.arg::<T10>(9)?,
            cx.arg::<T11>(10)?,
            cx.arg::<T12>(11)?,
            cx.arg::<T13>(12)?,
            cx.arg::<T14>(13)?,
            cx.arg::<T15>(14)?,
            cx.arg::<T16>(15)?,
            cx.arg::<T17>(16)?,
            cx.arg::<T18>(17)?,
            cx.arg::<T19>(18)?,
            cx.arg::<T20>(19)?,
            cx.arg::<T21>(20)?,
            cx.arg::<T22>(21)?,
            cx.arg::<T23>(22)?,
        ))
    }

    fn from_args_opt(cx: &mut FunctionContext) -> (r: NeonResult<Option<Self>>) {
        Ok(Some((
            match cx.try_arg::<T1>(0)? {
                Ok(v) => v,
                Err(_) => return Ok(None),
            },
            match cx.try_arg::<T2>(1)? {
                Ok(v) => v,
                Err(_) => return Ok(None),
            },
            match cx.try_arg::<T3>(2)? {
                Ok(v) => v,
                Err(_) => return Ok(None),
            },
            match cx.try_arg::<T4>(3)? {
                Ok(v) => v,
                Err(_) => return Ok(None),
            },
            match cx.try_arg::<T5>(4)? {
                Ok(v) => v,
                Err(_) => return Ok(None),
            },
            match cx.try_arg::<T6>(5)? {
                Ok(v) => v,
                Err(_) => return Ok(None),
            },
            match cx.try_arg::<T7>(6)? {
                Ok(v) => v,
                Err(_) => return Ok(None),
            },
            match cx.try_arg::<T8>(7)? {
                Ok(v) => v,
                Err(_) => return Ok(None),
            },
            match cx.try_arg::<T9>(8)? {
                Ok(v) => v,
                Err(_) => return Ok(None),
            },
            match cx.try_arg::<T10>(9)? {
                Ok(v) => v,
                Err(_) => return Ok(None),
            },
            match cx.try_arg::<T11>(10)? {
                Ok(v) => v,
                Err(_) => return Ok(None),
            },
            match cx.try_arg::<T12>(11)? {
                Ok(v) => v,
                Err(_) => return Ok(None),
            },
            match cx.try_arg::<T13>(12)? {
                Ok(v) => v,
                Err(_) => return Ok(None),
            },
            match cx.try_arg::<T14>(13)? {
                Ok(v) => v,
                Err(_) => return Ok(None),
            },
            match cx.try_arg::<T15>(14)? {
                Ok(v) => v,
                Err(_) => return Ok(None),
            },
            match cx.try_arg::<T16>(15)? {
                Ok(v) => v,
                Err(_) => return Ok(None),
            },
            match cx.try_arg::<T17>(16)? {
                Ok(v) => v,
                Err(_) => return Ok(None),
            },
            match cx.try_arg::<T18>(17)? {
                Ok(v) => v,
                Err(_) => return Ok(None),
            },
            match cx.try_arg::<T19>(18)? {
                Ok(v) => v,
                Err(_) => return Ok(None),
            },
            match cx.try_arg::<T20>(19)? {
                Ok(v) => v,
                Err(_) => return Ok(None),
            },
            match cx.try_arg::<T21>(20)? {
                Ok(v) => v,
                Err(_) => return Ok(None),
            },
            match cx.try_arg::<T22>(21)? {
                Ok(v) => v,
                Err(_) => return Ok(None),
            },
            match cx.try_arg::<T23>(22)? {
                Ok(v) => v,
                Err(_) => return Ok(None),
            },
        )))
    }
}

impl<
    T1: TryFromJs, T2: TryFromJs, T3: TryFromJs, T4: TryFromJs, T5: TryFromJs, T6: TryFromJs,
    T7: TryFromJs, T8: TryFromJs, T9: TryFromJs, T10: TryFromJs, T11: TryFromJs, T12: TryFromJs,
    T13: TryFromJs, T14: TryFromJs, T15: TryFromJs, T16: TryFromJs, T17: TryFromJs, T18: TryFromJs,
    T19: TryFromJs, T20: TryFromJs, T21: TryFromJs, T22: TryFromJs, T23: TryFromJs, T24: TryFromJs,
> Sealed for (
    T1, T2, T3, T4, T5, T6, T7, T8, T9, T10, T11, T12, T13, T14, T15, T16, T17, T18, T19, T20, T21,
    T22, T23, T24,
) {
}

impl<
    T1: TryFromJs, T2: TryFromJs, T3: TryFromJs, T4: TryFromJs, T5: TryFromJs, T6: TryFromJs,
    T7: TryFromJs, T8: TryFromJs, T9: TryFromJs, T10: TryFromJs, T11: TryFromJs, T12: TryFromJs,
    T13: TryFromJs, T14: TryFromJs, T15: TryFromJs, T16: TryFromJs, T17: TryFromJs, T18: TryFromJs,
    T19: TryFromJs, T20: TryFromJs, T21: TryFromJs, T22: TryFromJs, T23: TryFromJs, T24: TryFromJs,
> FromArgs for (
    T1, T2, T3, T4, T5, T6, T7, T8, T9, T10, T11, T12, T13, T14, T15, T16, T17, T18, T19, T20, T21,
    T22, T23, T24,
) {
    open spec fn arity() -> nat {
        24
    }

    open spec fn mismatch(arguments: Seq<Dynamic>) -> Option<Seq<char>> {
        if !T1::matches(argument(arguments, 0)) {
            Some(T1::expected())
        } else if !T2::matches(argument(arguments, 1)) {
            Some(T2::expected())
        } else if !T3::matches(argument(arguments, 2)) {
            Some(T3::expected())
        } else if !T4::matches(argument(arguments, 3)) {
            Some(T4::expected())
        } else if !T5::matches(argument(arguments, 4)) {
            Some(T5::expected())
        } else if !T6::matches(argument(arguments, 5)) {
            Some(T6::expected())
        } else if !T7::matches(argument(arguments, 6)) {
            Some(T7::expected())
        } else if !T8::matches(argument(arguments, 7)) {
            Some(T8::expected())
        } else if !T9::matches(argument(arguments, 8)) {
            Some(T9::expected())
        } else if !T10::matches(argument(arguments, 9)) {
            Some(T10::expected())
        } else if !T11::matches(argument(arguments, 10)) {
            Some(T11::expected())
        } else if !T12::matches(argument(arguments, 11)) {
            Some(T12::expected())
        } else if !T13::matches(argument(arguments, 12)) {
            Some(T13::expected())
        } else if !T14::matches(argument(arguments, 13)) {
            Some(T14::expected())
        } else if !T15::matches(argument(arguments, 14)) {
            Some(T15::expected())
        } else if !T16::matches(argument(arguments, 15)) {
            Some(T16::expected())
        } else if !T17::matches(argument(arguments, 16)) {
            Some(T17::expected())
        } else if !T18::matches(argument(arguments, 17)) {
            Some(T18::expected())
        } else if !T19::matches(argument(arguments, 18)) {
            Some(T19::expected())
        } else if !T20::matches(argument(arguments, 19)) {
            Some(T20::expected())
        } else if !T21::matches(argument(arguments, 20)) {
            Some(T21::expected())
        } else if !T22::matches(argument(arguments, 21)) {
            Some(T22::expected())
        } else if !T23::matches(argument(arguments, 22)) {
            Some(T23::expected())
        } else if !T24::matches(argument(arguments, 23)) {
            Some(T24::expected())
        } else {
            None
        }
    }

    open spec fn extracted_from(self, arguments: Seq<Dynamic>) -> bool {
        &&& self.0.stands_for(argument(arguments, 0))
        &&& self.1.stands_for(argument(arguments, 1))
        &&& self.2.stands_for(argument(arguments, 2))
        &&& self.3.stands_for(argument(arguments, 3))
        &&& self.4.stands_for(argument(arguments, 4))
        &&& self.5.stands_for(argument(arguments, 5))
        &&& self.6.stands_for(argument(arguments, 6))
        &&& self.7.stands_for(argument(arguments, 7))
        &&& self.8.stands_for(argument(arguments, 8))
        &&& self.9.stands_for(argument(arguments, 9))
        &&& self.10.stands_for(argument(arguments, 10))
        &&& self.11.stands_for(argument(arguments, 11))
        &&& self.12.stands_for(argument(arguments, 12))
        &&& self.13.stands_for(argument(arguments, 13))
        &&& self.14.stands_for(argument(arguments, 14))
        &&& self.15.stands_for(argument(arguments, 15))
        &&& self.16.stands_for(argument(arguments, 16))
        &&& self.17.stands_for(argument(arguments, 17))
        &&& self.18.stands_for(argument(arguments, 18))
        &&& self.19.stands_for(argument(arguments, 19))
        &&& self.20.stands_for(argument(arguments, 20))
        &&& self.21.stands_for(argument(arguments, 21))
        &&& self.22.stands_for(argument(arguments, 22))
        &&& self.23.stands_for(argument(arguments, 23))
    }

    proof fn lemma_reads_arity(value: Self, arguments: Seq<Dynamic>) {
    }

    fn from_args(cx: &mut FunctionContext) -> (r: NeonResult<Self>) {
        Ok((
            cx.arg::<T1>(0)?,
            cx.arg::<T2>(1)?,
            cx.arg::<T3>(2)?,
            cx.arg::<T4>(3)?,
            cx.arg::<T5>(4)?,
            cx.arg::<T6>(5)?,
            cx.arg::<T7>(6)?,
            cx.arg::<T8>(7)?,
            cx.arg::<T9>(8)?,
            cx.arg::<T10>(9)?,
            cx.arg::<T11>(10)?,
            cx.arg::<T12>(11)?,
            cx.arg::<T13>(12)?,
            cx.arg::<T14>(13)?,
            cx.arg::<T15>(14)?,
            cx.arg::<T16>(15)?,
            cx.arg::<T17>(16)?,
            cx.arg::<T18>(17)?,
            cx.arg::<T19>(18)?,
            cx.arg::<T20>(19)?,
            cx.arg::<T21>(20)?,
            cx.arg::<T22>(21)?,
            cx.arg::<T23>(22)?,
            cx.arg::<T24>(23)?,
        ))
    }

    fn from_args_opt(cx: &mut FunctionContext) -> (r: NeonResult<Option<Self>>) {
        Ok(Some((
            match cx.try_arg::<T1>(0)? {
                Ok(v) => v,
                Err(_) => return Ok(None),
            },
            match cx.try_arg::<T2>(1)? {
                Ok(v) => v,
                Err(_) => return Ok(None),
            },
            match cx.try_arg::<T3>(2)? {
                Ok(v) => v,
                Err(_) => return Ok(None),
            },
            match cx.try_arg::<T4>(3)? {
                Ok(v) => v,
                Err(_) => return Ok(None),
            },
            match cx.try_arg::<T5>(4)? {
                Ok(v) => v,
                Err(_) => return Ok(None),
            },
            match cx.try_arg::<T6>(5)? {
                Ok(v) => v,
                Err(_) => return Ok(None),
            },
            match cx.try_arg::<T7>(6)? {
                Ok(v) => v,
                Err(_) => return Ok(None),
            },
            match cx.try_arg::<T8>(7)? {
                Ok(v) => v,
                Err(_) => return Ok(None),
            },
            match cx.try_arg::<T9>(8)? {
                Ok(v) => v,
                Err(_) => return Ok(None),
            },
            match cx.try_arg::<T10>(9)? {
                Ok(v) => v,
                Err(_) => return Ok(None),
            },
            match cx.try_arg::<T11>(10)? {
                Ok(v) => v,
                Err(_) => return Ok(None),
            },
            match cx.try_arg::<T12>(11)? {
                Ok(v) => v,
                Err(_) => return Ok(None),
            },
            match cx.try_arg::<T13>(12)? {
                Ok(v) => v,
                Err(_) => return Ok(None),
            },
            match cx.try_arg::<T14>(13)? {
                Ok(v) => v,
                Err(_) => return Ok(None),
            },
            match cx.try_arg::<T15>(14)? {
                Ok(v) => v,
                Err(_) => return Ok(None),
            },
            match cx.try_arg::<T16>(15)? {
                Ok(v) => v,
                Err(_) => return Ok(None),
            },
            match cx.try_arg::<T17>(16)? {
                Ok(v) => v,
                Err(_) => return Ok(None),
            },
            match cx.try_arg::<T18>(17)? {
                Ok(v) => v,
                Err(_) => return Ok(None),
            },
            match cx.try_arg::<T19>(18)? {
                Ok(v) => v,
                Err(_) => return Ok(None),
            },
            match cx.try_arg::<T20>(19)? {
                Ok(v) => v,
                Err(_) => return Ok(None),
            },
            match cx.try_arg::<T21>(20)? {
                Ok(v) => v,
                Err(_) => return Ok(None),
            },
            match cx.try_arg::<T22>(21)? {
                Ok(v) => v,
                Err(_) => return Ok(None),
            },
            match cx.try_arg::<T23>(22)? {
                Ok(v) => v,
                Err(_) => return Ok(None),
            },
            match cx.try_arg::<T24>(23)? {
                Ok(v) => v,
                Err(_) => return Ok(None),
            },
        )))
    }
}

} // verus!
