//! Laws that relate the conversions to one another.

use crate::context::{argument, argv};
use crate::from_args::FromArgs;
use crate::native::{ArrayBuffer, Buffer, Date, F64};
use crate::try_from_js::TryFromJs;
use crate::try_into_js::TryIntoJs;
use crate::value::{Dynamic, Value};
use vstd::prelude::*;

verus! {

/// A double that is made a dynamic value and read back is the same
/// double: the dynamic value has the shape that a double requires, and
/// it is read as that double and no other.
pub proof fn law_round_trip_double(x: F64)
    ensures
        F64::matches(x.into_dynamic()),
        forall|y: F64| y.stands_for(x.into_dynamic()) <==> y == x,
{
}

/// A boolean that is made a dynamic value and read back is the same
/// boolean.
pub proof fn law_round_trip_bool(x: bool)
    ensures
        bool::matches(x.into_dynamic()),
        forall|y: bool| y.stands_for(x.into_dynamic()) <==> y == x,
{
}

/// A string that is made a dynamic value and read back has the same
/// characters.
pub proof fn law_round_trip_string(x: String)
    ensures
        String::matches(x.into_dynamic()),
        forall|y: String| y.stands_for(x.into_dynamic()) <==> y@ == x@,
{
}

/// Bytes that are made a dynamic typed array and read back are the same
/// bytes.
pub proof fn law_round_trip_bytes(x: Vec<u8>)
    ensures
        Vec::<u8>::matches(x.into_dynamic()),
        forall|y: Vec<u8>| y.stands_for(x.into_dynamic()) <==> y@ == x@,
{
}

/// A date that is made a dynamic value and read back is the same date.
pub proof fn law_round_trip_date(x: Date)
    ensures
        Date::matches(x.into_dynamic()),
        forall|y: Date| y.stands_for(x.into_dynamic()) <==> y == x,
{
}

/// Bytes that are made a dynamic `ArrayBuffer` and read back are the
/// same bytes.
pub proof fn law_round_trip_array_buffer(x: ArrayBuffer)
    ensures
        ArrayBuffer::matches(x.into_dynamic()),
        forall|y: ArrayBuffer| y.stands_for(x.into_dynamic()) <==> y.0@ == x.0@,
{
}

/// Bytes that are made a dynamic `Buffer` and read back are the same
/// bytes.
pub proof fn law_round_trip_buffer(x: Buffer)
    ensures
        Buffer::matches(x.into_dynamic()),
        forall|y: Buffer| y.stands_for(x.into_dynamic()) <==> y.0@ == x.0@,
{
}

/// An optional value round-trips where its type does: no value becomes
/// `undefined`, which is read as no value; a value whose own dynamic
/// value is read back as itself, and is neither `null` nor `undefined`,
/// is read back as itself.
pub proof fn law_round_trip_option<T: TryFromJs + TryIntoJs>(x: Option<T>)
    requires
        x matches Some(v) ==> {
            &&& T::matches(v.into_dynamic())
            &&& v.stands_for(v.into_dynamic())
            &&& !v.into_dynamic().is_nullish()
        },
    ensures
        Option::<T>::matches(x.into_dynamic()),
        x.stands_for(x.into_dynamic()),
{
}

/// The dynamic type that a native type declares for what it becomes
/// holds the dynamic values of the shape that the native type requires,
/// and no others.
pub proof fn law_produced_type_is_the_required_shape(v: Dynamic)
    ensures
        <F64 as TryIntoJs>::Value::is_instance(v) <==> F64::matches(v),
        <bool as TryIntoJs>::Value::is_instance(v) <==> bool::matches(v),
        <String as TryIntoJs>::Value::is_instance(v) <==> String::matches(v),
        <Vec<u8> as TryIntoJs>::Value::is_instance(v) <==> Vec::<u8>::matches(v),
        <Date as TryIntoJs>::Value::is_instance(v) <==> Date::matches(v),
        <ArrayBuffer as TryIntoJs>::Value::is_instance(v) <==> ArrayBuffer::matches(v),
        <Buffer as TryIntoJs>::Value::is_instance(v) <==> Buffer::matches(v),
{
}

/// `null` and `undefined` have the shape that an optional type
/// requires, whatever `T` is, and are read as no value.
pub proof fn law_nullish_is_no_value<T: TryFromJs>(v: Dynamic, x: Option<T>)
    requires
        v.is_nullish(),
    ensures
        Option::<T>::matches(v),
        x.stands_for(v) <==> x is None,
{
}

/// On a dynamic value other than `null` and `undefined` an optional
/// type decides as `T` does: it requires the shape that `T` requires and
/// reads the value that `T` reads.
pub proof fn law_option_delegates<T: TryFromJs>(v: Dynamic, x: Option<T>)
    requires
        !v.is_nullish(),
    ensures
        Option::<T>::matches(v) <==> T::matches(v),
        Option::<T>::expected() == T::expected(),
        x.stands_for(v) <==> (x matches Some(y) && y.stands_for(v)),
{
}

/// No dynamic value has the shape of a double and that of a date: a
/// date is not read as a bare double, nor a number as a date.
pub proof fn law_date_is_no_number(v: Dynamic)
    ensures
        !(F64::matches(v) && Date::matches(v)),
        v is Date ==> Date::matches(v) && !F64::matches(v),
        v is Number ==> F64::matches(v) && !Date::matches(v),
{
}

/// No dynamic value has the shape of two of the three types of bytes.
pub proof fn law_bytes_are_told_apart(v: Dynamic)
    ensures
        !(Vec::<u8>::matches(v) && ArrayBuffer::matches(v)),
        !(Vec::<u8>::matches(v) && Buffer::matches(v)),
        !(ArrayBuffer::matches(v) && Buffer::matches(v)),
{
}

/// Where the first of two slots does not match, a strict extraction
/// raises the type error of the first slot whatever stands in the
/// second: the second slot is not reached.
pub proof fn law_second_slot_is_not_reached<T1: TryFromJs, T2: TryFromJs>(
    arguments: Seq<Dynamic>,
)
    requires
        !T1::matches(argument(arguments, 0)),
    ensures
        <(T1, T2) as FromArgs>::mismatch(arguments) == Some(T1::expected()),
{
}

/// The second of two slots decides where the first matches, and only
/// there.
pub proof fn law_second_slot_decides_after_the_first<T1: TryFromJs, T2: TryFromJs>(
    arguments: Seq<Dynamic>,
)
    requires
        T1::matches(argument(arguments, 0)),
    ensures
        <(T1, T2) as FromArgs>::mismatch(arguments) == if T2::matches(argument(arguments, 1)) {
            None
        } else {
            Some(T2::expected())
        },
{
}

/// An extraction with no slot matches every argument list.
pub proof fn law_zero_arity_always_matches(arguments: Seq<Dynamic>)
    ensures
        <() as FromArgs>::arity() == 0,
        <() as FromArgs>::mismatch(arguments) is None,
        ().extracted_from(arguments),
{
}

/// An extraction reads exactly as many raw arguments as it has slots:
/// it decides on an argument list as on the list of its first `arity`
/// raw arguments, in which `undefined` stands for each argument that the
/// caller did not supply.
pub proof fn law_reads_exactly_arity<A: FromArgs>(value: A, arguments: Seq<Dynamic>)
    ensures
        argv(arguments, A::arity()).len() == A::arity(),
        forall|i: int|
            arguments.len() <= i < A::arity() ==> argv(arguments, A::arity())[i]
                == Dynamic::Undefined,
        forall|i: int|
            0 <= i < arguments.len() && i < A::arity() ==> argv(arguments, A::arity())[i]
                == arguments[i],
        A::mismatch(arguments) == A::mismatch(argv(arguments, A::arity())),
        value.extracted_from(arguments) == value.extracted_from(argv(arguments, A::arity())),
{
    A::lemma_reads_arity(value, arguments);
}

} // verus!
