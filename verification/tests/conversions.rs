use extract::{
    ArrayBuffer, Buffer, Context, Date, ErrorKind, JsArrayBuffer, JsBoolean, JsBuffer, JsDate,
    JsError, JsNumber, JsString, JsUint8Array, JsValue, NeonResult, ResultExt, Throw, TryFromJs,
    TryIntoJs, TypeExpected, Value, F64,
};

fn number(x: f64) -> JsValue {
    JsValue::Number(x.to_bits())
}

fn string(s: &str) -> JsValue {
    JsValue::String(s.to_string())
}

/// One value of every shape.
fn every_shape() -> Vec<JsValue> {
    vec![
        JsValue::Undefined,
        JsValue::Null,
        JsValue::Boolean(true),
        number(1.5),
        string("text"),
        JsValue::Date(86_400_000f64.to_bits()),
        JsValue::ArrayBuffer(vec![1, 2, 3]),
        JsValue::Buffer(vec![4, 5]),
        JsValue::Uint8Array(vec![6]),
        JsValue::Object,
    ]
}

fn pending_message(cx: &Context) -> String {
    cx.exception().expect("an exception is pending").message.clone()
}

#[test]
fn double_is_read_from_a_number() {
    let mut cx = Context::new();
    let r = F64::try_from_js(&mut cx, &number(5.0));
    match r {
        Ok(Ok(x)) => {
            assert_eq!(x, F64::from_bits(5.0f64.to_bits()));
            assert_eq!(f64::from_bits(x.to_bits()), 5.0);
        }
        _ => panic!("a number has the shape of a double"),
    }
    assert!(!cx.is_throwing());
}

#[test]
fn double_keeps_every_bit() {
    let mut cx = Context::new();
    let patterns =
        [0u64, 1, 0x8000_0000_0000_0000, f64::NAN.to_bits(), 0x7ff8_0000_0000_0001, u64::MAX];
    for bits in patterns {
        let r = F64::try_from_js(&mut cx, &JsValue::Number(bits));
        assert!(matches!(r, Ok(Ok(x)) if x.bits == bits));
    }
}

#[test]
fn bool_is_read_from_a_boolean() {
    let mut cx = Context::new();
    assert!(matches!(bool::try_from_js(&mut cx, &JsValue::Boolean(true)), Ok(Ok(true))));
    assert!(matches!(bool::try_from_js(&mut cx, &JsValue::Boolean(false)), Ok(Ok(false))));
    assert!(!cx.is_throwing());
}

#[test]
fn string_is_read_from_a_string() {
    let mut cx = Context::new();
    let r = String::try_from_js(&mut cx, &string("héllo"));
    assert!(matches!(r, Ok(Ok(s)) if s == "héllo"));
    let r = String::try_from_js(&mut cx, &string(""));
    assert!(matches!(r, Ok(Ok(s)) if s.is_empty()));
}

#[test]
fn bytes_are_read_from_a_typed_array() {
    let mut cx = Context::new();
    let r = Vec::<u8>::try_from_js(&mut cx, &JsValue::Uint8Array(vec![9, 8, 7]));
    assert!(matches!(r, Ok(Ok(b)) if b == vec![9, 8, 7]));
}

#[test]
fn date_is_read_from_a_date() {
    let mut cx = Context::new();
    let r = Date::try_from_js(&mut cx, &JsValue::Date(1_000.5f64.to_bits()));
    assert!(matches!(r, Ok(Ok(Date(ms))) if f64::from_bits(ms.bits) == 1_000.5));
}

#[test]
fn array_buffer_is_read_from_an_array_buffer() {
    let mut cx = Context::new();
    let r = ArrayBuffer::try_from_js(&mut cx, &JsValue::ArrayBuffer(vec![1, 2]));
    assert!(matches!(r, Ok(Ok(ArrayBuffer(b))) if b == vec![1, 2]));
}

#[test]
fn buffer_is_read_from_a_buffer() {
    let mut cx = Context::new();
    let r = Buffer::try_from_js(&mut cx, &JsValue::Buffer(vec![3]));
    assert!(matches!(r, Ok(Ok(Buffer(b))) if b == vec![3]));
}

/// Probes `T` against every shape: a match on the shape at `own`, a
/// mismatch on every other, and never an exception.
fn probes_only_its_own_shape<T: TryFromJs>(own: usize) {
    for (i, v) in every_shape().iter().enumerate() {
        let mut cx = Context::new();
        let r = T::try_from_js(&mut cx, v);
        if i == own {
            assert!(matches!(r, Ok(Ok(_))), "shape {i} should match");
        } else {
            assert!(matches!(r, Ok(Err(_))), "shape {i} should not match");
        }
        assert!(!cx.is_throwing());
        assert!(cx.exception().is_none());
    }
}

#[test]
fn probing_reports_a_wrong_shape_and_never_raises() {
    probes_only_its_own_shape::<bool>(2);
    probes_only_its_own_shape::<F64>(3);
    probes_only_its_own_shape::<String>(4);
    probes_only_its_own_shape::<Date>(5);
    probes_only_its_own_shape::<ArrayBuffer>(6);
    probes_only_its_own_shape::<Buffer>(7);
    probes_only_its_own_shape::<Vec<u8>>(8);
}

#[test]
fn probing_leaves_a_pending_exception_alone() {
    let mut cx = Context::new();
    let earlier = JsError { kind: ErrorKind::RangeError, message: "earlier".to_string() };
    let _: NeonResult<()> = cx.throw(earlier);
    assert!(matches!(F64::try_from_js(&mut cx, &string("x")), Ok(Err(_))));
    assert!(matches!(F64::try_from_js(&mut cx, &number(2.0)), Ok(Ok(_))));
    let e = cx.exception().unwrap();
    assert_eq!(e.kind, ErrorKind::RangeError);
    assert_eq!(e.message, "earlier");
}

/// The strict form of `T` against every shape: the value on the shape at
/// `own`; on every other a type error that names what was expected.
fn strict_names_what_it_expected<T: TryFromJs>(own: usize, name: &str) {
    for (i, v) in every_shape().iter().enumerate() {
        let mut cx = Context::new();
        let r = T::from_js(&mut cx, v);
        if i == own {
            assert!(r.is_ok());
            assert!(!cx.is_throwing());
        } else {
            assert!(matches!(r, Err(Throw)));
            let e = cx.exception().unwrap();
            assert_eq!(e.kind, ErrorKind::TypeError);
            assert_eq!(e.message, format!("expected {name}"));
        }
    }
}

#[test]
fn strict_form_raises_a_type_error_that_names_the_type() {
    strict_names_what_it_expected::<bool>(2, "boolean");
    strict_names_what_it_expected::<F64>(3, "number");
    strict_names_what_it_expected::<String>(4, "string");
    strict_names_what_it_expected::<Date>(5, "Date");
    strict_names_what_it_expected::<ArrayBuffer>(6, "ArrayBuffer");
    strict_names_what_it_expected::<Buffer>(7, "Buffer");
    strict_names_what_it_expected::<Vec<u8>>(8, "Uint8Array");
}

#[test]
fn strict_form_hands_out_the_value() {
    let mut cx = Context::new();
    assert_eq!(F64::from_js(&mut cx, &number(-0.25)), Ok(F64 { bits: (-0.25f64).to_bits() }));
    assert_eq!(bool::from_js(&mut cx, &JsValue::Boolean(true)), Ok(true));
    assert_eq!(String::from_js(&mut cx, &string("abc")), Ok("abc".to_string()));
    assert_eq!(Date::from_js(&mut cx, &JsValue::Date(7)), Ok(Date(F64 { bits: 7 })));
    assert_eq!(Vec::<u8>::from_js(&mut cx, &JsValue::Uint8Array(vec![1])), Ok(vec![1]));
    assert_eq!(
        ArrayBuffer::from_js(&mut cx, &JsValue::ArrayBuffer(vec![2])),
        Ok(ArrayBuffer(vec![2]))
    );
    assert_eq!(Buffer::from_js(&mut cx, &JsValue::Buffer(vec![3])), Ok(Buffer(vec![3])));
    assert!(!cx.is_throwing());
}

#[test]
fn strict_form_replaces_an_earlier_exception() {
    let mut cx = Context::new();
    assert!(bool::from_js(&mut cx, &JsValue::Null).is_err());
    assert_eq!(pending_message(&cx), "expected boolean");
    assert!(String::from_js(&mut cx, &JsValue::Null).is_err());
    assert_eq!(pending_message(&cx), "expected string");
}

#[test]
fn date_and_number_are_told_apart() {
    let ms = 1_700_000_000_000f64;
    let date = JsValue::Date(ms.to_bits());
    let mut cx = Context::new();

    // a bare double is not read from a date
    assert!(matches!(F64::try_from_js(&mut cx, &date), Ok(Err(_))));
    // the wrapper is, and holds the time value in milliseconds
    match Date::try_from_js(&mut cx, &date) {
        Ok(Ok(Date(x))) => assert_eq!(f64::from_bits(x.to_bits()), ms),
        _ => panic!("a date has the shape of the wrapper"),
    }
    // the wrapper is not read from a plain number
    assert!(matches!(Date::try_from_js(&mut cx, &number(ms)), Ok(Err(_))));
    assert!(!cx.is_throwing());
}

#[test]
fn three_kinds_of_bytes_are_told_apart() {
    let mut cx = Context::new();
    let array_buffer = JsValue::ArrayBuffer(vec![1]);
    let buffer = JsValue::Buffer(vec![1]);
    let typed = JsValue::Uint8Array(vec![1]);
    assert!(matches!(ArrayBuffer::try_from_js(&mut cx, &buffer), Ok(Err(_))));
    assert!(matches!(ArrayBuffer::try_from_js(&mut cx, &typed), Ok(Err(_))));
    assert!(matches!(Buffer::try_from_js(&mut cx, &array_buffer), Ok(Err(_))));
    assert!(matches!(Buffer::try_from_js(&mut cx, &typed), Ok(Err(_))));
    assert!(matches!(Vec::<u8>::try_from_js(&mut cx, &array_buffer), Ok(Err(_))));
    assert!(matches!(Vec::<u8>::try_from_js(&mut cx, &buffer), Ok(Err(_))));
}

#[test]
fn null_and_undefined_are_no_value() {
    let mut cx = Context::new();
    for v in [JsValue::Null, JsValue::Undefined] {
        assert!(matches!(Option::<F64>::try_from_js(&mut cx, &v), Ok(Ok(None))));
        assert!(matches!(Option::<String>::try_from_js(&mut cx, &v), Ok(Ok(None))));
        assert!(matches!(Option::<Date>::try_from_js(&mut cx, &v), Ok(Ok(None))));
        assert!(matches!(Option::<Option<bool>>::try_from_js(&mut cx, &v), Ok(Ok(None))));
        assert_eq!(Option::<F64>::from_js(&mut cx, &v), Ok(None));
        assert_eq!(Option::<Buffer>::from_js(&mut cx, &v), Ok(None));
    }
    assert!(!cx.is_throwing());
}

#[test]
fn option_decides_on_other_shapes_as_its_type_does() {
    let mut cx = Context::new();
    let r = Option::<F64>::try_from_js(&mut cx, &number(2.0));
    assert!(matches!(r, Ok(Ok(Some(x))) if x.bits == 2.0f64.to_bits()));
    assert!(matches!(Option::<F64>::try_from_js(&mut cx, &string("2")), Ok(Err(_))));
    let r = Option::<String>::try_from_js(&mut cx, &string("2"));
    assert!(matches!(r, Ok(Ok(Some(s))) if s == "2"));
    assert!(matches!(Option::<String>::try_from_js(&mut cx, &JsValue::Object), Ok(Err(_))));
    assert!(!cx.is_throwing());

    assert_eq!(Option::<bool>::from_js(&mut cx, &JsValue::Boolean(false)), Ok(Some(false)));
    assert_eq!(Option::<bool>::from_js(&mut cx, &number(0.0)), Err(Throw));
    assert_eq!(pending_message(&cx), "expected boolean");
}

#[test]
fn native_values_become_values_of_their_dynamic_type() {
    let mut cx = Context::new();
    assert_eq!(F64::from_bits(42).try_into_js(&mut cx), Ok(JsNumber(42)));
    assert_eq!(true.try_into_js(&mut cx), Ok(JsBoolean(true)));
    assert_eq!("s".to_string().try_into_js(&mut cx), Ok(JsString("s".to_string())));
    assert_eq!(Date(F64::from_bits(9)).try_into_js(&mut cx), Ok(JsDate(9)));
    assert_eq!(vec![1u8, 2].try_into_js(&mut cx), Ok(JsUint8Array(vec![1, 2])));
    assert_eq!(ArrayBuffer(vec![3]).try_into_js(&mut cx), Ok(JsArrayBuffer(vec![3])));
    assert_eq!(Buffer(vec![4]).try_into_js(&mut cx), Ok(JsBuffer(vec![4])));
    assert_eq!(Some(F64::from_bits(1)).try_into_js(&mut cx), Ok(JsValue::Number(1)));
    assert_eq!(Option::<F64>::None.try_into_js(&mut cx), Ok(JsValue::Undefined));
    assert!(!cx.is_throwing());
}

#[test]
fn producing_a_value_leaves_a_pending_exception_alone() {
    let mut cx = Context::new();
    let _: NeonResult<()> = cx.throw_type_error("earlier".to_string());
    assert_eq!(false.try_into_js(&mut cx), Ok(JsBoolean(false)));
    assert_eq!(pending_message(&cx), "earlier");
}

fn round_trip<T>(x: T) -> T
where
    T: TryFromJs + TryIntoJs,
{
    let mut cx = Context::new();
    let dynamic = x.try_into_js(&mut cx).expect("no shape can be wrong").upcast();
    match T::try_from_js(&mut cx, &dynamic) {
        Ok(Ok(y)) => y,
        _ => panic!("what a native value became is read back"),
    }
}

#[test]
fn round_trip_gives_the_value_back() {
    for x in [0.0, -0.0, 1.0, -3.75, 1e300, f64::MIN_POSITIVE, f64::INFINITY, f64::NEG_INFINITY] {
        let y = round_trip(F64::from_bits(x.to_bits()));
        assert_eq!(y.to_bits(), x.to_bits());
    }
    let nan = f64::NAN.to_bits();
    assert_eq!(round_trip(F64::from_bits(nan)).to_bits(), nan);
    assert_eq!(round_trip(true), true);
    assert_eq!(round_trip(false), false);
    assert_eq!(round_trip("round trip".to_string()), "round trip");
    assert_eq!(round_trip(String::new()), "");
    assert_eq!(round_trip(vec![0u8, 255, 7]), vec![0u8, 255, 7]);
    assert_eq!(round_trip(Vec::<u8>::new()), Vec::<u8>::new());
    assert_eq!(round_trip(Date(F64::from_bits(123))), Date(F64::from_bits(123)));
    assert_eq!(round_trip(ArrayBuffer(vec![1, 2, 3])), ArrayBuffer(vec![1, 2, 3]));
    assert_eq!(round_trip(Buffer(vec![4, 5, 6])), Buffer(vec![4, 5, 6]));
    assert_eq!(round_trip(Some(F64::from_bits(5))), Some(F64::from_bits(5)));
    assert_eq!(round_trip(Option::<String>::None), None);
}

#[test]
fn mismatch_text_names_the_type() {
    assert_eq!(TypeExpected::<JsNumber>::new().message(), "expected number");
    assert_eq!(TypeExpected::<JsString>::new().message(), "expected string");
    assert_eq!(TypeExpected::<JsBoolean>::new().message(), "expected boolean");
    assert_eq!(TypeExpected::<JsDate>::new().message(), "expected Date");
    assert_eq!(TypeExpected::<JsArrayBuffer>::new().message(), "expected ArrayBuffer");
    assert_eq!(TypeExpected::<JsBuffer>::new().message(), "expected Buffer");
    assert_eq!(TypeExpected::<JsUint8Array>::new().message(), "expected Uint8Array");
    assert_eq!(TypeExpected::<JsValue>::new().message(), "expected any");
}

#[test]
fn mismatch_debug_text_quotes_the_name() {
    assert_eq!(TypeExpected::<JsNumber>::new().debug_text(), "TypeExpected(\"number\")");
    assert_eq!(TypeExpected::<JsDate>::new().debug_text(), "TypeExpected(\"Date\")");
}

#[test]
fn names_of_the_dynamic_types() {
    assert_eq!(JsValue::name(), "any");
    assert_eq!(JsBoolean::name(), "boolean");
    assert_eq!(JsNumber::name(), "number");
    assert_eq!(JsString::name(), "string");
    assert_eq!(JsDate::name(), "Date");
    assert_eq!(JsArrayBuffer::name(), "ArrayBuffer");
    assert_eq!(JsBuffer::name(), "Buffer");
    assert_eq!(JsUint8Array::name(), "Uint8Array");
}

#[test]
fn upcast_forgets_the_type_only() {
    assert_eq!(JsBoolean(true).upcast(), JsValue::Boolean(true));
    assert_eq!(JsNumber(3).upcast(), JsValue::Number(3));
    assert_eq!(JsString("a".to_string()).upcast(), JsValue::String("a".to_string()));
    assert_eq!(JsDate(4).upcast(), JsValue::Date(4));
    assert_eq!(JsArrayBuffer(vec![1]).upcast(), JsValue::ArrayBuffer(vec![1]));
    assert_eq!(JsBuffer(vec![2]).upcast(), JsValue::Buffer(vec![2]));
    assert_eq!(JsUint8Array(vec![3]).upcast(), JsValue::Uint8Array(vec![3]));
    assert_eq!(JsValue::Object.upcast(), JsValue::Object);
}

#[test]
fn or_throw_hands_out_a_success() {
    let mut cx = Context::new();
    let r: Result<u32, TypeExpected<JsNumber>> = Ok(7);
    assert_eq!(r.or_throw(&mut cx), Ok(7));
    assert!(!cx.is_throwing());
}

#[test]
fn or_throw_raises_a_mismatch_as_a_type_error() {
    let mut cx = Context::new();
    let r: Result<u32, TypeExpected<JsString>> = Err(TypeExpected::new());
    assert_eq!(r.or_throw(&mut cx), Err(Throw));
    let e = cx.exception().unwrap();
    assert_eq!(e.kind, ErrorKind::TypeError);
    assert_eq!(e.message, "expected string");
    assert_eq!(e.message, TypeExpected::<JsString>::new().message());
}

#[test]
fn context_holds_the_exception_raised_last() {
    let mut cx = Context::new();
    assert!(!cx.is_throwing());
    assert!(cx.exception().is_none());
    assert!(cx.take_exception().is_none());

    let one = JsError { kind: ErrorKind::Error, message: "one".to_string() };
    let r: NeonResult<u8> = cx.throw(one);
    assert_eq!(r, Err(Throw));
    let r: NeonResult<u8> = cx.throw_type_error("two".to_string());
    assert_eq!(r, Err(Throw));
    assert!(cx.is_throwing());
    assert_eq!(cx.exception(), Some(&JsError::type_error("two".to_string())));

    let taken = cx.take_exception();
    assert_eq!(taken, Some(JsError { kind: ErrorKind::TypeError, message: "two".to_string() }));
    assert!(!cx.is_throwing());
}

#[test]
fn null_and_undefined_are_recognised() {
    for (i, v) in every_shape().iter().enumerate() {
        assert_eq!(v.is_null_or_undefined(), i < 2);
    }
}
