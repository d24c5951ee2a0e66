use extract::{
    Date, ErrorKind, FromArgs, FunctionContext, JsValue, Throw, F64,
};

fn number(x: f64) -> JsValue {
    JsValue::Number(x.to_bits())
}

fn string(s: &str) -> JsValue {
    JsValue::String(s.to_string())
}

fn double(x: f64) -> F64 {
    F64::from_bits(x.to_bits())
}

/// The numbers `1.0`, `2.0`, up to `n`, as arguments.
fn counting(n: usize) -> Vec<JsValue> {
    (1..=n).map(|i| number(i as f64)).collect()
}

fn pending(cx: &FunctionContext) -> Option<(ErrorKind, String)> {
    cx.context().exception().map(|e| (e.kind, e.message.clone()))
}

fn type_error(name: &str) -> Option<(ErrorKind, String)> {
    Some((ErrorKind::TypeError, format!("expected {name}")))
}

#[test]
fn overloads_are_told_apart_by_probing() {
    let mut cx = FunctionContext::new(vec![number(5.0), number(3.0)]);

    let numbers: Option<(F64, F64)> = cx.args_opt().unwrap();
    assert_eq!(numbers, Some((double(5.0), double(3.0))));

    let strings: Option<(String, String)> = cx.args_opt().unwrap();
    assert_eq!(strings, None);

    assert_eq!(pending(&cx), None);
    assert_eq!(cx.len(), 2);
}

#[test]
fn probing_then_strict_extraction_serves_the_other_overload() {
    let mut cx = FunctionContext::new(vec![string("a"), string("b")]);
    let numbers: Option<(F64, F64)> = cx.args_opt().unwrap();
    assert!(numbers.is_none());
    let (a, b): (String, String) = cx.args().unwrap();
    assert_eq!(a + &b, "ab");
    assert_eq!(pending(&cx), None);
}

#[test]
fn strict_extraction_stops_at_the_first_wrong_slot() {
    let mut cx = FunctionContext::new(vec![string("not-a-number"), JsValue::Object]);
    let r: Result<(F64, F64), Throw> = cx.args();
    assert_eq!(r, Err(Throw));
    assert_eq!(pending(&cx), type_error("number"));

    // the second slot would raise another error; it is not reached
    let mut cx = FunctionContext::new(vec![string("not-a-number"), number(1.0)]);
    let r: Result<(F64, String), Throw> = cx.args();
    assert_eq!(r, Err(Throw));
    assert_eq!(pending(&cx), type_error("number"));

    let mut cx = FunctionContext::new(vec![JsValue::Null, JsValue::Null, JsValue::Null]);
    let r: Result<(bool, Date, String), Throw> = cx.args();
    assert_eq!(r, Err(Throw));
    assert_eq!(pending(&cx), type_error("boolean"));
}

#[test]
fn strict_extraction_names_the_slot_that_failed() {
    let mut cx = FunctionContext::new(vec![number(1.0), number(2.0)]);
    let r: Result<(F64, String), Throw> = cx.args();
    assert_eq!(r, Err(Throw));
    assert_eq!(pending(&cx), type_error("string"));

    let mut cx = FunctionContext::new(vec![number(1.0), string("s"), JsValue::Boolean(true)]);
    let r: Result<(F64, String, Date, bool), Throw> = cx.args();
    assert_eq!(r, Err(Throw));
    assert_eq!(pending(&cx), type_error("Date"));
}

#[test]
fn strict_extraction_hands_out_the_tuple() {
    let mut cx = FunctionContext::new(vec![
        number(1.0),
        string("s"),
        JsValue::Date(5),
        JsValue::Boolean(true),
    ]);
    let r: Result<(F64, String, Date, bool), Throw> = cx.args();
    assert_eq!(r, Ok((double(1.0), "s".to_string(), Date(F64::from_bits(5)), true)));
    assert_eq!(pending(&cx), None);
    assert_eq!(cx.len(), 4);
    assert_eq!(cx.argument_opt(1), Some(&string("s")));
}

#[test]
fn a_failed_extraction_can_be_caught_and_another_shape_tried() {
    let mut cx = FunctionContext::new(vec![string("x")]);
    let r: Result<(F64,), Throw> = cx.args();
    assert!(r.is_err());
    let caught = cx.take_exception().unwrap();
    assert_eq!(caught.kind, ErrorKind::TypeError);
    assert_eq!(caught.message, "expected number");
    assert_eq!(pending(&cx), None);
    let r: Result<(String,), Throw> = cx.args();
    assert_eq!(r, Ok(("x".to_string(),)));
}

#[test]
fn a_missing_argument_reads_as_undefined() {
    let mut cx = FunctionContext::new(vec![number(1.0)]);
    let r: Result<(F64, Option<String>), Throw> = cx.args();
    assert_eq!(r, Ok((double(1.0), None)));

    let r: Result<(F64, String), Throw> = cx.args();
    assert_eq!(r, Err(Throw));
    assert_eq!(pending(&cx), type_error("string"));

    let mut cx = FunctionContext::new(vec![number(1.0)]);
    let r: Option<(F64, String)> = cx.args_opt().unwrap();
    assert_eq!(r, None);
    assert_eq!(pending(&cx), None);
}

#[test]
fn arguments_beyond_the_last_slot_are_not_read() {
    let mut cx = FunctionContext::new(vec![number(1.0), JsValue::Object, JsValue::Object]);
    let r: Result<(F64,), Throw> = cx.args();
    assert_eq!(r, Ok((double(1.0),)));
    let r: Option<(F64,)> = cx.args_opt().unwrap();
    assert_eq!(r, Some((double(1.0),)));
    assert_eq!(cx.len(), 3);
}

#[test]
fn no_slot_always_succeeds() {
    for arguments in [vec![], vec![JsValue::Object], counting(40)] {
        let mut cx = FunctionContext::new(arguments);
        let r: Result<(), Throw> = cx.args();
        assert_eq!(r, Ok(()));
        let r: Option<()> = cx.args_opt().unwrap();
        assert_eq!(r, Some(()));
        assert_eq!(<() as FromArgs>::from_args(&mut cx), Ok(()));
        assert_eq!(pending(&cx), None);
    }
}

#[test]
fn no_slot_succeeds_while_an_exception_is_pending() {
    let mut cx = FunctionContext::new(vec![]);
    let _: Result<(), Throw> = cx.throw_type_error("earlier".to_string());
    let r: Result<(), Throw> = cx.args();
    assert_eq!(r, Ok(()));
    assert_eq!(pending(&cx), Some((ErrorKind::TypeError, "earlier".to_string())));
}

#[test]
fn a_single_type_is_the_tuple_of_one() {
    let mut cx = FunctionContext::new(vec![number(2.5), string("ignored")]);
    let bare: F64 = cx.args().unwrap();
    let (tupled,): (F64,) = cx.args().unwrap();
    assert_eq!(bare, tupled);
    assert_eq!(bare, double(2.5));

    let bare: Option<F64> = cx.args_opt().unwrap();
    assert_eq!(bare, Some(double(2.5)));
    let bare: Option<String> = cx.args_opt().unwrap();
    assert_eq!(bare, None);
    assert_eq!(pending(&cx), None);

    let r: Result<String, Throw> = cx.args();
    assert_eq!(r, Err(Throw));
    assert_eq!(pending(&cx), type_error("string"));
}

#[test]
fn a_single_optional_type_reads_a_missing_argument_as_none() {
    let mut cx = FunctionContext::new(vec![]);
    let r: Option<F64> = cx.args().unwrap();
    assert_eq!(r, None);
    // probing an optional type: a match on no value
    let r: Option<Option<F64>> = cx.args_opt().unwrap();
    assert_eq!(r, Some(None));
}

#[test]
fn one_argument_is_converted_at_its_position() {
    let mut cx = FunctionContext::new(vec![number(1.0), string("two")]);
    assert_eq!(cx.arg::<F64>(0), Ok(double(1.0)));
    assert_eq!(cx.arg::<String>(1), Ok("two".to_string()));
    assert_eq!(cx.arg::<Option<bool>>(2), Ok(None));
    assert!(matches!(cx.try_arg::<F64>(1), Ok(Err(_))));
    assert!(matches!(cx.try_arg::<F64>(7), Ok(Err(_))));
    assert!(matches!(cx.try_arg::<String>(1), Ok(Ok(s)) if s == "two"));
    assert_eq!(pending(&cx), None);
    assert_eq!(cx.arg::<bool>(usize::MAX), Err(Throw));
    assert_eq!(pending(&cx), type_error("boolean"));
    assert_eq!(cx.argument_opt(0), Some(&number(1.0)));
    assert_eq!(cx.argument_opt(2), None);
}

type F = F64;
type O = Option<F64>;

type Doubles32 = (
    F, F, F, F, F, F, F, F, F, F, F, F, F, F, F, F,
    F, F, F, F, F, F, F, F, F, F, F, F, F, F, F, F,
);

type Options32 = (
    O, O, O, O, O, O, O, O, O, O, O, O, O, O, O, O,
    O, O, O, O, O, O, O, O, O, O, O, O, O, O, O, O,
);

fn doubles_of(t: &Doubles32) -> Vec<f64> {
    [
        t.0, t.1, t.2, t.3, t.4, t.5, t.6, t.7, t.8, t.9, t.10, t.11, t.12, t.13, t.14, t.15,
        t.16, t.17, t.18, t.19, t.20, t.21, t.22, t.23, t.24, t.25, t.26, t.27, t.28, t.29, t.30,
        t.31,
    ]
    .iter()
    .map(|x| f64::from_bits(x.to_bits()))
    .collect()
}

fn options_of(t: &Options32) -> Vec<Option<f64>> {
    [
        t.0, t.1, t.2, t.3, t.4, t.5, t.6, t.7, t.8, t.9, t.10, t.11, t.12, t.13, t.14, t.15,
        t.16, t.17, t.18, t.19, t.20, t.21, t.22, t.23, t.24, t.25, t.26, t.27, t.28, t.29, t.30,
        t.31,
    ]
    .iter()
    .map(|x| x.map(|d| f64::from_bits(d.to_bits())))
    .collect()
}

#[test]
fn thirty_two_slots_are_filled_in_order() {
    let mut cx = FunctionContext::new(counting(32));
    let t: Doubles32 = cx.args().ok().unwrap();
    let expected: Vec<f64> = (1..=32).map(|i| i as f64).collect();
    assert_eq!(doubles_of(&t), expected);

    let t: Doubles32 = cx.args_opt().ok().unwrap().unwrap();
    assert_eq!(doubles_of(&t), expected);
    assert_eq!(pending(&cx), None);
}

#[test]
fn thirty_two_slots_read_undefined_for_what_is_missing() {
    let mut cx = FunctionContext::new(counting(3));
    let t: Options32 = cx.args().ok().unwrap();
    let mut expected = vec![Some(1.0), Some(2.0), Some(3.0)];
    expected.resize(32, None);
    assert_eq!(options_of(&t), expected);

    let t: Options32 = cx.args_opt().ok().unwrap().unwrap();
    assert_eq!(options_of(&t), expected);

    // with no argument at all, all thirty-two slots read undefined
    let mut cx = FunctionContext::new(vec![]);
    let t: Options32 = cx.args().ok().unwrap();
    assert_eq!(options_of(&t), vec![None; 32]);
}

#[test]
fn thirty_two_required_slots_fail_on_the_first_that_is_missing() {
    let mut cx = FunctionContext::new(counting(31));
    let r: Result<Doubles32, Throw> = cx.args();
    assert!(matches!(r, Err(Throw)));
    assert_eq!(pending(&cx), type_error("number"));

    let mut cx = FunctionContext::new(counting(31));
    let r: Option<Doubles32> = cx.args_opt().ok().unwrap();
    assert!(r.is_none());
    assert_eq!(pending(&cx), None);
}

#[test]
fn thirty_two_slots_do_not_read_a_thirty_third_argument() {
    let mut arguments = counting(32);
    arguments.push(JsValue::Object);
    let mut cx = FunctionContext::new(arguments);
    let t: Doubles32 = cx.args().ok().unwrap();
    assert_eq!(doubles_of(&t).len(), 32);
    assert_eq!(doubles_of(&t)[31], 32.0);
    assert_eq!(pending(&cx), None);
}

#[test]
fn last_slot_of_thirty_two_decides_too() {
    let mut arguments = counting(31);
    arguments.push(string("thirty-two"));
    let mut cx = FunctionContext::new(arguments);
    let r: Option<Doubles32> = cx.args_opt().ok().unwrap();
    assert!(r.is_none());
    let r: Result<Doubles32, Throw> = cx.args();
    assert!(r.is_err());
    assert_eq!(pending(&cx), type_error("number"));
}

#[test]
fn tuples_of_several_lengths_keep_the_order_of_the_arguments() {
    let mut cx = FunctionContext::new(counting(32));

    let t: (F, F, F) = cx.args().unwrap();
    assert_eq!(t, (double(1.0), double(2.0), double(3.0)));

    let t: (F, F, F, F, F, F, F, F) = cx.args().unwrap();
    assert_eq!(t.0, double(1.0));
    assert_eq!(t.7, double(8.0));

    let t: (F, F, F, F, F, F, F, F, F) = cx.args().unwrap();
    assert_eq!(t.0, double(1.0));
    assert_eq!(t.8, double(9.0));

    let t: (F, F, F, F, F, F, F, F, F, F, F, F, F, F, F, F) = cx.args().ok().unwrap();
    assert_eq!(t.0, double(1.0));
    assert_eq!(t.8, double(9.0));
    assert_eq!(t.15, double(16.0));

    let t: (F, F, F, F, F, F, F, F, F, F, F, F, F, F, F, F, F) = cx.args().ok().unwrap();
    assert_eq!(t.15, double(16.0));
    assert_eq!(t.16, double(17.0));

    let t: (F, F, F, F, F, F, F, F, F, F, F, F, F, F, F, F, F, F, F, F, F, F, F, F) =
        cx.args_opt().ok().unwrap().unwrap();
    assert_eq!(t.0, double(1.0));
    assert_eq!(t.16, double(17.0));
    assert_eq!(t.23, double(24.0));

    let t: (F, F, F, F, F, F, F, F, F, F, F, F, F, F, F, F, F, F, F, F, F, F, F, F, F) =
        cx.args_opt().ok().unwrap().unwrap();
    assert_eq!(t.23, double(24.0));
    assert_eq!(t.24, double(25.0));
}

#[test]
fn mixed_tuple_with_a_wrong_slot_in_the_middle() {
    let arguments = vec![
        number(1.0),
        JsValue::Boolean(true),
        string("three"),
        JsValue::Buffer(vec![4]),
        JsValue::Date(5),
    ];
    let mut cx = FunctionContext::new(arguments);
    let r: Option<(F64, bool, String, extract::Buffer, Date)> = cx.args_opt().unwrap();
    assert!(r.is_some());
    let r: Option<(F64, bool, String, extract::ArrayBuffer, Date)> = cx.args_opt().unwrap();
    assert!(r.is_none());
    assert_eq!(pending(&cx), None);
    let r: Result<(F64, bool, String, extract::ArrayBuffer, String), Throw> = cx.args();
    assert!(r.is_err());
    assert_eq!(pending(&cx), type_error("ArrayBuffer"));
}

#[test]
fn trait_functions_agree_with_the_context() {
    let mut cx = FunctionContext::new(vec![number(1.0), string("b")]);
    let direct = <(F64, String) as FromArgs>::from_args(&mut cx);
    assert_eq!(direct, Ok((double(1.0), "b".to_string())));
    let probed = <(F64, String) as FromArgs>::from_args_opt(&mut cx);
    assert_eq!(probed, Ok(Some((double(1.0), "b".to_string()))));
    let probed = <(String, String) as FromArgs>::from_args_opt(&mut cx);
    assert_eq!(probed, Ok(None));
    let bare = <String as FromArgs>::from_args_opt(&mut cx);
    assert_eq!(bare, Ok(None));
    let bare = <F64 as FromArgs>::from_args(&mut cx);
    assert_eq!(bare, Ok(double(1.0)));
}
