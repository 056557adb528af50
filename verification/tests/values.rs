use std::sync::Arc;
use teo::context::{Ctx, Intent, PathItem};
use teo::decimal::Decimal;
use teo::error::{Error, ErrorType};
use teo::item::Item;
use teo::items::prepend::PrependItem;
use teo::items::query_raw::QueryRawItem;
use teo::items::to_lower_case::ToLowerCaseItem;
use teo::order::{order_f32, order_f64, order_i64, order_text, Order};
use teo::pipeline::Pipeline;
use teo::transcript::{Reply, Request, Step};
use teo::validate::{ValidateResult, Validity};
use teo::value::{Object, Range, Value};
use teo::well_formed::keys_are_distinct;

fn text(s: &str) -> Value {
    Value::String(s.to_string())
}

fn decimal(s: &str) -> Decimal {
    let (negative, rest) = match s.strip_prefix('-') {
        Some(rest) => (true, rest),
        None => (false, s),
    };
    let (whole, fraction) = rest.split_once('.').unwrap_or((rest, ""));
    let digits = whole.bytes().chain(fraction.bytes()).map(|b| b - b'0').collect();
    Decimal { negative, digits, scale: fraction.len() as u32 }
}

fn expected(o: Option<std::cmp::Ordering>) -> Option<Order> {
    o.map(|o| match o {
        std::cmp::Ordering::Less => Order::Less,
        std::cmp::Ordering::Equal => Order::Equal,
        std::cmp::Ordering::Greater => Order::Greater,
    })
}

#[test]
fn integers_are_ordered() {
    assert_eq!(order_i64(-1, 1), Order::Less);
    assert_eq!(order_i64(2, 2), Order::Equal);
    assert_eq!(order_i64(i64::MAX, i64::MIN), Order::Greater);
}

#[test]
fn texts_are_ordered_by_character() {
    let samples = ["", "a", "ab", "b", "B", "é", "z", "zz", "日本", "😀", "a😀", "\u{ffff}"];
    for a in samples {
        for b in samples {
            assert_eq!(Some(order_text(a, b)), expected(Some(a.cmp(b))), "{a:?} {b:?}");
        }
    }
}

#[test]
fn doubles_are_ordered_as_numbers() {
    let samples = [
        0.0f64,
        -0.0,
        1.0,
        -1.0,
        1.5,
        -1.5,
        f64::MIN_POSITIVE,
        f64::MAX,
        f64::MIN,
        f64::INFINITY,
        f64::NEG_INFINITY,
        f64::NAN,
        -f64::NAN,
        5e-324,
        -5e-324,
    ];
    for a in samples {
        for b in samples {
            assert_eq!(
                order_f64(a.to_bits(), b.to_bits()),
                expected(a.partial_cmp(&b)),
                "{a:?} {b:?}"
            );
        }
    }
}

#[test]
fn floats_are_ordered_as_numbers() {
    let samples = [
        0.0f32,
        -0.0,
        1.0,
        -1.0,
        2.25,
        -2.25,
        f32::MIN_POSITIVE,
        f32::MAX,
        f32::MIN,
        f32::INFINITY,
        f32::NEG_INFINITY,
        f32::NAN,
        -f32::NAN,
    ];
    for a in samples {
        for b in samples {
            assert_eq!(
                order_f32(a.to_bits(), b.to_bits()),
                expected(a.partial_cmp(&b)),
                "{a:?} {b:?}"
            );
        }
    }
}

#[test]
fn values_of_one_variant_are_ordered() {
    assert_eq!(Value::Null.order(&Value::Null), Some(Order::Equal));
    assert_eq!(Value::Bool(false).order(&Value::Bool(true)), Some(Order::Less));
    assert_eq!(Value::Bool(true).order(&Value::Bool(true)), Some(Order::Equal));
    assert_eq!(Value::I32(3).order(&Value::I32(-3)), Some(Order::Greater));
    assert_eq!(Value::I64(3).order(&Value::I64(4)), Some(Order::Less));
    assert_eq!(Value::Date(10).order(&Value::Date(9)), Some(Order::Greater));
    assert_eq!(Value::DateTime(-1).order(&Value::DateTime(0)), Some(Order::Less));
    assert_eq!(text("a").order(&text("b")), Some(Order::Less));
    let half = Value::F64(0.5f64.to_bits());
    let two = Value::F64(2.0f64.to_bits());
    assert_eq!(half.order(&two), Some(Order::Less));
    assert_eq!(Value::F32(1.0f32.to_bits()).order(&Value::F32(1.0f32.to_bits())), Some(Order::Equal));
    assert_eq!(Value::F64(f64::NAN.to_bits()).order(&two), None);
}

#[test]
fn sequences_are_ordered_by_their_first_difference() {
    let v = |ns: &[i64]| Value::Vec(ns.iter().map(|n| Value::I64(*n)).collect());
    assert_eq!(v(&[]).order(&v(&[])), Some(Order::Equal));
    assert_eq!(v(&[1, 2]).order(&v(&[1, 2])), Some(Order::Equal));
    assert_eq!(v(&[1]).order(&v(&[1, 0])), Some(Order::Less));
    assert_eq!(v(&[1, 0]).order(&v(&[1])), Some(Order::Greater));
    assert_eq!(v(&[2]).order(&v(&[1, 9])), Some(Order::Greater));
    assert_eq!(v(&[1, 3]).order(&v(&[1, 2, 9])), Some(Order::Greater));
    let mixed = Value::Vec(vec![Value::I64(1), text("x")]);
    assert_eq!(mixed.order(&v(&[1, 2])), None);
    assert_eq!(mixed.order(&v(&[0, 2])), Some(Order::Greater));
    let t = |ns: &[i64]| Value::Tuple(ns.iter().map(|n| Value::I64(*n)).collect());
    assert_eq!(t(&[1, 2]).order(&t(&[1, 3])), Some(Order::Less));
    assert_eq!(t(&[1, 2]).order(&v(&[1, 2])), None);
}

#[test]
fn values_of_different_variants_have_no_order() {
    assert_eq!(Value::I32(1).order(&Value::I64(1)), None);
    assert_eq!(Value::Null.order(&Value::Bool(false)), None);
    assert_eq!(text("1").order(&Value::I64(1)), None);
    assert_eq!(Value::Pipeline(Pipeline::new()).order(&Value::Pipeline(Pipeline::new())), None);
}

#[test]
fn accessors_answer_for_their_variant_only() {
    assert!(Value::Null.is_null());
    assert!(!Value::Bool(false).is_null());
    assert_eq!(Value::Bool(true).as_bool(), Some(true));
    assert_eq!(Value::I64(1).as_bool(), None);
    assert_eq!(Value::I32(-4).as_i32(), Some(-4));
    assert_eq!(Value::I64(-4).as_i32(), None);
    assert_eq!(Value::I64(9).as_i64(), Some(9));
    assert_eq!(Value::I32(9).as_i64(), None);
    assert_eq!(text("s").as_str(), Some("s"));
    assert_eq!(Value::RegExp("s".to_string()).as_str(), None);
    assert_eq!(Value::RawEnumChoice("sqlite".to_string()).as_raw_enum_choice(), Some("sqlite"));
    assert_eq!(text("sqlite").as_raw_enum_choice(), None);
    assert_eq!(Value::Vec(vec![Value::Null]).as_vec().map(|v| v.len()), Some(1));
    assert!(Value::Tuple(vec![Value::Null]).as_vec().is_none());
    assert!(Value::Pipeline(Pipeline::new()).as_pipeline().is_some());
    assert!(Value::Null.as_pipeline().is_none());
}

#[test]
fn conversions_into_values() {
    assert_eq!(Value::from(true).as_bool(), Some(true));
    assert_eq!(Value::from(3i32).as_i32(), Some(3));
    assert_eq!(Value::from(3i64).as_i64(), Some(3));
    assert_eq!(Value::from("abc").as_str(), Some("abc"));
    assert_eq!(Value::from("abc".to_string()).as_str(), Some("abc"));
    assert_eq!(Value::from(vec![Value::Null, Value::Null]).as_vec().unwrap().len(), 2);
    assert!(Value::from(Pipeline::new()).as_pipeline().is_some());
}

#[test]
fn a_clone_holds_the_same() {
    let value = Value::Dictionary(vec![
        ("a".to_string(), Value::Vec(vec![Value::I64(1), text("x")])),
        (
            "b".to_string(),
            Value::Range(Range {
                closed: true,
                start: Box::new(Value::I32(1)),
                end: Box::new(Value::I32(5)),
            }),
        ),
        ("c".to_string(), Value::Tuple(vec![Value::Object(Object { id: 3 }), Value::Null])),
    ]);
    let copy = value.clone();
    assert_eq!(format!("{:?}", copy), format!("{:?}", value));
}

#[test]
fn resolving_a_plain_value_gives_it_back() {
    let ctx = Ctx::initial_state_with_value(Value::Null);
    let value = Value::Vec(vec![Value::I64(1), Value::Dictionary(vec![("k".to_string(), text("v"))])]);
    let run = value.resolve(&ctx, &vec![], 0);
    assert_eq!(run.next, 0);
    match run.step {
        Step::Done(out) => assert_eq!(format!("{:?}", out), format!("{:?}", value)),
        other => panic!("{:?}", other),
    }
}

#[test]
fn resolving_runs_the_pipelines_inside() {
    let lower = || Pipeline { items: vec![Arc::new(Item::ToLowerCase(ToLowerCaseItem::new()))] };
    let ask = |q: &str| Pipeline {
        items: vec![
            Arc::new(Item::Prepend(PrependItem::new(q))),
            Arc::new(Item::QueryRaw(QueryRawItem::new(Value::Null))),
        ],
    };
    let ctx = Ctx::initial_state_with_value(text("ABC"));
    let value = Value::Vec(vec![
        Value::Pipeline(lower()),
        Value::Dictionary(vec![
            ("first".to_string(), Value::Pipeline(ask("one"))),
            ("second".to_string(), Value::Pipeline(ask("two"))),
        ]),
        Value::I64(7),
    ]);
    // Without replies the first query stops the resolution.
    match value.resolve(&ctx, &vec![], 0).step {
        Step::Suspended(Request::QueryRaw { query }) => assert_eq!(query.as_str(), Some("oneABC")),
        other => panic!("{:?}", other),
    }
    let one = vec![Reply::QueryResult(Ok(Value::I64(1)))];
    match value.resolve(&ctx, &one, 0).step {
        Step::Suspended(Request::QueryRaw { query }) => assert_eq!(query.as_str(), Some("twoABC")),
        other => panic!("{:?}", other),
    }
    let both = vec![Reply::QueryResult(Ok(Value::I64(1))), Reply::QueryResult(Ok(Value::I64(2)))];
    let run = value.resolve(&ctx, &both, 0);
    assert_eq!(run.next, 2);
    let out = match run.step {
        Step::Done(out) => out,
        other => panic!("{:?}", other),
    };
    let parts = out.as_vec().unwrap();
    assert_eq!(parts[0].as_str(), Some("abc"));
    match &parts[1] {
        Value::Dictionary(entries) => {
            assert_eq!(entries[0].0, "first");
            assert_eq!(entries[0].1.as_i64(), Some(1));
            assert_eq!(entries[1].0, "second");
            assert_eq!(entries[1].1.as_i64(), Some(2));
        }
        other => panic!("{:?}", other),
    }
    assert_eq!(parts[2].as_i64(), Some(7));
    // A failure inside ends the resolution.
    let failing = vec![Reply::QueryResult(Err(Error::validation_error(vec![], "no")))];
    match value.resolve(&ctx, &failing, 0).step {
        Step::Failed(error) => assert_eq!(error.message, "no"),
        other => panic!("{:?}", other),
    }
}

#[test]
fn frames_are_built_from_frames() {
    let ctx = Ctx::initial_state_with_value(Value::I64(1));
    assert!(ctx.path.is_empty());
    assert_eq!(ctx.object, None);
    assert_eq!(ctx.intent, Intent::SingleResult);
    assert_eq!(ctx.get_value().as_i64(), Some(1));
    let next = ctx.with_value(Value::I64(2));
    assert_eq!(next.value.as_i64(), Some(2));
    assert_eq!(ctx.value.as_i64(), Some(1));
    let at = ctx.with_path(vec![PathItem::Key("a".to_string())]);
    let path = at.path_at_index(4);
    assert!(matches!(&path[..], [PathItem::Key(k), PathItem::Index(4)] if k == "a"));
    assert_eq!(at.path.len(), 1);
    let copy = at.with_object(Some(Object { id: 1 })).with_intent(Intent::ManyResult).clone();
    assert_eq!(copy.object, Some(Object { id: 1 }));
    assert_eq!(copy.intent, Intent::ManyResult);
    assert_eq!(copy.path.len(), 1);
}

#[test]
fn frames_make_failures_at_their_path() {
    let ctx = Ctx::initial_state_with_value(Value::Null).with_path(vec![PathItem::Index(2)]);
    let fatal = ctx.internal_server_error("broken");
    assert_eq!(fatal.kind, ErrorType::InternalServerError);
    assert_eq!(fatal.message, "broken");
    assert!(matches!(&fatal.path[..], [PathItem::Index(2)]));
    assert!(fatal.is_server_error());
    let invalid = ctx.with_invalid("too short");
    assert_eq!(invalid.kind, ErrorType::ValidationError);
    assert_eq!(invalid.message, "too short");
    assert!(matches!(&invalid.path[..], [PathItem::Index(2)]));
    assert!(!invalid.is_server_error());
    let denied = Error::permission_error(vec![PathItem::Index(2)], "permission denied");
    assert_eq!(denied.kind, ErrorType::PermissionError);
    assert!(!denied.is_server_error());
    let copy = denied.clone();
    assert_eq!(copy.kind, ErrorType::PermissionError);
    assert_eq!(copy.message, "permission denied");
    assert_eq!(copy.path.len(), 1);
}

#[test]
fn verdicts_from_plain_values() {
    assert!(Validity::from(true).is_valid());
    assert!(Validity::from(()).is_valid());
    assert!(Validity::from(None::<String>).is_valid());
    assert!(Validity::from(None::<&str>).is_valid());
    assert_eq!(Validity::Valid.invalid_reason(), None);
    let no = Validity::from(false);
    assert!(!no.is_valid());
    assert_eq!(no.invalid_reason(), Some("value is invalid"));
    assert_eq!(Validity::from("too long").invalid_reason(), Some("too long"));
    assert_eq!(Validity::from("too long".to_string()).invalid_reason(), Some("too long"));
    assert_eq!(Validity::from(Some("odd")).invalid_reason(), Some("odd"));
    assert_eq!(Validity::from(Some("odd".to_string())).invalid_reason(), Some("odd"));
    assert_eq!(no.clone().invalid_reason(), Some("value is invalid"));
}

#[test]
fn validate_results_from_verdicts_and_results() {
    match ValidateResult::from(true) {
        ValidateResult::Validity(v) => assert!(v.is_valid()),
        other => panic!("{:?}", other),
    }
    match ValidateResult::from("bad") {
        ValidateResult::Validity(v) => assert_eq!(v.invalid_reason(), Some("bad")),
        other => panic!("{:?}", other),
    }
    let ok: Result<bool, Error> = Ok(false);
    match ValidateResult::from(ok) {
        ValidateResult::Result(Ok(v)) => assert_eq!(v.invalid_reason(), Some("value is invalid")),
        other => panic!("{:?}", other),
    }
    let failed: Result<(), Error> = Err(Error::internal_server_error(vec![], "down"));
    match ValidateResult::from(failed) {
        ValidateResult::Result(Err(e)) => assert_eq!(e.message, "down"),
        other => panic!("{:?}", other),
    }
}

#[test]
fn values_are_equal_by_what_they_hold() {
    let v = |ns: &[i64]| Value::Vec(ns.iter().map(|n| Value::I64(*n)).collect());
    assert!(Value::Null == Value::Null);
    assert!(Value::Bool(true) == Value::Bool(true));
    assert!(Value::Bool(true) != Value::Bool(false));
    assert!(Value::I32(1) == Value::I32(1));
    assert!(Value::I32(1) != Value::I64(1));
    assert!(text("a") == text("a"));
    assert!(text("a") != text("b"));
    assert!(text("a") != Value::RegExp("a".to_string()));
    assert!(Value::Decimal(decimal("1.5")) == Value::Decimal(decimal("1.50")));
    assert!(Value::Decimal(decimal("1.5")) != Value::Decimal(decimal("1.05")));
    assert!(Value::Date(3) == Value::Date(3));
    assert!(Value::DateTime(3) != Value::DateTime(4));
    assert!(Value::RawEnumChoice("a".to_string()) == Value::RawEnumChoice("a".to_string()));
    assert!(Value::RawOptionChoice(2) != Value::RawOptionChoice(3));
    assert!(Value::Object(Object { id: 1 }) == Value::Object(Object { id: 1 }));
    assert!(Value::Object(Object { id: 1 }) != Value::Object(Object { id: 2 }));
    assert!(v(&[1, 2]) == v(&[1, 2]));
    assert!(v(&[1, 2]) != v(&[1, 2, 3]));
    assert!(v(&[1, 2, 3]) != v(&[1, 2]));
    assert!(v(&[1, 2]) != v(&[1, 3]));
    assert!(v(&[]) == v(&[]));
    assert!(v(&[1]) != Value::Tuple(vec![Value::I64(1)]));
    let range = |closed: bool, end: i64| {
        Value::Range(Range { closed, start: Box::new(Value::I64(0)), end: Box::new(Value::I64(end)) })
    };
    assert!(range(true, 5) == range(true, 5));
    assert!(range(true, 5) != range(false, 5));
    assert!(range(true, 5) != range(true, 6));
    let d = |k: &str, n: i64| Value::Dictionary(vec![(k.to_string(), Value::I64(n))]);
    assert!(d("a", 1) == d("a", 1));
    assert!(d("a", 1) != d("b", 1));
    assert!(d("a", 1) != d("a", 2));
}

#[test]
fn floats_are_equal_as_numbers() {
    let f = |x: f64| Value::F64(x.to_bits());
    assert!(f(1.5) == f(1.5));
    assert!(f(0.0) == f(-0.0));
    assert!(f(f64::NAN) != f(f64::NAN));
    assert!(f(1.5) != f(2.5));
    let g = |x: f32| Value::F32(x.to_bits());
    assert!(g(0.0) == g(-0.0));
    assert!(g(f32::NAN) != g(f32::NAN));
    assert!(g(f32::INFINITY) == g(f32::INFINITY));
}

#[test]
fn a_value_with_a_pipeline_equals_nothing() {
    let p = || Value::Pipeline(Pipeline::new());
    assert!(p() != p());
    let shared = p();
    assert!(shared != shared.clone());
    assert!(Value::Vec(vec![Value::I64(1), p()]) != Value::Vec(vec![Value::I64(1), p()]));
    assert!(
        Value::Dictionary(vec![("k".to_string(), p())])
            != Value::Dictionary(vec![("k".to_string(), p())])
    );
}

#[test]
fn choices_objects_and_patterns_are_ordered() {
    let choice = |s: &str| Value::RawEnumChoice(s.to_string());
    assert_eq!(choice("a").order(&choice("b")), Some(Order::Less));
    assert_eq!(choice("a").order(&text("a")), None);
    assert_eq!(Value::RawOptionChoice(4).order(&Value::RawOptionChoice(2)), Some(Order::Greater));
    let object = |id: u64| Value::Object(Object { id });
    assert_eq!(object(1).order(&object(u64::MAX)), Some(Order::Less));
    assert_eq!(object(3).order(&object(3)), Some(Order::Equal));
    let pattern = |s: &str| Value::RegExp(s.to_string());
    assert_eq!(pattern("^a").order(&pattern("^a")), Some(Order::Equal));
    assert_eq!(pattern("^b").order(&pattern("^a")), Some(Order::Greater));
}

#[test]
fn ranges_and_dictionaries_are_ordered() {
    let range = |closed: bool, start: i64, end: i64| {
        Value::Range(Range {
            closed,
            start: Box::new(Value::I64(start)),
            end: Box::new(Value::I64(end)),
        })
    };
    assert_eq!(range(true, 0, 5).order(&range(true, 0, 5)), Some(Order::Equal));
    assert_eq!(range(true, 0, 5).order(&range(true, 1, 2)), Some(Order::Less));
    assert_eq!(range(true, 0, 5).order(&range(true, 0, 4)), Some(Order::Greater));
    assert_eq!(range(false, 0, 5).order(&range(true, 0, 5)), Some(Order::Less));
    let mixed = Value::Range(Range {
        closed: true,
        start: Box::new(Value::I64(0)),
        end: Box::new(text("z")),
    });
    assert_eq!(mixed.order(&range(true, 0, 5)), None);
    assert_eq!(mixed.order(&range(true, 1, 5)), Some(Order::Less));
    let d = |entries: &[(&str, i64)]| {
        Value::Dictionary(entries.iter().map(|(k, n)| (k.to_string(), Value::I64(*n))).collect())
    };
    assert_eq!(d(&[]).order(&d(&[])), Some(Order::Equal));
    assert_eq!(d(&[("a", 1)]).order(&d(&[("a", 1)])), Some(Order::Equal));
    assert_eq!(d(&[("a", 1)]).order(&d(&[("b", 0)])), Some(Order::Less));
    assert_eq!(d(&[("a", 2)]).order(&d(&[("a", 1), ("b", 0)])), Some(Order::Greater));
    assert_eq!(d(&[("a", 1)]).order(&d(&[("a", 1), ("b", 0)])), Some(Order::Less));
}

#[test]
fn the_order_reverses_with_its_sides() {
    let samples = vec![
        Value::Null,
        Value::Bool(true),
        Value::I64(1),
        Value::I64(2),
        Value::F64(1.5f64.to_bits()),
        Value::F64(f64::NAN.to_bits()),
        text("a"),
        text("b"),
        Value::Vec(vec![Value::I64(1), text("x")]),
        Value::Vec(vec![Value::I64(1), Value::I64(2)]),
        Value::Tuple(vec![Value::I64(1)]),
        Value::Decimal(decimal("1")),
        Value::Decimal(decimal("-0.5")),
        Value::Decimal(Decimal { negative: false, digits: vec![10], scale: 0 }),
        Value::Pipeline(Pipeline::new()),
    ];
    for a in &samples {
        for b in &samples {
            let there = a.order(b);
            let back = b.order(a);
            let reversed = match there {
                Some(Order::Less) => Some(Order::Greater),
                Some(Order::Greater) => Some(Order::Less),
                other => other,
            };
            assert_eq!(back, reversed, "{a:?} {b:?}");
            if there == Some(Order::Equal) {
                assert!(a == b, "{a:?} {b:?}");
            }
        }
    }
}

#[test]
fn decimals_are_ordered_as_numbers() {
    let samples = [
        "0", "-0", "0.0", "000", "1", "-1", "1.0", "01.00", "1.5", "1.05", "1.50", "-1.5", "10",
        "9", "9.999", "10.0001", "-10", "-9.99", "0.001", "-0.001", "123456789012345678901234567890",
        "123456789012345678901234567890.5", "-123456789012345678901234567891", "0.1", "0.10", "0.09",
        "100", "99.99999999999999999999999999",
    ];
    // Each sample as a whole number of 10^-30 units, which all of them are.
    let scaled = |s: &str| -> i128 {
        let d = decimal(s);
        let mut n: i128 = 0;
        for digit in &d.digits {
            n = n * 10 + *digit as i128;
        }
        for _ in d.scale..8 {
            n *= 10;
        }
        if d.negative { -n } else { n }
    };
    let small: Vec<&str> =
        samples.iter().copied().filter(|s| decimal(s).digits.len() < 12 && decimal(s).scale <= 8).collect();
    assert!(small.len() > 15);
    for a in &small {
        for b in &small {
            let found = decimal(a).order(&decimal(b));
            assert_eq!(found, expected(Some(scaled(a).cmp(&scaled(b)))), "{a} {b}");
        }
    }
    let order = |a: &str, b: &str| decimal(a).order(&decimal(b));
    assert_eq!(order("0", "-0.000"), Some(Order::Equal));
    assert_eq!(
        order("123456789012345678901234567890", "123456789012345678901234567890.5"),
        Some(Order::Less)
    );
    assert_eq!(
        order("-123456789012345678901234567891", "123456789012345678901234567890"),
        Some(Order::Less)
    );
    assert_eq!(
        order("-123456789012345678901234567891", "-123456789012345678901234567890.5"),
        Some(Order::Less)
    );
    assert_eq!(order("100", "99.99999999999999999999999999"), Some(Order::Greater));
    assert_eq!(order("1.50", "1.5"), Some(Order::Equal));
    assert_eq!(
        Value::Decimal(decimal("2.5")).order(&Value::Decimal(decimal("2.49"))),
        Some(Order::Greater)
    );
    assert_eq!(Value::Decimal(decimal("2.5")).order(&Value::I64(2)), None);
}

#[test]
fn a_decimal_with_a_digit_that_is_none_has_no_order() {
    let broken = Decimal { negative: false, digits: vec![1, 10], scale: 0 };
    assert!(!broken.is_well_formed());
    assert!(decimal("12.5").is_well_formed());
    assert_eq!(broken.order(&decimal("1")), None);
    assert_eq!(decimal("1").order(&broken), None);
    assert_eq!(broken.order(&broken.clone()), None);
    assert!(Value::Decimal(broken.clone()) != Value::Decimal(broken));
}

#[test]
fn resolving_reaches_into_tuples_and_ranges() {
    let lower = || Pipeline { items: vec![Arc::new(Item::ToLowerCase(ToLowerCaseItem::new()))] };
    let ask = |q: &str| Pipeline {
        items: vec![
            Arc::new(Item::Prepend(PrependItem::new(q))),
            Arc::new(Item::QueryRaw(QueryRawItem::new(Value::Null))),
        ],
    };
    let ctx = Ctx::initial_state_with_value(text("ABC"));
    let value = Value::Tuple(vec![
        Value::Range(Range {
            closed: true,
            start: Box::new(Value::Pipeline(ask("start"))),
            end: Box::new(Value::Pipeline(ask("end"))),
        }),
        Value::Pipeline(lower()),
    ]);
    match value.resolve(&ctx, &vec![], 0).step {
        Step::Suspended(Request::QueryRaw { query }) => {
            assert_eq!(query.as_str(), Some("startABC"))
        }
        other => panic!("{:?}", other),
    }
    let one = vec![Reply::QueryResult(Ok(Value::I64(1)))];
    match value.resolve(&ctx, &one, 0).step {
        Step::Suspended(Request::QueryRaw { query }) => assert_eq!(query.as_str(), Some("endABC")),
        other => panic!("{:?}", other),
    }
    let both = vec![Reply::QueryResult(Ok(Value::I64(1))), Reply::QueryResult(Ok(Value::I64(9)))];
    let run = value.resolve(&ctx, &both, 0);
    assert_eq!(run.next, 2);
    match run.step {
        Step::Done(Value::Tuple(parts)) => {
            match &parts[0] {
                Value::Range(range) => {
                    assert!(range.closed);
                    assert_eq!(range.start.as_i64(), Some(1));
                    assert_eq!(range.end.as_i64(), Some(9));
                }
                other => panic!("{:?}", other),
            }
            assert_eq!(parts[1].as_str(), Some("abc"));
        }
        other => panic!("{:?}", other),
    }
}

#[test]
fn a_dictionary_is_made_of_distinct_keys() {
    let entry = |k: &str, n: i64| (k.to_string(), Value::I64(n));
    assert!(keys_are_distinct(&vec![]));
    assert!(keys_are_distinct(&vec![entry("a", 1), entry("b", 1)]));
    assert!(!keys_are_distinct(&vec![entry("a", 1), entry("b", 2), entry("a", 3)]));
    match Value::dictionary(vec![entry("a", 1), entry("b", 2)]) {
        Some(Value::Dictionary(entries)) => {
            assert_eq!(entries.len(), 2);
            assert_eq!(entries[0].0, "a");
            assert_eq!(entries[1].1.as_i64(), Some(2));
        }
        other => panic!("{:?}", other),
    }
    assert!(Value::dictionary(vec![entry("a", 1), entry("a", 2)]).is_none());
    assert!(Value::dictionary(vec![]).is_some());
}

#[test]
fn a_value_is_well_formed_where_every_dictionary_in_it_is_a_map() {
    let entry = |k: &str, v: Value| (k.to_string(), v);
    let good = Value::Dictionary(vec![entry("a", Value::I64(1)), entry("b", Value::Null)]);
    let bad = Value::Dictionary(vec![entry("a", Value::I64(1)), entry("a", Value::Null)]);
    assert!(good.is_well_formed());
    assert!(!bad.is_well_formed());
    assert!(Value::Null.is_well_formed());
    assert!(Value::Vec(vec![good.clone(), Value::I64(1)]).is_well_formed());
    assert!(!Value::Vec(vec![good.clone(), bad.clone()]).is_well_formed());
    assert!(!Value::Tuple(vec![bad.clone()]).is_well_formed());
    assert!(!Value::Dictionary(vec![entry("k", bad.clone())]).is_well_formed());
    let range = |end: Value| {
        Value::Range(Range { closed: false, start: Box::new(Value::I64(0)), end: Box::new(end) })
    };
    assert!(range(good.clone()).is_well_formed());
    assert!(!range(bad.clone()).is_well_formed());
    // The arguments of the items of a pipeline count too.
    let with = |argument: Value| Pipeline {
        items: vec![
            Arc::new(Item::ToLowerCase(ToLowerCaseItem::new())),
            Arc::new(Item::Prepend(PrependItem::from_value(argument))),
        ],
    };
    assert!(with(good.clone()).is_well_formed());
    assert!(!with(bad.clone()).is_well_formed());
    assert!(Value::Pipeline(with(good.clone())).is_well_formed());
    assert!(!Value::Pipeline(with(bad.clone())).is_well_formed());
    assert!(Item::QueryRaw(QueryRawItem::new(good)).is_well_formed());
    assert!(!Item::QueryRaw(QueryRawItem::new(bad)).is_well_formed());
}

#[test]
fn resolving_a_dictionary_keeps_its_keys() {
    let lower = Pipeline { items: vec![Arc::new(Item::ToLowerCase(ToLowerCaseItem::new()))] };
    let ctx = Ctx::initial_state_with_value(text("ABC"));
    let value = Value::Dictionary(vec![
        ("first".to_string(), Value::Pipeline(lower)),
        ("second".to_string(), Value::I64(2)),
    ]);
    assert!(value.is_well_formed());
    match value.resolve(&ctx, &vec![], 0).step {
        Step::Done(out) => {
            assert!(out.is_well_formed());
            match out {
                Value::Dictionary(entries) => {
                    let keys: Vec<&str> = entries.iter().map(|e| e.0.as_str()).collect();
                    assert_eq!(keys, vec!["first", "second"]);
                    assert_eq!(entries[0].1.as_str(), Some("abc"));
                }
                other => panic!("{:?}", other),
            }
        }
        other => panic!("{:?}", other),
    }
}
