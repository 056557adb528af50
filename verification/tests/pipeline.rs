use std::sync::Arc;
use teo::context::{Ctx, Intent, PathItem};
use teo::error::{Error, ErrorType};
use teo::item::Item;
use teo::items::filter::FilterItem;
use teo::items::gte::GteItem;
use teo::items::if_item::IfItem;
use teo::items::is_alphabetic::IsAlphabeticItem;
use teo::items::is_null::IsNullItem;
use teo::items::prepend::PrependItem;
use teo::items::print::PrintItem;
use teo::items::query_raw::QueryRawItem;
use teo::items::to_lower_case::ToLowerCaseItem;
use teo::items::to_title_case::ToTitleCaseItem;
use teo::modifiers::{WhenManyResultsModifier, WhenNestedManyResultsModifier};
use teo::pipeline::Pipeline;
use teo::transcript::{Reply, Request, Run, Step};
use teo::value::Value;

fn text(s: &str) -> Value {
    Value::String(s.to_string())
}

fn numbers(ns: &[i64]) -> Value {
    Value::Vec(ns.iter().map(|n| Value::I64(*n)).collect())
}

fn as_numbers(value: &Value) -> Vec<i64> {
    value.as_vec().unwrap().iter().map(|v| v.as_i64().unwrap()).collect()
}

fn start(value: Value) -> Ctx {
    Ctx::initial_state_with_value(value)
}

fn pipeline(items: Vec<Item>) -> Pipeline {
    Pipeline { items: items.into_iter().map(Arc::new).collect() }
}

fn lower() -> Item {
    Item::ToLowerCase(ToLowerCaseItem::new())
}

fn gte(n: i64) -> Item {
    Item::Gte(GteItem::new(n))
}

fn query(q: &str) -> Item {
    Item::QueryRaw(QueryRawItem::new(text(q)))
}

fn failing_fatally() -> Pipeline {
    pipeline(vec![lower()])
}

fn value_of(run: Run<Value>) -> Value {
    match run.step {
        Step::Done(value) => value,
        other => panic!("the run did not end: {:?}", other),
    }
}

fn ctx_of(run: Run<Ctx>) -> Ctx {
    match run.step {
        Step::Done(ctx) => ctx,
        other => panic!("the run did not end: {:?}", other),
    }
}

fn error_of<T: std::fmt::Debug>(run: Run<T>) -> Error {
    match run.step {
        Step::Failed(error) => error,
        other => panic!("the run did not fail: {:?}", other),
    }
}

fn request_of<T: std::fmt::Debug>(run: Run<T>) -> Request {
    match run.step {
        Step::Suspended(request) => request,
        other => panic!("the run did not stop: {:?}", other),
    }
}

#[test]
fn a_new_pipeline_is_empty() {
    let p = Pipeline::new();
    assert!(!p.has_any_items());
    assert!(pipeline(vec![lower()]).has_any_items());
    let out = value_of(p.process(start(text("Ab")), &vec![], 0));
    assert_eq!(out.as_str(), Some("Ab"));
}

#[test]
fn lowercase_pipeline_on_a_string() {
    let p = pipeline(vec![lower()]);
    let out = value_of(p.process(start(text("  ABC")), &vec![], 0));
    assert_eq!(out.as_str(), Some("  abc"));
}

#[test]
fn lowercase_pipeline_on_null() {
    let p = pipeline(vec![lower()]);
    let error = error_of(p.process(start(Value::Null), &vec![], 0));
    assert_eq!(error.kind, ErrorType::InternalServerError);
}

#[test]
fn filter_keeps_what_passes() {
    let p = pipeline(vec![Item::Filter(FilterItem::new(pipeline(vec![gte(3)])))]);
    let out = value_of(p.process(start(numbers(&[1, 2, 3, 4])), &vec![], 0));
    assert_eq!(as_numbers(&out), vec![3, 4]);
}

#[test]
fn filter_keeps_the_order() {
    let item = FilterItem::new(pipeline(vec![gte(2)]));
    let out = ctx_of(item.call(start(numbers(&[5, 1, 2, 0, 9, 2])), &vec![], 0));
    assert_eq!(as_numbers(&out.value), vec![5, 2, 9, 2]);
}

#[test]
fn filter_of_the_empty_sequence() {
    let item = FilterItem::new(pipeline(vec![query("never sent")]));
    let run = item.call(start(numbers(&[])), &vec![], 0);
    assert_eq!(run.next, 0);
    assert_eq!(as_numbers(&ctx_of(run).value), Vec::<i64>::new());
}

#[test]
fn filter_stops_at_the_first_fatal_failure() {
    // The element at position 1 is no number: comparing it is fatal. The
    // elements after it would each send a query; none is sent.
    let sub = pipeline(vec![gte(0), query("seen")]);
    let item = FilterItem::new(sub);
    let elements = Value::Vec(vec![Value::I64(1), text("x"), Value::I64(2), Value::I64(3)]);
    let replies = vec![Reply::QueryResult(Ok(Value::Null))];
    let run = item.call(start(elements), &replies, 0);
    assert_eq!(run.next, 1);
    let error = error_of(run);
    assert_eq!(error.kind, ErrorType::InternalServerError);
    assert!(matches!(&error.path[..], [PathItem::Index(1)]));
}

#[test]
fn filter_gives_each_element_its_path() {
    let item = FilterItem::new(pipeline(vec![Item::Print(PrintItem::new(None))]));
    let ctx = start(numbers(&[7, 8])).with_path(vec![PathItem::Key("ids".to_string())]);
    let run = item.call(ctx.clone(), &vec![], 0);
    match request_of(run) {
        Request::Print { label, value } => {
            assert_eq!(label, None);
            assert_eq!(value.as_i64(), Some(7));
        }
        other => panic!("unexpected request {:?}", other),
    }
    let sub = pipeline(vec![Item::IsAlphabetic(IsAlphabeticItem::new())]);
    let error = error_of(FilterItem::new(sub).call(ctx, &vec![], 0));
    assert!(matches!(&error.path[..], [PathItem::Key(k), PathItem::Index(0)] if k == "ids"));
}

#[test]
fn filter_of_a_non_sequence_is_fatal() {
    let item = FilterItem::new(pipeline(vec![gte(3)]));
    let error = error_of(item.call(start(text("abc")), &vec![], 0));
    assert_eq!(error.kind, ErrorType::InternalServerError);
    assert_eq!(error.message, "filter: value is not vector");
}

#[test]
fn items_run_in_order() {
    let p = pipeline(vec![
        Item::Prepend(PrependItem::new("FOO_")),
        lower(),
        Item::ToTitleCase(ToTitleCaseItem::new()),
    ]);
    let out = value_of(p.process(start(text("BAR")), &vec![], 0));
    assert_eq!(out.as_str(), Some("Foo Bar"));
}

#[test]
fn a_failure_keeps_the_next_item_from_running() {
    // The second item would send a query. The first fails: no request is made.
    let p = pipeline(vec![Item::IsNull(IsNullItem::new()), query("never sent")]);
    let run = p.process(start(Value::I64(1)), &vec![], 0);
    assert_eq!(run.next, 0);
    assert_eq!(error_of(run).kind, ErrorType::ValidationError);
    // Where the first passes, the second runs and asks.
    let run = p.process(start(Value::Null), &vec![], 0);
    assert!(matches!(request_of(run), Request::QueryRaw { .. }));
}

#[test]
fn two_items_compose() {
    let first = Item::Prepend(PrependItem::new("A"));
    let second = lower();
    let by_hand = match first.call(start(text("B")), &vec![], 0).step {
        Step::Done(ctx) => ctx_of(second.call(ctx, &vec![], 0)),
        other => panic!("{:?}", other),
    };
    let p = pipeline(vec![Item::Prepend(PrependItem::new("A")), lower()]);
    let whole = ctx_of(p.process_with_ctx_result(start(text("B")), &vec![], 0));
    assert_eq!(whole.value.as_str(), by_hand.value.as_str());
    assert_eq!(whole.value.as_str(), Some("ab"));
}

#[test]
fn process_with_ctx_result_keeps_the_frame() {
    let p = pipeline(vec![lower()]);
    let ctx = start(text("AB"))
        .with_path(vec![PathItem::Key("name".to_string()), PathItem::Index(2)])
        .with_intent(Intent::NestedManyResult);
    let out = ctx_of(p.process_with_ctx_result(ctx, &vec![], 0));
    assert_eq!(out.value.as_str(), Some("ab"));
    assert_eq!(out.path.len(), 2);
    assert_eq!(out.intent, Intent::NestedManyResult);
}

#[test]
fn query_raw_stops_until_it_is_answered() {
    let p = pipeline(vec![query("named in the schema"), Item::Prepend(PrependItem::new(0i64))]);
    let mut replies: Vec<Reply> = vec![];
    let run = p.process(start(text("select 1")), &replies, 0);
    assert_eq!(run.next, 0);
    match request_of(run) {
        Request::QueryRaw { query } => assert_eq!(query.as_str(), Some("select 1")),
        other => panic!("unexpected request {:?}", other),
    }
    replies.push(Reply::QueryResult(Ok(numbers(&[1]))));
    let run = p.process(start(text("select 1")), &replies, 0);
    assert_eq!(run.next, 1);
    assert_eq!(as_numbers(&value_of(run)), vec![0, 1]);
}

#[test]
fn query_raw_sends_the_value_of_the_frame() {
    // What is sent is the value the item finds, whatever it was built with.
    let item = QueryRawItem::new(text("named in the schema"));
    for value in [text("select 2"), Value::I64(7), Value::Null] {
        let shown = format!("{:?}", value);
        match request_of(item.call(start(value), &vec![], 0)) {
            Request::QueryRaw { query } => assert_eq!(format!("{:?}", query), shown),
            other => panic!("unexpected request {:?}", other),
        }
    }
    // The query a step before it leaves in the frame is the one that goes out.
    let p = pipeline(vec![Item::Prepend(PrependItem::new("select ")), query("unused")]);
    match request_of(p.process(start(text("3")), &vec![], 0)) {
        Request::QueryRaw { query } => assert_eq!(query.as_str(), Some("select 3")),
        other => panic!("unexpected request {:?}", other),
    }
}

#[test]
fn query_raw_keeps_the_rest_of_the_frame() {
    let item = QueryRawItem::new(Value::Null);
    let ctx = start(text("select 1"))
        .with_path(vec![PathItem::Key("rows".to_string())])
        .with_intent(Intent::ManyResult);
    let replies = vec![Reply::QueryResult(Ok(Value::I64(4)))];
    let out = ctx_of(item.call(ctx, &replies, 0));
    assert_eq!(out.value.as_i64(), Some(4));
    assert!(matches!(&out.path[..], [PathItem::Key(k)] if k == "rows"));
    assert_eq!(out.object, None);
    assert_eq!(out.intent, Intent::ManyResult);
}

#[test]
fn query_raw_hands_on_the_failure_of_the_connection() {
    let p = pipeline(vec![query("select 1"), lower()]);
    let failure = Error::internal_server_error(vec![], "connection lost");
    let replies = vec![Reply::QueryResult(Err(failure))];
    let error = error_of(p.process(start(Value::Null), &replies, 0));
    assert_eq!(error.kind, ErrorType::InternalServerError);
    assert_eq!(error.message, "connection lost");
    let denied = Error::validation_error(vec![PathItem::Index(3)], "no such row");
    let replies = vec![Reply::QueryResult(Err(denied))];
    let error = error_of(p.process(start(Value::Null), &replies, 0));
    assert_eq!(error.kind, ErrorType::ValidationError);
    assert_eq!(error.message, "no such row");
    assert!(matches!(&error.path[..], [PathItem::Index(3)]));
}

#[test]
fn a_query_needs_an_answer() {
    let p = pipeline(vec![query("select 1")]);
    let error = error_of(p.process(start(Value::Null), &vec![Reply::Printed], 0));
    assert_eq!(error.kind, ErrorType::InternalServerError);
    assert_eq!(error.message, "queryRaw: the reply is no answer");
}

#[test]
fn a_print_never_fails() {
    let p = pipeline(vec![Item::Print(PrintItem::new(None))]);
    let replies = vec![Reply::QueryResult(Ok(Value::I64(1)))];
    let run = p.process(start(Value::Null), &replies, 0);
    assert_eq!(run.next, 1);
    assert!(value_of(run).is_null());
}

#[test]
fn replies_are_read_from_the_given_position() {
    let p = pipeline(vec![query("q")]);
    let replies = vec![Reply::Printed, Reply::QueryResult(Ok(Value::I64(5)))];
    let run = p.process(start(Value::Null), &replies, 1);
    assert_eq!(run.next, 2);
    assert_eq!(value_of(run).as_i64(), Some(5));
    let run = p.process(start(Value::Null), &replies, 9);
    assert_eq!(run.next, 9);
    assert!(matches!(request_of(run), Request::QueryRaw { .. }));
}

#[test]
fn print_hands_the_frame_on() {
    let item = PrintItem::new(Some(text("seen")));
    let run = item.call(start(Value::I64(3)), &vec![], 0);
    match request_of(run) {
        Request::Print { label, value } => {
            assert_eq!(label.as_deref(), Some("seen"));
            assert_eq!(value.as_i64(), Some(3));
        }
        other => panic!("unexpected request {:?}", other),
    }
    let run = item.call(start(Value::I64(3)), &vec![Reply::Printed], 0);
    assert_eq!(run.next, 1);
    assert_eq!(ctx_of(run).value.as_i64(), Some(3));
}

#[test]
fn print_with_a_label_that_is_no_string_is_fatal() {
    let item = PrintItem::new(Some(Value::I64(1)));
    let error = error_of(item.call(start(Value::Null), &vec![], 0));
    assert_eq!(error.kind, ErrorType::InternalServerError);
    assert_eq!(error.message, "print: label is not string");
}

#[test]
fn print_resolves_a_label_pipeline() {
    let label = Value::Pipeline(pipeline(vec![lower()]));
    let item = PrintItem::new(Some(label));
    match request_of(item.call(start(text("ABC")), &vec![], 0)) {
        Request::Print { label, .. } => assert_eq!(label.as_deref(), Some("abc")),
        other => panic!("unexpected request {:?}", other),
    }
}

#[test]
fn if_with_plain_conditions() {
    let yes = IfItem::new(Value::Bool(true), Some(text("then")), Some(text("else")));
    assert_eq!(ctx_of(yes.call(start(Value::Null), &vec![], 0)).value.as_str(), Some("then"));
    let no = IfItem::new(Value::Bool(false), Some(text("then")), Some(text("else")));
    assert_eq!(ctx_of(no.call(start(Value::Null), &vec![], 0)).value.as_str(), Some("else"));
    let null = IfItem::new(Value::Null, Some(text("then")), Some(text("else")));
    assert_eq!(ctx_of(null.call(start(Value::Null), &vec![], 0)).value.as_str(), Some("else"));
}

#[test]
fn if_without_a_branch_passes_the_frame() {
    let item = IfItem::new(Value::Bool(true), None, Some(text("else")));
    assert_eq!(ctx_of(item.call(start(Value::I64(7)), &vec![], 0)).value.as_i64(), Some(7));
    let item = IfItem::new(Value::Bool(false), Some(text("then")), None);
    assert_eq!(ctx_of(item.call(start(Value::I64(7)), &vec![], 0)).value.as_i64(), Some(7));
}

#[test]
fn if_with_a_condition_pipeline() {
    let cond = || Value::Pipeline(pipeline(vec![gte(3)]));
    let item = IfItem::new(cond(), Some(text("big")), Some(text("small")));
    assert_eq!(ctx_of(item.call(start(Value::I64(5)), &vec![], 0)).value.as_str(), Some("big"));
    // The condition fails with a validation failure: the else branch.
    assert_eq!(ctx_of(item.call(start(Value::I64(1)), &vec![], 0)).value.as_str(), Some("small"));
    // No else branch: the frame as it is.
    let item = IfItem::new(cond(), Some(text("big")), None);
    assert_eq!(ctx_of(item.call(start(Value::I64(1)), &vec![], 0)).value.as_i64(), Some(1));
}

#[test]
fn if_with_a_condition_that_fails_fatally() {
    let cond = Value::Pipeline(failing_fatally());
    let branch = || Some(Value::Pipeline(pipeline(vec![query("never sent")])));
    let item = IfItem::new(cond, branch(), branch());
    let run = item.call(start(Value::I64(1)), &vec![], 0);
    assert_eq!(run.next, 0);
    let error = error_of(run);
    assert_eq!(error.kind, ErrorType::InternalServerError);
    assert_eq!(error.message, "lowercase: value is not string");
}

#[test]
fn if_runs_a_branch_pipeline_on_the_frame() {
    let branch = Value::Pipeline(pipeline(vec![lower()]));
    let item = IfItem::new(Value::Bool(true), Some(branch), None);
    let ctx = start(text("ABC")).with_path(vec![PathItem::Key("k".to_string())]);
    let out = ctx_of(item.call(ctx, &vec![], 0));
    assert_eq!(out.value.as_str(), Some("abc"));
    assert_eq!(out.path.len(), 1);
    // Any failure of the branch is the outcome.
    let branch = Value::Pipeline(pipeline(vec![Item::IsNull(IsNullItem::new())]));
    let item = IfItem::new(Value::Bool(true), Some(branch), None);
    assert_eq!(
        error_of(item.call(start(text("x")), &vec![], 0)).kind,
        ErrorType::ValidationError
    );
}

#[test]
fn if_with_another_condition_is_fatal() {
    let item = IfItem::new(Value::I64(1), Some(text("then")), None);
    let error = error_of(item.call(start(Value::Null), &vec![], 0));
    assert_eq!(error.kind, ErrorType::InternalServerError);
    assert_eq!(error.message, "if: condition is not null, bool or pipeline");
}

#[test]
fn permission_allows_where_the_pipeline_ends() {
    let p = pipeline(vec![gte(3)]);
    let run = p.process_into_permission_result(start(Value::I64(3)), &vec![], 0);
    assert!(matches!(run.step, Step::Done(())));
}

#[test]
fn permission_denies_without_the_reason() {
    let p = pipeline(vec![Item::IsNull(IsNullItem::new())]);
    let ctx = start(Value::I64(1)).with_path(vec![PathItem::Key("owner".to_string())]);
    let error = error_of(p.process_into_permission_result(ctx, &vec![], 0));
    assert_eq!(error.kind, ErrorType::PermissionError);
    assert_eq!(error.message, "permission denied");
    assert!(!error.message.contains("isNull"));
    assert!(matches!(&error.path[..], [PathItem::Key(k)] if k == "owner"));
}

#[test]
fn permission_denies_at_the_path_it_started_from() {
    // The failure comes from an element, two levels down; the denial is at
    // the path of the frame the check was given.
    let inner = pipeline(vec![Item::IsAlphabetic(IsAlphabeticItem::new())]);
    let reason = Error::validation_error(vec![PathItem::Index(9)], "x");
    let p = pipeline(vec![query("who"), Item::Filter(FilterItem::new(inner))]);
    let ctx = start(Value::Null).with_path(vec![PathItem::Key("owner".to_string())]);
    let replies = vec![Reply::QueryResult(Err(reason))];
    let error = error_of(p.process_into_permission_result(ctx, &replies, 0));
    assert_eq!(error.kind, ErrorType::PermissionError);
    assert_eq!(error.message, "permission denied");
    assert!(matches!(&error.path[..], [PathItem::Key(k)] if k == "owner"));
}

#[test]
fn permission_hands_on_a_fatal_failure() {
    let error = error_of(failing_fatally().process_into_permission_result(
        start(Value::Null),
        &vec![],
        0,
    ));
    assert_eq!(error.kind, ErrorType::InternalServerError);
    assert_eq!(error.message, "lowercase: value is not string");
}

#[test]
fn pipelines_are_never_equal() {
    let a = pipeline(vec![lower(), gte(3)]);
    let b = pipeline(vec![lower(), gte(3)]);
    assert!(a != b);
    assert!(!(a == b));
    let c = a.clone();
    assert!(a != c);
    assert!(Pipeline::new() != Pipeline::new());
}

#[test]
fn a_cloned_pipeline_runs_the_same_items() {
    let a = pipeline(vec![lower(), Item::Prepend(PrependItem::new("x"))]);
    let b = a.clone();
    assert_eq!(b.items.len(), 2);
    assert!(Arc::ptr_eq(&a.items[0], &b.items[0]));
    assert!(Arc::ptr_eq(&a.items[1], &b.items[1]));
    let out = value_of(b.process(start(text("AB")), &vec![], 0));
    assert_eq!(out.as_str(), Some("xab"));
}

#[test]
fn when_many_results_runs_under_its_intent_only() {
    let m = WhenManyResultsModifier::new(pipeline(vec![lower()]));
    assert_eq!(m.name(), "whenManyResults");
    let many = start(text("AB")).with_intent(Intent::ManyResult);
    let routed = m.call(many, &vec![], 0);
    assert!(matches!(routed.status, Step::Done(())));
    assert_eq!(routed.ctx.value.as_str(), Some("ab"));
    for intent in [Intent::SingleResult, Intent::NestedManyResult] {
        let routed = m.call(start(text("AB")).with_intent(intent), &vec![], 0);
        assert!(matches!(routed.status, Step::Done(())));
        assert_eq!(routed.ctx.value.as_str(), Some("AB"));
        assert_eq!(routed.next, 0);
    }
}

#[test]
fn when_nested_many_results_runs_under_its_intent_only() {
    let m = WhenNestedManyResultsModifier::new(pipeline(vec![lower()]));
    assert_eq!(m.name(), "whenNestedManyResults");
    let nested = start(text("AB")).with_intent(Intent::NestedManyResult);
    assert_eq!(m.call(nested, &vec![], 0).ctx.value.as_str(), Some("ab"));
    for intent in [Intent::SingleResult, Intent::ManyResult] {
        let routed = m.call(start(text("AB")).with_intent(intent), &vec![], 0);
        assert_eq!(routed.ctx.value.as_str(), Some("AB"));
    }
}

#[test]
fn a_modifier_hands_the_failure_on_beside_the_frame() {
    let m = WhenManyResultsModifier::new(pipeline(vec![Item::IsNull(IsNullItem::new())]));
    let routed = m.call(start(text("AB")).with_intent(Intent::ManyResult), &vec![], 0);
    assert_eq!(routed.ctx.value.as_str(), Some("AB"));
    match routed.status {
        Step::Failed(error) => assert_eq!(error.kind, ErrorType::ValidationError),
        other => panic!("{:?}", other),
    }
    // Under another intent the same pipeline is not run at all.
    let routed = m.call(start(text("AB")), &vec![], 0);
    assert!(matches!(routed.status, Step::Done(())));
}

#[test]
fn a_modifier_stops_with_the_request_of_its_pipeline() {
    let m = WhenNestedManyResultsModifier::new(pipeline(vec![query("q")]));
    let ctx = start(Value::Null).with_intent(Intent::NestedManyResult);
    let routed = m.call(ctx.clone(), &vec![], 0);
    assert!(matches!(routed.status, Step::Suspended(Request::QueryRaw { .. })));
    let routed = m.call(ctx, &vec![Reply::QueryResult(Ok(Value::I64(1)))], 0);
    assert_eq!(routed.ctx.value.as_i64(), Some(1));
    assert_eq!(routed.next, 1);
}

fn shared_between_threads<T: Send + Sync>() {}

#[test]
fn pipelines_can_be_shared_between_threads() {
    shared_between_threads::<Pipeline>();
    shared_between_threads::<Item>();
    shared_between_threads::<Value>();
    shared_between_threads::<WhenManyResultsModifier>();
}

#[test]
fn more_replies_change_nothing_that_was_reached() {
    let p = pipeline(vec![
        query("one"),
        Item::Print(PrintItem::new(None)),
        Item::If(IfItem::new(
            Value::Pipeline(pipeline(vec![gte(3)])),
            Some(Value::Pipeline(pipeline(vec![query("two")]))),
            None,
        )),
    ]);
    let all = vec![
        Reply::QueryResult(Ok(Value::I64(5))),
        Reply::Printed,
        Reply::QueryResult(Ok(Value::I64(9))),
        Reply::Printed,
    ];
    // With each reply more the run gets further, and stops where the replies end.
    let mut asked = vec![];
    for given in 0..3 {
        let replies: Vec<Reply> = all[..given].to_vec();
        let run = p.process(start(text("first")), &replies, 0);
        assert_eq!(run.next, given);
        asked.push(match request_of(run) {
            Request::QueryRaw { query } => format!("{:?}", query),
            Request::Print { .. } => "print".to_string(),
        });
    }
    // The second query goes out with what the first one answered.
    assert_eq!(asked, vec![format!("{:?}", text("first")), "print".to_string(), "I64(5)".to_string()]);
    // Once it has ended, a reply more is not read.
    let three: Vec<Reply> = all[..3].to_vec();
    let ended = p.process(start(Value::Null), &three, 0);
    assert_eq!(ended.next, 3);
    assert_eq!(value_of(ended).as_i64(), Some(9));
    let more = p.process(start(Value::Null), &all, 0);
    assert_eq!(more.next, 3);
    assert_eq!(value_of(more).as_i64(), Some(9));
}
