//! The mathematical model of the engine's data: what a value, a frame, a
//! failure, an item and a pipeline are, as sequences and plain values. Every
//! contract of the crate is stated over these models.

use vstd::prelude::*;
use crate::context::{Ctx, Intent, PathItem};
use crate::decimal::DecimalModel;
use crate::error::{Error, ErrorType};
use crate::item::Item;
use crate::items::ctx_self::SelfItem;
use crate::items::filter::FilterItem;
use crate::items::gte::GteItem;
use crate::items::if_item::IfItem;
use crate::items::is_alphabetic::IsAlphabeticItem;
use crate::items::is_email::IsEmailItem;
use crate::items::is_null::IsNullItem;
use crate::items::pad_end::PadEndItem;
use crate::items::prepend::PrependItem;
use crate::items::print::PrintItem;
use crate::items::query_raw::QueryRawItem;
use crate::items::to_lower_case::ToLowerCaseItem;
use crate::items::to_title_case::ToTitleCaseItem;
use crate::items::truncate::TruncateItem;
use crate::pipeline::Pipeline;
use crate::transcript::{Reply, Request, Run, Step};
use crate::value::{Object, Range, Value};

verus! {

/// What a [`Value`] is.
pub enum ValueModel {
    Null,
    Bool(bool),
    I32(i32),
    I64(i64),
    F32(u32),
    F64(u64),
    Decimal(DecimalModel),
    String(Seq<char>),
    Date(i32),
    DateTime(i64),
    Vec(Seq<ValueModel>),
    Dictionary(Seq<(Seq<char>, ValueModel)>),
    RawEnumChoice(Seq<char>),
    RawOptionChoice(u32),
    Object(Object),
    RegExp(Seq<char>),
    Range(RangeModel),
    Tuple(Seq<ValueModel>),
    Pipeline(Seq<ItemModel>),
}

/// What a [`Range`] is.
pub struct RangeModel {
    pub closed: bool,
    pub start: Box<ValueModel>,
    pub end: Box<ValueModel>,
}

/// What an [`Item`] is: its name and the arguments it was built with.
pub enum ItemModel {
    Prepend { argument: ValueModel },
    Print { label: Option<ValueModel> },
    If { cond: ValueModel, then_branch: Option<ValueModel>, else_branch: Option<ValueModel> },
    CtxSelf,
    QueryRaw { query: ValueModel },
    PadEnd { width: ValueModel, fill: char },
    ToLowerCase,
    ToTitleCase,
    IsAlphabetic,
    IsEmail { pattern: Seq<char> },
    Gte { argument: ValueModel },
    IsNull,
    Filter { pipeline: Seq<ItemModel> },
    Truncate { argument: ValueModel },
}

/// What a [`PathItem`] is.
pub enum PathItemModel {
    Key(Seq<char>),
    Index(nat),
}

/// What an [`Error`] is.
pub struct ErrorModel {
    pub kind: ErrorType,
    pub message: Seq<char>,
    pub path: Seq<PathItemModel>,
}

impl ErrorModel {
    pub open spec fn internal(path: Seq<PathItemModel>, message: Seq<char>) -> ErrorModel {
        ErrorModel { kind: ErrorType::InternalServerError, message, path }
    }

    pub open spec fn invalid(path: Seq<PathItemModel>, reason: Seq<char>) -> ErrorModel {
        ErrorModel { kind: ErrorType::ValidationError, message: reason, path }
    }

    pub open spec fn denied(path: Seq<PathItemModel>, message: Seq<char>) -> ErrorModel {
        ErrorModel { kind: ErrorType::PermissionError, message, path }
    }

    /// A fatal failure aborts whatever encloses it; any other one may be absorbed.
    pub open spec fn is_fatal(self) -> bool {
        self.kind == ErrorType::InternalServerError
    }
}

/// What a [`Ctx`] is.
pub struct CtxModel {
    pub value: ValueModel,
    pub path: Seq<PathItemModel>,
    pub object: Option<Object>,
    pub intent: Intent,
}

impl CtxModel {
    pub open spec fn initial(value: ValueModel) -> CtxModel {
        CtxModel { value, path: Seq::empty(), object: None, intent: Intent::SingleResult }
    }

    pub open spec fn with_value(self, value: ValueModel) -> CtxModel {
        CtxModel { value, ..self }
    }

    pub open spec fn with_path(self, path: Seq<PathItemModel>) -> CtxModel {
        CtxModel { path, ..self }
    }

    pub open spec fn with_object(self, object: Option<Object>) -> CtxModel {
        CtxModel { object, ..self }
    }

    pub open spec fn with_intent(self, intent: Intent) -> CtxModel {
        CtxModel { intent, ..self }
    }

    /// The frame of the element at `index` of the sequence under evaluation.
    pub open spec fn element(self, index: nat, value: ValueModel) -> CtxModel {
        CtxModel { value, path: self.path.push(PathItemModel::Index(index)), ..self }
    }

    pub open spec fn fatal(self, message: Seq<char>) -> ErrorModel {
        ErrorModel::internal(self.path, message)
    }

    pub open spec fn invalid(self, reason: Seq<char>) -> ErrorModel {
        ErrorModel::invalid(self.path, reason)
    }
}

/// What a [`Request`] is.
pub enum RequestModel {
    Print { label: Option<Seq<char>>, value: ValueModel },
    QueryRaw { query: ValueModel },
}

/// What a [`Reply`] is.
pub enum ReplyModel {
    Printed,
    QueryResult(Result<ValueModel, ErrorModel>),
}

/// What a [`Step`] is.
pub enum StepModel<T> {
    Done(T),
    Failed(ErrorModel),
    Suspended(RequestModel),
}

/// What a [`Run`] is.
pub struct RunModel<T> {
    pub step: StepModel<T>,
    pub next: nat,
}

pub open spec fn values_model(values: Seq<Value>) -> Seq<ValueModel>
    decreases values,
{
    Seq::new(
        values.len(),
        |i: int|
            if 0 <= i < values.len() {
                value_model(values[i])
            } else {
                ValueModel::Null
            },
    )
}

pub open spec fn entries_model(entries: Seq<(String, Value)>) -> Seq<(Seq<char>, ValueModel)>
    decreases entries,
{
    Seq::new(
        entries.len(),
        |i: int|
            if 0 <= i < entries.len() {
                (entries[i].0@, value_model(entries[i].1))
            } else {
                (Seq::empty(), ValueModel::Null)
            },
    )
}

pub open spec fn value_model(value: Value) -> ValueModel
    decreases value,
{
    match value {
        Value::Null => ValueModel::Null,
        Value::Bool(b) => ValueModel::Bool(b),
        Value::I32(i) => ValueModel::I32(i),
        Value::I64(i) => ValueModel::I64(i),
        Value::F32(bits) => ValueModel::F32(bits),
        Value::F64(bits) => ValueModel::F64(bits),
        Value::Decimal(decimal) => ValueModel::Decimal(decimal@),
        Value::String(s) => ValueModel::String(s@),
        Value::Date(days) => ValueModel::Date(days),
        Value::DateTime(millis) => ValueModel::DateTime(millis),
        Value::Vec(values) => ValueModel::Vec(values_model(values@)),
        Value::Dictionary(entries) => ValueModel::Dictionary(entries_model(entries@)),
        Value::RawEnumChoice(name) => ValueModel::RawEnumChoice(name@),
        Value::RawOptionChoice(bits) => ValueModel::RawOptionChoice(bits),
        Value::Object(object) => ValueModel::Object(object),
        Value::RegExp(pattern) => ValueModel::RegExp(pattern@),
        Value::Range(range) => ValueModel::Range(
            RangeModel {
                closed: range.closed,
                start: Box::new(value_model(*range.start)),
                end: Box::new(value_model(*range.end)),
            },
        ),
        Value::Tuple(values) => ValueModel::Tuple(values_model(values@)),
        Value::Pipeline(pipeline) => ValueModel::Pipeline(pipeline_model(pipeline)),
    }
}

pub open spec fn option_value_model(value: Option<Value>) -> Option<ValueModel>
    decreases value,
{
    match value {
        Some(v) => Some(value_model(v)),
        None => None,
    }
}

pub open spec fn pipeline_model(pipeline: Pipeline) -> Seq<ItemModel>
    decreases pipeline,
{
    Seq::new(
        pipeline.items@.len(),
        |i: int|
            if 0 <= i < pipeline.items@.len() {
                item_model(*pipeline.items@[i])
            } else {
                ItemModel::IsNull
            },
    )
}

pub open spec fn item_model(item: Item) -> ItemModel
    decreases item,
{
    match item {
        Item::Prepend(it) => ItemModel::Prepend { argument: value_model(it.argument) },
        Item::Print(it) => ItemModel::Print { label: option_value_model(it.label) },
        Item::If(it) => ItemModel::If {
            cond: value_model(it.cond),
            then_branch: option_value_model(it.then_branch),
            else_branch: option_value_model(it.else_branch),
        },
        Item::CtxSelf(_) => ItemModel::CtxSelf,
        Item::QueryRaw(it) => ItemModel::QueryRaw { query: value_model(it.query) },
        Item::PadEnd(it) => ItemModel::PadEnd { width: value_model(it.width), fill: it.fill },
        Item::ToLowerCase(_) => ItemModel::ToLowerCase,
        Item::ToTitleCase(_) => ItemModel::ToTitleCase,
        Item::IsAlphabetic(_) => ItemModel::IsAlphabetic,
        Item::IsEmail(it) => ItemModel::IsEmail { pattern: it.pattern@ },
        Item::Gte(it) => ItemModel::Gte { argument: value_model(it.argument) },
        Item::IsNull(_) => ItemModel::IsNull,
        Item::Filter(it) => ItemModel::Filter { pipeline: pipeline_model(it.pipeline) },
        Item::Truncate(it) => ItemModel::Truncate { argument: value_model(it.argument) },
    }
}

/// What the result of an item that needs no reply is.
pub open spec fn outcome_model(result: Result<Ctx, Error>) -> Result<CtxModel, ErrorModel> {
    match result {
        Ok(ctx) => Ok(ctx@),
        Err(error) => Err(error@),
    }
}

pub open spec fn label_model(label: Option<String>) -> Option<Seq<char>> {
    match label {
        Some(text) => Some(text@),
        None => None,
    }
}

pub open spec fn path_model(path: Seq<PathItem>) -> Seq<PathItemModel> {
    Seq::new(path.len(), |i: int| path[i]@)
}

pub open spec fn replies_model(replies: Seq<Reply>) -> Seq<ReplyModel> {
    Seq::new(replies.len(), |i: int| replies[i]@)
}

impl View for Value {
    type V = ValueModel;

    open spec fn view(&self) -> ValueModel {
        value_model(*self)
    }
}

impl View for Pipeline {
    type V = Seq<ItemModel>;

    open spec fn view(&self) -> Seq<ItemModel> {
        pipeline_model(*self)
    }
}

impl View for Item {
    type V = ItemModel;

    open spec fn view(&self) -> ItemModel {
        item_model(*self)
    }
}

impl View for PrependItem {
    type V = ItemModel;

    open spec fn view(&self) -> ItemModel {
        ItemModel::Prepend { argument: self.argument@ }
    }
}

impl View for PrintItem {
    type V = ItemModel;

    open spec fn view(&self) -> ItemModel {
        ItemModel::Print { label: option_value_model(self.label) }
    }
}

impl View for IfItem {
    type V = ItemModel;

    open spec fn view(&self) -> ItemModel {
        ItemModel::If {
            cond: self.cond@,
            then_branch: option_value_model(self.then_branch),
            else_branch: option_value_model(self.else_branch),
        }
    }
}

impl View for SelfItem {
    type V = ItemModel;

    open spec fn view(&self) -> ItemModel {
        ItemModel::CtxSelf
    }
}

impl View for QueryRawItem {
    type V = ItemModel;

    open spec fn view(&self) -> ItemModel {
        ItemModel::QueryRaw { query: self.query@ }
    }
}

impl View for PadEndItem {
    type V = ItemModel;

    open spec fn view(&self) -> ItemModel {
        ItemModel::PadEnd { width: self.width@, fill: self.fill }
    }
}

impl View for ToLowerCaseItem {
    type V = ItemModel;

    open spec fn view(&self) -> ItemModel {
        ItemModel::ToLowerCase
    }
}

impl View for ToTitleCaseItem {
    type V = ItemModel;

    open spec fn view(&self) -> ItemModel {
        ItemModel::ToTitleCase
    }
}

impl View for IsAlphabeticItem {
    type V = ItemModel;

    open spec fn view(&self) -> ItemModel {
        ItemModel::IsAlphabetic
    }
}

impl View for IsEmailItem {
    type V = ItemModel;

    open spec fn view(&self) -> ItemModel {
        ItemModel::IsEmail { pattern: self.pattern@ }
    }
}

impl View for GteItem {
    type V = ItemModel;

    open spec fn view(&self) -> ItemModel {
        ItemModel::Gte { argument: self.argument@ }
    }
}

impl View for IsNullItem {
    type V = ItemModel;

    open spec fn view(&self) -> ItemModel {
        ItemModel::IsNull
    }
}

impl View for FilterItem {
    type V = ItemModel;

    open spec fn view(&self) -> ItemModel {
        ItemModel::Filter { pipeline: self.pipeline@ }
    }
}

impl View for TruncateItem {
    type V = ItemModel;

    open spec fn view(&self) -> ItemModel {
        ItemModel::Truncate { argument: self.argument@ }
    }
}

impl View for PathItem {
    type V = PathItemModel;

    open spec fn view(&self) -> PathItemModel {
        match self {
            PathItem::Key(k) => PathItemModel::Key(k@),
            PathItem::Index(i) => PathItemModel::Index(*i as nat),
        }
    }
}

impl View for Error {
    type V = ErrorModel;

    open spec fn view(&self) -> ErrorModel {
        ErrorModel { kind: self.kind, message: self.message@, path: path_model(self.path@) }
    }
}

impl View for Ctx {
    type V = CtxModel;

    open spec fn view(&self) -> CtxModel {
        CtxModel {
            value: self.value@,
            path: path_model(self.path@),
            object: self.object,
            intent: self.intent,
        }
    }
}

impl View for Request {
    type V = RequestModel;

    open spec fn view(&self) -> RequestModel {
        match self {
            Request::Print { label, value } => RequestModel::Print {
                label: label_model(*label),
                value: value@,
            },
            Request::QueryRaw { query } => RequestModel::QueryRaw { query: query@ },
        }
    }
}

impl View for Reply {
    type V = ReplyModel;

    open spec fn view(&self) -> ReplyModel {
        match self {
            Reply::Printed => ReplyModel::Printed,
            Reply::QueryResult(Ok(v)) => ReplyModel::QueryResult(Ok(v@)),
            Reply::QueryResult(Err(e)) => ReplyModel::QueryResult(Err(e@)),
        }
    }
}

impl<T: View> View for Step<T> {
    type V = StepModel<T::V>;

    open spec fn view(&self) -> StepModel<T::V> {
        match self {
            Step::Done(t) => StepModel::Done(t@),
            Step::Failed(e) => StepModel::Failed(e@),
            Step::Suspended(r) => StepModel::Suspended(r@),
        }
    }
}

impl<T: View> View for Run<T> {
    type V = RunModel<T::V>;

    open spec fn view(&self) -> RunModel<T::V> {
        RunModel { step: self.step@, next: self.next as nat }
    }
}

} // verus!
