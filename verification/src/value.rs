//! The dynamic value that flows through a pipeline.

use vstd::prelude::*;
use vstd::std_specs::convert::FromSpecImpl;
use crate::context::Ctx;
use crate::decimal::Decimal;
use crate::model::{entries_model, replies_model, values_model, ValueModel};
use crate::pipeline::Pipeline;
use crate::semantics;
use crate::transcript::{Reply, Run, Step};

verus! {

/// A reference to the entity a pipeline is evaluated against.
#[derive(Clone, Copy, Debug, PartialEq, Eq, Structural)]
pub struct Object {
    pub id: u64,
}

/// An interval between two values.
#[derive(Debug)]
pub struct Range {
    pub closed: bool,
    pub start: Box<Value>,
    pub end: Box<Value>,
}

/// Any datum of the system. A value is never changed in place.
///
/// Floats are held as their IEEE 754 bit patterns; a date as days and a
/// date-time as milliseconds since the epoch. A dictionary holds its entries
/// in their order; it is a map, so no key occurs in it twice. That is what
/// makes a value well formed, see [`crate::well_formed`]: `Value::dictionary`
/// makes such a dictionary, `is_well_formed` tells, and evaluation keeps
/// values so.
#[derive(Debug)]
pub enum Value {
    Null,
    Bool(bool),
    I32(i32),
    I64(i64),
    F32(u32),
    F64(u64),
    Decimal(Decimal),
    String(String),
    Date(i32),
    DateTime(i64),
    Vec(Vec<Value>),
    Dictionary(Vec<(String, Value)>),
    RawEnumChoice(String),
    RawOptionChoice(u32),
    Object(Object),
    RegExp(String),
    Range(Range),
    Tuple(Vec<Value>),
    Pipeline(Pipeline),
}

/// A copy of each value, in order.
pub fn clone_values(values: &Vec<Value>) -> (out: Vec<Value>)
    ensures
        values_model(out@) == values_model(values@),
    decreases values,
{
    let mut out: Vec<Value> = Vec::new();
    let mut i: usize = 0;
    while i < values.len()
        invariant
            i <= values.len(),
            out@.len() == i,
            forall|j: int| 0 <= j < i ==> out@[j]@ == values@[j]@,
        decreases values.len() - i,
    {
        out.push(values[i].clone());
        i += 1;
    }
    out
}

/// A copy of each entry, in order.
pub fn clone_entries(entries: &Vec<(String, Value)>) -> (out: Vec<(String, Value)>)
    ensures
        entries_model(out@) == entries_model(entries@),
    decreases entries,
{
    let mut out: Vec<(String, Value)> = Vec::new();
    let mut i: usize = 0;
    while i < entries.len()
        invariant
            i <= entries.len(),
            out@.len() == i,
            forall|j: int|
                0 <= j < i ==> out@[j].0@ == entries@[j].0@ && out@[j].1@ == entries@[j].1@,
        decreases entries.len() - i,
    {
        let entry = &entries[i];
        out.push((entry.0.clone(), entry.1.clone()));
        i += 1;
    }
    out
}

impl Clone for Value {
    fn clone(&self) -> (v: Value)
        ensures
            v@ == self@,
        decreases self,
    {
        match self {
            Value::Null => Value::Null,
            Value::Bool(b) => Value::Bool(*b),
            Value::I32(i) => Value::I32(*i),
            Value::I64(i) => Value::I64(*i),
            Value::F32(bits) => Value::F32(*bits),
            Value::F64(bits) => Value::F64(*bits),
            Value::Decimal(decimal) => Value::Decimal(decimal.clone()),
            Value::String(s) => Value::String(s.clone()),
            Value::Date(days) => Value::Date(*days),
            Value::DateTime(millis) => Value::DateTime(*millis),
            Value::Vec(values) => Value::Vec(clone_values(values)),
            Value::Dictionary(entries) => Value::Dictionary(clone_entries(entries)),
            Value::RawEnumChoice(name) => Value::RawEnumChoice(name.clone()),
            Value::RawOptionChoice(bits) => Value::RawOptionChoice(*bits),
            Value::Object(object) => Value::Object(*object),
            Value::RegExp(pattern) => Value::RegExp(pattern.clone()),
            Value::Range(range) => Value::Range(
                Range {
                    closed: range.closed,
                    start: Box::new((*range.start).clone()),
                    end: Box::new((*range.end).clone()),
                },
            ),
            Value::Tuple(values) => Value::Tuple(clone_values(values)),
            Value::Pipeline(pipeline) => Value::Pipeline(pipeline.clone()),
        }
    }
}

/// A copy of an optional value.
pub fn clone_option(value: &Option<Value>) -> (out: Option<Value>)
    ensures
        crate::model::option_value_model(out) == crate::model::option_value_model(*value),
{
    match value {
        Some(v) => Some(v.clone()),
        None => None,
    }
}

/// What a run that ends with values is.
pub open spec fn values_run_model(run: Run<Vec<Value>>) -> crate::model::RunModel<Seq<ValueModel>> {
    crate::model::RunModel {
        step: match run.step {
            Step::Done(values) => crate::model::StepModel::Done(values_model(values@)),
            Step::Failed(error) => crate::model::StepModel::Failed(error@),
            Step::Suspended(request) => crate::model::StepModel::Suspended(request@),
        },
        next: run.next as nat,
    }
}

/// Resolves each value against a frame, in order, up to the first that fails
/// or stops.
pub fn resolve_values(values: &Vec<Value>, ctx: &Ctx, replies: &Vec<Reply>, at: usize) -> (run: Run<
    Vec<Value>,
>)
    ensures
        values_run_model(run) == semantics::resolve_values(
            values_model(values@),
            0,
            Seq::empty(),
            ctx@,
            replies_model(replies@),
            at as nat,
        ),
    decreases values,
{
    let ghost all = values_model(values@);
    let ghost frame = ctx@;
    let ghost given = replies_model(replies@);
    let ghost goal = semantics::resolve_values(all, 0, Seq::empty(), frame, given, at as nat);
    let mut resolved: Vec<Value> = Vec::new();
    let mut next: usize = at;
    let mut i: usize = 0;
    assert(values_model(resolved@) =~= Seq::<ValueModel>::empty());
    while i < values.len()
        invariant
            i <= values.len(),
            all == values_model(values@),
            frame == ctx@,
            given == replies_model(replies@),
            semantics::resolve_values(
                all,
                i as nat,
                values_model(resolved@),
                frame,
                given,
                next as nat,
            ) == goal,
            goal == semantics::resolve_values(
                values_model(values@),
                0,
                Seq::empty(),
                ctx@,
                replies_model(replies@),
                at as nat,
            ),
        decreases values.len() - i,
    {
        let run = values[i].resolve(ctx, replies, next);
        let ghost before = values_model(resolved@);
        match run.step {
            Step::Done(value) => {
                resolved.push(value);
                assert(values_model(resolved@) =~= before.push(value@));
            },
            Step::Failed(error) => {
                return Run { step: Step::Failed(error), next: run.next };
            },
            Step::Suspended(request) => {
                return Run { step: Step::Suspended(request), next: run.next };
            },
        }
        next = run.next;
        i += 1;
    }
    Run { step: Step::Done(resolved), next }
}

impl Value {
    /// Resolves the value against a frame: a pipeline is run on the frame
    /// and stands for the value it ends with; a sequence, a tuple and a
    /// dictionary have their elements resolved in order, a range its start and
    /// then its end; any other value stands for itself.
    pub fn resolve(&self, ctx: &Ctx, replies: &Vec<Reply>, at: usize) -> (run: Run<Value>)
        ensures
            run@ == semantics::resolve(self@, ctx@, replies_model(replies@), at as nat),
        decreases self, 1nat,
    {
        match self {
            Value::Pipeline(p) => p.process(ctx.clone(), replies, at),
            Value::Vec(values) => {
                let run = resolve_values(values, ctx, replies, at);
                let next = run.next;
                match run.step {
                    Step::Done(resolved) => Run { step: Step::Done(Value::Vec(resolved)), next },
                    Step::Failed(error) => Run { step: Step::Failed(error), next },
                    Step::Suspended(request) => Run { step: Step::Suspended(request), next },
                }
            },
            Value::Tuple(values) => {
                let run = resolve_values(values, ctx, replies, at);
                let next = run.next;
                match run.step {
                    Step::Done(resolved) => Run { step: Step::Done(Value::Tuple(resolved)), next },
                    Step::Failed(error) => Run { step: Step::Failed(error), next },
                    Step::Suspended(request) => Run { step: Step::Suspended(request), next },
                }
            },
            Value::Range(range) => {
                let first = (*range.start).resolve(ctx, replies, at);
                let next = first.next;
                match first.step {
                    Step::Done(start) => {
                        let second = (*range.end).resolve(ctx, replies, next);
                        let next = second.next;
                        match second.step {
                            Step::Done(end) => Run {
                                step: Step::Done(
                                    Value::Range(
                                        Range {
                                            closed: range.closed,
                                            start: Box::new(start),
                                            end: Box::new(end),
                                        },
                                    ),
                                ),
                                next,
                            },
                            Step::Failed(error) => Run { step: Step::Failed(error), next },
                            Step::Suspended(request) => Run { step: Step::Suspended(request), next },
                        }
                    },
                    Step::Failed(error) => Run { step: Step::Failed(error), next },
                    Step::Suspended(request) => Run { step: Step::Suspended(request), next },
                }
            },
            Value::Dictionary(entries) => {
                let ghost all = entries_model(entries@);
                let ghost frame = ctx@;
                let ghost given = replies_model(replies@);
                let ghost goal = semantics::resolve_entries(all, 0, Seq::empty(), frame, given, at as nat);
                let mut resolved: Vec<(String, Value)> = Vec::new();
                let mut next: usize = at;
                let mut i: usize = 0;
                assert(entries_model(resolved@) =~= Seq::<(Seq<char>, ValueModel)>::empty());
                while i < entries.len()
                    invariant
                        i <= entries.len(),
                        *self == Value::Dictionary(*entries),
                        all == entries_model(entries@),
                        frame == ctx@,
                        given == replies_model(replies@),
                        semantics::resolve_entries(
                            all,
                            i as nat,
                            entries_model(resolved@),
                            frame,
                            given,
                            next as nat,
                        ) == goal,
                        goal == semantics::resolve_entries(
                            entries_model(entries@),
                            0,
                            Seq::empty(),
                            ctx@,
                            replies_model(replies@),
                            at as nat,
                        ),
                    decreases entries.len() - i,
                {
                    let entry = &entries[i];
                    let run = entry.1.resolve(ctx, replies, next);
                    let ghost before = entries_model(resolved@);
                    match run.step {
                        Step::Done(value) => {
                            resolved.push((entry.0.clone(), value));
                            assert(entries_model(resolved@) =~= before.push((entry.0@, value@)));
                        },
                        Step::Failed(error) => {
                            return Run { step: Step::Failed(error), next: run.next };
                        },
                        Step::Suspended(request) => {
                            return Run { step: Step::Suspended(request), next: run.next };
                        },
                    }
                    next = run.next;
                    i += 1;
                }
                Run { step: Step::Done(Value::Dictionary(resolved)), next }
            },
            _ => Run { step: Step::Done(self.clone()), next: at },
        }
    }

    /// Whether this is the null value.
    pub fn is_null(&self) -> (b: bool)
        ensures
            b == (self@ is Null),
    {
        match self {
            Value::Null => true,
            _ => false,
        }
    }

    /// The boolean this value holds, if it is one.
    pub fn as_bool(&self) -> (r: Option<bool>)
        ensures
            r == self@.as_bool(),
    {
        match self {
            Value::Bool(b) => Some(*b),
            _ => None,
        }
    }

    /// The 32-bit integer this value holds, if it is one.
    pub fn as_i32(&self) -> (r: Option<i32>)
        ensures
            r == self@.as_i32(),
    {
        match self {
            Value::I32(i) => Some(*i),
            _ => None,
        }
    }

    /// The 64-bit integer this value holds, if it is one.
    pub fn as_i64(&self) -> (r: Option<i64>)
        ensures
            r == self@.as_i64(),
    {
        match self {
            Value::I64(i) => Some(*i),
            _ => None,
        }
    }

    /// The text this value holds, if it is a string.
    pub fn as_str(&self) -> (r: Option<&str>)
        ensures
            match r {
                Some(s) => self@.as_str() == Some(s@),
                None => self@.as_str() is None,
            },
    {
        match self {
            Value::String(s) => Some(s.as_str()),
            _ => None,
        }
    }

    /// The elements this value holds, if it is a sequence.
    pub fn as_vec(&self) -> (r: Option<&Vec<Value>>)
        ensures
            match r {
                Some(values) => self@.as_vec() == Some(values_model(values@)) && *self
                    == Value::Vec(*values),
                None => self@.as_vec() is None,
            },
    {
        match self {
            Value::Vec(values) => Some(values),
            _ => None,
        }
    }

    /// The pipeline this value holds, if it is one.
    pub fn as_pipeline(&self) -> (r: Option<&Pipeline>)
        ensures
            match r {
                Some(p) => self@.as_pipeline() == Some(p@) && *self == Value::Pipeline(*p),
                None => self@.as_pipeline() is None,
            },
    {
        match self {
            Value::Pipeline(p) => Some(p),
            _ => None,
        }
    }

    /// The name of the enum member this value refers to, if it is such a reference.
    pub fn as_raw_enum_choice(&self) -> (r: Option<&str>)
        ensures
            match r {
                Some(s) => self@.as_raw_enum_choice() == Some(s@),
                None => self@.as_raw_enum_choice() is None,
            },
    {
        match self {
            Value::RawEnumChoice(name) => Some(name.as_str()),
            _ => None,
        }
    }
}

impl From<bool> for Value {
    fn from(value: bool) -> (v: Value) {
        Value::Bool(value)
    }
}

impl FromSpecImpl<bool> for Value {
    open spec fn obeys_from_spec() -> bool {
        true
    }

    open spec fn from_spec(value: bool) -> Value {
        Value::Bool(value)
    }
}

impl From<i32> for Value {
    fn from(value: i32) -> (v: Value) {
        Value::I32(value)
    }
}

impl FromSpecImpl<i32> for Value {
    open spec fn obeys_from_spec() -> bool {
        true
    }

    open spec fn from_spec(value: i32) -> Value {
        Value::I32(value)
    }
}

impl From<i64> for Value {
    fn from(value: i64) -> (v: Value) {
        Value::I64(value)
    }
}

impl FromSpecImpl<i64> for Value {
    open spec fn obeys_from_spec() -> bool {
        true
    }

    open spec fn from_spec(value: i64) -> Value {
        Value::I64(value)
    }
}

impl From<String> for Value {
    fn from(value: String) -> (v: Value) {
        Value::String(value)
    }
}

impl FromSpecImpl<String> for Value {
    open spec fn obeys_from_spec() -> bool {
        true
    }

    open spec fn from_spec(value: String) -> Value {
        Value::String(value)
    }
}

impl From<Vec<Value>> for Value {
    fn from(value: Vec<Value>) -> (v: Value) {
        Value::Vec(value)
    }
}

impl FromSpecImpl<Vec<Value>> for Value {
    open spec fn obeys_from_spec() -> bool {
        true
    }

    open spec fn from_spec(value: Vec<Value>) -> Value {
        Value::Vec(value)
    }
}

impl From<Pipeline> for Value {
    fn from(value: Pipeline) -> (v: Value) {
        Value::Pipeline(value)
    }
}

impl FromSpecImpl<Pipeline> for Value {
    open spec fn obeys_from_spec() -> bool {
        true
    }

    open spec fn from_spec(value: Pipeline) -> Value {
        Value::Pipeline(value)
    }
}

impl<'a> From<&'a str> for Value {
    fn from(value: &'a str) -> (v: Value)
        ensures
            v@ == ValueModel::String(value@),
    {
        Value::String(value.to_owned())
    }
}

impl<'a> FromSpecImpl<&'a str> for Value {
    open spec fn obeys_from_spec() -> bool {
        false
    }

    open spec fn from_spec(value: &'a str) -> Value {
        choose|v: Value| (#[trigger] v@) == ValueModel::String(value@)
    }
}

impl ValueModel {
    pub open spec fn as_bool(self) -> Option<bool> {
        match self {
            ValueModel::Bool(b) => Some(b),
            _ => None,
        }
    }

    pub open spec fn as_i32(self) -> Option<i32> {
        match self {
            ValueModel::I32(i) => Some(i),
            _ => None,
        }
    }

    pub open spec fn as_i64(self) -> Option<i64> {
        match self {
            ValueModel::I64(i) => Some(i),
            _ => None,
        }
    }

    pub open spec fn as_str(self) -> Option<Seq<char>> {
        match self {
            ValueModel::String(s) => Some(s),
            _ => None,
        }
    }

    pub open spec fn as_vec(self) -> Option<Seq<ValueModel>> {
        match self {
            ValueModel::Vec(values) => Some(values),
            _ => None,
        }
    }

    pub open spec fn as_pipeline(self) -> Option<Seq<crate::model::ItemModel>> {
        match self {
            ValueModel::Pipeline(items) => Some(items),
            _ => None,
        }
    }

    pub open spec fn as_raw_enum_choice(self) -> Option<Seq<char>> {
        match self {
            ValueModel::RawEnumChoice(name) => Some(name),
            _ => None,
        }
    }
}

} // verus!
