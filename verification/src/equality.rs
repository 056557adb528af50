//! The equality of values. Two values are equal where they are of the same
//! variant and hold equal contents; a pipeline equals nothing, and so does any
//! value that holds one.

use vstd::prelude::*;
use vstd::std_specs::cmp::PartialEqSpecImpl;
use crate::decimal::decimal_order;
use crate::model::{entries_model, values_model, ValueModel};
use crate::order::{
    entries_order, f32_order, f64_order, law_text_order_equal, order_f32, order_f64,
    sequence_order, value_order, Order,
};
use crate::value::Value;

verus! {

/// The elements of two sequences are equal pair by pair, from position `from`
/// on, and the sequences are of one length.
pub open spec fn all_equal(a: Seq<ValueModel>, b: Seq<ValueModel>, from: nat) -> bool
    decreases a, a.len() - from,
{
    if from >= a.len() || from >= b.len() {
        a.len() == b.len()
    } else {
        value_equal(a[from as int], b[from as int]) && all_equal(a, b, from + 1)
    }
}

/// The entries of two dictionaries are equal pair by pair, keys and values,
/// from position `from` on, and the dictionaries are of one length.
pub open spec fn all_entries_equal(
    a: Seq<(Seq<char>, ValueModel)>,
    b: Seq<(Seq<char>, ValueModel)>,
    from: nat,
) -> bool
    decreases a, a.len() - from,
{
    if from >= a.len() || from >= b.len() {
        a.len() == b.len()
    } else {
        a[from as int].0 == b[from as int].0 && value_equal(a[from as int].1, b[from as int].1)
            && all_entries_equal(a, b, from + 1)
    }
}

/// Whether two values are equal. Floats and decimals are equal as numbers:
/// the two zeros are, and what is not a number equals nothing.
pub open spec fn value_equal(a: ValueModel, b: ValueModel) -> bool
    decreases a, 0nat,
{
    match (a, b) {
        (ValueModel::Null, ValueModel::Null) => true,
        (ValueModel::Bool(x), ValueModel::Bool(y)) => x == y,
        (ValueModel::I32(x), ValueModel::I32(y)) => x == y,
        (ValueModel::I64(x), ValueModel::I64(y)) => x == y,
        (ValueModel::F32(x), ValueModel::F32(y)) => f32_order(x, y) == Some(Order::Equal),
        (ValueModel::F64(x), ValueModel::F64(y)) => f64_order(x, y) == Some(Order::Equal),
        (ValueModel::Decimal(x), ValueModel::Decimal(y)) => decimal_order(x, y) == Some(
            Order::Equal,
        ),
        (ValueModel::String(x), ValueModel::String(y)) => x == y,
        (ValueModel::Date(x), ValueModel::Date(y)) => x == y,
        (ValueModel::DateTime(x), ValueModel::DateTime(y)) => x == y,
        (ValueModel::Vec(x), ValueModel::Vec(y)) => all_equal(x, y, 0),
        (ValueModel::Dictionary(x), ValueModel::Dictionary(y)) => all_entries_equal(x, y, 0),
        (ValueModel::RawEnumChoice(x), ValueModel::RawEnumChoice(y)) => x == y,
        (ValueModel::RawOptionChoice(x), ValueModel::RawOptionChoice(y)) => x == y,
        (ValueModel::Object(x), ValueModel::Object(y)) => x == y,
        (ValueModel::RegExp(x), ValueModel::RegExp(y)) => x == y,
        (ValueModel::Range(x), ValueModel::Range(y)) => x.closed == y.closed && value_equal(
            *x.start,
            *y.start,
        ) && value_equal(*x.end, *y.end),
        (ValueModel::Tuple(x), ValueModel::Tuple(y)) => all_equal(x, y, 0),
        _ => false,
    }
}

proof fn lemma_sequences_in_equal_order(a: Seq<ValueModel>, b: Seq<ValueModel>, from: nat)
    requires
        from <= a.len(),
        from <= b.len(),
        sequence_order(a, b, from) == Some(Order::Equal),
    ensures
        all_equal(a, b, from),
    decreases a, 0nat, a.len() - from,
{
    if from < a.len() && from < b.len() {
        law_values_in_equal_order_are_equal(a[from as int], b[from as int]);
        lemma_sequences_in_equal_order(a, b, from + 1);
    }
}

proof fn lemma_entries_in_equal_order(
    a: Seq<(Seq<char>, ValueModel)>,
    b: Seq<(Seq<char>, ValueModel)>,
    from: nat,
)
    requires
        from <= a.len(),
        from <= b.len(),
        entries_order(a, b, from) == Some(Order::Equal),
    ensures
        all_entries_equal(a, b, from),
    decreases a, 0nat, a.len() - from,
{
    if from < a.len() && from < b.len() {
        law_text_order_equal(a[from as int].0, b[from as int].0);
        law_values_in_equal_order_are_equal(a[from as int].1, b[from as int].1);
        lemma_entries_in_equal_order(a, b, from + 1);
    }
}

proof fn lemma_plain_in_equal_order(a: ValueModel, b: ValueModel)
    requires
        value_order(a, b) == Some(Order::Equal),
        !(a is Vec || a is Tuple || a is Dictionary || a is Range),
    ensures
        value_equal(a, b),
{
    match a {
        ValueModel::String(x) => {
            if let ValueModel::String(y) = b {
                law_text_order_equal(x, y);
            }
        },
        ValueModel::RawEnumChoice(x) => {
            if let ValueModel::RawEnumChoice(y) = b {
                law_text_order_equal(x, y);
            }
        },
        ValueModel::RegExp(x) => {
            if let ValueModel::RegExp(y) = b {
                law_text_order_equal(x, y);
            }
        },
        _ => {},
    }
}

proof fn lemma_nested_in_equal_order(a: ValueModel, b: ValueModel)
    requires
        value_order(a, b) == Some(Order::Equal),
        a is Vec || a is Tuple || a is Dictionary || a is Range,
    ensures
        value_equal(a, b),
    decreases a, 1nat,
{
    match a {
        ValueModel::Vec(x) => {
            if let ValueModel::Vec(y) = b {
                lemma_sequences_in_equal_order(x, y, 0);
            }
        },
        ValueModel::Tuple(x) => {
            if let ValueModel::Tuple(y) = b {
                lemma_sequences_in_equal_order(x, y, 0);
            }
        },
        ValueModel::Dictionary(x) => {
            if let ValueModel::Dictionary(y) = b {
                lemma_entries_in_equal_order(x, y, 0);
            }
        },
        ValueModel::Range(x) => {
            if let ValueModel::Range(y) = b {
                law_values_in_equal_order_are_equal(*x.start, *y.start);
                law_values_in_equal_order_are_equal(*x.end, *y.end);
            }
        },
        _ => {},
    }
}

/// Two values that are in the order `Equal` are equal.
pub proof fn law_values_in_equal_order_are_equal(a: ValueModel, b: ValueModel)
    requires
        value_order(a, b) == Some(Order::Equal),
    ensures
        value_equal(a, b),
    decreases a, 2nat,
{
    if a is Vec || a is Tuple || a is Dictionary || a is Range {
        lemma_nested_in_equal_order(a, b);
    } else {
        lemma_plain_in_equal_order(a, b);
    }
}

/// Whether two sequences of values are equal.
pub fn equal_values(a: &Vec<Value>, b: &Vec<Value>) -> (same: bool)
    ensures
        same == all_equal(values_model(a@), values_model(b@), 0),
    decreases a,
{
    let ghost am = values_model(a@);
    let ghost bm = values_model(b@);
    let mut i: usize = 0;
    while i < a.len() && i < b.len()
        invariant
            i <= a.len(),
            i <= b.len(),
            am == values_model(a@),
            bm == values_model(b@),
            all_equal(am, bm, i as nat) == all_equal(am, bm, 0),
        decreases a.len() - i,
    {
        if !equal(&a[i], &b[i]) {
            return false;
        }
        i += 1;
    }
    a.len() == b.len()
}

/// Whether two dictionaries are equal, entry by entry.
pub fn equal_entries(a: &Vec<(String, Value)>, b: &Vec<(String, Value)>) -> (same: bool)
    ensures
        same == all_entries_equal(entries_model(a@), entries_model(b@), 0),
    decreases a,
{
    let ghost am = entries_model(a@);
    let ghost bm = entries_model(b@);
    let mut i: usize = 0;
    while i < a.len() && i < b.len()
        invariant
            i <= a.len(),
            i <= b.len(),
            am == entries_model(a@),
            bm == entries_model(b@),
            all_entries_equal(am, bm, i as nat) == all_entries_equal(am, bm, 0),
        decreases a.len() - i,
    {
        let left = &a[i];
        let right = &b[i];
        if left.0 != right.0 || !equal(&left.1, &right.1) {
            return false;
        }
        i += 1;
    }
    a.len() == b.len()
}

/// Whether two values are equal.
pub fn equal(a: &Value, b: &Value) -> (same: bool)
    ensures
        same == value_equal(a@, b@),
    decreases a, 0nat,
{
    match (a, b) {
        (Value::Null, Value::Null) => true,
        (Value::Bool(x), Value::Bool(y)) => *x == *y,
        (Value::I32(x), Value::I32(y)) => *x == *y,
        (Value::I64(x), Value::I64(y)) => *x == *y,
        (Value::F32(x), Value::F32(y)) => match order_f32(*x, *y) {
            Some(Order::Equal) => true,
            _ => false,
        },
        (Value::F64(x), Value::F64(y)) => match order_f64(*x, *y) {
            Some(Order::Equal) => true,
            _ => false,
        },
        (Value::Decimal(x), Value::Decimal(y)) => match x.order(y) {
            Some(Order::Equal) => true,
            _ => false,
        },
        (Value::String(x), Value::String(y)) => *x == *y,
        (Value::Date(x), Value::Date(y)) => *x == *y,
        (Value::DateTime(x), Value::DateTime(y)) => *x == *y,
        (Value::Vec(x), Value::Vec(y)) => equal_values(x, y),
        (Value::Dictionary(x), Value::Dictionary(y)) => equal_entries(x, y),
        (Value::RawEnumChoice(x), Value::RawEnumChoice(y)) => *x == *y,
        (Value::RawOptionChoice(x), Value::RawOptionChoice(y)) => *x == *y,
        (Value::Object(x), Value::Object(y)) => x.id == y.id,
        (Value::RegExp(x), Value::RegExp(y)) => *x == *y,
        (Value::Range(x), Value::Range(y)) => x.closed == y.closed && equal(&*x.start, &*y.start)
            && equal(&*x.end, &*y.end),
        (Value::Tuple(x), Value::Tuple(y)) => equal_values(x, y),
        _ => false,
    }
}

impl PartialEq for Value {
    fn eq(&self, other: &Self) -> (same: bool) {
        self::equal(self, other)
    }
}

impl PartialEqSpecImpl for Value {
    open spec fn obeys_eq_spec() -> bool {
        true
    }

    open spec fn eq_spec(&self, other: &Self) -> bool {
        value_equal(self@, other@)
    }
}

} // verus!
