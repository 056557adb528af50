//! The order of values. Two values of the same variant are ordered, with two
//! exceptions: pipelines, which are never even equal, and what is held as a
//! number without being one, a float that is not a number or a decimal with a
//! digit above nine. Values of different variants have no order.

use vstd::prelude::*;
use vstd::std_specs::iter::IteratorSpec;
use crate::decimal::decimal_order;
use crate::model::ValueModel;
use crate::value::Value;

verus! {

/// How one value stands to another.
#[derive(Clone, Copy, Debug, PartialEq, Eq, Structural)]
pub enum Order {
    Less,
    Equal,
    Greater,
}

/// The order of two integers.
pub open spec fn int_order(a: int, b: int) -> Order {
    if a < b {
        Order::Less
    } else if a == b {
        Order::Equal
    } else {
        Order::Greater
    }
}

/// Texts are ordered character by character, each character by its code
/// point, a proper prefix before its extensions.
pub open spec fn text_order(a: Seq<char>, b: Seq<char>) -> Order
    decreases a.len(),
{
    if a.len() == 0 {
        if b.len() == 0 {
            Order::Equal
        } else {
            Order::Less
        }
    } else if b.len() == 0 {
        Order::Greater
    } else if a[0] != b[0] {
        int_order(a[0] as int, b[0] as int)
    } else {
        text_order(a.drop_first(), b.drop_first())
    }
}

/// The magnitude of a 32-bit float: its bits without the sign.
pub open spec fn f32_magnitude(bits: u32) -> int {
    if bits >= 0x8000_0000 {
        bits - 0x8000_0000
    } else {
        bits as int
    }
}

/// A 32-bit pattern that is not a number: all exponent bits set and a fraction.
pub open spec fn f32_is_nan(bits: u32) -> bool {
    f32_magnitude(bits) > 0x7f80_0000
}

/// An integer that orders 32-bit floats as their values do; both zeros map to 0.
pub open spec fn f32_key(bits: u32) -> int {
    if bits >= 0x8000_0000 {
        -f32_magnitude(bits)
    } else {
        f32_magnitude(bits)
    }
}

/// The order of two 32-bit floats as numbers; none where one is not a number.
pub open spec fn f32_order(a: u32, b: u32) -> Option<Order> {
    if f32_is_nan(a) || f32_is_nan(b) {
        None
    } else {
        Some(int_order(f32_key(a), f32_key(b)))
    }
}

/// The magnitude of a 64-bit float: its bits without the sign.
pub open spec fn f64_magnitude(bits: u64) -> int {
    if bits >= 0x8000_0000_0000_0000 {
        bits - 0x8000_0000_0000_0000
    } else {
        bits as int
    }
}

/// A 64-bit pattern that is not a number: all exponent bits set and a fraction.
pub open spec fn f64_is_nan(bits: u64) -> bool {
    f64_magnitude(bits) > 0x7ff0_0000_0000_0000
}

/// An integer that orders 64-bit floats as their values do; both zeros map to 0.
pub open spec fn f64_key(bits: u64) -> int {
    if bits >= 0x8000_0000_0000_0000 {
        -f64_magnitude(bits)
    } else {
        f64_magnitude(bits)
    }
}

/// The order of two 64-bit floats as numbers; none where one is not a number.
pub open spec fn f64_order(a: u64, b: u64) -> Option<Order> {
    if f64_is_nan(a) || f64_is_nan(b) {
        None
    } else {
        Some(int_order(f64_key(a), f64_key(b)))
    }
}

/// `false` comes before `true`.
pub open spec fn bool_order(a: bool, b: bool) -> Order {
    int_order(if a { 1 } else { 0 }, if b { 1 } else { 0 })
}

/// Sequences are ordered element by element from position `from` on: the
/// first pair that is not equal decides, and is undecided where that pair has
/// no order; a proper prefix comes before its extensions.
pub open spec fn sequence_order(a: Seq<ValueModel>, b: Seq<ValueModel>, from: nat) -> Option<Order>
    decreases a, a.len() - from,
{
    if from >= a.len() {
        if from >= b.len() {
            Some(Order::Equal)
        } else {
            Some(Order::Less)
        }
    } else if from >= b.len() {
        Some(Order::Greater)
    } else {
        match value_order(a[from as int], b[from as int]) {
            Some(Order::Equal) => sequence_order(a, b, from + 1),
            other => other,
        }
    }
}

/// One order after another: the first decides unless it is `Equal`.
pub open spec fn and_then_order(first: Option<Order>, second: Option<Order>) -> Option<Order> {
    match first {
        Some(Order::Equal) => second,
        other => other,
    }
}

/// Dictionaries are ordered entry by entry from position `from` on, each
/// entry by its key and then by its value; a proper prefix comes before its
/// extensions.
pub open spec fn entries_order(
    a: Seq<(Seq<char>, ValueModel)>,
    b: Seq<(Seq<char>, ValueModel)>,
    from: nat,
) -> Option<Order>
    decreases a, a.len() - from,
{
    if from >= a.len() {
        if from >= b.len() {
            Some(Order::Equal)
        } else {
            Some(Order::Less)
        }
    } else if from >= b.len() {
        Some(Order::Greater)
    } else {
        match and_then_order(
            Some(text_order(a[from as int].0, b[from as int].0)),
            value_order(a[from as int].1, b[from as int].1),
        ) {
            Some(Order::Equal) => entries_order(a, b, from + 1),
            other => other,
        }
    }
}

/// The order of two values; `None` where they have none: different variants,
/// a float or a decimal that is not a number, pipelines. A range is ordered by
/// its start, then by its end, then an open one before a closed one.
pub open spec fn value_order(a: ValueModel, b: ValueModel) -> Option<Order>
    decreases a, 0nat,
{
    match a {
        ValueModel::Null => match b {
            ValueModel::Null => Some(Order::Equal),
            _ => None,
        },
        ValueModel::Bool(x) => match b {
            ValueModel::Bool(y) => Some(bool_order(x, y)),
            _ => None,
        },
        ValueModel::I32(x) => match b {
            ValueModel::I32(y) => Some(int_order(x as int, y as int)),
            _ => None,
        },
        ValueModel::I64(x) => match b {
            ValueModel::I64(y) => Some(int_order(x as int, y as int)),
            _ => None,
        },
        ValueModel::F32(x) => match b {
            ValueModel::F32(y) => f32_order(x, y),
            _ => None,
        },
        ValueModel::F64(x) => match b {
            ValueModel::F64(y) => f64_order(x, y),
            _ => None,
        },
        ValueModel::String(x) => match b {
            ValueModel::String(y) => Some(text_order(x, y)),
            _ => None,
        },
        ValueModel::Date(x) => match b {
            ValueModel::Date(y) => Some(int_order(x as int, y as int)),
            _ => None,
        },
        ValueModel::DateTime(x) => match b {
            ValueModel::DateTime(y) => Some(int_order(x as int, y as int)),
            _ => None,
        },
        ValueModel::Vec(x) => match b {
            ValueModel::Vec(y) => sequence_order(x, y, 0),
            _ => None,
        },
        ValueModel::Tuple(x) => match b {
            ValueModel::Tuple(y) => sequence_order(x, y, 0),
            _ => None,
        },
        ValueModel::Dictionary(x) => match b {
            ValueModel::Dictionary(y) => entries_order(x, y, 0),
            _ => None,
        },
        ValueModel::RawEnumChoice(x) => match b {
            ValueModel::RawEnumChoice(y) => Some(text_order(x, y)),
            _ => None,
        },
        ValueModel::RawOptionChoice(x) => match b {
            ValueModel::RawOptionChoice(y) => Some(int_order(x as int, y as int)),
            _ => None,
        },
        ValueModel::Object(x) => match b {
            ValueModel::Object(y) => Some(int_order(x.id as int, y.id as int)),
            _ => None,
        },
        ValueModel::RegExp(x) => match b {
            ValueModel::RegExp(y) => Some(text_order(x, y)),
            _ => None,
        },
        ValueModel::Range(x) => match b {
            ValueModel::Range(y) => and_then_order(
                value_order(*x.start, *y.start),
                and_then_order(value_order(*x.end, *y.end), Some(bool_order(x.closed, y.closed))),
            ),
            _ => None,
        },
        ValueModel::Decimal(x) => match b {
            ValueModel::Decimal(y) => decimal_order(x, y),
            _ => None,
        },
        ValueModel::Pipeline(_) => None,
    }
}

/// The order seen from the other side.
pub open spec fn reversed(o: Option<Order>) -> Option<Order> {
    match o {
        Some(Order::Less) => Some(Order::Greater),
        Some(Order::Greater) => Some(Order::Less),
        other => other,
    }
}

/// Whether two values are of the same variant.
pub open spec fn same_variant(a: ValueModel, b: ValueModel) -> bool {
    match (a, b) {
        (ValueModel::Null, ValueModel::Null) => true,
        (ValueModel::Bool(_), ValueModel::Bool(_)) => true,
        (ValueModel::I32(_), ValueModel::I32(_)) => true,
        (ValueModel::I64(_), ValueModel::I64(_)) => true,
        (ValueModel::F32(_), ValueModel::F32(_)) => true,
        (ValueModel::F64(_), ValueModel::F64(_)) => true,
        (ValueModel::Decimal(_), ValueModel::Decimal(_)) => true,
        (ValueModel::String(_), ValueModel::String(_)) => true,
        (ValueModel::Date(_), ValueModel::Date(_)) => true,
        (ValueModel::DateTime(_), ValueModel::DateTime(_)) => true,
        (ValueModel::Vec(_), ValueModel::Vec(_)) => true,
        (ValueModel::Dictionary(_), ValueModel::Dictionary(_)) => true,
        (ValueModel::RawEnumChoice(_), ValueModel::RawEnumChoice(_)) => true,
        (ValueModel::RawOptionChoice(_), ValueModel::RawOptionChoice(_)) => true,
        (ValueModel::Object(_), ValueModel::Object(_)) => true,
        (ValueModel::RegExp(_), ValueModel::RegExp(_)) => true,
        (ValueModel::Range(_), ValueModel::Range(_)) => true,
        (ValueModel::Tuple(_), ValueModel::Tuple(_)) => true,
        (ValueModel::Pipeline(_), ValueModel::Pipeline(_)) => true,
        _ => false,
    }
}

/// A value that holds one thing only, and that thing has an order: neither a
/// collection nor a range or a pipeline, nor a float or a decimal that is not
/// a number.
pub open spec fn simple(value: ValueModel) -> bool {
    match value {
        ValueModel::F32(bits) => !f32_is_nan(bits),
        ValueModel::F64(bits) => !f64_is_nan(bits),
        ValueModel::Decimal(d) => d.well_formed(),
        ValueModel::Vec(_) => false,
        ValueModel::Dictionary(_) => false,
        ValueModel::Range(_) => false,
        ValueModel::Tuple(_) => false,
        ValueModel::Pipeline(_) => false,
        _ => true,
    }
}

/// Values of different variants have no order.
pub proof fn law_no_order_across_variants(a: ValueModel, b: ValueModel)
    requires
        !same_variant(a, b),
    ensures
        value_order(a, b) is None,
{
}

/// Two simple values of the same variant are ordered.
pub proof fn law_order_is_total_on_simple_values(a: ValueModel, b: ValueModel)
    requires
        same_variant(a, b),
        simple(a),
        simple(b),
    ensures
        value_order(a, b) is Some,
{
}

proof fn lemma_text_order_reversed(a: Seq<char>, b: Seq<char>)
    ensures
        Some(text_order(b, a)) == reversed(Some(text_order(a, b))),
        text_order(a, b) == Order::Equal <==> a == b,
    decreases a.len(),
{
    if a.len() > 0 && b.len() > 0 {
        lemma_text_order_reversed(a.drop_first(), b.drop_first());
        if a[0] == b[0] && a.drop_first() == b.drop_first() {
            assert(a =~= seq![a[0]] + a.drop_first());
            assert(b =~= seq![b[0]] + b.drop_first());
        }
    } else if a.len() == 0 && b.len() == 0 {
        assert(a =~= b);
    }
}

proof fn lemma_sequence_order_reversed(a: Seq<ValueModel>, b: Seq<ValueModel>, from: nat)
    ensures
        sequence_order(b, a, from) == reversed(sequence_order(a, b, from)),
    decreases a, 0nat, a.len() - from,
{
    if from < a.len() && from < b.len() {
        law_order_reversed(a[from as int], b[from as int]);
        lemma_sequence_order_reversed(a, b, from + 1);
    }
}

proof fn lemma_entries_order_reversed(
    a: Seq<(Seq<char>, ValueModel)>,
    b: Seq<(Seq<char>, ValueModel)>,
    from: nat,
)
    ensures
        entries_order(b, a, from) == reversed(entries_order(a, b, from)),
    decreases a, 0nat, a.len() - from,
{
    if from < a.len() && from < b.len() {
        lemma_text_order_reversed(a[from as int].0, b[from as int].0);
        law_order_reversed(a[from as int].1, b[from as int].1);
        lemma_entries_order_reversed(a, b, from + 1);
    }
}

proof fn lemma_plain_order_reversed(a: ValueModel, b: ValueModel)
    requires
        a is Null || a is Bool || a is I32 || a is I64 || a is F32 || a is F64 || a is Date
            || a is DateTime || a is RawOptionChoice || a is Object || a is Decimal
            || a is Pipeline,
    ensures
        value_order(b, a) == reversed(value_order(a, b)),
{
}

proof fn lemma_textual_order_reversed(a: ValueModel, b: ValueModel)
    requires
        a is String || a is RawEnumChoice || a is RegExp,
    ensures
        value_order(b, a) == reversed(value_order(a, b)),
{
    match a {
        ValueModel::String(x) => {
            if let ValueModel::String(y) = b {
                lemma_text_order_reversed(x, y);
            }
        },
        ValueModel::RawEnumChoice(x) => {
            if let ValueModel::RawEnumChoice(y) = b {
                lemma_text_order_reversed(x, y);
            }
        },
        ValueModel::RegExp(x) => {
            if let ValueModel::RegExp(y) = b {
                lemma_text_order_reversed(x, y);
            }
        },
        _ => {},
    }
}

proof fn lemma_collection_order_reversed(a: ValueModel, b: ValueModel)
    requires
        a is Vec || a is Tuple || a is Dictionary,
    ensures
        value_order(b, a) == reversed(value_order(a, b)),
    decreases a, 1nat,
{
    match a {
        ValueModel::Vec(x) => {
            if let ValueModel::Vec(y) = b {
                lemma_sequence_order_reversed(x, y, 0);
            }
        },
        ValueModel::Tuple(x) => {
            if let ValueModel::Tuple(y) = b {
                lemma_sequence_order_reversed(x, y, 0);
            }
        },
        ValueModel::Dictionary(x) => {
            if let ValueModel::Dictionary(y) = b {
                lemma_entries_order_reversed(x, y, 0);
            }
        },
        _ => {},
    }
}

proof fn lemma_range_order_reversed(a: ValueModel, b: ValueModel)
    requires
        a is Range,
    ensures
        value_order(b, a) == reversed(value_order(a, b)),
    decreases a, 1nat,
{
    let x = a->Range_0;
    if let ValueModel::Range(y) = b {
        law_order_reversed(*x.start, *y.start);
        law_order_reversed(*x.end, *y.end);
    }
}

/// The order of two values taken the other way round is the reverse order:
/// where one is less the other is greater, and equal or unordered values are
/// so both ways.
pub proof fn law_order_reversed(a: ValueModel, b: ValueModel)
    ensures
        value_order(b, a) == reversed(value_order(a, b)),
    decreases a, 2nat,
{
    if a is Vec || a is Tuple || a is Dictionary {
        lemma_collection_order_reversed(a, b);
    } else if a is Range {
        lemma_range_order_reversed(a, b);
    } else if a is String || a is RawEnumChoice || a is RegExp {
        lemma_textual_order_reversed(a, b);
    } else {
        lemma_plain_order_reversed(a, b);
    }
}

/// Two texts are in the order `Equal` exactly where they are the same text.
pub proof fn law_text_order_equal(a: Seq<char>, b: Seq<char>)
    ensures
        text_order(a, b) == Order::Equal <==> a == b,
{
    lemma_text_order_reversed(a, b);
}

proof fn lemma_text_order_skip(a: Seq<char>, b: Seq<char>, n: int)
    requires
        0 <= n <= a.len(),
        n <= b.len(),
        forall|i: int| 0 <= i < n ==> a[i] == b[i],
    ensures
        text_order(a, b) == text_order(a.skip(n), b.skip(n)),
    decreases n,
{
    if n == 0 {
        assert(a.skip(0) =~= a);
        assert(b.skip(0) =~= b);
    } else {
        let a1 = a.drop_first();
        let b1 = b.drop_first();
        lemma_text_order_skip(a1, b1, n - 1);
        assert(a1.skip(n - 1) =~= a.skip(n));
        assert(b1.skip(n - 1) =~= b.skip(n));
    }
}

/// The order of two integers.
pub fn order_i64(a: i64, b: i64) -> (o: Order)
    ensures
        o == int_order(a as int, b as int),
{
    if a < b {
        Order::Less
    } else if a == b {
        Order::Equal
    } else {
        Order::Greater
    }
}

/// The order of two unsigned integers.
pub fn order_u64(a: u64, b: u64) -> (o: Order)
    ensures
        o == int_order(a as int, b as int),
{
    if a < b {
        Order::Less
    } else if a == b {
        Order::Equal
    } else {
        Order::Greater
    }
}

/// The order of two texts.
pub fn order_text(a: &str, b: &str) -> (o: Order)
    ensures
        o == text_order(a@, b@),
{
    let mut left = a.chars();
    let mut right = b.chars();
    let ghost mut seen: int = 0;
    loop
        invariant
            0 <= seen <= a@.len(),
            seen <= b@.len(),
            left.remaining() == a@.skip(seen),
            right.remaining() == b@.skip(seen),
            forall|i: int| 0 <= i < seen ==> a@[i] == b@[i],
        decreases a@.len() - seen,
    {
        proof {
            lemma_text_order_skip(a@, b@, seen);
        }
        let x = left.next();
        let y = right.next();
        match (x, y) {
            (None, None) => {
                return Order::Equal;
            },
            (None, Some(_)) => {
                return Order::Less;
            },
            (Some(_), None) => {
                return Order::Greater;
            },
            (Some(c), Some(d)) => {
                if c != d {
                    return if c < d {
                        Order::Less
                    } else {
                        Order::Greater
                    };
                }
                proof {
                    seen = seen + 1;
                }
            },
        }
    }
}

/// The order of two 32-bit floats given by their bits.
pub fn order_f32(a: u32, b: u32) -> (o: Option<Order>)
    ensures
        o == f32_order(a, b),
{
    let a_negative = a >= 0x8000_0000u32;
    let b_negative = b >= 0x8000_0000u32;
    let x: u32 = if a_negative { a - 0x8000_0000u32 } else { a };
    let y: u32 = if b_negative { b - 0x8000_0000u32 } else { b };
    if x > 0x7f80_0000u32 || y > 0x7f80_0000u32 {
        None
    } else if a_negative && b_negative {
        Some(order_i64(y as i64, x as i64))
    } else if a_negative {
        if x == 0 && y == 0 {
            Some(Order::Equal)
        } else {
            Some(Order::Less)
        }
    } else if b_negative {
        if x == 0 && y == 0 {
            Some(Order::Equal)
        } else {
            Some(Order::Greater)
        }
    } else {
        Some(order_i64(x as i64, y as i64))
    }
}

/// The order of two 64-bit floats given by their bits.
pub fn order_f64(a: u64, b: u64) -> (o: Option<Order>)
    ensures
        o == f64_order(a, b),
{
    let a_negative = a >= 0x8000_0000_0000_0000u64;
    let b_negative = b >= 0x8000_0000_0000_0000u64;
    let x: u64 = if a_negative { a - 0x8000_0000_0000_0000u64 } else { a };
    let y: u64 = if b_negative { b - 0x8000_0000_0000_0000u64 } else { b };
    if x > 0x7ff0_0000_0000_0000u64 || y > 0x7ff0_0000_0000_0000u64 {
        None
    } else if a_negative && b_negative {
        Some(order_i64(y as i64, x as i64))
    } else if a_negative {
        if x == 0 && y == 0 {
            Some(Order::Equal)
        } else {
            Some(Order::Less)
        }
    } else if b_negative {
        if x == 0 && y == 0 {
            Some(Order::Equal)
        } else {
            Some(Order::Greater)
        }
    } else {
        Some(order_i64(x as i64, y as i64))
    }
}

/// The order of two sequences of values.
pub fn order_values(a: &Vec<Value>, b: &Vec<Value>) -> (o: Option<Order>)
    ensures
        o == sequence_order(crate::model::values_model(a@), crate::model::values_model(b@), 0),
    decreases a,
{
    let ghost am = crate::model::values_model(a@);
    let ghost bm = crate::model::values_model(b@);
    let mut i: usize = 0;
    while i < a.len() && i < b.len()
        invariant
            i <= a.len(),
            i <= b.len(),
            am == crate::model::values_model(a@),
            bm == crate::model::values_model(b@),
            sequence_order(am, bm, i as nat) == sequence_order(am, bm, 0),
        decreases a.len() - i,
    {
        let o = a[i].order(&b[i]);
        match o {
            Some(Order::Equal) => {},
            _ => {
                return o;
            },
        }
        i += 1;
    }
    if i < b.len() {
        Some(Order::Less)
    } else if i < a.len() {
        Some(Order::Greater)
    } else {
        Some(Order::Equal)
    }
}

/// The order of two dictionaries.
pub fn order_entries(a: &Vec<(String, Value)>, b: &Vec<(String, Value)>) -> (o: Option<Order>)
    ensures
        o == entries_order(crate::model::entries_model(a@), crate::model::entries_model(b@), 0),
    decreases a,
{
    let ghost am = crate::model::entries_model(a@);
    let ghost bm = crate::model::entries_model(b@);
    let mut i: usize = 0;
    while i < a.len() && i < b.len()
        invariant
            i <= a.len(),
            i <= b.len(),
            am == crate::model::entries_model(a@),
            bm == crate::model::entries_model(b@),
            entries_order(am, bm, i as nat) == entries_order(am, bm, 0),
        decreases a.len() - i,
    {
        let left = &a[i];
        let right = &b[i];
        let o = one_after_another(
            Some(order_text(left.0.as_str(), right.0.as_str())),
            left.1.order(&right.1),
        );
        match o {
            Some(Order::Equal) => {},
            _ => {
                return o;
            },
        }
        i += 1;
    }
    if i < b.len() {
        Some(Order::Less)
    } else if i < a.len() {
        Some(Order::Greater)
    } else {
        Some(Order::Equal)
    }
}

/// One order after another: the first decides unless it is `Equal`.
pub fn one_after_another(first: Option<Order>, second: Option<Order>) -> (o: Option<Order>)
    ensures
        o == and_then_order(first, second),
{
    match first {
        Some(Order::Equal) => second,
        other => other,
    }
}

impl Value {
    /// The order of this value and another.
    pub fn order(&self, other: &Value) -> (o: Option<Order>)
        ensures
            o == value_order(self@, other@),
        decreases self,
    {
        match (self, other) {
            (Value::Null, Value::Null) => Some(Order::Equal),
            (Value::Bool(x), Value::Bool(y)) => Some(
                order_i64(if *x { 1 } else { 0 }, if *y { 1 } else { 0 }),
            ),
            (Value::I32(x), Value::I32(y)) => Some(order_i64(*x as i64, *y as i64)),
            (Value::I64(x), Value::I64(y)) => Some(order_i64(*x, *y)),
            (Value::F32(x), Value::F32(y)) => order_f32(*x, *y),
            (Value::F64(x), Value::F64(y)) => order_f64(*x, *y),
            (Value::Decimal(x), Value::Decimal(y)) => x.order(y),
            (Value::String(x), Value::String(y)) => Some(order_text(x.as_str(), y.as_str())),
            (Value::Date(x), Value::Date(y)) => Some(order_i64(*x as i64, *y as i64)),
            (Value::DateTime(x), Value::DateTime(y)) => Some(order_i64(*x, *y)),
            (Value::Vec(x), Value::Vec(y)) => order_values(x, y),
            (Value::Tuple(x), Value::Tuple(y)) => order_values(x, y),
            (Value::Dictionary(x), Value::Dictionary(y)) => order_entries(x, y),
            (Value::RawEnumChoice(x), Value::RawEnumChoice(y)) => Some(
                order_text(x.as_str(), y.as_str()),
            ),
            (Value::RawOptionChoice(x), Value::RawOptionChoice(y)) => Some(
                order_i64(*x as i64, *y as i64),
            ),
            (Value::Object(x), Value::Object(y)) => Some(order_u64(x.id, y.id)),
            (Value::RegExp(x), Value::RegExp(y)) => Some(order_text(x.as_str(), y.as_str())),
            (Value::Range(x), Value::Range(y)) => {
                let start = (*x.start).order(&*y.start);
                let end = (*x.end).order(&*y.end);
                let closed = order_i64(if x.closed { 1 } else { 0 }, if y.closed { 1 } else { 0 });
                one_after_another(start, one_after_another(end, Some(closed)))
            },
            _ => None,
        }
    }
}

} // verus!

