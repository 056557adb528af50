//! Decimal numbers of any precision, and their order.

use vstd::prelude::*;
use crate::order::{int_order, Order};

verus! {

/// A decimal number: a sign, the digits of a whole number, most significant
/// first, and how many of them stand after the decimal point. `-12.50` is the
/// sign, the digits 1, 2, 5, 0 and the scale 2.
#[derive(Debug)]
pub struct Decimal {
    pub negative: bool,
    pub digits: Vec<u8>,
    pub scale: u32,
}

/// What a [`Decimal`] is.
pub struct DecimalModel {
    pub negative: bool,
    pub digits: Seq<u8>,
    pub scale: nat,
}

impl View for Decimal {
    type V = DecimalModel;

    open spec fn view(&self) -> DecimalModel {
        DecimalModel { negative: self.negative, digits: self.digits@, scale: self.scale as nat }
    }
}

/// Every digit is one: at most 9.
pub open spec fn are_digits(digits: Seq<u8>) -> bool {
    forall|i: int| 0 <= i < digits.len() ==> #[trigger] digits[i] <= 9
}

/// The whole number a sequence of digits writes.
pub open spec fn magnitude(digits: Seq<u8>) -> int
    decreases digits.len(),
{
    if digits.len() == 0 {
        0
    } else {
        magnitude(digits.drop_last()) * 10 + digits.last()
    }
}

/// Ten to a power.
pub open spec fn pow10(n: nat) -> int
    decreases n,
{
    if n == 0 {
        1
    } else {
        10 * pow10((n - 1) as nat)
    }
}

impl DecimalModel {
    /// A decimal is well formed where its digits are digits.
    pub open spec fn well_formed(self) -> bool {
        are_digits(self.digits)
    }

    /// The digits as a whole number, with the sign.
    pub open spec fn signed(self) -> int {
        if self.negative {
            -magnitude(self.digits)
        } else {
            magnitude(self.digits)
        }
    }
}

/// The order of two decimals as numbers: each is its digits with its sign,
/// divided by ten to its scale, so the two are compared once each is
/// multiplied by ten to the scale of the other. Both zeros are equal whatever
/// their sign and scale. A decimal that is not well formed has no order.
pub open spec fn decimal_order(a: DecimalModel, b: DecimalModel) -> Option<Order> {
    if a.well_formed() && b.well_formed() {
        Some(int_order(a.signed() * pow10(b.scale), b.signed() * pow10(a.scale)))
    } else {
        None
    }
}

proof fn lemma_pow10_positive(n: nat)
    ensures
        pow10(n) >= 1,
    decreases n,
{
    if n > 0 {
        lemma_pow10_positive((n - 1) as nat);
    }
}

proof fn lemma_pow10_adds(m: nat, n: nat)
    ensures
        pow10(m + n) == pow10(m) * pow10(n),
    decreases m,
{
    if m > 0 {
        lemma_pow10_adds((m - 1) as nat, n);
        assert(10 * (pow10((m - 1) as nat) * pow10(n)) == (10 * pow10((m - 1) as nat)) * pow10(n))
            by (nonlinear_arith);
    }
}

proof fn lemma_pow10_grows(m: nat, n: nat)
    requires
        m <= n,
    ensures
        pow10(m) <= pow10(n),
    decreases n - m,
{
    if m < n {
        lemma_pow10_grows(m, (n - 1) as nat);
        lemma_pow10_positive((n - 1) as nat);
    }
}

/// The number written by one sequence of digits after another.
proof fn lemma_magnitude_of_joined(s: Seq<u8>, t: Seq<u8>)
    ensures
        magnitude(s + t) == magnitude(s) * pow10(t.len()) + magnitude(t),
    decreases t.len(),
{
    if t.len() > 0 {
        let u = t.drop_last();
        lemma_magnitude_of_joined(s, u);
        assert((s + t).drop_last() =~= s + u);
        let p = pow10(u.len());
        assert((magnitude(s) * p + magnitude(u)) * 10 + t.last() == magnitude(s) * (10 * p) + (
        magnitude(u) * 10 + t.last())) by (nonlinear_arith);
    }
}

/// A number of `n` digits is below ten to the `n`, and its first digit bounds
/// it from both sides.
proof fn lemma_magnitude_bounds(s: Seq<u8>)
    requires
        are_digits(s),
    ensures
        0 <= magnitude(s) < pow10(s.len()),
        s.len() > 0 ==> s[0] * pow10((s.len() - 1) as nat) <= magnitude(s) < (s[0] + 1) * pow10(
            (s.len() - 1) as nat,
        ),
    decreases s.len(),
{
    if s.len() > 0 {
        let u = s.drop_last();
        lemma_magnitude_bounds(u);
        if u.len() > 0 {
            let q = pow10((u.len() - 1) as nat);
            let f = s[0] as int;
            let m = magnitude(u);
            let l = s.last() as int;
            assert(f * (10 * q) <= m * 10 + l && m * 10 + l < (f + 1) * (10 * q)) by (nonlinear_arith)
                requires
                    f * q <= m,
                    m < (f + 1) * q,
                    0 <= l <= 9,
            ;
        }
    }
}

/// Zeros write zero.
proof fn lemma_magnitude_of_zeros(s: Seq<u8>)
    requires
        forall|i: int| 0 <= i < s.len() ==> #[trigger] s[i] == 0,
    ensures
        magnitude(s) == 0,
    decreases s.len(),
{
    if s.len() > 0 {
        let u = s.drop_last();
        lemma_magnitude_of_zeros(u);
    }
}

/// The digits of a decimal followed by as many zeros as `pad` says: the digits
/// of its number multiplied by ten to the `pad`.
pub open spec fn padded(digits: Seq<u8>, pad: nat) -> Seq<u8> {
    digits + Seq::new(pad, |i: int| 0u8)
}

proof fn lemma_padded(digits: Seq<u8>, pad: nat)
    requires
        are_digits(digits),
    ensures
        magnitude(padded(digits, pad)) == magnitude(digits) * pow10(pad),
        are_digits(padded(digits, pad)),
        padded(digits, pad).len() == digits.len() + pad,
{
    let zeros = Seq::new(pad, |i: int| 0u8);
    lemma_magnitude_of_joined(digits, zeros);
    lemma_magnitude_of_zeros(zeros);
}

/// Two numbers of the same count of digits that agree on their first `k`
/// digits and differ in the next stand as those digits do.
proof fn lemma_first_difference_decides(x: Seq<u8>, y: Seq<u8>, k: int)
    requires
        are_digits(x),
        are_digits(y),
        x.len() == y.len(),
        0 <= k < x.len(),
        x.take(k) == y.take(k),
        x[k] < y[k],
    ensures
        magnitude(x) < magnitude(y),
{
    let xs = x.skip(k);
    let ys = y.skip(k);
    assert(x =~= x.take(k) + xs);
    assert(y =~= y.take(k) + ys);
    lemma_magnitude_of_joined(x.take(k), xs);
    lemma_magnitude_of_joined(y.take(k), ys);
    lemma_magnitude_bounds(xs);
    lemma_magnitude_bounds(ys);
    let q = pow10((xs.len() - 1) as nat);
    lemma_pow10_positive((xs.len() - 1) as nat);
    let a = xs[0] as int;
    let b = ys[0] as int;
    assert((a + 1) * q <= b * q) by (nonlinear_arith)
        requires
            a + 1 <= b,
            q >= 1,
    ;
}

/// Two numbers of the same count of digits that agree on all of them are one number.
proof fn lemma_same_digits(x: Seq<u8>, y: Seq<u8>)
    requires
        x.len() == y.len(),
        x.take(x.len() as int) == y.take(y.len() as int),
    ensures
        magnitude(x) == magnitude(y),
{
    assert(x =~= x.take(x.len() as int));
    assert(y =~= y.take(y.len() as int));
}

/// A number of more digits, the first of them not zero, is the greater one.
proof fn lemma_longer_is_greater(x: Seq<u8>, y: Seq<u8>)
    requires
        are_digits(x),
        are_digits(y),
        x.len() > y.len(),
        x[0] != 0,
    ensures
        magnitude(y) < magnitude(x),
{
    lemma_magnitude_bounds(x);
    lemma_magnitude_bounds(y);
    lemma_pow10_grows(y.len(), (x.len() - 1) as nat);
    let q = pow10((x.len() - 1) as nat);
    let f = x[0] as int;
    assert(q <= f * q) by (nonlinear_arith)
        requires
            f >= 1,
            q >= 0,
    ;
}

/// Digits without the zeros they begin with write the same number.
proof fn lemma_leading_zeros(s: Seq<u8>, k: int)
    requires
        0 <= k <= s.len(),
        forall|i: int| 0 <= i < k ==> #[trigger] s[i] == 0,
    ensures
        magnitude(s.skip(k)) == magnitude(s),
{
    let zeros = s.take(k);
    assert(s =~= zeros + s.skip(k));
    lemma_magnitude_of_joined(zeros, s.skip(k));
    lemma_magnitude_of_zeros(zeros);
}

impl Clone for Decimal {
    fn clone(&self) -> (d: Decimal)
        ensures
            d@ == self@,
    {
        let mut digits: Vec<u8> = Vec::new();
        let mut i: usize = 0;
        while i < self.digits.len()
            invariant
                i <= self.digits.len(),
                digits@ == self.digits@.take(i as int),
            decreases self.digits.len() - i,
        {
            digits.push(self.digits[i]);
            i += 1;
        }
        assert(digits@ =~= self.digits@);
        Decimal { negative: self.negative, digits, scale: self.scale }
    }
}

impl Decimal {
    /// Whether every digit is at most 9.
    pub fn is_well_formed(&self) -> (b: bool)
        ensures
            b == self@.well_formed(),
    {
        let mut i: usize = 0;
        while i < self.digits.len()
            invariant
                i <= self.digits.len(),
                forall|j: int| 0 <= j < i ==> #[trigger] self.digits@[j] <= 9,
            decreases self.digits.len() - i,
        {
            if self.digits[i] > 9 {
                return false;
            }
            i += 1;
        }
        true
    }

    /// The position of the first digit that is not zero, or the count of
    /// digits where all are.
    fn leading_zeros(&self) -> (k: usize)
        ensures
            k <= self.digits@.len(),
            forall|j: int| 0 <= j < k ==> #[trigger] self.digits@[j] == 0,
            k < self.digits@.len() ==> self.digits@[k as int] != 0,
    {
        let mut k: usize = 0;
        while k < self.digits.len() && self.digits[k] == 0
            invariant
                k <= self.digits.len(),
                forall|j: int| 0 <= j < k ==> #[trigger] self.digits@[j] == 0,
            decreases self.digits.len() - k,
        {
            k += 1;
        }
        k
    }

    /// The digit at a position of the digits followed by zeros without end.
    fn digit_at(&self, from: usize, position: u128) -> (d: u8)
        requires
            from <= self.digits@.len(),
        ensures
            d == (if from + position < self.digits@.len() {
                self.digits@[from + position]
            } else {
                0u8
            }),
    {
        let rest: usize = self.digits.len() - from;
        if position < rest as u128 {
            self.digits[from + position as usize]
        } else {
            0
        }
    }

    /// The order of this decimal and another as numbers.
    pub fn order(&self, other: &Decimal) -> (o: Option<Order>)
        ensures
            o == decimal_order(self@, other@),
    {
        if !self.is_well_formed() || !other.is_well_formed() {
            return None;
        }
        let magnitudes = self.order_of_magnitudes(other);
        let left_zeros = self.leading_zeros();
        let right_zeros = other.leading_zeros();
        let left_is_zero = left_zeros == self.digits.len();
        let right_is_zero = right_zeros == other.digits.len();
        proof {
            lemma_pow10_positive(self@.scale);
            lemma_pow10_positive(other@.scale);
            lemma_magnitude_bounds(self.digits@);
            lemma_magnitude_bounds(other.digits@);
            if left_is_zero {
                lemma_magnitude_of_zeros(self.digits@);
            } else {
                lemma_nonzero_digit(self.digits@, left_zeros as int);
            }
            if right_is_zero {
                lemma_magnitude_of_zeros(other.digits@);
            } else {
                lemma_nonzero_digit(other.digits@, right_zeros as int);
            }
            let a = magnitude(self.digits@);
            let b = magnitude(other.digits@);
            let p = pow10(other@.scale);
            let q = pow10(self@.scale);
            assert((-a) * p == -(a * p)) by (nonlinear_arith);
            assert((-b) * q == -(b * q)) by (nonlinear_arith);
            assert(a * p >= 0 && (a > 0 ==> a * p > 0)) by (nonlinear_arith)
                requires
                    a >= 0,
                    p >= 1,
            ;
            assert(b * q >= 0 && (b > 0 ==> b * q > 0)) by (nonlinear_arith)
                requires
                    b >= 0,
                    q >= 1,
            ;
        }
        let left_negative = self.negative && !left_is_zero;
        let right_negative = other.negative && !right_is_zero;
        if left_negative && right_negative {
            Some(
                match magnitudes {
                    Order::Less => Order::Greater,
                    Order::Equal => Order::Equal,
                    Order::Greater => Order::Less,
                },
            )
        } else if left_negative {
            Some(Order::Less)
        } else if right_negative {
            Some(Order::Greater)
        } else {
            Some(magnitudes)
        }
    }

    /// The order of the two numbers without their signs.
    fn order_of_magnitudes(&self, other: &Decimal) -> (o: Order)
        requires
            self@.well_formed(),
            other@.well_formed(),
        ensures
            o == int_order(
                magnitude(self.digits@) * pow10(other@.scale),
                magnitude(other.digits@) * pow10(self@.scale),
            ),
    {
        let skip_left = self.leading_zeros();
        let skip_right = other.leading_zeros();
        let ghost x = padded(self.digits@.skip(skip_left as int), other@.scale);
        let ghost y = padded(other.digits@.skip(skip_right as int), self@.scale);
        proof {
            lemma_leading_zeros(self.digits@, skip_left as int);
            lemma_leading_zeros(other.digits@, skip_right as int);
            lemma_digits_skipped(self.digits@, skip_left as int);
            lemma_digits_skipped(other.digits@, skip_right as int);
            lemma_padded(self.digits@.skip(skip_left as int), other@.scale);
            lemma_padded(other.digits@.skip(skip_right as int), self@.scale);
        }
        let left_is_zero = skip_left == self.digits.len();
        let right_is_zero = skip_right == other.digits.len();
        if left_is_zero || right_is_zero {
            proof {
                lemma_pow10_positive(self@.scale);
                lemma_pow10_positive(other@.scale);
                lemma_magnitude_bounds(self.digits@.skip(skip_left as int));
                lemma_magnitude_bounds(other.digits@.skip(skip_right as int));
                let a = magnitude(self.digits@);
                let b = magnitude(other.digits@);
                let p = pow10(other@.scale);
                let q = pow10(self@.scale);
                if !left_is_zero {
                    lemma_pow10_positive((self.digits@.len() - skip_left - 1) as nat);
                    assert(a > 0) by (nonlinear_arith)
                        requires
                            self.digits@[skip_left as int] * pow10(
                                (self.digits@.len() - skip_left - 1) as nat,
                            ) <= a,
                            self.digits@[skip_left as int] >= 1,
                            pow10((self.digits@.len() - skip_left - 1) as nat) >= 1,
                    ;
                }
                if !right_is_zero {
                    lemma_pow10_positive((other.digits@.len() - skip_right - 1) as nat);
                    assert(b > 0) by (nonlinear_arith)
                        requires
                            other.digits@[skip_right as int] * pow10(
                                (other.digits@.len() - skip_right - 1) as nat,
                            ) <= b,
                            other.digits@[skip_right as int] >= 1,
                            pow10((other.digits@.len() - skip_right - 1) as nat) >= 1,
                    ;
                }
                assert(a > 0 ==> a * p > 0) by (nonlinear_arith)
                    requires
                        p >= 1,
                ;
                assert(b > 0 ==> b * q > 0) by (nonlinear_arith)
                    requires
                        q >= 1,
                ;
                assert(a == 0 ==> a * p == 0) by (nonlinear_arith);
                assert(b == 0 ==> b * q == 0) by (nonlinear_arith);
            }
            return if left_is_zero && right_is_zero {
                Order::Equal
            } else if left_is_zero {
                Order::Less
            } else {
                Order::Greater
            };
        }
        let left_len: u128 = (self.digits.len() - skip_left) as u128 + other.scale as u128;
        let right_len: u128 = (other.digits.len() - skip_right) as u128 + self.scale as u128;
        if left_len < right_len {
            proof {
                lemma_longer_is_greater(y, x);
            }
            return Order::Less;
        }
        if left_len > right_len {
            proof {
                lemma_longer_is_greater(x, y);
            }
            return Order::Greater;
        }
        let mut k: u128 = 0;
        while k < left_len
            invariant
                k <= left_len,
                left_len == x.len(),
                x.len() == y.len(),
                are_digits(x),
                are_digits(y),
                skip_left <= self.digits@.len(),
                skip_right <= other.digits@.len(),
                x == padded(self.digits@.skip(skip_left as int), other@.scale),
                y == padded(other.digits@.skip(skip_right as int), self@.scale),
                x.take(k as int) == y.take(k as int),
                magnitude(x) == magnitude(self.digits@) * pow10(other@.scale),
                magnitude(y) == magnitude(other.digits@) * pow10(self@.scale),
            decreases left_len - k,
        {
            let a = self.digit_at(skip_left, k);
            let b = other.digit_at(skip_right, k);
            if a < b {
                proof {
                    lemma_first_difference_decides(x, y, k as int);
                }
                return Order::Less;
            }
            if a > b {
                proof {
                    lemma_first_difference_decides(y, x, k as int);
                }
                return Order::Greater;
            }
            k += 1;
        }
        proof {
            lemma_same_digits(x, y);
        }
        Order::Equal
    }
}

/// Digits past the first of them are digits.
proof fn lemma_digits_skipped(s: Seq<u8>, k: int)
    requires
        are_digits(s),
        0 <= k <= s.len(),
    ensures
        are_digits(s.skip(k)),
{
    let t = s.skip(k);
}

/// A number with a digit that is not zero is not zero.
proof fn lemma_nonzero_digit(s: Seq<u8>, k: int)
    requires
        are_digits(s),
        0 <= k < s.len(),
        s[k] != 0,
    ensures
        magnitude(s) > 0,
{
    let head = s.take(k);
    let tail = s.skip(k);
    assert(s =~= head + tail);
    lemma_magnitude_of_joined(head, tail);
    lemma_digits_skipped(s, k);
    lemma_magnitude_bounds(tail);
    lemma_magnitude_bounds(head);
    lemma_pow10_positive(tail.len());
    lemma_pow10_positive((tail.len() - 1) as nat);
    let f = tail[0] as int;
    let q = pow10((tail.len() - 1) as nat);
    assert(f * q >= 1) by (nonlinear_arith)
        requires
            f >= 1,
            q >= 1,
    ;
    let h = magnitude(head);
    let p = pow10(tail.len());
    assert(h * p >= 0) by (nonlinear_arith)
        requires
            h >= 0,
            p >= 1,
    ;
}

} // verus!
