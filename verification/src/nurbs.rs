//! Knot vectors of NURBS curves. The knots of an open uniform knot vector are whole
//! numbers; the curve's evaluation uses them as floating point values.
use vstd::prelude::*;

verus! {

/// The order of a spline curve (its degree plus one).
#[allow(non_camel_case_types)]
#[derive(Clone, Copy, PartialEq, Eq, Structural, Debug)]
pub enum Order {
    LINEAR,
    QUADRATIC,
    CUBIC,
    QUARTIC,
}

/// The numeric order: 2 for linear up to 5 for quartic.
pub open spec fn order_value(o: Order) -> nat {
    match o {
        Order::LINEAR => 2,
        Order::QUADRATIC => 3,
        Order::CUBIC => 4,
        Order::QUARTIC => 5,
    }
}

impl Order {
    /// The numeric order: 2 for linear up to 5 for quartic.
    pub fn value(&self) -> (r: usize)
        ensures
            r == order_value(*self),
    {
        match self {
            Order::LINEAR => 2,
            Order::QUADRATIC => 3,
            Order::CUBIC => 4,
            Order::QUARTIC => 5,
        }
    }
}

/// Knot `i` of the open uniform knot vector of order `k` over `n` control points:
/// `k` zeros, then 1, 2, ..., `n - k`, then `k` copies of `n - k + 1`.
pub open spec fn knot(k: nat, n: nat, i: nat) -> nat {
    if i < k {
        0
    } else if i < n {
        (i - k + 1) as nat
    } else {
        (n - k + 1) as nat
    }
}

/// The open uniform knot vector of order `order` over `num_controlpoints` control
/// points; it has one knot per control point plus one per unit of order.
pub fn generate_knots(order: Order, num_controlpoints: usize) -> (knots: Vec<usize>)
    requires
        order_value(order) <= num_controlpoints,
        num_controlpoints + 5 <= usize::MAX,
    ensures
        knots@.len() == num_controlpoints + order_value(order),
        forall|i: int|
            0 <= i < knots@.len() ==> #[trigger] knots@[i] == knot(
                order_value(order),
                num_controlpoints as nat,
                i as nat,
            ),
{
    let k = order.value();
    let n = num_controlpoints;
    let mut knots: Vec<usize> = Vec::new();
    let mut val: usize = 0;
    let step: usize = 1;
    let mut i: usize = 0;
    while i < k
        invariant
            k == order_value(order),
            0 <= i <= k,
            val == 0,
            knots@.len() == i,
            forall|j: int| 0 <= j < i ==> #[trigger] knots@[j] == knot(k as nat, n as nat, j as nat),
        decreases k - i,
    {
        knots.push(val);
        i = i + 1;
    }
    val = val + step;
    let mut i: usize = 0;
    while i < n - k
        invariant
            k == order_value(order),
            k <= n,
            n + 5 <= usize::MAX,
            0 <= i <= n - k,
            val == i + 1,
            step == 1,
            knots@.len() == k + i,
            forall|j: int| 0 <= j < k + i ==> #[trigger] knots@[j] == knot(k as nat, n as nat, j as nat),
        decreases n - k - i,
    {
        knots.push(val);
        val = val + step;
        i = i + 1;
    }
    let mut i: usize = 0;
    while i < k
        invariant
            k == order_value(order),
            k <= n,
            0 <= i <= k,
            val == n - k + 1,
            knots@.len() == n + i,
            forall|j: int| 0 <= j < n + i ==> #[trigger] knots@[j] == knot(k as nat, n as nat, j as nat),
        decreases k - i,
    {
        knots.push(val);
        i = i + 1;
    }
    knots
}

/// The exclusive limit of the values a curve can be evaluated at: its last knot.
pub fn eval_limit(knots: &Vec<usize>) -> (r: usize)
    requires
        knots@.len() > 0,
    ensures
        r == knots@.last(),
{
    knots[knots.len() - 1]
}

/// Knot law: an open uniform knot vector never decreases, starts with `k` zeros and
/// ends with `k` copies of its evaluation limit `n - k + 1`.
pub proof fn law_knots_open_uniform(k: nat, n: nat)
    requires
        2 <= k <= n,
    ensures
        forall|i: nat, j: nat| i <= j < n + k ==> #[trigger] knot(k, n, i) <= #[trigger] knot(k, n, j),
        forall|i: nat| i < k ==> #[trigger] knot(k, n, i) == 0,
        forall|i: nat| n <= i < n + k ==> #[trigger] knot(k, n, i) == n - k + 1,
        knot(k, n, (n + k - 1) as nat) == n - k + 1,
{
}

} // verus!
