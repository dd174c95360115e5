use vstd::prelude::*;
use crate::scalar::Scalar;

verus! {

/// The least of the first `n` values as a scan from the front finds it: the
/// first value is taken, and each later value replaces what is held when it
/// is less than it. A NaN is less than nothing, so a NaN in front is never
/// replaced and a NaN further back is never taken.
pub open spec fn least(values: Seq<Scalar>, n: nat) -> Scalar
    recommends
        0 < n <= values.len(),
    decreases n,
{
    if n <= 1 {
        values[0]
    } else {
        let held = least(values, (n - 1) as nat);
        if values[n - 1].spec_less_than(held) {
            values[n - 1]
        } else {
            held
        }
    }
}

/// The greatest of the first `n` values as a scan from the front finds it:
/// each later value replaces what is held when what is held is less than it.
pub open spec fn greatest(values: Seq<Scalar>, n: nat) -> Scalar
    recommends
        0 < n <= values.len(),
    decreases n,
{
    if n <= 1 {
        values[0]
    } else {
        let held = greatest(values, (n - 1) as nat);
        if held.spec_less_than(values[n - 1]) {
            values[n - 1]
        } else {
            held
        }
    }
}

/// The least and the greatest of the values, in this order, or `None` where
/// there is no value.
pub fn extrema(values: &Vec<Scalar>) -> (out: Option<(Scalar, Scalar)>)
    ensures
        match out {
            Some((low, high)) => values@.len() > 0 && low == least(values@, values@.len())
                && high == greatest(values@, values@.len()),
            None => values@.len() == 0,
        },
{
    if values.len() == 0 {
        return None;
    }
    let mut low: Scalar = values[0];
    let mut high: Scalar = values[0];
    let mut k: usize = 1;
    while k < values.len()
        invariant
            1 <= k <= values@.len(),
            low == least(values@, k as nat),
            high == greatest(values@, k as nat),
        decreases values@.len() - k,
    {
        let x: Scalar = values[k];
        if x.less_than(low) {
            low = x;
        }
        if high.less_than(x) {
            high = x;
        }
        k = k + 1;
    }
    Some((low, high))
}

/// Behind a number in front, the least value found is a number, is one of
/// the values, and has none of them below it.
pub proof fn least_is_a_lower_bound(values: Seq<Scalar>, n: nat)
    requires
        0 < n <= values.len(),
        !values[0].spec_is_nan(),
    ensures
        !least(values, n).spec_is_nan(),
        exists|j: int| 0 <= j < n && values[j] == least(values, n),
        forall|k: int| 0 <= k < n ==> !(#[trigger] values[k]).spec_less_than(least(values, n)),
    decreases n,
{
    if n > 1 {
        least_is_a_lower_bound(values, (n - 1) as nat);
        let held = least(values, (n - 1) as nat);
        let j = choose|j: int| 0 <= j < n - 1 && values[j] == held;
        if values[n - 1].spec_less_than(held) {
            assert(values[n - 1] == least(values, n));
        } else {
            assert(values[j] == least(values, n));
        }
    } else {
        assert(values[0] == least(values, n));
    }
}

/// Behind a number in front, the greatest value found is a number, is one
/// of the values, and is below none of them.
pub proof fn greatest_is_an_upper_bound(values: Seq<Scalar>, n: nat)
    requires
        0 < n <= values.len(),
        !values[0].spec_is_nan(),
    ensures
        !greatest(values, n).spec_is_nan(),
        exists|j: int| 0 <= j < n && values[j] == greatest(values, n),
        forall|k: int| 0 <= k < n ==> !greatest(values, n).spec_less_than(#[trigger] values[k]),
    decreases n,
{
    if n > 1 {
        greatest_is_an_upper_bound(values, (n - 1) as nat);
        let held = greatest(values, (n - 1) as nat);
        let j = choose|j: int| 0 <= j < n - 1 && values[j] == held;
        if held.spec_less_than(values[n - 1]) {
            assert(values[n - 1] == greatest(values, n));
        } else {
            assert(values[j] == greatest(values, n));
        }
    } else {
        assert(values[0] == greatest(values, n));
    }
}

/// A NaN in front is both the least and the greatest value found, whatever
/// follows it.
pub proof fn nan_in_front_stays(values: Seq<Scalar>, n: nat)
    requires
        0 < n <= values.len(),
        values[0].spec_is_nan(),
    ensures
        least(values, n) == values[0],
        greatest(values, n) == values[0],
    decreases n,
{
    if n > 1 {
        nan_in_front_stays(values, (n - 1) as nat);
    }
}

/// The least value found is never above the greatest.
pub proof fn least_is_not_above_greatest(values: Seq<Scalar>, n: nat)
    requires
        0 < n <= values.len(),
    ensures
        !greatest(values, n).spec_less_than(least(values, n)),
    decreases n,
{
    if n > 1 {
        least_is_not_above_greatest(values, (n - 1) as nat);
    }
}

} // verus!
