//! Picking the best of a list of costs.

use crate::scalar::{lit, Scalar};
use vstd::prelude::*;

verus! {

/// Largest finite number.
pub const LARGEST: u64 = 0x7FEF_FFFF_FFFF_FFFF;

/// Smallest finite number.
pub const SMALLEST: u64 = 0xFFEF_FFFF_FFFF_FFFF;

/// No cost in the list is a NaN.
pub open spec fn comparable(costs: Seq<Scalar>) -> bool {
    forall|i: int| 0 <= i < costs.len() ==> !(#[trigger] costs[i]).nan()
}

/// `k` is the first place of a smallest cost.
pub open spec fn is_first_minimum(costs: Seq<Scalar>, k: int) -> bool {
    &&& 0 <= k < costs.len()
    &&& forall|i: int| 0 <= i < costs.len() ==> costs[k].at_most(#[trigger] costs[i])
    &&& forall|i: int| 0 <= i < k ==> costs[k].below(#[trigger] costs[i])
}

/// The first place of a smallest cost.
pub fn first_minimum(costs: &Vec<Scalar>) -> (r: usize)
    requires
        costs@.len() > 0,
        comparable(costs@),
    ensures
        is_first_minimum(costs@, r as int),
{
    let mut best: usize = 0;
    let mut i: usize = 1;
    while i < costs.len()
        invariant
            comparable(costs@),
            0 <= best < i <= costs@.len(),
            forall|k: int| 0 <= k < i ==> costs@[best as int].at_most(#[trigger] costs@[k]),
            forall|k: int| 0 <= k < best ==> costs@[best as int].below(#[trigger] costs@[k]),
        decreases costs@.len() - i,
    {
        if costs[i].lt(costs[best]) {
            best = i;
        }
        i = i + 1;
    }
    best
}

/// A list has at most one first minimum.
pub proof fn first_minimum_is_unique(costs: Seq<Scalar>, a: int, b: int)
    requires
        is_first_minimum(costs, a),
        is_first_minimum(costs, b),
    ensures
        a == b,
{
    if a < b {
        assert(costs[b].below(costs[a]));
        assert(costs[a].at_most(costs[b]));
    } else if b < a {
        assert(costs[a].below(costs[b]));
        assert(costs[b].at_most(costs[a]));
    }
}

/// The leader among the first `n` entries: the first that has a cost leads,
/// and a later one takes over where its cost is smaller. Absent costs are
/// passed over.
pub open spec fn leader(costs: Seq<Option<Scalar>>, n: int) -> Option<int>
    decreases n,
{
    if n <= 0 {
        None
    } else {
        let before = leader(costs, n - 1);
        match costs[n - 1] {
            None => before,
            Some(c) => match before {
                None => Some(n - 1),
                Some(k) => if c.below(costs[k]->Some_0) {
                    Some(n - 1)
                } else {
                    Some(k)
                },
            },
        }
    }
}

/// There is a leader exactly where a cost is present, whatever the costs are.
pub proof fn leader_exists(costs: Seq<Option<Scalar>>, n: int)
    requires
        0 <= n <= costs.len(),
    ensures
        leader(costs, n) is Some <==> exists|i: int| 0 <= i < n && (#[trigger] costs[i]) is Some,
    decreases n,
{
    if n > 0 {
        leader_exists(costs, n - 1);
        if costs[n - 1] is None && exists|i: int| 0 <= i < n && (#[trigger] costs[i]) is Some {
            let j = choose|i: int| 0 <= i < n && (#[trigger] costs[i]) is Some;
            assert(0 <= j < n - 1);
        }
    }
}

/// The best of a list with absent costs, or `None` where all are absent.
pub fn best_choice(costs: &Vec<Option<Scalar>>) -> (r: Option<usize>)
    ensures
        match r {
            Some(k) => leader(costs@, costs@.len() as int) == Some(k as int) && k < costs@.len()
                && costs@[k as int] is Some,
            None => leader(costs@, costs@.len() as int) is None,
        },
{
    let mut best: Option<usize> = None;
    let mut i: usize = 0;
    while i < costs.len()
        invariant
            i <= costs@.len(),
            match best {
                Some(k) => leader(costs@, i as int) == Some(k as int) && k < i && costs@[k as int] is Some,
                None => leader(costs@, i as int) is None,
            },
        decreases costs@.len() - i,
    {
        if let Some(c) = costs[i] {
            match best {
                None => {
                    best = Some(i);
                },
                Some(k) => {
                    if c.lt(costs[k].unwrap()) {
                        best = Some(i);
                    }
                },
            }
        }
        i = i + 1;
    }
    best
}

/// Where every cost that is present is a number, the leader has a smallest cost
/// and is the first with it; and there is one exactly where a cost is present.
pub proof fn leader_is_first_minimum(costs: Seq<Option<Scalar>>, n: int)
    requires
        0 <= n <= costs.len(),
        forall|i: int| 0 <= i < n && (#[trigger] costs[i]) is Some ==> !costs[i]->Some_0.nan(),
    ensures
        match leader(costs, n) {
            None => forall|i: int| 0 <= i < n ==> (#[trigger] costs[i]) is None,
            Some(k) => {
                &&& 0 <= k < n
                &&& costs[k] is Some
                &&& forall|i: int|
                    0 <= i < n && (#[trigger] costs[i]) is Some ==> costs[k]->Some_0.at_most(
                        costs[i]->Some_0,
                    )
                &&& forall|i: int|
                    0 <= i < k && (#[trigger] costs[i]) is Some ==> costs[k]->Some_0.below(
                        costs[i]->Some_0,
                    )
            },
        },
    decreases n,
{
    if n > 0 {
        leader_is_first_minimum(costs, n - 1);
    }
}

/// Best fitness of the entries so far, kept where it is no worse than the new
/// one.
pub fn keeps_best(best: Option<Scalar>, new: Scalar) -> (r: bool)
    ensures
        r == (best is Some && best->Some_0.at_most(new)),
{
    match best {
        Some(b) => b.le(new),
        None => false,
    }
}

/// The better of two optional results; the first where they are equal.
#[derive(Clone, Copy, Debug, PartialEq, Eq, Structural)]
pub enum Better {
    First,
    Second,
    Neither,
}

/// Choose between two optional costs.
pub fn better_of(a: Option<Scalar>, b: Option<Scalar>) -> (r: Better)
    ensures
        r == (match (a, b) {
            (Some(x), Some(y)) => if x.at_most(y) {
                Better::First
            } else {
                Better::Second
            },
            (Some(_), None) => Better::First,
            (None, Some(_)) => Better::Second,
            (None, None) => Better::Neither,
        }),
{
    match a {
        Some(x) => match b {
            Some(y) => if x.le(y) {
                Better::First
            } else {
                Better::Second
            },
            None => Better::First,
        },
        None => match b {
            Some(_) => Better::Second,
            None => Better::Neither,
        },
    }
}

/// The smallest cost under `limit` among the first `n`, with its place: a cost
/// under the best so far takes over, starting from `limit` itself.
pub open spec fn best_under(costs: Seq<Option<Scalar>>, limit: Scalar, n: int) -> (Option<int>, Scalar)
    decreases n,
{
    if n <= 0 {
        (None, limit)
    } else {
        let before = best_under(costs, limit, n - 1);
        match costs[n - 1] {
            Some(c) if c.below(before.1) => (Some(n - 1), c),
            _ => before,
        }
    }
}

/// Place of the smallest cost below the largest finite number.
pub fn best_finite(costs: &Vec<Option<Scalar>>) -> (r: Option<usize>)
    ensures
        match r {
            Some(k) => best_under(costs@, lit(LARGEST), costs@.len() as int).0 == Some(k as int) && k
                < costs@.len(),
            None => best_under(costs@, lit(LARGEST), costs@.len() as int).0 is None,
        },
{
    let mut place: Option<usize> = None;
    let mut value: Scalar = Scalar::from_bits(LARGEST);
    let mut i: usize = 0;
    while i < costs.len()
        invariant
            i <= costs@.len(),
            value == best_under(costs@, lit(LARGEST), i as int).1,
            match place {
                Some(k) => best_under(costs@, lit(LARGEST), i as int).0 == Some(k as int) && k < i,
                None => best_under(costs@, lit(LARGEST), i as int).0 is None,
            },
        decreases costs@.len() - i,
    {
        if let Some(c) = costs[i] {
            if c.lt(value) {
                place = Some(i);
                value = c;
            }
        }
        i = i + 1;
    }
    place
}

/// What `best_under` picks is under the limit and no larger than any cost.
pub proof fn best_under_is_minimal(costs: Seq<Option<Scalar>>, limit: Scalar, n: int)
    requires
        0 <= n <= costs.len(),
        !limit.nan(),
    ensures
        ({
            let (place, value) = best_under(costs, limit, n);
            &&& !value.nan()
            &&& value.at_most(limit)
            &&& place matches Some(k) ==> 0 <= k < n && costs[k] == Some(value) && value.below(limit)
            &&& place is None ==> value == limit
            &&& forall|i: int|
                0 <= i < n && (#[trigger] costs[i]) is Some && !costs[i]->Some_0.nan() ==> value.at_most(
                    costs[i]->Some_0,
                )
        }),
    decreases n,
{
    if n > 0 {
        best_under_is_minimal(costs, limit, n - 1);
    }
}

/// The peak among the first `n` samples: the first of the largest finite ones
/// above the smallest finite number, at place 0 where there is none.
pub open spec fn peak_among(samples: Seq<Scalar>, n: int) -> (int, Scalar)
    decreases n,
{
    if n <= 0 {
        (0, lit(SMALLEST))
    } else {
        let before = peak_among(samples, n - 1);
        let v = samples[n - 1];
        if v.finite() && before.1.below(v) {
            (n - 1, v)
        } else {
            before
        }
    }
}

/// The peak of a list of samples.
pub fn peak(samples: &Vec<Scalar>) -> (r: (usize, Scalar))
    ensures
        (r.0 as int, r.1) == peak_among(samples@, samples@.len() as int),
{
    let mut place: usize = 0;
    let mut value: Scalar = Scalar::from_bits(SMALLEST);
    let mut i: usize = 0;
    while i < samples.len()
        invariant
            i <= samples@.len(),
            (place as int, value) == peak_among(samples@, i as int),
        decreases samples@.len() - i,
    {
        if samples[i].is_finite() && samples[i].gt(value) {
            place = i;
            value = samples[i];
        }
        i = i + 1;
    }
    (place, value)
}

/// No finite sample exceeds the peak.
pub proof fn peak_is_largest(samples: Seq<Scalar>, n: int)
    requires
        0 <= n <= samples.len(),
    ensures
        peak_among(samples, n).1.finite(),
        forall|i: int|
            0 <= i < n && (#[trigger] samples[i]).finite() ==> samples[i].at_most(peak_among(samples, n).1),
    decreases n,
{
    if n > 0 {
        peak_is_largest(samples, n - 1);
        lemma_smallest_is_smallest(samples[n - 1]);
    } else {
        lemma_smallest_is_smallest(lit(SMALLEST));
    }
}

proof fn lemma_smallest_is_smallest(v: Scalar)
    ensures
        lit(SMALLEST).finite(),
        v.finite() ==> lit(SMALLEST).at_most(v),
{
}

/// The largest among 0 and the first `n` values.
pub open spec fn largest_among(values: Seq<Scalar>, n: int) -> Scalar
    decreases n,
{
    if n <= 0 {
        lit(0)
    } else {
        largest_among(values, n - 1).larger(values[n - 1])
    }
}

/// The largest among 0 and the values.
pub fn running_max(values: &Vec<Scalar>) -> (r: Scalar)
    ensures
        r == largest_among(values@, values@.len() as int),
{
    let mut m: Scalar = Scalar::from_bits(0);
    let mut i: usize = 0;
    while i < values.len()
        invariant
            i <= values@.len(),
            m == largest_among(values@, i as int),
        decreases values@.len() - i,
    {
        m = m.max(values[i]);
        i = i + 1;
    }
    m
}

/// The running maximum is a number no smaller than 0 or than any value.
pub proof fn running_max_bounds(values: Seq<Scalar>, n: int)
    requires
        0 <= n <= values.len(),
    ensures
        !largest_among(values, n).nan(),
        lit(0).at_most(largest_among(values, n)),
        forall|i: int|
            0 <= i < n && !(#[trigger] values[i]).nan() ==> values[i].at_most(largest_among(values, n)),
    decreases n,
{
    if n > 0 {
        running_max_bounds(values, n - 1);
    }
}

/// Of several equal costs under the limit the first is picked, and a cost under the
/// limit never goes unnoticed.
pub proof fn best_under_is_first(costs: Seq<Option<Scalar>>, limit: Scalar, n: int)
    requires
        0 <= n <= costs.len(),
        !limit.nan(),
    ensures
        best_under(costs, limit, n).0 matches Some(k) ==> forall|i: int|
            0 <= i < k && (#[trigger] costs[i]) is Some && !costs[i]->Some_0.nan() ==> best_under(
                costs,
                limit,
                n,
            ).1.below(costs[i]->Some_0),
        best_under(costs, limit, n).0 is None <==> forall|i: int|
            0 <= i < n ==> !((#[trigger] costs[i]) is Some && costs[i]->Some_0.below(limit)),
    decreases n,
{
    if n > 0 {
        best_under_is_first(costs, limit, n - 1);
        best_under_is_minimal(costs, limit, n - 1);
        if best_under(costs, limit, n - 1).0 is Some {
            let k = best_under(costs, limit, n - 1).0->Some_0;
            assert(costs[k] is Some && costs[k]->Some_0.below(limit));
        }
    }
}

/// The peak stands at the place given for it and is the first of its size; without a
/// finite sample above the smallest number it is that number, at place 0.
pub proof fn peak_stands_at_its_place(samples: Seq<Scalar>, n: int)
    requires
        0 <= n <= samples.len(),
    ensures
        ({
            let (k, v) = peak_among(samples, n);
            &&& v != lit(SMALLEST) ==> 0 <= k < n && samples[k] == v
            &&& v == lit(SMALLEST) ==> k == 0
            &&& forall|i: int| 0 <= i < k && (#[trigger] samples[i]).finite() ==> samples[i].below(v)
        }),
    decreases n,
{
    if n > 0 {
        peak_stands_at_its_place(samples, n - 1);
        peak_is_largest(samples, n - 1);
    }
}

/// The running maximum is one of the values, or 0.
pub proof fn running_max_is_attained(values: Seq<Scalar>, n: int)
    requires
        0 <= n <= values.len(),
    ensures
        largest_among(values, n) == lit(0) || exists|i: int|
            0 <= i < n && (#[trigger] values[i]) == largest_among(values, n),
    decreases n,
{
    if n > 0 {
        running_max_is_attained(values, n - 1);
        if largest_among(values, n) == values[n - 1] {
        } else if largest_among(values, n - 1) != lit(0) {
            let i = choose|i: int| 0 <= i < n - 1 && (#[trigger] values[i]) == largest_among(values, n - 1);
            assert(values[i] == largest_among(values, n));
        }
    }
}

/// Of two results the cheaper is taken, the first where they cost the same, and the
/// only one where there is one.
pub proof fn cheaper_result_is_taken(a: Option<Scalar>, b: Option<Scalar>, r: Better)
    requires
        call_ensures(better_of, (a, b), r),
    ensures
        r == Better::Neither <==> a is None && b is None,
        r == Better::First ==> (a matches Some(x) && (b matches Some(y) ==> x.at_most(y))),
        r == Better::Second ==> (b matches Some(y) && (a matches Some(x) ==> !x.at_most(y))),
{
}

/// A best result is kept against every new one that is no better, and given up for
/// one that is; the first result is always taken.
pub proof fn best_is_given_up_for_better(best: Option<Scalar>, new: Scalar, r: bool)
    requires
        call_ensures(keeps_best, (best, new), r),
    ensures
        best is None ==> !r,
        best matches Some(b) ==> b.at_most(new) ==> r,
        best matches Some(b) ==> new.below(b) ==> !r,
{
}

} // verus!
