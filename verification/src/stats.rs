//! Robust statistics over small windows of fixed-point values: the median
//! and the median absolute deviation (MAD).

use vstd::prelude::*;
use vstd::relations::{sorted_by, total_ordering};
use vstd::seq_lib::{lemma_sorted_unique, to_multiset_update};
use crate::fixed::{abs, floor_div, sat, saturate};

verus! {

/// The order by which values are ranked.
pub open spec fn leq() -> spec_fn(i64, i64) -> bool {
    |a: i64, b: i64| a <= b
}

/// `s` is in ascending order.
pub open spec fn ascending(s: Seq<i64>) -> bool {
    forall|i: int, j: int| 0 <= i <= j < s.len() ==> s[i] <= s[j]
}

/// The middle of an ascending sequence: zero if it is empty, its central
/// element if the length is odd, else the mean of the two central elements,
/// rounded down.
pub open spec fn middle(s: Seq<i64>) -> int {
    let n = s.len() as int;
    if n == 0 {
        0
    } else if n % 2 == 1 {
        s[n / 2] as int
    } else {
        (s[n / 2 - 1] + s[n / 2]) / 2
    }
}

/// The median of `s`: the middle of its ascending rearrangement.
pub open spec fn median(s: Seq<i64>) -> int {
    middle(s.sort_by(leq()))
}

/// The distance of each element of `s` from `center`, multiplied by `scale`
/// and saturated to 64 bits.
pub open spec fn deviations(s: Seq<i64>, center: int, scale: int) -> Seq<i64> {
    Seq::new(s.len(), |i: int| sat(abs(s[i] - center) * scale) as i64)
}

/// The median absolute deviation of `s` from its own median, in units of
/// `1 / scale`.
pub open spec fn mad(s: Seq<i64>, scale: int) -> int {
    median(deviations(s, median(s), scale))
}

/// The ascending rearrangement of a sequence is in ascending order.
pub proof fn lemma_sort_ascending(s: Seq<i64>)
    ensures
        ascending(s.sort_by(leq())),
        s.sort_by(leq()).to_multiset() == s.to_multiset(),
        s.sort_by(leq()).len() == s.len(),
        forall|x: i64| #[trigger] s.sort_by(leq()).contains(x) ==> s.contains(x),
{
    assert(total_ordering(leq()));
    s.lemma_sort_by_ensures(leq());
    let sorted = s.sort_by(leq());
    assert forall|i: int, j: int| 0 <= i <= j < sorted.len() implies sorted[i] <= sorted[j] by {
        if i < j {
            assert(leq()(sorted[i], sorted[j]));
        }
    }
    vstd::seq_lib::to_multiset_len(s);
    vstd::seq_lib::to_multiset_len(sorted);
}

/// The ascending rearrangement of a sequence is unique, so any ascending
/// sequence with the same elements as `s` is `s.sort_by(leq())`.
pub proof fn lemma_ascending_is_sort(sorted: Seq<i64>, s: Seq<i64>)
    requires
        ascending(sorted),
        sorted.to_multiset() == s.to_multiset(),
    ensures
        sorted == s.sort_by(leq()),
{
    assert(total_ordering(leq()));
    s.lemma_sort_by_ensures(leq());
    assert(sorted_by(sorted, leq()));
    lemma_sorted_unique(sorted, s.sort_by(leq()), leq());
}

/// The middle of a sequence lies between its least and its greatest element.
pub proof fn lemma_middle_bounds(s: Seq<i64>)
    requires
        ascending(s),
    ensures
        i64::MIN <= middle(s) <= i64::MAX,
        s.len() > 0 ==> s[0] <= middle(s) <= s[s.len() - 1],
{
    let n: int = s.len() as int;
    if n > 0 && n % 2 == 0 {
        assert(s[0] <= s[n / 2 - 1] <= s[n / 2] <= s[n - 1]);
    } else if n > 0 {
        assert(s[0] <= s[n / 2] <= s[n - 1]);
    }
}

/// The median of a sequence fits in 64 bits, and so does its MAD, which is
/// never negative.
pub proof fn lemma_deviation_bounds(s: Seq<i64>, scale: int)
    requires
        scale >= 0,
    ensures
        i64::MIN <= median(s) <= i64::MAX,
        s.len() > 0 ==> 0 <= mad(s, scale) <= i64::MAX,
        s.len() == 0 ==> mad(s, scale) == 0,
{
    lemma_sort_ascending(s);
    let sorted = s.sort_by(leq());
    lemma_middle_bounds(sorted);
    let devs = deviations(s, median(s), scale);
    lemma_sort_ascending(devs);
    let ranked = devs.sort_by(leq());
    lemma_middle_bounds(ranked);
    if s.len() > 0 {
        assert(ranked.contains(ranked[0]));
        assert(devs.contains(ranked[0]));
        let k: int = choose|k: int| 0 <= k < devs.len() && devs[k] == ranked[0];
        assert(abs(s[k] - median(s)) * scale >= 0) by (nonlinear_arith)
            requires
                abs(s[k] - median(s)) >= 0,
                scale >= 0,
        ;
        assert(devs[k] >= 0);
    }
}

/// Sorts `vals` into ascending order and returns their median.
pub fn median_inplace(vals: &mut Vec<i64>) -> (m: i64)
    ensures
        ascending(final(vals)@),
        final(vals)@.to_multiset() == old(vals)@.to_multiset(),
        m == middle(final(vals)@),
        m == median(old(vals)@),
{
    let n: usize = vals.len();
    let mut i: usize = 1;
    while i < n
        invariant
            n == vals.len(),
            1 <= i,
            n > 0 ==> i <= n,
            vals@.to_multiset() == old(vals)@.to_multiset(),
            forall|a: int, b: int| 0 <= a <= b < i && b < n ==> vals@[a] <= vals@[b],
        decreases n - i,
    {
        let mut j: usize = i;
        while j > 0 && vals[j - 1] > vals[j]
            invariant
                n == vals.len(),
                0 <= j <= i < n,
                vals@.to_multiset() == old(vals)@.to_multiset(),
                forall|a: int, b: int| 0 <= a <= b <= i && a != j && b != j ==> vals@[a] <= vals@[b],
                forall|b: int| j < b <= i ==> vals@[j as int] <= vals@[b],
            decreases j,
        {
            let lower: i64 = vals[j - 1];
            let upper: i64 = vals[j];
            proof {
                broadcast use to_multiset_update;
                broadcast use vstd::multiset::group_multiset_axioms;
                let before = vals@;
                let mid = before.update(j - 1, upper);
                before.to_multiset_ensures();
                assert(before[j - 1] == lower && before.contains(lower));
                assert(before.to_multiset().count(lower) > 0);
                assert(mid.to_multiset() == before.to_multiset().insert(upper).remove(lower));
                assert(mid[j as int] == upper);
                assert(mid.update(j as int, lower).to_multiset() == mid.to_multiset().insert(
                    lower,
                ).remove(upper));
                assert(mid.update(j as int, lower).to_multiset() =~= before.to_multiset());
            }
            vals.set(j - 1, upper);
            vals.set(j, lower);
            j -= 1;
        }
        i += 1;
    }
    proof {
        assert(ascending(vals@));
        lemma_ascending_is_sort(vals@, old(vals)@);
        lemma_middle_bounds(vals@);
    }
    if n == 0 {
        0
    } else if n % 2 == 1 {
        vals[n / 2]
    } else {
        let sum: i128 = vals[n / 2 - 1] as i128 + vals[n / 2] as i128;
        floor_div(sum, 2) as i64
    }
}

/// The median of `vals`, which are left as they are.
pub fn median_of(vals: &Vec<i64>) -> (m: i64)
    ensures
        m == median(vals@),
{
    let mut sorted: Vec<i64> = Vec::new();
    let mut i: usize = 0;
    while i < vals.len()
        invariant
            i <= vals.len(),
            sorted@ == vals@.take(i as int),
        decreases vals.len() - i,
    {
        sorted.push(vals[i]);
        proof {
            assert(sorted@ == vals@.take(i + 1));
        }
        i += 1;
    }
    proof {
        assert(vals@.take(vals.len() as int) == vals@);
    }
    median_inplace(&mut sorted)
}

/// The median of `vals` and their median absolute deviation in units of
/// `1 / scale`.
pub fn median_and_mad(vals: &Vec<i64>, scale: i64) -> (r: (i64, i64))
    ensures
        r.0 == median(vals@),
        r.1 == mad(vals@, scale as int),
{
    let center: i64 = median_of(vals);
    let mut devs: Vec<i64> = Vec::new();
    let mut i: usize = 0;
    while i < vals.len()
        invariant
            i <= vals.len(),
            devs@ == deviations(vals@, center as int, scale as int).take(i as int),
        decreases vals.len() - i,
    {
        let wide: i128 = vals[i] as i128 - center as i128;
        let dist: i128 = if wide < 0 { -wide } else { wide };
        assert(-0xffff_ffff_ffff_ffff * 0x8000_0000_0000_0000 <= dist * scale
            <= 0xffff_ffff_ffff_ffff * 0x8000_0000_0000_0000) by (nonlinear_arith)
            requires
                0 <= dist <= 0xffff_ffff_ffff_ffff,
                -0x8000_0000_0000_0000 <= scale <= 0x8000_0000_0000_0000,
        ;
        devs.push(saturate(dist * scale as i128));
        proof {
            assert(devs@ == deviations(vals@, center as int, scale as int).take(i + 1));
        }
        i += 1;
    }
    proof {
        let all = deviations(vals@, center as int, scale as int);
        assert(all.take(vals.len() as int) == all);
    }
    let spread: i64 = median_of(&devs);
    (center, spread)
}

} // verus!
