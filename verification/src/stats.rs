use vstd::prelude::*;

verus! {

/// The mathematical sum of a sequence of microsecond timings.
pub open spec fn sum_of(s: Seq<u64>) -> int
    decreases s.len(),
{
    if s.len() == 0 {
        0
    } else {
        sum_of(s.drop_last()) + s.last()
    }
}

/// The integer arithmetic mean (truncating division) of a non-empty sequence.
pub open spec fn mean_of(s: Seq<u64>) -> int {
    sum_of(s) / s.len() as int
}

pub proof fn lemma_sum_of_push(s: Seq<u64>, x: u64)
    ensures
        sum_of(s.push(x)) == sum_of(s) + x,
{
    assert(s.push(x).drop_last() =~= s);
}

/// Every sum of timings is non-negative and bounded by the count times the
/// largest representable timing.
pub proof fn lemma_sum_of_bounds(s: Seq<u64>)
    ensures
        0 <= sum_of(s) <= s.len() * u64::MAX,
    decreases s.len(),
{
    if s.len() == 0 {
    } else {
        lemma_sum_of_bounds(s.drop_last());
        assert(s.len() * u64::MAX == (s.len() - 1) * u64::MAX + u64::MAX) by (nonlinear_arith);
    }
}

/// The arithmetic mean of the collected per-repeat timings, truncated to a
/// whole microsecond. A mean of `u64` values always fits in a `u64`.
pub fn average_micros(timings: &Vec<u64>) -> (avg: u64)
    requires
        timings@.len() >= 1,
    ensures
        avg == mean_of(timings@),
{
    let mut total: u128 = 0;
    let mut i: usize = 0;
    while i < timings.len()
        invariant
            i <= timings@.len(),
            total == sum_of(timings@.take(i as int)),
        decreases timings@.len() - i,
    {
        proof {
            lemma_sum_of_bounds(timings@.take(i as int));
            assert(timings@.take(i as int).len() * u64::MAX <= timings@.len() * u64::MAX) by (nonlinear_arith)
                requires
                    timings@.take(i as int).len() <= timings@.len(),
            ;
            assert(timings@.len() * u64::MAX < u128::MAX) by (nonlinear_arith)
                requires
                    timings@.len() <= usize::MAX,
            ;
            lemma_sum_of_push(timings@.take(i as int), timings@[i as int]);
            assert(timings@.take(i as int + 1) =~= timings@.take(i as int).push(timings@[i as int]));
        }
        total = total + timings[i] as u128;
        i = i + 1;
    }
    proof {
        assert(timings@.take(timings@.len() as int) =~= timings@);
        lemma_sum_of_bounds(timings@);
        assert(sum_of(timings@) / timings@.len() as int <= u64::MAX) by (nonlinear_arith)
            requires
                timings@.len() >= 1,
                0 <= sum_of(timings@) <= timings@.len() * u64::MAX,
        ;
    }
    let avg: u128 = total / (timings.len() as u128);
    avg as u64
}

/// Every reported average is non-negative, for any backend and any batch size:
/// it is a sum of non-negative timings divided by their positive count.
pub proof fn lemma_mean_of_nonnegative(s: Seq<u64>)
    requires
        s.len() >= 1,
    ensures
        mean_of(s) >= 0,
{
    lemma_sum_of_bounds(s);
}

/// With a single repeat, the reported average is exactly the one measured value.
pub proof fn lemma_mean_of_single(t: u64)
    ensures
        mean_of(seq![t]) == t,
{
    assert(seq![t].drop_last() =~= Seq::<u64>::empty());
    assert(sum_of(Seq::<u64>::empty()) == 0);
    assert(sum_of(seq![t]) == t);
}

} // verus!
