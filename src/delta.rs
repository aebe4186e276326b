use vstd::prelude::*;

verus! {

/// Number of distinct values of a `u64`: the modulus of counter arithmetic.
pub open spec fn counter_modulus() -> int {
    0x1_0000_0000_0000_0000
}

/// Ticks from `t_send` to `t_recv` on a counter that may have wrapped once:
/// the difference taken modulo 2^64.
pub open spec fn modular_delta(t_send: u64, t_recv: u64) -> u64 {
    if t_send <= t_recv {
        (t_recv - t_send) as u64
    } else {
        (t_recv + counter_modulus() - t_send) as u64
    }
}

/// The round-trip delta between a send timestamp and a receive timestamp,
/// by modular subtraction.
pub fn round_trip_delta(t_send: u64, t_recv: u64) -> (r: u64)
    ensures
        r == modular_delta(t_send, t_recv),
        r as int == (t_recv as int - t_send as int) % counter_modulus(),
{
    t_recv.wrapping_sub(t_send)
}

/// The least of a sequence of samples; `u64::MAX` when there are none, which is
/// the value a minimum accumulator starts from.
pub open spec fn min_of(s: Seq<u64>) -> u64
    decreases s.len(),
{
    if s.len() == 0 {
        u64::MAX
    } else if s.last() < min_of(s.drop_last()) {
        s.last()
    } else {
        min_of(s.drop_last())
    }
}

/// The minimum of the samples is no larger than any sample, and, when there is
/// at least one sample, it is one of them.
pub proof fn lemma_min_of_is_least(s: Seq<u64>)
    ensures
        forall|i: int| 0 <= i < s.len() ==> min_of(s) <= #[trigger] s[i],
        s.len() > 0 ==> exists|i: int| 0 <= i < s.len() && min_of(s) == #[trigger] s[i],
    decreases s.len(),
{
    if s.len() > 0 {
        let p = s.drop_last();
        lemma_min_of_is_least(p);
        assert forall|i: int| 0 <= i < s.len() implies min_of(s) <= #[trigger] s[i] by {
            if i < p.len() {
                assert(s[i] == p[i]);
            }
        }
        if min_of(s) == s.last() {
            assert(min_of(s) == s[s.len() - 1]);
        } else {
            let j = choose|j: int| 0 <= j < p.len() && min_of(p) == #[trigger] p[j];
            assert(min_of(s) == s[j]);
        }
    }
}

/// Folds one more sample into a running minimum.
pub fn fold_min(acc: u64, sample: u64) -> (r: u64)
    ensures
        r == (if sample < acc { sample } else { acc }),
        r <= acc,
        r <= sample,
{
    if sample < acc {
        sample
    } else {
        acc
    }
}

} // verus!
