//! Ordering processors for display: hyperthreads belong beside their core,
//! but the OS lists them interleaved. From the (processor, core) pairs of
//! the cpu inventory, each processor is assigned the display slot
//! `core * threads_per_core + n`, where `n` counts how many of that core's
//! threads were listed before it.

use vstd::prelude::*;

verus! {

/// How many of the first `k` pairs name the same core as pair `k`.
pub open spec fn prior_same_core(pairs: Seq<(usize, usize)>, k: int, upto: int) -> int
    recommends
        0 <= upto <= k < pairs.len(),
    decreases upto,
{
    if upto <= 0 {
        0
    } else {
        prior_same_core(pairs, k, upto - 1) + if pairs[upto - 1].1 == pairs[k].1 {
            1int
        } else {
            0int
        }
    }
}

/// The display slot of the processor described by pair `k`.
pub open spec fn display_slot(pairs: Seq<(usize, usize)>, k: int, threads_per_core: int) -> int
    recommends
        0 <= k < pairs.len(),
{
    pairs[k].1 * threads_per_core + prior_same_core(pairs, k, k)
}

/// Whether an inventory is usable: every processor id names a distinct slot
/// of the map, and every core id is in range.
pub open spec fn inventory_wf(
    pairs: Seq<(usize, usize)>,
    num_cores: int,
    threads_per_core: int,
) -> bool {
    &&& forall|k: int| 0 <= k < pairs.len() ==> (#[trigger] pairs[k]).0 < pairs.len()
    &&& forall|k: int| 0 <= k < pairs.len() ==> (#[trigger] pairs[k]).1 < num_cores
    &&& forall|i: int, j: int|
        0 <= i < j < pairs.len() ==> (#[trigger] pairs[i]).0 != (#[trigger] pairs[j]).0
}

/// Builds the processor-to-display-slot map from the cpu inventory's
/// (processor id, core id) pairs: entry `p` of the result is the display
/// slot of processor `p`, grouping each core's threads together in listing
/// order.
pub fn build_proc_map(pairs: &Vec<(usize, usize)>, num_cores: usize, threads_per_core: usize) -> (r:
    Vec<usize>)
    requires
        inventory_wf(pairs@, num_cores as int, threads_per_core as int),
        pairs@.len() <= 0x8000,
        num_cores <= 0x400,
        threads_per_core <= 0x400,
    ensures
        r@.len() == pairs@.len(),
        forall|k: int|
            0 <= k < pairs@.len() ==> r@[(#[trigger] pairs@[k]).0 as int] == display_slot(
                pairs@,
                k,
                threads_per_core as int,
            ),
{
    let n = pairs.len();
    let mut counters: Vec<usize> = Vec::new();
    let mut i: usize = 0;
    while i < num_cores
        invariant
            i <= num_cores,
            counters@.len() == i,
            forall|c: int| 0 <= c < i ==> counters@[c] == 0,
        decreases num_cores - i,
    {
        counters.push(0);
        i += 1;
    }
    let mut map: Vec<usize> = Vec::new();
    let mut i: usize = 0;
    while i < n
        invariant
            i <= n,
            map@.len() == i,
        decreases n - i,
    {
        map.push(0);
        i += 1;
    }
    let mut k: usize = 0;
    while k < n
        invariant
            k <= n,
            n == pairs@.len(),
            map@.len() == n,
            counters@.len() == num_cores,
            inventory_wf(pairs@, num_cores as int, threads_per_core as int),
            n <= 0x8000,
            num_cores <= 0x400,
            threads_per_core <= 0x400,
            forall|c: int|
                0 <= c < num_cores ==> (#[trigger] counters@[c]) == count_core(pairs@, c, k as int),
            forall|j: int|
                0 <= j < k ==> map@[(#[trigger] pairs@[j]).0 as int] == display_slot(
                    pairs@,
                    j,
                    threads_per_core as int,
                ),
            forall|j: int|
                0 <= j < k ==> (#[trigger] pairs@[j]).0 < n,
        decreases n - k,
    {
        let (proc_id, core_id) = pairs[k];
        proof {
            assert(pairs@[k as int].0 < n);
            assert(pairs@[k as int].1 < num_cores);
            lemma_count_core_bounded(pairs@, core_id as int, k as int);
            lemma_prior_is_count(pairs@, k as int, k as int);
            assert(core_id * threads_per_core <= 0x400 * 0x400) by (nonlinear_arith)
                requires
                    0 <= core_id as int <= 0x400,
                    0 <= threads_per_core as int <= 0x400,
            ;
        }
        let slot = core_id * threads_per_core + counters[core_id];
        map[proc_id] = slot;
        counters[core_id] = counters[core_id] + 1;
        proof {
            assert(forall|c: int|
                0 <= c < num_cores && c != core_id ==> count_core(pairs@, c, k as int + 1)
                    == count_core(pairs@, c, k as int));
            assert(count_core(pairs@, core_id as int, k as int + 1) == count_core(
                pairs@,
                core_id as int,
                k as int,
            ) + 1);
            assert(forall|j: int|
                0 <= j < k ==> (#[trigger] pairs@[j]).0 != pairs@[k as int].0);
        }
        k += 1;
    }
    map
}

/// How many of the first `upto` pairs name core `c`.
pub open spec fn count_core(pairs: Seq<(usize, usize)>, c: int, upto: int) -> int
    recommends
        0 <= upto <= pairs.len(),
    decreases upto,
{
    if upto <= 0 {
        0
    } else {
        count_core(pairs, c, upto - 1) + if pairs[upto - 1].1 == c {
            1int
        } else {
            0int
        }
    }
}

/// The occurrences counted for pair `k`'s own core are exactly the prior
/// pairs naming that core.
proof fn lemma_prior_is_count(pairs: Seq<(usize, usize)>, k: int, upto: int)
    requires
        0 <= upto <= k < pairs.len(),
    ensures
        prior_same_core(pairs, k, upto) == count_core(pairs, pairs[k].1 as int, upto),
    decreases upto,
{
    if upto > 0 {
        lemma_prior_is_count(pairs, k, upto - 1);
    }
}

/// A core is named at most once per slot it owns: the counter never exceeds
/// the number of pairs seen.
proof fn lemma_count_core_bounded(pairs: Seq<(usize, usize)>, c: int, upto: int)
    requires
        0 <= upto <= pairs.len(),
    ensures
        0 <= count_core(pairs, c, upto) <= upto,
    decreases upto,
{
    if upto > 0 {
        lemma_count_core_bounded(pairs, c, upto - 1);
    }
}

} // verus!
