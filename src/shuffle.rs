use vstd::prelude::*;

verus! {

/// Number of indices in `0..k` that do not occur in `history`.
pub open spec fn count_free(history: Seq<usize>, k: nat) -> nat
    decreases k,
{
    if k == 0 {
        0
    } else {
        count_free(history, (k - 1) as nat) + if history.contains((k - 1) as usize) {
            0nat
        } else {
            1nat
        }
    }
}

/// Number of indices in `0..k` that do occur in `history`.
pub open spec fn count_taken(history: Seq<usize>, k: nat) -> nat {
    (k - count_free(history, k)) as nat
}

proof fn lemma_count_free_bounded(history: Seq<usize>, k: nat)
    ensures
        count_free(history, k) <= k,
    decreases k,
{
    if k > 0 {
        lemma_count_free_bounded(history, (k - 1) as nat);
    }
}

/// Appending one entry to a history removes at most one free index.
proof fn lemma_count_taken_push(history: Seq<usize>, x: usize, k: nat)
    requires
        k <= usize::MAX,
    ensures
        count_taken(history.push(x), k) <= count_taken(history, k) + 1,
    decreases k,
{
    lemma_count_free_bounded(history, k);
    lemma_count_free_bounded(history.push(x), k);
    if k > 0 {
        let km = (k - 1) as nat;
        lemma_count_taken_push(history, x, km);
        lemma_count_free_bounded(history, km);
        lemma_count_free_bounded(history.push(x), km);
        let i = km as usize;
        assert(history.push(x).contains(i) <==> (history.contains(i) || i == x)) by {
            if history.push(x).contains(i) {
                let j = choose|j: int| 0 <= j < history.push(x).len() && history.push(x)[j] == i;
                if j < history.len() {
                    assert(history[j] == i);
                }
            }
            if history.contains(i) {
                let j = choose|j: int| 0 <= j < history.len() && history[j] == i;
                assert(history.push(x)[j] == i);
            }
            if i == x {
                assert(history.push(x)[history.len() as int] == i);
            }
        }
        if i == x && !history.contains(i) {
            // the index newly taken is below k; below it, `x` cannot be counted again
            lemma_count_taken_not_below(history, x, km);
        }
    }
}

/// Below `x + 1`, an entry `x` adds nothing to what is taken below `x`.
proof fn lemma_count_taken_not_below(history: Seq<usize>, x: usize, k: nat)
    requires
        k <= x,
    ensures
        count_free(history.push(x), k) == count_free(history, k),
    decreases k,
{
    if k > 0 {
        let km = (k - 1) as nat;
        lemma_count_taken_not_below(history, x, km);
        let i = km as usize;
        assert(history.push(x).contains(i) <==> history.contains(i)) by {
            if history.push(x).contains(i) {
                let j = choose|j: int| 0 <= j < history.push(x).len() && history.push(x)[j] == i;
                if j < history.len() {
                    assert(history[j] == i);
                }
            }
            if history.contains(i) {
                let j = choose|j: int| 0 <= j < history.len() && history[j] == i;
                assert(history.push(x)[j] == i);
            }
        }
    }
}

/// A history covers at most as many indices as it has entries.
pub proof fn lemma_count_taken_at_most_len(history: Seq<usize>, k: nat)
    requires
        k <= usize::MAX,
    ensures
        count_taken(history, k) <= history.len(),
    decreases history.len(),
{
    lemma_count_free_bounded(history, k);
    if history.len() == 0 {
        assert(count_free(history, k) == k) by {
            lemma_count_free_of_empty(history, k);
        }
    } else {
        let prefix = history.drop_last();
        assert(prefix.push(history.last()) =~= history);
        lemma_count_taken_at_most_len(prefix, k);
        lemma_count_taken_push(prefix, history.last(), k);
    }
}

proof fn lemma_count_free_of_empty(history: Seq<usize>, k: nat)
    requires
        history.len() == 0,
    ensures
        count_free(history, k) == k,
    decreases k,
{
    if k > 0 {
        lemma_count_free_of_empty(history, (k - 1) as nat);
    }
}

/// When a history is shorter than the catalog, some index is still free.
pub proof fn lemma_free_index_exists(history: Seq<usize>, n: nat)
    requires
        history.len() < n,
        n <= usize::MAX,
    ensures
        count_free(history, n) >= 1,
{
    lemma_count_taken_at_most_len(history, n);
    lemma_count_free_bounded(history, n);
}

/// Whether `x` occurs in `history`.
pub fn in_history(history: &Vec<usize>, x: usize) -> (r: bool)
    ensures
        r == history@.contains(x),
{
    let mut i: usize = 0;
    while i < history.len()
        invariant
            i <= history@.len(),
            forall|j: int| 0 <= j < i ==> history@[j] != x,
        decreases history@.len() - i,
    {
        if history[i] == x {
            return true;
        }
        i = i + 1;
    }
    false
}

/// How many indices of a catalog of `n` tracks are not in `history`.
pub fn count_unplayed(history: &Vec<usize>, n: usize) -> (r: usize)
    ensures
        r == count_free(history@, n as nat),
{
    let mut i: usize = 0;
    let mut free: usize = 0;
    while i < n
        invariant
            i <= n,
            free == count_free(history@, i as nat),
        decreases n - i,
    {
        proof {
            lemma_count_free_bounded(history@, i as nat);
        }
        if !in_history(history, i) {
            free = free + 1;
        }
        i = i + 1;
    }
    free
}

/// The `draw`-th index (counting from zero) of `0..n` that is not in
/// `history`.
pub fn pick_unplayed(history: &Vec<usize>, n: usize, draw: usize) -> (r: usize)
    requires
        draw < count_free(history@, n as nat),
    ensures
        r < n,
        !history@.contains(r),
        count_free(history@, r as nat) == draw,
{
    let mut i: usize = 0;
    let mut seen: usize = 0;
    while i < n
        invariant
            i <= n,
            seen == count_free(history@, i as nat),
            seen <= draw,
            draw < count_free(history@, n as nat),
        decreases n - i,
    {
        if !in_history(history, i) {
            if seen == draw {
                return i;
            }
            seen = seen + 1;
        }
        i = i + 1;
    }
    proof {
        assert(false);
    }
    0
}

/// Relies on rand::thread_rng and rand::Rng::gen_range: a value drawn
/// uniformly from `0..bound` (gen_range panics on an empty range, hence the
/// bound is positive).
#[verifier::external_body]
fn random_below(bound: usize) -> (r: usize)
    requires
        bound > 0,
    ensures
        r < bound,
{
    rand::Rng::gen_range(&mut rand::thread_rng(), 0..bound)
}

/// The history after a shuffled pick in a catalog of `n` tracks, leaving
/// index `current`.
///
/// A history that already holds as many entries as the catalog has tracks is
/// cleared first; the previous index is then recorded.
pub open spec fn history_after_pick(history: Seq<usize>, n: nat, current: usize) -> Seq<usize> {
    if history.len() >= n {
        seq![current]
    } else {
        history.push(current)
    }
}

/// The history that the pick is made against: empty once it has covered the
/// catalog.
pub open spec fn history_for_pick(history: Seq<usize>, n: nat) -> Seq<usize> {
    if history.len() >= n {
        Seq::empty()
    } else {
        history
    }
}

/// Picks the next shuffled index from a random draw.
///
/// `draw` selects among the indices that are not in the (possibly cleared)
/// history; the chosen index is the `draw`-th such index in increasing order.
/// Returns the chosen index and updates `history`.
pub fn shuffle_pick(history: &mut Vec<usize>, n: usize, current: usize, draw: usize) -> (r: usize)
    requires
        n > 0,
        draw < count_free(history_for_pick(old(history)@, n as nat), n as nat),
    ensures
        r < n,
        !history_for_pick(old(history)@, n as nat).contains(r),
        count_free(history_for_pick(old(history)@, n as nat), r as nat) == draw,
        final(history)@ == history_after_pick(old(history)@, n as nat, current),
{
    if history.len() >= n {
        history.clear();
    }
    let r = pick_unplayed(history, n, draw);
    history.push(current);
    r
}

/// How many indices a shuffled pick chooses among.
pub fn unplayed_for_pick(history: &Vec<usize>, n: usize) -> (r: usize)
    requires
        n > 0,
    ensures
        r == count_free(history_for_pick(history@, n as nat), n as nat),
        r >= 1,
{
    if history.len() >= n {
        proof {
            lemma_count_free_of_empty(Seq::<usize>::empty(), n as nat);
        }
        n
    } else {
        proof {
            lemma_free_index_exists(history@, n as nat);
        }
        count_unplayed(history, n)
    }
}

/// Picks the next shuffled index at random among those not in the history
/// (cleared first once it covers the catalog), and records `current` in the
/// history.
pub fn random_shuffle_pick(history: &mut Vec<usize>, n: usize, current: usize) -> (r: usize)
    requires
        n > 0,
    ensures
        r < n,
        !history_for_pick(old(history)@, n as nat).contains(r),
        final(history)@ == history_after_pick(old(history)@, n as nat, current),
{
    let free = unplayed_for_pick(history, n);
    let draw = random_below(free);
    shuffle_pick(history, n, current, draw)
}

/// A pick against a non-empty history that does not yet cover the catalog
/// avoids every index of that history.
pub proof fn pick_avoids_history(history: Seq<usize>, n: nat, r: usize)
    requires
        0 < history.len() < n,
        !history_for_pick(history, n).contains(r),
    ensures
        !history.contains(r),
{
}

/// Once the history has as many entries as the catalog has tracks, the next
/// pick starts from a cleared history: any index may come again, and only
/// the index just left is recorded.
pub proof fn history_resets_when_full(history: Seq<usize>, n: nat, current: usize, r: usize)
    requires
        n > 0,
        history.len() >= n,
        r < n,
    ensures
        !history_for_pick(history, n).contains(r),
        history_after_pick(history, n, current) == seq![current],
{
}

} // verus!
