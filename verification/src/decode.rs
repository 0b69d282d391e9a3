//! Decoding rules that pick states: the arg-max choices of filtering, smoothing
//! and Viterbi decoding, and the Viterbi back-pointer walk.
//!
//! Scores are compared through `i64` keys. A caller holding `f64` scores passes
//! the key that orders them as it compares them, such as the key of
//! `f64::total_cmp`, so that the choice made here is the one made on the scores.

use vstd::prelude::*;
use crate::trit::{index_of, index_to_trit, Ternary};

verus! {

/// `r` holds a greatest key of the three, and no later key equals it.
pub open spec fn is_last_maximum(keys: Seq<i64>, r: int) -> bool {
    &&& 0 <= r < 3
    &&& forall|j: int| 0 <= j < 3 ==> keys[j] <= keys[r]
    &&& forall|j: int| r < j < 3 ==> keys[j] < keys[r]
}

/// Some key of the three is present.
pub open spec fn has_candidate(keys: Seq<Option<i64>>) -> bool {
    exists|j: int| 0 <= j < 3 && keys[j] is Some
}

/// `r` holds a present key that no present key exceeds, and no earlier present key
/// equals it.
pub open spec fn is_first_maximum(keys: Seq<Option<i64>>, r: int) -> bool {
    &&& 0 <= r < 3
    &&& keys[r] is Some
    &&& forall|j: int| 0 <= j < 3 && keys[j] is Some ==> keys[j]->0 <= keys[r]->0
    &&& forall|j: int| 0 <= j < r && keys[j] is Some ==> keys[j]->0 < keys[r]->0
}

/// The index of the greatest of three keys; on a tie the last such index wins,
/// as `Iterator::max_by` chooses.
pub fn last_maximum_index(keys: &[i64; 3]) -> (r: usize)
    ensures
        is_last_maximum(keys@, r as int),
{
    let mut best: usize = 0;
    let mut i: usize = 1;
    while i < 3
        invariant
            1 <= i <= 3,
            best < i,
            forall|j: int| 0 <= j < i ==> keys@[j] <= keys@[best as int],
            forall|j: int| best < j < i ==> keys@[j] < keys@[best as int],
        decreases 3 - i,
    {
        if keys[i] >= keys[best] {
            best = i;
        }
        i = i + 1;
    }
    best
}

/// The index of the greatest present key, the first one on a tie; 0 when no key
/// is present. This is the choice of a scan that keeps a running best, starts it
/// below every present key, and replaces it only by a strictly greater key.
pub fn first_maximum_index(keys: &[Option<i64>; 3]) -> (r: usize)
    ensures
        r < 3,
        has_candidate(keys@) ==> is_first_maximum(keys@, r as int),
        !has_candidate(keys@) ==> r == 0,
{
    let mut best_i: usize = 0;
    let mut best: Option<i64> = None;
    let mut i: usize = 0;
    while i < 3
        invariant
            0 <= i <= 3,
            best_i < 3,
            best is None <==> (forall|j: int| 0 <= j < i ==> keys@[j] is None),
            best is None ==> best_i == 0,
            best is Some ==> best_i < i && keys@[best_i as int] == best,
            best is Some ==> forall|j: int|
                0 <= j < i && keys@[j] is Some ==> keys@[j]->0 <= best->0,
            best is Some ==> forall|j: int|
                0 <= j < best_i && keys@[j] is Some ==> keys@[j]->0 < best->0,
        decreases 3 - i,
    {
        match keys[i] {
            Some(v) => {
                let better = match best {
                    None => true,
                    Some(b) => v > b,
                };
                if better {
                    best = Some(v);
                    best_i = i;
                }
            },
            None => {},
        }
        i = i + 1;
    }
    best_i
}

/// Every back pointer of the table names a state.
pub open spec fn pointers_in_range(psi: Seq<[usize; 3]>) -> bool {
    forall|t: int, j: int| 0 <= t < psi.len() && 0 <= j < 3 ==> #[trigger] psi[t]@[j] < 3
}

/// `path` ends in state `last` and each earlier state is the back pointer that the
/// next step records for the state taken there: `psi[t + 1][path[t + 1]]`.
pub open spec fn follows_back_pointers(psi: Seq<[usize; 3]>, last: int, path: Seq<Ternary>) -> bool {
    &&& path.len() == psi.len()
    &&& path.len() > 0
    &&& index_of(path[path.len() - 1]) == last
    &&& forall|t: int|
        0 <= t < path.len() - 1 ==> index_of(#[trigger] path[t]) == psi[t + 1]@[index_of(
            path[t + 1],
        ) as int]
}

/// Walk the Viterbi back pointers from the final state `last` to the first step.
/// `psi[t][j]` is the best predecessor of state `j` at step `t` (row 0 is not
/// read); the result is the decoded state path, one trit per step.
pub fn viterbi_backtrack(psi: &Vec<[usize; 3]>, last: usize) -> (path: Vec<Ternary>)
    requires
        psi.len() > 0,
        last < 3,
        pointers_in_range(psi@),
    ensures
        follows_back_pointers(psi@, last as int, path@),
{
    let n = psi.len();
    let mut idx: Vec<usize> = vec![0usize; n];
    idx[n - 1] = last;
    let mut t: usize = n - 1;
    while t > 0
        invariant
            n == psi.len(),
            n == idx.len(),
            t < n,
            pointers_in_range(psi@),
            idx@[n - 1] == last,
            forall|k: int| t <= k < n ==> #[trigger] idx@[k] < 3,
            forall|k: int| t <= k < n - 1 ==> #[trigger] idx@[k] == psi@[k + 1]@[idx@[k + 1] as int],
        decreases t,
    {
        let row = psi[t];
        let prev = row[idx[t]];
        idx[t - 1] = prev;
        t = t - 1;
    }
    let mut path: Vec<Ternary> = Vec::new();
    let mut k: usize = 0;
    while k < n
        invariant
            n == psi.len(),
            n == idx.len(),
            k <= n,
            path.len() == k,
            forall|j: int| 0 <= j < n ==> #[trigger] idx@[j] < 3,
            forall|j: int| 0 <= j < k ==> index_of(#[trigger] path@[j]) == idx@[j],
        decreases n - k,
    {
        path.push(index_to_trit(idx[k]));
        k = k + 1;
    }
    assert forall|j: int| 0 <= j < n - 1 implies index_of(#[trigger] path@[j]) == psi@[j
        + 1]@[index_of(path@[j + 1]) as int] by {
        assert(index_of(path@[j]) == idx@[j]);
        assert(index_of(path@[j + 1]) == idx@[j + 1]);
    }
    path
}

/// The back pointers fix the path: two paths that both end in `last` and follow
/// the pointers of `psi` are the same path.
pub proof fn lemma_back_pointer_path_unique(
    psi: Seq<[usize; 3]>,
    last: int,
    p: Seq<Ternary>,
    q: Seq<Ternary>,
)
    requires
        follows_back_pointers(psi, last, p),
        follows_back_pointers(psi, last, q),
    ensures
        p == q,
{
    lemma_paths_agree_from(psi, last, p, q, 0);
    assert(p =~= q);
}

/// Two such paths agree at every step from `k` on.
proof fn lemma_paths_agree_from(
    psi: Seq<[usize; 3]>,
    last: int,
    p: Seq<Ternary>,
    q: Seq<Ternary>,
    k: int,
)
    requires
        follows_back_pointers(psi, last, p),
        follows_back_pointers(psi, last, q),
        0 <= k < p.len(),
    ensures
        forall|j: int| k <= j < p.len() ==> p[j] == q[j],
    decreases p.len() - k,
{
    let n = p.len() as int;
    if k < n - 1 {
        lemma_paths_agree_from(psi, last, p, q, k + 1);
        lemma_index_injective(p[k], q[k]);
    } else {
        lemma_index_injective(p[n - 1], q[n - 1]);
    }
}

/// Distinct trits have distinct indices.
proof fn lemma_index_injective(x: Ternary, y: Ternary)
    requires
        index_of(x) == index_of(y),
    ensures
        x == y,
{
}

} // verus!
