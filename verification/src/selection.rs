use vstd::prelude::*;

verus! {

/// The key of a time that never comes. Times are keyed by the bit pattern of a
/// non-negative IEEE double, which orders them as the times are ordered; this is
/// the key of positive infinity, and every key at or above it stands for "never".
pub const NEVER: u64 = 0x7ff0_0000_0000_0000u64;

/// `i` is the position of the first smallest key of `keys`.
pub open spec fn is_first_min(keys: Seq<u64>, i: int) -> bool {
    &&& 0 <= i < keys.len()
    &&& forall|j: int| 0 <= j < keys.len() ==> keys[i] <= #[trigger] keys[j]
    &&& forall|j: int| 0 <= j < i ==> keys[i] < #[trigger] keys[j]
}

/// The position of the earliest of the candidate times of one electron: the
/// first one among equally early times.
pub fn earliest(keys: &Vec<u64>) -> (i: usize)
    requires
        keys.len() > 0,
    ensures
        is_first_min(keys@, i as int),
{
    let mut best: usize = 0;
    let mut k: usize = 1;
    while k < keys.len()
        invariant
            1 <= k <= keys.len(),
            best < k,
            forall|j: int| 0 <= j < k ==> keys@[best as int] <= #[trigger] keys@[j],
            forall|j: int| 0 <= j < best ==> keys@[best as int] < #[trigger] keys@[j],
        decreases keys.len() - k,
    {
        if keys[k] < keys[best] {
            best = k;
        }
        k = k + 1;
    }
    best
}

/// The earliest time of each electron, given the position chosen among its candidates.
pub open spec fn best_keys(candidates: Seq<Vec<u64>>, choices: Seq<usize>) -> Seq<u64> {
    Seq::new(candidates.len(), |e: int| candidates[e]@[choices[e] as int])
}

/// `next` names the electron whose collision comes first, the first one among
/// equally early ones, or is `None` when no collision ever comes.
pub open spec fn is_next(bests: Seq<u64>, next: Option<usize>) -> bool {
    match next {
        Some(e) => is_first_min(bests, e as int) && bests[e as int] < NEVER,
        None => forall|e: int| 0 <= e < bests.len() ==> #[trigger] bests[e] >= NEVER,
    }
}

/// The collisions chosen for a set of electrons: for each electron the position
/// of its earliest candidate, and the electron whose collision comes first.
pub struct Schedule {
    pub choices: Vec<usize>,
    pub next: Option<usize>,
}

/// Chooses, for each electron, its earliest collision among its candidates
/// (`candidates[e]` holds the keyed times of electron `e`'s candidates), and
/// the electron whose collision comes first of all.
pub fn schedule(candidates: &Vec<Vec<u64>>) -> (s: Schedule)
    requires
        forall|e: int| 0 <= e < candidates.len() ==> (#[trigger] candidates@[e]).len() > 0,
    ensures
        s.choices.len() == candidates.len(),
        forall|e: int|
            0 <= e < candidates.len() ==> is_first_min(
                (#[trigger] candidates@[e])@,
                s.choices@[e] as int,
            ),
        is_next(best_keys(candidates@, s.choices@), s.next),
{
    let mut choices: Vec<usize> = Vec::new();
    let mut next: Option<usize> = None;
    let mut min_key: u64 = NEVER;
    let mut e: usize = 0;
    while e < candidates.len()
        invariant
            e <= candidates.len(),
            choices.len() == e,
            forall|i: int| 0 <= i < candidates.len() ==> (#[trigger] candidates@[i]).len() > 0,
            forall|i: int|
                0 <= i < e ==> is_first_min((#[trigger] candidates@[i])@, choices@[i] as int),
            match next {
                Some(n) => {
                    &&& n < e
                    &&& min_key == candidates@[n as int]@[choices@[n as int] as int]
                    &&& min_key < NEVER
                    &&& forall|j: int|
                        0 <= j < e ==> min_key <= #[trigger] candidates@[j]@[choices@[j] as int]
                    &&& forall|j: int|
                        0 <= j < n ==> min_key < #[trigger] candidates@[j]@[choices@[j] as int]
                },
                None => {
                    &&& min_key == NEVER
                    &&& forall|j: int|
                        0 <= j < e ==> #[trigger] candidates@[j]@[choices@[j] as int] >= NEVER
                },
            },
        decreases candidates.len() - e,
    {
        let c = earliest(&candidates[e]);
        let key = candidates[e][c];
        choices.push(c);
        if key < min_key {
            min_key = key;
            next = Some(e);
        }
        e = e + 1;
    }
    let s = Schedule { choices, next };
    let ghost bests = best_keys(candidates@, s.choices@);
    assert forall|j: int| 0 <= j < bests.len() implies #[trigger] bests[j]
        == candidates@[j]@[s.choices@[j] as int] by {}
    s
}

/// The collision chosen next is the earliest of all candidate collisions of all
/// electrons, not only of the electrons' own earliest ones; when none is chosen,
/// no candidate collision ever comes.
pub proof fn lemma_next_is_earliest_of_all(
    candidates: Seq<Vec<u64>>,
    choices: Seq<usize>,
    next: Option<usize>,
)
    requires
        choices.len() == candidates.len(),
        forall|e: int|
            0 <= e < candidates.len() ==> is_first_min(
                (#[trigger] candidates[e])@,
                choices[e] as int,
            ),
        is_next(best_keys(candidates, choices), next),
    ensures
        match next {
            Some(n) => forall|e: int, j: int|
                0 <= e < candidates.len() && 0 <= j < candidates[e]@.len()
                    ==> candidates[n as int]@[choices[n as int] as int]
                    <= #[trigger] candidates[e]@[j],
            None => forall|e: int, j: int|
                0 <= e < candidates.len() && 0 <= j < candidates[e]@.len()
                    ==> #[trigger] candidates[e]@[j] >= NEVER,
        },
{
    let bests = best_keys(candidates, choices);
    match next {
        Some(n) => {
            assert forall|e: int, j: int|
                0 <= e < candidates.len() && 0 <= j < candidates[e]@.len()
                    implies candidates[n as int]@[choices[n as int] as int]
                    <= #[trigger] candidates[e]@[j] by {
                assert(is_first_min(candidates[e]@, choices[e] as int));
                assert(bests[e] == candidates[e]@[choices[e] as int]);
                assert(bests[n as int] <= bests[e]);
            }
        },
        None => {
            assert forall|e: int, j: int|
                0 <= e < candidates.len() && 0 <= j < candidates[e]@.len()
                    implies #[trigger] candidates[e]@[j] >= NEVER by {
                assert(is_first_min(candidates[e]@, choices[e] as int));
                assert(bests[e] == candidates[e]@[choices[e] as int]);
            }
        },
    }
}

} // verus!
