use vstd::prelude::*;

verus! {

/// The least index below `n` at which `bad` holds, if there is one.
pub open spec fn first_index(n: nat, bad: spec_fn(int) -> bool) -> Option<int>
    decreases n,
{
    if n == 0 {
        None
    } else {
        match first_index((n - 1) as nat, bad) {
            Some(i) => Some(i),
            None => if bad(n - 1) {
                Some(n - 1)
            } else {
                None
            },
        }
    }
}

/// `first_index` finds an index at which `bad` holds and below which it does not,
/// and finds none only where `bad` holds nowhere below `n`.
pub proof fn lemma_first_index(n: nat, bad: spec_fn(int) -> bool)
    ensures
        match first_index(n, bad) {
            Some(i) => 0 <= i < n && bad(i) && forall|j: int| 0 <= j < i ==> !(#[trigger] bad(j)),
            None => forall|j: int| 0 <= j < n ==> !(#[trigger] bad(j)),
        },
    decreases n,
{
    if n > 0 {
        lemma_first_index((n - 1) as nat, bad);
    }
}

/// An index at which `bad` holds and below which it does not is the one that
/// `first_index` finds.
pub proof fn lemma_first_index_found(n: nat, bad: spec_fn(int) -> bool, i: int)
    requires
        0 <= i < n,
        bad(i),
        forall|j: int| 0 <= j < i ==> !(#[trigger] bad(j)),
    ensures
        first_index(n, bad) == Some(i),
{
    lemma_first_index(n, bad);
}

/// Where `bad` holds nowhere below `n`, `first_index` finds nothing.
pub proof fn lemma_first_index_none(n: nat, bad: spec_fn(int) -> bool)
    requires
        forall|j: int| 0 <= j < n ==> !(#[trigger] bad(j)),
    ensures
        first_index(n, bad) is None,
{
    lemma_first_index(n, bad);
}

} // verus!
