//! The first position at which something holds.
use vstd::prelude::*;

verus! {

/// The least number below `n` at which `holds` does.
pub open spec fn first_where(n: nat, holds: spec_fn(int) -> bool) -> Option<nat>
    decreases n,
{
    if n == 0 {
        None
    } else {
        match first_where((n - 1) as nat, holds) {
            Some(i) => Some(i),
            None => if holds(n - 1) {
                Some((n - 1) as nat)
            } else {
                None
            },
        }
    }
}

/// The first position is below `n`, `holds` there, and nowhere before.
pub proof fn lemma_first_where(n: nat, holds: spec_fn(int) -> bool)
    ensures
        match first_where(n, holds) {
            Some(i) => i < n && holds(i as int) && forall|j: int| 0 <= j < i ==> !#[trigger] holds(j),
            None => forall|j: int| 0 <= j < n ==> !#[trigger] holds(j),
        },
    decreases n,
{
    if n > 0 {
        lemma_first_where((n - 1) as nat, holds);
    }
}

/// A position at which `holds` does, and nowhere before, is the first.
pub proof fn lemma_is_first(n: nat, holds: spec_fn(int) -> bool, i: nat)
    requires
        i < n,
        holds(i as int),
        forall|j: int| 0 <= j < i ==> !#[trigger] holds(j),
    ensures
        first_where(n, holds) == Some(i),
{
    lemma_first_where(n, holds);
}

/// Where `holds` does nowhere, there is no first position.
pub proof fn lemma_is_nowhere(n: nat, holds: spec_fn(int) -> bool)
    requires
        forall|j: int| 0 <= j < n ==> !#[trigger] holds(j),
    ensures
        first_where(n, holds) is None,
{
    lemma_first_where(n, holds);
}

} // verus!
