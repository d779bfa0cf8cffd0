//! What holds of handles across several operations, stated over the same
//! `shares` and views that the operations' own contracts use.

use crate::cow::CowArc;
use vstd::prelude::*;
use vstd::std_specs::cmp::PartialEqSpec;

verus! {

/// Handles bound to one allocation read one value.
pub proof fn lemma_sharers_read_alike<T: Clone>(a: CowArc<T>, b: CowArc<T>)
    requires
        a.shares(&b),
    ensures
        a@ == b@,
{
}

/// Divergence on replace. Let `before` share with `source`, and let `after`
/// be `before` once `set_val(val)` has run on it. Then `after` no longer
/// shares with `source`, `source` still reads what `before` read, and `after`
/// reads `val`.
pub proof fn lemma_replace_diverges<T: Clone>(
    source: CowArc<T>,
    before: CowArc<T>,
    after: CowArc<T>,
    val: T,
)
    requires
        before.shares(&source),
        after@ == val,
        !after.shares(&before),
    ensures
        !after.shares(&source),
        source@ == before@,
        after@ == val,
{
}

/// Divergence on modify. Let `before` share with `source`, and let `after` be
/// `before` once `update_val` has run on it. Then `after` no longer shares
/// with `source`, and `source` still reads what `before` read.
pub proof fn lemma_modify_diverges<T: Clone>(
    source: CowArc<T>,
    before: CowArc<T>,
    after: CowArc<T>,
)
    requires
        before.shares(&source),
        !after.shares(&before),
    ensures
        !after.shares(&source),
        source@ == before@,
{
}

/// A clone of a diverged handle shares with the diverged handle, and not with
/// the handle it diverged from.
pub proof fn lemma_clone_follows_divergence<T: Clone>(
    source: CowArc<T>,
    diverged: CowArc<T>,
    copy: CowArc<T>,
)
    requires
        !diverged.shares(&source),
        copy.shares(&diverged),
    ensures
        copy.shares(&diverged),
        !copy.shares(&source),
        copy@ == diverged@,
{
}

/// Value equality looks at the values alone: handles that read the same
/// values compare alike, whichever allocations they are bound to.
pub proof fn lemma_value_eq_ignores_allocation<T: Clone + PartialEq>(
    a: CowArc<T>,
    b: CowArc<T>,
    c: CowArc<T>,
    d: CowArc<T>,
)
    requires
        a@ == c@,
        b@ == d@,
    ensures
        a.value_eq_spec(&b) == c.value_eq_spec(&d),
{
}

} // verus!
