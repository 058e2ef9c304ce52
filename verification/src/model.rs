//! Helpers for stating contracts over the models of values.

use vstd::prelude::*;

verus! {

/// The model of an optional value.
pub open spec fn opt_view<T: View>(o: Option<T>) -> Option<T::V> {
    match o {
        Some(x) => Some(x@),
        None => None,
    }
}

/// The models of the values of a sequence.
pub open spec fn seq_view<T: View>(s: Seq<T>) -> Seq<T::V> {
    Seq::new(s.len(), |i: int| s[i]@)
}

/// The models of a sequence that grew by one value.
pub broadcast proof fn lemma_seq_view_push<T: View>(s: Seq<T>, x: T)
    ensures
        #[trigger] seq_view(s.push(x)) == seq_view(s).push(x@),
{
    assert(seq_view(s.push(x)) =~= seq_view(s).push(x@));
}

} // verus!
