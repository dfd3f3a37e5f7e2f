//! Facts that relate the list operations to each other and to the text of a list.
use vstd::prelude::*;

use crate::linked_list::{arrow, rendering, segments, sentinel};
use crate::render::Render;

verus! {

/// The contents of a list that held `start` after `vs[0]`, `vs[1]`, ... were pushed in
/// that order, each one in front of the others.
pub open spec fn after_pushes<T>(start: Seq<T>, vs: Seq<T>) -> Seq<T>
    decreases vs.len(),
{
    if vs.len() == 0 {
        start
    } else {
        seq![vs.last()] + after_pushes(start, vs.drop_last())
    }
}

/// Writing an element in front of a list puts its segment in front of the list's text.
pub proof fn lemma_segments_front<T: Render>(x: T, s: Seq<T>)
    ensures
        segments(seq![x] + s) == x.text() + arrow() + segments(s),
    decreases s.len(),
{
    if s.len() == 0 {
        assert((seq![x] + s).drop_last() =~= Seq::<T>::empty());
        assert(segments(Seq::<T>::empty()) == Seq::<char>::empty());
        assert((seq![x] + s).last() == x);
        assert(segments(seq![x] + s) =~= x.text() + arrow() + segments(s));
    } else {
        lemma_segments_front(x, s.drop_last());
        assert((seq![x] + s).drop_last() =~= seq![x] + s.drop_last());
        assert(segments(seq![x] + s) =~= x.text() + arrow() + segments(s));
    }
}

/// Pushing values one at a time onto an empty list leaves them in reverse order, so the
/// list's text names the most recently pushed value first.
pub proof fn lemma_push_order<T: Render>(vs: Seq<T>)
    ensures
        after_pushes(Seq::<T>::empty(), vs) == vs.reverse(),
        rendering(after_pushes(Seq::<T>::empty(), vs)) == rendering(vs.reverse()),
    decreases vs.len(),
{
    if vs.len() > 0 {
        lemma_push_order(vs.drop_last());
        assert(seq![vs.last()] + vs.drop_last().reverse() =~= vs.reverse());
    } else {
        assert(vs.reverse() =~= Seq::<T>::empty());
    }
}

/// The text of a non-empty list is its first element's segment followed by the text of
/// the rest, which is what remains after that element is popped.
pub proof fn lemma_pop_render<T: Render>(s: Seq<T>)
    requires
        s.len() > 0,
    ensures
        rendering(s) == s[0].text() + arrow() + rendering(s.drop_first()),
{
    assert(s =~= seq![s[0]] + s.drop_first());
    lemma_segments_front(s[0], s.drop_first());
    assert(rendering(s) =~= s[0].text() + arrow() + rendering(s.drop_first()));
}

/// Inserting at position zero leaves the same contents as pushing.
pub proof fn lemma_insert_front<T>(s: Seq<T>, x: T)
    ensures
        s.insert(0, x) == seq![x] + s,
{
    assert(s.insert(0, x) =~= seq![x] + s);
}

/// Inserting at the position just past the last element appends, and the new element's
/// segment stands immediately before the closing `"None"`.
pub proof fn lemma_insert_end<T: Render>(s: Seq<T>, x: T)
    ensures
        s.insert(s.len() as int, x) == s.push(x),
        rendering(s.insert(s.len() as int, x)) == segments(s) + x.text() + arrow() + sentinel(),
{
    assert(s.insert(s.len() as int, x) =~= s.push(x));
    assert(s.push(x).drop_last() =~= s);
}

} // verus!
