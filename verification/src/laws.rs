//! Laws of the list, stated over the sequence view that the operations'
//! contracts use.
use vstd::prelude::*;

verus! {

/// The view a list reaches when the elements of `es` are pushed onto a list
/// whose view is `s`, one after the other in the order of `es`: each push
/// prepends, exactly as `List::push` ensures.
pub open spec fn push_all<T>(s: Seq<T>, es: Seq<T>) -> Seq<T>
    decreases es.len(),
{
    if es.len() == 0 {
        s
    } else {
        push_all(seq![es[0]] + s, es.drop_first())
    }
}

/// LIFO order: pushing the elements of `es` in order leaves the list holding
/// them reversed, most recently pushed first. Since `pop` always yields the
/// first element of the view, popping after pushing `e1, …, en` yields
/// `en, …, e1`.
pub proof fn lemma_lifo<T>(s: Seq<T>, es: Seq<T>)
    ensures
        push_all(s, es) == es.reverse() + s,
    decreases es.len(),
{
    if es.len() == 0 {
        assert(push_all(s, es) == es.reverse() + s);
    } else {
        lemma_lifo(seq![es[0]] + s, es.drop_first());
        assert(es.reverse() + s == es.drop_first().reverse() + (seq![es[0]] + s));
    }
}

/// LIFO order from the start: pushing `e1, …, en` onto a fresh, empty list
/// leaves the view `en, …, e1`, so popping yields the elements exactly in the
/// reverse of the order they were pushed.
pub proof fn lemma_lifo_from_empty<T>(es: Seq<T>)
    ensures
        push_all(Seq::<T>::empty(), es) == es.reverse(),
{
    lemma_lifo(Seq::<T>::empty(), es);
    assert(es.reverse() + Seq::<T>::empty() =~= es.reverse());
}

/// Emptiness: a fresh list's view holds nothing; a push never leaves a list
/// empty; popping empties the list exactly when the popped element was the
/// last one. `is_empty` and a `pop` that returns nothing both say the same
/// thing of a list: that its view has length zero.
pub proof fn lemma_emptiness<T>(s: Seq<T>, e: T)
    ensures
        Seq::<T>::empty().len() == 0,
        (seq![e] + s).len() != 0,
        s.len() != 0 ==> ((s.drop_first().len() == 0) <==> s.len() == 1),
{
}

} // verus!
