use vstd::prelude::*;
use crate::action::Action;

verus! {

/// The broadcast fold: starting from "no follow-up", every reply that
/// carries an action overwrites the accumulator, so the reply of the last
/// producer in visiting order is what a dispatch returns.
pub open spec fn fold_replies(replies: Seq<Option<Action>>) -> Option<Action>
    decreases replies.len(),
{
    if replies.len() == 0 {
        None
    } else if replies.last() is Some {
        replies.last()
    } else {
        fold_replies(replies.drop_last())
    }
}

/// A fold over replies that all carry nothing carries nothing.
pub proof fn lemma_fold_of_silence(replies: Seq<Option<Action>>)
    requires
        forall|j: int| 0 <= j < replies.len() ==> replies[j] is None,
    ensures
        fold_replies(replies) is None,
    decreases replies.len(),
{
    if replies.len() > 0 {
        lemma_fold_of_silence(replies.drop_last());
    }
}

/// The fold of three replies, written out: the last reply that carries an
/// action wins, and silence from all three carries nothing.
pub proof fn lemma_fold_replies_three(a: Option<Action>, b: Option<Action>, c: Option<Action>)
    ensures
        fold_replies(seq![a, b, c]) == (if c is Some {
            c
        } else if b is Some {
            b
        } else {
            a
        }),
{
    reveal_with_fuel(fold_replies, 4);
    let s = seq![a, b, c];
    assert(s.drop_last().drop_last().drop_last() =~= Seq::<Option<Action>>::empty());
    assert(s.drop_last().drop_last().last() == a);
    assert(s.drop_last().last() == b);
}

/// Last producer wins: when the reply at `i` carries an action and every
/// later reply carries none, the fold returns exactly the reply at `i`,
/// whatever the earlier components proposed.
pub proof fn lemma_last_producer_wins(replies: Seq<Option<Action>>, i: int)
    requires
        0 <= i < replies.len(),
        replies[i] is Some,
        forall|j: int| i < j < replies.len() ==> replies[j] is None,
    ensures
        fold_replies(replies) == replies[i],
    decreases replies.len(),
{
    if i == replies.len() - 1 {
    } else {
        lemma_last_producer_wins(replies.drop_last(), i);
    }
}

} // verus!
