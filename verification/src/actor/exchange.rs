//! The rule every actor in this module follows, as mathematics: store the
//! incoming value, answer with the one stored before.

use vstd::prelude::*;

verus! {

/// What an actor holding `stored` does with `incoming`: it keeps `incoming`
/// and answers `stored`. The pair is (value kept, answer).
pub open spec fn exchange(stored: usize, incoming: usize) -> (usize, usize) {
    (incoming, stored)
}

/// The value kept after exchanging each of `incoming` in turn, starting
/// from `stored`.
pub open spec fn kept_after(stored: usize, incoming: Seq<usize>) -> usize
    decreases incoming.len(),
{
    if incoming.len() == 0 {
        stored
    } else {
        exchange(kept_after(stored, incoming.drop_last()), incoming.last()).0
    }
}

/// The answers given while exchanging each of `incoming` in turn, starting
/// from `stored`, in order.
pub open spec fn answers(stored: usize, incoming: Seq<usize>) -> Seq<usize>
    decreases incoming.len(),
{
    if incoming.len() == 0 {
        Seq::empty()
    } else {
        answers(stored, incoming.drop_last()).push(
            exchange(kept_after(stored, incoming.drop_last()), incoming.last()).1,
        )
    }
}

/// An actor that exchanges a run of values keeps the last of them (or what
/// it held, if the run is empty), and its answers are what it held first
/// followed by every value of the run but the last: each answer gives back
/// what the message before it wrote.
pub proof fn lemma_answers_echo_previous(stored: usize, incoming: Seq<usize>)
    ensures
        kept_after(stored, incoming) == (if incoming.len() == 0 { stored } else { incoming.last() }),
        answers(stored, incoming).len() == incoming.len(),
        incoming.len() > 0 ==> answers(stored, incoming)[0] == stored,
        forall|i: int| 0 < i < incoming.len() ==> #[trigger] answers(stored, incoming)[i] == incoming[i - 1],
    decreases incoming.len(),
{
    if incoming.len() > 0 {
        let prefix = incoming.drop_last();
        lemma_answers_echo_previous(stored, prefix);
        assert forall|i: int| 0 < i < incoming.len() implies #[trigger] answers(stored, incoming)[i] == incoming[i - 1] by {
            if i < incoming.len() - 1 {
                assert(answers(stored, incoming)[i] == answers(stored, prefix)[i]);
                assert(prefix[i - 1] == incoming[i - 1]);
            } else {
                assert(prefix.last() == incoming[i - 1]);
            }
        }
    }
}

} // verus!
