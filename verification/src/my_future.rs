//! A future that is ready once at least two people share an office.
//!
//! The office counts its occupants and remembers the waker of the last task
//! that found it not ready, so that whoever changes the office can wake that
//! task.

use std::task::Waker;
use vstd::prelude::*;

verus! {

/// std's task waker; opaque to the proofs.
#[verifier::external_type_specification]
#[verifier::external_body]
pub struct ExWaker(std::task::Waker);

/// What a poll of the office finds.
#[derive(Debug, Clone, Copy, PartialEq, Eq, Structural)]
pub enum OfficePoll {
    /// At least two people are in: the stand-up can start.
    Ready,
    /// Fewer than two people are in: the poller's waker is kept.
    Pending,
}

/// The office: how many people are in it, and the waker to call when that
/// changes.
#[derive(Debug)]
pub struct SharedOffice {
    pub occupants: u8,
    pub waker: Option<Waker>,
}

/// The number of occupants from which the office is ready.
pub const QUORUM: u8 = 2;

/// An office counts as ready when at least `QUORUM` people are in it.
pub open spec fn is_ready(office: SharedOffice) -> bool {
    office.occupants >= QUORUM
}

/// An office with nobody in it and no waker.
pub open spec fn empty_office() -> SharedOffice {
    SharedOffice { occupants: 0, waker: None }
}

/// The office after one more person came in.
pub open spec fn entered(office: SharedOffice) -> SharedOffice {
    SharedOffice { occupants: (office.occupants + 1) as u8, waker: office.waker }
}

/// The office after one person left.
pub open spec fn left(office: SharedOffice) -> SharedOffice {
    SharedOffice { occupants: (office.occupants - 1) as u8, waker: office.waker }
}

/// What polling `office` with `waker` finds, and the office afterwards: a
/// ready office is left as it is; one that is not ready keeps `waker` in
/// place of any earlier one.
pub open spec fn polled(office: SharedOffice, waker: Waker) -> (OfficePoll, SharedOffice) {
    if is_ready(office) {
        (OfficePoll::Ready, office)
    } else {
        (OfficePoll::Pending, SharedOffice { occupants: office.occupants, waker: Some(waker) })
    }
}

impl SharedOffice {
    /// An empty office with no waker.
    pub fn empty() -> (office: Self)
        ensures
            office == empty_office(),
    {
        SharedOffice { occupants: 0, waker: None }
    }

    /// Takes the waker out of the office, leaving none, so it can be woken.
    pub fn take_waker(&mut self) -> (waker: Option<Waker>)
        ensures
            waker == old(self).waker,
            final(self).waker is None,
            final(self).occupants == old(self).occupants,
    {
        self.waker.take()
    }
}

impl Default for SharedOffice {
    fn default() -> (office: Self)
        ensures
            office == empty_office(),
    {
        SharedOffice::empty()
    }
}

/// The future: it is ready once its office is.
#[derive(Debug)]
pub struct ThorFuture {
    pub shared_office: SharedOffice,
}

impl ThorFuture {
    /// A future on an empty office.
    pub fn new() -> (future: Self)
        ensures
            future.shared_office == empty_office(),
    {
        ThorFuture { shared_office: SharedOffice::empty() }
    }

    /// Polls the future: ready when at least two people are in the office;
    /// otherwise the waker that `make_waker` gives (the polling task's) is
    /// kept in the office and the future is pending. `make_waker` is called
    /// only when the future is pending.
    pub fn poll<F: FnOnce() -> Waker>(&mut self, make_waker: F) -> (found: OfficePoll)
        requires
            make_waker.requires(()),
        ensures
            is_ready(old(self).shared_office) ==> found == OfficePoll::Ready
                && final(self).shared_office == old(self).shared_office,
            !is_ready(old(self).shared_office) ==> exists|waker: Waker|
                #[trigger] make_waker.ensures((), waker) && (found, final(self).shared_office)
                    == polled(old(self).shared_office, waker),
            !is_ready(old(self).shared_office) ==> found == OfficePoll::Pending && exists|waker: Waker|
                #[trigger] make_waker.ensures((), waker)
                    && final(self).shared_office.waker == Some(waker)
                    && final(self).shared_office.occupants == old(self).shared_office.occupants,
    {
        if self.shared_office.occupants >= QUORUM {
            OfficePoll::Ready
        } else {
            let waker = make_waker();
            self.shared_office.waker = Some(waker);
            OfficePoll::Pending
        }
    }

    /// One person leaves the office. An empty office has nobody to leave,
    /// and is left out.
    pub fn person_leave(&mut self)
        requires
            old(self).shared_office.occupants > 0,
        ensures
            final(self).shared_office == left(old(self).shared_office),
    {
        self.shared_office.occupants = self.shared_office.occupants - 1;
    }

    /// One person enters the office. A count above `u8::MAX` would
    /// overflow, and is left out.
    pub fn person_enter(&mut self)
        requires
            old(self).shared_office.occupants < u8::MAX,
        ensures
            final(self).shared_office == entered(old(self).shared_office),
    {
        self.shared_office.occupants = self.shared_office.occupants + 1;
    }
}

impl Default for ThorFuture {
    fn default() -> (future: Self)
        ensures
            future.shared_office == empty_office(),
    {
        ThorFuture::new()
    }
}

/// Someone entering and then leaving gives back the office as it was, and
/// so does someone leaving and then coming back.
pub proof fn lemma_enter_leave_undo(office: SharedOffice)
    ensures
        office.occupants < u8::MAX ==> left(entered(office)) == office,
        office.occupants > 0 ==> entered(left(office)) == office,
{
}

/// A poll finds the office ready exactly when at least two people are in
/// it; a ready poll changes nothing, and a pending one changes only the
/// waker, so polling twice finds the same thing.
pub proof fn lemma_poll_readiness(office: SharedOffice, w1: Waker, w2: Waker)
    ensures
        (polled(office, w1).0 == OfficePoll::Ready) == (office.occupants >= QUORUM),
        polled(office, w1).1.occupants == office.occupants,
        polled(polled(office, w1).1, w2).0 == polled(office, w1).0,
        office.occupants >= QUORUM ==> polled(office, w1).1 == office,
{
}

/// A poll that finds the office not ready leaves in it the waker of that
/// poll, whatever waker the office held before, so it is always the task
/// that polled last that gets woken: after two pending polls, the office
/// holds the second poller's waker, not the first's.
pub proof fn lemma_pending_poll_keeps_latest_waker(office: SharedOffice, w1: Waker, w2: Waker)
    requires
        office.occupants < QUORUM,
    ensures
        polled(office, w1).1.waker == Some(w1),
        polled(polled(office, w1).1, w2).1.waker == Some(w2),
        office.waker is Some ==> polled(office, w2).1.waker == Some(w2),
{
}

/// An empty office is pending; after two people enter it, it is ready.
pub proof fn lemma_two_entrances_make_ready(office: SharedOffice, waker: Waker)
    requires
        office.occupants == 0,
    ensures
        polled(office, waker).0 == OfficePoll::Pending,
        polled(entered(office), waker).0 == OfficePoll::Pending,
        polled(entered(entered(office)), waker).0 == OfficePoll::Ready,
{
}

/// Two futures that both start on an empty office, such as one from
/// `ThorFuture::new` and one from `ThorFuture::default`, hold the same
/// office; since entering, leaving and polling each fix the next office
/// from the current one, the same run of moves leaves both in the same
/// office, and a poll then finds the same on both.
pub proof fn lemma_fresh_futures_agree(a: ThorFuture, b: ThorFuture, moves: Seq<bool>, waker: Waker)
    requires
        a.shared_office == empty_office(),
        b.shared_office == empty_office(),
    ensures
        a.shared_office == b.shared_office,
        after_moves(a.shared_office, moves) == after_moves(b.shared_office, moves),
        moves_allowed(a.shared_office, moves) == moves_allowed(b.shared_office, moves),
        polled(after_moves(a.shared_office, moves), waker) == polled(after_moves(b.shared_office, moves), waker),
{
}

/// The office after a run of moves, each `true` for someone entering and
/// `false` for someone leaving, made in order.
pub open spec fn after_moves(office: SharedOffice, moves: Seq<bool>) -> SharedOffice
    decreases moves.len(),
{
    if moves.len() == 0 {
        office
    } else {
        let before = after_moves(office, moves.drop_last());
        if moves.last() {
            entered(before)
        } else {
            left(before)
        }
    }
}

/// Every move of the run can be made: nobody enters a full office (one
/// holding `u8::MAX` people) and nobody leaves an empty one.
pub open spec fn moves_allowed(office: SharedOffice, moves: Seq<bool>) -> bool
    decreases moves.len(),
{
    if moves.len() == 0 {
        true
    } else {
        let before = after_moves(office, moves.drop_last());
        &&& moves_allowed(office, moves.drop_last())
        &&& if moves.last() {
            before.occupants < u8::MAX
        } else {
            before.occupants > 0
        }
    }
}

/// How many of the moves are someone entering.
pub open spec fn entries(moves: Seq<bool>) -> int
    decreases moves.len(),
{
    if moves.len() == 0 {
        0
    } else {
        entries(moves.drop_last()) + if moves.last() {
            1int
        } else {
            0int
        }
    }
}

/// How many of the moves are someone leaving.
pub open spec fn departures(moves: Seq<bool>) -> int
    decreases moves.len(),
{
    if moves.len() == 0 {
        0
    } else {
        departures(moves.drop_last()) + if moves.last() {
            0int
        } else {
            1int
        }
    }
}

/// Whatever the order in which people enter and leave, as long as nobody
/// enters a full office or leaves an empty one, the office ends with its
/// first count plus those who entered minus those who left, its waker is
/// untouched, and a poll then finds it ready exactly when that count is at
/// least two.
pub proof fn lemma_moves_count(office: SharedOffice, moves: Seq<bool>, waker: Waker)
    requires
        moves_allowed(office, moves),
    ensures
        after_moves(office, moves).occupants == office.occupants + entries(moves) - departures(moves),
        after_moves(office, moves).waker == office.waker,
        (polled(after_moves(office, moves), waker).0 == OfficePoll::Ready)
            == (office.occupants + entries(moves) - departures(moves) >= QUORUM),
    decreases moves.len(),
{
    if moves.len() > 0 {
        lemma_moves_count(office, moves.drop_last(), waker);
    }
}

} // verus!
