//! The tokio channels that the actors talk through.
//!
//! Every item here is trusted: its contract is read from tokio's source,
//! not proved.

use vstd::prelude::*;

use crate::actor::alice::Message;

verus! {

/// tokio's bounded multi-producer sender; opaque to the proofs.
#[verifier::external_type_specification]
#[verifier::external_body]
#[verifier::reject_recursive_types(T)]
pub struct ExMpscSender<T>(tokio::sync::mpsc::Sender<T>);

/// tokio's bounded multi-producer receiver; opaque to the proofs.
#[verifier::external_type_specification]
#[verifier::external_body]
#[verifier::reject_recursive_types(T)]
pub struct ExMpscReceiver<T>(tokio::sync::mpsc::Receiver<T>);

/// tokio's one-shot sender; opaque to the proofs.
#[verifier::external_type_specification]
#[verifier::external_body]
#[verifier::reject_recursive_types(T)]
pub struct ExOneshotSender<T>(tokio::sync::oneshot::Sender<T>);

/// tokio's one-shot receiver; opaque to the proofs.
#[verifier::external_type_specification]
#[verifier::external_body]
#[verifier::reject_recursive_types(T)]
pub struct ExOneshotReceiver<T>(tokio::sync::oneshot::Receiver<T>);

/// The error a one-shot receiver yields when its sender went away; opaque.
/// Nothing here uses it, but Verus refuses the one-shot receiver above
/// without it: the receiver's `Future` impl names it as its output.
#[verifier::external_type_specification]
#[verifier::external_body]
pub struct ExOneshotRecvError(tokio::sync::oneshot::error::RecvError);

/// The largest buffer that `tokio::sync::mpsc::channel` accepts: the
/// semaphore behind the channel refuses more than `usize::MAX >> 3` permits.
pub open spec fn max_mpsc_buffer() -> nat {
    (usize::MAX / 8) as nat
}

/// The bound of the mailbox that a tokio mpsc sender writes to: the number
/// of messages it was built to hold, which `Sender::max_capacity` reports
/// (tokio keeps it, unchanged, in the channel's semaphore).
pub uninterp spec fn mailbox_bound(sender: tokio::sync::mpsc::Sender<Message>) -> nat;

/// The bound of the mailbox that a tokio mpsc receiver reads from, which
/// `Receiver::max_capacity` reports.
pub uninterp spec fn inbox_bound(receiver: tokio::sync::mpsc::Receiver<Message>) -> nat;

/// Calls `tokio::sync::mpsc::channel`, which builds a mailbox holding up to
/// `buffer` messages and hands back its two ends; tokio records `buffer` as
/// the bound both ends report. tokio panics when the buffer is 0 or above
/// `usize::MAX >> 3`; both are left out here. That the two ends belong to
/// one mailbox is not claimed: the ends are opaque, and which mailbox they
/// share is a matter of where it was allocated.
#[verifier::external_body]
pub(crate) fn mpsc_channel(buffer: usize) -> (ends: (tokio::sync::mpsc::Sender<Message>, tokio::sync::mpsc::Receiver<Message>))
    requires
        0 < buffer <= max_mpsc_buffer(),
    ensures
        mailbox_bound(ends.0) == buffer,
        inbox_bound(ends.1) == buffer,
{
    tokio::sync::mpsc::channel(buffer)
}

/// Calls `tokio::sync::oneshot::channel`, which builds a one-shot channel and
/// hands back its two ends. Nothing about them is claimed: they are opaque.
#[verifier::external_body]
pub(crate) fn oneshot_channel<T>() -> (ends: (tokio::sync::oneshot::Sender<T>, tokio::sync::oneshot::Receiver<T>))
{
    tokio::sync::oneshot::channel()
}

/// Calls `tokio::sync::oneshot::Sender::send`. Whether the value gets through
/// depends on whether the receiving end is still alive, which nothing here
/// knows; what tokio's source shows for every outcome is that a refused value
/// is handed back unchanged.
#[verifier::external_body]
pub(crate) fn oneshot_send<T>(sender: tokio::sync::oneshot::Sender<T>, value: T) -> (outcome: Result<(), T>)
    ensures
        outcome matches Err(back) ==> back == value,
{
    sender.send(value)
}

/// `Clone::clone` of tokio's mpsc sender: a further sending end of the same
/// mailbox. The two ends are opaque, so nothing is claimed of the result.
pub assume_specification<T>[ <tokio::sync::mpsc::Sender<T> as std::clone::Clone>::clone ](
    sender: &tokio::sync::mpsc::Sender<T>,
) -> (copy: tokio::sync::mpsc::Sender<T>);

} // verus!
