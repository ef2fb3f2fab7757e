//! The sending end of a target connection's write queue.
//!
//! The queue is an unbounded `tokio` channel. Its receiving end belongs to the task
//! that writes to the socket; the sending end is held by the connection. Verus
//! does not look inside the channel, so what this file says of it is stated, not
//! proved.

use vstd::prelude::*;

verus! {

/// `tokio::sync::mpsc::UnboundedSender`, carried as an opaque value.
#[verifier::external_type_specification]
#[verifier::external_body]
#[verifier::reject_recursive_types(T)]
pub struct ExUnboundedSender<T>(tokio::sync::mpsc::UnboundedSender<T>);

/// The entries that the queue has taken from this sender, oldest first: `Some`
/// holds bytes for the socket, `None` is the close sentinel.
pub uninterp spec fn accepted_entries(
    sender: tokio::sync::mpsc::UnboundedSender<Option<Vec<u8>>>,
) -> Seq<Option<Seq<u8>>>;

/// A queue entry as plain values.
pub open spec fn entry_view(entry: Option<Vec<u8>>) -> Option<Seq<u8>> {
    match entry {
        Some(bytes) => Some(bytes@),
        None => None,
    }
}

/// Hands `entry` to `tokio::sync::mpsc::UnboundedSender::send` and reports
/// whether the queue took it.
///
/// Not verified. `send` appends the entry behind all earlier ones and returns
/// `Ok` while the receiving end is open; once that end is closed or dropped it
/// gives the entry back in an `Err` and the queue stays as it was. It never
/// waits. It ends the process only if more than `usize::MAX / 2` entries are
/// queued at once, which no memory holds.
#[verifier::external_body]
pub(crate) fn enqueue(
    sender: &mut tokio::sync::mpsc::UnboundedSender<Option<Vec<u8>>>,
    entry: Option<Vec<u8>>,
) -> (accepted: bool)
    ensures
        accepted ==> accepted_entries(*final(sender)) == accepted_entries(*old(sender)).push(
            entry_view(entry),
        ),
        !accepted ==> accepted_entries(*final(sender)) == accepted_entries(*old(sender)),
{
    sender.send(entry).is_ok()
}

} // verus!
