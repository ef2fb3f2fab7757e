//! One connection to a target host, as the tunnel session sees it.

use crate::target_tcp_client::target_tcp_callbacks::TargetTcpCallbacks;
use crate::target_tcp_client::write_queue::accepted_entries;
use crate::target_tcp_client::write_queue::enqueue;
use crate::target_tcp_client::write_queue::entry_view;
use crate::tcp_tunnel::tcp_tunnel::DisconnectedTarget;
use crate::tcp_tunnel::tunnel_message::send_view;
use crate::tcp_tunnel::tunnel_message::TunnelMessageView;
use crate::tcp_tunnel::tunnel_message::TunnelSend;
use crate::tcp_tunnel::tunnel_tcp_connection::DisconnectReason;
use crate::tcp_tunnel::tunnel_tcp_connection::TunnelTcpConnection;
use crate::tcp_tunnel::tunnel_tcp_connection::TunnelTcpConnectionView;
use vstd::prelude::*;
use vstd::string::StringExecFns;

verus! {

/// A live connection to a target host.
///
/// The session that registered it is its only owner. The task that reads from
/// the socket knows the connection by its identifier alone, the task that writes
/// to the socket holds the receiving end of the write queue.
#[derive(Debug)]
pub struct TargetTcpClient {
    id: u32,
    sender: tokio::sync::mpsc::UnboundedSender<Option<Vec<u8>>>,
    disconnected: bool,
}

/// A target connection as plain values.
pub ghost struct TargetTcpClientView {
    /// The identifier that the tunnel server chose for the connection.
    pub id: u32,
    /// Set by the first `disconnect`; never cleared.
    pub disconnected: bool,
    /// What the write queue has taken so far, oldest first.
    pub queued: Seq<Option<Seq<u8>>>,
}

impl TargetTcpClientView {
    /// The connection after one attempt to queue `entry`.
    pub open spec fn enqueued(self, entry: Option<Seq<u8>>, accepted: bool) -> Self {
        if accepted {
            TargetTcpClientView { queued: self.queued.push(entry), ..self }
        } else {
            self
        }
    }

    /// The connection after `disconnect`; `accepted` says whether the queue took
    /// the close sentinel.
    pub open spec fn disconnected(self, accepted: bool) -> Self {
        if self.disconnected {
            self
        } else {
            TargetTcpClientView { disconnected: true, ..self }.enqueued(None, accepted)
        }
    }

    /// Whether this is `before` after a `disconnect`, whatever its write queue
    /// did with the close sentinel.
    pub open spec fn is_disconnection_of(self, before: Self) -> bool {
        self == before.disconnected(true) || self == before.disconnected(false)
    }
}

impl View for TargetTcpClient {
    type V = TargetTcpClientView;

    closed spec fn view(&self) -> TargetTcpClientView {
        TargetTcpClientView {
            id: self.id,
            disconnected: self.disconnected,
            queued: accepted_entries(self.sender),
        }
    }
}

/// What is reported upstream when the dial to `host_port` failed with `cause`.
pub open spec fn can_not_connect_reason(host_port: Seq<char>, cause: Seq<char>) -> Seq<char> {
    "Can not connect to target "@ + host_port + ". Err: "@ + cause
}

/// The report of a failed dial names the host and is never empty.
pub proof fn lemma_can_not_connect_reason_names_host(host_port: Seq<char>, cause: Seq<char>)
    ensures
        can_not_connect_reason(host_port, cause).len() == 33 + host_port.len() + cause.len(),
        can_not_connect_reason(host_port, cause).subrange(26, 26 + host_port.len() as int)
            == host_port,
{
    reveal_strlit("Can not connect to target ");
    reveal_strlit(". Err: ");
}

impl TargetTcpClient {
    /// Makes the connection out of what the dial to `host_port` gave: the
    /// sending end of the write queue of the socket that was opened, or the
    /// cause for which none was. A new connection is not disconnected. A failed
    /// dial gives the text that is reported upstream.
    pub fn new(
        id: u32,
        host_port: String,
        dialed: Result<tokio::sync::mpsc::UnboundedSender<Option<Vec<u8>>>, String>,
    ) -> (result: Result<Self, String>)
        ensures
            match dialed {
                Ok(sender) => result matches Ok(client) && client@ == (TargetTcpClientView {
                    id,
                    disconnected: false,
                    queued: accepted_entries(sender),
                }),
                Err(cause) => result matches Err(reason) && reason@ == can_not_connect_reason(
                    host_port@,
                    cause@,
                ),
            },
    {
        match dialed {
            Ok(sender) => Ok(TargetTcpClient { id, sender, disconnected: false }),
            Err(cause) => {
                let mut reason = String::from_str("Can not connect to target ");
                reason.append(host_port.as_str());
                reason.append(". Err: ");
                reason.append(cause.as_str());
                Err(reason)
            },
        }
    }

    /// Queues `payload` for the socket. The caller gets no back-pressure: the
    /// queue is unbounded. The result is false when the write path has ended and
    /// the queue no longer takes entries.
    pub fn send_payload(&mut self, payload: Vec<u8>) -> (accepted: bool)
        ensures
            final(self)@ == old(self)@.enqueued(Some(payload@), accepted),
    {
        enqueue(&mut self.sender, Some(payload))
    }

    /// Marks the connection as disconnected and, the first time, queues the close
    /// sentinel. Later calls change nothing. The result says whether this call
    /// put the sentinel into the queue.
    pub fn disconnect(&mut self) -> (accepted: bool)
        ensures
            final(self)@ == old(self)@.disconnected(accepted),
            old(self)@.disconnected ==> !accepted,
    {
        if self.disconnected {
            false
        } else {
            self.disconnected = true;
            enqueue(&mut self.sender, None)
        }
    }

    /// The identifier under which the tunnel server knows the connection.
    pub fn id(&self) -> (id: u32)
        ensures
            id == self@.id,
    {
        self.id
    }

    /// Whether `disconnect` has been called.
    pub fn is_disconnected(&self) -> (disconnected: bool)
        ensures
            disconnected == self@.disconnected,
    {
        self.disconnected
    }
}

/// The size of the buffer that the read path reads into: 5 MiB.
pub const READ_BUFFER_SIZE: usize = 1024 * 1024 * 5;

/// The seconds that one write to the socket may take.
pub const SEND_TIMEOUT_SECS: u64 = 15;

/// How a read from the socket ended.
#[derive(Debug, Clone, Copy, PartialEq, Eq)]
pub enum ReadOutcome {
    /// So many bytes stand at the start of the buffer; zero is the end of the
    /// stream.
    Read(usize),
    /// The read failed.
    Failed,
}

/// What the read path does after a read.
#[derive(Debug)]
pub enum ReadStep {
    /// Send the bytes upstream, then read again.
    Forward(TunnelSend),
    /// Stop reading. The connection has left the session; what it leaves behind
    /// is enclosed, with the notification for upstream.
    Stop(Option<DisconnectedTarget>),
}

/// Whether the read path goes on after a read that ended as `outcome`, while
/// the holder of the session is `tunnel`: it does as long as bytes arrive and a
/// session is up to take them.
pub open spec fn read_goes_on(tunnel: TunnelTcpConnectionView, outcome: ReadOutcome) -> bool {
    outcome matches ReadOutcome::Read(read_amount) && read_amount > 0 && tunnel.is_connected()
}

/// One turn of the read path of the target connection that `callbacks` belongs
/// to: `outcome` is how the read into `buffer` ended.
///
/// Bytes that were read go upstream and the path reads again. The end of the
/// stream, a failed read, or bytes that find no session end the path, and
/// however it ends, it reports the connection as disconnected, once.
pub fn read_loop(
    callbacks: &TargetTcpCallbacks,
    tunnel: &mut TunnelTcpConnection,
    buffer: &[u8],
    outcome: ReadOutcome,
) -> (step: ReadStep)
    requires
        outcome matches ReadOutcome::Read(read_amount) ==> read_amount <= buffer@.len(),
    ensures
        read_goes_on(old(tunnel)@, outcome) ==> {
            &&& final(tunnel)@ == old(tunnel)@
            &&& step matches ReadStep::Forward(send)
            &&& Some(send@) == old(tunnel)@.send(
                TunnelMessageView::Payload {
                    id: callbacks.id(),
                    payload: buffer@.subrange(0, outcome->Read_0 as int),
                },
            )
        },
        !read_goes_on(old(tunnel)@, outcome) ==> {
            &&& final(tunnel)@ == old(tunnel)@.without_target(callbacks.id())
            &&& step matches ReadStep::Stop(disconnected)
            &&& disconnected is Some <==> old(tunnel)@.has_target(callbacks.id())
            &&& disconnected matches Some(target) ==> {
                &&& target.connection@.is_disconnection_of(
                    old(tunnel)@.target_connections()[callbacks.id()],
                )
                &&& send_view(target.notification) == old(tunnel)@.disconnect_notification(
                    callbacks.id(),
                    DisconnectReason::DisconnectedFromSideB,
                )
            }
        },
{
    match outcome {
        ReadOutcome::Read(read_amount) => {
            if read_amount > 0 {
                let payload = vstd::slice::slice_to_vec(
                    vstd::slice::slice_subrange(buffer, 0, read_amount),
                );
                match callbacks.on_payload(tunnel, payload) {
                    Some(send) => {
                        return ReadStep::Forward(send);
                    },
                    None => {},
                }
            }
        },
        ReadOutcome::Failed => {},
    }
    ReadStep::Stop(callbacks.on_disconnected(tunnel))
}

/// How a write to the socket ended.
#[derive(Debug, Clone, Copy, PartialEq, Eq)]
pub enum WriteOutcome {
    /// All bytes were written in time.
    Written,
    /// The write took longer than `SEND_TIMEOUT_SECS`.
    TimedOut,
    /// The write failed.
    Failed,
}

/// What has happened on the write path.
#[derive(Debug, PartialEq, Eq)]
pub enum SendEvent {
    /// The write queue gave its next entry: bytes, the close sentinel (the inner
    /// `None`), or the news that it is closed (the outer `None`).
    Received(Option<Option<Vec<u8>>>),
    /// The write that was asked for has ended.
    Written(WriteOutcome),
}

/// An event of the write path as plain values.
pub ghost enum SendEventView {
    Received(Option<Option<Seq<u8>>>),
    Written(WriteOutcome),
}

impl View for SendEvent {
    type V = SendEventView;

    open spec fn view(&self) -> SendEventView {
        match *self {
            SendEvent::Received(Some(entry)) => SendEventView::Received(Some(entry_view(entry))),
            SendEvent::Received(None) => SendEventView::Received(None),
            SendEvent::Written(outcome) => SendEventView::Written(outcome),
        }
    }
}

/// What the write path does next.
#[derive(Debug, PartialEq, Eq)]
pub enum SendStep {
    /// Take the next entry from the write queue.
    Receive,
    /// Write `payload` to the socket, within `timeout_secs` seconds.
    Write { payload: Vec<u8>, timeout_secs: u64 },
    /// Leave the loop and shut the socket down.
    Shutdown,
}

/// A step of the write path as plain values.
pub ghost enum SendStepView {
    Receive,
    Write { payload: Seq<u8>, timeout_secs: u64 },
    Shutdown,
}

impl View for SendStep {
    type V = SendStepView;

    open spec fn view(&self) -> SendStepView {
        match *self {
            SendStep::Receive => SendStepView::Receive,
            SendStep::Write { payload, timeout_secs } => SendStepView::Write {
                payload: payload@,
                timeout_secs,
            },
            SendStep::Shutdown => SendStepView::Shutdown,
        }
    }
}

/// The step that follows `event` on the write path. Bytes from the queue are
/// written, with the time limit. The close sentinel, a closed queue, and a write
/// that failed or ran out of time end the path with a shutdown of the socket. A
/// write that went through is followed by the next entry.
pub open spec fn send_step(event: SendEventView) -> SendStepView {
    match event {
        SendEventView::Received(Some(Some(payload))) => SendStepView::Write {
            payload,
            timeout_secs: SEND_TIMEOUT_SECS,
        },
        SendEventView::Received(_) => SendStepView::Shutdown,
        SendEventView::Written(WriteOutcome::Written) => SendStepView::Receive,
        SendEventView::Written(_) => SendStepView::Shutdown,
    }
}

/// One turn of the write path: the step that follows `event`. The path starts
/// with `SendStep::Receive` and is over after `SendStep::Shutdown`.
pub fn tcp_send_loop(event: SendEvent) -> (step: SendStep)
    ensures
        step@ == send_step(event@),
{
    match event {
        SendEvent::Received(next) => {
            match next {
                Some(Some(payload)) => SendStep::Write { payload, timeout_secs: SEND_TIMEOUT_SECS },
                Some(None) => SendStep::Shutdown,
                None => SendStep::Shutdown,
            }
        },
        SendEvent::Written(outcome) => {
            match outcome {
                WriteOutcome::Written => SendStep::Receive,
                WriteOutcome::TimedOut => SendStep::Shutdown,
                WriteOutcome::Failed => SendStep::Shutdown,
            }
        },
    }
}

/// The writes and the shutdown of the write path, in the order in which it
/// performs them, from a point where it asks the write queue for an entry: the
/// queue gives `entries` in turn and is closed after them, and the write
/// number `k` from here on ends as `outcomes(written + k)`.
pub open spec fn send_steps(
    entries: Seq<Option<Seq<u8>>>,
    outcomes: spec_fn(int) -> WriteOutcome,
    written: int,
) -> Seq<SendStepView>
    decreases entries.len(),
{
    if entries.len() == 0 {
        seq![send_step(SendEventView::Received(None))]
    } else {
        let step = send_step(SendEventView::Received(Some(entries[0])));
        if step is Write {
            let next = send_step(SendEventView::Written(outcomes(written)));
            if next is Receive {
                seq![step] + send_steps(entries.drop_first(), outcomes, written + 1)
            } else {
                seq![step, next]
            }
        } else {
            seq![step]
        }
    }
}

/// The write of each of `payloads`, in their order and with the time limit.
pub open spec fn writes_of(payloads: Seq<Seq<u8>>) -> Seq<SendStepView> {
    Seq::new(
        payloads.len(),
        |i: int| SendStepView::Write { payload: payloads[i], timeout_secs: SEND_TIMEOUT_SECS },
    )
}

/// `payloads` as entries of the write queue.
pub open spec fn entries_of(payloads: Seq<Seq<u8>>) -> Seq<Option<Seq<u8>>> {
    Seq::new(payloads.len(), |i: int| Some(payloads[i]))
}

/// With payloads queued before a close sentinel, the write path writes all of
/// them, in the order in which they were queued, and then shuts the socket
/// down, provided that no write fails or runs out of time. What is queued
/// behind the sentinel is never written.
pub proof fn lemma_writes_all_before_sentinel(
    payloads: Seq<Seq<u8>>,
    behind: Seq<Option<Seq<u8>>>,
    outcomes: spec_fn(int) -> WriteOutcome,
    written: int,
)
    requires
        forall|k: int|
            written <= k < written + payloads.len() ==> #[trigger] outcomes(k)
                == WriteOutcome::Written,
    ensures
        send_steps(entries_of(payloads) + seq![None] + behind, outcomes, written) == writes_of(
            payloads,
        ) + seq![SendStepView::Shutdown],
    decreases payloads.len(),
{
    let entries = entries_of(payloads) + seq![None] + behind;
    if payloads.len() == 0 {
        assert(entries[0] == None::<Seq<u8>>);
        assert(writes_of(payloads) + seq![SendStepView::Shutdown] =~= seq![SendStepView::Shutdown]);
    } else {
        let rest = payloads.drop_first();
        assert(entries[0] == Some(payloads[0]));
        assert(outcomes(written) == WriteOutcome::Written);
        assert(entries.drop_first() =~= entries_of(rest) + seq![None] + behind);
        lemma_writes_all_before_sentinel(rest, behind, outcomes, written + 1);
        assert(writes_of(payloads) + seq![SendStepView::Shutdown] =~= seq![
            SendStepView::Write { payload: payloads[0], timeout_secs: SEND_TIMEOUT_SECS },
        ] + (writes_of(rest) + seq![SendStepView::Shutdown]));
    }
}

/// The first write that fails or runs out of time ends the write path: what
/// was queued before it has been written in order, the socket is shut down
/// next, and whatever else is queued is never written.
pub proof fn lemma_failed_write_ends_write_path(
    payloads: Seq<Seq<u8>>,
    behind: Seq<Option<Seq<u8>>>,
    outcomes: spec_fn(int) -> WriteOutcome,
    written: int,
)
    requires
        payloads.len() > 0,
        forall|k: int|
            written <= k < written + payloads.len() - 1 ==> #[trigger] outcomes(k)
                == WriteOutcome::Written,
        outcomes(written + payloads.len() - 1) != WriteOutcome::Written,
    ensures
        send_steps(entries_of(payloads) + behind, outcomes, written) == writes_of(payloads)
            + seq![SendStepView::Shutdown],
    decreases payloads.len(),
{
    let entries = entries_of(payloads) + behind;
    let rest = payloads.drop_first();
    assert(entries[0] == Some(payloads[0]));
    if payloads.len() == 1 {
        assert(outcomes(written) != WriteOutcome::Written);
        assert(writes_of(payloads) + seq![SendStepView::Shutdown] =~= seq![
            SendStepView::Write { payload: payloads[0], timeout_secs: SEND_TIMEOUT_SECS },
            SendStepView::Shutdown,
        ]);
    } else {
        assert(outcomes(written) == WriteOutcome::Written);
        assert(entries.drop_first() =~= entries_of(rest) + behind);
        assert(written + 1 + rest.len() - 1 == written + payloads.len() - 1);
        lemma_failed_write_ends_write_path(rest, behind, outcomes, written + 1);
        assert(writes_of(payloads) + seq![SendStepView::Shutdown] =~= seq![
            SendStepView::Write { payload: payloads[0], timeout_secs: SEND_TIMEOUT_SECS },
        ] + (writes_of(rest) + seq![SendStepView::Shutdown]));
    }
}

/// However the queue is filled and however the writes end, the last thing that
/// the write path does is to shut the socket down, and it does so once.
pub proof fn lemma_write_path_ends_with_shutdown(
    entries: Seq<Option<Seq<u8>>>,
    outcomes: spec_fn(int) -> WriteOutcome,
    written: int,
)
    ensures
        send_steps(entries, outcomes, written).len() > 0,
        send_steps(entries, outcomes, written).last() == SendStepView::Shutdown,
        forall|i: int|
            0 <= i < send_steps(entries, outcomes, written).len() - 1 ==> #[trigger] send_steps(
                entries,
                outcomes,
                written,
            )[i] is Write,
    decreases entries.len(),
{
    if entries.len() > 0 {
        let step = send_step(SendEventView::Received(Some(entries[0])));
        if step is Write {
            let next = send_step(SendEventView::Written(outcomes(written)));
            if next is Receive {
                lemma_write_path_ends_with_shutdown(entries.drop_first(), outcomes, written + 1);
                let tail = send_steps(entries.drop_first(), outcomes, written + 1);
                let all = send_steps(entries, outcomes, written);
                assert(all =~= seq![step] + tail);
                assert forall|i: int| 0 <= i < all.len() - 1 implies #[trigger] all[i] is Write by {
                    if i > 0 {
                        assert(all[i] == tail[i - 1]);
                    }
                }
            }
        }
    }
}

/// Without a session the read path ends, whatever it has read: bytes that the
/// target sent come to no order to send upstream, and the path does not go on
/// to another read.
pub proof fn lemma_read_path_ends_without_session(
    tunnel: TunnelTcpConnectionView,
    id: u32,
    payload: Seq<u8>,
    outcome: ReadOutcome,
)
    requires
        !tunnel.is_connected(),
    ensures
        tunnel.send(TunnelMessageView::Payload { id, payload }) is None,
        !read_goes_on(tunnel, outcome),
{
}

/// Disconnecting is final: the flag stays set whatever is queued afterwards,
/// and a second `disconnect` changes nothing, so the close sentinel is queued
/// at most once.
pub proof fn lemma_disconnect_is_final(
    connection: TargetTcpClientView,
    first: bool,
    second: bool,
    entry: Option<Seq<u8>>,
    accepted: bool,
)
    ensures
        connection.disconnected(first).disconnected,
        connection.disconnected(first).disconnected(second) == connection.disconnected(first),
        connection.disconnected(first).enqueued(entry, accepted).disconnected,
        connection.disconnected(first).id == connection.id,
{
}

} // verus!
