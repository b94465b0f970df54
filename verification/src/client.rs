//! The streaming client's reconnection state machine.
//!
//! The client owns at most one streaming connection to the agent's metrics
//! endpoint and keeps the dashboard either connected or actively retrying,
//! forever. The temporal work — opening the socket, awaiting a frame,
//! sleeping out the retry delay — is performed by the browser shell, which
//! reports each outcome here as a [`StreamEvent`] and performs the returned
//! [`ClientAction`]. Every decision of the loop is made in [`StreamClient::step`].

use vstd::prelude::*;

use crate::metrics::DashboardMetrics;
use crate::store::MetricsStore;

verus! {

/// Fixed delay, in milliseconds, between a disconnection (or a failed
/// connection attempt) and the next attempt. No backoff, no retry cap.
pub const RETRY_DELAY_MS: u32 = 2000;

/// Phase of the client's lifecycle. There is no terminal phase: the machine
/// runs for the lifetime of the page.
#[derive(Clone, Copy, Debug, PartialEq, Eq, Structural)]
pub enum ClientPhase {
    /// A connection attempt is in flight.
    Connecting,
    /// The connection is open and frames are being read one at a time.
    Connected,
    /// Disconnected; the fixed retry delay is running.
    WaitingToRetry,
}

/// One occurrence observed by the browser shell and handed to the client.
/// A text frame arrives already decoded: `TextFrame(None)` is a frame that
/// did not parse as a snapshot.
pub enum StreamEvent {
    /// The connection attempt completed successfully.
    OpenSucceeded,
    /// The connection attempt failed (network refusal, or the host and
    /// scheme of the page could not be determined).
    OpenFailed,
    /// A text frame arrived; the payload is its decoded snapshot, absent
    /// when the frame was malformed.
    TextFrame(Option<DashboardMetrics>),
    /// A binary frame arrived (reserved by the protocol, ignored).
    BinaryFrame,
    /// The stream ended or a read error occurred.
    StreamEnded,
    /// The fixed reconnection delay elapsed.
    RetryDelayElapsed,
}

/// What the browser shell must do next, after a step of the machine.
#[derive(Clone, Copy, Debug, PartialEq, Eq, Structural)]
pub enum ClientAction {
    /// Compute the endpoint address and attempt to open a connection.
    OpenConnection,
    /// Await the next inbound frame on the open connection.
    AwaitFrame,
    /// Sleep the given number of milliseconds, then report
    /// [`StreamEvent::RetryDelayElapsed`].
    Wait(u32),
}

/// Which events can occur in which phase: open outcomes while connecting,
/// frames and stream end while connected, the elapsed delay while waiting.
pub open spec fn event_fits(phase: ClientPhase, event: StreamEvent) -> bool {
    match event {
        StreamEvent::OpenSucceeded => phase is Connecting,
        StreamEvent::OpenFailed => phase is Connecting,
        StreamEvent::TextFrame(_) => phase is Connected,
        StreamEvent::BinaryFrame => phase is Connected,
        StreamEvent::StreamEnded => phase is Connected,
        StreamEvent::RetryDelayElapsed => phase is WaitingToRetry,
    }
}

pub struct StreamClient {
    phase: ClientPhase,
}

impl StreamClient {
    /// The current lifecycle phase.
    pub closed spec fn spec_phase(self) -> ClientPhase {
        self.phase
    }

    /// A fresh client, about to make its first connection attempt.
    pub fn new() -> (c: Self)
        ensures
            c.spec_phase() is Connecting,
    {
        StreamClient { phase: ClientPhase::Connecting }
    }

    /// Read access to the current phase.
    pub fn phase(&self) -> (r: ClientPhase)
        ensures
            r == self.spec_phase(),
    {
        self.phase
    }

    /// Advances the machine by one event and writes its effects into the
    /// store. In one scheduling step and in arrival order:
    ///
    /// - open success connects; every well-formed frame replaces the
    ///   snapshot and notifies its subscribers exactly once;
    /// - a malformed or binary frame is discarded, the connection stays
    ///   open, and the store is left exactly as it was;
    /// - a stream end, read error or failed attempt leaves the client
    ///   disconnected, and the next attempt is issued no earlier than
    ///   [`RETRY_DELAY_MS`] milliseconds later: the machine reaches
    ///   `Connecting` again only through the elapsed-delay event.
    pub fn step(&mut self, store: &mut MetricsStore, event: StreamEvent) -> (action: ClientAction)
        requires
            event_fits(old(self).spec_phase(), event),
            old(store).spec_snapshot_notifications() < u64::MAX,
            old(store).spec_connected_notifications() < u64::MAX,
        ensures
            event matches StreamEvent::OpenSucceeded ==> {
                &&& final(self).spec_phase() is Connected
                &&& final(store).spec_connected()
                &&& final(store).spec_connected_notifications() == old(
                    store,
                ).spec_connected_notifications() + 1
                &&& final(store).spec_snapshot() == old(store).spec_snapshot()
                &&& final(store).spec_snapshot_notifications() == old(
                    store,
                ).spec_snapshot_notifications()
                &&& action is AwaitFrame
            },
            event matches StreamEvent::OpenFailed ==> {
                &&& final(self).spec_phase() is WaitingToRetry
                &&& *final(store) == *old(store)
                &&& action == ClientAction::Wait(RETRY_DELAY_MS)
            },
            forall|s: DashboardMetrics|
                event == StreamEvent::TextFrame(Some(s)) ==> {
                    &&& final(self).spec_phase() is Connected
                    &&& final(store).spec_snapshot() == s
                    &&& final(store).spec_snapshot_notifications() == old(
                        store,
                    ).spec_snapshot_notifications() + 1
                    &&& final(store).spec_connected() == old(store).spec_connected()
                    &&& final(store).spec_connected_notifications() == old(
                        store,
                    ).spec_connected_notifications()
                    &&& action is AwaitFrame
                },
            event matches StreamEvent::TextFrame(None) ==> {
                &&& final(self).spec_phase() is Connected
                &&& *final(store) == *old(store)
                &&& action is AwaitFrame
            },
            event matches StreamEvent::BinaryFrame ==> {
                &&& final(self).spec_phase() is Connected
                &&& *final(store) == *old(store)
                &&& action is AwaitFrame
            },
            event matches StreamEvent::StreamEnded ==> {
                &&& final(self).spec_phase() is WaitingToRetry
                &&& !final(store).spec_connected()
                &&& final(store).spec_connected_notifications() == old(
                    store,
                ).spec_connected_notifications() + 1
                &&& final(store).spec_snapshot() == old(store).spec_snapshot()
                &&& final(store).spec_snapshot_notifications() == old(
                    store,
                ).spec_snapshot_notifications()
                &&& action == ClientAction::Wait(RETRY_DELAY_MS)
            },
            event matches StreamEvent::RetryDelayElapsed ==> {
                &&& final(self).spec_phase() is Connecting
                &&& *final(store) == *old(store)
                &&& action is OpenConnection
            },
    {
        match event {
            StreamEvent::OpenSucceeded => {
                self.phase = ClientPhase::Connected;
                store.set_connected(true);
                ClientAction::AwaitFrame
            },
            StreamEvent::OpenFailed => {
                self.phase = ClientPhase::WaitingToRetry;
                ClientAction::Wait(RETRY_DELAY_MS)
            },
            StreamEvent::TextFrame(decoded) => {
                if let Some(s) = decoded {
                    store.set_snapshot(s);
                }
                ClientAction::AwaitFrame
            },
            StreamEvent::BinaryFrame => ClientAction::AwaitFrame,
            StreamEvent::StreamEnded => {
                self.phase = ClientPhase::WaitingToRetry;
                store.set_connected(false);
                ClientAction::Wait(RETRY_DELAY_MS)
            },
            StreamEvent::RetryDelayElapsed => {
                self.phase = ClientPhase::Connecting;
                ClientAction::OpenConnection
            },
        }
    }
}

/// After a disconnection the machine sits in `WaitingToRetry`, and the only
/// event that fits that phase is the elapsed retry delay: no reconnection
/// attempt can be issued before the fixed delay has run out.
pub proof fn lemma_retry_waits_for_delay(phase: ClientPhase, event: StreamEvent)
    requires
        phase is WaitingToRetry,
        event_fits(phase, event),
    ensures
        event is RetryDelayElapsed,
{
}

/// The endpoint address: the stream lives at path `/ws` on the page's own
/// host, over the secure stream scheme exactly when the page is secure.
pub open spec fn spec_ws_url(secure: bool, host: Seq<char>) -> Seq<char> {
    (if secure {
        "wss://"@
    } else {
        "ws://"@
    }) + host + "/ws"@
}

/// Builds the metrics-endpoint address from the page's security scheme and
/// host.
pub fn ws_url(secure: bool, host: &str) -> (r: String)
    ensures
        r@ == spec_ws_url(secure, host@),
{
    let mut out = if secure {
        "wss://".to_owned()
    } else {
        "ws://".to_owned()
    };
    out.append(host);
    out.append("/ws");
    proof {
        assert(out@ =~= spec_ws_url(secure, host@));
    }
    out
}

} // verus!

