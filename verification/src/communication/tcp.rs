//! The transport over a TCP socket.

use crate::communication::error::{ConnectionError, ConnectionResult, IoFailure, IoKind};
use crate::communication::link::{
    complete_send,
    is_received,
    outgoing,
    react,
    release,
    step_matches,
    LinkState,
    ReactionView,
    ReadEvent,
    Reaction,
    ReceivePlan,
    ReceiveStep,
    Teardown,
};
use crate::models::connection::TcpConfig;
use crate::text::{bool_str, bool_text, decimal, decimal_string, decode_lossy, lossy_utf8, same_text};
use vstd::prelude::*;

verus! {

/// What the caller asks of the network to connect: close the socket that is
/// still held, if any, then connect to `address` within `timeout_ms`.
#[derive(Debug)]
pub struct TcpConnectRequest {
    pub close_previous: bool,
    pub address: String,
    pub timeout_ms: u64,
}

/// How an attempt to connect ended.
#[derive(Debug)]
pub enum TcpConnectOutcome {
    /// The socket is connected.
    Connected,
    /// The attempt failed before its bound elapsed.
    Failed(IoFailure),
    /// The bound elapsed.
    TimedOut,
}

/// The address `host:port` of an endpoint.
pub open spec fn address_text(config: TcpConfig) -> Seq<char> {
    config.host@ + ":"@ + decimal(config.port as nat)
}

/// The summary of a TCP endpoint.
pub open spec fn info_text(config: TcpConfig) -> Seq<char> {
    "TCP: "@ + address_text(config) + " (timeout: "@ + decimal(config.timeout_ms as nat)
        + "ms, keep-alive: "@ + bool_text(config.keep_alive) + ")"@
}

/// The text that explains a failed attempt to connect to `address`.
pub open spec fn failure_text(kind: IoKind, address: Seq<char>, message: Seq<char>) -> Seq<char> {
    match kind {
        IoKind::ConnectionRefused => "接続が拒否されました（"@ + address
            + "）。サーバーが起動していない可能性があります"@,
        IoKind::TimedOut => "接続がタイムアウトしました（"@ + address
            + "）。ネットワークまたはファイアウォールの問題の可能性があります"@,
        IoKind::NotFound => "ホストが見つかりません（"@ + address
            + "）。アドレスを確認してください"@,
        IoKind::PermissionDenied => "接続が許可されていません（"@ + address
            + "）。ポートアクセス権限を確認してください"@,
        _ => "TCP接続エラー（"@ + address + "）: "@ + message,
    }
}

/// What the receive loop of a TCP transport does about a read. Bytes are
/// delivered as text; a zero-length read means that the peer closed the
/// connection; a read that timed out or would block is tried again; a
/// connection that was reset, aborted or cut short, and any other failure,
/// ends the loop with one message.
pub open spec fn tcp_reaction(event: ReadEvent) -> ReactionView {
    match event {
        ReadEvent::Bytes(bytes) => if bytes@.len() > 0 {
            ReactionView::Deliver(lossy_utf8(bytes@))
        } else {
            ReactionView::Terminate("Connection closed by peer"@)
        },
        ReadEvent::TimedOut => ReactionView::Continue,
        ReadEvent::Failed(failure) => match failure.kind {
            IoKind::TimedOut | IoKind::WouldBlock => ReactionView::Continue,
            IoKind::ConnectionReset | IoKind::ConnectionAborted | IoKind::UnexpectedEof =>
                ReactionView::Terminate("Connection lost: "@ + failure.message@),
            _ => ReactionView::Terminate("Error: "@ + failure.message@),
        },
    }
}

/// A zero-length read on a connected transport is the last thing its receive
/// loop reports: that turn delivers the one message that tells of the
/// closure, ends the loop and leaves the transport disconnected, and any
/// turn after it delivers nothing, ends the loop and changes nothing.
pub proof fn peer_closure_is_final(
    closing: ReadEvent,
    step: ReceiveStep,
    after: LinkState,
    later_event: ReadEvent,
    later_step: ReceiveStep,
    at_last: LinkState,
)
    requires
        closing matches ReadEvent::Bytes(bytes) && bytes@.len() == 0,
        step_matches(LinkState::Connected, tcp_reaction(closing), after, step),
        step_matches(after, tcp_reaction(later_event), at_last, later_step),
    ensures
        step.message.is_some(),
        is_received(step.message.unwrap(), "Connection closed by peer"@),
        step.stop,
        after == LinkState::Disconnected,
        later_step.message.is_none(),
        later_step.stop,
        at_last == after,
{
}

/// The TCP transport: the endpoint it was made for and the state of its
/// link.
#[derive(Debug)]
pub struct TcpHandler {
    config: TcpConfig,
    link: LinkState,
}

impl TcpHandler {
    /// The endpoint of this transport.
    pub closed spec fn settings(&self) -> TcpConfig {
        self.config
    }

    /// The state of the link.
    pub closed spec fn spec_link(&self) -> LinkState {
        self.link
    }

    /// The summary of the endpoint once the transport has been connected,
    /// and nothing before that.
    pub open spec fn info(&self) -> Option<Seq<char>> {
        if self.link() == LinkState::NeverConnected {
            None
        } else {
            Some(info_text(self.settings()))
        }
    }

    /// Whether the transport holds a live socket.
    pub open spec fn spec_is_connected(&self) -> bool {
        self.link() == LinkState::Connected
    }

    /// A transport for `config`, without a socket.
    pub fn new(config: TcpConfig) -> (r: Self)
        ensures
            r.settings() == config,
            r.link() == LinkState::NeverConnected,
    {
        TcpHandler { config, link: LinkState::NeverConnected }
    }

    /// The endpoint of this transport.
    pub fn config(&self) -> (r: &TcpConfig)
        ensures
            *r == self.settings(),
    {
        &self.config
    }

    /// The state of the link.
    #[verifier::when_used_as_spec(spec_link)]
    pub fn link(&self) -> (r: LinkState)
        ensures
            r == self.link(),
    {
        self.link
    }

    /// The address `host:port` of the endpoint.
    pub fn address(&self) -> (r: String)
        ensures
            r@ == address_text(self.settings()),
    {
        let mut text = self.config.host.clone();
        text.append(":");
        let port = decimal_string(self.config.port as u64);
        text.append(port.as_str());
        text
    }

    /// Explains a failed attempt to connect to `address`.
    pub fn describe_failure(kind: IoKind, address: &str, message: &str) -> (r: String)
        ensures
            r@ == failure_text(kind, address@, message@),
    {
        match kind {
            IoKind::ConnectionRefused => String::from_str("接続が拒否されました（").concat(
                address,
            ).concat("）。サーバーが起動していない可能性があります"),
            IoKind::TimedOut => String::from_str("接続がタイムアウトしました（").concat(
                address,
            ).concat("）。ネットワークまたはファイアウォールの問題の可能性があります"),
            IoKind::NotFound => String::from_str("ホストが見つかりません（").concat(
                address,
            ).concat("）。アドレスを確認してください"),
            IoKind::PermissionDenied => String::from_str("接続が許可されていません（").concat(
                address,
            ).concat("）。ポートアクセス権限を確認してください"),
            _ => String::from_str("TCP接続エラー（").concat(address).concat("）: ").concat(message),
        }
    }

    /// Judges an attempt to create the connection. A connected socket is
    /// accepted, and the result says whether send coalescing is to be
    /// switched off on it, which is the case when keep-alive is configured. A
    /// failure is wrapped with a text that names the address; an elapsed
    /// bound is a `NetworkTimeout`.
    pub fn create_connection(&self, outcome: TcpConnectOutcome) -> (r: ConnectionResult<bool>)
        ensures
            outcome is Connected ==> r == Ok::<bool, ConnectionError>(self.settings().keep_alive),
            outcome is TimedOut ==> r == Err::<bool, ConnectionError>(
                ConnectionError::NetworkTimeout,
            ),
            outcome matches TcpConnectOutcome::Failed(failure) ==> (r matches Err(
                ConnectionError::IoError(wrapped),
            ) && wrapped.kind == failure.kind && wrapped.message@ == failure_text(
                failure.kind,
                address_text(self.settings()),
                failure.message@,
            )),
    {
        match outcome {
            TcpConnectOutcome::Connected => Ok(self.config.keep_alive),
            TcpConnectOutcome::Failed(failure) => {
                let address = self.address();
                let message = Self::describe_failure(
                    failure.kind,
                    address.as_str(),
                    failure.message.as_str(),
                );
                Err(ConnectionError::IoError(IoFailure { kind: failure.kind, message }))
            },
            TcpConnectOutcome::TimedOut => Err(ConnectionError::NetworkTimeout),
        }
    }

    /// Starts a connection attempt: a socket that is still held is given up
    /// first, and the request names the address and the bound.
    pub fn prepare_connect(&mut self) -> (r: TcpConnectRequest)
        ensures
            final(self).settings() == old(self).settings(),
            final(self).link() == old(self).link().released(),
            r.close_previous == old(self).spec_is_connected(),
            r.address@ == address_text(old(self).settings()),
            r.timeout_ms == old(self).settings().timeout_ms,
    {
        let close_previous = match release(&mut self.link) {
            Teardown::FlushAndClose => true,
            Teardown::Nothing => false,
        };
        TcpConnectRequest {
            close_previous,
            address: self.address(),
            timeout_ms: self.config.timeout_ms,
        }
    }

    /// Ends a connection attempt. On a connected socket the transport is
    /// connected and the result is as `create_connection` says; otherwise the
    /// error of `create_connection` is returned and the link stays as it was.
    pub fn connect(&mut self, outcome: TcpConnectOutcome) -> (r: ConnectionResult<bool>)
        ensures
            final(self).settings() == old(self).settings(),
            outcome is Connected ==> final(self).link() == LinkState::Connected && r == Ok::<
                bool,
                ConnectionError,
            >(old(self).settings().keep_alive),
            !(outcome is Connected) ==> final(self).link() == old(self).link() && r.is_err(),
            outcome is TimedOut ==> r == Err::<bool, ConnectionError>(
                ConnectionError::NetworkTimeout,
            ),
            outcome matches TcpConnectOutcome::Failed(failure) ==> (r matches Err(
                ConnectionError::IoError(wrapped),
            ) && wrapped.kind == failure.kind && wrapped.message@ == failure_text(
                failure.kind,
                address_text(old(self).settings()),
                failure.message@,
            )),
    {
        let result = self.create_connection(outcome);
        if result.is_ok() {
            self.link = LinkState::Connected;
        }
        result
    }

    /// Gives up the socket. This always succeeds; the result says whether a
    /// socket was held, which the caller then flushes and shuts down.
    pub fn disconnect(&mut self) -> (r: ConnectionResult<Teardown>)
        ensures
            final(self).settings() == old(self).settings(),
            final(self).link() == old(self).link().released(),
            !final(self).spec_is_connected(),
            r == Ok::<Teardown, ConnectionError>(
                if old(self).spec_is_connected() {
                    Teardown::FlushAndClose
                } else {
                    Teardown::Nothing
                },
            ),
    {
        Ok(release(&mut self.link))
    }

    /// The bytes that a send writes to the socket before it flushes: `data`
    /// as it is. Without a socket the send fails with `ConnectionClosed`.
    pub fn send(&self, data: &[u8]) -> (r: ConnectionResult<Vec<u8>>)
        ensures
            self.spec_is_connected() ==> r.is_ok() && r.unwrap()@ == data@,
            !self.spec_is_connected() ==> r == Err::<Vec<u8>, ConnectionError>(
                ConnectionError::ConnectionClosed,
            ),
    {
        outgoing(self.link, data)
    }

    /// The result of a send after the socket wrote and flushed, or failed at
    /// either: a failure is a `SendFailed` with its detail. The link is not
    /// touched.
    pub fn finish_send(&self, written: Result<(), String>) -> (r: ConnectionResult<()>)
        ensures
            written.is_ok() ==> r.is_ok(),
            written.is_err() ==> r == Err::<(), ConnectionError>(
                ConnectionError::SendFailed(written.unwrap_err()),
            ),
    {
        complete_send(written)
    }

    /// How the receive loop of this transport reads.
    pub fn start_receive_loop(&self) -> (r: ConnectionResult<ReceivePlan>)
        ensures
            r == Ok::<ReceivePlan, ConnectionError>(ReceivePlan::standard()),
    {
        Ok(ReceivePlan::new())
    }

    /// Classifies one read of the receive loop.
    pub fn classify_read(event: ReadEvent) -> (r: Reaction)
        ensures
            r@ == tcp_reaction(event),
    {
        match event {
            ReadEvent::Bytes(bytes) => {
                if bytes.len() > 0 {
                    Reaction::Deliver(decode_lossy(bytes.as_slice()))
                } else {
                    Reaction::Terminate(String::from_str("Connection closed by peer"))
                }
            },
            ReadEvent::TimedOut => Reaction::Continue,
            ReadEvent::Failed(failure) => match failure.kind {
                IoKind::TimedOut | IoKind::WouldBlock => Reaction::Continue,
                IoKind::ConnectionReset | IoKind::ConnectionAborted | IoKind::UnexpectedEof =>
                    Reaction::Terminate(
                    String::from_str("Connection lost: ").concat(failure.message.as_str()),
                ),
                _ => Reaction::Terminate(
                    String::from_str("Error: ").concat(failure.message.as_str()),
                ),
            },
        }
    }

    /// One turn of the receive loop: takes what a bounded read gave and says
    /// what is delivered and whether the loop ends. A transport that is not
    /// connected delivers nothing and ends the loop.
    pub fn receive_step(&mut self, event: ReadEvent) -> (step: ReceiveStep)
        ensures
            final(self).settings() == old(self).settings(),
            step_matches(old(self).link(), tcp_reaction(event), final(self).link(), step),
    {
        let reaction = Self::classify_read(event);
        react(&mut self.link, reaction)
    }

    /// Whether the transport holds a live socket.
    #[verifier::when_used_as_spec(spec_is_connected)]
    pub fn is_connected(&self) -> (r: bool)
        ensures
            r == self.spec_is_connected(),
    {
        match self.link {
            LinkState::Connected => true,
            _ => false,
        }
    }

    /// A summary of the endpoint, once the transport has been connected;
    /// nothing before that.
    pub fn get_connection_info(&self) -> (r: Option<String>)
        ensures
            same_text(r, self.info()),
    {
        match self.link {
            LinkState::NeverConnected => None,
            _ => {
                let mut text = String::from_str("TCP: ");
                let address = self.address();
                text.append(address.as_str());
                text.append(" (timeout: ");
                let timeout = decimal_string(self.config.timeout_ms);
                text.append(timeout.as_str());
                text.append("ms, keep-alive: ");
                text.append(bool_str(self.config.keep_alive));
                text.append(")");
                Some(text)
            },
        }
    }
}

} // verus!
