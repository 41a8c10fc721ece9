//! The manager: at most one transport, and the order in which one is torn
//! down and the next is set up.

use crate::communication::error::{ConnectionError, ConnectionResult};
use crate::communication::link::{
    step_matches,
    LinkState,
    ReactionView,
    ReadEvent,
    ReceivePlan,
    ReceiveStep,
    Teardown,
};
use crate::communication::serial::{serial_reaction, SerialHandler};
use crate::communication::tcp::{tcp_reaction, TcpHandler};
use crate::models::connection::{ConnectionConfig, ConnectionType};
use crate::text::same_text;
use vstd::prelude::*;

verus! {

/// `error` is the `InvalidConfiguration` that tells which settings the tag
/// selects and the configuration lacks.
pub open spec fn is_missing_payload(error: ConnectionError, tag: ConnectionType) -> bool {
    error matches ConnectionError::InvalidConfiguration(reason) && reason@ == (match tag {
        ConnectionType::Serial => "Serial config is missing"@,
        ConnectionType::Tcp => "TCP config is missing"@,
    })
}

/// One of the two transports.
#[derive(Debug)]
pub enum Transport {
    Serial(SerialHandler),
    Tcp(TcpHandler),
}

impl Transport {
    /// The state of the transport's link.
    pub open spec fn link(&self) -> LinkState {
        match self {
            Transport::Serial(handler) => handler.link(),
            Transport::Tcp(handler) => handler.link(),
        }
    }

    /// Whether the transport holds a live medium.
    pub open spec fn spec_is_connected(&self) -> bool {
        self.link() == LinkState::Connected
    }

    /// The summary of the transport's endpoint, if it has been connected.
    pub open spec fn info(&self) -> Option<Seq<char>> {
        match self {
            Transport::Serial(handler) => handler.info(),
            Transport::Tcp(handler) => handler.info(),
        }
    }

    /// What the transport's receive loop does about a read.
    pub open spec fn reaction(&self, event: ReadEvent) -> ReactionView {
        match self {
            Transport::Serial(_) => serial_reaction(event),
            Transport::Tcp(_) => tcp_reaction(event),
        }
    }

    /// This is the transport that `config` selects, before it is connected:
    /// the variant of the tag, made for the settings of that variant.
    pub open spec fn is_selected_by(&self, config: &ConnectionConfig) -> bool {
        &&& self.link() == LinkState::NeverConnected
        &&& match self {
            Transport::Serial(handler) => {
                &&& config.connection_type == ConnectionType::Serial
                &&& config.serial_config == Some(handler.settings())
            },
            Transport::Tcp(handler) => {
                &&& config.connection_type == ConnectionType::Tcp
                &&& config.tcp_config == Some(handler.settings())
            },
        }
    }

    /// The same transport with another state of its link.
    pub open spec fn differs_in_link_only(&self, other: &Transport) -> bool {
        match (self, other) {
            (Transport::Serial(a), Transport::Serial(b)) => a.settings() == b.settings(),
            (Transport::Tcp(a), Transport::Tcp(b)) => a.settings() == b.settings(),
            _ => false,
        }
    }

    /// The transport that `config` selects, not yet connected, or
    /// `InvalidConfiguration` where the selected settings are absent.
    pub fn select(config: &ConnectionConfig) -> (r: ConnectionResult<Transport>)
        ensures
            config.has_selected_payload() == r.is_ok(),
            r matches Ok(transport) ==> transport.is_selected_by(config),
            r matches Err(error) ==> is_missing_payload(error, config.connection_type),
    {
        match config.connection_type {
            ConnectionType::Serial => match &config.serial_config {
                Some(serial_config) => Ok(
                    Transport::Serial(SerialHandler::new(serial_config.clone())),
                ),
                None => Err(
                    ConnectionError::InvalidConfiguration(
                        String::from_str("Serial config is missing"),
                    ),
                ),
            },
            ConnectionType::Tcp => match &config.tcp_config {
                Some(tcp_config) => Ok(Transport::Tcp(TcpHandler::new(tcp_config.clone()))),
                None => Err(
                    ConnectionError::InvalidConfiguration(
                        String::from_str("TCP config is missing"),
                    ),
                ),
            },
        }
    }

    /// Gives up the medium; see the transports' `disconnect`.
    pub fn disconnect(&mut self) -> (r: ConnectionResult<Teardown>)
        ensures
            old(self).differs_in_link_only(final(self)),
            final(self).link() == old(self).link().released(),
            r == Ok::<Teardown, ConnectionError>(
                if old(self).spec_is_connected() {
                    Teardown::FlushAndClose
                } else {
                    Teardown::Nothing
                },
            ),
    {
        match self {
            Transport::Serial(handler) => handler.disconnect(),
            Transport::Tcp(handler) => handler.disconnect(),
        }
    }

    /// The bytes that a send writes; see the transports' `send`.
    pub fn send(&self, data: &[u8]) -> (r: ConnectionResult<Vec<u8>>)
        ensures
            self.spec_is_connected() ==> r.is_ok() && r.unwrap()@ == data@,
            !self.spec_is_connected() ==> r == Err::<Vec<u8>, ConnectionError>(
                ConnectionError::ConnectionClosed,
            ),
    {
        match self {
            Transport::Serial(handler) => handler.send(data),
            Transport::Tcp(handler) => handler.send(data),
        }
    }

    /// The result of a send once the medium has answered; see the
    /// transports' `finish_send`.
    pub fn finish_send(&self, written: Result<(), String>) -> (r: ConnectionResult<()>)
        ensures
            written.is_ok() ==> r.is_ok(),
            written.is_err() ==> r == Err::<(), ConnectionError>(
                ConnectionError::SendFailed(written.unwrap_err()),
            ),
    {
        match self {
            Transport::Serial(handler) => handler.finish_send(written),
            Transport::Tcp(handler) => handler.finish_send(written),
        }
    }

    /// How the receive loop of the transport reads; see the transports'
    /// `start_receive_loop`.
    pub fn start_receive_loop(&self) -> (r: ConnectionResult<ReceivePlan>)
        ensures
            r == Ok::<ReceivePlan, ConnectionError>(ReceivePlan::standard()),
    {
        match self {
            Transport::Serial(handler) => handler.start_receive_loop(),
            Transport::Tcp(handler) => handler.start_receive_loop(),
        }
    }

    /// One turn of the receive loop; see the transports' `receive_step`.
    pub fn receive_step(&mut self, event: ReadEvent) -> (step: ReceiveStep)
        ensures
            old(self).differs_in_link_only(final(self)),
            step_matches(old(self).link(), old(self).reaction(event), final(self).link(), step),
    {
        match self {
            Transport::Serial(handler) => handler.receive_step(event),
            Transport::Tcp(handler) => handler.receive_step(event),
        }
    }

    /// Whether the transport holds a live medium.
    #[verifier::when_used_as_spec(spec_is_connected)]
    pub fn is_connected(&self) -> (r: bool)
        ensures
            r == self.spec_is_connected(),
    {
        match self {
            Transport::Serial(handler) => handler.is_connected(),
            Transport::Tcp(handler) => handler.is_connected(),
        }
    }

    /// The summary of the endpoint, if the transport has been connected.
    pub fn get_connection_info(&self) -> (r: Option<String>)
        ensures
            same_text(r, self.info()),
    {
        match self {
            Transport::Serial(handler) => handler.get_connection_info(),
            Transport::Tcp(handler) => handler.get_connection_info(),
        }
    }
}

/// What the caller does about the transport that the manager let go of:
/// what happens to its medium, and whether its receive loop is cancelled.
#[derive(Debug, Clone, Copy, PartialEq, Eq, Structural)]
pub struct ManagerTeardown {
    pub medium: Teardown,
    pub cancel_receive: bool,
}

/// The first half of a connect: what to tear down, and then the transport to
/// connect, or the reason why there is none.
#[derive(Debug)]
pub struct ConnectStart {
    pub teardown: ManagerTeardown,
    pub transport: ConnectionResult<Transport>,
}

/// The second half of a connect: what to tear down, and how the connect
/// ended.
#[derive(Debug)]
pub struct ConnectFinish {
    pub teardown: ManagerTeardown,
    pub result: ConnectionResult<()>,
}

/// The owner of the active transport. It is idle while it holds none, and
/// active while it holds one.
#[derive(Debug)]
pub struct ConnectionManager {
    current: Option<Transport>,
    receiving: bool,
}

impl ConnectionManager {
    /// The transport that the manager holds.
    pub closed spec fn holding(&self) -> Option<Transport> {
        self.current
    }

    /// Whether a receive loop was started and not yet cancelled.
    pub closed spec fn receiving(&self) -> bool {
        self.receiving
    }

    /// The manager holds no transport, and no receive loop is outstanding.
    pub open spec fn is_idle(&self) -> bool {
        self.holding().is_none() && !self.receiving()
    }

    /// Whether the held transport holds a live medium.
    pub open spec fn spec_is_connected(&self) -> bool {
        self.holding().is_some() && self.holding().unwrap().spec_is_connected()
    }

    /// The summary of the held transport's endpoint.
    pub open spec fn info(&self) -> Option<Seq<char>> {
        match self.holding() {
            Some(transport) => transport.info(),
            None => None,
        }
    }

    /// What letting go of the held transport asks of the caller.
    pub open spec fn teardown(&self) -> ManagerTeardown {
        ManagerTeardown {
            medium: if self.spec_is_connected() {
                Teardown::FlushAndClose
            } else {
                Teardown::Nothing
            },
            cancel_receive: self.receiving(),
        }
    }

    /// An idle manager.
    pub fn new() -> (r: Self)
        ensures
            r.is_idle(),
    {
        ConnectionManager { current: None, receiving: false }
    }

    /// Lets go of the held transport, if any.
    fn let_go(&mut self) -> (r: ManagerTeardown)
        ensures
            r == old(self).teardown(),
            final(self).is_idle(),
    {
        let medium = match self.current.take() {
            Some(mut transport) => match transport.disconnect() {
                Ok(teardown) => teardown,
                Err(_) => Teardown::Nothing,
            },
            None => Teardown::Nothing,
        };
        let cancel_receive = self.receiving;
        self.receiving = false;
        ManagerTeardown { medium, cancel_receive }
    }

    /// The first half of a connect. Whatever transport is held is let go of
    /// first, so the manager is idle afterwards; then the transport that
    /// `config` selects is made, not yet connected. Where the selected
    /// settings are absent there is no transport but `InvalidConfiguration`.
    pub fn connect(&mut self, config: &ConnectionConfig) -> (r: ConnectStart)
        ensures
            final(self).is_idle(),
            r.teardown == old(self).teardown(),
            config.has_selected_payload() == r.transport.is_ok(),
            r.transport matches Ok(transport) ==> transport.is_selected_by(config),
            r.transport matches Err(error) ==> is_missing_payload(error, config.connection_type),
    {
        let teardown = self.let_go();
        ConnectStart { teardown, transport: Transport::select(config) }
    }

    /// The second half of a connect: takes the transport of the first half
    /// and how its connection attempt ended. Whatever transport is held is
    /// let go of first. After a successful attempt the manager holds the
    /// transport and its receive loop is to be started; after a failed one
    /// the manager is idle and the error is passed on as it is.
    pub fn complete_connect(&mut self, transport: Transport, outcome: ConnectionResult<()>) -> (r:
        ConnectFinish)
        ensures
            r.teardown == old(self).teardown(),
            r.result == outcome,
            outcome.is_ok() ==> final(self).holding() == Some(transport) && final(self).receiving(),
            outcome.is_err() ==> final(self).is_idle(),
    {
        let teardown = self.let_go();
        if outcome.is_ok() {
            self.current = Some(transport);
            self.receiving = true;
        }
        ConnectFinish { teardown, result: outcome }
    }

    /// Lets go of the held transport. This always succeeds and leaves the
    /// manager idle; on an idle manager it changes nothing.
    pub fn disconnect(&mut self) -> (r: ConnectionResult<ManagerTeardown>)
        ensures
            r == Ok::<ManagerTeardown, ConnectionError>(old(self).teardown()),
            final(self).is_idle(),
            !final(self).spec_is_connected(),
            final(self).info().is_none(),
            old(self).is_idle() ==> *final(self) == *old(self),
    {
        Ok(self.let_go())
    }

    /// The bytes that sending `message` writes to the medium before it
    /// flushes: the message in UTF-8. An idle manager, and a transport
    /// without a medium, fail with `ConnectionClosed`. The manager is left
    /// as it was.
    pub fn send_message(&mut self, message: String) -> (r: ConnectionResult<Vec<u8>>)
        ensures
            *final(self) == *old(self),
            old(self).spec_is_connected() ==> r.is_ok() && r.unwrap()@
                == vstd::utf8::encode_utf8(message@),
            !old(self).spec_is_connected() ==> r == Err::<Vec<u8>, ConnectionError>(
                ConnectionError::ConnectionClosed,
            ),
            old(self).is_idle() ==> r == Err::<Vec<u8>, ConnectionError>(
                ConnectionError::ConnectionClosed,
            ),
    {
        match &self.current {
            Some(transport) => transport.send(message.as_str().as_bytes()),
            None => Err(ConnectionError::ConnectionClosed),
        }
    }

    /// The result of a send once the medium has written and flushed, or
    /// failed at either: a failure is a `SendFailed` with its detail, and where
    /// the transport has been let go of meanwhile the send fails with
    /// `ConnectionClosed`. The manager is left as it was, so a failed send
    /// does not by itself end the connection.
    pub fn finish_send(&self, written: Result<(), String>) -> (r: ConnectionResult<()>)
        ensures
            self.holding().is_some() && written.is_ok() ==> r.is_ok(),
            self.holding().is_some() && written.is_err() ==> r == Err::<(), ConnectionError>(
                ConnectionError::SendFailed(written.unwrap_err()),
            ),
            self.holding().is_none() ==> r == Err::<(), ConnectionError>(
                ConnectionError::ConnectionClosed,
            ),
    {
        match &self.current {
            Some(transport) => transport.finish_send(written),
            None => Err(ConnectionError::ConnectionClosed),
        }
    }

    /// One turn of the receive loop of the held transport. An idle manager
    /// delivers nothing and ends the loop.
    pub fn receive_step(&mut self, event: ReadEvent) -> (step: ReceiveStep)
        ensures
            final(self).receiving() == old(self).receiving(),
            old(self).holding().is_none() ==> final(self).holding().is_none()
                && step.message.is_none() && step.stop,
            old(self).holding() matches Some(before) ==> (final(self).holding() matches Some(after)
                && before.differs_in_link_only(&after) && step_matches(
                before.link(),
                before.reaction(event),
                after.link(),
                step,
            )),
    {
        match &mut self.current {
            Some(transport) => transport.receive_step(event),
            None => ReceiveStep { message: None, stop: true },
        }
    }

    /// Whether the held transport holds a live medium; false when idle.
    #[verifier::when_used_as_spec(spec_is_connected)]
    pub fn is_connected(&self) -> (r: bool)
        ensures
            r == self.spec_is_connected(),
    {
        match &self.current {
            Some(transport) => transport.is_connected(),
            None => false,
        }
    }

    /// The summary of the held transport's endpoint; nothing when idle.
    pub fn get_connection_info(&self) -> (r: Option<String>)
        ensures
            same_text(r, self.info()),
    {
        match &self.current {
            Some(transport) => transport.get_connection_info(),
            None => None,
        }
    }
}

/// An idle manager is quiet: it is not connected, has no summary to show
/// and nothing to tear down, so that disconnecting it asks nothing of the
/// caller.
pub proof fn idle_manager_is_quiet(manager: ConnectionManager)
    requires
        manager.is_idle(),
    ensures
        !manager.spec_is_connected(),
        manager.info().is_none(),
        manager.teardown() == (ManagerTeardown { medium: Teardown::Nothing, cancel_receive: false }),
{
}

impl Default for ConnectionManager {
    fn default() -> (r: Self)
        ensures
            r.is_idle(),
    {
        ConnectionManager::new()
    }
}

} // verus!
