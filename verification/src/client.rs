//! The client side: where a client connects, what it does with what it
//! receives, and its write operation.
use vstd::prelude::*;

use crate::error::{handle_error, is_transient, BusError, IoErrorKind};
use crate::message::{bump, MessageBus, NetAddr};

verus! {

/// The largest payload of one UDP datagram, the size of the receive buffer.
pub const UDP_MAX_SIZE: usize = 65507;

/// The server that a client connects to when none was given.
pub open spec fn default_server() -> Seq<char> {
    seq!['1', '2', '7', '.', '0', '.', '0', '.', '1', ':', '8', '0', '8', '0']
}

/// The server address that a client with this setting connects to.
pub open spec fn server_address_of(server_port: Option<Seq<char>>) -> Seq<char> {
    match server_port {
        Some(p) => p,
        None => default_server(),
    }
}

/// A client that is being set up.
pub struct ClientBuild {
    server_port: Option<String>,
}

/// Data that a client has to send to its server, with the id of its
/// message.
#[derive(Debug)]
pub struct ClientTask {
    pub message_id: usize,
    pub data: Vec<u8>,
}

/// A client: whether it is still connected to its server, the id of its
/// next message, and what it has to send.
pub struct Client {
    _port: Option<String>,
    connected: bool,
    next_message: usize,
    outbox: Vec<ClientTask>,
}

impl ClientBuild {
    /// The server address that was given, if any.
    pub closed spec fn server_port(&self) -> Option<Seq<char>> {
        match self.server_port {
            Some(p) => Some(p@),
            None => None,
        }
    }

    /// A client set up with no server address.
    pub fn build() -> (r: ClientBuild)
        ensures
            r.server_port() == None::<Seq<char>>,
    {
        ClientBuild { server_port: None }
    }

    /// Sets the address of the server to connect to.
    pub fn add_server(self, server_port: &str) -> (r: Self)
        ensures
            r.server_port() == Some(server_port@),
    {
        let mut s = self;
        s.server_port = Some(server_port.to_owned());
        s
    }

    /// The address text that `connect` parses: the one that was given, or
    /// `127.0.0.1:8080`.
    pub fn server_address(&self) -> (r: String)
        ensures
            r@ == server_address_of(self.server_port()),
    {
        match &self.server_port {
            Some(p) => p.clone(),
            None => {
                let r = "127.0.0.1:8080".to_owned();
                proof {
                    reveal_strlit("127.0.0.1:8080");
                }
                r
            },
        }
    }

    /// Ends the connection set-up: a connected client with nothing sent
    /// when the server address parsed, the socket was bound and the server
    /// accepted the client in time (`setup` is `Ok`), else that error.
    pub fn finish_connect(self, setup: Result<(), BusError>) -> (r: Result<Client, BusError>)
        ensures
            match setup {
                Ok(()) => r matches Ok(c) && {
                    &&& c.port() == None::<Seq<char>>
                    &&& c.connected()
                    &&& c.next_message() == 0
                    &&& c.outbox() == Seq::<(usize, Seq<u8>)>::empty()
                },
                Err(e) => r == Err::<Client, BusError>(e),
            },
    {
        match setup {
            Ok(()) => {
                let c = Client { _port: None, connected: true, next_message: 0, outbox: Vec::new() };
                proof {
                    assert(c.outbox() =~= Seq::<(usize, Seq<u8>)>::empty());
                }
                Ok(c)
            },
            Err(e) => Err(e),
        }
    }
}

impl Client {
    /// The port setting of the client.
    pub closed spec fn port(&self) -> Option<Seq<char>> {
        match self._port {
            Some(p) => Some(p@),
            None => None,
        }
    }

    /// Whether the client is still connected to its server.
    pub closed spec fn connected(&self) -> bool {
        self.connected
    }

    /// The id of the next message the client sends.
    pub closed spec fn next_message(&self) -> usize {
        self.next_message
    }

    /// What the client has to send, oldest first: message ids and data.
    pub closed spec fn outbox(&self) -> Seq<(usize, Seq<u8>)> {
        self.outbox@.map_values(|t: ClientTask| (t.message_id, t.data@))
    }

    /// Writes data to the server: while connected, it is queued as the next
    /// message; once disconnected, the write fails and nothing changes.
    pub fn write(&mut self, message: &[u8]) -> (r: Result<(), BusError>)
        ensures
            if old(self).connected() {
                &&& r == Ok::<(), BusError>(())
                &&& final(self).outbox() == old(self).outbox().push(
                    (old(self).next_message(), message@),
                )
                &&& final(self).next_message() == bump(old(self).next_message())
                &&& old(self).next_message() < usize::MAX ==> final(self).next_message() == old(
                    self,
                ).next_message() + 1
                &&& final(self).connected()
                &&& final(self).port() == old(self).port()
            } else {
                r == Err::<(), BusError>(BusError::Disconnected) && *final(self) == *old(self)
            },
    {
        if !self.connected {
            return Err(BusError::Disconnected);
        }
        let ghost old_outbox = self.outbox();
        let id = self.next_message;
        self.outbox.push(ClientTask { message_id: id, data: vstd::slice::slice_to_vec(message) });
        self.next_message = id.saturating_add(1);
        proof {
            assert(self.outbox() =~= old_outbox.push((id, message@)));
        }
        Ok(())
    }

    /// Marks the client as disconnected, as when its server stops answering;
    /// later writes fail.
    pub fn disconnect(&mut self)
        ensures
            !final(self).connected(),
            final(self).outbox() == old(self).outbox(),
            final(self).next_message() == old(self).next_message(),
            final(self).port() == old(self).port(),
    {
        self.connected = false;
    }

    /// Hands over what the client has to send, oldest first, and empties
    /// that queue.
    pub fn take_outbox(&mut self) -> (r: Vec<ClientTask>)
        ensures
            r@.map_values(|t: ClientTask| (t.message_id, t.data@)) == old(self).outbox(),
            final(self).outbox() == Seq::<(usize, Seq<u8>)>::empty(),
            final(self).connected() == old(self).connected(),
            final(self).next_message() == old(self).next_message(),
            final(self).port() == old(self).port(),
    {
        let mut out: Vec<ClientTask> = Vec::new();
        std::mem::swap(&mut out, &mut self.outbox);
        proof {
            assert(self.outbox() =~= Seq::<(usize, Seq<u8>)>::empty());
        }
        out
    }
}

/// What the client's receive loop sees.
pub enum ClientEvent {
    /// A datagram from `from`; `message` is what it decoded to, `None` when
    /// it did not decode.
    Datagram { from: NetAddr, message: Option<MessageBus> },
    /// A receive failed.
    RecvFailed(IoErrorKind),
}

/// The outcome of one event of the client's receive loop: `Ok` to go on,
/// an error to end the loop with it.
pub open spec fn client_outcome(event: ClientEvent) -> Result<(), BusError> {
    match event {
        ClientEvent::Datagram { message: None, .. } => Err(BusError::Decode),
        ClientEvent::Datagram { message: Some(_), .. } => Ok(()),
        ClientEvent::RecvFailed(kind) => if is_transient(kind) {
            Ok(())
        } else {
            Err(BusError::Io(kind))
        },
    }
}

/// Handles a datagram that reached the client: one that did not decode
/// ends the loop with a decode error; a decoded message is dropped whether
/// or not it names its sender.
pub fn handle_message(from: &NetAddr, decoded: Option<MessageBus>) -> (r: Result<(), BusError>)
    ensures
        r == (if decoded is Some { Ok::<(), BusError>(()) } else { Err(BusError::Decode) }),
{
    match decoded {
        None => Err(BusError::Decode),
        Some(message) => {
            if message.addr() != from {
                return Ok(());
            }
            Ok(())
        },
    }
}

/// One step of the client's receive loop.
pub fn client_step(event: ClientEvent) -> (r: Result<(), BusError>)
    ensures
        r == client_outcome(event),
        event matches ClientEvent::RecvFailed(kind) ==> r == (if kind
            == IoErrorKind::ConnectionAborted || kind == IoErrorKind::Interrupted || kind
            == IoErrorKind::WouldBlock {
            Ok::<(), BusError>(())
        } else {
            Err(BusError::Io(kind))
        }),
{
    match event {
        ClientEvent::Datagram { from, message } => handle_message(&from, message),
        ClientEvent::RecvFailed(kind) => handle_error(kind),
    }
}

/// The relay task that runs beside the client's receive loop.
pub struct RelayState {}

impl RelayState {
    /// Runs the relay; it has nothing to do and ends at once with `Ok`.
    pub fn listen(self) -> (r: Result<(), BusError>)
        ensures
            r == Ok::<(), BusError>(()),
    {
        Ok(())
    }
}

/// The client connects to the server address that was last given, and to
/// `127.0.0.1:8080` when none was.
pub proof fn lemma_client_connects_to_given_server(server: Seq<char>)
    ensures
        server_address_of(Some(server)) == server,
        server_address_of(None) == default_server(),
{
}

/// A failed receive ends the client's loop only when the failure is not
/// transient; a decoded datagram never ends it; one that does not decode
/// ends it with a decode error.
pub proof fn lemma_client_loop_outcomes(event: ClientEvent)
    ensures
        event matches ClientEvent::RecvFailed(kind) ==> (client_outcome(event) is Ok
            <==> is_transient(kind)),
        event matches ClientEvent::Datagram { message: Some(_), .. } ==> client_outcome(event)
            is Ok,
        event matches ClientEvent::Datagram { message: None, .. } ==> client_outcome(event)
            == Err::<(), BusError>(BusError::Decode),
{
}

/// The client's receive loop goes on after an aborted connection, an
/// interrupted call or a call that would block, and ends with the failure
/// after any other.
pub proof fn lemma_client_survives_only_listed_failures(kind: IoErrorKind)
    ensures
        (kind == IoErrorKind::ConnectionAborted || kind == IoErrorKind::Interrupted || kind
            == IoErrorKind::WouldBlock) ==> client_outcome(ClientEvent::RecvFailed(kind)) == Ok::<
            (),
            BusError,
        >(()),
        !(kind == IoErrorKind::ConnectionAborted || kind == IoErrorKind::Interrupted || kind
            == IoErrorKind::WouldBlock) ==> client_outcome(ClientEvent::RecvFailed(kind)) == Err::<
            (),
            BusError,
        >(BusError::Io(kind)),
{
}

} // verus!
