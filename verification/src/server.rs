//! The server side: its life cycle (created, running, closed), the address
//! it binds, the connections it keeps and what it hands out and sends over
//! them, and the decisions of its listening loop and its serving loop.
use vstd::prelude::*;

use crate::error::{handle_error, is_transient, BusError, CloseSignalError, IoErrorKind};
use crate::message::{bump, MessageBus, NetAddr};

verus! {

/// The port that a server listens on when none was given: the port that
/// clients connect to by default.
pub open spec fn default_port() -> Seq<char> {
    seq!['8', '0', '8', '0']
}

/// The text before the port setting in the address that a server binds.
pub open spec fn any_host_prefix() -> Seq<char> {
    seq!['0', '.', '0', '.', '0', '.', '0', ':']
}

/// The address text that a server with this port setting parses and binds:
/// the port (or the default one, `8080`) on every local interface,
/// `0.0.0.0:`.
pub open spec fn bind_address_of(port: Option<Seq<char>>) -> Seq<char> {
    any_host_prefix() + match port {
        Some(p) => p,
        None => default_port(),
    }
}

/// A live connection: its id, the address of its client, and the id that
/// the next task sent to it gets.
#[derive(Clone, Copy, Debug, PartialEq, Eq, Structural)]
pub struct Connection {
    pub id: u32,
    pub addr: NetAddr,
    pub next_message: usize,
}

/// Data that a client sent and the server has not handed out yet.
struct Delivery {
    from: u32,
    data: Vec<u8>,
}

/// What the server has to send, in order.
#[derive(Debug)]
pub enum Outgoing {
    /// A task for the client at `to`: a message with this id and data.
    Task { to: NetAddr, message_id: usize, data: Vec<u8> },
    /// A message for the client at `to`, as given.
    Message { to: NetAddr, message: MessageBus },
    /// The acceptance of the client at `to` as connection `id`.
    Accepted { to: NetAddr, id: u32 },
    /// The command that ends the serving loop.
    CloseCommand,
}

/// No two connections share an id or an address, and every id is below the
/// next id to hand out.
pub open spec fn connections_wf(conns: Seq<Connection>, next_id: u32) -> bool {
    &&& forall|i: int, j: int|
        0 <= i < j < conns.len() ==> conns[i].id != conns[j].id && conns[i].addr != conns[j].addr
    &&& forall|i: int| 0 <= i < conns.len() ==> conns[i].id < next_id
}

/// Whether a connection with this id is live.
pub open spec fn is_live(conns: Seq<Connection>, id: u32) -> bool {
    exists|i: int| 0 <= i < conns.len() && conns[i].id == id
}

/// Whether the client at this address is connected.
pub open spec fn is_connected(conns: Seq<Connection>, addr: NetAddr) -> bool {
    exists|i: int| 0 <= i < conns.len() && conns[i].addr == addr
}

/// The ids of the connections, in the order in which they were accepted.
pub open spec fn ids(conns: Seq<Connection>) -> Seq<u32> {
    conns.map_values(|c: Connection| c.id)
}

/// A connection after a task was sent to it.
pub open spec fn bumped(c: Connection) -> Connection {
    Connection { next_message: bump(c.next_message), ..c }
}

/// Whether `o` is the task with this data for connection `c`.
pub open spec fn is_task_for(o: Outgoing, c: Connection, data: Seq<u8>) -> bool {
    match o {
        Outgoing::Task { to, message_id, data: d } => to == c.addr && message_id == c.next_message
            && d@ == data,
        _ => false,
    }
}

/// Whether `i` is the first place of the data from connection `id`.
pub open spec fn first_from(pending: Seq<(u32, Seq<u8>)>, id: u32, i: int) -> bool {
    &&& 0 <= i < pending.len()
    &&& pending[i].0 == id
    &&& forall|j: int| 0 <= j < i ==> pending[j].0 != id
}

/// The connection ids that a consistent server lists are distinct, and
/// each names one live connection.
pub proof fn lemma_listed_ids_distinct(conns: Seq<Connection>, next_id: u32)
    requires
        connections_wf(conns, next_id),
    ensures
        ids(conns).no_duplicates(),
        forall|i: int| 0 <= i < conns.len() ==> is_live(conns, #[trigger] ids(conns)[i]),
{
    assert forall|i: int, j: int|
        0 <= i < ids(conns).len() && 0 <= j < ids(conns).len() && i != j implies ids(conns)[i]
        != ids(conns)[j] by {
        if i < j {
        } else {
        }
    }
    assert forall|i: int| 0 <= i < conns.len() implies is_live(conns, #[trigger] ids(conns)[i]) by {
        assert(conns[i].id == ids(conns)[i]);
    }
}

/// A server that has been created and not started.
pub struct ServerCreated {
    port: Option<String>,
}

/// A running server: its live connections, the client data it has not
/// handed out, the connections that dropped and were not reported yet, and
/// what it has to send.
pub struct ServerRunning {
    next_id: u32,
    connections: Vec<Connection>,
    pending: Vec<Delivery>,
    drops: Vec<u32>,
    outbox: Vec<Outgoing>,
}

/// A server that has been closed, with what it still has to send, the close
/// command last. A closed server cannot be restarted.
pub struct ServerClosed {
    outbox: Vec<Outgoing>,
}

impl ServerCreated {
    /// The port setting of the server, if one was given.
    pub closed spec fn port(&self) -> Option<Seq<char>> {
        match self.port {
            Some(p) => Some(p@),
            None => None,
        }
    }

    /// A new server in the created state, with no port setting.
    pub fn builder() -> (r: ServerCreated)
        ensures
            r.port() == None::<Seq<char>>,
    {
        ServerCreated { port: None }
    }

    /// The address text that `run` parses and binds.
    pub fn bind_address(&self) -> (r: String)
        ensures
            r@ == bind_address_of(self.port()),
    {
        let prefix = "0.0.0.0:".to_owned();
        proof {
            reveal_strlit("0.0.0.0:");
            reveal_strlit("8080");
        }
        match &self.port {
            Some(p) => prefix.concat(p.as_str()),
            None => prefix.concat("8080"),
        }
    }

    /// Ends the start of the server: a running server with no connections,
    /// data or drops when the bind address parsed (`setup` is `Ok`), else
    /// that error.
    pub fn finish_run(self, setup: Result<(), BusError>) -> (r: Result<ServerRunning, BusError>)
        ensures
            match setup {
                Ok(()) => r matches Ok(s) && {
                    &&& s.wf()
                    &&& s.connections() == Seq::<Connection>::empty()
                    &&& s.pending() == Seq::<(u32, Seq<u8>)>::empty()
                    &&& s.drops() == Seq::<u32>::empty()
                    &&& s.outbox() == Seq::<Outgoing>::empty()
                    &&& s.next_id() == 0
                },
                Err(e) => r == Err::<ServerRunning, BusError>(e),
            },
    {
        match setup {
            Ok(()) => {
                let s = ServerRunning {
                    next_id: 0,
                    connections: Vec::new(),
                    pending: Vec::new(),
                    drops: Vec::new(),
                    outbox: Vec::new(),
                };
                proof {
                    assert(s.pending() =~= Seq::<(u32, Seq<u8>)>::empty());
                }
                Ok(s)
            },
            Err(e) => Err(e),
        }
    }
}

impl ServerRunning {
    /// The live connections, in the order in which they were accepted.
    pub closed spec fn connections(&self) -> Seq<Connection> {
        self.connections@
    }

    /// The client data not handed out yet, oldest first, with the id of the
    /// connection that sent it.
    pub closed spec fn pending(&self) -> Seq<(u32, Seq<u8>)> {
        self.pending@.map_values(|d: Delivery| (d.from, d.data@))
    }

    /// The ids of the connections that dropped and were not reported yet.
    pub closed spec fn drops(&self) -> Seq<u32> {
        self.drops@
    }

    /// What the server has to send, oldest first.
    pub closed spec fn outbox(&self) -> Seq<Outgoing> {
        self.outbox@
    }

    /// The id that the next accepted connection gets.
    pub closed spec fn next_id(&self) -> u32 {
        self.next_id
    }

    /// The server's bookkeeping is consistent.
    pub closed spec fn wf(&self) -> bool {
        connections_wf(self.connections@, self.next_id)
    }

    fn find_addr(&self, addr: &NetAddr) -> (r: Option<usize>)
        ensures
            match r {
                Some(i) => i < self.connections().len() && self.connections()[i as int].addr
                    == *addr,
                None => !is_connected(self.connections(), *addr),
            },
    {
        let mut i: usize = 0;
        while i < self.connections.len()
            invariant
                i <= self.connections@.len(),
                forall|j: int| 0 <= j < i ==> self.connections@[j].addr != *addr,
            decreases self.connections@.len() - i,
        {
            if self.connections[i].addr == *addr {
                return Some(i);
            }
            i = i + 1;
        }
        None
    }

    fn find_id(&self, id: u32) -> (r: Option<usize>)
        ensures
            match r {
                Some(i) => i < self.connections().len() && self.connections()[i as int].id == id,
                None => !is_live(self.connections(), id),
            },
    {
        let mut i: usize = 0;
        while i < self.connections.len()
            invariant
                i <= self.connections@.len(),
                forall|j: int| 0 <= j < i ==> self.connections@[j].id != id,
            decreases self.connections@.len() - i,
        {
            if self.connections[i].id == id {
                return Some(i);
            }
            i = i + 1;
        }
        None
    }

    /// Takes in a message that the listener accepted from the address it
    /// names. A `Connect` from a new address is accepted as the next
    /// connection and answered; once every id is used it is refused. A
    /// `Message` from a connected client is kept for `read` and `read_id`.
    /// Anything else changes nothing.
    pub fn receive(&mut self, message: MessageBus) -> (r: Result<(), BusError>)
        requires
            old(self).wf(),
        ensures
            final(self).wf(),
            final(self).drops() == old(self).drops(),
            match message {
                MessageBus::Connect { addr } => if is_connected(old(self).connections(), addr) {
                    r == Ok::<(), BusError>(()) && *final(self) == *old(self)
                } else if old(self).next_id() == u32::MAX {
                    r == Err::<(), BusError>(BusError::TooManyConnections) && *final(self)
                        == *old(self)
                } else {
                    &&& r == Ok::<(), BusError>(())
                    &&& final(self).connections() == old(self).connections().push(
                        Connection { id: old(self).next_id(), addr, next_message: 0 },
                    )
                    &&& final(self).next_id() == old(self).next_id() + 1
                    &&& final(self).outbox() == old(self).outbox().push(
                        Outgoing::Accepted { to: addr, id: old(self).next_id() },
                    )
                    &&& final(self).pending() == old(self).pending()
                },
                MessageBus::Message { addr, message: data, .. } => {
                    &&& r == Ok::<(), BusError>(())
                    &&& final(self).connections() == old(self).connections()
                    &&& final(self).next_id() == old(self).next_id()
                    &&& final(self).outbox() == old(self).outbox()
                    &&& if is_connected(old(self).connections(), addr) {
                        exists|i: int|
                            0 <= i < old(self).connections().len() && old(self).connections()[i].addr
                                == addr && final(self).pending() == old(self).pending().push(
                                (old(self).connections()[i].id, data@),
                            )
                    } else {
                        final(self).pending() == old(self).pending()
                    }
                },
                _ => r == Ok::<(), BusError>(()) && *final(self) == *old(self),
            },
    {
        match message {
            MessageBus::Connect { addr } => {
                if self.find_addr(&addr).is_some() {
                    return Ok(());
                }
                if self.next_id == u32::MAX {
                    return Err(BusError::TooManyConnections);
                }
                let id = self.next_id;
                self.connections.push(Connection { id, addr, next_message: 0 });
                self.next_id = id + 1;
                self.outbox.push(Outgoing::Accepted { to: addr, id });
                Ok(())
            },
            MessageBus::Message { addr, message: data, .. } => {
                match self.find_addr(&addr) {
                    Some(i) => {
                        let from = self.connections[i].id;
                        let ghost old_pending = self.pending();
                        self.pending.push(Delivery { from, data: *data });
                        proof {
                            assert(self.pending() =~= old_pending.push((from, data@)));
                        }
                    },
                    None => {},
                }
                Ok(())
            },
            _ => Ok(()),
        }
    }

    /// Drops the connection of the client at this address, if there is one:
    /// it is no longer live and its id is reported by `read_close`. Data it
    /// sent earlier stays readable through `read`.
    pub fn drop_connection(&mut self, addr: NetAddr)
        requires
            old(self).wf(),
        ensures
            final(self).wf(),
            if is_connected(old(self).connections(), addr) {
                exists|i: int|
                    0 <= i < old(self).connections().len() && old(self).connections()[i].addr
                        == addr && final(self).connections() == old(self).connections().remove(i)
                        && final(self).drops() == old(self).drops().push(
                        old(self).connections()[i].id,
                    ) && final(self).pending() == old(self).pending() && final(self).outbox()
                        == old(self).outbox() && final(self).next_id() == old(self).next_id()
            } else {
                *final(self) == *old(self)
            },
    {
        match self.find_addr(&addr) {
            Some(i) => {
                let c = self.connections.remove(i);
                self.drops.push(c.id);
            },
            None => {},
        }
    }

    /// Hands out the oldest client data not handed out yet, from any
    /// connection; `NoData` when there is none.
    pub fn read(&mut self) -> (r: Result<Vec<u8>, BusError>)
        requires
            old(self).wf(),
        ensures
            final(self).wf(),
            if old(self).pending().len() == 0 {
                r == Err::<Vec<u8>, BusError>(BusError::NoData) && *final(self) == *old(self)
            } else {
                &&& r matches Ok(data) && data@ == old(self).pending()[0].1
                &&& final(self).pending() == old(self).pending().drop_first()
                &&& final(self).connections() == old(self).connections()
                &&& final(self).drops() == old(self).drops()
                &&& final(self).outbox() == old(self).outbox()
                &&& final(self).next_id() == old(self).next_id()
            },
    {
        if self.pending.len() == 0 {
            return Err(BusError::NoData);
        }
        let ghost old_pending = self.pending();
        let d = self.pending.remove(0);
        proof {
            assert(self.pending() =~= old_pending.drop_first());
        }
        Ok(d.data)
    }

    /// Sends the data to every live connection, as a task with that
    /// connection's next message id. Succeeds, also when no client is
    /// connected.
    pub fn write(&mut self, message: &[u8]) -> (r: Result<(), BusError>)
        requires
            old(self).wf(),
        ensures
            final(self).wf(),
            r == Ok::<(), BusError>(()),
            final(self).connections().len() == old(self).connections().len(),
            forall|i: int|
                0 <= i < old(self).connections().len() ==> #[trigger] final(self).connections()[i]
                    == bumped(old(self).connections()[i]),
            final(self).outbox().len() == old(self).outbox().len() + old(
                self,
            ).connections().len(),
            forall|i: int|
                0 <= i < old(self).outbox().len() ==> #[trigger] final(self).outbox()[i] == old(
                    self,
                ).outbox()[i],
            forall|i: int|
                0 <= i < old(self).connections().len() ==> is_task_for(
                    #[trigger] final(self).outbox()[old(self).outbox().len() + i],
                    old(self).connections()[i],
                    message@,
                ),
            forall|i: int|
                0 <= i < old(self).connections().len() ==> {
                    let o = #[trigger] final(self).outbox()[old(self).outbox().len() + i];
                    &&& o is Task
                    &&& o->Task_to == old(self).connections()[i].addr
                    &&& o->message_id == old(self).connections()[i].next_message
                    &&& o->data@ == message@
                },
            forall|i: int|
                0 <= i < old(self).connections().len() && old(self).connections()[i].next_message
                    < usize::MAX ==> #[trigger] final(self).connections()[i].next_message == old(
                    self,
                ).connections()[i].next_message + 1,
            final(self).pending() == old(self).pending(),
            final(self).drops() == old(self).drops(),
            final(self).next_id() == old(self).next_id(),
    {
        let ghost old_conns = self.connections@;
        let ghost old_out = self.outbox@;
        let ghost old_pending = self.pending();
        let ghost old_drops = self.drops@;
        let ghost old_next = self.next_id;
        let n = self.connections.len();
        let mut i: usize = 0;
        while i < n
            invariant
                n == old_conns.len(),
                i <= n,
                self.connections@.len() == n,
                forall|j: int|
                    0 <= j < i ==> #[trigger] self.connections@[j] == bumped(old_conns[j]),
                forall|j: int| i <= j < n ==> #[trigger] self.connections@[j] == old_conns[j],
                self.outbox@.len() == old_out.len() + i,
                forall|j: int| 0 <= j < old_out.len() ==> #[trigger] self.outbox@[j] == old_out[j],
                forall|j: int|
                    0 <= j < i ==> is_task_for(
                        #[trigger] self.outbox@[old_out.len() + j],
                        old_conns[j],
                        message@,
                    ),
                connections_wf(old_conns, self.next_id),
                self.pending() == old_pending,
                self.drops@ == old_drops,
                self.next_id == old_next,
            decreases n - i,
        {
            let c = self.connections[i];
            self.outbox.push(
                Outgoing::Task {
                    to: c.addr,
                    message_id: c.next_message,
                    data: vstd::slice::slice_to_vec(message),
                },
            );
            let next = c.next_message.saturating_add(1);
            self.connections.set(i, Connection { next_message: next, ..c });
            i = i + 1;
        }
        proof {
            assert forall|a: int, b: int|
                0 <= a < b < self.connections@.len() implies self.connections@[a].id
                != self.connections@[b].id && self.connections@[a].addr
                != self.connections@[b].addr by {
                assert(self.connections@[a].id == old_conns[a].id);
                assert(self.connections@[b].id == old_conns[b].id);
            }
            assert forall|a: int| 0 <= a < self.connections@.len() implies self.connections@[a].id
                < self.next_id by {
                assert(self.connections@[a].id == old_conns[a].id);
            }
            assert forall|a: int| 0 <= a < n implies {
                let o = #[trigger] self.outbox@[old_out.len() + a];
                &&& o is Task
                &&& o->Task_to == old_conns[a].addr
                &&& o->message_id == old_conns[a].next_message
                &&& o->data@ == message@
            } by {
                lemma_task_carries_written_data(self.outbox@[old_out.len() + a], old_conns[a], message@);
            }
        }
        Ok(())
    }

    /// The ids of the connections that dropped since the last call; they are
    /// reported once.
    pub fn read_close(&mut self) -> (r: Result<Vec<u32>, BusError>)
        requires
            old(self).wf(),
        ensures
            final(self).wf(),
            r matches Ok(v) && v@ == old(self).drops(),
            final(self).drops() == Seq::<u32>::empty(),
            final(self).connections() == old(self).connections(),
            final(self).pending() == old(self).pending(),
            final(self).outbox() == old(self).outbox(),
            final(self).next_id() == old(self).next_id(),
    {
        let mut out: Vec<u32> = Vec::new();
        std::mem::swap(&mut out, &mut self.drops);
        Ok(out)
    }

    /// Hands out the oldest data not handed out yet from one connection.
    /// An id that is not live is an error; `NoData` when that connection has
    /// nothing waiting.
    pub fn read_id(&mut self, conn_id: u32) -> (r: Result<Vec<u8>, BusError>)
        requires
            old(self).wf(),
        ensures
            final(self).wf(),
            final(self).connections() == old(self).connections(),
            final(self).drops() == old(self).drops(),
            final(self).outbox() == old(self).outbox(),
            final(self).next_id() == old(self).next_id(),
            if !is_live(old(self).connections(), conn_id) {
                r == Err::<Vec<u8>, BusError>(BusError::UnknownConnection(conn_id)) && *final(self)
                    == *old(self)
            } else if forall|j: int|
                0 <= j < old(self).pending().len() ==> old(self).pending()[j].0 != conn_id {
                r == Err::<Vec<u8>, BusError>(BusError::NoData) && *final(self) == *old(self)
            } else {
                exists|i: int|
                    first_from(old(self).pending(), conn_id, i) && (r matches Ok(data) && data@
                        == old(self).pending()[i].1) && final(self).pending() == old(
                        self,
                    ).pending().remove(i)
            },
    {
        if self.find_id(conn_id).is_none() {
            return Err(BusError::UnknownConnection(conn_id));
        }
        let ghost old_self = *self;
        let mut i: usize = 0;
        while i < self.pending.len()
            invariant
                i <= self.pending@.len(),
                forall|j: int| 0 <= j < i ==> self.pending()[j].0 != conn_id,
                *self == old_self,
                old_self == *old(self),
                old_self.wf(),
                is_live(old_self.connections(), conn_id),
            decreases self.pending@.len() - i,
        {
            if self.pending[i].from == conn_id {
                let ghost old_pending = self.pending();
                let d = self.pending.remove(i);
                proof {
                    assert(self.pending() =~= old_pending.remove(i as int));
                    assert(first_from(old_pending, conn_id, i as int));
                    assert(self.connections@ == old_self.connections@);
                    assert(self.drops@ == old_self.drops@);
                    assert(old_pending[i as int] == (d.from, d.data@));
                    assert(old_pending[i as int].0 == conn_id);
                }
                return Ok(d.data);
            }
            i = i + 1;
        }
        Err(BusError::NoData)
    }

    /// Sends a message to one connection, as given. An id that is not live
    /// is an error.
    pub fn write_id(&mut self, conn_id: u32, message: MessageBus) -> (r: Result<(), BusError>)
        requires
            old(self).wf(),
        ensures
            final(self).wf(),
            if !is_live(old(self).connections(), conn_id) {
                r == Err::<(), BusError>(BusError::UnknownConnection(conn_id)) && *final(self)
                    == *old(self)
            } else {
                &&& r == Ok::<(), BusError>(())
                &&& exists|i: int|
                    0 <= i < old(self).connections().len() && old(self).connections()[i].id
                        == conn_id && final(self).outbox() == old(self).outbox().push(
                        Outgoing::Message { to: old(self).connections()[i].addr, message },
                    )
                &&& final(self).connections() == old(self).connections()
                &&& final(self).pending() == old(self).pending()
                &&& final(self).drops() == old(self).drops()
                &&& final(self).next_id() == old(self).next_id()
            },
    {
        match self.find_id(conn_id) {
            None => Err(BusError::UnknownConnection(conn_id)),
            Some(i) => {
                let to = self.connections[i].addr;
                self.outbox.push(Outgoing::Message { to, message });
                Ok(())
            },
        }
    }

    /// Whether a connection id is live.
    pub fn is_valid(&mut self, conn_id: u32) -> (r: Result<bool, BusError>)
        requires
            old(self).wf(),
        ensures
            r == Ok::<bool, BusError>(is_live(old(self).connections(), conn_id)),
            *final(self) == *old(self),
    {
        Ok(self.find_id(conn_id).is_some())
    }

    /// The ids of the live connections, in the order in which they were
    /// accepted.
    pub fn client_list(&mut self) -> (r: Result<Vec<u32>, BusError>)
        requires
            old(self).wf(),
        ensures
            r matches Ok(v) && v@ == ids(old(self).connections()),
            *final(self) == *old(self),
    {
        let mut out: Vec<u32> = Vec::new();
        let mut i: usize = 0;
        while i < self.connections.len()
            invariant
                i <= self.connections@.len(),
                out@ == ids(self.connections@.take(i as int)),
            decreases self.connections@.len() - i,
        {
            out.push(self.connections[i].id);
            proof {
                assert(ids(self.connections@.take(i + 1)) =~= ids(
                    self.connections@.take(i as int),
                ).push(self.connections@[i as int].id));
            }
            i = i + 1;
        }
        proof {
            assert(self.connections@.take(i as int) =~= self.connections@);
        }
        Ok(out)
    }

    /// Hands over what the server has to send, oldest first, and empties
    /// that queue.
    pub fn take_outbox(&mut self) -> (r: Vec<Outgoing>)
        requires
            old(self).wf(),
        ensures
            final(self).wf(),
            r@ == old(self).outbox(),
            final(self).outbox() == Seq::<Outgoing>::empty(),
            final(self).connections() == old(self).connections(),
            final(self).pending() == old(self).pending(),
            final(self).drops() == old(self).drops(),
            final(self).next_id() == old(self).next_id(),
    {
        let mut out: Vec<Outgoing> = Vec::new();
        std::mem::swap(&mut out, &mut self.outbox);
        out
    }

    /// Moves the server from running to closed: what it still has to send
    /// stays, and the command that ends the serving loop follows it.
    pub fn close(self) -> (r: ServerClosed)
        ensures
            r.outbox() == self.outbox().push(Outgoing::CloseCommand),
    {
        let mut outbox = self.outbox;
        outbox.push(Outgoing::CloseCommand);
        ServerClosed { outbox }
    }
}

impl ServerClosed {
    /// What the closed server still has to send, the close command last.
    pub closed spec fn outbox(&self) -> Seq<Outgoing> {
        self.outbox@
    }

    /// Whether the server is closed: always `true`.
    pub fn is_closed(&self) -> (r: bool)
        ensures
            r == true,
    {
        true
    }

    /// Hands over what the closed server still has to send, oldest first,
    /// and empties that queue.
    pub fn take_outbox(&mut self) -> (r: Vec<Outgoing>)
        ensures
            r@ == old(self).outbox(),
            final(self).outbox() == Seq::<Outgoing>::empty(),
    {
        let mut out: Vec<Outgoing> = Vec::new();
        std::mem::swap(&mut out, &mut self.outbox);
        out
    }
}

/// What the listening loop sees.
pub enum ListenEvent {
    /// The shutdown broadcast was received, or could not be.
    CloseSignal(Result<(), CloseSignalError>),
    /// A datagram from `from`; `message` is what it decoded to, `None` when
    /// it did not decode.
    Datagram { from: NetAddr, message: Option<MessageBus> },
    /// A receive failed.
    RecvFailed(IoErrorKind),
    /// A forwarded message was handed to the serving loop (`true`), or the
    /// serving loop was gone (`false`).
    Delivered(bool),
}

/// What the listening loop does next.
pub enum ListenAction {
    /// Wait for the next event.
    Continue,
    /// Hand the message to the serving loop, then report `Delivered`.
    Forward(MessageBus),
    /// End the loop with this result.
    Stop(Result<(), BusError>),
}

/// The action of the listening loop for an event.
pub open spec fn listen_outcome(event: ListenEvent) -> ListenAction {
    match event {
        ListenEvent::CloseSignal(Ok(())) => ListenAction::Stop(Ok(())),
        ListenEvent::CloseSignal(Err(e)) => ListenAction::Stop(Err(BusError::CloseSignal(e))),
        ListenEvent::Datagram { message: None, .. } => ListenAction::Stop(Err(BusError::Decode)),
        ListenEvent::Datagram { from, message: Some(m) } => if m.spec_addr() == from {
            ListenAction::Forward(m)
        } else {
            ListenAction::Continue
        },
        ListenEvent::RecvFailed(kind) => if is_transient(kind) {
            ListenAction::Continue
        } else {
            ListenAction::Stop(Err(BusError::Io(kind)))
        },
        ListenEvent::Delivered(true) => ListenAction::Continue,
        ListenEvent::Delivered(false) => ListenAction::Stop(Err(BusError::ChannelClosed)),
    }
}

/// Handles a datagram that reached the listener: one that did not decode
/// is a decode error; a message that names an address other than its
/// sender's is dropped (`Ok(None)`); any other is to be forwarded.
pub fn handle_message(from: &NetAddr, decoded: Option<MessageBus>) -> (r: Result<
    Option<MessageBus>,
    BusError,
>)
    ensures
        match decoded {
            None => r == Err::<Option<MessageBus>, BusError>(BusError::Decode),
            Some(m) => r == Ok::<Option<MessageBus>, BusError>(
                if m.spec_addr() == *from {
                    Some(m)
                } else {
                    None
                },
            ),
        },
{
    match decoded {
        None => Err(BusError::Decode),
        Some(message) => {
            if message.addr() != from {
                return Ok(None);
            }
            Ok(Some(message))
        },
    }
}

/// One step of the listening loop.
pub fn listen_step(event: ListenEvent) -> (r: ListenAction)
    ensures
        r == listen_outcome(event),
        event matches ListenEvent::Datagram { from, message: Some(m) } ==> (if m.spec_addr()
            == from {
            r == ListenAction::Forward(m)
        } else {
            r == ListenAction::Continue
        }),
        event matches ListenEvent::RecvFailed(kind) ==> ((kind == IoErrorKind::ConnectionAborted
            || kind == IoErrorKind::Interrupted || kind == IoErrorKind::WouldBlock) <==> r
            == ListenAction::Continue),
{
    match event {
        ListenEvent::CloseSignal(Ok(())) => ListenAction::Stop(Ok(())),
        ListenEvent::CloseSignal(Err(e)) => ListenAction::Stop(Err(BusError::CloseSignal(e))),
        ListenEvent::Datagram { from, message } => match handle_message(&from, message) {
            Ok(Some(m)) => ListenAction::Forward(m),
            Ok(None) => ListenAction::Continue,
            Err(e) => ListenAction::Stop(Err(e)),
        },
        ListenEvent::RecvFailed(kind) => match handle_error(kind) {
            Ok(()) => ListenAction::Continue,
            Err(e) => ListenAction::Stop(Err(e)),
        },
        ListenEvent::Delivered(delivered) => if delivered {
            ListenAction::Continue
        } else {
            ListenAction::Stop(Err(BusError::ChannelClosed))
        },
    }
}

/// What the serving loop sees.
pub enum ServeEvent {
    /// The start signal arrived (`true`) or was dropped unsent (`false`).
    Started(bool),
    /// A message forwarded by the listener, `None` once the listener is gone.
    NewConnection(Option<MessageBus>),
    /// Something the running server has to send, `None` once the running
    /// server is gone.
    ClientRead(Option<Outgoing>),
    /// The close command channel yielded.
    CloseCommand,
}

/// What the serving loop does next.
pub enum ServeAction {
    /// Wait for the next event.
    Continue,
    /// Hand a message from a client to the running server.
    Deliver(MessageBus),
    /// Send this to its client.
    Transmit(Outgoing),
    /// End the loop with this result.
    Finish(Result<(), BusError>),
}

/// The action of the serving loop for an event: forwarded messages go to
/// the running server, what it has to send goes out, and a close command,
/// from either channel, ends the loop.
pub open spec fn serve_outcome(event: ServeEvent) -> ServeAction {
    match event {
        ServeEvent::Started(true) => ServeAction::Continue,
        ServeEvent::Started(false) => ServeAction::Finish(Err(BusError::StartCancelled)),
        ServeEvent::NewConnection(Some(m)) => ServeAction::Deliver(m),
        ServeEvent::NewConnection(None) => ServeAction::Continue,
        ServeEvent::ClientRead(Some(Outgoing::CloseCommand)) => ServeAction::Finish(Ok(())),
        ServeEvent::ClientRead(Some(o)) => ServeAction::Transmit(o),
        ServeEvent::ClientRead(None) => ServeAction::Continue,
        ServeEvent::CloseCommand => ServeAction::Finish(Ok(())),
    }
}

/// One step of the serving loop.
pub fn serve_step(event: ServeEvent) -> (r: ServeAction)
    ensures
        r == serve_outcome(event),
{
    match event {
        ServeEvent::Started(started) => if started {
            ServeAction::Continue
        } else {
            ServeAction::Finish(Err(BusError::StartCancelled))
        },
        ServeEvent::NewConnection(Some(m)) => ServeAction::Deliver(m),
        ServeEvent::NewConnection(None) => ServeAction::Continue,
        ServeEvent::ClientRead(Some(o)) => match o {
            Outgoing::CloseCommand => ServeAction::Finish(Ok(())),
            _ => ServeAction::Transmit(o),
        },
        ServeEvent::ClientRead(None) => ServeAction::Continue,
        ServeEvent::CloseCommand => ServeAction::Finish(Ok(())),
    }
}

/// The listener forwards nothing but a decoded datagram whose message names
/// the address the datagram came from, and then it forwards that message.
pub proof fn lemma_listener_forwards_only_from_named_sender(event: ListenEvent)
    ensures
        listen_outcome(event) is Forward ==> {
            &&& event is Datagram
            &&& event->message == Some(listen_outcome(event)->Forward_0)
            &&& listen_outcome(event)->Forward_0.spec_addr() == event->from
        },
        event matches ListenEvent::Datagram { from, message: Some(m) } ==> (m.spec_addr() == from
            <==> listen_outcome(event) is Forward),
{
}

/// A decoded datagram whose message names an address other than its
/// sender's is dropped, and the listener keeps listening; one that names its
/// sender is forwarded as it is.
pub proof fn lemma_listener_drops_misaddressed_and_goes_on(from: NetAddr, m: MessageBus)
    ensures
        m.spec_addr() != from ==> listen_outcome(ListenEvent::Datagram { from, message: Some(m) })
            == ListenAction::Continue,
        m.spec_addr() == from ==> listen_outcome(ListenEvent::Datagram { from, message: Some(m) })
            == ListenAction::Forward(m),
{
}

/// The task that `is_task_for` describes is a task to the connection's
/// address, with the connection's next message id and exactly the data.
pub proof fn lemma_task_carries_written_data(o: Outgoing, c: Connection, data: Seq<u8>)
    ensures
        is_task_for(o, c, data) <==> (o is Task && o->Task_to == c.addr && o->message_id
            == c.next_message && o->data@ == data),
{
}

/// A failed receive ends the listener only when the failure is not
/// transient, and then with that failure.
pub proof fn lemma_listener_survives_transient_failures(kind: IoErrorKind)
    ensures
        is_transient(kind) ==> listen_outcome(ListenEvent::RecvFailed(kind)) is Continue,
        !is_transient(kind) ==> listen_outcome(ListenEvent::RecvFailed(kind)) == ListenAction::Stop(
            Err(BusError::Io(kind)),
        ),
        (kind == IoErrorKind::ConnectionAborted || kind == IoErrorKind::Interrupted || kind
            == IoErrorKind::WouldBlock) ==> listen_outcome(ListenEvent::RecvFailed(kind))
            == ListenAction::Continue,
        !(kind == IoErrorKind::ConnectionAborted || kind == IoErrorKind::Interrupted || kind
            == IoErrorKind::WouldBlock) ==> listen_outcome(ListenEvent::RecvFailed(kind))
            == ListenAction::Stop(Err(BusError::Io(kind))),
{
}

/// The shutdown broadcast always ends the listener: cleanly when a signal
/// arrived, with the reason otherwise.
pub proof fn lemma_close_signal_stops_listener(signal: Result<(), CloseSignalError>)
    ensures
        listen_outcome(ListenEvent::CloseSignal(signal)) == ListenAction::Stop(
            match signal {
                Ok(()) => Ok(()),
                Err(e) => Err(BusError::CloseSignal(e)),
            },
        ),
{
}

/// The serving loop ends cleanly on a close command, from either channel,
/// and on nothing else; it hands every forwarded message to the running
/// server and sends everything else the running server queued.
pub proof fn lemma_serve_runs_until_close_command(event: ServeEvent)
    ensures
        serve_outcome(event) == ServeAction::Finish(Ok(())) <==> (event is CloseCommand || event
            == ServeEvent::ClientRead(Some(Outgoing::CloseCommand))),
        event is NewConnection ==> !(serve_outcome(event) is Finish),
        event matches ServeEvent::NewConnection(Some(m)) ==> serve_outcome(event)
            == ServeAction::Deliver(m),
        event matches ServeEvent::ClientRead(Some(o)) ==> (o is CloseCommand || serve_outcome(
            event,
        ) == ServeAction::Transmit(o)),
{
}

} // verus!
