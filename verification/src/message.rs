use vstd::prelude::*;

verus! {

/// A socket address: an IPv4 address (its 32 bits, most significant octet
/// first) or an IPv6 address (its 128 bits) with a port, and for IPv6 the
/// flow label and scope id.
#[derive(Clone, Copy, Debug, PartialEq, Eq, Structural)]
#[allow(inconsistent_fields)]
pub enum NetAddr {
    V4 { ip: u32, port: u16 },
    V6 { ip: u128, port: u16, flowinfo: u32, scope_id: u32 },
}

/// The id that follows a message id: one more, and no more once the largest
/// id is reached.
pub open spec fn bump(message_id: usize) -> usize {
    if message_id < usize::MAX {
        (message_id + 1) as usize
    } else {
        message_id
    }
}

/// The id after a message id is one more, up to the largest id, which
/// stays: ids of successive messages differ until the largest is reached.
pub proof fn lemma_bump_adds_one(message_id: usize)
    ensures
        message_id < usize::MAX ==> bump(message_id) == message_id + 1,
        message_id == usize::MAX ==> bump(message_id) == message_id,
        message_id < usize::MAX ==> bump(message_id) != message_id,
{
}

/// A message on the bus. Every variant names the address of the peer that
/// sent it.
#[derive(Debug)]
pub enum MessageBus {
    Connect { addr: NetAddr },
    Message { addr: NetAddr, message_id: usize, len: usize, message: Box<Vec<u8>> },
    Ack { addr: NetAddr, id: usize },
    CAck { addr: NetAddr, id: usize },
}

impl MessageBus {
    /// The address that the message names, whatever its variant.
    pub open spec fn spec_addr(&self) -> NetAddr {
        match self {
            MessageBus::Connect { addr } => *addr,
            MessageBus::Message { addr, .. } => *addr,
            MessageBus::Ack { addr, .. } => *addr,
            MessageBus::CAck { addr, .. } => *addr,
        }
    }

    /// Every variant names the address in its own `addr` field.
    pub proof fn lemma_addr_is_the_addr_field(a: NetAddr, message_id: usize, len: usize, message: Box<Vec<u8>>, id: usize)
        ensures
            (MessageBus::Connect { addr: a }).spec_addr() == a,
            (MessageBus::Message { addr: a, message_id, len, message }).spec_addr() == a,
            (MessageBus::Ack { addr: a, id }).spec_addr() == a,
            (MessageBus::CAck { addr: a, id }).spec_addr() == a,
    {
    }

    /// The address that the message names.
    pub fn addr(&self) -> (r: &NetAddr)
        ensures
            *r == self.spec_addr(),
            self matches MessageBus::Connect { addr } ==> *r == addr,
            self matches MessageBus::Message { addr, .. } ==> *r == addr,
            self matches MessageBus::Ack { addr, .. } ==> *r == addr,
            self matches MessageBus::CAck { addr, .. } ==> *r == addr,
    {
        match self {
            MessageBus::Connect { addr } | MessageBus::Message { addr, .. } | MessageBus::Ack {
                addr,
                ..
            } | MessageBus::CAck { addr, .. } => addr,
        }
    }
}

} // verus!
