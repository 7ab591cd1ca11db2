use vstd::prelude::*;

verus! {

/// The kinds of I/O failure that a socket operation can report.
#[derive(Clone, Copy, Debug, PartialEq, Eq, Structural)]
pub enum IoErrorKind {
    NotFound,
    PermissionDenied,
    ConnectionRefused,
    ConnectionReset,
    ConnectionAborted,
    NotConnected,
    AddrInUse,
    AddrNotAvailable,
    BrokenPipe,
    AlreadyExists,
    WouldBlock,
    InvalidInput,
    InvalidData,
    TimedOut,
    WriteZero,
    Interrupted,
    Unsupported,
    UnexpectedEof,
    OutOfMemory,
    Other,
}

/// The failures after which a receive loop goes on: the peer aborted the
/// connection, the call was interrupted, or it would have blocked.
pub open spec fn is_transient(kind: IoErrorKind) -> bool {
    ||| kind is ConnectionAborted
    ||| kind is Interrupted
    ||| kind is WouldBlock
}

/// Why waiting for the shutdown broadcast ended without a signal.
#[derive(Clone, Copy, Debug, PartialEq, Eq, Structural)]
pub enum CloseSignalError {
    /// Every sender of the broadcast is gone.
    Closed,
    /// The receiver fell behind and missed this many signals.
    Lagged(u64),
}

/// The errors of the message bus.
#[derive(Clone, Copy, Debug, PartialEq, Eq, Structural)]
pub enum BusError {
    /// An address text did not parse as a socket address.
    InvalidAddress,
    /// A socket operation failed.
    Io(IoErrorKind),
    /// A datagram did not decode as a message.
    Decode,
    /// A value could not be encoded.
    Encode,
    /// The receiving end of a channel is gone.
    ChannelClosed,
    /// The shutdown broadcast could not be received.
    CloseSignal(CloseSignalError),
    /// The start signal was dropped before it was sent.
    StartCancelled,
    /// There is no data to hand out.
    NoData,
    /// No live connection has this id.
    UnknownConnection(u32),
    /// Every connection id is in use.
    TooManyConnections,
    /// The client is no longer connected to its server.
    Disconnected,
}

/// The transient failures are exactly an aborted connection, an interrupted
/// call and a call that would block.
pub proof fn lemma_transient_kinds(kind: IoErrorKind)
    ensures
        is_transient(kind) <==> (kind == IoErrorKind::ConnectionAborted || kind
            == IoErrorKind::Interrupted || kind == IoErrorKind::WouldBlock),
{
}

/// Decides what a receive loop does after a failed receive: it goes on
/// (`Ok`) after a transient failure and ends with that failure otherwise.
pub fn handle_error(kind: IoErrorKind) -> (r: Result<(), BusError>)
    ensures
        r == (if is_transient(kind) { Ok(()) } else { Err(BusError::Io(kind)) }),
        (kind == IoErrorKind::ConnectionAborted || kind == IoErrorKind::Interrupted || kind
            == IoErrorKind::WouldBlock) ==> r == Ok::<(), BusError>(()),
        !(kind == IoErrorKind::ConnectionAborted || kind == IoErrorKind::Interrupted || kind
            == IoErrorKind::WouldBlock) ==> r == Err::<(), BusError>(BusError::Io(kind)),
{
    match kind {
        IoErrorKind::ConnectionAborted | IoErrorKind::Interrupted | IoErrorKind::WouldBlock => Ok(
            (),
        ),
        _ => Err(BusError::Io(kind)),
    }
}

} // verus!
