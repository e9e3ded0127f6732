//! The transport layer, as a verified model.
//!
//! The host owns the real socket, streams and TLS session and polls
//! them; every decision those polling loops make — what a resolver
//! answer means, when `WouldBlock` suspends rather than fails, how many
//! bytes a write may move, in which order handles are released — is a
//! function here with an exact contract.  The connection itself is
//! modeled so that plaintext and TLS ownership are one enum: upgrading
//! consumes the plaintext layer and replaces it atomically, so there is
//! never a state in which both exist.

use vstd::prelude::*;

use vstd::string::StringExecFns;

use crate::config::ImapConfig;
use crate::error::ConnectionError;

verus! {

/// One resolved address.
#[derive(Debug, Clone, Copy, PartialEq, Eq, Structural)]
pub enum IpAddress {
    V4(u8, u8, u8, u8),
    V6(u16, u16, u16, u16, u16, u16, u16, u16),
}

/// The address family a socket must be created with.
#[derive(Debug, Clone, Copy, PartialEq, Eq, Structural)]
pub enum IpFamily {
    V4,
    V6,
}

/// A socket endpoint: family, address and port, with the IPv6 extras.
#[derive(Debug, Clone, Copy, PartialEq, Eq, Structural)]
pub struct SocketEndpoint {
    pub family: IpFamily,
    pub address: IpAddress,
    pub port: u16,
    pub flow_info: u32,
    pub scope_id: u32,
}

/// Build the endpoint for the first resolved address: the socket's
/// family follows the address's family, the port is the configured
/// one, and the IPv6 flow and scope are zero.
pub fn socket_endpoint(address: IpAddress, port: u16) -> (r: SocketEndpoint)
    ensures
        r.address == address,
        r.port == port,
        r.family == IpFamily::V4 <==> address matches IpAddress::V4(..),
        r.family == IpFamily::V6 <==> address matches IpAddress::V6(..),
        r.flow_info == 0,
        r.scope_id == 0,
{
    let family = match address {
        IpAddress::V4(..) => IpFamily::V4,
        IpAddress::V6(..) => IpFamily::V6,
    };
    SocketEndpoint { family, address, port, flow_info: 0, scope_id: 0 }
}

/// What one poll of the resolver reported.
#[derive(Debug, Clone)]
pub enum ResolveEvent {
    /// An address came back.
    Address(IpAddress),
    /// The resolver is done and returned no address.
    Exhausted,
    /// Not ready yet.
    WouldBlock,
    /// The resolver failed.
    Failed(String),
}

/// What the resolving loop does next.
#[derive(Debug, Clone)]
pub enum ResolveStep {
    /// Use this address and stop polling.
    Use(IpAddress),
    /// Suspend until the resolver signals readiness.
    Wait,
    /// Give up with this terminal error.
    Fail(ConnectionError),
}

/// The resolving loop's decision: the first address wins, exhaustion
/// without an address is the terminal `NoAddress` (no fallback), and
/// `WouldBlock` suspends — it is never an error.
pub fn resolve_step(event: ResolveEvent, host: &str) -> (r: ResolveStep)
    ensures
        match event {
            ResolveEvent::Address(a) => r == ResolveStep::Use(a),
            ResolveEvent::Exhausted => r matches ResolveStep::Fail(
                ConnectionError::NoAddress { host: h },
            ) && h@ == host@,
            ResolveEvent::WouldBlock => r == ResolveStep::Wait,
            ResolveEvent::Failed(m) => r matches ResolveStep::Fail(ConnectionError::Tcp(e))
                && e@ == m@,
        },
{
    match event {
        ResolveEvent::Address(a) => ResolveStep::Use(a),
        ResolveEvent::Exhausted => ResolveStep::Fail(
            ConnectionError::NoAddress { host: host.to_owned() },
        ),
        ResolveEvent::WouldBlock => ResolveStep::Wait,
        ResolveEvent::Failed(m) => ResolveStep::Fail(ConnectionError::Tcp(m)),
    }
}

/// What one poll of the connecting socket reported.
#[derive(Debug, Clone)]
pub enum ConnectEvent {
    /// The connection completed.
    Connected,
    /// Not ready yet.
    WouldBlock,
    /// The connect failed.
    Failed(String),
}

/// What the connecting loop does next.
#[derive(Debug, Clone)]
pub enum ConnectStep {
    /// The socket is connected; move on.
    Proceed,
    /// Suspend until the socket signals readiness.
    Wait,
    /// Give up with this terminal error.
    Fail(ConnectionError),
}

/// The connecting loop's decision: `WouldBlock` is the suspension
/// signal, not an error.
pub fn connect_step(event: ConnectEvent) -> (r: ConnectStep)
    ensures
        match event {
            ConnectEvent::Connected => r == ConnectStep::Proceed,
            ConnectEvent::WouldBlock => r == ConnectStep::Wait,
            ConnectEvent::Failed(m) => r matches ConnectStep::Fail(ConnectionError::Tcp(e))
                && e@ == m@,
        },
{
    match event {
        ConnectEvent::Connected => ConnectStep::Proceed,
        ConnectEvent::WouldBlock => ConnectStep::Wait,
        ConnectEvent::Failed(m) => ConnectStep::Fail(ConnectionError::Tcp(m)),
    }
}

/// What one poll of the TLS handshake reported.
#[derive(Debug, Clone)]
pub enum HandshakeEvent {
    /// Not finished yet.
    Pending,
    /// The handshake completed.
    Done,
    /// The handshake failed; terminal for this connection, not retried.
    Failed(String),
    /// The handshake future was already consumed.
    Consumed,
}

/// What the handshake loop does next.
#[derive(Debug, Clone)]
pub enum HandshakeStep {
    /// The TLS session is up; move on.
    Proceed,
    /// Suspend until the handshake signals readiness.
    Wait,
    /// Give up with this terminal error.
    Fail(ConnectionError),
}

/// The handshake loop's decision: a failure is terminal and never
/// retried on this connection.
pub fn handshake_step(event: HandshakeEvent) -> (r: HandshakeStep)
    ensures
        match event {
            HandshakeEvent::Pending => r == HandshakeStep::Wait,
            HandshakeEvent::Done => r == HandshakeStep::Proceed,
            HandshakeEvent::Failed(m) => r matches HandshakeStep::Fail(
                ConnectionError::TlsHandshakeError(e),
            ) && e@ == m@,
            HandshakeEvent::Consumed => r matches HandshakeStep::Fail(
                ConnectionError::TlsHandshakeError(e),
            ) && e@ == "stream consumed"@,
        },
{
    match event {
        HandshakeEvent::Pending => HandshakeStep::Wait,
        HandshakeEvent::Done => HandshakeStep::Proceed,
        HandshakeEvent::Failed(m) => HandshakeStep::Fail(ConnectionError::TlsHandshakeError(m)),
        HandshakeEvent::Consumed => HandshakeStep::Fail(
            ConnectionError::TlsHandshakeError(String::from_str("stream consumed")),
        ),
    }
}

/// What the writing loop does with one readiness report.
#[derive(Debug, Clone, Copy, PartialEq, Eq, Structural)]
pub enum WriteStep {
    /// Zero capacity: suspend on the stream, never busy-spin.
    Wait,
    /// Write exactly this many bytes now.
    Write(usize),
}

/// The writing loop's decision: move `min(capacity, pending)` bytes,
/// and when that is zero, suspend rather than spin.
pub fn write_step(capacity: u64, pending: usize) -> (r: WriteStep)
    ensures
        capacity == 0 || pending == 0 ==> r == WriteStep::Wait,
        capacity > 0 && pending > 0 ==> (r matches WriteStep::Write(n) && n >= 1 && n as u64
            == (if capacity < pending as u64 {
            capacity
        } else {
            pending as u64
        })),
{
    let n: usize = if capacity < pending as u64 {
        capacity as usize
    } else {
        pending
    };
    if n == 0 {
        WriteStep::Wait
    } else {
        WriteStep::Write(n)
    }
}

/// What the reading loop does with one chunk the stream handed back.
#[derive(Debug, Clone, Copy, PartialEq, Eq, Structural)]
pub enum ReadStep {
    /// The stream returned nothing: the peer is done, read as zero
    /// bytes.
    Eof,
    /// Deliver exactly this many bytes into the caller's buffer.
    Deliver(usize),
}

/// The reading loop's decision: an empty chunk reads as zero bytes,
/// and any other chunk is delivered whole.
pub fn read_step(received: usize) -> (r: ReadStep)
    ensures
        received == 0 ==> r == ReadStep::Eof,
        received > 0 ==> r == ReadStep::Deliver(received),
{
    if received == 0 {
        ReadStep::Eof
    } else {
        ReadStep::Deliver(received)
    }
}

/// The two exclusive ownership layers of a live connection.  An enum
/// holds exactly one variant, so plaintext handles and a TLS session
/// can never be live at once.
#[derive(Debug, Clone, Copy, PartialEq, Eq, Structural)]
pub enum TransportLayer {
    /// The raw socket's streams are in use.
    Plain,
    /// The socket's streams have been consumed by a TLS session.
    Tls,
}

/// The model of one live connection.
#[derive(Debug, Clone)]
pub struct Connection {
    pub layer: TransportLayer,
    pub host: String,
    pub port: u16,
}

impl Connection {
    /// A connection as `connect` leaves it: TLS when the configuration
    /// asked for it, plaintext otherwise.
    pub fn new(config: &ImapConfig) -> (r: Connection)
        ensures
            r.layer == if config.tls {
                TransportLayer::Tls
            } else {
                TransportLayer::Plain
            },
            r.host@ == config.host@,
            r.port == config.port,
    {
        Connection {
            layer: if config.tls {
                TransportLayer::Tls
            } else {
                TransportLayer::Plain
            },
            host: config.host.clone(),
            port: config.port,
        }
    }

    /// STARTTLS-style upgrade: consumes the connection and returns one
    /// whose single ownership layer is TLS.  A connection that is
    /// already TLS is returned unchanged; there is never a state
    /// holding both layers.
    pub fn upgrade_tls(self) -> (r: Connection)
        ensures
            r.layer == TransportLayer::Tls,
            r.host@ == self.host@,
            r.port == self.port,
    {
        Connection { layer: TransportLayer::Tls, host: self.host, port: self.port }
    }
}

/// The handles a connection owns, in the roles the host runtime knows.
#[derive(Debug, Clone, Copy, PartialEq, Eq, Structural)]
pub enum TransportResource {
    /// The readiness pollable.
    Pollable,
    /// The receiving stream wrapper.
    RecvStream,
    /// The sending stream wrapper.
    SendStream,
    /// The TLS client session object.
    TlsSession,
    /// The TLS handshake future.
    TlsStreamFuture,
    /// The raw TCP socket.
    TcpSocket,
}

/// Whether a resource is a dependent wrapper (stream or pollable)
/// rather than an owner (TLS session, handshake future, socket).
pub open spec fn is_dependent(x: TransportResource) -> bool {
    x == TransportResource::Pollable || x == TransportResource::RecvStream || x
        == TransportResource::SendStream
}

/// The order in which a connection's handles must be released:
/// dependent stream and pollable wrappers first, then the TLS session
/// and handshake future if the layer is TLS, then the raw socket.
/// Every dependent handle precedes every owner.
pub fn teardown_order(layer: TransportLayer) -> (r: Vec<TransportResource>)
    ensures
        layer == TransportLayer::Plain ==> r@ == seq![
            TransportResource::Pollable,
            TransportResource::RecvStream,
            TransportResource::SendStream,
            TransportResource::TcpSocket,
        ],
        layer == TransportLayer::Tls ==> r@ == seq![
            TransportResource::Pollable,
            TransportResource::RecvStream,
            TransportResource::SendStream,
            TransportResource::TlsSession,
            TransportResource::TlsStreamFuture,
            TransportResource::TcpSocket,
        ],
        forall|i: int, j: int|
            0 <= i < r@.len() && 0 <= j < r@.len() && is_dependent(r@[i]) && !is_dependent(
                r@[j],
            ) ==> i < j,
{
    let mut r: Vec<TransportResource> = Vec::new();
    r.push(TransportResource::Pollable);
    r.push(TransportResource::RecvStream);
    r.push(TransportResource::SendStream);
    if matches!(layer, TransportLayer::Tls) {
        r.push(TransportResource::TlsSession);
        r.push(TransportResource::TlsStreamFuture);
    }
    r.push(TransportResource::TcpSocket);
    proof {
        if layer == TransportLayer::Plain {
            assert(r@ =~= seq![
                TransportResource::Pollable,
                TransportResource::RecvStream,
                TransportResource::SendStream,
                TransportResource::TcpSocket,
            ]);
        } else {
            assert(r@ =~= seq![
                TransportResource::Pollable,
                TransportResource::RecvStream,
                TransportResource::SendStream,
                TransportResource::TlsSession,
                TransportResource::TlsStreamFuture,
                TransportResource::TcpSocket,
            ]);
        }
    }
    r
}

} // verus!
