//! The UDP discovery handshake: the probe, the reply's wire format and the
//! resolution of one handshake attempt into a camera endpoint.

use vstd::prelude::*;

verus! {

/// Offset of the control port's low byte within a discovery reply.
pub const PORT_OFFSET: usize = 90;

/// Shortest reply that covers the two port bytes.
pub const MIN_REPLY_LEN: usize = 92;

/// Largest reply datagram the camera is known to send.
pub const MAX_REPLY_LEN: usize = 524;

/// UDP port the cameras listen on for probes.
pub const PROBE_PORT: u16 = 8600;

/// Local UDP port the probe is sent from and the reply arrives at.
pub const LISTEN_PORT: u16 = 8601;

/// Where a camera's HTTP control listener is reached.
#[derive(Clone, Copy, Debug, PartialEq, Eq)]
pub struct CameraEndpoint {
    pub ip: [u8; 4],
    pub port: u16,
}

/// Transport-level address a reply datagram came from.
#[derive(Clone, Copy, Debug, PartialEq, Eq)]
pub enum SenderAddr {
    V4([u8; 4]),
    V6([u8; 16]),
}

/// Why a reply could not be decoded.
#[derive(Clone, Copy, Debug, PartialEq, Eq, Structural)]
pub enum DecodeError {
    /// The payload ends before the port bytes do.
    TooShort,
    /// The reply did not come from an IPv4 address.
    NonIPv4Sender,
}

/// Why a discovery attempt resolved no endpoint.
#[derive(Clone, Copy, Debug, PartialEq, Eq, Structural)]
pub enum DiscoveryError {
    /// The local socket could not be bound.
    BindFailed,
    /// No reply arrived in time.
    Timeout,
    /// A reply arrived and was not decodable.
    Decode(DecodeError),
}

/// What the transport observed during one handshake attempt.
#[derive(Clone, Debug, PartialEq, Eq)]
pub enum ProbeOutcome {
    /// The local socket could not be bound.
    BindFailed,
    /// The wait for a reply ran out.
    TimedOut,
    /// The first datagram received, with its sender.
    Reply { payload: Vec<u8>, sender: SenderAddr },
}

/// The control port carried by a reply: a little-endian 16-bit value at
/// [`PORT_OFFSET`].
pub open spec fn port_at(payload: Seq<u8>) -> int
    recommends
        payload.len() >= MIN_REPLY_LEN,
{
    payload[PORT_OFFSET as int] as int + 256 * (payload[PORT_OFFSET as int + 1] as int)
}

/// What a reply decodes to. The length is checked first, so a short payload
/// is `TooShort` whoever sent it; the payload's other bytes play no part.
pub open spec fn decoded(payload: Seq<u8>, sender: SenderAddr) -> Result<
    CameraEndpoint,
    DecodeError,
> {
    if payload.len() < MIN_REPLY_LEN {
        Err(DecodeError::TooShort)
    } else {
        match sender {
            SenderAddr::V4(ip) => Ok(CameraEndpoint { ip, port: port_at(payload) as u16 }),
            SenderAddr::V6(_) => Err(DecodeError::NonIPv4Sender),
        }
    }
}

/// What one handshake attempt resolves to.
pub open spec fn resolved(outcome: ProbeOutcome) -> Result<CameraEndpoint, DiscoveryError> {
    match outcome {
        ProbeOutcome::BindFailed => Err(DiscoveryError::BindFailed),
        ProbeOutcome::TimedOut => Err(DiscoveryError::Timeout),
        ProbeOutcome::Reply { payload, sender } => match decoded(payload@, sender) {
            Ok(endpoint) => Ok(endpoint),
            Err(e) => Err(DiscoveryError::Decode(e)),
        },
    }
}

/// The port of a decodable reply is fixed by bytes 90 and 91 alone.
pub proof fn lemma_port_from_window(payload: Seq<u8>, lo: u8, hi: u8)
    requires
        payload.len() >= MIN_REPLY_LEN,
        payload[PORT_OFFSET as int] == lo,
        payload[PORT_OFFSET as int + 1] == hi,
    ensures
        port_at(payload) == lo + 256 * hi,
        0 <= port_at(payload) <= u16::MAX,
        forall|ip: [u8; 4]|
            decoded(payload, SenderAddr::V4(ip)) == Ok::<CameraEndpoint, DecodeError>(
                (CameraEndpoint { ip, port: (lo + 256 * hi) as u16 }),
            ),
{
}

/// Parser of the fixed-offset discovery reply.
pub struct ResponseCodec;

impl ResponseCodec {
    /// Decodes one reply datagram received from `sender`.
    pub fn decode(payload: &[u8], sender: &SenderAddr) -> (r: Result<CameraEndpoint, DecodeError>)
        ensures
            r == decoded(payload@, *sender),
            payload@.len() < MIN_REPLY_LEN ==> r == Err::<CameraEndpoint, DecodeError>(
                DecodeError::TooShort,
            ),
    {
        if payload.len() < MIN_REPLY_LEN {
            return Err(DecodeError::TooShort);
        }
        match sender {
            SenderAddr::V4(ip) => {
                let lo: u16 = payload[PORT_OFFSET] as u16;
                let hi: u16 = payload[PORT_OFFSET + 1] as u16;
                assert(lo | (hi << 8) == lo + 256 * hi) by (bit_vector)
                    requires
                        lo < 256,
                        hi < 256,
                ;
                Ok(CameraEndpoint { ip: *ip, port: lo | (hi << 8) })
            },
            SenderAddr::V6(_) => Err(DecodeError::NonIPv4Sender),
        }
    }
}

/// One handshake attempt, as far as it can be told without a socket: where
/// the probe goes, what it holds, and what the attempt's outcome resolves
/// to. The socket work itself is the host's.
#[derive(Clone, Copy, Debug, PartialEq, Eq)]
pub struct DiscoveryClient {
    /// Local UDP port to bind, with broadcast enabled.
    pub listen_port: u16,
    /// Address the probe is sent to.
    pub probe_addr: [u8; 4],
    /// UDP port the probe is sent to.
    pub probe_port: u16,
}

impl DiscoveryClient {
    /// A client with parameters of the caller's choosing.
    pub fn new(listen_port: u16, probe_addr: [u8; 4], probe_port: u16) -> (c: DiscoveryClient)
        ensures
            c.listen_port == listen_port,
            c.probe_addr == probe_addr,
            c.probe_port == probe_port,
    {
        DiscoveryClient { listen_port, probe_addr, probe_port }
    }

    /// The parameters the cameras are built for: from port 8601 to the
    /// limited-broadcast address, port 8600.
    pub fn standard() -> (c: DiscoveryClient)
        ensures
            c.listen_port == LISTEN_PORT,
            c.probe_addr@ == seq![255u8, 255u8, 255u8, 255u8],
            c.probe_port == PROBE_PORT,
    {
        let probe_addr: [u8; 4] = [255, 255, 255, 255];
        assert(probe_addr@ =~= seq![255u8, 255u8, 255u8, 255u8]);
        DiscoveryClient { listen_port: LISTEN_PORT, probe_addr, probe_port: PROBE_PORT }
    }

    /// The four-byte probe that cameras answer.
    pub fn probe(&self) -> (p: [u8; 4])
        ensures
            p@ == seq![0x44u8, 0x48u8, 0x01u8, 0x01u8],
    {
        let p: [u8; 4] = [0x44, 0x48, 0x01, 0x01];
        assert(p@ =~= seq![0x44u8, 0x48u8, 0x01u8, 0x01u8]);
        p
    }

    /// Resolves one handshake attempt: the endpoint on a decodable reply, and
    /// otherwise the reason there is none. Nothing is retried, and only the
    /// one reply handed in is looked at.
    pub fn resolve(&self, outcome: &ProbeOutcome) -> (r: Result<CameraEndpoint, DiscoveryError>)
        ensures
            r == resolved(*outcome),
    {
        match outcome {
            ProbeOutcome::BindFailed => Err(DiscoveryError::BindFailed),
            ProbeOutcome::TimedOut => Err(DiscoveryError::Timeout),
            ProbeOutcome::Reply { payload, sender } => {
                match ResponseCodec::decode(payload.as_slice(), sender) {
                    Ok(endpoint) => Ok(endpoint),
                    Err(e) => Err(DiscoveryError::Decode(e)),
                }
            },
        }
    }
}

} // verus!
