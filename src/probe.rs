//! What a single probe is sent with, and how its failures are classified.

use vstd::prelude::*;

verus! {

/// Seconds that one probe waits for its reply.
pub const PROBE_TIMEOUT_SECS: u64 = 1;

/// Time-to-live (hop limit) of every echo request.
pub const PROBE_TTL: u32 = 3;

/// Echo attempts made within a single probe.
pub const PROBE_ATTEMPTS: u16 = 5;

/// Relies on rand::random (thread-local generator): a value of any type that
/// `Standard` samples. Nothing is promised of the value.
pub assume_specification<T>[ rand::random::<T> ]() -> (r: T)
    where
        rand::distributions::Standard: rand::distributions::Distribution<T>,
;

/// An IP address literal, held as its numeric parts.
#[derive(Clone, Copy, Debug, PartialEq, Eq)]
pub enum IpAddress {
    V4([u8; 4]),
    V6([u16; 8]),
}

/// Why a probe did not come back `Up`. Each variant carries the underlying
/// message.
#[derive(Debug)]
pub enum ProbeError {
    /// The target text is not an IPv4 or IPv6 literal.
    InvalidAddress(String),
    /// The host did not answer within the timeout, or the transport failed.
    Unreachable(String),
    /// The host refused to open a raw ICMP socket.
    PermissionDenied(String),
}

impl ProbeError {
    pub open spec fn detail(&self) -> Seq<char> {
        match self {
            ProbeError::InvalidAddress(m) => m@,
            ProbeError::Unreachable(m) => m@,
            ProbeError::PermissionDenied(m) => m@,
        }
    }
}

/// One ICMP echo session: where it goes and with what parameters.
#[derive(Clone, Copy, Debug)]
pub struct ProbeRequest {
    pub address: IpAddress,
    pub timeout_secs: u64,
    pub ttl: u32,
    pub ident: u16,
    pub attempts: u16,
    pub payload: [u8; 24],
}

impl ProbeRequest {
    /// The fixed parameters that every probe of this library is sent with.
    pub open spec fn has_fixed_parameters(&self) -> bool {
        &&& self.timeout_secs == PROBE_TIMEOUT_SECS
        &&& self.ttl == PROBE_TTL
        &&& self.attempts == PROBE_ATTEMPTS
    }
}

/// A request to `address` with the fixed parameters, a fresh random
/// identifier and a random payload token.
pub fn new_request(address: IpAddress) -> (r: ProbeRequest)
    ensures
        r.address == address,
        r.has_fixed_parameters(),
{
    let ident: u16 = rand::random();
    let payload: [u8; 24] = rand::random();
    ProbeRequest {
        address,
        timeout_secs: PROBE_TIMEOUT_SECS,
        ttl: PROBE_TTL,
        ident,
        attempts: PROBE_ATTEMPTS,
        payload,
    }
}

/// The request for a target whose text was parsed into `parsed`. A parse
/// failure becomes `InvalidAddress` carrying the parser's message, and no
/// request is made.
pub fn prepare_probe(parsed: Result<IpAddress, String>) -> (r: Result<ProbeRequest, ProbeError>)
    ensures
        match parsed {
            Ok(a) => r matches Ok(req) && req.address == a && req.has_fixed_parameters(),
            Err(m) => r == Err::<ProbeRequest, ProbeError>(ProbeError::InvalidAddress(m)),
        },
{
    match parsed {
        Ok(a) => Ok(new_request(a)),
        Err(m) => Err(ProbeError::InvalidAddress(m)),
    }
}

/// The task for one target: a target whose text did not parse fails with
/// `InvalidAddress` and nothing is sent; otherwise `send` performs one
/// request to the parsed address with the fixed parameters, and its result
/// is the task's.
pub fn ping_ip(
    parsed: Result<IpAddress, String>,
    send: impl FnOnce(ProbeRequest) -> Result<(), ProbeError>,
) -> (r: Result<(), ProbeError>)
    requires
        forall|q: ProbeRequest| send.requires((q,)),
    ensures
        match parsed {
            Ok(a) => exists|q: ProbeRequest|
                q.address == a && q.has_fixed_parameters() && #[trigger] send.ensures((q,), r),
            Err(m) => r == Err::<(), ProbeError>(ProbeError::InvalidAddress(m)),
        },
{
    match prepare_probe(parsed) {
        Ok(q) => send(q),
        Err(e) => Err(e),
    }
}

/// The text that reports a failed probe.
pub open spec fn reason_spec(e: ProbeError) -> Seq<char> {
    "PING ERROR: "@ + e.detail()
}

/// The text that reports `e`: a fixed prefix, then the underlying message.
pub fn reason_text(e: &ProbeError) -> (r: String)
    ensures
        r@ == reason_spec(*e),
{
    let mut s = String::from_str("PING ERROR: ");
    match e {
        ProbeError::InvalidAddress(m) => s.append(m.as_str()),
        ProbeError::Unreachable(m) => s.append(m.as_str()),
        ProbeError::PermissionDenied(m) => s.append(m.as_str()),
    }
    s
}

} // verus!
