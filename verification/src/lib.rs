//! Creation of datagram (UDP) sockets that are deliberately left unbound.
//!
//! Callers who must set socket options before the bind step, or who want
//! full control over bind timing, need a socket that the operating system
//! has created but that carries no local address or port yet. This crate
//! supplies exactly that construction path: a closed [`Domain`] selector, a
//! verified mapping from the domain to the native address-family constant,
//! and a factory that issues the raw creation call and either hands the new
//! descriptor over as an owned [`SocketHandle`] or reports the OS failure
//! code as a [`SockError`]. The capability is exposed through the sealed
//! trait [`Unbounded`], so only this crate's own handle type can claim it.

use vstd::prelude::*;

mod sealing;
mod sys;

verus! {

/// The address family a socket will use.
#[derive(Clone, Copy)]
pub enum Domain {
    IpV4,
    Ipv6,
}

/// The native address-family constant that a domain selects, as the C
/// library defines it on this target: `AF_INET` is 2 for IPv4 and
/// `AF_INET6` is 10 for IPv6. The mapping is total: the enumeration is
/// closed and every variant resolves to exactly one constant.
pub open spec fn spec_family(domain: Domain) -> int {
    match domain {
        Domain::IpV4 => 2,
        Domain::Ipv6 => 10,
    }
}

/// Every domain resolves to one of the two supported native address
/// families; the selector has no error path.
pub proof fn lemma_family_supported(domain: Domain)
    ensures
        spec_family(domain) == 2 || spec_family(domain) == 10,
{
}

/// Distinct domains resolve to distinct native address families: the
/// selector never conflates the two supported families.
pub proof fn lemma_family_distinct(d1: Domain, d2: Domain)
    ensures
        spec_family(d1) == spec_family(d2) ==> d1 == d2,
{
}

/// Resolves a domain to the native address-family constant that the raw
/// creation call expects.
pub fn native_family(domain: &Domain) -> (r: i32)
    ensures
        r as int == spec_family(*domain),
{
    match domain {
        Domain::IpV4 => sys::af_inet(),
        Domain::Ipv6 => sys::af_inet6(),
    }
}

/// The uniform error: an OS-reported creation failure, carrying the
/// platform's numeric error code. No failure is recovered or retried
/// internally; every one is surfaced synchronously as this value.
#[derive(Clone, Copy, Debug, PartialEq, Eq, Structural)]
pub struct SockError {
    /// The platform's numeric code for the most recent error on the
    /// calling thread at the time the creation call failed.
    pub code: i32,
}

/// An exclusively owned handle to an open, unbound datagram socket.
///
/// A well-formed handle holds a real descriptor: the creation call either
/// returns one or fails, so no partially initialized handle is ever
/// observable. The handle does not bind, connect, or configure the socket;
/// it only carries ownership of the descriptor until the caller takes it
/// with [`SocketHandle::into_raw`].
pub struct SocketHandle {
    fd: i32,
}

impl SocketHandle {
    /// The owned descriptor, as a mathematical integer.
    pub closed spec fn fd_spec(&self) -> int {
        self.fd as int
    }

    /// A well-formed handle owns a non-negative descriptor, never the
    /// platform's failure sentinel (-1).
    pub open spec fn wf(&self) -> bool {
        self.fd_spec() >= 0
    }

    /// Observes the raw descriptor without giving up ownership of it.
    pub fn raw(&self) -> (r: i32)
        ensures
            r as int == self.fd_spec(),
    {
        self.fd
    }

    /// Transfers ownership of the raw descriptor to the caller, who is
    /// from then on responsible for releasing it.
    pub fn into_raw(self) -> (r: i32)
        ensures
            r as int == self.fd_spec(),
    {
        self.fd
    }
}

/// Classifies the outcome of a raw creation call. A returned descriptor
/// becomes an owned handle holding exactly that descriptor; a failure code
/// becomes the uniform error carrying exactly that code. There is no third
/// outcome and no partial state.
pub fn wrap_creation_result(raw: Result<i32, i32>) -> (r: Result<SocketHandle, SockError>)
    ensures
        (raw matches Ok(fd) ==> r matches Ok(h) && h.fd_spec() == fd as int),
        (raw matches Err(code) ==> r matches Err(e) && e.code == code),
{
    match raw {
        Ok(fd) => Ok(SocketHandle { fd }),
        Err(code) => Err(SockError { code }),
    }
}

/// The capability to obtain a socket that the operating system has created
/// but that is not yet bound to any local address or port.
///
/// The trait is sealed: outside code can call the operation but cannot
/// implement it, since the supertrait lives in a private module. That keeps
/// the capability tied to the one type whose creation protocol upholds the
/// well-formedness promise below.
pub trait Unbounded: sealing::Unbounded + Sized {
    /// Whether a value of the implementing type is a well-formed handle.
    spec fn handle_wf(&self) -> bool;

    /// Asks the operating system for one fresh, unbound datagram (UDP)
    /// socket of the given domain. On success the caller receives exclusive
    /// ownership of a well-formed handle; on failure the OS error code is
    /// surfaced, no resource is retained, and nothing is retried.
    fn unbounded(domain: Domain) -> (r: Result<Self, SockError>)
        ensures
            r matches Ok(h) ==> h.handle_wf(),
    ;
}

impl Unbounded for SocketHandle {
    open spec fn handle_wf(&self) -> bool {
        self.wf()
    }

    fn unbounded(domain: Domain) -> (r: Result<SocketHandle, SockError>) {
        proof {
            lemma_family_supported(domain);
        }
        let family = native_family(&domain);
        let raw = sys::socket_dgram_udp(family);
        wrap_creation_result(raw)
    }
}

} // verus!
