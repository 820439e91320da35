//! The trusted boundary to the operating system: the native constants the
//! selector resolves to, and the raw socket-creation call itself. Every
//! contract in this module is believed, not proved; each doc comment names
//! the outside item it relies on.

use vstd::prelude::*;

verus! {

/// Relies on libc::AF_INET: the native IPv4 address-family constant,
/// defined as 2 on this target.
#[verifier::external_body]
pub(crate) fn af_inet() -> (r: i32)
    ensures
        r == 2,
{
    libc::AF_INET
}

/// Relies on libc::AF_INET6: the native IPv6 address-family constant,
/// defined as 10 on this target.
#[verifier::external_body]
pub(crate) fn af_inet6() -> (r: i32)
    ensures
        r == 10,
{
    libc::AF_INET6
}

/// Relies on nix::sys::socket::socket, which issues the raw creation call
/// for a datagram socket with the UDP protocol identifier and compares the
/// result against the failure sentinel (-1): on any other result it returns
/// that descriptor, which POSIX guarantees to be non-negative, and on the
/// sentinel it returns the calling thread's most recent OS error code. The
/// new socket is not bound to any local address or port. Also relies on
/// nix::sys::socket::AddressFamily::from_i32, which resolves 2 (`AF_INET`)
/// and 10 (`AF_INET6`) to the corresponding address family on this target.
#[verifier::external_body]
pub(crate) fn socket_dgram_udp(family: i32) -> (r: Result<i32, i32>)
    requires
        family == 2 || family == 10,
    ensures
        r matches Ok(fd) ==> fd >= 0,
{
    let af = match nix::sys::socket::AddressFamily::from_i32(family) {
        Some(af) => af,
        None => return Err(nix::errno::Errno::EAFNOSUPPORT as i32),
    };
    let created = nix::sys::socket::socket(
        af,
        nix::sys::socket::SockType::Datagram,
        nix::sys::socket::SockFlag::empty(),
        nix::sys::socket::SockProtocol::Udp,
    );
    match created {
        Ok(fd) => Ok(fd),
        Err(e) => Err(e as i32),
    }
}

} // verus!
