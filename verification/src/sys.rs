//! Trusted boundary to the operating system's socket-option calls.
//!
//! Everything here is believed, not proved: each wrapper makes exactly one
//! outside call against a connected TCP socket. Whether such a call succeeds
//! depends on the state of the socket and of the operating system, so no
//! wrapper promises success; the verified code states what holds of every
//! outcome.

use vstd::prelude::*;

verus! {

#[verifier::external_type_specification]
#[verifier::external_body]
pub struct ExTcpStream(tokio::net::TcpStream);

#[verifier::external_type_specification]
#[verifier::external_body]
pub struct ExIoError(std::io::Error);

#[verifier::external_type_specification]
#[verifier::external_body]
pub struct ExErrno(nix::errno::Errno);

/// Relies on tokio::net::TcpStream::set_nodelay: sets TCP_NODELAY on the
/// underlying socket to the given value.
#[verifier::external_body]
pub(crate) fn set_nodelay(stream: &tokio::net::TcpStream, on: bool) -> Result<(), std::io::Error> {
    stream.set_nodelay(on)
}

/// Relies on tokio::net::TcpStream::nodelay: reads the current TCP_NODELAY
/// value of the underlying socket.
#[verifier::external_body]
pub(crate) fn nodelay(stream: &tokio::net::TcpStream) -> Result<bool, std::io::Error> {
    stream.nodelay()
}

/// Relies on nix::sys::socket::setsockopt with sockopt::RcvBuf: sets SO_RCVBUF
/// on the underlying socket to the given number of bytes. A failure is
/// converted to the equivalent std::io::Error.
#[verifier::external_body]
pub(crate) fn set_recv_buffer_size(stream: &tokio::net::TcpStream, size: usize) -> Result<
    (),
    std::io::Error,
> {
    nix::sys::socket::setsockopt(stream, nix::sys::socket::sockopt::RcvBuf, &size)
        .map_err(std::io::Error::from)
}

/// Relies on nix::sys::socket::getsockopt with sockopt::RcvBuf: reads the
/// current SO_RCVBUF value of the underlying socket. A failure is converted
/// to the equivalent std::io::Error.
#[verifier::external_body]
pub(crate) fn recv_buffer_size(stream: &tokio::net::TcpStream) -> Result<usize, std::io::Error> {
    nix::sys::socket::getsockopt(stream, nix::sys::socket::sockopt::RcvBuf)
        .map_err(std::io::Error::from)
}

/// Relies on nix::sys::socket::setsockopt with sockopt::SndBuf: sets SO_SNDBUF
/// on the underlying socket to the given number of bytes. A failure is
/// converted to the equivalent std::io::Error.
#[verifier::external_body]
pub(crate) fn set_send_buffer_size(stream: &tokio::net::TcpStream, size: usize) -> Result<
    (),
    std::io::Error,
> {
    nix::sys::socket::setsockopt(stream, nix::sys::socket::sockopt::SndBuf, &size)
        .map_err(std::io::Error::from)
}

/// Relies on nix::sys::socket::getsockopt with sockopt::SndBuf: reads the
/// current SO_SNDBUF value of the underlying socket. A failure is converted
/// to the equivalent std::io::Error.
#[verifier::external_body]
pub(crate) fn send_buffer_size(stream: &tokio::net::TcpStream) -> Result<usize, std::io::Error> {
    nix::sys::socket::getsockopt(stream, nix::sys::socket::sockopt::SndBuf)
        .map_err(std::io::Error::from)
}

/// Relies on nix::sys::socket::setsockopt with sockopt::Mark: sets SO_MARK
/// on the underlying socket to the given value.
#[verifier::external_body]
pub(crate) fn set_mark(stream: &tokio::net::TcpStream, mark: u32) -> Result<
    (),
    nix::errno::Errno,
> {
    nix::sys::socket::setsockopt(stream, nix::sys::socket::sockopt::Mark, &mark)
}

/// Relies on nix::sys::socket::getsockopt with sockopt::Mark: reads the
/// current SO_MARK value of the underlying socket.
#[verifier::external_body]
pub(crate) fn get_mark(stream: &tokio::net::TcpStream) -> Result<u32, nix::errno::Errno> {
    nix::sys::socket::getsockopt(stream, nix::sys::socket::sockopt::Mark)
}

} // verus!
