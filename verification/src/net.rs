//! Sockets of the GlobalPlatform TEE Sockets API: the errors of socket
//! calls, the setup of a connection, timeouts, and the generic socket that
//! sends and receives through an adapter.

use vstd::prelude::*;
use crate::defines::{TEE_ERROR_BAD_PARAMETERS, TEE_ERROR_CANCEL, TEE_ERROR_COMMUNICATION, TEE_ERROR_OUT_OF_MEMORY, TEE_ISOCKET_ERROR_HOSTNAME, TEE_ISOCKET_ERROR_LARGE_BUFFER, TEE_ISOCKET_ERROR_OUT_OF_RESOURCES, TEE_ISOCKET_ERROR_PROTOCOL, TEE_ISOCKET_ERROR_REMOTE_CLOSED, TEE_ISOCKET_ERROR_TIMEOUT, TEE_ISOCKET_WARNING_PROTOCOL, TEE_TIMEOUT_INFINITE};
use crate::error::{Error, ErrorKind, Result, is_kind_error, kind_from_code, kind_message};
use crate::text::{dec_digits, hex_padded, push_decimal, push_hex_padded, push_str};

verus! {

/// Why a socket call failed.
#[derive(Clone, Copy, Debug, PartialEq, Eq, Structural)]
pub enum SocketError {
    ErrorProtocol(u32),
    RemoteClosed,
    Timeout,
    OutOfResource,
    WarningProtocol(u32),
    LargeBuffer,
    Hostname,
    Tee(ErrorKind),
    Unknown(u32),
}

/// The socket error of a status code, with the protocol error that came
/// with it.
pub open spec fn socket_error_of(code: u32, protocol_error: u32) -> SocketError {
    if code == TEE_ISOCKET_ERROR_PROTOCOL {
        SocketError::ErrorProtocol(protocol_error)
    } else if code == TEE_ISOCKET_ERROR_REMOTE_CLOSED {
        SocketError::RemoteClosed
    } else if code == TEE_ISOCKET_ERROR_TIMEOUT {
        SocketError::Timeout
    } else if code == TEE_ISOCKET_ERROR_OUT_OF_RESOURCES {
        SocketError::OutOfResource
    } else if code == TEE_ISOCKET_ERROR_LARGE_BUFFER {
        SocketError::LargeBuffer
    } else if code == TEE_ISOCKET_WARNING_PROTOCOL {
        SocketError::WarningProtocol(protocol_error)
    } else if code == TEE_ISOCKET_ERROR_HOSTNAME {
        SocketError::Hostname
    } else if code == TEE_ERROR_CANCEL || code == TEE_ERROR_COMMUNICATION || code
        == TEE_ERROR_OUT_OF_MEMORY || code == TEE_ERROR_BAD_PARAMETERS {
        SocketError::Tee(kind_from_code(code))
    } else {
        SocketError::Unknown(code)
    }
}

/// The kind of I/O error that a socket error becomes.
#[derive(Clone, Copy, Debug, PartialEq, Eq, Structural)]
pub enum IoErrorKind {
    Other,
    ConnectionAborted,
    TimedOut,
    OutOfMemory,
    Interrupted,
}

/// The kind of I/O error of a socket error.
pub open spec fn io_kind_of(e: SocketError) -> IoErrorKind {
    match e {
        SocketError::RemoteClosed => IoErrorKind::ConnectionAborted,
        SocketError::Timeout => IoErrorKind::TimedOut,
        SocketError::Tee(ErrorKind::OutOfMemory) => IoErrorKind::OutOfMemory,
        _ => IoErrorKind::Other,
    }
}

/// The message of the I/O error of a socket error: the name of the status,
/// with the protocol error or code in eight upper-case hexadecimal digits.
pub open spec fn io_message_of(e: SocketError) -> Seq<char> {
    match e {
        SocketError::ErrorProtocol(p) => "TEE_ISOCKET_ERROR_PROTOCOL: 0x"@ + hex_padded(p as nat, 8, true),
        SocketError::RemoteClosed => "TEE_ISOCKET_ERROR_REMOTE_CLOSED"@,
        SocketError::Timeout => "TEE_ISOCKET_ERROR_TIMEOUT"@,
        SocketError::OutOfResource => "TEE_ISOCKET_ERROR_OUT_OF_RESOURCES"@,
        SocketError::LargeBuffer => "TEE_ISOCKET_ERROR_LARGE_BUFFER"@,
        SocketError::WarningProtocol(p) => "TEE_ISOCKET_WARNING_PROTOCOL: 0x"@ + hex_padded(p as nat, 8, true),
        SocketError::Hostname => "TEE_ISOCKET_ERROR_HOSTNAME"@,
        SocketError::Tee(k) => if k == ErrorKind::OutOfMemory {
            "TEE_ERROR_OUT_OF_MEMORY"@
        } else {
            kind_message(k)
        },
        SocketError::Unknown(c) => "Unknown: "@ + hex_padded(c as nat, 8, true),
    }
}

impl SocketError {
    /// The socket error of a status code, with the protocol error that came
    /// with it.
    pub fn from_raw_error(code: u32, protocol_error: u32) -> (e: SocketError)
        ensures
            e == socket_error_of(code, protocol_error),
    {
        if code == TEE_ISOCKET_ERROR_PROTOCOL {
            SocketError::ErrorProtocol(protocol_error)
        } else if code == TEE_ISOCKET_ERROR_REMOTE_CLOSED {
            SocketError::RemoteClosed
        } else if code == TEE_ISOCKET_ERROR_TIMEOUT {
            SocketError::Timeout
        } else if code == TEE_ISOCKET_ERROR_OUT_OF_RESOURCES {
            SocketError::OutOfResource
        } else if code == TEE_ISOCKET_ERROR_LARGE_BUFFER {
            SocketError::LargeBuffer
        } else if code == TEE_ISOCKET_WARNING_PROTOCOL {
            SocketError::WarningProtocol(protocol_error)
        } else if code == TEE_ISOCKET_ERROR_HOSTNAME {
            SocketError::Hostname
        } else if code == TEE_ERROR_CANCEL || code == TEE_ERROR_COMMUNICATION || code
            == TEE_ERROR_OUT_OF_MEMORY || code == TEE_ERROR_BAD_PARAMETERS {
            SocketError::Tee(Error::from_raw_error(code).kind())
        } else {
            SocketError::Unknown(code)
        }
    }

    /// The socket error of a TEE error: its kind.
    pub fn from_error(e: Error) -> (s: SocketError)
        ensures
            s == SocketError::Tee(e.spec_kind()),
    {
        SocketError::Tee(e.kind())
    }

    /// The kind of I/O error that this error becomes.
    pub fn io_kind(&self) -> (k: IoErrorKind)
        ensures
            k == io_kind_of(*self),
    {
        match self {
            SocketError::RemoteClosed => IoErrorKind::ConnectionAborted,
            SocketError::Timeout => IoErrorKind::TimedOut,
            SocketError::Tee(ErrorKind::OutOfMemory) => IoErrorKind::OutOfMemory,
            _ => IoErrorKind::Other,
        }
    }

    /// The message of the I/O error that this error becomes.
    pub fn io_message(&self) -> (s: String)
        ensures
            s@ == io_message_of(*self),
    {
        let mut s = String::new();
        match self {
            SocketError::ErrorProtocol(p) => {
                push_str(&mut s, "TEE_ISOCKET_ERROR_PROTOCOL: 0x");
                push_hex_padded(&mut s, *p as u64, 8, true);
            },
            SocketError::RemoteClosed => push_str(&mut s, "TEE_ISOCKET_ERROR_REMOTE_CLOSED"),
            SocketError::Timeout => push_str(&mut s, "TEE_ISOCKET_ERROR_TIMEOUT"),
            SocketError::OutOfResource => push_str(&mut s, "TEE_ISOCKET_ERROR_OUT_OF_RESOURCES"),
            SocketError::LargeBuffer => push_str(&mut s, "TEE_ISOCKET_ERROR_LARGE_BUFFER"),
            SocketError::WarningProtocol(p) => {
                push_str(&mut s, "TEE_ISOCKET_WARNING_PROTOCOL: 0x");
                push_hex_padded(&mut s, *p as u64, 8, true);
            },
            SocketError::Hostname => push_str(&mut s, "TEE_ISOCKET_ERROR_HOSTNAME"),
            SocketError::Tee(k) => {
                if *k == ErrorKind::OutOfMemory {
                    push_str(&mut s, "TEE_ERROR_OUT_OF_MEMORY");
                } else {
                    push_str(&mut s, k.as_str());
                }
            },
            SocketError::Unknown(c) => {
                push_str(&mut s, "Unknown: ");
                push_hex_padded(&mut s, *c as u64, 8, true);
            },
        }
        assert(s@ =~= io_message_of(*self));
        s
    }
}

/// A socket call that failed with `code`: for a protocol error or warning
/// the TEE is asked for the protocol error, which comes with it.
pub open spec fn is_protocol_code(code: u32) -> bool {
    code == TEE_ISOCKET_ERROR_PROTOCOL || code == TEE_ISOCKET_WARNING_PROTOCOL
}

/// Whether a socket call that failed with `code` calls for the protocol
/// error of the handle.
pub fn needs_protocol_error(code: u32) -> (b: bool)
    ensures
        b == is_protocol_code(code),
{
    code == TEE_ISOCKET_ERROR_PROTOCOL || code == TEE_ISOCKET_WARNING_PROTOCOL
}

/// The error of a send or receive that failed with `code`; `protocol_error`
/// is what the TEE reported for the handle where the code calls for it.
pub fn socket_operation_error(code: u32, protocol_error: u32) -> (e: SocketError)
    ensures
        is_protocol_code(code) ==> e == socket_error_of(code, protocol_error),
        !is_protocol_code(code) ==> e == socket_error_of(code, 0),
{
    if code == TEE_ISOCKET_ERROR_PROTOCOL {
        SocketError::ErrorProtocol(protocol_error)
    } else if code == TEE_ISOCKET_WARNING_PROTOCOL {
        SocketError::WarningProtocol(protocol_error)
    } else {
        SocketError::from_raw_error(code, 0)
    }
}

/// A call of a stream that talks to the TEE's sockets directly.
#[derive(Clone, Copy, Debug, PartialEq, Eq, Structural)]
pub enum StreamCall {
    Open,
    Recv,
    Send,
}

/// The I/O error of a stream call that failed with `status`: its kind and
/// message; `None` for a status that the call is not expected to return.
pub open spec fn stream_error_of(call: StreamCall, status: u32, protocol_error: u32) -> Option<(IoErrorKind, Seq<char>)> {
    if status == TEE_ERROR_CANCEL {
        Some((IoErrorKind::Interrupted, "TEE_ERROR_CANCEL"@))
    } else if status == TEE_ISOCKET_ERROR_TIMEOUT {
        Some((IoErrorKind::TimedOut, "TEE_ISOCKET_ERROR_TIMEOUT"@))
    } else if status == TEE_ISOCKET_ERROR_PROTOCOL {
        Some((IoErrorKind::Other, "TEE_ISOCKET_ERROR_PROTOCOL"@))
    } else if status == TEE_ISOCKET_WARNING_PROTOCOL {
        Some(
            (
                IoErrorKind::Other,
                if call == StreamCall::Open {
                    "TEE_ISOCKET_WARNING_PROTOCOL: "@ + dec_digits(protocol_error as nat)
                } else {
                    "TEE_ISOCKET_WARNING_PROTOCOL"@
                },
            ),
        )
    } else if status == TEE_ERROR_COMMUNICATION && call != StreamCall::Send {
        Some((IoErrorKind::ConnectionAborted, "TEE_ERROR_COMMUNICATION"@))
    } else if status == TEE_ISOCKET_ERROR_REMOTE_CLOSED && call != StreamCall::Open {
        Some((IoErrorKind::ConnectionAborted, "TEE_ISOCKET_ERROR_REMOTE_CLOSED"@))
    } else if status == TEE_ERROR_OUT_OF_MEMORY && call == StreamCall::Open {
        Some((IoErrorKind::Other, "TEE_ERROR_OUT_OF_MEMORY"@))
    } else if status == TEE_ERROR_BAD_PARAMETERS && call == StreamCall::Open {
        Some((IoErrorKind::Other, "TEE_ERROR_BAD_PARAMETERS"@))
    } else if status == TEE_ISOCKET_ERROR_LARGE_BUFFER && call == StreamCall::Send {
        Some((IoErrorKind::Other, "TEE_ISOCKET_ERROR_LARGE_BUFFER"@))
    } else {
        None
    }
}

/// The I/O error of a stream call that failed with `status`; `None` for a
/// status that the call is not expected to return (a stream stops there).
pub fn stream_error(call: StreamCall, status: u32, protocol_error: u32) -> (r: Option<(IoErrorKind, String)>)
    ensures
        match stream_error_of(call, status, protocol_error) {
            Some((k, m)) => r matches Some((k2, m2)) && k2 == k && m2@ == m,
            None => r is None,
        },
{
    let mut m = String::new();
    let kind = if status == TEE_ERROR_CANCEL {
        push_str(&mut m, "TEE_ERROR_CANCEL");
        IoErrorKind::Interrupted
    } else if status == TEE_ISOCKET_ERROR_TIMEOUT {
        push_str(&mut m, "TEE_ISOCKET_ERROR_TIMEOUT");
        IoErrorKind::TimedOut
    } else if status == TEE_ISOCKET_ERROR_PROTOCOL {
        push_str(&mut m, "TEE_ISOCKET_ERROR_PROTOCOL");
        IoErrorKind::Other
    } else if status == TEE_ISOCKET_WARNING_PROTOCOL {
        if call == StreamCall::Open {
            push_str(&mut m, "TEE_ISOCKET_WARNING_PROTOCOL: ");
            push_decimal(&mut m, protocol_error as u64);
        } else {
            push_str(&mut m, "TEE_ISOCKET_WARNING_PROTOCOL");
        }
        IoErrorKind::Other
    } else if status == TEE_ERROR_COMMUNICATION && call != StreamCall::Send {
        push_str(&mut m, "TEE_ERROR_COMMUNICATION");
        IoErrorKind::ConnectionAborted
    } else if status == TEE_ISOCKET_ERROR_REMOTE_CLOSED && call != StreamCall::Open {
        push_str(&mut m, "TEE_ISOCKET_ERROR_REMOTE_CLOSED");
        IoErrorKind::ConnectionAborted
    } else if status == TEE_ERROR_OUT_OF_MEMORY && call == StreamCall::Open {
        push_str(&mut m, "TEE_ERROR_OUT_OF_MEMORY");
        IoErrorKind::Other
    } else if status == TEE_ERROR_BAD_PARAMETERS && call == StreamCall::Open {
        push_str(&mut m, "TEE_ERROR_BAD_PARAMETERS");
        IoErrorKind::Other
    } else if status == TEE_ISOCKET_ERROR_LARGE_BUFFER && call == StreamCall::Send {
        push_str(&mut m, "TEE_ISOCKET_ERROR_LARGE_BUFFER");
        IoErrorKind::Other
    } else {
        return None;
    };
    let ghost expected = stream_error_of(call, status, protocol_error).unwrap();
    assert(m@ =~= expected.1);
    Some((kind, m))
}

/// The version of the Internet Protocol of a connection.
#[derive(Clone, Copy, Debug, PartialEq, Eq, Structural)]
pub enum IpVersion {
    V4,
    V6,
}

/// The address contains the character zero.
pub open spec fn has_nul(s: Seq<char>) -> bool {
    exists|i: int| 0 <= i < s.len() && s[i] == '\0'
}

/// The target of a connection: an address, a port and the IP version.
pub struct Setup {
    addr: String,
    port: u16,
    version: IpVersion,
}

impl Setup {
    pub closed spec fn spec_addr(&self) -> Seq<char> {
        self.addr@
    }

    pub closed spec fn spec_port(&self) -> u16 {
        self.port
    }

    pub closed spec fn spec_version(&self) -> IpVersion {
        self.version
    }

    /// The target `addr`, `port` of the version; an address with a zero
    /// character in it is `BadParameters`.
    pub fn new(addr: &str, port: u16, version: IpVersion) -> (r: Result<Setup>)
        ensures
            r is Ok <==> !has_nul(addr@),
            r matches Ok(s) ==> s.spec_addr() == addr@ && s.spec_port() == port && s.spec_version()
                == version,
            r matches Err(e) ==> is_kind_error(e, ErrorKind::BadParameters),
    {
        let n = addr.unicode_len();
        let mut i: usize = 0;
        while i < n
            invariant
                i <= n,
                n == addr@.len(),
                forall|k: int| 0 <= k < i ==> addr@[k] != '\0',
            decreases n - i,
        {
            if addr.get_char(i) == '\0' {
                return Err(Error::from_kind(ErrorKind::BadParameters));
            }
            i = i + 1;
        }
        Ok(Setup { addr: addr.to_owned(), port, version })
    }

    /// An IPv4 target.
    pub fn new_v4(addr: &str, port: u16) -> (r: Result<Setup>)
        ensures
            r is Ok <==> !has_nul(addr@),
            r matches Ok(s) ==> s.spec_addr() == addr@ && s.spec_port() == port && s.spec_version()
                == IpVersion::V4,
            r matches Err(e) ==> is_kind_error(e, ErrorKind::BadParameters),
    {
        Self::new(addr, port, IpVersion::V4)
    }

    /// An IPv6 target.
    pub fn new_v6(addr: &str, port: u16) -> (r: Result<Setup>)
        ensures
            r is Ok <==> !has_nul(addr@),
            r matches Ok(s) ==> s.spec_addr() == addr@ && s.spec_port() == port && s.spec_version()
                == IpVersion::V6,
            r matches Err(e) ==> is_kind_error(e, ErrorKind::BadParameters),
    {
        Self::new(addr, port, IpVersion::V6)
    }

    /// The address.
    pub fn addr(&self) -> (s: &str)
        ensures
            s@ == self.spec_addr(),
    {
        self.addr.as_str()
    }

    /// The port.
    pub fn port(&self) -> (p: u16)
        ensures
            p == self.spec_port(),
    {
        self.port
    }

    /// The IP version.
    pub fn version(&self) -> (v: IpVersion)
        ensures
            v == self.spec_version(),
    {
        self.version
    }
}

/// The whole milliseconds of a duration, as `Duration::as_millis` gives
/// them.
pub uninterp spec fn duration_millis(d: core::time::Duration) -> u128;

/// Calls `Duration::as_millis`: the whole milliseconds of the duration.
#[verifier::external_body]
fn as_millis(d: &core::time::Duration) -> (m: u128)
    ensures
        m == duration_millis(*d),
{
    d.as_millis()
}

/// The timeout of a number of milliseconds, `None` standing for no timeout:
/// more milliseconds than 32 bits hold is `BadParameters`.
pub fn timeout_of_millis(milliseconds: Option<u128>) -> (r: Result<u32>)
    ensures
        milliseconds is None ==> r == Ok::<u32, Error>(TEE_TIMEOUT_INFINITE),
        milliseconds matches Some(m) ==> (m <= u32::MAX ==> r == Ok::<u32, Error>(m as u32)),
        milliseconds matches Some(m) ==> (m > u32::MAX ==> (r matches Err(e) && is_kind_error(
            e,
            ErrorKind::BadParameters,
        ))),
{
    match milliseconds {
        None => Ok(TEE_TIMEOUT_INFINITE),
        Some(m) => {
            if m > (u32::MAX as u128) {
                return Err(Error::from_kind(ErrorKind::BadParameters));
            }
            Ok(m as u32)
        },
    }
}

/// The timeout of a duration, `None` standing for no timeout.
pub fn convert_duration_option_to_timeout(dur: Option<core::time::Duration>) -> (r: Result<u32>)
    ensures
        dur is None ==> r == Ok::<u32, Error>(TEE_TIMEOUT_INFINITE),
        dur matches Some(d) ==> (duration_millis(d) <= u32::MAX ==> r == Ok::<u32, Error>(
            duration_millis(d) as u32,
        )),
        dur matches Some(d) ==> (duration_millis(d) > u32::MAX ==> (r matches Err(e)
            && is_kind_error(e, ErrorKind::BadParameters))),
{
    match dur {
        None => timeout_of_millis(None),
        Some(d) => timeout_of_millis(Some(as_millis(&d))),
    }
}

/// An implementation of the TEE Sockets API for one protocol: how a
/// connection is set up, and how data is sent and received over it.
pub trait SocketAdapter: Sized {
    type Setup;
    type Handle;

    /// Opens a connection.
    fn open(setup: Self::Setup) -> core::result::Result<Self::Handle, SocketError>;

    /// Sends the first bytes of `buf`, waiting at most `timeout`
    /// milliseconds, and says how many it sent.
    fn send(handle: &mut Self::Handle, buf: &[u8], timeout: u32) -> (r: core::result::Result<usize, SocketError>)
        ensures
            r matches Ok(n) ==> n <= buf@.len(),
    ;

    /// Receives bytes into the start of `buf`, waiting at most `timeout`
    /// milliseconds, and says how many it received.
    fn recv(handle: &mut Self::Handle, buf: &mut [u8], timeout: u32) -> (r: core::result::Result<usize, SocketError>)
        ensures
            final(buf)@.len() == old(buf)@.len(),
            r matches Ok(n) ==> n <= old(buf)@.len(),
    ;
}

/// A connection, with the timeouts of its sends and receives, and the
/// bytes sent and received over it so far.
pub struct Socket<T: SocketAdapter> {
    handle: T::Handle,
    recv_timeout: u32,
    send_timeout: u32,
    sent: Ghost<Seq<u8>>,
    received: Ghost<Seq<u8>>,
}

impl<T: SocketAdapter> Socket<T> {
    pub closed spec fn spec_handle(&self) -> T::Handle {
        self.handle
    }

    pub closed spec fn spec_recv_timeout(&self) -> u32 {
        self.recv_timeout
    }

    pub closed spec fn spec_send_timeout(&self) -> u32 {
        self.send_timeout
    }

    /// The bytes that the adapter took from the sends of this socket.
    pub closed spec fn spec_sent(&self) -> Seq<u8> {
        self.sent@
    }

    /// The bytes that the adapter handed to the receives of this socket.
    pub closed spec fn spec_received(&self) -> Seq<u8> {
        self.received@
    }

    /// The socket of an open connection, with no timeouts.
    pub fn from_handle(handle: T::Handle) -> (s: Socket<T>)
        ensures
            s.spec_handle() == handle,
            s.spec_recv_timeout() == TEE_TIMEOUT_INFINITE,
            s.spec_send_timeout() == TEE_TIMEOUT_INFINITE,
            s.spec_sent() == Seq::<u8>::empty(),
            s.spec_received() == Seq::<u8>::empty(),
    {
        Socket {
            handle,
            recv_timeout: TEE_TIMEOUT_INFINITE,
            send_timeout: TEE_TIMEOUT_INFINITE,
            sent: Ghost(Seq::empty()),
            received: Ghost(Seq::empty()),
        }
    }

    /// `r` is what opening `setup` gives: the socket of the handle that the
    /// adapter's `open` returned, with no timeouts and nothing sent or
    /// received, or the adapter's error as it came.
    pub open spec fn opened_from(setup: T::Setup, r: core::result::Result<Socket<T>, SocketError>) -> bool {
        &&& r matches Ok(s) ==> call_ensures(T::open, (setup,), Ok(s.spec_handle()))
            && s.spec_recv_timeout() == TEE_TIMEOUT_INFINITE && s.spec_send_timeout()
            == TEE_TIMEOUT_INFINITE && s.spec_sent() == Seq::<u8>::empty() && s.spec_received()
            == Seq::<u8>::empty()
        &&& r matches Err(e) ==> call_ensures(T::open, (setup,), Err(e))
    }

    /// Opens a connection with no timeouts; fails as the adapter's `open`
    /// fails.
    pub fn open(setup: T::Setup) -> (r: core::result::Result<Socket<T>, SocketError>)
        ensures
            Self::opened_from(setup, r),
    {
        match T::open(setup) {
            Ok(handle) => Ok(Self::from_handle(handle)),
            Err(e) => Err(e),
        }
    }

    /// Sets the timeout of receives.
    pub fn set_recv_timeout_in_milli(&mut self, milliseconds: u32)
        ensures
            final(self).spec_recv_timeout() == milliseconds,
            final(self).spec_send_timeout() == old(self).spec_send_timeout(),
            final(self).spec_handle() == old(self).spec_handle(),
            final(self).spec_sent() == old(self).spec_sent(),
            final(self).spec_received() == old(self).spec_received(),
    {
        self.recv_timeout = milliseconds;
    }

    /// Sets the timeout of sends.
    pub fn set_send_timeout_in_milli(&mut self, milliseconds: u32)
        ensures
            final(self).spec_send_timeout() == milliseconds,
            final(self).spec_recv_timeout() == old(self).spec_recv_timeout(),
            final(self).spec_handle() == old(self).spec_handle(),
            final(self).spec_sent() == old(self).spec_sent(),
            final(self).spec_received() == old(self).spec_received(),
    {
        self.send_timeout = milliseconds;
    }

    /// Sets the timeout of receives to the duration, or to none; a duration
    /// of more milliseconds than 32 bits hold is `BadParameters` and changes
    /// nothing.
    pub fn set_recv_timeout(&mut self, dur: Option<core::time::Duration>) -> (r: Result<()>)
        ensures
            final(self).spec_send_timeout() == old(self).spec_send_timeout(),
            final(self).spec_handle() == old(self).spec_handle(),
            dur is None ==> r is Ok && final(self).spec_recv_timeout() == TEE_TIMEOUT_INFINITE,
            dur matches Some(d) ==> (duration_millis(d) <= u32::MAX ==> r is Ok
                && final(self).spec_recv_timeout() == duration_millis(d) as u32),
            dur matches Some(d) ==> (duration_millis(d) > u32::MAX ==> (r matches Err(e)
                && is_kind_error(e, ErrorKind::BadParameters) && final(self).spec_recv_timeout()
                == old(self).spec_recv_timeout())),
    {
        match convert_duration_option_to_timeout(dur) {
            Ok(milliseconds) => {
                self.set_recv_timeout_in_milli(milliseconds);
                Ok(())
            },
            Err(e) => Err(e),
        }
    }

    /// Sets the timeout of sends to the duration, or to none; a duration of
    /// more milliseconds than 32 bits hold is `BadParameters` and changes
    /// nothing.
    pub fn set_send_timeout(&mut self, dur: Option<core::time::Duration>) -> (r: Result<()>)
        ensures
            final(self).spec_recv_timeout() == old(self).spec_recv_timeout(),
            final(self).spec_handle() == old(self).spec_handle(),
            dur is None ==> r is Ok && final(self).spec_send_timeout() == TEE_TIMEOUT_INFINITE,
            dur matches Some(d) ==> (duration_millis(d) <= u32::MAX ==> r is Ok
                && final(self).spec_send_timeout() == duration_millis(d) as u32),
            dur matches Some(d) ==> (duration_millis(d) > u32::MAX ==> (r matches Err(e)
                && is_kind_error(e, ErrorKind::BadParameters) && final(self).spec_send_timeout()
                == old(self).spec_send_timeout())),
    {
        match convert_duration_option_to_timeout(dur) {
            Ok(milliseconds) => {
                self.set_send_timeout_in_milli(milliseconds);
                Ok(())
            },
            Err(e) => Err(e),
        }
    }

    /// Sends the first bytes of `buf`: the adapter's `send` is called once,
    /// on the handle, `buf` and the send timeout, and what it returns is
    /// returned.
    pub fn send(&mut self, buf: &[u8]) -> (r: core::result::Result<usize, SocketError>)
        ensures
            final(self).spec_recv_timeout() == old(self).spec_recv_timeout(),
            final(self).spec_send_timeout() == old(self).spec_send_timeout(),
            final(self).spec_received() == old(self).spec_received(),
            r matches Ok(n) ==> n <= buf@.len() && final(self).spec_sent() == old(self).spec_sent()
                + buf@.take(n as int),
            r is Err ==> final(self).spec_sent() == old(self).spec_sent(),
            exists|a: (&mut T::Handle, &[u8], u32)|
                #![trigger call_ensures(T::send, a, r)]
                call_ensures(T::send, a, r) && a.2 == old(self).spec_send_timeout()
                    && mut_ref_current(a.0) == old(self).spec_handle() && mut_ref_future(a.0)
                    == final(self).spec_handle() && a.1@ == buf@,
    {
        let r = T::send(&mut self.handle, buf, self.send_timeout);
        if let Ok(n) = r {
            proof {
                self.sent = Ghost(self.sent@ + buf@.take(n as int));
            }
        }
        r
    }

    /// Receives bytes into the start of `buf`: the adapter's `recv` is
    /// called once, on the handle, `buf` and the receive timeout, and what
    /// it returns is returned.
    pub fn recv(&mut self, buf: &mut [u8]) -> (r: core::result::Result<usize, SocketError>)
        ensures
            final(self).spec_recv_timeout() == old(self).spec_recv_timeout(),
            final(self).spec_send_timeout() == old(self).spec_send_timeout(),
            final(buf)@.len() == old(buf)@.len(),
            final(self).spec_sent() == old(self).spec_sent(),
            r matches Ok(n) ==> n <= old(buf)@.len() && final(self).spec_received()
                == old(self).spec_received() + final(buf)@.take(n as int),
            r is Err ==> final(self).spec_received() == old(self).spec_received(),
            exists|a: (&mut T::Handle, &mut [u8], u32)|
                #![trigger call_ensures(T::recv, a, r)]
                call_ensures(T::recv, a, r) && a.2 == old(self).spec_recv_timeout()
                    && mut_ref_current(a.0) == old(self).spec_handle() && mut_ref_future(a.0)
                    == final(self).spec_handle() && a.1@ == old(buf)@ && final(a.1)@ == final(buf)@,
    {
        let r = T::recv(&mut self.handle, buf, self.recv_timeout);
        if let Ok(n) = r {
            proof {
                self.received = Ghost(self.received@ + buf@.take(n as int));
            }
        }
        r
    }
}

/// Connecting to an address and port, as the standard library's streams do.
pub trait StdCompatConnect: Sized {
    /// What a connection to `address` and `port` over `version` gives.
    spec fn connects(
        address: Seq<char>,
        port: u16,
        version: IpVersion,
        r: core::result::Result<Self, SocketError>,
    ) -> bool;

    /// Connects over IPv4.
    fn connect_v4(address: &str, port: u16) -> (r: core::result::Result<Self, SocketError>)
        ensures
            Self::connects(address@, port, IpVersion::V4, r),
    ;

    /// Connects over IPv6.
    fn connect_v6(address: &str, port: u16) -> (r: core::result::Result<Self, SocketError>)
        ensures
            Self::connects(address@, port, IpVersion::V6, r),
    ;

    /// Connects over IPv4.
    fn connect(address: &str, port: u16) -> (r: core::result::Result<Self, SocketError>)
        ensures
            Self::connects(address@, port, IpVersion::V4, r),
    {
        Self::connect_v4(address, port)
    }
}

/// Writing, as the standard library's streams do.
pub trait StdCompatWrite {
    /// The bytes written so far.
    spec fn written(&self) -> Seq<u8>;

    /// Writes the first bytes of `buf`, and says how many it wrote.
    fn write(&mut self, buf: &[u8]) -> (r: core::result::Result<usize, SocketError>)
        ensures
            r matches Ok(n) ==> n <= buf@.len() && final(self).written() == old(self).written()
                + buf@.take(n as int),
            r is Err ==> final(self).written() == old(self).written(),
    ;

    /// Writes all of `buf`, write after write, each of what is left. It stops
    /// at the first write that fails, with that write's error, or that writes
    /// nothing, with `Tee(Generic)`.
    fn write_all(&mut self, buf: &[u8]) -> (r: core::result::Result<(), SocketError>)
        ensures
            r is Ok ==> final(self).written() == old(self).written() + buf@,
            r is Err ==> exists|k: int|
                0 <= k < buf@.len() && final(self).written() == old(self).written() + buf@.take(k),
            r matches Err(e) ==> exists|a: (&mut Self, &[u8])|
                {
                    &&& call_ensures(Self::write, a, Ok::<usize, SocketError>(0)) && e
                        == SocketError::Tee(ErrorKind::Generic) || call_ensures(
                        Self::write,
                        a,
                        Err::<usize, SocketError>(e),
                    )
                    &&& 0 < a.1@.len() <= buf@.len()
                    &&& a.1@ == buf@.skip(buf@.len() - a.1@.len())
                    &&& a.0.written() == old(self).written() + buf@.take(buf@.len() - a.1@.len())
                    &&& final(a.0).written() == final(self).written()
                },
            buf@.len() == 0 ==> r is Ok,
    {
        let ghost w0 = self.written();
        let ghost mut done: Seq<u8> = Seq::empty();
        let mut rest: &[u8] = buf;
        while rest.len() > 0
            invariant
                buf@ == done + rest@,
                self.written() == w0 + done,
                w0 == old(self).written(),
            decreases rest@.len(),
        {
            match self.write(rest) {
                Ok(n) => {
                    if n == 0 {
                        proof {
                            assert(buf@.take(done.len() as int) =~= done);
                            assert(self.written() == w0 + buf@.take(done.len() as int));
                        }
                        return Err(SocketError::Tee(ErrorKind::Generic));
                    }
                    let (head, tail) = rest.split_at(n);
                    proof {
                        assert(rest@ =~= head@ + tail@);
                        done = done + head@;
                    }
                    rest = tail;
                },
                Err(e) => {
                    proof {
                        assert(buf@.take(done.len() as int) =~= done);
                        assert(self.written() == w0 + buf@.take(done.len() as int));
                    }
                    return Err(e);
                },
            }
        }
        assert(buf@ =~= done);
        Ok(())
    }
}

/// Reading, as the standard library's streams do.
pub trait StdCompatRead {
    /// The bytes read so far.
    spec fn read_so_far(&self) -> Seq<u8>;

    /// Reads bytes into the start of `buf`, and says how many it read.
    fn read(&mut self, buf: &mut [u8]) -> (r: core::result::Result<usize, SocketError>)
        ensures
            final(buf)@.len() == old(buf)@.len(),
            r matches Ok(n) ==> n <= old(buf)@.len() && final(self).read_so_far() == old(
                self,
            ).read_so_far() + final(buf)@.take(n as int),
            r is Err ==> final(self).read_so_far() == old(self).read_so_far(),
    ;

    /// Fills all of `buf`, read after read, each into what is left. It stops
    /// at the first read that fails, with that read's error, or that reads
    /// nothing, with `Tee(Generic)`.
    fn read_exact(&mut self, buf: &mut [u8]) -> (r: core::result::Result<(), SocketError>)
        ensures
            final(buf)@.len() == old(buf)@.len(),
            r is Ok ==> final(self).read_so_far() == old(self).read_so_far() + final(buf)@,
            r is Err ==> exists|k: int|
                0 <= k < old(buf)@.len() && final(self).read_so_far() == old(self).read_so_far()
                    + final(buf)@.take(k),
            r matches Err(e) ==> exists|a: (&mut Self, &mut [u8])|
                {
                    &&& call_ensures(Self::read, a, Ok::<usize, SocketError>(0)) && e
                        == SocketError::Tee(ErrorKind::Generic) || call_ensures(
                        Self::read,
                        a,
                        Err::<usize, SocketError>(e),
                    )
                    &&& 0 < a.1@.len() <= old(buf)@.len()
                    &&& final(a.1)@ == final(buf)@.skip(final(buf)@.len() - a.1@.len())
                    &&& a.0.read_so_far() == old(self).read_so_far() + final(buf)@.take(
                        final(buf)@.len() - a.1@.len(),
                    )
                    &&& final(a.0).read_so_far() == final(self).read_so_far()
                },
            old(buf)@.len() == 0 ==> r is Ok,
    {
        let ghost r0 = self.read_so_far();
        let ghost mut done: Seq<u8> = Seq::empty();
        let ghost len0 = buf@.len();
        let mut rest = buf;
        while rest.len() > 0
            invariant
                final(buf)@ == done + final(rest)@,
                done.len() + rest@.len() == len0,
                self.read_so_far() == r0 + done,
                len0 == old(buf)@.len(),
                r0 == old(self).read_so_far(),
            decreases rest@.len(),
        {
            match self.read(rest) {
                Ok(n) => {
                    if n == 0 {
                        proof {
                            assert(final(rest)@.len() == rest@.len());
                            assert(final(buf)@.take(done.len() as int) =~= done);
                            assert(self.read_so_far() == r0 + final(buf)@.take(done.len() as int));
                        }
                        return Err(SocketError::Tee(ErrorKind::Generic));
                    }
                    let (head, tail) = rest.split_at_mut(n);
                    proof {
                        done = done + head@;
                    }
                    rest = tail;
                },
                Err(e) => {
                    proof {
                        assert(final(rest)@.len() == rest@.len());
                        assert(final(buf)@.take(done.len() as int) =~= done);
                        assert(self.read_so_far() == r0 + final(buf)@.take(done.len() as int));
                    }
                    return Err(e);
                },
            }
        }
        Ok(())
    }
}

impl<T: SocketAdapter<Setup = Setup>> StdCompatConnect for Socket<T> {
    /// An address holding a NUL is `Tee(BadParameters)`; any other is
    /// opened as the target of that address, port and version.
    open spec fn connects(
        address: Seq<char>,
        port: u16,
        version: IpVersion,
        r: core::result::Result<Socket<T>, SocketError>,
    ) -> bool {
        &&& has_nul(address) ==> r == Err::<Socket<T>, SocketError>(
            SocketError::Tee(ErrorKind::BadParameters),
        )
        &&& !has_nul(address) ==> exists|setup: Setup|
            #![trigger Self::opened_from(setup, r)]
            setup.spec_addr() == address && setup.spec_port() == port && setup.spec_version()
                == version && Self::opened_from(setup, r)
    }

    fn connect_v4(address: &str, port: u16) -> (r: core::result::Result<Socket<T>, SocketError>) {
        match Setup::new_v4(address, port) {
            Ok(setup) => Self::open(setup),
            Err(e) => Err(SocketError::from_error(e)),
        }
    }

    fn connect_v6(address: &str, port: u16) -> (r: core::result::Result<Socket<T>, SocketError>) {
        match Setup::new_v6(address, port) {
            Ok(setup) => Self::open(setup),
            Err(e) => Err(SocketError::from_error(e)),
        }
    }
}

impl<T: SocketAdapter<Setup = Setup>> StdCompatWrite for Socket<T> {
    open spec fn written(&self) -> Seq<u8> {
        self.spec_sent()
    }

    fn write(&mut self, buf: &[u8]) -> (r: core::result::Result<usize, SocketError>) {
        self.send(buf)
    }
}

impl<T: SocketAdapter<Setup = Setup>> StdCompatRead for Socket<T> {
    open spec fn read_so_far(&self) -> Seq<u8> {
        self.spec_received()
    }

    fn read(&mut self, buf: &mut [u8]) -> (r: core::result::Result<usize, SocketError>) {
        self.recv(buf)
    }
}

} // verus!
