use optee_utee::net::{
    convert_duration_option_to_timeout, socket_operation_error, timeout_of_millis, IoErrorKind, IpVersion, Setup,
    Socket, SocketAdapter, SocketError, StdCompatConnect, StdCompatRead, StdCompatWrite,
};
use optee_utee::ErrorKind;
use std::time::Duration;
use optee_utee::net::{stream_error, StreamCall};

/// A connection that accepts at most `chunk` bytes per send and hands out
/// at most `chunk` bytes per receive.
struct Loopback {
    sent: Vec<u8>,
    incoming: Vec<u8>,
    chunk: usize,
    last_timeout: u32,
}

struct Mock;

impl SocketAdapter for Mock {
    type Setup = Setup;
    type Handle = Loopback;

    fn open(setup: Setup) -> Result<Loopback, SocketError> {
        if setup.addr() == "unreachable" {
            return Err(SocketError::Hostname);
        }
        if setup.addr() == "v6only" && setup.version() != IpVersion::V6 {
            return Err(SocketError::Hostname);
        }
        Ok(Loopback { sent: Vec::new(), incoming: b"hello world".to_vec(), chunk: setup.port() as usize, last_timeout: 0 })
    }

    fn send(handle: &mut Loopback, buf: &[u8], timeout: u32) -> Result<usize, SocketError> {
        handle.last_timeout = timeout;
        let n = buf.len().min(handle.chunk);
        handle.sent.extend_from_slice(&buf[..n]);
        Ok(n)
    }

    fn recv(handle: &mut Loopback, buf: &mut [u8], timeout: u32) -> Result<usize, SocketError> {
        handle.last_timeout = timeout;
        let n = buf.len().min(handle.chunk).min(handle.incoming.len());
        buf[..n].copy_from_slice(&handle.incoming[..n]);
        handle.incoming.drain(..n);
        Ok(n)
    }
}

#[test]
fn socket_errors_of_codes() {
    assert_eq!(SocketError::from_raw_error(0xF100_7001, 5), SocketError::ErrorProtocol(5));
    assert_eq!(SocketError::from_raw_error(0xF100_7006, 6), SocketError::WarningProtocol(6));
    assert_eq!(SocketError::from_raw_error(0xF100_7003, 6), SocketError::Timeout);
    assert_eq!(SocketError::from_raw_error(0xFFFF_000C, 0), SocketError::Tee(ErrorKind::OutOfMemory));
    assert_eq!(SocketError::from_raw_error(0xFFFF_0008, 0), SocketError::Unknown(0xFFFF_0008));
    assert_eq!(socket_operation_error(0xF100_7001, 9), SocketError::ErrorProtocol(9));
    assert_eq!(socket_operation_error(0xF100_7002, 9), SocketError::RemoteClosed);
}

#[test]
fn io_errors_of_socket_errors() {
    assert_eq!(SocketError::ErrorProtocol(0x1a).io_message(), "TEE_ISOCKET_ERROR_PROTOCOL: 0x0000001A");
    assert_eq!(SocketError::Unknown(0xdeadbeef).io_message(), "Unknown: DEADBEEF");
    assert_eq!(SocketError::RemoteClosed.io_kind(), IoErrorKind::ConnectionAborted);
    assert_eq!(SocketError::Timeout.io_kind(), IoErrorKind::TimedOut);
    assert_eq!(SocketError::Tee(ErrorKind::OutOfMemory).io_message(), "TEE_ERROR_OUT_OF_MEMORY");
    assert_eq!(SocketError::Tee(ErrorKind::Busy).io_message(), "The system is busy working on something else.");
    assert_eq!(SocketError::Tee(ErrorKind::OutOfMemory).io_kind(), IoErrorKind::OutOfMemory);
}

#[test]
fn setup_refuses_nul() {
    let s = Setup::new_v4("127.0.0.1", 80).unwrap();
    assert_eq!((s.addr(), s.port(), s.version()), ("127.0.0.1", 80, IpVersion::V4));
    assert_eq!(Setup::new_v6("::1", 1).unwrap().version(), IpVersion::V6);
    assert_eq!(Setup::new_v4("a\0b", 80).err().unwrap().kind(), ErrorKind::BadParameters);
}

#[test]
fn timeouts() {
    assert_eq!(timeout_of_millis(None).unwrap(), 0xFFFF_FFFF);
    assert_eq!(timeout_of_millis(Some(1500)).unwrap(), 1500);
    assert_eq!(timeout_of_millis(Some(u32::MAX as u128 + 1)).err().unwrap().kind(), ErrorKind::BadParameters);
    assert_eq!(convert_duration_option_to_timeout(Some(Duration::from_millis(2500))).unwrap(), 2500);
    assert!(convert_duration_option_to_timeout(Some(Duration::from_secs(5_000_000))).is_err());
}

#[test]
fn socket_sends_and_receives_with_timeouts() {
    let mut s: Socket<Mock> = Socket::connect_v4("host", 4).unwrap();
    s.set_send_timeout(Some(Duration::from_millis(30))).unwrap();
    assert_eq!(s.send(b"abcdef").unwrap(), 4);
    s.set_recv_timeout_in_milli(7);
    let mut buf = [0u8; 3];
    assert_eq!(s.recv(&mut buf).unwrap(), 3);
    assert_eq!(&buf, b"hel");
    assert!(s.set_recv_timeout(Some(Duration::from_secs(5_000_000))).is_err());
}

#[test]
fn write_all_and_read_exact() {
    let mut s: Socket<Mock> = Socket::connect("host", 3).unwrap();
    s.write_all(b"0123456789").unwrap();
    let mut buf = [0u8; 11];
    s.read_exact(&mut buf).unwrap();
    assert_eq!(&buf, b"hello world");
    let mut more = [0u8; 1];
    assert_eq!(s.read_exact(&mut more).err().unwrap(), SocketError::Tee(ErrorKind::Generic));
}

#[test]
fn connect_failures() {
    assert_eq!(Socket::<Mock>::connect_v4("unreachable", 1).err().unwrap(), SocketError::Hostname);
    assert_eq!(
        Socket::<Mock>::connect_v6("bad\0addr", 1).err().unwrap(),
        SocketError::Tee(ErrorKind::BadParameters)
    );
}

#[test]
fn direct_stream_errors() {
    let (k, m) = stream_error(StreamCall::Open, 0xF100_7006, 12).unwrap();
    assert_eq!((k, m.as_str()), (IoErrorKind::Other, "TEE_ISOCKET_WARNING_PROTOCOL: 12"));
    let (k, m) = stream_error(StreamCall::Recv, 0xF100_7006, 12).unwrap();
    assert_eq!((k, m.as_str()), (IoErrorKind::Other, "TEE_ISOCKET_WARNING_PROTOCOL"));
    let (k, m) = stream_error(StreamCall::Send, 0xFFFF_0002, 0).unwrap();
    assert_eq!((k, m.as_str()), (IoErrorKind::Interrupted, "TEE_ERROR_CANCEL"));
    let (k, _) = stream_error(StreamCall::Recv, 0xF100_7002, 0).unwrap();
    assert_eq!(k, IoErrorKind::ConnectionAborted);
    assert!(stream_error(StreamCall::Open, 0xF100_7002, 0).is_none());
    assert!(stream_error(StreamCall::Send, 0xFFFF_000E, 0).is_none());
    assert!(stream_error(StreamCall::Send, 0xF100_7005, 0).is_some());
    assert!(stream_error(StreamCall::Recv, 0xF100_7005, 0).is_none());
    assert!(stream_error(StreamCall::Open, 0, 0).is_none());
}

#[test]
fn write_all_and_read_exact_on_empty_buffers() {
    let mut s: Socket<Mock> = Socket::connect("host", 0).unwrap();
    assert!(s.write_all(b"").is_ok());
    assert!(s.read_exact(&mut []).is_ok());
    assert_eq!(s.write_all(b"x").err().unwrap(), SocketError::Tee(ErrorKind::Generic));
    let mut buf = [7u8; 2];
    assert_eq!(s.read_exact(&mut buf).err().unwrap(), SocketError::Tee(ErrorKind::Generic));
    assert_eq!(buf.len(), 2);
}

#[test]
fn connect_v6_asks_for_ipv6() {
    assert!(Socket::<Mock>::connect_v6("v6only", 2).is_ok());
    assert_eq!(Socket::<Mock>::connect_v4("v6only", 2).err().unwrap(), SocketError::Hostname);
    assert_eq!(Socket::<Mock>::connect("v6only", 2).err().unwrap(), SocketError::Hostname);
}
