//! What is sent to the monitor, and what its replies mean.
//!
//! The connection itself, and the encoding of messages, are the caller's.

use crate::error::IpcError;
use crate::foreign::{uuid_new_v5, uuid_of, uuid_parse, uuid_v5_of};
use crate::time::Duration;
use vstd::prelude::*;
use vstd::string::*;
use vstd::utf8::encode_utf8;

verus! {

/// An active session, as the monitor reports it.
#[derive(Debug)]
pub struct ActiveSessionReply {
    /// Session id.
    pub session_id: String,
    /// Common name of the engineer's certificate.
    pub cert_cn: String,
    /// Hash of the public key of the engineer's certificate.
    pub engineer_ski: String,
    /// Hash of the engineer's certificate.
    pub engineer_cert_sha256: String,
    /// Hash of the host identity.
    pub host_id_hash: String,
}

/// What the monitor replied.
#[derive(Debug)]
pub enum ServerReply {
    /// The greeting, with the version of the protocol.
    HelloAck {
        /// Version of the protocol.
        protocol_version: u32,
    },
    /// The answer to a ping.
    Pong,
    /// A confirmation.
    Ack,
    /// An active session.
    ActiveSession(ActiveSessionReply),
    /// The confirmation of a new target.
    SessionTargetUpdated,
    /// An error.
    Error {
        /// Its code.
        code: u32,
        /// Its message.
        message: String,
    },
    /// Anything else.
    Other,
}

/// A reply, and how it is shown.
#[derive(Debug)]
pub struct Reply {
    /// The reply.
    pub message: ServerReply,
    /// Its text in an error.
    pub shown: String,
}

/// The version and the error codes of the protocol.
#[derive(Debug, Clone, Copy, PartialEq, Eq, Structural)]
pub struct Protocol {
    /// Version of the protocol.
    pub version: u32,
    /// The USB device is gone.
    pub device_gone: u32,
    /// The versions of the protocol differ.
    pub protocol_mismatch: u32,
    /// The connection is refused.
    pub unauthorized: u32,
}

/// The error for a code of the monitor.
pub open spec fn server_error(p: Protocol, code: u32, message: String) -> IpcError {
    if code == p.device_gone {
        IpcError::DeviceGone
    } else if code == p.protocol_mismatch {
        IpcError::ProtocolMismatch { server: 0 }
    } else if code == p.unauthorized {
        IpcError::Unauthorized
    } else {
        IpcError::Server { code, message }
    }
}

/// The error for a code of the monitor.
pub fn map_server_error(p: Protocol, code: u32, message: String) -> (r: IpcError)
    ensures
        r == server_error(p, code, message),
{
    if code == p.device_gone {
        IpcError::DeviceGone
    } else if code == p.protocol_mismatch {
        IpcError::ProtocolMismatch { server: 0 }
    } else if code == p.unauthorized {
        IpcError::Unauthorized
    } else {
        IpcError::Server { code, message }
    }
}

/// The error in a reply that is not the expected one.
pub open spec fn other_reply(p: Protocol, r: Reply) -> IpcError {
    match r.message {
        ServerReply::Error { code, message } => server_error(p, code, message),
        _ => IpcError::UnexpectedReply(r.shown),
    }
}

fn unexpected(p: Protocol, r: Reply) -> (e: IpcError)
    ensures
        e == other_reply(p, r),
{
    match r.message {
        ServerReply::Error { code, message } => map_server_error(p, code, message),
        _ => IpcError::UnexpectedReply(r.shown),
    }
}

/// What the reply to a greeting means: the versions must agree.
pub fn hello_result(p: Protocol, reply: Reply) -> (r: Result<(), IpcError>)
    ensures
        match reply.message {
            ServerReply::HelloAck { protocol_version } => if protocol_version == p.version {
                r is Ok
            } else {
                r == Err::<(), IpcError>(IpcError::ProtocolMismatch { server: protocol_version })
            },
            _ => r == Err::<(), IpcError>(other_reply(p, reply)),
        },
{
    match reply.message {
        ServerReply::HelloAck { protocol_version } => {
            if protocol_version == p.version {
                Ok(())
            } else {
                Err(IpcError::ProtocolMismatch { server: protocol_version })
            }
        },
        _ => Err(unexpected(p, reply)),
    }
}

/// What the reply to a ping means.
pub fn ping_result(p: Protocol, reply: Reply) -> (r: Result<(), IpcError>)
    ensures
        if reply.message is Pong {
            r is Ok
        } else {
            r == Err::<(), IpcError>(other_reply(p, reply))
        },
{
    match reply.message {
        ServerReply::Pong => Ok(()),
        _ => Err(unexpected(p, reply)),
    }
}

/// What the reply to opening or closing a session means.
pub fn ack_result(p: Protocol, reply: Reply) -> (r: Result<(), IpcError>)
    ensures
        if reply.message is Ack {
            r is Ok
        } else {
            r == Err::<(), IpcError>(other_reply(p, reply))
        },
{
    match reply.message {
        ServerReply::Ack => Ok(()),
        _ => Err(unexpected(p, reply)),
    }
}

/// What the reply to a new target means.
pub fn target_result(p: Protocol, reply: Reply) -> (r: Result<(), IpcError>)
    ensures
        if reply.message is Ack || reply.message is SessionTargetUpdated {
            r is Ok
        } else {
            r == Err::<(), IpcError>(other_reply(p, reply))
        },
{
    match reply.message {
        ServerReply::Ack => Ok(()),
        ServerReply::SessionTargetUpdated => Ok(()),
        _ => Err(unexpected(p, reply)),
    }
}

/// What the reply to a question for an active session means.
pub fn active_session_result(p: Protocol, reply: Reply) -> (r: Result<ActiveSessionReply, IpcError>)
    ensures
        match reply.message {
            ServerReply::ActiveSession(s) => r == Ok::<ActiveSessionReply, IpcError>(s),
            _ => r == Err::<ActiveSessionReply, IpcError>(other_reply(p, reply)),
        },
{
    match reply.message {
        ServerReply::ActiveSession(s) => Ok(s),
        _ => Err(unexpected(p, reply)),
    }
}

/// What a line read from the monitor means: none is left where the connection has ended.
pub fn line_result(bytes_read: usize, line: String) -> (r: Result<String, IpcError>)
    ensures
        if bytes_read == 0 {
            r == Err::<String, IpcError>(IpcError::Unavailable)
        } else {
            r == Ok::<String, IpcError>(line)
        },
{
    if bytes_read == 0 {
        Err(IpcError::Unavailable)
    } else {
        Ok(line)
    }
}

/// Why the connection could not be read from or written to.
#[derive(Debug)]
pub enum TransportFault {
    /// It would have had to wait for longer than is allowed.
    WouldBlock,
    /// It waited for as long as is allowed.
    TimedOut,
    /// Anything else, in words.
    Other(String),
}

/// The error for a fault of the connection: having waited in vain is a timeout.
pub fn transport_error(fault: TransportFault) -> (r: IpcError)
    ensures
        r == match fault {
            TransportFault::WouldBlock => IpcError::Timeout,
            TransportFault::TimedOut => IpcError::Timeout,
            TransportFault::Other(text) => IpcError::Io(text),
        },
{
    match fault {
        TransportFault::WouldBlock => IpcError::Timeout,
        TransportFault::TimedOut => IpcError::Timeout,
        TransportFault::Other(text) => IpcError::Io(text),
    }
}

/// Namespace of the session ids: that of object identifiers.
pub const NAMESPACE_OID: u128 = 0x6ba7_b812_9dad_11d1_80b4_00c0_4fd4_30c8;

/// The UUID of a session id: the one that it denotes, else one that is made of it.
pub open spec fn session_uuid(s: Seq<char>) -> u128 {
    match uuid_of(s) {
        Some(u) => u,
        None => uuid_v5_of(NAMESPACE_OID, encode_utf8(s)),
    }
}

/// The UUID of a session id. The same id always has the same one.
pub fn uuid_from_session_id(s: &str) -> (r: u128)
    ensures
        r == session_uuid(s@),
{
    let parsed: Option<u128> = uuid_parse(s);
    uuid_or_hashed(s, parsed)
}

/// The UUID of a session id that was read as `parsed`.
pub fn uuid_or_hashed(s: &str, parsed: Option<u128>) -> (r: u128)
    ensures
        r == match parsed {
            Some(u) => u,
            None => uuid_v5_of(NAMESPACE_OID, encode_utf8(s@)),
        },
{
    match parsed {
        Some(u) => u,
        None => uuid_new_v5(NAMESPACE_OID, s.as_bytes()),
    }
}

/// What is told of a session that opens; `T` says where it runs.
#[derive(Debug)]
pub struct OpenSessionInfo<T> {
    /// Session id.
    pub session_id: String,
    /// PAM user.
    pub pam_user: String,
    /// PAM service.
    pub pam_service: String,
    /// Where the session runs.
    pub target: T,
    /// Serial of the USB device.
    pub usb_serial: Option<String>,
    /// Hash of the host identity.
    pub host_id_hash: String,
    /// Common name of the certificate.
    pub cert_cn: String,
    /// Serial of the certificate.
    pub cert_serial: String,
    /// Hash of the public key of the engineer's certificate.
    pub engineer_ski: String,
    /// Hash of the engineer's certificate.
    pub engineer_cert_sha256: String,
    /// User id.
    pub uid: Option<u32>,
    /// Role.
    pub role: Option<String>,
    /// Version of the role.
    pub role_version: Option<u32>,
}

/// The message that opens a session.
#[derive(Debug)]
pub struct SessionOpenPayload<T> {
    /// UUID of the session.
    pub session_id: u128,
    /// When it opened, in nanoseconds since the epoch.
    pub opened_at: i128,
    /// What is told of it.
    pub info: OpenSessionInfo<T>,
}

/// The message that opens a session at `now`.
pub fn session_open_payload<T>(info: OpenSessionInfo<T>, now: i128) -> (r: SessionOpenPayload<T>)
    ensures
        r == (SessionOpenPayload { session_id: session_uuid(info.session_id@), opened_at: now, info }),
{
    let session_id: u128 = uuid_from_session_id(info.session_id.as_str());
    SessionOpenPayload { session_id, opened_at: now, info }
}

/// Where to reach the monitor, and how long to wait for it.
#[derive(Debug)]
pub struct MonitorClientFactory {
    /// Path of its socket.
    pub path: String,
    /// How long to wait.
    pub timeout: Duration,
}

impl MonitorClientFactory {
    /// A factory for connections.
    pub fn new(path: String, timeout: Duration) -> (r: MonitorClientFactory)
        ensures
            r == (MonitorClientFactory { path, timeout }),
    {
        MonitorClientFactory { path, timeout }
    }
}

/// A client that opens a connection for each call.
#[derive(Debug)]
pub struct ConnectPerCall {
    /// Where to connect.
    pub factory: MonitorClientFactory,
}

impl ConnectPerCall {
    /// A client.
    pub fn new(factory: MonitorClientFactory) -> (r: ConnectPerCall)
        ensures
            r == (ConnectPerCall { factory }),
    {
        ConnectPerCall { factory }
    }
}

/// An error of the monitor goes by its code; the codes that the protocol names are told apart, and
/// any other is handed on with its message.
pub proof fn server_errors_go_by_their_codes(p: Protocol, code: u32, message: String)
    requires
        p.device_gone != p.protocol_mismatch,
        p.device_gone != p.unauthorized,
        p.protocol_mismatch != p.unauthorized,
    ensures
        code == p.device_gone <==> server_error(p, code, message) is DeviceGone,
        code == p.protocol_mismatch <==> server_error(p, code, message) is ProtocolMismatch,
        code == p.unauthorized <==> server_error(p, code, message) is Unauthorized,
        code != p.device_gone && code != p.protocol_mismatch && code != p.unauthorized
            ==> server_error(p, code, message) == (IpcError::Server { code, message }),
{
}

/// A reply that was not asked for is an error: the one that it names, or that it was unexpected.
pub proof fn other_replies_are_errors(p: Protocol, r: Reply)
    ensures
        r.message matches ServerReply::Error { code, message } ==> other_reply(p, r)
            == server_error(p, code, message),
        !(r.message is Error) ==> other_reply(p, r) == IpcError::UnexpectedReply(r.shown),
{
}

/// A session that is named by a UUID keeps it; any other name is hashed, in the namespace for
/// object identifiers.
pub proof fn uuids_are_kept(s: Seq<char>)
    ensures
        uuid_of(s) matches Some(u) ==> session_uuid(s) == u,
        uuid_of(s) is None ==> session_uuid(s) == uuid_v5_of(
            0x6ba7_b812_9dad_11d1_80b4_00c0_4fd4_30c8,
            encode_utf8(s),
        ),
{
}

} // verus!
