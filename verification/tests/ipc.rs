//! Replies of the monitor and what becomes of its failures.

use tessera_core::config::validated::MonitorFailMode as ConfiguredMode;
use tessera_core::error::IpcError;
use tessera_core::ipc::client::{
    ack_result, active_session_result, hello_result, line_result, map_server_error, ping_result,
    session_open_payload, target_result, transport_error, uuid_from_session_id, uuid_or_hashed,
    ActiveSessionReply, OpenSessionInfo, Protocol, Reply, ServerReply, TransportFault,
    NAMESPACE_OID,
};
use tessera_core::ipc::failmode::{
    apply, is_fatal, judge, FailModeWrapper, MonitorClient, MonitorFailMode,
};

fn protocol() -> Protocol {
    Protocol { version: 3, device_gone: 10, protocol_mismatch: 11, unauthorized: 12 }
}

fn reply(message: ServerReply) -> Reply {
    Reply { message, shown: "Shown".to_string() }
}

fn error(code: u32) -> Reply {
    reply(ServerReply::Error { code, message: "no".to_string() })
}

#[test]
fn replies_are_held_against_what_was_asked() {
    let p = protocol();
    assert!(hello_result(p, reply(ServerReply::HelloAck { protocol_version: 3 })).is_ok());
    assert!(matches!(
        hello_result(p, reply(ServerReply::HelloAck { protocol_version: 2 })),
        Err(IpcError::ProtocolMismatch { server: 2 })
    ));
    assert!(matches!(
        hello_result(p, reply(ServerReply::Pong)),
        Err(IpcError::UnexpectedReply(s)) if s == "Shown"
    ));
    assert!(ping_result(p, reply(ServerReply::Pong)).is_ok());
    assert!(ack_result(p, reply(ServerReply::Ack)).is_ok());
    assert!(ack_result(p, reply(ServerReply::Pong)).is_err());
    assert!(target_result(p, reply(ServerReply::SessionTargetUpdated)).is_ok());
    assert!(matches!(ping_result(p, error(10)), Err(IpcError::DeviceGone)));
    assert!(matches!(ping_result(p, error(11)), Err(IpcError::ProtocolMismatch { server: 0 })));
    assert!(matches!(ping_result(p, error(12)), Err(IpcError::Unauthorized)));
    assert!(matches!(
        map_server_error(p, 13, "odd".to_string()),
        IpcError::Server { code: 13, message } if message == "odd"
    ));
    let session = ActiveSessionReply {
        session_id: "s".to_string(),
        cert_cn: "c".to_string(),
        engineer_ski: "k".to_string(),
        engineer_cert_sha256: "1".to_string(),
        host_id_hash: "h".to_string(),
    };
    let got = active_session_result(p, reply(ServerReply::ActiveSession(session))).unwrap();
    assert_eq!(got.session_id, "s");
    assert!(matches!(line_result(0, String::new()), Err(IpcError::Unavailable)));
    assert_eq!(line_result(3, "abc".to_string()).unwrap(), "abc");
}

#[test]
fn a_session_id_has_one_uuid() {
    let text = "6ba7b810-9dad-11d1-80b4-00c04fd430c8";
    assert_eq!(uuid_from_session_id(text), 0x6ba7b810_9dad_11d1_80b4_00c04fd430c8);
    let made = uuid_from_session_id("session-1");
    assert_eq!(made, uuid_from_session_id("session-1"));
    assert_ne!(made, uuid_from_session_id("session-2"));
    let expected =
        uuid::Uuid::new_v5(&uuid::Uuid::from_u128(NAMESPACE_OID), b"session-1").as_u128();
    assert_eq!(made, expected);
    assert_eq!(uuid_or_hashed("session-1", Some(7)), 7);
}

fn info() -> OpenSessionInfo<u8> {
    OpenSessionInfo {
        session_id: "session-1".to_string(),
        pam_user: "alice".to_string(),
        pam_service: "login".to_string(),
        target: 0,
        usb_serial: None,
        host_id_hash: "h".to_string(),
        cert_cn: "alice".to_string(),
        cert_serial: "42".to_string(),
        engineer_ski: "k".to_string(),
        engineer_cert_sha256: "1".to_string(),
        uid: None,
        role: None,
        role_version: None,
    }
}

#[test]
fn an_opened_session_carries_its_time_and_uuid() {
    let payload = session_open_payload(info(), 99);
    assert_eq!(payload.opened_at, 99);
    assert_eq!(payload.session_id, uuid_from_session_id("session-1"));
    assert_eq!(payload.info.pam_user, "alice");
}

#[test]
fn failures_count_by_mode() {
    assert!(is_fatal(&IpcError::DeviceGone));
    assert!(!is_fatal(&IpcError::Timeout));
    assert!(apply(MonitorFailMode::Permissive, Err(IpcError::Timeout)).is_ok());
    assert!(apply(MonitorFailMode::Strict, Err(IpcError::Timeout)).is_err());
    assert!(apply(MonitorFailMode::Permissive, Err(IpcError::Unauthorized)).is_err());
    assert_eq!(MonitorFailMode::from_config(ConfiguredMode::Strict), MonitorFailMode::Strict);
}

#[test]
fn an_error_that_does_not_count_is_handed_out() {
    let (r, ignored) = judge(MonitorFailMode::Permissive, Err(IpcError::Timeout));
    assert!(r.is_ok());
    assert!(matches!(ignored, Some(IpcError::Timeout)));
    let (r, ignored) = judge(MonitorFailMode::Permissive, Err(IpcError::DeviceGone));
    assert!(matches!(r, Err(IpcError::DeviceGone)));
    assert!(ignored.is_none());
    let (r, ignored) = judge(MonitorFailMode::Strict, Err(IpcError::Timeout));
    assert!(matches!(r, Err(IpcError::Timeout)));
    assert!(ignored.is_none());
    assert!(judge(MonitorFailMode::Permissive, Ok(())).1.is_none());
}

#[test]
fn having_waited_in_vain_is_a_timeout() {
    assert!(matches!(transport_error(TransportFault::WouldBlock), IpcError::Timeout));
    assert!(matches!(transport_error(TransportFault::TimedOut), IpcError::Timeout));
    assert!(matches!(
        transport_error(TransportFault::Other("reset".to_string())),
        IpcError::Io(s) if s == "reset"
    ));
}

#[derive(Default)]
struct Down {
    asked: Vec<String>,
}

impl MonitorClient<u8> for Down {
    fn hello(&mut self) -> Result<(), IpcError> {
        self.asked.push("hello".to_string());
        Err(IpcError::Unavailable)
    }

    fn open_session(&mut self, info: &OpenSessionInfo<u8>) -> Result<(), IpcError> {
        self.asked.push(format!("open {}", info.session_id));
        Err(IpcError::DeviceGone)
    }

    fn close_session(&mut self, session_id: &str, reason: &str) -> Result<(), IpcError> {
        self.asked.push(format!("close {session_id} {reason}"));
        Err(IpcError::Timeout)
    }

    fn ping(&mut self) -> Result<(), IpcError> {
        self.asked.push("ping".to_string());
        Ok(())
    }
}

#[test]
fn a_wrapped_client_fails_by_mode() {
    let mut soft = FailModeWrapper::new(Down::default(), MonitorFailMode::Permissive);
    assert!(soft.hello().is_ok());
    assert!(matches!(soft.open_session(&info()), Err(IpcError::DeviceGone)));
    assert!(soft.close_session("s", "r").is_ok());
    assert!(soft.ping().is_ok());
    assert_eq!(soft.inner.asked, vec!["hello", "open session-1", "close s r", "ping"]);
    let ignored = soft.take_ignored();
    assert_eq!(ignored.len(), 2);
    assert_eq!(ignored[0].op, "hello");
    assert!(matches!(ignored[0].error, IpcError::Unavailable));
    assert_eq!(ignored[1].op, "close_session");
    assert!(matches!(ignored[1].error, IpcError::Timeout));
    assert!(soft.take_ignored().is_empty());
    let mut strict = FailModeWrapper::new(Down::default(), MonitorFailMode::Strict);
    assert!(matches!(strict.hello(), Err(IpcError::Unavailable)));
    assert!(strict.ignored.is_empty());
}
