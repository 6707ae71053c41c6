//! What is kept of an authentication for the session that follows it.

use crate::host_identity::source::HostIdSourceKind;
use crate::mac::label::IntegrityLabel;
use crate::x509::CertIdent;
use vstd::prelude::*;

verus! {

/// Context of an authenticated session. Times are seconds since the epoch.
#[derive(Debug)]
pub struct AuthContext {
    /// Session id.
    pub session_id: String,
    /// Certificate common name.
    pub cert_cn: Option<String>,
    /// Certificate serial.
    pub cert_serial: Option<String>,
    /// USB serial.
    pub usb_serial: Option<String>,
    /// USB VID/PID.
    pub usb_vid_pid: Option<String>,
    /// PAM service.
    pub pam_service: String,
    /// Resolved host identity.
    pub host_id: String,
    /// Where the host identity came from.
    pub host_id_source: HostIdSourceKind,
    /// When the authentication took place.
    pub authenticated_at: i64,
    /// When the certificate expires.
    pub cert_not_after: Option<i64>,
    /// Clock-skew tolerance in seconds.
    pub clock_skew_seconds: u64,
    /// Integrity bound of the certificate.
    pub cert_max_integrity: Option<IntegrityLabel>,
    /// Identifiers of the certificate.
    pub cert_ident: Option<CertIdent>,
    /// Home directory.
    pub home_dir: Option<String>,
}

impl AuthContext {
    /// A context in which only the session and the service are known.
    pub fn new(session_id: String, pam_service: String) -> (r: AuthContext)
        ensures
            r.session_id == session_id,
            r.pam_service == pam_service,
            r.cert_cn is None && r.cert_serial is None && r.usb_serial is None && r.usb_vid_pid
                is None,
            r.host_id@ == Seq::<char>::empty(),
            r.host_id_source == HostIdSourceKind::Override,
            r.authenticated_at == 0 && r.cert_not_after is None && r.clock_skew_seconds == 0,
            r.cert_max_integrity is None && r.cert_ident is None && r.home_dir is None,
    {
        AuthContext {
            session_id,
            cert_cn: None,
            cert_serial: None,
            usb_serial: None,
            usb_vid_pid: None,
            pam_service,
            host_id: String::new(),
            host_id_source: HostIdSourceKind::Override,
            authenticated_at: 0,
            cert_not_after: None,
            clock_skew_seconds: 0,
            cert_max_integrity: None,
            cert_ident: None,
            home_dir: None,
        }
    }
}

} // verus!
