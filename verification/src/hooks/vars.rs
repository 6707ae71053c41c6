//! Resolved hook variables.
//!
//! A [`HookVars`] carries the values that are substituted into hook templates. Each is
//! optional: before authentication nothing is known of the certificate, the USB device or the
//! session.

use crate::collections::opt_text;
use crate::foreign::{hex_text, sha256};
use crate::host_binding::{hash_text, sha256_hex};
use crate::hooks::placeholder::PlaceholderVar;
use crate::hooks::stage::HookStage;
use crate::pam_data::AuthContext;
use vstd::prelude::*;
use vstd::utf8::encode_utf8;

verus! {

/// Runtime values for hook placeholder substitution.
#[derive(Debug)]
pub struct HookVars {
    /// Hook stage that the executor is about to run.
    pub stage: HookStage,
    /// `PAM_USER` value.
    pub pam_user: Option<String>,
    /// `PAM_SERVICE` value.
    pub pam_service: Option<String>,
    /// Resolved host identity.
    pub host_id: Option<String>,
    /// Hex SHA-256 of `host_id`.
    pub host_id_hash: Option<String>,
    /// Source kind name for the host identity.
    pub host_id_source: Option<String>,
    /// Verified certificate Common Name.
    pub cert_cn: Option<String>,
    /// Verified certificate serial (hex).
    pub cert_serial: Option<String>,
    /// USB token serial number.
    pub usb_serial: Option<String>,
    /// USB VID/PID string in `vvvv:pppp` form.
    pub usb_vid_pid: Option<String>,
    /// Per-auth session id.
    pub session_id: Option<String>,
}

impl HookVars {
    /// The value of a variable, if it is known.
    pub open spec fn value(&self, var: PlaceholderVar) -> Option<Seq<char>> {
        match var {
            PlaceholderVar::PamUser => opt_text(self.pam_user),
            PlaceholderVar::PamService => opt_text(self.pam_service),
            PlaceholderVar::HostId => opt_text(self.host_id),
            PlaceholderVar::HostIdHash => opt_text(self.host_id_hash),
            PlaceholderVar::HostIdSource => opt_text(self.host_id_source),
            PlaceholderVar::CertCn => opt_text(self.cert_cn),
            PlaceholderVar::CertSerial => opt_text(self.cert_serial),
            PlaceholderVar::UsbSerial => opt_text(self.usb_serial),
            PlaceholderVar::UsbVidPid => opt_text(self.usb_vid_pid),
            PlaceholderVar::SessionId => opt_text(self.session_id),
        }
    }

    /// No value is known. The stage is the one before authentication.
    pub fn empty() -> (r: HookVars)
        ensures
            r.stage == HookStage::PreAuth,
            r.pam_user is None,
            r.pam_service is None,
            r.host_id is None,
            r.host_id_hash is None,
            r.host_id_source is None,
            r.cert_cn is None,
            r.cert_serial is None,
            r.usb_serial is None,
            r.usb_vid_pid is None,
            r.session_id is None,
    {
        HookVars {
            stage: HookStage::PreAuth,
            pam_user: None,
            pam_service: None,
            host_id: None,
            host_id_hash: None,
            host_id_source: None,
            cert_cn: None,
            cert_serial: None,
            usb_serial: None,
            usb_vid_pid: None,
            session_id: None,
        }
    }

    /// Set the hook stage.
    pub fn with_stage(self, stage: HookStage) -> (r: HookVars)
        ensures
            r == (HookVars { stage, ..self }),
    {
        let mut v = self;
        v.stage = stage;
        v
    }

    /// Set the PAM user.
    pub fn with_pam_user(self, value: &str) -> (r: HookVars)
        ensures
            r == (HookVars { pam_user: r.pam_user, ..self }),
            opt_text(r.pam_user) == Some(value@),
    {
        let mut v = self;
        v.pam_user = Some(value.to_owned());
        v
    }

    /// Set the PAM service.
    pub fn with_pam_service(self, value: &str) -> (r: HookVars)
        ensures
            r == (HookVars { pam_service: r.pam_service, ..self }),
            opt_text(r.pam_service) == Some(value@),
    {
        let mut v = self;
        v.pam_service = Some(value.to_owned());
        v
    }

    /// Set the host identity.
    pub fn with_host_id(self, value: &str) -> (r: HookVars)
        ensures
            r == (HookVars { host_id: r.host_id, ..self }),
            opt_text(r.host_id) == Some(value@),
    {
        let mut v = self;
        v.host_id = Some(value.to_owned());
        v
    }

    /// Set the host identity hash.
    pub fn with_host_id_hash(self, value: &str) -> (r: HookVars)
        ensures
            r == (HookVars { host_id_hash: r.host_id_hash, ..self }),
            opt_text(r.host_id_hash) == Some(value@),
    {
        let mut v = self;
        v.host_id_hash = Some(value.to_owned());
        v
    }

    /// Set the host identity source label.
    pub fn with_host_id_source(self, value: &str) -> (r: HookVars)
        ensures
            r == (HookVars { host_id_source: r.host_id_source, ..self }),
            opt_text(r.host_id_source) == Some(value@),
    {
        let mut v = self;
        v.host_id_source = Some(value.to_owned());
        v
    }

    /// Set the certificate CN.
    pub fn with_cert_cn(self, value: &str) -> (r: HookVars)
        ensures
            r == (HookVars { cert_cn: r.cert_cn, ..self }),
            opt_text(r.cert_cn) == Some(value@),
    {
        let mut v = self;
        v.cert_cn = Some(value.to_owned());
        v
    }

    /// Set the certificate serial.
    pub fn with_cert_serial(self, value: &str) -> (r: HookVars)
        ensures
            r == (HookVars { cert_serial: r.cert_serial, ..self }),
            opt_text(r.cert_serial) == Some(value@),
    {
        let mut v = self;
        v.cert_serial = Some(value.to_owned());
        v
    }

    /// Set the USB serial.
    pub fn with_usb_serial(self, value: &str) -> (r: HookVars)
        ensures
            r == (HookVars { usb_serial: r.usb_serial, ..self }),
            opt_text(r.usb_serial) == Some(value@),
    {
        let mut v = self;
        v.usb_serial = Some(value.to_owned());
        v
    }

    /// Set the USB VID/PID.
    pub fn with_usb_vid_pid(self, value: &str) -> (r: HookVars)
        ensures
            r == (HookVars { usb_vid_pid: r.usb_vid_pid, ..self }),
            opt_text(r.usb_vid_pid) == Some(value@),
    {
        let mut v = self;
        v.usb_vid_pid = Some(value.to_owned());
        v
    }

    /// Set the session id.
    pub fn with_session_id(self, value: &str) -> (r: HookVars)
        ensures
            r == (HookVars { session_id: r.session_id, ..self }),
            opt_text(r.session_id) == Some(value@),
    {
        let mut v = self;
        v.session_id = Some(value.to_owned());
        v
    }

    /// Values for the stage before authentication: the PAM names and the host identity.
    pub fn for_pre_auth(
        pam_user: &str,
        pam_service: &str,
        host_id: &str,
        host_id_hash: &str,
        host_id_source: &str,
    ) -> (r: HookVars)
        ensures
            r.stage == HookStage::PreAuth,
            forall|v: PlaceholderVar|
                r.value(v) == match v {
                    PlaceholderVar::PamUser => Some(pam_user@),
                    PlaceholderVar::PamService => Some(pam_service@),
                    PlaceholderVar::HostId => Some(host_id@),
                    PlaceholderVar::HostIdHash => Some(host_id_hash@),
                    PlaceholderVar::HostIdSource => Some(host_id_source@),
                    _ => None,
                },
    {
        HookVars::empty().with_stage(HookStage::PreAuth).with_pam_user(
            pam_user,
        ).with_pam_service(pam_service).with_host_id(host_id).with_host_id_hash(
            host_id_hash,
        ).with_host_id_source(host_id_source)
    }

    /// Values for the stage after a successful authentication.
    pub fn for_post_auth_success(pam_user: &str, ctx: &AuthContext) -> (r: HookVars)
        ensures
            r.stage == HookStage::PostAuthSuccess,
            forall|v: PlaceholderVar| r.value(v) == context_value(pam_user@, *ctx, v),
    {
        Self::for_session_like(HookStage::PostAuthSuccess, pam_user, ctx)
    }

    /// Values for the opening of a session.
    pub fn for_session_open(pam_user: &str, ctx: &AuthContext) -> (r: HookVars)
        ensures
            r.stage == HookStage::SessionOpen,
            forall|v: PlaceholderVar| r.value(v) == context_value(pam_user@, *ctx, v),
    {
        Self::for_session_like(HookStage::SessionOpen, pam_user, ctx)
    }

    /// Values for the closing of a session.
    pub fn for_session_close(pam_user: &str, ctx: &AuthContext) -> (r: HookVars)
        ensures
            r.stage == HookStage::SessionClose,
            forall|v: PlaceholderVar| r.value(v) == context_value(pam_user@, *ctx, v),
    {
        Self::for_session_like(HookStage::SessionClose, pam_user, ctx)
    }

    fn for_session_like(stage: HookStage, pam_user: &str, ctx: &AuthContext) -> (r: HookVars)
        ensures
            r.stage == stage,
            forall|v: PlaceholderVar| r.value(v) == context_value(pam_user@, *ctx, v),
    {
        let mut v = HookVars::empty().with_stage(stage).with_pam_user(pam_user).with_pam_service(
            ctx.pam_service.as_str(),
        ).with_host_id(ctx.host_id.as_str()).with_host_id_hash(
            sha256_hex(ctx.host_id.as_str()).as_str(),
        ).with_host_id_source(ctx.host_id_source.as_str()).with_session_id(
            ctx.session_id.as_str(),
        );
        if let Some(cn) = &ctx.cert_cn {
            v = v.with_cert_cn(cn.as_str());
        }
        if let Some(s) = &ctx.cert_serial {
            v = v.with_cert_serial(s.as_str());
        }
        if let Some(s) = &ctx.usb_serial {
            v = v.with_usb_serial(s.as_str());
        }
        if let Some(s) = &ctx.usb_vid_pid {
            v = v.with_usb_vid_pid(s.as_str());
        }
        v
    }

    /// The value of a variable; `None` where it is not known. An executor must report that as
    /// an error rather than substitute an empty string.
    pub fn resolve(&self, var: PlaceholderVar) -> (r: Option<&str>)
        ensures
            r is Some <==> self.value(var) is Some,
            r matches Some(s) ==> self.value(var) == Some(s@),
    {
        let field = match var {
            PlaceholderVar::PamUser => &self.pam_user,
            PlaceholderVar::PamService => &self.pam_service,
            PlaceholderVar::HostId => &self.host_id,
            PlaceholderVar::HostIdHash => &self.host_id_hash,
            PlaceholderVar::HostIdSource => &self.host_id_source,
            PlaceholderVar::CertCn => &self.cert_cn,
            PlaceholderVar::CertSerial => &self.cert_serial,
            PlaceholderVar::UsbSerial => &self.usb_serial,
            PlaceholderVar::UsbVidPid => &self.usb_vid_pid,
            PlaceholderVar::SessionId => &self.session_id,
        };
        match field {
            Some(s) => Some(s.as_str()),
            None => None,
        }
    }
}

/// The value of a variable in an authenticated context.
pub open spec fn context_value(
    pam_user: Seq<char>,
    ctx: AuthContext,
    v: PlaceholderVar,
) -> Option<Seq<char>> {
    match v {
        PlaceholderVar::PamUser => Some(pam_user),
        PlaceholderVar::PamService => Some(ctx.pam_service@),
        PlaceholderVar::HostId => Some(ctx.host_id@),
        PlaceholderVar::HostIdHash => Some(hash_text(ctx.host_id@)),
        PlaceholderVar::HostIdSource => Some(ctx.host_id_source.name()),
        PlaceholderVar::CertCn => opt_text(ctx.cert_cn),
        PlaceholderVar::CertSerial => opt_text(ctx.cert_serial),
        PlaceholderVar::UsbSerial => opt_text(ctx.usb_serial),
        PlaceholderVar::UsbVidPid => opt_text(ctx.usb_vid_pid),
        PlaceholderVar::SessionId => Some(ctx.session_id@),
    }
}

/// A placeholder stands for the field of its name.
pub proof fn placeholders_stand_for_their_fields(v: HookVars)
    ensures
        match v.pam_user {
            Some(s) => v.value(PlaceholderVar::PamUser) == Some(s@),
            None => v.value(PlaceholderVar::PamUser) is None,
        },
        match v.pam_service {
            Some(s) => v.value(PlaceholderVar::PamService) == Some(s@),
            None => v.value(PlaceholderVar::PamService) is None,
        },
        match v.host_id {
            Some(s) => v.value(PlaceholderVar::HostId) == Some(s@),
            None => v.value(PlaceholderVar::HostId) is None,
        },
        match v.host_id_hash {
            Some(s) => v.value(PlaceholderVar::HostIdHash) == Some(s@),
            None => v.value(PlaceholderVar::HostIdHash) is None,
        },
        match v.host_id_source {
            Some(s) => v.value(PlaceholderVar::HostIdSource) == Some(s@),
            None => v.value(PlaceholderVar::HostIdSource) is None,
        },
        match v.cert_cn {
            Some(s) => v.value(PlaceholderVar::CertCn) == Some(s@),
            None => v.value(PlaceholderVar::CertCn) is None,
        },
        match v.cert_serial {
            Some(s) => v.value(PlaceholderVar::CertSerial) == Some(s@),
            None => v.value(PlaceholderVar::CertSerial) is None,
        },
        match v.usb_serial {
            Some(s) => v.value(PlaceholderVar::UsbSerial) == Some(s@),
            None => v.value(PlaceholderVar::UsbSerial) is None,
        },
        match v.usb_vid_pid {
            Some(s) => v.value(PlaceholderVar::UsbVidPid) == Some(s@),
            None => v.value(PlaceholderVar::UsbVidPid) is None,
        },
        match v.session_id {
            Some(s) => v.value(PlaceholderVar::SessionId) == Some(s@),
            None => v.value(PlaceholderVar::SessionId) is None,
        },
{
}

/// Of an authenticated context a hook sees the user it is run for, each value of the context under
/// its own name, and the host identity in the clear and as the digest of that.
pub proof fn hooks_see_the_context(pam_user: Seq<char>, ctx: AuthContext)
    ensures
        context_value(pam_user, ctx, PlaceholderVar::PamUser) == Some(pam_user),
        context_value(pam_user, ctx, PlaceholderVar::PamService) == Some(ctx.pam_service@),
        context_value(pam_user, ctx, PlaceholderVar::HostId) == Some(ctx.host_id@),
        context_value(pam_user, ctx, PlaceholderVar::HostIdHash) == Some(
            hex_text(sha256(encode_utf8(ctx.host_id@))),
        ),
        context_value(pam_user, ctx, PlaceholderVar::HostIdSource) == Some(
            ctx.host_id_source.name(),
        ),
        context_value(pam_user, ctx, PlaceholderVar::SessionId) == Some(ctx.session_id@),
        match ctx.cert_cn {
            Some(s) => context_value(pam_user, ctx, PlaceholderVar::CertCn) == Some(s@),
            None => context_value(pam_user, ctx, PlaceholderVar::CertCn) is None,
        },
        match ctx.cert_serial {
            Some(s) => context_value(pam_user, ctx, PlaceholderVar::CertSerial) == Some(s@),
            None => context_value(pam_user, ctx, PlaceholderVar::CertSerial) is None,
        },
        match ctx.usb_serial {
            Some(s) => context_value(pam_user, ctx, PlaceholderVar::UsbSerial) == Some(s@),
            None => context_value(pam_user, ctx, PlaceholderVar::UsbSerial) is None,
        },
        match ctx.usb_vid_pid {
            Some(s) => context_value(pam_user, ctx, PlaceholderVar::UsbVidPid) == Some(s@),
            None => context_value(pam_user, ctx, PlaceholderVar::UsbVidPid) is None,
        },
{
}

} // verus!
