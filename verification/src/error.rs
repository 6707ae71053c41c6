//! Error types used by the core crate.

use crate::foreign::{debug_form, debug_text};
use crate::gost::errors::GostEngineError;
use crate::hooks::placeholder::PlaceholderVar;
use crate::hooks::stage::HookStage;
use crate::host_identity::source::HostIdSourceKind;
use crate::text::{cat2, cat3, cat4, dec, dec_int, decimal, decimal_i64};
use vstd::prelude::*;

verus! {

/// `Debug` form of an optional exit code.
pub open spec fn opt_i32_form(v: Option<i32>) -> Seq<char> {
    match v {
        Some(n) => "Some("@ + dec_int(n as int) + ")"@,
        None => "None"@,
    }
}

fn opt_i32_text(v: &Option<i32>) -> (r: String)
    ensures
        r@ == opt_i32_form(*v),
{
    match v {
        Some(n) => cat3("Some(", decimal_i64(*n as i64).as_str(), ")"),
        None => "None".to_owned(),
    }
}

impl Error {
    /// Whether the error rejects a configuration for the given reason.
    pub open spec fn is_invalid(&self, why: Seq<char>) -> bool {
        self matches Error::ConfigInvalid { reason } && reason@ == why
    }
}

/// Top-level core error.
#[derive(Debug)]
pub enum Error {
    /// I/O error with human context.
    Io {
        /// Operation context.
        context: String,
        /// Text of the underlying error.
        source: String,
    },
    /// TOML parse error.
    ConfigParse {
        /// Config path.
        path: String,
        /// Text of the parse error.
        source: String,
    },
    /// Invalid config.
    ConfigInvalid {
        /// Reason.
        reason: String,
    },
    /// A file consumed by a privileged authentication path failed the
    /// root-ownership and path-integrity policy.
    PrivilegedPath {
        /// What configuration input was being validated.
        context: String,
        /// Text of the ownership, mode, type, or race failure.
        source: String,
    },
    /// `gost_engine_path` does not point to a readable file.
    GostEnginePathUnreadable {
        /// Configured path.
        path: String,
        /// Text of the underlying error.
        source: String,
    },
    /// `gost_engine_path` is configured but `crypto_backend` is not `openssl`.
    GostEnginePathRequiresOpenssl,
    /// Host identity error.
    HostIdentity(HostIdentityError),
    /// Mount guard error.
    MountGuard(MountGuardError),
    /// Hook validation error.
    HookValidation(HookValidationError),
    /// Self-check error.
    SelfCheck(SelfCheckError),
    /// Trust error.
    Trust(TrustError),
    /// IPC error.
    Ipc(IpcError),
    /// Other error.
    Other {
        /// Reason.
        reason: String,
    },
}

impl Error {
    /// The text shown for the error.
    pub open spec fn message_text(&self) -> Seq<char> {
        match self {
            Error::Io { context, source } => context@ + ": "@ + source@,
            Error::ConfigParse { path, source } => "failed to parse config "@ + debug_form(path@) + ": "@ + source@,
            Error::ConfigInvalid { reason } => "invalid config: "@ + reason@,
            Error::PrivilegedPath { context, source } => context@ + ": "@ + source@,
            Error::GostEnginePathUnreadable { path, source } => "gost_engine_path "@ + debug_form(path@) + " is not a readable file: "@ + source@,
            Error::GostEnginePathRequiresOpenssl => "gost_engine_path is only meaningful with crypto_backend = \"openssl\""@,
            Error::HostIdentity(x) => x.message_text(),
            Error::MountGuard(x) => x.message_text(),
            Error::HookValidation(x) => x.message_text(),
            Error::SelfCheck(x) => x.message_text(),
            Error::Trust(x) => x.message_text(),
            Error::Ipc(x) => x.message_text(),
            Error::Other { reason } => reason@,
        }
    }

    /// The text shown for the error.
    pub fn message(&self) -> (r: String)
        ensures
            r@ == self.message_text(),
    {
        match self {
            Error::Io { context, source } => cat3(context.as_str(), ": ", source.as_str()),
            Error::ConfigParse { path, source } => cat4("failed to parse config ", debug_text(path.as_str()).as_str(), ": ", source.as_str()),
            Error::ConfigInvalid { reason } => cat2("invalid config: ", reason.as_str()),
            Error::PrivilegedPath { context, source } => cat3(context.as_str(), ": ", source.as_str()),
            Error::GostEnginePathUnreadable { path, source } => cat4("gost_engine_path ", debug_text(path.as_str()).as_str(), " is not a readable file: ", source.as_str()),
            Error::GostEnginePathRequiresOpenssl => "gost_engine_path is only meaningful with crypto_backend = \"openssl\"".to_owned(),
            Error::HostIdentity(x) => x.message(),
            Error::MountGuard(x) => x.message(),
            Error::HookValidation(x) => x.message(),
            Error::SelfCheck(x) => x.message(),
            Error::Trust(x) => x.message(),
            Error::Ipc(x) => x.message(),
            Error::Other { reason } => reason.clone(),
        }
    }
}

/// Host identity resolution errors.
#[derive(Debug)]
pub enum HostIdentityError {
    /// Read failed.
    Read {
        /// Path read.
        path: String,
        /// Text of the underlying error.
        source: String,
    },
    /// Source yielded an empty value.
    Empty {
        /// Source kind.
        source_kind: HostIdSourceKind,
    },
    /// All configured sources failed.
    AllSourcesFailed {
        /// Attempt summaries.
        attempts: Vec<(HostIdSourceKind, String)>,
    },
    /// Command failed.
    CommandFailed {
        /// Captured stderr.
        stderr: String,
        /// Exit code.
        code: Option<i32>,
    },
    /// Command timed out.
    CommandTimeout,
    /// The custom command path failed the privileged-execution ownership and
    /// integrity walk: it is refused rather than executed.
    CommandUntrusted {
        /// Text of the validation failure.
        source: String,
    },
    /// Command missing.
    CommandNotConfigured,
    /// Override is forbidden.
    OverrideForbidden,
}

impl HostIdentityError {
    /// The text shown for the error.
    pub open spec fn message_text(&self) -> Seq<char> {
        match self {
            HostIdentityError::Read { path, source } => "failed to read "@ + debug_form(path@) + ": "@ + source@,
            HostIdentityError::Empty { source_kind } => "host identity source "@ + source_kind.variant() + " yielded empty value"@,
            HostIdentityError::AllSourcesFailed { .. } => "all host identity sources failed"@,
            HostIdentityError::CommandFailed { stderr, code } => "host identity command failed with code "@ + opt_i32_form(*code) + ": "@ + stderr@,
            HostIdentityError::CommandTimeout => "host identity command timed out"@,
            HostIdentityError::CommandUntrusted { source } => "host identity command failed path validation: "@ + source@,
            HostIdentityError::CommandNotConfigured => "custom command is not configured"@,
            HostIdentityError::OverrideForbidden => "host identity override is forbidden"@,
        }
    }

    /// The text shown for the error.
    pub fn message(&self) -> (r: String)
        ensures
            r@ == self.message_text(),
    {
        match self {
            HostIdentityError::Read { path, source } => cat4("failed to read ", debug_text(path.as_str()).as_str(), ": ", source.as_str()),
            HostIdentityError::Empty { source_kind } => cat3("host identity source ", source_kind.variant_name(), " yielded empty value"),
            HostIdentityError::AllSourcesFailed { .. } => "all host identity sources failed".to_owned(),
            HostIdentityError::CommandFailed { stderr, code } => cat4("host identity command failed with code ", opt_i32_text(code).as_str(), ": ", stderr.as_str()),
            HostIdentityError::CommandTimeout => "host identity command timed out".to_owned(),
            HostIdentityError::CommandUntrusted { source } => cat2("host identity command failed path validation: ", source.as_str()),
            HostIdentityError::CommandNotConfigured => "custom command is not configured".to_owned(),
            HostIdentityError::OverrideForbidden => "host identity override is forbidden".to_owned(),
        }
    }
}

/// Mount lifecycle errors.
#[derive(Debug)]
pub enum MountGuardError {
    /// Mount failed.
    Mount {
        /// Target path.
        target: String,
        /// Text of the underlying error.
        source: String,
    },
    /// Umount failed.
    Umount {
        /// Target path.
        target: String,
        /// Text of the underlying error.
        source: String,
    },
    /// Mkdir failed.
    Mkdir {
        /// Path.
        path: String,
        /// Text of the underlying error.
        source: String,
    },
    /// Rmdir failed.
    Rmdir {
        /// Path.
        path: String,
        /// Text of the underlying error.
        source: String,
    },
    /// Session id rejected.
    InvalidSessionId {
        /// Reason.
        reason: String,
    },
}

impl MountGuardError {
    /// The text shown for the error.
    pub open spec fn message_text(&self) -> Seq<char> {
        match self {
            MountGuardError::Mount { target, source } => "failed to mount "@ + debug_form(target@) + ": "@ + source@,
            MountGuardError::Umount { target, source } => "failed to umount "@ + debug_form(target@) + ": "@ + source@,
            MountGuardError::Mkdir { path, source } => "failed to create "@ + debug_form(path@) + ": "@ + source@,
            MountGuardError::Rmdir { path, source } => "failed to remove "@ + debug_form(path@) + ": "@ + source@,
            MountGuardError::InvalidSessionId { reason } => "invalid session id: "@ + reason@,
        }
    }

    /// The text shown for the error.
    pub fn message(&self) -> (r: String)
        ensures
            r@ == self.message_text(),
    {
        match self {
            MountGuardError::Mount { target, source } => cat4("failed to mount ", debug_text(target.as_str()).as_str(), ": ", source.as_str()),
            MountGuardError::Umount { target, source } => cat4("failed to umount ", debug_text(target.as_str()).as_str(), ": ", source.as_str()),
            MountGuardError::Mkdir { path, source } => cat4("failed to create ", debug_text(path.as_str()).as_str(), ": ", source.as_str()),
            MountGuardError::Rmdir { path, source } => cat4("failed to remove ", debug_text(path.as_str()).as_str(), ": ", source.as_str()),
            MountGuardError::InvalidSessionId { reason } => cat2("invalid session id: ", reason.as_str()),
        }
    }
}

/// Hook validation errors.
#[derive(Debug)]
pub enum HookValidationError {
    /// Placeholder is not available at the hook stage.
    PlaceholderNotAllowedAtStage {
        /// Stage.
        stage: HookStage,
        /// Placeholder.
        var: PlaceholderVar,
    },
    /// Command is empty.
    EmptyCommand,
    /// Command path is invalid.
    InvalidCommandPath {
        /// Path.
        path: String,
    },
    /// Timeout is invalid.
    InvalidTimeout,
    /// `run_as` names an identity that maps to no concrete UID: only `root` and
    /// `user` (the authenticating PAM user) are recognized.
    InvalidRunAs {
        /// The unrecognized value from config.
        value: String,
    },
    /// Template error.
    Template {
        /// Reason.
        reason: String,
    },
}

impl HookValidationError {
    /// The text shown for the error.
    pub open spec fn message_text(&self) -> Seq<char> {
        match self {
            HookValidationError::PlaceholderNotAllowedAtStage { stage, var } => "placeholder "@ + var.variant() + " is not allowed at "@ + stage.variant(),
            HookValidationError::EmptyCommand => "hook command is empty"@,
            HookValidationError::InvalidCommandPath { path } => "hook command path is invalid: "@ + path@,
            HookValidationError::InvalidTimeout => "hook timeout must be in 1..=120"@,
            HookValidationError::InvalidRunAs { value } => "invalid run_as "@ + debug_form(value@) + ": expected \"root\" or \"user\""@,
            HookValidationError::Template { reason } => reason@,
        }
    }

    /// The text shown for the error.
    pub fn message(&self) -> (r: String)
        ensures
            r@ == self.message_text(),
    {
        match self {
            HookValidationError::PlaceholderNotAllowedAtStage { stage, var } => cat4("placeholder ", var.variant_name(), " is not allowed at ", stage.variant_name()),
            HookValidationError::EmptyCommand => "hook command is empty".to_owned(),
            HookValidationError::InvalidCommandPath { path } => cat2("hook command path is invalid: ", path.as_str()),
            HookValidationError::InvalidTimeout => "hook timeout must be in 1..=120".to_owned(),
            HookValidationError::InvalidRunAs { value } => cat3("invalid run_as ", debug_text(value.as_str()).as_str(), ": expected \"root\" or \"user\""),
            HookValidationError::Template { reason } => reason.clone(),
        }
    }
}

/// Self-check errors.
#[derive(Debug)]
pub enum SelfCheckError {
    /// Anchor unreadable.
    AnchorUnreadable {
        /// Path.
        path: String,
    },
    /// Anchor is not PEM-looking.
    AnchorNotPem {
        /// Path.
        path: String,
    },
    /// CRL unreadable.
    CrlUnreadable {
        /// Path.
        path: String,
    },
    /// CRL is not PEM-looking.
    CrlNotPem {
        /// Path.
        path: String,
    },
    /// GOST engine is required by config but failed to load. The check fails
    /// closed.
    GostEngineUnavailable(GostEngineError),
    /// Hook command is missing.
    HookCommandMissing {
        /// Stage.
        stage: HookStage,
        /// Path.
        path: String,
    },
    /// PKCS#11 module file is missing or unreadable. The check fails closed.
    Pkcs11ModuleMissing(String),
    /// PKCS#11 backend loaded but no slot reports a present token. This is
    /// informational: the user may insert the token later.
    Pkcs11NoToken,
}

impl SelfCheckError {
    /// The text shown for the error.
    pub open spec fn message_text(&self) -> Seq<char> {
        match self {
            SelfCheckError::AnchorUnreadable { path } => "anchor unreadable: "@ + debug_form(path@),
            SelfCheckError::AnchorNotPem { path } => "anchor is not PEM-looking: "@ + debug_form(path@),
            SelfCheckError::CrlUnreadable { path } => "CRL unreadable: "@ + debug_form(path@),
            SelfCheckError::CrlNotPem { path } => "CRL is not PEM-looking: "@ + debug_form(path@),
            SelfCheckError::GostEngineUnavailable(x) => "gost-engine is required but unavailable: "@ + x.message_text(),
            SelfCheckError::HookCommandMissing { stage, path } => "hook command missing for "@ + stage.variant() + ": "@ + debug_form(path@),
            SelfCheckError::Pkcs11ModuleMissing(x) => "pkcs11 module unavailable: "@ + x@,
            SelfCheckError::Pkcs11NoToken => "pkcs11 has no token present (self-check)"@,
        }
    }

    /// The text shown for the error.
    pub fn message(&self) -> (r: String)
        ensures
            r@ == self.message_text(),
    {
        match self {
            SelfCheckError::AnchorUnreadable { path } => cat2("anchor unreadable: ", debug_text(path.as_str()).as_str()),
            SelfCheckError::AnchorNotPem { path } => cat2("anchor is not PEM-looking: ", debug_text(path.as_str()).as_str()),
            SelfCheckError::CrlUnreadable { path } => cat2("CRL unreadable: ", debug_text(path.as_str()).as_str()),
            SelfCheckError::CrlNotPem { path } => cat2("CRL is not PEM-looking: ", debug_text(path.as_str()).as_str()),
            SelfCheckError::GostEngineUnavailable(x) => cat2("gost-engine is required but unavailable: ", x.message().as_str()),
            SelfCheckError::HookCommandMissing { stage, path } => cat4("hook command missing for ", stage.variant_name(), ": ", debug_text(path.as_str()).as_str()),
            SelfCheckError::Pkcs11ModuleMissing(x) => cat2("pkcs11 module unavailable: ", x.as_str()),
            SelfCheckError::Pkcs11NoToken => "pkcs11 has no token present (self-check)".to_owned(),
        }
    }
}

/// Trust errors.
#[derive(Debug)]
pub enum TrustError {
    /// Verifier is not implemented.
    NotImplemented,
    /// No trust anchors configured.
    AnchorsEmpty,
    /// Anchor missing.
    AnchorMissing {
        /// Path.
        path: String,
    },
    /// Anchor is not PEM-looking.
    AnchorNotPem {
        /// Path.
        path: String,
    },
    /// Max chain depth is zero.
    MaxChainDepthZero,
    /// Clock skew too large.
    ClockSkewTooLarge,
    /// CRL path missing.
    CrlPathMissing {
        /// Path.
        path: String,
    },
    /// CRL revocation mode selected with no CRLs configured.
    CrlPathsEmpty,
    /// OCSP responder invalid.
    OcspResponderInvalid {
        /// Reason.
        reason: String,
    },
    /// OCSP request could not be built.
    OcspRequestBuild {
        /// Reason.
        reason: String,
    },
    /// OCSP transport failure (connect, write, read, premature close).
    OcspTransport {
        /// Reason.
        reason: String,
    },
    /// The overall OCSP exchange deadline elapsed.
    OcspTimeout,
    /// HTTP-level refusal.
    OcspHttp {
        /// Reason.
        reason: String,
    },
    /// `OCSPResponse` failed to parse or is structurally unusable.
    OcspMalformed {
        /// Reason.
        reason: String,
    },
    /// `OCSPResponseStatus` is not `successful`.
    OcspResponderRefused {
        /// Responder status as reported.
        status: String,
    },
    /// Responder signature does not verify against the trust anchors.
    OcspSignatureInvalid {
        /// Reason.
        reason: String,
    },
    /// Response carries a nonce that does not match the request nonce.
    OcspNonceMismatch,
    /// `thisUpdate`/`nextUpdate` window is invalid at verification time.
    OcspValidityWindow {
        /// Reason.
        reason: String,
    },
    /// Responder reported certificate status `unknown`; it refuses
    /// authentication.
    OcspStatusUnknown {
        /// Certificate serial (lowercase hex).
        serial: String,
    },
    /// gost-engine could not be loaded for OCSP response verification; it
    /// refuses authentication.
    OcspEngineUnavailable {
        /// Underlying engine load failure.
        source: GostEngineError,
    },
    /// Pinning hash invalid.
    PinningHashInvalid {
        /// Entry.
        entry: String,
    },
    /// A `[[trust_override]]` entry lists no anchors.
    TrustOverrideAnchorsEmpty,
    /// Two `[[trust_override]]` entries both claim the same host id.
    TrustOverrideHostIdOverlap {
        /// The normalized host id claimed by more than one override.
        host_id: String,
    },
    /// A `[[trust_override]]` entry lists a host id that is empty once
    /// normalized, which no host can match.
    TrustOverrideHostIdEmpty {
        /// The offending raw host id as written in the config.
        raw: String,
    },
}

impl TrustError {
    /// The text shown for the error.
    pub open spec fn message_text(&self) -> Seq<char> {
        match self {
            TrustError::NotImplemented => "trust verification is not implemented"@,
            TrustError::AnchorsEmpty => "trust.anchors must not be empty: at least one trust anchor is required"@,
            TrustError::AnchorMissing { path } => "anchor missing: "@ + debug_form(path@),
            TrustError::AnchorNotPem { path } => "anchor is not PEM-looking: "@ + debug_form(path@),
            TrustError::MaxChainDepthZero => "max_chain_depth must be at least 1"@,
            TrustError::ClockSkewTooLarge => "clock skew is too large"@,
            TrustError::CrlPathMissing { path } => "CRL path missing: "@ + debug_form(path@),
            TrustError::CrlPathsEmpty => "trust.revocation.mode = \"crl\" requires at least one entry in crl_paths; an empty CRL set would make every certificate pass the revocation check"@,
            TrustError::OcspResponderInvalid { reason } => "OCSP responder invalid: "@ + reason@,
            TrustError::OcspRequestBuild { reason } => "OCSP request build failed: "@ + reason@,
            TrustError::OcspTransport { reason } => "OCSP transport error: "@ + reason@,
            TrustError::OcspTimeout => "OCSP request timed out"@,
            TrustError::OcspHttp { reason } => "OCSP HTTP error: "@ + reason@,
            TrustError::OcspMalformed { reason } => "OCSP response malformed: "@ + reason@,
            TrustError::OcspResponderRefused { status } => "OCSP responder refused the request: "@ + status@,
            TrustError::OcspSignatureInvalid { reason } => "OCSP response signature invalid: "@ + reason@,
            TrustError::OcspNonceMismatch => "OCSP nonce mismatch"@,
            TrustError::OcspValidityWindow { reason } => "OCSP response validity window check failed: "@ + reason@,
            TrustError::OcspStatusUnknown { serial } => "OCSP status unknown for serial "@ + serial@,
            TrustError::OcspEngineUnavailable { source } => "gost-engine unavailable for OCSP response verification: "@ + source.message_text(),
            TrustError::PinningHashInvalid { entry } => "pinning hash invalid: "@ + entry@,
            TrustError::TrustOverrideAnchorsEmpty => "trust_override.anchors must not be empty: an override that narrows trust to no anchor cannot be satisfied; give it at least one anchor or remove it"@,
            TrustError::TrustOverrideHostIdOverlap { host_id } => "trust_override.when_host_id_in overlap: host id "@ + debug_form(host_id@) + " appears in more than one [[trust_override]] entry; each host may match at most one override"@,
            TrustError::TrustOverrideHostIdEmpty { raw } => "trust_override.when_host_id_in contains "@ + debug_form(raw@) + ", which is empty after normalization and can never match a host; remove it or give a real host id"@,
        }
    }

    /// The text shown for the error.
    pub fn message(&self) -> (r: String)
        ensures
            r@ == self.message_text(),
    {
        match self {
            TrustError::NotImplemented => "trust verification is not implemented".to_owned(),
            TrustError::AnchorsEmpty => "trust.anchors must not be empty: at least one trust anchor is required".to_owned(),
            TrustError::AnchorMissing { path } => cat2("anchor missing: ", debug_text(path.as_str()).as_str()),
            TrustError::AnchorNotPem { path } => cat2("anchor is not PEM-looking: ", debug_text(path.as_str()).as_str()),
            TrustError::MaxChainDepthZero => "max_chain_depth must be at least 1".to_owned(),
            TrustError::ClockSkewTooLarge => "clock skew is too large".to_owned(),
            TrustError::CrlPathMissing { path } => cat2("CRL path missing: ", debug_text(path.as_str()).as_str()),
            TrustError::CrlPathsEmpty => "trust.revocation.mode = \"crl\" requires at least one entry in crl_paths; an empty CRL set would make every certificate pass the revocation check".to_owned(),
            TrustError::OcspResponderInvalid { reason } => cat2("OCSP responder invalid: ", reason.as_str()),
            TrustError::OcspRequestBuild { reason } => cat2("OCSP request build failed: ", reason.as_str()),
            TrustError::OcspTransport { reason } => cat2("OCSP transport error: ", reason.as_str()),
            TrustError::OcspTimeout => "OCSP request timed out".to_owned(),
            TrustError::OcspHttp { reason } => cat2("OCSP HTTP error: ", reason.as_str()),
            TrustError::OcspMalformed { reason } => cat2("OCSP response malformed: ", reason.as_str()),
            TrustError::OcspResponderRefused { status } => cat2("OCSP responder refused the request: ", status.as_str()),
            TrustError::OcspSignatureInvalid { reason } => cat2("OCSP response signature invalid: ", reason.as_str()),
            TrustError::OcspNonceMismatch => "OCSP nonce mismatch".to_owned(),
            TrustError::OcspValidityWindow { reason } => cat2("OCSP response validity window check failed: ", reason.as_str()),
            TrustError::OcspStatusUnknown { serial } => cat2("OCSP status unknown for serial ", serial.as_str()),
            TrustError::OcspEngineUnavailable { source } => cat2("gost-engine unavailable for OCSP response verification: ", source.message().as_str()),
            TrustError::PinningHashInvalid { entry } => cat2("pinning hash invalid: ", entry.as_str()),
            TrustError::TrustOverrideAnchorsEmpty => "trust_override.anchors must not be empty: an override that narrows trust to no anchor cannot be satisfied; give it at least one anchor or remove it".to_owned(),
            TrustError::TrustOverrideHostIdOverlap { host_id } => cat3("trust_override.when_host_id_in overlap: host id ", debug_text(host_id.as_str()).as_str(), " appears in more than one [[trust_override]] entry; each host may match at most one override"),
            TrustError::TrustOverrideHostIdEmpty { raw } => cat3("trust_override.when_host_id_in contains ", debug_text(raw.as_str()).as_str(), ", which is empty after normalization and can never match a host; remove it or give a real host id"),
        }
    }
}

/// IPC errors.
#[derive(Debug)]
#[allow(inconsistent_fields)]
pub enum IpcError {
    /// Not connected.
    NotConnected,
    /// Legacy framing error (newline-delimited JSON encode failure).
    Encode(String),
    /// Wire-layer error.
    Wire(String),
    /// JSON decode failed.
    Decode(String),
    /// I/O failed.
    Io(String),
    /// Connect/send/recv exceeded the configured time budget.
    Timeout,
    /// Daemon is not reachable (socket missing / connect refused).
    Unavailable,
    /// Daemon refused our protocol version.
    ProtocolMismatch {
        /// Version the server reports.
        server: u32,
    },
    /// `SessionOpen` race lost: the USB device referenced by the session is
    /// no longer plugged in.
    DeviceGone,
    /// Daemon rejected our connection (likely `SCM_CREDENTIALS` uid != 0).
    Unauthorized,
    /// PAM module's monitor is disabled in config.
    Disabled,
    /// Daemon returned an unexpected message in response to our request.
    UnexpectedReply(String),
    /// Peer returned a typed protocol error (legacy enum form).
    Protocol {
        /// Name of the code.
        code: String,
        /// Message.
        message: String,
    },
    /// Server returned a generic error frame.
    Server {
        /// Numeric code.
        code: u32,
        /// Human-readable message.
        message: String,
    },
}

impl IpcError {
    /// The text shown for the error.
    pub open spec fn message_text(&self) -> Seq<char> {
        match self {
            IpcError::NotConnected => "not connected"@,
            IpcError::Encode(x) => x@,
            IpcError::Wire(x) => x@,
            IpcError::Decode(x) => "decode: "@ + x@,
            IpcError::Io(x) => x@,
            IpcError::Timeout => "monitord timeout"@,
            IpcError::Unavailable => "monitord unavailable"@,
            IpcError::ProtocolMismatch { server } => "protocol mismatch server="@ + dec(server as nat),
            IpcError::DeviceGone => "device gone"@,
            IpcError::Unauthorized => "unauthorized"@,
            IpcError::Disabled => "monitor disabled"@,
            IpcError::UnexpectedReply(x) => "unexpected reply: "@ + x@,
            IpcError::Protocol { code, message } => "protocol error "@ + code@ + ": "@ + message@,
            IpcError::Server { code, message } => "server error "@ + dec(code as nat) + ": "@ + message@,
        }
    }

    /// The text shown for the error.
    pub fn message(&self) -> (r: String)
        ensures
            r@ == self.message_text(),
    {
        match self {
            IpcError::NotConnected => "not connected".to_owned(),
            IpcError::Encode(x) => x.clone(),
            IpcError::Wire(x) => x.clone(),
            IpcError::Decode(x) => cat2("decode: ", x.as_str()),
            IpcError::Io(x) => x.clone(),
            IpcError::Timeout => "monitord timeout".to_owned(),
            IpcError::Unavailable => "monitord unavailable".to_owned(),
            IpcError::ProtocolMismatch { server } => cat2("protocol mismatch server=", decimal(*server as u64).as_str()),
            IpcError::DeviceGone => "device gone".to_owned(),
            IpcError::Unauthorized => "unauthorized".to_owned(),
            IpcError::Disabled => "monitor disabled".to_owned(),
            IpcError::UnexpectedReply(x) => cat2("unexpected reply: ", x.as_str()),
            IpcError::Protocol { code, message } => cat4("protocol error ", code.as_str(), ": ", message.as_str()),
            IpcError::Server { code, message } => cat4("server error ", decimal(*code as u64).as_str(), ": ", message.as_str()),
        }
    }
}

} // verus!
