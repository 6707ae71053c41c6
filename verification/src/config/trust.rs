//! Validation of the `[trust]` section and of the trust overrides.

use crate::collections::{clone_strings, opt_text, string_set_of, texts, StringSet};
use crate::config::fault::{
    either, fault_of, first_fault, invalid, lemma_first_fault, lemma_no_fault,
    no_fault_without_a_place, ConfigFault,
};
use crate::config::raw::{RawRevocation, RawRevocationMode, RawTrust, RawTrustOverride};
use crate::config::sections::value_or;
use crate::config::validated::{
    PinningSection, RevocationMode, RevocationSection, TrustOverride, TrustSection,
};
use crate::error::{Error, TrustError};
use crate::foreign::{debug_form, debug_text};
use crate::host_identity::chain::{normalize_host_id, normalized_id};
use crate::text::{
    all_hex, byte_len, cat3, chars_of, contains_str, dec, decimal, has_prefix, hex_value, is_all_hex,
    occurs_at, occurs_in, starts_with, utf8_len, what_occurs_is_there,
};
use crate::time::Duration;
use vstd::prelude::*;
use vstd::utf8::encode_utf8;
use vstd::string::*;

verus! {

/// Most certificates in a chain.
pub const MAX_CHAIN_DEPTH_HARD_CAP: u32 = 16;

/// Most clock skew, in seconds.
pub const CLOCK_SKEW_SECONDS_MAX: u64 = 600;

/// Deadline of one OCSP exchange, in seconds, where none is configured.
pub const OCSP_TIMEOUT_SECONDS_DEFAULT: u64 = 5;

/// Longest deadline of one OCSP exchange, in seconds.
pub const OCSP_TIMEOUT_SECONDS_MAX: u64 = 30;

/// Lifetime of an OCSP cache entry, in seconds, where none is configured.
pub const OCSP_CACHE_TTL_SECONDS_DEFAULT: u64 = 3600;

/// Longest lifetime of an OCSP cache entry, in seconds.
pub const OCSP_CACHE_TTL_SECONDS_MAX: u64 = 86400;

/// Longest age of a CRL, in hours.
pub const CRL_MAX_AGE_HOURS_MAX: u64 = 8760;

/// What was found of the files that a trust section names, in the order in which it names them.
/// A file that is not listed counts as unreadable.
#[derive(Debug)]
pub struct TrustFiles {
    /// Texts of the anchors; `None` where one could not be read.
    pub anchors: Vec<Option<String>>,
    /// Texts of the intermediates; `None` where one could not be read.
    pub intermediates: Vec<Option<String>>,
    /// Whether each CRL path is a regular file.
    pub crls: Vec<bool>,
}

/// The text found for a file, if it could be read.
pub open spec fn found_text(files: Seq<Option<String>>, i: int) -> Option<Seq<char>> {
    if i < files.len() {
        opt_text(files[i])
    } else {
        None
    }
}

/// Why a trust file is refused: unreadable, or without a certificate.
pub open spec fn pem_fault(path: Seq<char>, text: Option<Seq<char>>) -> Option<ConfigFault> {
    match text {
        None => Some(ConfigFault::AnchorMissing(path)),
        Some(t) => if occurs_in(t, "-----BEGIN CERTIFICATE-----"@) {
            None
        } else {
            Some(ConfigFault::AnchorNotPem(path))
        },
    }
}

/// Accepts a trust file by its text.
pub fn validate_pem(path: &String, text: Option<&String>) -> (r: Result<(), Error>)
    ensures
        r is Ok <==> pem_fault(path@, opt_ref_text(text)) is None,
        r matches Err(e) ==> pem_fault(path@, opt_ref_text(text)) == Some(fault_of(e)),
{
    match text {
        None => Err(Error::Trust(TrustError::AnchorMissing { path: path.clone() })),
        Some(t) => if contains_str(t.as_str(), "-----BEGIN CERTIFICATE-----") {
            Ok(())
        } else {
            Err(Error::Trust(TrustError::AnchorNotPem { path: path.clone() }))
        },
    }
}

/// The text of an optional string reference.
pub open spec fn opt_ref_text(v: Option<&String>) -> Option<Seq<char>> {
    match v {
        Some(s) => Some(s@),
        None => None,
    }
}

/// Why a list of trust files is refused: the first faulty one.
pub open spec fn pems_fault(paths: Seq<String>, files: Seq<Option<String>>) -> Option<ConfigFault> {
    first_fault(paths.len(), |i: int| pem_fault(paths[i]@, found_text(files, i)))
}

fn validate_pems(paths: &Vec<String>, files: &Vec<Option<String>>) -> (r: Result<(), Error>)
    ensures
        r is Ok <==> pems_fault(paths@, files@) is None,
        r matches Err(e) ==> pems_fault(paths@, files@) == Some(fault_of(e)),
{
    let ghost at = |i: int| pem_fault(paths@[i]@, found_text(files@, i));
    let mut i: usize = 0;
    while i < paths.len()
        invariant
            i <= paths@.len(),
            at == (|i: int| pem_fault(paths@[i]@, found_text(files@, i))),
            first_fault(i as nat, at) is None,
        decreases paths@.len() - i,
    {
        proof {
            if first_fault((i + 1) as nat, at) is Some {
                lemma_first_fault(paths@.len(), (i + 1) as nat, at);
            }
        }
        let text = if i < files.len() {
            match &files[i] {
                Some(t) => Some(t),
                None => None,
            }
        } else {
            None
        };
        match validate_pem(&paths[i], text) {
            Ok(()) => {},
            Err(e) => {
                return Err(e);
            },
        }
        i = i + 1;
    }
    Ok(())
}

// --- revocation -------------------------------------------------------------

/// Whether a mode asks a responder.
pub open spec fn asks_ocsp(m: RawRevocationMode) -> bool {
    m == RawRevocationMode::Ocsp || m == RawRevocationMode::CrlThenOcsp
}

/// A list of names with one more, where it is set.
pub open spec fn listed(text: Seq<char>, set: bool, name: Seq<char>) -> Seq<char> {
    if !set {
        text
    } else if text.len() == 0 {
        name
    } else {
        text + ", "@ + name
    }
}

fn list_name(text: &mut String, set: bool, name: &str)
    ensures
        final(text)@ == listed(old(text)@, set, name@),
{
    if set {
        if !text.as_str().is_empty() {
            text.append(", ");
        }
        text.append(name);
        proof {
            if old(text)@.len() == 0 {
                assert(text@ =~= name@);
            }
        }
    }
}

/// The OCSP keys that are set, as a list.
pub open spec fn set_ocsp_keys(raw: RawRevocation) -> Seq<char> {
    listed(
        listed(
            listed(Seq::empty(), raw.ocsp_responder_url is Some, "ocsp_responder_url"@),
            raw.ocsp_timeout_seconds is Some,
            "ocsp_timeout_seconds"@,
        ),
        raw.ocsp_cache_ttl_seconds is Some,
        "ocsp_cache_ttl_seconds"@,
    )
}

/// Whether any OCSP key is set.
pub open spec fn any_ocsp_key(raw: RawRevocation) -> bool {
    raw.ocsp_responder_url is Some || raw.ocsp_timeout_seconds is Some || raw.ocsp_cache_ttl_seconds
        is Some
}

/// Why the OCSP keys are refused. Where the mode asks a responder its URL is needed; where it
/// asks none a key would be ignored silently.
pub open spec fn ocsp_fault(raw: RawRevocation, mode: RawRevocationMode) -> Option<ConfigFault> {
    let timeout = value_or(raw.ocsp_timeout_seconds, OCSP_TIMEOUT_SECONDS_DEFAULT);
    let ttl = value_or(raw.ocsp_cache_ttl_seconds, OCSP_CACHE_TTL_SECONDS_DEFAULT);
    if !asks_ocsp(mode) {
        if any_ocsp_key(raw) {
            Some(
                ConfigFault::Invalid(
                    "trust.revocation: "@ + set_ocsp_keys(raw)
                        + " only valid when mode = \"ocsp\" or \"crl_then_ocsp\""@,
                ),
            )
        } else {
            None
        }
    } else if raw.ocsp_responder_url is None {
        Some(
            ConfigFault::OcspResponderInvalid(
                "trust.revocation.ocsp_responder_url is required when mode = \"ocsp\" or \"crl_then_ocsp\""@,
            ),
        )
    } else if !is_http_url(raw.ocsp_responder_url->0@) {
        Some(
            ConfigFault::OcspResponderInvalid(
                "trust.revocation.ocsp_responder_url must start with http:// or https:// (got "@
                    + debug_form(raw.ocsp_responder_url->0@) + ")"@,
            ),
        )
    } else if !(1 <= timeout <= OCSP_TIMEOUT_SECONDS_MAX) {
        Some(
            ConfigFault::Invalid(
                "trust.revocation.ocsp_timeout_seconds must be in 1..=30 (got "@ + dec(
                    timeout as nat,
                ) + ")"@,
            ),
        )
    } else if ttl > OCSP_CACHE_TTL_SECONDS_MAX {
        Some(
            ConfigFault::Invalid(
                "trust.revocation.ocsp_cache_ttl_seconds must be in 0..=86400 (got "@ + dec(
                    ttl as nat,
                ) + ")"@,
            ),
        )
    } else {
        None
    }
}

/// Whether a URL is one of HTTP, plain or secured.
pub open spec fn is_http_url(url: Seq<char>) -> bool {
    has_prefix(url, "http://"@) || has_prefix(url, "https://"@)
}

/// Validated OCSP keys.
#[derive(Debug)]
pub struct OcspSettings {
    /// Responder URL.
    pub responder_url: Option<String>,
    /// Deadline of one exchange.
    pub timeout: Duration,
    /// Lifetime of a cache entry; zero disables the cache.
    pub cache_ttl: Duration,
}

/// Validate the OCSP keys of `[trust.revocation]`.
pub fn validate_ocsp(raw: &RawRevocation, mode: RawRevocationMode) -> (r: Result<
    OcspSettings,
    Error,
>)
    ensures
        r matches Ok(o) ==> ocsp_fault(*raw, mode) is None && o.responder_url
            == raw.ocsp_responder_url && o.timeout == Duration::of_secs(
            value_or(raw.ocsp_timeout_seconds, OCSP_TIMEOUT_SECONDS_DEFAULT),
        ) && o.cache_ttl == Duration::of_secs(
            value_or(raw.ocsp_cache_ttl_seconds, OCSP_CACHE_TTL_SECONDS_DEFAULT),
        ),
        r matches Err(e) ==> ocsp_fault(*raw, mode) == Some(fault_of(e)),
{
    let ocsp_capable = matches!(mode, RawRevocationMode::Ocsp | RawRevocationMode::CrlThenOcsp);
    if !ocsp_capable {
        if raw.ocsp_responder_url.is_some() || raw.ocsp_timeout_seconds.is_some()
            || raw.ocsp_cache_ttl_seconds.is_some() {
            let mut keys = String::new();
            list_name(&mut keys, raw.ocsp_responder_url.is_some(), "ocsp_responder_url");
            list_name(&mut keys, raw.ocsp_timeout_seconds.is_some(), "ocsp_timeout_seconds");
            list_name(&mut keys, raw.ocsp_cache_ttl_seconds.is_some(), "ocsp_cache_ttl_seconds");
            return Err(
                invalid(
                    cat3(
                        "trust.revocation: ",
                        keys.as_str(),
                        " only valid when mode = \"ocsp\" or \"crl_then_ocsp\"",
                    ),
                ),
            );
        }
        return Ok(
            OcspSettings {
                responder_url: None,
                timeout: Duration::from_secs(OCSP_TIMEOUT_SECONDS_DEFAULT),
                cache_ttl: Duration::from_secs(OCSP_CACHE_TTL_SECONDS_DEFAULT),
            },
        );
    }
    let url = match &raw.ocsp_responder_url {
        Some(url) => url,
        None => {
            return Err(
                Error::Trust(
                    TrustError::OcspResponderInvalid {
                        reason:
                            "trust.revocation.ocsp_responder_url is required when mode = \"ocsp\" or \"crl_then_ocsp\"".to_owned(),
                    },
                ),
            );
        },
    };
    if !(starts_with(url.as_str(), "http://") || starts_with(url.as_str(), "https://")) {
        let shown = debug_text(url.as_str());
        return Err(
            Error::Trust(
                TrustError::OcspResponderInvalid {
                    reason: cat3(
                        "trust.revocation.ocsp_responder_url must start with http:// or https:// (got ",
                        shown.as_str(),
                        ")",
                    ),
                },
            ),
        );
    }
    let timeout: u64 = match raw.ocsp_timeout_seconds {
        Some(n) => n,
        None => OCSP_TIMEOUT_SECONDS_DEFAULT,
    };
    if timeout < 1 || timeout > OCSP_TIMEOUT_SECONDS_MAX {
        return Err(
            invalid(
                cat3(
                    "trust.revocation.ocsp_timeout_seconds must be in 1..=30 (got ",
                    decimal(timeout).as_str(),
                    ")",
                ),
            ),
        );
    }
    let ttl: u64 = match raw.ocsp_cache_ttl_seconds {
        Some(n) => n,
        None => OCSP_CACHE_TTL_SECONDS_DEFAULT,
    };
    if ttl > OCSP_CACHE_TTL_SECONDS_MAX {
        return Err(
            invalid(
                cat3(
                    "trust.revocation.ocsp_cache_ttl_seconds must be in 0..=86400 (got ",
                    decimal(ttl).as_str(),
                    ")",
                ),
            ),
        );
    }
    Ok(
        OcspSettings {
            responder_url: Some(url.clone()),
            timeout: Duration::from_secs(timeout),
            cache_ttl: Duration::from_secs(ttl),
        },
    )
}

/// Why the CRLs of CRL mode are refused: none, or one that is no file.
pub open spec fn crls_fault(paths: Seq<String>, found: Seq<bool>) -> Option<ConfigFault> {
    if paths.len() == 0 {
        Some(ConfigFault::CrlPathsEmpty)
    } else {
        first_fault(paths.len(), |i: int| crl_path_fault(paths, found, i))
    }
}

/// Why a CRL path is refused.
pub open spec fn crl_path_fault(paths: Seq<String>, found: Seq<bool>, i: int) -> Option<
    ConfigFault,
> {
    if i < found.len() && found[i] {
        None
    } else {
        Some(ConfigFault::CrlPathMissing(paths[i]@))
    }
}

fn validate_crls(paths: &Vec<String>, found: &Vec<bool>) -> (r: Result<(), Error>)
    ensures
        r is Ok <==> crls_fault(paths@, found@) is None,
        r matches Err(e) ==> crls_fault(paths@, found@) == Some(fault_of(e)),
{
    if paths.len() == 0 {
        return Err(Error::Trust(TrustError::CrlPathsEmpty));
    }
    let ghost at = |i: int| crl_path_fault(paths@, found@, i);
    let mut i: usize = 0;
    while i < paths.len()
        invariant
            i <= paths@.len(),
            at == (|i: int| crl_path_fault(paths@, found@, i)),
            first_fault(i as nat, at) is None,
            paths@.len() > 0,
        decreases paths@.len() - i,
    {
        proof {
            if first_fault((i + 1) as nat, at) is Some {
                lemma_first_fault(paths@.len(), (i + 1) as nat, at);
            }
        }
        if !(i < found.len() && found[i]) {
            return Err(Error::Trust(TrustError::CrlPathMissing { path: paths[i].clone() }));
        }
        i = i + 1;
    }
    Ok(())
}

/// The refusal of a revocation mode that was left out.
pub open spec fn missing_mode_fault() -> ConfigFault {
    ConfigFault::Invalid(
        "trust.revocation.mode is required; write mode = \"none\" to disable revocation checking"@,
    )
}

/// The mode of a revocation section.
pub open spec fn revocation_mode(m: RawRevocationMode) -> RevocationMode {
    match m {
        RawRevocationMode::Off => RevocationMode::Off,
        RawRevocationMode::Crl => RevocationMode::Crl,
        RawRevocationMode::Ocsp => RevocationMode::Ocsp,
        RawRevocationMode::CrlThenOcsp => RevocationMode::CrlThenOcsp,
    }
}

/// Why a revocation section is refused.
pub open spec fn revocation_fault(raw: Option<RawRevocation>, crls: Seq<bool>) -> Option<
    ConfigFault,
> {
    match raw {
        None => Some(missing_mode_fault()),
        Some(r) => match r.mode {
            None => Some(missing_mode_fault()),
            Some(mode) => either(
                if mode == RawRevocationMode::Crl {
                    crls_fault(r.crl_paths@, crls)
                } else {
                    None
                },
                either(
                    ocsp_fault(r, mode),
                    match r.crl_max_age_hours {
                        Some(h) => if 1 <= h <= CRL_MAX_AGE_HOURS_MAX {
                            None
                        } else {
                            Some(
                                ConfigFault::Invalid(
                                    "trust.revocation.crl_max_age_hours must be within 1..=8760 (got "@
                                        + dec(h as nat) + ")"@,
                                ),
                            )
                        },
                        None => None,
                    },
                ),
            ),
        },
    }
}

/// Whether a section is what validation makes of a raw revocation section.
pub open spec fn revocation_validated(raw: Option<RawRevocation>, s: RevocationSection) -> bool {
    let r = raw->0;
    &&& raw is Some && r.mode is Some
    &&& s.mode == revocation_mode(r.mode->0)
    &&& s.crl_paths@ == r.crl_paths@
    &&& s.crl_max_age == match r.crl_max_age_hours {
        Some(h) => Some(Duration::of_secs((h * 3600) as u64)),
        None => None,
    }
    &&& s.ocsp_responder_url == r.ocsp_responder_url
    &&& s.ocsp_timeout == Duration::of_secs(
        value_or(r.ocsp_timeout_seconds, OCSP_TIMEOUT_SECONDS_DEFAULT),
    )
    &&& s.ocsp_cache_ttl == Duration::of_secs(
        value_or(r.ocsp_cache_ttl_seconds, OCSP_CACHE_TTL_SECONDS_DEFAULT),
    )
}

/// Validate the revocation section. Leaving it out, or its mode, is refused: revocation checking
/// is never disabled silently.
pub fn validate_revocation(raw: &Option<RawRevocation>, crls: &Vec<bool>) -> (r: Result<
    RevocationSection,
    Error,
>)
    ensures
        r matches Ok(s) ==> revocation_fault(*raw, crls@) is None && revocation_validated(*raw, s),
        r matches Err(e) ==> revocation_fault(*raw, crls@) == Some(fault_of(e)),
{
    let section = match raw {
        Some(s) => s,
        None => {
            return Err(
                invalid(
                    "trust.revocation.mode is required; write mode = \"none\" to disable revocation checking".to_owned(),
                ),
            );
        },
    };
    let raw_mode = match section.mode {
        Some(m) => m,
        None => {
            return Err(
                invalid(
                    "trust.revocation.mode is required; write mode = \"none\" to disable revocation checking".to_owned(),
                ),
            );
        },
    };
    if matches!(raw_mode, RawRevocationMode::Crl) {
        match validate_crls(&section.crl_paths, crls) {
            Ok(()) => {},
            Err(e) => {
                return Err(e);
            },
        }
    }
    let ocsp = match validate_ocsp(section, raw_mode) {
        Ok(o) => o,
        Err(e) => {
            return Err(e);
        },
    };
    let crl_max_age = match section.crl_max_age_hours {
        None => None,
        Some(hours) => {
            if hours < 1 || hours > CRL_MAX_AGE_HOURS_MAX {
                return Err(
                    invalid(
                        cat3(
                            "trust.revocation.crl_max_age_hours must be within 1..=8760 (got ",
                            decimal(hours).as_str(),
                            ")",
                        ),
                    ),
                );
            }
            Some(Duration::from_secs(hours * 3600))
        },
    };
    let mode = match raw_mode {
        RawRevocationMode::Off => RevocationMode::Off,
        RawRevocationMode::Crl => RevocationMode::Crl,
        RawRevocationMode::Ocsp => RevocationMode::Ocsp,
        RawRevocationMode::CrlThenOcsp => RevocationMode::CrlThenOcsp,
    };
    Ok(
        RevocationSection {
            mode,
            crl_paths: clone_strings(&section.crl_paths),
            crl_max_age,
            ocsp_responder_url: ocsp.responder_url,
            ocsp_timeout: ocsp.timeout,
            ocsp_cache_ttl: ocsp.cache_ttl,
        },
    )
}

// --- [trust] ----------------------------------------------------------------

/// Whether a pin is a SHA-256 digest in hexadecimal.
pub open spec fn is_pin(s: Seq<char>) -> bool {
    utf8_len(s) == 64 && all_hex(s)
}

/// Why a pin is refused.
pub open spec fn pin_fault(s: Seq<char>) -> Option<ConfigFault> {
    if is_pin(s) {
        None
    } else {
        Some(ConfigFault::PinningHashInvalid(s))
    }
}

fn validate_pins(pins: &Vec<String>) -> (r: Result<(), Error>)
    ensures
        r is Ok <==> first_fault(pins@.len(), |i: int| pin_fault(pins@[i]@)) is None,
        r matches Err(e) ==> first_fault(pins@.len(), |i: int| pin_fault(pins@[i]@)) == Some(
            fault_of(e),
        ),
{
    let ghost at = |i: int| pin_fault(pins@[i]@);
    let mut i: usize = 0;
    while i < pins.len()
        invariant
            i <= pins@.len(),
            at == (|i: int| pin_fault(pins@[i]@)),
            first_fault(i as nat, at) is None,
        decreases pins@.len() - i,
    {
        proof {
            if first_fault((i + 1) as nat, at) is Some {
                lemma_first_fault(pins@.len(), (i + 1) as nat, at);
            }
        }
        let chars = chars_of(pins[i].as_str());
        assert(chars@.subrange(0, chars@.len() as int) =~= chars@);
        if byte_len(pins[i].as_str()) != 64 || !is_all_hex(&chars, 0, chars.len()) {
            return Err(Error::Trust(TrustError::PinningHashInvalid { entry: pins[i].clone() }));
        }
        i = i + 1;
    }
    Ok(())
}

/// The algorithms allowed where none are configured: neither SHA-1 nor GOST is among them.
pub open spec fn default_algorithms() -> Seq<Seq<char>> {
    seq![
        "sha256WithRSAEncryption"@,
        "sha384WithRSAEncryption"@,
        "sha512WithRSAEncryption"@,
        "ecdsa-with-SHA256"@,
        "ecdsa-with-SHA384"@,
        "ecdsa-with-SHA512"@,
    ]
}

/// The allowed algorithms: those configured, else the default ones.
pub open spec fn allowed_algorithms(raw: Seq<String>) -> Set<Seq<char>> {
    if raw.len() == 0 {
        default_algorithms().to_set()
    } else {
        texts(raw).to_set()
    }
}

fn read_algorithms(raw: &Vec<String>) -> (r: StringSet)
    ensures
        r.wf(),
        r@ == allowed_algorithms(raw@),
{
    if raw.len() == 0 {
        let mut v: Vec<String> = Vec::new();
        v.push("sha256WithRSAEncryption".to_owned());
        v.push("sha384WithRSAEncryption".to_owned());
        v.push("sha512WithRSAEncryption".to_owned());
        v.push("ecdsa-with-SHA256".to_owned());
        v.push("ecdsa-with-SHA384".to_owned());
        v.push("ecdsa-with-SHA512".to_owned());
        assert(texts(v@) =~= default_algorithms());
        string_set_of(&v)
    } else {
        string_set_of(raw)
    }
}

/// Why a `[trust]` section is refused: the first rule that it breaks.
pub open spec fn trust_fault(raw: RawTrust, files: TrustFiles) -> Option<ConfigFault> {
    if raw.anchors@.len() == 0 {
        Some(ConfigFault::AnchorsEmpty)
    } else if raw.max_chain_depth == 0 {
        Some(ConfigFault::MaxChainDepthZero)
    } else if raw.max_chain_depth > MAX_CHAIN_DEPTH_HARD_CAP {
        Some(
            ConfigFault::Invalid(
                "trust.max_chain_depth "@ + dec(raw.max_chain_depth as nat)
                    + " exceeds hard cap 16"@,
            ),
        )
    } else if raw.clock_skew_seconds > CLOCK_SKEW_SECONDS_MAX {
        Some(ConfigFault::ClockSkewTooLarge)
    } else if pems_fault(raw.anchors@, files.anchors@) is Some {
        pems_fault(raw.anchors@, files.anchors@)
    } else if pems_fault(raw.intermediates@, files.intermediates@) is Some {
        pems_fault(raw.intermediates@, files.intermediates@)
    } else if revocation_fault(raw.revocation, files.crls@) is Some {
        revocation_fault(raw.revocation, files.crls@)
    } else if raw.pinning.enabled {
        first_fault(
            raw.pinning.allowed_root_spki_sha256@.len(),
            |i: int| pin_fault(raw.pinning.allowed_root_spki_sha256@[i]@),
        )
    } else {
        None
    }
}

/// Whether a section is what validation makes of a raw `[trust]`.
pub open spec fn trust_validated(raw: RawTrust, profile_version: u32, s: TrustSection) -> bool {
    &&& s.anchors@ == raw.anchors@
    &&& s.intermediates@ == raw.intermediates@
    &&& revocation_validated(raw.revocation, s.revocation)
    &&& s.allowed_signature_algorithms.wf()
    &&& s.allowed_signature_algorithms@ == allowed_algorithms(raw.allowed_signature_algorithms@)
    &&& s.pinning.enabled == raw.pinning.enabled
    &&& s.pinning.allowed_root_spki_sha256@ == raw.pinning.allowed_root_spki_sha256@
    &&& s.max_chain_depth == raw.max_chain_depth
    &&& s.clock_skew_seconds == raw.clock_skew_seconds
    &&& s.max_supported_profile_version == value_or(
        raw.max_supported_profile_version,
        profile_version,
    )
}

/// Validate the `[trust]` section against what was found of its files; `profile_version` is the
/// highest profile version that the build understands.
pub fn validate_trust(raw: &RawTrust, files: &TrustFiles, profile_version: u32) -> (r: Result<
    TrustSection,
    Error,
>)
    ensures
        r matches Ok(s) ==> trust_fault(*raw, *files) is None && trust_validated(
            *raw,
            profile_version,
            s,
        ),
        r matches Err(e) ==> trust_fault(*raw, *files) == Some(fault_of(e)),
{
    if raw.anchors.len() == 0 {
        return Err(Error::Trust(TrustError::AnchorsEmpty));
    }
    if raw.max_chain_depth == 0 {
        return Err(Error::Trust(TrustError::MaxChainDepthZero));
    }
    if raw.max_chain_depth > MAX_CHAIN_DEPTH_HARD_CAP {
        return Err(
            invalid(
                cat3(
                    "trust.max_chain_depth ",
                    decimal(raw.max_chain_depth as u64).as_str(),
                    " exceeds hard cap 16",
                ),
            ),
        );
    }
    if raw.clock_skew_seconds > CLOCK_SKEW_SECONDS_MAX {
        return Err(Error::Trust(TrustError::ClockSkewTooLarge));
    }
    match validate_pems(&raw.anchors, &files.anchors) {
        Ok(()) => {},
        Err(e) => {
            return Err(e);
        },
    }
    match validate_pems(&raw.intermediates, &files.intermediates) {
        Ok(()) => {},
        Err(e) => {
            return Err(e);
        },
    }
    let revocation = match validate_revocation(&raw.revocation, &files.crls) {
        Ok(s) => s,
        Err(e) => {
            return Err(e);
        },
    };
    if raw.pinning.enabled {
        match validate_pins(&raw.pinning.allowed_root_spki_sha256) {
            Ok(()) => {},
            Err(e) => {
                return Err(e);
            },
        }
    }
    let max_supported_profile_version: u32 = match raw.max_supported_profile_version {
        Some(v) => v,
        None => profile_version,
    };
    Ok(
        TrustSection {
            anchors: clone_strings(&raw.anchors),
            intermediates: clone_strings(&raw.intermediates),
            revocation,
            allowed_signature_algorithms: read_algorithms(&raw.allowed_signature_algorithms),
            pinning: PinningSection {
                enabled: raw.pinning.enabled,
                allowed_root_spki_sha256: clone_strings(&raw.pinning.allowed_root_spki_sha256),
            },
            max_chain_depth: raw.max_chain_depth,
            clock_skew_seconds: raw.clock_skew_seconds,
            max_supported_profile_version,
        },
    )
}

/// Of an accepted section: there is an anchor, depth and skew are bounded, the responder is set
/// exactly in the modes that ask one, CRL mode has a CRL, and enabled pins are digests.
pub proof fn accepted_trust_is_sound(
    raw: RawTrust,
    files: TrustFiles,
    profile_version: u32,
    s: TrustSection,
)
    requires
        trust_fault(raw, files) is None,
        trust_validated(raw, profile_version, s),
    ensures
        s.anchors@.len() > 0,
        1 <= s.max_chain_depth <= 16,
        s.clock_skew_seconds <= 600,
        s.revocation.ocsp_responder_url is Some <==> s.revocation.mode == RevocationMode::Ocsp
            || s.revocation.mode == RevocationMode::CrlThenOcsp,
        s.revocation.ocsp_responder_url matches Some(url) ==> is_http_url(url@),
        s.revocation.mode == RevocationMode::Crl ==> s.revocation.crl_paths@.len() > 0,
        1 <= s.revocation.ocsp_timeout.secs <= 30,
        s.revocation.ocsp_cache_ttl.secs <= 86400,
        s.pinning.enabled ==> forall|i: int|
            0 <= i < s.pinning.allowed_root_spki_sha256@.len() ==> is_pin(
                (#[trigger] s.pinning.allowed_root_spki_sha256@[i])@,
            ),
{
    if s.pinning.enabled {
        let pins = raw.pinning.allowed_root_spki_sha256@;
        let at = |i: int| pin_fault(raw.pinning.allowed_root_spki_sha256@[i]@);
        assert forall|i: int| 0 <= i < pins.len() implies is_pin((#[trigger] pins[i])@) by {
            lemma_no_fault(pins.len(), i, at);
        }
    }
}

/// The algorithms allowed by default leave out GOST.
pub proof fn default_algorithms_need_no_engine(raw: Seq<String>)
    requires
        raw.len() == 0,
    ensures
        !crate::config::validated::any_gost(allowed_algorithms(raw)),
{
    let d = default_algorithms();
    reveal_strlit("sha256WithRSAEncryption");
    reveal_strlit("sha384WithRSAEncryption");
    reveal_strlit("sha512WithRSAEncryption");
    reveal_strlit("ecdsa-with-SHA256");
    reveal_strlit("ecdsa-with-SHA384");
    reveal_strlit("ecdsa-with-SHA512");
    reveal_strlit("1.2.643.7.1.1.3.2");
    reveal_strlit("1.2.643.7.1.1.3.3");
    reveal_strlit("id-tc26-signwithdigest-gost3410-2012-256");
    reveal_strlit("id-tc26-signwithdigest-gost3410-2012-512");
    reveal_strlit("GOST R 34.10-2012 with GOST R 34.11-2012 (256 bit)");
    reveal_strlit("GOST R 34.10-2012 with GOST R 34.11-2012 (512 bit)");
    assert forall|s: Seq<char>| allowed_algorithms(raw).contains(s) implies !(
    #[trigger] crate::x509::alg_named(s)).gost() by {
        let k = choose|k: int| 0 <= k < d.len() && d[k] == s;
        assert(s == d[0] || s == d[1] || s == d[2] || s == d[3] || s == d[4] || s == d[5]);
        assert(s[0] == 's' || s[0] == 'e');
        assert("1.2.643.7.1.1.3.2"@[0] == '1');
        assert("1.2.643.7.1.1.3.3"@[0] == '1');
        assert("id-tc26-signwithdigest-gost3410-2012-256"@[0] == 'i');
        assert("id-tc26-signwithdigest-gost3410-2012-512"@[0] == 'i');
        assert("GOST R 34.10-2012 with GOST R 34.11-2012 (256 bit)"@[0] == 'G');
        assert("GOST R 34.10-2012 with GOST R 34.11-2012 (512 bit)"@[0] == 'G');
    }
}

// --- [[trust_override]] -----------------------------------------------------

/// Why a host id of an override is refused: no host has it.
pub open spec fn host_id_fault(id: Seq<char>) -> Option<ConfigFault> {
    if normalized_id(id).len() == 0 {
        Some(ConfigFault::OverrideHostIdEmpty(id))
    } else {
        None
    }
}

/// Why one trust override is refused.
pub open spec fn override_fault(
    raw: RawTrustOverride,
    anchors: Seq<Option<String>>,
    intermediates: Seq<Option<String>>,
) -> Option<ConfigFault> {
    if raw.when_host_id_in@.len() == 0 {
        Some(ConfigFault::Invalid("trust_override.when_host_id_in must be non-empty"@))
    } else if raw.anchors@.len() == 0 {
        Some(ConfigFault::OverrideAnchorsEmpty)
    } else {
        either(
            first_fault(
                raw.when_host_id_in@.len(),
                |i: int| host_id_fault(raw.when_host_id_in@[i]@),
            ),
            either(
                pems_fault(raw.anchors@, anchors),
                pems_fault(raw.intermediates@, intermediates),
            ),
        )
    }
}

/// Whether an override is what validation makes of a raw one.
pub open spec fn override_validated(raw: RawTrustOverride, o: TrustOverride) -> bool {
    &&& o.when_host_id_in.wf()
    &&& o.when_host_id_in@ == texts(raw.when_host_id_in@).to_set()
    &&& o.anchors@ == raw.anchors@
    &&& o.intermediates@ == raw.intermediates@
}

fn validate_host_ids(ids: &Vec<String>) -> (r: Result<(), Error>)
    ensures
        r is Ok <==> first_fault(ids@.len(), |i: int| host_id_fault(ids@[i]@)) is None,
        r matches Err(e) ==> first_fault(ids@.len(), |i: int| host_id_fault(ids@[i]@)) == Some(
            fault_of(e),
        ),
{
    let ghost at = |i: int| host_id_fault(ids@[i]@);
    let mut i: usize = 0;
    while i < ids.len()
        invariant
            i <= ids@.len(),
            at == (|i: int| host_id_fault(ids@[i]@)),
            first_fault(i as nat, at) is None,
        decreases ids@.len() - i,
    {
        proof {
            if first_fault((i + 1) as nat, at) is Some {
                lemma_first_fault(ids@.len(), (i + 1) as nat, at);
            }
        }
        if normalize_host_id(ids[i].as_str()).as_str().is_empty() {
            return Err(Error::Trust(TrustError::TrustOverrideHostIdEmpty { raw: ids[i].clone() }));
        }
        i = i + 1;
    }
    Ok(())
}

/// Validate one trust override against what was found of its files.
pub fn validate_trust_override(raw: &RawTrustOverride, files: &TrustFiles) -> (r: Result<
    TrustOverride,
    Error,
>)
    ensures
        r matches Ok(o) ==> override_fault(*raw, files.anchors@, files.intermediates@) is None
            && override_validated(*raw, o),
        r matches Err(e) ==> override_fault(*raw, files.anchors@, files.intermediates@) == Some(
            fault_of(e),
        ),
{
    if raw.when_host_id_in.len() == 0 {
        return Err(invalid("trust_override.when_host_id_in must be non-empty".to_owned()));
    }
    if raw.anchors.len() == 0 {
        return Err(Error::Trust(TrustError::TrustOverrideAnchorsEmpty));
    }
    match validate_host_ids(&raw.when_host_id_in) {
        Ok(()) => {},
        Err(e) => {
            return Err(e);
        },
    }
    match validate_pems(&raw.anchors, &files.anchors) {
        Ok(()) => {},
        Err(e) => {
            return Err(e);
        },
    }
    match validate_pems(&raw.intermediates, &files.intermediates) {
        Ok(()) => {},
        Err(e) => {
            return Err(e);
        },
    }
    Ok(
        TrustOverride {
            when_host_id_in: string_set_of(&raw.when_host_id_in),
            anchors: clone_strings(&raw.anchors),
            intermediates: clone_strings(&raw.intermediates),
        },
    )
}

/// Whether one of the first `n` overrides names the host id, once normalized.
pub open spec fn claimed(raw: Seq<RawTrustOverride>, n: int, id: Seq<char>) -> bool {
    exists|j: int, k: int| #[trigger] claims(raw, j, k, id) && j < n
}

/// Whether the `k`th id of override `j` is the host id, once normalized.
pub open spec fn claims(raw: Seq<RawTrustOverride>, j: int, k: int, id: Seq<char>) -> bool {
    &&& 0 <= j < raw.len()
    &&& 0 <= k < raw[j].when_host_id_in@.len()
    &&& normalized_id(raw[j].when_host_id_in@[k]@) == id
}

/// The refusal of a host id that an earlier override names too.
pub open spec fn overlap_at(raw: Seq<RawTrustOverride>, i: int, k: int) -> Option<ConfigFault> {
    let id = normalized_id(raw[i].when_host_id_in@[k]@);
    if claimed(raw, i, id) {
        Some(ConfigFault::OverrideHostIdOverlap(id))
    } else {
        None
    }
}

/// The first overlap of an override with the earlier ones.
pub open spec fn overlap_of(raw: Seq<RawTrustOverride>, i: int) -> Option<ConfigFault> {
    first_fault(raw[i].when_host_id_in@.len(), |k: int| overlap_at(raw, i, k))
}

/// Why the trust overrides overlap: the first host id that two of them name.
pub open spec fn overlap_fault(raw: Seq<RawTrustOverride>) -> Option<ConfigFault> {
    first_fault(raw.len(), |i: int| overlap_of(raw, i))
}

fn check_overlap_of(raw: &Vec<RawTrustOverride>, i: usize, seen: &StringSet) -> (r: Result<
    (),
    Error,
>)
    requires
        i < raw@.len(),
        seen.wf(),
        forall|id: Seq<char>| #[trigger] seen@.contains(id) == claimed(raw@, i as int, id),
    ensures
        r is Ok <==> overlap_of(raw@, i as int) is None,
        r matches Err(e) ==> overlap_of(raw@, i as int) == Some(fault_of(e)),
{
    let ids = &raw[i].when_host_id_in;
    let ghost at = |k: int| overlap_at(raw@, i as int, k);
    let mut k: usize = 0;
    while k < ids.len()
        invariant
            i < raw@.len(),
            ids == raw@[i as int].when_host_id_in,
            k <= ids@.len(),
            seen.wf(),
            forall|id: Seq<char>| #[trigger] seen@.contains(id) == claimed(raw@, i as int, id),
            at == (|k: int| overlap_at(raw@, i as int, k)),
            first_fault(k as nat, at) is None,
        decreases ids@.len() - k,
    {
        proof {
            if first_fault((k + 1) as nat, at) is Some {
                lemma_first_fault(ids@.len(), (k + 1) as nat, at);
            }
        }
        let id = normalize_host_id(ids[k].as_str());
        if seen.contains(id.as_str()) {
            return Err(Error::Trust(TrustError::TrustOverrideHostIdOverlap { host_id: id }));
        }
        k = k + 1;
    }
    Ok(())
}

fn claim_ids(raw: &Vec<RawTrustOverride>, i: usize, seen: &mut StringSet)
    requires
        i < raw@.len(),
        old(seen).wf(),
        forall|id: Seq<char>| #[trigger] old(seen)@.contains(id) == claimed(raw@, i as int, id),
    ensures
        final(seen).wf(),
        forall|id: Seq<char>| #[trigger] final(seen)@.contains(id) == claimed(raw@, i + 1, id),
{
    let ids = &raw[i].when_host_id_in;
    let mut k: usize = 0;
    while k < ids.len()
        invariant
            i < raw@.len(),
            ids == raw@[i as int].when_host_id_in,
            k <= ids@.len(),
            seen.wf(),
            forall|id: Seq<char>| #[trigger]
                seen@.contains(id) == (claimed(raw@, i as int, id) || exists|m: int|
                    0 <= m < k && #[trigger] claims(raw@, i as int, m, id)),
        decreases ids@.len() - k,
    {
        let ghost before = seen@;
        let norm = normalize_host_id(ids[k].as_str());
        let ghost n = norm@;
        let _ = seen.insert(norm);
        proof {
            assert(claims(raw@, i as int, k as int, n));
            assert forall|id: Seq<char>| #[trigger]
                seen@.contains(id) == (claimed(raw@, i as int, id) || exists|m: int|
                    0 <= m < k + 1 && #[trigger] claims(raw@, i as int, m, id)) by {
                assert(seen@.contains(id) == (before.contains(id) || id == n));
                if exists|m: int| 0 <= m < k + 1 && #[trigger] claims(raw@, i as int, m, id) {
                    let m = choose|m: int|
                        0 <= m < k + 1 && #[trigger] claims(raw@, i as int, m, id);
                    if m < k {
                        assert(claims(raw@, i as int, m, id));
                    }
                }
            }
        }
        k = k + 1;
    }
    proof {
        assert forall|id: Seq<char>| #[trigger] seen@.contains(id) == claimed(raw@, i + 1, id) by {
            if claimed(raw@, i + 1, id) {
                let (j, m) = choose|j: int, m: int| #[trigger] claims(raw@, j, m, id) && j < i + 1;
                if j < i {
                    assert(claims(raw@, j, m, id));
                    assert(claimed(raw@, i as int, id));
                } else {
                    assert(claims(raw@, i as int, m, id));
                }
            }
            if seen@.contains(id) {
                if claimed(raw@, i as int, id) {
                    let (j, m) = choose|j: int, m: int| #[trigger] claims(raw@, j, m, id) && j < i;
                    assert(claims(raw@, j, m, id) && j < i + 1);
                } else {
                    let m = choose|m: int|
                        0 <= m < ids@.len() && #[trigger] claims(raw@, i as int, m, id);
                    assert(claims(raw@, i as int, m, id));
                }
            }
        }
    }
}

/// Refuses overrides of which two name the same host.
pub fn check_overlaps(raw: &Vec<RawTrustOverride>) -> (r: Result<(), Error>)
    ensures
        r is Ok <==> overlap_fault(raw@) is None,
        r matches Err(e) ==> overlap_fault(raw@) == Some(fault_of(e)),
{
    let ghost at = |i: int| overlap_of(raw@, i);
    let mut seen = StringSet::new();
    let mut i: usize = 0;
    while i < raw.len()
        invariant
            i <= raw@.len(),
            seen.wf(),
            forall|id: Seq<char>| #[trigger] seen@.contains(id) == claimed(raw@, i as int, id),
            at == (|i: int| overlap_of(raw@, i)),
            first_fault(i as nat, at) is None,
        decreases raw@.len() - i,
    {
        proof {
            if first_fault((i + 1) as nat, at) is Some {
                lemma_first_fault(raw@.len(), (i + 1) as nat, at);
            }
        }
        match check_overlap_of(raw, i, &seen) {
            Ok(()) => {},
            Err(e) => {
                return Err(e);
            },
        }
        claim_ids(raw, i, &mut seen);
        i = i + 1;
    }
    Ok(())
}

/// Among overrides that do not overlap, no host id belongs to two.
pub proof fn each_host_has_one_override(
    raw: Seq<RawTrustOverride>,
    i: int,
    k: int,
    j: int,
    m: int,
    id: Seq<char>,
)
    requires
        overlap_fault(raw) is None,
        claims(raw, i, k, id),
        claims(raw, j, m, id),
    ensures
        i == j,
{
    let at = |i: int| overlap_of(raw, i);
    if i < j {
        lemma_no_fault(raw.len(), j, at);
        lemma_no_fault(raw[j].when_host_id_in@.len(), m, |k: int| overlap_at(raw, j, k));
        assert(claimed(raw, j, id));
    } else if j < i {
        lemma_no_fault(raw.len(), i, at);
        lemma_no_fault(raw[i].when_host_id_in@.len(), k, |k: int| overlap_at(raw, i, k));
        assert(claimed(raw, i, id));
    }
}

/// A file of certificates must be there and hold one; which of the two it lacks is told by its path.
pub proof fn certificates_must_be_there(path: Seq<char>, text: Option<Seq<char>>)
    ensures
        text is None ==> pem_fault(path, text) == Some(ConfigFault::AnchorMissing(path)),
        text matches Some(t) ==> (pem_fault(path, text) is None <==> exists|at: int|
            0 <= at <= t.len() - "-----BEGIN CERTIFICATE-----"@.len() && #[trigger] t.subrange(
                at,
                at + "-----BEGIN CERTIFICATE-----"@.len(),
            ) == "-----BEGIN CERTIFICATE-----"@),
        text is Some && pem_fault(path, text) is Some ==> pem_fault(path, text) == Some(
            ConfigFault::AnchorNotPem(path),
        ),
{
    if let Some(t) = text {
        let n = "-----BEGIN CERTIFICATE-----"@;
        what_occurs_is_there(t, n);
        if exists|at: int|
            0 <= at <= t.len() - n.len() && #[trigger] t.subrange(at, at + n.len()) == n {
            let at = choose|at: int|
                0 <= at <= t.len() - n.len() && #[trigger] t.subrange(at, at + n.len()) == n;
            assert(occurs_at(t, n, at));
        }
    }
}

/// Every listed file of certificates is checked against what was found of it.
pub proof fn every_certificate_file_is_checked(
    paths: Seq<String>,
    files: Seq<Option<String>>,
    i: int,
)
    requires
        pems_fault(paths, files) is None,
        0 <= i < paths.len(),
    ensures
        i < files.len(),
        files[i] is Some,
        occurs_in(files[i]->0@, "-----BEGIN CERTIFICATE-----"@),
{
    let at = |i: int| pem_fault(paths[i]@, found_text(files, i));
    lemma_no_fault(paths.len(), i, at);
}

/// What the keys on OCSP may say: with it, a responder by HTTP, an exchange of one to thirty seconds
/// and answers kept for a day at most; without it, none of them.
pub proof fn accepted_ocsp_keys(raw: RawRevocation, mode: RawRevocationMode)
    ensures
        ocsp_fault(raw, mode) is None <==> if mode == RawRevocationMode::Ocsp || mode
            == RawRevocationMode::CrlThenOcsp {
            &&& raw.ocsp_responder_url matches Some(u) && (has_prefix(u@, "http://"@) || has_prefix(
                u@,
                "https://"@,
            ))
            &&& raw.ocsp_timeout_seconds matches Some(n) ==> 1 <= n <= 30
            &&& raw.ocsp_cache_ttl_seconds matches Some(n) ==> n <= 86400
        } else {
            raw.ocsp_responder_url is None && raw.ocsp_timeout_seconds is None
                && raw.ocsp_cache_ttl_seconds is None
        },
{
}

/// CRLs are accepted only where there is at least one, and each was found.
pub proof fn accepted_crls(paths: Seq<String>, found: Seq<bool>, i: int)
    requires
        crls_fault(paths, found) is None,
    ensures
        paths.len() > 0,
        0 <= i < paths.len() ==> i < found.len() && found[i],
{
    let at = |i: int| crl_path_fault(paths, found, i);
    if 0 <= i < paths.len() {
        lemma_no_fault(paths.len(), i, at);
    }
}

/// And any such list of CRLs is accepted.
pub proof fn plain_crls_are_accepted(paths: Seq<String>, found: Seq<bool>)
    requires
        0 < paths.len() <= found.len(),
        forall|i: int| 0 <= i < paths.len() ==> #[trigger] found[i],
    ensures
        crls_fault(paths, found) is None,
{
    let at = |i: int| crl_path_fault(paths, found, i);
    assert forall|i: int| 0 <= i < paths.len() implies (#[trigger] at(i)) is None by {
        assert(found[i]);
    }
    no_fault_without_a_place(paths.len(), at);
}

/// What a `[trust.revocation]` section may say: a mode, in so many words even for none; with CRLs
/// alone at least one, each there; keys on OCSP that fit; and an age of an hour to a year.
pub proof fn accepted_revocation(raw: RawRevocation, crls: Seq<bool>)
    ensures
        revocation_fault(None, crls) is Some,
        raw.mode is None ==> revocation_fault(Some(raw), crls) is Some,
        raw.mode matches Some(mode) ==> (revocation_fault(Some(raw), crls) is None <==> {
            &&& mode == RawRevocationMode::Crl ==> crls_fault(raw.crl_paths@, crls) is None
            &&& ocsp_fault(raw, mode) is None
            &&& raw.crl_max_age_hours matches Some(h) ==> 1 <= h <= 8760
        }),
{
}

/// What a `[trust.revocation]` section becomes: its mode, its CRLs and its responder as they are,
/// the age in hours and the times in seconds, five and an hour where they are not set.
pub proof fn revocation_keys_are_carried_over(raw: RawRevocation, s: RevocationSection)
    requires
        revocation_validated(Some(raw), s),
        raw.crl_max_age_hours matches Some(h) ==> h <= 8760,
    ensures
        raw.mode == Some(RawRevocationMode::Off) <==> s.mode == RevocationMode::Off,
        raw.mode == Some(RawRevocationMode::Crl) <==> s.mode == RevocationMode::Crl,
        raw.mode == Some(RawRevocationMode::Ocsp) <==> s.mode == RevocationMode::Ocsp,
        raw.mode == Some(RawRevocationMode::CrlThenOcsp) <==> s.mode == RevocationMode::CrlThenOcsp,
        s.crl_paths@ == raw.crl_paths@,
        s.ocsp_responder_url == raw.ocsp_responder_url,
        match raw.crl_max_age_hours {
            Some(h) => s.crl_max_age matches Some(d) && d.secs == h * 3600 && d.nanos == 0,
            None => s.crl_max_age is None,
        },
        s.ocsp_timeout.nanos == 0 && s.ocsp_timeout.secs == match raw.ocsp_timeout_seconds {
            Some(n) => n,
            None => 5,
        },
        s.ocsp_cache_ttl.nanos == 0 && s.ocsp_cache_ttl.secs == match raw.ocsp_cache_ttl_seconds {
            Some(n) => n,
            None => 3600,
        },
{
}

/// What a `[trust]` section may say: anchors, a chain of one to sixteen certificates, at most ten
/// minutes of clock skew, files that hold certificates, revocation that is settled, and pins of 64
/// hexadecimal digits where pinning is on.
pub proof fn accepted_trust(raw: RawTrust, files: TrustFiles, i: int)
    requires
        trust_fault(raw, files) is None,
    ensures
        raw.anchors@.len() > 0,
        1 <= raw.max_chain_depth <= 16,
        raw.clock_skew_seconds <= 600,
        0 <= i < raw.anchors@.len() ==> i < files.anchors@.len() && (files.anchors@[i] matches Some(t) && occurs_in(t@, "-----BEGIN CERTIFICATE-----"@)),
        0 <= i < raw.intermediates@.len() ==> i < files.intermediates@.len() && (files.intermediates@[i] matches Some(t) && occurs_in(t@, "-----BEGIN CERTIFICATE-----"@)),
        raw.revocation is Some,
        revocation_fault(raw.revocation, files.crls@) is None,
        raw.pinning.enabled && 0 <= i < raw.pinning.allowed_root_spki_sha256@.len() ==> {
            let pin = raw.pinning.allowed_root_spki_sha256@[i]@;
            encode_utf8(pin).len() == 64 && forall|k: int|
                0 <= k < pin.len() ==> hex_value(#[trigger] pin[k]) is Some
        },
{
    if 0 <= i < raw.anchors@.len() {
        every_certificate_file_is_checked(raw.anchors@, files.anchors@, i);
    }
    if 0 <= i < raw.intermediates@.len() {
        every_certificate_file_is_checked(raw.intermediates@, files.intermediates@, i);
    }
    if raw.pinning.enabled && 0 <= i < raw.pinning.allowed_root_spki_sha256@.len() {
        let at = |i: int| pin_fault(raw.pinning.allowed_root_spki_sha256@[i]@);
        lemma_no_fault(raw.pinning.allowed_root_spki_sha256@.len(), i, at);
    }
}

/// And any such section is accepted; pins are not looked at where pinning is off.
pub proof fn plain_trust_is_accepted(raw: RawTrust, files: TrustFiles)
    requires
        raw.anchors@.len() > 0,
        1 <= raw.max_chain_depth <= 16,
        raw.clock_skew_seconds <= 600,
        forall|i: int|
            0 <= i < raw.anchors@.len() ==> i < files.anchors@.len() && (
            #[trigger] files.anchors@[i] matches Some(t) && occurs_in(
                t@,
                "-----BEGIN CERTIFICATE-----"@,
            )),
        forall|i: int|
            0 <= i < raw.intermediates@.len() ==> i < files.intermediates@.len() && (
            #[trigger] files.intermediates@[i] matches Some(t) && occurs_in(
                t@,
                "-----BEGIN CERTIFICATE-----"@,
            )),
        revocation_fault(raw.revocation, files.crls@) is None,
        !raw.pinning.enabled,
    ensures
        trust_fault(raw, files) is None,
{
    let a = |i: int| pem_fault(raw.anchors@[i]@, found_text(files.anchors@, i));
    let b = |i: int| pem_fault(raw.intermediates@[i]@, found_text(files.intermediates@, i));
    assert forall|i: int| 0 <= i < raw.anchors@.len() implies (#[trigger] a(i)) is None by {
        assert(files.anchors@[i] is Some);
    }
    assert forall|i: int| 0 <= i < raw.intermediates@.len() implies (#[trigger] b(i)) is None by {
        assert(files.intermediates@[i] is Some);
    }
    no_fault_without_a_place(raw.anchors@.len(), a);
    no_fault_without_a_place(raw.intermediates@.len(), b);
}

/// What a `[trust]` section becomes: its anchors, depth, skew and pins as they are; the algorithms
/// it lists, or the usual ones where it lists none; and the profile version that the build knows
/// where it names none.
pub proof fn trust_keys_are_carried_over(
    raw: RawTrust,
    profile_version: u32,
    s: TrustSection,
    alg: Seq<char>,
)
    requires
        trust_validated(raw, profile_version, s),
    ensures
        s.anchors@ == raw.anchors@,
        s.intermediates@ == raw.intermediates@,
        s.max_chain_depth == raw.max_chain_depth,
        s.clock_skew_seconds == raw.clock_skew_seconds,
        s.pinning.enabled == raw.pinning.enabled,
        s.pinning.allowed_root_spki_sha256@ == raw.pinning.allowed_root_spki_sha256@,
        s.max_supported_profile_version == match raw.max_supported_profile_version {
            Some(n) => n,
            None => profile_version,
        },
        raw.allowed_signature_algorithms@.len() > 0 ==> (s.allowed_signature_algorithms@.contains(
            alg,
        ) <==> exists|i: int|
            0 <= i < raw.allowed_signature_algorithms@.len() && (
            #[trigger] raw.allowed_signature_algorithms@[i])@ == alg),
        raw.allowed_signature_algorithms@.len() == 0 ==> (s.allowed_signature_algorithms@.contains(
            alg,
        ) <==> alg == "sha256WithRSAEncryption"@ || alg == "sha384WithRSAEncryption"@ || alg
            == "sha512WithRSAEncryption"@ || alg == "ecdsa-with-SHA256"@ || alg
            == "ecdsa-with-SHA384"@ || alg == "ecdsa-with-SHA512"@),
{
    let v = raw.allowed_signature_algorithms@;
    if v.len() > 0 {
        if texts(v).to_set().contains(alg) {
            let i = choose|i: int| 0 <= i < texts(v).len() && texts(v)[i] == alg;
            assert(v[i]@ == alg);
        }
        if exists|i: int| 0 <= i < v.len() && (#[trigger] v[i])@ == alg {
            let i = choose|i: int| 0 <= i < v.len() && (#[trigger] v[i])@ == alg;
            assert(texts(v)[i] == alg);
        }
    } else {
        let d = default_algorithms();
        assert(d[0] == "sha256WithRSAEncryption"@);
        assert(d[1] == "sha384WithRSAEncryption"@);
        assert(d[2] == "sha512WithRSAEncryption"@);
        assert(d[3] == "ecdsa-with-SHA256"@);
        assert(d[4] == "ecdsa-with-SHA384"@);
        assert(d[5] == "ecdsa-with-SHA512"@);
    }
}

/// What a trust override may say: hosts by identities that are not empty once normalized, and
/// anchors, all files with certificates.
pub proof fn accepted_override(
    raw: RawTrustOverride,
    anchors: Seq<Option<String>>,
    intermediates: Seq<Option<String>>,
    i: int,
)
    requires
        override_fault(raw, anchors, intermediates) is None,
    ensures
        raw.when_host_id_in@.len() > 0,
        raw.anchors@.len() > 0,
        0 <= i < raw.when_host_id_in@.len() ==> normalized_id(raw.when_host_id_in@[i]@).len() > 0,
        0 <= i < raw.anchors@.len() ==> i < anchors.len() && (anchors[i] matches Some(t) && occurs_in(
            t@,
            "-----BEGIN CERTIFICATE-----"@,
        )),
        0 <= i < raw.intermediates@.len() ==> i < intermediates.len() && (
        intermediates[i] matches Some(t) && occurs_in(t@, "-----BEGIN CERTIFICATE-----"@)),
{
    if 0 <= i < raw.when_host_id_in@.len() {
        let at = |i: int| host_id_fault(raw.when_host_id_in@[i]@);
        lemma_no_fault(raw.when_host_id_in@.len(), i, at);
    }
    if 0 <= i < raw.anchors@.len() {
        every_certificate_file_is_checked(raw.anchors@, anchors, i);
    }
    if 0 <= i < raw.intermediates@.len() {
        every_certificate_file_is_checked(raw.intermediates@, intermediates, i);
    }
}

/// A trust override is kept as it is, its hosts as a set.
pub proof fn override_is_carried_over(raw: RawTrustOverride, o: TrustOverride, id: Seq<char>)
    requires
        override_validated(raw, o),
    ensures
        o.anchors@ == raw.anchors@,
        o.intermediates@ == raw.intermediates@,
        o.when_host_id_in@.contains(id) <==> exists|i: int|
            0 <= i < raw.when_host_id_in@.len() && (#[trigger] raw.when_host_id_in@[i])@ == id,
{
    let v = raw.when_host_id_in@;
    if texts(v).to_set().contains(id) {
        let i = choose|i: int| 0 <= i < texts(v).len() && texts(v)[i] == id;
        assert(v[i]@ == id);
    }
    if exists|i: int| 0 <= i < v.len() && (#[trigger] v[i])@ == id {
        let i = choose|i: int| 0 <= i < v.len() && (#[trigger] v[i])@ == id;
        assert(texts(v)[i] == id);
    }
}

/// Two overrides that claim one host are refused: whichever comes second is the fault.
pub proof fn two_claims_on_a_host_are_refused(
    raw: Seq<RawTrustOverride>,
    i: int,
    k: int,
    j: int,
    m: int,
)
    requires
        0 <= i < j < raw.len(),
        0 <= k < raw[i].when_host_id_in@.len(),
        0 <= m < raw[j].when_host_id_in@.len(),
        normalized_id(raw[i].when_host_id_in@[k]@) == normalized_id(raw[j].when_host_id_in@[m]@),
    ensures
        overlap_fault(raw) is Some,
{
    if overlap_fault(raw) is None {
        let id = normalized_id(raw[i].when_host_id_in@[k]@);
        assert(claims(raw, i, k, id));
        assert(claims(raw, j, m, id));
        each_host_has_one_override(raw, i, k, j, m, id);
    }
}

/// Keys on OCSP that are set in vain are named in the refusal, all of them.
pub proof fn keys_set_in_vain_are_named(raw: RawRevocation)
    ensures
        raw.ocsp_responder_url is Some && raw.ocsp_timeout_seconds is None
            && raw.ocsp_cache_ttl_seconds is None ==> set_ocsp_keys(raw) == "ocsp_responder_url"@,
        raw.ocsp_responder_url is None && raw.ocsp_timeout_seconds is Some
            && raw.ocsp_cache_ttl_seconds is None ==> set_ocsp_keys(raw) == "ocsp_timeout_seconds"@,
        raw.ocsp_responder_url is None && raw.ocsp_timeout_seconds is None
            && raw.ocsp_cache_ttl_seconds is Some ==> set_ocsp_keys(raw)
            == "ocsp_cache_ttl_seconds"@,
        raw.ocsp_responder_url is Some && raw.ocsp_timeout_seconds is Some
            && raw.ocsp_cache_ttl_seconds is Some ==> set_ocsp_keys(raw) == "ocsp_responder_url"@
            + ", "@ + "ocsp_timeout_seconds"@ + ", "@ + "ocsp_cache_ttl_seconds"@,
{
    reveal_strlit("ocsp_responder_url");
    reveal_strlit("ocsp_timeout_seconds");
    reveal_strlit(", ");
}

/// Overrides that name different hosts do not overlap; one override may name a host twice.
pub proof fn overrides_of_different_hosts_are_accepted(raw: Seq<RawTrustOverride>)
    requires
        forall|i: int, k: int, j: int, m: int|
            0 <= j < i < raw.len() && 0 <= k < raw[i].when_host_id_in@.len() && 0 <= m
                < raw[j].when_host_id_in@.len() ==> normalized_id(
                (#[trigger] raw[i].when_host_id_in@[k])@,
            ) != normalized_id((#[trigger] raw[j].when_host_id_in@[m])@),
    ensures
        overlap_fault(raw) is None,
{
    let at = |i: int| overlap_of(raw, i);
    assert forall|i: int| 0 <= i < raw.len() implies (#[trigger] at(i)) is None by {
        let of = |k: int| overlap_at(raw, i, k);
        assert forall|k: int| 0 <= k < raw[i].when_host_id_in@.len() implies (#[trigger] of(
            k,
        )) is None by {
            let id = normalized_id(raw[i].when_host_id_in@[k]@);
            if claimed(raw, i, id) {
                let (j, m) = choose|j: int, m: int| #[trigger] claims(raw, j, m, id) && j < i;
                assert(normalized_id(raw[j].when_host_id_in@[m]@) == id);
            }
        }
        no_fault_without_a_place(raw[i].when_host_id_in@.len(), of);
    }
    no_fault_without_a_place(raw.len(), at);
}

} // verus!
