//! Validation of the keys about tokens, envelopes and the engine.

use crate::config::fault::{either, fault_of, invalid, ConfigFault};
use crate::config::raw::{RawConfig, RawPkcs12Source};
use crate::config::validated::{CryptoBackend, Mode};
use crate::error::Error;
use crate::foreign::{debug_form, debug_text};
use crate::text::{
    byte_len, cat2, cat3, cat4, dec, decimal, has_char, is_absolute, is_absolute_path, split, split_on,
    str_eq, utf8_len,
};
use vstd::prelude::*;
use vstd::utf8::encode_utf8;

verus! {

/// Longest label filter, in bytes.
pub const PKCS11_LABEL_MAX_LEN: usize = 64;

/// Longest PIN prompt, in bytes.
pub const PIN_PROMPT_MAX_LEN: usize = 128;

/// Most PIN attempts.
pub const PKCS11_MAX_PIN_ATTEMPTS_MAX: u32 = 5;

/// Longest wait for a token, in seconds.
pub const PKCS11_SLOT_WAIT_SECONDS_MAX: u32 = 60;

/// Why `pkcs12_path_pattern` is refused: it must be a relative path without `.` and `..`.
pub open spec fn path_pattern_fault(raw: Option<Seq<char>>) -> Option<ConfigFault> {
    match raw {
        None => None,
        Some(v) => if v.len() == 0 {
            Some(ConfigFault::Invalid("pkcs12_path_pattern must be non-empty when set"@))
        } else if is_absolute_path(v) {
            Some(
                ConfigFault::Invalid(
                    "pkcs12_path_pattern must be a relative path under the USB mountpoint (got "@
                        + debug_form(v) + ")"@,
                ),
            )
        } else if split_on(v, '/').contains(".."@) || split_on(v, '/').contains("."@) {
            Some(
                ConfigFault::Invalid(
                    "pkcs12_path_pattern must not contain '..' or '.' segments (got "@
                        + debug_form(v) + ")"@,
                ),
            )
        } else {
            None
        },
    }
}

fn has_dot_segment(value: &str) -> (r: bool)
    ensures
        r == (split_on(value@, '/').contains(".."@) || split_on(value@, '/').contains("."@)),
{
    let segments = split(value, '/');
    let ghost all = split_on(value@, '/');
    let mut i: usize = 0;
    while i < segments.len()
        invariant
            i <= segments@.len(),
            segments@.len() == all.len(),
            all == split_on(value@, '/'),
            forall|k: int| 0 <= k < segments@.len() ==> (#[trigger] segments@[k])@ == all[k],
            forall|k: int| 0 <= k < i ==> (#[trigger] all[k]) != ".."@ && all[k] != "."@,
        decreases segments@.len() - i,
    {
        assert(segments@[i as int]@ == all[i as int]);
        if str_eq(segments[i].as_str(), "..") || str_eq(segments[i].as_str(), ".") {
            return true;
        }
        i = i + 1;
    }
    false
}

/// Validate `pkcs12_path_pattern`: where on the USB partition the envelope lies.
pub fn validate_pkcs12_path_pattern(raw: Option<&str>) -> (r: Result<Option<String>, Error>)
    ensures
        r matches Ok(v) ==> path_pattern_fault(opt_str(raw)) is None
            && crate::collections::opt_text(v) == opt_str(raw),
        r matches Err(e) ==> path_pattern_fault(opt_str(raw)) == Some(fault_of(e)),
{
    let value = match raw {
        Some(v) => v,
        None => {
            return Ok(None);
        },
    };
    if value.is_empty() {
        return Err(invalid("pkcs12_path_pattern must be non-empty when set".to_owned()));
    }
    if is_absolute(value) {
        let shown = debug_text(value);
        return Err(
            invalid(
                cat3(
                    "pkcs12_path_pattern must be a relative path under the USB mountpoint (got ",
                    shown.as_str(),
                    ")",
                ),
            ),
        );
    }
    if has_dot_segment(value) {
        let shown = debug_text(value);
        return Err(
            invalid(
                cat3(
                    "pkcs12_path_pattern must not contain '..' or '.' segments (got ",
                    shown.as_str(),
                    ")",
                ),
            ),
        );
    }
    Ok(Some(value.to_owned()))
}

/// The text of an optional string slice.
pub open spec fn opt_str(v: Option<&str>) -> Option<Seq<char>> {
    match v {
        Some(s) => Some(s@),
        None => None,
    }
}

/// The slice of an optional string.
pub(crate) fn as_opt_str(v: &Option<String>) -> (r: Option<&str>)
    ensures
        opt_str(r) == crate::collections::opt_text(*v),
{
    match v {
        Some(s) => Some(s.as_str()),
        None => None,
    }
}

/// Why a label filter is refused.
pub open spec fn label_fault(field: Seq<char>, value: Seq<char>) -> Option<ConfigFault> {
    if value.len() == 0 {
        Some(ConfigFault::Invalid(field + " must be non-empty when set"@))
    } else if utf8_len(value) > PKCS11_LABEL_MAX_LEN {
        Some(
            ConfigFault::Invalid(
                field + " must be at most 64 bytes (got "@ + dec(utf8_len(value)) + ")"@,
            ),
        )
    } else if value.contains('\0') {
        Some(ConfigFault::Invalid(field + " must not contain NUL bytes"@))
    } else {
        None
    }
}

/// Validate a label filter.
pub fn validate_pkcs11_label(field: &str, value: &str) -> (r: Result<(), Error>)
    ensures
        r is Ok <==> label_fault(field@, value@) is None,
        r matches Err(e) ==> label_fault(field@, value@) == Some(fault_of(e)),
{
    if value.is_empty() {
        return Err(invalid(cat2(field, " must be non-empty when set")));
    }
    let n: usize = byte_len(value);
    if n > PKCS11_LABEL_MAX_LEN {
        return Err(
            invalid(cat4(field, " must be at most 64 bytes (got ", decimal(n as u64).as_str(), ")")),
        );
    }
    if has_char(value, '\0') {
        return Err(invalid(cat2(field, " must not contain NUL bytes")));
    }
    Ok(())
}

/// Why a PIN prompt is refused.
pub open spec fn prompt_fault(field: Seq<char>, value: Seq<char>) -> Option<ConfigFault> {
    if value.len() == 0 {
        Some(ConfigFault::Invalid(field + " must be non-empty when set"@))
    } else if utf8_len(value) > PIN_PROMPT_MAX_LEN {
        Some(
            ConfigFault::Invalid(
                field + " must be at most 128 bytes (got "@ + dec(utf8_len(value)) + ")"@,
            ),
        )
    } else {
        None
    }
}

/// Validate a PIN prompt: not empty, and at most [`PIN_PROMPT_MAX_LEN`] bytes.
pub fn validate_pin_prompt(field: &str, value: &str) -> (r: Result<(), Error>)
    ensures
        r is Ok <==> prompt_fault(field@, value@) is None,
        r matches Err(e) ==> prompt_fault(field@, value@) == Some(fault_of(e)),
{
    if value.is_empty() {
        return Err(invalid(cat2(field, " must be non-empty when set")));
    }
    let n: usize = byte_len(value);
    if n > PIN_PROMPT_MAX_LEN {
        return Err(
            invalid(
                cat4(field, " must be at most 128 bytes (got ", decimal(n as u64).as_str(), ")"),
            ),
        );
    }
    Ok(())
}

/// The fault of an optional key.
pub open spec fn opt_label_fault(field: Seq<char>, v: Option<String>) -> Option<ConfigFault> {
    match v {
        Some(s) => label_fault(field, s@),
        None => None,
    }
}

/// The fault of an optional prompt.
pub open spec fn opt_prompt_fault(field: Seq<char>, v: Option<String>) -> Option<ConfigFault> {
    match v {
        Some(s) => prompt_fault(field, s@),
        None => None,
    }
}

/// Why the keys about tokens are refused: the first rule that they break. A signing token
/// needs a module and excludes an envelope on the token.
pub open spec fn pkcs11_fault(raw: RawConfig, mode: Mode) -> Option<ConfigFault> {
    either(
        if mode == Mode::Pkcs11 && raw.pkcs11_module is None {
            Some(ConfigFault::Invalid("pkcs11_module is required when mode = \"pkcs11\""@))
        } else {
            None
        },
        either(
            if mode == Mode::Pkcs11 && raw.pkcs12_source == RawPkcs12Source::TokenObject {
                Some(
                    ConfigFault::Invalid(
                        "pkcs12_source = \"token_object\" is only valid when mode = \"pkcs12\""@,
                    ),
                )
            } else {
                None
            },
            either(
                opt_label_fault("pkcs11_token_label"@, raw.pkcs11_token_label),
                either(
                    opt_label_fault("pkcs11_object_label"@, raw.pkcs11_object_label),
                    either(
                        if raw.pkcs11_max_pin_attempts < 1 || raw.pkcs11_max_pin_attempts
                            > PKCS11_MAX_PIN_ATTEMPTS_MAX {
                            Some(
                                ConfigFault::Invalid(
                                    "pkcs11_max_pin_attempts must be in 1..=5, got "@ + dec(
                                        raw.pkcs11_max_pin_attempts as nat,
                                    ),
                                ),
                            )
                        } else {
                            None
                        },
                        either(
                            if raw.pkcs11_slot_wait_seconds > PKCS11_SLOT_WAIT_SECONDS_MAX {
                                Some(
                                    ConfigFault::Invalid(
                                        "pkcs11_slot_wait_seconds must be in 0..=60, got "@ + dec(
                                            raw.pkcs11_slot_wait_seconds as nat,
                                        ),
                                    ),
                                )
                            } else {
                                None
                            },
                            opt_prompt_fault("pkcs11_pin_prompt"@, raw.pkcs11_pin_prompt),
                        ),
                    ),
                ),
            ),
        ),
    )
}

/// Validate an optional label filter.
fn check_label(field: &str, v: &Option<String>) -> (r: Result<(), Error>)
    ensures
        r is Ok <==> opt_label_fault(field@, *v) is None,
        r matches Err(e) ==> opt_label_fault(field@, *v) == Some(fault_of(e)),
{
    match v {
        Some(s) => validate_pkcs11_label(field, s.as_str()),
        None => Ok(()),
    }
}

/// Validate an optional prompt.
pub(crate) fn check_prompt(field: &str, v: &Option<String>) -> (r: Result<(), Error>)
    ensures
        r is Ok <==> opt_prompt_fault(field@, *v) is None,
        r matches Err(e) ==> opt_prompt_fault(field@, *v) == Some(fault_of(e)),
{
    match v {
        Some(s) => validate_pin_prompt(field, s.as_str()),
        None => Ok(()),
    }
}

/// Validate the keys about tokens.
pub fn validate_pkcs11_section(raw: &RawConfig, mode: Mode) -> (r: Result<(), Error>)
    ensures
        r is Ok <==> pkcs11_fault(*raw, mode) is None,
        r matches Err(e) ==> pkcs11_fault(*raw, mode) == Some(fault_of(e)),
{
    let signing_token = matches!(mode, Mode::Pkcs11);
    if signing_token && raw.pkcs11_module.is_none() {
        return Err(invalid("pkcs11_module is required when mode = \"pkcs11\"".to_owned()));
    }
    if signing_token && matches!(raw.pkcs12_source, RawPkcs12Source::TokenObject) {
        return Err(
            invalid(
                "pkcs12_source = \"token_object\" is only valid when mode = \"pkcs12\"".to_owned(),
            ),
        );
    }
    match check_label("pkcs11_token_label", &raw.pkcs11_token_label) {
        Ok(()) => {},
        Err(e) => {
            return Err(e);
        },
    }
    match check_label("pkcs11_object_label", &raw.pkcs11_object_label) {
        Ok(()) => {},
        Err(e) => {
            return Err(e);
        },
    }
    let attempts: u32 = raw.pkcs11_max_pin_attempts;
    if attempts < 1 || attempts > PKCS11_MAX_PIN_ATTEMPTS_MAX {
        return Err(
            invalid(
                cat2(
                    "pkcs11_max_pin_attempts must be in 1..=5, got ",
                    decimal(attempts as u64).as_str(),
                ),
            ),
        );
    }
    let wait: u32 = raw.pkcs11_slot_wait_seconds;
    if wait > PKCS11_SLOT_WAIT_SECONDS_MAX {
        return Err(
            invalid(
                cat2(
                    "pkcs11_slot_wait_seconds must be in 0..=60, got ",
                    decimal(wait as u64).as_str(),
                ),
            ),
        );
    }
    check_prompt("pkcs11_pin_prompt", &raw.pkcs11_pin_prompt)
}

/// What was found at a configured path.
#[derive(Debug)]
pub enum PathProbe {
    /// A regular file.
    File,
    /// Something else.
    NotAFile,
    /// It could not be examined, with the text of the error.
    Unreadable(String),
}

/// Why `gost_engine_path` is refused: beside another backend, where it is no readable file, and
/// where the allowed algorithms need it and it is absent.
pub open spec fn gost_path_fault(
    path: Option<String>,
    backend: CryptoBackend,
    gost_allowed: bool,
    probe: PathProbe,
) -> Option<ConfigFault> {
    match path {
        None => if backend == CryptoBackend::Openssl && gost_allowed {
            Some(
                ConfigFault::Invalid(
                    "gost_engine_path is required when trust.allowed_signature_algorithms allows GOST signatures"@,
                ),
            )
        } else {
            None
        },
        Some(p) => if backend != CryptoBackend::Openssl {
            Some(ConfigFault::GostRequiresOpenssl)
        } else {
            match probe {
                PathProbe::File => None,
                PathProbe::NotAFile => Some(
                    ConfigFault::GostUnreadable(p@, "gost_engine_path is not a regular file"@),
                ),
                PathProbe::Unreadable(source) => Some(ConfigFault::GostUnreadable(p@, source@)),
            }
        },
    }
}

/// Validate `gost_engine_path` against what was found there.
pub fn validate_gost_engine_path(
    path: &Option<String>,
    backend: CryptoBackend,
    gost_allowed: bool,
    probe: &PathProbe,
) -> (r: Result<Option<String>, Error>)
    ensures
        r matches Ok(p) ==> gost_path_fault(*path, backend, gost_allowed, *probe) is None && p
            == *path,
        r matches Err(e) ==> gost_path_fault(*path, backend, gost_allowed, *probe) == Some(
            fault_of(e),
        ),
{
    let path = match path {
        Some(p) => p,
        None => {
            if matches!(backend, CryptoBackend::Openssl) && gost_allowed {
                return Err(
                    invalid(
                        "gost_engine_path is required when trust.allowed_signature_algorithms allows GOST signatures".to_owned(),
                    ),
                );
            }
            return Ok(None);
        },
    };
    if !matches!(backend, CryptoBackend::Openssl) {
        return Err(Error::GostEnginePathRequiresOpenssl);
    }
    match probe {
        PathProbe::File => Ok(Some(path.clone())),
        PathProbe::NotAFile => Err(
            Error::GostEnginePathUnreadable {
                path: path.clone(),
                source: "gost_engine_path is not a regular file".to_owned(),
            },
        ),
        PathProbe::Unreadable(source) => Err(
            Error::GostEnginePathUnreadable { path: path.clone(), source: source.clone() },
        ),
    }
}

/// A label has one to 64 bytes and no NUL; a prompt one to 128 bytes.
pub proof fn labels_and_prompts_are_short(field: Seq<char>, value: Seq<char>)
    ensures
        label_fault(field, value) is None <==> value.len() > 0 && encode_utf8(value).len() <= 64
            && !value.contains('\0'),
        prompt_fault(field, value) is None <==> value.len() > 0 && encode_utf8(value).len() <= 128,
{
}

/// The pattern of an envelope is a relative path that stays below the medium: it is not empty, does
/// not start at the root, and no segment of it is a dot or two.
pub proof fn patterns_stay_below_the_medium(v: Seq<char>, i: int)
    requires
        path_pattern_fault(Some(v)) is None,
    ensures
        v.len() > 0,
        v[0] != '/',
        0 <= i < split_on(v, '/').len() ==> split_on(v, '/')[i] != "."@ && split_on(v, '/')[i]
            != ".."@,
        path_pattern_fault(None) is None,
{
}

/// Any other pattern is accepted.
pub proof fn plain_patterns_are_accepted(v: Seq<char>)
    requires
        v.len() > 0,
        v[0] != '/',
        forall|i: int|
            0 <= i < split_on(v, '/').len() ==> (#[trigger] split_on(v, '/')[i]) != "."@ && split_on(
                v,
                '/',
            )[i] != ".."@,
    ensures
        path_pattern_fault(Some(v)) is None,
{
}

/// What the keys of a token may be: a module where the token signs, an envelope on the token only
/// where it does not, labels and a prompt that fit, one to five attempts and at most a minute of
/// waiting.
pub proof fn accepted_token_keys(raw: RawConfig, mode: Mode)
    ensures
        pkcs11_fault(raw, mode) is None <==> {
            &&& mode == Mode::Pkcs11 ==> raw.pkcs11_module is Some && raw.pkcs12_source
                != RawPkcs12Source::TokenObject
            &&& raw.pkcs11_token_label matches Some(s) ==> s@.len() > 0 && encode_utf8(s@).len()
                <= 64 && !s@.contains('\0')
            &&& raw.pkcs11_object_label matches Some(s) ==> s@.len() > 0 && encode_utf8(s@).len()
                <= 64 && !s@.contains('\0')
            &&& 1 <= raw.pkcs11_max_pin_attempts <= 5
            &&& raw.pkcs11_slot_wait_seconds <= 60
            &&& raw.pkcs11_pin_prompt matches Some(s) ==> s@.len() > 0 && encode_utf8(s@).len()
                <= 128
        },
{
}

/// The engine's file is needed where GOST signatures are allowed under OpenSSL, may be named only
/// under OpenSSL, and must be a file.
pub proof fn engine_file_is_needed_for_gost(
    path: Option<String>,
    backend: CryptoBackend,
    gost_allowed: bool,
    probe: PathProbe,
)
    ensures
        gost_path_fault(path, backend, gost_allowed, probe) is None <==> (if path is Some {
            backend == CryptoBackend::Openssl && probe is File
        } else {
            backend != CryptoBackend::Openssl || !gost_allowed
        }),
        path is Some && backend != CryptoBackend::Openssl ==> gost_path_fault(
            path,
            backend,
            gost_allowed,
            probe,
        ) == Some(ConfigFault::GostRequiresOpenssl),
{
}

} // verus!
