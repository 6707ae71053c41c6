//! Validation of the sections on logging, host identity and users.

use crate::audit::{bare_event, event_if, with_text, AuditEvent, AuditLevel, AuditLog, EventModel};
use crate::collections::StringSet;
use crate::config::fault::{
    either, fault_of, first_fault, invalid, lemma_first_fault, lemma_no_fault,
    no_fault_without_a_place, ConfigFault,
};
use crate::config::raw::{
    RawHostIdFallback, RawHostIdentity, RawLogging, RawUserMapping,
};
use crate::config::validated::{
    HostIdFallback, HostIdentitySection, LoggingSection, UserMapping, UserMatchCriteria,
};
use crate::error::Error;
use crate::foreign::{is_login_name, regex_is_match};
use crate::host_identity::source::{source_kind_named, HostIdSourceKind};
use crate::logging::{facility_named, level_named, LogLevel, SyslogFacility};
use crate::text::{cat3, is_absolute, is_absolute_path};
use crate::time::Duration;
use vstd::prelude::*;

verus! {

// --- [logging] --------------------------------------------------------------

/// Why a `[logging]` section is refused: an unknown facility, then an unknown level.
pub open spec fn logging_fault(raw: RawLogging) -> Option<ConfigFault> {
    either(
        match raw.syslog_facility {
            Some(f) => if facility_named(f@) is None {
                Some(ConfigFault::Invalid("invalid syslog facility: "@ + f@))
            } else {
                None
            },
            None => None,
        },
        if level_named(raw.level@) is None {
            Some(ConfigFault::Invalid("invalid log level: "@ + raw.level@))
        } else {
            None
        },
    )
}

/// The warning of a configuration that sets `[logging].syslog_facility`.
pub open spec fn facility_event() -> EventModel {
    with_text(
        bare_event("tessera.config"@, AuditLevel::Warn, ""@),
        "message"@,
        "[logging].syslog_facility is deprecated and ignored: the PAM module always logs to the `auth` facility and the daemon writes to stderr; remove the key from config.toml"@,
    )
}

/// The warning of a configuration that sets `[logging].journald_priority`.
pub open spec fn priority_event() -> EventModel {
    with_text(
        bare_event("tessera.config"@, AuditLevel::Warn, ""@),
        "message"@,
        "[logging].journald_priority is deprecated and ignored; remove the key from config.toml"@,
    )
}

/// The warnings of a `[logging]` section: one for each deprecated key, unless the facility is
/// unknown.
pub open spec fn deprecation_events(raw: RawLogging) -> Seq<EventModel> {
    if raw.syslog_facility matches Some(f) && facility_named(f@) is None {
        Seq::empty()
    } else {
        event_if(raw.syslog_facility is Some, facility_event()) + event_if(
            raw.journald_priority is Some,
            priority_event(),
        )
    }
}

/// Validate the `[logging]` section. The deprecated keys are checked, warned of and not carried
/// over.
pub fn validate_logging(raw: &RawLogging, log: &mut AuditLog) -> (r: Result<LoggingSection, Error>)
    ensures
        final(log)@ == old(log)@ + deprecation_events(*raw),
        r matches Ok(l) ==> logging_fault(*raw) is None && level_named(raw.level@) == Some(l.level),
        r matches Err(e) ==> logging_fault(*raw) == Some(fault_of(e)),
{
    let ghost before = log@;
    if let Some(f) = &raw.syslog_facility {
        match SyslogFacility::from_str(f.as_str()) {
            Ok(_) => {
                let e = AuditEvent::new("tessera.config", AuditLevel::Warn, "");
                log.record(
                    e.text(
                        "message",
                        "[logging].syslog_facility is deprecated and ignored: the PAM module always logs to the `auth` facility and the daemon writes to stderr; remove the key from config.toml",
                    ),
                );
            },
            Err(e) => {
                assert(log@ =~= before + deprecation_events(*raw));
                return Err(e);
            },
        }
    }
    if raw.journald_priority.is_some() {
        let e = AuditEvent::new("tessera.config", AuditLevel::Warn, "");
        log.record(
            e.text(
                "message",
                "[logging].journald_priority is deprecated and ignored; remove the key from config.toml",
            ),
        );
    }
    assert(log@ =~= before + deprecation_events(*raw));
    match LogLevel::from_str(raw.level.as_str()) {
        Ok(level) => Ok(LoggingSection { level }),
        Err(e) => Err(e),
    }
}

// --- [host_identity] --------------------------------------------------------

/// Whether an earlier source is of the same kind, under whatever name.
pub open spec fn repeats_kind(sources: Seq<String>, i: int) -> bool {
    exists|j: int|
        0 <= j < i && source_kind_named((#[trigger] sources[j])@) == source_kind_named(sources[i]@)
}

/// Why a source of the host identity is refused.
pub open spec fn source_fault(sources: Seq<String>, i: int) -> Option<ConfigFault> {
    if source_kind_named(sources[i]@) is None {
        Some(ConfigFault::Invalid("invalid host identity source: "@ + sources[i]@))
    } else if repeats_kind(sources, i) {
        Some(ConfigFault::Invalid("duplicate host identity source"@))
    } else {
        None
    }
}

/// Why a `[host_identity]` section is refused.
pub open spec fn host_identity_fault(raw: RawHostIdentity) -> Option<ConfigFault> {
    either(
        first_fault(raw.sources@.len(), |i: int| source_fault(raw.sources@, i)),
        either(
            if raw.sources@.len() == 0 {
                Some(ConfigFault::Invalid("host_identity.sources must be non-empty"@))
            } else {
                None
            },
            match raw.custom_command {
                Some(c) => if is_absolute_path(c@) {
                    None
                } else {
                    Some(
                        ConfigFault::Invalid(
                            "host_identity.custom_command must be an absolute path (got "@ + c@
                                + ")"@,
                        ),
                    )
                },
                None => None,
            },
        ),
    )
}

/// The fallback of a `[host_identity]` section.
pub open spec fn host_id_fallback(f: RawHostIdFallback) -> HostIdFallback {
    match f {
        RawHostIdFallback::Deny => HostIdFallback::Deny,
        RawHostIdFallback::Warn => HostIdFallback::Warn,
        RawHostIdFallback::Allow => HostIdFallback::Allow,
    }
}

/// A timeout held within 1 and 30 seconds.
pub open spec fn clamped_timeout(secs: u64) -> u64 {
    if secs < 1 {
        1
    } else if secs > 30 {
        30
    } else {
        secs
    }
}

/// Whether a section is what validation makes of a raw `[host_identity]`.
pub open spec fn host_identity_validated(raw: RawHostIdentity, s: HostIdentitySection) -> bool {
    &&& s.sources@.len() == raw.sources@.len()
    &&& forall|i: int|
        0 <= i < s.sources@.len() ==> source_kind_named(raw.sources@[i]@) == Some(
            #[trigger] s.sources@[i],
        )
    &&& s.fallback == host_id_fallback(raw.fallback)
    &&& s.override_value == raw.override_value
    &&& s.custom_command == raw.custom_command
    &&& s.custom_command_timeout == Duration::of_secs(
        clamped_timeout(raw.custom_command_timeout_seconds),
    )
}

fn holds_kind(kinds: &Vec<HostIdSourceKind>, kind: HostIdSourceKind) -> (r: bool)
    ensures
        r == kinds@.contains(kind),
{
    let mut i: usize = 0;
    while i < kinds.len()
        invariant
            i <= kinds@.len(),
            forall|k: int| 0 <= k < i ==> kinds@[k] != kind,
        decreases kinds@.len() - i,
    {
        if kinds[i] == kind {
            assert(kinds@[i as int] == kind);
            return true;
        }
        i = i + 1;
    }
    false
}

fn parse_sources(sources: &Vec<String>) -> (r: Result<Vec<HostIdSourceKind>, Error>)
    ensures
        r matches Ok(v) ==> first_fault(sources@.len(), |i: int| source_fault(sources@, i)) is None
            && v@.len() == sources@.len() && forall|i: int|
            0 <= i < v@.len() ==> source_kind_named(sources@[i]@) == Some(#[trigger] v@[i]),
        r matches Err(e) ==> first_fault(sources@.len(), |i: int| source_fault(sources@, i))
            == Some(fault_of(e)),
{
    let ghost at = |i: int| source_fault(sources@, i);
    let mut out: Vec<HostIdSourceKind> = Vec::new();
    let mut i: usize = 0;
    while i < sources.len()
        invariant
            i <= sources@.len(),
            at == (|i: int| source_fault(sources@, i)),
            first_fault(i as nat, at) is None,
            out@.len() == i,
            forall|k: int| 0 <= k < i ==> source_kind_named(sources@[k]@) == Some(#[trigger] out@[k]),
        decreases sources@.len() - i,
    {
        proof {
            if first_fault((i + 1) as nat, at) is Some {
                lemma_first_fault(sources@.len(), (i + 1) as nat, at);
            }
        }
        let kind = match HostIdSourceKind::from_str(sources[i].as_str()) {
            Ok(k) => k,
            Err(e) => {
                return Err(e);
            },
        };
        let seen = holds_kind(&out, kind);
        proof {
            if seen {
                let k = choose|k: int| 0 <= k < out@.len() && out@[k] == kind;
                assert(source_kind_named(sources@[k]@) == source_kind_named(sources@[i as int]@));
                assert(repeats_kind(sources@, i as int));
            } else if repeats_kind(sources@, i as int) {
                let j = choose|j: int|
                    0 <= j < i && source_kind_named((#[trigger] sources@[j])@) == source_kind_named(
                        sources@[i as int]@,
                    );
                assert(out@[j] == kind);
            }
        }
        if seen {
            return Err(invalid("duplicate host identity source".to_owned()));
        }
        out.push(kind);
        i = i + 1;
    }
    Ok(out)
}

/// A copy of an optional string.
pub(crate) fn clone_opt(v: &Option<String>) -> (r: Option<String>)
    ensures
        r == *v,
{
    match v {
        Some(s) => Some(s.clone()),
        None => None,
    }
}

/// Validate the `[host_identity]` section.
pub fn validate_host_identity(raw: &RawHostIdentity) -> (r: Result<HostIdentitySection, Error>)
    ensures
        r matches Ok(s) ==> host_identity_fault(*raw) is None && host_identity_validated(*raw, s),
        r matches Err(e) ==> host_identity_fault(*raw) == Some(fault_of(e)),
{
    let sources = match parse_sources(&raw.sources) {
        Ok(v) => v,
        Err(e) => {
            return Err(e);
        },
    };
    if sources.len() == 0 {
        return Err(invalid("host_identity.sources must be non-empty".to_owned()));
    }
    if let Some(c) = &raw.custom_command {
        if !is_absolute(c.as_str()) {
            return Err(
                invalid(
                    cat3(
                        "host_identity.custom_command must be an absolute path (got ",
                        c.as_str(),
                        ")",
                    ),
                ),
            );
        }
    }
    let fallback = match raw.fallback {
        RawHostIdFallback::Deny => HostIdFallback::Deny,
        RawHostIdFallback::Warn => HostIdFallback::Warn,
        RawHostIdFallback::Allow => HostIdFallback::Allow,
    };
    let secs: u64 = raw.custom_command_timeout_seconds;
    let secs: u64 = if secs < 1 {
        1
    } else if secs > 30 {
        30
    } else {
        secs
    };
    Ok(
        HostIdentitySection {
            sources,
            fallback,
            override_value: clone_opt(&raw.override_value),
            custom_command: clone_opt(&raw.custom_command),
            custom_command_timeout: Duration::from_secs(secs),
        },
    )
}

// --- [[user_mapping]] -------------------------------------------------------

/// Whether an earlier mapping is for the same user.
pub open spec fn repeats_user(raw: Seq<RawUserMapping>, i: int) -> bool {
    exists|j: int| 0 <= j < i && (#[trigger] raw[j]).pam_user@ == raw[i].pam_user@
}

/// How many criteria a mapping sets.
pub open spec fn criteria_count(m: RawUserMapping) -> int {
    (if m.cert_subject_cn is Some {
        1int
    } else {
        0
    }) + (if m.cert_san_email is Some {
        1int
    } else {
        0
    }) + (if m.cert_san_upn is Some {
        1int
    } else {
        0
    })
}

/// Why a mapping is refused: no login name, a second mapping of a user, or not one criterion.
pub open spec fn mapping_fault(raw: Seq<RawUserMapping>, i: int) -> Option<ConfigFault> {
    if !is_login_name(raw[i].pam_user@) || repeats_user(raw, i) {
        Some(ConfigFault::Invalid("invalid or duplicate pam_user"@))
    } else if criteria_count(raw[i]) != 1 {
        Some(ConfigFault::Invalid("user_mapping must set exactly one criterion"@))
    } else {
        None
    }
}

/// Why the user mappings are refused: the first faulty one.
pub open spec fn mappings_fault(raw: Seq<RawUserMapping>) -> Option<ConfigFault> {
    first_fault(raw.len(), |i: int| mapping_fault(raw, i))
}

/// Whether a mapping is what validation makes of a raw one.
pub open spec fn mapping_validated(raw: RawUserMapping, m: UserMapping) -> bool {
    &&& m.pam_user == raw.pam_user
    &&& match m.criteria {
        UserMatchCriteria::SubjectCn(v) => raw.cert_subject_cn == Some(v),
        UserMatchCriteria::SanEmail(v) => raw.cert_san_email == Some(v),
        UserMatchCriteria::SanUpn(v) => raw.cert_san_upn == Some(v),
    }
}

fn one_criterion(m: &RawUserMapping) -> (r: Option<UserMatchCriteria>)
    ensures
        r is Some <==> criteria_count(*m) == 1,
        r matches Some(c) ==> match c {
            UserMatchCriteria::SubjectCn(v) => m.cert_subject_cn == Some(v),
            UserMatchCriteria::SanEmail(v) => m.cert_san_email == Some(v),
            UserMatchCriteria::SanUpn(v) => m.cert_san_upn == Some(v),
        },
{
    match (&m.cert_subject_cn, &m.cert_san_email, &m.cert_san_upn) {
        (Some(v), None, None) => Some(UserMatchCriteria::SubjectCn(v.clone())),
        (None, Some(v), None) => Some(UserMatchCriteria::SanEmail(v.clone())),
        (None, None, Some(v)) => Some(UserMatchCriteria::SanUpn(v.clone())),
        _ => None,
    }
}

/// The users of the first mappings.
spec fn users_of(raw: Seq<RawUserMapping>, n: int) -> Set<Seq<char>> {
    Set::new(|u: Seq<char>| exists|j: int| 0 <= j < n && (#[trigger] raw[j]).pam_user@ == u)
}

/// Validate the user mappings.
pub fn validate_user_mappings(raw: &Vec<RawUserMapping>) -> (r: Result<Vec<UserMapping>, Error>)
    ensures
        r matches Ok(v) ==> mappings_fault(raw@) is None && v@.len() == raw@.len() && forall|i: int|
            0 <= i < v@.len() ==> mapping_validated(raw@[i], #[trigger] v@[i]),
        r matches Err(e) ==> mappings_fault(raw@) == Some(fault_of(e)),
{
    let ghost at = |i: int| mapping_fault(raw@, i);
    let mut seen = StringSet::new();
    let mut out: Vec<UserMapping> = Vec::new();
    let mut i: usize = 0;
    assert(seen@ =~= users_of(raw@, 0));
    while i < raw.len()
        invariant
            i <= raw@.len(),
            at == (|i: int| mapping_fault(raw@, i)),
            first_fault(i as nat, at) is None,
            seen.wf(),
            seen@ == users_of(raw@, i as int),
            out@.len() == i,
            forall|k: int| 0 <= k < i ==> mapping_validated(raw@[k], #[trigger] out@[k]),
        decreases raw@.len() - i,
    {
        proof {
            if first_fault((i + 1) as nat, at) is Some {
                lemma_first_fault(raw@.len(), (i + 1) as nat, at);
            }
        }
        let user = raw[i].pam_user.as_str();
        let shaped = match regex_is_match("^[a-z_][a-z0-9_-]{0,31}$", user) {
            Some(b) => b,
            None => false,
        };
        assert(seen@.contains(user@) == repeats_user(raw@, i as int));
        if !shaped || !seen.insert(raw[i].pam_user.clone()) {
            return Err(invalid("invalid or duplicate pam_user".to_owned()));
        }
        let criteria = match one_criterion(&raw[i]) {
            Some(c) => c,
            None => {
                return Err(invalid("user_mapping must set exactly one criterion".to_owned()));
            },
        };
        out.push(UserMapping { pam_user: raw[i].pam_user.clone(), criteria });
        proof {
            let u = raw@[i as int].pam_user@;
            assert forall|x: Seq<char>| #[trigger]
                seen@.contains(x) == users_of(raw@, i + 1).contains(x) by {
                if users_of(raw@, i + 1).contains(x) {
                    let j = choose|j: int|
                        0 <= j < i + 1 && (#[trigger] raw@[j]).pam_user@ == x;
                    if j < i {
                        assert(users_of(raw@, i as int).contains(x));
                    }
                }
                if seen@.contains(x) {
                    if x == u {
                        assert(raw@[i as int].pam_user@ == x);
                    } else {
                        let j = choose|j: int|
                            0 <= j < i && (#[trigger] raw@[j]).pam_user@ == x;
                        assert(raw@[j].pam_user@ == x);
                    }
                }
            }
            assert(seen@ =~= users_of(raw@, i + 1));
        }
        i = i + 1;
    }
    Ok(out)
}

/// What a `[logging]` section may say: a known level, and a known facility where one is still
/// named; the facility is looked at first.
pub proof fn accepted_logging(raw: RawLogging)
    ensures
        logging_fault(raw) is None <==> level_named(raw.level@) is Some && (
        raw.syslog_facility matches Some(f) ==> facility_named(f@) is Some),
        (raw.syslog_facility matches Some(f) && facility_named(f@) is None) ==> logging_fault(raw)
            == Some(ConfigFault::Invalid("invalid syslog facility: "@ + raw.syslog_facility->0@)),
{
}

/// A deprecated key that is set is warned of, each in its own words; one that is not is not.
pub proof fn deprecated_keys_are_warned_of(raw: RawLogging)
    ensures
        raw.syslog_facility is None && raw.journald_priority is None ==> deprecation_events(
            raw,
        ).len() == 0,
        raw.syslog_facility is None && raw.journald_priority is Some ==> deprecation_events(raw)
            == seq![priority_event()],
        (raw.syslog_facility matches Some(f) && facility_named(f@) is Some) ==> deprecation_events(
            raw,
        ).len() == (if raw.journald_priority is Some { 2int } else { 1 }) && deprecation_events(
            raw,
        )[0] == facility_event(),
        (raw.syslog_facility matches Some(f) && facility_named(f@) is None) ==> deprecation_events(
            raw,
        ).len() == 0,
        facility_event().level == AuditLevel::Warn && priority_event().level == AuditLevel::Warn,
        facility_event().target == "tessera.config"@ && priority_event().target == "tessera.config"@,
{
    assert(Seq::<EventModel>::empty() + seq![priority_event()] =~= seq![priority_event()]);
}

/// What a `[host_identity]` section may say: at least one source, each known and none twice under
/// whatever name, and a command by its absolute path.
pub proof fn accepted_host_identity(raw: RawHostIdentity, i: int, j: int)
    requires
        host_identity_fault(raw) is None,
    ensures
        raw.sources@.len() > 0,
        0 <= i < raw.sources@.len() ==> source_kind_named(raw.sources@[i]@) is Some,
        0 <= i < j < raw.sources@.len() ==> source_kind_named(raw.sources@[i]@)
            != source_kind_named(raw.sources@[j]@),
        raw.custom_command matches Some(c) ==> c@.len() > 0 && c@[0] == '/',
{
    let at = |i: int| source_fault(raw.sources@, i);
    if 0 <= i < raw.sources@.len() {
        lemma_no_fault(raw.sources@.len(), i, at);
    }
    if 0 <= i < j < raw.sources@.len() {
        lemma_no_fault(raw.sources@.len(), j, at);
        if source_kind_named(raw.sources@[i]@) == source_kind_named(raw.sources@[j]@) {
            assert(repeats_kind(raw.sources@, j));
        }
    }
}

/// And any such section is accepted.
pub proof fn plain_host_identity_is_accepted(raw: RawHostIdentity)
    requires
        raw.sources@.len() > 0,
        forall|i: int|
            0 <= i < raw.sources@.len() ==> source_kind_named((#[trigger] raw.sources@[i])@) is Some,
        forall|i: int, j: int|
            0 <= i < j < raw.sources@.len() ==> source_kind_named((#[trigger] raw.sources@[i])@)
                != source_kind_named((#[trigger] raw.sources@[j])@),
        raw.custom_command matches Some(c) ==> c@.len() > 0 && c@[0] == '/',
    ensures
        host_identity_fault(raw) is None,
{
    let at = |i: int| source_fault(raw.sources@, i);
    assert forall|i: int| 0 <= i < raw.sources@.len() implies (#[trigger] at(i)) is None by {
        let s = raw.sources@[i];
        assert(!repeats_kind(raw.sources@, i));
    }
    no_fault_without_a_place(raw.sources@.len(), at);
}

/// What a `[host_identity]` section becomes: its sources in their order, its fallback and its
/// command, which gets one to thirty seconds, as near as can be to what was asked for.
pub proof fn host_identity_keys_are_carried_over(
    raw: RawHostIdentity,
    s: HostIdentitySection,
    i: int,
)
    requires
        host_identity_validated(raw, s),
    ensures
        s.sources@.len() == raw.sources@.len(),
        0 <= i < s.sources@.len() ==> source_kind_named(raw.sources@[i]@) == Some(s.sources@[i]),
        s.fallback == HostIdFallback::Deny <==> raw.fallback == RawHostIdFallback::Deny,
        s.fallback == HostIdFallback::Warn <==> raw.fallback == RawHostIdFallback::Warn,
        s.fallback == HostIdFallback::Allow <==> raw.fallback == RawHostIdFallback::Allow,
        s.override_value == raw.override_value,
        s.custom_command == raw.custom_command,
        s.custom_command_timeout.nanos == 0,
        1 <= raw.custom_command_timeout_seconds <= 30 ==> s.custom_command_timeout.secs
            == raw.custom_command_timeout_seconds,
        raw.custom_command_timeout_seconds < 1 ==> s.custom_command_timeout.secs == 1,
        raw.custom_command_timeout_seconds > 30 ==> s.custom_command_timeout.secs == 30,
{
}

/// What a mapping may say: a login name that no mapping before it has, and exactly one criterion.
pub proof fn accepted_mappings(raw: Seq<RawUserMapping>, i: int, j: int)
    requires
        mappings_fault(raw) is None,
        0 <= i < raw.len(),
    ensures
        1 <= raw[i].pam_user@.len() <= 32,
        'a' <= raw[i].pam_user@[0] <= 'z' || raw[i].pam_user@[0] == '_',
        0 <= j < raw[i].pam_user@.len() ==> ({
            let c = raw[i].pam_user@[j];
            'a' <= c <= 'z' || c == '_' || (j > 0 && ('0' <= c <= '9' || c == '-'))
        }),
        0 <= j < raw.len() && j != i ==> raw[j].pam_user@ != raw[i].pam_user@,
        raw[i].cert_subject_cn is Some ==> raw[i].cert_san_email is None && raw[i].cert_san_upn
            is None,
        raw[i].cert_san_email is Some ==> raw[i].cert_subject_cn is None && raw[i].cert_san_upn
            is None,
        raw[i].cert_subject_cn is Some || raw[i].cert_san_email is Some || raw[i].cert_san_upn
            is Some,
{
    let at = |i: int| mapping_fault(raw, i);
    lemma_no_fault(raw.len(), i, at);
    if 0 <= j < raw.len() && j != i && raw[j].pam_user@ == raw[i].pam_user@ {
        if j < i {
            assert(repeats_user(raw, i));
        } else {
            lemma_no_fault(raw.len(), j, at);
            assert(repeats_user(raw, j));
        }
    }
}

/// And any such list of mappings is accepted.
pub proof fn plain_mappings_are_accepted(raw: Seq<RawUserMapping>)
    requires
        forall|i: int| 0 <= i < raw.len() ==> is_login_name((#[trigger] raw[i]).pam_user@),
        forall|i: int, j: int|
            0 <= i < j < raw.len() ==> (#[trigger] raw[i]).pam_user@ != (
            #[trigger] raw[j]).pam_user@,
        forall|i: int|
            0 <= i < raw.len() ==> ((#[trigger] raw[i]).cert_subject_cn is Some
                && raw[i].cert_san_email is None && raw[i].cert_san_upn is None) || (
            raw[i].cert_subject_cn is None && raw[i].cert_san_email is Some && raw[i].cert_san_upn
                is None) || (raw[i].cert_subject_cn is None && raw[i].cert_san_email is None
                && raw[i].cert_san_upn is Some),
    ensures
        mappings_fault(raw) is None,
{
    let at = |i: int| mapping_fault(raw, i);
    assert forall|i: int| 0 <= i < raw.len() implies (#[trigger] at(i)) is None by {
        let m = raw[i];
        assert(!repeats_user(raw, i));
    }
    no_fault_without_a_place(raw.len(), at);
}

/// A mapping is for its user, by the criterion that is set.
pub proof fn mapping_is_carried_over(raw: RawUserMapping, m: UserMapping)
    requires
        mapping_validated(raw, m),
        criteria_count(raw) == 1,
    ensures
        m.pam_user == raw.pam_user,
        raw.cert_subject_cn matches Some(v) ==> m.criteria == UserMatchCriteria::SubjectCn(v),
        raw.cert_san_email matches Some(v) ==> m.criteria == UserMatchCriteria::SanEmail(v),
        raw.cert_san_upn matches Some(v) ==> m.criteria == UserMatchCriteria::SanUpn(v),
{
}

} // verus!
