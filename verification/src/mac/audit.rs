//! Audit events of the MAC subsystem.
//!
//! Every event goes to the target `mac.audit`. The `emit_*` functions fix its name, its
//! severity and its fields, and record it in an [`AuditLog`].

use crate::audit::{
    bare_event, fixed_hex, hex16, with_number, with_text, AuditEvent, AuditLevel, AuditLog,
    EventModel, ValueModel,
};
use crate::mac::label::IntegrityLabel;
use crate::text::str_eq;
use crate::x509::CertIdent;
use vstd::prelude::*;

verus! {

/// Name of the event `mac_skipped`.
pub const EVENT_MAC_SKIPPED: &'static str = "mac_skipped";

/// Name of the event `mac_runtime_required`.
pub const EVENT_MAC_RUNTIME_REQUIRED: &'static str = "mac_runtime_required";

/// Name of the event `cert_lacks_max_integrity_ext`.
pub const EVENT_CERT_LACKS_EXT: &'static str = "cert_lacks_max_integrity_ext";

/// Name of the event `integrity_applied`.
pub const EVENT_INTEGRITY_APPLIED: &'static str = "integrity_applied";

/// Name of the event `integrity_capped_below_user_mnkc`.
pub const EVENT_INTEGRITY_CAPPED: &'static str = "integrity_capped_below_user_mnkc";

/// Name of the event `homedir_label_above_session_cap`.
pub const EVENT_HOMEDIR_LABEL_ABOVE: &'static str = "homedir_label_above_session_cap";

/// Name of the event `role_mask_exceeds_ceiling`.
pub const EVENT_MASK_EXCEEDS_CEILING: &'static str = "role_mask_exceeds_ceiling";

/// Name of the event `mac_apply_failed`.
pub const EVENT_MAC_APPLY_FAILED: &'static str = "mac_apply_failed";

/// Name of the event `mac_caps_missing`.
pub const EVENT_MAC_CAPS_MISSING: &'static str = "mac_caps_missing";

/// Name of the event `mac_user_unknown`.
pub const EVENT_MAC_USER_UNKNOWN: &'static str = "mac_user_unknown";

/// Name of the event `mac_fallback_used`.
pub const EVENT_MAC_FALLBACK_USED: &'static str = "mac_fallback_used";

/// Name of the event `cert_max_integrity_categories_above_32bit`.
pub const EVENT_CERT_MAX_INT_CATS_ABOVE_32BIT: &'static str = "cert_max_integrity_categories_above_32bit";

/// Name of the event `cert_max_integrity_parse_failed`.
pub const EVENT_CERT_EXT_PARSE_FAILED: &'static str = "cert_max_integrity_parse_failed";

/// Name of the event `mac_socket_label_set`.
pub const EVENT_MAC_SOCKET_LABEL: &'static str = "mac_socket_label_set";

/// Name of the event `mac_sessions_file_label_warning`.
pub const EVENT_MAC_SESSIONS_FILE_WARN: &'static str = "mac_sessions_file_label_warning";

/// Name of the event `mac_runtime_fallback`.
pub const EVENT_MAC_RUNTIME_FALLBACK: &'static str = "mac_runtime_fallback";

/// Name of the event `mac_runtime_disabled`.
pub const EVENT_MAC_RUNTIME_DISABLED: &'static str = "mac_runtime_disabled";

/// An event of the MAC subsystem, without fields.
pub open spec fn mac_event(level: AuditLevel, name: Seq<char>) -> EventModel {
    bare_event("mac.audit"@, level, name)
}

/// An event with the PAM user and service.
pub open spec fn with_who(e: EventModel, user: Seq<char>, service: Seq<char>) -> EventModel {
    with_text(with_text(e, "F_pam_user"@, user), "F_pam_service"@, service)
}

/// An event with the identifiers of a certificate.
pub open spec fn with_cert(e: EventModel, c: CertIdent) -> EventModel {
    with_text(
        with_text(
            with_text(with_text(e, "F_cert_serial"@, c.serial@), "F_cert_issuer"@, c.issuer@),
            "F_cert_cn"@,
            c.cn@,
        ),
        "F_cert_fingerprint"@,
        c.fingerprint@,
    )
}

/// Categories as sixteen hexadecimal digits.
pub open spec fn categories_text(categories: u64) -> Seq<char> {
    fixed_hex(categories as nat, 16)
}

fn add_who(e: AuditEvent, user: &str, service: &str) -> (r: AuditEvent)
    ensures
        r@ == with_who(e@, user@, service@),
{
    e.text("F_pam_user", user).text("F_pam_service", service)
}

fn add_cert(e: AuditEvent, c: &CertIdent) -> (r: AuditEvent)
    ensures
        r@ == with_cert(e@, *c),
{
    e.text("F_cert_serial", c.serial.as_str()).text("F_cert_issuer", c.issuer.as_str()).text(
        "F_cert_cn",
        c.cn.as_str(),
    ).text("F_cert_fingerprint", c.fingerprint.as_str())
}

/// The event `mac_skipped`.
pub open spec fn mac_skipped_event(reason: Seq<char>) -> EventModel {
    with_text(mac_event(AuditLevel::Info, EVENT_MAC_SKIPPED@), "F_reason"@, reason)
}

/// Records `mac_skipped`: the session policy decided not to touch the kernel.
pub fn emit_mac_skipped(log: &mut AuditLog, reason: &str)
    ensures
        final(log)@ == old(log)@.push(mac_skipped_event(reason@)),
{
    let e = AuditEvent::new("mac.audit", AuditLevel::Info, EVENT_MAC_SKIPPED);
    let e = e.text("F_reason", reason);
    log.record(e);
}

/// The event `mac_runtime_required`.
pub open spec fn mac_runtime_required_event(runtime: Seq<char>) -> EventModel {
    with_text(mac_event(AuditLevel::Error, EVENT_MAC_RUNTIME_REQUIRED@), "F_runtime"@, runtime)
}

/// Records `mac_runtime_required`: the policy requires the backend but it is not active.
pub fn emit_mac_runtime_required(log: &mut AuditLog, runtime: &str)
    ensures
        final(log)@ == old(log)@.push(mac_runtime_required_event(runtime@)),
{
    let e = AuditEvent::new("mac.audit", AuditLevel::Error, EVENT_MAC_RUNTIME_REQUIRED);
    let e = e.text("F_runtime", runtime);
    log.record(e);
}

/// The event `cert_lacks_max_integrity_ext`.
pub open spec fn cert_lacks_ext_event(ident: CertIdent, pam_user: Seq<char>, pam_service: Seq<char>) -> EventModel {
    with_cert(with_who(mac_event(AuditLevel::Error, EVENT_CERT_LACKS_EXT@), pam_user, pam_service), ident)
}

/// Records `cert_lacks_max_integrity_ext`: the policy requires the extension and the leaf lacks it.
pub fn emit_cert_lacks_ext(log: &mut AuditLog, ident: &CertIdent, pam_user: &str, pam_service: &str)
    ensures
        final(log)@ == old(log)@.push(cert_lacks_ext_event(*ident, pam_user@, pam_service@)),
{
    let e = AuditEvent::new("mac.audit", AuditLevel::Error, EVENT_CERT_LACKS_EXT);
    let e = add_who(e, pam_user, pam_service);
    let e = add_cert(e, ident);
    log.record(e);
}

/// The event `integrity_applied`.
pub open spec fn integrity_applied_event(ident: CertIdent, pam_user: Seq<char>, pam_service: Seq<char>, label: IntegrityLabel) -> EventModel {
    with_text(with_number(with_cert(with_who(mac_event(AuditLevel::Info, EVENT_INTEGRITY_APPLIED@), pam_user, pam_service), ident), "F_level"@, label.level as int), "F_categories"@, categories_text(label.categories))
}

/// Records `integrity_applied`: the process label was resolved and applied.
pub fn emit_integrity_applied(log: &mut AuditLog, ident: &CertIdent, pam_user: &str, pam_service: &str, label: IntegrityLabel)
    ensures
        final(log)@ == old(log)@.push(integrity_applied_event(*ident, pam_user@, pam_service@, label)),
{
    let e = AuditEvent::new("mac.audit", AuditLevel::Info, EVENT_INTEGRITY_APPLIED);
    let e = add_who(e, pam_user, pam_service);
    let e = add_cert(e, ident);
    let e = e.number("F_level", label.level as i64);
    let e = e.text("F_categories", hex16(label.categories).as_str());
    log.record(e);
}

/// The event `integrity_capped_below_user_mnkc`.
pub open spec fn integrity_capped_event(ident: CertIdent, pam_user: Seq<char>, pam_service: Seq<char>, effective: IntegrityLabel, user_mnkc: IntegrityLabel) -> EventModel {
    with_text(with_number(with_text(with_number(with_cert(with_who(mac_event(AuditLevel::Warn, EVENT_INTEGRITY_CAPPED@), pam_user, pam_service), ident), "F_effective_level"@, effective.level as int), "F_effective_categories"@, categories_text(effective.categories)), "F_user_level"@, user_mnkc.level as int), "F_user_categories"@, categories_text(user_mnkc.categories))
}

/// Records `integrity_capped_below_user_mnkc`: the effective label lies strictly below the user's maximum.
pub fn emit_integrity_capped(log: &mut AuditLog, ident: &CertIdent, pam_user: &str, pam_service: &str, effective: IntegrityLabel, user_mnkc: IntegrityLabel)
    ensures
        final(log)@ == old(log)@.push(integrity_capped_event(*ident, pam_user@, pam_service@, effective, user_mnkc)),
{
    let e = AuditEvent::new("mac.audit", AuditLevel::Warn, EVENT_INTEGRITY_CAPPED);
    let e = add_who(e, pam_user, pam_service);
    let e = add_cert(e, ident);
    let e = e.number("F_effective_level", effective.level as i64);
    let e = e.text("F_effective_categories", hex16(effective.categories).as_str());
    let e = e.number("F_user_level", user_mnkc.level as i64);
    let e = e.text("F_user_categories", hex16(user_mnkc.categories).as_str());
    log.record(e);
}

/// The event `role_mask_exceeds_ceiling`.
pub open spec fn mask_exceeds_ceiling_event(ident: CertIdent, pam_user: Seq<char>, pam_service: Seq<char>, requested: IntegrityLabel, ceiling: IntegrityLabel) -> EventModel {
    with_text(with_number(with_text(with_number(with_cert(with_who(mac_event(AuditLevel::Warn, EVENT_MASK_EXCEEDS_CEILING@), pam_user, pam_service), ident), "F_requested_level"@, requested.level as int), "F_requested_categories"@, categories_text(requested.categories)), "F_ceiling_level"@, ceiling.level as int), "F_ceiling_categories"@, categories_text(ceiling.categories))
}

/// Records `role_mask_exceeds_ceiling`: a role's mask is not covered by the certificate's ceiling.
pub fn emit_mask_exceeds_ceiling(log: &mut AuditLog, ident: &CertIdent, pam_user: &str, pam_service: &str, requested: IntegrityLabel, ceiling: IntegrityLabel)
    ensures
        final(log)@ == old(log)@.push(mask_exceeds_ceiling_event(*ident, pam_user@, pam_service@, requested, ceiling)),
{
    let e = AuditEvent::new("mac.audit", AuditLevel::Warn, EVENT_MASK_EXCEEDS_CEILING);
    let e = add_who(e, pam_user, pam_service);
    let e = add_cert(e, ident);
    let e = e.number("F_requested_level", requested.level as i64);
    let e = e.text("F_requested_categories", hex16(requested.categories).as_str());
    let e = e.number("F_ceiling_level", ceiling.level as i64);
    let e = e.text("F_ceiling_categories", hex16(ceiling.categories).as_str());
    log.record(e);
}

/// The event `homedir_label_above_session_cap`.
pub open spec fn homedir_label_above_event(pam_user: Seq<char>, pam_service: Seq<char>, home_dir: Seq<char>, home_label: IntegrityLabel, effective: IntegrityLabel) -> EventModel {
    with_text(with_number(with_text(with_number(with_text(with_who(mac_event(AuditLevel::Warn, EVENT_HOMEDIR_LABEL_ABOVE@), pam_user, pam_service), "F_home_dir"@, home_dir), "F_home_level"@, home_label.level as int), "F_home_categories"@, categories_text(home_label.categories)), "F_effective_level"@, effective.level as int), "F_effective_categories"@, categories_text(effective.categories))
}

/// Records `homedir_label_above_session_cap`: the home label exceeds the effective label (advisory).
pub fn emit_homedir_label_above(log: &mut AuditLog, pam_user: &str, pam_service: &str, home_dir: &str, home_label: IntegrityLabel, effective: IntegrityLabel)
    ensures
        final(log)@ == old(log)@.push(homedir_label_above_event(pam_user@, pam_service@, home_dir@, home_label, effective)),
{
    let e = AuditEvent::new("mac.audit", AuditLevel::Warn, EVENT_HOMEDIR_LABEL_ABOVE);
    let e = add_who(e, pam_user, pam_service);
    let e = e.text("F_home_dir", home_dir);
    let e = e.number("F_home_level", home_label.level as i64);
    let e = e.text("F_home_categories", hex16(home_label.categories).as_str());
    let e = e.number("F_effective_level", effective.level as i64);
    let e = e.text("F_effective_categories", hex16(effective.categories).as_str());
    log.record(e);
}

/// The event `mac_apply_failed`.
pub open spec fn apply_failed_event(ident: CertIdent, pam_user: Seq<char>, pam_service: Seq<char>, detail: Seq<char>) -> EventModel {
    with_text(with_cert(with_who(mac_event(AuditLevel::Error, EVENT_MAC_APPLY_FAILED@), pam_user, pam_service), ident), "F_detail"@, detail)
}

/// Records `mac_apply_failed`: applying the label failed.
pub fn emit_apply_failed(log: &mut AuditLog, ident: &CertIdent, pam_user: &str, pam_service: &str, detail: &str)
    ensures
        final(log)@ == old(log)@.push(apply_failed_event(*ident, pam_user@, pam_service@, detail@)),
{
    let e = AuditEvent::new("mac.audit", AuditLevel::Error, EVENT_MAC_APPLY_FAILED);
    let e = add_who(e, pam_user, pam_service);
    let e = add_cert(e, ident);
    let e = e.text("F_detail", detail);
    log.record(e);
}

/// The event `mac_caps_missing`.
pub open spec fn caps_missing_event(detail: Seq<char>) -> EventModel {
    with_text(mac_event(AuditLevel::Warn, EVENT_MAC_CAPS_MISSING@), "F_detail"@, detail)
}

/// Records `mac_caps_missing`: the process lacks the capability.
pub fn emit_caps_missing(log: &mut AuditLog, detail: &str)
    ensures
        final(log)@ == old(log)@.push(caps_missing_event(detail@)),
{
    let e = AuditEvent::new("mac.audit", AuditLevel::Warn, EVENT_MAC_CAPS_MISSING);
    let e = e.text("F_detail", detail);
    log.record(e);
}

/// The event `mac_user_unknown`.
pub open spec fn user_unknown_event(pam_user: Seq<char>, pam_service: Seq<char>) -> EventModel {
    with_who(mac_event(AuditLevel::Error, EVENT_MAC_USER_UNKNOWN@), pam_user, pam_service)
}

/// Records `mac_user_unknown`: the user has no entry in the integrity database.
pub fn emit_user_unknown(log: &mut AuditLog, pam_user: &str, pam_service: &str)
    ensures
        final(log)@ == old(log)@.push(user_unknown_event(pam_user@, pam_service@)),
{
    let e = AuditEvent::new("mac.audit", AuditLevel::Error, EVENT_MAC_USER_UNKNOWN);
    let e = add_who(e, pam_user, pam_service);
    log.record(e);
}

/// The event `mac_fallback_used`.
pub open spec fn fallback_used_event(pam_user: Seq<char>, pam_service: Seq<char>, fallback: IntegrityLabel) -> EventModel {
    with_text(with_number(with_who(mac_event(AuditLevel::Info, EVENT_MAC_FALLBACK_USED@), pam_user, pam_service), "F_level"@, fallback.level as int), "F_categories"@, categories_text(fallback.categories))
}

/// Records `mac_fallback_used`: the certificate has no extension and the configured bound applies.
pub fn emit_fallback_used(log: &mut AuditLog, pam_user: &str, pam_service: &str, fallback: IntegrityLabel)
    ensures
        final(log)@ == old(log)@.push(fallback_used_event(pam_user@, pam_service@, fallback)),
{
    let e = AuditEvent::new("mac.audit", AuditLevel::Info, EVENT_MAC_FALLBACK_USED);
    let e = add_who(e, pam_user, pam_service);
    let e = e.number("F_level", fallback.level as i64);
    let e = e.text("F_categories", hex16(fallback.categories).as_str());
    log.record(e);
}

/// The event `mac_runtime_fallback`.
pub open spec fn runtime_fallback_event(reason: Seq<char>) -> EventModel {
    with_text(mac_event(AuditLevel::Warn, EVENT_MAC_RUNTIME_FALLBACK@), "F_reason"@, reason)
}

/// Records `mac_runtime_fallback`: the kernel lacks the subsystem and the stub backend is used.
pub fn emit_runtime_fallback(log: &mut AuditLog, reason: &str)
    ensures
        final(log)@ == old(log)@.push(runtime_fallback_event(reason@)),
{
    let e = AuditEvent::new("mac.audit", AuditLevel::Warn, EVENT_MAC_RUNTIME_FALLBACK);
    let e = e.text("F_reason", reason);
    log.record(e);
}

/// The event `mac_runtime_disabled`.
pub open spec fn runtime_disabled_event() -> EventModel {
    mac_event(AuditLevel::Info, EVENT_MAC_RUNTIME_DISABLED@)
}

/// Records `mac_runtime_disabled`: the operator selected the stub backend.
pub fn emit_runtime_disabled(log: &mut AuditLog)
    ensures
        final(log)@ == old(log)@.push(runtime_disabled_event()),
{
    let e = AuditEvent::new("mac.audit", AuditLevel::Info, EVENT_MAC_RUNTIME_DISABLED);
    log.record(e);
}

/// The event `mac_socket_label_set`.
pub open spec fn socket_label_event(path: Seq<char>) -> EventModel {
    with_text(mac_event(AuditLevel::Debug, EVENT_MAC_SOCKET_LABEL@), "F_path"@, path)
}

/// Records `mac_socket_label_set`: the IPC socket was labelled before its publication.
pub fn emit_socket_label(log: &mut AuditLog, path: &str)
    ensures
        final(log)@ == old(log)@.push(socket_label_event(path@)),
{
    let e = AuditEvent::new("mac.audit", AuditLevel::Debug, EVENT_MAC_SOCKET_LABEL);
    let e = e.text("F_path", path);
    log.record(e);
}

/// The event `mac_sessions_file_label_warning`.
pub open spec fn sessions_file_warn_event(path: Seq<char>, err: Seq<char>) -> EventModel {
    with_text(with_text(mac_event(AuditLevel::Warn, EVENT_MAC_SESSIONS_FILE_WARN@), "F_path"@, path), "F_error"@, err)
}

/// Records `mac_sessions_file_label_warning`: the session file could not be labelled; the write went on.
pub fn emit_sessions_file_warn(log: &mut AuditLog, path: &str, err: Option<&str>)
    ensures
        final(log)@ == old(log)@.push(sessions_file_warn_event(path@, match err { Some(s) => s@, None => "-"@ })),
{
    let e = AuditEvent::new("mac.audit", AuditLevel::Warn, EVENT_MAC_SESSIONS_FILE_WARN);
    let e = e.text("F_path", path);
    let text = match err {
        Some(s) => s,
        None => "-",
    };
    let e = e.text("F_error", text);
    log.record(e);
}

/// The event `cert_max_integrity_categories_above_32bit`.
pub open spec fn categories_above_32bit_event(categories: u64) -> EventModel {
    with_text(mac_event(AuditLevel::Info, EVENT_CERT_MAX_INT_CATS_ABOVE_32BIT@), "F_categories"@, categories_text(categories))
}

/// Records `cert_max_integrity_categories_above_32bit`: a label names categories beyond the 32nd.
pub fn emit_categories_above_32bit(log: &mut AuditLog, categories: u64)
    ensures
        final(log)@ == old(log)@.push(categories_above_32bit_event(categories)),
{
    let e = AuditEvent::new("mac.audit", AuditLevel::Info, EVENT_CERT_MAX_INT_CATS_ABOVE_32BIT);
    let e = e.text("F_categories", hex16(categories).as_str());
    log.record(e);
}

/// Sliding window of the deduplication, in nanoseconds: one minute.
pub const PARSE_FAIL_RATE_WINDOW_NANOS: u64 = 60_000_000_000;

/// Most fingerprints held at once.
pub const PARSE_FAIL_CACHE_CAP: usize = 256;

/// When each fingerprint was last reported, in nanoseconds of a monotonic clock.
#[derive(Debug)]
pub struct ParseFailCache {
    entries: Vec<(String, u64)>,
}

/// Whether a report at `at` still suppresses another at `now`.
pub open spec fn is_recent(at: u64, now: u64) -> bool {
    now - at < PARSE_FAIL_RATE_WINDOW_NANOS
}

/// The entries that are still recent, in order.
pub open spec fn recent(s: Seq<(Seq<char>, u64)>, now: u64) -> Seq<(Seq<char>, u64)>
    decreases s.len(),
{
    if s.len() == 0 {
        Seq::empty()
    } else {
        let rest = recent(s.drop_last(), now);
        if is_recent(s.last().1, now) {
            rest.push(s.last())
        } else {
            rest
        }
    }
}

/// Whether a fingerprint is among the entries.
pub open spec fn is_listed(s: Seq<(Seq<char>, u64)>, fingerprint: Seq<char>) -> bool {
    exists|i: int| 0 <= i < s.len() && (#[trigger] s[i]).0 == fingerprint
}

/// Whether `i` is the first of the oldest entries.
pub open spec fn is_oldest(s: Seq<(Seq<char>, u64)>, i: int) -> bool {
    &&& 0 <= i < s.len()
    &&& forall|j: int| 0 <= j < s.len() ==> s[i].1 <= (#[trigger] s[j]).1
    &&& forall|j: int| 0 <= j < i ==> s[i].1 < (#[trigger] s[j]).1
}

/// The entries after a report was let through: at the cap the oldest makes room.
pub open spec fn after_report(
    s: Seq<(Seq<char>, u64)>,
    fingerprint: Seq<char>,
    now: u64,
    t: Seq<(Seq<char>, u64)>,
) -> bool {
    if s.len() >= PARSE_FAIL_CACHE_CAP {
        exists|i: int| #[trigger] is_oldest(s, i) && t == s.remove(i).push((fingerprint, now))
    } else {
        t == s.push((fingerprint, now))
    }
}

/// Whether a report at `now` was answered so: it is let through where no recent entry is on the
/// same fingerprint, and only then it becomes an entry itself.
pub open spec fn reported(
    s: Seq<(Seq<char>, u64)>,
    fingerprint: Seq<char>,
    now: u64,
    permitted: bool,
    t: Seq<(Seq<char>, u64)>,
) -> bool {
    &&& permitted == !is_listed(recent(s, now), fingerprint)
    &&& !permitted ==> t == recent(s, now)
    &&& permitted ==> after_report(recent(s, now), fingerprint, now, t)
}

/// An entry with its fingerprint as a sequence.
pub open spec fn cache_entry(e: (String, u64)) -> (Seq<char>, u64) {
    (e.0@, e.1)
}

impl View for ParseFailCache {
    type V = Seq<(Seq<char>, u64)>;

    closed spec fn view(&self) -> Seq<(Seq<char>, u64)> {
        self.entries@.map_values(|e: (String, u64)| cache_entry(e))
    }
}

impl ParseFailCache {
    /// No more entries than the cap, and no fingerprint twice.
    pub open spec fn wf(&self) -> bool {
        &&& self@.len() <= PARSE_FAIL_CACHE_CAP
        &&& forall|i: int, j: int|
            0 <= i < j < self@.len() ==> (#[trigger] self@[i]).0 != (#[trigger] self@[j]).0
    }

    /// A cache that holds nothing.
    pub fn new() -> (r: ParseFailCache)
        ensures
            r.wf(),
            r@ == Seq::<(Seq<char>, u64)>::empty(),
    {
        let r = ParseFailCache { entries: Vec::new() };
        assert(r@ =~= Seq::<(Seq<char>, u64)>::empty());
        r
    }

    fn drop_expired(&mut self, now: u64)
        ensures
            final(self)@ == recent(old(self)@, now),
    {
        let mut kept: Vec<(String, u64)> = Vec::new();
        let ghost all = self@;
        let mut i: usize = 0;
        let ghost mut so_far = Seq::<(Seq<char>, u64)>::empty();
        proof {
            assert(all.take(0) =~= Seq::<(Seq<char>, u64)>::empty());
            assert(kept@.map_values(|e: (String, u64)| cache_entry(e)) =~= so_far);
        }
        while i < self.entries.len()
            invariant
                i <= self.entries@.len(),
                all == self.entries@.map_values(|e: (String, u64)| cache_entry(e)),
                so_far == recent(all.take(i as int), now),
                kept@.map_values(|e: (String, u64)| cache_entry(e)) == so_far,
            decreases self.entries@.len() - i,
        {
            let at: u64 = self.entries[i].1;
            let age: u64 = if now >= at {
                now - at
            } else {
                0
            };
            proof {
                assert(all.take(i + 1).drop_last() =~= all.take(i as int));
                assert(all[i as int] == cache_entry(self.entries@[i as int]));
            }
            if age < PARSE_FAIL_RATE_WINDOW_NANOS {
                kept.push((self.entries[i].0.clone(), at));
                proof {
                    so_far = so_far.push(all[i as int]);
                    assert(kept@.map_values(|e: (String, u64)| cache_entry(e)) =~= so_far);
                }
            }
            i = i + 1;
        }
        assert(all.take(all.len() as int) =~= all);
        self.entries = kept;
    }

    fn holds(&self, fingerprint: &str) -> (r: bool)
        ensures
            r == is_listed(self@, fingerprint@),
    {
        let mut i: usize = 0;
        while i < self.entries.len()
            invariant
                i <= self.entries@.len(),
                forall|j: int| 0 <= j < i ==> (#[trigger] self@[j]).0 != fingerprint@,
            decreases self.entries@.len() - i,
        {
            assert(self@[i as int] == cache_entry(self.entries@[i as int]));
            if str_eq(self.entries[i].0.as_str(), fingerprint) {
                return true;
            }
            i = i + 1;
        }
        false
    }

    fn oldest(&self) -> (r: usize)
        requires
            self@.len() > 0,
        ensures
            is_oldest(self@, r as int),
            r < self.entries@.len(),
    {
        let mut best: usize = 0;
        let mut i: usize = 1;
        assert(self@[0] == cache_entry(self.entries@[0]));
        while i < self.entries.len()
            invariant
                best < i <= self.entries@.len(),
                self@.len() == self.entries@.len(),
                self@[best as int].1 == self.entries@[best as int].1,
                forall|j: int| 0 <= j < i ==> self@[best as int].1 <= (#[trigger] self@[j]).1,
                forall|j: int| 0 <= j < best ==> self@[best as int].1 < (#[trigger] self@[j]).1,
            decreases self.entries@.len() - i,
        {
            assert(self@[i as int] == cache_entry(self.entries@[i as int]));
            if self.entries[i].1 < self.entries[best].1 {
                best = i;
            }
            i = i + 1;
        }
        best
    }
}

proof fn lemma_recent(s: Seq<(Seq<char>, u64)>, now: u64)
    ensures
        recent(s, now).len() <= s.len(),
        forall|i: int| 0 <= i < recent(s, now).len() ==> s.contains(#[trigger] recent(s, now)[i]),
        (forall|i: int, j: int|
            0 <= i < j < s.len() ==> (#[trigger] s[i]).0 != (#[trigger] s[j]).0) ==> forall|
            i: int,
            j: int,
        |
            0 <= i < j < recent(s, now).len() ==> (#[trigger] recent(s, now)[i]).0 != (
            #[trigger] recent(s, now)[j]).0,
    decreases s.len(),
{
    if s.len() > 0 {
        let p = s.drop_last();
        lemma_recent(p, now);
        let r = recent(s, now);
        let q = recent(p, now);
        assert forall|i: int| 0 <= i < r.len() implies s.contains(#[trigger] r[i]) by {
            if i < q.len() {
                assert(r[i] == q[i]);
                let k = choose|k: int| 0 <= k < p.len() && p[k] == q[i];
                assert(s[k] == q[i]);
            } else {
                assert(s[s.len() - 1] == r[i]);
            }
        }
        if forall|i: int, j: int| 0 <= i < j < s.len() ==> (#[trigger] s[i]).0 != (#[trigger] s[j]).0 {
            assert forall|i: int, j: int| 0 <= i < j < p.len() implies (#[trigger] p[i]).0 != (
            #[trigger] p[j]).0 by {
                assert(p[i] == s[i] && p[j] == s[j]);
            }
            assert forall|i: int, j: int| 0 <= i < j < r.len() implies (#[trigger] r[i]).0 != (
            #[trigger] r[j]).0 by {
                assert(r[i] == q[i]);
                if j < q.len() {
                    assert(r[j] == q[j]);
                } else {
                    let k = choose|k: int| 0 <= k < p.len() && p[k] == q[i];
                    assert(s[k] == q[i]);
                    assert(r[j] == s[s.len() - 1]);
                }
            }
        }
    }
}

/// Whether a report on `fingerprint` is let through at `now`; the cache takes note of it.
pub fn should_emit_parse_failed(cache: &mut ParseFailCache, fingerprint: &str, now: u64) -> (r: bool)
    requires
        old(cache).wf(),
    ensures
        final(cache).wf(),
        reported(old(cache)@, fingerprint@, now, r, final(cache)@),
{
    proof {
        lemma_recent(old(cache)@, now);
    }
    cache.drop_expired(now);
    if cache.holds(fingerprint) {
        return false;
    }
    let ghost live = cache@;
    let ghost before = cache.entries@;
    if cache.entries.len() >= PARSE_FAIL_CACHE_CAP {
        let at = cache.oldest();
        let _ = cache.entries.remove(at);
        cache.entries.push((fingerprint.to_owned(), now));
        assert(cache@ =~= live.remove(at as int).push((fingerprint@, now)));
        assert(is_oldest(live, at as int));
    } else {
        cache.entries.push((fingerprint.to_owned(), now));
        assert(cache@ =~= live.push((fingerprint@, now)));
    }
    proof {
        let t = cache@;
        assert forall|i: int, j: int| 0 <= i < j < t.len() implies (#[trigger] t[i]).0 != (
        #[trigger] t[j]).0 by {
            assert(forall|k: int| 0 <= k < t.len() - 1 ==> live.contains(#[trigger] t[k]));
            if j == t.len() - 1 {
                let k = choose|k: int| 0 <= k < live.len() && live[k] == t[i];
                assert(live[k].0 != fingerprint@);
            }
        }
    }
    true
}

/// Forgets every report.
pub fn reset_parse_failed_cache(cache: &mut ParseFailCache)
    ensures
        final(cache).wf(),
        final(cache)@ == Seq::<(Seq<char>, u64)>::empty(),
{
    cache.entries.clear();
    assert(cache@ =~= Seq::<(Seq<char>, u64)>::empty());
}

/// The event `cert_max_integrity_parse_failed`.
pub open spec fn cert_ext_parse_failed_event(
    pam_user: Seq<char>,
    ident: CertIdent,
    err: Seq<char>,
) -> EventModel {
    with_text(
        with_text(
            with_cert(
                with_text(
                    mac_event(AuditLevel::Warn, EVENT_CERT_EXT_PARSE_FAILED@),
                    "F_pam_user"@,
                    pam_user,
                ),
                ident,
            ),
            "F_error"@,
            err,
        ),
        "message"@,
        "MAX_INTEGRITY ext parse failed"@,
    )
}

/// Whether a report became an event: where it is let through, and only then.
pub open spec fn recorded(
    s: Seq<(Seq<char>, u64)>,
    events: Seq<EventModel>,
    now: u64,
    pam_user: Seq<char>,
    ident: CertIdent,
    err: Seq<char>,
    t: Seq<(Seq<char>, u64)>,
    events_after: Seq<EventModel>,
) -> bool {
    let permitted = !is_listed(recent(s, now), ident.fingerprint@);
    &&& reported(s, ident.fingerprint@, now, permitted, t)
    &&& events_after == if permitted {
        events.push(cert_ext_parse_failed_event(pam_user, ident, err))
    } else {
        events
    }
}

/// Records `cert_max_integrity_parse_failed`, unless the same certificate was reported less
/// than a minute ago.
pub fn emit_cert_ext_parse_failed(
    cache: &mut ParseFailCache,
    log: &mut AuditLog,
    now: u64,
    pam_user: &str,
    ident: &CertIdent,
    err: &str,
)
    requires
        old(cache).wf(),
    ensures
        final(cache).wf(),
        recorded(
            old(cache)@,
            old(log)@,
            now,
            pam_user@,
            *ident,
            err@,
            final(cache)@,
            final(log)@,
        ),
{
    if !should_emit_parse_failed(cache, ident.fingerprint.as_str(), now) {
        return ;
    }
    let e = AuditEvent::new("mac.audit", AuditLevel::Warn, EVENT_CERT_EXT_PARSE_FAILED);
    let e = e.text("F_pam_user", pam_user);
    let e = add_cert(e, ident);
    let e = e.text("F_error", err).text("message", "MAX_INTEGRITY ext parse failed");
    log.record(e);
}

/// One report, and whether it was let through.
pub ghost struct Report {
    /// Fingerprint of the certificate.
    pub fingerprint: Seq<char>,
    /// When it was made.
    pub at: u64,
    /// Whether it was let through.
    pub permitted: bool,
}

/// Whether these are the reports since the cache was last empty, in order of time, and `caches[i]`
/// the entries before the report `i`.
pub open spec fn is_history(caches: Seq<Seq<(Seq<char>, u64)>>, reports: Seq<Report>) -> bool {
    &&& caches.len() == reports.len() + 1
    &&& caches[0] == Seq::<(Seq<char>, u64)>::empty()
    &&& forall|i: int|
        0 <= i < reports.len() ==> reported(
            caches[i],
            (#[trigger] reports[i]).fingerprint,
            reports[i].at,
            reports[i].permitted,
            caches[i + 1],
        )
    &&& forall|i: int, j: int|
        0 <= i <= j < reports.len() ==> (#[trigger] reports[i]).at <= (#[trigger] reports[j]).at
}

/// The other fingerprints that were let through after the report `i` and before the report `k`.
pub open spec fn others_permitted(reports: Seq<Report>, i: int, k: int) -> Set<Seq<char>>
    decreases k - i,
{
    if k <= i + 1 {
        Set::empty()
    } else {
        let before = others_permitted(reports, i, k - 1);
        let last = reports[k - 1];
        if last.permitted && last.fingerprint != reports[i].fingerprint {
            before.insert(last.fingerprint)
        } else {
            before
        }
    }
}

proof fn lemma_others(reports: Seq<Report>, i: int, j: int, k: int)
    requires
        j <= k,
    ensures
        others_permitted(reports, i, k).finite(),
        others_permitted(reports, i, j).subset_of(others_permitted(reports, i, k)),
    decreases k - i,
{
    if k > i + 1 {
        lemma_others(reports, i, if j < k { j } else { k - 1 }, k - 1);
    }
}

proof fn lemma_recent_add(a: Seq<(Seq<char>, u64)>, b: Seq<(Seq<char>, u64)>, now: u64)
    ensures
        recent(a + b, now) == recent(a, now) + recent(b, now),
    decreases b.len(),
{
    if b.len() == 0 {
        assert(a + b =~= a);
        assert(recent(a, now) + recent(b, now) =~= recent(a, now));
    } else {
        assert((a + b).drop_last() =~= a + b.drop_last());
        lemma_recent_add(a, b.drop_last(), now);
        assert(recent(a + b, now) =~= recent(a, now) + recent(b, now));
    }
}

/// Whether the entries are distinct, no more than the cap, and none later than `now`.
spec fn settled(s: Seq<(Seq<char>, u64)>, now: u64) -> bool {
    &&& s.len() <= PARSE_FAIL_CACHE_CAP
    &&& forall|i: int, j: int|
        0 <= i < j < s.len() ==> (#[trigger] s[i]).0 != (#[trigger] s[j]).0
    &&& forall|i: int| 0 <= i < s.len() ==> (#[trigger] s[i]).1 <= now
}

proof fn lemma_recent_settled(s: Seq<(Seq<char>, u64)>, before: u64, now: u64)
    requires
        settled(s, before),
        before <= now,
    ensures
        settled(recent(s, now), now),
{
    lemma_recent(s, now);
    let r = recent(s, now);
    assert forall|i: int| 0 <= i < r.len() implies (#[trigger] r[i]).1 <= now by {
        let k = choose|k: int| 0 <= k < s.len() && s[k] == r[i];
        assert(s[k].1 <= before);
    }
}

proof fn lemma_reported_settled(
    s: Seq<(Seq<char>, u64)>,
    before: u64,
    fingerprint: Seq<char>,
    now: u64,
    permitted: bool,
    t: Seq<(Seq<char>, u64)>,
)
    requires
        settled(s, before),
        before <= now,
        reported(s, fingerprint, now, permitted, t),
    ensures
        settled(t, now),
{
    lemma_recent_settled(s, before, now);
    let live = recent(s, now);
    if permitted {
        assert forall|k: int| 0 <= k < live.len() implies (#[trigger] live[k]).0 != fingerprint by {
            if live[k].0 == fingerprint {
                assert(is_listed(live, fingerprint));
            }
        }
    }
}

proof fn lemma_history_settled(
    caches: Seq<Seq<(Seq<char>, u64)>>,
    reports: Seq<Report>,
    k: int,
)
    requires
        is_history(caches, reports),
        0 <= k < reports.len(),
    ensures
        settled(caches[k], reports[k].at),
    decreases k,
{
    if k > 0 {
        lemma_history_settled(caches, reports, k - 1);
        let r = reports[k - 1];
        assert(r.at <= reports[k].at);
        lemma_reported_settled(caches[k - 1], r.at, r.fingerprint, r.at, r.permitted, caches[k]);
    }
}

/// The entry of the report `i`, and what stands before and after it.
spec fn holds_entry(
    s: Seq<(Seq<char>, u64)>,
    pre: Seq<(Seq<char>, u64)>,
    post: Seq<(Seq<char>, u64)>,
    reports: Seq<Report>,
    i: int,
    k: int,
) -> bool {
    &&& s == pre + seq![(reports[i].fingerprint, reports[i].at)] + post
    &&& forall|j: int| 0 <= j < pre.len() ==> (#[trigger] pre[j]).1 <= reports[i].at
    &&& forall|j: int|
        0 <= j < post.len() ==> others_permitted(reports, i, k).contains((#[trigger] post[j]).0)
}

proof fn lemma_distinct_in_set(s: Seq<(Seq<char>, u64)>, set: Set<Seq<char>>)
    requires
        set.finite(),
        forall|i: int, j: int|
            0 <= i < j < s.len() ==> (#[trigger] s[i]).0 != (#[trigger] s[j]).0,
        forall|i: int| 0 <= i < s.len() ==> set.contains((#[trigger] s[i]).0),
    ensures
        s.len() <= set.len(),
    decreases s.len(),
{
    if s.len() > 0 {
        let p = s.drop_last();
        let rest = set.remove(s.last().0);
        assert forall|i: int| 0 <= i < p.len() implies rest.contains((#[trigger] p[i]).0) by {
            assert(p[i] == s[i]);
            assert(s[i].0 != s[s.len() - 1].0);
        }
        assert forall|i: int, j: int| 0 <= i < j < p.len() implies (#[trigger] p[i]).0 != (
        #[trigger] p[j]).0 by {
            assert(p[i] == s[i] && p[j] == s[j]);
        }
        assert(set.contains(s[s.len() - 1].0));
        lemma_distinct_in_set(p, rest);
    }
}

proof fn lemma_recent_from(s: Seq<(Seq<char>, u64)>, now: u64, i: int) -> (k: int)
    requires
        0 <= i < recent(s, now).len(),
    ensures
        0 <= k < s.len(),
        s[k] == recent(s, now)[i],
{
    lemma_recent(s, now);
    let r = recent(s, now);
    assert(s.contains(r[i]));
    choose|k: int| 0 <= k < s.len() && s[k] == r[i]
}

proof fn lemma_recent_around(
    pre: Seq<(Seq<char>, u64)>,
    e: (Seq<char>, u64),
    post: Seq<(Seq<char>, u64)>,
    now: u64,
)
    requires
        is_recent(e.1, now),
    ensures
        recent(pre + seq![e] + post, now) == recent(pre, now) + seq![e] + recent(post, now),
{
    assert(recent(seq![e], now) =~= seq![e]) by {
        assert(seq![e].drop_last() =~= Seq::<(Seq<char>, u64)>::empty());
        assert(recent(seq![e].drop_last(), now) =~= Seq::<(Seq<char>, u64)>::empty());
    }
    lemma_recent_add(pre + seq![e], post, now);
    lemma_recent_add(pre, seq![e], now);
}

proof fn lemma_entry_survives(
    caches: Seq<Seq<(Seq<char>, u64)>>,
    reports: Seq<Report>,
    i: int,
    k: int,
    pre: Seq<(Seq<char>, u64)>,
    post: Seq<(Seq<char>, u64)>,
) -> (around: (Seq<(Seq<char>, u64)>, Seq<(Seq<char>, u64)>))
    requires
        is_history(caches, reports),
        0 <= i < k - 1,
        k < reports.len(),
        reports[k].at - reports[i].at < PARSE_FAIL_RATE_WINDOW_NANOS,
        others_permitted(reports, i, k).len() < PARSE_FAIL_CACHE_CAP,
        holds_entry(caches[k - 1], pre, post, reports, i, k - 1),
    ensures
        holds_entry(caches[k], around.0, around.1, reports, i, k),
{
    let f = reports[i].fingerprint;
    let e = (f, reports[i].at);
    let r = reports[k - 1];
    let others = others_permitted(reports, i, k);
    assert(r.at <= reports[k].at);
    lemma_history_settled(caches, reports, k - 1);
    lemma_others(reports, i, k - 1, k);
    lemma_recent_around(pre, e, post, r.at);
    let live = recent(caches[k - 1], r.at);
    let pre2 = recent(pre, r.at);
    let post2 = recent(post, r.at);
    let at = pre2.len() as int;
    assert(live[at] == e);
    assert forall|j: int| 0 <= j < pre2.len() implies (#[trigger] pre2[j]).1 <= e.1 by {
        let _ = lemma_recent_from(pre, r.at, j);
    }
    assert forall|j: int| 0 <= j < post2.len() implies others.contains((#[trigger] post2[j]).0) by {
        let m = lemma_recent_from(post, r.at, j);
        assert(others_permitted(reports, i, k - 1).contains(post[m].0));
    }
    let new = (r.fingerprint, r.at);
    let post3 = post2.push(new);
    if !r.permitted {
        (pre2, post2)
    } else {
        assert(is_listed(live, f));
        assert(r.fingerprint != f);
        assert(others.contains(r.fingerprint));
        assert forall|j: int| 0 <= j < post3.len() implies others.contains((#[trigger] post3[j]).0) by {
            if j < post2.len() {
                assert(post3[j] == post2[j]);
            }
        }
        if live.len() < PARSE_FAIL_CACHE_CAP {
            assert(caches[k] =~= pre2 + seq![e] + post3);
            (pre2, post3)
        } else {
            let gone = choose|gone: int| #[trigger]
                is_oldest(live, gone) && caches[k] == live.remove(gone).push(new);
            if gone < at {
                assert(caches[k] =~= pre2.remove(gone) + seq![e] + post3);
                (pre2.remove(gone), post3)
            } else if gone > at {
                let cut = gone - at - 1;
                let post4 = post2.remove(cut).push(new);
                assert(caches[k] =~= pre2 + seq![e] + post4);
                assert forall|j: int| 0 <= j < post4.len() implies others.contains(
                    (#[trigger] post4[j]).0,
                ) by {
                    if j < cut {
                        assert(post4[j] == post2[j]);
                    } else if j < post2.len() - 1 {
                        assert(post4[j] == post2[j + 1]);
                    }
                }
                (pre2, post4)
            } else {
                // The entry is the first of the oldest only where it comes first: then all others
                // came after it, and with the new one they are too many.
                if at > 0 {
                    assert(live[0] == pre2[0]);
                }
                lemma_recent_settled(caches[k - 1], r.at, r.at);
                assert forall|x: int, y: int| 0 <= x < y < post3.len() implies (
                #[trigger] post3[x]).0 != (#[trigger] post3[y]).0 by {
                    assert(post3[x] == live[x + 1]);
                    if y < post2.len() {
                        assert(post3[y] == live[y + 1]);
                    } else {
                        assert(!is_listed(live, r.fingerprint));
                    }
                }
                lemma_distinct_in_set(post3, others);
                (pre2, post3)
            }
        }
    }
}

proof fn lemma_entry_stays(
    caches: Seq<Seq<(Seq<char>, u64)>>,
    reports: Seq<Report>,
    i: int,
    k: int,
) -> (around: (Seq<(Seq<char>, u64)>, Seq<(Seq<char>, u64)>))
    requires
        is_history(caches, reports),
        0 <= i < k < reports.len(),
        reports[i].permitted,
        reports[k].at - reports[i].at < PARSE_FAIL_RATE_WINDOW_NANOS,
        others_permitted(reports, i, k).len() < PARSE_FAIL_CACHE_CAP,
    ensures
        holds_entry(caches[k], around.0, around.1, reports, i, k),
    decreases k,
{
    let r = reports[k - 1];
    if k == i + 1 {
        lemma_history_settled(caches, reports, i);
        lemma_recent_settled(caches[i], r.at, r.at);
        let e = (r.fingerprint, r.at);
        let pre = caches[k].drop_last();
        let post = Seq::<(Seq<char>, u64)>::empty();
        assert(caches[k].last() == e);
        assert(caches[k] =~= pre + seq![e] + post);
        (pre, post)
    } else {
        assert(r.at <= reports[k].at);
        lemma_others(reports, i, k - 1, k);
        vstd::set_lib::lemma_len_subset(
            others_permitted(reports, i, k - 1),
            others_permitted(reports, i, k),
        );
        let (pre, post) = lemma_entry_stays(caches, reports, i, k - 1);
        lemma_entry_survives(caches, reports, i, k, pre, post)
    }
}

/// A report that was let through suppresses every further one on the same certificate for less
/// than a minute after it, as long as fewer other certificates than the cap were let through in
/// between.
pub proof fn repeated_report_is_suppressed(
    caches: Seq<Seq<(Seq<char>, u64)>>,
    reports: Seq<Report>,
    i: int,
    k: int,
)
    requires
        is_history(caches, reports),
        0 <= i < k < reports.len(),
        reports[i].permitted,
        reports[k].fingerprint == reports[i].fingerprint,
        reports[k].at - reports[i].at < PARSE_FAIL_RATE_WINDOW_NANOS,
        others_permitted(reports, i, k).len() < PARSE_FAIL_CACHE_CAP,
    ensures
        !reports[k].permitted,
{
    let now = reports[k].at;
    let e = (reports[i].fingerprint, reports[i].at);
    let (pre, post) = lemma_entry_stays(caches, reports, i, k);
    lemma_recent_around(pre, e, post, now);
    let live = recent(caches[k], now);
    assert(live[recent(pre, now).len() as int] == e);
    assert(is_listed(live, reports[k].fingerprint));
}

/// The same of the events: whatever the user, the error and the other fields of the certificate
/// are, no second event is recorded on a fingerprint within the minute.
pub proof fn repeated_report_is_not_recorded(
    caches: Seq<Seq<(Seq<char>, u64)>>,
    reports: Seq<Report>,
    i: int,
    k: int,
    events: Seq<EventModel>,
    pam_user: Seq<char>,
    ident: CertIdent,
    err: Seq<char>,
    events_after: Seq<EventModel>,
)
    requires
        is_history(caches, reports),
        0 <= i < k < reports.len(),
        reports[i].permitted,
        reports[k].fingerprint == reports[i].fingerprint,
        reports[k].at - reports[i].at < PARSE_FAIL_RATE_WINDOW_NANOS,
        others_permitted(reports, i, k).len() < PARSE_FAIL_CACHE_CAP,
        ident.fingerprint@ == reports[k].fingerprint,
        recorded(
            caches[k],
            events,
            reports[k].at,
            pam_user,
            ident,
            err,
            caches[k + 1],
            events_after,
        ),
    ensures
        events_after == events,
{
    repeated_report_is_suppressed(caches, reports, i, k);
}

proof fn lemma_entries_of(
    caches: Seq<Seq<(Seq<char>, u64)>>,
    reports: Seq<Report>,
    i: int,
    k: int,
    n: int,
)
    requires
        is_history(caches, reports),
        0 <= i < k < reports.len(),
        reports[i].permitted,
        forall|j: int|
            i < j < k && (#[trigger] reports[j]).fingerprint == reports[i].fingerprint
                ==> !reports[j].permitted,
        0 <= n < caches[k].len(),
        caches[k][n].0 == reports[i].fingerprint,
    ensures
        caches[k][n].1 == reports[i].at,
    decreases k,
{
    let r = reports[k - 1];
    let live = recent(caches[k - 1], r.at);
    if r.permitted && n == caches[k].len() - 1 {
        assert(caches[k][n] == (r.fingerprint, r.at));
    } else {
        assert(live.contains(caches[k][n])) by {
            if r.permitted && live.len() >= PARSE_FAIL_CACHE_CAP {
                let gone = choose|gone: int| #[trigger]
                    is_oldest(live, gone) && caches[k] == live.remove(gone).push(
                        (r.fingerprint, r.at),
                    );
                if n < gone {
                    assert(live[n] == caches[k][n]);
                } else {
                    assert(live[n + 1] == caches[k][n]);
                }
            } else {
                assert(live[n] == caches[k][n]);
            }
        }
        let m = choose|m: int| 0 <= m < live.len() && live[m] == caches[k][n];
        if k == i + 1 {
            assert(is_listed(live, reports[i].fingerprint));
        } else {
            let m2 = lemma_recent_from(caches[k - 1], r.at, m);
            lemma_entries_of(caches, reports, i, k - 1, m2);
        }
    }
}

/// The first report on a certificate a minute or more after the one that was let through is let
/// through again, however many were suppressed in between.
pub proof fn report_is_permitted_after_the_window(
    caches: Seq<Seq<(Seq<char>, u64)>>,
    reports: Seq<Report>,
    i: int,
    k: int,
)
    requires
        is_history(caches, reports),
        0 <= i < k < reports.len(),
        reports[i].permitted,
        reports[k].fingerprint == reports[i].fingerprint,
        forall|j: int|
            i < j < k && (#[trigger] reports[j]).fingerprint == reports[i].fingerprint
                ==> !reports[j].permitted,
        reports[k].at - reports[i].at >= PARSE_FAIL_RATE_WINDOW_NANOS,
    ensures
        reports[k].permitted,
{
    let s = caches[k];
    let f = reports[i].fingerprint;
    assert forall|n: int| 0 <= n < s.len() && (#[trigger] s[n]).0 == f implies reports[k].at
        - s[n].1 >= PARSE_FAIL_RATE_WINDOW_NANOS by {
        lemma_entries_of(caches, reports, i, k, n);
    }
    expired_report_is_forgotten(s, f, reports[k].at);
}

/// Once the window has passed, a report on the same certificate is let through again.
pub proof fn expired_report_is_forgotten(
    s: Seq<(Seq<char>, u64)>,
    fingerprint: Seq<char>,
    now: u64,
)
    requires
        forall|i: int|
            0 <= i < s.len() && (#[trigger] s[i]).0 == fingerprint ==> now - s[i].1
                >= PARSE_FAIL_RATE_WINDOW_NANOS,
    ensures
        !is_listed(recent(s, now), fingerprint),
    decreases s.len(),
{
    if s.len() > 0 {
        let p = s.drop_last();
        assert forall|i: int| 0 <= i < p.len() && (#[trigger] p[i]).0 == fingerprint implies now
            - p[i].1 >= PARSE_FAIL_RATE_WINDOW_NANOS by {
            assert(p[i] == s[i]);
        }
        expired_report_is_forgotten(p, fingerprint, now);
        let r = recent(s, now);
        let q = recent(p, now);
        if is_listed(r, fingerprint) {
            let i = choose|i: int| 0 <= i < r.len() && (#[trigger] r[i]).0 == fingerprint;
            if i < q.len() {
                assert(q[i] == r[i]);
            } else {
                assert(s[s.len() - 1] == r[i]);
            }
        }
    }
}

/// The window of the deduplication is a minute, and at most 256 fingerprints are held.
pub proof fn reports_are_limited_to_one_a_minute(at: u64, now: u64)
    ensures
        is_recent(at, now) <==> now < at + 60 * 1_000_000_000,
        PARSE_FAIL_CACHE_CAP == 256,
{
}

/// The entries that stay are those of less than a minute ago, in their order.
pub proof fn recent_entries_stay(s: Seq<(Seq<char>, u64)>, now: u64)
    ensures
        recent(s, now) == s.filter(|e: (Seq<char>, u64)| now < e.1 + 60_000_000_000),
    decreases s.len(),
{
    reveal(Seq::filter);
    if s.len() > 0 {
        recent_entries_stay(s.drop_last(), now);
    }
}

/// Whether an event carries a text under a name.
pub open spec fn says(e: EventModel, name: Seq<char>, value: Seq<char>) -> bool {
    exists|i: int| 0 <= i < e.fields.len() && #[trigger] e.fields[i] == (name, ValueModel::Text(value))
}

proof fn lemma_says(e: EventModel, name: Seq<char>, value: Seq<char>, i: int)
    requires
        0 <= i < e.fields.len(),
        e.fields[i] == (name, ValueModel::Text(value)),
    ensures
        says(e, name, value),
{
}

/// An event about a session and its certificate carries the user, the service, and of the
/// certificate the serial, the issuer, the name and the fingerprint, each under its own name.
pub proof fn session_events_say_who(
    level: AuditLevel,
    name: Seq<char>,
    user: Seq<char>,
    service: Seq<char>,
    c: CertIdent,
)
    ensures
        ({
            let e = with_cert(with_who(mac_event(level, name), user, service), c);
            &&& e.target == "mac.audit"@ && e.level == level && e.name == name
            &&& e.fields == seq![
                ("F_pam_user"@, ValueModel::Text(user)),
                ("F_pam_service"@, ValueModel::Text(service)),
                ("F_cert_serial"@, ValueModel::Text(c.serial@)),
                ("F_cert_issuer"@, ValueModel::Text(c.issuer@)),
                ("F_cert_cn"@, ValueModel::Text(c.cn@)),
                ("F_cert_fingerprint"@, ValueModel::Text(c.fingerprint@)),
            ]
        }),
{
    let e = with_cert(with_who(mac_event(level, name), user, service), c);
    assert(e.fields =~= seq![
        ("F_pam_user"@, ValueModel::Text(user)),
        ("F_pam_service"@, ValueModel::Text(service)),
        ("F_cert_serial"@, ValueModel::Text(c.serial@)),
        ("F_cert_issuer"@, ValueModel::Text(c.issuer@)),
        ("F_cert_cn"@, ValueModel::Text(c.cn@)),
        ("F_cert_fingerprint"@, ValueModel::Text(c.fingerprint@)),
    ]);
}

/// The event of an applied label carries the label, that of a capped one both labels, and that of
/// the home directory its path and both labels: the level as a number, the categories in sixteen
/// hexadecimal digits.
pub proof fn label_events_say_the_labels(
    c: CertIdent,
    user: Seq<char>,
    service: Seq<char>,
    home: Seq<char>,
    a: IntegrityLabel,
    b: IntegrityLabel,
)
    ensures
        ({
            let e = integrity_applied_event(c, user, service, a);
            &&& e.level == AuditLevel::Info && e.name == "integrity_applied"@
            &&& e.fields.len() == 8
            &&& e.fields[6] == ("F_level"@, ValueModel::Int(a.level as int))
            &&& e.fields[7] == ("F_categories"@, ValueModel::Text(
                fixed_hex(a.categories as nat, 16),
            ))
        }),
        ({
            let e = integrity_capped_event(c, user, service, a, b);
            &&& e.level == AuditLevel::Warn && e.name == "integrity_capped_below_user_mnkc"@
            &&& e.fields.len() == 10
            &&& e.fields[6] == ("F_effective_level"@, ValueModel::Int(a.level as int))
            &&& e.fields[7] == ("F_effective_categories"@, ValueModel::Text(
                fixed_hex(a.categories as nat, 16),
            ))
            &&& e.fields[8] == ("F_user_level"@, ValueModel::Int(b.level as int))
            &&& e.fields[9] == ("F_user_categories"@, ValueModel::Text(
                fixed_hex(b.categories as nat, 16),
            ))
        }),
        ({
            let e = mask_exceeds_ceiling_event(c, user, service, a, b);
            &&& e.level == AuditLevel::Warn && e.name == "role_mask_exceeds_ceiling"@
            &&& e.fields.len() == 10
            &&& e.fields[6] == ("F_requested_level"@, ValueModel::Int(a.level as int))
            &&& e.fields[7] == ("F_requested_categories"@, ValueModel::Text(
                fixed_hex(a.categories as nat, 16),
            ))
            &&& e.fields[8] == ("F_ceiling_level"@, ValueModel::Int(b.level as int))
            &&& e.fields[9] == ("F_ceiling_categories"@, ValueModel::Text(
                fixed_hex(b.categories as nat, 16),
            ))
        }),
        ({
            let e = homedir_label_above_event(user, service, home, a, b);
            &&& e.level == AuditLevel::Warn && e.name == "homedir_label_above_session_cap"@
            &&& e.fields.len() == 7
            &&& e.fields[0] == ("F_pam_user"@, ValueModel::Text(user))
            &&& e.fields[1] == ("F_pam_service"@, ValueModel::Text(service))
            &&& e.fields[2] == ("F_home_dir"@, ValueModel::Text(home))
            &&& e.fields[3] == ("F_home_level"@, ValueModel::Int(a.level as int))
            &&& e.fields[4] == ("F_home_categories"@, ValueModel::Text(
                fixed_hex(a.categories as nat, 16),
            ))
            &&& e.fields[5] == ("F_effective_level"@, ValueModel::Int(b.level as int))
            &&& e.fields[6] == ("F_effective_categories"@, ValueModel::Text(
                fixed_hex(b.categories as nat, 16),
            ))
        }),
        ({
            let e = fallback_used_event(user, service, a);
            &&& e.level == AuditLevel::Info && e.name == "mac_fallback_used"@
            &&& e.fields[2] == ("F_level"@, ValueModel::Int(a.level as int))
            &&& e.fields[3] == ("F_categories"@, ValueModel::Text(
                fixed_hex(a.categories as nat, 16),
            ))
        }),
{
}

/// The other events of the session policy carry why and of whom.
pub proof fn refusal_events_say_why(
    c: CertIdent,
    user: Seq<char>,
    service: Seq<char>,
    why: Seq<char>,
)
    ensures
        mac_skipped_event(why).name == "mac_skipped"@ && mac_skipped_event(why).level
            == AuditLevel::Info && says(mac_skipped_event(why), "F_reason"@, why),
        mac_runtime_required_event(why).name == "mac_runtime_required"@
            && mac_runtime_required_event(why).level == AuditLevel::Error && says(
            mac_runtime_required_event(why),
            "F_runtime"@,
            why,
        ),
        cert_lacks_ext_event(c, user, service).name == "cert_lacks_max_integrity_ext"@
            && cert_lacks_ext_event(c, user, service).level == AuditLevel::Error,
        apply_failed_event(c, user, service, why).name == "mac_apply_failed"@
            && apply_failed_event(c, user, service, why).level == AuditLevel::Error && says(
            apply_failed_event(c, user, service, why),
            "F_detail"@,
            why,
        ),
        user_unknown_event(user, service).name == "mac_user_unknown"@ && user_unknown_event(
            user,
            service,
        ).level == AuditLevel::Error && says(user_unknown_event(user, service), "F_pam_user"@, user)
            && says(user_unknown_event(user, service), "F_pam_service"@, service),
        cert_ext_parse_failed_event(user, c, why).name == "cert_max_integrity_parse_failed"@
            && cert_ext_parse_failed_event(user, c, why).level == AuditLevel::Warn && says(
            cert_ext_parse_failed_event(user, c, why),
            "F_error"@,
            why,
        ) && says(cert_ext_parse_failed_event(user, c, why), "F_pam_user"@, user) && says(
            cert_ext_parse_failed_event(user, c, why),
            "F_cert_fingerprint"@,
            c.fingerprint@,
        ),
{
    lemma_says(mac_skipped_event(why), "F_reason"@, why, 0);
    lemma_says(mac_runtime_required_event(why), "F_runtime"@, why, 0);
    lemma_says(apply_failed_event(c, user, service, why), "F_detail"@, why, 6);
    lemma_says(user_unknown_event(user, service), "F_pam_user"@, user, 0);
    lemma_says(user_unknown_event(user, service), "F_pam_service"@, service, 1);
    let e = cert_ext_parse_failed_event(user, c, why);
    lemma_says(e, "F_pam_user"@, user, 0);
    lemma_says(e, "F_cert_fingerprint"@, c.fingerprint@, 4);
    lemma_says(e, "F_error"@, why, 5);
}

/// A report that is held back changes nothing but that old entries are forgotten; one that is let
/// through becomes the last entry, and where there are 256 already the oldest makes room.
pub proof fn reports_make_room_for_themselves(
    s: Seq<(Seq<char>, u64)>,
    fingerprint: Seq<char>,
    now: u64,
    permitted: bool,
    t: Seq<(Seq<char>, u64)>,
) -> (i: int)
    requires
        reported(s, fingerprint, now, permitted, t),
    ensures
        !permitted <==> exists|k: int|
            0 <= k < recent(s, now).len() && (#[trigger] recent(s, now)[k]).0 == fingerprint,
        !permitted ==> t == recent(s, now),
        permitted ==> t.len() > 0 && t.last() == (fingerprint, now),
        permitted && recent(s, now).len() < 256 ==> t.drop_last() == recent(s, now),
        permitted && recent(s, now).len() >= 256 ==> 0 <= i < recent(s, now).len() && t.drop_last()
            == recent(s, now).remove(i) && forall|j: int|
            0 <= j < recent(s, now).len() ==> recent(s, now)[i].1 <= (#[trigger] recent(
                s,
                now,
            )[j]).1,
{
    let r = recent(s, now);
    if permitted && r.len() >= 256 {
        let i = choose|i: int| #[trigger]
            is_oldest(r, i) && t == r.remove(i).push((fingerprint, now));
        assert(t.drop_last() =~= r.remove(i));
        i
    } else {
        if permitted {
            assert(t.drop_last() =~= r);
        }
        0
    }
}

} // verus!
