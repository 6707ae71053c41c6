//! The events of an enrollment.
//!
//! Every outcome goes to two places: the audit log, and the device's own journal. It is recorded
//! after the fact: by the time there is something to record the import has been applied or undone.
//!
//! The serial of the certificate is empty: it cannot be read out of the container without its
//! PIN, and nothing under a signature carries it.

use crate::audit::{
    bare_event, with_number, with_text, AuditEvent, AuditLevel, AuditLog, EventModel, ValueModel,
};
use crate::collections::opt_text;
use vstd::prelude::*;
use vstd::string::*;

verus! {

/// A package was imported.
pub const EVENT_DEVICE_ENROLLED: &'static str = "device_enrolled";

/// An import was refused, and the device is as it was.
pub const EVENT_ENROLLMENT_REJECTED: &'static str = "enrollment_rejected";

/// Refused because the manifest did not hold: its signature, its version or a hash it pins.
pub const REASON_MANIFEST: &'static str = "manifest";

/// Refused because the revocation list did not match its pin, or was not there.
pub const REASON_CRL: &'static str = "crl";

/// Refused because the install itself failed.
pub const REASON_INSTALL: &'static str = "install";

/// The name of the mode that trusts permissions.
pub const MODE_STANDALONE: &'static str = "standalone";

/// The name of the mode that trusts a signature.
pub const MODE_MANAGED: &'static str = "managed";

/// Where enrollment events go.
pub const ENROLLMENT_TARGET: &'static str = "enrollment.audit";

/// What the caller knows of the device and its certificate.
#[derive(Debug)]
pub struct EnrollAuditIds {
    /// The first eight digits of the hash of the host identity, or nothing.
    pub host_id_prefix8: String,
    /// The serial of the per-host certificate, or nothing.
    pub serial: String,
}

impl Default for EnrollAuditIds {
    /// Nothing known.
    fn default() -> (r: EnrollAuditIds)
        ensures
            r.host_id_prefix8@ == ""@,
            r.serial@ == ""@,
    {
        EnrollAuditIds { host_id_prefix8: "".to_owned(), serial: "".to_owned() }
    }
}

/// An entry of the device's journal.
#[derive(Debug)]
pub struct EnrollmentRecord {
    /// The first eight digits of the hash of the host identity, or nothing.
    pub host_id_prefix8: String,
    /// The serial of the per-host certificate, or nothing.
    pub serial: String,
    /// The version that was applied; 0 where there is none.
    pub bundle_version: u64,
    /// How the package was trusted; nothing for a refusal.
    pub mode: String,
    /// Why the import was refused, if it was.
    pub reason: Option<String>,
}

/// An entry of the device's journal, as sequences.
pub struct RecordModel {
    /// The first eight digits of the hash of the host identity, or nothing.
    pub host_id_prefix8: Seq<char>,
    /// The serial of the per-host certificate, or nothing.
    pub serial: Seq<char>,
    /// The version that was applied.
    pub bundle_version: u64,
    /// How the package was trusted.
    pub mode: Seq<char>,
    /// Why the import was refused, if it was.
    pub reason: Option<Seq<char>>,
}

impl View for EnrollmentRecord {
    type V = RecordModel;

    open spec fn view(&self) -> RecordModel {
        RecordModel {
            host_id_prefix8: self.host_id_prefix8@,
            serial: self.serial@,
            bundle_version: self.bundle_version,
            mode: self.mode@,
            reason: opt_text(self.reason),
        }
    }
}

/// The device's journal, oldest entry first.
#[derive(Debug)]
pub struct EnrollmentJournal {
    /// Entries, oldest first.
    pub records: Vec<EnrollmentRecord>,
}

impl View for EnrollmentJournal {
    type V = Seq<RecordModel>;

    open spec fn view(&self) -> Seq<RecordModel> {
        self.records@.map_values(|e: EnrollmentRecord| e@)
    }
}

impl EnrollmentJournal {
    /// An empty journal.
    pub fn new() -> (r: EnrollmentJournal)
        ensures
            r@ == Seq::<RecordModel>::empty(),
    {
        let r = EnrollmentJournal { records: Vec::new() };
        assert(r@ =~= Seq::<RecordModel>::empty());
        r
    }

    fn record(&mut self, e: EnrollmentRecord)
        ensures
            final(self)@ == old(self)@.push(e@),
    {
        self.records.push(e);
        assert(self@ =~= old(self)@.push(e@));
    }
}

/// The event of an import that was applied.
pub open spec fn enrolled_event(
    mode: Seq<char>,
    bundle_version: u64,
    host_id_prefix8: Seq<char>,
    serial: Seq<char>,
) -> EventModel {
    with_number(
        with_text(
            with_text(
                with_text(
                    bare_event(ENROLLMENT_TARGET@, AuditLevel::Info, EVENT_DEVICE_ENROLLED@),
                    "host_id"@,
                    host_id_prefix8,
                ),
                "serial"@,
                serial,
            ),
            "mode"@,
            mode,
        ),
        "bundle_version"@,
        bundle_version as int,
    )
}

/// The event of an import that was refused.
pub open spec fn rejected_event(
    reason: Seq<char>,
    host_id_prefix8: Seq<char>,
    serial: Seq<char>,
) -> EventModel {
    with_text(
        with_text(
            with_text(
                bare_event(ENROLLMENT_TARGET@, AuditLevel::Error, EVENT_ENROLLMENT_REJECTED@),
                "host_id"@,
                host_id_prefix8,
            ),
            "serial"@,
            serial,
        ),
        "reason"@,
        reason,
    )
}

/// Records an import that was applied, with nothing known of the device.
pub fn emit_device_enrolled(
    log: &mut AuditLog,
    journal: &mut EnrollmentJournal,
    mode: &str,
    bundle_version: u64,
)
    ensures
        final(log)@ == old(log)@.push(enrolled_event(mode@, bundle_version, ""@, ""@)),
        final(journal)@ == old(journal)@.push(
            (RecordModel {
                host_id_prefix8: ""@,
                serial: ""@,
                bundle_version,
                mode: mode@,
                reason: None,
            }),
        ),
{
    let ids = EnrollAuditIds::default();
    emit_device_enrolled_full(log, journal, mode, bundle_version, &ids);
}

/// Records an import that was applied.
pub fn emit_device_enrolled_full(
    log: &mut AuditLog,
    journal: &mut EnrollmentJournal,
    mode: &str,
    bundle_version: u64,
    ids: &EnrollAuditIds,
)
    ensures
        final(log)@ == old(log)@.push(
            enrolled_event(mode@, bundle_version, ids.host_id_prefix8@, ids.serial@),
        ),
        final(journal)@ == old(journal)@.push(
            (RecordModel {
                host_id_prefix8: ids.host_id_prefix8@,
                serial: ids.serial@,
                bundle_version,
                mode: mode@,
                reason: None,
            }),
        ),
{
    let e = AuditEvent::new(ENROLLMENT_TARGET, AuditLevel::Info, EVENT_DEVICE_ENROLLED)
        .text("host_id", ids.host_id_prefix8.as_str())
        .text("serial", ids.serial.as_str())
        .text("mode", mode)
        .count("bundle_version", bundle_version);
    log.record(e);
    mirror(journal, ids, mode, bundle_version, None);
}

/// Records an import that was refused, with nothing known of the device.
pub fn emit_enrollment_rejected(
    log: &mut AuditLog,
    journal: &mut EnrollmentJournal,
    reason: &str,
)
    ensures
        final(log)@ == old(log)@.push(rejected_event(reason@, ""@, ""@)),
        final(journal)@ == old(journal)@.push(
            (RecordModel {
                host_id_prefix8: ""@,
                serial: ""@,
                bundle_version: 0,
                mode: ""@,
                reason: Some(reason@),
            }),
        ),
{
    let ids = EnrollAuditIds::default();
    emit_enrollment_rejected_full(log, journal, reason, &ids);
}

/// Records an import that was refused.
pub fn emit_enrollment_rejected_full(
    log: &mut AuditLog,
    journal: &mut EnrollmentJournal,
    reason: &str,
    ids: &EnrollAuditIds,
)
    ensures
        final(log)@ == old(log)@.push(
            rejected_event(reason@, ids.host_id_prefix8@, ids.serial@),
        ),
        final(journal)@ == old(journal)@.push(
            (RecordModel {
                host_id_prefix8: ids.host_id_prefix8@,
                serial: ids.serial@,
                bundle_version: 0,
                mode: ""@,
                reason: Some(reason@),
            }),
        ),
{
    let e = AuditEvent::new(ENROLLMENT_TARGET, AuditLevel::Error, EVENT_ENROLLMENT_REJECTED)
        .text("host_id", ids.host_id_prefix8.as_str())
        .text("serial", ids.serial.as_str())
        .text("reason", reason);
    log.record(e);
    mirror(journal, ids, "", 0, Some(reason));
}

/// Puts an outcome on the journal.
fn mirror(
    journal: &mut EnrollmentJournal,
    ids: &EnrollAuditIds,
    mode: &str,
    bundle_version: u64,
    reason: Option<&str>,
)
    ensures
        final(journal)@ == old(journal)@.push(
            (RecordModel {
                host_id_prefix8: ids.host_id_prefix8@,
                serial: ids.serial@,
                bundle_version,
                mode: mode@,
                reason: match reason {
                    Some(s) => Some(s@),
                    None => None,
                },
            }),
        ),
{
    let reason = match reason {
        Some(s) => Some(s.to_owned()),
        None => None,
    };
    journal.record(
        EnrollmentRecord {
            host_id_prefix8: ids.host_id_prefix8.clone(),
            serial: ids.serial.clone(),
            bundle_version,
            mode: mode.to_owned(),
            reason,
        },
    );
}

/// The event of an import holds the device's marks, the mode and the version, in that order.
pub proof fn enrolled_event_holds_its_fields(
    mode: Seq<char>,
    version: u64,
    host: Seq<char>,
    serial: Seq<char>,
)
    ensures
        ({
            let e = enrolled_event(mode, version, host, serial);
            &&& e.target == "enrollment.audit"@ && e.level == AuditLevel::Info
            &&& e.name == "device_enrolled"@
            &&& e.fields == seq![
                ("host_id"@, ValueModel::Text(host)),
                ("serial"@, ValueModel::Text(serial)),
                ("mode"@, ValueModel::Text(mode)),
                ("bundle_version"@, ValueModel::Int(version as int)),
            ]
        }),
{
}

/// The event of a refusal holds the device's marks and the reason, and is an error.
pub proof fn rejected_event_holds_its_fields(
    reason: Seq<char>,
    host: Seq<char>,
    serial: Seq<char>,
)
    ensures
        ({
            let e = rejected_event(reason, host, serial);
            &&& e.target == "enrollment.audit"@ && e.level == AuditLevel::Error
            &&& e.name == "enrollment_rejected"@
            &&& e.fields == seq![
                ("host_id"@, ValueModel::Text(host)),
                ("serial"@, ValueModel::Text(serial)),
                ("reason"@, ValueModel::Text(reason)),
            ]
        }),
{
}

} // verus!
