//! The order in which a package is installed, and in which a failed install is undone.
//!
//! The signature of a manifest is checked before anything is decided from what the manifest says.
//! Every file that can fail to be written is written under a temporary name first; then the files
//! are moved into place, with what was there kept; and only then is the role base swapped, which
//! also advances the accepted version. A failure at any point puts back what was there.
//!
//! [`ImportRun`] says what is to be done next and what its outcome means. Its caller does it.

use crate::audit::{AuditLog, EventModel};
use crate::enrollment::audit::{
    emit_device_enrolled_full, emit_enrollment_rejected_full, enrolled_event, rejected_event,
    EnrollAuditIds, EnrollmentJournal, RecordModel,
};
use crate::enrollment::codes::MAX_SECTION_BYTES;
use crate::enrollment::import::{
    bare_name, bytes_of, copy_role_slices, io_error, is_bare_name, is_slice_plan, matches_pin,
    oversize, pin_holds, read_capped, reason_for, reason_text, slice_cap, slice_word, to_io_error,
    to_oversize, EnrollmentPackage, FileRead, ImportError, ImportMode, ImportOutcome, IoFailure,
    Manifest, ManifestCodes, ManifestCrl, ManifestError, PackageEntry, RoleStoreError, SliceCopy,
    FILE_MODE, MANIFEST_FILENAME, MAX_CRL_BYTES, MAX_MANIFEST_BYTES, MAX_P12_BYTES,
    MAX_SLICE_BYTES, P12_MODE, STANDALONE_CODES_FILENAME, TAGS_FILENAME,
};
use crate::enrollment::transaction::{Artefact, FileTx, PublishStep, Slot, SlotKind, UndoStep};
use vstd::pervasive::unreached;
use vstd::prelude::*;
use vstd::string::*;

verus! {

/// What an import is waiting for while nothing has failed.
#[derive(Debug, Clone, Copy, PartialEq, Eq, Structural)]
pub enum Phase {
    /// The directory of the accepted version.
    MakeFloorDir,
    /// The bytes of the manifest.
    ReadManifest,
    /// What the manifest says, and whether its signature holds.
    OpenManifest,
    /// The accepted version.
    ReadFloor,
    /// The Codes section of a package without a manifest.
    ReadCodes,
    /// The directory in which the role base is put together.
    MakeStage,
    /// The entries of the package.
    ListPackage,
    /// The role base, put together.
    CopySlices,
    /// The bytes of a file.
    Read(Artefact),
    /// The file under its temporary name.
    Stage(Artefact),
    /// A file on its way into place.
    Publish(PublishStep),
    /// The role base, swapped.
    SwapRoles,
    /// A backup, dropped.
    DropBackup(Artefact),
}

/// An import in which nothing has failed.
#[derive(Debug)]
pub struct Forward {
    /// What it waits for.
    pub phase: Phase,
    /// The name of the per-host container.
    pub p12_file: String,
    /// The name of the revocation list in a package without a manifest.
    pub crl_file: Option<String>,
    /// The cap of the file of tags.
    pub tags_cap: usize,
    /// The files that are put in place.
    pub tx: FileTx,
    /// Whether the directory of the new role base is there.
    pub stage_made: bool,
    /// The version that was accepted before.
    pub floor: Option<u64>,
    /// The version of the package.
    pub version: u64,
    /// The revocation list that the manifest pins.
    pub crl_pin: Option<ManifestCrl>,
    /// The hash of the per-host container that the manifest pins.
    pub p12_pin: Option<String>,
    /// The Codes section of the package.
    pub codes: Option<ManifestCodes>,
    /// What stopped the listing of the package.
    pub stopped: Option<IoFailure>,
}

/// What an import that failed is undoing.
#[derive(Debug, Clone, Copy, PartialEq, Eq, Structural)]
pub enum UndoPhase {
    /// A file.
    File(UndoStep),
    /// The accepted version.
    Floor,
    /// The directory of the new role base.
    Stage,
}

/// An import that failed.
#[derive(Debug)]
pub struct Undo {
    /// What is being undone.
    pub phase: UndoPhase,
    /// The files that were put in place.
    pub tx: FileTx,
    /// Whether the directory of the new role base is there.
    pub stage_made: bool,
    /// Whether the accepted version may have changed.
    pub floor_due: bool,
    /// The version that was accepted before.
    pub floor: Option<u64>,
    /// What failed.
    pub fault: ImportError,
}

/// Where an import stands.
#[derive(Debug)]
pub enum RunState {
    /// Nothing has failed.
    Forward(Forward),
    /// Something failed.
    Undo(Undo),
    /// There is nothing left to do.
    Finished,
}

/// An import.
#[derive(Debug)]
pub struct ImportRun {
    /// How the package is trusted.
    pub mode: ImportMode,
    /// What the caller knows of the device.
    pub ids: EnrollAuditIds,
    /// Where it stands.
    pub state: RunState,
}

/// What an import came to: the outcome and the Codes section, as the one trusted read of the
/// package saw it.
pub type ImportResult = Result<(ImportOutcome, Option<ManifestCodes>), ImportError>;

/// What is to be done next.
#[derive(Debug)]
pub enum ImportAction {
    /// Make the directory of the accepted version, where it is not there.
    MakeFloorDir,
    /// Read the file of the package that the run names, under its cap.
    ReadPackageFile,
    /// Read these bytes as a manifest, and check its signature over them.
    OpenManifest(Vec<u8>),
    /// Read the accepted version.
    ReadFloor,
    /// Read the Codes section of a package without a manifest.
    ReadCodesSection,
    /// Make an empty directory beside the role base, in place of any that is left over.
    MakeStage,
    /// List the package.
    ListPackage,
    /// Copy these files of the package into that directory, each under its cap, in order, up to
    /// the first that fails.
    CopySlices(Vec<SliceCopy>),
    /// Write a file under its temporary name, and look whether its place is taken.
    StageFile {
        /// Which.
        artefact: Artefact,
        /// What it holds.
        bytes: Vec<u8>,
        /// Its permissions.
        mode: u32,
    },
    /// Move a file.
    Publish(PublishStep),
    /// Verify the new role base and put it in place; with a manifest, advance the accepted
    /// version.
    SwapRoles {
        /// Whether there is a manifest.
        managed: bool,
    },
    /// Remove a backup.
    DropBackup(Artefact),
    /// Put a file back.
    Undo(UndoStep),
    /// Put the accepted version back, or remove it where there was none.
    RestoreFloor(Option<u64>),
    /// Remove the directory of the new role base.
    RemoveStage,
    /// Nothing: this is what the import came to.
    Finish(ImportResult),
}

/// A file that was not copied into the new role base.
#[derive(Debug)]
pub enum CopyFault {
    /// It is larger than its cap.
    TooLarge {
        /// Whether it is the manifest.
        manifest: bool,
    },
    /// It was not read or not written.
    Failed(IoFailure),
}

/// What came of an action.
#[derive(Debug)]
pub enum ImportReply {
    /// A directory was made, or not.
    Made(Result<(), IoFailure>),
    /// What a read found.
    Read(FileRead),
    /// What the manifest says, and whether its signature holds.
    Opened {
        /// What it says.
        parsed: Result<Manifest, ManifestError>,
        /// Whether its signature over the bytes that were read holds.
        signed: Result<(), ManifestError>,
    },
    /// The accepted version.
    Floor(Result<Option<u64>, ManifestError>),
    /// The Codes section of a package without a manifest.
    Codes(Result<Option<ManifestCodes>, ImportError>),
    /// The entries of the package.
    Listed(Result<Vec<PackageEntry>, IoFailure>),
    /// The files were copied, or one was not.
    Copied(Result<(), CopyFault>),
    /// The file was written, and whether its place is taken.
    Staged(Result<bool, IoFailure>),
    /// The file was moved, or not.
    Moved(Result<(), IoFailure>),
    /// The role base was swapped, or not.
    Swapped(Result<(), RoleStoreError>),
    /// Done as far as it could be.
    Done,
}

/// The permissions of a file.
pub open spec fn permissions(a: Artefact) -> u32 {
    match a {
        Artefact::P12 => P12_MODE,
        _ => FILE_MODE,
    }
}

/// What a file that does not fit its cap, or is not read, comes to in the role base.
pub open spec fn copy_error(f: CopyFault) -> ImportError {
    match f {
        CopyFault::TooLarge { manifest } => oversize(slice_word(manifest), slice_cap(manifest)),
        CopyFault::Failed(io) => io_error(io),
    }
}

/// What a read of the revocation list that a manifest pins comes to.
pub open spec fn pinned_crl(pin: ManifestCrl, read: FileRead) -> Result<Vec<u8>, ImportError> {
    match read {
        FileRead::Whole(bytes) => if pin_holds(bytes@, pin.sha256@) {
            Ok(bytes)
        } else {
            Err(ImportError::CrlHashMismatch)
        },
        FileRead::TooLarge => Err(oversize("crl", MAX_CRL_BYTES)),
        FileRead::Missing(_) => Err(ImportError::CrlMissing { file: pin.file }),
        FileRead::Failed(f) => Err(io_error(f)),
    }
}

/// What a read of the revocation list that a manifest pins comes to; the pin comes back with the
/// bytes.
pub fn read_pinned_crl(pin: ManifestCrl, read: FileRead) -> (r: Result<
    (ManifestCrl, Vec<u8>),
    ImportError,
>)
    ensures
        match pinned_crl(pin, read) {
            Ok(bytes) => r == Ok::<(ManifestCrl, Vec<u8>), ImportError>((pin, bytes)),
            Err(e) => r == Err::<(ManifestCrl, Vec<u8>), ImportError>(e),
        },
{
    match read {
        FileRead::Whole(bytes) => if matches_pin(&bytes, pin.sha256.as_str()) {
            Ok((pin, bytes))
        } else {
            Err(ImportError::CrlHashMismatch)
        },
        FileRead::TooLarge => Err(to_oversize("crl", MAX_CRL_BYTES)),
        FileRead::Missing(_) => Err(ImportError::CrlMissing { file: pin.file }),
        FileRead::Failed(f) => Err(to_io_error(f)),
    }
}

/// What a read of the per-host container comes to, held against its pin where there is one.
pub open spec fn pinned_p12(pin: Option<String>, read: FileRead) -> Result<Vec<u8>, ImportError> {
    match bytes_of(read, "p12", MAX_P12_BYTES) {
        Err(e) => Err(e),
        Ok(bytes) => match pin {
            Some(p) => if pin_holds(bytes@, p@) {
                Ok(bytes)
            } else {
                Err(ImportError::P12HashMismatch)
            },
            None => Ok(bytes),
        },
    }
}

/// What a read of the per-host container comes to.
pub fn stage_p12(pin: &Option<String>, read: FileRead) -> (r: Result<Vec<u8>, ImportError>)
    ensures
        r == pinned_p12(*pin, read),
{
    match read_capped(read, "p12", MAX_P12_BYTES) {
        Err(e) => Err(e),
        Ok(bytes) => {
            let good = match pin {
                Some(p) => matches_pin(&bytes, p.as_str()),
                None => true,
            };
            if good {
                Ok(bytes)
            } else {
                Err(ImportError::P12HashMismatch)
            }
        },
    }
}

/// What is undone next: the files, the accepted version, the new role base.
pub open spec fn undo_seek(
    tx: FileTx,
    stage_made: bool,
    floor_due: bool,
    floor: Option<u64>,
    fault: ImportError,
) -> (RunState, ImportAction) {
    match tx.undo_step() {
        Some(step) => (
            RunState::Undo(
                Undo { phase: UndoPhase::File(step), tx, stage_made, floor_due, floor, fault },
            ),
            ImportAction::Undo(step),
        ),
        None => if floor_due {
            (
                RunState::Undo(
                    Undo { phase: UndoPhase::Floor, tx, stage_made, floor_due, floor, fault },
                ),
                ImportAction::RestoreFloor(floor),
            )
        } else if stage_made {
            (
                RunState::Undo(
                    Undo { phase: UndoPhase::Stage, tx, stage_made, floor_due, floor, fault },
                ),
                ImportAction::RemoveStage,
            )
        } else {
            (RunState::Finished, ImportAction::Finish(Err(fault)))
        },
    }
}

/// What follows a failure.
pub open spec fn failed(f: Forward, e: ImportError) -> (RunState, ImportAction) {
    undo_seek(f.tx, f.stage_made, false, f.floor, e)
}

/// An import that goes on.
pub open spec fn going(f: Forward, phase: Phase, action: ImportAction) -> (RunState, ImportAction) {
    (RunState::Forward(Forward { phase, ..f }), action)
}

/// What follows once every file is written: they are moved into place, and then the role base is
/// swapped.
pub open spec fn publishing(mode: ImportMode, f: Forward) -> (RunState, ImportAction) {
    match f.tx.publish_step() {
        Some(step) => going(f, Phase::Publish(step), ImportAction::Publish(step)),
        None => going(
            f,
            Phase::SwapRoles,
            ImportAction::SwapRoles { managed: mode is Managed },
        ),
    }
}

/// The outcome of an import that changed the device.
pub open spec fn applied_outcome(mode: ImportMode, f: Forward) -> ImportOutcome {
    ImportOutcome {
        mode,
        bundle_version: if mode is Managed {
            f.version
        } else {
            0
        },
        baseline_established: mode is Managed && f.floor is None,
        no_op: false,
        codes: None,
    }
}

/// The outcome of an import whose version was already applied.
pub open spec fn repeated_outcome(mode: ImportMode, version: u64) -> ImportOutcome {
    ImportOutcome {
        mode,
        bundle_version: version,
        baseline_established: false,
        no_op: true,
        codes: None,
    }
}

/// What follows once the role base is swapped: the backups are dropped.
pub open spec fn confirming(mode: ImportMode, f: Forward) -> (RunState, ImportAction) {
    match f.tx.first(SlotKind::BackedUp) {
        Some(a) => going(f, Phase::DropBackup(a), ImportAction::DropBackup(a)),
        None => (
            RunState::Finished,
            ImportAction::Finish(Ok((applied_outcome(mode, f), f.codes))),
        ),
    }
}

/// What follows when the per-host container is reached.
pub open spec fn reach_p12(f: Forward) -> (RunState, ImportAction) {
    if is_bare_name(f.p12_file@) {
        going(f, Phase::Read(Artefact::P12), ImportAction::ReadPackageFile)
    } else {
        failed(f, ImportError::UnsafeName { name: f.p12_file })
    }
}

/// What follows when the revocation list of a package without a manifest is reached.
pub open spec fn reach_crl(f: Forward) -> (RunState, ImportAction) {
    match f.crl_file {
        None => reach_p12(f),
        Some(name) => if is_bare_name(name@) {
            going(f, Phase::Read(Artefact::Crl), ImportAction::ReadPackageFile)
        } else {
            failed(f, ImportError::UnsafeName { name })
        },
    }
}

/// What follows once the new role base is put together: a version smaller than the accepted one is
/// refused, and then the files are read.
pub open spec fn copied(mode: ImportMode, f: Forward) -> (RunState, ImportAction) {
    match f.stopped {
        Some(io) => failed(f, io_error(io)),
        None => match mode {
            ImportMode::Standalone => going(
                f,
                Phase::Read(Artefact::Tags),
                ImportAction::ReadPackageFile,
            ),
            ImportMode::Managed => if f.floor matches Some(prev) && f.version < prev {
                failed(
                    f,
                    ImportError::Manifest(
                        ManifestError::Rollback { found: f.version, persisted: f.floor->Some_0 },
                    ),
                )
            } else {
                match f.crl_pin {
                    None => reach_p12(f),
                    Some(pin) => if is_bare_name(pin.file@) {
                        going(f, Phase::Read(Artefact::Crl), ImportAction::ReadPackageFile)
                    } else {
                        failed(f, ImportError::UnsafeName { name: pin.file })
                    },
                }
            },
        },
    }
}

/// What a read of a file that is put in place comes to.
pub open spec fn artefact_bytes(f: Forward, a: Artefact, read: FileRead) -> Result<
    Vec<u8>,
    ImportError,
> {
    match a {
        Artefact::Tags => bytes_of(read, "tags", f.tags_cap),
        Artefact::Crl => match f.crl_pin {
            Some(pin) => pinned_crl(pin, read),
            None => bytes_of(read, "crl", MAX_CRL_BYTES),
        },
        Artefact::P12 => pinned_p12(f.p12_pin, read),
    }
}

/// What follows once a file is written under its temporary name.
pub open spec fn staged(mode: ImportMode, f: Forward, a: Artefact) -> (RunState, ImportAction) {
    match a {
        Artefact::Tags => reach_crl(f),
        Artefact::Crl => reach_p12(f),
        Artefact::P12 => publishing(mode, f),
    }
}

/// What follows a reply while nothing has failed. A listing is left out: see [`follows`].
pub open spec fn forward_next(mode: ImportMode, f: Forward, reply: ImportReply) -> (
    RunState,
    ImportAction,
) {
    match f.phase {
        Phase::MakeFloorDir => match reply->Made_0 {
            Err(io) => failed(f, io_error(io)),
            Ok(_) => going(f, Phase::ReadManifest, ImportAction::ReadPackageFile),
        },
        Phase::ReadManifest => match bytes_of(reply->Read_0, "manifest", MAX_MANIFEST_BYTES) {
            Err(e) => failed(f, e),
            Ok(bytes) => going(f, Phase::OpenManifest, ImportAction::OpenManifest(bytes)),
        },
        Phase::OpenManifest => match reply->parsed {
            Err(e) => failed(f, ImportError::Manifest(e)),
            Ok(m) => match reply->signed {
                Err(e) => failed(f, ImportError::Manifest(e)),
                Ok(_) => going(
                    Forward {
                        version: m.bundle_version,
                        crl_pin: m.crl,
                        p12_pin: m.p12_sha256,
                        codes: m.codes,
                        ..f
                    },
                    Phase::ReadFloor,
                    ImportAction::ReadFloor,
                ),
            },
        },
        Phase::ReadFloor => match reply->Floor_0 {
            Err(e) => failed(f, ImportError::Manifest(e)),
            Ok(floor) => if floor == Some(f.version) {
                (
                    RunState::Finished,
                    ImportAction::Finish(Ok((repeated_outcome(mode, f.version), f.codes))),
                )
            } else {
                going(Forward { floor, ..f }, Phase::MakeStage, ImportAction::MakeStage)
            },
        },
        Phase::ReadCodes => match reply->Codes_0 {
            Err(e) => failed(f, e),
            Ok(codes) => going(
                Forward { codes, ..f },
                Phase::MakeStage,
                ImportAction::MakeStage,
            ),
        },
        Phase::MakeStage => match reply->Made_0 {
            Err(io) => failed(f, io_error(io)),
            Ok(_) => going(
                Forward { stage_made: true, ..f },
                Phase::ListPackage,
                ImportAction::ListPackage,
            ),
        },
        Phase::ListPackage => failed(f, io_error(reply->Listed_0->Err_0)),
        Phase::CopySlices => match reply->Copied_0 {
            Err(fault) => failed(f, copy_error(fault)),
            Ok(_) => copied(mode, f),
        },
        Phase::Read(a) => match artefact_bytes(f, a, reply->Read_0) {
            Err(e) => failed(f, e),
            Ok(bytes) => going(
                f,
                Phase::Stage(a),
                ImportAction::StageFile { artefact: a, bytes, mode: permissions(a) },
            ),
        },
        Phase::Stage(a) => match reply->Staged_0 {
            Err(io) => failed(f, io_error(io)),
            Ok(had_prior) => staged(
                mode,
                Forward { tx: f.tx.with(a, Slot::Staged { had_prior }), ..f },
                a,
            ),
        },
        Phase::Publish(step) => match reply->Moved_0 {
            Err(io) => failed(f, io_error(io)),
            Ok(_) => publishing(mode, Forward { tx: f.tx.published(step), ..f }),
        },
        Phase::SwapRoles => match reply->Swapped_0 {
            Err(e) => undo_seek(
                f.tx,
                f.stage_made,
                mode is Managed,
                f.floor,
                ImportError::RoleStore(e),
            ),
            Ok(_) => confirming(mode, f),
        },
        Phase::DropBackup(a) => confirming(
            mode,
            Forward { tx: f.tx.with(a, Slot::Confirmed), ..f },
        ),
    }
}

/// What follows a step of undoing.
pub open spec fn undo_next(u: Undo) -> (RunState, ImportAction) {
    match u.phase {
        UndoPhase::File(step) => undo_seek(
            u.tx.undone(step),
            u.stage_made,
            u.floor_due,
            u.floor,
            u.fault,
        ),
        UndoPhase::Floor => undo_seek(u.tx, u.stage_made, false, u.floor, u.fault),
        UndoPhase::Stage => undo_seek(u.tx, false, u.floor_due, u.floor, u.fault),
    }
}

/// Whether a reply answers what an import waits for.
pub open spec fn awaits(state: RunState, reply: ImportReply) -> bool {
    match state {
        RunState::Forward(f) => match f.phase {
            Phase::MakeFloorDir => reply is Made,
            Phase::ReadManifest => reply is Read,
            Phase::OpenManifest => reply is Opened,
            Phase::ReadFloor => reply is Floor,
            Phase::ReadCodes => reply is Codes,
            Phase::MakeStage => reply is Made,
            Phase::ListPackage => reply is Listed,
            Phase::CopySlices => reply is Copied,
            Phase::Read(_) => reply is Read,
            Phase::Stage(_) => reply is Staged,
            Phase::Publish(_) => reply is Moved,
            Phase::SwapRoles => reply is Swapped,
            Phase::DropBackup(_) => reply is Done,
        },
        RunState::Undo(_) => reply is Done,
        RunState::Finished => false,
    }
}

/// Whether an import goes on like this after a reply. What is copied into the new role base is
/// what [`copy_role_slices`] picks from the listing: the manifest only from a package that is
/// trusted by it.
pub open spec fn follows(
    mode: ImportMode,
    state: RunState,
    reply: ImportReply,
    next: RunState,
    action: ImportAction,
) -> bool {
    match state {
        RunState::Forward(f) => if f.phase is ListPackage && reply->Listed_0 is Ok {
            next matches RunState::Forward(g) && action matches ImportAction::CopySlices(copies)
                && g == (Forward { phase: Phase::CopySlices, stopped: g.stopped, ..f })
                && is_slice_plan(reply->Listed_0->Ok_0@, mode is Managed, copies@, g.stopped)
        } else {
            (next, action) == forward_next(mode, f, reply)
        },
        RunState::Undo(u) => (next, action) == undo_next(u),
        RunState::Finished => false,
    }
}

/// How an import begins.
pub open spec fn begun(
    package: EnrollmentPackage,
    has_key: bool,
    tags_cap: usize,
) -> (RunState, ImportAction) {
    let f = Forward {
        phase: Phase::MakeFloorDir,
        p12_file: package.p12_file,
        crl_file: package.crl_file,
        tags_cap,
        tx: FileTx::idle(),
        stage_made: false,
        floor: None,
        version: 0,
        crl_pin: None,
        p12_pin: None,
        codes: None,
        stopped: None,
    };
    match package.mode {
        ImportMode::Managed => if has_key {
            going(f, Phase::MakeFloorDir, ImportAction::MakeFloorDir)
        } else {
            (RunState::Finished, ImportAction::Finish(Err(ImportError::MissingKey)))
        },
        ImportMode::Standalone => going(f, Phase::ReadCodes, ImportAction::ReadCodesSection),
    }
}

fn do_undo_seek(
    tx: FileTx,
    stage_made: bool,
    floor_due: bool,
    floor: Option<u64>,
    fault: ImportError,
) -> (r: (RunState, ImportAction))
    ensures
        r == undo_seek(tx, stage_made, floor_due, floor, fault),
{
    match tx.rollback() {
        Some(step) => (
            RunState::Undo(
                Undo { phase: UndoPhase::File(step), tx, stage_made, floor_due, floor, fault },
            ),
            ImportAction::Undo(step),
        ),
        None => if floor_due {
            (
                RunState::Undo(
                    Undo { phase: UndoPhase::Floor, tx, stage_made, floor_due, floor, fault },
                ),
                ImportAction::RestoreFloor(floor),
            )
        } else if stage_made {
            (
                RunState::Undo(
                    Undo { phase: UndoPhase::Stage, tx, stage_made, floor_due, floor, fault },
                ),
                ImportAction::RemoveStage,
            )
        } else {
            (RunState::Finished, ImportAction::Finish(Err(fault)))
        },
    }
}

fn fail(f: Forward, e: ImportError) -> (r: (RunState, ImportAction))
    ensures
        r == failed(f, e),
{
    do_undo_seek(f.tx, f.stage_made, false, f.floor, e)
}

fn go(f: Forward, phase: Phase, action: ImportAction) -> (r: (RunState, ImportAction))
    ensures
        r == going(f, phase, action),
{
    (RunState::Forward(Forward { phase, ..f }), action)
}

fn is_managed(mode: ImportMode) -> (r: bool)
    ensures
        r == (mode is Managed),
{
    matches!(mode, ImportMode::Managed)
}

fn do_publishing(mode: ImportMode, f: Forward) -> (r: (RunState, ImportAction))
    ensures
        r == publishing(mode, f),
{
    match f.tx.publish_one() {
        Some(step) => go(f, Phase::Publish(step), ImportAction::Publish(step)),
        None => go(
            f,
            Phase::SwapRoles,
            ImportAction::SwapRoles { managed: is_managed(mode) },
        ),
    }
}

fn do_confirming(mode: ImportMode, f: Forward) -> (r: (RunState, ImportAction))
    ensures
        r == confirming(mode, f),
{
    match f.tx.confirm() {
        Some(a) => go(f, Phase::DropBackup(a), ImportAction::DropBackup(a)),
        None => {
            let managed = is_managed(mode);
            let bundle_version: u64 = if managed { f.version } else { 0 };
            let outcome = ImportOutcome {
                mode,
                bundle_version,
                baseline_established: managed && f.floor.is_none(),
                no_op: false,
                codes: None,
            };
            (RunState::Finished, ImportAction::Finish(Ok((outcome, f.codes))))
        },
    }
}

fn do_reach_p12(f: Forward) -> (r: (RunState, ImportAction))
    ensures
        r == reach_p12(f),
{
    if bare_name(f.p12_file.as_str()) {
        go(f, Phase::Read(Artefact::P12), ImportAction::ReadPackageFile)
    } else {
        do_undo_seek(
            f.tx,
            f.stage_made,
            false,
            f.floor,
            ImportError::UnsafeName { name: f.p12_file },
        )
    }
}

fn do_reach_crl(f: Forward) -> (r: (RunState, ImportAction))
    ensures
        r == reach_crl(f),
{
    match f.crl_file {
        None => do_reach_p12(Forward { crl_file: None, ..f }),
        Some(name) => if bare_name(name.as_str()) {
            go(
                Forward { crl_file: Some(name), ..f },
                Phase::Read(Artefact::Crl),
                ImportAction::ReadPackageFile,
            )
        } else {
            do_undo_seek(
                f.tx,
                f.stage_made,
                false,
                f.floor,
                ImportError::UnsafeName { name },
            )
        },
    }
}

fn do_copied(mode: ImportMode, f: Forward) -> (r: (RunState, ImportAction))
    ensures
        r == copied(mode, f),
{
    let f = match f.stopped {
        Some(io) => {
            return do_undo_seek(f.tx, f.stage_made, false, f.floor, to_io_error(io));
        },
        None => Forward { stopped: None, ..f },
    };
    match mode {
        ImportMode::Standalone => go(
            f,
            Phase::Read(Artefact::Tags),
            ImportAction::ReadPackageFile,
        ),
        ImportMode::Managed => {
            if let Some(prev) = f.floor {
                if f.version < prev {
                    let found: u64 = f.version;
                    return fail(
                        f,
                        ImportError::Manifest(ManifestError::Rollback { found, persisted: prev }),
                    );
                }
            }
            match f.crl_pin {
                None => do_reach_p12(Forward { crl_pin: None, ..f }),
                Some(pin) => if bare_name(pin.file.as_str()) {
                    go(
                        Forward { crl_pin: Some(pin), ..f },
                        Phase::Read(Artefact::Crl),
                        ImportAction::ReadPackageFile,
                    )
                } else {
                    do_undo_seek(
                        f.tx,
                        f.stage_made,
                        false,
                        f.floor,
                        ImportError::UnsafeName { name: pin.file },
                    )
                },
            }
        },
    }
}

fn do_read(f: Forward, a: Artefact, read: FileRead) -> (r: (RunState, ImportAction))
    ensures
        r == (match artefact_bytes(f, a, read) {
            Err(e) => failed(f, e),
            Ok(bytes) => going(
                f,
                Phase::Stage(a),
                ImportAction::StageFile { artefact: a, bytes, mode: permissions(a) },
            ),
        }),
{
    match a {
        Artefact::Tags => match read_capped(read, "tags", f.tags_cap) {
            Err(e) => fail(f, e),
            Ok(bytes) => go(
                f,
                Phase::Stage(a),
                ImportAction::StageFile { artefact: a, bytes, mode: FILE_MODE },
            ),
        },
        Artefact::P12 => match stage_p12(&f.p12_pin, read) {
            Err(e) => fail(f, e),
            Ok(bytes) => go(
                f,
                Phase::Stage(a),
                ImportAction::StageFile { artefact: a, bytes, mode: P12_MODE },
            ),
        },
        Artefact::Crl => {
            let tx = f.tx;
            let stage_made = f.stage_made;
            let floor = f.floor;
            match f.crl_pin {
                None => match read_capped(read, "crl", MAX_CRL_BYTES) {
                    Err(e) => do_undo_seek(tx, stage_made, false, floor, e),
                    Ok(bytes) => go(
                        Forward { crl_pin: None, ..f },
                        Phase::Stage(a),
                        ImportAction::StageFile { artefact: a, bytes, mode: FILE_MODE },
                    ),
                },
                Some(pin) => match read_pinned_crl(pin, read) {
                    Err(e) => do_undo_seek(tx, stage_made, false, floor, e),
                    Ok((pin, bytes)) => go(
                        Forward { crl_pin: Some(pin), ..f },
                        Phase::Stage(a),
                        ImportAction::StageFile { artefact: a, bytes, mode: FILE_MODE },
                    ),
                },
            }
        },
    }
}

fn do_forward(mode: ImportMode, f: Forward, reply: ImportReply) -> (r: (RunState, ImportAction))
    requires
        awaits(RunState::Forward(f), reply),
    ensures
        follows(mode, RunState::Forward(f), reply, r.0, r.1),
{
    match (f.phase, reply) {
        (Phase::MakeFloorDir, ImportReply::Made(made)) => match made {
            Err(io) => fail(f, to_io_error(io)),
            Ok(_) => go(f, Phase::ReadManifest, ImportAction::ReadPackageFile),
        },
        (Phase::ReadManifest, ImportReply::Read(read)) => match read_capped(
            read,
            "manifest",
            MAX_MANIFEST_BYTES,
        ) {
            Err(e) => fail(f, e),
            Ok(bytes) => go(f, Phase::OpenManifest, ImportAction::OpenManifest(bytes)),
        },
        (Phase::OpenManifest, ImportReply::Opened { parsed, signed }) => match parsed {
            Err(e) => fail(f, ImportError::Manifest(e)),
            Ok(m) => match signed {
                Err(e) => fail(f, ImportError::Manifest(e)),
                Ok(_) => go(
                    Forward {
                        version: m.bundle_version,
                        crl_pin: m.crl,
                        p12_pin: m.p12_sha256,
                        codes: m.codes,
                        ..f
                    },
                    Phase::ReadFloor,
                    ImportAction::ReadFloor,
                ),
            },
        },
        (Phase::ReadFloor, ImportReply::Floor(read)) => match read {
            Err(e) => fail(f, ImportError::Manifest(e)),
            Ok(floor) => {
                let same = match floor {
                    Some(v) => v == f.version,
                    None => false,
                };
                if same {
                    let outcome = ImportOutcome {
                        mode,
                        bundle_version: f.version,
                        baseline_established: false,
                        no_op: true,
                        codes: None,
                    };
                    (RunState::Finished, ImportAction::Finish(Ok((outcome, f.codes))))
                } else {
                    go(Forward { floor, ..f }, Phase::MakeStage, ImportAction::MakeStage)
                }
            },
        },
        (Phase::ReadCodes, ImportReply::Codes(read)) => match read {
            Err(e) => fail(f, e),
            Ok(codes) => go(Forward { codes, ..f }, Phase::MakeStage, ImportAction::MakeStage),
        },
        (Phase::MakeStage, ImportReply::Made(made)) => match made {
            Err(io) => fail(f, to_io_error(io)),
            Ok(_) => go(
                Forward { stage_made: true, ..f },
                Phase::ListPackage,
                ImportAction::ListPackage,
            ),
        },
        (Phase::ListPackage, ImportReply::Listed(listed)) => match listed {
            Err(io) => fail(f, to_io_error(io)),
            Ok(entries) => {
                let (copies, stopped) = copy_role_slices(&entries, is_managed(mode));
                (
                    RunState::Forward(Forward { phase: Phase::CopySlices, stopped, ..f }),
                    ImportAction::CopySlices(copies),
                )
            },
        },
        (Phase::CopySlices, ImportReply::Copied(done)) => match done {
            Err(fault) => {
                let e = match fault {
                    CopyFault::TooLarge { manifest } => {
                        if manifest {
                            to_oversize("manifest", MAX_MANIFEST_BYTES)
                        } else {
                            to_oversize("slice", MAX_SLICE_BYTES)
                        }
                    },
                    CopyFault::Failed(io) => to_io_error(io),
                };
                fail(f, e)
            },
            Ok(_) => do_copied(mode, f),
        },
        (Phase::Read(a), ImportReply::Read(read)) => do_read(f, a, read),
        (Phase::Stage(a), ImportReply::Staged(done)) => match done {
            Err(io) => fail(f, to_io_error(io)),
            Ok(had_prior) => {
                let f = Forward { tx: f.tx.stage(a, had_prior), ..f };
                match a {
                    Artefact::Tags => do_reach_crl(f),
                    Artefact::Crl => do_reach_p12(f),
                    Artefact::P12 => do_publishing(mode, f),
                }
            },
        },
        (Phase::Publish(step), ImportReply::Moved(done)) => match done {
            Err(io) => fail(f, to_io_error(io)),
            Ok(_) => do_publishing(mode, Forward { tx: f.tx.after_publish(step), ..f }),
        },
        (Phase::SwapRoles, ImportReply::Swapped(done)) => match done {
            Err(e) => do_undo_seek(
                f.tx,
                f.stage_made,
                is_managed(mode),
                f.floor,
                ImportError::RoleStore(e),
            ),
            Ok(_) => do_confirming(mode, f),
        },
        (Phase::DropBackup(a), _) => do_confirming(
            mode,
            Forward { tx: f.tx.after_confirm(a), ..f },
        ),
        (_, _) => unreached(),
    }
}

impl EnrollmentPackage {
    /// Begins the import of the package, with nothing known of the device.
    ///
    /// `has_key` says whether there is a key to verify a manifest with.
    pub fn install(self, has_key: bool, tags_cap: usize) -> (r: (ImportRun, ImportAction))
        ensures
            (r.0.state, r.1) == begun(self, has_key, tags_cap),
            r.0.mode == self.mode,
            r.0.ids.host_id_prefix8@ == ""@,
            r.0.ids.serial@ == ""@,
    {
        self.install_with_ids(has_key, tags_cap, EnrollAuditIds::default())
    }

    /// Begins the import of the package.
    pub fn install_with_ids(self, has_key: bool, tags_cap: usize, ids: EnrollAuditIds) -> (r: (
        ImportRun,
        ImportAction,
    ))
        ensures
            (r.0.state, r.1) == begun(self, has_key, tags_cap),
            r.0.mode == self.mode,
            r.0.ids == ids,
    {
        let mode = self.mode;
        let f = Forward {
            phase: Phase::MakeFloorDir,
            p12_file: self.p12_file,
            crl_file: self.crl_file,
            tags_cap,
            tx: FileTx::new(),
            stage_made: false,
            floor: None,
            version: 0,
            crl_pin: None,
            p12_pin: None,
            codes: None,
            stopped: None,
        };
        let (state, action) = match mode {
            ImportMode::Managed => if has_key {
                go(f, Phase::MakeFloorDir, ImportAction::MakeFloorDir)
            } else {
                (RunState::Finished, ImportAction::Finish(Err(ImportError::MissingKey)))
            },
            ImportMode::Standalone => go(f, Phase::ReadCodes, ImportAction::ReadCodesSection),
        };
        (ImportRun { mode, ids, state }, action)
    }
}

/// The file of the package that an import reads next, and its cap.
pub open spec fn source_of(state: RunState) -> Option<(Seq<char>, usize)> {
    match state {
        RunState::Forward(f) => match f.phase {
            Phase::ReadManifest => Some((MANIFEST_FILENAME@, MAX_MANIFEST_BYTES)),
            Phase::ReadCodes => Some((STANDALONE_CODES_FILENAME@, MAX_SECTION_BYTES)),
            Phase::Read(Artefact::Tags) => Some((TAGS_FILENAME@, f.tags_cap)),
            Phase::Read(Artefact::Crl) => match f.crl_pin {
                Some(pin) => Some((pin.file@, MAX_CRL_BYTES)),
                None => match f.crl_file {
                    Some(name) => Some((name@, MAX_CRL_BYTES)),
                    None => None,
                },
            },
            Phase::Read(Artefact::P12) => Some((f.p12_file@, MAX_P12_BYTES)),
            _ => None,
        },
        _ => None,
    }
}

/// The event of what an import came to. One whose version was already applied has none.
pub open spec fn import_event(
    mode: ImportMode,
    result: ImportResult,
    host_id_prefix8: Seq<char>,
    serial: Seq<char>,
) -> Option<(EventModel, RecordModel)> {
    match result {
        Ok(done) => if done.0.no_op {
            None
        } else {
            Some(
                (
                    enrolled_event(
                        mode.label_text(),
                        done.0.bundle_version,
                        host_id_prefix8,
                        serial,
                    ),
                    RecordModel {
                        host_id_prefix8,
                        serial,
                        bundle_version: done.0.bundle_version,
                        mode: mode.label_text(),
                        reason: None,
                    },
                ),
            )
        },
        Err(e) => Some(
            (
                rejected_event(reason_text(e), host_id_prefix8, serial),
                RecordModel {
                    host_id_prefix8,
                    serial,
                    bundle_version: 0,
                    mode: ""@,
                    reason: Some(reason_text(e)),
                },
            ),
        ),
    }
}

impl ImportRun {
    /// The file of the package to be read now, and its cap.
    pub fn file_to_read(&self) -> (r: Option<(&str, usize)>)
        ensures
            match source_of(self.state) {
                Some(want) => r matches Some(p) && p.0@ == want.0 && p.1 == want.1,
                None => r is None,
            },
    {
        match &self.state {
            RunState::Forward(f) => match f.phase {
                Phase::ReadManifest => Some((MANIFEST_FILENAME, MAX_MANIFEST_BYTES)),
                Phase::ReadCodes => Some((STANDALONE_CODES_FILENAME, MAX_SECTION_BYTES)),
                Phase::Read(Artefact::Tags) => Some((TAGS_FILENAME, f.tags_cap)),
                Phase::Read(Artefact::Crl) => match &f.crl_pin {
                    Some(pin) => Some((pin.file.as_str(), MAX_CRL_BYTES)),
                    None => match &f.crl_file {
                        Some(name) => Some((name.as_str(), MAX_CRL_BYTES)),
                        None => None,
                    },
                },
                Phase::Read(Artefact::P12) => Some((f.p12_file.as_str(), MAX_P12_BYTES)),
                _ => None,
            },
            _ => None,
        }
    }

    /// How many files are written under temporary names.
    pub fn pending(&self) -> (r: u64)
        ensures
            r == match self.state {
                RunState::Forward(f) => f.tx.written(),
                RunState::Undo(u) => u.tx.written(),
                RunState::Finished => 0,
            },
    {
        match &self.state {
            RunState::Forward(f) => f.tx.pending(),
            RunState::Undo(u) => u.tx.pending(),
            RunState::Finished => 0,
        }
    }

    /// Whether a reply answers what the import waits for.
    pub fn awaits(&self, reply: &ImportReply) -> (r: bool)
        ensures
            r == awaits(self.state, *reply),
    {
        match &self.state {
            RunState::Forward(f) => match f.phase {
                Phase::MakeFloorDir => matches!(reply, ImportReply::Made(_)),
                Phase::ReadManifest => matches!(reply, ImportReply::Read(_)),
                Phase::OpenManifest => matches!(reply, ImportReply::Opened { .. }),
                Phase::ReadFloor => matches!(reply, ImportReply::Floor(_)),
                Phase::ReadCodes => matches!(reply, ImportReply::Codes(_)),
                Phase::MakeStage => matches!(reply, ImportReply::Made(_)),
                Phase::ListPackage => matches!(reply, ImportReply::Listed(_)),
                Phase::CopySlices => matches!(reply, ImportReply::Copied(_)),
                Phase::Read(_) => matches!(reply, ImportReply::Read(_)),
                Phase::Stage(_) => matches!(reply, ImportReply::Staged(_)),
                Phase::Publish(_) => matches!(reply, ImportReply::Moved(_)),
                Phase::SwapRoles => matches!(reply, ImportReply::Swapped(_)),
                Phase::DropBackup(_) => matches!(reply, ImportReply::Done),
            },
            RunState::Undo(_) => matches!(reply, ImportReply::Done),
            RunState::Finished => false,
        }
    }

    /// Goes on with what came of the last action.
    pub fn step(self, reply: ImportReply) -> (r: (ImportRun, ImportAction))
        requires
            awaits(self.state, reply),
        ensures
            follows(self.mode, self.state, reply, r.0.state, r.1),
            r.0.mode == self.mode,
            r.0.ids == self.ids,
    {
        let ImportRun { mode, ids, state } = self;
        let (state, action) = match state {
            RunState::Forward(f) => do_forward(mode, f, reply),
            RunState::Undo(u) => match u.phase {
                UndoPhase::File(step) => do_undo_seek(
                    u.tx.after_rollback(step),
                    u.stage_made,
                    u.floor_due,
                    u.floor,
                    u.fault,
                ),
                UndoPhase::Floor => do_undo_seek(u.tx, u.stage_made, false, u.floor, u.fault),
                UndoPhase::Stage => do_undo_seek(u.tx, false, u.floor_due, u.floor, u.fault),
            },
            RunState::Finished => unreached(),
        };
        (ImportRun { mode, ids, state }, action)
    }

    /// Records what the import came to: one event for each, and none where nothing changed.
    pub fn report(
        &self,
        result: &ImportResult,
        log: &mut AuditLog,
        journal: &mut EnrollmentJournal,
    )
        ensures
            match import_event(
                self.mode,
                *result,
                self.ids.host_id_prefix8@,
                self.ids.serial@,
            ) {
                Some(e) => final(log)@ == old(log)@.push(e.0) && final(journal)@ == old(
                    journal,
                )@.push(e.1),
                None => final(log)@ == old(log)@ && final(journal)@ == old(journal)@,
            },
    {
        match result {
            Ok(done) => {
                if !done.0.no_op {
                    emit_device_enrolled_full(
                        log,
                        journal,
                        self.mode.label(),
                        done.0.bundle_version,
                        &self.ids,
                    );
                }
            },
            Err(e) => {
                emit_enrollment_rejected_full(log, journal, reason_for(e), &self.ids);
            },
        }
    }
}

/// Where an import begins: a signed package with the directory of the accepted version, and not at
/// all without the key; another with its codes section. Nothing is written or accepted yet.
pub proof fn imports_begin_with_nothing_done(
    package: EnrollmentPackage,
    has_key: bool,
    tags_cap: usize,
)
    ensures
        package.mode is Managed && !has_key ==> begun(package, has_key, tags_cap).1
            == ImportAction::Finish(Err(ImportError::MissingKey)),
        package.mode is Managed && has_key ==> begun(package, has_key, tags_cap).1 is MakeFloorDir,
        package.mode is Standalone ==> begun(package, has_key, tags_cap).1 is ReadCodesSection,
        begun(package, has_key, tags_cap).0 matches RunState::Forward(f) ==> f.tx == FileTx::idle()
            && !f.stage_made && f.floor is None && f.p12_file == package.p12_file && f.crl_file
            == package.crl_file && f.tags_cap == tags_cap && f.crl_pin is None && f.p12_pin is None,
{
}

/// Which file of the package is read in each phase, and how much of it at most.
pub proof fn files_are_read_under_their_caps(f: Forward)
    ensures
        f.phase is ReadManifest ==> source_of(RunState::Forward(f)) == Some(
            ("manifest.toml"@, 262144usize),
        ),
        f.phase is ReadCodes ==> source_of(RunState::Forward(f)) == Some(
            ("codes.toml"@, 262144usize),
        ),
        f.phase == Phase::Read(Artefact::Tags) ==> source_of(RunState::Forward(f)) == Some(
            ("tags.toml"@, f.tags_cap),
        ),
        f.phase == Phase::Read(Artefact::P12) ==> source_of(RunState::Forward(f)) == Some(
            (f.p12_file@, 262144usize),
        ),
        f.phase == Phase::Read(Artefact::Crl) ==> (f.crl_pin matches Some(pin) ==> source_of(
            RunState::Forward(f),
        ) == Some((pin.file@, 1048576usize))),
        f.phase == Phase::Read(Artefact::Crl) && f.crl_pin is None ==> (
        f.crl_file matches Some(name) ==> source_of(RunState::Forward(f)) == Some(
            (name@, 1048576usize),
        )),
{
}

/// The container is for its owner alone; the other files are for all to read.
pub proof fn container_is_for_its_owner()
    ensures
        permissions(Artefact::P12) == 0o600,
        permissions(Artefact::Crl) == 0o644,
        permissions(Artefact::Tags) == 0o644,
{
}

/// A pinned file is taken only if its hash is the one that was signed; that it differs, that it is
/// missing and that it is too large are told apart.
pub proof fn pinned_files_must_match(pin: ManifestCrl, p12: Option<String>, bytes: Vec<u8>)
    ensures
        pinned_crl(pin, FileRead::Whole(bytes)) == if pin_holds(bytes@, pin.sha256@) {
            Ok::<Vec<u8>, ImportError>(bytes)
        } else {
            Err(ImportError::CrlHashMismatch)
        },
        pinned_crl(pin, FileRead::TooLarge) is Err,
        pinned_crl(pin, FileRead::TooLarge)->Err_0 is Oversize,
        p12 is None ==> pinned_p12(p12, FileRead::Whole(bytes)) == Ok::<Vec<u8>, ImportError>(
            bytes,
        ),
        (p12 matches Some(p) && pin_holds(bytes@, p@)) ==> pinned_p12(p12, FileRead::Whole(bytes))
            == Ok::<Vec<u8>, ImportError>(bytes),
        (p12 matches Some(p) && !pin_holds(bytes@, p@)) ==> pinned_p12(p12, FileRead::Whole(bytes))
            == Err::<Vec<u8>, ImportError>(ImportError::P12HashMismatch),
        pinned_p12(p12, FileRead::TooLarge) is Err,
{
}

/// A revocation list that the manifest pins has to be there.
pub proof fn pinned_crl_must_be_there(pin: ManifestCrl, io: IoFailure)
    ensures
        pinned_crl(pin, FileRead::Missing(io)) == Err::<Vec<u8>, ImportError>(
            ImportError::CrlMissing { file: pin.file },
        ),
        pinned_crl(pin, FileRead::Failed(io)) == Err::<Vec<u8>, ImportError>(
            ImportError::Io { path: io.path, reason: io.reason },
        ),
{
}

/// A manifest counts only if it parses and its signature holds; then its version, its pins and its
/// codes section are the ones that the import goes by.
pub proof fn manifest_counts_once_signed(
    mode: ImportMode,
    f: Forward,
    m: Manifest,
    e: ManifestError,
)
    requires
        f.phase is OpenManifest,
        f.tx == FileTx::idle(),
        !f.stage_made,
    ensures
        forward_next(mode, f, ImportReply::Opened { parsed: Ok(m), signed: Err(e) }).1
            == ImportAction::Finish(Err(ImportError::Manifest(e))),
        forward_next(mode, f, ImportReply::Opened { parsed: Err(e), signed: Ok(()) }).1
            == ImportAction::Finish(Err(ImportError::Manifest(e))),
        forward_next(mode, f, ImportReply::Opened { parsed: Ok(m), signed: Ok(()) }).1
            is ReadFloor,
        forward_next(
            mode,
            f,
            ImportReply::Opened { parsed: Ok(m), signed: Ok(()) },
        ).0 matches RunState::Forward(g) && g.version == m.bundle_version && g.crl_pin == m.crl
            && g.p12_pin == m.p12_sha256 && g.codes == m.codes && g.tx == f.tx,
{
}

/// A version that was accepted before is accepted again without a change; a smaller one is refused
/// with both numbers, and a larger one goes on.
pub proof fn versions_only_advance(f: Forward, prev: u64, io: Option<IoFailure>)
    requires
        f.tx == FileTx::idle(),
        f.floor == Some(prev),
        f.stopped is None,
    ensures
        f.phase is ReadFloor && f.version == prev ==> (forward_next(
            ImportMode::Managed,
            f,
            ImportReply::Floor(Ok(Some(prev))),
        ).1 matches ImportAction::Finish(Ok(done)) && done.0.no_op && done.0.bundle_version == prev
            && !done.0.baseline_established),
        f.phase is ReadFloor && f.version != prev ==> forward_next(
            ImportMode::Managed,
            f,
            ImportReply::Floor(Ok(Some(prev))),
        ).1 is MakeStage,
        f.version < prev && !f.stage_made ==> copied(ImportMode::Managed, f).1
            == ImportAction::Finish(
            Err(
                ImportError::Manifest(
                    ManifestError::Rollback { found: f.version, persisted: prev },
                ),
            ),
        ),
        f.version < prev && f.stage_made ==> copied(ImportMode::Managed, f).1 is RemoveStage,
        f.version >= prev && f.crl_pin is None && is_bare_name(f.p12_file@) ==> copied(
            ImportMode::Managed,
            f,
        ).1 is ReadPackageFile,
{
}

/// The role base is swapped last: only once no file is left to move into place.
pub proof fn roles_are_swapped_last(mode: ImportMode, f: Forward)
    ensures
        publishing(mode, f).1 is SwapRoles <==> !(f.tx.tags is Staged) && !(f.tx.tags is Aside) && !(
        f.tx.crl is Staged) && !(f.tx.crl is Aside) && !(f.tx.p12 is Staged) && !(
        f.tx.p12 is Aside),
        publishing(mode, f).1 matches ImportAction::SwapRoles { managed } ==> managed == (
        mode is Managed),
{
}

/// After a failure files are put back first, then the accepted version, where the swap may have
/// advanced it, then the staged roles are removed; the error that is reported in the end is the one
/// that began it.
pub proof fn undoing_reports_the_first_error(
    tx: FileTx,
    stage_made: bool,
    floor_due: bool,
    floor: Option<u64>,
    fault: ImportError,
)
    ensures
        tx.undo_step() is Some ==> undo_seek(tx, stage_made, floor_due, floor, fault).1 is Undo,
        tx.undo_step() is None && floor_due ==> undo_seek(tx, stage_made, floor_due, floor, fault).1
            == ImportAction::RestoreFloor(floor),
        tx.undo_step() is None && !floor_due && stage_made ==> undo_seek(
            tx,
            stage_made,
            floor_due,
            floor,
            fault,
        ).1 is RemoveStage,
        tx.undo_step() is None && !floor_due && !stage_made ==> undo_seek(
            tx,
            stage_made,
            floor_due,
            floor,
            fault,
        ).1 == ImportAction::Finish(Err(fault)),
        undo_seek(tx, stage_made, floor_due, floor, fault).0 matches RunState::Undo(u) ==> u.fault
            == fault && u.floor == floor && u.tx == tx,
{
}

/// What an import comes to: its mode and version, and whether this is the first version that the
/// device accepts. Without a signature there is no version.
pub proof fn outcome_names_what_was_applied(mode: ImportMode, f: Forward, version: u64)
    ensures
        applied_outcome(mode, f).mode == mode,
        !applied_outcome(mode, f).no_op,
        mode is Managed ==> applied_outcome(mode, f).bundle_version == f.version,
        mode is Standalone ==> applied_outcome(mode, f).bundle_version == 0,
        applied_outcome(mode, f).baseline_established <==> mode is Managed && f.floor is None,
        repeated_outcome(mode, version).no_op && !repeated_outcome(mode, version)
            .baseline_established,
        repeated_outcome(mode, version).bundle_version == version,
{
}

/// Every outcome is recorded, but for an import that changed nothing: success with its version and
/// mode, failure with its reason, both with the device's own marks.
pub proof fn every_outcome_is_recorded(
    mode: ImportMode,
    result: ImportResult,
    host: Seq<char>,
    serial: Seq<char>,
)
    ensures
        import_event(mode, result, host, serial) is None <==> (result matches Ok(done)
            && done.0.no_op),
        import_event(mode, result, host, serial) matches Some(rec) ==> rec.1.host_id_prefix8 == host
            && rec.1.serial == serial,
        (result matches Ok(done) && !done.0.no_op) ==> {
            let (event, rec) = import_event(mode, result, host, serial)->0;
            &&& event.name == "device_enrolled"@
            &&& rec.reason is None
            &&& rec.bundle_version == result->Ok_0.0.bundle_version
            &&& rec.mode == if mode is Managed {
                "managed"@
            } else {
                "standalone"@
            }
        },
        result matches Err(e) ==> {
            let (event, rec) = import_event(mode, result, host, serial)->0;
            event.name == "enrollment_rejected"@ && rec.reason == Some(reason_text(e))
                && rec.bundle_version == 0 && rec.mode == ""@
        },
{
}

/// A name out of the package is read only where it stays in the package.
pub proof fn names_must_stay_in_the_package(f: Forward)
    ensures
        is_bare_name(f.p12_file@) ==> reach_p12(f) == (
            RunState::Forward(Forward { phase: Phase::Read(Artefact::P12), ..f }),
            ImportAction::ReadPackageFile,
        ),
        !is_bare_name(f.p12_file@) ==> !(reach_p12(f).0 is Forward),
        f.crl_file is None ==> reach_crl(f) == reach_p12(f),
        f.crl_file matches Some(name) ==> (is_bare_name(name@) ==> reach_crl(f) == (
            RunState::Forward(Forward { phase: Phase::Read(Artefact::Crl), ..f }),
            ImportAction::ReadPackageFile,
        )),
        f.crl_file matches Some(name) ==> (!is_bare_name(name@) ==> !(reach_crl(f).0 is Forward)),
{
}

} // verus!
