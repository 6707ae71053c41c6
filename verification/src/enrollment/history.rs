//! What holds of every import, whatever fails in the course of it.
//!
//! A history is what an import did and what came of it, step by step, together with the device as
//! each step left it. The laws are about every history in which each step did what it is asked to
//! do: what failed changed nothing, but for a failed swap, which may have advanced the accepted
//! version; and what is undone can be undone.

use crate::enrollment::import::{
    bytes_of, io_error, pin_holds, EnrollmentPackage, ImportError, ImportMode, Manifest,
    ManifestError, MAX_MANIFEST_BYTES,
};
use crate::enrollment::install::{
    artefact_bytes, awaits, begun, confirming, copied, copy_error, failed, follows, forward_next,
    publishing, reach_crl, reach_p12, undo_next, undo_seek, Forward, ImportAction, ImportReply,
    Phase, RunState, Undo, UndoPhase,
};
use crate::enrollment::transaction::{Artefact, FileTx, PublishStep, Slot, UndoStep};
use vstd::prelude::*;

verus! {

/// A place that an import writes to.
pub enum Place {
    /// Where a file belongs.
    Installed(Artefact),
    /// Where what was there is kept.
    Backup(Artefact),
    /// Where the new file is written first.
    Temp(Artefact),
}

/// What is on the device.
pub struct Device {
    /// Every file, by its path.
    pub files: Map<Seq<char>, Seq<u8>>,
    /// The role base, by file name.
    pub roles: Map<Seq<char>, Seq<u8>>,
    /// The role base that is being put together.
    pub stage: Option<Map<Seq<char>, Seq<u8>>>,
    /// The accepted version.
    pub floor: Option<u64>,
    /// How often the role base was swapped.
    pub swaps: nat,
    /// The files of the package that were written, by what they are.
    pub given: Map<Artefact, Seq<u8>>,
}

/// One step of an import.
pub struct Step {
    /// What came of the action before it.
    pub reply: ImportReply,
    /// Where the import stands.
    pub state: RunState,
    /// What is done next.
    pub action: ImportAction,
    /// The device, before that is done.
    pub device: Device,
}

/// The names of places: every place is a file of its own.
pub open spec fn apart(at: spec_fn(Place) -> Seq<char>) -> bool {
    forall|p: Place, q: Place| #[trigger] at(p) == #[trigger] at(q) ==> p == q
}

/// Files after one was moved.
pub open spec fn moved(
    files: Map<Seq<char>, Seq<u8>>,
    from: Seq<char>,
    to: Seq<char>,
) -> Map<Seq<char>, Seq<u8>> {
    files.remove(from).insert(to, files[from])
}

/// The accepted version once a manifest is accepted.
pub open spec fn accepted(m: Option<Manifest>, floor: Option<u64>) -> Option<u64> {
    match m {
        Some(m) => Some(m.bundle_version),
        None => floor,
    }
}

/// What an action with its reply does to the device, where `m` is the manifest that was opened. To
/// swap the role base with a manifest is to accept the manifest's version.
pub open spec fn effect(
    at: spec_fn(Place) -> Seq<char>,
    m: Option<Manifest>,
    action: ImportAction,
    reply: ImportReply,
    d: Device,
    e: Device,
) -> bool {
    match action {
        ImportAction::StageFile { artefact, bytes, .. } => match reply->Staged_0 {
            Ok(had_prior) => {
                &&& had_prior == d.files.dom().contains(at(Place::Installed(artefact)))
                &&& e == (Device {
                    files: d.files.insert(at(Place::Temp(artefact)), bytes@),
                    given: d.given.insert(artefact, bytes@),
                    ..d
                })
            },
            Err(_) => e == d || e == (Device {
                files: d.files.remove(at(Place::Temp(artefact))),
                ..d
            }),
        },
        ImportAction::Publish(step) => match reply->Moved_0 {
            Ok(_) => e == (Device {
                files: match step {
                    PublishStep::MoveAside(a) => moved(
                        d.files,
                        at(Place::Installed(a)),
                        at(Place::Backup(a)),
                    ),
                    PublishStep::MoveIn(a) => moved(
                        d.files,
                        at(Place::Temp(a)),
                        at(Place::Installed(a)),
                    ),
                },
                ..d
            }),
            Err(_) => e == d,
        },
        ImportAction::SwapRoles { managed } => match reply->Swapped_0 {
            Ok(_) => d.stage matches Some(roles) && e == (Device {
                roles,
                stage: None,
                floor: if managed {
                    accepted(m, d.floor)
                } else {
                    d.floor
                },
                swaps: d.swaps + 1,
                ..d
            }),
            Err(_) => e == d || (managed && e == (Device { floor: accepted(m, d.floor), ..d })),
        },
        ImportAction::DropBackup(a) => e == d || e == (Device {
            files: d.files.remove(at(Place::Backup(a))),
            ..d
        }),
        ImportAction::Undo(step) => e == (Device {
            files: match step {
                UndoStep::PutBack(a) => moved(
                    d.files,
                    at(Place::Backup(a)),
                    at(Place::Installed(a)),
                ),
                UndoStep::RemoveInstalled(a) => d.files.remove(at(Place::Installed(a))),
                UndoStep::RemoveTemp(a) => d.files.remove(at(Place::Temp(a))),
            },
            ..d
        }),
        ImportAction::RestoreFloor(floor) => e == (Device { floor, ..d }),
        ImportAction::ReadFloor => e == d && (reply->Floor_0 matches Ok(floor) ==> floor
            == d.floor),
        ImportAction::MakeStage => e == (Device { stage: e.stage, ..d }) && (reply->Made_0 is Ok
            ==> e.stage is Some),
        ImportAction::CopySlices(_) => e == (Device { stage: e.stage, ..d }) && (d.stage is Some
            ==> e.stage is Some),
        ImportAction::RemoveStage => e == (Device { stage: None, ..d }),
        _ => e == d,
    }
}

/// Where an import stands after some steps.
pub open spec fn now(start: (RunState, ImportAction), steps: Seq<Step>) -> (RunState, ImportAction) {
    if steps.len() == 0 {
        start
    } else {
        (steps.last().state, steps.last().action)
    }
}

/// The device after some steps.
pub open spec fn device_now(d: Device, steps: Seq<Step>) -> Device {
    if steps.len() == 0 {
        d
    } else {
        steps.last().device
    }
}

/// Whether steps are those of an import on a device.
pub open spec fn is_history(
    at: spec_fn(Place) -> Seq<char>,
    mode: ImportMode,
    start: (RunState, ImportAction),
    d: Device,
    steps: Seq<Step>,
) -> bool
    decreases steps.len(),
{
    steps.len() == 0 || {
        let before = steps.drop_last();
        let step = steps.last();
        &&& is_history(at, mode, start, d, before)
        &&& awaits(now(start, before).0, step.reply)
        &&& follows(mode, now(start, before).0, step.reply, step.state, step.action)
        &&& effect(
            at,
            opened(before),
            now(start, before).1,
            step.reply,
            device_now(d, before),
            step.device,
        )
    }
}

/// Whether two devices have the same at a path.
pub open spec fn same_at(d: Device, e: Device, path: Seq<char>) -> bool {
    d.files.dom().contains(path) == e.files.dom().contains(path) && (d.files.dom().contains(path)
        ==> d.files[path] == e.files[path])
}

/// Whether a device has a file of the package at a path.
pub open spec fn holds_given(e: Device, path: Seq<char>, a: Artefact) -> bool {
    e.files.dom().contains(path) && e.files[path] == e.given[a]
}

/// Whether a path is a place of the import.
pub open spec fn is_place(at: spec_fn(Place) -> Seq<char>, path: Seq<char>) -> bool {
    exists|p: Place| #[trigger] at(p) == path
}

/// What a slot says of the device.
pub open spec fn slot_holds(
    at: spec_fn(Place) -> Seq<char>,
    d: Device,
    e: Device,
    a: Artefact,
    slot: Slot,
) -> bool {
    let home = at(Place::Installed(a));
    let backup = at(Place::Backup(a));
    let temp = at(Place::Temp(a));
    match slot {
        Slot::Idle => {
            &&& same_at(d, e, home)
            &&& e.files.dom().contains(temp) ==> d.files.dom().contains(temp)
        },
        Slot::Staged { had_prior } => {
            &&& same_at(d, e, home)
            &&& had_prior == d.files.dom().contains(home)
            &&& holds_given(e, temp, a)
        },
        Slot::Aside => {
            &&& d.files.dom().contains(home)
            &&& e.files.dom().contains(backup)
            &&& e.files[backup] == d.files[home]
            &&& holds_given(e, temp, a)
        },
        Slot::Published { had_prior } => {
            &&& had_prior == d.files.dom().contains(home)
            &&& had_prior ==> e.files.dom().contains(backup) && e.files[backup] == d.files[home]
            &&& holds_given(e, home, a)
            &&& !e.files.dom().contains(temp)
        },
        Slot::Confirmed => {
            &&& holds_given(e, home, a)
            &&& !e.files.dom().contains(temp)
        },
    }
}

/// What the slots say of the device.
pub open spec fn slots_hold(
    at: spec_fn(Place) -> Seq<char>,
    d: Device,
    e: Device,
    tx: FileTx,
) -> bool {
    &&& slot_holds(at, d, e, Artefact::Tags, tx.tags)
    &&& slot_holds(at, d, e, Artefact::Crl, tx.crl)
    &&& slot_holds(at, d, e, Artefact::P12, tx.p12)
}

/// The manifest that was opened in some steps: read, with a signature that held.
pub open spec fn opened(steps: Seq<Step>) -> Option<Manifest>
    decreases steps.len(),
{
    if steps.len() == 0 {
        None
    } else {
        match steps.last().reply {
            ImportReply::Opened { parsed: Ok(m), signed: Ok(_) } => Some(m),
            _ => opened(steps.drop_last()),
        }
    }
}

/// Whether bytes are those that a manifest pins, where it pins the file.
pub open spec fn meets_manifest(m: Option<Manifest>, a: Artefact, bytes: Seq<u8>) -> bool {
    match a {
        Artefact::Tags => true,
        Artefact::Crl => match m {
            Some(m) => m.crl matches Some(pin) ==> pin_holds(bytes, pin.sha256@),
            None => true,
        },
        Artefact::P12 => match m {
            Some(m) => m.p12_sha256 matches Some(pin) ==> pin_holds(bytes, pin@),
            None => true,
        },
    }
}

/// Whether a package brings a file, as far as it must.
pub open spec fn must_bring(mode: ImportMode, m: Option<Manifest>, a: Artefact) -> bool {
    match a {
        Artefact::Tags => mode is Standalone,
        Artefact::Crl => m matches Some(m) && m.crl is Some,
        Artefact::P12 => true,
    }
}

/// Whether a file of the package is in its place, if the package brings it: the bytes that were
/// read once, which are the ones that the manifest pins.
pub open spec fn file_in_place(
    at: spec_fn(Place) -> Seq<char>,
    mode: ImportMode,
    m: Option<Manifest>,
    e: Device,
    a: Artefact,
) -> bool {
    &&& must_bring(mode, m, a) ==> e.given.dom().contains(a)
    &&& e.given.dom().contains(a) ==> holds_given(e, at(Place::Installed(a)), a) && meets_manifest(
        m,
        a,
        e.given[a],
    )
}

/// Whether every file that the package brings is in its place.
pub open spec fn files_in_place(
    at: spec_fn(Place) -> Seq<char>,
    mode: ImportMode,
    m: Option<Manifest>,
    e: Device,
) -> bool {
    &&& file_in_place(at, mode, m, e, Artefact::Tags)
    &&& file_in_place(at, mode, m, e, Artefact::Crl)
    &&& file_in_place(at, mode, m, e, Artefact::P12)
}

/// What was written of a file, against the slot it is in.
pub open spec fn given_fits(m: Option<Manifest>, e: Device, a: Artefact, slot: Slot) -> bool {
    &&& e.given.dom().contains(a) <==> !(slot is Idle)
    &&& e.given.dom().contains(a) ==> meets_manifest(m, a, e.given[a])
}

/// What was written of the files, against their slots.
pub open spec fn all_given_fit(m: Option<Manifest>, e: Device, tx: FileTx) -> bool {
    &&& given_fits(m, e, Artefact::Tags, tx.tags)
    &&& given_fits(m, e, Artefact::Crl, tx.crl)
    &&& given_fits(m, e, Artefact::P12, tx.p12)
}

/// Whether no file is in its place for good yet.
pub open spec fn no_confirmed(tx: FileTx) -> bool {
    !(tx.tags is Confirmed) && !(tx.crl is Confirmed) && !(tx.p12 is Confirmed)
}

/// How many of the files are dealt with in a phase: none before the first is read.
pub open spec fn stage_of(phase: Phase) -> int {
    match phase {
        Phase::Read(a) => rank(a),
        Phase::Stage(a) => rank(a),
        Phase::Publish(_) => 3,
        Phase::SwapRoles => 3,
        Phase::DropBackup(_) => 3,
        _ => 0,
    }
}

/// The place of a file in the order.
pub open spec fn rank(a: Artefact) -> int {
    match a {
        Artefact::Tags => 0,
        Artefact::Crl => 1,
        Artefact::P12 => 2,
    }
}

/// Whether the files come in their order: what is to come is not written, and what the package
/// must bring of the rest is.
pub open spec fn in_order(mode: ImportMode, m: Option<Manifest>, f: Forward) -> bool {
    let n = stage_of(f.phase);
    &&& n <= 0 ==> f.tx.tags is Idle
    &&& n <= 1 ==> f.tx.crl is Idle
    &&& n <= 2 ==> f.tx.p12 is Idle
    &&& n > 0 && must_bring(mode, m, Artefact::Tags) ==> !(f.tx.tags is Idle)
    &&& n > 1 && must_bring(mode, m, Artefact::Crl) ==> !(f.tx.crl is Idle)
    &&& n > 2 ==> !(f.tx.p12 is Idle)
}

/// Whether a phase comes before the manifest is opened.
pub open spec fn before_opening(phase: Phase) -> bool {
    phase is MakeFloorDir || phase is ReadManifest || phase is OpenManifest
}

/// Whether a phase comes after the version was compared with the accepted one.
pub open spec fn past_rollback(phase: Phase) -> bool {
    phase is Read || phase is Stage || phase is Publish || phase is SwapRoles || phase is DropBackup
}

/// Whether a manifest was opened whose version is not the accepted one.
pub open spec fn is_newer_or_older(m: Option<Manifest>, d: Device) -> bool {
    m matches Some(m) && d.floor != Some(m.bundle_version)
}

/// What an import knows of the manifest and the accepted version.
pub open spec fn knows(mode: ImportMode, m: Option<Manifest>, d: Device, f: Forward) -> bool {
    match mode {
        ImportMode::Standalone => {
            &&& m is None
            &&& f.crl_pin is None
            &&& f.p12_pin is None
            &&& !before_opening(f.phase)
            &&& !(f.phase is ReadFloor)
        },
        ImportMode::Managed => {
            &&& !(f.phase is ReadCodes)
            &&& f.phase != Phase::Read(Artefact::Tags)
            &&& f.phase != Phase::Stage(Artefact::Tags)
            &&& before_opening(f.phase) ==> m is None && f.codes is None
            &&& before_opening(f.phase) || f.phase is ReadFloor ==> !f.stage_made
            &&& !before_opening(f.phase) ==> (m matches Some(m) && f.crl_pin == m.crl && f.p12_pin
                == m.p12_sha256 && f.codes == m.codes && f.version == m.bundle_version)
            &&& !before_opening(f.phase) && !(f.phase is ReadFloor) ==> f.floor == d.floor
                && d.floor != Some(f.version)
            &&& past_rollback(f.phase) ==> !(d.floor matches Some(prev) && f.version < prev)
        },
    }
}

/// What an import does in a phase.
pub open spec fn does(
    mode: ImportMode,
    m: Option<Manifest>,
    f: Forward,
    action: ImportAction,
) -> bool {
    match f.phase {
        Phase::MakeFloorDir => action is MakeFloorDir,
        Phase::ReadManifest => action is ReadPackageFile,
        Phase::OpenManifest => action is OpenManifest,
        Phase::ReadFloor => action is ReadFloor,
        Phase::ReadCodes => action is ReadCodesSection,
        Phase::MakeStage => action is MakeStage,
        Phase::ListPackage => action is ListPackage,
        Phase::CopySlices => action is CopySlices,
        Phase::Read(_) => action is ReadPackageFile,
        Phase::Stage(a) => action matches ImportAction::StageFile { artefact, bytes, .. } && artefact
            == a && meets_manifest(m, a, bytes@),
        Phase::Publish(step) => action == ImportAction::Publish(step) && f.tx.publish_step()
            == Some(step),
        Phase::SwapRoles => action == (ImportAction::SwapRoles { managed: mode is Managed })
            && f.tx.publish_step() is None,
        Phase::DropBackup(a) => action == ImportAction::DropBackup(a) && f.tx.publish_step()
            is None && f.tx.slot(a) == (Slot::Published { had_prior: true }),
    }
}

/// Whether a device is as it was, but for the places that an import writes to and the role base
/// that it puts together.
pub open spec fn nothing_else(at: spec_fn(Place) -> Seq<char>, d: Device, e: Device) -> bool {
    forall|path: Seq<char>| #![trigger same_at(d, e, path)]
        !is_place(at, path) ==> same_at(d, e, path)
}

/// Whether the files, the role base and the accepted version are what they were.
pub open spec fn restored(at: spec_fn(Place) -> Seq<char>, d: Device, e: Device) -> bool {
    &&& slots_hold(at, d, e, FileTx::idle())
    &&& nothing_else(at, d, e)
    &&& e.roles == d.roles
    &&& e.swaps == d.swaps
    &&& e.floor == d.floor
}

/// What holds at every step of an import: of the device `e`, where it was `d` to begin with, and
/// `m` is the manifest that was opened.
pub open spec fn sound(
    at: spec_fn(Place) -> Seq<char>,
    mode: ImportMode,
    m: Option<Manifest>,
    d: Device,
    state: RunState,
    action: ImportAction,
    e: Device,
) -> bool {
    &&& nothing_else(at, d, e)
    &&& mode is Standalone ==> e.floor == d.floor
    &&& match state {
        RunState::Forward(f) => {
            &&& slots_hold(at, d, e, f.tx)
            &&& all_given_fit(m, e, f.tx)
            &&& in_order(mode, m, f)
            &&& knows(mode, m, d, f)
            &&& does(mode, m, f, action)
            &&& !(f.phase is DropBackup) ==> e.roles == d.roles && e.floor == d.floor && e.swaps
                == d.swaps && no_confirmed(f.tx)
            &&& f.phase is DropBackup ==> e.swaps == d.swaps + 1 && (mode is Managed ==> e.floor
                == Some(f.version))
        },
        RunState::Undo(u) => {
            &&& slots_hold(at, d, e, u.tx)
            &&& no_confirmed(u.tx)
            &&& e.roles == d.roles
            &&& e.swaps == d.swaps
            &&& u.floor_due ==> mode is Managed && u.floor == d.floor
            &&& !u.floor_due ==> e.floor == d.floor
            &&& mode is Managed ==> is_newer_or_older(m, d)
            &&& match u.phase {
                UndoPhase::File(step) => action == ImportAction::Undo(step) && u.tx.undo_step()
                    == Some(step),
                UndoPhase::Floor => u.tx.undo_step() is None && u.floor_due && action
                    == ImportAction::RestoreFloor(u.floor),
                UndoPhase::Stage => u.tx.undo_step() is None && !u.floor_due && action
                    is RemoveStage,
            }
        },
        RunState::Finished => match action {
            ImportAction::Finish(Err(_)) => restored(at, d, e),
            ImportAction::Finish(Ok(done)) => {
                &&& done.0.mode == mode
                &&& mode is Managed ==> (m matches Some(m) && done.0.bundle_version
                    == m.bundle_version && done.1 == m.codes)
                &&& mode is Standalone ==> done.0.bundle_version == 0 && !done.0.no_op
                &&& done.0.baseline_established == (mode is Managed && !done.0.no_op && d.floor
                    is None)
                &&& done.0.no_op ==> d.floor == Some(done.0.bundle_version) && restored(at, d, e)
                &&& !done.0.no_op ==> files_in_place(at, mode, m, e) && e.swaps == d.swaps + 1
                &&& !done.0.no_op && mode is Managed ==> !(d.floor matches Some(prev)
                    && done.0.bundle_version <= prev) && e.floor == Some(done.0.bundle_version)
            },
            _ => false,
        },
    }
}

proof fn lemma_undo_seek(
    at: spec_fn(Place) -> Seq<char>,
    mode: ImportMode,
    m: Option<Manifest>,
    d: Device,
    e: Device,
    tx: FileTx,
    stage_made: bool,
    floor_due: bool,
    floor: Option<u64>,
    fault: ImportError,
)
    requires
        nothing_else(at, d, e),
        mode is Standalone ==> e.floor == d.floor,
        slots_hold(at, d, e, tx),
        no_confirmed(tx),
        e.roles == d.roles,
        e.swaps == d.swaps,
        floor_due ==> mode is Managed && floor == d.floor,
        !floor_due ==> e.floor == d.floor,
        mode is Managed ==> is_newer_or_older(m, d) || (tx == FileTx::idle() && !stage_made && !floor_due),
    ensures
        ({
            let (state, action) = undo_seek(tx, stage_made, floor_due, floor, fault);
            sound(at, mode, m, d, state, action, e)
        }),
{
    if tx.undo_step() is None {
        assert(tx == FileTx::idle());
    }
}

proof fn lemma_undo(
    at: spec_fn(Place) -> Seq<char>,
    mode: ImportMode,
    m: Option<Manifest>,
    d: Device,
    u: Undo,
    action: ImportAction,
    reply: ImportReply,
    before: Device,
    e: Device,
)
    requires
        apart(at),
        sound(at, mode, m, d, RunState::Undo(u), action, before),
        effect(at, m, action, reply, before, e),
    ensures
        ({
            let (state, action) = undo_next(u);
            sound(at, mode, m, d, state, action, e)
        }),
{
    assert forall|path: Seq<char>| #![trigger same_at(d, e, path)]
        !is_place(at, path) implies same_at(d, e, path) by {
        assert(same_at(d, before, path));
    }
    match u.phase {
        UndoPhase::File(step) => {
            let tx = u.tx.undone(step);
            assert(slots_hold(at, d, e, tx));
            assert(no_confirmed(tx));
            lemma_undo_seek(
                at,
                mode,
                m,
                d,
                e,
                tx,
                u.stage_made,
                u.floor_due,
                u.floor,
                u.fault,
            );
        },
        UndoPhase::Floor => {
            lemma_undo_seek(at, mode, m, d, e, u.tx, u.stage_made, false, u.floor, u.fault);
        },
        UndoPhase::Stage => {
            lemma_undo_seek(at, mode, m, d, e, u.tx, false, u.floor_due, u.floor, u.fault);
        },
    }
}

proof fn lemma_failed(
    at: spec_fn(Place) -> Seq<char>,
    mode: ImportMode,
    m: Option<Manifest>,
    d: Device,
    e: Device,
    f: Forward,
    fault: ImportError,
)
    requires
        nothing_else(at, d, e),
        slots_hold(at, d, e, f.tx),
        no_confirmed(f.tx),
        e.roles == d.roles,
        e.swaps == d.swaps,
        e.floor == d.floor,
        mode is Managed ==> is_newer_or_older(m, d) || (f.tx == FileTx::idle() && !f.stage_made),
    ensures
        ({
            let (state, action) = failed(f, fault);
            sound(at, mode, m, d, state, action, e)
        }),
{
    lemma_undo_seek(at, mode, m, d, e, f.tx, f.stage_made, false, f.floor, fault);
}

proof fn lemma_publishing(
    at: spec_fn(Place) -> Seq<char>,
    mode: ImportMode,
    m: Option<Manifest>,
    d: Device,
    e: Device,
    f: Forward,
)
    requires
        nothing_else(at, d, e),
        slots_hold(at, d, e, f.tx),
        all_given_fit(m, e, f.tx),
        no_confirmed(f.tx),
        e.roles == d.roles,
        e.swaps == d.swaps,
        e.floor == d.floor,
        in_order(mode, m, Forward { phase: Phase::SwapRoles, ..f }),
        knows(mode, m, d, Forward { phase: Phase::SwapRoles, ..f }),
    ensures
        ({
            let (state, action) = publishing(mode, f);
            sound(at, mode, m, d, state, action, e)
        }),
{
}

proof fn lemma_confirming(
    at: spec_fn(Place) -> Seq<char>,
    mode: ImportMode,
    m: Option<Manifest>,
    d: Device,
    e: Device,
    f: Forward,
)
    requires
        nothing_else(at, d, e),
        mode is Standalone ==> e.floor == d.floor,
        mode is Managed ==> e.floor == Some(f.version),
        e.swaps == d.swaps + 1,
        slots_hold(at, d, e, f.tx),
        all_given_fit(m, e, f.tx),
        f.tx.publish_step() is None,
        in_order(mode, m, Forward { phase: Phase::DropBackup(Artefact::P12), ..f }),
        knows(mode, m, d, Forward { phase: Phase::DropBackup(Artefact::P12), ..f }),
    ensures
        ({
            let (state, action) = confirming(mode, f);
            sound(at, mode, m, d, state, action, e)
        }),
{
}

proof fn lemma_reach_p12(
    at: spec_fn(Place) -> Seq<char>,
    mode: ImportMode,
    m: Option<Manifest>,
    d: Device,
    e: Device,
    f: Forward,
)
    requires
        nothing_else(at, d, e),
        slots_hold(at, d, e, f.tx),
        all_given_fit(m, e, f.tx),
        no_confirmed(f.tx),
        e.roles == d.roles,
        e.swaps == d.swaps,
        e.floor == d.floor,
        in_order(mode, m, Forward { phase: Phase::Read(Artefact::P12), ..f }),
        knows(mode, m, d, Forward { phase: Phase::Read(Artefact::P12), ..f }),
    ensures
        ({
            let (state, action) = reach_p12(f);
            sound(at, mode, m, d, state, action, e)
        }),
{
    lemma_failed(at, mode, m, d, e, f, ImportError::UnsafeName { name: f.p12_file });
}

proof fn lemma_reach_crl(
    at: spec_fn(Place) -> Seq<char>,
    m: Option<Manifest>,
    d: Device,
    e: Device,
    f: Forward,
)
    requires
        nothing_else(at, d, e),
        slots_hold(at, d, e, f.tx),
        all_given_fit(m, e, f.tx),
        no_confirmed(f.tx),
        e.roles == d.roles,
        e.swaps == d.swaps,
        e.floor == d.floor,
        in_order(ImportMode::Standalone, m, Forward { phase: Phase::Read(Artefact::Crl), ..f }),
        knows(ImportMode::Standalone, m, d, Forward { phase: Phase::Read(Artefact::Crl), ..f }),
    ensures
        ({
            let (state, action) = reach_crl(f);
            sound(at, ImportMode::Standalone, m, d, state, action, e)
        }),
{
    match f.crl_file {
        None => {
            lemma_reach_p12(at, ImportMode::Standalone, m, d, e, f);
        },
        Some(name) => {
            lemma_failed(
                at,
                ImportMode::Standalone,
                m,
                d,
                e,
                f,
                ImportError::UnsafeName { name },
            );
        },
    }
}

proof fn lemma_copied(
    at: spec_fn(Place) -> Seq<char>,
    mode: ImportMode,
    m: Option<Manifest>,
    d: Device,
    e: Device,
    f: Forward,
)
    requires
        nothing_else(at, d, e),
        slots_hold(at, d, e, f.tx),
        all_given_fit(m, e, f.tx),
        f.tx == FileTx::idle(),
        e.roles == d.roles,
        e.swaps == d.swaps,
        e.floor == d.floor,
        f.phase is CopySlices,
        knows(mode, m, d, f),
    ensures
        ({
            let (state, action) = copied(mode, f);
            sound(at, mode, m, d, state, action, e)
        }),
{
    if let Some(io) = f.stopped {
        lemma_failed(at, mode, m, d, e, f, io_error(io));
    } else if mode is Managed {
        if f.floor is Some && f.version < f.floor->Some_0 {
            lemma_failed(
                at,
                mode,
                m,
                d,
                e,
                f,
                ImportError::Manifest(
                    ManifestError::Rollback { found: f.version, persisted: f.floor->Some_0 },
                ),
            );
        } else if let Some(pin) = f.crl_pin {
            lemma_failed(at, mode, m, d, e, f, ImportError::UnsafeName { name: pin.file });
        } else {
            lemma_reach_p12(at, mode, m, d, e, f);
        }
    }
}

/// The manifest that was opened, after one more reply.
pub open spec fn opened_by(m: Option<Manifest>, reply: ImportReply) -> Option<Manifest> {
    match reply {
        ImportReply::Opened { parsed: Ok(p), signed: Ok(_) } => Some(p),
        _ => m,
    }
}

proof fn lemma_file_steps(
    at: spec_fn(Place) -> Seq<char>,
    mode: ImportMode,
    m: Option<Manifest>,
    d: Device,
    f: Forward,
    action: ImportAction,
    reply: ImportReply,
    before: Device,
    e: Device,
)
    requires
        apart(at),
        sound(at, mode, m, d, RunState::Forward(f), action, before),
        awaits(RunState::Forward(f), reply),
        f.phase is Stage || f.phase is Publish || f.phase is SwapRoles || f.phase is DropBackup,
        effect(at, m, action, reply, before, e),
        nothing_else(at, d, e),
    ensures
        ({
            let (state, action) = forward_next(mode, f, reply);
            sound(at, mode, m, d, state, action, e)
        }),
{
    match f.phase {
        Phase::Stage(a) => match reply->Staged_0 {
            Err(io) => {
                assert(slots_hold(at, d, e, f.tx));
                lemma_failed(at, mode, m, d, e, f, io_error(io));
            },
            Ok(had_prior) => {
                let g = Forward { tx: f.tx.with(a, Slot::Staged { had_prior }), ..f };
                assert(slots_hold(at, d, e, g.tx));
                assert(all_given_fit(m, e, g.tx));
                match a {
                    Artefact::Tags => {
                        lemma_reach_crl(at, m, d, e, g);
                    },
                    Artefact::Crl => {
                        lemma_reach_p12(at, mode, m, d, e, g);
                    },
                    Artefact::P12 => {
                        lemma_publishing(at, mode, m, d, e, g);
                    },
                }
            },
        },
        Phase::Publish(step) => match reply->Moved_0 {
            Err(io) => {
                lemma_failed(at, mode, m, d, e, f, io_error(io));
            },
            Ok(_) => {
                let g = Forward { tx: f.tx.published(step), ..f };
                assert(slots_hold(at, d, e, g.tx));
                assert(all_given_fit(m, e, g.tx));
                lemma_publishing(at, mode, m, d, e, g);
            },
        },
        Phase::SwapRoles => match reply->Swapped_0 {
            Err(fault) => {
                assert(slots_hold(at, d, e, f.tx));
                lemma_undo_seek(
                    at,
                    mode,
                    m,
                    d,
                    e,
                    f.tx,
                    f.stage_made,
                    mode is Managed,
                    f.floor,
                    ImportError::RoleStore(fault),
                );
            },
            Ok(_) => {
                assert(slots_hold(at, d, e, f.tx));
                lemma_confirming(at, mode, m, d, e, f);
            },
        },
        Phase::DropBackup(a) => {
            let g = Forward { tx: f.tx.with(a, Slot::Confirmed), ..f };
            assert(slots_hold(at, d, e, g.tx));
            assert(all_given_fit(m, e, g.tx));
            lemma_confirming(at, mode, m, d, e, g);
        },
        _ => {},
    }
}

proof fn lemma_forward(
    at: spec_fn(Place) -> Seq<char>,
    mode: ImportMode,
    m: Option<Manifest>,
    d: Device,
    f: Forward,
    action: ImportAction,
    reply: ImportReply,
    before: Device,
    e: Device,
    next: RunState,
    then_do: ImportAction,
)
    requires
        apart(at),
        sound(at, mode, m, d, RunState::Forward(f), action, before),
        awaits(RunState::Forward(f), reply),
        follows(mode, RunState::Forward(f), reply, next, then_do),
        effect(at, m, action, reply, before, e),
    ensures
        sound(at, mode, opened_by(m, reply), d, next, then_do, e),
{
    assert forall|path: Seq<char>| #![trigger same_at(d, e, path)]
        !is_place(at, path) implies same_at(d, e, path) by {
        assert(same_at(d, before, path));
    }
    if f.phase is Stage || f.phase is Publish || f.phase is SwapRoles || f.phase is DropBackup {
        lemma_file_steps(at, mode, m, d, f, action, reply, before, e);
    } else {
        assert(slots_hold(at, d, e, f.tx));
        assert(all_given_fit(m, e, f.tx));
        match f.phase {
            Phase::MakeFloorDir => {
                if let Err(io) = reply->Made_0 {
                    lemma_failed(at, mode, m, d, e, f, io_error(io));
                }
            },
            Phase::ReadManifest => {
                if let Err(fault) = bytes_of(reply->Read_0, "manifest", MAX_MANIFEST_BYTES) {
                    lemma_failed(at, mode, m, d, e, f, fault);
                }
            },
            Phase::OpenManifest => {
                if let Err(fault) = reply->parsed {
                    lemma_failed(at, mode, m, d, e, f, ImportError::Manifest(fault));
                } else if let Err(fault) = reply->signed {
                    lemma_failed(at, mode, m, d, e, f, ImportError::Manifest(fault));
                }
            },
            Phase::ReadFloor => {
                if let Err(fault) = reply->Floor_0 {
                    lemma_failed(at, mode, m, d, e, f, ImportError::Manifest(fault));
                }
            },
            Phase::ReadCodes => {
                if let Err(fault) = reply->Codes_0 {
                    lemma_failed(at, mode, m, d, e, f, fault);
                }
            },
            Phase::MakeStage => {
                if let Err(io) = reply->Made_0 {
                    lemma_failed(at, mode, m, d, e, f, io_error(io));
                }
            },
            Phase::ListPackage => {
                if let Err(io) = reply->Listed_0 {
                    lemma_failed(at, mode, m, d, e, f, io_error(io));
                }
            },
            Phase::CopySlices => {
                match reply->Copied_0 {
                    Err(fault) => {
                        lemma_failed(at, mode, m, d, e, f, copy_error(fault));
                    },
                    Ok(_) => {
                        lemma_copied(at, mode, m, d, e, f);
                    },
                }
            },
            Phase::Read(a) => {
                if let Err(fault) = artefact_bytes(f, a, reply->Read_0) {
                    lemma_failed(at, mode, m, d, e, f, fault);
                }
            },
            _ => {},
        }
    }
}

/// Every step of every import is sound.
proof fn lemma_history(
    at: spec_fn(Place) -> Seq<char>,
    package: EnrollmentPackage,
    has_key: bool,
    tags_cap: usize,
    d: Device,
    steps: Seq<Step>,
)
    requires
        apart(at),
        d.given == Map::<Artefact, Seq<u8>>::empty(),
        is_history(at, package.mode, begun(package, has_key, tags_cap), d, steps),
    ensures
        sound(
            at,
            package.mode,
            opened(steps),
            d,
            now(begun(package, has_key, tags_cap), steps).0,
            now(begun(package, has_key, tags_cap), steps).1,
            device_now(d, steps),
        ),
    decreases steps.len(),
{
    let start = begun(package, has_key, tags_cap);
    if steps.len() > 0 {
        let before = steps.drop_last();
        let step = steps.last();
        lemma_history(at, package, has_key, tags_cap, d, before);
        let (state, action) = now(start, before);
        let m = opened(before);
        match state {
            RunState::Forward(f) => {
                lemma_forward(
                    at,
                    package.mode,
                    m,
                    d,
                    f,
                    action,
                    step.reply,
                    device_now(d, before),
                    step.device,
                    step.state,
                    step.action,
                );
            },
            RunState::Undo(u) => {
                lemma_undo(
                    at,
                    package.mode,
                    m,
                    d,
                    u,
                    action,
                    step.reply,
                    device_now(d, before),
                    step.device,
                );
            },
            RunState::Finished => {},
        }
        assert(opened(steps) == opened_by(m, step.reply));
    }
}

/// An import that fails leaves the device as it was: every file but the backups, the role base and
/// the accepted version; and no file under a temporary name that was not there before.
pub proof fn failed_import_restores_the_device(
    at: spec_fn(Place) -> Seq<char>,
    package: EnrollmentPackage,
    has_key: bool,
    tags_cap: usize,
    d: Device,
    steps: Seq<Step>,
)
    requires
        apart(at),
        d.given == Map::<Artefact, Seq<u8>>::empty(),
        is_history(at, package.mode, begun(package, has_key, tags_cap), d, steps),
        now(begun(package, has_key, tags_cap), steps).1 matches ImportAction::Finish(Err(_)),
    ensures
        ({
            let e = device_now(d, steps);
            &&& e.roles == d.roles
            &&& e.floor == d.floor
            &&& forall|a: Artefact| same_at(d, e, #[trigger] at(Place::Installed(a)))
            &&& forall|path: Seq<char>| #![trigger same_at(d, e, path)]
                !is_place(at, path) ==> same_at(d, e, path)
            &&& forall|a: Artefact|
                e.files.dom().contains(#[trigger] at(Place::Temp(a))) ==> d.files.dom().contains(
                    at(Place::Temp(a)),
                )
        }),
{
    lemma_history(at, package, has_key, tags_cap, d, steps);
    let e = device_now(d, steps);
    assert forall|a: Artefact| same_at(d, e, #[trigger] at(Place::Installed(a))) by {
        assert(slot_holds(at, d, e, a, Slot::Idle));
    }
    assert forall|a: Artefact|
        e.files.dom().contains(#[trigger] at(Place::Temp(a))) implies d.files.dom().contains(
        at(Place::Temp(a)),
    ) by {
        assert(slot_holds(at, d, e, a, Slot::Idle));
    }
}

/// At no point is the role base the new one, nor the accepted version another one, while a file of
/// the package is not in its place. The one exception is the undoing of a swap that failed after it
/// had advanced the version.
pub proof fn roles_and_version_follow_the_files(
    at: spec_fn(Place) -> Seq<char>,
    package: EnrollmentPackage,
    has_key: bool,
    tags_cap: usize,
    d: Device,
    steps: Seq<Step>,
)
    requires
        apart(at),
        d.given == Map::<Artefact, Seq<u8>>::empty(),
        is_history(at, package.mode, begun(package, has_key, tags_cap), d, steps),
    ensures
        ({
            let e = device_now(d, steps);
            let state = now(begun(package, has_key, tags_cap), steps).0;
            e.roles != d.roles || (e.floor != d.floor && !(state is Undo)) ==> files_in_place(
                at,
                package.mode,
                opened(steps),
                e,
            )
        }),
{
    lemma_history(at, package, has_key, tags_cap, d, steps);
}

/// An import that succeeds has put every file of the package in its place, those that the manifest
/// pins with the bytes it pins, and swapped the role base once; or it changed nothing, because the
/// version was the accepted one.
pub proof fn successful_import_is_complete(
    at: spec_fn(Place) -> Seq<char>,
    package: EnrollmentPackage,
    has_key: bool,
    tags_cap: usize,
    d: Device,
    steps: Seq<Step>,
)
    requires
        apart(at),
        d.given == Map::<Artefact, Seq<u8>>::empty(),
        is_history(at, package.mode, begun(package, has_key, tags_cap), d, steps),
        now(begun(package, has_key, tags_cap), steps).1 matches ImportAction::Finish(Ok(_)),
    ensures
        ({
            let e = device_now(d, steps);
            let done = now(begun(package, has_key, tags_cap), steps).1->Finish_0->Ok_0;
            if done.0.no_op {
                d.floor == Some(done.0.bundle_version) && restored(at, d, e)
            } else {
                files_in_place(at, package.mode, opened(steps), e) && e.swaps == d.swaps + 1
            }
        }),
{
    lemma_history(at, package, has_key, tags_cap, d, steps);
}

/// Nothing is written for a package with a manifest before the manifest was read and its signature
/// held.
pub proof fn nothing_is_written_before_the_signature_holds(
    at: spec_fn(Place) -> Seq<char>,
    package: EnrollmentPackage,
    has_key: bool,
    tags_cap: usize,
    d: Device,
    steps: Seq<Step>,
)
    requires
        apart(at),
        d.given == Map::<Artefact, Seq<u8>>::empty(),
        is_history(at, package.mode, begun(package, has_key, tags_cap), d, steps),
        package.mode is Managed,
        opened(steps) is None,
    ensures
        ({
            let e = device_now(d, steps);
            let action = now(begun(package, has_key, tags_cap), steps).1;
            &&& restored(at, d, e)
            &&& action is MakeFloorDir || action is ReadPackageFile || action is OpenManifest || (
            action matches ImportAction::Finish(r) && r is Err)
        }),
{
    lemma_history(at, package, has_key, tags_cap, d, steps);
    let state = now(begun(package, has_key, tags_cap), steps).0;
    if let RunState::Forward(f) = state {
        assert(f.tx == FileTx::idle());
    }
}

/// The Codes section and the version that come out of an import with a manifest are those of the
/// manifest whose signature held.
pub proof fn codes_come_from_the_signed_manifest(
    at: spec_fn(Place) -> Seq<char>,
    package: EnrollmentPackage,
    has_key: bool,
    tags_cap: usize,
    d: Device,
    steps: Seq<Step>,
)
    requires
        apart(at),
        d.given == Map::<Artefact, Seq<u8>>::empty(),
        is_history(at, package.mode, begun(package, has_key, tags_cap), d, steps),
        package.mode is Managed,
        now(begun(package, has_key, tags_cap), steps).1 matches ImportAction::Finish(Ok(_)),
    ensures
        ({
            let done = now(begun(package, has_key, tags_cap), steps).1->Finish_0->Ok_0;
            opened(steps) matches Some(m) && done.0.bundle_version == m.bundle_version && done.1
                == m.codes
        }),
{
    lemma_history(at, package, has_key, tags_cap, d, steps);
}

/// A package whose version is the accepted one changes nothing: it never gets as far as writing
/// anything, and its import succeeds unless the accepted version cannot be read.
pub proof fn accepted_version_is_not_written_again(
    at: spec_fn(Place) -> Seq<char>,
    package: EnrollmentPackage,
    has_key: bool,
    tags_cap: usize,
    d: Device,
    steps: Seq<Step>,
)
    requires
        apart(at),
        d.given == Map::<Artefact, Seq<u8>>::empty(),
        is_history(at, package.mode, begun(package, has_key, tags_cap), d, steps),
        package.mode is Managed,
        opened(steps) is Some,
        d.floor == Some(opened(steps)->Some_0.bundle_version),
    ensures
        ({
            let action = now(begun(package, has_key, tags_cap), steps).1;
            &&& restored(at, d, device_now(d, steps))
            &&& action is ReadFloor || action is Finish
            &&& action matches ImportAction::Finish(Ok(done)) ==> done.0.no_op
        }),
{
    lemma_history(at, package, has_key, tags_cap, d, steps);
    let state = now(begun(package, has_key, tags_cap), steps).0;
    if let RunState::Forward(f) = state {
        assert(f.tx == FileTx::idle());
    }
}

/// A package whose version is smaller than the accepted one never gets as far as writing a file.
pub proof fn smaller_version_is_never_written(
    at: spec_fn(Place) -> Seq<char>,
    package: EnrollmentPackage,
    has_key: bool,
    tags_cap: usize,
    d: Device,
    steps: Seq<Step>,
)
    requires
        apart(at),
        d.given == Map::<Artefact, Seq<u8>>::empty(),
        is_history(at, package.mode, begun(package, has_key, tags_cap), d, steps),
        package.mode is Managed,
        opened(steps) is Some,
        d.floor is Some,
        opened(steps)->Some_0.bundle_version < d.floor->Some_0,
    ensures
        ({
            let action = now(begun(package, has_key, tags_cap), steps).1;
            &&& !(action is StageFile)
            &&& !(action is Publish)
            &&& !(action is SwapRoles)
            &&& !(action matches ImportAction::Finish(Ok(_)))
        }),
{
    lemma_history(at, package, has_key, tags_cap, d, steps);
}

/// An import of a package without a manifest leaves the accepted version alone, whether it
/// succeeds or fails, and reports none.
pub proof fn standalone_import_keeps_the_version(
    at: spec_fn(Place) -> Seq<char>,
    package: EnrollmentPackage,
    has_key: bool,
    tags_cap: usize,
    d: Device,
    steps: Seq<Step>,
)
    requires
        apart(at),
        d.given == Map::<Artefact, Seq<u8>>::empty(),
        is_history(at, package.mode, begun(package, has_key, tags_cap), d, steps),
        package.mode is Standalone,
    ensures
        device_now(d, steps).floor == d.floor,
        now(begun(package, has_key, tags_cap), steps).1 matches ImportAction::Finish(r) ==> (
        r matches Ok(done) ==> done.0.bundle_version == 0 && !done.0.baseline_established),
{
    lemma_history(at, package, has_key, tags_cap, d, steps);
}

/// An import with a manifest that succeeds leaves the manifest's version as the accepted one.
pub proof fn successful_import_accepts_the_version(
    at: spec_fn(Place) -> Seq<char>,
    package: EnrollmentPackage,
    has_key: bool,
    tags_cap: usize,
    d: Device,
    steps: Seq<Step>,
)
    requires
        apart(at),
        d.given == Map::<Artefact, Seq<u8>>::empty(),
        is_history(at, package.mode, begun(package, has_key, tags_cap), d, steps),
        package.mode is Managed,
        now(begun(package, has_key, tags_cap), steps).1 matches ImportAction::Finish(Ok(_)),
    ensures
        ({
            let done = now(begun(package, has_key, tags_cap), steps).1->Finish_0->Ok_0;
            device_now(d, steps).floor == Some(done.0.bundle_version)
        }),
{
    lemma_history(at, package, has_key, tags_cap, d, steps);
}

proof fn lemma_step_at(
    at: spec_fn(Place) -> Seq<char>,
    mode: ImportMode,
    start: (RunState, ImportAction),
    d: Device,
    steps: Seq<Step>,
    n: int,
)
    requires
        is_history(at, mode, start, d, steps),
        0 <= n < steps.len(),
    ensures
        awaits(now(start, steps.take(n)).0, steps[n].reply),
        follows(
            mode,
            now(start, steps.take(n)).0,
            steps[n].reply,
            steps[n].state,
            steps[n].action,
        ),
        effect(
            at,
            opened(steps.take(n)),
            now(start, steps.take(n)).1,
            steps[n].reply,
            device_now(d, steps.take(n)),
            steps[n].device,
        ),
        now(start, steps.take(n + 1)) == (steps[n].state, steps[n].action),
        device_now(d, steps.take(n + 1)) == steps[n].device,
        opened(steps.take(n + 1)) == opened_by(opened(steps.take(n)), steps[n].reply),
    decreases steps.len(),
{
    assert(steps.take(n + 1).drop_last() =~= steps.take(n));
    if n < steps.len() - 1 {
        lemma_step_at(at, mode, start, d, steps.drop_last(), n);
        assert(steps.drop_last().take(n) =~= steps.take(n));
    } else {
        assert(steps.drop_last() =~= steps.take(n));
        assert(steps.take(n + 1) =~= steps);
    }
}

/// Whether the manifest was opened, or never will be.
spec fn past_opening(state: RunState) -> bool {
    state matches RunState::Forward(f) ==> !before_opening(f.phase)
}

proof fn lemma_past_opening(
    mode: ImportMode,
    state: RunState,
    reply: ImportReply,
    next: RunState,
    action: ImportAction,
)
    requires
        past_opening(state),
        awaits(state, reply),
        follows(mode, state, reply, next, action),
    ensures
        past_opening(next),
        !(reply is Opened),
{
    if let RunState::Forward(f) = state {
        if !(f.phase is ListPackage && reply->Listed_0 is Ok) {
            assert((next, action) == forward_next(mode, f, reply));
            match f.phase {
                Phase::Stage(a) => {},
                Phase::Read(a) => {},
                _ => {},
            }
        }
    }
}

proof fn lemma_opened_once(
    at: spec_fn(Place) -> Seq<char>,
    mode: ImportMode,
    start: (RunState, ImportAction),
    d: Device,
    steps: Seq<Step>,
    n: int,
)
    requires
        is_history(at, mode, start, d, steps),
        0 <= n <= steps.len(),
        past_opening(now(start, steps.take(n)).0),
    ensures
        opened(steps) == opened(steps.take(n)),
        past_opening(now(start, steps).0),
    decreases steps.len(),
{
    if n == steps.len() {
        assert(steps.take(n) =~= steps);
    } else {
        assert(steps.drop_last().take(n) =~= steps.take(n));
        lemma_opened_once(at, mode, start, d, steps.drop_last(), n);
        let step = steps.last();
        lemma_past_opening(
            mode,
            now(start, steps.drop_last()).0,
            step.reply,
            step.state,
            step.action,
        );
    }
}

/// What an import with a manifest has done by the time it reads the accepted version, where it did
/// not fail before.
proof fn lemma_opening(
    at: spec_fn(Place) -> Seq<char>,
    package: EnrollmentPackage,
    has_key: bool,
    tags_cap: usize,
    d: Device,
    steps: Seq<Step>,
)
    requires
        is_history(at, package.mode, begun(package, has_key, tags_cap), d, steps),
        package.mode is Managed,
        now(begun(package, has_key, tags_cap), steps).1 matches ImportAction::Finish(Ok(_)),
    ensures
        has_key,
        steps.len() > 3,
        steps[0].reply matches ImportReply::Made(Ok(_)),
        steps[1].reply is Read,
        bytes_of(steps[1].reply->Read_0, "manifest", MAX_MANIFEST_BYTES) is Ok,
        steps[2].reply matches ImportReply::Opened { parsed: Ok(m), signed: Ok(_) } && opened(steps)
            == Some(m),
{
    let mode = package.mode;
    let start = begun(package, has_key, tags_cap);
    assert(steps.take(0) =~= Seq::<Step>::empty());
    if steps.len() > 0 {
        lemma_step_at(at, mode, start, d, steps, 0);
        assert(steps.take(steps.len() as int) =~= steps);
        if steps.len() > 1 {
            lemma_step_at(at, mode, start, d, steps, 1);
            if steps.len() > 2 {
                lemma_step_at(at, mode, start, d, steps, 2);
                if steps.len() > 3 {
                    lemma_step_at(at, mode, start, d, steps, 3);
                    lemma_opened_once(at, mode, start, d, steps, 3);
                }
            }
        }
    }
}

/// Whether a second import reads the same of the package as the first did: the directory of the
/// accepted version can be made, and the manifest holds the same bytes, which say the same.
pub open spec fn package_reads_alike(first: Seq<Step>, second: Seq<Step>) -> bool {
    forall|n: int|
        0 <= n < 3 && n < first.len() && n < second.len() ==> (#[trigger] first[n]).reply
            == second[n].reply
}

/// Whether the accepted version could be read, where it was read.
pub open spec fn floor_is_readable(steps: Seq<Step>) -> bool {
    forall|n: int|
        0 <= n < steps.len() ==> ((#[trigger] steps[n]).reply matches ImportReply::Floor(r)
            ==> r is Ok)
}

/// A package that was imported with success, and is imported again while neither the package nor
/// the device has changed, is accepted with the same version and changes nothing at all.
pub proof fn second_import_changes_nothing(
    at: spec_fn(Place) -> Seq<char>,
    package: EnrollmentPackage,
    has_key: bool,
    tags_cap: usize,
    d: Device,
    first: Seq<Step>,
    second: Seq<Step>,
)
    requires
        apart(at),
        d.given == Map::<Artefact, Seq<u8>>::empty(),
        package.mode is Managed,
        is_history(at, package.mode, begun(package, has_key, tags_cap), d, first),
        now(begun(package, has_key, tags_cap), first).1 matches ImportAction::Finish(Ok(_)),
        is_history(
            at,
            package.mode,
            begun(package, has_key, tags_cap),
            Device { given: d.given, ..device_now(d, first) },
            second,
        ),
        now(begun(package, has_key, tags_cap), second).1 is Finish,
        package_reads_alike(first, second),
        floor_is_readable(second),
    ensures
        ({
            let before = Device { given: d.given, ..device_now(d, first) };
            let done = now(begun(package, has_key, tags_cap), first).1->Finish_0->Ok_0;
            &&& now(begun(package, has_key, tags_cap), second).1 matches ImportAction::Finish(
                Ok(again),
            ) && again.0.no_op && again.0.bundle_version == done.0.bundle_version
                && !again.0.baseline_established && again.1 == done.1
            &&& device_now(before, second) == before
        }),
{
    let mode = package.mode;
    let start = begun(package, has_key, tags_cap);
    let before = Device { given: d.given, ..device_now(d, first) };
    successful_import_accepts_the_version(at, package, has_key, tags_cap, d, first);
    codes_come_from_the_signed_manifest(at, package, has_key, tags_cap, d, first);
    lemma_opening(at, package, has_key, tags_cap, d, first);
    assert(second.take(0) =~= Seq::<Step>::empty());
    assert(second.take(second.len() as int) =~= second);
    assert(second.len() > 0);
    lemma_step_at(at, mode, start, before, second, 0);
    assert(first[0].reply == second[0].reply);
    assert(second.len() > 1);
    lemma_step_at(at, mode, start, before, second, 1);
    assert(first[1].reply == second[1].reply);
    assert(second.len() > 2);
    lemma_step_at(at, mode, start, before, second, 2);
    assert(first[2].reply == second[2].reply);
    assert(second.len() > 3);
    lemma_step_at(at, mode, start, before, second, 3);
    assert(second[3].state is Finished);
    if second.len() > 4 {
        lemma_step_at(at, mode, start, before, second, 4);
    }
}

} // verus!
