//! Putting several files in place as one.
//!
//! A file is first written beside its place, under a temporary name. Publishing moves what was in
//! its place aside and the new file in. Until the backups are dropped everything can be put back.

use crate::text::{cat2, cat3, cat5, dec, decimal};
use vstd::prelude::*;
use vstd::string::*;

verus! {

/// A file that an import puts on the device, in the order in which they are published.
#[derive(Debug, Clone, Copy, PartialEq, Eq, Structural)]
pub enum Artefact {
    /// The device tags.
    Tags,
    /// The revocation list.
    Crl,
    /// The per-host container.
    P12,
}

/// How far a file has come.
#[derive(Debug, Clone, Copy, PartialEq, Eq, Structural)]
pub enum Slot {
    /// Nothing was written.
    Idle,
    /// Written under its temporary name.
    Staged {
        /// Whether its place was taken.
        had_prior: bool,
    },
    /// Written under its temporary name, and what was in its place moved aside.
    Aside,
    /// In its place.
    Published {
        /// Whether a backup is kept.
        had_prior: bool,
    },
    /// In its place for good.
    Confirmed,
}

/// What a slot is looked for by.
#[derive(Debug, Clone, Copy, PartialEq, Eq, Structural)]
pub enum SlotKind {
    /// Written and not in place.
    Unpublished,
    /// Nothing is in the file's place.
    Aside,
    /// In place, and can be undone.
    Published,
    /// Written, and its place untouched.
    Staged,
    /// In place, with a backup.
    BackedUp,
}

impl SlotKind {
    /// Whether a slot is of this kind.
    pub open spec fn fits(self, slot: Slot) -> bool {
        match self {
            SlotKind::Unpublished => slot is Staged || slot is Aside,
            SlotKind::Aside => slot is Aside,
            SlotKind::Published => slot is Published,
            SlotKind::Staged => slot is Staged,
            SlotKind::BackedUp => slot == (Slot::Published { had_prior: true }),
        }
    }

    fn matches_slot(self, slot: Slot) -> (r: bool)
        ensures
            r == self.fits(slot),
    {
        match self {
            SlotKind::Unpublished => matches!(slot, Slot::Staged { .. } | Slot::Aside),
            SlotKind::Aside => matches!(slot, Slot::Aside),
            SlotKind::Published => matches!(slot, Slot::Published { .. }),
            SlotKind::Staged => matches!(slot, Slot::Staged { .. }),
            SlotKind::BackedUp => slot == Slot::Published { had_prior: true },
        }
    }
}

/// The files of one import.
#[derive(Debug, Clone, Copy, PartialEq, Eq, Structural)]
pub struct FileTx {
    /// The device tags.
    pub tags: Slot,
    /// The revocation list.
    pub crl: Slot,
    /// The per-host container.
    pub p12: Slot,
}

/// What publishing does next.
#[derive(Debug, Clone, Copy, PartialEq, Eq, Structural)]
pub enum PublishStep {
    /// Move what is in the file's place aside.
    MoveAside(Artefact),
    /// Move the new file into its place.
    MoveIn(Artefact),
}

/// What undoing does next.
#[derive(Debug, Clone, Copy, PartialEq, Eq, Structural)]
pub enum UndoStep {
    /// Move the backup back into its place.
    PutBack(Artefact),
    /// Remove the new file from its place, where there was none before.
    RemoveInstalled(Artefact),
    /// Remove the file under its temporary name.
    RemoveTemp(Artefact),
}

impl FileTx {
    /// The slot of a file.
    pub open spec fn slot(self, a: Artefact) -> Slot {
        match a {
            Artefact::Tags => self.tags,
            Artefact::Crl => self.crl,
            Artefact::P12 => self.p12,
        }
    }

    /// The files with one slot changed.
    pub open spec fn with(self, a: Artefact, slot: Slot) -> FileTx {
        match a {
            Artefact::Tags => FileTx { tags: slot, ..self },
            Artefact::Crl => FileTx { crl: slot, ..self },
            Artefact::P12 => FileTx { p12: slot, ..self },
        }
    }

    /// The first file whose slot is of a kind.
    pub open spec fn first(self, kind: SlotKind) -> Option<Artefact> {
        if kind.fits(self.tags) {
            Some(Artefact::Tags)
        } else if kind.fits(self.crl) {
            Some(Artefact::Crl)
        } else if kind.fits(self.p12) {
            Some(Artefact::P12)
        } else {
            None
        }
    }

    /// Nothing written.
    pub open spec fn idle() -> FileTx {
        FileTx { tags: Slot::Idle, crl: Slot::Idle, p12: Slot::Idle }
    }

    /// What publishing does next: file by file, and for each its backup first.
    pub open spec fn publish_step(self) -> Option<PublishStep> {
        match self.first(SlotKind::Unpublished) {
            None => None,
            Some(a) => if self.slot(a) == (Slot::Staged { had_prior: true }) {
                Some(PublishStep::MoveAside(a))
            } else {
                Some(PublishStep::MoveIn(a))
            },
        }
    }

    /// What undoing does next: the file whose place is empty first, then the files in place, then
    /// what is left under a temporary name.
    pub open spec fn undo_step(self) -> Option<UndoStep> {
        match self.first(SlotKind::Aside) {
            Some(a) => Some(UndoStep::PutBack(a)),
            None => match self.first(SlotKind::Published) {
                Some(a) => if self.slot(a) == (Slot::Published { had_prior: true }) {
                    Some(UndoStep::PutBack(a))
                } else {
                    Some(UndoStep::RemoveInstalled(a))
                },
                None => match self.first(SlotKind::Staged) {
                    Some(a) => Some(UndoStep::RemoveTemp(a)),
                    None => None,
                },
            },
        }
    }

    /// The files after a step of publishing that was done.
    pub open spec fn published(self, step: PublishStep) -> FileTx {
        match step {
            PublishStep::MoveAside(a) => self.with(a, Slot::Aside),
            PublishStep::MoveIn(a) => self.with(
                a,
                Slot::Published { had_prior: self.slot(a) is Aside },
            ),
        }
    }

    /// The files after a step of undoing.
    pub open spec fn undone(self, step: UndoStep) -> FileTx {
        match step {
            UndoStep::PutBack(a) => if self.slot(a) is Aside {
                self.with(a, Slot::Staged { had_prior: true })
            } else {
                self.with(a, Slot::Idle)
            },
            UndoStep::RemoveInstalled(a) => self.with(a, Slot::Idle),
            UndoStep::RemoveTemp(a) => self.with(a, Slot::Idle),
        }
    }

    /// No file yet.
    pub fn new() -> (r: FileTx)
        ensures
            r == FileTx::idle(),
    {
        FileTx { tags: Slot::Idle, crl: Slot::Idle, p12: Slot::Idle }
    }

    fn get(self, a: Artefact) -> (r: Slot)
        ensures
            r == self.slot(a),
    {
        match a {
            Artefact::Tags => self.tags,
            Artefact::Crl => self.crl,
            Artefact::P12 => self.p12,
        }
    }

    fn set(self, a: Artefact, slot: Slot) -> (r: FileTx)
        ensures
            r == self.with(a, slot),
    {
        match a {
            Artefact::Tags => FileTx { tags: slot, ..self },
            Artefact::Crl => FileTx { crl: slot, ..self },
            Artefact::P12 => FileTx { p12: slot, ..self },
        }
    }

    fn find(self, kind: SlotKind) -> (r: Option<Artefact>)
        ensures
            r == self.first(kind),
    {
        if kind.matches_slot(self.tags) {
            Some(Artefact::Tags)
        } else if kind.matches_slot(self.crl) {
            Some(Artefact::Crl)
        } else if kind.matches_slot(self.p12) {
            Some(Artefact::P12)
        } else {
            None
        }
    }

    /// The files with one written under its temporary name.
    pub fn stage(self, a: Artefact, had_prior: bool) -> (r: FileTx)
        ensures
            r == self.with(a, Slot::Staged { had_prior }),
    {
        self.set(a, Slot::Staged { had_prior })
    }

    /// What publishing does next; nothing where every file is in place.
    pub fn publish_one(self) -> (r: Option<PublishStep>)
        ensures
            r == self.publish_step(),
    {
        match self.find(SlotKind::Unpublished) {
            None => None,
            Some(a) => if self.get(a) == (Slot::Staged { had_prior: true }) {
                Some(PublishStep::MoveAside(a))
            } else {
                Some(PublishStep::MoveIn(a))
            },
        }
    }

    /// The files after a step of publishing that was done.
    pub fn after_publish(self, step: PublishStep) -> (r: FileTx)
        ensures
            r == self.published(step),
    {
        match step {
            PublishStep::MoveAside(a) => self.set(a, Slot::Aside),
            PublishStep::MoveIn(a) => {
                let had_prior = matches!(self.get(a), Slot::Aside);
                self.set(a, Slot::Published { had_prior })
            },
        }
    }

    /// What undoing does next; nothing where everything is as it was.
    pub fn rollback(self) -> (r: Option<UndoStep>)
        ensures
            r == self.undo_step(),
    {
        match self.find(SlotKind::Aside) {
            Some(a) => Some(UndoStep::PutBack(a)),
            None => match self.find(SlotKind::Published) {
                Some(a) => if self.get(a) == (Slot::Published { had_prior: true }) {
                    Some(UndoStep::PutBack(a))
                } else {
                    Some(UndoStep::RemoveInstalled(a))
                },
                None => match self.find(SlotKind::Staged) {
                    Some(a) => Some(UndoStep::RemoveTemp(a)),
                    None => None,
                },
            },
        }
    }

    /// The files after a step of undoing.
    pub fn after_rollback(self, step: UndoStep) -> (r: FileTx)
        ensures
            r == self.undone(step),
    {
        match step {
            UndoStep::PutBack(a) => if matches!(self.get(a), Slot::Aside) {
                self.set(a, Slot::Staged { had_prior: true })
            } else {
                self.set(a, Slot::Idle)
            },
            UndoStep::RemoveInstalled(a) => self.set(a, Slot::Idle),
            UndoStep::RemoveTemp(a) => self.set(a, Slot::Idle),
        }
    }

    /// The next backup to drop once nothing is left that could fail.
    pub fn confirm(self) -> (r: Option<Artefact>)
        ensures
            r == self.first(SlotKind::BackedUp),
    {
        self.find(SlotKind::BackedUp)
    }

    /// The files after a backup was dropped.
    pub fn after_confirm(self, a: Artefact) -> (r: FileTx)
        ensures
            r == self.with(a, Slot::Confirmed),
    {
        self.set(a, Slot::Confirmed)
    }

    /// How many files are written and not yet settled: the number in the next temporary name.
    pub open spec fn written(self) -> nat {
        (if self.tags is Idle { 0nat } else { 1 }) + (if self.crl is Idle { 0nat } else { 1 }) + (
        if self.p12 is Idle { 0nat } else { 1 })
    }

    /// How many files are written and not yet settled: the number in the next temporary name.
    pub fn pending(self) -> (r: u64)
        ensures
            r == self.written(),
    {
        let mut n: u64 = 0;
        if !matches!(self.tags, Slot::Idle) {
            n = n + 1;
        }
        if !matches!(self.crl, Slot::Idle) {
            n = n + 1;
        }
        if !matches!(self.p12, Slot::Idle) {
            n = n + 1;
        }
        n
    }
}

/// The temporary name of a file, in the directory of its place.
pub fn temp_name(file_name: &str, process: u32, pending: u64) -> (r: String)
    ensures
        r@ == "."@ + file_name@ + "."@ + dec(process as nat) + "."@ + dec(pending as nat) + ".tmp"@,
{
    let p = decimal(process as u64);
    let n = decimal(pending);
    let head = cat4_dots(file_name, p.as_str());
    cat3(head.as_str(), n.as_str(), ".tmp")
}

fn cat4_dots(file_name: &str, process: &str) -> (r: String)
    ensures
        r@ == "."@ + file_name@ + "."@ + process@ + "."@,
{
    cat5(".", file_name, ".", process, ".")
}

/// The name under which what was in a file's place is kept.
pub fn backup_name(file_name: &str) -> (r: String)
    ensures
        r@ == file_name@ + ".bak"@,
{
    cat2(file_name, ".bak")
}

/// The name of the directory in which the role base is put together, beside its place.
pub fn stage_name(dir_name: &str, process: u32) -> (r: String)
    ensures
        r@ == dir_name@ + ".staged."@ + dec(process as nat),
{
    let p = decimal(process as u64);
    cat3(dir_name, ".staged.", p.as_str())
}

/// Publishing ends with every file in place: each step brings it nearer.
pub open spec fn publish_work(tx: FileTx) -> nat {
    slot_work(tx.tags) + slot_work(tx.crl) + slot_work(tx.p12)
}

/// How many steps a slot still takes to be in place.
pub open spec fn slot_work(slot: Slot) -> nat {
    match slot {
        Slot::Staged { had_prior } => if had_prior { 2 } else { 1 },
        Slot::Aside => 1,
        _ => 0,
    }
}

/// How many steps undoing takes.
pub open spec fn undo_work(tx: FileTx) -> nat {
    slot_undo(tx.tags) + slot_undo(tx.crl) + slot_undo(tx.p12)
}

/// How many steps a slot takes to be undone.
pub open spec fn slot_undo(slot: Slot) -> nat {
    match slot {
        Slot::Aside => 2,
        Slot::Staged { .. } => 1,
        Slot::Published { .. } => 1,
        _ => 0,
    }
}

/// Each step of publishing brings its end nearer, and at its end no file waits.
pub proof fn publishing_ends(tx: FileTx)
    ensures
        tx.publish_step() matches Some(step) ==> publish_work(tx.published(step)) < publish_work(
            tx,
        ),
        tx.publish_step() is None ==> publish_work(tx) == 0,
{
}

/// Each step of undoing brings its end nearer, and at its end nothing is left to undo.
pub proof fn undoing_ends(tx: FileTx)
    ensures
        tx.undo_step() matches Some(step) ==> undo_work(tx.undone(step)) < undo_work(tx),
        tx.undo_step() is None ==> undo_work(tx) == 0,
{
}

/// Publishing takes the files in their order: what is in the way is moved aside, the new file is
/// moved in, and only then comes the next file.
pub proof fn publishing_moves_aside_before_it_moves_in(tx: FileTx, a: Artefact)
    ensures
        tx.publish_step() == Some(PublishStep::MoveAside(a)) ==> tx.slot(a) == (Slot::Staged {
            had_prior: true,
        }) && tx.published(PublishStep::MoveAside(a)).publish_step() == Some(
            PublishStep::MoveIn(a),
        ),
        tx.publish_step() == Some(PublishStep::MoveIn(a)) ==> tx.slot(a) == (Slot::Staged {
            had_prior: false,
        }) || tx.slot(a) is Aside,
        tx.publish_step() == Some(PublishStep::MoveIn(a)) ==> tx.published(
            PublishStep::MoveIn(a),
        ).slot(a) == (Slot::Published { had_prior: tx.slot(a) is Aside }),
        tx.tags is Staged || tx.tags is Aside ==> (tx.publish_step() == Some(
            PublishStep::MoveAside(Artefact::Tags),
        ) || tx.publish_step() == Some(PublishStep::MoveIn(Artefact::Tags))),
        !(tx.tags is Staged) && !(tx.tags is Aside) && (tx.crl is Staged || tx.crl is Aside) ==> (
        tx.publish_step() == Some(PublishStep::MoveAside(Artefact::Crl)) || tx.publish_step()
            == Some(PublishStep::MoveIn(Artefact::Crl))),
        tx.publish_step() is None <==> !(tx.tags is Staged) && !(tx.tags is Aside) && !(
        tx.crl is Staged) && !(tx.crl is Aside) && !(tx.p12 is Staged) && !(tx.p12 is Aside),
{
}

/// A step on one file leaves the others as they are.
pub proof fn steps_touch_one_file(tx: FileTx, a: Artefact, b: Artefact, slot: Slot)
    ensures
        tx.with(a, slot).slot(a) == slot,
        a != b ==> tx.with(a, slot).slot(b) == tx.slot(b),
        FileTx::idle().slot(a) == Slot::Idle,
{
}

/// Undoing goes by what was done to a file: one that was moved aside is put back, one that replaced
/// another gives it back, one that replaced none is removed, and one that was never moved in loses
/// its temporary copy. Where nothing is left to undo, no file is half done.
pub proof fn undoing_goes_by_what_was_done(tx: FileTx, a: Artefact)
    ensures
        tx.undo_step() == Some(UndoStep::PutBack(a)) ==> tx.slot(a) is Aside || tx.slot(a) == (
        Slot::Published { had_prior: true }),
        tx.undo_step() == Some(UndoStep::RemoveInstalled(a)) ==> tx.slot(a) == (Slot::Published {
            had_prior: false,
        }),
        tx.undo_step() == Some(UndoStep::RemoveTemp(a)) ==> tx.slot(a) is Staged,
        tx.slot(a) is Aside ==> tx.undone(UndoStep::PutBack(a)).slot(a) == (Slot::Staged {
            had_prior: true,
        }),
        tx.slot(a) is Published ==> tx.undone(UndoStep::PutBack(a)).slot(a) == Slot::Idle,
        tx.undone(UndoStep::RemoveInstalled(a)).slot(a) == Slot::Idle,
        tx.undone(UndoStep::RemoveTemp(a)).slot(a) == Slot::Idle,
        tx.undo_step() is None <==> !(tx.tags is Staged || tx.tags is Aside || tx.tags is Published)
            && !(tx.crl is Staged || tx.crl is Aside || tx.crl is Published) && !(tx.p12 is Staged
            || tx.p12 is Aside || tx.p12 is Published),
{
}

/// A backup is dropped only of a file that replaced another, and each of them has one dropped.
pub proof fn backups_are_dropped(tx: FileTx, a: Artefact)
    ensures
        tx.first(SlotKind::BackedUp) == Some(a) ==> tx.slot(a) == (Slot::Published {
            had_prior: true,
        }),
        tx.slot(a) == (Slot::Published { had_prior: true }) ==> tx.first(SlotKind::BackedUp)
            is Some,
        tx.first(SlotKind::BackedUp) == Some(a) ==> tx.with(a, Slot::Confirmed).first(
            SlotKind::BackedUp,
        ) != Some(a),
{
}

/// What has been written is counted file by file.
pub proof fn written_files_are_counted(tx: FileTx, a: Artefact, slot: Slot)
    ensures
        FileTx::idle().written() == 0,
        tx.slot(a) is Idle && !(slot is Idle) ==> tx.with(a, slot).written() == tx.written() + 1,
        !(tx.slot(a) is Idle) && slot is Idle ==> tx.with(a, slot).written() + 1 == tx.written(),
        tx.written() <= 3,
{
}

} // verus!
