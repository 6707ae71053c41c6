//! The Codes part of a package.
//!
//! A package may carry the device half of the code login method: the container of the device key,
//! the operator tickets, their revocations and the key they are verified against. A package
//! without that part is the ordinary one.
//!
//! Every file that the section names is read once, held against its pin, and only then is anything
//! applied. In a signed package a file without a pin is refused: it would be the one thing in the
//! package that nobody vouched for.

use crate::enrollment::import::{
    bare_name, io_error, is_bare_name, matches_pin, oversize, pin_holds, to_io_error, to_oversize,
    Applied, ArtefactError, FileRead, ImportError, ImportMode, IoFailure, ManifestCodes,
    ManifestCodesFile, MAX_MANIFEST_BYTES, STANDALONE_CODES_FILENAME,
};
use crate::text::cat3;
use vstd::pervasive::unreached;
use vstd::prelude::*;
use vstd::string::*;

verus! {

/// No container of a device key is larger.
pub const MAX_KEY_CONTAINER_BYTES: usize = 262144;

/// No Codes section is larger: it has the cap of the manifest that it is a part of elsewhere.
pub const MAX_SECTION_BYTES: usize = MAX_MANIFEST_BYTES;

/// What a read of `codes.toml` found.
#[derive(Debug)]
pub enum SectionRead {
    /// A section.
    Section(ManifestCodes),
    /// Bytes that are not text, and why.
    NotUtf8(String),
    /// Text that is not a section, and why.
    Invalid(String),
    /// A file that is larger than the cap.
    TooLarge,
    /// No file.
    Missing,
    /// A file that was not read.
    Failed(IoFailure),
}

/// What a read of `codes.toml` comes to: no file is a package without a Codes part.
pub open spec fn section_outcome(
    read: SectionRead,
    r: Result<Option<ManifestCodes>, ImportError>,
) -> bool {
    match read {
        SectionRead::Section(s) => r == Ok::<Option<ManifestCodes>, ImportError>(Some(s)),
        SectionRead::NotUtf8(why) => r matches Err(ImportError::CodesSection { reason }) && reason@
            == STANDALONE_CODES_FILENAME@ + " is not valid UTF-8: "@ + why@,
        SectionRead::Invalid(why) => r matches Err(ImportError::CodesSection { reason }) && reason@
            == STANDALONE_CODES_FILENAME@ + " is invalid: "@ + why@,
        SectionRead::TooLarge => r == Err::<Option<ManifestCodes>, ImportError>(
            oversize("codes section", MAX_SECTION_BYTES),
        ),
        SectionRead::Missing => r == Ok::<Option<ManifestCodes>, ImportError>(None),
        SectionRead::Failed(f) => r == Err::<Option<ManifestCodes>, ImportError>(io_error(f)),
    }
}

/// What a read of `codes.toml` comes to.
pub fn read_standalone_section(read: SectionRead) -> (r: Result<Option<ManifestCodes>, ImportError>)
    ensures
        section_outcome(read, r),
{
    match read {
        SectionRead::Section(s) => Ok(Some(s)),
        SectionRead::NotUtf8(why) => Err(
            ImportError::CodesSection {
                reason: cat3(STANDALONE_CODES_FILENAME, " is not valid UTF-8: ", why.as_str()),
            },
        ),
        SectionRead::Invalid(why) => Err(
            ImportError::CodesSection {
                reason: cat3(STANDALONE_CODES_FILENAME, " is invalid: ", why.as_str()),
            },
        ),
        SectionRead::TooLarge => Err(to_oversize("codes section", MAX_SECTION_BYTES)),
        SectionRead::Missing => Ok(None),
        SectionRead::Failed(f) => Err(to_io_error(f)),
    }
}

/// A file that a Codes section names.
#[derive(Debug, Clone, Copy, PartialEq, Eq, Structural)]
pub enum CodesFile {
    /// The container of the device key.
    KeyContainer,
    /// The operator tickets.
    Tickets,
    /// The revoked tickets.
    TicketRevocations,
    /// The key that tickets are verified against.
    TicketAuthority,
}

impl CodesFile {
    /// What the file is called in errors.
    pub open spec fn word(self) -> &'static str {
        match self {
            CodesFile::KeyContainer => "codes key container",
            CodesFile::Tickets => "codes ticket set",
            CodesFile::TicketRevocations => "codes ticket revocation list",
            CodesFile::TicketAuthority => "codes ticket authority anchor",
        }
    }

    /// The cap of the file, given that of documents.
    pub open spec fn cap_of(self, document_cap: usize) -> usize {
        match self {
            CodesFile::KeyContainer => MAX_KEY_CONTAINER_BYTES,
            _ => document_cap,
        }
    }

    /// What the file is called in errors.
    pub fn artefact(self) -> (r: &'static str)
        ensures
            r == self.word(),
    {
        match self {
            CodesFile::KeyContainer => "codes key container",
            CodesFile::Tickets => "codes ticket set",
            CodesFile::TicketRevocations => "codes ticket revocation list",
            CodesFile::TicketAuthority => "codes ticket authority anchor",
        }
    }

    /// The cap of the file, given that of documents.
    pub fn cap(self, document_cap: usize) -> (r: usize)
        ensures
            r == self.cap_of(document_cap),
    {
        match self {
            CodesFile::KeyContainer => MAX_KEY_CONTAINER_BYTES,
            _ => document_cap,
        }
    }
}

/// Whether a file may be read at all: its name is bare, and in a signed package it has a pin.
pub open spec fn may_read(mode: ImportMode, named: ManifestCodesFile) -> bool {
    is_bare_name(named.file@) && (mode is Managed ==> named.sha256 is Some)
}

/// Why a file may not be read.
pub open spec fn refusal(named: ManifestCodesFile) -> ImportError {
    if !is_bare_name(named.file@) {
        ImportError::UnsafeName { name: named.file }
    } else {
        ImportError::CodesUnpinned { file: named.file }
    }
}

/// Whether bytes are those that a file is pinned at, where it is pinned.
pub open spec fn meets_pin(named: ManifestCodesFile, bytes: Seq<u8>) -> bool {
    named.sha256 matches Some(pin) ==> pin_holds(bytes, pin@)
}

/// What a read of a named file comes to.
pub open spec fn named_bytes(
    named: ManifestCodesFile,
    artefact: &'static str,
    max: usize,
    read: FileRead,
) -> Result<Vec<u8>, ImportError> {
    match read {
        FileRead::Whole(bytes) => if meets_pin(named, bytes@) {
            Ok(bytes)
        } else {
            Err(ImportError::CodesHashMismatch { file: named.file })
        },
        FileRead::TooLarge => Err(oversize(artefact, max)),
        FileRead::Missing(_) => Err(ImportError::CodesMissing { file: named.file }),
        FileRead::Failed(f) => Err(io_error(f)),
    }
}

/// What a read of a named file comes to; the name comes back with the bytes.
pub fn read_named(
    named: ManifestCodesFile,
    artefact: &'static str,
    max: usize,
    read: FileRead,
) -> (r: Result<(ManifestCodesFile, Vec<u8>), ImportError>)
    ensures
        match named_bytes(named, artefact, max, read) {
            Ok(bytes) => r == Ok::<(ManifestCodesFile, Vec<u8>), ImportError>((named, bytes)),
            Err(e) => r == Err::<(ManifestCodesFile, Vec<u8>), ImportError>(e),
        },
{
    match read {
        FileRead::Whole(bytes) => {
            let good = match &named.sha256 {
                Some(pin) => matches_pin(&bytes, pin.as_str()),
                None => true,
            };
            if good {
                Ok((named, bytes))
            } else {
                Err(ImportError::CodesHashMismatch { file: named.file })
            }
        },
        FileRead::TooLarge => Err(to_oversize(artefact, max)),
        FileRead::Missing(_) => Err(ImportError::CodesMissing { file: named.file }),
        FileRead::Failed(f) => Err(to_io_error(f)),
    }
}

/// A device key as it is delivered.
#[derive(Debug)]
pub struct DeliveredKey {
    /// Its epoch.
    pub epoch: u64,
    /// Its container.
    pub container: Vec<u8>,
}

/// Everything a Codes part delivers.
#[derive(Debug)]
pub struct CodesDelivery {
    /// The device key.
    pub key: Option<DeliveredKey>,
    /// The operator tickets.
    pub tickets: Option<Vec<u8>>,
    /// The revoked tickets.
    pub revocations: Option<Vec<u8>>,
    /// The key that tickets are verified against.
    pub ticket_authority: Option<Vec<u8>>,
}

/// Where the application of a Codes part stands.
#[derive(Debug)]
pub enum CodesState {
    /// A file is being read.
    Reading {
        /// Which.
        which: CodesFile,
        /// Its name and pin.
        current: ManifestCodesFile,
        /// What is still to be read after it.
        rest: ManifestCodes,
        /// What was read before it.
        got: CodesDelivery,
        /// The name of the key container, once it was read.
        container: Option<String>,
    },
    /// The key that tickets are verified against is being looked at.
    Checking {
        /// What was read.
        got: CodesDelivery,
        /// The name of the key container.
        container: Option<String>,
    },
    /// The delivery is being applied.
    Applying {
        /// The name of the key container.
        container: Option<String>,
    },
    /// The key container is being removed from the package.
    Removing {
        /// What the application did.
        applied: Applied,
    },
    /// There is nothing left to do.
    Finished,
}

/// The application of a Codes part.
#[derive(Debug)]
pub struct CodesRun {
    /// How the package is trusted.
    pub mode: ImportMode,
    /// The cap of documents.
    pub document_cap: usize,
    /// Where it stands.
    pub state: CodesState,
}

/// What is to be done next for a Codes part.
#[derive(Debug)]
pub enum CodesAction {
    /// Read the file of the package that the run names.
    ReadFile,
    /// Look whether the ticket authority that was read is a public key.
    CheckAuthority,
    /// Apply the delivery.
    Apply(CodesDelivery),
    /// Remove the delivered container of the device key from the package.
    RemoveContainer(String),
    /// Nothing: this is what came of it.
    Finish(Result<Option<Applied>, ImportError>),
}

/// What came of an action.
#[derive(Debug)]
pub enum CodesReply {
    /// What the read found.
    Read(FileRead),
    /// Whether the authority is a public key, or why not.
    Authority(Result<(), String>),
    /// What the application did, or why it did nothing.
    Applied(Result<Applied, ArtefactError>),
    /// The container was removed, or could not be: a medium that cannot be written is no reason
    /// to fail an import that is done.
    Removed,
}

/// Nothing read.
pub open spec fn nothing_read() -> CodesDelivery {
    CodesDelivery { key: None, tickets: None, revocations: None, ticket_authority: None }
}

/// The end of a run.
pub open spec fn codes_end(r: Result<Option<Applied>, ImportError>) -> (CodesState, CodesAction) {
    (CodesState::Finished, CodesAction::Finish(r))
}

/// What follows when a named file is reached.
pub open spec fn reach_file(
    mode: ImportMode,
    which: CodesFile,
    current: ManifestCodesFile,
    rest: ManifestCodes,
    got: CodesDelivery,
    container: Option<String>,
) -> (CodesState, CodesAction) {
    if may_read(mode, current) {
        (CodesState::Reading { which, current, rest, got, container }, CodesAction::ReadFile)
    } else {
        codes_end(Err(refusal(current)))
    }
}

/// What follows when some files are still to be read: the first of them, and after the last the
/// look at the authority.
pub open spec fn seek_file(
    mode: ImportMode,
    rest: ManifestCodes,
    got: CodesDelivery,
    container: Option<String>,
) -> (CodesState, CodesAction) {
    if rest.key_container is Some {
        reach_file(
            mode,
            CodesFile::KeyContainer,
            rest.key_container->Some_0,
            ManifestCodes { key_container: None, ..rest },
            got,
            container,
        )
    } else if rest.tickets is Some {
        reach_file(
            mode,
            CodesFile::Tickets,
            rest.tickets->Some_0,
            ManifestCodes { tickets: None, ..rest },
            got,
            container,
        )
    } else if rest.ticket_revocations is Some {
        reach_file(
            mode,
            CodesFile::TicketRevocations,
            rest.ticket_revocations->Some_0,
            ManifestCodes { ticket_revocations: None, ..rest },
            got,
            container,
        )
    } else if rest.ticket_authority is Some {
        reach_file(
            mode,
            CodesFile::TicketAuthority,
            rest.ticket_authority->Some_0,
            ManifestCodes { ticket_authority: None, ..rest },
            got,
            container,
        )
    } else if got.ticket_authority is Some {
        (CodesState::Checking { got, container }, CodesAction::CheckAuthority)
    } else {
        (CodesState::Applying { container }, CodesAction::Apply(got))
    }
}

/// What was read, with one more file.
pub open spec fn with_file(
    got: CodesDelivery,
    which: CodesFile,
    epoch: u64,
    bytes: Vec<u8>,
) -> CodesDelivery {
    match which {
        CodesFile::KeyContainer => CodesDelivery {
            key: Some(DeliveredKey { epoch, container: bytes }),
            ..got
        },
        CodesFile::Tickets => CodesDelivery { tickets: Some(bytes), ..got },
        CodesFile::TicketRevocations => CodesDelivery { revocations: Some(bytes), ..got },
        CodesFile::TicketAuthority => CodesDelivery { ticket_authority: Some(bytes), ..got },
    }
}

/// Whether a reply answers what a run waits for.
pub open spec fn codes_awaits(state: CodesState, reply: CodesReply) -> bool {
    match state {
        CodesState::Reading { .. } => reply is Read,
        CodesState::Checking { .. } => reply is Authority,
        CodesState::Applying { .. } => reply is Applied,
        CodesState::Removing { .. } => reply is Removed,
        CodesState::Finished => false,
    }
}

/// What follows a reply.
pub open spec fn codes_next(run: CodesRun, reply: CodesReply) -> (CodesState, CodesAction) {
    match run.state {
        CodesState::Reading { which, current, rest, got, container } => match named_bytes(
            current,
            which.word(),
            which.cap_of(run.document_cap),
            reply->Read_0,
        ) {
            Err(e) => codes_end(Err(e)),
            Ok(bytes) => seek_file(
                run.mode,
                rest,
                with_file(got, which, rest.epoch, bytes),
                if which is KeyContainer {
                    Some(current.file)
                } else {
                    container
                },
            ),
        },
        CodesState::Checking { got, container } => match reply->Authority_0 {
            Err(reason) => codes_end(Err(ImportError::CodesSection { reason })),
            Ok(_) => (CodesState::Applying { container }, CodesAction::Apply(got)),
        },
        CodesState::Applying { container } => match reply->Applied_0 {
            Err(e) => codes_end(Err(ImportError::Codes(e))),
            Ok(applied) => match container {
                Some(name) => (
                    CodesState::Removing { applied },
                    CodesAction::RemoveContainer(name),
                ),
                None => codes_end(Ok(Some(applied))),
            },
        },
        CodesState::Removing { applied } => codes_end(Ok(Some(applied))),
        CodesState::Finished => codes_end(Ok(None)),
    }
}

/// How the application of a Codes part begins. A part that was not asked for, or is not there, is
/// left alone; a container without a PIN for it is refused before anything is read.
pub open spec fn codes_begin(
    wanted: bool,
    has_pin: bool,
    mode: ImportMode,
    section: Option<ManifestCodes>,
) -> (CodesState, CodesAction) {
    if !wanted || section is None {
        codes_end(Ok(None))
    } else if section->Some_0.key_container is Some && !has_pin {
        codes_end(Err(ImportError::CodesPinRequired))
    } else {
        seek_file(mode, section->Some_0, nothing_read(), None)
    }
}

fn ended(r: Result<Option<Applied>, ImportError>) -> (s: (CodesState, CodesAction))
    ensures
        s == codes_end(r),
{
    (CodesState::Finished, CodesAction::Finish(r))
}

fn arrive(
    mode: ImportMode,
    which: CodesFile,
    current: ManifestCodesFile,
    rest: ManifestCodes,
    got: CodesDelivery,
    container: Option<String>,
) -> (r: (CodesState, CodesAction))
    ensures
        r == reach_file(mode, which, current, rest, got, container),
{
    if !bare_name(current.file.as_str()) {
        return ended(Err(ImportError::UnsafeName { name: current.file }));
    }
    if matches!(mode, ImportMode::Managed) && current.sha256.is_none() {
        return ended(Err(ImportError::CodesUnpinned { file: current.file }));
    }
    (CodesState::Reading { which, current, rest, got, container }, CodesAction::ReadFile)
}

/// What follows when some files are still to be read.
pub fn read_delivery(
    mode: ImportMode,
    rest: ManifestCodes,
    got: CodesDelivery,
    container: Option<String>,
) -> (r: (CodesState, CodesAction))
    ensures
        r == seek_file(mode, rest, got, container),
{
    let ManifestCodes { epoch, key_container, tickets, ticket_revocations, ticket_authority } =
        rest;
    if let Some(named) = key_container {
        return arrive(
            mode,
            CodesFile::KeyContainer,
            named,
            ManifestCodes {
                epoch,
                key_container: None,
                tickets,
                ticket_revocations,
                ticket_authority,
            },
            got,
            container,
        );
    }
    if let Some(named) = tickets {
        return arrive(
            mode,
            CodesFile::Tickets,
            named,
            ManifestCodes {
                epoch,
                key_container: None,
                tickets: None,
                ticket_revocations,
                ticket_authority,
            },
            got,
            container,
        );
    }
    if let Some(named) = ticket_revocations {
        return arrive(
            mode,
            CodesFile::TicketRevocations,
            named,
            ManifestCodes {
                epoch,
                key_container: None,
                tickets: None,
                ticket_revocations: None,
                ticket_authority,
            },
            got,
            container,
        );
    }
    if let Some(named) = ticket_authority {
        return arrive(
            mode,
            CodesFile::TicketAuthority,
            named,
            ManifestCodes {
                epoch,
                key_container: None,
                tickets: None,
                ticket_revocations: None,
                ticket_authority: None,
            },
            got,
            container,
        );
    }
    if got.ticket_authority.is_some() {
        (CodesState::Checking { got, container }, CodesAction::CheckAuthority)
    } else {
        (CodesState::Applying { container }, CodesAction::Apply(got))
    }
}

impl CodesRun {
    /// Begins to apply the Codes part that an import carried out of the package it verified.
    pub fn apply_codes(
        wanted: bool,
        has_pin: bool,
        mode: ImportMode,
        section: Option<ManifestCodes>,
        document_cap: usize,
    ) -> (r: (CodesRun, CodesAction))
        ensures
            (r.0.state, r.1) == codes_begin(wanted, has_pin, mode, section),
            r.0.mode == mode,
            r.0.document_cap == document_cap,
    {
        let (state, action) = match section {
            None => ended(Ok(None)),
            Some(s) => if !wanted {
                ended(Ok(None))
            } else if s.key_container.is_some() && !has_pin {
                ended(Err(ImportError::CodesPinRequired))
            } else {
                read_delivery(
                    mode,
                    s,
                    CodesDelivery {
                        key: None,
                        tickets: None,
                        revocations: None,
                        ticket_authority: None,
                    },
                    None,
                )
            },
        };
        (CodesRun { mode, document_cap, state }, action)
    }

    /// The name of the file to be read, and its cap.
    pub fn file_to_read(&self) -> (r: Option<(&str, usize)>)
        ensures
            match self.state {
                CodesState::Reading { which, current, .. } => r matches Some(p) && p.0@
                    == current.file@ && p.1 == which.cap_of(self.document_cap),
                _ => r is None,
            },
    {
        match &self.state {
            CodesState::Reading { which, current, .. } => Some(
                (current.file.as_str(), which.cap(self.document_cap)),
            ),
            _ => None,
        }
    }

    /// The authority to be looked at.
    pub fn authority_to_check(&self) -> (r: Option<&Vec<u8>>)
        ensures
            match self.state {
                CodesState::Checking { got, .. } => match got.ticket_authority {
                    Some(bytes) => r == Some(&bytes),
                    None => r is None,
                },
                _ => r is None,
            },
    {
        match &self.state {
            CodesState::Checking { got, .. } => got.ticket_authority.as_ref(),
            _ => None,
        }
    }

    /// Whether a reply answers what the run waits for.
    pub fn awaits(&self, reply: &CodesReply) -> (r: bool)
        ensures
            r == codes_awaits(self.state, *reply),
    {
        match &self.state {
            CodesState::Reading { .. } => matches!(reply, CodesReply::Read(_)),
            CodesState::Checking { .. } => matches!(reply, CodesReply::Authority(_)),
            CodesState::Applying { .. } => matches!(reply, CodesReply::Applied(_)),
            CodesState::Removing { .. } => matches!(reply, CodesReply::Removed),
            CodesState::Finished => false,
        }
    }

    /// Goes on with what came of the last action.
    pub fn step(self, reply: CodesReply) -> (r: (CodesRun, CodesAction))
        requires
            codes_awaits(self.state, reply),
        ensures
            (r.0.state, r.1) == codes_next(self, reply),
            r.0.mode == self.mode,
            r.0.document_cap == self.document_cap,
    {
        let CodesRun { mode, document_cap, state } = self;
        let (state, action) = match (state, reply) {
            (
                CodesState::Reading { which, current, rest, got, container },
                CodesReply::Read(read),
            ) => match read_named(current, which.artefact(), which.cap(document_cap), read) {
                Err(e) => ended(Err(e)),
                Ok((named, bytes)) => {
                    let epoch: u64 = rest.epoch;
                    let CodesDelivery { key, tickets, revocations, ticket_authority } = got;
                    let (got, container) = match which {
                        CodesFile::KeyContainer => (
                            CodesDelivery {
                                key: Some(DeliveredKey { epoch, container: bytes }),
                                tickets,
                                revocations,
                                ticket_authority,
                            },
                            Some(named.file),
                        ),
                        CodesFile::Tickets => (
                            CodesDelivery {
                                key,
                                tickets: Some(bytes),
                                revocations,
                                ticket_authority,
                            },
                            container,
                        ),
                        CodesFile::TicketRevocations => (
                            CodesDelivery {
                                key,
                                tickets,
                                revocations: Some(bytes),
                                ticket_authority,
                            },
                            container,
                        ),
                        CodesFile::TicketAuthority => (
                            CodesDelivery {
                                key,
                                tickets,
                                revocations,
                                ticket_authority: Some(bytes),
                            },
                            container,
                        ),
                    };
                    read_delivery(mode, rest, got, container)
                },
            },
            (CodesState::Checking { got, container }, CodesReply::Authority(seen)) => match seen {
                Err(reason) => ended(Err(ImportError::CodesSection { reason })),
                Ok(_) => (CodesState::Applying { container }, CodesAction::Apply(got)),
            },
            (CodesState::Applying { container }, CodesReply::Applied(done)) => match done {
                Err(e) => ended(Err(ImportError::Codes(e))),
                Ok(applied) => match container {
                    Some(name) => (
                        CodesState::Removing { applied },
                        CodesAction::RemoveContainer(name),
                    ),
                    None => ended(Ok(Some(applied))),
                },
            },
            (CodesState::Removing { applied }, _) => ended(Ok(Some(applied))),
            (_, _) => unreached(),
        };
        (CodesRun { mode, document_cap, state }, action)
    }
}

/// Whether one named file is accounted for: still to be read, or read and held against its pin.
pub open spec fn file_accounted(
    mode: ImportMode,
    named: Option<ManifestCodesFile>,
    waiting: Option<ManifestCodesFile>,
    got: Option<Vec<u8>>,
) -> bool {
    ||| waiting == named && got is None
    ||| waiting is None && named is None && got is None
    ||| waiting is None && (named matches Some(n) && may_read(mode, n) && (got matches Some(bytes)
        && meets_pin(n, bytes@)))
}

/// The container of a key, if there is one.
pub open spec fn key_bytes(key: Option<DeliveredKey>) -> Option<Vec<u8>> {
    match key {
        Some(k) => Some(k.container),
        None => None,
    }
}

/// Whether every file that a section names is accounted for.
pub open spec fn accounted(
    mode: ImportMode,
    section: ManifestCodes,
    waiting: ManifestCodes,
    got: CodesDelivery,
) -> bool {
    &&& waiting.epoch == section.epoch
    &&& got.key matches Some(k) ==> k.epoch == section.epoch
    &&& file_accounted(mode, section.key_container, waiting.key_container, key_bytes(got.key))
    &&& file_accounted(mode, section.tickets, waiting.tickets, got.tickets)
    &&& file_accounted(
        mode,
        section.ticket_revocations,
        waiting.ticket_revocations,
        got.revocations,
    )
    &&& file_accounted(
        mode,
        section.ticket_authority,
        waiting.ticket_authority,
        got.ticket_authority,
    )
}

/// Nothing left to read.
pub open spec fn nothing_waiting(epoch: u64) -> ManifestCodes {
    ManifestCodes {
        epoch,
        key_container: None,
        tickets: None,
        ticket_revocations: None,
        ticket_authority: None,
    }
}

/// A section with one file to be read again.
pub open spec fn with_waiting(
    rest: ManifestCodes,
    which: CodesFile,
    current: ManifestCodesFile,
) -> ManifestCodes {
    match which {
        CodesFile::KeyContainer => ManifestCodes { key_container: Some(current), ..rest },
        CodesFile::Tickets => ManifestCodes { tickets: Some(current), ..rest },
        CodesFile::TicketRevocations => ManifestCodes { ticket_revocations: Some(current), ..rest },
        CodesFile::TicketAuthority => ManifestCodes { ticket_authority: Some(current), ..rest },
    }
}

/// What a file has been read as.
pub open spec fn got_file(got: CodesDelivery, which: CodesFile) -> Option<Vec<u8>> {
    match which {
        CodesFile::KeyContainer => key_bytes(got.key),
        CodesFile::Tickets => got.tickets,
        CodesFile::TicketRevocations => got.revocations,
        CodesFile::TicketAuthority => got.ticket_authority,
    }
}

/// What a section says of a file.
pub open spec fn named_file(section: ManifestCodes, which: CodesFile) -> Option<ManifestCodesFile> {
    match which {
        CodesFile::KeyContainer => section.key_container,
        CodesFile::Tickets => section.tickets,
        CodesFile::TicketRevocations => section.ticket_revocations,
        CodesFile::TicketAuthority => section.ticket_authority,
    }
}

/// Whether a run has kept account of a section.
pub open spec fn keeps_account(
    mode: ImportMode,
    section: ManifestCodes,
    state: CodesState,
    action: CodesAction,
) -> bool {
    &&& match state {
        CodesState::Reading { which, current, rest, got, .. } => {
            &&& may_read(mode, current)
            &&& named_file(section, which) == Some(current)
            &&& named_file(rest, which) is None
            &&& got_file(got, which) is None
            &&& accounted(mode, section, with_waiting(rest, which, current), got)
        },
        CodesState::Checking { got, .. } => accounted(
            mode,
            section,
            nothing_waiting(section.epoch),
            got,
        ),
        _ => true,
    }
    &&& action matches CodesAction::Apply(got) ==> accounted(
        mode,
        section,
        nothing_waiting(section.epoch),
        got,
    )
}

proof fn lemma_seek_keeps_account(
    mode: ImportMode,
    section: ManifestCodes,
    rest: ManifestCodes,
    got: CodesDelivery,
    container: Option<String>,
)
    requires
        accounted(mode, section, rest, got),
    ensures
        ({
            let (state, action) = seek_file(mode, rest, got, container);
            keeps_account(mode, section, state, action)
        }),
{
    let (state, action) = seek_file(mode, rest, got, container);
    if state is Reading {
        assert(with_waiting(state->Reading_rest, state->which, state->current) == rest);
    } else if !(state is Finished) {
        assert(rest == nothing_waiting(section.epoch));
    }
}

/// Where a run stands after replies.
pub open spec fn codes_after(
    mode: ImportMode,
    document_cap: usize,
    start: (CodesState, CodesAction),
    replies: Seq<CodesReply>,
) -> (CodesState, CodesAction)
    decreases replies.len(),
{
    if replies.len() == 0 {
        start
    } else {
        let before = codes_after(mode, document_cap, start, replies.drop_last());
        codes_next(CodesRun { mode, document_cap, state: before.0 }, replies.last())
    }
}

/// Whether each of a run's replies answered what the run waited for.
pub open spec fn codes_replies_fit(
    mode: ImportMode,
    document_cap: usize,
    start: (CodesState, CodesAction),
    replies: Seq<CodesReply>,
) -> bool
    decreases replies.len(),
{
    replies.len() == 0 || (codes_replies_fit(mode, document_cap, start, replies.drop_last())
        && codes_awaits(
        codes_after(mode, document_cap, start, replies.drop_last()).0,
        replies.last(),
    ))
}

/// Nothing of a Codes part is applied before every file that it names was read and held against
/// its pin; what is applied are those bytes, and in a signed package each of them is pinned.
pub proof fn codes_are_verified_before_they_are_applied(
    wanted: bool,
    has_pin: bool,
    mode: ImportMode,
    section: ManifestCodes,
    document_cap: usize,
    replies: Seq<CodesReply>,
)
    requires
        codes_replies_fit(
            mode,
            document_cap,
            codes_begin(wanted, has_pin, mode, Some(section)),
            replies,
        ),
    ensures
        ({
            let (state, action) = codes_after(
                mode,
                document_cap,
                codes_begin(wanted, has_pin, mode, Some(section)),
                replies,
            );
            &&& keeps_account(mode, section, state, action)
            &&& action matches CodesAction::Apply(got) ==> accounted(
                mode,
                section,
                nothing_waiting(section.epoch),
                got,
            )
        }),
    decreases replies.len(),
{
    let start = codes_begin(wanted, has_pin, mode, Some(section));
    if replies.len() == 0 {
        if wanted && (section.key_container is None || has_pin) {
            lemma_seek_keeps_account(mode, section, section, nothing_read(), None);
        }
    } else {
        codes_are_verified_before_they_are_applied(
            wanted,
            has_pin,
            mode,
            section,
            document_cap,
            replies.drop_last(),
        );
        let before = codes_after(mode, document_cap, start, replies.drop_last());
        if let CodesState::Reading { which, current, rest, got, container } = before.0 {
            let read = replies.last()->Read_0;
            if let Ok(bytes) = named_bytes(
                current,
                which.word(),
                which.cap_of(document_cap),
                read,
            ) {
                let more = with_file(got, which, rest.epoch, bytes);
                assert(accounted(mode, section, rest, more));
                lemma_seek_keeps_account(
                    mode,
                    section,
                    rest,
                    more,
                    if which is KeyContainer {
                        Some(current.file)
                    } else {
                        container
                    },
                );
            }
        }
    }
}

/// A Codes part that was not asked for, or is not there, is left alone: nothing is read of it.
pub proof fn codes_not_asked_for_are_left_alone(
    wanted: bool,
    has_pin: bool,
    mode: ImportMode,
    section: Option<ManifestCodes>,
)
    requires
        !wanted || section is None,
    ensures
        codes_begin(wanted, has_pin, mode, section).1 == CodesAction::Finish(Ok(None)),
{
}

/// Files of the codes section go by their own words and caps: a quarter of a mebibyte for the key,
/// the cap for documents for the others.
pub proof fn codes_files_have_their_caps(which: CodesFile, document_cap: usize)
    ensures
        which is KeyContainer ==> which.cap_of(document_cap) == 262144,
        !(which is KeyContainer) ==> which.cap_of(document_cap) == document_cap,
{
}

/// A name that leads out of the package is refused, and so is a file without a pin where the
/// package is signed; no other name is.
pub proof fn unsafe_and_unpinned_files_are_refused(mode: ImportMode, named: ManifestCodesFile)
    ensures
        !is_bare_name(named.file@) ==> !may_read(mode, named) && refusal(named)
            == (ImportError::UnsafeName { name: named.file }),
        is_bare_name(named.file@) && mode is Managed && named.sha256 is None ==> !may_read(
            mode,
            named,
        ) && refusal(named) == (ImportError::CodesUnpinned { file: named.file }),
        is_bare_name(named.file@) && (mode is Standalone || named.sha256 is Some) ==> may_read(
            mode,
            named,
        ),
{
}

/// A file of the codes section is taken only if it matches the pin that it has; that it differs and
/// that it is missing are told by its name.
pub proof fn codes_files_must_match(
    named: ManifestCodesFile,
    word: &'static str,
    max: usize,
    bytes: Vec<u8>,
    io: IoFailure,
)
    ensures
        named.sha256 is None ==> named_bytes(named, word, max, FileRead::Whole(bytes)) == Ok::<
            Vec<u8>,
            ImportError,
        >(bytes),
        named.sha256 matches Some(pin) ==> named_bytes(named, word, max, FileRead::Whole(bytes))
            == if pin_holds(bytes@, pin@) {
            Ok::<Vec<u8>, ImportError>(bytes)
        } else {
            Err(ImportError::CodesHashMismatch { file: named.file })
        },
        named_bytes(named, word, max, FileRead::Missing(io)) == Err::<Vec<u8>, ImportError>(
            ImportError::CodesMissing { file: named.file },
        ),
        named_bytes(named, word, max, FileRead::TooLarge) == Err::<Vec<u8>, ImportError>(
            oversize(word, max),
        ),
        named_bytes(named, word, max, FileRead::Failed(io)) == Err::<Vec<u8>, ImportError>(
            ImportError::Io { path: io.path, reason: io.reason },
        ),
{
}

/// A key cannot be delivered without a PIN; everything else can.
pub proof fn key_needs_a_pin(has_pin: bool, mode: ImportMode, section: ManifestCodes)
    ensures
        section.key_container is Some && !has_pin ==> codes_begin(true, has_pin, mode, Some(section))
            == (
            CodesState::Finished,
            CodesAction::Finish(
                Err::<Option<Applied>, ImportError>(ImportError::CodesPinRequired),
            ),
        ),
        section.key_container is None || has_pin ==> codes_begin(true, has_pin, mode, Some(section))
            == seek_file(mode, section, nothing_read(), None),
{
}

/// Files are read in their order, each that is named: the key, the tickets, their revocations, and
/// the key that they are verified against.
pub proof fn named_files_are_read_in_order(
    mode: ImportMode,
    rest: ManifestCodes,
    got: CodesDelivery,
    container: Option<String>,
)
    ensures
        seek_file(mode, rest, got, container).0 matches CodesState::Reading { which, current, .. }
            ==> named_file(rest, which) == Some(current) && may_read(mode, current),
        (rest.key_container matches Some(n) && may_read(mode, n)) ==> (seek_file(
            mode,
            rest,
            got,
            container,
        ).0 matches CodesState::Reading { which, .. } && which is KeyContainer),
        (rest.key_container is None && (rest.tickets matches Some(n) && may_read(mode, n))) ==> (
        seek_file(mode, rest, got, container).0 matches CodesState::Reading { which, .. }
            && which is Tickets),
        (rest.key_container is None && rest.tickets is None
            && (rest.ticket_revocations matches Some(n) && may_read(mode, n))) ==> (seek_file(
            mode,
            rest,
            got,
            container,
        ).0 matches CodesState::Reading { which, .. } && which is TicketRevocations),
        (rest.key_container is None && rest.tickets is None && rest.ticket_revocations is None
            && (rest.ticket_authority matches Some(n) && may_read(mode, n))) ==> (seek_file(
            mode,
            rest,
            got,
            container,
        ).0 matches CodesState::Reading { which, .. } && which is TicketAuthority),
        seek_file(mode, rest, got, container).1 is CheckAuthority ==> got.ticket_authority is Some,
        seek_file(mode, rest, got, container).1 matches CodesAction::Apply(g) ==> g == got
            && got.ticket_authority is None && rest.key_container is None && rest.tickets is None
            && rest.ticket_revocations is None && rest.ticket_authority is None,
{
}

/// What was read goes to its own place in the delivery and nowhere else; a key goes with the epoch
/// of the section.
pub proof fn files_are_delivered_in_their_places(
    got: CodesDelivery,
    which: CodesFile,
    epoch: u64,
    bytes: Vec<u8>,
)
    ensures
        which is KeyContainer ==> with_file(got, which, epoch, bytes) == (CodesDelivery {
            key: Some(DeliveredKey { epoch, container: bytes }),
            tickets: got.tickets,
            revocations: got.revocations,
            ticket_authority: got.ticket_authority,
        }),
        which is Tickets ==> with_file(got, which, epoch, bytes) == (CodesDelivery {
            key: got.key,
            tickets: Some(bytes),
            revocations: got.revocations,
            ticket_authority: got.ticket_authority,
        }),
        which is TicketRevocations ==> with_file(got, which, epoch, bytes) == (CodesDelivery {
            key: got.key,
            tickets: got.tickets,
            revocations: Some(bytes),
            ticket_authority: got.ticket_authority,
        }),
        which is TicketAuthority ==> with_file(got, which, epoch, bytes) == (CodesDelivery {
            key: got.key,
            tickets: got.tickets,
            revocations: got.revocations,
            ticket_authority: Some(bytes),
        }),
{
}

/// The container of the key is removed from the package once the delivery has been applied, and at
/// no other time; a key of verification that does not hold stops everything.
pub proof fn container_is_removed_once_applied(run: CodesRun, reply: CodesReply, name: String)
    requires
        codes_awaits(run.state, reply),
    ensures
        codes_next(run, reply).1 == CodesAction::RemoveContainer(name) ==> (
        run.state matches CodesState::Applying { container } && container == Some(name)) && (
        reply matches CodesReply::Applied(r) && r is Ok),
        run.state is Checking ==> (reply matches CodesReply::Authority(Err(reason)) ==> codes_next(
            run,
            reply,
        ).1 == CodesAction::Finish(
            Err::<Option<Applied>, ImportError>(ImportError::CodesSection { reason }),
        )),
        run.state is Applying ==> (reply matches CodesReply::Applied(Err(e)) ==> codes_next(
            run,
            reply,
        ).1 == CodesAction::Finish(Err::<Option<Applied>, ImportError>(ImportError::Codes(e)))),
        run.state matches CodesState::Removing { applied } ==> codes_next(run, reply).1
            == CodesAction::Finish(Ok::<Option<Applied>, ImportError>(Some(applied))),
        run.state matches CodesState::Applying { container: None } ==> (
        reply matches CodesReply::Applied(Ok(done)) ==> codes_next(run, reply).1
            == CodesAction::Finish(Ok::<Option<Applied>, ImportError>(Some(done)))),
{
}

/// A package without a codes section has nothing to say; one that cannot be read is refused, and
/// its reason names the file.
pub proof fn missing_section_is_no_error(
    read: SectionRead,
    r: Result<Option<ManifestCodes>, ImportError>,
)
    requires
        section_outcome(read, r),
    ensures
        read is Missing <==> r == Ok::<Option<ManifestCodes>, ImportError>(None),
        read matches SectionRead::Section(s) ==> r == Ok::<Option<ManifestCodes>, ImportError>(
            Some(s),
        ),
        read is NotUtf8 || read is Invalid || read is TooLarge || read is Failed ==> r is Err,
        read matches SectionRead::Invalid(why) ==> (r matches Err(
            ImportError::CodesSection { reason },
        ) && reason@ == "codes.toml"@ + " is invalid: "@ + why@),
{
}

/// The container that is to be removed in the end, as far as it is known.
pub open spec fn remembered(state: CodesState) -> Option<String> {
    match state {
        CodesState::Reading { container, .. } => container,
        CodesState::Checking { container, .. } => container,
        CodesState::Applying { container } => container,
        _ => None,
    }
}

/// The file that the key came in is remembered to the end, and no other file is.
pub proof fn container_is_remembered(run: CodesRun, reply: CodesReply)
    requires
        codes_awaits(run.state, reply),
        run.state is Reading || run.state is Checking,
        codes_next(run, reply).0 !is Finished,
    ensures
        run.state matches CodesState::Reading { which, current, .. } ==> (which is KeyContainer
            ==> remembered(codes_next(run, reply).0) == Some(current.file)),
        run.state matches CodesState::Reading { which, container, .. } ==> (!(which is KeyContainer)
            ==> remembered(codes_next(run, reply).0) == container),
        run.state matches CodesState::Checking { container, .. } ==> remembered(
            codes_next(run, reply).0,
        ) == container,
{
}

} // verus!
