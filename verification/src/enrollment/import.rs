//! What an enrollment package is, and how one is told from a directory.
//!
//! A package holds exactly one per-host container (`.p12`), a bundle file that depends on how the
//! package is trusted (`manifest.toml` or `tags.toml`), role slices, and perhaps a revocation list.
//! A package that carries a Codes part carries a second `.p12`, the one its Codes section names:
//! that one is not counted.

use crate::collections::opt_text;
use crate::config::validated::{DEFAULT_ROLES_DIR, DEFAULT_TAGS_FILE};
use crate::enrollment::audit::{MODE_MANAGED, MODE_STANDALONE, REASON_CRL, REASON_INSTALL, REASON_MANIFEST};
use crate::foreign::{debug_form, debug_text, hex_encode, hex_text, sha256, sha256_digest};
use crate::text::{
    ascii_lower, cat2, cat3, cat4, char_at, chars_of, dec, decimal, eq_ignore_case, has_char,
    is_space, lemma_trimmed_fixed, str_eq, string_of, trim, trimmed,
};
use vstd::prelude::*;
use vstd::string::*;

verus! {

/// Where the revocation list is installed.
pub const DEFAULT_CRL_PATH: &'static str = "/var/lib/tessera/device.crl";

/// Where the per-host container is installed.
pub const DEFAULT_P12_PATH: &'static str = "/var/lib/tessera/host.p12";

/// No revocation list is larger.
pub const MAX_CRL_BYTES: usize = 1048576;

/// No per-host container is larger.
pub const MAX_P12_BYTES: usize = 262144;

/// No manifest is larger.
pub const MAX_MANIFEST_BYTES: usize = 262144;

/// No role slice is larger.
pub const MAX_SLICE_BYTES: usize = 65536;

/// The file of a package that is signed.
pub const MANIFEST_FILENAME: &'static str = "manifest.toml";

/// The file of a package that holds the tags where there is no manifest.
pub const TAGS_FILENAME: &'static str = "tags.toml";

/// The file of a package that holds the Codes section where there is no manifest.
pub const STANDALONE_CODES_FILENAME: &'static str = "codes.toml";

/// The file that holds the accepted version.
pub const BUNDLE_VERSION_FILENAME: &'static str = "bundle.version";

/// The permissions of directories that an import makes.
pub const DIR_MODE: u32 = 0o755;

/// The permissions of files that hold no key.
pub const FILE_MODE: u32 = 0o644;

/// The permissions of the per-host container.
pub const P12_MODE: u32 = 0o600;

/// How a package is trusted.
#[derive(Debug, Clone, Copy, PartialEq, Eq, Structural)]
pub enum ImportMode {
    /// By the permissions of the files.
    Standalone,
    /// By a signed manifest.
    Managed,
}

impl ImportMode {
    /// The mode's name in events.
    pub open spec fn label_text(self) -> Seq<char> {
        match self {
            ImportMode::Standalone => MODE_STANDALONE@,
            ImportMode::Managed => MODE_MANAGED@,
        }
    }

    /// The mode's name in events.
    pub fn label(self) -> (r: &'static str)
        ensures
            r@ == self.label_text(),
    {
        match self {
            ImportMode::Standalone => MODE_STANDALONE,
            ImportMode::Managed => MODE_MANAGED,
        }
    }
}

/// A package that was found complete.
#[derive(Debug)]
pub struct EnrollmentPackage {
    /// The directory of the package.
    pub root: String,
    /// How it is trusted.
    pub mode: ImportMode,
    /// The name of the per-host container.
    pub p12_file: String,
    /// The name of the revocation list, where the directory holds one.
    pub crl_file: Option<String>,
}

/// Where an import puts things.
#[derive(Debug)]
pub struct InstallPaths {
    /// The directory of the role base.
    pub roles_dir: String,
    /// The device tags.
    pub tags_file: String,
    /// The revocation list.
    pub crl_path: String,
    /// The per-host container.
    pub p12_path: String,
    /// The directory of the accepted version, the same one that the role base goes by.
    pub persist_dir: String,
}

impl InstallPaths {
    /// The usual places, with the directory of the accepted version that the role base goes by.
    pub fn with_persist_dir(persist_dir: String) -> (r: InstallPaths)
        ensures
            r.roles_dir@ == DEFAULT_ROLES_DIR@,
            r.tags_file@ == DEFAULT_TAGS_FILE@,
            r.crl_path@ == DEFAULT_CRL_PATH@,
            r.p12_path@ == DEFAULT_P12_PATH@,
            r.persist_dir == persist_dir,
    {
        InstallPaths {
            roles_dir: DEFAULT_ROLES_DIR.to_owned(),
            tags_file: DEFAULT_TAGS_FILE.to_owned(),
            crl_path: DEFAULT_CRL_PATH.to_owned(),
            p12_path: DEFAULT_P12_PATH.to_owned(),
            persist_dir,
        }
    }
}

/// What a Codes part did when it was applied.
#[derive(Debug)]
pub struct Applied {
    /// The key epoch the device is on.
    pub epoch: Option<u64>,
    /// Whether the device key was replaced.
    pub key_replaced: bool,
    /// Whether the counter of issued codes was reset.
    pub counter_reset: bool,
}

/// What a successful import did.
#[derive(Debug)]
pub struct ImportOutcome {
    /// How the package was trusted.
    pub mode: ImportMode,
    /// The version that was applied; 0 where there is none.
    pub bundle_version: u64,
    /// Whether this import was the first to set a version.
    pub baseline_established: bool,
    /// Whether the version was already applied, so that nothing changed.
    pub no_op: bool,
    /// What the Codes part did, where there was one and it was asked for.
    pub codes: Option<Applied>,
}

/// Why a manifest does not hold.
#[derive(Debug)]
pub enum ManifestError {
    /// Its signature does not verify.
    BadSignature,
    /// Its version is smaller than the accepted one.
    Rollback {
        /// Version of the manifest.
        found: u64,
        /// Accepted version.
        persisted: u64,
    },
    /// Anything else, in words.
    Other {
        /// What is wrong.
        message: String,
    },
}

/// Why a role base was not put in place, in words.
#[derive(Debug)]
pub struct RoleStoreError {
    /// What is wrong.
    pub message: String,
}

/// Why a Codes part was not applied, in words.
#[derive(Debug)]
pub struct ArtefactError {
    /// What is wrong.
    pub message: String,
}

/// Why a package was not imported.
#[derive(Debug)]
pub enum ImportError {
    /// There is no such directory.
    PackageMissing {
        /// Path of the package.
        path: String,
    },
    /// There is no per-host container.
    NoP12,
    /// There is more than one per-host container.
    MultipleP12 {
        /// How many there are.
        count: usize,
    },
    /// There is no manifest.
    NoManifest,
    /// There is no file of tags.
    NoTagsFile,
    /// There is no key to verify the manifest with.
    MissingKey,
    /// A name is not that of a file in the package.
    UnsafeName {
        /// The name.
        name: String,
    },
    /// A file is larger than its cap.
    Oversize {
        /// Which file.
        artefact: &'static str,
        /// How many bytes were read of it.
        read: usize,
        /// The cap.
        max: usize,
    },
    /// The revocation list is not the one that the manifest pins.
    CrlHashMismatch,
    /// The per-host container is not the one that the manifest pins.
    P12HashMismatch,
    /// The manifest pins a revocation list that the package lacks.
    CrlMissing {
        /// Its name.
        file: String,
    },
    /// The manifest does not hold.
    Manifest(ManifestError),
    /// The role base was not put in place.
    RoleStore(RoleStoreError),
    /// A file was not read or written.
    Io {
        /// Path of the file.
        path: String,
        /// What went wrong.
        reason: String,
    },
    /// The Codes part is not what its format describes.
    CodesSection {
        /// What is wrong.
        reason: String,
    },
    /// A signed package names a Codes file and no hash of it.
    CodesUnpinned {
        /// Its name.
        file: String,
    },
    /// A Codes file is not the one that the package pins.
    CodesHashMismatch {
        /// Its name.
        file: String,
    },
    /// A Codes file is named and not there.
    CodesMissing {
        /// Its name.
        file: String,
    },
    /// The package carries a key container and there is no PIN for it.
    CodesPinRequired,
    /// The Codes part was not applied.
    Codes(ArtefactError),
}

impl ManifestError {
    /// The error in words.
    pub open spec fn message_text(self) -> Seq<char> {
        match self {
            ManifestError::BadSignature => "manifest signature does not verify"@,
            ManifestError::Rollback { found, persisted } => "bundle_version "@ + dec(found as nat)
                + " is below the accepted "@ + dec(persisted as nat),
            ManifestError::Other { message } => message@,
        }
    }

    /// The error in words.
    pub fn message(&self) -> (r: String)
        ensures
            r@ == self.message_text(),
    {
        match self {
            ManifestError::BadSignature => "manifest signature does not verify".to_owned(),
            ManifestError::Rollback { found, persisted } => {
                let f = decimal(*found);
                let p = decimal(*persisted);
                cat4("bundle_version ", f.as_str(), " is below the accepted ", p.as_str())
            },
            ManifestError::Other { message } => message.clone(),
        }
    }
}

impl ImportError {
    /// The error in words.
    pub open spec fn message_text(self) -> Seq<char> {
        match self {
            ImportError::PackageMissing { path } => "enrollment package not found at "@ + path@,
            ImportError::NoP12 => "enrollment package has no per-host .p12"@,
            ImportError::MultipleP12 { count } => "enrollment package has "@ + dec(count as nat)
                + " .p12 files; expected exactly one"@,
            ImportError::NoManifest => "managed enrollment package has no manifest.toml"@,
            ImportError::NoTagsFile => "standalone enrollment package has no tags.toml"@,
            ImportError::MissingKey => "managed enrollment requires a trusted verification key"@,
            ImportError::UnsafeName { name } => "enrollment package entry "@ + debug_form(name@)
                + " is not a bare file name"@,
            ImportError::Oversize { artefact, read, max } => artefact@ + " exceeds the "@ + dec(
                max as nat,
            ) + "-byte cap (the read stopped after "@ + dec(read as nat) + " bytes)"@,
            ImportError::CrlHashMismatch =>
                "CRL hash mismatch: signed pin does not match the shipped CRL"@,
            ImportError::P12HashMismatch =>
                "p12 hash mismatch: signed pin does not match the shipped .p12"@,
            ImportError::CrlMissing { file } => "manifest pins CRL "@ + debug_form(file@)
                + " but it is missing from the package"@,
            ImportError::Manifest(e) => e.message_text(),
            ImportError::RoleStore(e) => e.message@,
            ImportError::Io { path, reason } => "enrollment I/O error at "@ + path@ + ": "@
                + reason@,
            ImportError::CodesSection { reason } => "the Codes part of the package is invalid: "@
                + reason@,
            ImportError::CodesUnpinned { file } => "managed enrollment names Codes file "@
                + debug_form(file@) + " without a sha256 pin"@,
            ImportError::CodesHashMismatch { file } =>
                "Codes hash mismatch: the pin does not match the shipped "@ + debug_form(file@),
            ImportError::CodesMissing { file } => "the Codes part names "@ + debug_form(file@)
                + " but it is missing from the package"@,
            ImportError::CodesPinRequired =>
                "the package carries a Codes key container and no PIN was supplied"@,
            ImportError::Codes(e) => e.message@,
        }
    }

    /// The error in words.
    pub fn message(&self) -> (r: String)
        ensures
            r@ == self.message_text(),
    {
        match self {
            ImportError::PackageMissing { path } => cat2(
                "enrollment package not found at ",
                path.as_str(),
            ),
            ImportError::NoP12 => "enrollment package has no per-host .p12".to_owned(),
            ImportError::MultipleP12 { count } => {
                let n = decimal(*count as u64);
                cat3("enrollment package has ", n.as_str(), " .p12 files; expected exactly one")
            },
            ImportError::NoManifest => "managed enrollment package has no manifest.toml".to_owned(),
            ImportError::NoTagsFile => "standalone enrollment package has no tags.toml".to_owned(),
            ImportError::MissingKey =>
                "managed enrollment requires a trusted verification key".to_owned(),
            ImportError::UnsafeName { name } => {
                let n = debug_text(name.as_str());
                cat3("enrollment package entry ", n.as_str(), " is not a bare file name")
            },
            ImportError::Oversize { artefact, read, max } => {
                let m = decimal(*max as u64);
                let n = decimal(*read as u64);
                let head = cat4(
                    artefact,
                    " exceeds the ",
                    m.as_str(),
                    "-byte cap (the read stopped after ",
                );
                cat3(head.as_str(), n.as_str(), " bytes)")
            },
            ImportError::CrlHashMismatch =>
                "CRL hash mismatch: signed pin does not match the shipped CRL".to_owned(),
            ImportError::P12HashMismatch =>
                "p12 hash mismatch: signed pin does not match the shipped .p12".to_owned(),
            ImportError::CrlMissing { file } => {
                let f = debug_text(file.as_str());
                cat3("manifest pins CRL ", f.as_str(), " but it is missing from the package")
            },
            ImportError::Manifest(e) => e.message(),
            ImportError::RoleStore(e) => e.message.clone(),
            ImportError::Io { path, reason } => cat4(
                "enrollment I/O error at ",
                path.as_str(),
                ": ",
                reason.as_str(),
            ),
            ImportError::CodesSection { reason } => cat2(
                "the Codes part of the package is invalid: ",
                reason.as_str(),
            ),
            ImportError::CodesUnpinned { file } => {
                let f = debug_text(file.as_str());
                cat3("managed enrollment names Codes file ", f.as_str(), " without a sha256 pin")
            },
            ImportError::CodesHashMismatch { file } => {
                let f = debug_text(file.as_str());
                cat2(
                    "Codes hash mismatch: the pin does not match the shipped ",
                    f.as_str(),
                )
            },
            ImportError::CodesMissing { file } => {
                let f = debug_text(file.as_str());
                cat3("the Codes part names ", f.as_str(), " but it is missing from the package")
            },
            ImportError::CodesPinRequired =>
                "the package carries a Codes key container and no PIN was supplied".to_owned(),
            ImportError::Codes(e) => e.message.clone(),
        }
    }
}

/// The reason given in the event of a refused import.
pub open spec fn reason_text(e: ImportError) -> Seq<char> {
    match e {
        ImportError::Manifest(_) => REASON_MANIFEST@,
        ImportError::P12HashMismatch => REASON_MANIFEST@,
        ImportError::CrlHashMismatch => REASON_CRL@,
        ImportError::CrlMissing { .. } => REASON_CRL@,
        _ => REASON_INSTALL@,
    }
}

/// The reason given in the event of a refused import.
pub fn reason_for(e: &ImportError) -> (r: &'static str)
    ensures
        r@ == reason_text(*e),
{
    match e {
        ImportError::Manifest(_) => REASON_MANIFEST,
        ImportError::P12HashMismatch => REASON_MANIFEST,
        ImportError::CrlHashMismatch => REASON_CRL,
        ImportError::CrlMissing { .. } => REASON_CRL,
        _ => REASON_INSTALL,
    }
}

/// A revocation list that a manifest pins.
#[derive(Debug)]
pub struct ManifestCrl {
    /// Its name in the package.
    pub file: String,
    /// Its SHA-256, in hexadecimal.
    pub sha256: String,
}

/// A file of a Codes part.
#[derive(Debug)]
pub struct ManifestCodesFile {
    /// Its name in the package.
    pub file: String,
    /// Its SHA-256, in hexadecimal.
    pub sha256: Option<String>,
}

/// The Codes section of a package.
#[derive(Debug)]
pub struct ManifestCodes {
    /// Key epoch of the delivery.
    pub epoch: u64,
    /// The container of the device key.
    pub key_container: Option<ManifestCodesFile>,
    /// The operator tickets.
    pub tickets: Option<ManifestCodesFile>,
    /// The revoked tickets.
    pub ticket_revocations: Option<ManifestCodesFile>,
    /// The key that tickets are verified against.
    pub ticket_authority: Option<ManifestCodesFile>,
}

/// What an import reads of a manifest.
#[derive(Debug)]
pub struct Manifest {
    /// Version of the bundle.
    pub bundle_version: u64,
    /// The revocation list it pins.
    pub crl: Option<ManifestCrl>,
    /// The SHA-256 of the per-host container, in hexadecimal.
    pub p12_sha256: Option<String>,
    /// The Codes section.
    pub codes: Option<ManifestCodes>,
}

/// A file operation that failed.
#[derive(Debug)]
pub struct IoFailure {
    /// Path of the file.
    pub path: String,
    /// What went wrong.
    pub reason: String,
}

/// The failure as an error.
pub open spec fn io_error(f: IoFailure) -> ImportError {
    ImportError::Io { path: f.path, reason: f.reason }
}

/// The failure as an error.
pub fn to_io_error(f: IoFailure) -> (r: ImportError)
    ensures
        r == io_error(f),
{
    ImportError::Io { path: f.path, reason: f.reason }
}

/// What a capped read of a file of the package found.
#[derive(Debug)]
pub enum FileRead {
    /// The whole file.
    Whole(Vec<u8>),
    /// It is larger than the cap.
    TooLarge,
    /// There is no such file.
    Missing(IoFailure),
    /// It was not read.
    Failed(IoFailure),
}

/// The error for a file that is larger than its cap: the read stopped one byte past it.
pub open spec fn oversize(artefact: &'static str, max: usize) -> ImportError {
    ImportError::Oversize {
        artefact,
        read: if max == usize::MAX { max } else { (max + 1) as usize },
        max,
    }
}

/// The error for a file that is larger than its cap.
pub fn to_oversize(artefact: &'static str, max: usize) -> (r: ImportError)
    ensures
        r == oversize(artefact, max),
{
    let read: usize = if max == usize::MAX { max } else { max + 1 };
    ImportError::Oversize { artefact, read, max }
}

/// What a read of a file that must be there comes to.
pub open spec fn bytes_of(
    read: FileRead,
    artefact: &'static str,
    max: usize,
) -> Result<Vec<u8>, ImportError> {
    match read {
        FileRead::Whole(bytes) => Ok(bytes),
        FileRead::TooLarge => Err(oversize(artefact, max)),
        FileRead::Missing(f) => Err(io_error(f)),
        FileRead::Failed(f) => Err(io_error(f)),
    }
}

/// What a read of a file that must be there comes to.
pub fn read_capped(
    read: FileRead,
    artefact: &'static str,
    max: usize,
) -> (r: Result<Vec<u8>, ImportError>)
    ensures
        r == bytes_of(read, artefact, max),
{
    match read {
        FileRead::Whole(bytes) => Ok(bytes),
        FileRead::TooLarge => Err(to_oversize(artefact, max)),
        FileRead::Missing(f) => Err(to_io_error(f)),
        FileRead::Failed(f) => Err(to_io_error(f)),
    }
}

/// Whether bytes have the hash that a pin names: in hexadecimal, in either case, with white space
/// around it.
pub open spec fn pin_holds(bytes: Seq<u8>, pin: Seq<char>) -> bool {
    ascii_lower(hex_text(sha256(bytes))) == ascii_lower(trimmed(pin))
}

/// Whether bytes have the hash that a pin names.
pub fn matches_pin(bytes: &Vec<u8>, pin: &str) -> (r: bool)
    ensures
        r == pin_holds(bytes@, pin@),
{
    let digest = sha256_digest(bytes.as_slice());
    let actual = hex_encode(&digest);
    let wanted = trim(pin);
    eq_ignore_case(actual.as_str(), wanted.as_str())
}

/// Whether a name is that of a file in a directory: not empty, not a directory itself, and
/// without a separator.
pub open spec fn is_bare_name(name: Seq<char>) -> bool {
    name != ""@ && name != "."@ && name != ".."@ && !name.contains('/') && !name.contains('\\')
}

/// Whether a name is that of a file in a directory.
pub fn bare_name(name: &str) -> (r: bool)
    ensures
        r == is_bare_name(name@),
{
    !(str_eq(name, "") || str_eq(name, ".") || str_eq(name, "..") || has_char(name, '/')
        || has_char(name, '\\'))
}

/// Refuses a name that is not that of a file in a directory.
pub fn ensure_bare_name(name: &str) -> (r: Result<(), ImportError>)
    ensures
        r is Ok <==> is_bare_name(name@),
        r matches Err(e) ==> (e matches ImportError::UnsafeName { name: n } && n@ == name@),
{
    if bare_name(name) {
        Ok(())
    } else {
        Err(ImportError::UnsafeName { name: name.to_owned() })
    }
}

/// Whether a file name has an extension: the part after its last dot, where that dot is not the
/// first character, compared without regard to the case of ASCII letters.
pub open spec fn has_extension(name: Seq<char>, ext: Seq<char>) -> bool {
    name != ".."@ && exists|i: int|
        0 < i < name.len() && #[trigger] name[i] == '.' && !name.skip(i + 1).contains('.')
            && ascii_lower(name.skip(i + 1)) == ascii_lower(ext)
}

/// Whether a file name has an extension.
pub fn has_ext(name: &str, ext: &str) -> (r: bool)
    ensures
        r == has_extension(name@, ext@),
{
    if str_eq(name, "..") {
        return false;
    }
    let chars = chars_of(name);
    let mut i: usize = chars.len();
    while i > 1
        invariant
            chars@ == name@,
            name@ != ".."@,
            i <= chars@.len(),
            forall|j: int| i <= j < chars@.len() ==> chars@[j] != '.',
        decreases i,
    {
        let at: usize = i - 1;
        if char_at(&chars, at) == '.' {
            let tail = string_of(&chars, at + 1, chars.len());
            let same = eq_ignore_case(tail.as_str(), ext);
            proof {
                assert(tail@ =~= name@.skip(at + 1));
                assert(!name@.skip(at + 1).contains('.')) by {
                    if name@.skip(at + 1).contains('.') {
                        let rest = name@.skip(at + 1);
                        let k = choose|k: int| 0 <= k < rest.len() && #[trigger] rest[k] == '.';
                        assert(chars@[at + 1 + k] == '.');
                    }
                }
                assert(name@[at as int] == '.');
                if has_extension(name@, ext@) {
                    let k = choose|k: int|
                        0 < k < name@.len() && #[trigger] name@[k] == '.' && !name@.skip(
                            k + 1,
                        ).contains('.') && ascii_lower(name@.skip(k + 1)) == ascii_lower(ext@);
                    if k < at {
                        assert(name@.skip(k + 1)[at - k - 1] == '.');
                    }
                    assert(k == at);
                }
            }
            return same;
        }
        i = at;
    }
    false
}

/// One entry of a package's directory.
#[derive(Debug)]
pub enum PackageEntry {
    /// A regular file.
    File(String),
    /// Anything else, or a name that is not text.
    Other,
    /// An entry that was not read.
    Unreadable(IoFailure),
}

/// What is at the path of a package.
#[derive(Debug)]
pub struct PackageProbe {
    /// Whether there is a directory.
    pub is_dir: bool,
    /// The Codes section: of `codes.toml`, or of the manifest before anything of it is trusted.
    pub section: Result<Option<ManifestCodes>, ImportError>,
    /// The entries, in the order in which they are listed.
    pub entries: Result<Vec<PackageEntry>, IoFailure>,
    /// Whether `manifest.toml` is a file.
    pub has_manifest: bool,
    /// Whether `tags.toml` is a file.
    pub has_tags: bool,
}

/// The name that a Codes section gives its key container. A manifest that cannot be read yet
/// names none: it is refused later, and says why.
pub open spec fn container_name(
    mode: ImportMode,
    section: Result<Option<ManifestCodes>, ImportError>,
) -> Result<Option<String>, ImportError> {
    match section {
        Err(e) => match mode {
            ImportMode::Standalone => Err(e),
            ImportMode::Managed => Ok(None),
        },
        Ok(None) => Ok(None),
        Ok(Some(s)) => match s.key_container {
            None => Ok(None),
            Some(named) => if is_bare_name(named.file@) {
                Ok(Some(named.file))
            } else {
                Err(ImportError::UnsafeName { name: named.file })
            },
        },
    }
}

/// The name that a Codes section gives its key container.
pub fn codes_container_name(
    mode: ImportMode,
    section: Result<Option<ManifestCodes>, ImportError>,
) -> (r: Result<Option<String>, ImportError>)
    ensures
        r == container_name(mode, section),
{
    match section {
        Err(e) => match mode {
            ImportMode::Standalone => Err(e),
            ImportMode::Managed => Ok(None),
        },
        Ok(None) => Ok(None),
        Ok(Some(s)) => match s.key_container {
            None => Ok(None),
            Some(named) => if bare_name(named.file.as_str()) {
                Ok(Some(named.file))
            } else {
                Err(ImportError::UnsafeName { name: named.file })
            },
        },
    }
}

/// Whether an entry is a per-host container.
pub open spec fn is_identity(e: PackageEntry, container: Option<Seq<char>>) -> bool {
    e matches PackageEntry::File(name) && has_extension(name@, "p12"@) && container != Some(name@)
}

/// Whether an entry is a revocation list.
pub open spec fn is_crl(e: PackageEntry) -> bool {
    e matches PackageEntry::File(name) && has_extension(name@, "crl"@) && !has_extension(
        name@,
        "p12"@,
    )
}

/// The name of a file.
pub open spec fn entry_name(e: PackageEntry) -> Seq<char> {
    match e {
        PackageEntry::File(name) => name@,
        _ => Seq::empty(),
    }
}

/// The names of the per-host containers among the first `n` entries.
pub open spec fn identities(
    entries: Seq<PackageEntry>,
    container: Option<Seq<char>>,
    n: nat,
) -> Seq<Seq<char>>
    decreases n,
{
    if n == 0 {
        Seq::empty()
    } else {
        let before = identities(entries, container, (n - 1) as nat);
        if is_identity(entries[n - 1], container) {
            before.push(entry_name(entries[n - 1]))
        } else {
            before
        }
    }
}

/// The name of the last revocation list among the first `n` entries.
pub open spec fn last_crl(entries: Seq<PackageEntry>, n: nat) -> Option<Seq<char>>
    decreases n,
{
    if n == 0 {
        None
    } else if is_crl(entries[n - 1]) {
        Some(entry_name(entries[n - 1]))
    } else {
        last_crl(entries, (n - 1) as nat)
    }
}

/// Whether the entry at an index is the first that was not read.
pub open spec fn first_unreadable(entries: Seq<PackageEntry>, at: int) -> bool {
    0 <= at < entries.len() && entries[at] is Unreadable && forall|j: int|
        0 <= j < at ==> !(#[trigger] entries[j] is Unreadable)
}

/// Whether every entry was read.
pub open spec fn all_readable(entries: Seq<PackageEntry>) -> bool {
    forall|j: int| 0 <= j < entries.len() ==> !(#[trigger] entries[j] is Unreadable)
}

/// Whether the error is that of a failure.
pub open spec fn reports(e: ImportError, f: IoFailure) -> bool {
    e matches ImportError::Io { path, reason } && path@ == f.path@ && reason@ == f.reason@
}

/// What a listing comes to once every entry of it was read.
pub open spec fn chosen(
    root: String,
    mode: ImportMode,
    probe: PackageProbe,
    container: Option<Seq<char>>,
    entries: Seq<PackageEntry>,
    r: Result<EnrollmentPackage, ImportError>,
) -> bool {
    let found = identities(entries, container, entries.len());
    if found.len() == 0 {
        r matches Err(e) && e is NoP12
    } else if found.len() > 1 {
        r matches Err(e) && e == (ImportError::MultipleP12 { count: found.len() as usize })
    } else if mode is Managed && !probe.has_manifest {
        r matches Err(e) && e is NoManifest
    } else if mode is Standalone && !probe.has_tags {
        r matches Err(e) && e is NoTagsFile
    } else {
        r matches Ok(p) && p.root == root && p.mode == mode && p.p12_file@ == found[0] && opt_text(
            p.crl_file,
        ) == last_crl(entries, entries.len())
    }
}

/// What the directory of a package is read as.
pub open spec fn parsed(
    root: String,
    mode: ImportMode,
    probe: PackageProbe,
    r: Result<EnrollmentPackage, ImportError>,
) -> bool {
    if !probe.is_dir {
        r == Err::<EnrollmentPackage, ImportError>(ImportError::PackageMissing { path: root })
    } else {
        match container_name(mode, probe.section) {
            Err(e) => r == Err::<EnrollmentPackage, ImportError>(e),
            Ok(container) => match probe.entries {
                Err(f) => r == Err::<EnrollmentPackage, ImportError>(io_error(f)),
                Ok(entries) => {
                    &&& all_readable(entries@) ==> chosen(
                        root,
                        mode,
                        probe,
                        opt_text(container),
                        entries@,
                        r,
                    )
                    &&& forall|at: int|
                        #[trigger] first_unreadable(entries@, at) ==> (r matches Err(e) && reports(
                            e,
                            entries@[at]->Unreadable_0,
                        ))
                },
            },
        }
    }
}

proof fn lemma_identities_bounded(entries: Seq<PackageEntry>, container: Option<Seq<char>>, n: nat)
    ensures
        identities(entries, container, n).len() <= n,
    decreases n,
{
    if n > 0 {
        lemma_identities_bounded(entries, container, (n - 1) as nat);
    }
}

impl EnrollmentPackage {
    /// Reads a directory as a package. Nothing on the device is touched, and the container is not
    /// opened.
    pub fn parse(root: String, mode: ImportMode, probe: PackageProbe) -> (r: Result<
        EnrollmentPackage,
        ImportError,
    >)
        ensures
            parsed(root, mode, probe, r),
    {
        if !probe.is_dir {
            return Err(ImportError::PackageMissing { path: root });
        }
        let PackageProbe { is_dir: _, section, entries, has_manifest, has_tags } = probe;
        let container = match codes_container_name(mode, section) {
            Ok(c) => c,
            Err(e) => return Err(e),
        };
        let entries = match entries {
            Ok(v) => v,
            Err(f) => return Err(to_io_error(f)),
        };
        let mut found: Vec<String> = Vec::new();
        let mut crl_file: Option<String> = None;
        let total: usize = entries.len();
        let mut i: usize = 0;
        while i < total
            invariant
                i <= total,
                total == entries@.len(),
                forall|j: int| 0 <= j < i ==> !(#[trigger] entries@[j] is Unreadable),
                identities(entries@, opt_text(container), i as nat) == found@.map_values(
                    |s: String| s@,
                ),
                opt_text(crl_file) == last_crl(entries@, i as nat),
                probe.is_dir,
                container_name(mode, probe.section) == Ok::<Option<String>, ImportError>(container),
                probe.entries == Ok::<Vec<PackageEntry>, IoFailure>(entries),
            decreases total - i,
        {
            let ghost before = found@.map_values(|s: String| s@);
            match &entries[i] {
                PackageEntry::Unreadable(f) => {
                    assert(entries@[i as int] is Unreadable);
                    assert forall|at: int| #[trigger] first_unreadable(entries@, at) implies at
                        == i by {}
                    return Err(
                        ImportError::Io { path: f.path.clone(), reason: f.reason.clone() },
                    );
                },
                PackageEntry::Other => {},
                PackageEntry::File(name) => {
                    if has_ext(name.as_str(), "p12") {
                        let counted = match &container {
                            Some(c) => !str_eq(c.as_str(), name.as_str()),
                            None => true,
                        };
                        if counted {
                            found.push(name.clone());
                            assert(found@.map_values(|s: String| s@) =~= before.push(name@));
                        }
                    } else if has_ext(name.as_str(), "crl") {
                        crl_file = Some(name.clone());
                    }
                },
            }
            i = i + 1;
        }
        assert(all_readable(entries@));
        proof {
            lemma_identities_bounded(entries@, opt_text(container), total as nat);
        }
        let count: usize = found.len();
        if count == 0 {
            return Err(ImportError::NoP12);
        }
        if count > 1 {
            return Err(ImportError::MultipleP12 { count });
        }
        match mode {
            ImportMode::Managed => if !has_manifest {
                return Err(ImportError::NoManifest);
            },
            ImportMode::Standalone => if !has_tags {
                return Err(ImportError::NoTagsFile);
            },
        }
        let p12_file = found[0].clone();
        Ok(EnrollmentPackage { root, mode, p12_file, crl_file })
    }

    /// How the package is trusted.
    pub fn mode(&self) -> (r: ImportMode)
        ensures
            r == self.mode,
    {
        self.mode
    }

    /// The name of the per-host container.
    pub fn p12_file(&self) -> (r: &str)
        ensures
            r@ == self.p12_file@,
    {
        self.p12_file.as_str()
    }
}

/// A role slice, or the manifest, that goes into the role base.
#[derive(Debug)]
pub struct SliceCopy {
    /// Its name.
    pub name: String,
    /// Whether it is the manifest.
    pub manifest: bool,
}

impl SliceCopy {
    /// What the file is called in errors.
    pub fn artefact(&self) -> (r: &'static str)
        ensures
            r == slice_word(self.manifest),
    {
        if self.manifest {
            "manifest"
        } else {
            "slice"
        }
    }

    /// The cap of the file. A manifest is one file for the whole bundle and may be larger than a
    /// slice.
    pub fn cap(&self) -> (r: usize)
        ensures
            r == slice_cap(self.manifest),
    {
        if self.manifest {
            MAX_MANIFEST_BYTES
        } else {
            MAX_SLICE_BYTES
        }
    }
}

/// What a file of the role base is called in errors.
pub open spec fn slice_word(manifest: bool) -> &'static str {
    if manifest {
        "manifest"
    } else {
        "slice"
    }
}

/// The cap of a file of the role base.
pub open spec fn slice_cap(manifest: bool) -> usize {
    if manifest {
        MAX_MANIFEST_BYTES
    } else {
        MAX_SLICE_BYTES
    }
}

/// Whether a file of a package goes into the role base. A manifest goes there only from a package
/// that is trusted by it: from another it could later be taken for a signed one.
pub open spec fn is_role_slice(name: Seq<char>, with_manifest: bool) -> bool {
    (name != MANIFEST_FILENAME@ || with_manifest) && has_extension(name, "toml"@) && name
        != TAGS_FILENAME@ && name != STANDALONE_CODES_FILENAME@
}

/// Whether a file of a package goes into the role base.
pub fn role_slice(name: &str, with_manifest: bool) -> (r: bool)
    ensures
        r == is_role_slice(name@, with_manifest),
{
    (!str_eq(name, MANIFEST_FILENAME) || with_manifest) && has_ext(name, "toml") && !str_eq(
        name,
        TAGS_FILENAME,
    ) && !str_eq(name, STANDALONE_CODES_FILENAME)
}

/// What goes into the role base, as names and whether each is the manifest.
pub open spec fn slice_model(c: SliceCopy) -> (Seq<char>, bool) {
    (c.name@, c.manifest)
}

/// What of the first `n` entries goes into the role base, in their order.
pub open spec fn slices_of(
    entries: Seq<PackageEntry>,
    with_manifest: bool,
    n: nat,
) -> Seq<(Seq<char>, bool)>
    decreases n,
{
    if n == 0 {
        Seq::empty()
    } else {
        let before = slices_of(entries, with_manifest, (n - 1) as nat);
        if entries[n - 1] is File && is_role_slice(entry_name(entries[n - 1]), with_manifest) {
            before.push(
                (entry_name(entries[n - 1]), entry_name(entries[n - 1]) == MANIFEST_FILENAME@),
            )
        } else {
            before
        }
    }
}

/// Whether a plan copies what goes into the role base, up to the first entry that was not read.
pub open spec fn is_slice_plan(
    entries: Seq<PackageEntry>,
    with_manifest: bool,
    copies: Seq<SliceCopy>,
    stopped: Option<IoFailure>,
) -> bool {
    &&& all_readable(entries) ==> stopped is None && copies.map_values(
        |c: SliceCopy| slice_model(c),
    ) == slices_of(entries, with_manifest, entries.len())
    &&& forall|at: int| #[trigger]
        first_unreadable(entries, at) ==> copies.map_values(|c: SliceCopy| slice_model(c))
            == slices_of(entries, with_manifest, at as nat) && (stopped matches Some(f) && f.path@
            == entries[at]->Unreadable_0.path@ && f.reason@ == entries[at]->Unreadable_0.reason@)
}

/// What is copied into the role base, and the failure that stops it, if there is one.
pub fn copy_role_slices(entries: &Vec<PackageEntry>, with_manifest: bool) -> (r: (
    Vec<SliceCopy>,
    Option<IoFailure>,
))
    ensures
        is_slice_plan(entries@, with_manifest, r.0@, r.1),
{
    let mut copies: Vec<SliceCopy> = Vec::new();
    let total: usize = entries.len();
    let mut i: usize = 0;
    while i < total
        invariant
            i <= total,
            total == entries@.len(),
            forall|j: int| 0 <= j < i ==> !(#[trigger] entries@[j] is Unreadable),
            copies@.map_values(|c: SliceCopy| slice_model(c)) == slices_of(
                entries@,
                with_manifest,
                i as nat,
            ),
        decreases total - i,
    {
        let ghost before = copies@.map_values(|c: SliceCopy| slice_model(c));
        match &entries[i] {
            PackageEntry::Unreadable(f) => {
                assert(first_unreadable(entries@, i as int));
                assert forall|at: int| #[trigger] first_unreadable(entries@, at) implies at
                    == i by {}
                return (
                    copies,
                    Some(IoFailure { path: f.path.clone(), reason: f.reason.clone() }),
                );
            },
            PackageEntry::Other => {},
            PackageEntry::File(name) => {
                if role_slice(name.as_str(), with_manifest) {
                    let manifest = str_eq(name.as_str(), MANIFEST_FILENAME);
                    copies.push(SliceCopy { name: name.clone(), manifest });
                    assert(copies@.map_values(|c: SliceCopy| slice_model(c)) =~= before.push(
                        (name@, manifest),
                    ));
                }
            },
        }
        i = i + 1;
    }
    assert(all_readable(entries@));
    (copies, None)
}

/// A package trusted by permissions never brings a manifest into the role base, and no package
/// brings its file of tags or its Codes section there.
pub proof fn role_base_holds_slices_only(
    entries: Seq<PackageEntry>,
    with_manifest: bool,
    n: nat,
    i: int,
)
    requires
        n <= entries.len(),
        0 <= i < slices_of(entries, with_manifest, n).len(),
    ensures
        slices_of(entries, with_manifest, n)[i].0 != TAGS_FILENAME@,
        slices_of(entries, with_manifest, n)[i].0 != STANDALONE_CODES_FILENAME@,
        has_extension(slices_of(entries, with_manifest, n)[i].0, "toml"@),
        !with_manifest ==> slices_of(entries, with_manifest, n)[i].0 != MANIFEST_FILENAME@
            && !slices_of(entries, with_manifest, n)[i].1,
    decreases n,
{
    if n > 0 {
        let before = slices_of(entries, with_manifest, (n - 1) as nat);
        if i < before.len() {
            role_base_holds_slices_only(entries, with_manifest, (n - 1) as nat, i);
        }
    }
}

/// An extension is what follows the last dot of a name, whatever its case, where something stands
/// before the dot.
pub proof fn extension_follows_the_last_dot(stem: Seq<char>, tail: Seq<char>, ext: Seq<char>)
    requires
        !tail.contains('.'),
    ensures
        stem.len() > 0 && tail.len() > 0 ==> (has_extension(stem + seq!['.'] + tail, ext)
            == (ascii_lower(tail) == ascii_lower(ext))),
        !has_extension(seq!['.'] + tail, ext),
        !has_extension(tail, ext),
{
    let name = stem + seq!['.'] + tail;
    let at = stem.len() as int;
    reveal_strlit("..");
    assert(name.skip(at + 1) =~= tail);
    assert(name[at] == '.');
    if stem.len() > 0 && tail.len() > 0 {
        assert(name != ".."@);
        if has_extension(name, ext) {
            let i = choose|i: int|
                0 < i < name.len() && #[trigger] name[i] == '.' && !name.skip(i + 1).contains('.')
                    && ascii_lower(name.skip(i + 1)) == ascii_lower(ext);
            if i < at {
                assert(name.skip(i + 1)[at - i - 1] == '.');
            } else if i > at {
                assert(tail[i - at - 1] == '.');
            }
        }
    }
    let hidden = seq!['.'] + tail;
    assert forall|i: int| 0 < i < hidden.len() implies #[trigger] hidden[i] != '.' by {
        assert(hidden[i] == tail[i - 1]);
    }
}

proof fn lemma_dot_toml(name: Seq<char>)
    ensures
        has_extension(name, "toml"@) <==> name.len() > 5 && name[name.len() - 5] == '.' && ascii_lower(name.skip(name.len() - 4)) == "toml"@,
{
    reveal_strlit("toml");
    reveal_strlit("..");
    let at = name.len() - 5;
    let want = "toml"@;
    assert(ascii_lower(want) =~= want);
    if has_extension(name, want) {
        let i = choose|i: int|
            0 < i < name.len() && #[trigger] name[i] == '.' && !name.skip(i + 1).contains('.')
                && ascii_lower(name.skip(i + 1)) == ascii_lower(want);
        assert(ascii_lower(name.skip(i + 1)).len() == name.len() - i - 1);
        assert(i == at);
    }
    if name.len() > 5 && name[name.len() - 5] == '.' && ascii_lower(name.skip(name.len() - 4)) == "toml"@ {
        let tail = name.skip(at + 1);
        assert(tail =~= name.skip(name.len() - 4));
        assert(name[at] == '.');
        if tail.contains('.') {
            let k = choose|k: int| 0 <= k < tail.len() && tail[k] == '.';
            assert(ascii_lower(tail)[k] == '.');
        }
    }
}

/// Whether an entry of a package is a TOML file other than the tags, the Codes section and, where
/// the package is not trusted by it, the manifest.
pub open spec fn is_toml_of_roles(e: PackageEntry, with_manifest: bool) -> bool {
    e matches PackageEntry::File(name) && name@.len() > 5 && name@[name@.len() - 5] == '.'
        && ascii_lower(name@.skip(name@.len() - 4)) == "toml"@ && name@ != "tags.toml"@ && name@
        != "codes.toml"@ && (name@ == "manifest.toml"@ ==> with_manifest)
}

/// The role base is the listing, filtered: every TOML file of the package but its tags, its Codes
/// section and a manifest that it is not trusted by, in the order of the listing, and nothing else.
pub proof fn role_base_is_the_filtered_listing(
    entries: Seq<PackageEntry>,
    with_manifest: bool,
    n: nat,
)
    requires
        n <= entries.len(),
    ensures
        slices_of(entries, with_manifest, n) == entries.take(n as int).filter(
            |e: PackageEntry| is_toml_of_roles(e, with_manifest),
        ).map_values(|e: PackageEntry| (e->File_0@, e->File_0@ == "manifest.toml"@)),
    decreases n,
{
    let pred = |e: PackageEntry| is_toml_of_roles(e, with_manifest);
    let f = |e: PackageEntry| (e->File_0@, e->File_0@ == "manifest.toml"@);
    let here = entries.take(n as int);
    reveal(Seq::filter);
    if n == 0 {
        assert(here.filter(pred).map_values(f) =~= slices_of(entries, with_manifest, n));
    } else {
        role_base_is_the_filtered_listing(entries, with_manifest, (n - 1) as nat);
        let before = entries.take(n - 1);
        assert(here.drop_last() =~= before);
        assert(here.last() == entries[n - 1]);
        let e = entries[n - 1];
        if e is File {
            lemma_dot_toml(e->File_0@);
        }
        assert(here.filter(pred) == if pred(e) {
            before.filter(pred).push(e)
        } else {
            before.filter(pred)
        });
        if pred(e) {
            assert(before.filter(pred).push(e).map_values(f) =~= before.filter(pred).map_values(
                f,
            ).push(f(e)));
        }
        assert(here.filter(pred).map_values(f) =~= slices_of(entries, with_manifest, n));
    }
}

/// Every role slice of a package is copied: a TOML file that is listed, and is not the tags, the
/// Codes section or a manifest that the package is not trusted by, is in the plan, marked as the
/// manifest exactly if it is that.
pub proof fn every_role_slice_is_copied(
    entries: Seq<PackageEntry>,
    with_manifest: bool,
    copies: Seq<SliceCopy>,
    stopped: Option<IoFailure>,
    i: int,
)
    requires
        is_slice_plan(entries, with_manifest, copies, stopped),
        forall|j: int| 0 <= j < entries.len() ==> !(#[trigger] entries[j] is Unreadable),
        0 <= i < entries.len(),
        entries[i] is File,
        entries[i]->File_0@.len() > 5,
        entries[i]->File_0@[entries[i]->File_0@.len() - 5] == '.',
        ascii_lower(entries[i]->File_0@.skip(entries[i]->File_0@.len() - 4)) == "toml"@,
        entries[i]->File_0@ != "tags.toml"@,
        entries[i]->File_0@ != "codes.toml"@,
        entries[i]->File_0@ != "manifest.toml"@ || with_manifest,
    ensures
        stopped is None,
        exists|k: int|
            0 <= k < copies.len() && (#[trigger] copies[k]).name@ == entries[i]->File_0@
                && copies[k].manifest == (entries[i]->File_0@ == "manifest.toml"@),
{
    let n = entries.len();
    assert(all_readable(entries));
    lemma_slice_kept(entries, with_manifest, n, i);
    let all = slices_of(entries, with_manifest, n);
    let want = (entries[i]->File_0@, entries[i]->File_0@ == "manifest.toml"@);
    let k = choose|k: int| 0 <= k < all.len() && all[k] == want;
    assert(copies.map_values(|c: SliceCopy| slice_model(c))[k] == slice_model(copies[k]));
}

proof fn lemma_slice_kept(entries: Seq<PackageEntry>, with_manifest: bool, n: nat, i: int)
    requires
        n <= entries.len(),
        0 <= i < n,
        is_toml_of_roles(entries[i], with_manifest),
    ensures
        slices_of(entries, with_manifest, n).contains(
            (entries[i]->File_0@, entries[i]->File_0@ == "manifest.toml"@),
        ),
    decreases n,
{
    let before = slices_of(entries, with_manifest, (n - 1) as nat);
    let all = slices_of(entries, with_manifest, n);
    let want = (entries[i]->File_0@, entries[i]->File_0@ == "manifest.toml"@);
    lemma_dot_toml(entries[i]->File_0@);
    if i < n - 1 {
        lemma_slice_kept(entries, with_manifest, (n - 1) as nat, i);
        let k = choose|k: int| 0 <= k < before.len() && before[k] == want;
        assert(all[k] == want);
    } else {
        assert(all[all.len() - 1] == want);
    }
}

/// A listing that breaks off is copied up to there and reported: what was listed before is in the
/// plan as it would be of the shorter listing.
pub proof fn broken_listing_stops_the_copy(
    entries: Seq<PackageEntry>,
    with_manifest: bool,
    copies: Seq<SliceCopy>,
    stopped: Option<IoFailure>,
    at: int,
)
    requires
        is_slice_plan(entries, with_manifest, copies, stopped),
        0 <= at < entries.len(),
        entries[at] is Unreadable,
        forall|j: int| 0 <= j < at ==> !(#[trigger] entries[j] is Unreadable),
    ensures
        stopped is Some,
        stopped->0.path@ == entries[at]->Unreadable_0.path@,
        stopped->0.reason@ == entries[at]->Unreadable_0.reason@,
        copies.map_values(|c: SliceCopy| (c.name@, c.manifest)) == entries.take(at).filter(
            |e: PackageEntry| is_toml_of_roles(e, with_manifest),
        ).map_values(|e: PackageEntry| (e->File_0@, e->File_0@ == "manifest.toml"@)),
{
    assert(first_unreadable(entries, at));
    role_base_is_the_filtered_listing(entries, with_manifest, at as nat);
    assert(copies.map_values(|c: SliceCopy| (c.name@, c.manifest)) =~= copies.map_values(
        |c: SliceCopy| slice_model(c),
    ));
}

/// A package that is found complete has exactly one per-host container: the file with the extension
/// `p12` that its Codes section does not name.
pub proof fn complete_package_has_one_container(
    root: String,
    mode: ImportMode,
    probe: PackageProbe,
    p: EnrollmentPackage,
    i: int,
)
    requires
        parsed(root, mode, probe, Ok(p)),
        probe.entries is Ok,
        0 <= i < probe.entries->Ok_0@.len(),
    ensures
        probe.is_dir,
        p.root == root,
        p.mode == mode,
        mode is Managed ==> probe.has_manifest,
        mode is Standalone ==> probe.has_tags && probe.section is Ok,
        !(probe.entries->Ok_0@[i] is Unreadable),
        probe.entries->Ok_0@[i] matches PackageEntry::File(name) ==> has_extension(name@, "p12"@)
            && !(probe.section matches Ok(Some(s)) && (s.key_container matches Some(c) && c.file@
            == name@)) ==> p.p12_file@ == name@,
        exists|k: int|
            0 <= k < probe.entries->Ok_0@.len() && (
            #[trigger] probe.entries->Ok_0@[k] matches PackageEntry::File(name) && name@
                == p.p12_file@ && has_extension(name@, "p12"@)),
        !(probe.section matches Ok(Some(s)) && (s.key_container matches Some(c) && c.file@
            == p.p12_file@)),
        probe.section matches Ok(Some(s)) ==> (s.key_container matches Some(c) ==> c.file@.len() > 0
            && c.file@ != "."@ && c.file@ != ".."@ && !c.file@.contains('/') && !c.file@.contains(
            '\\',
        )),
{
    let entries = probe.entries->Ok_0@;
    let container = container_name(mode, probe.section)->Ok_0;
    if !all_readable(entries) {
        let j = lemma_first_bad(entries);
        assert(first_unreadable(entries, j));
    }
    assert(chosen(root, mode, probe, opt_text(container), entries, Ok(p)));
    let found = identities(entries, opt_text(container), entries.len());
    assert(found.len() == 1);
    let k = lemma_identity_from(entries, opt_text(container), entries.len(), 0);
    assert(entries[k] is File);
    reveal_strlit("");
    if let Ok(Some(section)) = probe.section {
        if let Some(c) = section.key_container {
            if c.file@.len() == 0 {
                assert(c.file@ =~= ""@);
            }
        }
    }
    if is_identity(entries[i], opt_text(container)) {
        lemma_identity_kept(entries, opt_text(container), entries.len(), i);
        let m = choose|m: int| 0 <= m < found.len() && found[m] == entry_name(entries[i]);
        assert(m == 0);
    }
}

proof fn lemma_first_bad(entries: Seq<PackageEntry>) -> (i: int)
    requires
        !all_readable(entries),
    ensures
        first_unreadable(entries, i),
    decreases entries.len(),
{
    let j = choose|j: int| 0 <= j < entries.len() && #[trigger] entries[j] is Unreadable;
    let p = entries.drop_last();
    if all_readable(p) {
        assert(j == entries.len() - 1) by {
            if j < p.len() {
                assert(p[j] is Unreadable);
            }
        }
        assert forall|k: int| 0 <= k < j implies !(#[trigger] entries[k] is Unreadable) by {
            assert(!(p[k] is Unreadable));
        }
        j
    } else {
        let i = lemma_first_bad(p);
        assert(p[i] == entries[i]);
        assert forall|k: int| 0 <= k < i implies !(#[trigger] entries[k] is Unreadable) by {
            assert(!(p[k] is Unreadable));
        }
        i
    }
}

proof fn lemma_identity_from(
    entries: Seq<PackageEntry>,
    container: Option<Seq<char>>,
    n: nat,
    m: int,
) -> (k: int)
    requires
        0 <= m < identities(entries, container, n).len(),
    ensures
        0 <= k < n,
        is_identity(entries[k], container),
        entry_name(entries[k]) == identities(entries, container, n)[m],
    decreases n,
{
    let before = identities(entries, container, (n - 1) as nat);
    if m < before.len() {
        lemma_identity_from(entries, container, (n - 1) as nat, m)
    } else {
        n - 1
    }
}

proof fn lemma_identity_kept(
    entries: Seq<PackageEntry>,
    container: Option<Seq<char>>,
    n: nat,
    i: int,
)
    requires
        0 <= i < n,
        is_identity(entries[i], container),
    ensures
        identities(entries, container, n).contains(entry_name(entries[i])),
    decreases n,
{
    let before = identities(entries, container, (n - 1) as nat);
    let all = identities(entries, container, n);
    if i < n - 1 {
        lemma_identity_kept(entries, container, (n - 1) as nat, i);
        let m = choose|m: int| 0 <= m < before.len() && before[m] == entry_name(entries[i]);
        assert(all[m] == entry_name(entries[i]));
    } else {
        assert(all[all.len() - 1] == entry_name(entries[i]));
    }
}

/// The revocation list of a package is the last file with the extension `crl` that is listed; there
/// is one exactly if such a file is listed.
pub proof fn last_listed_crl_is_taken(entries: Seq<PackageEntry>, n: nat, i: int)
    requires
        n <= entries.len(),
        0 <= i < n,
        entries[i] is File,
        has_extension(entries[i]->File_0@, "crl"@),
        forall|j: int|
            i < j < n ==> !(#[trigger] entries[j] matches PackageEntry::File(name) && has_extension(
                name@,
                "crl"@,
            )),
    ensures
        last_crl(entries, n) == Some(entries[i]->File_0@),
    decreases n,
{
    let name = entries[i]->File_0@;
    if i == n - 1 {
        if has_extension(name, "p12"@) {
            lemma_one_extension(name, "crl"@, "p12"@);
            reveal_strlit("crl");
            reveal_strlit("p12");
            assert(ascii_lower("crl"@)[0] == 'c');
            assert(ascii_lower("p12"@)[0] == 'p');
        }
    } else {
        last_listed_crl_is_taken(entries, (n - 1) as nat, i);
        assert(entries[n - 1] == entries[n - 1]);
    }
}

proof fn lemma_one_extension(name: Seq<char>, a: Seq<char>, b: Seq<char>)
    requires
        has_extension(name, a),
        has_extension(name, b),
    ensures
        ascii_lower(a) == ascii_lower(b),
{
    let i = choose|i: int|
        0 < i < name.len() && #[trigger] name[i] == '.' && !name.skip(i + 1).contains('.')
            && ascii_lower(name.skip(i + 1)) == ascii_lower(a);
    let j = choose|j: int|
        0 < j < name.len() && #[trigger] name[j] == '.' && !name.skip(j + 1).contains('.')
            && ascii_lower(name.skip(j + 1)) == ascii_lower(b);
    if i < j {
        assert(name.skip(i + 1)[j - i - 1] == '.');
    } else if j < i {
        assert(name.skip(j + 1)[i - j - 1] == '.');
    }
}

/// Without a file with the extension `crl` there is no revocation list.
pub proof fn no_crl_without_a_file(entries: Seq<PackageEntry>, n: nat)
    requires
        n <= entries.len(),
        forall|j: int|
            0 <= j < n ==> !(#[trigger] entries[j] matches PackageEntry::File(name) && has_extension(
                name@,
                "crl"@,
            )),
    ensures
        last_crl(entries, n) is None,
    decreases n,
{
    if n > 0 {
        no_crl_without_a_file(entries, (n - 1) as nat);
        assert(entries[n - 1] == entries[n - 1]);
    }
}

/// The refusals of a directory: no container, several, or a missing file of the bundle. How many
/// containers there are is how many files have the extension `p12`, less the one that the Codes
/// section names.
pub proof fn containers_are_counted(
    entries: Seq<PackageEntry>,
    container: Option<Seq<char>>,
    n: nat,
)
    requires
        n <= entries.len(),
    ensures
        identities(entries, container, n) == entries.take(n as int).filter(
            |e: PackageEntry|
                e is File && has_extension(e->File_0@, "p12"@) && container != Some(e->File_0@),
        ).map_values(|e: PackageEntry| e->File_0@),
    decreases n,
{
    let pred = |e: PackageEntry|
        e is File && has_extension(e->File_0@, "p12"@) && container != Some(e->File_0@);
    let f = |e: PackageEntry| e->File_0@;
    let here = entries.take(n as int);
    reveal(Seq::filter);
    if n > 0 {
        containers_are_counted(entries, container, (n - 1) as nat);
        let before = entries.take(n - 1);
        let e = entries[n - 1];
        assert(here.drop_last() =~= before);
        assert(here.last() == e);
        if pred(e) {
            assert(before.filter(pred).push(e).map_values(f) =~= before.filter(pred).map_values(
                f,
            ).push(f(e)));
        }
    }
    assert(here.filter(pred).map_values(f) =~= identities(entries, container, n));
}

/// A pin in lower or upper case, with white space round it or without, is that of bytes exactly if
/// it is their hash: two byte strings that one pin accepts have the same hash.
pub proof fn pin_accepts_one_hash(a: Seq<u8>, b: Seq<u8>, pin: Seq<char>)
    ensures
        pin_holds(a, pin) && pin_holds(b, pin) ==> ascii_lower(hex_text(sha256(a))) == ascii_lower(
            hex_text(sha256(b)),
        ),
        pin.len() > 0 && !is_space(pin[0]) && !is_space(pin.last()) ==> (pin_holds(a, pin) <==>
            ascii_lower(pin) == ascii_lower(hex_text(sha256(a)))),
        pin.len() > 0 && is_space(pin[0]) ==> pin_holds(a, pin) == pin_holds(a, pin.drop_first()),
{
    if pin.len() > 0 && !is_space(pin[0]) && !is_space(pin.last()) {
        lemma_trimmed_fixed(pin);
    }
}

/// Which names are files of a directory: neither empty nor a dot or two, and without a separator.
pub proof fn bare_names_stay_in_the_directory(name: Seq<char>, i: int)
    ensures
        is_bare_name(name) && 0 <= i < name.len() ==> name[i] != '/' && name[i] != '\\',
        is_bare_name(name) ==> name.len() > 0,
        name.len() > 2 && !name.contains('/') && !name.contains('\\') ==> is_bare_name(name),
        name.len() == 1 ==> (is_bare_name(name) <==> name[0] != '.' && name[0] != '/' && name[0]
            != '\\'),
{
    reveal_strlit("");
    reveal_strlit(".");
    reveal_strlit("..");
    if name.len() == 0 {
        assert(name =~= ""@);
    }
    if name.len() == 1 {
        assert(name[0] == '.' ==> name =~= "."@);
        assert(name.contains('/') <==> name[0] == '/');
        assert(name.contains('\\') <==> name[0] == '\\');
    }
}

/// A file that is larger than its cap is refused with the cap and one byte more; one that is read
/// whole is taken as it is.
pub proof fn caps_are_reported(read: FileRead, artefact: &'static str, max: usize)
    requires
        max < usize::MAX,
    ensures
        read matches FileRead::Whole(b) ==> bytes_of(read, artefact, max) == Ok::<
            Vec<u8>,
            ImportError,
        >(b),
        bytes_of(read, artefact, max) is Ok ==> read is Whole,
        read is TooLarge ==> bytes_of(read, artefact, max) == Err::<Vec<u8>, ImportError>(
            ImportError::Oversize { artefact, read: (max + 1) as usize, max },
        ),
        read matches FileRead::Missing(f) ==> bytes_of(read, artefact, max) == Err::<
            Vec<u8>,
            ImportError,
        >(ImportError::Io { path: f.path, reason: f.reason }),
        read matches FileRead::Failed(f) ==> bytes_of(read, artefact, max) == Err::<
            Vec<u8>,
            ImportError,
        >(ImportError::Io { path: f.path, reason: f.reason }),
{
}

/// The caps of the files, the permissions, and the names that a package goes by.
pub proof fn package_limits()
    ensures
        MAX_CRL_BYTES == 1024 * 1024,
        MAX_P12_BYTES == 256 * 1024,
        slice_cap(true) == 256 * 1024,
        slice_cap(false) == 64 * 1024,
        slice_word(true)@ == "manifest"@,
        slice_word(false)@ == "slice"@,
        FILE_MODE == 0o644,
        P12_MODE == 0o600,
        P12_MODE % 64 == 0,
        DIR_MODE == 0o755,
{
}

/// An import is refused for its manifest, for its revocation list, or for the install itself, and
/// the reason says which.
pub proof fn reasons_tell_what_was_refused(e: ImportError)
    ensures
        reason_text(e) == "manifest"@ || reason_text(e) == "crl"@ || reason_text(e) == "install"@,
        e is Manifest || e is P12HashMismatch ==> reason_text(e) == "manifest"@,
        e is CrlHashMismatch || e is CrlMissing ==> reason_text(e) == "crl"@,
        !(e is Manifest) && !(e is P12HashMismatch) && !(e is CrlHashMismatch) && !(e is CrlMissing)
            ==> reason_text(e) == "install"@,
{
}

/// Whose container a Codes section names: a section that cannot be read names none where a manifest
/// is to be trusted, and refuses the package where none is.
pub proof fn unreadable_section_waits_for_the_manifest(
    mode: ImportMode,
    section: Result<Option<ManifestCodes>, ImportError>,
)
    ensures
        section is Err && mode is Managed ==> container_name(mode, section) == Ok::<
            Option<String>,
            ImportError,
        >(None),
        section is Err && mode is Standalone ==> container_name(mode, section) == Err::<
            Option<String>,
            ImportError,
        >(section->Err_0),
        section matches Ok(Some(s)) ==> (s.key_container matches Some(c) ==> (container_name(
            mode,
            section,
        ) == Ok::<Option<String>, ImportError>(Some(c.file)) || container_name(mode, section)
            == Err::<Option<String>, ImportError>(ImportError::UnsafeName { name: c.file }))),
{
}

} // verus!
