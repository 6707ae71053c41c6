//! Importing enrollment packages onto a device that is kept in memory.

use openssl::pkey::{PKey, Private};
use openssl::sign::{Signer, Verifier};
use sha2::{Digest, Sha256};
use std::collections::BTreeMap;
use tessera_core::audit::AuditLog;
use tessera_core::enrollment::audit::{
    emit_device_enrolled, emit_enrollment_rejected, EnrollAuditIds, EnrollmentJournal,
    EVENT_DEVICE_ENROLLED, EVENT_ENROLLMENT_REJECTED, REASON_CRL, REASON_MANIFEST,
};
use tessera_core::enrollment::codes::{
    read_standalone_section, CodesAction, CodesReply, CodesRun, SectionRead,
};
use tessera_core::enrollment::import::{
    copy_role_slices, ensure_bare_name, has_ext, Applied, ArtefactError, EnrollmentPackage,
    FileRead, ImportError, ImportMode, ImportOutcome, InstallPaths, IoFailure, Manifest,
    ManifestCodes, ManifestCodesFile, ManifestCrl, ManifestError, PackageEntry, PackageProbe,
    RoleStoreError, MANIFEST_FILENAME, MAX_MANIFEST_BYTES, MAX_SLICE_BYTES,
};
use tessera_core::enrollment::install::{
    CopyFault, ImportAction, ImportReply, ImportResult, ImportRun,
};
use tessera_core::enrollment::transaction::{
    backup_name, stage_name, temp_name, Artefact, PublishStep, UndoStep,
};

/// Caps of the files that the library is told the caps of.
const CAP: usize = 65536;

type Files = BTreeMap<String, Vec<u8>>;

struct TestKey {
    pkey: PKey<Private>,
    pub_pem: Vec<u8>,
}

fn gen_key() -> TestKey {
    let pkey = PKey::generate_ed25519().unwrap();
    let pub_pem = pkey.public_key_to_pem().unwrap();
    TestKey { pkey, pub_pem }
}

fn sign(key: &TestKey, payload: &[u8]) -> String {
    let mut signer = Signer::new_without_digest(&key.pkey).unwrap();
    hex::encode(signer.sign_oneshot_to_vec(payload).unwrap())
}

fn sha(bytes: &[u8]) -> String {
    hex::encode(Sha256::digest(bytes))
}

fn slice_doc(role: &str, version: u32) -> String {
    format!(
        "role = \"{role}\"\nversion = {version}\nos = \"linux\"\nname = \"{role}\"\nlevel = 1\n"
    )
}

struct PkgSpec<'a> {
    bundle_version: u64,
    slices: &'a [(&'a str, u32)],
    tags: &'a [(&'a str, &'a str)],
    crl: Option<&'a [u8]>,
    p12_pin: bool,
}

const P12_OPAQUE: &[u8] = b"\x30\x82PKCS12-OPAQUE";

fn sealed(key: &TestKey, version: u64, rest: &str) -> String {
    let unsigned = format!("bundle_version = {version}\nos = \"linux\"\n{rest}");
    let sig = sign(key, unsigned.as_bytes());
    format!("bundle_version = {version}\nos = \"linux\"\nsignature = \"{sig}\"\n{rest}")
}

fn build_managed_pkg(key: &TestKey, spec: &PkgSpec<'_>) -> Files {
    let mut dir = Files::new();
    let mut roles = String::new();
    for (role, version) in spec.slices {
        let body = slice_doc(role, *version);
        roles.push_str(&format!(
            "[roles.{role}]\nversion = {version}\nsha256 = \"{}\"\n",
            sha(body.as_bytes())
        ));
        dir.insert(format!("{role}.toml"), body.into_bytes());
    }
    let mut tags = String::new();
    if !spec.tags.is_empty() {
        tags.push_str("[tags]\n");
        for (k, v) in spec.tags {
            tags.push_str(&format!("{k} = \"{v}\"\n"));
        }
    }
    let mut crl = String::new();
    if let Some(bytes) = spec.crl {
        dir.insert("device.crl".to_string(), bytes.to_vec());
        crl = format!("[crl]\nfile = \"device.crl\"\nsha256 = \"{}\"\n", sha(bytes));
    }
    let mut p12 = String::new();
    if spec.p12_pin {
        p12 = format!("p12_sha256 = \"{}\"\n", sha(P12_OPAQUE));
    }
    let full = sealed(key, spec.bundle_version, &format!("{p12}{tags}{crl}{roles}"));
    dir.insert(MANIFEST_FILENAME.to_string(), full.into_bytes());
    dir.insert("host-abc123.p12".to_string(), P12_OPAQUE.to_vec());
    dir
}

fn build_standalone_pkg(spec: &PkgSpec<'_>) -> Files {
    let mut dir = Files::new();
    for (role, version) in spec.slices {
        dir.insert(format!("{role}.toml"), slice_doc(role, *version).into_bytes());
    }
    let mut tags = String::from("[tags]\n");
    for (k, v) in spec.tags {
        tags.push_str(&format!("{k} = \"{v}\"\n"));
    }
    dir.insert("tags.toml".to_string(), tags.into_bytes());
    if let Some(bytes) = spec.crl {
        dir.insert("device.crl".to_string(), bytes.to_vec());
    }
    dir.insert("host-xyz.p12".to_string(), b"\x30\x82PKCS12-OPAQUE".to_vec());
    dir
}

fn text(v: &toml::Value, key: &str) -> Option<String> {
    v.get(key).and_then(|x| x.as_str()).map(|s| s.to_string())
}

fn codes_file(v: Option<&toml::Value>) -> Option<ManifestCodesFile> {
    v.map(|f| ManifestCodesFile { file: text(f, "file").unwrap(), sha256: text(f, "sha256") })
}

fn codes_of(v: &toml::Value) -> Result<ManifestCodes, String> {
    let epoch = v.get("epoch").and_then(|e| e.as_integer()).ok_or("epoch is not a number")?;
    Ok(ManifestCodes {
        epoch: epoch as u64,
        key_container: codes_file(v.get("key_container")),
        tickets: codes_file(v.get("tickets")),
        ticket_revocations: codes_file(v.get("ticket_revocations")),
        ticket_authority: codes_file(v.get("ticket_authority")),
    })
}

fn parse_manifest(bytes: &[u8]) -> Result<Manifest, ManifestError> {
    let other = |e: String| ManifestError::Other { message: e };
    let body = std::str::from_utf8(bytes).map_err(|e| other(e.to_string()))?;
    let v: toml::Value = toml::from_str(body).map_err(|e| other(e.to_string()))?;
    let codes = match v.get("codes") {
        Some(c) => Some(codes_of(c).map_err(other)?),
        None => None,
    };
    Ok(Manifest {
        bundle_version: v.get("bundle_version").and_then(|n| n.as_integer()).unwrap() as u64,
        crl: v.get("crl").map(|c| ManifestCrl {
            file: text(c, "file").unwrap(),
            sha256: text(c, "sha256").unwrap(),
        }),
        p12_sha256: text(&v, "p12_sha256"),
        codes,
    })
}

fn verify_signature(bytes: &[u8], pub_pem: &[u8]) -> Result<(), ManifestError> {
    let body = String::from_utf8_lossy(bytes).into_owned();
    let mut payload = String::new();
    let mut signature = String::new();
    for line in body.lines() {
        match line.strip_prefix("signature = ") {
            Some(s) => signature = s.trim_matches('"').to_string(),
            None => {
                payload.push_str(line);
                payload.push('\n');
            }
        }
    }
    let key = PKey::public_key_from_pem(pub_pem).unwrap();
    let mut verifier = Verifier::new_without_digest(&key).unwrap();
    let sig = hex::decode(signature).map_err(|_| ManifestError::BadSignature)?;
    match verifier.verify_oneshot(&sig, payload.as_bytes()) {
        Ok(true) => Ok(()),
        _ => Err(ManifestError::BadSignature),
    }
}

fn read(files: &Files, name: &str, cap: usize) -> FileRead {
    match files.get(name) {
        Some(bytes) if bytes.len() > cap => FileRead::TooLarge,
        Some(bytes) => FileRead::Whole(bytes.clone()),
        None => FileRead::Missing(failure(name, "No such file or directory")),
    }
}

fn failure(path: &str, reason: &str) -> IoFailure {
    IoFailure { path: path.to_string(), reason: reason.to_string() }
}

fn read_section(files: &Files) -> Result<Option<ManifestCodes>, ImportError> {
    let section = match read(files, "codes.toml", MAX_MANIFEST_BYTES) {
        FileRead::Whole(bytes) => match std::str::from_utf8(&bytes) {
            Err(e) => SectionRead::NotUtf8(e.to_string()),
            Ok(body) => match toml::from_str::<toml::Value>(body) {
                Err(e) => SectionRead::Invalid(e.to_string()),
                Ok(v) => match codes_of(&v) {
                    Ok(s) => SectionRead::Section(s),
                    Err(e) => SectionRead::Invalid(e),
                },
            },
        },
        FileRead::TooLarge => SectionRead::TooLarge,
        FileRead::Missing(_) => SectionRead::Missing,
        FileRead::Failed(f) => SectionRead::Failed(f),
    };
    read_standalone_section(section)
}

fn entries(files: &Files) -> Vec<PackageEntry> {
    files.keys().map(|n| PackageEntry::File(n.clone())).collect()
}

fn parse(files: &Files, mode: ImportMode) -> Result<EnrollmentPackage, ImportError> {
    let section = match mode {
        ImportMode::Standalone => read_section(files),
        ImportMode::Managed => match files.get(MANIFEST_FILENAME) {
            Some(bytes) => parse_manifest(bytes).map(|m| m.codes).map_err(ImportError::Manifest),
            None => Err(ImportError::NoManifest),
        },
    };
    EnrollmentPackage::parse(
        "/media/package".to_string(),
        mode,
        PackageProbe {
            is_dir: true,
            section,
            entries: Ok(entries(files)),
            has_manifest: files.contains_key(MANIFEST_FILENAME),
            has_tags: files.contains_key("tags.toml"),
        },
    )
}

/// A device in memory.
#[derive(Default, Clone, PartialEq, Debug)]
struct Device {
    files: BTreeMap<String, (Vec<u8>, u32)>,
    roles: Files,
    stage: Option<Files>,
    floor: Option<u64>,
    refuse_publish: Option<PublishStep2>,
    refuse_swap: bool,
}

#[derive(Clone, Copy, PartialEq, Debug)]
enum PublishStep2 {
    Aside(Artefact),
    In(Artefact),
}

fn home(a: Artefact) -> String {
    match a {
        Artefact::Tags => "/dev/tags.toml".to_string(),
        Artefact::Crl => "/dev/device.crl".to_string(),
        Artefact::P12 => "/dev/host.p12".to_string(),
    }
}

fn backup(a: Artefact) -> String {
    backup_name(&home(a))
}

fn temp(a: Artefact) -> String {
    temp_name(&home(a), 7, 0)
}

impl Device {
    fn rename(&mut self, from: &str, to: &str) {
        if let Some(f) = self.files.remove(from) {
            self.files.insert(to.to_string(), f);
        }
    }

    fn bytes(&self, a: Artefact) -> Option<Vec<u8>> {
        self.files.get(&home(a)).map(|f| f.0.clone())
    }

    fn mode(&self, a: Artefact) -> Option<u32> {
        self.files.get(&home(a)).map(|f| f.1)
    }

    fn act(&mut self, run: &ImportRun, action: ImportAction, pkg: &Files, key: &[u8]) -> ImportReply {
        match action {
            ImportAction::MakeFloorDir => ImportReply::Made(Ok(())),
            ImportAction::ReadPackageFile => {
                let (name, cap) = run.file_to_read().unwrap();
                ImportReply::Read(read(pkg, name, cap))
            }
            ImportAction::OpenManifest(bytes) => ImportReply::Opened {
                parsed: parse_manifest(&bytes),
                signed: verify_signature(&bytes, key),
            },
            ImportAction::ReadFloor => ImportReply::Floor(Ok(self.floor)),
            ImportAction::ReadCodesSection => ImportReply::Codes(read_section(pkg)),
            ImportAction::MakeStage => {
                self.stage = Some(Files::new());
                ImportReply::Made(Ok(()))
            }
            ImportAction::ListPackage => ImportReply::Listed(Ok(entries(pkg))),
            ImportAction::CopySlices(copies) => {
                for c in copies {
                    match read(pkg, &c.name, c.cap()) {
                        FileRead::Whole(bytes) => {
                            self.stage.as_mut().unwrap().insert(c.name.clone(), bytes);
                        }
                        _ => {
                            return ImportReply::Copied(Err(CopyFault::TooLarge {
                                manifest: c.manifest,
                            }))
                        }
                    }
                }
                ImportReply::Copied(Ok(()))
            }
            ImportAction::StageFile { artefact, bytes, mode } => {
                self.files.insert(temp(artefact), (bytes, mode));
                ImportReply::Staged(Ok(self.files.contains_key(&home(artefact))))
            }
            ImportAction::Publish(step) => {
                let (from, to, this) = match step {
                    PublishStep::MoveAside(a) => (home(a), backup(a), PublishStep2::Aside(a)),
                    PublishStep::MoveIn(a) => (temp(a), home(a), PublishStep2::In(a)),
                };
                if self.refuse_publish == Some(this) {
                    let place = match step {
                        PublishStep::MoveAside(a) | PublishStep::MoveIn(a) => home(a),
                    };
                    return ImportReply::Moved(Err(failure(&place, "is a directory")));
                }
                self.rename(&from, &to);
                ImportReply::Moved(Ok(()))
            }
            ImportAction::SwapRoles { managed } => {
                if managed {
                    let bytes = self.stage.as_ref().unwrap()[MANIFEST_FILENAME].clone();
                    self.floor = Some(parse_manifest(&bytes).unwrap().bundle_version);
                }
                if self.refuse_swap {
                    let message = "rename failed".to_string();
                    return ImportReply::Swapped(Err(RoleStoreError { message }));
                }
                self.roles = self.stage.take().unwrap();
                ImportReply::Swapped(Ok(()))
            }
            ImportAction::DropBackup(a) => {
                self.files.remove(&backup(a));
                ImportReply::Done
            }
            ImportAction::Undo(step) => {
                match step {
                    UndoStep::PutBack(a) => self.rename(&backup(a), &home(a)),
                    UndoStep::RemoveInstalled(a) => {
                        self.files.remove(&home(a));
                    }
                    UndoStep::RemoveTemp(a) => {
                        self.files.remove(&temp(a));
                    }
                }
                ImportReply::Done
            }
            ImportAction::RestoreFloor(floor) => {
                self.floor = floor;
                ImportReply::Done
            }
            ImportAction::RemoveStage => {
                self.stage = None;
                ImportReply::Done
            }
            ImportAction::Finish(_) => panic!("nothing is left to do"),
        }
    }

    fn import(&mut self, pkg: &Files, mode: ImportMode, key: Option<&TestKey>) -> ImportResult {
        let (mut run, mut action) = parse(pkg, mode).unwrap().install(key.is_some(), CAP);
        loop {
            if let ImportAction::Finish(result) = action {
                let (mut log, mut journal) = (AuditLog::new(), EnrollmentJournal::new());
                run.report(&result, &mut log, &mut journal);
                let silent = matches!(&result, Ok((outcome, _)) if outcome.no_op);
                assert_eq!(log.events.is_empty(), silent);
                assert_eq!(journal.records.len(), log.events.len());
                return result;
            }
            let pem = key.map(|k| k.pub_pem.clone()).unwrap_or_default();
            let reply = self.act(&run, action, pkg, &pem);
            assert!(run.awaits(&reply));
            (run, action) = run.step(reply);
        }
    }

    fn outcome(&mut self, pkg: &Files, mode: ImportMode, key: Option<&TestKey>) -> ImportOutcome {
        self.import(pkg, mode, key).unwrap().0
    }

    fn tags(&self, key: &str) -> Option<String> {
        let bytes = self.roles.get(MANIFEST_FILENAME)?;
        let v: toml::Value = toml::from_str(std::str::from_utf8(bytes).unwrap()).unwrap();
        text(v.get("tags")?, key)
    }
}

fn managed(key: &TestKey, version: u64, region: &str, crl: Option<&[u8]>) -> Files {
    build_managed_pkg(
        key,
        &PkgSpec {
            bundle_version: version,
            slices: &[("oper", 1)],
            tags: &[("region", region)],
            crl,
            p12_pin: false,
        },
    )
}

#[test]
fn parse_managed_locates_p12_manifest_and_crl() {
    let key = gen_key();
    let pkg = managed(&key, 1, "north", Some(b"CRLBYTES"));
    let parsed = parse(&pkg, ImportMode::Managed).unwrap();
    assert_eq!(parsed.mode(), ImportMode::Managed);
    assert_eq!(parsed.p12_file(), "host-abc123.p12");
}

#[test]
fn parse_no_p12_is_error() {
    let mut dir = Files::new();
    dir.insert("tags.toml".to_string(), b"[tags]\n".to_vec());
    let err = parse(&dir, ImportMode::Standalone).unwrap_err();
    assert!(matches!(err, ImportError::NoP12));
}

#[test]
fn parse_multiple_p12_is_error() {
    let mut dir = Files::new();
    dir.insert("tags.toml".to_string(), b"[tags]\n".to_vec());
    dir.insert("a.p12".to_string(), b"x".to_vec());
    dir.insert("b.p12".to_string(), b"y".to_vec());
    let err = parse(&dir, ImportMode::Standalone).unwrap_err();
    assert!(matches!(err, ImportError::MultipleP12 { count: 2 }));
}

#[test]
fn parse_managed_missing_manifest_is_error() {
    let mut dir = Files::new();
    dir.insert("host.p12".to_string(), b"x".to_vec());
    let err = parse(&dir, ImportMode::Managed).unwrap_err();
    assert!(matches!(err, ImportError::NoManifest));
    let err = parse(&dir, ImportMode::Standalone).unwrap_err();
    assert!(matches!(err, ImportError::NoTagsFile));
}

#[test]
fn parse_missing_package_dir_is_error() {
    let probe = PackageProbe {
        is_dir: false,
        section: Ok(None),
        entries: Ok(vec![]),
        has_manifest: false,
        has_tags: false,
    };
    let err =
        EnrollmentPackage::parse("/media/nope".to_string(), ImportMode::Managed, probe).unwrap_err();
    assert!(matches!(err, ImportError::PackageMissing { .. }));
    assert_eq!(err.message(), "enrollment package not found at /media/nope");
}

#[test]
fn an_unreadable_entry_stops_the_parse() {
    let probe = PackageProbe {
        is_dir: true,
        section: Ok(None),
        entries: Ok(vec![
            PackageEntry::File("a.p12".to_string()),
            PackageEntry::Other,
            PackageEntry::Unreadable(failure("/media/p", "I/O error")),
        ]),
        has_manifest: false,
        has_tags: true,
    };
    let err =
        EnrollmentPackage::parse("/media/p".to_string(), ImportMode::Standalone, probe).unwrap_err();
    assert!(matches!(err, ImportError::Io { path, reason } if path == "/media/p" && reason == "I/O error"));
}

#[test]
fn managed_import_with_valid_signature_installs_everything() {
    let key = gen_key();
    let mut device = Device::default();
    let pkg = build_managed_pkg(
        &key,
        &PkgSpec {
            bundle_version: 7,
            slices: &[("oper", 1), ("serv", 2)],
            tags: &[("region", "north")],
            crl: Some(b"DEVICE-CRL-PEM"),
            p12_pin: false,
        },
    );
    let outcome = device.outcome(&pkg, ImportMode::Managed, Some(&key));
    assert_eq!(outcome.bundle_version, 7);
    assert!(outcome.baseline_established);
    assert!(!outcome.no_op);
    assert!(device.roles.contains_key("oper.toml"));
    assert!(device.roles.contains_key("serv.toml"));
    assert!(device.roles.contains_key(MANIFEST_FILENAME));
    assert_eq!(device.bytes(Artefact::Crl).unwrap(), b"DEVICE-CRL-PEM");
    assert_eq!(device.mode(Artefact::Crl), Some(0o644));
    assert!(device.bytes(Artefact::P12).is_some());
    assert_eq!(device.mode(Artefact::P12), Some(0o600));
    assert_eq!(device.floor, Some(7));
    assert_eq!(device.files.len(), 2);
}

#[test]
fn managed_import_broken_signature_installs_nothing() {
    let key = gen_key();
    let mut device = Device::default();
    let mut pkg = managed(&key, 3, "north", None);
    let body = String::from_utf8(pkg[MANIFEST_FILENAME].clone())
        .unwrap()
        .replace("region = \"north\"", "region = \"south\"");
    pkg.insert(MANIFEST_FILENAME.to_string(), body.into_bytes());
    let err = device.import(&pkg, ImportMode::Managed, Some(&key)).unwrap_err();
    assert!(matches!(err, ImportError::Manifest(ManifestError::BadSignature)));
    assert_eq!(device, Device::default());
}

#[test]
fn managed_import_crl_hash_mismatch_installs_nothing() {
    let key = gen_key();
    let mut device = Device::default();
    let mut pkg = build_managed_pkg(
        &key,
        &PkgSpec {
            bundle_version: 4,
            slices: &[("oper", 1)],
            tags: &[],
            crl: Some(b"ORIGINAL-CRL"),
            p12_pin: false,
        },
    );
    pkg.insert("device.crl".to_string(), b"TAMPERED-CRL".to_vec());
    let err = device.import(&pkg, ImportMode::Managed, Some(&key)).unwrap_err();
    assert!(matches!(err, ImportError::CrlHashMismatch));
    assert_eq!(device, Device::default());
}

#[test]
fn managed_import_without_key_is_missing_key() {
    let key = gen_key();
    let pkg = managed(&key, 1, "north", None);
    let err = Device::default().import(&pkg, ImportMode::Managed, None).unwrap_err();
    assert!(matches!(err, ImportError::MissingKey));
}

#[test]
fn standalone_import_lays_out_files_under_fs_perms() {
    let mut device = Device::default();
    let pkg = build_standalone_pkg(&PkgSpec {
        bundle_version: 0,
        slices: &[("oper", 1)],
        tags: &[("region", "south")],
        crl: Some(b"STANDALONE-CRL"),
        p12_pin: false,
    });
    let outcome = device.outcome(&pkg, ImportMode::Standalone, None);
    assert_eq!(outcome.bundle_version, 0);
    assert!(!outcome.baseline_established);
    assert!(device.roles.contains_key("oper.toml"));
    assert_eq!(device.mode(Artefact::Tags), Some(0o644));
    assert_eq!(device.bytes(Artefact::Crl).unwrap(), b"STANDALONE-CRL");
    assert_eq!(device.mode(Artefact::P12), Some(0o600));
    assert_eq!(device.floor, None);
}

#[test]
fn baseline_first_import_persists_floor() {
    let key = gen_key();
    let mut device = Device::default();
    assert_eq!(device.floor, None);
    let pkg = managed(&key, 5, "north", None);
    let outcome = device.outcome(&pkg, ImportMode::Managed, Some(&key));
    assert!(outcome.baseline_established);
    assert_eq!(device.floor, Some(5));
}

#[test]
fn rollback_smaller_version_rejected_prior_state_retained() {
    let key = gen_key();
    let mut device = Device::default();
    device.outcome(&managed(&key, 10, "north", None), ImportMode::Managed, Some(&key));
    assert_eq!(device.floor, Some(10));
    let err = device
        .import(&managed(&key, 5, "south", None), ImportMode::Managed, Some(&key))
        .unwrap_err();
    assert!(matches!(
        err,
        ImportError::Manifest(ManifestError::Rollback { found: 5, persisted: 10 })
    ));
    assert_eq!(device.floor, Some(10));
    assert_eq!(device.tags("region").as_deref(), Some("north"));
}

#[test]
fn repeat_same_version_is_no_op() {
    let key = gen_key();
    let mut device = Device::default();
    let pkg = managed(&key, 8, "north", None);
    let first = device.outcome(&pkg, ImportMode::Managed, Some(&key));
    assert!(!first.no_op);
    assert!(first.baseline_established);
    let second = device.outcome(&pkg, ImportMode::Managed, Some(&key));
    assert!(second.no_op);
    assert_eq!(second.bundle_version, 8);
    assert_eq!(device.floor, Some(8));
}

#[test]
fn larger_version_applied() {
    let key = gen_key();
    let mut device = Device::default();
    device.outcome(&managed(&key, 2, "north", None), ImportMode::Managed, Some(&key));
    assert_eq!(device.floor, Some(2));
    let outcome =
        device.outcome(&managed(&key, 9, "south", None), ImportMode::Managed, Some(&key));
    assert!(!outcome.no_op);
    assert!(!outcome.baseline_established);
    assert_eq!(device.floor, Some(9));
    assert_eq!(device.tags("region").as_deref(), Some("south"));
}

#[test]
fn idempotent_reimport_same_manifest_no_op() {
    let key = gen_key();
    let mut device = Device::default();
    let pkg = managed(&key, 4, "north", Some(b"CRL-A"));
    device.outcome(&pkg, ImportMode::Managed, Some(&key));
    let before = device.clone();
    let second = device.outcome(&pkg, ImportMode::Managed, Some(&key));
    assert!(second.no_op);
    assert_eq!(device, before);
}

#[test]
fn partial_import_failure_rolls_back_to_prior_state() {
    let key = gen_key();
    let mut device = Device::default();
    device.outcome(
        &managed(&key, 3, "north", Some(b"CRL-ORIGINAL")),
        ImportMode::Managed,
        Some(&key),
    );
    let before = device.clone();
    let mut pkg6 = managed(&key, 6, "south", Some(b"CRL-NEW"));
    pkg6.remove("device.crl");
    let err = device.import(&pkg6, ImportMode::Managed, Some(&key)).unwrap_err();
    assert!(matches!(err, ImportError::CrlMissing { .. }));
    assert_eq!(device, before);
    assert_eq!(device.tags("region").as_deref(), Some("north"));
}

#[test]
fn phase2_io_failure_does_not_advance_floor_or_roles() {
    let key = gen_key();
    let mut device = Device::default();
    device.outcome(
        &managed(&key, 3, "north", Some(b"CRL-ORIGINAL")),
        ImportMode::Managed,
        Some(&key),
    );
    assert_eq!(device.floor, Some(3));
    let pkg6 = managed(&key, 6, "south", Some(b"CRL-NEW"));
    for refused in [
        PublishStep2::Aside(Artefact::Crl),
        PublishStep2::In(Artefact::Crl),
        PublishStep2::Aside(Artefact::P12),
        PublishStep2::In(Artefact::P12),
    ] {
        device.refuse_publish = Some(refused);
        let before = device.clone();
        let err = device.import(&pkg6, ImportMode::Managed, Some(&key)).unwrap_err();
        if refused == PublishStep2::Aside(Artefact::Crl) {
            assert!(
                matches!(&err, ImportError::Io { path, .. } if path.ends_with("device.crl")),
                "expected CRL-publish I/O failure, got {err:?}"
            );
        }
        assert_eq!(device, before);
        assert_eq!(device.tags("region").as_deref(), Some("north"));
    }
}

#[test]
fn a_failed_swap_puts_everything_back() {
    let key = gen_key();
    let mut device = Device { refuse_swap: true, ..Device::default() };
    let err = device
        .import(&managed(&key, 3, "north", Some(b"CRL")), ImportMode::Managed, Some(&key))
        .unwrap_err();
    assert!(matches!(err, ImportError::RoleStore(_)));
    assert_eq!(device, Device { refuse_swap: true, ..Device::default() });
    device.refuse_swap = false;
    device.outcome(&managed(&key, 3, "north", Some(b"CRL")), ImportMode::Managed, Some(&key));
    device.refuse_swap = true;
    let before = device.clone();
    assert!(device
        .import(&managed(&key, 4, "south", Some(b"NEW")), ImportMode::Managed, Some(&key))
        .is_err());
    assert_eq!(device, before);
}

#[test]
fn managed_import_with_p12_pin_installs_p12() {
    let key = gen_key();
    let mut device = Device::default();
    let pkg = build_managed_pkg(
        &key,
        &PkgSpec {
            bundle_version: 2,
            slices: &[("oper", 1)],
            tags: &[("region", "north")],
            crl: None,
            p12_pin: true,
        },
    );
    let outcome = device.outcome(&pkg, ImportMode::Managed, Some(&key));
    assert_eq!(outcome.bundle_version, 2);
    assert!(device.bytes(Artefact::P12).is_some());
    assert_eq!(device.floor, Some(2));
}

#[test]
fn managed_import_p12_pin_mismatch_installs_nothing() {
    let key = gen_key();
    let mut device = Device::default();
    let mut pkg = build_managed_pkg(
        &key,
        &PkgSpec {
            bundle_version: 2,
            slices: &[("oper", 1)],
            tags: &[("region", "north")],
            crl: None,
            p12_pin: true,
        },
    );
    pkg.insert("host-abc123.p12".to_string(), b"TAMPERED-P12".to_vec());
    let err = device.import(&pkg, ImportMode::Managed, Some(&key)).unwrap_err();
    assert!(matches!(err, ImportError::P12HashMismatch));
    assert_eq!(device, Device::default());
}

#[test]
fn managed_import_accepts_manifest_between_slice_and_manifest_caps() {
    let key = gen_key();
    let mut device = Device::default();
    let mut dir = Files::new();
    let body = slice_doc("oper", 1);
    let mut tags = String::from("[tags]\n");
    for i in 0..3000 {
        tags.push_str(&format!("pad{i:05} = \"value-padding-{i:05}\"\n"));
    }
    let roles = format!("[roles.oper]\nversion = 1\nsha256 = \"{}\"\n", sha(body.as_bytes()));
    let full = sealed(&key, 1, &format!("{tags}{roles}"));
    assert!(
        full.len() > MAX_SLICE_BYTES,
        "manifest must exceed the slice cap ({} bytes)",
        full.len()
    );
    assert!(full.len() < MAX_MANIFEST_BYTES);
    dir.insert("oper.toml".to_string(), body.into_bytes());
    dir.insert(MANIFEST_FILENAME.to_string(), full.into_bytes());
    dir.insert("host-abc123.p12".to_string(), P12_OPAQUE.to_vec());
    let outcome = device.outcome(&dir, ImportMode::Managed, Some(&key));
    assert_eq!(outcome.bundle_version, 1);
    assert!(device.roles.contains_key(MANIFEST_FILENAME));
    assert!(device.roles.contains_key("oper.toml"));
    dir.insert("oper.toml".to_string(), vec![b'#'; MAX_SLICE_BYTES + 1]);
    let err = Device::default().import(&dir, ImportMode::Managed, Some(&key)).unwrap_err();
    assert_eq!(
        err.message(),
        "slice exceeds the 65536-byte cap (the read stopped after 65537 bytes)"
    );
}

fn standalone(region: &str) -> Files {
    build_standalone_pkg(&PkgSpec {
        bundle_version: 0,
        slices: &[("oper", 1)],
        tags: &[("region", region)],
        crl: None,
        p12_pin: false,
    })
}

#[test]
fn standalone_import_skips_planted_manifest() {
    let mut device = Device::default();
    let mut pkg = standalone("west");
    pkg.insert(
        MANIFEST_FILENAME.to_string(),
        b"bundle_version = 999\nos = \"linux\"\nsignature = \"00\"\n".to_vec(),
    );
    device.outcome(&pkg, ImportMode::Standalone, None);
    assert!(device.roles.contains_key("oper.toml"));
    assert!(
        !device.roles.contains_key(MANIFEST_FILENAME),
        "a planted manifest must never reach the trusted role dir"
    );
}

#[test]
fn imported_managed_tags_readable_via_trusted_source() {
    let key = gen_key();
    let mut device = Device::default();
    let pkg = build_managed_pkg(
        &key,
        &PkgSpec {
            bundle_version: 1,
            slices: &[("oper", 1)],
            tags: &[("region", "north"), ("class", "terminal")],
            crl: None,
            p12_pin: false,
        },
    );
    device.outcome(&pkg, ImportMode::Managed, Some(&key));
    assert_eq!(device.tags("region").as_deref(), Some("north"));
    assert_eq!(device.tags("class").as_deref(), Some("terminal"));
}

#[test]
fn imported_standalone_tags_readable_via_trusted_source() {
    let mut device = Device::default();
    device.outcome(&standalone("west"), ImportMode::Standalone, None);
    assert_eq!(device.bytes(Artefact::Tags).unwrap(), b"[tags]\nregion = \"west\"\n");
}

const CONTAINER_FILE: &str = "codes-device.p12";
const TICKETS_FILE: &str = "codes-tickets.txt";
const ANCHOR_FILE: &str = "codes-authority.pem";

fn add_codes(pkg: &mut Files) {
    pkg.insert(CONTAINER_FILE.to_string(), b"container".to_vec());
    pkg.insert(TICKETS_FILE.to_string(), b"ticket\n".to_vec());
    pkg.insert(ANCHOR_FILE.to_string(), b"anchor".to_vec());
}

fn standalone_section() -> String {
    format!(
        "epoch = 3\n\
         [key_container]\nfile = \"{CONTAINER_FILE}\"\n\
         [tickets]\nfile = \"{TICKETS_FILE}\"\n\
         [ticket_authority]\nfile = \"{ANCHOR_FILE}\"\n"
    )
}

fn manifest_section() -> String {
    format!(
        "[codes]\nepoch = 3\n\
         [codes.key_container]\nfile = \"{CONTAINER_FILE}\"\nsha256 = \"{}\"\n\
         [codes.tickets]\nfile = \"{TICKETS_FILE}\"\nsha256 = \"{}\"\n\
         [codes.ticket_authority]\nfile = \"{ANCHOR_FILE}\"\nsha256 = \"{}\"\n",
        sha(b"container"),
        sha(b"ticket\n"),
        sha(b"anchor"),
    )
}

fn standalone_package(section: Option<&str>) -> Files {
    let mut dir = standalone("ru-south");
    if let Some(s) = section {
        dir.insert("codes.toml".to_string(), s.as_bytes().to_vec());
    }
    dir
}

fn managed_package(key: &TestKey, codes_section: &str) -> Files {
    let mut dir = Files::new();
    let slice = slice_doc("oper", 1);
    let rest = format!(
        "[tags]\nregion = \"ru-south\"\n{codes_section}\
         [roles.oper]\nversion = 1\nsha256 = \"{}\"\n",
        sha(slice.as_bytes())
    );
    dir.insert("oper.toml".to_string(), slice.into_bytes());
    dir.insert(MANIFEST_FILENAME.to_string(), sealed(key, 1, &rest).into_bytes());
    dir.insert("host-abc.p12".to_string(), P12_OPAQUE.to_vec());
    dir
}

/// A store of Codes artefacts in memory.
#[derive(Default)]
struct Store {
    epoch: Option<u64>,
    tickets: Option<Vec<u8>>,
    authority: Option<Vec<u8>>,
}

fn import_with_codes(
    device: &mut Device,
    store: &mut Store,
    pkg: &mut Files,
    mode: ImportMode,
    key: Option<&TestKey>,
    codes: Option<bool>,
) -> Result<Option<Applied>, ImportError> {
    let (_, section) = device.import(pkg, mode, key)?;
    let (mut run, mut action) =
        CodesRun::apply_codes(codes.is_some(), codes == Some(true), mode, section, CAP);
    loop {
        let reply = match action {
            CodesAction::Finish(result) => return result,
            CodesAction::ReadFile => {
                let (name, cap) = run.file_to_read().unwrap();
                CodesReply::Read(read(pkg, name, cap))
            }
            CodesAction::CheckAuthority => {
                let good = run.authority_to_check().unwrap() == b"anchor";
                CodesReply::Authority(if good { Ok(()) } else { Err("not a key".to_string()) })
            }
            CodesAction::Apply(delivery) => {
                store.tickets = delivery.tickets;
                store.authority = delivery.ticket_authority;
                let replaced = delivery.key.is_some();
                store.epoch = delivery.key.map(|k| k.epoch);
                CodesReply::Applied(Ok(Applied {
                    epoch: store.epoch,
                    key_replaced: replaced,
                    counter_reset: false,
                }))
            }
            CodesAction::RemoveContainer(name) => {
                pkg.remove(&name);
                CodesReply::Removed
            }
        };
        assert!(run.awaits(&reply));
        (run, action) = run.step(reply);
    }
}

#[test]
fn a_standalone_package_without_a_codes_part_imports_as_before() {
    let (mut device, mut store) = (Device::default(), Store::default());
    let mut pkg = standalone_package(None);
    let codes = import_with_codes(
        &mut device,
        &mut store,
        &mut pkg,
        ImportMode::Standalone,
        None,
        Some(true),
    )
    .unwrap();
    assert!(codes.is_none());
    assert!(device.bytes(Artefact::Tags).is_some(), "the Access part still installs");
    assert!(store.epoch.is_none());
}

#[test]
fn a_managed_package_without_a_codes_part_imports_as_before() {
    let key = gen_key();
    let (mut device, mut store) = (Device::default(), Store::default());
    let mut pkg = managed_package(&key, "");
    let codes = import_with_codes(
        &mut device,
        &mut store,
        &mut pkg,
        ImportMode::Managed,
        Some(&key),
        Some(false),
    )
    .unwrap();
    assert!(codes.is_none());
    assert_eq!(device.floor, Some(1));
    assert!(store.epoch.is_none());
}

#[test]
fn a_managed_package_with_a_codes_part_makes_the_device_ready() {
    let key = gen_key();
    let (mut device, mut store) = (Device::default(), Store::default());
    let mut pkg = managed_package(&key, &manifest_section());
    add_codes(&mut pkg);
    assert_eq!(parse(&pkg, ImportMode::Managed).unwrap().p12_file(), "host-abc.p12");
    let applied = import_with_codes(
        &mut device,
        &mut store,
        &mut pkg,
        ImportMode::Managed,
        Some(&key),
        Some(true),
    )
    .unwrap()
    .unwrap();
    assert_eq!(applied.epoch, Some(3));
    assert!(applied.key_replaced);
    assert_eq!(store.tickets.as_deref(), Some(&b"ticket\n"[..]));
    assert!(!pkg.contains_key(CONTAINER_FILE));
}

#[test]
fn a_standalone_package_with_a_codes_part_makes_the_device_ready() {
    let (mut device, mut store) = (Device::default(), Store::default());
    let mut pkg = standalone_package(Some(&standalone_section()));
    add_codes(&mut pkg);
    let applied = import_with_codes(
        &mut device,
        &mut store,
        &mut pkg,
        ImportMode::Standalone,
        None,
        Some(true),
    )
    .unwrap();
    assert_eq!(applied.unwrap().epoch, Some(3));
    assert!(store.authority.is_some());
}

#[test]
fn an_import_that_did_not_ask_for_codes_leaves_the_part_alone() {
    let (mut device, mut store) = (Device::default(), Store::default());
    let mut pkg = standalone_package(Some(&standalone_section()));
    add_codes(&mut pkg);
    let codes =
        import_with_codes(&mut device, &mut store, &mut pkg, ImportMode::Standalone, None, None)
            .unwrap();
    assert!(codes.is_none());
    assert!(store.epoch.is_none());
    assert!(pkg.contains_key(CONTAINER_FILE));
}

#[test]
fn a_managed_codes_file_without_a_pin_is_refused() {
    let key = gen_key();
    let (mut device, mut store) = (Device::default(), Store::default());
    let section = format!(
        "[codes]\nepoch = 3\n[codes.key_container]\nfile = \"{CONTAINER_FILE}\"\nsha256 = \"{}\"\n\
         [codes.tickets]\nfile = \"{TICKETS_FILE}\"\n",
        sha(b"container"),
    );
    let mut pkg = managed_package(&key, &section);
    add_codes(&mut pkg);
    let error = import_with_codes(
        &mut device,
        &mut store,
        &mut pkg,
        ImportMode::Managed,
        Some(&key),
        Some(true),
    )
    .unwrap_err();
    assert!(matches!(error, ImportError::CodesUnpinned { .. }));
    assert!(store.epoch.is_none());
}

#[test]
fn a_codes_file_that_does_not_match_its_pin_is_refused() {
    let key = gen_key();
    let (mut device, mut store) = (Device::default(), Store::default());
    let mut pkg = managed_package(&key, &manifest_section());
    add_codes(&mut pkg);
    pkg.insert(TICKETS_FILE.to_string(), b"tampered\n".to_vec());
    let error = import_with_codes(
        &mut device,
        &mut store,
        &mut pkg,
        ImportMode::Managed,
        Some(&key),
        Some(true),
    )
    .unwrap_err();
    assert!(matches!(error, ImportError::CodesHashMismatch { .. }));
    assert!(store.tickets.is_none());
    assert!(pkg.contains_key(CONTAINER_FILE));
}

#[test]
fn a_codes_file_the_section_names_but_the_package_lacks_is_refused() {
    let key = gen_key();
    let (mut device, mut store) = (Device::default(), Store::default());
    let mut pkg = managed_package(&key, &manifest_section());
    add_codes(&mut pkg);
    pkg.remove(ANCHOR_FILE);
    let error = import_with_codes(
        &mut device,
        &mut store,
        &mut pkg,
        ImportMode::Managed,
        Some(&key),
        Some(true),
    )
    .unwrap_err();
    assert!(matches!(error, ImportError::CodesMissing { .. }));
    assert!(store.tickets.is_none());
}

#[test]
fn a_container_without_a_pin_is_refused_rather_than_half_applied() {
    let (mut device, mut store) = (Device::default(), Store::default());
    let mut pkg = standalone_package(Some(&standalone_section()));
    add_codes(&mut pkg);
    let error = import_with_codes(
        &mut device,
        &mut store,
        &mut pkg,
        ImportMode::Standalone,
        None,
        Some(false),
    )
    .unwrap_err();
    assert!(matches!(error, ImportError::CodesPinRequired));
    assert!(store.tickets.is_none());
    assert!(store.epoch.is_none());
}

#[test]
fn a_section_naming_a_path_instead_of_a_file_is_refused() {
    let mut pkg =
        standalone_package(Some("epoch = 3\n[key_container]\nfile = \"../outside.p12\"\n"));
    add_codes(&mut pkg);
    let error = parse(&pkg, ImportMode::Standalone).unwrap_err();
    assert!(matches!(error, ImportError::UnsafeName { .. }));
    assert_eq!(
        error.message(),
        "enrollment package entry \"../outside.p12\" is not a bare file name"
    );
}

#[test]
fn a_codes_section_larger_than_the_cap_is_refused() {
    let mut pkg = standalone_package(None);
    pkg.insert("codes.toml".to_string(), vec![b'#'; MAX_MANIFEST_BYTES + 1]);
    let error = parse(&pkg, ImportMode::Standalone).unwrap_err();
    assert!(matches!(error, ImportError::Oversize { .. }), "{error:?}");
}

/// What an import says when the medium refuses to hand out the ticket set.
fn refused_tickets(reason: &str) -> ImportError {
    let section = ManifestCodes {
        epoch: 3,
        key_container: None,
        tickets: Some(ManifestCodesFile { file: TICKETS_FILE.to_string(), sha256: None }),
        ticket_revocations: None,
        ticket_authority: None,
    };
    let (run, action) =
        CodesRun::apply_codes(true, true, ImportMode::Standalone, Some(section), CAP);
    assert!(matches!(action, CodesAction::ReadFile));
    assert_eq!(run.file_to_read(), Some((TICKETS_FILE, CAP)));
    let (_, action) = run.step(CodesReply::Read(FileRead::Failed(failure(TICKETS_FILE, reason))));
    match action {
        CodesAction::Finish(Err(error)) => error,
        other => panic!("unexpected: {other:?}"),
    }
}

#[test]
fn a_codes_file_that_is_a_symlink_is_refused() {
    let error = refused_tickets("Too many levels of symbolic links (os error 40)");
    assert!(matches!(error, ImportError::Io { .. }), "{error:?}");
}

#[test]
fn a_codes_file_that_is_a_fifo_is_refused_rather_than_waited_on() {
    let error = refused_tickets("the path is not a regular file");
    assert!(matches!(error, ImportError::Io { .. }), "{error:?}");
}

#[test]
fn a_codes_section_that_does_not_parse_is_refused() {
    let mut pkg = standalone_package(Some("epoch = \"three\"\n"));
    add_codes(&mut pkg);
    let error = parse(&pkg, ImportMode::Standalone).unwrap_err();
    assert!(matches!(error, ImportError::CodesSection { .. }));
}

#[test]
fn an_anchor_that_is_not_a_public_key_is_refused_at_the_import() {
    let (mut device, mut store) = (Device::default(), Store::default());
    let mut pkg = standalone_package(Some(&standalone_section()));
    add_codes(&mut pkg);
    pkg.insert(ANCHOR_FILE.to_string(), b"not a key\n".to_vec());
    let error = import_with_codes(
        &mut device,
        &mut store,
        &mut pkg,
        ImportMode::Standalone,
        None,
        Some(true),
    )
    .unwrap_err();
    assert!(matches!(error, ImportError::CodesSection { .. }));
    assert!(store.authority.is_none());
}

#[test]
fn a_codes_section_reaches_the_store_only_under_a_signature_that_held() {
    let key = gen_key();
    let (mut device, mut store) = (Device::default(), Store::default());
    let mut pkg = managed_package(&key, &manifest_section());
    add_codes(&mut pkg);
    let mut import = |store: &mut Store, pkg: &mut Files| {
        import_with_codes(&mut device, store, pkg, ImportMode::Managed, Some(&key), Some(true))
    };
    import(&mut store, &mut pkg).unwrap();
    let anchor_after_first = store.authority.clone();
    let tampered = String::from_utf8(pkg[MANIFEST_FILENAME].clone())
        .unwrap()
        .replace(ANCHOR_FILE, "codes-other-authority.pem");
    pkg.insert(MANIFEST_FILENAME.to_string(), tampered.into_bytes());
    add_codes(&mut pkg);
    pkg.insert("codes-other-authority.pem".to_string(), b"anchor".to_vec());
    let error = import(&mut store, &mut pkg).unwrap_err();
    assert!(
        matches!(error, ImportError::Manifest(_)),
        "expected a manifest refusal, got {error:?}"
    );
    assert_eq!(
        store.authority, anchor_after_first,
        "the anchor of the device must not come from bytes nobody signed"
    );
}

#[test]
fn the_codes_section_of_a_package_does_not_ride_into_the_role_directory() {
    let (mut device, mut store) = (Device::default(), Store::default());
    let mut pkg = standalone_package(Some(&standalone_section()));
    add_codes(&mut pkg);
    import_with_codes(
        &mut device,
        &mut store,
        &mut pkg,
        ImportMode::Standalone,
        None,
        Some(true),
    )
    .unwrap();
    assert!(
        !device.roles.contains_key("codes.toml"),
        "the Codes section of the package must not be installed as a role slice"
    );
    assert!(device.roles.contains_key("oper.toml"));
}

#[test]
fn a_codes_store_that_refuses_is_reported() {
    let section = ManifestCodes {
        epoch: 1,
        key_container: None,
        tickets: None,
        ticket_revocations: None,
        ticket_authority: None,
    };
    let (run, action) =
        CodesRun::apply_codes(true, false, ImportMode::Standalone, Some(section), CAP);
    assert!(matches!(action, CodesAction::Apply(_)));
    let refused = ArtefactError { message: "older epoch".to_string() };
    let (_, action) = run.step(CodesReply::Applied(Err(refused)));
    assert!(matches!(
        action,
        CodesAction::Finish(Err(ImportError::Codes(e))) if e.message == "older epoch"
    ));
}

#[test]
fn names_and_extensions() {
    assert!(has_ext("host.P12", "p12"));
    assert!(!has_ext(".p12", "p12"));
    assert!(!has_ext("p12", "p12"));
    assert!(has_ext("a.b.p12", "p12"));
    assert!(!has_ext("a.p12.txt", "p12"));
    for bad in ["", ".", "..", "a/b", "a\\b"] {
        assert!(matches!(ensure_bare_name(bad), Err(ImportError::UnsafeName { name }) if name == bad));
    }
    assert!(ensure_bare_name("...").is_ok());
    assert_eq!(temp_name("host.p12", 42, 1), ".host.p12.42.1.tmp");
    assert_eq!(backup_name("host.p12"), "host.p12.bak");
    assert_eq!(stage_name("roles", 42), "roles.staged.42");
    let paths = InstallPaths::with_persist_dir("/var/lib/tessera".to_string());
    assert_eq!(paths.crl_path, "/var/lib/tessera/device.crl");
    assert_eq!(paths.p12_path, "/var/lib/tessera/host.p12");
}

#[test]
fn slices_are_copied_up_to_an_unreadable_entry() {
    let listing = vec![
        PackageEntry::File("b.toml".to_string()),
        PackageEntry::File(MANIFEST_FILENAME.to_string()),
        PackageEntry::File("tags.toml".to_string()),
        PackageEntry::File("codes.toml".to_string()),
        PackageEntry::File("x.p12".to_string()),
        PackageEntry::Unreadable(failure("/media/p", "I/O error")),
        PackageEntry::File("z.toml".to_string()),
    ];
    let (copies, stopped) = copy_role_slices(&listing, true);
    let names: Vec<&str> = copies.iter().map(|c| c.name.as_str()).collect();
    assert_eq!(names, vec!["b.toml", MANIFEST_FILENAME]);
    assert_eq!(copies[1].cap(), MAX_MANIFEST_BYTES);
    assert_eq!(stopped.unwrap().reason, "I/O error");
    let (copies, _) = copy_role_slices(&listing, false);
    assert_eq!(copies.len(), 1);
}

#[test]
fn outcomes_are_recorded_in_both_places() {
    let (mut log, mut journal) = (AuditLog::new(), EnrollmentJournal::new());
    emit_device_enrolled(&mut log, &mut journal, "managed", u64::MAX);
    emit_enrollment_rejected(&mut log, &mut journal, REASON_MANIFEST);
    assert_eq!(log.events[0].name, EVENT_DEVICE_ENROLLED);
    assert_eq!(log.events[1].name, EVENT_ENROLLMENT_REJECTED);
    assert_eq!(journal.records[0].bundle_version, u64::MAX);
    assert_eq!(journal.records[1].reason.as_deref(), Some(REASON_MANIFEST));
    let key = gen_key();
    let ids =
        EnrollAuditIds { host_id_prefix8: "01234567".to_string(), serial: String::new() };
    let pkg = parse(&managed(&key, 1, "north", None), ImportMode::Managed).unwrap();
    let (run, _) = pkg.install_with_ids(true, CAP, ids);
    run.report(&Err(ImportError::CrlHashMismatch), &mut log, &mut journal);
    assert_eq!(journal.records[2].host_id_prefix8, "01234567");
    assert_eq!(journal.records[2].reason.as_deref(), Some(REASON_CRL));
}
