//! Revocation lists, the GOST engine and its digests.

use openssl::asn1::Asn1Time;
use openssl::bn::BigNum;
use openssl::hash::MessageDigest;
use openssl::nid::Nid;
use openssl::pkey::{PKey, Private};
use openssl::rsa::Rsa;
use openssl::x509::extension::{AuthorityKeyIdentifier, CrlNumber};
use openssl::x509::{X509CrlBuilder, X509Name, X509NameBuilder, X509RevokedBuilder, X509};
use tessera_core::crl::store::{
    asn1_to_system, check_revocation, check_revocation_given, crl_is_stale, crl_status_for,
    crl_status_given, crl_warning, find_issuer, Crl, CrlCoverage, CrlStore, CrlWarning,
    RevocationConfig, SignatureVerdict,
};
use tessera_core::gost::algorithms::{
    gost_2012_256_md, gost_2012_512_md, gost_signature_md_for, GOST_2012_256_NAME,
    GOST_2012_512_NAME,
};
use tessera_core::gost::engine::{
    ensure_loaded_if_any_gost, ensure_loaded_if_signature_alg_gost, ensure_loaded_with_path,
    is_available, is_available_after_attempt, EngineCell, EngineLoad, EngineStep, Held, LoadAction,
    LoadReply,
};
use tessera_core::gost::errors::GostEngineError;
use tessera_core::time::Duration;
use tessera_core::x509::{Certificate, SignatureAlg, TrustError};

const NANOS: i128 = 1_000_000_000;

const DAY: i64 = 86_400;

/// The day on which the revocation lists were issued.
const ISSUED: i64 = 1_700_000_000;

fn now() -> i128 {
    i128::from(ISSUED + DAY) * NANOS
}

fn name(cn: &str) -> X509Name {
    let mut b = X509NameBuilder::new().unwrap();
    b.append_entry_by_nid(Nid::COMMONNAME, cn).unwrap();
    b.build()
}

struct Authority {
    cn: &'static str,
    key: PKey<Private>,
}

fn authority(cn: &'static str) -> Authority {
    Authority { cn, key: PKey::from_rsa(Rsa::generate(2048).unwrap()).unwrap() }
}

/// A revocation list of an authority that lists the given serial numbers.
fn crl_pem(issuer: &Authority, revoked: &[u32]) -> Vec<u8> {
    let mut b = X509CrlBuilder::new().unwrap();
    b.set_issuer_name(&name(issuer.cn)).unwrap();
    b.set_last_update(&Asn1Time::from_unix(ISSUED).unwrap()).unwrap();
    b.set_next_update(&Asn1Time::from_unix(ISSUED + 3650 * DAY).unwrap()).unwrap();
    for serial in revoked {
        let mut r = X509RevokedBuilder::new().unwrap();
        let bn = BigNum::from_u32(*serial).unwrap();
        r.set_serial_number(&bn.to_asn1_integer().unwrap()).unwrap();
        r.set_revocation_date(&Asn1Time::from_unix(ISSUED).unwrap()).unwrap();
        b.add_revoked(r.build()).unwrap();
    }
    let ca = ca_cert(issuer);
    let blank = X509::builder().unwrap();
    let ctx = blank.x509v3_context(Some(&ca), None);
    b.append_extension(AuthorityKeyIdentifier::new().issuer(true).build(&ctx).unwrap()).unwrap();
    b.append_extension(CrlNumber::new(BigNum::from_u32(1).unwrap()).unwrap().build().unwrap())
        .unwrap();
    b.sign(&issuer.key, MessageDigest::sha256()).unwrap();
    b.build().unwrap().to_pem().unwrap()
}

fn ca_cert(a: &Authority) -> X509 {
    let mut b = X509::builder().unwrap();
    b.set_version(2).unwrap();
    b.set_serial_number(&BigNum::from_u32(1).unwrap().to_asn1_integer().unwrap()).unwrap();
    b.set_subject_name(&name(a.cn)).unwrap();
    b.set_issuer_name(&name(a.cn)).unwrap();
    b.set_pubkey(&a.key).unwrap();
    b.set_not_before(&Asn1Time::from_unix(ISSUED).unwrap()).unwrap();
    b.set_not_after(&Asn1Time::from_unix(ISSUED + 3650 * DAY).unwrap()).unwrap();
    b.sign(&a.key, MessageDigest::sha256()).unwrap();
    b.build()
}

fn cert(serial: &str, subject: &Authority, issuer: &Authority) -> Certificate {
    Certificate {
        serial_hex: serial.to_string(),
        subject_dn: Some(name(subject.cn).to_der().unwrap()),
        issuer_dn: Some(name(issuer.cn).to_der().unwrap()),
        signature_alg: SignatureAlg::RsaWithSha256,
        public_key: subject.key.public_key_to_der().unwrap(),
        subject_cn: Some(subject.cn.to_string()),
        san_emails: Vec::new(),
    }
}

struct Pki {
    root: Authority,
    inter: Authority,
    leaf: Authority,
}

fn pki() -> Pki {
    Pki { root: authority("root"), inter: authority("intermediate"), leaf: authority("leaf") }
}

impl Pki {
    /// Leaf-first chain `[leaf, intermediate, root]`; the root is the anchor.
    fn chain(&self, leaf_serial: &str) -> Vec<Certificate> {
        vec![
            cert(leaf_serial, &self.leaf, &self.inter),
            cert("0A2B", &self.inter, &self.root),
            cert("01", &self.root, &self.root),
        ]
    }

    /// Signed by the intermediate; lists `0x99`.
    fn crl_valid(&self) -> Vec<u8> {
        crl_pem(&self.inter, &[0x99])
    }

    /// Signed by the root; lists `0x99`, which no certificate of the root has.
    fn crl_foreign(&self) -> Vec<u8> {
        crl_pem(&self.root, &[0x99])
    }
}

fn strict_cfg() -> RevocationConfig {
    RevocationConfig { crl_strict: true, ..RevocationConfig::default() }
}

#[test]
fn uncovered_issuer_fails_closed() {
    let p = pki();
    let store = CrlStore::from_pems(&vec![p.crl_valid()]).unwrap();
    let err =
        check_revocation(&p.chain("42"), &store, &strict_cfg(), now(), &EngineCell::new())
            .expect_err("uncovered intermediate must fail closed");
    assert!(matches!(err, TrustError::CrlNotCovered(_)), "{err:?}");
}

#[test]
fn uncovered_intermediate_reports_its_serial() {
    let p = pki();
    let store = CrlStore::from_pems(&vec![p.crl_valid()]).unwrap();
    let chain = p.chain("42");
    let int_serial = chain[1].serial_hex.to_lowercase();
    let err = check_revocation(&chain, &store, &strict_cfg(), now(), &EngineCell::new())
        .expect_err("uncovered intermediate must fail closed");
    match err {
        TrustError::CrlNotCovered(serial) => assert_eq!(serial, int_serial),
        other => panic!("expected CrlNotCovered, got {other:?}"),
    }
}

#[test]
fn every_non_anchor_covered_passes() {
    let p = pki();
    let store = CrlStore::from_pems(&vec![p.crl_valid(), p.crl_foreign()]).unwrap();
    check_revocation(&p.chain("42"), &store, &strict_cfg(), now(), &EngineCell::new()).unwrap();
}

#[test]
fn covered_revoked_cert_is_rejected() {
    let p = pki();
    let store = CrlStore::from_pems(&vec![p.crl_valid()]).unwrap();
    let err = check_revocation(&p.chain("99"), &store, &strict_cfg(), now(), &EngineCell::new())
        .expect_err("revoked leaf must be rejected");
    assert!(matches!(err, TrustError::Revoked(_)), "{err:?}");
}

#[test]
fn strict_stale_crl_is_hard_error() {
    let p = pki();
    let store = CrlStore::from_pems(&vec![p.crl_valid()]).unwrap();
    let future = now() + i128::from(11 * 365 * 24 * 3600) * NANOS;
    let err = check_revocation(&p.chain("42"), &store, &strict_cfg(), future, &EngineCell::new())
        .expect_err("stale CRL in strict mode must be a hard error");
    assert!(matches!(err, TrustError::Crl(_)), "{err:?}");
}

#[test]
fn a_stale_crl_covers_nothing() {
    let p = pki();
    let store = CrlStore::from_pems(&vec![p.crl_valid(), p.crl_foreign()]).unwrap();
    let future = now() + i128::from(11 * 365 * 24 * 3600) * NANOS;
    let loose = RevocationConfig::default();
    assert!(matches!(
        check_revocation(&p.chain("42"), &store, &loose, future, &EngineCell::new()),
        Err(TrustError::CrlNotCovered(_))
    ));
}

#[test]
fn a_crl_under_another_key_is_refused() {
    let p = pki();
    let impostor = Authority { cn: "intermediate", key: authority("x").key };
    let store =
        CrlStore::from_pems(&vec![crl_pem(&impostor, &[]), p.crl_foreign()]).unwrap();
    assert!(matches!(
        check_revocation(&p.chain("42"), &store, &strict_cfg(), now(), &EngineCell::new()),
        Err(TrustError::CrlSignatureInvalid(_))
    ));
}

#[test]
fn a_crl_is_read_from_pem() {
    let p = pki();
    let crl = Crl::from_pem(&crl_pem(&p.inter, &[0x99, 0xabc])).unwrap();
    assert_eq!(crl.this_update(), ISSUED);
    assert_eq!(crl.next_update, Some(ISSUED + 3650 * DAY));
    assert_eq!(crl.revoked_serials(), &vec!["99".to_string(), "0abc".to_string()]);
    assert_eq!(crl.issuer_dn_der(), &name("intermediate").to_der().unwrap());
    assert!(crl.verify_signature(&p.inter.key.public_key_to_der().unwrap()).is_ok());
    assert!(crl.verify_signature(&p.root.key.public_key_to_der().unwrap()).is_err());
    let again = Crl::from_der(&crl.der).unwrap();
    assert_eq!(again.this_update(), ISSUED);
    assert!(matches!(Crl::from_pem(b"nonsense"), Err(TrustError::Crl(_))));
    assert!(matches!(Crl::from_der(b"nonsense"), Err(TrustError::Crl(_))));
}

#[test]
fn a_pem_text_beyond_what_libcrypto_takes_is_refused() {
    let text = vec![0u8; i32::MAX as usize + 1];
    assert!(matches!(
        Crl::from_pem(&text),
        Err(TrustError::Crl(why)) if why == "PEM text too long"
    ));
}

#[test]
fn a_skipped_crl_is_worth_a_warning() {
    let p = pki();
    let leaf = cert("42", &p.leaf, &p.inter);
    let lax = RevocationConfig::default();
    let mut crl = Crl::from_pem(&p.crl_valid()).unwrap();
    assert_eq!(crl_warning(&leaf, &crl, &lax, now()), None);
    let late = i128::from(ISSUED + 3651 * DAY) * NANOS;
    assert_eq!(crl_warning(&leaf, &crl, &lax, late), Some(CrlWarning::Skipped));
    assert_eq!(crl_warning(&leaf, &crl, &strict_cfg(), late), None);
    assert_eq!(crl_warning(&cert("42", &p.leaf, &p.root), &crl, &lax, late), None);
    crl.next_update = None;
    assert_eq!(crl_warning(&leaf, &crl, &lax, late), Some(CrlWarning::NeverStale));
}

#[test]
fn a_gost_issuer_needs_the_engine() {
    let p = pki();
    let crl = Crl::from_pem(&p.crl_valid()).unwrap();
    let mut issuer = cert("0A2B", &p.inter, &p.root);
    assert!(crl.verify_signature_with_issuer(&issuer, &None, &EngineCell::new()).is_ok());
    issuer.signature_alg = SignatureAlg::IdTc26SignWithDigestGostR341012_256;
    assert!(matches!(
        crl.verify_signature_with_issuer(&issuer, &None, &EngineCell::new()),
        Err(TrustError::EngineLoadFailed { source: GostEngineError::PathNotConfigured })
    ));
}

#[test]
fn a_store_holds_its_lists_in_order() {
    let p = pki();
    let store = CrlStore::from_pems(&vec![p.crl_valid(), p.crl_foreign()]).unwrap();
    assert_eq!(store.len(), 2);
    assert!(!store.is_empty());
    assert_eq!(store.iter()[1].issuer_dn_der, name("root").to_der().unwrap());
    assert!(CrlStore::empty().is_empty());
    assert_eq!(CrlStore::from_crls(vec![Crl::from_pem(&p.crl_valid()).unwrap()]).len(), 1);
    assert!(CrlStore::from_pems(&vec![b"x".to_vec()]).is_err());
    let chain = p.chain("42");
    assert_eq!(find_issuer(&chain, &name("intermediate").to_der().unwrap()), Some(1));
    assert_eq!(find_issuer(&chain, &name("nobody").to_der().unwrap()), None);
}

#[test]
fn staleness_goes_by_next_update_and_age() {
    let crl = Crl {
        der: Vec::new(),
        this_update: 1000,
        next_update: Some(2000),
        revoked: Vec::new(),
        issuer_dn_der: Vec::new(),
    };
    let cfg = RevocationConfig::default();
    assert!(!crl_is_stale(&crl, &cfg, 1999 * NANOS));
    assert!(crl_is_stale(&crl, &cfg, 2001 * NANOS));
    let aged = RevocationConfig {
        crl_max_age: Some(Duration::from_secs(100)),
        ..RevocationConfig::default()
    };
    assert!(!crl_is_stale(&crl, &aged, 1050 * NANOS));
    assert!(crl_is_stale(&crl, &aged, 1101 * NANOS));
    assert_eq!(asn1_to_system(1, 5), 86_405);
    assert_eq!(asn1_to_system(-1, 0), -86_400);
}

#[test]
fn coverage_is_told_apart_from_silence() {
    let p = pki();
    let store = CrlStore::from_pems(&vec![p.crl_valid()]).unwrap();
    let chain = p.chain("99");
    let cfg = strict_cfg();
    let of = |i: usize| {
        crl_status_for(&chain[i], &chain, &store, &cfg, now(), &EngineCell::new()).unwrap()
    };
    assert!(matches!(of(0), CrlCoverage::Covered(true)));
    assert!(matches!(of(1), CrlCoverage::NotCovered));
    let bad = vec![SignatureVerdict::Invalid("no".to_string())];
    assert!(crl_status_given(&chain[0], &chain, &store, &cfg, now(), &bad).is_err());
    assert!(check_revocation_given(&chain, &store, &cfg, now(), &bad).is_err());
    let good = vec![SignatureVerdict::Valid];
    assert!(matches!(
        check_revocation_given(&chain, &store, &cfg, now(), &good),
        Err(TrustError::Revoked(s)) if s == "99"
    ));
}

#[test]
fn gost_2012_256_md_returns_not_available_without_engine() {
    let cell = EngineCell::new();
    match gost_2012_256_md(&cell) {
        Ok(md) if is_available(&cell) => assert_eq!(md.size(), 32),
        Ok(_) => panic!("digest resolved without engine being available"),
        Err(GostEngineError::NotAvailable(_)) => {}
        Err(other) => panic!("unexpected error variant: {other:?}"),
    }
}

#[test]
fn gost_2012_512_md_returns_not_available_without_engine() {
    let cell = EngineCell::new();
    match gost_2012_512_md(&cell) {
        Ok(md) if is_available(&cell) => assert_eq!(md.size(), 64),
        Ok(_) => panic!("digest resolved without engine being available"),
        Err(GostEngineError::NotAvailable(_)) => {}
        Err(other) => panic!("unexpected error variant: {other:?}"),
    }
}

const NID_STREEBOG_256: i32 = 982;

const NID_STREEBOG_512: i32 = 983;

const WRONG_LEGACY_NIDS: [i32; 2] = [1177, 1178];

#[test]
fn digest_names_match_the_static_streebog_nids() {
    for (nid, name) in [
        (NID_STREEBOG_256, GOST_2012_256_NAME),
        (NID_STREEBOG_512, GOST_2012_512_NAME),
    ] {
        let sn = Nid::from_raw(nid)
            .short_name()
            .unwrap_or_else(|e| panic!("nid {nid} has no short name: {e}"));
        assert_eq!(sn, name, "nid {nid} does not name {name}");
    }
}

#[test]
fn the_legacy_nid_literals_do_not_name_streebog() {
    for nid in WRONG_LEGACY_NIDS {
        let nid = Nid::from_raw(nid);
        if let Ok(sn) = nid.short_name() {
            assert_ne!(sn, GOST_2012_256_NAME);
            assert_ne!(sn, GOST_2012_512_NAME);
        }
        if let Some(md) = MessageDigest::from_nid(nid) {
            assert_ne!(md.size(), 32, "nid {} resolves to a 32-byte digest", nid.as_raw());
            assert_ne!(md.size(), 64, "nid {} resolves to a 64-byte digest", nid.as_raw());
        }
    }
}

#[test]
fn gost_signature_md_for_returns_ok_none_for_non_gost() {
    match gost_signature_md_for(&EngineCell::new(), &SignatureAlg::RsaWithSha256) {
        Ok(None) => {}
        Ok(Some(_)) => panic!("non-gost must yield None"),
        Err(e) => panic!("non-gost must succeed: {e:?}"),
    }
}

#[test]
fn gost_signature_md_for_routes_gost_variants() {
    let cell = EngineCell::new();
    let res_256 = gost_signature_md_for(&cell, &SignatureAlg::IdTc26SignWithDigestGostR341012_256);
    let res_512 = gost_signature_md_for(&cell, &SignatureAlg::IdTc26SignWithDigestGostR341012_512);
    if is_available(&cell) {
        match res_256 {
            Ok(Some(_)) => {}
            Ok(None) => panic!("256: expected Some digest with engine loaded"),
            Err(e) => panic!("256: unexpected error: {e:?}"),
        }
        match res_512 {
            Ok(Some(_)) => {}
            Ok(None) => panic!("512: expected Some digest with engine loaded"),
            Err(e) => panic!("512: unexpected error: {e:?}"),
        }
    } else {
        assert!(matches!(res_256, Err(GostEngineError::NotAvailable(_))));
        assert!(matches!(res_512, Err(GostEngineError::NotAvailable(_))));
    }
}

#[test]
fn an_unconfigured_path_is_refused_without_touching_the_engine_cell() {
    let cell = EngineCell::new();
    let cell_was_initialised = cell.is_settled();
    let res = ensure_loaded_with_path(&cell, &None);
    assert!(
        matches!(res, EngineStep::Settled(Err(GostEngineError::PathNotConfigured))),
        "an unconfigured path must be refused outright, got {res:?}",
    );
    assert_eq!(
        cell_was_initialised,
        cell.is_settled(),
        "the refusal was written into the process-global cell, so a later \
         caller that does know the path would get it back instead of a load",
    );
}

#[test]
fn ensure_loaded_is_idempotent() {
    let mut cell = EngineCell::new();
    let path = Some("/lib/gost.so".to_string());
    assert!(matches!(ensure_loaded_with_path(&cell, &path), EngineStep::LoadFrom(p) if p == "/lib/gost.so"));
    assert!(cell.settle(Err(GostEngineError::LoadFailed("no".to_string()))).is_err());
    for _ in 0..2 {
        assert!(matches!(
            ensure_loaded_with_path(&cell, &path),
            EngineStep::Settled(Err(GostEngineError::LoadFailed(_)))
        ));
    }
    assert!(cell.settle(Ok(())).is_err());
}

#[test]
fn is_available_matches_cached_result() {
    let mut cell = EngineCell::new();
    assert!(!is_available(&cell));
    cell.settle(Ok(())).unwrap();
    assert!(is_available(&cell));
    let path = Some("/lib/gost.so".to_string());
    assert!(matches!(ensure_loaded_with_path(&cell, &path), EngineStep::Settled(Ok(()))));
}

#[test]
fn ensure_loaded_with_path_matches_ensure_loaded_when_path_is_none() {
    let mut cell = EngineCell::new();
    cell.settle(Ok(())).unwrap();
    let from_path = ensure_loaded_with_path(&cell, &None);
    assert!(matches!(from_path, EngineStep::Settled(Err(GostEngineError::PathNotConfigured))));
    let mut fresh = EngineCell::new();
    assert!(!is_available_after_attempt(&mut fresh, &None, Ok(())));
}

#[test]
fn a_gost_signature_alg_without_a_configured_path_fails_closed() {
    let cell = EngineCell::new();
    let before = is_available(&cell);
    let res = ensure_loaded_if_signature_alg_gost(
        &cell,
        &SignatureAlg::IdTc26SignWithDigestGostR341012_256,
        &None,
    );
    assert!(
        matches!(res, EngineStep::Settled(Err(GostEngineError::PathNotConfigured))),
        "a GOST algorithm with no configured engine must fail closed, got {res:?}",
    );
    assert_eq!(before, is_available(&cell));
}

#[test]
fn ensure_loaded_if_signature_alg_gost_is_noop_for_rsa() {
    let cell = EngineCell::new();
    let before = is_available(&cell);
    let res = ensure_loaded_if_signature_alg_gost(&cell, &SignatureAlg::RsaWithSha256, &None);
    assert!(matches!(res, EngineStep::Settled(Ok(()))), "rsa path must be Ok: {res:?}");
    assert_eq!(before, is_available(&cell));
}

#[test]
fn ensure_loaded_if_any_gost_is_noop_on_empty_slice() {
    let cell = EngineCell::new();
    let before = is_available(&cell);
    let res = ensure_loaded_if_any_gost(&cell, &[], &None);
    assert!(matches!(res, EngineStep::Settled(Ok(()))), "empty slice must be Ok: {res:?}");
    assert_eq!(before, is_available(&cell));
}

#[test]
fn load_dynamic_returns_path_missing_for_nonexistent_path() {
    let (mut load, first) = EngineLoad::begin("/nonexistent/gost.so".to_string());
    assert!(matches!(first, LoadAction::CheckFile));
    assert!(matches!(
        load.on_reply(LoadReply::Yes(false)),
        LoadAction::Fail(GostEngineError::PathMissing(p), Held::Nothing)
            if p == "/nonexistent/gost.so"
    ));
}

#[test]
fn load_dynamic_clears_a_preexisting_registration_under_the_same_id() {
    let (mut load, _) = EngineLoad::begin("/lib/gost.so".to_string());
    let mut actions = Vec::new();
    for _ in 0..4 {
        actions.push(load.on_reply(LoadReply::Code(1)));
    }
    let cleared = actions.iter().position(|a| matches!(a, LoadAction::ClearRegistration));
    let set = actions.iter().position(|a| matches!(a, LoadAction::SetFile));
    assert!(cleared.is_some() && cleared < set);
}

#[test]
fn an_engine_is_loaded_step_by_step() {
    let (mut load, _) = EngineLoad::begin("/lib/gost.so".to_string());
    assert!(matches!(load.on_reply(LoadReply::Yes(true)), LoadAction::FindLoader));
    assert!(matches!(load.on_reply(LoadReply::Yes(true)), LoadAction::ClearRegistration));
    assert!(matches!(load.on_reply(LoadReply::Code(1)), LoadAction::SetFile));
    assert!(matches!(load.on_reply(LoadReply::Code(1)), LoadAction::SetId));
    assert!(matches!(load.on_reply(LoadReply::Code(1)), LoadAction::Load));
    assert!(matches!(load.on_reply(LoadReply::Code(1)), LoadAction::Init));
    assert!(matches!(load.on_reply(LoadReply::Code(1)), LoadAction::SetDefault));
    assert!(matches!(
        load.on_reply(LoadReply::Code(1)),
        LoadAction::ProbeDigest("md_gost12_256")
    ));
    assert!(matches!(load.on_reply(LoadReply::Yes(true)), LoadAction::Done));
    let (mut broken, _) = EngineLoad::begin("/lib/gost.so".to_string());
    for _ in 0..6 {
        broken.on_reply(LoadReply::Code(1));
    }
    assert!(matches!(
        broken.on_reply(LoadReply::Code(0)),
        LoadAction::Fail(GostEngineError::LoadFailed(_), Held::Reference)
    ));
}
