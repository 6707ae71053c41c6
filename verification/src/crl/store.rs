//! CRLs and the revocation check.
//!
//! Times are seconds, and the time of a check nanoseconds, since the epoch.

use crate::collections::{
    first_of, first_stands_first, lemma_first_of, lemma_none_of, lemma_some_of,
    none_where_no_place_has_one, place_of_first, texts,
};
use crate::foreign::{
    crl_der_of, crl_issuer, crl_issuer_of, crl_next_update, crl_next_update_of, crl_pem_gave,
    crl_serials, crl_serials_of, crl_this_update, crl_this_update_of, crl_verify_gave, in_the_clear,
    lower_opt, read_crl_pem, verify_crl,
};
use crate::gost::engine::{
    engine_step_if, ensure_loaded_if_signature_alg_gost, EngineCell, EngineStep,
};
use crate::gost::errors::GostEngineError;
use crate::text::{ascii_lower, cat2, str_eq, to_ascii_lower};
use crate::time::Duration;
use crate::x509::{Certificate, TrustError};
use vstd::prelude::*;

verus! {

/// A CRL: its DER form, and what the check reads of it.
#[derive(Debug)]
pub struct Crl {
    /// DER form, for its signature.
    pub der: Vec<u8>,
    /// `thisUpdate`.
    pub this_update: i64,
    /// `nextUpdate`, where it has one.
    pub next_update: Option<i64>,
    /// Revoked serial numbers, in lower-case hexadecimal.
    pub revoked: Vec<String>,
    /// DER form of the issuer's name.
    pub issuer_dn_der: Vec<u8>,
}

/// A number of CRLs, in order.
#[derive(Debug)]
pub struct CrlStore {
    /// The CRLs.
    pub crls: Vec<Crl>,
}

/// How [`check_revocation`] works.
#[derive(Debug)]
pub struct RevocationConfig {
    /// Whether a stale CRL is an error; else it is skipped.
    pub crl_strict: bool,
    /// Maximum age of a CRL, from `thisUpdate`; `None` for no limit.
    pub crl_max_age: Option<Duration>,
    /// File of the gost-engine, for CRLs of GOST issuers.
    pub gost_engine_path: Option<String>,
}

impl Default for RevocationConfig {
    fn default() -> (r: RevocationConfig)
        ensures
            !r.crl_strict,
            r.crl_max_age is None,
            r.gost_engine_path is None,
    {
        RevocationConfig { crl_strict: false, crl_max_age: None, gost_engine_path: None }
    }
}

/// Whether a CRL covers a certificate, and what it says of it.
#[derive(Debug, Clone, Copy, PartialEq, Eq, Structural)]
pub enum CrlCoverage {
    /// A fresh CRL of the certificate's issuer covers it; whether it lists it.
    Covered(bool),
    /// No fresh CRL of the certificate's issuer is there.
    NotCovered,
}

// --- reading a CRL ----------------------------------------------------------

/// Days and seconds as seconds.
pub open spec fn seconds_of(t: (i32, i32)) -> int {
    t.0 * 86400 + t.1
}

/// Days and seconds since the epoch as seconds.
pub fn asn1_to_system(days: i32, secs: i32) -> (r: i64)
    ensures
        r == seconds_of((days, secs)),
{
    days as i64 * 86400 + secs as i64
}

/// The serial numbers that have a form, in order.
pub open spec fn known_serials(v: Seq<Option<Seq<char>>>) -> Seq<Seq<char>>
    decreases v.len(),
{
    if v.len() == 0 {
        Seq::empty()
    } else {
        let rest = known_serials(v.drop_last());
        match v.last() {
            Some(s) => rest.push(s),
            None => rest,
        }
    }
}

/// Whether the DER form is that of a CRL which can be read whole.
pub open spec fn readable(der: Seq<u8>) -> bool {
    crl_this_update_of(der) is Some && crl_next_update_of(der) is Some && crl_serials_of(der) is Some
        && crl_issuer_of(der) is Some
}

/// Whether a CRL holds what its DER form says.
pub open spec fn read_from(der: Seq<u8>, c: Crl) -> bool {
    &&& c.der@ == der
    &&& crl_this_update_of(der) is Some && c.this_update == seconds_of(crl_this_update_of(der)->0)
    &&& crl_next_update_of(der) is Some && match crl_next_update_of(der)->0 {
        Some(t) => c.next_update matches Some(n) && n == seconds_of(t),
        None => c.next_update is None,
    }
    &&& crl_serials_of(der) is Some && texts(c.revoked@) == known_serials(crl_serials_of(der)->0)
    &&& crl_issuer_of(der) == Some(c.issuer_dn_der@)
}

/// Whether a result is what a DER form, or the failure to get one, comes to.
pub open spec fn der_read_as(der: Result<Vec<u8>, String>, r: Result<Crl, TrustError>) -> bool {
    match r {
        Ok(c) => der is Ok && read_from(der->Ok_0@, c),
        Err(e) => match der {
            Ok(bytes) => e is Crl && !readable(bytes@),
            Err(why) => e == TrustError::Crl(why),
        },
    }
}

/// Whether a result is what a CRL in PEM comes to: a text that libcrypto cannot take in whole is
/// refused, and of any other its answer decides. For a text in the clear that is a function of the
/// text.
pub open spec fn pem_read_as(pem: Seq<u8>, r: Result<Crl, TrustError>) -> bool {
    if pem.len() > i32::MAX {
        r matches Err(TrustError::Crl(why)) && why@ == "PEM text too long"@
    } else {
        &&& exists|x: Result<Vec<u8>, String>| #[trigger] crl_pem_gave(pem, x) && der_read_as(x, r)
        &&& in_the_clear(pem) ==> match r {
            Ok(c) => crl_der_of(pem) is Some && read_from(crl_der_of(pem)->0, c),
            Err(e) => e is Crl && !(crl_der_of(pem) is Some && readable(crl_der_of(pem)->0)),
        }
    }
}

fn lower_serials(v: &Vec<Option<String>>) -> (r: Vec<String>)
    ensures
        texts(r@) == known_serials(v@.map_values(|s: Option<String>| lower_opt(s))),
{
    let ghost all = v@.map_values(|s: Option<String>| lower_opt(s));
    let mut out: Vec<String> = Vec::new();
    let mut i: usize = 0;
    assert(all.take(0) =~= Seq::<Option<Seq<char>>>::empty());
    assert(texts(out@) =~= Seq::<Seq<char>>::empty());
    while i < v.len()
        invariant
            i <= v@.len(),
            all == v@.map_values(|s: Option<String>| lower_opt(s)),
            texts(out@) == known_serials(all.take(i as int)),
        decreases v@.len() - i,
    {
        let ghost before = out@;
        assert(all.take(i + 1).drop_last() =~= all.take(i as int));
        assert(all[i as int] == lower_opt(v@[i as int]));
        if let Some(s) = &v[i] {
            out.push(to_ascii_lower(s.as_str()));
            assert(texts(out@) =~= texts(before).push(ascii_lower(s@)));
        }
        i = i + 1;
    }
    assert(all.take(all.len() as int) =~= all);
    out
}

impl Crl {
    /// Reads a CRL in PEM. For an encrypted one libcrypto asks the terminal for a pass phrase.
    pub fn from_pem(pem: &[u8]) -> (r: Result<Crl, TrustError>)
        ensures
            pem_read_as(pem@, r),
    {
        if pem.len() > i32::MAX as usize {
            return Err(TrustError::Crl("PEM text too long".to_owned()));
        }
        let read = read_crl_pem(pem);
        let ghost answer = read;
        let r = match read {
            Ok(der) => Crl::from_der(der.as_slice()),
            Err(e) => Err(TrustError::Crl(e)),
        };
        assert(crl_pem_gave(pem@, answer) && der_read_as(answer, r));
        r
    }

    /// Reads a CRL in DER.
    pub fn from_der(der: &[u8]) -> (r: Result<Crl, TrustError>)
        ensures
            match r {
                Ok(c) => read_from(der@, c),
                Err(e) => e is Crl && !readable(der@),
            },
    {
        let (days, secs): (i32, i32) = match crl_this_update(der) {
            Ok(t) => t,
            Err(e) => {
                return Err(TrustError::Crl(e));
            },
        };
        let this_update: i64 = asn1_to_system(days, secs);
        let next_update: Option<i64> = match crl_next_update(der) {
            Ok(Some((d, s))) => Some(asn1_to_system(d, s)),
            Ok(None) => None,
            Err(e) => {
                return Err(TrustError::Crl(e));
            },
        };
        let revoked = match crl_serials(der) {
            Ok(v) => lower_serials(&v),
            Err(e) => {
                return Err(TrustError::Crl(e));
            },
        };
        let issuer_dn_der = match crl_issuer(der) {
            Ok(n) => n,
            Err(e) => {
                return Err(TrustError::Crl(e));
            },
        };
        Ok(
            Crl {
                der: vstd::slice::slice_to_vec(der),
                this_update,
                next_update,
                revoked,
                issuer_dn_der,
            },
        )
    }

    /// `thisUpdate`.
    pub fn this_update(&self) -> (r: i64)
        ensures
            r == self.this_update,
    {
        self.this_update
    }

    /// `nextUpdate`, or `thisUpdate` where it has none.
    pub fn next_update(&self) -> (r: i64)
        ensures
            r == match self.next_update {
                Some(t) => t,
                None => self.this_update,
            },
    {
        match self.next_update {
            Some(t) => t,
            None => self.this_update,
        }
    }

    /// Revoked serial numbers, in lower-case hexadecimal.
    pub fn revoked_serials(&self) -> (r: &Vec<String>)
        ensures
            *r == self.revoked,
    {
        &self.revoked
    }

    /// DER form of the issuer's name.
    pub fn issuer_dn_der(&self) -> (r: &Vec<u8>)
        ensures
            *r == self.issuer_dn_der,
    {
        &self.issuer_dn_der
    }

    /// Verifies the signature of the CRL under a public key in DER.
    pub fn verify_signature(&self, key: &Vec<u8>) -> (r: Result<(), TrustError>)
        ensures
            verified_as(self.der@, key@, r),
    {
        let verified = verify_crl(self.der.as_slice(), key.as_slice());
        let ghost answer = verified;
        let r = signature_result(verified);
        assert(crl_verify_gave(self.der@, key@, answer));
        r
    }

    /// Verifies the signature of the CRL under its issuer's key. A GOST issuer needs the engine.
    pub fn verify_signature_with_issuer(
        &self,
        issuer: &Certificate,
        gost_engine_path: &Option<String>,
        engine: &EngineCell,
    ) -> (r: Result<(), TrustError>)
        ensures
            match engine_step_if(issuer.signature_alg.gost(), engine@, *gost_engine_path) {
                EngineStep::Settled(Ok(_)) => verified_as(self.der@, issuer.public_key@, r),
                EngineStep::Settled(Err(why)) => r == Err::<(), TrustError>(
                    TrustError::EngineLoadFailed { source: why },
                ),
                EngineStep::LoadFrom(_) => r matches Err(TrustError::EngineLoadFailed { source })
                    && source is NotAvailable,
            },
    {
        match ensure_loaded_if_signature_alg_gost(engine, &issuer.signature_alg, gost_engine_path) {
            EngineStep::Settled(Ok(_)) => self.verify_signature(&issuer.public_key),
            EngineStep::Settled(Err(source)) => Err(TrustError::EngineLoadFailed { source }),
            EngineStep::LoadFrom(path) => Err(
                TrustError::EngineLoadFailed {
                    source: GostEngineError::NotAvailable(
                        cat2("engine not loaded yet: ", path.as_str()),
                    ),
                },
            ),
        }
    }
}

/// Whether a result is what verifying a signature comes to.
pub open spec fn is_signature_result(
    verified: Result<bool, String>,
    r: Result<(), TrustError>,
) -> bool {
    match verified {
        Ok(true) => r is Ok,
        Ok(false) => r matches Err(TrustError::CrlSignatureInvalid(why)) && why@
            == "CRL signature does not validate"@,
        Err(e) => r matches Err(TrustError::CrlSignatureInvalid(why)) && why@ == "CRL signature: "@
            + e@,
    }
}

/// Whether a result is what libcrypto's answer on this CRL and this key comes to.
pub open spec fn verified_as(der: Seq<u8>, key: Seq<u8>, r: Result<(), TrustError>) -> bool {
    exists|x: Result<bool, String>| #[trigger] crl_verify_gave(der, key, x) && is_signature_result(
        x,
        r,
    )
}

/// What verifying a signature comes to.
pub fn signature_result(verified: Result<bool, String>) -> (r: Result<(), TrustError>)
    ensures
        is_signature_result(verified, r),
{
    match verified {
        Ok(true) => Ok(()),
        Ok(false) => Err(
            TrustError::CrlSignatureInvalid("CRL signature does not validate".to_owned()),
        ),
        Err(e) => Err(TrustError::CrlSignatureInvalid(cat2("CRL signature: ", e.as_str()))),
    }
}

impl CrlStore {
    /// Reads CRLs in PEM, in order; the first that cannot be read is the error.
    pub fn from_pems(pems: &Vec<Vec<u8>>) -> (r: Result<CrlStore, TrustError>)
        ensures
            match r {
                Ok(s) => s.crls@.len() == pems@.len() && forall|i: int|
                    0 <= i < pems@.len() ==> pem_read_as((#[trigger] pems@[i])@, Ok(s.crls@[i])),
                Err(e) => exists|crls: Seq<Crl>|
                    crls.len() < pems@.len() && #[trigger] pem_read_as(
                        pems@[crls.len() as int]@,
                        Err(e),
                    ) && forall|k: int|
                        0 <= k < crls.len() ==> pem_read_as((#[trigger] pems@[k])@, Ok(crls[k])),
            },
    {
        let mut crls: Vec<Crl> = Vec::new();
        let mut i: usize = 0;
        while i < pems.len()
            invariant
                i <= pems@.len(),
                crls@.len() == i,
                forall|k: int|
                    0 <= k < i ==> pem_read_as((#[trigger] pems@[k])@, Ok(crls@[k])),
            decreases pems@.len() - i,
        {
            match Crl::from_pem(pems[i].as_slice()) {
                Ok(c) => {
                    crls.push(c);
                },
                Err(e) => {
                    assert(pem_read_as(pems@[crls@.len() as int]@, Err(e)));
                    return Err(e);
                },
            }
            i = i + 1;
        }
        Ok(CrlStore { crls })
    }

    /// A store of the given CRLs.
    pub fn from_crls(crls: Vec<Crl>) -> (r: CrlStore)
        ensures
            r.crls == crls,
    {
        CrlStore { crls }
    }

    /// A store without CRLs.
    pub fn empty() -> (r: CrlStore)
        ensures
            r.crls@.len() == 0,
    {
        CrlStore { crls: Vec::new() }
    }

    /// The CRLs.
    pub fn iter(&self) -> (r: &Vec<Crl>)
        ensures
            *r == self.crls,
    {
        &self.crls
    }

    /// Number of CRLs.
    pub fn len(&self) -> (r: usize)
        ensures
            r == self.crls@.len(),
    {
        self.crls.len()
    }

    /// Whether there are none.
    pub fn is_empty(&self) -> (r: bool)
        ensures
            r == (self.crls@.len() == 0),
    {
        self.crls.len() == 0
    }
}

// --- the check --------------------------------------------------------------

/// Whether a CRL is stale: past its `nextUpdate`, or older than the limit.
pub open spec fn stale(c: Crl, cfg: RevocationConfig, now: int) -> bool {
    ||| c.next_update is Some && c.next_update->0 * 1_000_000_000 <= now
    ||| cfg.crl_max_age is Some && now > c.this_update * 1_000_000_000
        + cfg.crl_max_age->0.total_nanos()
}

/// Whether a CRL is stale.
pub fn crl_is_stale(crl: &Crl, cfg: &RevocationConfig, now: i128) -> (r: bool)
    ensures
        r == stale(*crl, *cfg, now as int),
{
    let by_next_update = match crl.next_update {
        Some(t) => t as i128 * 1_000_000_000 <= now,
        None => false,
    };
    let by_age = match &cfg.crl_max_age {
        Some(d) => now > crl.this_update as i128 * 1_000_000_000 + d.secs as i128 * 1_000_000_000
            + d.nanos as i128,
        None => false,
    };
    by_next_update || by_age
}

/// Whether two byte strings are equal.
fn bytes_eq(a: &Vec<u8>, b: &Vec<u8>) -> (r: bool)
    ensures
        r == (a@ == b@),
{
    if a.len() != b.len() {
        return false;
    }
    let mut i: usize = 0;
    while i < a.len()
        invariant
            i <= a@.len(),
            a@.len() == b@.len(),
            forall|k: int| 0 <= k < i ==> a@[k] == b@[k],
        decreases a@.len() - i,
    {
        if a[i] != b[i] {
            return false;
        }
        i = i + 1;
    }
    assert(a@ =~= b@);
    true
}

/// Whether a name is the given DER form.
pub open spec fn is_name(dn: Option<Vec<u8>>, der: Seq<u8>) -> bool {
    dn is Some && dn->0@ == der
}

/// Whether the chain holds a certificate of that subject.
pub open spec fn in_chain(chain: Seq<Certificate>, der: Seq<u8>) -> bool {
    exists|i: int| 0 <= i < chain.len() && is_name((#[trigger] chain[i]).subject_dn, der)
}

/// Whether `i` is the first certificate of that subject in the chain.
pub open spec fn is_first_issuer(chain: Seq<Certificate>, der: Seq<u8>, i: int) -> bool {
    &&& 0 <= i < chain.len()
    &&& is_name(chain[i].subject_dn, der)
    &&& forall|k: int| 0 <= k < i ==> !is_name((#[trigger] chain[k]).subject_dn, der)
}

/// The first certificate of the chain with that subject.
pub fn find_issuer(chain: &Vec<Certificate>, issuer_dn_der: &Vec<u8>) -> (r: Option<usize>)
    ensures
        match r {
            Some(i) => is_first_issuer(chain@, issuer_dn_der@, i as int),
            None => !in_chain(chain@, issuer_dn_der@),
        },
{
    let mut i: usize = 0;
    while i < chain.len()
        invariant
            i <= chain@.len(),
            forall|k: int|
                0 <= k < i ==> !is_name((#[trigger] chain@[k]).subject_dn, issuer_dn_der@),
        decreases chain@.len() - i,
    {
        if let Some(s) = &chain[i].subject_dn {
            if bytes_eq(s, issuer_dn_der) {
                return Some(i);
            }
        }
        i = i + 1;
    }
    None
}

/// What verifying a CRL's signature under its issuer gave.
#[derive(Debug)]
pub enum SignatureVerdict {
    /// It holds.
    Valid,
    /// It does not, or it could not be verified.
    Invalid(String),
    /// The engine that it needs is not loaded.
    EngineFailed(GostEngineError),
}

/// Why a chain is refused.
pub ghost enum RevocationFault {
    /// A CRL is stale.
    Stale,
    /// A CRL's issuer is not in the chain.
    NoIssuer,
    /// A CRL's signature does not hold.
    Signature(Seq<char>),
    /// The engine for a CRL's signature is not loaded.
    Engine(GostEngineError),
    /// A certificate is revoked.
    Revoked(Seq<char>),
    /// A certificate is not covered.
    NotCovered(Seq<char>),
    /// An error that the check does not raise.
    Foreign,
}

/// The fault that an error reports.
pub open spec fn revocation_fault_of(e: TrustError) -> RevocationFault {
    match e {
        TrustError::Crl(why) => if why@ == "CRL stale"@ {
            RevocationFault::Stale
        } else {
            RevocationFault::Foreign
        },
        TrustError::CrlSignatureInvalid(why) => if why@ == no_issuer_text() {
            RevocationFault::NoIssuer
        } else {
            RevocationFault::Signature(why@)
        },
        TrustError::EngineLoadFailed { source } => RevocationFault::Engine(source),
        TrustError::Revoked(s) => RevocationFault::Revoked(s@),
        TrustError::CrlNotCovered(s) => RevocationFault::NotCovered(s@),
    }
}

/// The words for an issuer that is not in the chain.
pub open spec fn no_issuer_text() -> Seq<char> {
    "CRL issuer certificate not present in verified chain; signature cannot be verified"@
}

/// A signature's fault, if any. A reason in the words for a missing issuer counts as that.
pub open spec fn verdict_fault(v: SignatureVerdict) -> Option<RevocationFault> {
    match v {
        SignatureVerdict::Valid => None,
        SignatureVerdict::Invalid(why) => Some(
            revocation_fault_of(TrustError::CrlSignatureInvalid(why)),
        ),
        SignatureVerdict::EngineFailed(e) => Some(RevocationFault::Engine(e)),
    }
}

/// Whether a CRL is of the certificate's issuer.
pub open spec fn in_scope(cert: Certificate, c: Crl) -> bool {
    is_name(cert.issuer_dn, c.issuer_dn_der@)
}

/// Whether a CRL counts for a certificate: it is of its issuer and fresh.
pub open spec fn counts(cert: Certificate, c: Crl, cfg: RevocationConfig, now: int) -> bool {
    in_scope(cert, c) && !stale(c, cfg, now)
}

/// The serial number of a certificate, in lower case.
pub open spec fn serial_of(cert: Certificate) -> Seq<char> {
    ascii_lower(cert.serial_hex@)
}

/// Whether a CRL lists a certificate.
pub open spec fn lists(c: Crl, cert: Certificate) -> bool {
    texts(c.revoked@).contains(serial_of(cert))
}

/// Why a certificate is refused on the strength of one CRL. A CRL of another issuer says nothing;
/// a stale one is refused in strict mode and else skipped; a fresh one must be authentic before
/// its word counts.
pub open spec fn crl_fault(
    cert: Certificate,
    chain: Seq<Certificate>,
    c: Crl,
    verdict: SignatureVerdict,
    cfg: RevocationConfig,
    now: int,
) -> Option<RevocationFault> {
    if !in_scope(cert, c) {
        None
    } else if stale(c, cfg, now) {
        if cfg.crl_strict {
            Some(RevocationFault::Stale)
        } else {
            None
        }
    } else if !in_chain(chain, c.issuer_dn_der@) {
        Some(RevocationFault::NoIssuer)
    } else if verdict_fault(verdict) is Some {
        verdict_fault(verdict)
    } else if lists(c, cert) {
        Some(RevocationFault::Revoked(serial_of(cert)))
    } else {
        None
    }
}

/// Why a certificate is refused: for the first CRL that refuses it, else because none counts.
pub open spec fn cert_fault(
    cert: Certificate,
    chain: Seq<Certificate>,
    crls: Seq<Crl>,
    verdicts: spec_fn(int) -> SignatureVerdict,
    cfg: RevocationConfig,
    now: int,
) -> Option<RevocationFault> {
    let first = first_of(
        crls.len(),
        |i: int| crl_fault(cert, chain, crls[i], verdicts(i), cfg, now),
    );
    if first is Some {
        first
    } else if exists|i: int| 0 <= i < crls.len() && counts(cert, #[trigger] crls[i], cfg, now) {
        None
    } else {
        Some(RevocationFault::NotCovered(serial_of(cert)))
    }
}

/// How many certificates of a chain are checked: all but the last, which is the anchor.
pub open spec fn checked_count(chain: Seq<Certificate>) -> nat {
    if chain.len() == 0 {
        0
    } else {
        (chain.len() - 1) as nat
    }
}

/// Why a chain is refused: for its first certificate that is refused.
pub open spec fn chain_fault(
    chain: Seq<Certificate>,
    crls: Seq<Crl>,
    verdicts: spec_fn(int) -> SignatureVerdict,
    cfg: RevocationConfig,
    now: int,
) -> Option<RevocationFault> {
    first_of(
        checked_count(chain),
        |i: int| cert_fault(chain[i], chain, crls, verdicts, cfg, now),
    )
}

/// The verdicts of a list; a CRL that is not in it counts as not verified.
pub open spec fn verdict_at(v: Seq<SignatureVerdict>) -> spec_fn(int) -> SignatureVerdict {
    |i: int|
        if 0 <= i < v.len() {
            v[i]
        } else {
            SignatureVerdict::EngineFailed(GostEngineError::PathNotConfigured)
        }
}

fn is_listed(c: &Crl, serial: &str) -> (r: bool)
    ensures
        r == texts(c.revoked@).contains(serial@),
{
    let ghost all = texts(c.revoked@);
    let mut i: usize = 0;
    while i < c.revoked.len()
        invariant
            i <= c.revoked@.len(),
            all == texts(c.revoked@),
            forall|k: int| 0 <= k < i ==> all[k] != serial@,
        decreases c.revoked@.len() - i,
    {
        assert(all[i as int] == c.revoked@[i as int]@);
        if str_eq(c.revoked[i].as_str(), serial) {
            return true;
        }
        i = i + 1;
    }
    false
}

fn is_of_issuer(cert: &Certificate, c: &Crl) -> (r: bool)
    ensures
        r == in_scope(*cert, *c),
{
    match &cert.issuer_dn {
        Some(dn) => bytes_eq(dn, &c.issuer_dn_der),
        None => false,
    }
}

/// The error of a verdict at a place of a list.
fn verdict_error(verdicts: &Vec<SignatureVerdict>, i: usize) -> (r: Result<(), TrustError>)
    ensures
        match r {
            Ok(()) => verdict_fault(verdict_at(verdicts@)(i as int)) is None,
            Err(e) => verdict_fault(verdict_at(verdicts@)(i as int)) == Some(
                revocation_fault_of(e),
            ),
        },
{
    if i < verdicts.len() {
        match &verdicts[i] {
            SignatureVerdict::Valid => Ok(()),
            SignatureVerdict::Invalid(why) => Err(TrustError::CrlSignatureInvalid(why.clone())),
            SignatureVerdict::EngineFailed(e) => Err(
                TrustError::EngineLoadFailed { source: e.duplicate() },
            ),
        }
    } else {
        Err(TrustError::EngineLoadFailed { source: GostEngineError::PathNotConfigured })
    }
}

fn check_crl(
    cert: &Certificate,
    chain: &Vec<Certificate>,
    c: &Crl,
    verdicts: &Vec<SignatureVerdict>,
    i: usize,
    cfg: &RevocationConfig,
    now: i128,
) -> (r: Result<bool, TrustError>)
    ensures
        match r {
            Ok(b) => crl_fault(
                *cert,
                chain@,
                *c,
                verdict_at(verdicts@)(i as int),
                *cfg,
                now as int,
            ) is None && b == counts(*cert, *c, *cfg, now as int),
            Err(e) => crl_fault(
                *cert,
                chain@,
                *c,
                verdict_at(verdicts@)(i as int),
                *cfg,
                now as int,
            ) == Some(revocation_fault_of(e)),
        },
{
    if !is_of_issuer(cert, c) {
        return Ok(false);
    }
    if crl_is_stale(c, cfg, now) {
        if cfg.crl_strict {
            return Err(TrustError::Crl("CRL stale".to_owned()));
        }
        return Ok(false);
    }
    if find_issuer(chain, &c.issuer_dn_der).is_none() {
        return Err(
            TrustError::CrlSignatureInvalid(
                "CRL issuer certificate not present in verified chain; signature cannot be verified".to_owned(),
            ),
        );
    }
    proof {
        let der = c.issuer_dn_der@;
        assert(in_chain(chain@, der));
    }
    match verdict_error(verdicts, i) {
        Ok(()) => {},
        Err(e) => {
            return Err(e);
        },
    }
    let serial = to_ascii_lower(cert.serial_hex.as_str());
    if is_listed(c, serial.as_str()) {
        return Err(TrustError::Revoked(serial));
    }
    Ok(true)
}

fn check_cert(
    cert: &Certificate,
    chain: &Vec<Certificate>,
    crls: &Vec<Crl>,
    verdicts: &Vec<SignatureVerdict>,
    cfg: &RevocationConfig,
    now: i128,
) -> (r: Result<(), TrustError>)
    ensures
        match r {
            Ok(()) => cert_fault(
                *cert,
                chain@,
                crls@,
                verdict_at(verdicts@),
                *cfg,
                now as int,
            ) is None,
            Err(e) => cert_fault(
                *cert,
                chain@,
                crls@,
                verdict_at(verdicts@),
                *cfg,
                now as int,
            ) == Some(revocation_fault_of(e)),
        },
{
    let ghost at = |i: int|
        crl_fault(*cert, chain@, crls@[i], verdict_at(verdicts@)(i), *cfg, now as int);
    let mut covered = false;
    let mut i: usize = 0;
    while i < crls.len()
        invariant
            i <= crls@.len(),
            at == (|i: int|
                crl_fault(*cert, chain@, crls@[i], verdict_at(verdicts@)(i), *cfg, now as int)),
            first_of(i as nat, at) is None,
            covered == (exists|k: int|
                0 <= k < i && counts(*cert, #[trigger] crls@[k], *cfg, now as int)),
        decreases crls@.len() - i,
    {
        proof {
            if first_of((i + 1) as nat, at) is Some {
                lemma_first_of(crls@.len(), (i + 1) as nat, at);
            }
        }
        match check_crl(cert, chain, &crls[i], verdicts, i, cfg, now) {
            Ok(b) => {
                if b {
                    assert(counts(*cert, crls@[i as int], *cfg, now as int));
                    covered = true;
                }
            },
            Err(e) => {
                return Err(e);
            },
        }
        i = i + 1;
    }
    if !covered {
        return Err(TrustError::CrlNotCovered(to_ascii_lower(cert.serial_hex.as_str())));
    }
    Ok(())
}

/// What is worth a warning of a CRL that a check comes across.
#[derive(Debug, Clone, Copy, PartialEq, Eq, Structural)]
pub enum CrlWarning {
    /// It is stale, and is skipped.
    Skipped,
    /// It has no `nextUpdate`, and no maximum age is configured: it never becomes stale.
    NeverStale,
}

/// What is worth a warning of a CRL when a certificate is checked: nothing of one of another
/// issuer, nor of a stale one where that is an error.
pub fn crl_warning(cert: &Certificate, crl: &Crl, cfg: &RevocationConfig, now: i128) -> (r: Option<
    CrlWarning,
>)
    ensures
        r == if !in_scope(*cert, *crl) {
            None
        } else if stale(*crl, *cfg, now as int) {
            if cfg.crl_strict {
                None
            } else {
                Some(CrlWarning::Skipped)
            }
        } else if crl.next_update is None && cfg.crl_max_age is None {
            Some(CrlWarning::NeverStale)
        } else {
            None
        },
{
    if !is_of_issuer(cert, crl) {
        return None;
    }
    if crl_is_stale(crl, cfg, now) {
        return if cfg.crl_strict {
            None
        } else {
            Some(CrlWarning::Skipped)
        };
    }
    if crl.next_update.is_none() && cfg.crl_max_age.is_none() {
        Some(CrlWarning::NeverStale)
    } else {
        None
    }
}

/// Walks a chain, leaf first, and refuses a certificate that is revoked or not covered, from what
/// verifying each CRL gave. The last certificate is the anchor: configuration vouches for it, no
/// CRL. Every other must be covered by a fresh and authentic CRL of its issuer: a status that
/// cannot be determined is a refusal.
pub fn check_revocation_given(
    chain: &Vec<Certificate>,
    store: &CrlStore,
    cfg: &RevocationConfig,
    now: i128,
    verdicts: &Vec<SignatureVerdict>,
) -> (r: Result<(), TrustError>)
    ensures
        match r {
            Ok(()) => chain_fault(
                chain@,
                store.crls@,
                verdict_at(verdicts@),
                *cfg,
                now as int,
            ) is None,
            Err(e) => chain_fault(
                chain@,
                store.crls@,
                verdict_at(verdicts@),
                *cfg,
                now as int,
            ) == Some(revocation_fault_of(e)),
        },
{
    let ghost at = |i: int|
        cert_fault(
            chain@[i],
            chain@,
            store.crls@,
            verdict_at(verdicts@),
            *cfg,
            now as int,
        );
    let n: usize = if chain.len() == 0 {
        0
    } else {
        chain.len() - 1
    };
    let mut i: usize = 0;
    while i < n
        invariant
            i <= n,
            n == checked_count(chain@),
            n <= chain@.len(),
            at == (|i: int|
                cert_fault(
                    chain@[i],
                    chain@,
                    store.crls@,
                    verdict_at(verdicts@),
                    *cfg,
                    now as int,
                )),
            first_of(i as nat, at) is None,
        decreases n - i,
    {
        proof {
            if first_of((i + 1) as nat, at) is Some {
                lemma_first_of(n as nat, (i + 1) as nat, at);
            }
        }
        match check_cert(&chain[i], chain, &store.crls, verdicts, cfg, now) {
            Ok(()) => {},
            Err(e) => {
                return Err(e);
            },
        }
        i = i + 1;
    }
    Ok(())
}

/// Whether a verdict is what verifying a CRL under the first certificate of its issuer comes to,
/// with the engine where that issuer needs it. Of a CRL without an issuer in the chain none is due.
pub open spec fn verdict_from(
    chain: Seq<Certificate>,
    c: Crl,
    path: Option<String>,
    engine: Option<Result<(), GostEngineError>>,
    v: SignatureVerdict,
) -> bool {
    forall|k: int| #[trigger]
        is_first_issuer(chain, c.issuer_dn_der@, k) ==> match engine_step_if(
            chain[k].signature_alg.gost(),
            engine,
            path,
        ) {
            EngineStep::Settled(Ok(_)) => verified_as(
                c.der@,
                chain[k].public_key@,
                match v {
                    SignatureVerdict::Valid => Ok(()),
                    SignatureVerdict::Invalid(why) => Err(TrustError::CrlSignatureInvalid(why)),
                    SignatureVerdict::EngineFailed(e) => Err(
                        TrustError::EngineLoadFailed { source: e },
                    ),
                },
            ),
            EngineStep::Settled(Err(why)) => v == SignatureVerdict::EngineFailed(why),
            EngineStep::LoadFrom(_) => v matches SignatureVerdict::EngineFailed(e) && e
                is NotAvailable,
        }
}

/// Whether verdicts are what verifying each CRL comes to.
pub open spec fn verdicts_from(
    chain: Seq<Certificate>,
    crls: Seq<Crl>,
    path: Option<String>,
    engine: Option<Result<(), GostEngineError>>,
    v: Seq<SignatureVerdict>,
) -> bool {
    &&& v.len() == crls.len()
    &&& forall|i: int|
        0 <= i < v.len() ==> verdict_from(chain, crls[i], path, engine, #[trigger] v[i])
}

/// Verifies each CRL whose issuer is in the chain, under that issuer's key.
fn verify_all(
    chain: &Vec<Certificate>,
    store: &CrlStore,
    cfg: &RevocationConfig,
    engine: &EngineCell,
) -> (r: Vec<SignatureVerdict>)
    ensures
        r@.len() == store.crls@.len(),
        forall|i: int|
            0 <= i < r@.len() ==> verdict_from(
                chain@,
                store.crls@[i],
                cfg.gost_engine_path,
                engine@,
                #[trigger] r@[i],
            ),
{
    let mut out: Vec<SignatureVerdict> = Vec::new();
    let mut i: usize = 0;
    while i < store.crls.len()
        invariant
            i <= store.crls@.len(),
            out@.len() == i,
            forall|k: int|
                0 <= k < i ==> verdict_from(
                    chain@,
                    store.crls@[k],
                    cfg.gost_engine_path,
                    engine@,
                    #[trigger] out@[k],
                ),
        decreases store.crls@.len() - i,
    {
        let c = &store.crls[i];
        let issuer = find_issuer(chain, &c.issuer_dn_der);
        proof {
            assert forall|k: int, m: int|
                is_first_issuer(chain@, c.issuer_dn_der@, k) && is_first_issuer(
                    chain@,
                    c.issuer_dn_der@,
                    m,
                ) implies k == m by {
                if k < m {
                    assert(!is_name(chain@[k].subject_dn, c.issuer_dn_der@));
                } else if m < k {
                    assert(!is_name(chain@[m].subject_dn, c.issuer_dn_der@));
                }
            }
        }
        let verdict = match issuer {
            Some(k) => match c.verify_signature_with_issuer(
                &chain[k],
                &cfg.gost_engine_path,
                engine,
            ) {
                Ok(()) => SignatureVerdict::Valid,
                Err(TrustError::EngineLoadFailed { source }) => SignatureVerdict::EngineFailed(
                    source,
                ),
                Err(TrustError::CrlSignatureInvalid(why)) => SignatureVerdict::Invalid(why),
                Err(_) => SignatureVerdict::Invalid(String::new()),
            },
            None => SignatureVerdict::Invalid(String::new()),
        };
        out.push(verdict);
        i = i + 1;
    }
    out
}

/// Walks a chain, leaf first, and refuses a certificate that is revoked or not covered by a fresh
/// and authentic CRL of its issuer. Whatever verifying the CRLs gives, the result is that of
/// [`check_revocation_given`].
pub fn check_revocation(
    chain: &Vec<Certificate>,
    store: &CrlStore,
    cfg: &RevocationConfig,
    now: i128,
    engine: &EngineCell,
) -> (r: Result<(), TrustError>)
    ensures
        exists|v: Seq<SignatureVerdict>|
            verdicts_from(chain@, store.crls@, cfg.gost_engine_path, engine@, v) && match r {
                Ok(()) => (#[trigger] chain_fault(
                    chain@,
                    store.crls@,
                    verdict_at(v),
                    *cfg,
                    now as int,
                )) is None,
                Err(e) => chain_fault(chain@, store.crls@, verdict_at(v), *cfg, now as int) == Some(
                    revocation_fault_of(e),
                ),
            },
{
    let verdicts = verify_all(chain, store, cfg, engine);
    let r = check_revocation_given(chain, store, cfg, now, &verdicts);
    assert(chain_fault(chain@, store.crls@, verdict_at(verdicts@), *cfg, now as int) is None || r
        is Err);
    r
}

/// What the first CRL that counts for a certificate says of it, or why it cannot say; `None` where
/// none counts.
pub open spec fn coverage_at(
    cert: Certificate,
    chain: Seq<Certificate>,
    c: Crl,
    verdict: SignatureVerdict,
    cfg: RevocationConfig,
    now: int,
) -> Option<Result<bool, RevocationFault>> {
    if !counts(cert, c, cfg, now) {
        None
    } else if !in_chain(chain, c.issuer_dn_der@) {
        Some(Err(RevocationFault::NoIssuer))
    } else {
        match verdict_fault(verdict) {
            Some(f) => Some(Err(f)),
            None => Some(Ok(lists(c, cert))),
        }
    }
}

/// What the CRLs say of a certificate: the first that counts decides.
pub open spec fn coverage_of(
    cert: Certificate,
    chain: Seq<Certificate>,
    crls: Seq<Crl>,
    verdicts: spec_fn(int) -> SignatureVerdict,
    cfg: RevocationConfig,
    now: int,
) -> Option<Result<bool, RevocationFault>> {
    first_of(
        crls.len(),
        |i: int| coverage_at(cert, chain, crls[i], verdicts(i), cfg, now),
    )
}

/// Whether a result reports the coverage.
pub open spec fn reports_coverage(
    coverage: Option<Result<bool, RevocationFault>>,
    r: Result<CrlCoverage, TrustError>,
) -> bool {
    match r {
        Ok(CrlCoverage::NotCovered) => coverage is None,
        Ok(CrlCoverage::Covered(b)) => coverage == Some(Ok::<bool, RevocationFault>(b)),
        Err(e) => coverage == Some(Err::<bool, RevocationFault>(revocation_fault_of(e))),
    }
}

/// What the CRLs say of a certificate, from what verifying each CRL gave. A stale CRL is passed
/// over, so that the caller can ask elsewhere; one that is not authentic is an error.
pub fn crl_status_given(
    cert: &Certificate,
    chain: &Vec<Certificate>,
    store: &CrlStore,
    cfg: &RevocationConfig,
    now: i128,
    verdicts: &Vec<SignatureVerdict>,
) -> (r: Result<CrlCoverage, TrustError>)
    ensures
        reports_coverage(
            coverage_of(*cert, chain@, store.crls@, verdict_at(verdicts@), *cfg, now as int),
            r,
        ),
{
    let ghost at = |i: int|
        coverage_at(*cert, chain@, store.crls@[i], verdict_at(verdicts@)(i), *cfg, now as int);
    let mut i: usize = 0;
    while i < store.crls.len()
        invariant
            i <= store.crls@.len(),
            at == (|i: int|
                coverage_at(
                    *cert,
                    chain@,
                    store.crls@[i],
                    verdict_at(verdicts@)(i),
                    *cfg,
                    now as int,
                )),
            first_of(i as nat, at) is None,
        decreases store.crls@.len() - i,
    {
        proof {
            if first_of((i + 1) as nat, at) is Some {
                lemma_first_of(store.crls@.len(), (i + 1) as nat, at);
            }
        }
        let c = &store.crls[i];
        if is_of_issuer(cert, c) && !crl_is_stale(c, cfg, now) {
            if find_issuer(chain, &c.issuer_dn_der).is_none() {
                return Err(
                    TrustError::CrlSignatureInvalid(
                        "CRL issuer certificate not present in verified chain; signature cannot be verified".to_owned(),
                    ),
                );
            }
            proof {
                let der = c.issuer_dn_der@;
                assert(in_chain(chain@, der));
            }
            match verdict_error(verdicts, i) {
                Ok(()) => {},
                Err(e) => {
                    return Err(e);
                },
            }
            let serial = to_ascii_lower(cert.serial_hex.as_str());
            return Ok(CrlCoverage::Covered(is_listed(c, serial.as_str())));
        }
        i = i + 1;
    }
    Ok(CrlCoverage::NotCovered)
}

/// What the CRLs say of a certificate. Whatever verifying them gives, the result is that of
/// [`crl_status_given`].
pub fn crl_status_for(
    cert: &Certificate,
    chain: &Vec<Certificate>,
    store: &CrlStore,
    cfg: &RevocationConfig,
    now: i128,
    engine: &EngineCell,
) -> (r: Result<CrlCoverage, TrustError>)
    ensures
        exists|v: Seq<SignatureVerdict>|
            verdicts_from(chain@, store.crls@, cfg.gost_engine_path, engine@, v)
                && reports_coverage(
                #[trigger] coverage_of(
                    *cert,
                    chain@,
                    store.crls@,
                    verdict_at(v),
                    *cfg,
                    now as int,
                ),
                r,
            ),
{
    let verdicts = verify_all(chain, store, cfg, engine);
    let r = crl_status_given(cert, chain, store, cfg, now, &verdicts);
    assert(reports_coverage(
        coverage_of(*cert, chain@, store.crls@, verdict_at(verdicts@), *cfg, now as int),
        r,
    ));
    r
}

// --- laws -------------------------------------------------------------------

/// In a chain that passes, every certificate but the anchor is covered by a fresh CRL of its
/// issuer, and each such CRL is authentic and does not list it.
pub proof fn passing_chain_is_covered_and_not_revoked(
    chain: Seq<Certificate>,
    crls: Seq<Crl>,
    verdicts: spec_fn(int) -> SignatureVerdict,
    cfg: RevocationConfig,
    now: int,
    i: int,
)
    requires
        chain_fault(chain, crls, verdicts, cfg, now) is None,
        0 <= i < chain.len() - 1,
    ensures
        exists|k: int| 0 <= k < crls.len() && counts(chain[i], #[trigger] crls[k], cfg, now),
        forall|k: int|
            0 <= k < crls.len() && counts(chain[i], #[trigger] crls[k], cfg, now) ==> verdicts(k)
                is Valid && in_chain(chain, crls[k].issuer_dn_der@) && !lists(crls[k], chain[i]),
{
    let at = |i: int| cert_fault(chain[i], chain, crls, verdicts, cfg, now);
    lemma_none_of(checked_count(chain), i, at);
    let cert = chain[i];
    let per = |k: int| crl_fault(cert, chain, crls[k], verdicts(k), cfg, now);
    assert(cert_fault(cert, chain, crls, verdicts, cfg, now) is None);
    assert forall|k: int| 0 <= k < crls.len() && counts(cert, #[trigger] crls[k], cfg, now) implies
        verdicts(k) is Valid && in_chain(chain, crls[k].issuer_dn_der@) && !lists(
        crls[k],
        cert,
    ) by {
        lemma_none_of(crls.len(), k, per);
    }
}

/// A certificate that a CRL which counts lists never passes.
pub proof fn revoked_certificate_never_passes(
    chain: Seq<Certificate>,
    crls: Seq<Crl>,
    verdicts: spec_fn(int) -> SignatureVerdict,
    cfg: RevocationConfig,
    now: int,
    i: int,
    k: int,
)
    requires
        0 <= i < chain.len() - 1,
        0 <= k < crls.len(),
        counts(chain[i], crls[k], cfg, now),
        lists(crls[k], chain[i]),
    ensures
        chain_fault(chain, crls, verdicts, cfg, now) is Some,
{
    if chain_fault(chain, crls, verdicts, cfg, now) is None {
        passing_chain_is_covered_and_not_revoked(chain, crls, verdicts, cfg, now, i);
    }
}

/// Without a CRL that counts for it, a certificate is refused; an empty store covers none.
pub proof fn uncovered_certificate_never_passes(
    chain: Seq<Certificate>,
    crls: Seq<Crl>,
    verdicts: spec_fn(int) -> SignatureVerdict,
    cfg: RevocationConfig,
    now: int,
    i: int,
)
    requires
        0 <= i < chain.len() - 1,
        forall|k: int| 0 <= k < crls.len() ==> !counts(chain[i], #[trigger] crls[k], cfg, now),
    ensures
        chain_fault(chain, crls, verdicts, cfg, now) is Some,
{
    if chain_fault(chain, crls, verdicts, cfg, now) is None {
        passing_chain_is_covered_and_not_revoked(chain, crls, verdicts, cfg, now, i);
    }
}

/// In strict mode a stale CRL of the issuer of a checked certificate is a refusal.
pub proof fn strict_mode_refuses_stale_crls(
    chain: Seq<Certificate>,
    crls: Seq<Crl>,
    verdicts: spec_fn(int) -> SignatureVerdict,
    cfg: RevocationConfig,
    now: int,
    i: int,
    k: int,
)
    requires
        cfg.crl_strict,
        0 <= i < chain.len() - 1,
        0 <= k < crls.len(),
        in_scope(chain[i], crls[k]),
        stale(crls[k], cfg, now),
    ensures
        chain_fault(chain, crls, verdicts, cfg, now) is Some,
{
    let at = |i: int| cert_fault(chain[i], chain, crls, verdicts, cfg, now);
    let cert = chain[i];
    let per = |k: int| crl_fault(cert, chain, crls[k], verdicts(k), cfg, now);
    lemma_some_of(crls.len(), k, per);
    assert(cert_fault(cert, chain, crls, verdicts, cfg, now) is Some);
    lemma_some_of(checked_count(chain), i, at);
}

/// A certificate whose lower-case serial number stands anywhere in the list of a fresh CRL of its
/// issuer is refused with its chain.
pub proof fn listed_serial_is_refused(
    chain: Seq<Certificate>,
    crls: Seq<Crl>,
    verdicts: spec_fn(int) -> SignatureVerdict,
    cfg: RevocationConfig,
    now: int,
    i: int,
    k: int,
    m: int,
)
    requires
        0 <= i < chain.len() - 1,
        0 <= k < crls.len(),
        0 <= m < crls[k].revoked@.len(),
        (chain[i].issuer_dn matches Some(dn) && dn@ == crls[k].issuer_dn_der@),
        (crls[k].next_update matches Some(t) ==> now < t * 1_000_000_000) && (
        cfg.crl_max_age matches Some(a) ==> now <= crls[k].this_update * 1_000_000_000 + a.secs
            * 1_000_000_000 + a.nanos),
        crls[k].revoked@[m]@ == ascii_lower(chain[i].serial_hex@),
    ensures
        chain_fault(chain, crls, verdicts, cfg, now) is Some,
{
    assert(texts(crls[k].revoked@)[m] == serial_of(chain[i]));
    revoked_certificate_never_passes(chain, crls, verdicts, cfg, now, i, k);
}

/// What is said of a certificate goes by the first fresh CRL of its issuer: where that is
/// authentic, it is covered, and revoked exactly if its lower-case serial number stands anywhere in
/// the list.
pub proof fn status_goes_by_the_first_fresh_crl(
    cert: Certificate,
    chain: Seq<Certificate>,
    crls: Seq<Crl>,
    verdicts: spec_fn(int) -> SignatureVerdict,
    cfg: RevocationConfig,
    now: int,
    k: int,
)
    requires
        0 <= k < crls.len(),
        cert.issuer_dn matches Some(dn) && dn@ == crls[k].issuer_dn_der@,
        (crls[k].next_update matches Some(t) ==> now < t * 1_000_000_000) && (
        cfg.crl_max_age matches Some(a) ==> now <= crls[k].this_update * 1_000_000_000 + a.secs
            * 1_000_000_000 + a.nanos),
        forall|j: int|
            0 <= j < k ==> !(cert.issuer_dn matches Some(dn) && dn@ == (
            #[trigger] crls[j]).issuer_dn_der@),
    ensures
        coverage_of(cert, chain, crls, verdicts, cfg, now) is Some,
        coverage_of(cert, chain, crls, verdicts, cfg, now)->0 is Ok <==> verdicts(k) is Valid && (
        exists|s: int|
            0 <= s < chain.len() && ((#[trigger] chain[s]).subject_dn matches Some(dn) && dn@
                == crls[k].issuer_dn_der@)),
        coverage_of(cert, chain, crls, verdicts, cfg, now) matches Some(Ok(listed)) ==> (listed
            <==> exists|m: int|
            0 <= m < crls[k].revoked@.len() && (#[trigger] crls[k].revoked@[m])@ == ascii_lower(
                cert.serial_hex@,
            )),
{
    let at = |i: int| coverage_at(cert, chain, crls[i], verdicts(i), cfg, now);
    assert forall|j: int| 0 <= j < k implies (#[trigger] at(j)) is None by {
        let c = crls[j];
        assert(!in_scope(cert, c));
    }
    assert(counts(cert, crls[k], cfg, now));
    assert(at(k) is Some);
    first_stands_first(crls.len(), k, at);
    let list = crls[k].revoked@;
    let serial = ascii_lower(cert.serial_hex@);
    if texts(list).contains(serial) {
        let m = choose|m: int| 0 <= m < texts(list).len() && texts(list)[m] == serial;
        assert(list[m]@ == serial);
    }
    if exists|m: int| 0 <= m < list.len() && (#[trigger] list[m])@ == serial {
        let m = choose|m: int| 0 <= m < list.len() && (#[trigger] list[m])@ == serial;
        assert(texts(list)[m] == serial);
    }
    if exists|s: int|
        0 <= s < chain.len() && ((#[trigger] chain[s]).subject_dn matches Some(dn) && dn@
            == crls[k].issuer_dn_der@) {
        let s = choose|s: int|
            0 <= s < chain.len() && ((#[trigger] chain[s]).subject_dn matches Some(dn) && dn@
                == crls[k].issuer_dn_der@);
        assert(is_name(chain[s].subject_dn, crls[k].issuer_dn_der@));
    }
    if in_chain(chain, crls[k].issuer_dn_der@) {
        let s = choose|s: int|
            0 <= s < chain.len() && is_name((#[trigger] chain[s]).subject_dn, crls[k].issuer_dn_der@);
        assert(chain[s].subject_dn is Some);
    }
}

/// A chain passes where every certificate but the last has a fresh CRL of its issuer, each such CRL
/// is of a subject of the chain, authentic and without the lower-case serial number, and no stale
/// one is there in strict mode.
pub proof fn sound_chain_passes(
    chain: Seq<Certificate>,
    crls: Seq<Crl>,
    verdicts: spec_fn(int) -> SignatureVerdict,
    cfg: RevocationConfig,
    now: int,
)
    requires
        forall|i: int|
            0 <= i < chain.len() - 1 ==> exists|k: int|
                0 <= k < crls.len() && ((#[trigger] chain[i]).issuer_dn matches Some(dn) && dn@ == (
                #[trigger] crls[k]).issuer_dn_der@) && (crls[k].next_update matches Some(t) ==> now < t * 1_000_000_000) && (
        cfg.crl_max_age matches Some(a) ==> now <= crls[k].this_update * 1_000_000_000 + a.secs
            * 1_000_000_000 + a.nanos),
        forall|i: int, k: int|
            0 <= i < chain.len() - 1 && 0 <= k < crls.len() && ((
            #[trigger] chain[i]).issuer_dn matches Some(dn) && dn@ == (
            #[trigger] crls[k]).issuer_dn_der@) ==> if (crls[k].next_update matches Some(t) ==> now < t * 1_000_000_000) && (
        cfg.crl_max_age matches Some(a) ==> now <= crls[k].this_update * 1_000_000_000 + a.secs
            * 1_000_000_000 + a.nanos) {
                verdicts(k) is Valid && (exists|s: int|
                    0 <= s < chain.len() && is_name(
                        (#[trigger] chain[s]).subject_dn,
                        crls[k].issuer_dn_der@,
                    )) && forall|m: int|
                    0 <= m < crls[k].revoked@.len() ==> (#[trigger] crls[k].revoked@[m])@
                        != ascii_lower(chain[i].serial_hex@)
            } else {
                !cfg.crl_strict
            },
    ensures
        chain_fault(chain, crls, verdicts, cfg, now) is None,
{
    let at = |i: int| cert_fault(chain[i], chain, crls, verdicts, cfg, now);
    assert forall|i: int| 0 <= i < checked_count(chain) implies (#[trigger] at(i)) is None by {
        let cert = chain[i];
        let per = |k: int| crl_fault(cert, chain, crls[k], verdicts(k), cfg, now);
        assert forall|k: int| 0 <= k < crls.len() implies (#[trigger] per(k)) is None by {
            let c = crls[k];
            if in_scope(cert, c) && !stale(c, cfg, now) {
                if texts(c.revoked@).contains(serial_of(cert)) {
                    let m = choose|m: int|
                        0 <= m < texts(c.revoked@).len() && texts(c.revoked@)[m] == serial_of(cert);
                    assert(c.revoked@[m]@ == serial_of(cert));
                }
            }
        }
        none_where_no_place_has_one(crls.len(), per);
        let k = choose|k: int|
            0 <= k < crls.len() && (cert.issuer_dn matches Some(dn) && dn@ == (
            #[trigger] crls[k]).issuer_dn_der@) && (crls[k].next_update matches Some(t) ==> now < t * 1_000_000_000) && (
        cfg.crl_max_age matches Some(a) ==> now <= crls[k].this_update * 1_000_000_000 + a.secs
            * 1_000_000_000 + a.nanos);
        assert(counts(cert, crls[k], cfg, now));
    }
    none_where_no_place_has_one(checked_count(chain), at);
}

/// Whatever else a store holds, a CRL of another issuer, or one that is stale where that is no
/// error, neither helps nor harms: a chain that passes with it passes without it.
pub proof fn foreign_crls_change_nothing(
    chain: Seq<Certificate>,
    crls: Seq<Crl>,
    extra: Crl,
    verdicts: spec_fn(int) -> SignatureVerdict,
    cfg: RevocationConfig,
    now: int,
)
    requires
        forall|i: int|
            0 <= i < chain.len() ==> !((#[trigger] chain[i]).issuer_dn matches Some(dn) && dn@
                == extra.issuer_dn_der@),
    ensures
        chain_fault(chain, crls.push(extra), verdicts, cfg, now) is None <==> chain_fault(
            chain,
            crls,
            verdicts,
            cfg,
            now,
        ) is None,
{
    let more = crls.push(extra);
    let at = |i: int| cert_fault(chain[i], chain, crls, verdicts, cfg, now);
    let at2 = |i: int| cert_fault(chain[i], chain, more, verdicts, cfg, now);
    assert forall|i: int| 0 <= i < checked_count(chain) implies (#[trigger] at(i) is None) == (
    #[trigger] at2(i) is None) by {
        let cert = chain[i];
        let per = |k: int| crl_fault(cert, chain, crls[k], verdicts(k), cfg, now);
        let per2 = |k: int| crl_fault(cert, chain, more[k], verdicts(k), cfg, now);
        assert(!in_scope(cert, extra));
        if at(i) is None {
            assert forall|k: int| 0 <= k < more.len() implies (#[trigger] per2(k)) is None by {
                if k < crls.len() {
                    lemma_none_of(crls.len(), k, per);
                    assert(more[k] == crls[k]);
                }
            }
            none_where_no_place_has_one(more.len(), per2);
            let k = choose|k: int|
                0 <= k < crls.len() && counts(cert, #[trigger] crls[k], cfg, now);
            assert(more[k] == crls[k]);
        }
        if at2(i) is None {
            assert forall|k: int| 0 <= k < crls.len() implies (#[trigger] per(k)) is None by {
                lemma_none_of(more.len(), k, per2);
                assert(more[k] == crls[k]);
            }
            none_where_no_place_has_one(crls.len(), per);
            let k = choose|k: int|
                0 <= k < more.len() && counts(cert, #[trigger] more[k], cfg, now);
            assert(more[k] == crls[k]);
        }
    }
    if chain_fault(chain, crls, verdicts, cfg, now) is None {
        assert forall|i: int| 0 <= i < checked_count(chain) implies (#[trigger] at2(i)) is None by {
            lemma_none_of(checked_count(chain), i, at);
        }
        none_where_no_place_has_one(checked_count(chain), at2);
    }
    if chain_fault(chain, more, verdicts, cfg, now) is None {
        assert forall|i: int| 0 <= i < checked_count(chain) implies (#[trigger] at(i)) is None by {
            lemma_none_of(checked_count(chain), i, at2);
        }
        none_where_no_place_has_one(checked_count(chain), at);
    }
}

/// The first certificate at fault names the fault: a refusal as revoked or not covered carries the
/// lower-case serial number of a checked certificate, and every one before it is without fault.
pub proof fn refusal_names_a_checked_certificate(
    chain: Seq<Certificate>,
    crls: Seq<Crl>,
    verdicts: spec_fn(int) -> SignatureVerdict,
    cfg: RevocationConfig,
    now: int,
)
    ensures
        chain_fault(chain, crls, verdicts, cfg, now) matches Some(RevocationFault::Revoked(s))
            ==> exists|i: int, k: int, m: int|
            0 <= i < chain.len() - 1 && 0 <= k < crls.len() && 0 <= m < crls[k].revoked@.len() && s
                == ascii_lower((#[trigger] chain[i]).serial_hex@) && (
            #[trigger] crls[k].revoked@[m])@ == s && (chain[i].issuer_dn matches Some(dn) && dn@ == crls[k].issuer_dn_der@) && verdicts(k) is Valid,
        chain_fault(chain, crls, verdicts, cfg, now) matches Some(RevocationFault::NotCovered(s))
            ==> exists|i: int|
            0 <= i < chain.len() - 1 && s == ascii_lower((#[trigger] chain[i]).serial_hex@)
                && forall|k: int|
                0 <= k < crls.len() ==> !((chain[i].issuer_dn matches Some(dn) && dn@ == (#[trigger] crls[k]).issuer_dn_der@) && (crls[k].next_update matches Some(t) ==> now < t * 1_000_000_000) && (
        cfg.crl_max_age matches Some(a) ==> now <= crls[k].this_update * 1_000_000_000 + a.secs
            * 1_000_000_000 + a.nanos)),
{
    let at = |i: int| cert_fault(chain[i], chain, crls, verdicts, cfg, now);
    if chain_fault(chain, crls, verdicts, cfg, now) is Some {
        let i = place_of_first(checked_count(chain), at);
        let cert = chain[i];
        let per = |k: int| crl_fault(cert, chain, crls[k], verdicts(k), cfg, now);
        if at(i) is Some && at(i)->0 is Revoked {
            let k = place_of_first(crls.len(), per);
            let list = crls[k].revoked@;
            let s = serial_of(cert);
            let m = choose|m: int| 0 <= m < texts(list).len() && texts(list)[m] == s;
            assert(list[m]@ == s);
            assert(chain[i].serial_hex@ == cert.serial_hex@);
        }
        if at(i) is Some && at(i)->0 is NotCovered {
            if first_of(crls.len(), per) is Some {
                let k = place_of_first(crls.len(), per);
            }
            assert forall|k: int| 0 <= k < crls.len() implies !((cert.issuer_dn matches Some(dn) && dn@ == (#[trigger] crls[k]).issuer_dn_der@) && (crls[k].next_update matches Some(t) ==> now < t * 1_000_000_000) && (
        cfg.crl_max_age matches Some(a) ==> now <= crls[k].this_update * 1_000_000_000 + a.secs
            * 1_000_000_000 + a.nanos)) by {
                if ((cert.issuer_dn matches Some(dn) && dn@ == crls[k].issuer_dn_der@) && (crls[k].next_update matches Some(t) ==> now < t * 1_000_000_000) && (
        cfg.crl_max_age matches Some(a) ==> now <= crls[k].this_update * 1_000_000_000 + a.secs
            * 1_000_000_000 + a.nanos)) {
                    assert(counts(cert, crls[k], cfg, now));
                }
            }
        }
    }
}

/// Errors stand for their faults: a revoked certificate is never reported as anything else, and no
/// other fault as revoked.
pub proof fn errors_tell_faults_apart(e: TrustError, s: Seq<char>)
    ensures
        revocation_fault_of(e) == RevocationFault::Revoked(s) <==> (e matches TrustError::Revoked(t)
            && t@ == s),
        revocation_fault_of(e) == RevocationFault::NotCovered(s) <==> (
        e matches TrustError::CrlNotCovered(t) && t@ == s),
        revocation_fault_of(e) is Stale <==> (e matches TrustError::Crl(t) && t@ == "CRL stale"@),
        revocation_fault_of(e) is Engine <==> e is EngineLoadFailed,
        e is CrlSignatureInvalid <==> revocation_fault_of(e) is NoIssuer || revocation_fault_of(e)
            is Signature,
{
}

/// A CRL that is stale stays so; it is not before its `nextUpdate` unless it is older than the
/// limit, and never without both.
pub proof fn staleness_only_grows(c: Crl, cfg: RevocationConfig, now: int, later: int)
    requires
        now <= later,
    ensures
        stale(c, cfg, now) ==> stale(c, cfg, later),
        c.next_update is None && cfg.crl_max_age is None ==> !stale(c, cfg, now),
        c.next_update matches Some(t) ==> stale(c, cfg, t * 1_000_000_000),
        cfg.crl_max_age is None ==> (c.next_update matches Some(t) ==> !stale(
            c,
            cfg,
            t * 1_000_000_000 - 1,
        )),
        c.next_update is None ==> (cfg.crl_max_age matches Some(a) ==> {
            let end = c.this_update * 1_000_000_000 + a.secs * 1_000_000_000 + a.nanos;
            !stale(c, cfg, end) && stale(c, cfg, end + 1)
        }),
{
}

/// Every serial number of a CRL that has a form is among those that are kept, in the same order,
/// and no other is.
pub proof fn every_serial_is_kept(v: Seq<Option<Seq<char>>>, x: Option<Seq<char>>)
    ensures
        known_serials(v.push(x)) == if x is Some {
            known_serials(v).push(x->0)
        } else {
            known_serials(v)
        },
        known_serials(Seq::<Option<Seq<char>>>::empty()).len() == 0,
{
    assert(v.push(x).drop_last() =~= v);
}

/// What is kept of a CRL is what its DER form says: a serial number that libcrypto found stands in
/// the list.
pub proof fn read_crl_lists_every_serial(der: Seq<u8>, c: Crl, i: int)
    requires
        read_from(der, c),
        0 <= i < crl_serials_of(der)->0.len(),
        crl_serials_of(der)->0[i] is Some,
    ensures
        exists|m: int|
            0 <= m < c.revoked@.len() && (#[trigger] c.revoked@[m])@ == crl_serials_of(der)->0[i]->0,
        crl_this_update_of(der) matches Some(t) && c.this_update == t.0 * 86400 + t.1,
        crl_next_update_of(der) matches Some(None) ==> c.next_update is None,
        crl_next_update_of(der) matches Some(Some(t)) ==> c.next_update is Some && c.next_update->0
            == t.0 * 86400 + t.1,
{
    let v = crl_serials_of(der)->0;
    lemma_known_serial(v, i);
    let all = known_serials(v);
    let m = choose|m: int| 0 <= m < all.len() && all[m] == v[i]->0;
    assert(texts(c.revoked@)[m] == c.revoked@[m]@);
}

proof fn lemma_known_serial(v: Seq<Option<Seq<char>>>, i: int)
    requires
        0 <= i < v.len(),
        v[i] is Some,
    ensures
        known_serials(v).contains(v[i]->0),
    decreases v.len(),
{
    let p = v.drop_last();
    let all = known_serials(v);
    if i < p.len() {
        lemma_known_serial(p, i);
        let rest = known_serials(p);
        let m = choose|m: int| 0 <= m < rest.len() && rest[m] == p[i]->0;
        assert(all[m] == v[i]->0);
    } else {
        assert(all[all.len() - 1] == v[i]->0);
    }
}

/// The issuer of a CRL in a chain is the first certificate whose subject is the issuer that the CRL
/// names, and a chain without such a subject has none.
pub proof fn issuer_is_found_by_its_subject(chain: Seq<Certificate>, der: Seq<u8>, i: int)
    ensures
        is_first_issuer(chain, der, i) <==> 0 <= i < chain.len() && (
        chain[i].subject_dn matches Some(dn) && dn@ == der) && forall|k: int|
            0 <= k < i ==> !((#[trigger] chain[k]).subject_dn matches Some(dn) && dn@ == der),
        in_chain(chain, der) <==> exists|k: int|
            0 <= k < chain.len() && ((#[trigger] chain[k]).subject_dn matches Some(dn) && dn@
                == der),
{
    if in_chain(chain, der) {
        let k = choose|k: int|
            0 <= k < chain.len() && is_name((#[trigger] chain[k]).subject_dn, der);
        assert(chain[k].subject_dn is Some);
    }
    if exists|k: int|
        0 <= k < chain.len() && ((#[trigger] chain[k]).subject_dn matches Some(dn) && dn@ == der) {
        let k = choose|k: int|
            0 <= k < chain.len() && ((#[trigger] chain[k]).subject_dn matches Some(dn) && dn@
                == der);
        assert(is_name(chain[k].subject_dn, der));
    }
    if is_first_issuer(chain, der, i) {
        assert forall|k: int| 0 <= k < i implies !((
        #[trigger] chain[k]).subject_dn matches Some(dn) && dn@ == der) by {
            assert(!is_name(chain[k].subject_dn, der));
        }
    }
}

/// A signature counts only where it was found to hold: that it does not, and that it could not be
/// verified, are both refusals.
pub proof fn only_a_valid_signature_counts(
    verified: Result<bool, String>,
    r: Result<(), TrustError>,
)
    requires
        is_signature_result(verified, r),
    ensures
        r is Ok <==> (verified matches Ok(b) && b),
        verified matches Ok(b) ==> (!b ==> (r matches Err(TrustError::CrlSignatureInvalid(why))
            && why@ == "CRL signature does not validate"@)),
        verified matches Err(e) ==> (r matches Err(TrustError::CrlSignatureInvalid(why)) && why@
            == "CRL signature: "@ + e@),
{
}

/// Which fault an error stands for.
pub proof fn errors_stand_for_their_faults(why: String, source: GostEngineError)
    ensures
        why@ == "CRL stale"@ <==> revocation_fault_of(TrustError::Crl(why)) is Stale,
        why@
            == "CRL issuer certificate not present in verified chain; signature cannot be verified"@
            <==> revocation_fault_of(TrustError::CrlSignatureInvalid(why)) is NoIssuer,
        !(revocation_fault_of(TrustError::CrlSignatureInvalid(why)) is NoIssuer)
            ==> revocation_fault_of(TrustError::CrlSignatureInvalid(why))
            == RevocationFault::Signature(why@),
        revocation_fault_of(TrustError::Revoked(why)) == RevocationFault::Revoked(why@),
        revocation_fault_of(TrustError::CrlNotCovered(why)) == RevocationFault::NotCovered(why@),
        revocation_fault_of(TrustError::EngineLoadFailed { source }) == RevocationFault::Engine(
            source,
        ),
{
}

/// A CRL is read only from a DER form that can be read whole, and holds what that says; a failure
/// to get one is handed on.
pub proof fn crl_is_read_whole(der: Result<Vec<u8>, String>, r: Result<Crl, TrustError>)
    requires
        der_read_as(der, r),
    ensures
        r is Ok ==> der is Ok,
        r matches Ok(c) ==> c.der@ == der->Ok_0@ && readable(der->Ok_0@) && crl_issuer_of(
            der->Ok_0@,
        ) == Some(c.issuer_dn_der@) && texts(c.revoked@) == known_serials(
            crl_serials_of(der->Ok_0@)->0,
        ),
        r matches Err(e) ==> e is Crl,
        der matches Ok(bytes) ==> (readable(bytes@) ==> r is Ok),
        der matches Err(why) ==> r == Err::<Crl, TrustError>(TrustError::Crl(why)),
{
}

/// What is reported of a certificate is what its CRLs say of it, and nothing where none does.
pub proof fn coverage_is_reported(
    coverage: Option<Result<bool, RevocationFault>>,
    r: Result<CrlCoverage, TrustError>,
)
    requires
        reports_coverage(coverage, r),
    ensures
        coverage is None <==> r matches Ok(CrlCoverage::NotCovered),
        (coverage matches Some(Ok(b)) && b) ==> (r matches Ok(CrlCoverage::Covered(x)) && x),
        (coverage matches Some(Ok(b)) && !b) ==> (r matches Ok(CrlCoverage::Covered(x)) && !x),
        coverage matches Some(Err(f)) ==> (r matches Err(e) && revocation_fault_of(e) == f),
{
}

/// A CRL counts as signed only where libcrypto said so of this CRL and this key.
pub proof fn signature_rests_on_the_answer(
    der: Seq<u8>,
    key: Seq<u8>,
    r: Result<(), TrustError>,
) -> (x: Result<bool, String>)
    requires
        verified_as(der, key, r),
    ensures
        crl_verify_gave(der, key, x),
        r is Ok <==> (x matches Ok(b) && b),
{
    choose|x: Result<bool, String>| #[trigger] crl_verify_gave(der, key, x) && is_signature_result(
        x,
        r,
    )
}

} // verus!
