//! GOST digests, by the names that libcrypto gives them.

use crate::foreign::{digest_lookup_gave, look_up_digest};
use crate::gost::engine::{available, is_available, EngineCell};
use crate::gost::errors::GostEngineError;
use crate::text::cat2;
use crate::x509::SignatureAlg;
use openssl::hash::MessageDigest;
use vstd::prelude::*;

verus! {

/// Name of Streebog with 256 bits.
pub const GOST_2012_256_NAME: &'static str = "md_gost12_256";

/// Name of Streebog with 512 bits.
pub const GOST_2012_512_NAME: &'static str = "md_gost12_512";

/// Whether a result is that of resolving a digest: without the engine nothing is resolved; with
/// it, what libcrypto answers for the name, or the error that the name is not registered.
pub open spec fn digest_resolved(
    engine: bool,
    name: Seq<char>,
    r: Result<MessageDigest, GostEngineError>,
) -> bool {
    match r {
        Ok(md) => engine && digest_lookup_gave(name, Some(md)),
        Err(GostEngineError::NotAvailable(why)) => !engine && why@
            == "engine not pinned; cannot resolve digest "@ + name,
        Err(GostEngineError::DigestUnavailable { name: n }) => engine && n@ == name
            && digest_lookup_gave(name, None),
        Err(_) => false,
    }
}

/// What a lookup by name comes to: the digest that was found, or the error that there is none.
pub fn digest_or_error(name: &'static str, found: Option<MessageDigest>) -> (r: Result<
    MessageDigest,
    GostEngineError,
>)
    ensures
        match found {
            Some(md) => r == Ok::<MessageDigest, GostEngineError>(md),
            None => r matches Err(GostEngineError::DigestUnavailable { name: n }) && n@ == name@,
        },
{
    match found {
        Some(md) => Ok(md),
        None => Err(GostEngineError::digest_unavailable(name)),
    }
}

fn digest_by_name(cell: &EngineCell, name: &'static str) -> (r: Result<
    MessageDigest,
    GostEngineError,
>)
    ensures
        digest_resolved(available(cell@), name@, r),
{
    if !is_available(cell) {
        return Err(
            GostEngineError::NotAvailable(
                cat2("engine not pinned; cannot resolve digest ", name),
            ),
        );
    }
    digest_or_error(name, look_up_digest(name))
}

/// Streebog with 256 bits.
pub fn gost_2012_256_md(cell: &EngineCell) -> (r: Result<MessageDigest, GostEngineError>)
    ensures
        digest_resolved(available(cell@), GOST_2012_256_NAME@, r),
{
    digest_by_name(cell, GOST_2012_256_NAME)
}

/// Streebog with 512 bits.
pub fn gost_2012_512_md(cell: &EngineCell) -> (r: Result<MessageDigest, GostEngineError>)
    ensures
        digest_resolved(available(cell@), GOST_2012_512_NAME@, r),
{
    digest_by_name(cell, GOST_2012_512_NAME)
}

/// The digest of a signature algorithm, where the engine provides it. An algorithm outside the
/// GOST family needs none.
pub fn gost_signature_md_for(cell: &EngineCell, sig_alg: &SignatureAlg) -> (r: Result<
    Option<MessageDigest>,
    GostEngineError,
>)
    ensures
        match sig_alg {
            SignatureAlg::IdTc26SignWithDigestGostR341012_256 => required_digest(
                available(cell@),
                GOST_2012_256_NAME@,
                r,
            ),
            SignatureAlg::IdTc26SignWithDigestGostR341012_512 => required_digest(
                available(cell@),
                GOST_2012_512_NAME@,
                r,
            ),
            _ => r == Ok::<Option<MessageDigest>, GostEngineError>(None),
        },
{
    match sig_alg {
        SignatureAlg::IdTc26SignWithDigestGostR341012_256 => match gost_2012_256_md(cell) {
            Ok(md) => Ok(Some(md)),
            Err(e) => Err(e),
        },
        SignatureAlg::IdTc26SignWithDigestGostR341012_512 => match gost_2012_512_md(cell) {
            Ok(md) => Ok(Some(md)),
            Err(e) => Err(e),
        },
        SignatureAlg::RsaWithSha256 => Ok(None),
        SignatureAlg::Other => Ok(None),
    }
}

/// Whether a result is that of resolving a digest that an algorithm needs.
pub open spec fn required_digest(
    engine: bool,
    name: Seq<char>,
    r: Result<Option<MessageDigest>, GostEngineError>,
) -> bool {
    match r {
        Ok(Some(md)) => digest_resolved(engine, name, Ok(md)),
        Ok(None) => false,
        Err(e) => digest_resolved(engine, name, Err(e)),
    }
}

/// A digest is handed out only with the engine there; without it the name is refused.
pub proof fn no_digest_without_the_engine(
    engine: bool,
    name: Seq<char>,
    r: Result<MessageDigest, GostEngineError>,
)
    requires
        digest_resolved(engine, name, r),
    ensures
        !engine ==> r matches Err(GostEngineError::NotAvailable(_)),
        r is Ok ==> engine,
        engine && r is Err ==> (r matches Err(GostEngineError::DigestUnavailable { name: n }) && n@
            == name),
        GOST_2012_256_NAME@ == "md_gost12_256"@,
        GOST_2012_512_NAME@ == "md_gost12_512"@,
{
}

/// A signature that needs a digest never goes without: it is found, or that is an error.
pub proof fn gost_signature_gets_its_digest(
    engine: bool,
    name: Seq<char>,
    r: Result<Option<MessageDigest>, GostEngineError>,
)
    requires
        required_digest(engine, name, r),
    ensures
        r matches Ok(found) ==> found is Some && engine,
        !engine ==> r is Err,
{
}

} // verus!
