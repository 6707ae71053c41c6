//! What the library reads of a certificate.

use crate::gost::errors::GostEngineError;
use crate::text::str_eq;
use vstd::prelude::*;

verus! {

/// Identifiers of a certificate, for audit events.
#[derive(Debug)]
pub struct CertIdent {
    /// Serial number.
    pub serial: String,
    /// Issuer name.
    pub issuer: String,
    /// Common name of the subject.
    pub cn: String,
    /// Fingerprint.
    pub fingerprint: String,
}

/// Signature algorithm, as far as the library tells algorithms apart.
#[allow(non_camel_case_types)]
#[derive(Debug, Clone, Copy, PartialEq, Eq, Structural)]
pub enum SignatureAlg {
    /// RSA with SHA-256.
    RsaWithSha256,
    /// GOST R 34.10-2012 with a 256-bit digest.
    IdTc26SignWithDigestGostR341012_256,
    /// GOST R 34.10-2012 with a 512-bit digest.
    IdTc26SignWithDigestGostR341012_512,
    /// Any other.
    Other,
}

/// The algorithm that a configured name selects: an object identifier, or the short or long
/// name that OpenSSL gives it.
pub open spec fn alg_named(s: Seq<char>) -> SignatureAlg {
    if s == "sha256WithRSAEncryption"@ || s == "RSA-SHA256"@ || s == "1.2.840.113549.1.1.11"@ {
        SignatureAlg::RsaWithSha256
    } else if s == "1.2.643.7.1.1.3.2"@ || s == "id-tc26-signwithdigest-gost3410-2012-256"@ || s
        == "GOST R 34.10-2012 with GOST R 34.11-2012 (256 bit)"@ {
        SignatureAlg::IdTc26SignWithDigestGostR341012_256
    } else if s == "1.2.643.7.1.1.3.3"@ || s == "id-tc26-signwithdigest-gost3410-2012-512"@ || s
        == "GOST R 34.10-2012 with GOST R 34.11-2012 (512 bit)"@ {
        SignatureAlg::IdTc26SignWithDigestGostR341012_512
    } else {
        SignatureAlg::Other
    }
}

impl SignatureAlg {
    /// Whether the algorithm is one of the GOST family.
    pub open spec fn gost(self) -> bool {
        self == SignatureAlg::IdTc26SignWithDigestGostR341012_256 || self
            == SignatureAlg::IdTc26SignWithDigestGostR341012_512
    }

    /// Whether the algorithm is one of the GOST family.
    pub fn is_gost(&self) -> (r: bool)
        ensures
            r == self.gost(),
    {
        match self {
            SignatureAlg::IdTc26SignWithDigestGostR341012_256
            | SignatureAlg::IdTc26SignWithDigestGostR341012_512 => true,
            SignatureAlg::RsaWithSha256 | SignatureAlg::Other => false,
        }
    }

    /// The algorithm that a configured name selects.
    pub fn from_oid_string(s: &str) -> (r: SignatureAlg)
        ensures
            r == alg_named(s@),
    {
        if str_eq(s, "sha256WithRSAEncryption") || str_eq(s, "RSA-SHA256") || str_eq(
            s,
            "1.2.840.113549.1.1.11",
        ) {
            SignatureAlg::RsaWithSha256
        } else if str_eq(s, "1.2.643.7.1.1.3.2") || str_eq(
            s,
            "id-tc26-signwithdigest-gost3410-2012-256",
        ) || str_eq(s, "GOST R 34.10-2012 with GOST R 34.11-2012 (256 bit)") {
            SignatureAlg::IdTc26SignWithDigestGostR341012_256
        } else if str_eq(s, "1.2.643.7.1.1.3.3") || str_eq(
            s,
            "id-tc26-signwithdigest-gost3410-2012-512",
        ) || str_eq(s, "GOST R 34.10-2012 with GOST R 34.11-2012 (512 bit)") {
            SignatureAlg::IdTc26SignWithDigestGostR341012_512
        } else {
            SignatureAlg::Other
        }
    }
}

/// Errors of verifying certificates and CRLs.
#[derive(Debug)]
pub enum TrustError {
    /// A CRL is unusable.
    Crl(String),
    /// A CRL's signature does not hold, or cannot be verified.
    CrlSignatureInvalid(String),
    /// The engine that a signature needs could not be loaded.
    EngineLoadFailed {
        /// Why.
        source: GostEngineError,
    },
    /// The certificate with this serial number is revoked.
    Revoked(String),
    /// No usable CRL covers the certificate with this serial number.
    CrlNotCovered(String),
}

/// What the library reads of a certificate.
#[derive(Debug)]
pub struct Certificate {
    /// Serial number, in hexadecimal.
    pub serial_hex: String,
    /// DER form of the subject's name, where it has one.
    pub subject_dn: Option<Vec<u8>>,
    /// DER form of the issuer's name, where it has one.
    pub issuer_dn: Option<Vec<u8>>,
    /// Algorithm of its signature.
    pub signature_alg: SignatureAlg,
    /// DER form of its public key.
    pub public_key: Vec<u8>,
    /// Common name of the subject, where it can be read.
    pub subject_cn: Option<String>,
    /// E-mail addresses among its alternative names.
    pub san_emails: Vec<String>,
}

/// An algorithm goes by its number or its names; GOST are the two with a GOST digest, of 256 and
/// of 512 bits, and no other.
pub proof fn algorithms_go_by_their_names(s: Seq<char>)
    ensures
        s == "sha256WithRSAEncryption"@ || s == "RSA-SHA256"@ || s == "1.2.840.113549.1.1.11"@
            <==> alg_named(s) == SignatureAlg::RsaWithSha256,
        s == "1.2.643.7.1.1.3.2"@ || s == "id-tc26-signwithdigest-gost3410-2012-256"@ || s
            == "GOST R 34.10-2012 with GOST R 34.11-2012 (256 bit)"@ <==> alg_named(s)
            == SignatureAlg::IdTc26SignWithDigestGostR341012_256,
        s == "1.2.643.7.1.1.3.3"@ || s == "id-tc26-signwithdigest-gost3410-2012-512"@ || s
            == "GOST R 34.10-2012 with GOST R 34.11-2012 (512 bit)"@ <==> alg_named(s)
            == SignatureAlg::IdTc26SignWithDigestGostR341012_512,
        alg_named(s).gost() <==> s == "1.2.643.7.1.1.3.2"@ || s
            == "id-tc26-signwithdigest-gost3410-2012-256"@ || s
            == "GOST R 34.10-2012 with GOST R 34.11-2012 (256 bit)"@ || s == "1.2.643.7.1.1.3.3"@
            || s == "id-tc26-signwithdigest-gost3410-2012-512"@ || s
            == "GOST R 34.10-2012 with GOST R 34.11-2012 (512 bit)"@,
{
    reveal_strlit("sha256WithRSAEncryption");
    reveal_strlit("RSA-SHA256");
    reveal_strlit("1.2.840.113549.1.1.11");
    reveal_strlit("1.2.643.7.1.1.3.2");
    reveal_strlit("id-tc26-signwithdigest-gost3410-2012-256");
    reveal_strlit("GOST R 34.10-2012 with GOST R 34.11-2012 (256 bit)");
    reveal_strlit("1.2.643.7.1.1.3.3");
    reveal_strlit("id-tc26-signwithdigest-gost3410-2012-512");
    reveal_strlit("GOST R 34.10-2012 with GOST R 34.11-2012 (512 bit)");
    assert("sha256WithRSAEncryption"@.len() == 23);
    assert("RSA-SHA256"@.len() == 10);
    assert("1.2.840.113549.1.1.11"@.len() == 21);
    assert("1.2.643.7.1.1.3.2"@.len() == 17);
    assert("id-tc26-signwithdigest-gost3410-2012-256"@.len() == 40);
    assert("GOST R 34.10-2012 with GOST R 34.11-2012 (256 bit)"@.len() == 50);
    assert("1.2.643.7.1.1.3.3"@.len() == 17);
    assert("id-tc26-signwithdigest-gost3410-2012-512"@.len() == 40);
    assert("GOST R 34.10-2012 with GOST R 34.11-2012 (512 bit)"@.len() == 50);
    assert("1.2.643.7.1.1.3.2"@[16] == '2');
    assert("1.2.643.7.1.1.3.3"@[16] == '3');
    assert("id-tc26-signwithdigest-gost3410-2012-256"@[37] == '2');
    assert("id-tc26-signwithdigest-gost3410-2012-512"@[37] == '5');
    assert("GOST R 34.10-2012 with GOST R 34.11-2012 (256 bit)"@[42] == '2');
    assert("GOST R 34.10-2012 with GOST R 34.11-2012 (512 bit)"@[42] == '5');
}

} // verus!
