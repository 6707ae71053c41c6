//! Calls into other crates and into parts of std that have no specification.
//!
//! What stands here is believed, not proved. Each item says what it claims of
//! the function behind it.

use sha2::Digest;
use vstd::prelude::*;
use vstd::utf8::{decode_utf8, encode_utf8, valid_utf8};

use crate::text::ascii_lower;

verus! {

/// The SHA-256 digest of a byte string.
pub uninterp spec fn sha256(data: Seq<u8>) -> Seq<u8>;

/// `sha2::Sha256::digest`: the digest is a function of the bytes alone and is 32 bytes long.
#[verifier::external_body]
pub(crate) fn sha256_digest(data: &[u8]) -> (r: Vec<u8>)
    ensures
        r@ == sha256(data@),
        r@.len() == 32,
{
    sha2::Sha256::digest(data).to_vec()
}

/// The lower-case hexadecimal digit of a number below sixteen.
pub open spec fn nibble_char(n: int) -> char {
    "0123456789abcdef"@[n]
}

/// Two lower-case hexadecimal digits for each byte, the high half first.
pub open spec fn hex_text(data: Seq<u8>) -> Seq<char> {
    Seq::new(
        data.len() * 2,
        |i: int|
            if i % 2 == 0 {
                nibble_char(data[i / 2] as int / 16)
            } else {
                nibble_char(data[i / 2] as int % 16)
            },
    )
}

/// `hex::encode`: each byte becomes two lower-case hexadecimal digits.
#[verifier::external_body]
pub(crate) fn hex_encode(data: &Vec<u8>) -> (r: String)
    ensures
        r@ == hex_text(data@),
{
    hex::encode(data)
}

/// Whether a text is a login name: a lower-case letter or `_`, then at most 31 lower-case
/// letters, digits, `_` or `-`.
pub open spec fn is_login_name(s: Seq<char>) -> bool {
    &&& 1 <= s.len() <= 32
    &&& 'a' <= s[0] <= 'z' || s[0] == '_'
    &&& forall|i: int|
        1 <= i < s.len() ==> ('a' <= #[trigger] s[i] <= 'z' || '0' <= s[i] <= '9' || s[i] == '_'
            || s[i] == '-')
}

/// `regex::Regex::new` and `Regex::is_match`, of the expression for login names: it is well-formed,
/// and the texts that match it are the login names.
#[verifier::external_body]
pub(crate) fn regex_is_match(pattern: &str, text: &str) -> (r: Option<bool>)
    requires
        pattern@ == "^[a-z_][a-z0-9_-]{0,31}$"@,
    ensures
        r == Some(is_login_name(text@)),
{
    match regex::Regex::new(pattern) {
        Ok(re) => Some(re.is_match(text)),
        Err(_) => None,
    }
}

/// The quoted and escaped form that `{:?}` prints of a string.
pub uninterp spec fn debug_form(s: Seq<char>) -> Seq<char>;

/// The `Debug` form of a string, as `format!("{:?}", ..)` writes it.
#[verifier::external_body]
pub(crate) fn debug_text(s: &str) -> (r: String)
    ensures
        r@ == debug_form(s@),
{
    format!("{:?}", s)
}

/// The lower case of a character by the Unicode mapping: one character or more.
pub uninterp spec fn unicode_lower(c: char) -> Seq<char>;

/// `char::to_lowercase`: a function of the character.
#[verifier::external_body]
pub(crate) fn to_lowercase(c: char) -> (r: String)
    ensures
        r@ == unicode_lower(c),
{
    c.to_lowercase().to_string()
}

/// The text of bytes, with a replacement character for what is no UTF-8.
pub uninterp spec fn utf8_lossy(bytes: Seq<u8>) -> Seq<char>;

/// `String::from_utf8_lossy`: a function of the bytes; of valid UTF-8 it gives the text.
#[verifier::external_body]
pub(crate) fn from_utf8_lossy(bytes: &Vec<u8>) -> (r: String)
    ensures
        r@ == utf8_lossy(bytes@),
        valid_utf8(bytes@) ==> r@ == decode_utf8(bytes@),
{
    String::from_utf8_lossy(bytes).into_owned()
}

/// `openssl::hash::MessageDigest`: a digest algorithm of libcrypto. Nothing is said of its inside.
#[verifier::external_type_specification]
#[verifier::external_body]
pub struct ExMessageDigest(openssl::hash::MessageDigest);

/// `openssl::hash::MessageDigest::from_name`: looks a digest up in libcrypto's table. Which names
/// it holds depends on the engines that the process has loaded, so nothing is claimed of the
/// result.
#[verifier::external_body]
fn digest_from_name(name: &str) -> (r: Option<openssl::hash::MessageDigest>) {
    openssl::hash::MessageDigest::from_name(name)
}

/// Whether libcrypto answered so when it was asked for the digest of this name.
pub closed spec fn digest_lookup_gave(
    name: Seq<char>,
    found: Option<openssl::hash::MessageDigest>,
) -> bool {
    exists|n: &str| n@ == name && #[trigger] call_ensures(digest_from_name, (n,), found)
}

/// Asks libcrypto for a digest.
pub(crate) fn look_up_digest(name: &str) -> (r: Option<openssl::hash::MessageDigest>)
    ensures
        digest_lookup_gave(name@, r),
{
    digest_from_name(name)
}

/// The DER form of a CRL in PEM, where it is one.
pub uninterp spec fn crl_der_of(pem: Seq<u8>) -> Option<Seq<u8>>;

/// Whether a PEM text does not say of any part that it is encrypted.
pub open spec fn in_the_clear(pem: Seq<u8>) -> bool {
    forall|i: int, j: int|
        0 <= i <= j <= pem.len() ==> #[trigger] pem.subrange(i, j) != encode_utf8("ENCRYPTED"@)
}

/// `openssl::x509::X509Crl::from_pem` and `to_der`: the DER form of a text in the clear is a
/// function of the text. For an encrypted one libcrypto asks the terminal for a pass phrase, so of
/// such a text nothing is claimed; nor is anything of the text of an error. A text longer than a C
/// `int` can say makes the call panic.
#[verifier::external_body]
fn crl_pem_to_der(pem: &[u8]) -> (r: Result<Vec<u8>, String>)
    requires
        pem@.len() <= i32::MAX,
    ensures
        in_the_clear(pem@) ==> match r {
            Ok(der) => crl_der_of(pem@) == Some(der@),
            Err(_) => crl_der_of(pem@) is None,
        },
{
    let crl = openssl::x509::X509Crl::from_pem(pem).map_err(|e| e.to_string())?;
    crl.to_der().map_err(|e| e.to_string())
}

/// Whether libcrypto answered so when it was given this PEM text.
pub closed spec fn crl_pem_gave(pem: Seq<u8>, x: Result<Vec<u8>, String>) -> bool {
    exists|p: &[u8]| p@ == pem && #[trigger] call_ensures(crl_pem_to_der, (p,), x)
}

/// Has libcrypto read a CRL in PEM.
pub(crate) fn read_crl_pem(pem: &[u8]) -> (r: Result<Vec<u8>, String>)
    requires
        pem@.len() <= i32::MAX,
    ensures
        crl_pem_gave(pem@, r),
        in_the_clear(pem@) ==> match r {
            Ok(der) => crl_der_of(pem@) == Some(der@),
            Err(_) => crl_der_of(pem@) is None,
        },
{
    crl_pem_to_der(pem)
}

/// `thisUpdate` of a CRL in DER: days and seconds since the epoch.
pub uninterp spec fn crl_this_update_of(der: Seq<u8>) -> Option<(i32, i32)>;

/// `openssl::x509::X509CrlRef::last_update`, as a difference from the epoch: a function of the CRL.
/// Of the text of an error nothing is claimed.
#[verifier::external_body]
pub(crate) fn crl_this_update(der: &[u8]) -> (r: Result<(i32, i32), String>)
    ensures
        match r {
            Ok(t) => crl_this_update_of(der@) == Some(t),
            Err(_) => crl_this_update_of(der@) is None,
        },
{
    let crl = openssl::x509::X509Crl::from_der(der).map_err(|e| e.to_string())?;
    let epoch = openssl::asn1::Asn1Time::from_unix(0).map_err(|e| e.to_string())?;
    let diff = epoch.diff(crl.last_update()).map_err(|e| e.to_string())?;
    Ok((diff.days, diff.secs))
}

/// `nextUpdate` of a CRL in DER: days and seconds since the epoch, where it has one.
pub uninterp spec fn crl_next_update_of(der: Seq<u8>) -> Option<Option<(i32, i32)>>;

/// `openssl::x509::X509CrlRef::next_update`, as a difference from the epoch: a function of the CRL.
/// Of the text of an error nothing is claimed.
#[verifier::external_body]
pub(crate) fn crl_next_update(der: &[u8]) -> (r: Result<Option<(i32, i32)>, String>)
    ensures
        match r {
            Ok(t) => crl_next_update_of(der@) == Some(t),
            Err(_) => crl_next_update_of(der@) is None,
        },
{
    let crl = openssl::x509::X509Crl::from_der(der).map_err(|e| e.to_string())?;
    let epoch = openssl::asn1::Asn1Time::from_unix(0).map_err(|e| e.to_string())?;
    match crl.next_update() {
        Some(t) => match epoch.diff(t) {
            Ok(diff) => Ok(Some((diff.days, diff.secs))),
            Err(e) => Err(e.to_string()),
        },
        None => Ok(None),
    }
}

/// The revoked serial numbers of a CRL in DER, in lower-case hexadecimal; `None` for one that has
/// no such form.
pub uninterp spec fn crl_serials_of(der: Seq<u8>) -> Option<Seq<Option<Seq<char>>>>;

/// A serial number in lower case.
pub open spec fn lower_opt(s: Option<String>) -> Option<Seq<char>> {
    match s {
        Some(t) => Some(ascii_lower(t@)),
        None => None,
    }
}

/// `openssl::x509::X509CrlRef::get_revoked` and the hexadecimal form of each serial number: up to
/// the case of the digits a function of the CRL. Of the text of an error nothing is claimed.
#[verifier::external_body]
pub(crate) fn crl_serials(der: &[u8]) -> (r: Result<Vec<Option<String>>, String>)
    ensures
        match r {
            Ok(v) => crl_serials_of(der@) == Some(
                v@.map_values(|s: Option<String>| lower_opt(s)),
            ),
            Err(_) => crl_serials_of(der@) is None,
        },
{
    let crl = openssl::x509::X509Crl::from_der(der).map_err(|e| e.to_string())?;
    let hex = |r: &openssl::x509::X509RevokedRef| match r.serial_number().to_bn() {
        Ok(n) => n.to_hex_str().ok().map(|s| s.to_string()),
        Err(_) => None,
    };
    Ok(match crl.get_revoked() {
        Some(stack) => stack.iter().map(hex).collect(),
        None => Vec::new(),
    })
}

/// The DER form of the issuer's name of a CRL in DER.
pub uninterp spec fn crl_issuer_of(der: Seq<u8>) -> Option<Seq<u8>>;

/// `openssl::x509::X509CrlRef::issuer_name` and `to_der`: a function of the CRL. Of the text of an
/// error nothing is claimed.
#[verifier::external_body]
pub(crate) fn crl_issuer(der: &[u8]) -> (r: Result<Vec<u8>, String>)
    ensures
        match r {
            Ok(name) => crl_issuer_of(der@) == Some(name@),
            Err(_) => crl_issuer_of(der@) is None,
        },
{
    let crl = openssl::x509::X509Crl::from_der(der).map_err(|e| e.to_string())?;
    crl.issuer_name().to_der().map_err(|e| e.to_string())
}

/// `openssl::x509::X509CrlRef::verify` under a public key in DER. Which algorithms it can verify
/// depends on the engines that the process has loaded, so nothing is claimed of the result.
#[verifier::external_body]
fn crl_verify(der: &[u8], key: &[u8]) -> (r: Result<bool, String>) {
    let crl = openssl::x509::X509Crl::from_der(der).map_err(|e| e.to_string())?;
    let key = openssl::pkey::PKey::public_key_from_der(key).map_err(|e| e.to_string())?;
    crl.verify(&key).map_err(|e| e.to_string())
}

/// Whether libcrypto answered so when it verified this CRL under this key.
pub closed spec fn crl_verify_gave(der: Seq<u8>, key: Seq<u8>, x: Result<bool, String>) -> bool {
    exists|d: &[u8], k: &[u8]|
        d@ == der && k@ == key && #[trigger] call_ensures(crl_verify, (d, k), x)
}

/// Has libcrypto verify a CRL under a key.
pub(crate) fn verify_crl(der: &[u8], key: &[u8]) -> (r: Result<bool, String>)
    ensures
        crl_verify_gave(der@, key@, r),
{
    crl_verify(der, key)
}

/// The UUID that a text denotes, as a number, where it denotes one.
pub uninterp spec fn uuid_of(text: Seq<char>) -> Option<u128>;

/// `uuid::Uuid::parse_str`: a function of the text.
#[verifier::external_body]
pub(crate) fn uuid_parse(text: &str) -> (r: Option<u128>)
    ensures
        r == uuid_of(text@),
{
    match uuid::Uuid::parse_str(text) {
        Ok(u) => Some(u.as_u128()),
        Err(_) => None,
    }
}

/// The name-based UUID of version 5, as a number.
pub uninterp spec fn uuid_v5_of(namespace: u128, name: Seq<u8>) -> u128;

/// `uuid::Uuid::new_v5`: a function of the namespace and the name.
#[verifier::external_body]
pub(crate) fn uuid_new_v5(namespace: u128, name: &[u8]) -> (r: u128)
    ensures
        r == uuid_v5_of(namespace, name@),
{
    uuid::Uuid::new_v5(&uuid::Uuid::from_u128(namespace), name).as_u128()
}

} // verus!
