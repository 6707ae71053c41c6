//! Which devices a certificate is valid on.
//!
//! The certificate alone decides: its host binding lists descriptors, and the hash of the host
//! identity must match one of them.

use crate::audit::{
    bare_event, event_if, with_text, AuditEvent, AuditLevel, AuditLog, EventModel, ValueModel,
};
use crate::foreign::{hex_encode, hex_text, sha256, sha256_digest};
use crate::text::{
    ascii_lower, cat2, cat3, chars_of, eq_ignore_case, has_prefix, starts_with, str_eq, string_of,
};
use vstd::prelude::*;
use vstd::string::*;
use vstd::utf8::encode_utf8;

verus! {

/// One entry of a host binding.
#[derive(Debug)]
pub enum HostDescriptor {
    /// Any host.
    Wildcard,
    /// The host with this hash, in hexadecimal.
    Sha256Hex(String),
    /// The host with this identity.
    Raw(String),
}

/// What the entries of a host binding are read as: `*` is any host, `sha256:` goes before a hash,
/// and anything else is an identity.
pub open spec fn is_descriptor(text: Seq<char>, d: HostDescriptor) -> bool {
    if text == "*"@ {
        d is Wildcard
    } else if has_prefix(text, "sha256:"@) {
        d matches HostDescriptor::Sha256Hex(h) && h@ == text.skip(7)
    } else {
        d matches HostDescriptor::Raw(s) && s@ == text
    }
}

impl HostDescriptor {
    /// Reads an entry of a host binding.
    pub fn from_str(text: &str) -> (r: HostDescriptor)
        ensures
            is_descriptor(text@, r),
    {
        proof {
            reveal_strlit("sha256:");
        }
        if str_eq(text, "*") {
            HostDescriptor::Wildcard
        } else if starts_with(text, "sha256:") {
            let chars = chars_of(text);
            let hex = string_of(&chars, 7, chars.len());
            assert(hex@ =~= text@.skip(7));
            HostDescriptor::Sha256Hex(hex)
        } else {
            HostDescriptor::Raw(text.to_owned())
        }
    }
}

/// Why a host binding cannot be read.
#[derive(Debug)]
pub enum HostBindingExtError {
    /// The certificate has none.
    Missing,
    /// Its content is invalid.
    Malformed(String),
    /// It has no entries.
    Empty,
}

/// Errors of [`verify_host_binding`].
#[derive(Debug)]
pub enum HostBindingError {
    /// The certificate has no host binding.
    HostExtensionMissing,
    /// The host binding is invalid.
    HostExtensionMalformed(String),
    /// No descriptor matches this host.
    HostNotAllowed {
        /// First eight characters of the hash of the host identity.
        host_id_hash_prefix: String,
    },
}

impl HostBindingError {
    /// The text shown for the error.
    pub open spec fn message_text(&self) -> Seq<char> {
        match self {
            HostBindingError::HostExtensionMissing => "cert lacks host_binding extension"@,
            HostBindingError::HostExtensionMalformed(m) => "host_binding extension malformed: "@
                + m@,
            HostBindingError::HostNotAllowed { host_id_hash_prefix } => "host "@
                + host_id_hash_prefix@ + " not in cert host_binding"@,
        }
    }

    /// The text shown for the error.
    pub fn message(&self) -> (r: String)
        ensures
            r@ == self.message_text(),
    {
        match self {
            HostBindingError::HostExtensionMissing => "cert lacks host_binding extension".to_owned(),
            HostBindingError::HostExtensionMalformed(m) => cat2(
                "host_binding extension malformed: ",
                m.as_str(),
            ),
            HostBindingError::HostNotAllowed { host_id_hash_prefix } => cat3(
                "host ",
                host_id_hash_prefix.as_str(),
                " not in cert host_binding",
            ),
        }
    }

    /// Whether this is the error for a host binding that cannot be read.
    pub open spec fn reports(&self, e: HostBindingExtError) -> bool {
        match e {
            HostBindingExtError::Missing => self is HostExtensionMissing,
            HostBindingExtError::Malformed(m) => *self == HostBindingError::HostExtensionMalformed(
                m,
            ),
            HostBindingExtError::Empty => self matches HostBindingError::HostExtensionMalformed(m)
                && m@ == "extension has no entries"@,
        }
    }

    /// The error for a host binding that cannot be read.
    pub fn from_ext(e: HostBindingExtError) -> (r: HostBindingError)
        ensures
            r.reports(e),
    {
        match e {
            HostBindingExtError::Missing => HostBindingError::HostExtensionMissing,
            HostBindingExtError::Malformed(m) => HostBindingError::HostExtensionMalformed(m),
            HostBindingExtError::Empty => HostBindingError::HostExtensionMalformed(
                "extension has no entries".to_owned(),
            ),
        }
    }
}

/// The SHA-256 digest of a text, in lower-case hexadecimal.
pub open spec fn hash_text(s: Seq<char>) -> Seq<char> {
    hex_text(sha256(encode_utf8(s)))
}

/// Hex-encodes the SHA-256 digest of a text.
pub fn sha256_hex(input: &str) -> (r: String)
    ensures
        r@ == hash_text(input@),
        r@.len() == 64,
{
    let digest = sha256_digest(input.as_bytes());
    hex_encode(&digest)
}

/// Whether a descriptor admits the host with this hash.
pub open spec fn admits(d: HostDescriptor, host_id_hash: Seq<char>) -> bool {
    match d {
        HostDescriptor::Wildcard => true,
        HostDescriptor::Sha256Hex(hex) => ascii_lower(hex@) == ascii_lower(host_id_hash),
        HostDescriptor::Raw(s) => ascii_lower(hash_text(s@)) == ascii_lower(host_id_hash),
    }
}

/// The first characters of a text, eight at most.
pub open spec fn prefix8(s: Seq<char>) -> Seq<char> {
    if s.len() < 8 {
        s
    } else {
        s.take(8)
    }
}

/// The event of a certificate whose host binding does not admit this host.
pub open spec fn violation_event(host_id_hash: Seq<char>) -> EventModel {
    with_text(
        with_text(
            bare_event("tessera.host_binding"@, AuditLevel::Warn, "host_binding_violation"@),
            "host_id_hash_prefix"@,
            prefix8(host_id_hash),
        ),
        "message"@,
        "cert host_binding does not authorise this host"@,
    )
}

/// Verifies that a host binding admits the host with this hash, and records where it does not.
/// `descriptors` is what was read of the certificate's extension.
pub fn verify_host_binding(
    descriptors: Result<Vec<HostDescriptor>, HostBindingExtError>,
    host_id_hash: &str,
    log: &mut AuditLog,
) -> (r: Result<(), HostBindingError>)
    ensures
        match descriptors {
            Err(e) => r matches Err(f) && f.reports(e),
            Ok(v) => if exists|i: int| 0 <= i < v@.len() && admits(#[trigger] v@[i], host_id_hash@) {
                r is Ok
            } else {
                r matches Err(HostBindingError::HostNotAllowed { host_id_hash_prefix })
                    && host_id_hash_prefix@ == prefix8(host_id_hash@)
            },
        },
        final(log)@ == old(log)@ + event_if(
            r matches Err(HostBindingError::HostNotAllowed { .. }),
            violation_event(host_id_hash@),
        ),
{
    let ghost before = log@;
    let r = match descriptors {
        Ok(v) => match_descriptors(&v, host_id_hash),
        Err(e) => Err(HostBindingError::from_ext(e)),
    };
    if let Err(HostBindingError::HostNotAllowed { host_id_hash_prefix }) = &r {
        let e = AuditEvent::new("tessera.host_binding", AuditLevel::Warn, "host_binding_violation");
        let e = e.text("host_id_hash_prefix", host_id_hash_prefix.as_str());
        log.record(e.text("message", "cert host_binding does not authorise this host"));
    }
    assert(log@ =~= before + event_if(
        r matches Err(HostBindingError::HostNotAllowed { .. }),
        violation_event(host_id_hash@),
    ));
    r
}

fn match_descriptors(v: &Vec<HostDescriptor>, host_id_hash: &str) -> (r: Result<
    (),
    HostBindingError,
>)
    ensures
        if exists|i: int| 0 <= i < v@.len() && admits(#[trigger] v@[i], host_id_hash@) {
            r is Ok
        } else {
            r matches Err(HostBindingError::HostNotAllowed { host_id_hash_prefix })
                && host_id_hash_prefix@ == prefix8(host_id_hash@)
        },
{
    let mut i: usize = 0;
    while i < v.len()
        invariant
            i <= v@.len(),
            forall|k: int| 0 <= k < i ==> !admits(#[trigger] v@[k], host_id_hash@),
        decreases v@.len() - i,
    {
        let matched = match &v[i] {
            HostDescriptor::Wildcard => true,
            HostDescriptor::Sha256Hex(hex) => eq_ignore_case(hex.as_str(), host_id_hash),
            HostDescriptor::Raw(s) => eq_ignore_case(
                sha256_hex(s.as_str()).as_str(),
                host_id_hash,
            ),
        };
        if matched {
            assert(admits(v@[i as int], host_id_hash@));
            return Ok(());
        }
        i = i + 1;
    }
    let chars = chars_of(host_id_hash);
    let n: usize = if chars.len() < 8 {
        chars.len()
    } else {
        8
    };
    let host_id_hash_prefix = string_of(&chars, 0, n);
    assert(host_id_hash_prefix@ =~= prefix8(host_id_hash@));
    Err(HostBindingError::HostNotAllowed { host_id_hash_prefix })
}

/// A host is admitted by an entry with its own hash, whatever the case of its digits.
pub proof fn own_hash_admits(d: HostDescriptor, s: Seq<char>)
    requires
        d is Raw && d->Raw_0@ == s || d is Sha256Hex && ascii_lower(d->Sha256Hex_0@) == ascii_lower(
            hash_text(s),
        ) || d is Wildcard,
    ensures
        admits(d, hash_text(s)),
{
}

/// A hash entry admits the host with that hash and no other, whatever the case of the digits.
pub proof fn hash_entry_admits_its_host_only(d: HostDescriptor, h: Seq<char>)
    requires
        d is Sha256Hex,
    ensures
        admits(d, h) ==> d->Sha256Hex_0@.len() == h.len(),
        admits(d, h) <==> ascii_lower(d->Sha256Hex_0@) == ascii_lower(h),
{
    if admits(d, h) {
        assert(ascii_lower(d->Sha256Hex_0@).len() == d->Sha256Hex_0@.len());
        assert(ascii_lower(h).len() == h.len());
    }
}

/// An identity admits the host whose hash is that of the identity, and no other.
pub proof fn identity_admits_its_host_only(d: HostDescriptor, h: Seq<char>)
    requires
        d is Raw,
    ensures
        admits(d, h) <==> ascii_lower(hex_text(sha256(encode_utf8(d->Raw_0@)))) == ascii_lower(h),
{
}

/// Only the wildcard admits every host: any other entry that admits two hosts does not tell their
/// hashes apart.
pub proof fn only_the_wildcard_admits_all(d: HostDescriptor, h: Seq<char>, g: Seq<char>)
    ensures
        d is Wildcard ==> admits(d, h),
        !(d is Wildcard) && admits(d, h) && admits(d, g) ==> ascii_lower(h) == ascii_lower(g),
{
}

/// What an entry of a host binding is read as: the lone star is the wildcard, what follows
/// `sha256:` a hash, and everything else an identity.
pub proof fn entries_are_read_by_their_form(text: Seq<char>, d: HostDescriptor)
    requires
        is_descriptor(text, d),
    ensures
        d is Wildcard <==> text == "*"@,
        d is Sha256Hex <==> text.len() >= 7 && text.take(7) == "sha256:"@,
        d is Sha256Hex ==> text == "sha256:"@ + d->Sha256Hex_0@,
        d is Raw ==> d->Raw_0@ == text,
{
    reveal_strlit("*");
    reveal_strlit("sha256:");
    if text.len() >= 7 {
        assert(text.subrange(0, 7) =~= text.take(7));
        assert(text =~= text.take(7) + text.skip(7));
    }
}

/// The prefix in a refusal is the start of the hash, eight characters where there are as many.
pub proof fn prefix_is_the_start(h: Seq<char>)
    ensures
        prefix8(h).len() == if h.len() < 8 { h.len() } else { 8 },
        prefix8(h) == h.take(prefix8(h).len() as int),
{
    assert(h.take(h.len() as int) =~= h);
}

/// The event of a violation is a warning that carries the prefix and never the whole hash.
pub proof fn violation_shows_the_prefix_only(h: Seq<char>)
    ensures
        violation_event(h).level == AuditLevel::Warn,
        violation_event(h).target == "tessera.host_binding"@,
        violation_event(h).name == "host_binding_violation"@,
        violation_event(h).fields.len() == 2,
        violation_event(h).fields[0] == ("host_id_hash_prefix"@, ValueModel::Text(
            if h.len() < 8 { h } else { h.take(8) },
        )),
        violation_event(h).fields[1].0 == "message"@,
{
}

/// That a certificate has no host binding, and that it has one which cannot be read, are told
/// apart; one without entries counts as the latter.
pub proof fn unreadable_bindings_are_told_apart(f: HostBindingError, e: HostBindingExtError)
    requires
        f.reports(e),
    ensures
        e is Missing <==> f is HostExtensionMissing,
        e matches HostBindingExtError::Malformed(m) ==> f
            == HostBindingError::HostExtensionMalformed(m),
        e is Empty ==> (f matches HostBindingError::HostExtensionMalformed(m) && m@
            == "extension has no entries"@),
        !(f is HostNotAllowed),
{
}

} // verus!
