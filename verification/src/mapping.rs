//! Which user a certificate may log in as, by the configured mappings.

use crate::collections::{
    clone_strings, first_of, first_stands_first, lemma_first_of, place_of_first,
};
use crate::config::identity::clone_opt;
use crate::config::validated::{UserMapping, UserMatchCriteria};
use crate::foreign::{debug_form, debug_text};
use crate::text::{cat2, cat3, cat4, cat5, str_eq};
use crate::x509::Certificate;
use vstd::prelude::*;
use vstd::string::*;

verus! {

/// Why a mapping matched.
#[derive(Debug, Clone, Copy, PartialEq, Eq, Structural)]
pub enum MatchReason {
    /// Common name of the subject.
    CnExact,
    /// E-mail address.
    SanEmail,
    /// User principal name.
    SanUpn,
}

/// A mapping that matched.
#[derive(Debug)]
pub struct MatchedMapping {
    /// PAM user of the mapping.
    pub pam_user: String,
    /// Which criterion matched.
    pub matched_by: MatchReason,
}

/// Errors of [`match_user`].
#[derive(Debug)]
pub enum MappingError {
    /// No mapping is for the user.
    NoMappingForUser(String),
    /// No mapping for the user has a criterion that can be checked.
    EmptyMapping(String),
    /// There are mappings for the user, and none matches the certificate.
    SubjectMismatch {
        /// PAM user being matched.
        pam_user: String,
        /// First common name that was wanted, if any.
        expected_cn: Option<String>,
        /// Common name of the certificate, if any.
        found_cn: Option<String>,
        /// First e-mail address that was wanted, if any.
        expected_email: Option<String>,
        /// E-mail addresses of the certificate.
        found_emails: Vec<String>,
    },
    /// A field of the certificate could not be read.
    Cert(String),
}

/// The form that `{:?}` prints of a text that may be absent.
pub open spec fn opt_form(v: Option<String>) -> Seq<char> {
    match v {
        Some(s) => "Some("@ + debug_form(s@) + ")"@,
        None => "None"@,
    }
}

fn opt_debug(v: &Option<String>) -> (r: String)
    ensures
        r@ == opt_form(*v),
{
    match v {
        Some(s) => {
            let inner = debug_text(s.as_str());
            cat3("Some(", inner.as_str(), ")")
        },
        None => "None".to_owned(),
    }
}

/// The first `n` texts as `{:?}` prints them in a list.
pub open spec fn list_items(v: Seq<String>, n: nat) -> Seq<char>
    decreases n,
{
    if n == 0 {
        Seq::empty()
    } else if n == 1 {
        debug_form(v[0]@)
    } else {
        list_items(v, (n - 1) as nat) + ", "@ + debug_form(v[n - 1]@)
    }
}

fn list_debug(v: &Vec<String>) -> (r: String)
    ensures
        r@ == "["@ + list_items(v@, v@.len()) + "]"@,
{
    let mut out = String::new();
    let total: usize = v.len();
    let mut i: usize = 0;
    while i < total
        invariant
            i <= total,
            total == v@.len(),
            out@ == list_items(v@, i as nat),
        decreases total - i,
    {
        let item = debug_text(v[i].as_str());
        out = if i == 0 {
            item
        } else {
            cat3(out.as_str(), ", ", item.as_str())
        };
        i = i + 1;
    }
    cat3("[", out.as_str(), "]")
}

impl MappingError {
    /// The error in words.
    pub open spec fn message_text(self) -> Seq<char> {
        match self {
            MappingError::NoMappingForUser(user) => "no [[user_mapping]] entry exists for pam_user="@
                + debug_form(user@),
            MappingError::EmptyMapping(user) => "mapping for pam_user="@ + debug_form(user@)
                + " has no match criteria"@,
            MappingError::SubjectMismatch {
                pam_user,
                expected_cn,
                found_cn,
                expected_email,
                found_emails,
            } => "subject mismatch for pam_user="@ + debug_form(pam_user@) + ": expected_cn="@
                + opt_form(expected_cn) + " found_cn="@ + opt_form(found_cn) + " expected_email="@
                + opt_form(expected_email) + " found_emails="@ + ("["@ + list_items(
                found_emails@,
                found_emails@.len(),
            ) + "]"@),
            MappingError::Cert(e) => "certificate field error: "@ + e@,
        }
    }

    /// The error in words.
    pub fn message(&self) -> (r: String)
        ensures
            r@ == self.message_text(),
    {
        match self {
            MappingError::NoMappingForUser(user) => {
                let u = debug_text(user.as_str());
                cat2("no [[user_mapping]] entry exists for pam_user=", u.as_str())
            },
            MappingError::EmptyMapping(user) => {
                let u = debug_text(user.as_str());
                cat3("mapping for pam_user=", u.as_str(), " has no match criteria")
            },
            MappingError::SubjectMismatch {
                pam_user,
                expected_cn,
                found_cn,
                expected_email,
                found_emails,
            } => {
                let u = debug_text(pam_user.as_str());
                let want_cn = opt_debug(expected_cn);
                let cn = opt_debug(found_cn);
                let want_email = opt_debug(expected_email);
                let emails = list_debug(found_emails);
                let head = cat4(
                    "subject mismatch for pam_user=",
                    u.as_str(),
                    ": expected_cn=",
                    want_cn.as_str(),
                );
                let more = cat5(
                    head.as_str(),
                    " found_cn=",
                    cn.as_str(),
                    " expected_email=",
                    want_email.as_str(),
                );
                cat3(more.as_str(), " found_emails=", emails.as_str())
            },
            MappingError::Cert(e) => cat2("certificate field error: ", e.as_str()),
        }
    }
}

/// Whether a certificate has an e-mail address.
pub open spec fn has_email(cert: Certificate, want: Seq<char>) -> bool {
    exists|i: int| 0 <= i < cert.san_emails@.len() && (#[trigger] cert.san_emails@[i])@ == want
}

/// How a mapping for the user matches the certificate, if it does. The user principal name is not
/// read of certificates, so that criterion matches none.
pub open spec fn mapping_match(cert: Certificate, user: Seq<char>, m: UserMapping) -> Option<
    MatchReason,
> {
    if m.pam_user@ != user {
        None
    } else {
        match m.criteria {
            UserMatchCriteria::SubjectCn(want) => if cert.subject_cn is Some
                && cert.subject_cn->0@ == want@ {
                Some(MatchReason::CnExact)
            } else {
                None
            },
            UserMatchCriteria::SanEmail(want) => if has_email(cert, want@) {
                Some(MatchReason::SanEmail)
            } else {
                None
            },
            UserMatchCriteria::SanUpn(_) => None,
        }
    }
}

/// The common name that a mapping for the user wants.
pub open spec fn wanted_cn(user: Seq<char>, m: UserMapping) -> Option<String> {
    if m.pam_user@ == user {
        match m.criteria {
            UserMatchCriteria::SubjectCn(want) => Some(want),
            _ => None,
        }
    } else {
        None
    }
}

/// The e-mail address that a mapping for the user wants.
pub open spec fn wanted_email(user: Seq<char>, m: UserMapping) -> Option<String> {
    if m.pam_user@ == user {
        match m.criteria {
            UserMatchCriteria::SanEmail(want) => Some(want),
            _ => None,
        }
    } else {
        None
    }
}

/// How the first mapping that matches does.
pub open spec fn first_match(cert: Certificate, user: Seq<char>, v: Seq<UserMapping>) -> Option<
    MatchReason,
> {
    first_of(v.len(), |i: int| mapping_match(cert, user, v[i]))
}

/// Whether some mapping is for the user.
pub open spec fn has_mapping(user: Seq<char>, v: Seq<UserMapping>) -> bool {
    exists|i: int| 0 <= i < v.len() && (#[trigger] v[i]).pam_user@ == user
}

/// The first common name that the user's mappings want.
pub open spec fn first_cn(user: Seq<char>, v: Seq<UserMapping>) -> Option<String> {
    first_of(v.len(), |i: int| wanted_cn(user, v[i]))
}

/// The first e-mail address that the user's mappings want.
pub open spec fn first_email(user: Seq<char>, v: Seq<UserMapping>) -> Option<String> {
    first_of(v.len(), |i: int| wanted_email(user, v[i]))
}

fn holds_email(cert: &Certificate, want: &str) -> (r: bool)
    ensures
        r == has_email(*cert, want@),
{
    let mut i: usize = 0;
    while i < cert.san_emails.len()
        invariant
            i <= cert.san_emails@.len(),
            forall|k: int| 0 <= k < i ==> (#[trigger] cert.san_emails@[k])@ != want@,
        decreases cert.san_emails@.len() - i,
    {
        if str_eq(cert.san_emails[i].as_str(), want) {
            return true;
        }
        i = i + 1;
    }
    false
}

/// Matches a certificate against the mappings for a user. The first mapping that matches wins.
pub fn match_user(end_entity: &Certificate, pam_user: &str, mappings: &Vec<UserMapping>) -> (r:
    Result<MatchedMapping, MappingError>)
    ensures
        match r {
            Ok(m) => m.pam_user@ == pam_user@ && first_match(*end_entity, pam_user@, mappings@)
                == Some(m.matched_by),
            Err(MappingError::NoMappingForUser(u)) => u@ == pam_user@ && !has_mapping(
                pam_user@,
                mappings@,
            ),
            Err(MappingError::EmptyMapping(u)) => u@ == pam_user@ && has_mapping(
                pam_user@,
                mappings@,
            ) && first_cn(pam_user@, mappings@) is None && first_email(pam_user@, mappings@)
                is None,
            Err(
                MappingError::SubjectMismatch {
                    pam_user: u,
                    expected_cn,
                    found_cn,
                    expected_email,
                    found_emails,
                },
            ) => {
                &&& u@ == pam_user@
                &&& first_match(*end_entity, pam_user@, mappings@) is None
                &&& expected_cn == first_cn(pam_user@, mappings@)
                &&& expected_email == first_email(pam_user@, mappings@)
                &&& expected_cn is Some || expected_email is Some
                &&& found_cn == end_entity.subject_cn
                &&& found_emails@ == end_entity.san_emails@
            },
            Err(MappingError::Cert(_)) => false,
        },
{
    let ghost hit = |i: int| mapping_match(*end_entity, pam_user@, mappings@[i]);
    let ghost cn_at = |i: int| wanted_cn(pam_user@, mappings@[i]);
    let ghost email_at = |i: int| wanted_email(pam_user@, mappings@[i]);
    let mut found = false;
    let mut expected_cn: Option<String> = None;
    let mut expected_email: Option<String> = None;
    let mut i: usize = 0;
    while i < mappings.len()
        invariant
            i <= mappings@.len(),
            hit == (|i: int| mapping_match(*end_entity, pam_user@, mappings@[i])),
            cn_at == (|i: int| wanted_cn(pam_user@, mappings@[i])),
            email_at == (|i: int| wanted_email(pam_user@, mappings@[i])),
            first_of(i as nat, hit) is None,
            expected_cn == first_of(i as nat, cn_at),
            expected_email == first_of(i as nat, email_at),
            found == (exists|k: int| 0 <= k < i && (#[trigger] mappings@[k]).pam_user@ == pam_user@),
        decreases mappings@.len() - i,
    {
        proof {
            if first_of((i + 1) as nat, hit) is Some {
                lemma_first_of(mappings@.len(), (i + 1) as nat, hit);
            }
        }
        let m = &mappings[i];
        if str_eq(m.pam_user.as_str(), pam_user) {
            assert(mappings@[i as int].pam_user@ == pam_user@);
            found = true;
            match &m.criteria {
                UserMatchCriteria::SubjectCn(want) => {
                    if let Some(cn) = &end_entity.subject_cn {
                        if str_eq(cn.as_str(), want.as_str()) {
                            return Ok(
                                MatchedMapping {
                                    pam_user: m.pam_user.clone(),
                                    matched_by: MatchReason::CnExact,
                                },
                            );
                        }
                    }
                    if expected_cn.is_none() {
                        expected_cn = Some(want.clone());
                    }
                },
                UserMatchCriteria::SanEmail(want) => {
                    if holds_email(end_entity, want.as_str()) {
                        return Ok(
                            MatchedMapping {
                                pam_user: m.pam_user.clone(),
                                matched_by: MatchReason::SanEmail,
                            },
                        );
                    }
                    if expected_email.is_none() {
                        expected_email = Some(want.clone());
                    }
                },
                UserMatchCriteria::SanUpn(_) => {},
            }
        }
        i = i + 1;
    }
    if !found {
        return Err(MappingError::NoMappingForUser(pam_user.to_owned()));
    }
    if expected_cn.is_none() && expected_email.is_none() {
        return Err(MappingError::EmptyMapping(pam_user.to_owned()));
    }
    Err(
        MappingError::SubjectMismatch {
            pam_user: pam_user.to_owned(),
            expected_cn,
            found_cn: clone_opt(&end_entity.subject_cn),
            expected_email,
            found_emails: clone_strings(&end_entity.san_emails),
        },
    )
}

/// A certificate is never matched to a user without a mapping, nor by a mapping of another user.
pub proof fn match_needs_a_mapping_of_the_user(
    cert: Certificate,
    user: Seq<char>,
    v: Seq<UserMapping>,
)
    requires
        first_match(cert, user, v) is Some,
    ensures
        exists|i: int|
            0 <= i < v.len() && (#[trigger] v[i]).pam_user@ == user && mapping_match(
                cert,
                user,
                v[i],
            ) == first_match(cert, user, v),
    decreases v.len(),
{
    let at = |i: int| mapping_match(cert, user, v[i]);
    lemma_first_place(v.len(), at);
    let i = choose|i: int|
        0 <= i < v.len() && #[trigger] at(i) == first_of(v.len(), at) && at(i) is Some;
    assert(v[i].pam_user@ == user);
}

proof fn lemma_first_place<T>(n: nat, at: spec_fn(int) -> Option<T>)
    requires
        first_of(n, at) is Some,
    ensures
        exists|i: int| 0 <= i < n && #[trigger] at(i) == first_of(n, at) && at(i) is Some,
    decreases n,
{
    if first_of((n - 1) as nat, at) is Some {
        lemma_first_place((n - 1) as nat, at);
    } else {
        assert(at(n - 1) == first_of(n, at));
    }
}

/// A certificate is matched by the first mapping of the user that fits it: one on its common name,
/// or one on an address among its own. Mappings of other users, and on principal names, never
/// fit.
pub proof fn first_fitting_mapping_wins(
    cert: Certificate,
    user: Seq<char>,
    v: Seq<UserMapping>,
    i: int,
)
    requires
        0 <= i < v.len(),
        v[i].pam_user@ == user,
        forall|j: int|
            0 <= j < i ==> (#[trigger] v[j]).pam_user@ != user || match v[j].criteria {
                UserMatchCriteria::SubjectCn(w) => !(cert.subject_cn matches Some(cn) && cn@ == w@),
                UserMatchCriteria::SanEmail(w) => forall|k: int|
                    0 <= k < cert.san_emails@.len() ==> (#[trigger] cert.san_emails@[k])@ != w@,
                UserMatchCriteria::SanUpn(_) => true,
            },
    ensures
        v[i].criteria matches UserMatchCriteria::SubjectCn(w) ==> (cert.subject_cn matches Some(cn)
            && cn@ == w@ ==> first_match(cert, user, v) == Some(MatchReason::CnExact)),
        v[i].criteria matches UserMatchCriteria::SanEmail(w) ==> ((exists|k: int|
            0 <= k < cert.san_emails@.len() && (#[trigger] cert.san_emails@[k])@ == w@)
            ==> first_match(cert, user, v) == Some(MatchReason::SanEmail)),
{
    let at = |j: int| mapping_match(cert, user, v[j]);
    assert forall|j: int| 0 <= j < i implies (#[trigger] at(j)) is None by {
        let m = v[j];
        assert(m.pam_user@ != user || match m.criteria {
            UserMatchCriteria::SubjectCn(w) => !(cert.subject_cn matches Some(cn) && cn@ == w@),
            UserMatchCriteria::SanEmail(w) => forall|k: int|
                0 <= k < cert.san_emails@.len() ==> (#[trigger] cert.san_emails@[k])@ != w@,
            UserMatchCriteria::SanUpn(_) => true,
        });
    }
    if at(i) is Some {
        first_stands_first(v.len(), i, at);
    }
}

/// A match is by a mapping of the user that the certificate bears out.
pub proof fn matches_are_borne_out(cert: Certificate, user: Seq<char>, v: Seq<UserMapping>)
    ensures
        first_match(cert, user, v) == Some(MatchReason::CnExact) ==> exists|i: int|
            0 <= i < v.len() && (#[trigger] v[i]).pam_user@ == user && (
            v[i].criteria matches UserMatchCriteria::SubjectCn(w) && (
            cert.subject_cn matches Some(cn) && cn@ == w@)),
        first_match(cert, user, v) == Some(MatchReason::SanEmail) ==> exists|i: int, k: int|
            0 <= i < v.len() && (#[trigger] v[i]).pam_user@ == user && (
            v[i].criteria matches UserMatchCriteria::SanEmail(w) && 0 <= k < cert.san_emails@.len()
                && (#[trigger] cert.san_emails@[k])@ == w@),
        first_match(cert, user, v) != Some(MatchReason::SanUpn),
{
    let at = |j: int| mapping_match(cert, user, v[j]);
    if first_match(cert, user, v) is Some {
        let i = place_of_first(v.len(), at);
        assert(v[i].pam_user@ == user);
        if let UserMatchCriteria::SanEmail(w) = v[i].criteria {
            let k = choose|k: int|
                0 <= k < cert.san_emails@.len() && (#[trigger] cert.san_emails@[k])@ == w@;
            assert(cert.san_emails@[k]@ == w@);
        }
    }
}

/// What a mismatch reports as wanted is what the first mapping of the user on that field wants.
pub proof fn mismatch_reports_the_first_wish(user: Seq<char>, v: Seq<UserMapping>, i: int)
    requires
        0 <= i < v.len(),
        v[i].pam_user@ == user,
    ensures
        (v[i].criteria is SubjectCn && forall|j: int|
            0 <= j < i ==> (#[trigger] v[j]).pam_user@ != user || !(v[j].criteria is SubjectCn))
            ==> first_cn(user, v) == Some(v[i].criteria->SubjectCn_0),
        (v[i].criteria is SanEmail && forall|j: int|
            0 <= j < i ==> (#[trigger] v[j]).pam_user@ != user || !(v[j].criteria is SanEmail))
            ==> first_email(user, v) == Some(v[i].criteria->SanEmail_0),
        has_mapping(user, v),
{
    let cn = |j: int| wanted_cn(user, v[j]);
    let email = |j: int| wanted_email(user, v[j]);
    if v[i].criteria is SubjectCn && forall|j: int|
        0 <= j < i ==> (#[trigger] v[j]).pam_user@ != user || !(v[j].criteria is SubjectCn) {
        assert forall|j: int| 0 <= j < i implies (#[trigger] cn(j)) is None by {
            assert(v[j].pam_user@ != user || !(v[j].criteria is SubjectCn));
        }
        first_stands_first(v.len(), i, cn);
    }
    if v[i].criteria is SanEmail && forall|j: int|
        0 <= j < i ==> (#[trigger] v[j]).pam_user@ != user || !(v[j].criteria is SanEmail) {
        assert forall|j: int| 0 <= j < i implies (#[trigger] email(j)) is None by {
            assert(v[j].pam_user@ != user || !(v[j].criteria is SanEmail));
        }
        first_stands_first(v.len(), i, email);
    }
}

} // verus!
