//! Why a configuration is refused, as contracts speak of it.

use crate::error::{Error, TrustError};
use crate::hooks::validator::{hook_fault_of, HookFault};
use vstd::prelude::*;

verus! {

/// Why a configuration is refused.
pub ghost enum ConfigFault {
    /// A rule without an error of its own, with the reason given to the user.
    Invalid(Seq<char>),
    /// No trust anchors.
    AnchorsEmpty,
    /// A chain depth of zero.
    MaxChainDepthZero,
    /// Too much clock skew.
    ClockSkewTooLarge,
    /// A trust file that cannot be read.
    AnchorMissing(Seq<char>),
    /// A trust file without a certificate.
    AnchorNotPem(Seq<char>),
    /// CRL mode without CRLs.
    CrlPathsEmpty,
    /// A CRL that is no file.
    CrlPathMissing(Seq<char>),
    /// An unusable OCSP responder.
    OcspResponderInvalid(Seq<char>),
    /// A pin that is no SHA-256 digest.
    PinningHashInvalid(Seq<char>),
    /// A trust override without anchors.
    OverrideAnchorsEmpty,
    /// A host id in two trust overrides.
    OverrideHostIdOverlap(Seq<char>),
    /// A host id that is empty once normalized.
    OverrideHostIdEmpty(Seq<char>),
    /// An engine path that is no readable file, with what went wrong.
    GostUnreadable(Seq<char>, Seq<char>),
    /// An engine path beside another backend than OpenSSL.
    GostRequiresOpenssl,
    /// A hook that is refused.
    Hook(HookFault),
    /// An error that validation does not raise.
    Foreign,
}

/// The fault that an error reports.
pub open spec fn fault_of(e: Error) -> ConfigFault {
    match e {
        Error::ConfigInvalid { reason } => ConfigFault::Invalid(reason@),
        Error::GostEnginePathUnreadable { path, source } => ConfigFault::GostUnreadable(
            path@,
            source@,
        ),
        Error::GostEnginePathRequiresOpenssl => ConfigFault::GostRequiresOpenssl,
        Error::HookValidation(h) => ConfigFault::Hook(hook_fault_of(h)),
        Error::Trust(t) => match t {
            TrustError::AnchorsEmpty => ConfigFault::AnchorsEmpty,
            TrustError::MaxChainDepthZero => ConfigFault::MaxChainDepthZero,
            TrustError::ClockSkewTooLarge => ConfigFault::ClockSkewTooLarge,
            TrustError::AnchorMissing { path } => ConfigFault::AnchorMissing(path@),
            TrustError::AnchorNotPem { path } => ConfigFault::AnchorNotPem(path@),
            TrustError::CrlPathsEmpty => ConfigFault::CrlPathsEmpty,
            TrustError::CrlPathMissing { path } => ConfigFault::CrlPathMissing(path@),
            TrustError::OcspResponderInvalid { reason } => ConfigFault::OcspResponderInvalid(
                reason@,
            ),
            TrustError::PinningHashInvalid { entry } => ConfigFault::PinningHashInvalid(entry@),
            TrustError::TrustOverrideAnchorsEmpty => ConfigFault::OverrideAnchorsEmpty,
            TrustError::TrustOverrideHostIdOverlap { host_id } => {
                ConfigFault::OverrideHostIdOverlap(host_id@)
            },
            TrustError::TrustOverrideHostIdEmpty { raw } => ConfigFault::OverrideHostIdEmpty(raw@),
            _ => ConfigFault::Foreign,
        },
        _ => ConfigFault::Foreign,
    }
}

/// The first of two faults.
pub open spec fn either(a: Option<ConfigFault>, b: Option<ConfigFault>) -> Option<ConfigFault> {
    if a is Some {
        a
    } else {
        b
    }
}

/// The fault at the lowest place below `n` that has one.
pub open spec fn first_fault(n: nat, at: spec_fn(int) -> Option<ConfigFault>) -> Option<ConfigFault>
    decreases n,
{
    if n == 0 {
        None
    } else {
        either(first_fault((n - 1) as nat, at), at(n - 1))
    }
}

/// A fault among the first places is the fault of the whole.
pub proof fn lemma_first_fault(n: nat, i: nat, at: spec_fn(int) -> Option<ConfigFault>)
    requires
        i <= n,
        first_fault(i, at) is Some,
    ensures
        first_fault(n, at) == first_fault(i, at),
    decreases n,
{
    if i < n {
        lemma_first_fault((n - 1) as nat, i, at);
    }
}

/// Where there is no first fault, no place has one.
pub proof fn lemma_no_fault(n: nat, i: int, at: spec_fn(int) -> Option<ConfigFault>)
    requires
        first_fault(n, at) is None,
        0 <= i < n,
    ensures
        at(i) is None,
    decreases n,
{
    if i < n - 1 {
        lemma_no_fault((n - 1) as nat, i, at);
    }
}

/// The error for a rule without one of its own.
pub(crate) fn invalid(reason: String) -> (e: Error)
    ensures
        fault_of(e) == ConfigFault::Invalid(reason@),
{
    Error::ConfigInvalid { reason }
}

/// The first fault stands at the first place that has one.
pub proof fn first_fault_stands_first(n: nat, i: int, at: spec_fn(int) -> Option<ConfigFault>)
    requires
        0 <= i < n,
        at(i) is Some,
        forall|j: int| 0 <= j < i ==> (#[trigger] at(j)) is None,
    ensures
        first_fault(n, at) == at(i),
    decreases n,
{
    if i < n - 1 {
        first_fault_stands_first((n - 1) as nat, i, at);
    } else {
        no_fault_without_a_place(i as nat, at);
    }
}

/// Where no place has a fault there is none.
pub proof fn no_fault_without_a_place(n: nat, at: spec_fn(int) -> Option<ConfigFault>)
    requires
        forall|j: int| 0 <= j < n ==> (#[trigger] at(j)) is None,
    ensures
        first_fault(n, at) is None,
    decreases n,
{
    if n > 0 {
        no_fault_without_a_place((n - 1) as nat, at);
    }
}

/// Of two faults the first counts.
pub proof fn first_of_two_counts(a: Option<ConfigFault>, b: Option<ConfigFault>)
    ensures
        a is Some ==> either(a, b) == a,
        a is None ==> either(a, b) == b,
{
}

} // verus!
