//! Hook stages.

use crate::error::Error;
use crate::text::{cat2, str_eq};
use vstd::prelude::*;

verus! {

/// Hook execution stage.
#[derive(Debug, Clone, Copy, PartialEq, Eq, PartialOrd, Ord, Structural)]
pub enum HookStage {
    /// Pre auth.
    PreAuth,
    /// Post auth success.
    PostAuthSuccess,
    /// Session open.
    SessionOpen,
    /// Session close.
    SessionClose,
    /// USB removed.
    UsbRemoved,
}

impl Default for HookStage {
    fn default() -> (r: HookStage)
        ensures
            r == HookStage::PreAuth,
    {
        HookStage::PreAuth
    }
}

/// The stage that a configured name selects.
pub open spec fn stage_named(s: Seq<char>) -> Option<HookStage> {
    if s == "pre_auth"@ {
        Some(HookStage::PreAuth)
    } else if s == "post_auth_success"@ {
        Some(HookStage::PostAuthSuccess)
    } else if s == "session_open"@ {
        Some(HookStage::SessionOpen)
    } else if s == "session_close"@ {
        Some(HookStage::SessionClose)
    } else if s == "usb_removed"@ {
        Some(HookStage::UsbRemoved)
    } else {
        None
    }
}

impl HookStage {
    /// Name of the stage in configuration and in the hook's environment.
    pub open spec fn name(self) -> Seq<char> {
        match self {
            HookStage::PreAuth => "pre_auth"@,
            HookStage::PostAuthSuccess => "post_auth_success"@,
            HookStage::SessionOpen => "session_open"@,
            HookStage::SessionClose => "session_close"@,
            HookStage::UsbRemoved => "usb_removed"@,
        }
    }

    /// Name of the variant, as `Debug` prints it.
    pub open spec fn variant(self) -> Seq<char> {
        match self {
            HookStage::PreAuth => "PreAuth"@,
            HookStage::PostAuthSuccess => "PostAuthSuccess"@,
            HookStage::SessionOpen => "SessionOpen"@,
            HookStage::SessionClose => "SessionClose"@,
            HookStage::UsbRemoved => "UsbRemoved"@,
        }
    }

    /// Name of the stage in configuration and in the hook's environment.
    pub fn as_str(self) -> (r: &'static str)
        ensures
            r@ == self.name(),
    {
        match self {
            HookStage::PreAuth => "pre_auth",
            HookStage::PostAuthSuccess => "post_auth_success",
            HookStage::SessionOpen => "session_open",
            HookStage::SessionClose => "session_close",
            HookStage::UsbRemoved => "usb_removed",
        }
    }

    /// Name of the variant, as `Debug` prints it.
    pub fn variant_name(self) -> (r: &'static str)
        ensures
            r@ == self.variant(),
    {
        match self {
            HookStage::PreAuth => "PreAuth",
            HookStage::PostAuthSuccess => "PostAuthSuccess",
            HookStage::SessionOpen => "SessionOpen",
            HookStage::SessionClose => "SessionClose",
            HookStage::UsbRemoved => "UsbRemoved",
        }
    }

    /// Reads a configured name.
    pub fn from_str(s: &str) -> (r: Result<HookStage, Error>)
        ensures
            r matches Ok(k) ==> stage_named(s@) == Some(k),
            r matches Err(e) ==> stage_named(s@) is None && e.is_invalid(
                "invalid hook stage: "@ + s@,
            ),
    {
        if str_eq(s, "pre_auth") {
            Ok(HookStage::PreAuth)
        } else if str_eq(s, "post_auth_success") {
            Ok(HookStage::PostAuthSuccess)
        } else if str_eq(s, "session_open") {
            Ok(HookStage::SessionOpen)
        } else if str_eq(s, "session_close") {
            Ok(HookStage::SessionClose)
        } else if str_eq(s, "usb_removed") {
            Ok(HookStage::UsbRemoved)
        } else {
            Err(Error::ConfigInvalid { reason: cat2("invalid hook stage: ", s) })
        }
    }
}

/// The name of every stage reads back as that stage.
pub proof fn stage_name_round_trips(k: HookStage)
    ensures
        stage_named(k.name()) == Some(k),
{
    reveal_strlit("pre_auth");
    reveal_strlit("post_auth_success");
    reveal_strlit("session_open");
    reveal_strlit("session_close");
    reveal_strlit("usb_removed");
    assert("pre_auth"@.len() == 8);
    assert("post_auth_success"@.len() == 17);
    assert("session_open"@.len() == 12);
    assert("session_close"@.len() == 13);
    assert("usb_removed"@.len() == 11);
}

/// Each stage goes by one name, and no other text names one.
pub proof fn stages_go_by_their_names(s: Seq<char>)
    ensures
        stage_named("pre_auth"@) == Some(HookStage::PreAuth),
        HookStage::PreAuth.name() == "pre_auth"@,
        stage_named("post_auth_success"@) == Some(HookStage::PostAuthSuccess),
        HookStage::PostAuthSuccess.name() == "post_auth_success"@,
        stage_named("session_open"@) == Some(HookStage::SessionOpen),
        HookStage::SessionOpen.name() == "session_open"@,
        stage_named("session_close"@) == Some(HookStage::SessionClose),
        HookStage::SessionClose.name() == "session_close"@,
        stage_named("usb_removed"@) == Some(HookStage::UsbRemoved),
        HookStage::UsbRemoved.name() == "usb_removed"@,
        stage_named(s) is Some ==> s == stage_named(s)->0.name(),
{
    reveal_strlit("pre_auth");
    reveal_strlit("post_auth_success");
    reveal_strlit("session_open");
    reveal_strlit("session_close");
    reveal_strlit("usb_removed");
    assert("pre_auth"@.len() == 8);
    assert("post_auth_success"@.len() == 17);
    assert("session_open"@.len() == 12);
    assert("session_close"@.len() == 13);
    assert("usb_removed"@.len() == 11);
}

} // verus!
