//! The user that a hook runs as.

use crate::hooks::result::HookError;
use crate::text::has_char;
use vstd::prelude::*;

verus! {

/// Resolved POSIX user.
#[derive(Debug, Clone, PartialEq, Eq)]
pub struct UserInfo {
    /// Login name.
    pub name: String,
    /// User ID.
    pub uid: u32,
    /// Primary group ID.
    pub gid: u32,
    /// Supplementary group IDs (the primary one too).
    pub groups: Vec<u32>,
    /// Home directory.
    pub home: String,
}

/// What the user database says of a name.
#[derive(Debug)]
pub enum UserLookup {
    /// An entry.
    Found(UserEntry),
    /// No entry; the text of the error for that.
    Absent(String),
    /// The database could not be asked; the text of the error.
    Failed(String),
}

/// An entry of the user database.
#[derive(Debug)]
pub struct UserEntry {
    /// Login name.
    pub name: String,
    /// User ID.
    pub uid: u32,
    /// Primary group ID.
    pub gid: u32,
    /// Home directory.
    pub home: String,
}

/// Why a name is not looked up at all.
pub open spec fn name_refusal(name: Seq<char>) -> Option<Seq<char>> {
    if name.len() == 0 {
        Some("empty username"@)
    } else if name.contains('\0') {
        Some("username contains NUL byte"@)
    } else {
        None
    }
}

/// Refuses a name that must not reach the user database.
pub fn check_user_name(name: &str) -> (r: Result<(), HookError>)
    ensures
        r is Ok <==> name_refusal(name@) is None,
        r matches Err(e) ==> e matches HookError::ChildSetup { message } && name_refusal(name@)
            == Some(message@),
{
    if name.is_empty() {
        return Err(HookError::ChildSetup { message: "empty username".to_owned() });
    }
    if has_char(name, '\0') {
        return Err(HookError::ChildSetup { message: "username contains NUL byte".to_owned() });
    }
    Ok(())
}

/// The user of a name, from what the databases say of it. `groups` is asked for only where an
/// entry was found; `Err` holds the text of the error.
pub fn lookup_user(name: &str, found: UserLookup, groups: Result<Vec<u32>, String>) -> (r: Result<
    UserInfo,
    HookError,
>)
    ensures
        match r {
            Ok(u) => name_refusal(name@) is None && (found matches UserLookup::Found(e) && u.name
                == e.name && u.uid == e.uid && u.gid == e.gid && u.home == e.home) && groups == Ok::<
                Vec<u32>,
                String,
            >(u.groups),
            Err(HookError::ChildSetup { message }) => name_refusal(name@) == Some(message@),
            Err(HookError::UserResolution { user, source }) => name_refusal(name@) is None && user@
                == name@ && match found {
                UserLookup::Absent(why) => source == why,
                UserLookup::Failed(why) => source == why,
                UserLookup::Found(_) => groups == Err::<Vec<u32>, String>(source),
            },
            Err(_) => false,
        },
{
    match check_user_name(name) {
        Ok(()) => {},
        Err(e) => {
            return Err(e);
        },
    }
    let entry = match found {
        UserLookup::Found(e) => e,
        UserLookup::Absent(source) => {
            return Err(HookError::UserResolution { user: name.to_owned(), source });
        },
        UserLookup::Failed(source) => {
            return Err(HookError::UserResolution { user: name.to_owned(), source });
        },
    };
    match groups {
        Ok(groups) => Ok(
            UserInfo { name: entry.name, uid: entry.uid, gid: entry.gid, groups, home: entry.home },
        ),
        Err(source) => Err(HookError::UserResolution { user: name.to_owned(), source }),
    }
}

/// A name is looked up unless it is empty or holds a NUL.
pub proof fn names_are_looked_up_unless_malformed(name: Seq<char>, i: int)
    ensures
        name_refusal(Seq::<char>::empty()) == Some("empty username"@),
        0 <= i < name.len() && name[i] == '\0' ==> name_refusal(name) == Some(
            "username contains NUL byte"@,
        ),
        name.len() > 0 && (forall|k: int| 0 <= k < name.len() ==> name[k] != '\0')
            ==> name_refusal(name) is None,
{
}

} // verus!
