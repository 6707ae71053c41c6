//! Kinds of host identity source.

use crate::error::{Error, HostIdentityError};
use crate::text::{cat2, cat3, chars_of, str_eq, trim, trimmed};
use crate::time::Duration;
use vstd::prelude::*;

verus! {

/// Host identity source kind.
#[derive(Debug, Clone, Copy, PartialEq, Eq, PartialOrd, Ord, Structural)]
pub enum HostIdSourceKind {
    /// `/etc/machine-id`.
    MachineId,
    /// DMI board serial.
    DmiBoardSerial,
    /// DMI system UUID.
    DmiSystemUuid,
    /// DMI system serial.
    DmiSystemSerial,
    /// Hostname.
    Hostname,
    /// Custom command.
    CustomCommand,
    /// Override.
    Override,
}

/// The kind that a configured name selects, with the short names of the DMI sources.
pub open spec fn source_kind_named(s: Seq<char>) -> Option<HostIdSourceKind> {
    if s == "machine_id"@ {
        Some(HostIdSourceKind::MachineId)
    } else if s == "dmi_board_serial"@ || s == "board_serial"@ {
        Some(HostIdSourceKind::DmiBoardSerial)
    } else if s == "dmi_system_uuid"@ || s == "system_uuid"@ {
        Some(HostIdSourceKind::DmiSystemUuid)
    } else if s == "dmi_system_serial"@ || s == "system_serial"@ {
        Some(HostIdSourceKind::DmiSystemSerial)
    } else if s == "hostname"@ {
        Some(HostIdSourceKind::Hostname)
    } else if s == "custom_command"@ {
        Some(HostIdSourceKind::CustomCommand)
    } else if s == "override"@ {
        Some(HostIdSourceKind::Override)
    } else {
        None
    }
}

impl HostIdSourceKind {
    /// Canonical name of the kind.
    pub open spec fn name(self) -> Seq<char> {
        match self {
            HostIdSourceKind::MachineId => "machine_id"@,
            HostIdSourceKind::DmiBoardSerial => "dmi_board_serial"@,
            HostIdSourceKind::DmiSystemUuid => "dmi_system_uuid"@,
            HostIdSourceKind::DmiSystemSerial => "dmi_system_serial"@,
            HostIdSourceKind::Hostname => "hostname"@,
            HostIdSourceKind::CustomCommand => "custom_command"@,
            HostIdSourceKind::Override => "override"@,
        }
    }

    /// Name of the variant, as `Debug` prints it.
    pub open spec fn variant(self) -> Seq<char> {
        match self {
            HostIdSourceKind::MachineId => "MachineId"@,
            HostIdSourceKind::DmiBoardSerial => "DmiBoardSerial"@,
            HostIdSourceKind::DmiSystemUuid => "DmiSystemUuid"@,
            HostIdSourceKind::DmiSystemSerial => "DmiSystemSerial"@,
            HostIdSourceKind::Hostname => "Hostname"@,
            HostIdSourceKind::CustomCommand => "CustomCommand"@,
            HostIdSourceKind::Override => "Override"@,
        }
    }

    /// Canonical name of the kind.
    pub fn as_str(self) -> (r: &'static str)
        ensures
            r@ == self.name(),
    {
        match self {
            HostIdSourceKind::MachineId => "machine_id",
            HostIdSourceKind::DmiBoardSerial => "dmi_board_serial",
            HostIdSourceKind::DmiSystemUuid => "dmi_system_uuid",
            HostIdSourceKind::DmiSystemSerial => "dmi_system_serial",
            HostIdSourceKind::Hostname => "hostname",
            HostIdSourceKind::CustomCommand => "custom_command",
            HostIdSourceKind::Override => "override",
        }
    }

    /// Name of the variant, as `Debug` prints it.
    pub fn variant_name(self) -> (r: &'static str)
        ensures
            r@ == self.variant(),
    {
        match self {
            HostIdSourceKind::MachineId => "MachineId",
            HostIdSourceKind::DmiBoardSerial => "DmiBoardSerial",
            HostIdSourceKind::DmiSystemUuid => "DmiSystemUuid",
            HostIdSourceKind::DmiSystemSerial => "DmiSystemSerial",
            HostIdSourceKind::Hostname => "Hostname",
            HostIdSourceKind::CustomCommand => "CustomCommand",
            HostIdSourceKind::Override => "Override",
        }
    }

    /// Reads a configured name.
    pub fn from_str(s: &str) -> (r: Result<HostIdSourceKind, Error>)
        ensures
            r matches Ok(k) ==> source_kind_named(s@) == Some(k),
            r matches Err(e) ==> source_kind_named(s@) is None && e.is_invalid(
                "invalid host identity source: "@ + s@,
            ),
    {
        if str_eq(s, "machine_id") {
            Ok(HostIdSourceKind::MachineId)
        } else if str_eq(s, "dmi_board_serial") || str_eq(s, "board_serial") {
            Ok(HostIdSourceKind::DmiBoardSerial)
        } else if str_eq(s, "dmi_system_uuid") || str_eq(s, "system_uuid") {
            Ok(HostIdSourceKind::DmiSystemUuid)
        } else if str_eq(s, "dmi_system_serial") || str_eq(s, "system_serial") {
            Ok(HostIdSourceKind::DmiSystemSerial)
        } else if str_eq(s, "hostname") {
            Ok(HostIdSourceKind::Hostname)
        } else if str_eq(s, "custom_command") {
            Ok(HostIdSourceKind::CustomCommand)
        } else if str_eq(s, "override") {
            Ok(HostIdSourceKind::Override)
        } else {
            Err(Error::ConfigInvalid { reason: cat2("invalid host identity source: ", s) })
        }
    }
}

/// The canonical name of every kind reads back as that kind.
pub proof fn source_kind_name_round_trips(k: HostIdSourceKind)
    ensures
        source_kind_named(k.name()) == Some(k),
{
    reveal_strlit("machine_id");
    reveal_strlit("dmi_board_serial");
    reveal_strlit("board_serial");
    reveal_strlit("dmi_system_uuid");
    reveal_strlit("system_uuid");
    reveal_strlit("dmi_system_serial");
    reveal_strlit("system_serial");
    reveal_strlit("hostname");
    reveal_strlit("custom_command");
    reveal_strlit("override");
    assert("machine_id"@.len() == 10);
    assert("dmi_board_serial"@.len() == 16);
    assert("board_serial"@.len() == 12);
    assert("dmi_system_uuid"@.len() == 15);
    assert("system_uuid"@.len() == 11);
    assert("dmi_system_serial"@.len() == 17);
    assert("system_serial"@.len() == 13);
    assert("hostname"@.len() == 8);
    assert("custom_command"@.len() == 14);
    assert("override"@.len() == 8);
    assert("hostname"@[0] == 'h');
    assert("override"@[0] == 'o');
}

/// What must be fetched for a source.
#[derive(Debug)]
pub enum SourceRequest {
    /// The text of a file.
    ReadFile(String),
    /// The output of a command, within a time.
    RunCommand(String, Duration),
}

/// What was fetched for a source.
#[derive(Debug)]
pub enum SourceReply {
    /// The text of the file, or the text of the error.
    File(Result<String, String>),
    /// How the command ended.
    Command(CommandEnd),
}

/// How a command ended.
#[derive(Debug)]
pub enum CommandEnd {
    /// It could not be started or waited for; the text of the error.
    Failed(String),
    /// It was stopped at the end of its time.
    TimedOut,
    /// It exited.
    Exited {
        /// Whether it succeeded.
        success: bool,
        /// Its exit code, where it has one.
        code: Option<i32>,
        /// What it wrote to its standard output.
        stdout: Vec<u8>,
        /// What it wrote to its standard error.
        stderr: Vec<u8>,
    },
}

/// A source of the host identity: what to fetch, and what becomes of it.
pub trait HostIdSource {
    /// Source kind.
    fn kind(&self) -> (r: HostIdSourceKind);

    /// What must be fetched, below the root of a file system.
    fn request(&self, fs_root: &str) -> (r: SourceRequest);

    /// The raw value in what was fetched.
    fn value(&self, fs_root: &str, reply: SourceReply) -> (r: Result<String, HostIdentityError>);
}

/// A path below a root.
pub open spec fn joined(root: Seq<char>, rel: Seq<char>) -> Seq<char> {
    if root.len() == 0 || root.last() == '/' {
        root + rel
    } else {
        root + "/"@ + rel
    }
}

/// A relative path below a root.
pub(crate) fn join_path(root: &str, rel: &str) -> (r: String)
    ensures
        r@ == joined(root@, rel@),
{
    let chars = chars_of(root);
    let n: usize = chars.len();
    if n == 0 || chars[n - 1] == '/' {
        cat2(root, rel)
    } else {
        cat3(root, "/", rel)
    }
}

/// Whether a result is the value in a file: its text without surrounding white space. Where
/// `refuse_empty`, an empty value is an error.
pub open spec fn is_file_value(
    kind: HostIdSourceKind,
    path: Seq<char>,
    refuse_empty: bool,
    read: Result<String, String>,
    r: Result<String, HostIdentityError>,
) -> bool {
    match read {
        Err(e) => r matches Err(HostIdentityError::Read { path: p, source }) && p@ == path && source
            == e,
        Ok(text) => if refuse_empty && trimmed(text@).len() == 0 {
            r matches Err(HostIdentityError::Empty { source_kind }) && source_kind == kind
        } else {
            r matches Ok(v) && v@ == trimmed(text@)
        },
    }
}

/// The value in a file.
pub(crate) fn file_value(
    kind: HostIdSourceKind,
    path: String,
    refuse_empty: bool,
    reply: SourceReply,
) -> (r: Result<String, HostIdentityError>)
    ensures
        match reply {
            SourceReply::File(read) => is_file_value(kind, path@, refuse_empty, read, r),
            SourceReply::Command(_) => r matches Err(HostIdentityError::CommandNotConfigured),
        },
{
    match reply {
        SourceReply::File(Ok(text)) => {
            let v = trim(text.as_str());
            if refuse_empty && v.as_str().is_empty() {
                Err(HostIdentityError::Empty { source_kind: kind })
            } else {
                Ok(v)
            }
        },
        SourceReply::File(Err(source)) => Err(HostIdentityError::Read { path, source }),
        SourceReply::Command(_) => Err(HostIdentityError::CommandNotConfigured),
    }
}

/// Each kind of source goes by its name, three of them by a short one too, and no other text names
/// one.
pub proof fn kinds_go_by_their_names(s: Seq<char>)
    ensures
        source_kind_named("machine_id"@) == Some(HostIdSourceKind::MachineId),
        HostIdSourceKind::MachineId.name() == "machine_id"@,
        source_kind_named("dmi_board_serial"@) == Some(HostIdSourceKind::DmiBoardSerial),
        HostIdSourceKind::DmiBoardSerial.name() == "dmi_board_serial"@,
        source_kind_named("dmi_system_uuid"@) == Some(HostIdSourceKind::DmiSystemUuid),
        HostIdSourceKind::DmiSystemUuid.name() == "dmi_system_uuid"@,
        source_kind_named("dmi_system_serial"@) == Some(HostIdSourceKind::DmiSystemSerial),
        HostIdSourceKind::DmiSystemSerial.name() == "dmi_system_serial"@,
        source_kind_named("hostname"@) == Some(HostIdSourceKind::Hostname),
        HostIdSourceKind::Hostname.name() == "hostname"@,
        source_kind_named("custom_command"@) == Some(HostIdSourceKind::CustomCommand),
        HostIdSourceKind::CustomCommand.name() == "custom_command"@,
        source_kind_named("override"@) == Some(HostIdSourceKind::Override),
        HostIdSourceKind::Override.name() == "override"@,
        source_kind_named("board_serial"@) == Some(HostIdSourceKind::DmiBoardSerial),
        source_kind_named("system_uuid"@) == Some(HostIdSourceKind::DmiSystemUuid),
        source_kind_named("system_serial"@) == Some(HostIdSourceKind::DmiSystemSerial),
        source_kind_named(s) is Some ==> s == source_kind_named(s)->0.name() || s
            == "board_serial"@ || s == "system_uuid"@ || s == "system_serial"@,
{
    reveal_strlit("machine_id");
    reveal_strlit("dmi_board_serial");
    reveal_strlit("dmi_system_uuid");
    reveal_strlit("dmi_system_serial");
    reveal_strlit("hostname");
    reveal_strlit("custom_command");
    reveal_strlit("override");
    reveal_strlit("board_serial");
    reveal_strlit("system_uuid");
    reveal_strlit("system_serial");
    assert("machine_id"@.len() == 10);
    assert("dmi_board_serial"@.len() == 16);
    assert("dmi_system_uuid"@.len() == 15);
    assert("dmi_system_serial"@.len() == 17);
    assert("hostname"@.len() == 8);
    assert("custom_command"@.len() == 14);
    assert("override"@.len() == 8);
    assert("board_serial"@.len() == 12);
    assert("system_uuid"@.len() == 11);
    assert("system_serial"@.len() == 13);
    assert("hostname"@[0] == 'h');
    assert("override"@[0] == 'o');
}

/// A path below a root is the root, a slash where it lacks one, and the path.
pub proof fn paths_are_joined_by_one_slash(root: Seq<char>, rel: Seq<char>)
    ensures
        joined(root.push('/'), rel) == root.push('/') + rel,
        root.len() > 0 && root.last() != '/' ==> joined(root, rel) == root.push('/') + rel,
        joined(Seq::<char>::empty(), rel) == rel,
{
    reveal_strlit("/");
    assert("/"@ =~= seq!['/']);
    assert(root + "/"@ + rel =~= root.push('/') + rel);
    assert(Seq::<char>::empty() + rel =~= rel);
}

/// The value of a file is its text without the white space round it; a file that was not read is an
/// error with its path, and an empty value one where empty values are refused.
pub proof fn file_values_are_trimmed(
    kind: HostIdSourceKind,
    path: Seq<char>,
    refuse_empty: bool,
    read: Result<String, String>,
    r: Result<String, HostIdentityError>,
)
    requires
        is_file_value(kind, path, refuse_empty, read, r),
    ensures
        r is Ok ==> read is Ok && r->Ok_0@ == trimmed(read->Ok_0@),
        read is Err ==> (r matches Err(HostIdentityError::Read { path: p, source }) && p@ == path
            && source == read->Err_0),
        read matches Ok(t) && trimmed(t@).len() > 0 ==> r is Ok,
        read matches Ok(t) && trimmed(t@).len() == 0 ==> (r is Ok <==> !refuse_empty) && (
        refuse_empty ==> (r matches Err(HostIdentityError::Empty { source_kind }) && source_kind
            == kind)),
{
}

} // verus!
