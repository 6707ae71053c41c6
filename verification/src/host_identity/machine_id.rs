//! Machine-id source.

use crate::error::HostIdentityError;
use crate::host_identity::source::{
    file_value, is_file_value, join_path, joined, HostIdSource, HostIdSourceKind, SourceReply,
    SourceRequest,
};
use vstd::prelude::*;

verus! {

/// Reads `etc/machine-id` under the configured root.
#[derive(Debug, Clone, Copy)]
pub struct MachineIdSource;

impl HostIdSource for MachineIdSource {
    fn kind(&self) -> (r: HostIdSourceKind)
        ensures
            r == HostIdSourceKind::MachineId,
    {
        HostIdSourceKind::MachineId
    }

    fn request(&self, fs_root: &str) -> (r: SourceRequest)
        ensures
            r matches SourceRequest::ReadFile(p) && p@ == joined(fs_root@, "etc/machine-id"@),
    {
        SourceRequest::ReadFile(join_path(fs_root, "etc/machine-id"))
    }

    fn value(&self, fs_root: &str, reply: SourceReply) -> (r: Result<String, HostIdentityError>)
        ensures
            match reply {
                SourceReply::File(read) => is_file_value(
                    HostIdSourceKind::MachineId,
                    joined(fs_root@, "etc/machine-id"@),
                    false,
                    read,
                    r,
                ),
                SourceReply::Command(_) => r matches Err(HostIdentityError::CommandNotConfigured),
            },
    {
        file_value(
            HostIdSourceKind::MachineId,
            join_path(fs_root, "etc/machine-id"),
            false,
            reply,
        )
    }
}

} // verus!
