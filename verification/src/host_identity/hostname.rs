//! Hostname source.

use crate::error::HostIdentityError;
use crate::host_identity::source::{
    file_value, is_file_value, join_path, joined, HostIdSource, HostIdSourceKind, SourceReply,
    SourceRequest,
};
use vstd::prelude::*;

verus! {

/// Reads `etc/hostname` under the configured root.
#[derive(Debug, Clone, Copy)]
pub struct HostnameSource;

impl HostIdSource for HostnameSource {
    fn kind(&self) -> (r: HostIdSourceKind)
        ensures
            r == HostIdSourceKind::Hostname,
    {
        HostIdSourceKind::Hostname
    }

    fn request(&self, fs_root: &str) -> (r: SourceRequest)
        ensures
            r matches SourceRequest::ReadFile(p) && p@ == joined(fs_root@, "etc/hostname"@),
    {
        SourceRequest::ReadFile(join_path(fs_root, "etc/hostname"))
    }

    fn value(&self, fs_root: &str, reply: SourceReply) -> (r: Result<String, HostIdentityError>)
        ensures
            match reply {
                SourceReply::File(read) => is_file_value(
                    HostIdSourceKind::Hostname,
                    joined(fs_root@, "etc/hostname"@),
                    true,
                    read,
                    r,
                ),
                SourceReply::Command(_) => r matches Err(HostIdentityError::CommandNotConfigured),
            },
    {
        file_value(
            HostIdSourceKind::Hostname,
            join_path(fs_root, "etc/hostname"),
            true,
            reply,
        )
    }
}

} // verus!
