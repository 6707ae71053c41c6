//! DMI sources.

use crate::error::HostIdentityError;
use crate::host_identity::source::{
    file_value, is_file_value, join_path, joined, HostIdSource, HostIdSourceKind, SourceReply,
    SourceRequest,
};
use vstd::prelude::*;

verus! {

/// Reads the DMI board serial.
#[derive(Debug, Clone, Copy)]
pub struct DmiBoardSerialSource;

impl HostIdSource for DmiBoardSerialSource {
    fn kind(&self) -> (r: HostIdSourceKind)
        ensures
            r == HostIdSourceKind::DmiBoardSerial,
    {
        HostIdSourceKind::DmiBoardSerial
    }

    fn request(&self, fs_root: &str) -> (r: SourceRequest)
        ensures
            r matches SourceRequest::ReadFile(p) && p@ == joined(fs_root@, "sys/class/dmi/id/board_serial"@),
    {
        SourceRequest::ReadFile(join_path(fs_root, "sys/class/dmi/id/board_serial"))
    }

    fn value(&self, fs_root: &str, reply: SourceReply) -> (r: Result<String, HostIdentityError>)
        ensures
            match reply {
                SourceReply::File(read) => is_file_value(
                    HostIdSourceKind::DmiBoardSerial,
                    joined(fs_root@, "sys/class/dmi/id/board_serial"@),
                    true,
                    read,
                    r,
                ),
                SourceReply::Command(_) => r matches Err(HostIdentityError::CommandNotConfigured),
            },
    {
        file_value(
            HostIdSourceKind::DmiBoardSerial,
            join_path(fs_root, "sys/class/dmi/id/board_serial"),
            true,
            reply,
        )
    }
}

/// Reads the DMI system UUID.
#[derive(Debug, Clone, Copy)]
pub struct DmiSystemUuidSource;

impl HostIdSource for DmiSystemUuidSource {
    fn kind(&self) -> (r: HostIdSourceKind)
        ensures
            r == HostIdSourceKind::DmiSystemUuid,
    {
        HostIdSourceKind::DmiSystemUuid
    }

    fn request(&self, fs_root: &str) -> (r: SourceRequest)
        ensures
            r matches SourceRequest::ReadFile(p) && p@ == joined(fs_root@, "sys/class/dmi/id/product_uuid"@),
    {
        SourceRequest::ReadFile(join_path(fs_root, "sys/class/dmi/id/product_uuid"))
    }

    fn value(&self, fs_root: &str, reply: SourceReply) -> (r: Result<String, HostIdentityError>)
        ensures
            match reply {
                SourceReply::File(read) => is_file_value(
                    HostIdSourceKind::DmiSystemUuid,
                    joined(fs_root@, "sys/class/dmi/id/product_uuid"@),
                    true,
                    read,
                    r,
                ),
                SourceReply::Command(_) => r matches Err(HostIdentityError::CommandNotConfigured),
            },
    {
        file_value(
            HostIdSourceKind::DmiSystemUuid,
            join_path(fs_root, "sys/class/dmi/id/product_uuid"),
            true,
            reply,
        )
    }
}

/// Reads the DMI system serial.
#[derive(Debug, Clone, Copy)]
pub struct DmiSystemSerialSource;

impl HostIdSource for DmiSystemSerialSource {
    fn kind(&self) -> (r: HostIdSourceKind)
        ensures
            r == HostIdSourceKind::DmiSystemSerial,
    {
        HostIdSourceKind::DmiSystemSerial
    }

    fn request(&self, fs_root: &str) -> (r: SourceRequest)
        ensures
            r matches SourceRequest::ReadFile(p) && p@ == joined(fs_root@, "sys/class/dmi/id/product_serial"@),
    {
        SourceRequest::ReadFile(join_path(fs_root, "sys/class/dmi/id/product_serial"))
    }

    fn value(&self, fs_root: &str, reply: SourceReply) -> (r: Result<String, HostIdentityError>)
        ensures
            match reply {
                SourceReply::File(read) => is_file_value(
                    HostIdSourceKind::DmiSystemSerial,
                    joined(fs_root@, "sys/class/dmi/id/product_serial"@),
                    true,
                    read,
                    r,
                ),
                SourceReply::Command(_) => r matches Err(HostIdentityError::CommandNotConfigured),
            },
    {
        file_value(
            HostIdSourceKind::DmiSystemSerial,
            join_path(fs_root, "sys/class/dmi/id/product_serial"),
            true,
            reply,
        )
    }
}

} // verus!
