//! The shapes of the daemon's HTTP api: what a request carries and what a
//! response decodes to. The wire codec itself lives with the caller; here the
//! types are plain data that contracts can speak about.

use vstd::prelude::*;

verus! {

/// Body of a checkout (mount) request.
#[derive(Clone, Debug)]
pub struct MountRequest {
    pub path: String,
}

/// Response to a checkout request.
#[derive(Clone, Debug)]
pub struct MountResponse {
    pub status: String,
    pub mount: MountInfo,
    pub message: String,
}

/// A daemon-reported mount: a path and the inode the daemon assigned to it.
#[derive(Clone, Debug)]
pub struct MountInfo {
    pub hash: String,
    pub path: String,
    pub inode: u64,
}

/// Response to a mounts-list request.
#[derive(Clone, Debug)]
pub struct MountsResponse {
    pub status: String,
    pub mounts: Vec<MountInfo>,
}

/// Body of a restore (umount) request.
#[derive(Clone, Debug)]
pub struct UmountRequest {
    pub path: Option<String>,
    pub inode: Option<u64>,
}

/// Response to a restore request.
#[derive(Clone, Debug)]
pub struct UmountResponse {
    pub status: String,
    pub message: String,
}

/// Response to a configuration request.
#[derive(Clone, Debug)]
pub struct ConfigResponse {
    pub status: String,
    pub config: ConfigInfo,
}

/// The daemon's configuration as it reports it.
#[derive(Clone, Debug)]
pub struct ConfigInfo {
    pub mega_url: String,
    pub mount_path: String,
    pub store_path: String,
}

/// Body of a configuration update; a field left `None` is left unchanged.
#[derive(Clone, Debug)]
pub struct ConfigRequest {
    pub mega_url: Option<String>,
    pub mount_path: Option<String>,
    pub store_path: Option<String>,
}

} // verus!
