//! Configuration consumed by the core: where the two backends listen, the
//! default mount point, and the executable paths.

use vstd::prelude::*;

verus! {

/// The settings the core runs with.
#[derive(Clone, Debug)]
pub struct MegaSettings {
    pub mega_url: String,
    pub fuse_url: String,
    pub mount_point: String,
    pub mega_executable: String,
    pub fuse_executable: String,
}

/// The settings as a configuration file carries them.
#[derive(Clone, Debug)]
pub struct MegaSettingsContent {
    /// Url to communicate with mega
    ///
    /// Default: http://localhost:8000
    pub mega_url: String,
    /// Url to communicate with fuse
    ///
    /// Default: http://localhost:2725
    pub fuse_url: String,
    /// Default mount point for fuse
    ///
    /// Default: "/" (for now)
    pub mount_point: String,
    /// Path for mega executable
    ///
    /// Default: "mega" (for now)
    pub mega_executable: String,
    /// Path for fuse executable
    ///
    /// Default: "scorpio" (for now)
    pub fuse_executable: String,
}

impl MegaSettings {
    /// Take the settings out of a loaded configuration file, field for field.
    pub fn load(content: MegaSettingsContent) -> (s: MegaSettings)
        ensures
            s.mega_url@ == content.mega_url@,
            s.fuse_url@ == content.fuse_url@,
            s.mount_point@ == content.mount_point@,
            s.mega_executable@ == content.mega_executable@,
            s.fuse_executable@ == content.fuse_executable@,
    {
        MegaSettings {
            mega_url: content.mega_url,
            fuse_url: content.fuse_url,
            mount_point: content.mount_point,
            mega_executable: content.mega_executable,
            fuse_executable: content.fuse_executable,
        }
    }
}

} // verus!
