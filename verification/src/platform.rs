//! The platforms a release is built for, and download counts per platform.

use vstd::prelude::*;

use crate::text::{ends_with, is_suffix};

verus! {

/// A platform for which release assets are published.
#[derive(Clone, Copy, Debug, PartialEq, Eq, Hash, Structural)]
pub enum Platform {
    Aarch64Mac,
    X86_64Linux,
    X86_64Mac,
    X86_64Windows,
}

/// The platform whose asset names end in the way `name` does, if any.
///
/// The table is fixed: an asset belongs to a platform when its file name
/// ends with that platform's architecture, system and archive extension.
pub open spec fn platform_of(name: Seq<char>) -> Option<Platform> {
    if is_suffix(name, "-x86_64-linux.zip"@) {
        Some(Platform::X86_64Linux)
    } else if is_suffix(name, "-x86_64-mac.zip"@) {
        Some(Platform::X86_64Mac)
    } else if is_suffix(name, "-x86_64-windows.zip"@) {
        Some(Platform::X86_64Windows)
    } else if is_suffix(name, "-aarch64-mac.zip"@) {
        Some(Platform::Aarch64Mac)
    } else {
        None
    }
}

impl Platform {
    /// Classifies a release asset by the suffix of its file name.
    /// `None` for a name that no platform of the table claims.
    pub fn classify(name: &str) -> (found: Option<Platform>)
        ensures
            found == platform_of(name@),
    {
        if ends_with(name, "-x86_64-linux.zip") {
            Some(Platform::X86_64Linux)
        } else if ends_with(name, "-x86_64-mac.zip") {
            Some(Platform::X86_64Mac)
        } else if ends_with(name, "-x86_64-windows.zip") {
            Some(Platform::X86_64Windows)
        } else if ends_with(name, "-aarch64-mac.zip") {
            Some(Platform::Aarch64Mac)
        } else {
            None
        }
    }
}

/// Download counts of one release, per platform. A platform without an
/// asset has no count.
#[derive(Clone, Copy, Debug, PartialEq, Eq, Structural)]
pub struct PlatformCounts {
    pub aarch64_mac: Option<u64>,
    pub x86_64_linux: Option<u64>,
    pub x86_64_mac: Option<u64>,
    pub x86_64_windows: Option<u64>,
}

impl PlatformCounts {
    /// The count recorded for `platform`, if there is one.
    pub open spec fn count(self, platform: Platform) -> Option<u64> {
        match platform {
            Platform::Aarch64Mac => self.aarch64_mac,
            Platform::X86_64Linux => self.x86_64_linux,
            Platform::X86_64Mac => self.x86_64_mac,
            Platform::X86_64Windows => self.x86_64_windows,
        }
    }

    /// The counts with that of `platform` set to `value`.
    pub open spec fn with(self, platform: Platform, value: u64) -> PlatformCounts {
        match platform {
            Platform::Aarch64Mac => PlatformCounts { aarch64_mac: Some(value), ..self },
            Platform::X86_64Linux => PlatformCounts { x86_64_linux: Some(value), ..self },
            Platform::X86_64Mac => PlatformCounts { x86_64_mac: Some(value), ..self },
            Platform::X86_64Windows => PlatformCounts { x86_64_windows: Some(value), ..self },
        }
    }

    /// No platform has a count.
    pub open spec fn none() -> PlatformCounts {
        PlatformCounts {
            aarch64_mac: None,
            x86_64_linux: None,
            x86_64_mac: None,
            x86_64_windows: None,
        }
    }

    /// The empty mapping.
    pub fn new() -> (counts: PlatformCounts)
        ensures
            counts == PlatformCounts::none(),
    {
        PlatformCounts { aarch64_mac: None, x86_64_linux: None, x86_64_mac: None, x86_64_windows: None }
    }

    /// Looks up the count of `platform`.
    pub fn get(&self, platform: Platform) -> (found: Option<u64>)
        ensures
            found == self.count(platform),
    {
        match platform {
            Platform::Aarch64Mac => self.aarch64_mac,
            Platform::X86_64Linux => self.x86_64_linux,
            Platform::X86_64Mac => self.x86_64_mac,
            Platform::X86_64Windows => self.x86_64_windows,
        }
    }

    /// Sets the count of `platform`, replacing an earlier one.
    pub fn insert(&mut self, platform: Platform, value: u64)
        ensures
            *final(self) == old(self).with(platform, value),
    {
        match platform {
            Platform::Aarch64Mac => {
                self.aarch64_mac = Some(value);
            },
            Platform::X86_64Linux => {
                self.x86_64_linux = Some(value);
            },
            Platform::X86_64Mac => {
                self.x86_64_mac = Some(value);
            },
            Platform::X86_64Windows => {
                self.x86_64_windows = Some(value);
            },
        }
    }

    /// Whether two mappings give every platform the same count.
    pub fn same(&self, other: &PlatformCounts) -> (equal: bool)
        ensures
            equal == (*self == *other),
    {
        self.aarch64_mac == other.aarch64_mac && self.x86_64_linux == other.x86_64_linux
            && self.x86_64_mac == other.x86_64_mac && self.x86_64_windows
            == other.x86_64_windows
    }
}

/// Two mappings are equal exactly when they agree on every platform.
pub proof fn lemma_counts_determined_by_lookup(a: PlatformCounts, b: PlatformCounts)
    ensures
        a == b <==> forall|p: Platform| a.count(p) == b.count(p),
{
    if forall|p: Platform| a.count(p) == b.count(p) {
        assert(a.count(Platform::Aarch64Mac) == b.count(Platform::Aarch64Mac));
        assert(a.count(Platform::X86_64Linux) == b.count(Platform::X86_64Linux));
        assert(a.count(Platform::X86_64Mac) == b.count(Platform::X86_64Mac));
        assert(a.count(Platform::X86_64Windows) == b.count(Platform::X86_64Windows));
    }
}

} // verus!
