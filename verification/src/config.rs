//! What the allocator is built for, and the platform that follows from it.
use vstd::prelude::*;

verus! {

/// The properties of a build that decide how memory is measured.
#[derive(Clone, Copy, Debug, PartialEq, Eq)]
pub struct Build {
    /// The target is Windows.
    pub windows: bool,
    /// The target environment is OpenHarmony.
    pub ohos: bool,
    /// The target comes from Apple.
    pub apple: bool,
    /// jemalloc was asked for.
    pub use_jemalloc: bool,
    /// Allocations are tracked, so that unmeasured ones can be listed.
    pub allocation_tracking: bool,
}

/// Where the memory of a build comes from.
#[derive(Clone, Copy, Debug, PartialEq, Eq, Structural)]
pub enum Platform {
    /// jemalloc.
    Jemalloc,
    /// The system allocator over the C library.
    System,
    /// The system allocator over the Windows process heap.
    Windows,
}

impl Build {
    /// jemalloc serves a build that asks for it, except on Windows and OpenHarmony.
    pub open spec fn selects_jemalloc(self) -> bool {
        self.use_jemalloc && !(self.windows || self.ohos)
    }

    /// The C library serves a build that is not for Windows, on OpenHarmony or without jemalloc.
    pub open spec fn selects_system(self) -> bool {
        !self.windows && (self.ohos || !self.use_jemalloc)
    }

    /// The process heap serves a build for Windows.
    pub open spec fn selects_windows(self) -> bool {
        self.windows
    }

    /// The platform of this build.
    pub fn platform(self) -> (platform: Platform)
        ensures
            platform == Platform::Jemalloc <==> self.selects_jemalloc(),
            platform == Platform::System <==> self.selects_system(),
            platform == Platform::Windows <==> self.selects_windows(),
            platform == Platform::Windows <==> self.windows,
            platform == Platform::Jemalloc <==> self.use_jemalloc && !self.windows && !self.ohos,
    {
        if self.windows {
            Platform::Windows
        } else if self.use_jemalloc && !self.ohos {
            Platform::Jemalloc
        } else {
            Platform::System
        }
    }
}

/// Every build selects one platform, and no build selects two.
pub proof fn law_one_platform(build: Build)
    ensures
        build.selects_jemalloc() || build.selects_system() || build.selects_windows(),
        !(build.selects_jemalloc() && build.selects_system()),
        !(build.selects_jemalloc() && build.selects_windows()),
        !(build.selects_system() && build.selects_windows()),
{
}

/// Windows goes before everything else, and OpenHarmony before jemalloc, which serves every other
/// build that asks for it. Neither tracking nor the vendor has a part in it.
pub proof fn law_platform_by_target(build: Build)
    ensures
        build.windows ==> build.selects_windows() && !build.selects_jemalloc()
            && !build.selects_system(),
        !build.windows && build.ohos ==> build.selects_system() && !build.selects_jemalloc()
            && !build.selects_windows(),
        !build.windows && !build.ohos ==> !build.selects_windows() && (build.selects_jemalloc()
            <==> build.use_jemalloc) && (build.selects_system() <==> !build.use_jemalloc),
{
}

/// Whether allocations that nothing measured can be listed.
pub fn is_tracking_unmeasured(build: Build) -> (tracking: bool)
    ensures
        tracking == build.allocation_tracking,
{
    build.allocation_tracking
}

} // verus!
