//! Scene options: the build quality and flags that shape the acceleration
//! structure, and which of them a new scene must have set.
use vstd::prelude::*;

verus! {

/// Trade-off between build time and traversal speed of the acceleration structure.
#[derive(Clone, Copy, Debug, PartialEq, Eq, Structural)]
pub enum BuildQuality {
    Low,
    Medium,
    High,
    Refit,
}

/// The kernel's default build quality.
pub open spec fn spec_default_quality() -> BuildQuality {
    BuildQuality::Medium
}

/// Bit of a dynamic scene, one that is changed between commits.
pub const SCENE_FLAG_DYNAMIC: u32 = 1;

/// Bit of a scene built to use less memory.
pub const SCENE_FLAG_COMPACT: u32 = 2;

/// Bit of a scene built to avoid missing hits at edges.
pub const SCENE_FLAG_ROBUST: u32 = 4;

/// Bit of a scene whose filter functions are passed in the query arguments.
pub const SCENE_FLAG_FILTER_FUNCTION_IN_ARGUMENTS: u32 = 8;

/// A set of scene flags, as the kernel's bit mask.
#[derive(Clone, Copy, Debug, PartialEq, Eq, Structural)]
pub struct SceneFlags {
    pub bits: u32,
}

impl SceneFlags {
    /// The flags of `self` and of `other` together.
    pub fn union(self, other: SceneFlags) -> (r: SceneFlags)
        ensures
            r.bits == self.bits | other.bits,
    {
        SceneFlags { bits: self.bits | other.bits }
    }

    /// Whether every flag of `other` is set in `self`.
    pub fn contains(self, other: SceneFlags) -> (r: bool)
        ensures
            r == (self.bits & other.bits == other.bits),
    {
        self.bits & other.bits == other.bits
    }
}

/// How a new scene is configured.
#[derive(Clone, Copy, Debug, PartialEq, Eq, Structural)]
pub struct SceneOptions {
    pub build_quality: BuildQuality,
    pub flags: SceneFlags,
}

impl Default for SceneOptions {
    /// The kernel's defaults: medium quality, no flags.
    fn default() -> (r: SceneOptions)
        ensures
            r.build_quality == spec_default_quality(),
            r.flags.bits == 0,
    {
        SceneOptions { build_quality: BuildQuality::Medium, flags: SceneFlags { bits: 0 } }
    }
}

impl SceneOptions {
    /// The settings that a new scene must be given explicitly: the build
    /// quality if it is not the default one, the flags if any is set.
    pub fn pending_settings(&self) -> (r: (Option<BuildQuality>, Option<SceneFlags>))
        ensures
            r.0 == (if self.build_quality == spec_default_quality() {
                None
            } else {
                Some(self.build_quality)
            }),
            r.1 == (if self.flags.bits == 0 {
                None
            } else {
                Some(self.flags)
            }),
    {
        let quality = if self.build_quality == BuildQuality::Medium {
            None
        } else {
            Some(self.build_quality)
        };
        let flags = if self.flags.bits == 0 {
            None
        } else {
            Some(self.flags)
        };
        (quality, flags)
    }
}

} // verus!
