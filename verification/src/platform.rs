//! The platform that the backend runs on.

use vstd::prelude::*;

verus! {

/// The operating systems that the backend tells apart.
#[derive(Clone, Copy, Debug, PartialEq, Eq, Structural)]
pub enum TargetOs {
    Android,
    Ios,
    Linux,
    MacOs,
    Windows,
    Other,
}

/// What the backend has to know of the platform.
#[derive(Clone, Copy, Debug, PartialEq, Eq, Structural)]
pub struct Platform {
    /// Whether the platform belongs to the Unix family.
    pub unix: bool,
    pub os: TargetOs,
}

impl Platform {
    /// Whether windows may come from X11 or Wayland.
    pub open spec fn is_desktop_unix(self) -> bool {
        self.unix && self.os != TargetOs::Android && self.os != TargetOs::MacOs
    }
}

} // verus!
