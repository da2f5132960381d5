//! The closed set of host platforms the prober knows default locations for.

use crate::text::same_text;
use vstd::prelude::*;

verus! {

/// Host platform tag.
#[derive(Clone, Copy, Debug, PartialEq, Eq, Structural)]
pub enum Platform {
    Windows,
    Macos,
    Linux,
    Other,
}

impl Platform {
    /// Number of default candidate locations known for this platform.
    pub open spec fn candidate_count(self) -> nat {
        match self {
            Platform::Other => 0,
            _ => 2,
        }
    }

    /// The platform that the operating system name `os` stands for.
    pub open spec fn of_os_name(os: Seq<char>) -> Platform {
        if os == "windows"@ {
            Platform::Windows
        } else if os == "macos"@ {
            Platform::Macos
        } else if os == "linux"@ {
            Platform::Linux
        } else {
            Platform::Other
        }
    }

    /// Reads the platform off an operating system name as the compiler
    /// spells it; every name but `windows`, `macos` and `linux` is
    /// [`Platform::Other`].
    pub fn from_os_name(os: &str) -> (platform: Platform)
        ensures
            platform == Platform::of_os_name(os@),
    {
        if same_text(os, "windows") {
            Platform::Windows
        } else if same_text(os, "macos") {
            Platform::Macos
        } else if same_text(os, "linux") {
            Platform::Linux
        } else {
            Platform::Other
        }
    }
}

} // verus!
