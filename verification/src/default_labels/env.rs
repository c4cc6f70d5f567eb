//! The environment category: which operating systems an issue concerns.

use vstd::prelude::*;

use crate::default_labels::LabelConvertible;
use crate::default_labels::is_hex_color;

verus! {

/// The closed enumeration of environment labels, in declaration order.
pub enum Label {
    CrossPlatform,
    Linux,
    MacOS,
    Windows,
}

impl LabelConvertible for Label {
    open spec fn spec_name(&self) -> Seq<char> {
        match self {
            Label::CrossPlatform => "env: cross-platform"@,
            Label::Linux => "env: linux"@,
            Label::MacOS => "env: macos"@,
            Label::Windows => "env: windows"@,
        }
    }

    open spec fn spec_description(&self) -> Seq<char> {
        match self {
            Label::CrossPlatform => "Affects multiple operating systems."@,
            Label::Linux => "Pertaining to Linux-based systems."@,
            Label::MacOS => "Exclusively for macOS-related topics."@,
            Label::Windows => "Windows-specific issues or improvements."@,
        }
    }

    open spec fn spec_color(&self) -> Seq<char> {
        match self {
            Label::CrossPlatform => "FE6F5E"@,
            Label::Linux => "00FA9A"@,
            Label::MacOS => "6A5ACD"@,
            Label::Windows => "FFD700"@,
        }
    }

    fn name(&self) -> (r: &str) {
        match self {
            Label::CrossPlatform => "env: cross-platform",
            Label::Linux => "env: linux",
            Label::MacOS => "env: macos",
            Label::Windows => "env: windows",
        }
    }

    fn description(&self) -> (r: &str) {
        match self {
            Label::CrossPlatform => "Affects multiple operating systems.",
            Label::Linux => "Pertaining to Linux-based systems.",
            Label::MacOS => "Exclusively for macOS-related topics.",
            Label::Windows => "Windows-specific issues or improvements.",
        }
    }

    fn color(&self) -> (r: &str) {
        proof {
            reveal_strlit("FE6F5E");
            reveal_strlit("00FA9A");
            reveal_strlit("6A5ACD");
            reveal_strlit("FFD700");
            assert(is_hex_color("FE6F5E"@));
            assert(is_hex_color("00FA9A"@));
            assert(is_hex_color("6A5ACD"@));
            assert(is_hex_color("FFD700"@));
        }
        match self {
            Label::CrossPlatform => "FE6F5E",
            Label::Linux => "00FA9A",
            Label::MacOS => "6A5ACD",
            Label::Windows => "FFD700",
        }
    }
}

} // verus!
