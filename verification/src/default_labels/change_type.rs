//! The change-type category: the conventional-commit kind of a change.

use vstd::prelude::*;

use crate::default_labels::LabelConvertible;
use crate::default_labels::is_hex_color;

verus! {

/// The closed enumeration of change-type labels, in declaration order.
pub enum Label {
    Build,
    Chore,
    Ci,
    Docs,
    Feat,
    Fix,
    Perf,
    Refactor,
    Revert,
    Style,
    Test,
}

impl LabelConvertible for Label {
    open spec fn spec_name(&self) -> Seq<char> {
        match self {
            Label::Build => "type: build"@,
            Label::Chore => "type: chore"@,
            Label::Ci => "type: ci"@,
            Label::Docs => "type: docs"@,
            Label::Feat => "type: feat"@,
            Label::Fix => "type: fix"@,
            Label::Perf => "type: perf"@,
            Label::Refactor => "type: refactor"@,
            Label::Revert => "type: revert"@,
            Label::Style => "type: style"@,
            Label::Test => "type: test"@,
        }
    }

    open spec fn spec_description(&self) -> Seq<char> {
        match self {
            Label::Build => "Changes to the code building process."@,
            Label::Chore => "Routine tasks and project maintenance."@,
            Label::Ci => "Adjustments in CI processes and tools."@,
            Label::Docs => "Exclusively for documentation updates."@,
            Label::Feat => "For new functionalities or significant enhancements."@,
            Label::Fix => "Used to correct and address software defects."@,
            Label::Perf => "Enhances efficiency and speed of existing features."@,
            Label::Refactor => "Internal code improvements without behavior change."@,
            Label::Revert => "Undoing previous code changes."@,
            Label::Style => "For non-functional code style improvements."@,
            Label::Test => "Related to adding or improving test cases."@,
        }
    }

    open spec fn spec_color(&self) -> Seq<char> {
        match self {
            Label::Build => "8B0000"@,
            Label::Chore => "FF4500"@,
            Label::Ci => "00CED1"@,
            Label::Docs => "9370DB"@,
            Label::Feat => "228B22"@,
            Label::Fix => "FF1493"@,
            Label::Perf => "4682B4"@,
            Label::Refactor => "D2691E"@,
            Label::Revert => "A52A2A"@,
            Label::Style => "FF6347"@,
            Label::Test => "2E8B57"@,
        }
    }

    fn name(&self) -> (r: &str) {
        match self {
            Label::Build => "type: build",
            Label::Chore => "type: chore",
            Label::Ci => "type: ci",
            Label::Docs => "type: docs",
            Label::Feat => "type: feat",
            Label::Fix => "type: fix",
            Label::Perf => "type: perf",
            Label::Refactor => "type: refactor",
            Label::Revert => "type: revert",
            Label::Style => "type: style",
            Label::Test => "type: test",
        }
    }

    fn description(&self) -> (r: &str) {
        match self {
            Label::Build => "Changes to the code building process.",
            Label::Chore => "Routine tasks and project maintenance.",
            Label::Ci => "Adjustments in CI processes and tools.",
            Label::Docs => "Exclusively for documentation updates.",
            Label::Feat => "For new functionalities or significant enhancements.",
            Label::Fix => "Used to correct and address software defects.",
            Label::Perf => "Enhances efficiency and speed of existing features.",
            Label::Refactor => "Internal code improvements without behavior change.",
            Label::Revert => "Undoing previous code changes.",
            Label::Style => "For non-functional code style improvements.",
            Label::Test => "Related to adding or improving test cases.",
        }
    }

    fn color(&self) -> (r: &str) {
        proof {
            reveal_strlit("8B0000");
            reveal_strlit("FF4500");
            reveal_strlit("00CED1");
            reveal_strlit("9370DB");
            reveal_strlit("228B22");
            reveal_strlit("FF1493");
            reveal_strlit("4682B4");
            reveal_strlit("D2691E");
            reveal_strlit("A52A2A");
            reveal_strlit("FF6347");
            reveal_strlit("2E8B57");
            assert(is_hex_color("8B0000"@));
            assert(is_hex_color("FF4500"@));
            assert(is_hex_color("00CED1"@));
            assert(is_hex_color("9370DB"@));
            assert(is_hex_color("228B22"@));
            assert(is_hex_color("FF1493"@));
            assert(is_hex_color("4682B4"@));
            assert(is_hex_color("D2691E"@));
            assert(is_hex_color("A52A2A"@));
            assert(is_hex_color("FF6347"@));
            assert(is_hex_color("2E8B57"@));
        }
        match self {
            Label::Build => "8B0000",
            Label::Chore => "FF4500",
            Label::Ci => "00CED1",
            Label::Docs => "9370DB",
            Label::Feat => "228B22",
            Label::Fix => "FF1493",
            Label::Perf => "4682B4",
            Label::Refactor => "D2691E",
            Label::Revert => "A52A2A",
            Label::Style => "FF6347",
            Label::Test => "2E8B57",
        }
    }
}

} // verus!
