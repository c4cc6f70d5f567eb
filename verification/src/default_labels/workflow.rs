//! The workflow-status category: where an issue stands in triage and work.

use vstd::prelude::*;

use crate::default_labels::LabelConvertible;
use crate::default_labels::is_hex_color;

verus! {

/// The closed enumeration of workflow-status labels, in declaration order.
pub enum Label {
    Critical,
    DiscussionNeeded,
    GoodFirstIssue,
    HelpWanted,
    NeedsTriage,
    UpForGrabs,
}

impl LabelConvertible for Label {
    open spec fn spec_name(&self) -> Seq<char> {
        match self {
            Label::Critical => "workflow: critical"@,
            Label::DiscussionNeeded => "workflow: discussion-needed"@,
            Label::GoodFirstIssue => "workflow: good-first-issue"@,
            Label::HelpWanted => "workflow: help-wanted"@,
            Label::NeedsTriage => "workflow: needs-triage"@,
            Label::UpForGrabs => "workflow: up-for-grabs"@,
        }
    }

    open spec fn spec_description(&self) -> Seq<char> {
        match self {
            Label::Critical => "High-priority, severe impact issues."@,
            Label::DiscussionNeeded => "Requires collective decision-making."@,
            Label::GoodFirstIssue => "Suitable for new contributors."@,
            Label::HelpWanted => "Open call for community contributors."@,
            Label::NeedsTriage => "New, unaddressed issues for review."@,
            Label::UpForGrabs => "Ready for immediate work, not urgent."@,
        }
    }

    open spec fn spec_color(&self) -> Seq<char> {
        match self {
            Label::Critical => "B22222"@,
            Label::DiscussionNeeded => "6495ED"@,
            Label::GoodFirstIssue => "FF69B4"@,
            Label::HelpWanted => "DA70D6"@,
            Label::NeedsTriage => "40E0D0"@,
            Label::UpForGrabs => "FF8C00"@,
        }
    }

    fn name(&self) -> (r: &str) {
        match self {
            Label::Critical => "workflow: critical",
            Label::DiscussionNeeded => "workflow: discussion-needed",
            Label::GoodFirstIssue => "workflow: good-first-issue",
            Label::HelpWanted => "workflow: help-wanted",
            Label::NeedsTriage => "workflow: needs-triage",
            Label::UpForGrabs => "workflow: up-for-grabs",
        }
    }

    fn description(&self) -> (r: &str) {
        match self {
            Label::Critical => "High-priority, severe impact issues.",
            Label::DiscussionNeeded => "Requires collective decision-making.",
            Label::GoodFirstIssue => "Suitable for new contributors.",
            Label::HelpWanted => "Open call for community contributors.",
            Label::NeedsTriage => "New, unaddressed issues for review.",
            Label::UpForGrabs => "Ready for immediate work, not urgent.",
        }
    }

    fn color(&self) -> (r: &str) {
        proof {
            reveal_strlit("B22222");
            reveal_strlit("6495ED");
            reveal_strlit("FF69B4");
            reveal_strlit("DA70D6");
            reveal_strlit("40E0D0");
            reveal_strlit("FF8C00");
            assert(is_hex_color("B22222"@));
            assert(is_hex_color("6495ED"@));
            assert(is_hex_color("FF69B4"@));
            assert(is_hex_color("DA70D6"@));
            assert(is_hex_color("40E0D0"@));
            assert(is_hex_color("FF8C00"@));
        }
        match self {
            Label::Critical => "B22222",
            Label::DiscussionNeeded => "6495ED",
            Label::GoodFirstIssue => "FF69B4",
            Label::HelpWanted => "DA70D6",
            Label::NeedsTriage => "40E0D0",
            Label::UpForGrabs => "FF8C00",
        }
    }
}

} // verus!
