//! The taxonomy registry and the label converter.
//!
//! Three closed categories of label definitions (environment, change-type,
//! workflow-status) expose the capability set `{name, description, color}`
//! through [`LabelConvertible`]; [`convert`] turns any variant into a uniform
//! [`Label`] record; [`create_labels`] yields the whole canonical set in its
//! fixed category and declaration order.

use vstd::prelude::*;

pub mod change_type;
pub mod env;
pub mod workflow;

pub use change_type::Label as TypeLabel;
pub use env::Label as EnvLabel;
pub use workflow::Label as WorkflowLabel;

verus! {

/// The mathematical model of a label record: each field as its character
/// sequence.
pub ghost struct LabelView {
    pub name: Seq<char>,
    pub description: Seq<char>,
    pub color: Seq<char>,
}

/// One upper-case hexadecimal digit, as the color fields use them.
pub open spec fn is_upper_hex_digit(c: char) -> bool {
    ('0' as u32 <= c as u32 && c as u32 <= '9' as u32) || ('A' as u32 <= c as u32 && c as u32
        <= 'F' as u32)
}

/// A well-formed color: exactly six upper-case hexadecimal digits.
pub open spec fn is_hex_color(s: Seq<char>) -> bool {
    s.len() == 6 && (forall|i: int| 0 <= i < 6 ==> is_upper_hex_digit(#[trigger] s[i]))
}

/// The capability set every taxonomy variant offers: a name, a description
/// and a six-digit upper-case hexadecimal color.
pub trait LabelConvertible {
    spec fn spec_name(&self) -> Seq<char>;

    spec fn spec_description(&self) -> Seq<char>;

    spec fn spec_color(&self) -> Seq<char>;

    fn name(&self) -> (r: &str)
        ensures
            r@ == self.spec_name(),
    ;

    fn description(&self) -> (r: &str)
        ensures
            r@ == self.spec_description(),
    ;

    fn color(&self) -> (r: &str)
        ensures
            r@ == self.spec_color(),
            is_hex_color(r@),
    ;
}

/// A canonical label record. Immutable once constructed; `name` is the
/// uniqueness key of the canonical set.
pub struct Label {
    name: String,
    description: String,
    color: String,
}

impl View for Label {
    type V = LabelView;

    closed spec fn view(&self) -> LabelView {
        LabelView { name: self.name@, description: self.description@, color: self.color@ }
    }
}

impl Label {
    pub fn name(&self) -> (r: &str)
        ensures
            r@ == self@.name,
    {
        self.name.as_str()
    }

    pub fn description(&self) -> (r: &str)
        ensures
            r@ == self@.description,
    {
        self.description.as_str()
    }

    pub fn color(&self) -> (r: &str)
        ensures
            r@ == self@.color,
    {
        self.color.as_str()
    }
}

impl PartialEq for Label {
    fn eq(&self, other: &Label) -> (r: bool) {
        self.name == other.name && self.description == other.description && self.color
            == other.color
    }
}

impl vstd::std_specs::cmp::PartialEqSpecImpl for Label {
    open spec fn obeys_eq_spec() -> bool {
        true
    }

    open spec fn eq_spec(&self, other: &Label) -> bool {
        self@ == other@
    }
}

/// The record a taxonomy variant converts to, as a mathematical value.
pub open spec fn label_model<T: LabelConvertible>(variant: &T) -> LabelView {
    LabelView {
        name: variant.spec_name(),
        description: variant.spec_description(),
        color: variant.spec_color(),
    }
}

/// The label converter: total and deterministic, no side effects. The result
/// is pinned field for field by `label_model`, so two calls on the same
/// variant yield field-equal records.
pub fn convert<T: LabelConvertible>(variant: &T) -> (r: Label)
    ensures
        r@ == label_model(variant),
{
    Label {
        name: variant.name().to_owned(),
        description: variant.description().to_owned(),
        color: variant.color().to_owned(),
    }
}

/// The canonical set: every variant of every category, in fixed category
/// order (environment, change-type, workflow-status) and declaration order
/// within a category. 4 + 11 + 6 = 21 entries.
pub open spec fn canonical_labels() -> Seq<LabelView> {
    seq![
        label_model(&EnvLabel::CrossPlatform),
        label_model(&EnvLabel::Linux),
        label_model(&EnvLabel::MacOS),
        label_model(&EnvLabel::Windows),
        label_model(&TypeLabel::Build),
        label_model(&TypeLabel::Chore),
        label_model(&TypeLabel::Ci),
        label_model(&TypeLabel::Docs),
        label_model(&TypeLabel::Feat),
        label_model(&TypeLabel::Fix),
        label_model(&TypeLabel::Perf),
        label_model(&TypeLabel::Refactor),
        label_model(&TypeLabel::Revert),
        label_model(&TypeLabel::Style),
        label_model(&TypeLabel::Test),
        label_model(&WorkflowLabel::Critical),
        label_model(&WorkflowLabel::DiscussionNeeded),
        label_model(&WorkflowLabel::GoodFirstIssue),
        label_model(&WorkflowLabel::HelpWanted),
        label_model(&WorkflowLabel::NeedsTriage),
        label_model(&WorkflowLabel::UpForGrabs),
    ]
}

/// Builds the whole canonical set as label records, in the order `create`
/// calls are to be issued.
pub fn create_labels() -> (r: Vec<Label>)
    ensures
        r@.len() == canonical_labels().len(),
        forall|i: int| 0 <= i < r@.len() ==> (#[trigger] r@[i])@ == canonical_labels()[i],
{
    let mut labels: Vec<Label> = Vec::new();
    labels.push(convert(&EnvLabel::CrossPlatform));
    labels.push(convert(&EnvLabel::Linux));
    labels.push(convert(&EnvLabel::MacOS));
    labels.push(convert(&EnvLabel::Windows));
    labels.push(convert(&TypeLabel::Build));
    labels.push(convert(&TypeLabel::Chore));
    labels.push(convert(&TypeLabel::Ci));
    labels.push(convert(&TypeLabel::Docs));
    labels.push(convert(&TypeLabel::Feat));
    labels.push(convert(&TypeLabel::Fix));
    labels.push(convert(&TypeLabel::Perf));
    labels.push(convert(&TypeLabel::Refactor));
    labels.push(convert(&TypeLabel::Revert));
    labels.push(convert(&TypeLabel::Style));
    labels.push(convert(&TypeLabel::Test));
    labels.push(convert(&WorkflowLabel::Critical));
    labels.push(convert(&WorkflowLabel::DiscussionNeeded));
    labels.push(convert(&WorkflowLabel::GoodFirstIssue));
    labels.push(convert(&WorkflowLabel::HelpWanted));
    labels.push(convert(&WorkflowLabel::NeedsTriage));
    labels.push(convert(&WorkflowLabel::UpForGrabs));
    labels
}

/// The canonical label record at position `i` of the fixed order.
pub fn canonical_label_at(i: usize) -> (r: Label)
    requires
        i < canonical_labels().len(),
    ensures
        r@ == canonical_labels()[i as int],
{
    let mut labels = create_labels();
    labels.remove(i)
}

/// A fingerprint that tells the 21 canonical names apart: the category by the
/// first character, then the length, then one distinguishing character. Maps
/// each canonical name to its position in the canonical order, and anything
/// else to -1.
spec fn name_fingerprint(s: Seq<char>) -> int {
    if s.len() == 0 {
        -1
    } else if s[0] == 'e' {
        if s.len() == 19 {
            0
        } else if s.len() == 10 {
            if s[5] == 'l' {
                1
            } else {
                2
            }
        } else if s.len() == 12 {
            3
        } else {
            -1
        }
    } else if s[0] == 't' {
        if s.len() == 11 {
            if s[6] == 'b' {
                4
            } else if s[6] == 'c' {
                5
            } else {
                13
            }
        } else if s.len() == 8 {
            6
        } else if s.len() == 10 {
            if s[6] == 'd' {
                7
            } else if s[6] == 'f' {
                8
            } else if s[6] == 'p' {
                10
            } else {
                14
            }
        } else if s.len() == 9 {
            9
        } else if s.len() == 14 {
            11
        } else if s.len() == 12 {
            12
        } else {
            -1
        }
    } else if s[0] == 'w' {
        if s.len() == 18 {
            15
        } else if s.len() == 27 {
            16
        } else if s.len() == 26 {
            17
        } else if s.len() == 21 {
            18
        } else if s.len() == 22 {
            if s[10] == 'n' {
                19
            } else {
                20
            }
        } else {
            -1
        }
    } else {
        -1
    }
}

/// The canonical set holds exactly 21 labels, and no two of them share a
/// name, across all three categories.
pub proof fn lemma_canonical_names_distinct()
    ensures
        canonical_labels().len() == 21,
        forall|i: int, j: int|
            0 <= i < j < canonical_labels().len() ==> canonical_labels()[i].name
                != canonical_labels()[j].name,
{
    reveal_strlit("env: cross-platform");
    reveal_strlit("env: linux");
    reveal_strlit("env: macos");
    reveal_strlit("env: windows");
    reveal_strlit("type: build");
    reveal_strlit("type: chore");
    reveal_strlit("type: ci");
    reveal_strlit("type: docs");
    reveal_strlit("type: feat");
    reveal_strlit("type: fix");
    reveal_strlit("type: perf");
    reveal_strlit("type: refactor");
    reveal_strlit("type: revert");
    reveal_strlit("type: style");
    reveal_strlit("type: test");
    reveal_strlit("workflow: critical");
    reveal_strlit("workflow: discussion-needed");
    reveal_strlit("workflow: good-first-issue");
    reveal_strlit("workflow: help-wanted");
    reveal_strlit("workflow: needs-triage");
    reveal_strlit("workflow: up-for-grabs");
    let names = canonical_labels();
    assert forall|i: int| 0 <= i < 21 implies name_fingerprint(names[i].name) == i by {
        if i == 0 {
            assert(name_fingerprint(names[0].name) == 0);
        } else if i == 1 {
            assert(name_fingerprint(names[1].name) == 1);
        } else if i == 2 {
            assert(name_fingerprint(names[2].name) == 2);
        } else if i == 3 {
            assert(name_fingerprint(names[3].name) == 3);
        } else if i == 4 {
            assert(name_fingerprint(names[4].name) == 4);
        } else if i == 5 {
            assert(name_fingerprint(names[5].name) == 5);
        } else if i == 6 {
            assert(name_fingerprint(names[6].name) == 6);
        } else if i == 7 {
            assert(name_fingerprint(names[7].name) == 7);
        } else if i == 8 {
            assert(name_fingerprint(names[8].name) == 8);
        } else if i == 9 {
            assert(name_fingerprint(names[9].name) == 9);
        } else if i == 10 {
            assert(name_fingerprint(names[10].name) == 10);
        } else if i == 11 {
            assert(name_fingerprint(names[11].name) == 11);
        } else if i == 12 {
            assert(name_fingerprint(names[12].name) == 12);
        } else if i == 13 {
            assert(name_fingerprint(names[13].name) == 13);
        } else if i == 14 {
            assert(name_fingerprint(names[14].name) == 14);
        } else if i == 15 {
            assert(name_fingerprint(names[15].name) == 15);
        } else if i == 16 {
            assert(name_fingerprint(names[16].name) == 16);
        } else if i == 17 {
            assert(name_fingerprint(names[17].name) == 17);
        } else if i == 18 {
            assert(name_fingerprint(names[18].name) == 18);
        } else if i == 19 {
            assert(name_fingerprint(names[19].name) == 19);
        } else {
            assert(name_fingerprint(names[20].name) == 20);
        }
    }
    assert forall|i: int, j: int|
        0 <= i < j < canonical_labels().len() implies canonical_labels()[i].name
        != canonical_labels()[j].name by {
        assert(name_fingerprint(names[i].name) == i);
        assert(name_fingerprint(names[j].name) == j);
    }
}

/// Every color of the canonical set is six upper-case hexadecimal digits.
pub proof fn lemma_canonical_colors_hex()
    ensures
        forall|i: int|
            0 <= i < canonical_labels().len() ==> is_hex_color(
                #[trigger] canonical_labels()[i].color,
            ),
{
    reveal_strlit("FE6F5E");
    reveal_strlit("00FA9A");
    reveal_strlit("6A5ACD");
    reveal_strlit("FFD700");
    reveal_strlit("8B0000");
    reveal_strlit("FF4500");
    reveal_strlit("00CED1");
    reveal_strlit("9370DB");
    reveal_strlit("228B22");
    reveal_strlit("FF1493");
    reveal_strlit("4682B4");
    reveal_strlit("D2691E");
    reveal_strlit("A52A2A");
    reveal_strlit("FF6347");
    reveal_strlit("2E8B57");
    reveal_strlit("B22222");
    reveal_strlit("6495ED");
    reveal_strlit("FF69B4");
    reveal_strlit("DA70D6");
    reveal_strlit("40E0D0");
    reveal_strlit("FF8C00");
}

/// Converting the same variant twice yields field-for-field equal labels:
/// both results equal `label_model` of the variant, hence each other.
pub proof fn lemma_convert_deterministic<T: LabelConvertible>(variant: &T, l1: Label, l2: Label)
    requires
        l1@ == label_model(variant),
        l2@ == label_model(variant),
    ensures
        l1@.name == l2@.name,
        l1@.description == l2@.description,
        l1@.color == l2@.color,
{
}

} // verus!
