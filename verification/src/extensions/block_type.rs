//! The types of custom blocks, and the classification of labels.

use crate::error::{ErrorKind, MarkdownError};
use crate::text::to_chars;
use vstd::prelude::*;
use vstd::string::StringExecFns;

verus! {

/// Represents different types of custom blocks.
#[derive(Debug, Clone, Copy, PartialEq, Eq, Structural)]
pub enum CustomBlockType {
    /// A note block.
    Note,
    /// A warning block.
    Warning,
    /// A tip block.
    Tip,
    /// An info block.
    Info,
    /// An important block.
    Important,
    /// A caution block.
    Caution,
}

impl CustomBlockType {
    /// The alert style class of this block type.
    pub open spec fn alert_class(self) -> Seq<char> {
        match self {
            CustomBlockType::Note => "alert-info"@,
            CustomBlockType::Warning => "alert-warning"@,
            CustomBlockType::Tip => "alert-success"@,
            CustomBlockType::Info => "alert-primary"@,
            CustomBlockType::Important => "alert-danger"@,
            CustomBlockType::Caution => "alert-secondary"@,
        }
    }

    /// The display title of this block type.
    pub open spec fn title(self) -> Seq<char> {
        match self {
            CustomBlockType::Note => "Note"@,
            CustomBlockType::Warning => "Warning"@,
            CustomBlockType::Tip => "Tip"@,
            CustomBlockType::Info => "Info"@,
            CustomBlockType::Important => "Important"@,
            CustomBlockType::Caution => "Caution"@,
        }
    }

    /// The label by which this block type is named, in lower case.
    pub open spec fn label(self) -> Seq<char> {
        match self {
            CustomBlockType::Note => "note"@,
            CustomBlockType::Warning => "warning"@,
            CustomBlockType::Tip => "tip"@,
            CustomBlockType::Info => "info"@,
            CustomBlockType::Important => "important"@,
            CustomBlockType::Caution => "caution"@,
        }
    }

    /// Returns the alert style class for the custom block type.
    pub fn get_alert_class(&self) -> (class: &'static str)
        ensures
            class@ == self.alert_class(),
    {
        match self {
            CustomBlockType::Note => "alert-info",
            CustomBlockType::Warning => "alert-warning",
            CustomBlockType::Tip => "alert-success",
            CustomBlockType::Info => "alert-primary",
            CustomBlockType::Important => "alert-danger",
            CustomBlockType::Caution => "alert-secondary",
        }
    }

    /// Returns the title for the custom block type.
    pub fn get_title(&self) -> (title: &'static str)
        ensures
            title@ == self.title(),
    {
        match self {
            CustomBlockType::Note => "Note",
            CustomBlockType::Warning => "Warning",
            CustomBlockType::Tip => "Tip",
            CustomBlockType::Info => "Info",
            CustomBlockType::Important => "Important",
            CustomBlockType::Caution => "Caution",
        }
    }
}

/// A letter of `A` to `Z` as the same letter of `a` to `z`; any other
/// character as itself.
pub open spec fn lower(c: char) -> char {
    if 'A' <= c && c <= 'Z' {
        ((c as u8) + 32) as char
    } else {
        c
    }
}

/// A text with each of its characters in lower case.
pub open spec fn lowered(s: Seq<char>) -> Seq<char> {
    Seq::new(s.len(), |i: int| lower(s[i]))
}

/// The block type that a label names. Upper and lower case are not told
/// apart.
pub open spec fn kind_named(label: Seq<char>) -> Option<CustomBlockType> {
    let l = lowered(label);
    if l == CustomBlockType::Note.label() {
        Some(CustomBlockType::Note)
    } else if l == CustomBlockType::Warning.label() {
        Some(CustomBlockType::Warning)
    } else if l == CustomBlockType::Tip.label() {
        Some(CustomBlockType::Tip)
    } else if l == CustomBlockType::Info.label() {
        Some(CustomBlockType::Info)
    } else if l == CustomBlockType::Important.label() {
        Some(CustomBlockType::Important)
    } else if l == CustomBlockType::Caution.label() {
        Some(CustomBlockType::Caution)
    } else {
        None
    }
}

/// The detail of the error for a label that names no block type.
pub open spec fn unknown_label_detail(label: Seq<char>) -> Seq<char> {
    "Unknown block type: "@ + label
}

/// What classifying a label yields: the block type that it names, or an
/// error of kind `CustomBlock` that names the label.
pub open spec fn classified(label: Seq<char>) -> Result<CustomBlockType, (ErrorKind, Seq<char>)> {
    match kind_named(label) {
        Some(kind) => Ok(kind),
        None => Err((ErrorKind::CustomBlock, unknown_label_detail(label))),
    }
}

/// The view of the result of a classification.
pub open spec fn classification_view(r: Result<CustomBlockType, MarkdownError>) -> Result<
    CustomBlockType,
    (ErrorKind, Seq<char>),
> {
    match r {
        Ok(kind) => Ok(kind),
        Err(e) => Err(e@),
    }
}

/// Labels that differ in the case of their letters alone name the same
/// block type, or both name none.
pub proof fn lemma_classification_ignores_case(a: Seq<char>, b: Seq<char>)
    requires
        lowered(a) == lowered(b),
    ensures
        kind_named(a) == kind_named(b),
{
}

/// Computes the lower-case form of a character.
fn to_lower(c: char) -> (r: char)
    ensures
        r == lower(c),
{
    if 'A' <= c && c <= 'Z' {
        ((c as u8) + 32) as char
    } else {
        c
    }
}

/// Whether `label`, letter case aside, reads `name`.
fn reads(label: &Vec<char>, name: &str) -> (b: bool)
    ensures
        b == (lowered(label@) == name@),
{
    let expected = to_chars(name);
    assert(lowered(label@).len() == label@.len());
    if label.len() != expected.len() {
        return false;
    }
    let mut i: usize = 0;
    while i < label.len()
        invariant
            i <= label.len(),
            label.len() == expected.len(),
            expected@ == name@,
            forall|j: int| 0 <= j < i ==> lower(label@[j]) == expected@[j],
        decreases label.len() - i,
    {
        if to_lower(label[i]) != expected[i] {
            assert(lowered(label@)[i as int] != expected@[i as int]);
            return false;
        }
        i += 1;
    }
    assert(lowered(label@) =~= expected@);
    true
}

/// Finds the block type that a label names.
pub fn kind_of(label: &Vec<char>) -> (kind: Option<CustomBlockType>)
    ensures
        kind == kind_named(label@),
{
    if reads(label, "note") {
        Some(CustomBlockType::Note)
    } else if reads(label, "warning") {
        Some(CustomBlockType::Warning)
    } else if reads(label, "tip") {
        Some(CustomBlockType::Tip)
    } else if reads(label, "info") {
        Some(CustomBlockType::Info)
    } else if reads(label, "important") {
        Some(CustomBlockType::Important)
    } else if reads(label, "caution") {
        Some(CustomBlockType::Caution)
    } else {
        None
    }
}

impl CustomBlockType {
    /// Classifies a label: the block type that it names, or an error of kind
    /// `CustomBlock` for a label that names none.
    pub fn from_str(block_type: &str) -> (r: Result<CustomBlockType, MarkdownError>)
        ensures
            classification_view(r) == classified(block_type@),
    {
        match kind_of(&to_chars(block_type)) {
            Some(kind) => Ok(kind),
            None => {
                let mut detail = String::from_str("Unknown block type: ");
                detail.append(block_type);
                Err(MarkdownError::CustomBlockError(detail))
            },
        }
    }
}

impl core::str::FromStr for CustomBlockType {
    type Err = MarkdownError;

    /// Classifies a label, as the associated function of the same name does:
    /// the block type that the label names, letter case aside, or an error
    /// of kind `CustomBlock` that names the label.
    fn from_str(block_type: &str) -> (r: Result<CustomBlockType, MarkdownError>)
        ensures
            classification_view(r) == classified(block_type@),
    {
        CustomBlockType::from_str(block_type)
    }
}

} // verus!
