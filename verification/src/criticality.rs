//! The severity model: a five-valued, totally ordered classification with a
//! case-insensitive text form and a structured form.

use core::cmp::Ordering;
use vstd::prelude::*;
use vstd::std_specs::cmp::PartialOrdSpec;
use vstd::string::StrSliceExecFns;

use crate::error::{parse_failure, Error};
use crate::text::owned;

verus! {

/// How severe a finding is, in ascending order.
#[derive(Debug, Clone, Copy, PartialEq, Eq, Ord, Hash, Structural)]
pub enum Criticality {
    /// Warning.
    Warning,
    /// Low criticality vulnerability.
    Low,
    /// Medium criticality vulnerability.
    Medium,
    /// High criticality vulnerability.
    High,
    /// Critical vulnerability.
    Critical,
}

/// A node of a structured document, as far as its type and scalar content go.
/// Numbers with a fraction and dates are held by their text.
#[derive(Debug, PartialEq, Eq)]
pub enum Node {
    /// A string.
    String(String),
    /// A whole number.
    Integer(i64),
    /// A number with a fraction, by its text.
    Float(String),
    /// A truth value.
    Boolean(bool),
    /// A date or a time, by its text.
    Datetime(String),
    /// A list of nodes.
    Array(Vec<Node>),
    /// Nodes by their keys, in the order of the document.
    Table(Vec<(String, Node)>),
}

/// A structured node that does not stand for a severity; it carries the
/// offending node.
#[derive(Debug, PartialEq, Eq)]
pub struct DeserializeError {
    pub value: Node,
}

/// The lowercase form of an ASCII capital; every other character is itself.
pub open spec fn lower(c: char) -> char {
    match c {
        'A' => 'a',
        'B' => 'b',
        'C' => 'c',
        'D' => 'd',
        'E' => 'e',
        'F' => 'f',
        'G' => 'g',
        'H' => 'h',
        'I' => 'i',
        'J' => 'j',
        'K' => 'k',
        'L' => 'l',
        'M' => 'm',
        'N' => 'n',
        'O' => 'o',
        'P' => 'p',
        'Q' => 'q',
        'R' => 'r',
        'S' => 's',
        'T' => 't',
        'U' => 'u',
        'V' => 'v',
        'W' => 'w',
        'X' => 'x',
        'Y' => 'y',
        'Z' => 'z',
        _ => c,
    }
}

/// `text` with every character replaced by its lowercase form.
pub open spec fn lowercase(text: Seq<char>) -> Seq<char> {
    Seq::new(text.len(), |i: int| lower(text[i]))
}

/// The severity that `text` names, if any: the one whose canonical name is
/// the lowercase form of `text`.
pub open spec fn parse(text: Seq<char>) -> Option<Criticality> {
    let folded = lowercase(text);
    if folded == Criticality::Warning.name() {
        Some(Criticality::Warning)
    } else if folded == Criticality::Low.name() {
        Some(Criticality::Low)
    } else if folded == Criticality::Medium.name() {
        Some(Criticality::Medium)
    } else if folded == Criticality::High.name() {
        Some(Criticality::High)
    } else if folded == Criticality::Critical.name() {
        Some(Criticality::Critical)
    } else {
        None
    }
}

/// The severity that a structured node stands for, if any: only a string
/// node that names one does.
pub open spec fn deserialized(node: Node) -> Option<Criticality> {
    match node {
        Node::String(text) => parse(text@),
        _ => None,
    }
}

impl Criticality {
    /// The position in the order: 0 for `Warning` up to 4 for `Critical`.
    pub open spec fn rank(self) -> int {
        match self {
            Criticality::Warning => 0,
            Criticality::Low => 1,
            Criticality::Medium => 2,
            Criticality::High => 3,
            Criticality::Critical => 4,
        }
    }

    /// Whether `self` is strictly less severe than `other`.
    pub open spec fn below(self, other: Criticality) -> bool {
        self.rank() < other.rank()
    }

    /// The canonical name: the variant's name in lowercase.
    pub open spec fn name(self) -> Seq<char> {
        match self {
            Criticality::Warning => "warning"@,
            Criticality::Low => "low"@,
            Criticality::Medium => "medium"@,
            Criticality::High => "high"@,
            Criticality::Critical => "critical"@,
        }
    }

    /// The position in the order.
    pub fn level(&self) -> (level: u8)
        ensures
            level == self.rank(),
    {
        match self {
            Criticality::Warning => 0,
            Criticality::Low => 1,
            Criticality::Medium => 2,
            Criticality::High => 3,
            Criticality::Critical => 4,
        }
    }

    /// The canonical name.
    pub fn as_str(&self) -> (name: &'static str)
        ensures
            name@ == self.name(),
    {
        match self {
            Criticality::Warning => "warning",
            Criticality::Low => "low",
            Criticality::Medium => "medium",
            Criticality::High => "high",
            Criticality::Critical => "critical",
        }
    }

    /// The text form: always the canonical name.
    pub fn to_string(&self) -> (text: String)
        ensures
            text@ == self.name(),
    {
        owned(self.as_str())
    }

    /// Reads a severity from text, ignoring letter case. Any text other than
    /// the five canonical names is refused with a parse error.
    pub fn from_str(text: &str) -> (result: Result<Criticality, Error>)
        ensures
            match parse(text@) {
                Some(severity) => result == Ok::<Criticality, Error>(severity),
                None => result is Err && result->Err_0@ == parse_failure(),
            },
    {
        proof {
            lemma_names_differ();
        }
        if names(text, Criticality::Critical) {
            Ok(Criticality::Critical)
        } else if names(text, Criticality::High) {
            Ok(Criticality::High)
        } else if names(text, Criticality::Medium) {
            Ok(Criticality::Medium)
        } else if names(text, Criticality::Low) {
            Ok(Criticality::Low)
        } else if names(text, Criticality::Warning) {
            Ok(Criticality::Warning)
        } else {
            Err(Error::parse())
        }
    }

    /// The structured form: a string node that holds the canonical name.
    pub fn serialize(&self) -> (node: Node)
        ensures
            node matches Node::String(text) && text@ == self.name(),
    {
        Node::String(self.to_string())
    }

    /// Reads a severity from a structured node. Only a string node that names
    /// a severity is accepted; any other node comes back inside the error.
    pub fn deserialize(node: Node) -> (result: Result<Criticality, DeserializeError>)
        ensures
            match deserialized(node) {
                Some(severity) => result == Ok::<Criticality, DeserializeError>(severity),
                None => result == Err::<Criticality, DeserializeError>(
                    (DeserializeError { value: node }),
                ),
            },
    {
        match node {
            Node::String(text) => {
                match Criticality::from_str(text.as_str()) {
                    Ok(severity) => Ok(severity),
                    Err(_) => Err(DeserializeError { value: Node::String(text) }),
                }
            },
            other => Err(DeserializeError { value: other }),
        }
    }
}

/// No two severities share a canonical name, and every canonical name is
/// its own lowercase form.
pub proof fn lemma_names_differ()
    ensures
        forall|a: Criticality, b: Criticality| #[trigger] a.name() == #[trigger] b.name() ==> a == b,
        forall|a: Criticality| lowercase(#[trigger] a.name()) == a.name(),
{
    reveal_strlit("warning");
    reveal_strlit("low");
    reveal_strlit("medium");
    reveal_strlit("high");
    reveal_strlit("critical");
    assert forall|a: Criticality, b: Criticality| #[trigger]
        a.name() == #[trigger] b.name() implies a == b by {
        if a != b {
            assert(a.name().len() != b.name().len() || a.name()[0] != b.name()[0]);
        }
    }
    assert forall|a: Criticality| lowercase(#[trigger] a.name()) == a.name() by {
        assert(lowercase(a.name()) =~= a.name());
    }
}

/// Parsing undoes formatting whatever the letter case: a text whose
/// lowercase form is the canonical name of a severity parses as that
/// severity, and that severity is written as that lowercase form.
pub proof fn law_parse_then_format(text: Seq<char>, severity: Criticality)
    requires
        lowercase(text) == severity.name(),
    ensures
        parse(text) == Some(severity),
        parse(severity.name()) == Some(severity),
        severity.name() == lowercase(text),
{
    lemma_names_differ();
}

/// A text is refused exactly when its lowercase form is none of the five
/// canonical names; what is accepted is the severity of that name.
pub proof fn law_parse_accepts_names_only(text: Seq<char>)
    ensures
        parse(text) is None <==> forall|severity: Criticality|
            lowercase(text) != #[trigger] severity.name(),
        parse(text) matches Some(severity) ==> severity.name() == lowercase(text),
        text.len() == 0 ==> parse(text) is None,
{
    lemma_names_differ();
    if parse(text) is None {
        assert forall|severity: Criticality| lowercase(text) != #[trigger] severity.name() by {
            match severity {
                Criticality::Warning => {},
                Criticality::Low => {},
                Criticality::Medium => {},
                Criticality::High => {},
                Criticality::Critical => {},
            }
        }
    } else {
        assert(lowercase(text) == parse(text)->0.name());
    }
    if text.len() == 0 {
        reveal_strlit("warning");
        reveal_strlit("low");
        reveal_strlit("medium");
        reveal_strlit("high");
        reveal_strlit("critical");
        assert forall|severity: Criticality| lowercase(text) != #[trigger] severity.name() by {
            assert(severity.name().len() > 0);
        }
    }
}

/// The order is total and strict, and it is the order of the ranks:
/// `Warning < Low < Medium < High < Critical` and no other relation holds.
pub proof fn law_total_order(a: Criticality, b: Criticality, c: Criticality)
    ensures
        Criticality::Warning.below(Criticality::Low),
        Criticality::Low.below(Criticality::Medium),
        Criticality::Medium.below(Criticality::High),
        Criticality::High.below(Criticality::Critical),
        !a.below(a),
        a.below(b) ==> !b.below(a),
        a.below(b) && b.below(c) ==> a.below(c),
        a.below(b) || a == b || b.below(a),
        a.below(b) <==> a.partial_cmp_spec(&b) == Some(Ordering::Less),
        a == b <==> a.partial_cmp_spec(&b) == Some(Ordering::Equal),
        b.below(a) <==> a.partial_cmp_spec(&b) == Some(Ordering::Greater),
        0 <= a.rank() <= 4,
        a.rank() == b.rank() ==> a == b,
{
}

/// The structured form reads back as the severity it was written from, and
/// no node but a string node reads as a severity.
pub proof fn law_structured_round_trip(severity: Criticality, node: Node)
    ensures
        node matches Node::String(text) && text@ == severity.name() ==> deserialized(node) == Some(
            severity,
        ),
        !(node is String) ==> deserialized(node) is None,
{
    lemma_names_differ();
}

/// The lowercase form of `c`.
fn to_lower(c: char) -> (folded: char)
    ensures
        folded == lower(c),
{
    match c {
        'A' => 'a',
        'B' => 'b',
        'C' => 'c',
        'D' => 'd',
        'E' => 'e',
        'F' => 'f',
        'G' => 'g',
        'H' => 'h',
        'I' => 'i',
        'J' => 'j',
        'K' => 'k',
        'L' => 'l',
        'M' => 'm',
        'N' => 'n',
        'O' => 'o',
        'P' => 'p',
        'Q' => 'q',
        'R' => 'r',
        'S' => 's',
        'T' => 't',
        'U' => 'u',
        'V' => 'v',
        'W' => 'w',
        'X' => 'x',
        'Y' => 'y',
        'Z' => 'z',
        _ => c,
    }
}

/// Whether `text`, letter case aside, is the canonical name of `severity`.
fn names(text: &str, severity: Criticality) -> (same: bool)
    ensures
        same == (lowercase(text@) == severity.name()),
{
    let name = severity.as_str();
    let length = name.unicode_len();
    if text.unicode_len() != length {
        return false;
    }
    let mut i: usize = 0;
    while i < length
        invariant
            i <= length,
            length == name@.len(),
            length == text@.len(),
            name@ == severity.name(),
            forall|j: int| 0 <= j < i ==> lower(text@[j]) == name@[j],
        decreases length - i,
    {
        if to_lower(text.get_char(i)) != name.get_char(i) {
            assert(lowercase(text@)[i as int] != name@[i as int]);
            return false;
        }
        i = i + 1;
    }
    assert(lowercase(text@) =~= name@);
    true
}

impl PartialOrd for Criticality {
    fn partial_cmp(&self, other: &Criticality) -> (order: Option<Ordering>) {
        let a = self.level();
        let b = other.level();
        if a < b {
            Some(Ordering::Less)
        } else if a > b {
            Some(Ordering::Greater)
        } else {
            Some(Ordering::Equal)
        }
    }
}

impl vstd::std_specs::cmp::PartialOrdSpecImpl for Criticality {
    open spec fn obeys_partial_cmp_spec() -> bool {
        true
    }

    open spec fn partial_cmp_spec(&self, other: &Criticality) -> Option<Ordering> {
        if self.rank() < other.rank() {
            Some(Ordering::Less)
        } else if self.rank() > other.rank() {
            Some(Ordering::Greater)
        } else {
            Some(Ordering::Equal)
        }
    }
}

} // verus!
