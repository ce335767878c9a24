//! The three pathways and the rules that assign an interval to one of them.

use vstd::prelude::*;
use crate::error::MEMEkError;
use crate::text::{contains, lowercase_of, mentions, to_lowercase};

verus! {

/// The way a claim resolves the interval.
#[derive(Clone, Copy, Debug, PartialEq, Eq, Structural)]
pub enum Pathway {
    /// The interval is an augmented second.
    A,
    /// The interval is a minor third.
    B,
    /// The interval is both at once.
    C,
}

impl Pathway {
    /// The reward of each pathway, in token units.
    pub open spec fn reward_of(self) -> u64 {
        match self {
            Pathway::A => 65,
            Pathway::B => 65,
            Pathway::C => 165,
        }
    }

    /// The label of each pathway.
    pub open spec fn label_of(self) -> Seq<char> {
        match self {
            Pathway::A => "Pathway A: Augmented Second"@,
            Pathway::B => "Pathway B: Minor Third"@,
            Pathway::C => "Pathway C: Janus Mode"@,
        }
    }

    /// The token units that a claim on this pathway earns.
    pub fn reward(&self) -> (units: u64)
        ensures
            units == self.reward_of(),
    {
        match self {
            Pathway::A => 65,
            Pathway::B => 65,
            Pathway::C => 165,
        }
    }

    /// The name under which the pathway is reported.
    pub fn label(&self) -> (name: &'static str)
        ensures
            name@ == self.label_of(),
    {
        match self {
            Pathway::A => "Pathway A: Augmented Second",
            Pathway::B => "Pathway B: Minor Third",
            Pathway::C => "Pathway C: Janus Mode",
        }
    }
}

/// The pathway of an interval text given in lowercase, by the first rule that
/// applies; `None` where no rule does.
pub open spec fn pathway_of(interval: Seq<char>) -> Option<Pathway> {
    if mentions(interval, "augmented") {
        Some(Pathway::A)
    } else if mentions(interval, "minor") && !mentions(interval, "both") {
        Some(Pathway::B)
    } else if mentions(interval, "both") || mentions(interval, "superposition") || mentions(
        interval,
        "janus",
    ) {
        Some(Pathway::C)
    } else {
        None
    }
}

/// What classifying an interval text in lowercase returns.
pub open spec fn classification(interval: Seq<char>) -> Result<Pathway, MEMEkError> {
    match pathway_of(interval) {
        Some(pathway) => Ok(pathway),
        None => Err(MEMEkError::UnrecognizedInterpretation),
    }
}

/// An interval text that mentions "augmented" is on pathway A, whatever else
/// it mentions.
pub proof fn lemma_augmented_comes_first(interval: Seq<char>)
    requires
        mentions(interval, "augmented"),
    ensures
        pathway_of(interval) == Some(Pathway::A),
{
}

/// An interval text that mentions both "minor" and "both" is never on
/// pathway B: it is on pathway A if it mentions "augmented", else on C.
pub proof fn lemma_both_excludes_minor_third(interval: Seq<char>)
    requires
        mentions(interval, "minor"),
        mentions(interval, "both"),
    ensures
        pathway_of(interval) != Some(Pathway::B),
        pathway_of(interval) == Some(
            if mentions(interval, "augmented") {
                Pathway::A
            } else {
                Pathway::C
            },
        ),
{
}

/// Classifies an interval text that is already in lowercase.
pub fn classify_lowered(interval: &str) -> (result: Result<Pathway, MEMEkError>)
    ensures
        result == classification(interval@),
{
    if contains(interval, "augmented") {
        Ok(Pathway::A)
    } else if contains(interval, "minor") && !contains(interval, "both") {
        Ok(Pathway::B)
    } else if contains(interval, "both") || contains(interval, "superposition") || contains(
        interval,
        "janus",
    ) {
        Ok(Pathway::C)
    } else {
        Err(MEMEkError::UnrecognizedInterpretation)
    }
}

/// Classifies the interval of a claim, ignoring case.
pub fn classify_pathway(interval_name: &str) -> (result: Result<Pathway, MEMEkError>)
    ensures
        result == classification(lowercase_of(interval_name@)),
{
    let interval_lower = to_lowercase(interval_name);
    classify_lowered(interval_lower.as_str())
}

} // verus!
