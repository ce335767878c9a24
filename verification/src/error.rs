//! The errors that an instruction can end in.

use vstd::prelude::*;

verus! {

/// Why an instruction was turned down.
#[derive(Clone, Copy, Debug, PartialEq, Eq, Structural)]
pub enum MEMEkError {
    /// A record for the seed identifier exists already.
    AlreadyExists,
    /// The record is not marked active.
    SeedInactive,
    /// The claim's salt is zero.
    InvalidProof,
    /// The coherence score is under the threshold.
    ContextualIncoherence,
    /// The interval text matches none of the pathways.
    UnrecognizedInterpretation,
    /// The token program declined the mint.
    MintRejected,
}

impl MEMEkError {
    /// The message shown to the caller.
    pub fn message(&self) -> (text: &'static str)
        ensures
            text@ == self.message_text(),
    {
        match self {
            MEMEkError::AlreadyExists => "A seed state for this seed id already exists.",
            MEMEkError::SeedInactive => "Seed is currently inactive.",
            MEMEkError::InvalidProof => "Proof of Incompleteness failed (invalid hash/salt).",
            MEMEkError::ContextualIncoherence =>
                "Harmonic coherence score too low. Context does not justify the interval.",
            MEMEkError::UnrecognizedInterpretation => "Unrecognized interval interpretation.",
            MEMEkError::MintRejected => "The token program rejected the mint.",
        }
    }

    /// The message of each error.
    pub open spec fn message_text(&self) -> Seq<char> {
        match self {
            MEMEkError::AlreadyExists => "A seed state for this seed id already exists."@,
            MEMEkError::SeedInactive => "Seed is currently inactive."@,
            MEMEkError::InvalidProof => "Proof of Incompleteness failed (invalid hash/salt)."@,
            MEMEkError::ContextualIncoherence =>
                "Harmonic coherence score too low. Context does not justify the interval."@,
            MEMEkError::UnrecognizedInterpretation => "Unrecognized interval interpretation."@,
            MEMEkError::MintRejected => "The token program rejected the mint."@,
        }
    }
}

} // verus!
