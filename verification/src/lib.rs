//! Rules of the enharmonic-gap bridge: a caller claims how the interval
//! `C --3 semitones--> ?` resolves, the claim is scored for coherence and
//! classified into a pathway, and a coherent claim earns the pathway's reward.

pub mod bridge;
pub mod coherence;
pub mod error;
pub mod pathway;
pub mod state;
pub mod text;

pub use bridge::{
    bridge_enharmonic_gap, settle_bridge, BridgeAward, BridgeGap, EnharmonicCompletion,
};
pub use coherence::verify_harmonic_coherence;
pub use error::MEMEkError;
pub use pathway::{classify_pathway, Pathway};
pub use state::{initialize, Initialize, Seed65State};
