//! Bridging the gap: a claim is judged against the record, the token program
//! is asked to mint what the claim has earned, and its answer is settled on
//! the record. The mint itself is the host's work; what is decided before it
//! and after it is decided here.

use vstd::prelude::*;
use crate::coherence::{coherence_score, verify_harmonic_coherence};
use crate::error::MEMEkError;
use crate::pathway::{classification, classify_lowered, Pathway};
use crate::state::{Seed65State, SeedRecord};
use crate::text::{lowercase_of, to_lowercase};

verus! {

/// The lowest coherence score that earns a reward.
pub const COHERENCE_THRESHOLD: u8 = 70;

/// A claim about how the interval resolves, as the caller submits it.
#[derive(Clone, Debug, PartialEq, Eq)]
pub struct EnharmonicCompletion {
    /// The musical context that the claim rests on.
    pub context: String,
    /// The name that the claim gives the interval.
    pub interval_name: String,
    /// How the interval resolves.
    pub resolution: String,
    /// A number of the caller's choice, not zero.
    pub salt: u64,
}

/// A claim as the contracts see it: the three texts as their characters.
pub struct Claim {
    pub context: Seq<char>,
    pub interval_name: Seq<char>,
    pub resolution: Seq<char>,
    pub salt: u64,
}

impl View for EnharmonicCompletion {
    type V = Claim;

    open spec fn view(&self) -> Claim {
        Claim {
            context: self.context@,
            interval_name: self.interval_name@,
            resolution: self.resolution@,
            salt: self.salt,
        }
    }
}

/// The account that a bridge works on: the record of the puzzle.
#[derive(Clone, Debug, PartialEq, Eq)]
pub struct BridgeGap {
    pub seed_state: Seed65State,
}

/// What a coherent claim has earned: the token program is asked to mint
/// `reward` units to the caller, on the authority of the record.
#[derive(Clone, Copy, Debug, PartialEq, Eq, Structural)]
pub struct BridgeAward {
    /// The pathway of the claim.
    pub pathway: Pathway,
    /// The token units to mint.
    pub reward: u64,
    /// The score that the claim reached.
    pub coherence_score: u8,
}

/// What a claim with the given score earns, `interval` being its interval
/// name in lowercase: under the threshold nothing, else the reward of its
/// pathway, if it has one.
pub open spec fn award_earned(score: u8, interval: Seq<char>) -> Result<BridgeAward, MEMEkError> {
    if score < COHERENCE_THRESHOLD {
        Err(MEMEkError::ContextualIncoherence)
    } else {
        match classification(interval) {
            Ok(pathway) => Ok(
                BridgeAward { pathway, reward: pathway.reward_of(), coherence_score: score },
            ),
            Err(error) => Err(error),
        }
    }
}

/// What a claim earns against a record. The checks run in this order: the
/// record is active, the salt is not zero, the score reaches the threshold,
/// the interval has a pathway.
pub open spec fn bridge_verdict(record: SeedRecord, claim: Claim) -> Result<
    BridgeAward,
    MEMEkError,
> {
    if !record.is_active {
        Err(MEMEkError::SeedInactive)
    } else if claim.salt == 0 {
        Err(MEMEkError::InvalidProof)
    } else {
        award_earned(
            coherence_score(claim.context, claim.interval_name, claim.resolution) as u8,
            lowercase_of(claim.interval_name),
        )
    }
}

/// The record after the token program has answered the mint of an award,
/// and what the caller is told: a bridge is counted only for a mint that was
/// accepted.
pub open spec fn settled(record: SeedRecord, award: BridgeAward, mint_accepted: bool) -> (
    SeedRecord,
    Result<(), MEMEkError>,
) {
    if mint_accepted {
        (record.bridged(award.pathway), Ok(()))
    } else {
        (record, Err(MEMEkError::MintRejected))
    }
}

/// One whole bridge: the claim is judged, the award, if any, goes to the
/// token program, and the answer is settled. Gives the record afterwards and
/// what the caller is told.
pub open spec fn bridge_call(record: SeedRecord, claim: Claim, mint_accepted: bool) -> (
    SeedRecord,
    Result<BridgeAward, MEMEkError>,
) {
    match bridge_verdict(record, claim) {
        Err(error) => (record, Err(error)),
        Ok(award) => {
            let (after, answer) = settled(record, award, mint_accepted);
            match answer {
                Ok(_) => (after, Ok(award)),
                Err(error) => (after, Err(error)),
            }
        },
    }
}

/// The record after a run of bridge calls, each a claim together with the
/// token program's answer to its mint.
pub open spec fn after_calls(record: SeedRecord, calls: Seq<(Claim, bool)>) -> SeedRecord
    decreases calls.len(),
{
    if calls.len() == 0 {
        record
    } else {
        bridge_call(after_calls(record, calls.drop_last()), calls.last().0, calls.last().1).0
    }
}

/// A score under the threshold earns nothing, whatever the interval; a score
/// at or over it earns what the pathway of the interval gives.
pub proof fn lemma_threshold_decides(score: u8, interval: Seq<char>)
    ensures
        score < 70 ==> award_earned(score, interval) == Err::<BridgeAward, MEMEkError>(
            MEMEkError::ContextualIncoherence,
        ),
        score >= 70 ==> (award_earned(score, interval) is Ok <==> classification(interval) is Ok),
        score >= 70 && classification(interval) is Err ==> award_earned(score, interval) == Err::<
            BridgeAward,
            MEMEkError,
        >(MEMEkError::UnrecognizedInterpretation),
        award_earned(score, interval) matches Ok(award) ==> award.coherence_score == score
            && award.coherence_score >= 70 && classification(interval) == Ok::<
            Pathway,
            MEMEkError,
        >(award.pathway) && award.reward == award.pathway.reward_of(),
{
}

/// A claim whose score reaches the threshold has a pathway: the rules give
/// seventy points only to an interval that mentions "augmented", "minor",
/// "both" or "janus". So no claim is judged `UnrecognizedInterpretation`.
pub proof fn lemma_coherent_claim_has_pathway(record: SeedRecord, claim: Claim)
    ensures
        coherence_score(claim.context, claim.interval_name, claim.resolution) >= 70
            ==> classification(lowercase_of(claim.interval_name)) is Ok,
        bridge_verdict(record, claim) != Err::<BridgeAward, MEMEkError>(
            MEMEkError::UnrecognizedInterpretation,
        ),
{
}

/// A claim with salt zero on an active record fails with `InvalidProof`,
/// whatever its texts say and whatever the token program would answer, and
/// the record stays as it was.
pub proof fn lemma_zero_salt_is_invalid(record: SeedRecord, claim: Claim, mint_accepted: bool)
    requires
        record.is_active,
        claim.salt == 0,
    ensures
        bridge_verdict(record, claim) == Err::<BridgeAward, MEMEkError>(MEMEkError::InvalidProof),
        bridge_call(record, claim, mint_accepted) == (
            record,
            Err::<BridgeAward, MEMEkError>(MEMEkError::InvalidProof),
        ),
{
}

/// A bridge call that fails leaves the record as it was.
pub proof fn lemma_failure_changes_nothing(record: SeedRecord, claim: Claim, mint_accepted: bool)
    requires
        bridge_call(record, claim, mint_accepted).1 is Err,
    ensures
        bridge_call(record, claim, mint_accepted).0 == record,
{
}

/// A bridge call that succeeds counts one bridge, on the pathway of its
/// award, and changes nothing else.
pub proof fn lemma_success_counts_once(record: SeedRecord, claim: Claim, mint_accepted: bool)
    requires
        bridge_call(record, claim, mint_accepted).1 is Ok,
    ensures
        mint_accepted,
        bridge_verdict(record, claim) == bridge_call(record, claim, mint_accepted).1,
        bridge_call(record, claim, mint_accepted).0 == record.bridged(
            bridge_call(record, claim, mint_accepted).1->Ok_0.pathway,
        ),
{
}

/// A bridge call keeps the tally, whether it succeeds or fails.
pub proof fn lemma_call_keeps_tally(record: SeedRecord, claim: Claim, mint_accepted: bool)
    requires
        record.tally_holds(),
    ensures
        bridge_call(record, claim, mint_accepted).0.tally_holds(),
{
}

/// After any run of bridge calls on a record that keeps the tally, the total
/// is still the sum of the three pathway counters.
pub proof fn lemma_calls_keep_tally(record: SeedRecord, calls: Seq<(Claim, bool)>)
    requires
        record.tally_holds(),
    ensures
        after_calls(record, calls).tally_holds(),
    decreases calls.len(),
{
    if calls.len() > 0 {
        lemma_calls_keep_tally(record, calls.drop_last());
        lemma_call_keeps_tally(
            after_calls(record, calls.drop_last()),
            calls.last().0,
            calls.last().1,
        );
    }
}

/// What a claim with the given score earns, `interval_lower` being its
/// interval name in lowercase.
pub fn award_for(score: u8, interval_lower: &str) -> (result: Result<BridgeAward, MEMEkError>)
    ensures
        result == award_earned(score, interval_lower@),
{
    if score < COHERENCE_THRESHOLD {
        return Err(MEMEkError::ContextualIncoherence);
    }
    match classify_lowered(interval_lower) {
        Ok(pathway) => Ok(BridgeAward { pathway, reward: pathway.reward(), coherence_score: score }),
        Err(error) => Err(error),
    }
}

/// Judges a claim against the record: says what to mint for it, or why
/// nothing is minted. The record is only read.
pub fn bridge_enharmonic_gap(ctx: &BridgeGap, completion: EnharmonicCompletion) -> (result: Result<
    BridgeAward,
    MEMEkError,
>)
    ensures
        result == bridge_verdict(ctx.seed_state@, completion@),
{
    if !ctx.seed_state.is_active {
        return Err(MEMEkError::SeedInactive);
    }
    if completion.salt == 0 {
        return Err(MEMEkError::InvalidProof);
    }
    let scored = verify_harmonic_coherence(
        completion.context.as_str(),
        completion.interval_name.as_str(),
        completion.resolution.as_str(),
    );
    match scored {
        Ok(score) => {
            let interval_lower = to_lowercase(completion.interval_name.as_str());
            award_for(score, interval_lower.as_str())
        },
        Err(error) => Err(error),
    }
}

/// Settles the token program's answer to the mint of an award: a mint that
/// was accepted is counted as one bridge on the award's pathway, a mint that
/// was rejected fails the call and leaves the record as it was.
pub fn settle_bridge(ctx: &mut BridgeGap, award: &BridgeAward, mint_accepted: bool) -> (result:
    Result<(), MEMEkError>)
    requires
        mint_accepted ==> old(ctx).seed_state.total_bridges < u64::MAX,
        mint_accepted ==> old(ctx).seed_state@.count_of(award.pathway) < u64::MAX,
    ensures
        (final(ctx).seed_state@, result) == settled(old(ctx).seed_state@, *award, mint_accepted),
        !mint_accepted ==> *final(ctx) == *old(ctx),
{
    if !mint_accepted {
        return Err(MEMEkError::MintRejected);
    }
    match award.pathway {
        Pathway::A => {
            ctx.seed_state.pathway_a_count = ctx.seed_state.pathway_a_count + 1;
        },
        Pathway::B => {
            ctx.seed_state.pathway_b_count = ctx.seed_state.pathway_b_count + 1;
        },
        Pathway::C => {
            ctx.seed_state.pathway_c_count = ctx.seed_state.pathway_c_count + 1;
        },
    }
    ctx.seed_state.total_bridges = ctx.seed_state.total_bridges + 1;
    Ok(())
}

} // verus!
