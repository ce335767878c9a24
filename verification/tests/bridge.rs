use augmntd2nd::bridge::award_for;
use augmntd2nd::{
    bridge_enharmonic_gap, initialize, settle_bridge, BridgeAward, BridgeGap,
    EnharmonicCompletion, Initialize, MEMEkError, Pathway, Seed65State,
};

fn open_gap(seed_id: u64) -> BridgeGap {
    let mut ctx = Initialize { seed_state: None };
    initialize(&mut ctx, seed_id, 1).unwrap();
    BridgeGap { seed_state: ctx.seed_state.unwrap() }
}

fn claim(context: &str, interval_name: &str, resolution: &str, salt: u64) -> EnharmonicCompletion {
    EnharmonicCompletion {
        context: String::from(context),
        interval_name: String::from(interval_name),
        resolution: String::from(resolution),
        salt,
    }
}

fn harmonic_minor_claim(salt: u64) -> EnharmonicCompletion {
    claim("This is harmonic minor context", "Augmented Second", "resolves upward to E", salt)
}

fn major_key_claim(salt: u64) -> EnharmonicCompletion {
    claim("major key here", "Minor Third", "stable triad", salt)
}

fn superposition_claim(salt: u64) -> EnharmonicCompletion {
    claim("schrodinger superposition state", "Janus both", "context shift occurs", salt)
}

fn tally_holds(state: &Seed65State) -> bool {
    state.total_bridges == state.pathway_a_count + state.pathway_b_count + state.pathway_c_count
}

#[test]
fn scenario_harmonic_minor_earns_pathway_a() {
    let gap = open_gap(65);
    let award = bridge_enharmonic_gap(&gap, harmonic_minor_claim(1)).unwrap();
    assert_eq!(award, BridgeAward { pathway: Pathway::A, reward: 65, coherence_score: 80 });
    assert_eq!(award.pathway.label(), "Pathway A: Augmented Second");
}

#[test]
fn scenario_major_key_earns_pathway_b() {
    let gap = open_gap(65);
    let award = bridge_enharmonic_gap(&gap, major_key_claim(1)).unwrap();
    assert_eq!(award, BridgeAward { pathway: Pathway::B, reward: 65, coherence_score: 80 });
    assert_eq!(award.pathway.label(), "Pathway B: Minor Third");
}

#[test]
fn scenario_superposition_earns_pathway_c() {
    let gap = open_gap(65);
    let award = bridge_enharmonic_gap(&gap, superposition_claim(1)).unwrap();
    assert_eq!(award, BridgeAward { pathway: Pathway::C, reward: 165, coherence_score: 90 });
    assert_eq!(award.pathway.label(), "Pathway C: Janus Mode");
}

#[test]
fn scenario_perfect_fifth_is_incoherent() {
    let gap = open_gap(65);
    assert_eq!(
        bridge_enharmonic_gap(&gap, claim("xyz", "perfect fifth", "none", 1)),
        Err(MEMEkError::ContextualIncoherence)
    );
}

#[test]
fn a_zero_salt_is_an_invalid_proof_whatever_the_claim_says() {
    let gap = open_gap(65);
    let before = gap.clone();
    assert_eq!(bridge_enharmonic_gap(&gap, harmonic_minor_claim(0)), Err(MEMEkError::InvalidProof));
    assert_eq!(bridge_enharmonic_gap(&gap, major_key_claim(0)), Err(MEMEkError::InvalidProof));
    assert_eq!(bridge_enharmonic_gap(&gap, superposition_claim(0)), Err(MEMEkError::InvalidProof));
    assert_eq!(
        bridge_enharmonic_gap(&gap, claim("xyz", "perfect fifth", "none", 0)),
        Err(MEMEkError::InvalidProof)
    );
    assert_eq!(bridge_enharmonic_gap(&gap, claim("", "", "", 0)), Err(MEMEkError::InvalidProof));
    assert_eq!(gap, before);
}

#[test]
fn a_zero_salt_is_rejected_again_and_again() {
    let gap = open_gap(65);
    for _ in 0..3 {
        assert_eq!(
            bridge_enharmonic_gap(&gap, harmonic_minor_claim(0)),
            Err(MEMEkError::InvalidProof)
        );
    }
    assert_eq!(gap.seed_state.total_bridges, 0);
}

#[test]
fn any_salt_but_zero_passes() {
    let gap = open_gap(65);
    assert!(bridge_enharmonic_gap(&gap, harmonic_minor_claim(1)).is_ok());
    assert!(bridge_enharmonic_gap(&gap, harmonic_minor_claim(u64::MAX)).is_ok());
}

#[test]
fn an_inactive_record_takes_no_claim() {
    let mut gap = open_gap(65);
    gap.seed_state.is_active = false;
    assert_eq!(bridge_enharmonic_gap(&gap, harmonic_minor_claim(1)), Err(MEMEkError::SeedInactive));
    assert_eq!(
        bridge_enharmonic_gap(&gap, claim("xyz", "perfect fifth", "none", 1)),
        Err(MEMEkError::SeedInactive)
    );
}

#[test]
fn an_inactive_record_is_reported_before_a_zero_salt() {
    let mut gap = open_gap(65);
    gap.seed_state.is_active = false;
    assert_eq!(bridge_enharmonic_gap(&gap, harmonic_minor_claim(0)), Err(MEMEkError::SeedInactive));
}

#[test]
fn a_score_of_sixty_nine_is_incoherent() {
    assert_eq!(award_for(69, "augmented"), Err(MEMEkError::ContextualIncoherence));
    assert_eq!(award_for(69, "minor"), Err(MEMEkError::ContextualIncoherence));
    assert_eq!(award_for(69, "janus"), Err(MEMEkError::ContextualIncoherence));
}

#[test]
fn a_score_of_seventy_goes_on_to_the_classifier() {
    assert_eq!(
        award_for(70, "augmented"),
        Ok(BridgeAward { pathway: Pathway::A, reward: 65, coherence_score: 70 })
    );
    assert_eq!(
        award_for(70, "minor"),
        Ok(BridgeAward { pathway: Pathway::B, reward: 65, coherence_score: 70 })
    );
    assert_eq!(
        award_for(70, "janus"),
        Ok(BridgeAward { pathway: Pathway::C, reward: 165, coherence_score: 70 })
    );
    assert_eq!(award_for(70, "perfect fifth"), Err(MEMEkError::UnrecognizedInterpretation));
}

#[test]
fn the_threshold_is_checked_before_the_interval() {
    assert_eq!(award_for(69, "perfect fifth"), Err(MEMEkError::ContextualIncoherence));
    assert_eq!(award_for(0, ""), Err(MEMEkError::ContextualIncoherence));
}

#[test]
fn the_award_carries_the_score_it_was_given() {
    assert_eq!(
        award_for(100, "minor both"),
        Ok(BridgeAward { pathway: Pathway::C, reward: 165, coherence_score: 100 })
    );
    assert_eq!(
        award_for(u8::MAX, "augmented minor both"),
        Ok(BridgeAward { pathway: Pathway::A, reward: 65, coherence_score: u8::MAX })
    );
}

#[test]
fn a_claim_that_scores_exactly_seventy_earns_its_reward() {
    let gap = open_gap(65);
    assert_eq!(
        bridge_enharmonic_gap(&gap, claim("harmonic minor", "augmented", "up", 1)),
        Ok(BridgeAward { pathway: Pathway::A, reward: 65, coherence_score: 70 })
    );
}

#[test]
fn a_claim_that_scores_sixty_is_incoherent() {
    let gap = open_gap(65);
    assert_eq!(
        bridge_enharmonic_gap(&gap, claim("plain words", "augmented", "resolves up", 1)),
        Err(MEMEkError::ContextualIncoherence)
    );
}

#[test]
fn a_claim_in_upper_case_earns_the_same() {
    let gap = open_gap(65);
    assert_eq!(
        bridge_enharmonic_gap(
            &gap,
            claim("SCHRODINGER SUPERPOSITION STATE", "JANUS BOTH", "CONTEXT SHIFT OCCURS", 9)
        ),
        Ok(BridgeAward { pathway: Pathway::C, reward: 165, coherence_score: 90 })
    );
}

#[test]
fn judging_a_claim_leaves_the_record_as_it_is() {
    let gap = open_gap(65);
    let before = gap.clone();
    bridge_enharmonic_gap(&gap, harmonic_minor_claim(1)).unwrap();
    assert_eq!(gap, before);
}

#[test]
fn an_accepted_mint_counts_one_bridge_on_pathway_a() {
    let mut gap = open_gap(65);
    let award = bridge_enharmonic_gap(&gap, harmonic_minor_claim(1)).unwrap();
    assert_eq!(settle_bridge(&mut gap, &award, true), Ok(()));
    assert_eq!(gap.seed_state.total_bridges, 1);
    assert_eq!(gap.seed_state.pathway_a_count, 1);
    assert_eq!(gap.seed_state.pathway_b_count, 0);
    assert_eq!(gap.seed_state.pathway_c_count, 0);
}

#[test]
fn an_accepted_mint_counts_one_bridge_on_pathway_b() {
    let mut gap = open_gap(65);
    let award = bridge_enharmonic_gap(&gap, major_key_claim(1)).unwrap();
    assert_eq!(settle_bridge(&mut gap, &award, true), Ok(()));
    assert_eq!(gap.seed_state.total_bridges, 1);
    assert_eq!(gap.seed_state.pathway_a_count, 0);
    assert_eq!(gap.seed_state.pathway_b_count, 1);
    assert_eq!(gap.seed_state.pathway_c_count, 0);
}

#[test]
fn an_accepted_mint_counts_one_bridge_on_pathway_c() {
    let mut gap = open_gap(65);
    let award = bridge_enharmonic_gap(&gap, superposition_claim(1)).unwrap();
    assert_eq!(settle_bridge(&mut gap, &award, true), Ok(()));
    assert_eq!(gap.seed_state.total_bridges, 1);
    assert_eq!(gap.seed_state.pathway_a_count, 0);
    assert_eq!(gap.seed_state.pathway_b_count, 0);
    assert_eq!(gap.seed_state.pathway_c_count, 1);
}

#[test]
fn an_accepted_mint_changes_nothing_but_two_counters() {
    let mut gap = open_gap(65);
    let before = gap.clone();
    let award = bridge_enharmonic_gap(&gap, superposition_claim(1)).unwrap();
    settle_bridge(&mut gap, &award, true).unwrap();
    assert_eq!(gap.seed_state.seed_id, before.seed_state.seed_id);
    assert_eq!(gap.seed_state.difficulty, before.seed_state.difficulty);
    assert_eq!(gap.seed_state.is_active, before.seed_state.is_active);
    assert_eq!(gap.seed_state.fragment_data, before.seed_state.fragment_data);
}

#[test]
fn a_rejected_mint_fails_the_call_and_counts_nothing() {
    let mut gap = open_gap(65);
    let before = gap.clone();
    let award = bridge_enharmonic_gap(&gap, harmonic_minor_claim(1)).unwrap();
    assert_eq!(settle_bridge(&mut gap, &award, false), Err(MEMEkError::MintRejected));
    assert_eq!(gap, before);
}

#[test]
fn a_rejected_mint_leaves_full_counters_alone() {
    let mut gap = open_gap(65);
    gap.seed_state.total_bridges = u64::MAX;
    gap.seed_state.pathway_c_count = u64::MAX;
    let before = gap.clone();
    let award = BridgeAward { pathway: Pathway::C, reward: 165, coherence_score: 90 };
    assert_eq!(settle_bridge(&mut gap, &award, false), Err(MEMEkError::MintRejected));
    assert_eq!(gap, before);
}

#[test]
fn the_last_bridge_before_the_counters_are_full_is_counted() {
    let mut gap = open_gap(65);
    gap.seed_state.total_bridges = u64::MAX - 1;
    gap.seed_state.pathway_b_count = u64::MAX - 1;
    let award = BridgeAward { pathway: Pathway::B, reward: 65, coherence_score: 80 };
    assert_eq!(settle_bridge(&mut gap, &award, true), Ok(()));
    assert_eq!(gap.seed_state.total_bridges, u64::MAX);
    assert_eq!(gap.seed_state.pathway_b_count, u64::MAX);
    assert!(tally_holds(&gap.seed_state));
}

#[test]
fn the_total_is_the_sum_of_the_pathway_counters_after_every_call() {
    let mut gap = open_gap(65);
    assert!(tally_holds(&gap.seed_state));
    let calls = [
        (harmonic_minor_claim(1), true),
        (major_key_claim(2), true),
        (superposition_claim(0), true),
        (superposition_claim(3), true),
        (claim("xyz", "perfect fifth", "none", 4), true),
        (harmonic_minor_claim(5), false),
        (superposition_claim(6), true),
        (major_key_claim(7), true),
        (harmonic_minor_claim(8), true),
        (superposition_claim(9), true),
    ];
    let mut bridged: u64 = 0;
    for (completion, mint_accepted) in calls {
        if let Ok(award) = bridge_enharmonic_gap(&gap, completion) {
            if settle_bridge(&mut gap, &award, mint_accepted).is_ok() {
                bridged += 1;
            }
        }
        assert!(tally_holds(&gap.seed_state));
        assert_eq!(gap.seed_state.total_bridges, bridged);
    }
    assert_eq!(gap.seed_state.total_bridges, 7);
    assert_eq!(gap.seed_state.pathway_a_count, 2);
    assert_eq!(gap.seed_state.pathway_b_count, 2);
    assert_eq!(gap.seed_state.pathway_c_count, 3);
}

#[test]
fn each_call_stands_on_its_own() {
    let mut gap = open_gap(65);
    let first = bridge_enharmonic_gap(&gap, harmonic_minor_claim(1)).unwrap();
    settle_bridge(&mut gap, &first, true).unwrap();
    let second = bridge_enharmonic_gap(&gap, harmonic_minor_claim(1)).unwrap();
    assert_eq!(first, second);
    settle_bridge(&mut gap, &second, true).unwrap();
    assert_eq!(gap.seed_state.total_bridges, 2);
    assert_eq!(gap.seed_state.pathway_a_count, 2);
}
