//! The record of a puzzle, its tally, and how it is created.

use vstd::prelude::*;
use vstd::string::*;
use vstd::utf8::{is_ascii_chars, is_ascii_chars_encode_utf8};
use crate::error::MEMEkError;
use crate::pathway::Pathway;

verus! {

/// The fragment of the puzzle that every record carries.
pub const FRAGMENT_DATA: &'static str = "Interval: [C --3 semitones--> ?]";

/// The most bytes that the fragment of a record may take.
pub const FRAGMENT_CAPACITY: usize = 200;

/// The state of one puzzle, kept under its seed identifier.
#[derive(Clone, Debug, PartialEq, Eq)]
pub struct Seed65State {
    /// The identifier under which the record is kept.
    pub seed_id: u64,
    /// Stored with the record; no rule reads it.
    pub difficulty: u8,
    /// How many claims have bridged the gap.
    pub total_bridges: u64,
    /// How many of them on pathway A.
    pub pathway_a_count: u64,
    /// How many of them on pathway B.
    pub pathway_b_count: u64,
    /// How many of them on pathway C.
    pub pathway_c_count: u64,
    /// Claims are accepted only while this is set.
    pub is_active: bool,
    /// The fragment of the puzzle.
    pub fragment_data: String,
}

/// A record as the contracts see it: the counters as natural numbers, the
/// fragment as its characters.
pub struct SeedRecord {
    pub seed_id: u64,
    pub difficulty: u8,
    pub total_bridges: nat,
    pub pathway_a_count: nat,
    pub pathway_b_count: nat,
    pub pathway_c_count: nat,
    pub is_active: bool,
    pub fragment_data: Seq<char>,
}

impl View for Seed65State {
    type V = SeedRecord;

    open spec fn view(&self) -> SeedRecord {
        SeedRecord {
            seed_id: self.seed_id,
            difficulty: self.difficulty,
            total_bridges: self.total_bridges as nat,
            pathway_a_count: self.pathway_a_count as nat,
            pathway_b_count: self.pathway_b_count as nat,
            pathway_c_count: self.pathway_c_count as nat,
            is_active: self.is_active,
            fragment_data: self.fragment_data@,
        }
    }
}

impl SeedRecord {
    /// The record that initialization creates: active, nothing counted yet.
    pub open spec fn fresh(seed_id: u64, difficulty: u8) -> SeedRecord {
        SeedRecord {
            seed_id,
            difficulty,
            total_bridges: 0,
            pathway_a_count: 0,
            pathway_b_count: 0,
            pathway_c_count: 0,
            is_active: true,
            fragment_data: FRAGMENT_DATA@,
        }
    }

    /// Every bridge is counted on exactly one pathway.
    pub open spec fn tally_holds(self) -> bool {
        self.total_bridges == self.pathway_a_count + self.pathway_b_count + self.pathway_c_count
    }

    /// The counter of one pathway.
    pub open spec fn count_of(self, pathway: Pathway) -> nat {
        match pathway {
            Pathway::A => self.pathway_a_count,
            Pathway::B => self.pathway_b_count,
            Pathway::C => self.pathway_c_count,
        }
    }

    /// The record after one more bridge on `pathway`: the total and that
    /// pathway's counter are one higher, nothing else has changed.
    pub open spec fn bridged(self, pathway: Pathway) -> SeedRecord {
        match pathway {
            Pathway::A => SeedRecord {
                total_bridges: self.total_bridges + 1,
                pathway_a_count: self.pathway_a_count + 1,
                ..self
            },
            Pathway::B => SeedRecord {
                total_bridges: self.total_bridges + 1,
                pathway_b_count: self.pathway_b_count + 1,
                ..self
            },
            Pathway::C => SeedRecord {
                total_bridges: self.total_bridges + 1,
                pathway_c_count: self.pathway_c_count + 1,
                ..self
            },
        }
    }

    /// The record after a run of bridges, one on each of `pathways` in turn.
    pub open spec fn bridged_all(self, pathways: Seq<Pathway>) -> SeedRecord
        decreases pathways.len(),
    {
        if pathways.len() == 0 {
            self
        } else {
            self.bridged_all(pathways.drop_last()).bridged(pathways.last())
        }
    }
}

/// The fragment of a new record fits in the room that a record has for it.
pub proof fn lemma_fragment_fits(seed_id: u64, difficulty: u8)
    ensures
        SeedRecord::fresh(seed_id, difficulty).fragment_data == FRAGMENT_DATA@,
        FRAGMENT_DATA.spec_bytes().len() == 32,
        FRAGMENT_DATA.spec_bytes().len() <= FRAGMENT_CAPACITY,
{
    reveal_strlit("Interval: [C --3 semitones--> ?]");
    assert(is_ascii_chars(FRAGMENT_DATA@));
    is_ascii_chars_encode_utf8(FRAGMENT_DATA@);
}

/// A new record keeps the tally.
pub proof fn lemma_fresh_keeps_tally(seed_id: u64, difficulty: u8)
    ensures
        SeedRecord::fresh(seed_id, difficulty).tally_holds(),
{
}

/// One more bridge keeps the tally.
pub proof fn lemma_bridge_keeps_tally(record: SeedRecord, pathway: Pathway)
    requires
        record.tally_holds(),
    ensures
        record.bridged(pathway).tally_holds(),
        record.bridged(pathway).total_bridges == record.total_bridges + 1,
        record.bridged(pathway).count_of(pathway) == record.count_of(pathway) + 1,
{
}

/// After any run of bridges on a record that keeps the tally, the total is
/// still the sum of the three pathway counters, and it has grown by the
/// length of the run.
pub proof fn lemma_bridges_keep_tally(record: SeedRecord, pathways: Seq<Pathway>)
    requires
        record.tally_holds(),
    ensures
        record.bridged_all(pathways).tally_holds(),
        record.bridged_all(pathways).total_bridges == record.total_bridges + pathways.len(),
    decreases pathways.len(),
{
    if pathways.len() > 0 {
        lemma_bridges_keep_tally(record, pathways.drop_last());
        lemma_bridge_keeps_tally(record.bridged_all(pathways.drop_last()), pathways.last());
    }
}

/// The account that initialization fills: the place where the record of one
/// seed identifier is kept, empty until the record is created.
#[derive(Clone, Debug, PartialEq, Eq)]
pub struct Initialize {
    pub seed_state: Option<Seed65State>,
}

/// Creates the record of `seed_id`: active, with all counters at zero and the
/// fragment in place. Where the record exists already, nothing changes and
/// the call fails with `AlreadyExists`.
pub fn initialize(ctx: &mut Initialize, seed_id: u64, difficulty: u8) -> (result: Result<
    (),
    MEMEkError,
>)
    ensures
        old(ctx).seed_state is Some ==> result == Err::<(), MEMEkError>(MEMEkError::AlreadyExists)
            && *final(ctx) == *old(ctx),
        old(ctx).seed_state is None ==> result == Ok::<(), MEMEkError>(())
            && final(ctx).seed_state is Some
            && final(ctx).seed_state->0@ == SeedRecord::fresh(seed_id, difficulty),
{
    if ctx.seed_state.is_some() {
        return Err(MEMEkError::AlreadyExists);
    }
    ctx.seed_state = Some(
        Seed65State {
            seed_id,
            difficulty,
            total_bridges: 0,
            pathway_a_count: 0,
            pathway_b_count: 0,
            pathway_c_count: 0,
            is_active: true,
            fragment_data: String::from_str(FRAGMENT_DATA),
        },
    );
    Ok(())
}

} // verus!
