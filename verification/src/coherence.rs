//! The coherence score of a claim: points for a context that fits the
//! interval, for a resolution that fits it, and for effort.

use vstd::prelude::*;
use vstd::string::*;
use crate::error::MEMEkError;
use crate::text::{contains, lowercase_of, mentions, to_lowercase};

verus! {

/// Points for a context that fits the interval. At most one rule applies,
/// the first one in this order.
pub open spec fn alignment_points(context: Seq<char>, interval: Seq<char>) -> nat {
    if mentions(context, "harmonic minor") && mentions(interval, "augmented") {
        40
    } else if (mentions(context, "natural minor") || mentions(context, "major") || mentions(
        context,
        "c minor",
    )) && mentions(interval, "minor") {
        40
    } else if (mentions(context, "both") || mentions(context, "superposition") || mentions(
        context,
        "schrodinger",
    )) && (mentions(interval, "both") || mentions(interval, "janus")) {
        50
    } else if mentions(interval, "augmented") || mentions(interval, "minor") {
        20
    } else {
        0
    }
}

/// Points for a resolution that fits the interval. At most one rule applies,
/// the first one in this order.
pub open spec fn resolution_points(interval: Seq<char>, resolution: Seq<char>) -> nat {
    if mentions(interval, "augmented") && (mentions(resolution, "up") || mentions(
        resolution,
        "outward",
    ) || mentions(resolution, "e")) {
        30
    } else if mentions(interval, "minor") && (mentions(resolution, "stable") || mentions(
        resolution,
        "step",
    ) || mentions(resolution, "triad")) {
        30
    } else if (mentions(interval, "janus") || mentions(interval, "both")) && (mentions(
        resolution,
        "shift",
    ) || mentions(resolution, "context") || mentions(resolution, "transform")) {
        30
    } else {
        0
    }
}

/// Points for effort: both the context and the resolution, as the caller
/// wrote them, are longer than five characters.
pub open spec fn effort_points(context_len: nat, resolution_len: nat) -> nat {
    if context_len > 5 && resolution_len > 5 {
        10
    } else {
        0
    }
}

/// The score of a claim whose three texts are given in lowercase, together
/// with the lengths of the context and the resolution as the caller wrote them.
pub open spec fn coherence_points(
    context: Seq<char>,
    interval: Seq<char>,
    resolution: Seq<char>,
    context_len: nat,
    resolution_len: nat,
) -> nat {
    alignment_points(context, interval) + resolution_points(interval, resolution) + effort_points(
        context_len,
        resolution_len,
    )
}

/// The score of a claim: the three texts are compared in lowercase, the
/// lengths are those of the texts as written.
pub open spec fn coherence_score(
    context: Seq<char>,
    interval_name: Seq<char>,
    resolution: Seq<char>,
) -> nat {
    coherence_points(
        lowercase_of(context),
        lowercase_of(interval_name),
        lowercase_of(resolution),
        context.len(),
        resolution.len(),
    )
}

/// No claim scores more than 90, so every score lies in the range 0 to 100.
pub proof fn lemma_coherence_points_bounded(
    context: Seq<char>,
    interval: Seq<char>,
    resolution: Seq<char>,
    context_len: nat,
    resolution_len: nat,
)
    ensures
        coherence_points(context, interval, resolution, context_len, resolution_len) <= 90,
{
}

/// Scores a claim whose three texts are already in lowercase.
pub fn score_lowered(
    context: &str,
    interval: &str,
    resolution: &str,
    context_len: usize,
    resolution_len: usize,
) -> (score: u8)
    ensures
        score == coherence_points(
            context@,
            interval@,
            resolution@,
            context_len as nat,
            resolution_len as nat,
        ),
        score <= 100,
{
    let alignment: u8 = if contains(context, "harmonic minor") && contains(interval, "augmented") {
        40
    } else if (contains(context, "natural minor") || contains(context, "major") || contains(
        context,
        "c minor",
    )) && contains(interval, "minor") {
        40
    } else if (contains(context, "both") || contains(context, "superposition") || contains(
        context,
        "schrodinger",
    )) && (contains(interval, "both") || contains(interval, "janus")) {
        50
    } else if contains(interval, "augmented") || contains(interval, "minor") {
        20
    } else {
        0
    };
    let resolved: u8 = if contains(interval, "augmented") && (contains(resolution, "up")
        || contains(resolution, "outward") || contains(resolution, "e")) {
        30
    } else if contains(interval, "minor") && (contains(resolution, "stable") || contains(
        resolution,
        "step",
    ) || contains(resolution, "triad")) {
        30
    } else if (contains(interval, "janus") || contains(interval, "both")) && (contains(
        resolution,
        "shift",
    ) || contains(resolution, "context") || contains(resolution, "transform")) {
        30
    } else {
        0
    };
    let effort: u8 = if context_len > 5 && resolution_len > 5 {
        10
    } else {
        0
    };
    alignment + resolved + effort
}

/// Scores how well the context and the resolution of a claim justify its
/// interval, ignoring case. Every claim gets a score.
pub fn verify_harmonic_coherence(context: &str, interval_name: &str, resolution: &str) -> (result:
    Result<u8, MEMEkError>)
    ensures
        result matches Ok(score) && score == coherence_score(
            context@,
            interval_name@,
            resolution@,
        ) && score <= 100,
{
    let context_lower = to_lowercase(context);
    let interval_lower = to_lowercase(interval_name);
    let resolution_lower = to_lowercase(resolution);
    Ok(
        score_lowered(
            context_lower.as_str(),
            interval_lower.as_str(),
            resolution_lower.as_str(),
            context.unicode_len(),
            resolution.unicode_len(),
        ),
    )
}

} // verus!
