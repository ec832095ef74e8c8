//! Audio qualities and which of two is the lower.

use vstd::prelude::*;

verus! {

/// A quality in which tracks can be fetched.
#[derive(Debug, Clone, Copy, PartialEq, Eq, Structural)]
pub enum Quality {
    Mp3,
    Lossless,
    HiRes,
    UltraHiRes,
}

/// The place of a quality among the four, from the lowest up.
pub open spec fn rank(quality: Quality) -> u8 {
    match quality {
        Quality::Mp3 => 1,
        Quality::Lossless => 2,
        Quality::HiRes => 3,
        Quality::UltraHiRes => 4,
    }
}

pub fn quality_rank(quality: Quality) -> (r: u8)
    ensures
        r == rank(quality),
{
    match quality {
        Quality::Mp3 => 1,
        Quality::Lossless => 2,
        Quality::HiRes => 3,
        Quality::UltraHiRes => 4,
    }
}

/// The lower of two qualities.
pub open spec fn lower(left: Quality, right: Quality) -> Quality {
    if rank(left) <= rank(right) {
        left
    } else {
        right
    }
}

pub fn lower_quality(left: Quality, right: Quality) -> (r: Quality)
    ensures
        r == lower(left, right),
{
    if quality_rank(left) <= quality_rank(right) {
        left
    } else {
        right
    }
}

/// The quality behind a number of the protocol: none for zero and below, and
/// the highest for all that are beyond the known ones.
pub open spec fn quality_for(max_audio_quality: i32) -> Option<Quality> {
    if max_audio_quality <= 0 {
        None
    } else if max_audio_quality == 1 {
        Some(Quality::Mp3)
    } else if max_audio_quality == 2 {
        Some(Quality::Lossless)
    } else if max_audio_quality == 3 {
        Some(Quality::HiRes)
    } else {
        Some(Quality::UltraHiRes)
    }
}

pub fn connect_quality_to_qobuz(max_audio_quality: i32) -> (r: Option<Quality>)
    ensures
        r == quality_for(max_audio_quality),
{
    if max_audio_quality <= 0 {
        None
    } else if max_audio_quality == 1 {
        Some(Quality::Mp3)
    } else if max_audio_quality == 2 {
        Some(Quality::Lossless)
    } else if max_audio_quality == 3 {
        Some(Quality::HiRes)
    } else {
        Some(Quality::UltraHiRes)
    }
}

/// The quality to fetch: the preferred one, or the one that the controller
/// allows when that is lower.
pub open spec fn allowed_quality(preferred: Quality, max_audio_quality: i32) -> Quality {
    match quality_for(max_audio_quality) {
        Some(allowed) => lower(preferred, allowed),
        None => preferred,
    }
}

pub fn playback_quality(preferred: Quality, max_audio_quality: i32) -> (r: Quality)
    ensures
        r == allowed_quality(preferred, max_audio_quality),
{
    match connect_quality_to_qobuz(max_audio_quality) {
        Some(allowed) => lower_quality(preferred, allowed),
        None => preferred,
    }
}

/// The lower of two qualities does not depend on their order, and is lower
/// than, or equal to, both.
pub proof fn lower_is_the_minimum(left: Quality, right: Quality)
    ensures
        lower(left, right) == lower(right, left),
        rank(lower(left, right)) <= rank(left),
        rank(lower(left, right)) <= rank(right),
        lower(left, right) == left || lower(left, right) == right,
{
}

/// What is fetched is never above what the user prefers, nor above what the
/// controller allows, when that is a quality.
pub proof fn quality_respects_both_limits(preferred: Quality, max_audio_quality: i32)
    ensures
        rank(allowed_quality(preferred, max_audio_quality)) <= rank(preferred),
        1 <= max_audio_quality ==> rank(allowed_quality(preferred, max_audio_quality))
            <= max_audio_quality,
{
}

/// A controller that allows more never leads to less.
pub proof fn allowing_more_never_lowers(preferred: Quality, less: i32, more: i32)
    requires
        1 <= less <= more,
    ensures
        rank(allowed_quality(preferred, less)) <= rank(allowed_quality(preferred, more)),
{
}

/// The numbers of the protocol name the qualities from the lowest up; zero and
/// below name none, and what is beyond the highest names the highest.
pub proof fn quality_numbers_go_from_the_lowest_up(n: i32)
    ensures
        n <= 0 ==> quality_for(n) is None,
        1 <= n <= 4 ==> (quality_for(n) matches Some(quality) && rank(quality) == n),
        n > 4 ==> quality_for(n) == Some(Quality::UltraHiRes),
        rank(Quality::Mp3) < rank(Quality::Lossless),
        rank(Quality::Lossless) < rank(Quality::HiRes),
        rank(Quality::HiRes) < rank(Quality::UltraHiRes),
{
}

/// What is fetched is what the user prefers, wherever the controller allows
/// that or names no limit, and else exactly what it allows.
pub proof fn quality_is_no_lower_than_needed(preferred: Quality, max_audio_quality: i32)
    ensures
        max_audio_quality <= 0 || rank(preferred) <= max_audio_quality ==> allowed_quality(
            preferred,
            max_audio_quality,
        ) == preferred,
        0 < max_audio_quality < rank(preferred) ==> rank(
            allowed_quality(preferred, max_audio_quality),
        ) == max_audio_quality,
{
}

} // verus!
