//! Seek arithmetic: turning a percentage of the media's duration into a
//! position in nanoseconds.

use vstd::prelude::*;

verus! {

/// Where to seek in a medium: its whole duration and the offset asked for,
/// both in nanoseconds.
#[derive(Debug, Clone, Copy, PartialEq, Eq, Structural)]
pub struct PlaybackPosition {
    pub duration_ns: u64,
    pub offset_ns: u64,
}

/// The position, in nanoseconds, that lies `percent` hundredths into a medium
/// of `duration_ns` nanoseconds, rounded down.
pub open spec fn offset_at(duration_ns: nat, percent: nat) -> nat {
    duration_ns * percent / 100
}

/// The position at `percent` hundredths of a medium whose duration is known
/// or not. A medium of unknown duration counts as one of no duration, and a
/// position that 64 bits cannot hold is none.
pub open spec fn position_at(duration_ns: Option<u64>, percent: u64) -> Option<PlaybackPosition> {
    let duration: u64 = match duration_ns {
        Some(known) => known,
        None => 0,
    };
    if offset_at(duration as nat, percent as nat) <= u64::MAX {
        Some(
            PlaybackPosition {
                duration_ns: duration,
                offset_ns: offset_at(duration as nat, percent as nat) as u64,
            },
        )
    } else {
        None
    }
}

/// Up to the whole, a percentage gives a position within the medium.
pub proof fn lemma_offset_within_duration(duration_ns: nat, percent: nat)
    requires
        percent <= 100,
    ensures
        offset_at(duration_ns, percent) <= duration_ns,
{
    assert(duration_ns * percent <= duration_ns * 100) by (nonlinear_arith)
        requires
            percent <= 100,
    ;
}

/// Nothing of a medium is its start, all of it is its end, and in a medium of
/// no duration every percentage is the start.
pub proof fn lemma_offset_at_ends(duration_ns: nat, percent: nat)
    ensures
        offset_at(duration_ns, 0) == 0,
        offset_at(duration_ns, 100) == duration_ns,
        offset_at(0, percent) == 0,
{
    assert(duration_ns * 0 == 0) by (nonlinear_arith);
    assert(0 * percent == 0) by (nonlinear_arith);
}

/// A larger percentage never gives an earlier position.
pub proof fn lemma_offset_grows(duration_ns: nat, smaller: nat, larger: nat)
    requires
        smaller <= larger,
    ensures
        offset_at(duration_ns, smaller) <= offset_at(duration_ns, larger),
{
    assert(duration_ns * smaller <= duration_ns * larger) by (nonlinear_arith)
        requires
            smaller <= larger,
    ;
}

/// More than the whole is not turned away: the position is at the end or
/// past it, and past it exactly when the excess makes up a nanosecond.
pub proof fn lemma_offset_past_end(duration_ns: nat, percent: nat)
    requires
        percent >= 100,
    ensures
        offset_at(duration_ns, percent) >= duration_ns,
        offset_at(duration_ns, percent) > duration_ns <==> duration_ns * (percent - 100) >= 100,
{
    assert(duration_ns * percent == duration_ns * 100 + duration_ns * (percent - 100))
        by (nonlinear_arith);
    assert(duration_ns * (percent - 100) >= 0) by (nonlinear_arith)
        requires
            percent >= 100,
    ;
}

/// Computes the seek position for `percent` of `duration_ns`.
///
/// The product is formed in 128 bits, so the only positions that cannot be
/// given are those that no 64-bit count of nanoseconds can hold.
pub fn seek_offset(duration_ns: u64, percent: u64) -> (offset: Option<u64>)
    ensures
        offset == if offset_at(duration_ns as nat, percent as nat) <= u64::MAX {
            Some(offset_at(duration_ns as nat, percent as nat) as u64)
        } else {
            None
        },
        percent <= 100 ==> offset is Some && offset->0 <= duration_ns,
{
    let wide_duration: u128 = duration_ns as u128;
    let wide_percent: u128 = percent as u128;
    assert(wide_duration * wide_percent <= u64::MAX * u64::MAX) by (nonlinear_arith)
        requires
            wide_duration <= u64::MAX,
            wide_percent <= u64::MAX,
    ;
    let scaled: u128 = wide_duration * wide_percent / 100;
    proof {
        if percent <= 100 {
            lemma_offset_within_duration(duration_ns as nat, percent as nat);
        }
    }
    if scaled <= u64::MAX as u128 {
        Some(scaled as u64)
    } else {
        None
    }
}

impl PlaybackPosition {
    /// The position at `percent` hundredths of a medium whose duration is
    /// `duration_ns` where the backend could tell it.
    pub fn locate(duration_ns: Option<u64>, percent: u64) -> (position: Option<PlaybackPosition>)
        ensures
            position == position_at(duration_ns, percent),
            percent <= 100 ==> position is Some && position->0.offset_ns
                <= position->0.duration_ns,
            duration_ns is None ==> position == Some(
                PlaybackPosition { duration_ns: 0, offset_ns: 0 },
            ),
    {
        let duration: u64 = match duration_ns {
            Some(known) => known,
            None => 0,
        };
        proof {
            lemma_offset_at_ends(duration as nat, percent as nat);
        }
        match seek_offset(duration, percent) {
            Some(offset_ns) => Some(PlaybackPosition { duration_ns: duration, offset_ns }),
            None => None,
        }
    }
}

} // verus!
