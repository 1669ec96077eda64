//! Conversion between raw server volumes and the percentages shown to the user.
use vstd::prelude::*;

verus! {

/// The raw volume that stands for 100 %.
pub const VOLUME_NORMAL: u32 = 0x10000;

/// The highest percentage that is ever shown.
pub const PERCENT_MAX: u32 = 150;

/// The largest number of channels that a stream can have.
pub const CHANNELS_MAX: u8 = 32;

/// A volume request: the same raw volume for each of `channels` channels.
#[derive(Debug, Clone, Copy, PartialEq, Eq, Structural)]
pub struct ChannelVolumes {
    pub channels: u8,
    pub volume: u32,
}

/// The integer nearest to `num / den`, halves rounded up.
#[verifier::inline]
pub open spec fn nearest(num: int, den: int) -> int
    recommends
        den > 0,
{
    (2 * num + den) / (2 * den)
}

/// The percentage that a raw average volume is shown as, where `0x10000` is 100 %.
pub open spec fn percent_of(average: int) -> int {
    let percent = nearest(average * 100, 0x10000);
    if percent <= PERCENT_MAX {
        percent
    } else {
        PERCENT_MAX as int
    }
}

/// The raw volume that a percentage is sent as, where 100 % is `0x10000`.
pub open spec fn volume_of(percent: int) -> int {
    let volume = nearest(percent * 0x10000, 100);
    if volume <= u32::MAX {
        volume
    } else {
        u32::MAX as int
    }
}

/// Converts the average raw volume of a stream's channels to a percentage: the nearest whole
/// percentage of [`VOLUME_NORMAL`], at most [`PERCENT_MAX`].
pub fn vol_to_percent(average: u32) -> (percent: u32)
    ensures
        percent == percent_of(average as int),
        percent <= PERCENT_MAX,
{
    // `nearest(average * 100, 0x10000)`, with the factors multiplied out.
    let rounded: u64 = (average as u64 * 200 + 65536) / 131072;
    if rounded <= PERCENT_MAX as u64 {
        rounded as u32
    } else {
        PERCENT_MAX
    }
}

/// Converts a percentage to a volume request for `channels` channels: the raw volume nearest to
/// that percentage of [`VOLUME_NORMAL`], or `u32::MAX` where that does not fit.
pub fn percent_to_vol(percent: u32, channels: u8) -> (cv: ChannelVolumes)
    requires
        channels <= CHANNELS_MAX,
    ensures
        cv.channels == channels,
        cv.volume == volume_of(percent as int),
{
    // `nearest(percent * 0x10000, 100)`, with the factors multiplied out.
    let rounded: u64 = (percent as u64 * 131072 + 100) / 200;
    let volume: u32 = if rounded <= u32::MAX as u64 {
        rounded as u32
    } else {
        u32::MAX
    };
    ChannelVolumes { channels, volume }
}

/// `nearest` is within half a unit of the exact quotient.
pub proof fn nearest_is_closest(num: int, den: int)
    requires
        den > 0,
    ensures
        -den < 2 * (nearest(num, den) * den - num) <= den,
{
    let n = 2 * num + den;
    let d = 2 * den;
    let q = n / d;
    assert(q * d <= n < q * d + d) by (nonlinear_arith)
        requires
            d > 0,
            q == n / d,
    ;
    assert(q * d == 2 * (q * den)) by (nonlinear_arith)
        requires
            d == 2 * den,
    ;
}

/// A percentage that was sent to the server is shown again unchanged, up to the cap.
pub proof fn percent_round_trip(percent: u32)
    ensures
        percent_of(volume_of(percent as int)) == if percent <= PERCENT_MAX {
            percent as int
        } else {
            PERCENT_MAX as int
        },
{
}

/// A louder volume is never shown as a smaller percentage.
pub proof fn percent_of_monotone(quiet: int, loud: int)
    requires
        quiet <= loud,
    ensures
        percent_of(quiet) <= percent_of(loud),
{
}

/// A larger percentage never asks for a smaller volume.
pub proof fn volume_of_monotone(small: int, large: int)
    requires
        small <= large,
    ensures
        volume_of(small) <= volume_of(large),
{
}

/// Silence and full volume are exact in both directions: 0 % is raw volume 0, and 100 % is
/// [`VOLUME_NORMAL`].
pub proof fn reference_points()
    ensures
        volume_of(0) == 0,
        percent_of(0) == 0,
        volume_of(100) == VOLUME_NORMAL,
        percent_of(VOLUME_NORMAL as int) == 100,
{
}

/// A percentage below the cap is the one nearest to the exact share of 100 %, and the cap is shown
/// only from 149.5 % on.
pub proof fn percent_is_nearest(average: u32)
    ensures
        0 <= percent_of(average as int) <= 150,
        percent_of(average as int) < 150 ==> -65536 < 2 * (percent_of(average as int) * 65536
            - average * 100) <= 65536,
        percent_of(average as int) == 150 <==> 2 * (average * 100) >= 299 * 65536,
{
}

/// A volume is the one nearest to the exact share of the normal volume that the percentage stands
/// for, as long as it fits.
pub proof fn volume_is_nearest(percent: u32)
    ensures
        0 <= volume_of(percent as int) <= u32::MAX,
        percent < 6_553_600 ==> -100 < 2 * (volume_of(percent as int) * 100 - percent * 65536)
            <= 100,
        percent >= 6_553_600 ==> volume_of(percent as int) == u32::MAX,
{
}

/// Different percentages ask for different volumes, as long as they fit.
pub proof fn volumes_tell_percentages_apart(left: u32, right: u32)
    requires
        left < right <= 6_553_600,
    ensures
        volume_of(left as int) < volume_of(right as int),
{
}

} // verus!
