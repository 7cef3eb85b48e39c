//! Channel remapping: adding an interleaved buffer of one channel count
//! into an interleaved buffer of another, sample by sample, with saturation.

use vstd::prelude::*;
use crate::sample::{saturate, saturating_sum};

verus! {

/// Mean of a left and a right sample, rounded toward zero.
pub open spec fn average(left: i16, right: i16) -> i16 {
    let sum = left as int + right as int;
    if sum >= 0 {
        (sum / 2) as i16
    } else {
        (-((-sum) / 2)) as i16
    }
}

/// Number of whole frames that an accumulation touches: the frames asked
/// for, cut to what the target and the source each hold.
pub open spec fn effective_frames(
    target_len: int,
    src_len: int,
    src_channels: int,
    dst_channels: int,
    frames: int,
) -> int
    recommends
        src_channels > 0,
        dst_channels > 0,
{
    let by_target = target_len / dst_channels;
    let by_src = src_len / src_channels;
    let least = if by_target < by_src {
        by_target
    } else {
        by_src
    };
    if frames < least {
        frames
    } else {
        least
    }
}

/// The source's contribution to position `j` of the target.
///
/// Stereo into mono averages the two channels of frame `j`. Every other
/// pairing takes, for channel `c` of the target, channel `c mod
/// src_channels` of the same frame of the source: this duplicates a mono
/// sample into each target channel and copies straight through when the
/// channel counts agree.
pub open spec fn source_sample(src: Seq<i16>, src_channels: int, dst_channels: int, j: int) -> i16
    recommends
        src_channels > 0,
        dst_channels > 0,
{
    if src_channels == 2 && dst_channels == 1 {
        average(src[2 * j], src[2 * j + 1])
    } else {
        src[(j / dst_channels) * src_channels + (j % dst_channels) % src_channels]
    }
}

/// The target after `src` has been remapped and added into it.
///
/// Nothing changes when either buffer is empty or either channel count is
/// zero. Otherwise the first `effective_frames` frames of the target each
/// receive the source's contribution by saturating addition, and the rest
/// of the target is left as it was.
pub open spec fn accumulated(
    target: Seq<i16>,
    src: Seq<i16>,
    src_channels: int,
    dst_channels: int,
    frames: int,
) -> Seq<i16> {
    if src.len() == 0 || target.len() == 0 || src_channels <= 0 || dst_channels <= 0 {
        target
    } else {
        let touched = effective_frames(
            target.len() as int,
            src.len() as int,
            src_channels,
            dst_channels,
            frames,
        ) * dst_channels;
        Seq::new(
            target.len(),
            |j: int|
                if j < touched {
                    saturate(target[j] as int + source_sample(src, src_channels, dst_channels, j) as int)
                } else {
                    target[j]
                },
        )
    }
}

proof fn lemma_frames_fit(len: int, channels: int, frames: int)
    requires
        channels > 0,
        len >= 0,
        0 <= frames <= len / channels,
    ensures
        0 <= frames * channels <= len,
{
    assert((len / channels) * channels <= len) by (nonlinear_arith)
        requires
            channels > 0,
            len >= 0,
    ;
    assert(0 <= frames * channels <= (len / channels) * channels) by (nonlinear_arith)
        requires
            0 <= frames <= len / channels,
            channels > 0,
    ;
}

proof fn lemma_source_index(j: int, frames: int, src_channels: int, dst_channels: int)
    requires
        src_channels > 0,
        dst_channels > 0,
        0 <= j < frames * dst_channels,
    ensures
        0 <= j / dst_channels < frames,
        0 <= (j % dst_channels) % src_channels < src_channels,
        0 <= (j / dst_channels) * src_channels,
        (j / dst_channels) * src_channels + (j % dst_channels) % src_channels < frames
            * src_channels,
        src_channels == 2 && dst_channels == 1 ==> 2 * j + 1 < frames * src_channels,
{
    assert(0 <= j / dst_channels < frames) by (nonlinear_arith)
        requires
            dst_channels > 0,
            0 <= j < frames * dst_channels,
    ;
    let i = j / dst_channels;
    let c = (j % dst_channels) % src_channels;
    assert(0 <= c < src_channels);
    assert(0 <= i * src_channels && i * src_channels + src_channels <= frames * src_channels)
        by (nonlinear_arith)
        requires
            0 <= i < frames,
            src_channels > 0,
    ;
    if src_channels == 2 && dst_channels == 1 {
        assert(2 * j + 1 < frames * src_channels) by (nonlinear_arith)
            requires
                src_channels == 2,
                dst_channels == 1,
                0 <= j < frames * dst_channels,
        ;
    }
}

/// Mean of two samples, rounded toward zero.
pub fn average_pair(left: i16, right: i16) -> (r: i16)
    ensures
        r == average(left, right),
{
    let sum: i32 = left as i32 + right as i32;
    (sum / 2) as i16
}

/// Remaps `src` to the channel count of `target` and adds it in.
///
/// `target` and `src` are interleaved, with `dst_channels` and
/// `src_channels` samples to the frame. At most `frames` frames are
/// written; the length of `target` never changes.
pub fn fill_buffer_i16(
    target: &mut Vec<i16>,
    src: &Vec<i16>,
    src_channels: usize,
    dst_channels: usize,
    frames: usize,
)
    ensures
        final(target)@ == accumulated(
            old(target)@,
            src@,
            src_channels as int,
            dst_channels as int,
            frames as int,
        ),
        final(target)@.len() == old(target)@.len(),
{
    if src.len() == 0 || target.len() == 0 || src_channels == 0 || dst_channels == 0 {
        return ;
    }
    let ghost before = target@;
    let by_target: usize = target.len() / dst_channels;
    let by_src: usize = src.len() / src_channels;
    let least: usize = if by_target < by_src {
        by_target
    } else {
        by_src
    };
    let count: usize = if frames < least {
        frames
    } else {
        least
    };
    proof {
        lemma_frames_fit(target@.len() as int, dst_channels as int, count as int);
        lemma_frames_fit(src@.len() as int, src_channels as int, count as int);
    }
    let touched: usize = count * dst_channels;
    let averaging: bool = src_channels == 2 && dst_channels == 1;
    let mut j: usize = 0;
    while j < touched
        invariant
            src_channels > 0,
            dst_channels > 0,
            averaging == (src_channels == 2 && dst_channels == 1),
            touched == count * dst_channels,
            touched <= target@.len(),
            count * src_channels <= src@.len() <= usize::MAX,
            j <= touched,
            target@.len() == before.len(),
            forall|k: int|
                0 <= k < j ==> #[trigger] target@[k] == saturate(
                    before[k] as int + source_sample(
                        src@,
                        src_channels as int,
                        dst_channels as int,
                        k,
                    ) as int,
                ),
            forall|k: int| j <= k < before.len() ==> #[trigger] target@[k] == before[k],
        decreases touched - j,
    {
        proof {
            lemma_source_index(j as int, count as int, src_channels as int, dst_channels as int);
        }
        let sample: i16 = if averaging {
            average_pair(src[2 * j], src[2 * j + 1])
        } else {
            let frame: usize = j / dst_channels;
            let channel: usize = (j % dst_channels) % src_channels;
            src[frame * src_channels + channel]
        };
        let sum: i16 = saturating_sum(target[j], sample);
        target.set(j, sum);
        j += 1;
    }
    assert(target@ =~= accumulated(
        before,
        src@,
        src_channels as int,
        dst_channels as int,
        frames as int,
    ));
}

/// Remapping one channel into two duplicates the sample: both channels of
/// frame `i` of the target receive sample `i` of the source, and a silent
/// target holds that sample in both channels afterwards. With no frames to
/// remap, the target is unchanged.
pub proof fn lemma_mono_to_stereo_duplicates(target: Seq<i16>, src: Seq<i16>, frames: int, i: int)
    requires
        0 <= i < effective_frames(target.len() as int, src.len() as int, 1, 2, frames),
    ensures
        source_sample(src, 1, 2, 2 * i) == src[i],
        source_sample(src, 1, 2, 2 * i + 1) == src[i],
        accumulated(target, src, 1, 2, frames)[2 * i] == saturate(
            target[2 * i] as int + src[i] as int,
        ),
        accumulated(target, src, 1, 2, frames)[2 * i + 1] == saturate(
            target[2 * i + 1] as int + src[i] as int,
        ),
        target[2 * i] == 0 && target[2 * i + 1] == 0 ==> accumulated(target, src, 1, 2, frames)[2
            * i] == src[i] && accumulated(target, src, 1, 2, frames)[2 * i + 1] == src[i],
{
    let count = effective_frames(target.len() as int, src.len() as int, 1, 2, frames);
    assert(count <= target.len() as int / 2);
    assert(count <= src.len() as int);
    assert((2 * i) / 2 == i && (2 * i) % 2 == 0);
    assert((2 * i + 1) / 2 == i && (2 * i + 1) % 2 == 1);
    assert(0int % 1 == 0 && 1int % 1 == 0);
    assert(i * 1 + 0 == i);
}

/// Remapping that touches no frame leaves the target as it was.
pub proof fn lemma_no_frames_no_change(
    target: Seq<i16>,
    src: Seq<i16>,
    src_channels: int,
    dst_channels: int,
)
    ensures
        accumulated(target, src, src_channels, dst_channels, 0) =~= target,
{
    if !(src.len() == 0 || target.len() == 0 || src_channels <= 0 || dst_channels <= 0) {
        let by_target = target.len() as int / dst_channels;
        let by_src = src.len() as int / src_channels;
        assert(by_target >= 0) by (nonlinear_arith)
            requires
                by_target == target.len() as int / dst_channels,
                dst_channels > 0,
        ;
        assert(by_src >= 0) by (nonlinear_arith)
            requires
                by_src == src.len() as int / src_channels,
                src_channels > 0,
        ;
        assert(effective_frames(
            target.len() as int,
            src.len() as int,
            src_channels,
            dst_channels,
            0,
        ) == 0);
    }
}

/// With equal channel counts the source is added position by position.
pub proof fn lemma_same_layout_is_direct(src: Seq<i16>, channels: int, j: int)
    requires
        channels > 0,
        0 <= j,
    ensures
        source_sample(src, channels, channels, j) == src[j],
{
    assert((j / channels) * channels + (j % channels) % channels == j) by (nonlinear_arith)
        requires
            channels > 0,
            0 <= j,
    ;
}

} // verus!
