//! The mixer: one output chunk per chunk of the primary producer, with the
//! other producers attenuated and added in, and the sum scaled down when
//! it would clip.

use vstd::prelude::*;
use crate::gain::{
    attenuate, attenuated, lemma_round_div_bound, lemma_round_div_nearest, round_div, scale_sample,
    scaled, Gain,
};
use crate::remap::{accumulated, fill_buffer_i16};
use crate::sample::{magnitude, sample_magnitude, sign_of};
use crate::stream::StreamSettings;

verus! {

/// Channel count of every chunk that the mixer emits.
pub const OUTPUT_CHANNELS: u16 = 2;

/// Sample rate assumed when no producer reports one.
pub const DEFAULT_SAMPLE_RATE: u32 = 48000;

/// One emitted chunk: interleaved 16-bit samples with the sample rate and
/// channel count they are to be played at.
pub struct PcmChunk {
    pub sample_rate: u32,
    pub channels: u16,
    pub samples: Vec<i16>,
}

/// Largest magnitude among the samples of a buffer; zero for an empty one.
pub open spec fn peak(buf: Seq<i16>) -> int
    decreases buf.len(),
{
    if buf.len() == 0 {
        0
    } else {
        let rest = peak(buf.drop_last());
        if magnitude(buf.last()) > rest {
            magnitude(buf.last())
        } else {
            rest
        }
    }
}

/// A buffer after clip protection: unchanged while its peak is
/// representable, otherwise every sample scaled by `32767 / peak`.
pub open spec fn normalized(buf: Seq<i16>) -> Seq<i16> {
    let p = peak(buf);
    if p > 32767 {
        Seq::new(buf.len(), |i: int| scaled(buf[i], 32767, p))
    } else {
        buf
    }
}

/// Number of whole frames in `len` interleaved samples; a channel count of
/// zero counts as one.
pub open spec fn frame_count(len: int, channels: int) -> int {
    if channels <= 1 {
        len
    } else {
        len / channels
    }
}

/// The output buffer after the primary chunk alone: silence of the
/// primary's frame count in two channels, with the primary remapped in.
pub open spec fn primary_mix(primary: Seq<i16>, channels: int) -> Seq<i16> {
    let frames = frame_count(primary.len() as int, channels);
    accumulated(Seq::new((frames * 2) as nat, |i: int| 0i16), primary, channels, 2, frames)
}

/// Channel count of producer `idx` under a layout; one where the layout
/// names none.
pub open spec fn channels_of(layout: Seq<usize>, idx: int) -> int {
    if 0 <= idx < layout.len() {
        layout[idx] as int
    } else {
        1
    }
}

/// The output buffer after one more secondary chunk: the chunk is
/// attenuated, cut to the primary's frame count, remapped and added in.
pub open spec fn secondary_mix(
    acc: Seq<i16>,
    chunk: Seq<i16>,
    channels: int,
    gain: Gain,
    primary_frames: int,
) -> Seq<i16> {
    let own = frame_count(chunk.len() as int, channels);
    let frames = if own < primary_frames {
        own
    } else {
        primary_frames
    };
    accumulated(acc, attenuated(chunk, gain), channels, 2, frames)
}

/// The output buffer after the first `n` secondary producers, in order.
/// Producer `k` of `others` is producer `k + 1` of the layout; one that
/// had nothing to deliver leaves the buffer as it was.
pub open spec fn secondaries_mix(
    acc: Seq<i16>,
    others: Seq<Option<Vec<i16>>>,
    layout: Seq<usize>,
    n: int,
    gain: Gain,
    primary_frames: int,
) -> Seq<i16>
    decreases n,
{
    if n <= 0 {
        acc
    } else {
        let prev = secondaries_mix(acc, others, layout, n - 1, gain, primary_frames);
        match others[n - 1] {
            Some(chunk) => secondary_mix(prev, chunk@, channels_of(layout, n), gain, primary_frames),
            None => prev,
        }
    }
}

/// What one mixer cycle emits for a primary chunk and what the secondary
/// producers had at hand.
pub open spec fn mixed(
    primary: Seq<i16>,
    others: Seq<Option<Vec<i16>>>,
    layout: Seq<usize>,
    gain: Gain,
) -> Seq<i16> {
    let channels = channels_of(layout, 0);
    normalized(
        secondaries_mix(
            primary_mix(primary, channels),
            others,
            layout,
            others.len() as int,
            gain,
            frame_count(primary.len() as int, channels),
        ),
    )
}

/// Every sample's magnitude is at most the peak, and the peak is at most
/// 32768.
pub proof fn lemma_peak_bounds(buf: Seq<i16>)
    ensures
        0 <= peak(buf) <= 32768,
        forall|i: int| 0 <= i < buf.len() ==> magnitude(#[trigger] buf[i]) <= peak(buf),
    decreases buf.len(),
{
    if buf.len() > 0 {
        lemma_peak_bounds(buf.drop_last());
        assert forall|i: int| 0 <= i < buf.len() implies magnitude(#[trigger] buf[i]) <= peak(
            buf,
        ) by {
            if i < buf.len() - 1 {
                assert(buf.drop_last()[i] == buf[i]);
            }
        }
    }
}

/// The peak of a buffer that is not empty is the magnitude of one of its
/// samples.
pub proof fn lemma_peak_attained(buf: Seq<i16>)
    requires
        buf.len() > 0,
    ensures
        exists|i: int| 0 <= i < buf.len() && magnitude(#[trigger] buf[i]) == peak(buf),
    decreases buf.len(),
{
    let rest = buf.drop_last();
    if magnitude(buf.last()) > peak(rest) || rest.len() == 0 {
        let at = buf.len() - 1;
        assert(0 <= at < buf.len() && magnitude(buf[at]) == peak(buf));
    } else {
        lemma_peak_attained(rest);
        let at = choose|i: int| 0 <= i < rest.len() && magnitude(#[trigger] rest[i]) == peak(rest);
        assert(rest[at] == buf[at]);
        assert(0 <= at < buf.len() && magnitude(buf[at]) == peak(buf));
    }
}

/// A bound on every sample's magnitude is a bound on the peak.
pub proof fn lemma_peak_at_most(buf: Seq<i16>, bound: int)
    requires
        bound >= 0,
        forall|i: int| 0 <= i < buf.len() ==> magnitude(#[trigger] buf[i]) <= bound,
    ensures
        peak(buf) <= bound,
    decreases buf.len(),
{
    if buf.len() > 0 {
        assert forall|i: int| 0 <= i < buf.drop_last().len() implies magnitude(
            #[trigger] buf.drop_last()[i],
        ) <= bound by {
            assert(buf.drop_last()[i] == buf[i]);
        }
        lemma_peak_at_most(buf.drop_last(), bound);
    }
}

/// Clip protection is a linear scaling: while the peak is representable
/// nothing changes; otherwise each output sample is the input sample times
/// `32767 / peak`, off by at most one half from rounding, of the same sign
/// or zero, and never above 32767 in magnitude.
pub proof fn lemma_normalized_is_linear(buf: Seq<i16>, i: int)
    requires
        0 <= i < buf.len(),
    ensures
        peak(buf) <= 32767 ==> normalized(buf)[i] == buf[i],
        peak(buf) > 32767 ==> {
            let p = peak(buf);
            let out = normalized(buf)[i] as int;
            &&& out == round_div(buf[i] as int * 32767, p)
            &&& -p <= 2 * (out * p - buf[i] as int * 32767) <= p
            &&& (sign_of(out) == 0 || sign_of(out) == sign_of(buf[i] as int))
            &&& magnitude(normalized(buf)[i]) <= 32767
        },
{
    lemma_peak_bounds(buf);
    let p = peak(buf);
    if p > 32767 {
        let n = buf[i] as int * 32767;
        assert(magnitude(buf[i]) <= p);
        assert((-32767) * p <= n <= 32767 * p) by (nonlinear_arith)
            requires
                n == buf[i] as int * 32767,
                -p <= buf[i] as int <= p,
        ;
        lemma_round_div_bound(n, p, 32767);
        lemma_round_div_nearest(n, p);
    }
}

/// The product of a bounded factor and a value is bounded by the bound
/// times the value's magnitude.
proof fn lemma_product_bound(e: int, v: int, half: int, m: int)
    requires
        -half <= e <= half,
        -m <= v <= m,
        m >= 0,
        half >= 0,
    ensures
        -(half * m) <= e * v <= half * m,
{
    assert(-(half * m) <= e * v <= half * m) by (nonlinear_arith)
        requires
            -half <= e <= half,
            -m <= v <= m,
            m >= 0,
            half >= 0,
    ;
}

/// Clip protection keeps the ratio between any two samples, up to
/// rounding: cross-multiplying two output samples with the two input
/// samples gives products that differ by at most half the sum of the
/// inputs' magnitudes.
pub proof fn lemma_normalized_keeps_ratios(buf: Seq<i16>, i: int, j: int)
    requires
        0 <= i < buf.len(),
        0 <= j < buf.len(),
    ensures
        ({
            let bound = magnitude(buf[i]) + magnitude(buf[j]);
            let cross = normalized(buf)[i] as int * buf[j] as int - normalized(buf)[j] as int
                * buf[i] as int;
            -bound <= 2 * cross <= bound
        }),
{
    lemma_peak_bounds(buf);
    lemma_normalized_is_linear(buf, i);
    lemma_normalized_is_linear(buf, j);
    let p = peak(buf);
    let a = buf[i] as int;
    let b = buf[j] as int;
    let x = normalized(buf)[i] as int;
    let y = normalized(buf)[j] as int;
    if p > 32767 {
        let ei = 2 * (x * p - a * 32767);
        let ej = 2 * (y * p - b * 32767);
        let ma = magnitude(buf[i]);
        let mb = magnitude(buf[j]);
        lemma_product_bound(ei, b, p, mb);
        lemma_product_bound(ej, a, p, ma);
        assert(2 * p * (x * b - y * a) == ei * b - ej * a) by (nonlinear_arith)
            requires
                ei == 2 * (x * p - a * 32767),
                ej == 2 * (y * p - b * 32767),
        ;
        let cross = x * b - y * a;
        assert(p * mb + p * ma == p * (ma + mb)) by (nonlinear_arith);
        assert(-(p * (ma + mb)) <= p * (2 * cross) <= p * (ma + mb)) by (nonlinear_arith)
            requires
                2 * p * cross == ei * b - ej * a,
                -(p * mb) <= ei * b <= p * mb,
                -(p * ma) <= ej * a <= p * ma,
                p * mb + p * ma == p * (ma + mb),
        ;
        assert(-(ma + mb) <= 2 * cross <= ma + mb) by (nonlinear_arith)
            requires
                -(p * (ma + mb)) <= p * (2 * cross) <= p * (ma + mb),
                p > 0,
        ;
    } else {
        assert(x * b - y * a == 0) by (nonlinear_arith)
            requires
                x == a,
                y == b,
        ;
    }
}

/// After clip protection no sample exceeds the representable maximum.
pub proof fn lemma_normalized_peak(buf: Seq<i16>)
    ensures
        peak(normalized(buf)) <= 32767,
        normalized(buf).len() == buf.len(),
{
    if peak(buf) > 32767 {
        let out = normalized(buf);
        assert forall|i: int| 0 <= i < out.len() implies magnitude(#[trigger] out[i]) <= 32767 by {
            lemma_normalized_is_linear(buf, i);
        }
        lemma_peak_at_most(out, 32767);
    }
}

/// Largest magnitude among the samples of a buffer.
pub fn peak_amplitude(buf: &Vec<i16>) -> (p: u32)
    ensures
        p as int == peak(buf@),
        p <= 32768,
{
    let mut best: u32 = 0;
    let mut i: usize = 0;
    while i < buf.len()
        invariant
            i <= buf@.len(),
            best as int == peak(buf@.take(i as int)),
            best <= 32768,
        decreases buf@.len() - i,
    {
        let m: u32 = sample_magnitude(buf[i]);
        proof {
            let next = buf@.take(i as int + 1);
            assert(next.drop_last() =~= buf@.take(i as int));
            assert(next.last() == buf@[i as int]);
        }
        if m > best {
            best = m;
        }
        i += 1;
    }
    assert(buf@.take(buf@.len() as int) =~= buf@);
    best
}

/// Clip protection in place: when the peak exceeds 32767, every sample is
/// scaled by `32767 / peak`.
pub fn normalize(buf: &mut Vec<i16>)
    ensures
        final(buf)@ == normalized(old(buf)@),
        final(buf)@.len() == old(buf)@.len(),
        peak(final(buf)@) <= 32767,
{
    let ghost before = buf@;
    let p: u32 = peak_amplitude(buf);
    if p > 32767 {
        let mut i: usize = 0;
        while i < buf.len()
            invariant
                p > 32767,
                p as int == peak(before),
                buf@.len() == before.len(),
                i <= buf@.len(),
                forall|k: int| 0 <= k < i ==> #[trigger] buf@[k] == scaled(before[k], 32767, p as int),
                forall|k: int| i <= k < before.len() ==> #[trigger] buf@[k] == before[k],
            decreases buf@.len() - i,
        {
            let v: i16 = scale_sample(buf[i], 32767, p);
            buf.set(i, v);
            i += 1;
        }
    }
    proof {
        assert(buf@ =~= normalized(before));
        lemma_normalized_peak(before);
    }
}

/// A buffer of `len` silent samples.
pub fn silence(len: usize) -> (out: Vec<i16>)
    ensures
        out@ == Seq::new(len as nat, |i: int| 0i16),
{
    let mut out: Vec<i16> = Vec::with_capacity(len);
    let mut i: usize = 0;
    while i < len
        invariant
            i <= len,
            out@.len() == i,
            forall|k: int| 0 <= k < i ==> #[trigger] out@[k] == 0i16,
        decreases len - i,
    {
        out.push(0i16);
        i += 1;
    }
    assert(out@ =~= Seq::new(len as nat, |i: int| 0i16));
    out
}

/// Number of whole frames in a buffer of interleaved samples.
pub fn frames_in(len: usize, channels: usize) -> (frames: usize)
    ensures
        frames as int == frame_count(len as int, channels as int),
        frames <= len,
{
    if channels <= 1 {
        len
    } else {
        len / channels
    }
}

/// Channel count of producer `idx` under a layout.
pub fn producer_channels(layout: &Vec<usize>, idx: usize) -> (channels: usize)
    ensures
        channels as int == channels_of(layout@, idx as int),
{
    if idx < layout.len() {
        layout[idx]
    } else {
        1
    }
}

/// One mixer cycle: the primary chunk sets the length of the output, the
/// chunks of the other producers are attenuated and added in, and the sum
/// is scaled down if it would clip.
///
/// `layout` gives each producer's channel count, the primary first;
/// `others[k]` is what producer `k + 1` had at hand, if anything. The
/// output always has two channels.
pub fn mix_cycle(
    primary: &Vec<i16>,
    others: &Vec<Option<Vec<i16>>>,
    layout: &Vec<usize>,
    gain: Gain,
) -> (out: Vec<i16>)
    requires
        gain.wf(),
        2 * primary@.len() <= usize::MAX,
    ensures
        out@ == mixed(primary@, others@, layout@, gain),
        out@.len() == 2 * frame_count(primary@.len() as int, channels_of(layout@, 0)),
        peak(out@) <= 32767,
{
    let channels: usize = producer_channels(layout, 0);
    let frames: usize = frames_in(primary.len(), channels);
    let mut out: Vec<i16> = silence(frames * 2);
    fill_buffer_i16(&mut out, primary, channels, 2, frames);
    let mut k: usize = 0;
    while k < others.len()
        invariant
            gain.wf(),
            k <= others@.len(),
            out@.len() == 2 * frames,
            frames as int == frame_count(primary@.len() as int, channels_of(layout@, 0)),
            out@ == secondaries_mix(
                primary_mix(primary@, channels_of(layout@, 0)),
                others@,
                layout@,
                k as int,
                gain,
                frames as int,
            ),
        decreases others@.len() - k,
    {
        match &others[k] {
            Some(chunk) => {
                let own_channels: usize = producer_channels(layout, k + 1);
                let own: usize = frames_in(chunk.len(), own_channels);
                let count: usize = if own < frames {
                    own
                } else {
                    frames
                };
                let quiet: Vec<i16> = attenuate(chunk, gain);
                fill_buffer_i16(&mut out, &quiet, own_channels, 2, count);
            },
            None => {},
        }
        k += 1;
    }
    normalize(&mut out);
    out
}

/// What the mixer is told between two cycles.
pub enum MixerEvent {
    /// The stop signal arrived.
    Stop,
    /// The primary producer's queue was closed.
    PrimaryClosed,
    /// The primary producer delivered a chunk; `others[k]` is what
    /// producer `k + 1` had at hand without waiting, if anything.
    Primary { chunk: Vec<i16>, others: Vec<Option<Vec<i16>>> },
}

/// What the mixer's loop is to do after an event.
pub enum MixerAction {
    /// Leave the loop.
    Exit,
    /// Emit this chunk and wait for the next event.
    Emit(PcmChunk),
}

/// The mixer of one session: the channel count of each producer, the
/// primary first, the sample rate of its output, and the gain of every
/// producer but the primary.
pub struct Mixer {
    pub layout: Vec<usize>,
    pub sample_rate: u32,
    pub gain: Gain,
}

/// Channel counts of the first `n` producers' settings.
pub open spec fn layout_of(settings: Seq<StreamSettings>, n: int) -> Seq<usize>
    decreases n,
{
    if n <= 0 {
        Seq::empty()
    } else {
        layout_of(settings, n - 1).push(settings[n - 1].channels as usize)
    }
}

/// The sample rate of the output: that of the primary producer, or the
/// default where there is no producer.
pub open spec fn output_rate(settings: Seq<StreamSettings>) -> u32 {
    if settings.len() > 0 {
        settings[0].sample_rate
    } else {
        DEFAULT_SAMPLE_RATE
    }
}

impl Mixer {
    /// The mixer can be run: its gain is usable.
    pub open spec fn wf(&self) -> bool {
        self.gain.wf()
    }

    /// A mixer for producers opened with these settings, the primary
    /// first, with the default gain for the others.
    pub fn new(settings: &Vec<StreamSettings>) -> (m: Mixer)
        ensures
            m.wf(),
            m.layout@ == layout_of(settings@, settings@.len() as int),
            m.layout@.len() == settings@.len(),
            m.sample_rate == output_rate(settings@),
            m.gain == Gain::secondary_default_spec(),
    {
        let mut layout: Vec<usize> = Vec::with_capacity(settings.len());
        let mut i: usize = 0;
        while i < settings.len()
            invariant
                i <= settings@.len(),
                layout@.len() == i,
                layout@ == layout_of(settings@, i as int),
            decreases settings@.len() - i,
        {
            layout.push(settings[i].channels as usize);
            i += 1;
        }
        let sample_rate: u32 = if settings.len() > 0 {
            settings[0].sample_rate
        } else {
            DEFAULT_SAMPLE_RATE
        };
        Mixer { layout, sample_rate, gain: Gain::secondary_default() }
    }

    /// Whether there is any producer to mix. The loop is not entered
    /// without one.
    pub fn has_producers(&self) -> (r: bool)
        ensures
            r == (self.layout@.len() > 0),
    {
        self.layout.len() > 0
    }

    /// One turn of the mixer's loop. The stop signal and a closed primary
    /// queue end the loop; a primary chunk is mixed with what the other
    /// producers had at hand and emitted in two channels at the primary's
    /// sample rate.
    pub fn on_event(&self, event: MixerEvent) -> (action: MixerAction)
        requires
            self.wf(),
            event matches MixerEvent::Primary { chunk, .. } ==> 2 * chunk@.len() <= usize::MAX,
        ensures
            match event {
                MixerEvent::Stop => action is Exit,
                MixerEvent::PrimaryClosed => action is Exit,
                MixerEvent::Primary { chunk, others } => {
                    &&& action is Emit
                    &&& action->Emit_0.sample_rate == self.sample_rate
                    &&& action->Emit_0.channels == OUTPUT_CHANNELS
                    &&& action->Emit_0.samples@ == mixed(chunk@, others@, self.layout@, self.gain)
                    &&& peak(action->Emit_0.samples@) <= 32767
                },
            },
    {
        match event {
            MixerEvent::Stop => MixerAction::Exit,
            MixerEvent::PrimaryClosed => MixerAction::Exit,
            MixerEvent::Primary { chunk, others } => {
                let samples: Vec<i16> = mix_cycle(&chunk, &others, &self.layout, self.gain);
                MixerAction::Emit(
                    PcmChunk { sample_rate: self.sample_rate, channels: OUTPUT_CHANNELS, samples },
                )
            },
        }
    }
}

} // verus!
