use vstd::prelude::*;
use crate::config::{PORCUPINE_FRAME_LENGTH, PORCUPINE_SAMPLE_RATE};
use crate::framer::{frame_views, frames_of, remainder_of, Framer};

verus! {

/// Filter length of the band-limited resampler, in taps.
pub const SINC_LEN: usize = 256;

/// Oversampling factor of the resampler's sinc table.
pub const OVERSAMPLING_FACTOR: usize = 256;

/// Largest relative change of the resampling ratio the filter is built for.
pub const MAX_RESAMPLE_RATIO_RELATIVE: u32 = 2;

/// How device audio reaches the engine's rate.
#[derive(Debug, Clone, Copy, PartialEq, Eq, Structural)]
pub enum ResamplePlan {
    /// The device already runs at the engine's rate: samples pass unchanged.
    Passthrough,
    /// Band-limited sinc resampling of mono blocks of `chunk_size` samples
    /// from `input_rate` to `output_rate`.
    Sinc {
        input_rate: u32,
        output_rate: u32,
        chunk_size: usize,
        sinc_len: usize,
        oversampling_factor: usize,
        channels: usize,
    },
}

/// Chooses the resampling path for a device rate: passthrough exactly when
/// the device runs at the engine's rate, otherwise a mono sinc resampler fed
/// frame-sized blocks.
pub fn plan_resampling(input_rate: u32) -> (r: ResamplePlan)
    ensures
        (r is Passthrough) == (input_rate == PORCUPINE_SAMPLE_RATE),
        input_rate != PORCUPINE_SAMPLE_RATE ==> r == (ResamplePlan::Sinc {
            input_rate,
            output_rate: PORCUPINE_SAMPLE_RATE,
            chunk_size: PORCUPINE_FRAME_LENGTH,
            sinc_len: SINC_LEN,
            oversampling_factor: OVERSAMPLING_FACTOR,
            channels: 1,
        }),
{
    if input_rate == PORCUPINE_SAMPLE_RATE {
        ResamplePlan::Passthrough
    } else {
        ResamplePlan::Sinc {
            input_rate,
            output_rate: PORCUPINE_SAMPLE_RATE,
            chunk_size: PORCUPINE_FRAME_LENGTH,
            sinc_len: SINC_LEN,
            oversampling_factor: OVERSAMPLING_FACTOR,
            channels: 1,
        }
    }
}

/// Mono samples on their way to the framer.
pub enum RateStage<T> {
    /// Already at the engine's rate: to be framed as they are.
    Ready(Vec<T>),
    /// Complete blocks for the sinc resampler, in order.
    Blocks(Vec<Vec<T>>),
}

/// Routes a callback's mono samples by the plan. Under passthrough the
/// samples come back exactly as given and nothing is held back; otherwise
/// they are cut into the resampler's fixed-size input blocks, keeping the
/// incomplete tail for the next call.
pub fn route_samples<T: Copy>(plan: &ResamplePlan, blocks: &mut Framer<T>, mono: Vec<T>) -> (r: RateStage<T>)
    requires
        old(blocks).wf(),
        old(blocks).pending().len() + mono@.len() <= usize::MAX,
    ensures
        final(blocks).wf(),
        *plan is Passthrough ==> r is Ready && r->Ready_0@ == mono@ && final(blocks).pending() == old(blocks).pending(),
        *plan is Sinc ==> r is Blocks
            && frame_views(r->Blocks_0@) == frames_of(old(blocks).pending() + mono@)
            && final(blocks).pending() == remainder_of(old(blocks).pending() + mono@),
{
    match plan {
        ResamplePlan::Passthrough => RateStage::Ready(mono),
        ResamplePlan::Sinc { .. } => RateStage::Blocks(blocks.push(&mono)),
    }
}

/// The native sample formats a capture stream can be built for.
#[derive(Debug, Clone, Copy, PartialEq, Eq, Structural)]
pub enum NativeFormat {
    F32,
    I16,
    U16,
}

/// Format tags as the host reports them.
#[derive(Debug, Clone, Copy, PartialEq, Eq, Structural)]
pub enum FormatTag {
    I8,
    I16,
    I32,
    I64,
    U8,
    U16,
    U32,
    U64,
    F32,
    F64,
    Other,
}

/// Picks the conversion path for a negotiated format; any format other than
/// 32-bit float, signed 16-bit or unsigned 16-bit is refused when the stream
/// is built.
pub fn select_format(tag: FormatTag) -> (r: Option<NativeFormat>)
    ensures
        tag == FormatTag::F32 ==> r == Some(NativeFormat::F32),
        tag == FormatTag::I16 ==> r == Some(NativeFormat::I16),
        tag == FormatTag::U16 ==> r == Some(NativeFormat::U16),
        tag != FormatTag::F32 && tag != FormatTag::I16 && tag != FormatTag::U16 ==> r is None,
{
    match tag {
        FormatTag::F32 => Some(NativeFormat::F32),
        FormatTag::I16 => Some(NativeFormat::I16),
        FormatTag::U16 => Some(NativeFormat::U16),
        _ => None,
    }
}

/// Bookkeeping of the real-time capture callback: plain counters and a
/// closed flag, owned by the callback alone.
pub struct CaptureBridge {
    callbacks: u64,
    samples_received: u64,
    closed: bool,
}

impl CaptureBridge {
    pub closed spec fn callbacks(&self) -> u64 {
        self.callbacks
    }

    pub closed spec fn samples_received(&self) -> u64 {
        self.samples_received
    }

    /// Whether a send has failed, which silences the callback for good.
    pub closed spec fn closed(&self) -> bool {
        self.closed
    }

    /// No callback seen yet.
    pub fn new() -> (r: CaptureBridge)
        ensures
            r.callbacks() == 0,
            r.samples_received() == 0,
            !r.closed(),
    {
        CaptureBridge { callbacks: 0, samples_received: 0, closed: false }
    }

    /// Counts a callback of `n` samples and says whether to process them:
    /// only while the running flag is set and no send has failed. Counters
    /// saturate rather than wrap.
    pub fn on_callback(&mut self, running: bool, n: usize) -> (r: bool)
        ensures
            r == (running && !old(self).closed()),
            final(self).closed() == old(self).closed(),
            final(self).callbacks() == (if old(self).callbacks() < u64::MAX { old(self).callbacks() + 1 } else { u64::MAX as int }),
            final(self).samples_received() == (if old(self).samples_received() + n <= u64::MAX {
                old(self).samples_received() + n
            } else {
                u64::MAX as int
            }),
    {
        self.callbacks = self.callbacks.saturating_add(1);
        self.samples_received = self.samples_received.saturating_add(n as u64);
        running && !self.closed
    }

    /// Records a failed send (the worker is gone). Returns whether this is
    /// the first failure, the only one worth reporting.
    pub fn on_send_failed(&mut self) -> (r: bool)
        ensures
            r == !old(self).closed(),
            final(self).closed(),
            final(self).callbacks() == old(self).callbacks(),
            final(self).samples_received() == old(self).samples_received(),
    {
        let first = !self.closed;
        self.closed = true;
        first
    }

    /// Number of callbacks seen.
    pub fn callback_count(&self) -> (r: u64)
        ensures
            r == self.callbacks(),
    {
        self.callbacks
    }

    /// Number of samples received.
    pub fn total_samples(&self) -> (r: u64)
        ensures
            r == self.samples_received(),
    {
        self.samples_received
    }
}

} // verus!
