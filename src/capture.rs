use vstd::prelude::*;
use base64::Engine as _;
use crate::error::AudioCaptureError;

verus! {

/// Sample rate, in hertz, that the realtime speech service expects.
pub const OPENAI_SAMPLE_RATE: u32 = 24000;

/// Smallest chunk, in samples, that is forwarded to the speech service.
pub const BUFFER_SIZE: usize = 1024;

/// Rolling-buffer length beyond which old audio is dropped: ten seconds.
pub const MAX_BUFFERED_SAMPLES: usize = 240000;

/// What is kept when the rolling buffer is trimmed: the last five seconds.
pub const KEPT_SAMPLES: usize = 120000;

/// Padded standard-alphabet base64 text of a byte string.
pub uninterp spec fn base64_standard(bytes: Seq<u8>) -> Seq<char>;

/// Relies on base64's `general_purpose::STANDARD.encode`: the padded
/// standard-alphabet encoding, which depends on the bytes alone. It panics
/// when the encoded length overflows `usize`, which `requires` rules out.
#[verifier::external_body]
fn encode_base64(bytes: &Vec<u8>) -> (r: String)
    requires
        bytes@.len() <= usize::MAX / 4 * 3,
    ensures
        r@ == base64_standard(bytes@),
{
    base64::engine::general_purpose::STANDARD.encode(bytes)
}

/// The 16-bit two's complement pattern of a sample.
pub open spec fn sample_bits(x: i16) -> int {
    if x < 0 { x + 65536 } else { x as int }
}

/// Little-endian bytes of 16-bit samples, two per sample.
pub open spec fn le_bytes(s: Seq<i16>) -> Seq<u8> {
    Seq::new(
        2 * s.len(),
        |i: int| if i % 2 == 0 { (sample_bits(s[i / 2]) % 256) as u8 } else { (sample_bits(s[i / 2]) / 256) as u8 },
    )
}

/// Serialises samples as little-endian 16-bit PCM.
pub fn pcm16_le_bytes(samples: &Vec<i16>) -> (r: Vec<u8>)
    requires
        2 * samples@.len() <= usize::MAX,
    ensures
        r@ == le_bytes(samples@),
{
    let mut r: Vec<u8> = Vec::new();
    let mut i: usize = 0;
    while i < samples.len()
        invariant
            i <= samples@.len(),
            r@.len() == 2 * i,
            forall|j: int| 0 <= j < 2 * i ==> #[trigger] r@[j] == le_bytes(samples@)[j],
        decreases samples@.len() - i,
    {
        let x = samples[i];
        let bits: u32 = if x < 0 { (x as i32 + 65536) as u32 } else { x as u32 };
        r.push((bits % 256) as u8);
        r.push((bits / 256) as u8);
        proof {
            assert((2 * i) / 2 == i as int);
            assert((2 * i + 1) / 2 == i as int);
            assert((2 * i) % 2 == 0);
            assert((2 * i + 1) % 2 == 1);
        }
        i = i + 1;
    }
    assert(r@ =~= le_bytes(samples@));
    r
}

/// Encodes samples for the speech service: base64 of their little-endian
/// 16-bit PCM bytes.
pub fn encode_audio_chunk(samples: &Vec<i16>) -> (r: String)
    requires
        2 * samples@.len() <= usize::MAX / 4 * 3,
    ensures
        r@ == base64_standard(le_bytes(samples@)),
{
    let bytes = pcm16_le_bytes(samples);
    encode_base64(&bytes)
}

/// The rolling buffer after appending: when it grows past ten seconds only
/// the last five are kept.
pub open spec fn trimmed(s: Seq<i16>) -> Seq<i16> {
    if s.len() > MAX_BUFFERED_SAMPLES {
        s.skip(s.len() - KEPT_SAMPLES)
    } else {
        s
    }
}

/// Audio held for the speech service, bounded in length.
pub struct ChunkBuffer {
    samples: Vec<i16>,
}

impl ChunkBuffer {
    pub closed spec fn view(&self) -> Seq<i16> {
        self.samples@
    }

    /// An empty buffer.
    pub fn new() -> (r: ChunkBuffer)
        ensures
            r.view() == Seq::<i16>::empty(),
    {
        ChunkBuffer { samples: Vec::new() }
    }

    /// Number of buffered samples.
    pub fn len(&self) -> (r: usize)
        ensures
            r == self.view().len(),
    {
        self.samples.len()
    }

    /// Buffers a captured chunk, trimming the buffer to its last five
    /// seconds when it passes ten, and returns the chunk's encoding when the
    /// chunk is long enough to forward.
    pub fn process_audio_chunk(&mut self, samples: &Vec<i16>) -> (r: Option<String>)
        requires
            old(self).view().len() <= MAX_BUFFERED_SAMPLES,
            2 * samples@.len() <= usize::MAX / 4 * 3,
        ensures
            final(self).view() == trimmed(old(self).view() + samples@),
            final(self).view().len() <= MAX_BUFFERED_SAMPLES,
            r is Some <==> samples@.len() >= BUFFER_SIZE,
            r is Some ==> r->0@ == base64_standard(le_bytes(samples@)),
    {
        let ghost whole = old(self).view() + samples@;
        let mut k: usize = 0;
        while k < samples.len()
            invariant
                k <= samples@.len(),
                self.samples@ == old(self).view() + samples@.take(k as int),
                old(self).view().len() <= MAX_BUFFERED_SAMPLES,
                2 * samples@.len() <= usize::MAX / 4 * 3,
            decreases samples@.len() - k,
        {
            self.samples.push(samples[k]);
            k = k + 1;
            assert(self.samples@ =~= old(self).view() + samples@.take(k as int));
        }
        assert(samples@.take(samples@.len() as int) =~= samples@);
        let n = self.samples.len();
        if n > MAX_BUFFERED_SAMPLES {
            let drop_count = n - KEPT_SAMPLES;
            let mut kept: Vec<i16> = Vec::new();
            let mut j: usize = drop_count;
            while j < n
                invariant
                    drop_count <= j <= n,
                    n == self.samples@.len(),
                    self.samples@ == whole,
                    kept@ == whole.subrange(drop_count as int, j as int),
                decreases n - j,
            {
                kept.push(self.samples[j]);
                j = j + 1;
                assert(kept@ =~= whole.subrange(drop_count as int, j as int));
            }
            self.samples = kept;
            assert(self.samples@ =~= whole.skip(whole.len() - KEPT_SAMPLES));
        }
        if samples.len() >= BUFFER_SIZE {
            Some(encode_audio_chunk(samples))
        } else {
            None
        }
    }
}

/// Start and stop decisions of the speech-service capture.
pub struct AudioCaptureService {
    recording: bool,
}

impl AudioCaptureService {
    pub closed spec fn recording(&self) -> bool {
        self.recording
    }

    /// Not recording.
    pub fn new() -> (r: AudioCaptureService)
        ensures
            !r.recording(),
    {
        AudioCaptureService { recording: false }
    }

    /// Whether capture is running.
    pub fn is_recording(&self) -> (r: bool)
        ensures
            r == self.recording(),
    {
        self.recording
    }

    /// Records a start request whose stream was set up with outcome
    /// `setup`. Starting while recording is a quiet no-op; a failed setup
    /// leaves capture stopped.
    pub fn start_capture(&mut self, setup: Result<(), AudioCaptureError>) -> (r: Result<(), AudioCaptureError>)
        ensures
            old(self).recording() ==> r is Ok && final(self).recording(),
            !old(self).recording() ==> r == setup && final(self).recording() == setup is Ok,
    {
        if self.recording {
            return Ok(());
        }
        if setup.is_ok() {
            self.recording = true;
        }
        setup
    }

    /// Stops capture; stopping a stopped capture is a quiet no-op.
    pub fn stop_capture(&mut self) -> (r: Result<(), AudioCaptureError>)
        ensures
            r is Ok,
            !final(self).recording(),
    {
        self.recording = false;
        Ok(())
    }
}

} // verus!
