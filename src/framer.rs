use vstd::prelude::*;
use crate::config::PORCUPINE_FRAME_LENGTH;

verus! {

/// The complete frames at the front of a stream, in order.
pub open spec fn frames_of<T>(s: Seq<T>) -> Seq<Seq<T>>
    decreases s.len(),
{
    if s.len() < PORCUPINE_FRAME_LENGTH {
        Seq::empty()
    } else {
        seq![s.take(PORCUPINE_FRAME_LENGTH as int)] + frames_of(s.skip(PORCUPINE_FRAME_LENGTH as int))
    }
}

/// What is left of a stream after its complete frames.
pub open spec fn remainder_of<T>(s: Seq<T>) -> Seq<T>
    decreases s.len(),
{
    if s.len() < PORCUPINE_FRAME_LENGTH {
        s
    } else {
        remainder_of(s.skip(PORCUPINE_FRAME_LENGTH as int))
    }
}

/// The views of a list of frames.
pub open spec fn frame_views<T>(frames: Seq<Vec<T>>) -> Seq<Seq<T>> {
    frames.map_values(|f: Vec<T>| f@)
}

/// Splitting a stream into frames loses and reorders nothing: the frames,
/// concatenated, followed by the remainder, give back the stream; every
/// frame holds exactly one frame length of samples and the remainder holds
/// less than that.
pub proof fn lemma_frames_reassemble<T>(s: Seq<T>)
    ensures
        frames_of(s).flatten() + remainder_of(s) == s,
        forall|i: int| 0 <= i < frames_of(s).len() ==> #[trigger] frames_of(s)[i].len() == PORCUPINE_FRAME_LENGTH,
        remainder_of(s).len() < PORCUPINE_FRAME_LENGTH,
    decreases s.len(),
{
    if s.len() >= PORCUPINE_FRAME_LENGTH {
        let n = PORCUPINE_FRAME_LENGTH as int;
        let rest = s.skip(n);
        lemma_frames_reassemble(rest);
        let fs = frames_of(s);
        assert(fs == seq![s.take(n)] + frames_of(rest));
        assert(fs.first() == s.take(n));
        assert(fs.drop_first() =~= frames_of(rest));
        assert(fs.flatten() == s.take(n) + frames_of(rest).flatten());
        assert(remainder_of(s) == remainder_of(rest));
        assert(s.take(n) + rest =~= s);
        assert(fs.flatten() + remainder_of(s) =~= s.take(n) + (frames_of(rest).flatten() + remainder_of(rest)));
        assert forall|i: int| 0 <= i < fs.len() implies #[trigger] fs[i].len() == PORCUPINE_FRAME_LENGTH by {
            if i > 0 {
                assert(fs[i] == frames_of(rest)[i - 1]);
            }
        }
    }
}

/// Every frame handed out over a run of pushes, starting from the held-back
/// samples `held`.
pub open spec fn session_frames<T>(held: Seq<T>, inputs: Seq<Seq<T>>) -> Seq<Seq<T>>
    decreases inputs.len(),
{
    if inputs.len() == 0 {
        Seq::empty()
    } else {
        let s = held + inputs[0];
        frames_of(s) + session_frames(remainder_of(s), inputs.drop_first())
    }
}

/// What is held back after a run of pushes, starting from `held`.
pub open spec fn session_remainder<T>(held: Seq<T>, inputs: Seq<Seq<T>>) -> Seq<T>
    decreases inputs.len(),
{
    if inputs.len() == 0 {
        held
    } else {
        session_remainder(remainder_of(held + inputs[0]), inputs.drop_first())
    }
}

/// Over a whole session of pushes no sample is lost or reordered: all frames
/// handed out, in order, followed by what is still held back, are exactly
/// the samples pushed; and no frame is shorter than a frame length.
pub proof fn lemma_session_reassembles<T>(held: Seq<T>, inputs: Seq<Seq<T>>)
    ensures
        session_frames(held, inputs).flatten() + session_remainder(held, inputs) == held + inputs.flatten(),
        forall|i: int| 0 <= i < session_frames(held, inputs).len()
            ==> #[trigger] session_frames(held, inputs)[i].len() == PORCUPINE_FRAME_LENGTH,
    decreases inputs.len(),
{
    if inputs.len() == 0 {
        assert(held + inputs.flatten() =~= held);
        assert(session_frames(held, inputs).flatten() + held =~= held);
    } else {
        let s = held + inputs[0];
        let r = remainder_of(s);
        let rest = inputs.drop_first();
        lemma_frames_reassemble(s);
        lemma_session_reassembles(r, rest);
        vstd::seq_lib::lemma_flatten_concat(frames_of(s), session_frames(r, rest));
        assert(inputs.flatten() == inputs[0] + rest.flatten());
        assert(session_frames(held, inputs).flatten() + session_remainder(held, inputs)
            =~= frames_of(s).flatten() + (session_frames(r, rest).flatten() + session_remainder(r, rest)));
        assert(frames_of(s).flatten() + (r + rest.flatten()) =~= (frames_of(s).flatten() + r) + rest.flatten());
        assert(held + inputs.flatten() =~= s + rest.flatten());
        let fs = session_frames(held, inputs);
        assert forall|i: int| 0 <= i < fs.len() implies #[trigger] fs[i].len() == PORCUPINE_FRAME_LENGTH by {
            if i < frames_of(s).len() {
                assert(fs[i] == frames_of(s)[i]);
            } else {
                assert(fs[i] == session_frames(r, rest)[i - frames_of(s).len()]);
            }
        }
    }
}

/// Accumulates mono samples and cuts them into fixed-length frames.
pub struct Framer<T> {
    buffer: Vec<T>,
}

impl<T: Copy> Framer<T> {
    /// The samples held back until a frame is complete.
    pub closed spec fn pending(&self) -> Seq<T> {
        self.buffer@
    }

    /// Never a full frame held back.
    pub open spec fn wf(&self) -> bool {
        self.pending().len() < PORCUPINE_FRAME_LENGTH
    }

    /// An empty framer.
    pub fn new() -> (r: Framer<T>)
        ensures
            r.pending() == Seq::<T>::empty(),
            r.wf(),
    {
        Framer { buffer: Vec::new() }
    }

    /// Number of samples held back.
    pub fn pending_len(&self) -> (r: usize)
        ensures
            r == self.pending().len(),
    {
        self.buffer.len()
    }

    /// Appends samples and hands out every frame that is now complete, in
    /// order; what does not fill a frame is kept for the next call.
    pub fn push(&mut self, samples: &Vec<T>) -> (frames: Vec<Vec<T>>)
        requires
            old(self).wf(),
            old(self).pending().len() + samples@.len() <= usize::MAX,
        ensures
            final(self).wf(),
            frame_views(frames@) == frames_of(old(self).pending() + samples@),
            final(self).pending() == remainder_of(old(self).pending() + samples@),
    {
        let ghost whole = old(self).pending() + samples@;
        let mut stream: Vec<T> = Vec::new();
        let mut k: usize = 0;
        while k < self.buffer.len()
            invariant
                k <= self.buffer@.len(),
                self.buffer@ == old(self).pending(),
                stream@ == self.buffer@.take(k as int),
            decreases self.buffer@.len() - k,
        {
            stream.push(self.buffer[k]);
            k = k + 1;
            assert(stream@ =~= self.buffer@.take(k as int));
        }
        let mut k: usize = 0;
        while k < samples.len()
            invariant
                k <= samples@.len(),
                stream@ == old(self).pending() + samples@.take(k as int),
            decreases samples@.len() - k,
        {
            stream.push(samples[k]);
            k = k + 1;
            assert(stream@ =~= old(self).pending() + samples@.take(k as int));
        }
        assert(samples@.take(samples@.len() as int) =~= samples@);
        assert(stream@ == whole);

        let mut frames: Vec<Vec<T>> = Vec::new();
        let mut base: usize = 0;
        assert(whole.skip(0) =~= whole);
        assert(frame_views(frames@) =~= Seq::<Seq<T>>::empty());
        assert(frame_views(frames@) + frames_of(whole) =~= frames_of(whole));
        while stream.len() - base >= PORCUPINE_FRAME_LENGTH
            invariant
                base <= stream@.len(),
                stream@ == whole,
                frame_views(frames@) + frames_of(whole.skip(base as int)) == frames_of(whole),
                remainder_of(whole.skip(base as int)) == remainder_of(whole),
            decreases stream@.len() - base,
        {
            let ghost tail = whole.skip(base as int);
            let mut frame: Vec<T> = Vec::new();
            let mut j: usize = 0;
            while j < PORCUPINE_FRAME_LENGTH
                invariant
                    j <= PORCUPINE_FRAME_LENGTH,
                    base + PORCUPINE_FRAME_LENGTH <= stream.len(),
                    stream@ == whole,
                    tail == whole.skip(base as int),
                    frame@ == tail.take(j as int),
                decreases PORCUPINE_FRAME_LENGTH - j,
            {
                frame.push(stream[base + j]);
                j = j + 1;
                assert(frame@ =~= tail.take(j as int));
            }
            let ghost before = frames@;
            frames.push(frame);
            base = base + PORCUPINE_FRAME_LENGTH;
            proof {
                let n = PORCUPINE_FRAME_LENGTH as int;
                assert(whole.skip(base as int) =~= tail.skip(n));
                assert(frames_of(tail) == seq![tail.take(n)] + frames_of(tail.skip(n)));
                assert(frame_views(frames@) =~= frame_views(before).push(tail.take(n)));
                assert(frame_views(frames@) + frames_of(tail.skip(n)) =~= frame_views(before) + frames_of(tail));
            }
        }
        let mut rest: Vec<T> = Vec::new();
        let mut k: usize = base;
        while k < stream.len()
            invariant
                base <= k <= stream@.len(),
                stream@ == whole,
                rest@ == whole.subrange(base as int, k as int),
            decreases stream@.len() - k,
        {
            rest.push(stream[k]);
            k = k + 1;
            assert(rest@ =~= whole.subrange(base as int, k as int));
        }
        proof {
            let tail = whole.skip(base as int);
            assert(tail.len() < PORCUPINE_FRAME_LENGTH);
            assert(rest@ =~= tail);
            assert(frames_of(tail) =~= Seq::<Seq<T>>::empty());
            assert(frame_views(frames@) + frames_of(tail) =~= frame_views(frames@));
        }
        self.buffer = rest;
        frames
    }
}

} // verus!
