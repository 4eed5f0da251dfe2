use vstd::prelude::*;

verus! {

/// Number of interleaved frames (the last one possibly partial) in `n`
/// samples of `channels` channels.
pub open spec fn frame_count(n: int, channels: int) -> int {
    (n + channels - 1) / channels
}

proof fn lemma_ceil_div(n: int, ch: int, k: int)
    requires
        ch >= 1,
        n >= 0,
        k >= 0,
        k * ch >= n,
        (k - 1) * ch < n,
    ensures
        k == frame_count(n, ch),
{
    assert(k * ch <= n + ch - 1) by (nonlinear_arith)
        requires (k - 1) * ch < n, ch >= 1;
    assert(n + ch - 1 < (k + 1) * ch) by (nonlinear_arith)
        requires k * ch >= n, ch >= 1;
    vstd::arithmetic::div_mod::lemma_fundamental_div_mod(n + ch - 1, ch);
    let q = (n + ch - 1) / ch;
    let r = (n + ch - 1) % ch;
    assert(q == k) by (nonlinear_arith)
        requires
            n + ch - 1 == ch * q + r,
            0 <= r < ch,
            k * ch <= n + ch - 1,
            n + ch - 1 < (k + 1) * ch,
            ch >= 1;
}

/// Down-mixes interleaved multi-channel samples to mono by keeping channel 0
/// of every frame; channels are never averaged. A trailing partial frame
/// still contributes its first sample.
pub fn downmix<T: Copy>(data: &Vec<T>, channels: usize) -> (r: Vec<T>)
    requires
        channels >= 1,
    ensures
        r@.len() == frame_count(data@.len() as int, channels as int),
        forall|i: int| 0 <= i < r@.len() ==> #[trigger] r@[i] == data@[i * channels],
{
    let mut r: Vec<T> = Vec::new();
    let mut pos: usize = 0;
    let n = data.len();
    assert(r@.len() * channels == 0);
    while pos < n
        invariant
            n == data@.len(),
            channels >= 1,
            pos == r@.len() * channels,
            r@.len() == 0 || (r@.len() - 1) * channels < n,
            pos < n || r@.len() * channels >= n,
            forall|i: int| 0 <= i < r@.len() ==> #[trigger] r@[i] == data@[i * channels],
        decreases n - pos,
    {
        let ghost k = r@.len();
        r.push(data[pos]);
        assert(r@[k as int] == data@[k * channels]);
        if n - pos <= channels {
            proof {
                assert((r@.len() - 1) * channels < n);
                assert(r@.len() * channels == pos + channels) by (nonlinear_arith)
                    requires pos == k * channels, r@.len() == k + 1;
            }
            pos = n;
            proof {
                lemma_ceil_div(n as int, channels as int, r@.len() as int);
            }
            return r;
        }
        pos = pos + channels;
        assert(pos == r@.len() * channels) by (nonlinear_arith)
            requires pos == k * channels + channels, r@.len() == k + 1;
    }
    proof {
        if r@.len() == 0 {
            assert(n == 0);
        }
        lemma_ceil_div(n as int, channels as int, r@.len() as int);
    }
    r
}

/// Re-centres an unsigned 16-bit sample on zero.
pub fn recenter_u16(s: u16) -> (r: i16)
    ensures
        r == s as int - 32768,
{
    (s as i32 - 32768) as i16
}

/// Converts interleaved unsigned 16-bit samples to signed mono samples:
/// channel 0 of each frame, re-centred on zero.
pub fn u16_to_mono_i16(data: &Vec<u16>, channels: usize) -> (r: Vec<i16>)
    requires
        channels >= 1,
    ensures
        r@.len() == frame_count(data@.len() as int, channels as int),
        forall|i: int| 0 <= i < r@.len() ==> #[trigger] r@[i] == data@[i * channels] as int - 32768,
{
    let mono = downmix(data, channels);
    let mut r: Vec<i16> = Vec::new();
    let mut i: usize = 0;
    while i < mono.len()
        invariant
            i <= mono@.len(),
            r@.len() == i,
            forall|j: int| 0 <= j < i ==> #[trigger] r@[j] == mono@[j] as int - 32768,
        decreases mono@.len() - i,
    {
        r.push(recenter_u16(mono[i]));
        i = i + 1;
    }
    r
}

} // verus!
