use vstd::prelude::*;
use crate::pcm::PcmQueue;

verus! {

/// Source frames per resampling chunk: a quarter second of source audio, at
/// least one frame.
pub open spec fn chunk_frames_spec(source_rate: u32) -> usize {
    if source_rate / 4 == 0 {
        1
    } else {
        (source_rate / 4) as usize
    }
}

/// Device-rate frames that `n` source frames become: the exact count rounded
/// up.
pub open spec fn output_frames_spec(n: u64, source_rate: u32, device_rate: u32) -> int
    recommends
        source_rate > 0,
{
    (n as int * device_rate as int + source_rate as int - 1) / source_rate as int
}

/// Samples a PCM queue between the stages holds: one second at the rate,
/// at least one.
pub open spec fn queue_capacity_spec(rate: u32) -> usize {
    if rate == 0 {
        1
    } else {
        rate as usize
    }
}

pub fn chunk_frames(source_rate: u32) -> (r: usize)
    ensures
        r == chunk_frames_spec(source_rate),
        r > 0,
{
    let q: u32 = source_rate / 4;
    if q == 0 {
        1
    } else {
        q as usize
    }
}

pub fn queue_capacity(rate: u32) -> (r: usize)
    ensures
        r == queue_capacity_spec(rate),
        r > 0,
{
    if rate == 0 {
        1
    } else {
        rate as usize
    }
}

/// Device-rate frames that `n` source frames become.
pub fn output_frames(n: u64, source_rate: u32, device_rate: u32) -> (r: u128)
    requires
        source_rate > 0,
    ensures
        r == output_frames_spec(n, source_rate, device_rate),
{
    proof {
        assert(0 <= n as int * device_rate as int <= 0xffff_ffff_ffff_ffff * 0xffff_ffff) by (nonlinear_arith)
            requires 0 <= n <= 0xffff_ffff_ffff_ffff, 0 <= device_rate <= 0xffff_ffff;
        assert((n as int * device_rate as int + source_rate as int - 1) / source_rate as int
            <= n as int * device_rate as int + source_rate as int - 1) by (nonlinear_arith)
            requires source_rate >= 1, n as int * device_rate as int >= 0;
    }
    (n as u128 * device_rate as u128 + source_rate as u128 - 1) / source_rate as u128
}

/// The frame count kept by resampling: `r` device frames last at least as long
/// as `n` source frames, and less than one device frame longer.
pub proof fn lemma_duration_kept(n: u64, source_rate: u32, device_rate: u32)
    requires
        source_rate > 0,
    ensures
        ({
            let r = output_frames_spec(n, source_rate, device_rate);
            &&& r * source_rate >= n as int * device_rate
            &&& (r - 1) * source_rate < n as int * device_rate
        }),
{
    let r: int = output_frames_spec(n, source_rate, device_rate);
    let a: int = n as int * device_rate as int;
    let s: int = source_rate as int;
    assert(r * s >= a && (r - 1) * s < a) by (nonlinear_arith)
        requires
            s > 0,
            a >= 0,
            r == (a + s - 1) / s,
    ;
}

/// What the resample stage does next.
#[derive(PartialEq, Eq, Structural, Clone, Copy, Debug)]
pub enum ResampleStep {
    /// Stop or seek was asked for: leave without producing more.
    Cancel,
    /// A whole chunk waits: process it.
    Process,
    /// The source has ended and less than a chunk is left: process the rest
    /// and flush the filter's tail.
    Flush,
    /// The source has ended and nothing is left.
    Done,
    /// Less than a chunk waits and the source goes on: wait for more.
    Wait,
}

/// The resample stage's decision between chunks. Cancellation is looked at
/// first, so no chunk starts after a stop or seek was seen.
pub fn resample_step(cancelled: bool, available: usize, chunk: usize, source_done: bool) -> (r: ResampleStep)
    ensures
        r == (if cancelled {
            ResampleStep::Cancel
        } else if available >= chunk {
            ResampleStep::Process
        } else if source_done && available > 0 {
            ResampleStep::Flush
        } else if source_done {
            ResampleStep::Done
        } else {
            ResampleStep::Wait
        }),
{
    if cancelled {
        ResampleStep::Cancel
    } else if available >= chunk {
        ResampleStep::Process
    } else if source_done && available > 0 {
        ResampleStep::Flush
    } else if source_done {
        ResampleStep::Done
    } else {
        ResampleStep::Wait
    }
}

/// Takes up to `n` samples, oldest first, out of `q` to form the next chunk;
/// fewer come only when fewer wait.
pub fn take_chunk(q: &mut PcmQueue, n: usize) -> (chunk: Vec<i32>)
    requires
        old(q).wf(),
    ensures
        final(q).wf(),
        final(q)@.capacity == old(q)@.capacity,
        ({
            let k = if n < old(q)@.samples.len() {
                n as int
            } else {
                old(q)@.samples.len() as int
            };
            &&& chunk@ == old(q)@.samples.subrange(0, k)
            &&& final(q)@.samples == old(q)@.samples.subrange(k, old(q)@.samples.len() as int)
        }),
{
    let ghost q0 = q@.samples;
    let mut chunk: Vec<i32> = Vec::new();
    let mut i: usize = 0;
    while i < n && !q.is_empty()
        invariant
            q.wf(),
            q@.capacity == old(q)@.capacity,
            q0 == old(q)@.samples,
            i <= n,
            i <= q0.len(),
            chunk@ == q0.subrange(0, i as int),
            q@.samples == q0.subrange(i as int, q0.len() as int),
        decreases n - i,
    {
        match q.pop() {
            Some(x) => {
                proof {
                    assert(q0.subrange(0, i + 1) =~= q0.subrange(0, i as int).push(x));
                    assert(q@.samples =~= q0.subrange(i + 1, q0.len() as int));
                }
                chunk.push(x);
            },
            None => {},
        }
        i = i + 1;
    }
    chunk
}

} // verus!
