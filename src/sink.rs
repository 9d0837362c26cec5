use vstd::prelude::*;
use crate::pcm::PcmQueue;

verus! {

/// The loudest volume level.
pub const MAX_VOLUME: u8 = 100;

/// `v` held to the range `0..=100`.
pub open spec fn clamp_volume_spec(v: int) -> u8 {
    if v < 0 {
        0
    } else if v > 100 {
        100
    } else {
        v as u8
    }
}

/// `s` scaled by `volume / 100`, rounded toward zero.
pub open spec fn scaled(s: i32, volume: u8) -> i32 {
    if s >= 0 {
        ((s as int * volume as int) / 100) as i32
    } else {
        (-((-(s as int) * volume as int) / 100)) as i32
    }
}

/// What the output writes for `n` frames when `avail` samples wait in the
/// queue: the first samples scaled by the volume, then silence.
pub open spec fn rendered(avail: Seq<i32>, n: nat, volume: u8) -> Seq<i32> {
    Seq::new(
        n,
        |i: int|
            if i < avail.len() {
                scaled(avail[i], volume)
            } else {
                0i32
            },
    )
}

/// Holds `v` to the range `0..=100`.
pub fn clamp_volume(v: i64) -> (r: u8)
    ensures
        r == clamp_volume_spec(v as int),
        r <= 100,
{
    if v < 0 {
        0
    } else if v > 100 {
        100
    } else {
        v as u8
    }
}

/// Scales one sample by `volume / 100`, rounding toward zero.
pub fn scale_sample(s: i32, volume: u8) -> (r: i32)
    requires
        volume <= 100,
    ensures
        r == scaled(s, volume),
{
    let v: i64 = volume as i64;
    if s >= 0 {
        proof {
            assert(0 <= s as int * v <= 0x7fff_ffff * 100) by (nonlinear_arith)
                requires 0 <= s <= 0x7fff_ffff, 0 <= v <= 100;
            assert((s as int * v) / 100 <= s) by (nonlinear_arith)
                requires 0 <= s, 0 <= v <= 100;
        }
        ((s as i64 * v) / 100) as i32
    } else {
        let m: i64 = -(s as i64);
        proof {
            assert(0 <= m as int * v <= 0x8000_0000 * 100) by (nonlinear_arith)
                requires 0 <= m <= 0x8000_0000, 0 <= v <= 100;
            assert((m as int * v) / 100 <= m) by (nonlinear_arith)
                requires 0 <= m, 0 <= v <= 100;
        }
        (-((m * v) / 100)) as i32
    }
}

/// The output side of a session: its volume and whether the hardware is
/// playing.
pub struct OutputSink {
    volume: u8,
    playing: bool,
}

impl OutputSink {
    pub open spec fn wf(&self) -> bool {
        self.volume_spec() <= 100
    }

    pub closed spec fn volume_spec(&self) -> u8 {
        self.volume
    }

    pub closed spec fn playing_spec(&self) -> bool {
        self.playing
    }

    /// A stopped sink at `volume` (held to `0..=100`).
    pub fn new(volume: i64) -> (s: OutputSink)
        ensures
            s.wf(),
            s.volume_spec() == clamp_volume_spec(volume as int),
            !s.playing_spec(),
    {
        OutputSink { volume: clamp_volume(volume), playing: false }
    }

    pub fn volume(&self) -> (r: u8)
        ensures
            r == self.volume_spec(),
    {
        self.volume
    }

    pub fn is_playing(&self) -> (r: bool)
        ensures
            r == self.playing_spec(),
    {
        self.playing
    }

    /// Stores `volume` held to `0..=100`; the next render uses it.
    pub fn set_volume(&mut self, volume: i64)
        ensures
            final(self).wf(),
            final(self).volume_spec() == clamp_volume_spec(volume as int),
            final(self).playing_spec() == old(self).playing_spec(),
    {
        self.volume = clamp_volume(volume);
    }

    /// Resumes physical playback.
    pub fn start(&mut self)
        ensures
            final(self).playing_spec(),
            final(self).volume_spec() == old(self).volume_spec(),
    {
        self.playing = true;
    }

    /// Suspends physical playback: no samples are taken while stopped.
    pub fn stop(&mut self)
        ensures
            !final(self).playing_spec(),
            final(self).volume_spec() == old(self).volume_spec(),
    {
        self.playing = false;
    }

    /// One hardware callback asking for `n` samples. While playing, it takes
    /// as many as wait in `queue` (up to `n`), scales them by the volume and
    /// fills the rest with silence; it never waits. While stopped it writes
    /// silence and leaves the queue alone.
    pub fn render(&self, queue: &mut PcmQueue, n: usize) -> (out: Vec<i32>)
        requires
            self.wf(),
            old(queue).wf(),
        ensures
            final(queue).wf(),
            final(queue)@.capacity == old(queue)@.capacity,
            self.playing_spec() ==> {
                let k = if n < old(queue)@.samples.len() {
                    n as int
                } else {
                    old(queue)@.samples.len() as int
                };
                &&& out@ == rendered(old(queue)@.samples, n as nat, self.volume_spec())
                &&& final(queue)@.samples == old(queue)@.samples.subrange(k, old(queue)@.samples.len() as int)
            },
            !self.playing_spec() ==> {
                &&& out@ == rendered(Seq::empty(), n as nat, self.volume_spec())
                &&& final(queue)@ == old(queue)@
            },
    {
        let mut out: Vec<i32> = Vec::new();
        let ghost q0 = queue@.samples;
        let ghost src = if self.playing { q0 } else { Seq::<i32>::empty() };
        let mut i: usize = 0;
        while i < n
            invariant
                self.wf(),
                queue.wf(),
                queue@.capacity == old(queue)@.capacity,
                q0 == old(queue)@.samples,
                src == if self.playing_spec() { q0 } else { Seq::<i32>::empty() },
                i <= n,
                out@.len() == i,
                forall|j: int| 0 <= j < i ==> out@[j] == rendered(src, n as nat, self.volume_spec())[j],
                self.playing_spec() ==> {
                    let k = if i < q0.len() { i as int } else { q0.len() as int };
                    queue@.samples == q0.subrange(k, q0.len() as int)
                },
                !self.playing_spec() ==> queue@ == old(queue)@,
            decreases n - i,
        {
            let s: i32 = if self.playing {
                match queue.pop() {
                    Some(x) => scale_sample(x, self.volume),
                    None => 0,
                }
            } else {
                0
            };
            out.push(s);
            i = i + 1;
        }
        proof {
            assert(out@ =~= rendered(src, n as nat, self.volume_spec()));
        }
        out
    }
}

} // verus!
