use vstd::prelude::*;
use crate::pcm::PcmQueue;

verus! {

/// Signed 8-bit sample on the common 32-bit scale.
pub fn normalize_s8(x: i8) -> (r: i32)
    ensures
        r == x as int * 0x100_0000,
{
    x as i32 * 0x100_0000
}

/// Signed 16-bit sample on the common 32-bit scale.
pub fn normalize_s16(x: i16) -> (r: i32)
    ensures
        r == x as int * 0x1_0000,
{
    x as i32 * 0x1_0000
}

/// Signed 24-bit sample (held in an `i32`) on the common 32-bit scale.
pub fn normalize_s24(x: i32) -> (r: i32)
    requires
        -0x80_0000 <= x < 0x80_0000,
    ensures
        r == x as int * 0x100,
{
    x * 0x100
}

/// Signed 32-bit samples already use the common scale.
pub fn normalize_s32(x: i32) -> (r: i32)
    ensures
        r == x,
{
    x
}

/// Unsigned 8-bit sample (silence at 0x80) on the common 32-bit scale.
pub fn normalize_u8(x: u8) -> (r: i32)
    ensures
        r == (x as int - 0x80) * 0x100_0000,
{
    (x as i32 - 0x80) * 0x100_0000
}

/// Unsigned 16-bit sample (silence at 0x8000) on the common 32-bit scale.
pub fn normalize_u16(x: u16) -> (r: i32)
    ensures
        r == (x as int - 0x8000) * 0x1_0000,
{
    (x as i32 - 0x8000) * 0x1_0000
}

/// Unsigned 24-bit sample (held in a `u32`, silence at 0x80_0000) on the
/// common 32-bit scale.
pub fn normalize_u24(x: u32) -> (r: i32)
    requires
        x < 0x100_0000,
    ensures
        r == (x as int - 0x80_0000) * 0x100,
{
    (x as i32 - 0x80_0000) * 0x100
}

/// Unsigned 32-bit sample (silence at 0x8000_0000) on the common 32-bit scale.
pub fn normalize_u32(x: u32) -> (r: i32)
    ensures
        r == x as int - 0x8000_0000,
{
    (x as i64 - 0x8000_0000) as i32
}

/// What went wrong with one packet.
pub enum PacketError {
    /// Reading the packet failed.
    Io,
    /// The packet held invalid data.
    Decode,
    /// Anything else: the decoder's state can no longer be trusted.
    Fatal,
}

/// What the decode stage does after a packet.
#[derive(PartialEq, Eq, Structural, Clone, Copy, Debug)]
pub enum DecodeStep {
    /// Hand the decoded samples on.
    Emit,
    /// Drop this packet and go on with the next one.
    Skip,
    /// Stop decoding; the stream ends here.
    End,
}

/// The decode stage's policy for a packet: a decoded packet is emitted, a
/// packet that failed to read or held bad data is skipped, and a fatal error
/// ends the stream.
pub fn packet_step(outcome: &Result<(), PacketError>) -> (r: DecodeStep)
    ensures
        r == match outcome {
            Ok(()) => DecodeStep::Emit,
            Err(PacketError::Io) | Err(PacketError::Decode) => DecodeStep::Skip,
            Err(PacketError::Fatal) => DecodeStep::End,
        },
{
    match outcome {
        Ok(()) => DecodeStep::Emit,
        Err(PacketError::Io) => DecodeStep::Skip,
        Err(PacketError::Decode) => DecodeStep::Skip,
        Err(PacketError::Fatal) => DecodeStep::End,
    }
}

/// Writes the frames of `left` and `right` from index `from` on into the two
/// channel queues, a frame at a time, until both slices are done or a queue
/// is full. The index of the first frame not written comes back: the producer
/// waits there until the consumer has made room.
pub fn feed_frames(
    left_q: &mut PcmQueue,
    right_q: &mut PcmQueue,
    left: &Vec<i32>,
    right: &Vec<i32>,
    from: usize,
) -> (next: usize)
    requires
        old(left_q).wf(),
        old(right_q).wf(),
        left@.len() == right@.len(),
        from <= left@.len(),
    ensures
        final(left_q).wf(),
        final(right_q).wf(),
        final(left_q)@.capacity == old(left_q)@.capacity,
        final(right_q)@.capacity == old(right_q)@.capacity,
        from <= next <= left@.len(),
        final(left_q)@.samples == old(left_q)@.samples + left@.subrange(from as int, next as int),
        final(right_q)@.samples == old(right_q)@.samples + right@.subrange(from as int, next as int),
        next < left@.len() ==> final(left_q)@.is_full() || final(right_q)@.is_full(),
{
    let mut i: usize = from;
    while i < left.len() && !left_q.is_full() && !right_q.is_full()
        invariant
            left_q.wf(),
            right_q.wf(),
            left_q@.capacity == old(left_q)@.capacity,
            right_q@.capacity == old(right_q)@.capacity,
            left@.len() == right@.len(),
            from <= i <= left@.len(),
            left_q@.samples == old(left_q)@.samples + left@.subrange(from as int, i as int),
            right_q@.samples == old(right_q)@.samples + right@.subrange(from as int, i as int),
        decreases left@.len() - i,
    {
        let _ = left_q.try_push(left[i]);
        let _ = right_q.try_push(right[i]);
        proof {
            assert(left@.subrange(from as int, i + 1) =~= left@.subrange(from as int, i as int).push(left@[i as int]));
            assert(right@.subrange(from as int, i + 1) =~= right@.subrange(from as int, i as int).push(right@[i as int]));
        }
        i = i + 1;
    }
    i
}

/// Left and right samples interleaved frame by frame, as the output takes
/// them.
pub fn interleave(left: &Vec<i32>, right: &Vec<i32>) -> (out: Vec<i32>)
    requires
        left@.len() == right@.len(),
        left@.len() * 2 <= usize::MAX,
    ensures
        out@.len() == 2 * left@.len(),
        forall|i: int| 0 <= i < left@.len() ==> out@[2 * i] == left@[i] && out@[2 * i + 1] == right@[i],
{
    let mut out: Vec<i32> = Vec::new();
    let mut i: usize = 0;
    while i < left.len()
        invariant
            left@.len() == right@.len(),
            i <= left@.len(),
            out@.len() == 2 * i,
            forall|j: int| 0 <= j < i ==> out@[2 * j] == left@[j] && out@[2 * j + 1] == right@[j],
        decreases left@.len() - i,
    {
        out.push(left[i]);
        out.push(right[i]);
        i = i + 1;
    }
    out
}

} // verus!
