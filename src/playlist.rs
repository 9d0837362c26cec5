use vstd::prelude::*;
use crate::metadata::TrackMetadata;

verus! {

/// Where the queue stands: before its first track, on a track, or past the
/// last one.
#[derive(PartialEq, Eq, Structural, Clone, Copy, Debug)]
pub enum Pointer {
    Start,
    Idx(usize),
    End,
}

/// What the user's input box is for.
pub enum InputMode {
    Default,
    AddTrack,
}

/// Which list the interface shows.
pub enum UiState {
    Queue,
    Library,
}

/// The tracks lined up for playback and the one being played.
pub struct Queue {
    qu_vec: Vec<TrackMetadata>,
    pointer: Pointer,
}

/// The queue's move when nothing is playing: from the start to the first
/// track, from a track to the next one; after the last track, and past the
/// end, it stays.
pub open spec fn advanced(p: Pointer, len: nat) -> Pointer {
    if len == 0 {
        p
    } else {
        match p {
            Pointer::Start => Pointer::Idx(0),
            Pointer::Idx(i) => if i + 1 < len {
                Pointer::Idx((i + 1) as usize)
            } else {
                p
            },
            Pointer::End => p,
        }
    }
}

/// The queue's move on "next": like `advanced`, but after the last track it
/// goes past the end, and past the end it goes back to the start.
pub open spec fn skipped(p: Pointer, len: nat) -> Pointer {
    if len == 0 {
        p
    } else {
        match p {
            Pointer::Start => Pointer::Idx(0),
            Pointer::Idx(i) => if i + 1 < len {
                Pointer::Idx((i + 1) as usize)
            } else {
                Pointer::End
            },
            Pointer::End => Pointer::Start,
        }
    }
}

/// The track that a move to `q` from `p` asks to load: the one it lands on,
/// if it moved onto a track.
pub open spec fn loaded(p: Pointer, q: Pointer) -> Option<usize> {
    match q {
        Pointer::Idx(j) => if p != q {
            Some(j)
        } else {
            None
        },
        _ => None,
    }
}

impl Queue {
    pub closed spec fn tracks(&self) -> Seq<TrackMetadata> {
        self.qu_vec@
    }

    pub closed spec fn pointer_spec(&self) -> Pointer {
        self.pointer
    }

    /// The pointer is before, on, or past the tracks, never beyond them.
    pub open spec fn wf(&self) -> bool {
        self.pointer_spec() matches Pointer::Idx(i) ==> i < self.tracks().len()
    }

    pub fn len(&self) -> (r: usize)
        ensures
            r == self.tracks().len(),
    {
        self.qu_vec.len()
    }

    pub fn pointer(&self) -> (r: Pointer)
        ensures
            r == self.pointer_spec(),
    {
        self.pointer
    }

    pub fn track(&self, i: usize) -> (r: &TrackMetadata)
        requires
            i < self.tracks().len(),
        ensures
            *r == self.tracks()[i as int],
    {
        &self.qu_vec[i]
    }

    /// Lines `t` up after the others.
    pub fn push(&mut self, t: TrackMetadata)
        requires
            old(self).wf(),
        ensures
            final(self).wf(),
            final(self).tracks() == old(self).tracks().push(t),
            final(self).pointer_spec() == old(self).pointer_spec(),
    {
        self.qu_vec.push(t);
    }

    /// Moves on when nothing is playing; the index of the track to load
    /// comes back.
    pub fn advance(&mut self) -> (r: Option<usize>)
        requires
            old(self).wf(),
        ensures
            final(self).wf(),
            final(self).tracks() == old(self).tracks(),
            final(self).pointer_spec() == advanced(old(self).pointer_spec(), old(self).tracks().len()),
            r == loaded(old(self).pointer_spec(), final(self).pointer_spec()),
    {
        let len: usize = self.qu_vec.len();
        if len == 0 {
            return None;
        }
        match self.pointer {
            Pointer::Start => {
                self.pointer = Pointer::Idx(0);
                Some(0)
            },
            Pointer::Idx(i) => {
                if i + 1 < len {
                    self.pointer = Pointer::Idx(i + 1);
                    Some(i + 1)
                } else {
                    None
                }
            },
            Pointer::End => None,
        }
    }

    /// Moves on at the user's "next"; the index of the track to load comes
    /// back.
    pub fn skip(&mut self) -> (r: Option<usize>)
        requires
            old(self).wf(),
        ensures
            final(self).wf(),
            final(self).tracks() == old(self).tracks(),
            final(self).pointer_spec() == skipped(old(self).pointer_spec(), old(self).tracks().len()),
            r == loaded(old(self).pointer_spec(), final(self).pointer_spec()),
    {
        let len: usize = self.qu_vec.len();
        if len == 0 {
            return None;
        }
        match self.pointer {
            Pointer::Start => {
                self.pointer = Pointer::Idx(0);
                Some(0)
            },
            Pointer::Idx(i) => {
                if i + 1 < len {
                    self.pointer = Pointer::Idx(i + 1);
                    Some(i + 1)
                } else {
                    self.pointer = Pointer::End;
                    None
                }
            },
            Pointer::End => {
                self.pointer = Pointer::Start;
                None
            },
        }
    }
}

impl Default for Queue {
    /// An empty queue, before its first track.
    fn default() -> (q: Queue)
        ensures
            q.wf(),
            q.tracks() == Seq::<TrackMetadata>::empty(),
            q.pointer_spec() == Pointer::Start,
    {
        Queue { qu_vec: Vec::new(), pointer: Pointer::Start }
    }
}

} // verus!
