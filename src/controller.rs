use vstd::prelude::*;
use crate::timer::{Timer, TimerView};

verus! {

/// A command for the running decode/resample worker.
#[derive(PartialEq, Eq, Structural, Clone, Copy, Debug)]
pub enum SourceControl {
    /// Nothing asked: go on.
    Proceed,
    /// Abandon the track; its clock is discarded.
    Stop,
    /// Leave so that a new run can start at another position; the clock is
    /// kept.
    Seek,
}

/// Where the controller is in one worker run.
#[derive(PartialEq, Eq, Structural, Clone, Copy, Debug)]
pub enum ControllerState {
    /// No worker.
    Idle,
    /// A worker is producing.
    Running,
    /// A stop or seek was sent; the worker has not been joined yet.
    Cancelling,
}

/// What a controller holds: its state, the number of the current (or last)
/// worker run, and the command waiting for the worker.
pub struct ControllerView {
    pub state: ControllerState,
    pub generation: u64,
    pub pending: SourceControl,
}

impl ControllerView {
    pub open spec fn track_added(self) -> ControllerView {
        if self.state == ControllerState::Idle {
            ControllerView {
                state: ControllerState::Running,
                generation: (self.generation + 1) as u64,
                pending: SourceControl::Proceed,
            }
        } else {
            self
        }
    }

    pub open spec fn signalled(self, cmd: SourceControl) -> ControllerView {
        if self.state == ControllerState::Idle {
            self
        } else {
            ControllerView {
                state: ControllerState::Cancelling,
                generation: self.generation,
                pending: cmd,
            }
        }
    }

    pub open spec fn joined(self) -> ControllerView {
        if self.state == ControllerState::Cancelling {
            ControllerView {
                state: ControllerState::Idle,
                generation: self.generation,
                pending: SourceControl::Proceed,
            }
        } else {
            self
        }
    }

    /// The output takes samples from run `generation` only while that run is
    /// the live one.
    pub open spec fn accepts(self, generation: u64) -> bool {
        self.state == ControllerState::Running && generation == self.generation
    }
}

/// The lifecycle manager of one decode+resample worker run at a time.
pub struct SourceController {
    state: ControllerState,
    generation: u64,
    pending: SourceControl,
}

impl View for SourceController {
    type V = ControllerView;

    closed spec fn view(&self) -> ControllerView {
        ControllerView { state: self.state, generation: self.generation, pending: self.pending }
    }
}

impl SourceController {
    /// An idle controller that has run no worker.
    pub fn new() -> (c: SourceController)
        ensures
            c@ == (ControllerView {
                state: ControllerState::Idle,
                generation: 0,
                pending: SourceControl::Proceed,
            }),
    {
        SourceController { state: ControllerState::Idle, generation: 0, pending: SourceControl::Proceed }
    }

    pub fn state(&self) -> (r: ControllerState)
        ensures
            r == self@.state,
    {
        self.state
    }

    pub fn generation(&self) -> (r: u64)
        ensures
            r == self@.generation,
    {
        self.generation
    }

    /// Starts a new worker run, numbered one past the last. Only an idle
    /// controller starts one; otherwise nothing changes and `None` comes
    /// back.
    pub fn add_track(&mut self) -> (r: Option<u64>)
        requires
            old(self)@.generation < u64::MAX,
        ensures
            final(self)@ == old(self)@.track_added(),
            r == (if old(self)@.state == ControllerState::Idle {
                Some(final(self)@.generation)
            } else {
                None::<u64>
            }),
    {
        if self.state == ControllerState::Idle {
            self.generation = self.generation + 1;
            self.state = ControllerState::Running;
            self.pending = SourceControl::Proceed;
            Some(self.generation)
        } else {
            None
        }
    }

    /// Asks the worker to stop. A later command replaces one not yet seen.
    /// On an idle controller nothing happens.
    pub fn stop(&mut self)
        ensures
            final(self)@ == old(self)@.signalled(SourceControl::Stop),
    {
        self.signal(SourceControl::Stop);
    }

    /// Asks the worker to leave for a seek. On an idle controller nothing
    /// happens.
    pub fn seek(&mut self)
        ensures
            final(self)@ == old(self)@.signalled(SourceControl::Seek),
    {
        self.signal(SourceControl::Seek);
    }

    fn signal(&mut self, cmd: SourceControl)
        ensures
            final(self)@ == old(self)@.signalled(cmd),
    {
        if self.state != ControllerState::Idle {
            self.state = ControllerState::Cancelling;
            self.pending = cmd;
        }
    }

    /// What the worker sees when it looks between two chunks.
    pub fn poll(&self) -> (r: SourceControl)
        ensures
            r == self@.pending,
    {
        self.pending
    }

    /// Whether a write from run `generation` may enter the output queue.
    pub fn accepts(&self, generation: u64) -> (r: bool)
        ensures
            r == self@.accepts(generation),
    {
        self.state == ControllerState::Running && generation == self.generation
    }

    /// The worker has been joined. After a stop the shared timer goes back
    /// to zero; after a seek it is kept.
    pub fn worker_joined(&mut self, timer: &mut Timer)
        ensures
            final(self)@ == old(self)@.joined(),
            final(timer)@ == (if old(self)@.state == ControllerState::Cancelling
                && old(self)@.pending == SourceControl::Stop {
                TimerView::cleared()
            } else {
                old(timer)@
            }),
    {
        if self.state == ControllerState::Cancelling {
            if self.pending == SourceControl::Stop {
                timer.reset();
            }
            self.state = ControllerState::Idle;
            self.pending = SourceControl::Proceed;
        }
    }
}

/// Stopping a running controller, joining its worker and adding a track goes
/// Running, Cancelling, Idle, Running; the new run has a new number, and from
/// then on no write of the old run is taken, so two runs never write into the
/// output together.
pub proof fn lemma_runs_never_interleave(c: ControllerView)
    requires
        c.state == ControllerState::Running,
        c.generation < u64::MAX,
    ensures
        c.signalled(SourceControl::Stop).state == ControllerState::Cancelling,
        c.signalled(SourceControl::Stop).joined().state == ControllerState::Idle,
        c.signalled(SourceControl::Stop).joined().track_added().state == ControllerState::Running,
        c.signalled(SourceControl::Stop).joined().track_added().generation != c.generation,
        !c.signalled(SourceControl::Stop).accepts(c.generation),
        !c.signalled(SourceControl::Stop).joined().accepts(c.generation),
        !c.signalled(SourceControl::Stop).joined().track_added().accepts(c.generation),
        c.signalled(SourceControl::Stop).joined().track_added().accepts(
            (c.generation + 1) as u64,
        ),
{
}

/// At any moment the output takes writes from one run at most.
pub proof fn lemma_single_writer(c: ControllerView, g: u64, h: u64)
    requires
        c.accepts(g),
        c.accepts(h),
    ensures
        g == h,
{
}

/// While a run is live, adding a track changes nothing: runs never overlap.
pub proof fn lemma_no_overlapping_runs(c: ControllerView)
    requires
        c.state != ControllerState::Idle,
    ensures
        c.track_added() == c,
{
}

} // verus!
