use vstd::prelude::*;
use crate::controller::{ControllerState, SourceController};
use crate::metadata::TrackMetadata;
use crate::sink::{clamp_volume_spec, OutputSink};
use crate::timer::{Timer, TimerView, NANOS_PER_SEC};

verus! {

/// What `Path::extension` makes of a path: the part of the file name after
/// its last dot, if there is one.
pub uninterp spec fn extension_of(p: Seq<char>) -> Option<Seq<char>>;

/// Relies on `Path::extension`: the extension of the path's file name;
/// `None` where there is none or it is not Unicode.
#[verifier::external_body]
fn path_extension(p: &str) -> (r: Option<String>)
    ensures
        r matches Some(s) ==> extension_of(p@) == Some(s@),
        r is None ==> extension_of(p@) is None,
{
    match std::path::Path::new(p).extension() {
        Some(s) => match s.to_str() {
            Some(t) => Some(t.to_string()),
            None => None,
        },
        None => None,
    }
}

/// The state an output channel reports, by its numeric code 0 to 4.
#[allow(non_camel_case_types)]
#[derive(PartialEq, Eq, Structural, Clone, Copy, Debug)]
pub enum channel_state {
    BASS_ACTIVE_STOPPED,
    BASS_ACTIVE_PLAYING,
    BASS_ACTIVE_PAUSED,
    BASS_ACTIVE_PAUSED_DEVICE,
    BASS_ACTIVE_STALLED,
}

impl channel_state {
    /// Only a playing channel can be paused.
    pub fn is_playing(&self) -> (r: bool)
        ensures
            r == (*self == channel_state::BASS_ACTIVE_PLAYING),
    {
        match self {
            channel_state::BASS_ACTIVE_PLAYING => true,
            _ => false,
        }
    }

    /// The state with numeric code `code`; no state has a code above 4.
    pub fn from_code(code: u32) -> (r: Option<channel_state>)
        ensures
            r == (if code == 0 {
                Some(channel_state::BASS_ACTIVE_STOPPED)
            } else if code == 1 {
                Some(channel_state::BASS_ACTIVE_PLAYING)
            } else if code == 2 {
                Some(channel_state::BASS_ACTIVE_PAUSED)
            } else if code == 3 {
                Some(channel_state::BASS_ACTIVE_PAUSED_DEVICE)
            } else if code == 4 {
                Some(channel_state::BASS_ACTIVE_STALLED)
            } else {
                None::<channel_state>
            }),
    {
        match code {
            0 => Some(channel_state::BASS_ACTIVE_STOPPED),
            1 => Some(channel_state::BASS_ACTIVE_PLAYING),
            2 => Some(channel_state::BASS_ACTIVE_PAUSED),
            3 => Some(channel_state::BASS_ACTIVE_PAUSED_DEVICE),
            4 => Some(channel_state::BASS_ACTIVE_STALLED),
            _ => None,
        }
    }
}

/// Which opener a file needs.
#[derive(PartialEq, Eq, Structural, Clone, Copy, Debug)]
pub enum StreamKind {
    Flac,
    Mp3,
}

/// A `.flac` file opens as FLAC, an `.mp3` file as MP3; nothing else opens.
pub open spec fn stream_kind_spec(path: Seq<char>) -> Option<StreamKind> {
    match extension_of(path) {
        Some(e) => if e == "flac"@ {
            Some(StreamKind::Flac)
        } else if e == "mp3"@ {
            Some(StreamKind::Mp3)
        } else {
            None
        },
        None => None,
    }
}

/// Where a seek to `target` nanoseconds lands in a track of `duration`
/// seconds: at `target` itself when that lies within the track (or the
/// length is unknown); beyond the end there is no position, the track ends.
pub open spec fn seek_target(duration: Option<u64>, target: u64) -> Option<u64> {
    match duration {
        Some(d) => if target <= d * NANOS_PER_SEC {
            Some(target)
        } else {
            None
        },
        None => Some(target),
    }
}

/// The saturating difference `a - b`, stopping at zero.
pub open spec fn sat_sub(a: u64, b: u64) -> u64 {
    if a >= b {
        (a - b) as u64
    } else {
        0
    }
}

/// One loaded track's playback: its output channel, metadata, position
/// timer, volume and the run of its decode worker.
pub struct MediaStream {
    pub handle: u32,
    pub metadata: TrackMetadata,
    pub timer: Timer,
    pub sink: OutputSink,
    pub controller: SourceController,
}

impl MediaStream {
    /// A session for `metadata` on output channel `handle`, whose clock starts
    /// at `skip` nanoseconds and whose volume is `volume` held to `0..=100`.
    /// A playing session starts its clock at reading `now`; its worker run is
    /// the controller's first.
    pub fn new(handle: u32, metadata: TrackMetadata, skip: u64, volume: i64, playing: bool, now: u64) -> (s: MediaStream)
        ensures
            s.handle == handle,
            s.metadata == metadata,
            s.timer@ == (TimerView {
                times: skip,
                running_since: if playing {
                    Some(now)
                } else {
                    None::<u64>
                },
            }),
            s.sink.wf(),
            s.sink.volume_spec() == clamp_volume_spec(volume as int),
            s.sink.playing_spec() == playing,
            s.controller@.state == ControllerState::Running,
            s.controller@.generation == 1,
    {
        let mut timer = Timer::new();
        timer.add_at(skip, now);
        let mut sink = OutputSink::new(volume);
        if playing {
            timer.start_at(now);
            sink.start();
        }
        let mut controller = SourceController::new();
        let _ = controller.add_track();
        MediaStream { handle, metadata, timer, sink, controller }
    }

    /// Suspends playback at clock reading `now`: the clock freezes and the
    /// output stops taking samples.
    pub fn pause_at(&mut self, now: u64)
        ensures
            final(self).timer@ == old(self).timer@.paused_at(now),
            !final(self).sink.playing_spec(),
            final(self).sink.volume_spec() == old(self).sink.volume_spec(),
            final(self).handle == old(self).handle,
            final(self).metadata == old(self).metadata,
            final(self).controller@ == old(self).controller@,
    {
        self.timer.pause_at(now);
        self.sink.stop();
    }

    /// Continues playback at clock reading `now`.
    pub fn resume_at(&mut self, now: u64)
        ensures
            final(self).timer@ == old(self).timer@.resumed(now),
            final(self).sink.playing_spec(),
            final(self).sink.volume_spec() == old(self).sink.volume_spec(),
            final(self).handle == old(self).handle,
            final(self).metadata == old(self).metadata,
            final(self).controller@ == old(self).controller@,
    {
        self.timer.resume_at(now);
        self.sink.start();
    }

    /// Sets the session's volume, held to `0..=100`.
    pub fn set_volume(&mut self, volume: i64)
        ensures
            final(self).sink.wf(),
            final(self).sink.volume_spec() == clamp_volume_spec(volume as int),
            final(self).sink.playing_spec() == old(self).sink.playing_spec(),
            final(self).timer@ == old(self).timer@,
            final(self).handle == old(self).handle,
            final(self).metadata == old(self).metadata,
            final(self).controller@ == old(self).controller@,
    {
        self.sink.set_volume(volume);
    }

    /// The opener for the file at `path`, by its extension; `None` for a file
    /// that cannot be played.
    pub fn make_handle(path: &str) -> (r: Option<StreamKind>)
        ensures
            r == stream_kind_spec(path@),
    {
        match path_extension(path) {
            Some(e) => {
                let flac = "flac".to_owned();
                let mp3 = "mp3".to_owned();
                if e == flac {
                    Some(StreamKind::Flac)
                } else if e == mp3 {
                    Some(StreamKind::Mp3)
                } else {
                    None
                }
            },
            None => None,
        }
    }

    /// The playback position in nanoseconds at clock reading `now`.
    pub fn position_at(&self, now: u64) -> (r: u64)
        ensures
            r == self.timer@.elapsed_at(now),
    {
        self.timer.elapsed_at(now)
    }

    /// Where a seek to `target` nanoseconds lands; `None` past the end.
    pub fn seek_to(&self, target: u64) -> (r: Option<u64>)
        ensures
            r == seek_target(self.metadata.full_time_secs, target),
    {
        match self.metadata.full_time_secs {
            Some(d) => {
                if (target as u128) <= (d as u128) * (NANOS_PER_SEC as u128) {
                    Some(target)
                } else {
                    None
                }
            },
            None => Some(target),
        }
    }

    /// Where a seek `by` nanoseconds back from the position at `now` lands;
    /// it stops at the start of the track.
    pub fn seek_backward(&self, by: u64, now: u64) -> (r: Option<u64>)
        ensures
            r == seek_target(
                self.metadata.full_time_secs,
                sat_sub(self.timer@.elapsed_at(now), by),
            ),
    {
        let pos: u64 = self.timer.elapsed_at(now);
        let target: u64 = if pos >= by {
            pos - by
        } else {
            0
        };
        self.seek_to(target)
    }

    /// Where a seek `by` nanoseconds forward from the position at `now`
    /// lands; `None` past the end.
    pub fn seek_forward(&self, by: u64, now: u64) -> (r: Option<u64>)
        ensures
            r == seek_target(
                self.metadata.full_time_secs,
                crate::timer::sat_add(self.timer@.elapsed_at(now), by),
            ),
    {
        let pos: u64 = self.timer.elapsed_at(now);
        let target: u64 = if pos > u64::MAX - by {
            u64::MAX
        } else {
            pos + by
        };
        self.seek_to(target)
    }

    /// Whether the position at `now` has passed the end of the track, in
    /// whole seconds.
    pub fn is_finished_at(&self, now: u64) -> (r: bool)
        ensures
            r == (match self.metadata.full_time_secs {
                Some(d) => self.timer@.secs_at(now) > d,
                None => false,
            }),
    {
        match self.metadata.full_time_secs {
            Some(d) => self.timer.elapsed_at(now) / NANOS_PER_SEC > d,
            None => false,
        }
    }
}

/// A seek to a time within the track lands there, and a session rebuilt at
/// that time reads it back at once, paused or playing; a seek past the end
/// lands nowhere.
pub proof fn lemma_seek_lands(duration: Option<u64>, target: u64, playing: bool, now: u64)
    ensures
        (duration matches Some(d) && target > d * NANOS_PER_SEC) ==> seek_target(duration, target) is None,
        !(duration matches Some(d) && target > d * NANOS_PER_SEC) ==> seek_target(duration, target) == Some(target),
        (TimerView {
            times: target,
            running_since: if playing {
                Some(now)
            } else {
                None::<u64>
            },
        }).elapsed_at(now) == target,
{
}

} // verus!
