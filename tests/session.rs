use rpc::controller::{ControllerState, SourceControl, SourceController};
use rpc::metadata::{duration_secs, FileTags, StandardKey, TagEntry, TrackMetadata};
use rpc::playlist::{Pointer, Queue};
use rpc::session::{channel_state, MediaStream, StreamKind};
use rpc::timer::Timer;

const SEC: u64 = 1_000_000_000;

fn track(path: &str, secs: Option<u64>) -> TrackMetadata {
    TrackMetadata {
        full_time_secs: secs,
        path: path.to_string(),
        file_stem: String::new(),
        title: None,
        artist: None,
        album: None,
        year: None,
    }
}

fn no_tags() -> FileTags {
    FileTags { title: None, artist: None, album: None, year: None }
}

fn entry(std_key: Option<StandardKey>, key: &str, value: &str) -> TagEntry {
    TagEntry { std_key, key: key.to_string(), value: value.to_string() }
}

#[test]
fn controller_runs_one_worker_at_a_time() {
    let mut timer = Timer::new();
    let mut c = SourceController::new();
    assert_eq!(c.state(), ControllerState::Idle);
    assert_eq!(c.add_track(), Some(1));
    assert_eq!(c.state(), ControllerState::Running);
    assert!(c.accepts(1));
    assert_eq!(c.add_track(), None);
    assert_eq!(c.generation(), 1);
    c.stop();
    assert_eq!(c.state(), ControllerState::Cancelling);
    assert_eq!(c.poll(), SourceControl::Stop);
    assert!(!c.accepts(1));
    c.worker_joined(&mut timer);
    assert_eq!(c.state(), ControllerState::Idle);
    assert_eq!(c.poll(), SourceControl::Proceed);
    assert_eq!(c.add_track(), Some(2));
    assert_eq!(c.state(), ControllerState::Running);
    assert!(!c.accepts(1));
    assert!(c.accepts(2));
}

#[test]
fn sequence_of_writes_never_interleaves() {
    // each write carries its run's number; the output keeps what it accepts
    let mut timer = Timer::new();
    let mut c = SourceController::new();
    let mut out: Vec<u64> = Vec::new();
    let first = c.add_track().unwrap();
    for _ in 0..3 {
        if c.accepts(first) {
            out.push(first);
        }
    }
    c.stop();
    // the old worker still finishes its chunk
    if c.accepts(first) {
        out.push(first);
    }
    c.worker_joined(&mut timer);
    let second = c.add_track().unwrap();
    for g in [first, second, first, second] {
        if c.accepts(g) {
            out.push(g);
        }
    }
    assert_eq!(out, vec![1, 1, 1, 2, 2]);
}

#[test]
fn stop_resets_the_clock_and_seek_keeps_it() {
    let mut timer = Timer::new();
    timer.add_at(7 * SEC, 0);
    let mut c = SourceController::new();
    c.add_track();
    c.seek();
    assert_eq!(c.poll(), SourceControl::Seek);
    c.worker_joined(&mut timer);
    assert_eq!(timer.as_secs_at(0), 7);
    c.add_track();
    c.stop();
    c.worker_joined(&mut timer);
    assert_eq!(timer.as_secs_at(0), 0);
}

#[test]
fn last_command_wins() {
    let mut timer = Timer::new();
    timer.add_at(4 * SEC, 0);
    let mut c = SourceController::new();
    c.add_track();
    c.stop();
    c.seek();
    assert_eq!(c.poll(), SourceControl::Seek);
    c.worker_joined(&mut timer);
    assert_eq!(timer.as_secs_at(0), 4);
}

#[test]
fn commands_on_an_idle_controller_do_nothing() {
    let mut timer = Timer::new();
    timer.add_at(4 * SEC, 0);
    let mut c = SourceController::new();
    c.stop();
    c.seek();
    assert_eq!(c.state(), ControllerState::Idle);
    assert_eq!(c.poll(), SourceControl::Proceed);
    c.worker_joined(&mut timer);
    assert_eq!(timer.as_secs_at(0), 4);
}

#[test]
fn metadata_merges_tags() {
    let tags = FileTags {
        title: Some("From tags".to_string()),
        artist: Some("Tag artist".to_string()),
        album: Some("Album".to_string()),
        year: Some(1999),
    };
    let entries = vec![
        entry(None, "title", "Lower title"),
        entry(Some(StandardKey::Artist), "whatever", "Std artist"),
        entry(Some(StandardKey::Other), "TITLE", "Not a title"),
        entry(None, "Comment", "ignored"),
    ];
    let m = TrackMetadata::from_probe(
        "/music/album/song.flac".to_string(),
        Some(441_000),
        Some(44_100),
        tags,
        &entries,
    );
    assert_eq!(m.title.as_deref(), Some("Lower title"));
    assert_eq!(m.artist.as_deref(), Some("Std artist"));
    assert_eq!(m.album.as_deref(), Some("Album"));
    assert_eq!(m.year, Some(1999));
    assert_eq!(m.full_time_secs, Some(10));
    assert_eq!(m.path, "/music/album/song.flac");
    assert_eq!(m.file_stem, "song");
}

#[test]
fn metadata_last_tag_wins() {
    let entries = vec![
        entry(Some(StandardKey::TrackTitle), "t", "First"),
        entry(None, "ArTiSt", "Mixed case artist"),
        entry(None, "TITLE", "Second"),
    ];
    let m = TrackMetadata::from_probe("x.mp3".to_string(), None, Some(44_100), no_tags(), &entries);
    assert_eq!(m.title.as_deref(), Some("Second"));
    assert_eq!(m.artist.as_deref(), Some("Mixed case artist"));
    assert_eq!(m.full_time_secs, None);
    assert_eq!(m.file_stem, "x");
}

#[test]
fn metadata_without_tags_keeps_reader_fields() {
    let m = TrackMetadata::from_probe("a/b.c.flac".to_string(), Some(5), Some(0), no_tags(), &vec![]);
    assert_eq!(m.title, None);
    assert_eq!(m.artist, None);
    assert_eq!(m.full_time_secs, None);
    assert_eq!(m.file_stem, "b.c");
}

#[test]
fn duration_from_frames() {
    assert_eq!(duration_secs(Some(96_000), Some(48_000)), Some(2));
    assert_eq!(duration_secs(Some(95_999), Some(48_000)), Some(1));
    assert_eq!(duration_secs(None, Some(48_000)), None);
    assert_eq!(duration_secs(Some(1), None), None);
}

#[test]
fn handle_kind_by_extension() {
    assert_eq!(MediaStream::make_handle("/m/a.flac"), Some(StreamKind::Flac));
    assert_eq!(MediaStream::make_handle("b.mp3"), Some(StreamKind::Mp3));
    assert_eq!(MediaStream::make_handle("c.wav"), None);
    assert_eq!(MediaStream::make_handle("noext"), None);
    assert_eq!(MediaStream::make_handle("d.FLAC"), None);
}

#[test]
fn channel_states_by_code() {
    assert_eq!(channel_state::from_code(0), Some(channel_state::BASS_ACTIVE_STOPPED));
    assert_eq!(channel_state::from_code(1), Some(channel_state::BASS_ACTIVE_PLAYING));
    assert_eq!(channel_state::from_code(2), Some(channel_state::BASS_ACTIVE_PAUSED));
    assert_eq!(channel_state::from_code(3), Some(channel_state::BASS_ACTIVE_PAUSED_DEVICE));
    assert_eq!(channel_state::from_code(4), Some(channel_state::BASS_ACTIVE_STALLED));
    assert_eq!(channel_state::from_code(5), None);
    assert!(channel_state::BASS_ACTIVE_PLAYING.is_playing());
    assert!(!channel_state::BASS_ACTIVE_PAUSED.is_playing());
}

#[test]
fn new_session_starts_at_skip() {
    let s = MediaStream::new(7, track("t.flac", Some(10)), 5 * SEC, 150, true, 0);
    assert_eq!(s.handle, 7);
    assert_eq!(s.position_at(0), 5 * SEC);
    assert_eq!(s.position_at(2 * SEC), 7 * SEC);
    assert_eq!(s.sink.volume(), 100);
    assert!(s.sink.is_playing());
    assert_eq!(s.controller.state(), ControllerState::Running);
    let p = MediaStream::new(1, track("t.flac", Some(10)), 3 * SEC, 30, false, 0);
    assert_eq!(p.position_at(50 * SEC), 3 * SEC);
    assert!(!p.sink.is_playing());
}

#[test]
fn seek_lands_on_target_and_reads_back() {
    let s = MediaStream::new(1, track("t.flac", Some(10)), 0, 50, true, 0);
    let target = s.seek_to(4 * SEC).unwrap();
    assert_eq!(target, 4 * SEC);
    let rebuilt = MediaStream::new(2, track("t.flac", Some(10)), target, 50, true, 9 * SEC);
    assert_eq!(rebuilt.position_at(9 * SEC), 4 * SEC);
    assert_eq!(s.seek_to(10 * SEC), Some(10 * SEC));
}

#[test]
fn seek_past_the_end_ends_the_track() {
    let s = MediaStream::new(1, track("t.flac", Some(10)), 0, 50, true, 0);
    assert_eq!(s.seek_to(10 * SEC + 1), None);
    assert_eq!(s.seek_to(u64::MAX), None);
    let unknown = MediaStream::new(1, track("t.flac", None), 0, 50, true, 0);
    assert_eq!(unknown.seek_to(u64::MAX), Some(u64::MAX));
}

#[test]
fn seek_forward_and_backward() {
    let s = MediaStream::new(1, track("t.flac", Some(10)), 5 * SEC, 50, true, 0);
    assert_eq!(s.seek_forward(3 * SEC, 2 * SEC), Some(10 * SEC));
    assert_eq!(s.seek_forward(6 * SEC, 0), None);
    assert_eq!(s.seek_forward(u64::MAX, 0), None);
    assert_eq!(s.seek_backward(2 * SEC, SEC), Some(4 * SEC));
    assert_eq!(s.seek_backward(20 * SEC, 0), Some(0));
}

#[test]
fn session_end_of_track() {
    let s = MediaStream::new(1, track("t.flac", Some(10)), 0, 50, true, 0);
    assert!(!s.is_finished_at(10 * SEC));
    assert!(s.is_finished_at(11 * SEC));
    let unknown = MediaStream::new(1, track("t.flac", None), 0, 50, true, 0);
    assert!(!unknown.is_finished_at(u64::MAX));
}

#[test]
fn queue_advances_when_idle() {
    let mut q = Queue::default();
    assert_eq!(q.advance(), None);
    assert_eq!(q.pointer(), Pointer::Start);
    q.push(track("a.flac", Some(1)));
    q.push(track("b.flac", Some(1)));
    assert_eq!(q.len(), 2);
    assert_eq!(q.advance(), Some(0));
    assert_eq!(q.pointer(), Pointer::Idx(0));
    assert_eq!(q.track(0).path, "a.flac");
    assert_eq!(q.advance(), Some(1));
    assert_eq!(q.advance(), None);
    assert_eq!(q.pointer(), Pointer::Idx(1));
}

#[test]
fn queue_skip_wraps_through_end() {
    let mut q = Queue::default();
    assert_eq!(q.skip(), None);
    q.push(track("a.flac", Some(1)));
    assert_eq!(q.skip(), Some(0));
    assert_eq!(q.skip(), None);
    assert_eq!(q.pointer(), Pointer::End);
    assert_eq!(q.advance(), None);
    assert_eq!(q.skip(), None);
    assert_eq!(q.pointer(), Pointer::Start);
    assert_eq!(q.skip(), Some(0));
}

#[test]
fn session_pause_and_resume_move_clock_and_output_together() {
    let mut s = MediaStream::new(1, track("t.flac", Some(100)), 0, 40, true, 0);
    s.pause_at(3 * SEC);
    assert!(!s.sink.is_playing());
    assert_eq!(s.position_at(50 * SEC), 3 * SEC);
    s.resume_at(60 * SEC);
    assert!(s.sink.is_playing());
    assert_eq!(s.position_at(62 * SEC), 5 * SEC);
    s.set_volume(-20);
    assert_eq!(s.sink.volume(), 0);
    s.set_volume(73);
    assert_eq!(s.sink.volume(), 73);
    assert!(s.sink.is_playing());
}
