use cmus_notify::events::{events_between, CmusEvent};
use cmus_notify::player_settings::{AAAMode, PlayerSettings, Shuffle, Volume};
use cmus_notify::query::CmusQueryResponse;
use cmus_notify::track::{CmusError, Track, TrackStatus};

fn track(status: &str, path: &str, position: u32) -> Track {
    Track::from_str(&format!(
        "status {}\nfile {}\nduration 200\nposition {}\ntag title T\n",
        status, path, position
    ))
    .unwrap()
}

fn settings() -> PlayerSettings {
    PlayerSettings {
        repeat: false,
        repeat_current: false,
        shuffle: Shuffle::Off,
        aaa_mode: AAAMode::All,
        volume: Volume { left: 50, right: 50 },
    }
}

fn response(status: &str, path: &str, position: u32, sets: &str) -> CmusQueryResponse {
    CmusQueryResponse::from_str(&format!(
        "status {}\nfile {}\nduration 200\nposition {}\ntag title T\n{}",
        status, path, position, sets
    ))
    .unwrap()
}

#[test]
fn same_snapshot_gives_no_events() {
    let t = track("playing", "/a.mp3", 5);
    let p = settings();
    assert!(events_between(&t, &p, &t, &p).is_empty());
    let q = response("playing", "/a.mp3", 5, "set repeat true\nset vol_left 3\n");
    assert_eq!(q.events(&q).unwrap().len(), 0);
}

#[test]
fn new_path_gives_only_track_changed() {
    let prev = track("playing", "/a.mp3", 5);
    let cur = track("paused", "/b.mp3", 0);
    let mut p2 = settings();
    p2.shuffle = Shuffle::Albums;
    p2.repeat = true;
    p2.volume = Volume { left: 1, right: 2 };
    let events = events_between(&prev, &settings(), &cur, &p2);
    assert_eq!(events.len(), 1);
    match &events[0] {
        CmusEvent::TrackChanged(t, p) => {
            assert_eq!(t.path, "/b.mp3");
            assert_eq!(t.status, TrackStatus::Paused);
            assert_eq!(p.shuffle, Shuffle::Albums);
        }
        other => panic!("unexpected event {:?}", other),
    }
}

#[test]
fn shuffle_and_volume_in_fixed_order() {
    let t = track("playing", "/a.mp3", 5);
    let mut p2 = settings();
    p2.shuffle = Shuffle::Tracks;
    p2.volume = Volume { left: 60, right: 60 };
    let events = events_between(&t, &settings(), &t, &p2);
    assert_eq!(events.len(), 2);
    assert!(matches!(events[0], CmusEvent::ShuffleChanged(_, _)));
    assert!(matches!(events[1], CmusEvent::VolumeChanged(_, _)));
}

#[test]
fn status_change_hides_position_change() {
    let prev = track("playing", "/a.mp3", 5);
    let cur = track("paused", "/a.mp3", 9);
    let mut p2 = settings();
    p2.repeat = true;
    p2.aaa_mode = AAAMode::Album;
    let events = events_between(&prev, &settings(), &cur, &p2);
    assert_eq!(events.len(), 3);
    assert!(matches!(events[0], CmusEvent::StatusChanged(_, _)));
    assert!(matches!(events[1], CmusEvent::RepeatChanged(_, _)));
    assert!(matches!(events[2], CmusEvent::AAAModeChanged(_, _)));
    let cur = track("playing", "/a.mp3", 9);
    let events = events_between(&prev, &settings(), &cur, &settings());
    assert_eq!(events.len(), 1);
    match &events[0] {
        CmusEvent::PositionChanged(t, _) => assert_eq!(t.position, 9),
        other => panic!("unexpected event {:?}", other),
    }
}

#[test]
fn blank_response_gives_no_events_error() {
    let blank = CmusQueryResponse::default();
    let q = response("playing", "/a.mp3", 5, "set repeat true\n");
    assert_eq!(blank.events(&q), Err(CmusError::NoEvents));
    assert_eq!(q.events(&blank), Err(CmusError::NoEvents));
}

#[test]
fn response_events_carry_the_current_snapshot() {
    let prev = response("playing", "/a.mp3", 5, "set shuffle off\nset vol_left 10\nset vol_right 10\n");
    let cur = response("playing", "/a.mp3", 5, "set shuffle albums\nset vol_left 10\nset vol_right 10\n");
    let events = prev.events(&cur).unwrap();
    assert_eq!(events.len(), 1);
    match &events[0] {
        CmusEvent::ShuffleChanged(_, p) => assert_eq!(p.shuffle, Shuffle::Albums),
        other => panic!("unexpected event {:?}", other),
    }
    let bad = response("playing", "/a.mp3", 5, "set shuffle nope\n");
    assert!(matches!(prev.events(&bad), Err(CmusError::UnknownShuffleMode(_))));
}

#[test]
fn track_change_does_not_need_previous_settings() {
    let prev = response("playing", "/a.mp3", 5, "set shuffle nope\n");
    let cur = response("paused", "/b.mp3", 0, "set shuffle albums\n");
    let events = prev.events(&cur).unwrap();
    assert_eq!(events.len(), 1);
    match &events[0] {
        CmusEvent::TrackChanged(t, p) => {
            assert_eq!(t.path, "/b.mp3");
            assert_eq!(p.shuffle, Shuffle::Albums);
        }
        other => panic!("unexpected event {:?}", other),
    }
    let same_path = response("paused", "/a.mp3", 0, "set shuffle albums\n");
    assert_eq!(
        prev.events(&same_path),
        Err(CmusError::UnknownShuffleMode("nope".to_string()))
    );
}
