use cmus_notify::command::{build_query_command, read_response};
use cmus_notify::events::CmusEvent;
use cmus_notify::handler::{after_show, cover_step, plan_event, CoverStep, Plan, SavedNotification};
use cmus_notify::player_settings::PlayerSettings;
use cmus_notify::settings::Settings;
use cmus_notify::track::{CmusError, Track};

#[test]
fn test_build_the_query_command_with_no_custom_socket_and_no_pass() {
    let command = build_query_command("cmus-remote", &None, &None).unwrap();

    assert_eq!(command[0], "cmus-remote");
    assert_eq!(&command[1..], &["-Q"]);
}

#[test]
fn test_build_the_query_command_with_custom_socket_and_no_pass() {
    let command =
        build_query_command("cmus-remote", &Some("/tmp/cmus-socket".to_string()), &None).unwrap();

    assert_eq!(command[0], "cmus-remote");
    assert_eq!(&command[1..], &["--server", "/tmp/cmus-socket", "-Q"]);
}

#[test]
fn test_build_the_query_command_with_custom_socket_and_pass() {
    let command = build_query_command(
        "cmus-remote",
        &Some("/tmp/cmus-socket".to_string()),
        &Some("pass".to_string()),
    )
    .unwrap();

    assert_eq!(command[0], "cmus-remote");
    assert_eq!(&command[1..], &["--server", "/tmp/cmus-socket", "--passwd", "pass", "-Q"]);
}

#[test]
fn test_build_the_query_command_with_custom_bin_path() {
    let command = build_query_command("flatpak run io.github.cmus.cmus", &None, &None).unwrap();

    assert_eq!(command[0], "flatpak");
    assert_eq!(&command[1..], &["run", "io.github.cmus.cmus", "-Q"]);
}

#[test]
fn blank_command_has_no_program() {
    assert!(build_query_command("   ", &None, &None).is_none());
    let command = build_query_command("  snap\trun  cmus ", &None, &None).unwrap();
    assert_eq!(command, vec!["snap", "run", "cmus", "-Q"]);
}

#[test]
fn reply_is_read_or_refused() {
    assert_eq!(
        read_response(false, "", "not running"),
        Err(CmusError::CmusRunningError("not running".to_string()))
    );
    assert!(matches!(read_response(true, "status playing\n", ""), Err(CmusError::UnknownError(_))));
    let q = read_response(true, "status playing\nset repeat true\n", "").unwrap();
    assert_eq!(q.track_row(), "status playing\n");
}

fn track(position: u32) -> Track {
    Track::from_str(&format!(
        "status playing\nfile /a.mp3\nduration 100\nposition {}\ntag title Song\n",
        position
    ))
    .unwrap()
}

fn player() -> PlayerSettings {
    PlayerSettings::from_str("set vol_left 5\nset vol_right 5\n").unwrap()
}

#[test]
fn position_change_refills_visible_notifications() {
    let saved = vec![
        SavedNotification { body_template: "{title} at {volume}".to_string(), summary_template: "S".to_string(), visible: true },
        SavedNotification { body_template: "hidden".to_string(), summary_template: "H".to_string(), visible: false },
        SavedNotification { body_template: "{status}".to_string(), summary_template: "{title}".to_string(), visible: true },
    ];
    let event = CmusEvent::PositionChanged(track(3), player());
    match plan_event(&saved, &event, &Settings::default()) {
        Plan::Refill(v) => {
            assert_eq!(v.len(), 2);
            assert_eq!(v[0].index, 0);
            assert_eq!(v[0].body, "Song at 5");
            assert_eq!(v[1].index, 2);
            assert_eq!(v[1].summary, "Song");
            assert_eq!(v[1].body, "Playing");
        }
        other => panic!("unexpected plan {:?}", other),
    }
}

#[test]
fn track_change_closes_and_keeps_volatile() {
    let mut saved = vec![SavedNotification {
        body_template: "old".to_string(),
        summary_template: "old".to_string(),
        visible: true,
    }];
    let mut settings = Settings::default();
    settings.body = Some("{lyrics}".to_string());
    let event = CmusEvent::TrackChanged(track(0), player());
    match plan_event(&saved, &event, &settings) {
        Plan::Show { close_saved, action } => {
            assert!(close_saved);
            after_show(&mut saved, close_saved, &action);
            assert_eq!(saved.len(), 1);
            assert_eq!(saved[0].body_template, "{lyrics}");
            assert!(saved[0].visible);
        }
        other => panic!("unexpected plan {:?}", other),
    }
}

#[test]
fn cover_steps() {
    assert_eq!(cover_step(true, false, true, true), CoverStep::Refresh);
    assert_eq!(cover_step(true, false, false, false), CoverStep::Fill);
    assert_eq!(cover_step(true, true, true, false), CoverStep::Keep);
    assert_eq!(cover_step(false, true, false, false), CoverStep::StaticIcon);
    assert_eq!(cover_step(false, true, true, true), CoverStep::Keep);
}
