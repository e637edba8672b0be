use cmus_notify::cover::{cover_location, cover_plan, cover_search_request, search_levels, FileMatcher};
use cmus_notify::events::CmusEvent;
use cmus_notify::notification::Action;
use cmus_notify::player_settings::{AAAMode, PlayerSettings, Shuffle, Volume};
use cmus_notify::settings::Settings;
use cmus_notify::template::{get_keys, is_mutable, process_template_placeholders};
use cmus_notify::track::Track;

const OUTPUT_WITH_ALL_TAGS: &str = "status playing
file /mnt/Data/Music/FLAC/Alex Goot/Alex Goot - Alex Goot & Friends, Vol. 3/08 - Photograph.mp3
duration 284
position 226
tag artist Alex Goot
tag album Alex Goot & Friends, Vol. 3
tag title Photograph
tag date 2014
tag genre Pop
tag discnumber 1
tag tracknumber 8
tag albumartist Alex Goot
tag replaygain_track_gain -9.4 dB
tag composer Chad Kroeger
tag label mudhutdigital.com
tag publisher mudhutdigital.com
tag bpm 146
set aaa_mode artist
set repeat false
set repeat_current false
set shuffle tracks
set vol_left 46
set vol_right 46
";

fn full_track() -> Track {
    Track::from_str(OUTPUT_WITH_ALL_TAGS).unwrap()
}

fn player() -> PlayerSettings {
    PlayerSettings::from_str(OUTPUT_WITH_ALL_TAGS).unwrap()
}

#[test]
fn lib_test_process_path_template() {
    let cover_path_template = String::from("{title}/{artist}/{album}/{tracknumber}");
    let cover_path = process_template_placeholders(&cover_path_template, &full_track(), &player());

    assert_eq!(cover_path, "Photograph/Alex Goot/Alex Goot & Friends, Vol. 3/8");
}

#[test]
fn utils_test_process_path_template() {
    let cover_path_template = String::from("{title}/{artist}/{album}/{tracknumber}");
    let cover_path = process_template_placeholders(&cover_path_template, &full_track(), &player());

    assert_eq!(cover_path, "Photograph/Alex Goot/Alex Goot & Friends, Vol. 3/8");
}

#[test]
fn player_placeholders_are_filled() {
    let mut p = player();
    let out = process_template_placeholders(
        "{status} {repeat} {repeat_current} {shuffle} {aaa_mode} {volume}%",
        &full_track(),
        &p,
    );
    assert_eq!(out, "Playing false false Tracks Artist 46%");
    p.volume = Volume { left: 7, right: 100 };
    p.shuffle = Shuffle::Off;
    p.aaa_mode = AAAMode::All;
    let out = process_template_placeholders("{volume} {volume_left}/{volume_right} {shuffle}", &full_track(), &p);
    assert_eq!(out, "7:100 7/100 Off");
}

#[test]
fn unknown_keys_render_empty() {
    let out = process_template_placeholders("a{nothing}b{}c", &full_track(), &player());
    assert_eq!(out, "abc");
    let out = process_template_placeholders("{progress}", &full_track(), &player());
    assert_eq!(out, "");
}

#[test]
fn unbalanced_braces_are_kept() {
    let out = process_template_placeholders("x} {a{genre} {open", &full_track(), &player());
    assert_eq!(out, "x} {aPop {open");
}

#[test]
fn rendering_is_repeatable() {
    let a = process_template_placeholders("{artist} - {title}", &full_track(), &player());
    let b = process_template_placeholders("{artist} - {title}", &full_track(), &player());
    assert_eq!(a, b);
    assert_eq!(a, "Alex Goot - Photograph");
}

#[test]
fn volatile_templates() {
    assert!(is_mutable("{progress}"));
    assert!(is_mutable("now {lyrics} here"));
    assert!(is_mutable("{progress_bar}"));
    assert!(!is_mutable("{artist}"));
    assert!(!is_mutable("progress"));
    assert_eq!(get_keys("{a} x {b}"), vec!["a".to_string(), "b".to_string()]);
}

#[test]
fn track_notification_uses_track_templates() {
    let settings = Settings::default();
    let event = CmusEvent::TrackChanged(full_track(), player());
    match event.build_notification(&settings) {
        Action::Show { body, summary, timeout, save } => {
            assert_eq!(summary.str, "Photograph");
            assert_eq!(summary.template, "{title}");
            assert_eq!(
                body.str,
                "<b>Playing:</b> Photograph \n <b>album:</b> Alex Goot & Friends, Vol. 3 \n <b>Artist:</b> Alex Goot - 2014"
            );
            assert_eq!(timeout, 5000);
            assert!(!save);
        }
        Action::Nothing => panic!("expected a notification"),
    }
}

#[test]
fn volatile_template_makes_notification_stay() {
    let mut settings = Settings::default();
    settings.body = Some("{title} {progress}".to_string());
    let event = CmusEvent::TrackChanged(full_track(), player());
    match event.build_notification(&settings) {
        Action::Show { timeout, save, body, .. } => {
            assert_eq!(timeout, 0);
            assert!(save);
            assert_eq!(body.str, "Photograph ");
        }
        Action::Nothing => panic!("expected a notification"),
    }
}

#[test]
fn player_notifications_need_the_flag() {
    let mut settings = Settings::default();
    let event = CmusEvent::VolumeChanged(full_track(), player());
    assert!(matches!(event.build_notification(&settings), Action::Nothing));
    settings.show_player_notifications = true;
    match event.build_notification(&settings) {
        Action::Show { body, summary, timeout, save } => {
            assert_eq!(body.str, "Volume changed to 46%");
            assert_eq!(summary.str, "Volume changed");
            assert_eq!(timeout, 1000);
            assert!(!save);
        }
        Action::Nothing => panic!("expected a notification"),
    }
    let event = CmusEvent::PositionChanged(full_track(), player());
    assert!(matches!(event.build_notification(&settings), Action::Nothing));
    let event = CmusEvent::StatusChanged(full_track(), player());
    match event.build_notification(&Settings::default()) {
        Action::Show { body, .. } => assert_eq!(body.str, "<b>Playing</b>"),
        Action::Nothing => panic!("expected a notification"),
    }
}

#[test]
fn settings_defaults_and_combination() {
    let d = Settings::default();
    assert_eq!(d.timeout(), 5);
    assert_eq!(d.depth(), 3);
    assert_eq!(d.interval(), 1000);
    assert_eq!(d.app_name(), "C* Music Player");
    assert_eq!(d.remote_bin_path(), "cmus-remote");
    assert_eq!(d.shuffle_notification_body(), "Shuffle mode changed to {shuffle}");
    assert_eq!(d.repeat_notification_summary(), "Repeat mode changed");
    assert_eq!(d.aaa_mode_notification_timeout(), 1);
    let mut config = Settings::default();
    config.depth = None;
    config.link = true;
    let mut args = Settings::default();
    args.timeout = Some(9);
    args.depth = None;
    args.summary = None;
    args.link = false;
    let c = Settings::combine(config, args);
    assert_eq!(c.timeout(), 9);
    assert_eq!(c.depth(), 3);
    assert!(c.link);
    assert_eq!(c.summary(), "{title}");
}

#[test]
fn cover_search_with_default_pattern() {
    let (dir, pattern) = cover_search_request("/music/a/01 - x.mp3", "x");
    assert_eq!(dir, "/music/a/01 - x.mp3");
    assert_eq!(pattern, "(x).*\\.(jpg|jpeg|png|gif)$");
}

#[test]
fn cover_search_with_raw_pattern() {
    let (dir, pattern) = cover_search_request("/music/a/r#cover\\.(jpg|png)", "x");
    assert_eq!(dir, "/music/a");
    assert_eq!(pattern, "cover\\.(jpg|png)");
}

#[test]
fn cover_location_from_template() {
    let t = full_track();
    assert_eq!(cover_location(&None, &t, &player()), t.path);
    assert_eq!(
        cover_location(&Some("/covers/{artist}/{album}".to_string()), &t, &player()),
        "/covers/Alex Goot/Alex Goot & Friends, Vol. 3"
    );
    assert_eq!(cover_plan(false, false), (true, true));
    assert_eq!(cover_plan(true, true), (false, false));
}

#[test]
fn bounded_search_respects_depth() {
    let m = FileMatcher::new(r".\.jpg|.\.png").unwrap();
    let levels = vec![
        vec!["notes.txt".to_string()],
        vec!["track.mp3".to_string()],
        vec!["a.txt".to_string(), "cover.jpg".to_string(), "back.png".to_string()],
    ];
    assert_eq!(search_levels(&levels, 1, &m), None);
    assert_eq!(search_levels(&levels, 2, &m), Some((2, 1)));
    assert_eq!(search_levels(&levels, 0, &m), None);
    assert!(m.is_match("cover.jpg"));
    assert!(!m.is_match("cover.gif"));
}

#[test]
fn invalid_pattern_is_refused() {
    assert!(FileMatcher::new("(unclosed").is_none());
}

#[test]
fn empty_and_plain_templates() {
    assert_eq!(process_template_placeholders("", &full_track(), &player()), "");
    assert_eq!(process_template_placeholders("plain text", &full_track(), &player()), "plain text");
    assert!(!is_mutable(""));
    assert!(get_keys("").is_empty());
}

#[test]
fn unknown_key_amid_text_leaves_the_text() {
    let out = process_template_placeholders("before {no_such_key} after", &full_track(), &player());
    assert_eq!(out, "before  after");
}

#[test]
fn star_in_raw_pattern_matches_anything() {
    let (dir, pattern) = cover_search_request("/music/a/r#cover*.jpg", "x");
    assert_eq!(dir, "/music/a");
    assert_eq!(pattern, "cover.*.jpg");
    let m = FileMatcher::new(&pattern).unwrap();
    assert!(m.is_match("cover-front.jpg"));
}

#[test]
fn default_pattern_uses_name_without_extension() {
    let t = Track::from_str("status playing\nfile /m/a.b.mp3\nduration 1\nposition 0\n").unwrap();
    assert_eq!(t.get_name(), "a.b");
    let (_, pattern) = cover_search_request(&t.path, t.get_name());
    assert_eq!(pattern, "(a.b).*\\.(jpg|jpeg|png|gif)$");
}
