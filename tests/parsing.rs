use cmus_notify::player_settings::{AAAMode, PlayerSettings, Shuffle, Volume};
use cmus_notify::query::CmusQueryResponse;
use cmus_notify::track::{CmusError, Track, TrackMetadata, TrackStatus};

const OUTPUT_WITH_ALL_TAGS: &str = "status playing
file /mnt/Data/Music/FLAC/Alex Goot/Alex Goot - Alex Goot & Friends, Vol. 3/08 - Photograph.mp3
duration 284
position 226
tag artist Alex Goot
tag album Alex Goot & Friends, Vol. 3
tag title Photograph
tag date 2014
tag genre Pop
tag discnumber 1
tag tracknumber 8
tag albumartist Alex Goot
tag replaygain_track_gain -9.4 dB
tag composer Chad Kroeger
tag label mudhutdigital.com
tag publisher mudhutdigital.com
tag bpm 146
set aaa_mode artist
set continue true
set play_library true
set play_sorted false
set replaygain disabled
set replaygain_limit true
set replaygain_preamp 0.000000
set repeat false
set repeat_current false
set shuffle tracks
set softvol false
set vol_left 46
set vol_right 46
";

const SOME_TAGS: &str = r#"tag artist Alex Goot
        tag album Alex Goot & Friends, Vol. 3
        tag title Photograph
        tag date 2014
        tag genre Pop
        tag discnumber 1
        tag tracknumber 8
        tag albumartist Alex Goot
        tag replaygain_track_gain -9.4 dB
        tag composer Chad Kroeger
        tag label mudhutdigital.com
        tag publisher mudhutdigital.com
        tag bpm 146
        set aaa_mode artist
        ..."#;

const PLAYER_SETTINGS_SAMPLE: &str = "set aaa_mode artist
set continue true
set play_library true
set play_sorted false
set replaygain disabled
set replaygain_limit true
set replaygain_preamp 0.000000
set repeat false
set repeat_current false
set shuffle tracks
set softvol false
set vol_left 46
set vol_right 46
";

const TRACK_ROW: &str = "status playing
file /mnt/Data/Music/FLAC/Taylor Swift/Taylor Swift - Speak Now/12 - Haunted.mp3
duration 242
position 34
tag artist Taylor Swift
tag album Speak Now
tag title Haunted
tag date 2010
tag genre Pop
tag discnumber 1
tag tracknumber 12
tag albumartist Taylor Swift
tag replaygain_track_gain -11.3 dB
tag composer Taylor Swift
tag label Big Machine Records, LLC
tag publisher Big Machine Records, LLC
tag bpm 162
";

const PLAYER_ROW: &str = "set aaa_mode all
set continue true
set play_library true
set play_sorted false
set replaygain disabled
set replaygain_limit true
set replaygain_preamp 0.000000
set repeat true
set repeat_current false
set shuffle off
set softvol false
set vol_left 17
set vol_right 17
";

fn row() -> String {
    format!("{}{}", TRACK_ROW, PLAYER_ROW)
}

#[test]
fn test_create_track_from_str() {
    let track = Track::from_str(OUTPUT_WITH_ALL_TAGS);

    assert!(matches!(track, Ok(_)));

    let track = track.unwrap();

    assert_eq!(track.status, TrackStatus::Playing);
    assert_eq!(track.path, "/mnt/Data/Music/FLAC/Alex Goot/Alex Goot - Alex Goot & Friends, Vol. 3/08 - Photograph.mp3");
    assert_eq!(track.duration, 284);
    assert_eq!(track.position, 226);
    assert_eq!(track.metadata.get("artist"), Some("Alex Goot"));
    assert_eq!(track.metadata.get("album"), Some("Alex Goot & Friends, Vol. 3"));
    assert_eq!(track.metadata.get("title"), Some("Photograph"));
    assert_eq!(track.metadata.get("date"), Some("2014"));
    assert_eq!(track.metadata.get("genre"), Some("Pop"));
    assert_eq!(track.metadata.get("discnumber"), Some("1"));
    assert_eq!(track.metadata.get("tracknumber"), Some("8"));
    assert_eq!(track.metadata.get("albumartist"), Some("Alex Goot"));
    assert_eq!(track.metadata.get("replaygain_track_gain"), Some("-9.4 dB"));
    assert_eq!(track.metadata.get("composer"), Some("Chad Kroeger"));
    assert_eq!(track.metadata.get("label"), Some("mudhutdigital.com"));
    assert_eq!(track.metadata.get("publisher"), Some("mudhutdigital.com"));
    assert_eq!(track.metadata.get("bpm"), Some("146"));
}

#[test]
fn test_parse_metadata_from_the_string() {
    let metadata = TrackMetadata::parse(SOME_TAGS);

    assert_eq!(metadata.get("artist"), Some("Alex Goot"));
    assert_eq!(metadata.get("album"), Some("Alex Goot & Friends, Vol. 3"));
    assert_eq!(metadata.get("title"), Some("Photograph"));
    assert_eq!(metadata.get("date"), Some("2014"));
    assert_eq!(metadata.get("genre"), Some("Pop"));
    assert_eq!(metadata.get("discnumber"), Some("1"));
    assert_eq!(metadata.get("tracknumber"), Some("8"));
    assert_eq!(metadata.get("albumartist"), Some("Alex Goot"));
    assert_eq!(metadata.get("replaygain_track_gain"), Some("-9.4 dB"));
    assert_eq!(metadata.get("composer"), Some("Chad Kroeger"));
    assert_eq!(metadata.get("label"), Some("mudhutdigital.com"));
    assert_eq!(metadata.get("publisher"), Some("mudhutdigital.com"));
    assert_eq!(metadata.get("bpm"), Some("146"));
}

#[test]
fn test_parse_aaamode_from_str() {
    let all = AAAMode::from_str("all");
    let album = AAAMode::from_str("album");
    let artist = AAAMode::from_str("artist");
    let unknown = AAAMode::from_str("unknown");

    assert_eq!(all, Ok(AAAMode::All));
    assert_eq!(album, Ok(AAAMode::Album));
    assert_eq!(artist, Ok(AAAMode::Artist));
    assert_eq!(unknown, Err(CmusError::UnknownAAAMode("unknown".to_string())));
}

#[test]
fn test_parse_shuffle_mode_from_str() {
    let off = Shuffle::from_str("off");
    let tracks = Shuffle::from_str("tracks");
    let albums = Shuffle::from_str("albums");
    let unknown = Shuffle::from_str("unknown");

    assert_eq!(off, Ok(Shuffle::Off));
    assert_eq!(tracks, Ok(Shuffle::Tracks));
    assert_eq!(albums, Ok(Shuffle::Albums));
    assert_eq!(unknown, Err(CmusError::UnknownShuffleMode("unknown".to_string())));
}

#[test]
fn test_parse_player_settings_from_str() {
    let settings = PlayerSettings::from_str(PLAYER_SETTINGS_SAMPLE);

    assert_eq!(
        settings,
        Ok(PlayerSettings {
            repeat: false,
            repeat_current: false,
            shuffle: Shuffle::Tracks,
            aaa_mode: AAAMode::Artist,
            volume: Volume { left: 46, right: 46 },
        })
    );
}

#[test]
fn test_parse_query_from_str() {
    let row = row();
    let query = CmusQueryResponse::from_str(&row);

    assert!(query.is_ok());
    let query = query.unwrap();

    assert_eq!(query.track_row(), TRACK_ROW);
    assert_eq!(query.player_settings_row(), PLAYER_ROW);
}

#[test]
fn test_actually_parse_the_track_info() {
    let row = row();
    let query = CmusQueryResponse::from_str(&row).unwrap();
    let track = query.track();

    assert!(track.is_ok());
    let track = track.unwrap();

    assert_eq!(
        track.path,
        "/mnt/Data/Music/FLAC/Taylor Swift/Taylor Swift - Speak Now/12 - Haunted.mp3"
    );
    assert_eq!(track.status, TrackStatus::Playing);
    assert_eq!(track.position, 34);
    assert_eq!(track.duration, 242);
    let metadata = track.metadata;
    assert_eq!(metadata.get("artist"), Some("Taylor Swift"));
    assert_eq!(metadata.get("album"), Some("Speak Now"));
    assert_eq!(metadata.get("title"), Some("Haunted"));
    assert_eq!(metadata.get("date"), Some("2010"));
    assert_eq!(metadata.get("genre"), Some("Pop"));
    assert_eq!(metadata.get("discnumber"), Some("1"));
    assert_eq!(metadata.get("tracknumber"), Some("12"));
    assert_eq!(metadata.get("albumartist"), Some("Taylor Swift"));
    assert_eq!(metadata.get("replaygain_track_gain"), Some("-11.3 dB"));
    assert_eq!(metadata.get("composer"), Some("Taylor Swift"));
    assert_eq!(metadata.get("label"), Some("Big Machine Records, LLC"));
    assert_eq!(metadata.get("publisher"), Some("Big Machine Records, LLC"));
    assert_eq!(metadata.get("bpm"), Some("162"));
    assert_eq!(metadata.get("comment"), None);
}

#[test]
fn test_actually_parse_the_player_settings() {
    let row = row();
    let query = CmusQueryResponse::from_str(&row).unwrap();
    let player_settings = query.player_settings();

    assert!(player_settings.is_ok());
    let player_settings = player_settings.unwrap();

    assert_eq!(player_settings.aaa_mode, AAAMode::All);
    assert_eq!(player_settings.repeat, true);
    assert_eq!(player_settings.repeat_current, false);
    assert_eq!(player_settings.shuffle, Shuffle::Off);
    assert_eq!(player_settings.volume.left, 17);
    assert_eq!(player_settings.volume.right, 17);
}

#[test]
fn parse_reads_exactly_the_tags_given() {
    let text = "status paused\nfile /a/b.flac\nduration 10\nposition 0\ntag artist A B\ntag album C\nset repeat true\n";
    let track = Track::from_str(text).unwrap();
    assert_eq!(track.status, TrackStatus::Paused);
    assert_eq!(track.metadata.get("artist"), Some("A B"));
    assert_eq!(track.metadata.get("album"), Some("C"));
    assert_eq!(track.metadata.get("title"), None);
    assert_eq!(track.metadata.get("repeat"), None);
}

#[test]
fn later_tag_replaces_earlier_one() {
    let metadata = TrackMetadata::parse("tag genre Pop\ntag genre Rock\n");
    assert_eq!(metadata.get("genre"), Some("Rock"));
}

#[test]
fn tag_without_value_is_skipped() {
    let metadata = TrackMetadata::parse("tag lonely\ntag artist X\nother line\ntag album Y\n");
    assert_eq!(metadata.get("lonely"), None);
    assert_eq!(metadata.get("artist"), Some("X"));
    assert_eq!(metadata.get("album"), None);
}

#[test]
fn header_errors_are_told_apart() {
    assert_eq!(Track::from_str(""), Err(CmusError::NoStatus));
    assert_eq!(Track::from_str("status\n"), Err(CmusError::NoStatus));
    assert_eq!(Track::from_str("status dancing\n"), Err(CmusError::UnknownStatus));
    assert_eq!(Track::from_str("status playing\n"), Err(CmusError::EmptyPath));
    assert_eq!(Track::from_str("status playing\nfile\n"), Err(CmusError::EmptyPath));
    assert!(matches!(
        Track::from_str("status playing\nfile /x.mp3\n"),
        Err(CmusError::DurationError(_))
    ));
    assert!(matches!(
        Track::from_str("status playing\nfile /x.mp3\nduration ten\n"),
        Err(CmusError::DurationError(_))
    ));
    assert!(matches!(
        Track::from_str("status playing\nfile /x.mp3\nduration 10\nposition -1\n"),
        Err(CmusError::PositionError(_))
    ));
    assert!(matches!(
        Track::from_str("status playing\nfile /x.mp3\nduration 4294967296\nposition 1\n"),
        Err(CmusError::DurationError(_))
    ));
    let t = Track::from_str("status stopped\nfile /x.mp3\nduration +4294967295\nposition 0").unwrap();
    assert_eq!(t.duration, 4294967295);
    assert_eq!(t.status, TrackStatus::Stopped);
}

#[test]
fn settings_errors_and_unknown_keys() {
    assert!(matches!(
        PlayerSettings::from_str("set shuffle sideways\n"),
        Err(CmusError::UnknownShuffleMode(_))
    ));
    assert!(matches!(
        PlayerSettings::from_str("set aaa_mode everything\n"),
        Err(CmusError::UnknownAAAMode(_))
    ));
    assert!(matches!(
        PlayerSettings::from_str("set vol_left 300\n"),
        Err(CmusError::UnknownError(_))
    ));
    assert!(matches!(
        PlayerSettings::from_str("set repeat\n"),
        Err(CmusError::UnknownError(_))
    ));
    let p = PlayerSettings::from_str("set future_key 1\nset repeat_current true\nset vol_left 20\nset vol_right 30\n")
        .unwrap();
    assert_eq!(p.repeat_current, true);
    assert_eq!(p.repeat, false);
    assert_eq!(p.volume, Volume { left: 20, right: 30 });
}

#[test]
fn response_without_settings_is_refused() {
    assert!(CmusQueryResponse::from_str("status playing\nfile /x\n").is_err());
    let q = CmusQueryResponse::from_str("status playing\ntag title upset me\nset repeat true\n").unwrap();
    assert_eq!(q.track_row(), "status playing\ntag title upset me\n");
    assert_eq!(q.player_settings_row(), "set repeat true\n");
}

#[test]
fn display_name_falls_back_to_file_stem() {
    let t = Track::from_str("status playing\nfile /music/Artist/03 - Song.remix.mp3\nduration 1\nposition 0\n").unwrap();
    assert_eq!(t.get_name(), "03 - Song.remix");
    let t = Track::from_str("status playing\nfile /music/noext\nduration 1\nposition 0\n").unwrap();
    assert_eq!(t.get_name(), "noext");
    let t = Track::from_str("status playing\nfile ab\nduration 1\nposition 0\n").unwrap();
    assert_eq!(t.get_name(), "ab");
    let t = Track::from_str("status playing\nfile /x.mp3\nduration 1\nposition 0\ntag title Named\n").unwrap();
    assert_eq!(t.get_name(), "Named");
}

#[test]
fn volume_bounds() {
    let p = PlayerSettings::from_str("set vol_left 255\nset vol_right 0\n").unwrap();
    assert_eq!(p.volume, Volume { left: 255, right: 0 });
    assert!(PlayerSettings::from_str("set vol_right 256\n").is_err());
    assert!(PlayerSettings::from_str("set vol_right \n").is_err());
    let empty = PlayerSettings::from_str("").unwrap();
    assert_eq!(empty.shuffle, Shuffle::Off);
    assert_eq!(empty.aaa_mode, AAAMode::All);
    assert_eq!(empty.volume, Volume { left: 0, right: 0 });
}

#[test]
fn settings_block_may_start_the_response() {
    let q = CmusQueryResponse::from_str("set repeat true\n").unwrap();
    assert_eq!(q.track_row(), "");
    assert_eq!(q.player_settings_row(), "set repeat true\n");
    let blank = CmusQueryResponse::default();
    assert_eq!(q.events(&q), Err(CmusError::NoEvents));
    assert_eq!(blank.track_row(), "");
}

#[test]
fn carriage_returns_before_newlines_are_dropped() {
    let text = "status playing\r\nfile /x/y.mp3\r\nduration 10\r\nposition 2\r\ntag artist Z\r\nset repeat true\r\n";
    let t = Track::from_str(text).unwrap();
    assert_eq!(t.path, "/x/y.mp3");
    assert_eq!(t.position, 2);
    assert_eq!(t.metadata.get("artist"), Some("Z"));
    let p = PlayerSettings::from_str("set repeat true\r\nset shuffle albums\r\n").unwrap();
    assert!(p.repeat);
    assert_eq!(p.shuffle, Shuffle::Albums);
}

#[test]
fn settings_errors_carry_the_word() {
    assert_eq!(
        PlayerSettings::from_str("set repeat true\nset shuffle sideways\n"),
        Err(CmusError::UnknownShuffleMode("sideways".to_string()))
    );
    assert_eq!(
        PlayerSettings::from_str("set aaa_mode everything\n"),
        Err(CmusError::UnknownAAAMode("everything".to_string()))
    );
}
