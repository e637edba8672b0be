//! The settings half of a status response: repeat, shuffle, the
//! all/album/artist scope and the volume.
use vstd::prelude::*;
use crate::text::{
    after_space, before_space, bounded_value, chars_of, lines_of, parse_unsigned, split_lines,
    str_eq, string_of, views,
};
use crate::track::{CmusError, ErrorKind};

verus! {

/// Shuffle mode of the player.
#[derive(PartialEq, Eq, Structural, Clone, Copy, Debug)]
pub enum Shuffle {
    Off,
    Tracks,
    Albums,
}

/// Volume of the two channels, from 0 to 100.
#[derive(PartialEq, Eq, Structural, Clone, Copy, Debug)]
pub struct Volume {
    pub left: u8,
    pub right: u8,
}

/// The scope that playback keeps to: all tracks, the album or the artist.
#[derive(PartialEq, Eq, Structural, Clone, Copy, Debug)]
pub enum AAAMode {
    All,
    Album,
    Artist,
}

/// The player's settings.
#[derive(PartialEq, Eq, Structural, Clone, Copy, Debug)]
pub struct PlayerSettings {
    pub repeat: bool,
    pub repeat_current: bool,
    pub shuffle: Shuffle,
    pub aaa_mode: AAAMode,
    pub volume: Volume,
}

/// The shuffle mode that a word of the response names.
pub open spec fn shuffle_of(s: Seq<char>) -> Option<Shuffle> {
    if s == "off"@ {
        Some(Shuffle::Off)
    } else if s == "tracks"@ {
        Some(Shuffle::Tracks)
    } else if s == "albums"@ {
        Some(Shuffle::Albums)
    } else {
        None
    }
}

/// The scope that a word of the response names.
pub open spec fn aaa_mode_of(s: Seq<char>) -> Option<AAAMode> {
    if s == "all"@ {
        Some(AAAMode::All)
    } else if s == "album"@ {
        Some(AAAMode::Album)
    } else if s == "artist"@ {
        Some(AAAMode::Artist)
    } else {
        None
    }
}

pub open spec fn shuffle_text(s: Shuffle) -> Seq<char> {
    match s {
        Shuffle::Off => "Off"@,
        Shuffle::Tracks => "Tracks"@,
        Shuffle::Albums => "Albums"@,
    }
}

pub open spec fn aaa_mode_text(m: AAAMode) -> Seq<char> {
    match m {
        AAAMode::All => "All"@,
        AAAMode::Album => "Album"@,
        AAAMode::Artist => "Artist"@,
    }
}

impl Shuffle {
    /// Reads a shuffle word of the response.
    pub fn from_str(s: &str) -> (r: Result<Shuffle, CmusError>)
        ensures
            (match r {
                Ok(m) => shuffle_of(s@) == Some(m),
                Err(e) => shuffle_of(s@) is None && e is UnknownShuffleMode
                    && e->UnknownShuffleMode_0@ == s@,
            }),
    {
        if str_eq(s, "off") {
            Ok(Shuffle::Off)
        } else if str_eq(s, "tracks") {
            Ok(Shuffle::Tracks)
        } else if str_eq(s, "albums") {
            Ok(Shuffle::Albums)
        } else {
            Err(CmusError::UnknownShuffleMode(String::from_str(s)))
        }
    }

    /// The mode as text.
    pub fn name(&self) -> (r: &'static str)
        ensures
            r@ == shuffle_text(*self),
    {
        match self {
            Shuffle::Off => "Off",
            Shuffle::Tracks => "Tracks",
            Shuffle::Albums => "Albums",
        }
    }
}

impl AAAMode {
    /// Reads a scope word of the response.
    pub fn from_str(s: &str) -> (r: Result<AAAMode, CmusError>)
        ensures
            (match r {
                Ok(m) => aaa_mode_of(s@) == Some(m),
                Err(e) => aaa_mode_of(s@) is None && e is UnknownAAAMode && e->UnknownAAAMode_0@
                    == s@,
            }),
    {
        if str_eq(s, "all") {
            Ok(AAAMode::All)
        } else if str_eq(s, "album") {
            Ok(AAAMode::Album)
        } else if str_eq(s, "artist") {
            Ok(AAAMode::Artist)
        } else {
            Err(CmusError::UnknownAAAMode(String::from_str(s)))
        }
    }

    /// The scope as text.
    pub fn name(&self) -> (r: &'static str)
        ensures
            r@ == aaa_mode_text(*self),
    {
        match self {
            AAAMode::All => "All",
            AAAMode::Album => "Album",
            AAAMode::Artist => "Artist",
        }
    }
}

/// The settings that hold before any `set` line is read.
pub open spec fn default_settings() -> PlayerSettings {
    PlayerSettings {
        repeat: false,
        repeat_current: false,
        shuffle: Shuffle::Off,
        aaa_mode: AAAMode::All,
        volume: Volume { left: 0, right: 0 },
    }
}

/// Whether a line is a `set` line.
pub open spec fn is_set_line(line: Seq<char>) -> bool {
    line.len() >= 4 && line.take(4) == "set "@
}

/// The settings after one line of the response is read into `acc`.
pub open spec fn apply_setting(acc: PlayerSettings, line: Seq<char>) -> Result<
    PlayerSettings,
    (ErrorKind, Seq<char>),
> {
    if !is_set_line(line) {
        Ok(acc)
    } else {
        let rest = line.skip(4);
        match after_space(rest) {
            None => Err((ErrorKind::Unknown, rest)),
            Some(value) => {
                let key = before_space(rest);
                if key == "repeat"@ {
                    Ok(PlayerSettings { repeat: value == "true"@, ..acc })
                } else if key == "repeat_current"@ {
                    Ok(PlayerSettings { repeat_current: value == "true"@, ..acc })
                } else if key == "shuffle"@ {
                    match shuffle_of(value) {
                        Some(m) => Ok(PlayerSettings { shuffle: m, ..acc }),
                        None => Err((ErrorKind::UnknownShuffleMode, value)),
                    }
                } else if key == "aaa_mode"@ {
                    match aaa_mode_of(value) {
                        Some(m) => Ok(PlayerSettings { aaa_mode: m, ..acc }),
                        None => Err((ErrorKind::UnknownAAAMode, value)),
                    }
                } else if key == "vol_left"@ {
                    match bounded_value(value, u8::MAX as nat) {
                        Some(n) => Ok(
                            PlayerSettings {
                                volume: Volume { left: n as u8, right: acc.volume.right },
                                ..acc
                            },
                        ),
                        None => Err((ErrorKind::Unknown, value)),
                    }
                } else if key == "vol_right"@ {
                    match bounded_value(value, u8::MAX as nat) {
                        Some(n) => Ok(
                            PlayerSettings {
                                volume: Volume { left: acc.volume.left, right: n as u8 },
                                ..acc
                            },
                        ),
                        None => Err((ErrorKind::Unknown, value)),
                    }
                } else {
                    Ok(acc)
                }
            },
        }
    }
}

/// The settings after lines `i` onwards are read into `acc`, or the error
/// of the first line that cannot be read.
pub open spec fn settings_from(lines: Seq<Seq<char>>, i: int, acc: PlayerSettings) -> Result<
    PlayerSettings,
    (ErrorKind, Seq<char>),
>
    decreases lines.len() - i,
{
    if i < 0 || i >= lines.len() {
        Ok(acc)
    } else {
        match apply_setting(acc, lines[i]) {
            Ok(next) => settings_from(lines, i + 1, next),
            Err(e) => Err(e),
        }
    }
}

/// Whether `e` is the error that the spec gives as `x`: the same kind, and
/// for an unknown mode the word that was not understood.
pub open spec fn is_settings_error(e: CmusError, x: (ErrorKind, Seq<char>)) -> bool {
    &&& e.kind() == x.0
    &&& e is UnknownShuffleMode ==> e->UnknownShuffleMode_0@ == x.1
    &&& e is UnknownAAAMode ==> e->UnknownAAAMode_0@ == x.1
}

/// The settings that the `set` lines of a response give, or the kind of the
/// first error with the word it concerns.
pub open spec fn settings_of(text: Seq<char>) -> Result<PlayerSettings, (ErrorKind, Seq<char>)> {
    settings_from(lines_of(text), 0, default_settings())
}

impl PlayerSettings {
    /// Reads the settings from the `set` lines of a response; other lines
    /// are passed over, and so are unknown keys.
    pub fn from_str(s: &str) -> (r: Result<PlayerSettings, CmusError>)
        ensures
            (match r {
                Ok(p) => settings_of(s@) == Ok::<PlayerSettings, (ErrorKind, Seq<char>)>(p),
                Err(e) => settings_of(s@) is Err && is_settings_error(e, settings_of(s@)->Err_0),
            }),
    {
        let lines = split_lines(s);
        let ghost ls = views(lines@);
        let mut acc = PlayerSettings {
            repeat: false,
            repeat_current: false,
            shuffle: Shuffle::Off,
            aaa_mode: AAAMode::All,
            volume: Volume { left: 0, right: 0 },
        };
        let mut i: usize = 0;
        while i < lines.len()
            invariant
                ls == views(lines@),
                ls == lines_of(s@),
                i <= ls.len(),
                settings_from(ls, i as int, acc) == settings_of(s@),
            decreases ls.len() - i,
        {
            assert(lines@[i as int]@ == ls[i as int]);
            acc = apply_line(acc, &lines[i])?;
            i = i + 1;
        }
        Ok(acc)
    }
}

/// Reads one line of the response into `acc`.
fn apply_line(acc: PlayerSettings, line: &String) -> (r: Result<PlayerSettings, CmusError>)
    ensures
        (match r {
            Ok(p) => apply_setting(acc, line@) == Ok::<PlayerSettings, (ErrorKind, Seq<char>)>(p),
            Err(e) => apply_setting(acc, line@) is Err && is_settings_error(
                e,
                apply_setting(acc, line@)->Err_0,
            ),
        }),
{
    let cs = chars_of(line.as_str());
    if cs.len() < 4 {
        return Ok(acc);
    }
    let head = string_of(&cs, 0, 4);
    if !str_eq(head.as_str(), "set ") {
        return Ok(acc);
    }
    let rc = chars_of(string_of(&cs, 4, cs.len()).as_str());
    assert(rc@ =~= line@.skip(4));
    let (key, value) = match crate::track::split_space(&rc) {
        None => return Err(CmusError::UnknownError(String::from_str("Corrupted cmus response"))),
        Some(kv) => kv,
    };
    let k = key.as_str();
    let v = value.as_str();
    if str_eq(k, "repeat") {
        Ok(PlayerSettings { repeat: str_eq(v, "true"), ..acc })
    } else if str_eq(k, "repeat_current") {
        Ok(PlayerSettings { repeat_current: str_eq(v, "true"), ..acc })
    } else if str_eq(k, "shuffle") {
        let m = Shuffle::from_str(v)?;
        Ok(PlayerSettings { shuffle: m, ..acc })
    } else if str_eq(k, "aaa_mode") {
        let m = AAAMode::from_str(v)?;
        Ok(PlayerSettings { aaa_mode: m, ..acc })
    } else if str_eq(k, "vol_left") {
        match parse_unsigned(v, 255) {
            Some(n) => Ok(
                PlayerSettings { volume: Volume { left: n as u8, right: acc.volume.right }, ..acc },
            ),
            None => Err(CmusError::UnknownError(value)),
        }
    } else if str_eq(k, "vol_right") {
        match parse_unsigned(v, 255) {
            Some(n) => Ok(
                PlayerSettings { volume: Volume { left: acc.volume.left, right: n as u8 }, ..acc },
            ),
            None => Err(CmusError::UnknownError(value)),
        }
    } else {
        Ok(acc)
    }
}

} // verus!
