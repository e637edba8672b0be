//! The track half of a status response: playback status, file path,
//! duration, position and tags.
use vstd::prelude::*;
use crate::text::{
    after_space, before_space, bounded_value, chars_of, find_from, index_of, lemma_index_of,
    lines_of, parse_unsigned, split_lines, str_eq, string_of, trim, trim_chars, views,
};

verus! {

/// Playback status of the player.
#[derive(PartialEq, Eq, Structural, Clone, Copy, Debug)]
pub enum TrackStatus {
    Playing,
    Paused,
    Stopped,
}

/// Errors of talking to the player and of reading its responses.
#[derive(PartialEq, Eq, Clone, Debug)]
pub enum CmusError {
    CmusRunningError(String),
    UnknownStatus,
    NoStatus,
    EmptyPath,
    DurationError(String),
    PositionError(String),
    UnknownError(String),
    UnknownAAAMode(String),
    UnknownShuffleMode(String),
    NoEvents,
}

/// The variant of a `CmusError`, without its message.
#[derive(PartialEq, Eq, Structural, Clone, Copy, Debug)]
pub enum ErrorKind {
    CmusRunning,
    UnknownStatus,
    NoStatus,
    EmptyPath,
    Duration,
    Position,
    Unknown,
    UnknownAAAMode,
    UnknownShuffleMode,
    NoEvents,
}

impl CmusError {
    pub open spec fn kind(&self) -> ErrorKind {
        match self {
            CmusError::CmusRunningError(_) => ErrorKind::CmusRunning,
            CmusError::UnknownStatus => ErrorKind::UnknownStatus,
            CmusError::NoStatus => ErrorKind::NoStatus,
            CmusError::EmptyPath => ErrorKind::EmptyPath,
            CmusError::DurationError(_) => ErrorKind::Duration,
            CmusError::PositionError(_) => ErrorKind::Position,
            CmusError::UnknownError(_) => ErrorKind::Unknown,
            CmusError::UnknownAAAMode(_) => ErrorKind::UnknownAAAMode,
            CmusError::UnknownShuffleMode(_) => ErrorKind::UnknownShuffleMode,
            CmusError::NoEvents => ErrorKind::NoEvents,
        }
    }
}

/// The status that a status word names.
pub open spec fn status_of(s: Seq<char>) -> Option<TrackStatus> {
    if s == "playing"@ {
        Some(TrackStatus::Playing)
    } else if s == "paused"@ {
        Some(TrackStatus::Paused)
    } else if s == "stopped"@ {
        Some(TrackStatus::Stopped)
    } else {
        None
    }
}

/// The text that a status is shown as.
pub open spec fn status_text(s: TrackStatus) -> Seq<char> {
    match s {
        TrackStatus::Playing => "Playing"@,
        TrackStatus::Paused => "Paused"@,
        TrackStatus::Stopped => "Stopped"@,
    }
}

impl TrackStatus {
    /// Reads a status word of the response.
    pub fn from_str(s: &str) -> (r: Result<TrackStatus, CmusError>)
        ensures
            r == (match status_of(s@) {
                Some(st) => Ok(st),
                None => Err(CmusError::UnknownStatus),
            }),
    {
        if str_eq(s, "playing") {
            Ok(TrackStatus::Playing)
        } else if str_eq(s, "paused") {
            Ok(TrackStatus::Paused)
        } else if str_eq(s, "stopped") {
            Ok(TrackStatus::Stopped)
        } else {
            Err(CmusError::UnknownStatus)
        }
    }

    /// The status as text.
    pub fn name(&self) -> (r: &'static str)
        ensures
            r@ == status_text(*self),
    {
        match self {
            TrackStatus::Playing => "Playing",
            TrackStatus::Paused => "Paused",
            TrackStatus::Stopped => "Stopped",
        }
    }
}

/// What a line of the tag block holds: `None` where the block ends,
/// `Some(None)` for a tag line without a value, else the key and value.
pub open spec fn tag_entry(line: Seq<char>) -> Option<Option<(Seq<char>, Seq<char>)>> {
    let t = trim(line);
    match after_space(t) {
        Some(rest) => if before_space(t) == "tag"@ {
            match after_space(rest) {
                Some(value) => Some(Some((before_space(rest), value))),
                None => Some(None),
            }
        } else {
            None
        },
        None => None,
    }
}

/// The tag entries of `lines` from line `i` on, in order, up to the first
/// line that is not a tag line.
pub open spec fn tag_entries(lines: Seq<Seq<char>>, i: int) -> Seq<(Seq<char>, Seq<char>)>
    decreases lines.len() - i,
{
    if i < 0 || i >= lines.len() {
        Seq::empty()
    } else {
        match tag_entry(lines[i]) {
            None => Seq::empty(),
            Some(None) => tag_entries(lines, i + 1),
            Some(Some(kv)) => seq![kv].add(tag_entries(lines, i + 1)),
        }
    }
}

/// The map of a sequence of entries, where a later entry of a key replaces
/// an earlier one.
pub open spec fn entries_map(e: Seq<(Seq<char>, Seq<char>)>) -> Map<Seq<char>, Seq<char>>
    decreases e.len(),
{
    if e.len() == 0 {
        Map::empty()
    } else {
        entries_map(e.drop_last()).insert(e.last().0, e.last().1)
    }
}

/// The views of stored key and value pairs.
pub open spec fn pair_views(p: Seq<(String, String)>) -> Seq<(Seq<char>, Seq<char>)> {
    p.map_values(|kv: (String, String)| (kv.0@, kv.1@))
}

/// The tags of a track.
#[derive(PartialEq, Eq, Clone, Debug)]
pub struct TrackMetadata {
    tags: Vec<(String, String)>,
}

impl View for TrackMetadata {
    type V = Map<Seq<char>, Seq<char>>;

    closed spec fn view(&self) -> Map<Seq<char>, Seq<char>> {
        entries_map(pair_views(self.tags@))
    }
}

proof fn lemma_entries_map_tail(e: Seq<(Seq<char>, Seq<char>)>, i: int, k: Seq<char>)
    requires
        0 <= i <= e.len(),
        forall|j: int| i <= j < e.len() ==> (#[trigger] e[j]).0 != k,
    ensures
        entries_map(e).contains_key(k) == entries_map(e.take(i)).contains_key(k),
        entries_map(e)[k] == entries_map(e.take(i))[k],
    decreases e.len() - i,
{
    if i < e.len() {
        assert(e.drop_last().take(i) =~= e.take(i));
        assert forall|j: int| i <= j < e.drop_last().len() implies (
        #[trigger] e.drop_last()[j]).0 != k by {
            assert(e.drop_last()[j] == e[j]);
        }
        lemma_entries_map_tail(e.drop_last(), i, k);
        assert(e.last() == e[e.len() - 1]);
    } else {
        assert(e.take(i) =~= e);
    }
}

impl TrackMetadata {
    /// Reads the tag block of a response: the lines from the first one on,
    /// up to the first line that is not a tag line.
    pub fn parse(text: &str) -> (r: TrackMetadata)
        ensures
            r@ == entries_map(tag_entries(lines_of(text@), 0)),
    {
        let lines = split_lines(text);
        Self::parse_lines(&lines, 0)
    }

    /// Reads the tag block that starts at line `start`.
    pub fn parse_lines(lines: &Vec<String>, start: usize) -> (r: TrackMetadata)
        ensures
            r@ == entries_map(tag_entries(views(lines@), start as int)),
    {
        let ghost ls = views(lines@);
        let mut tags: Vec<(String, String)> = Vec::new();
        let mut i = start;
        let mut done = false;
        while i < lines.len() && !done
            invariant
                ls == views(lines@),
                start <= i,
                done ==> tag_entries(ls, i as int).len() == 0,
                pair_views(tags@) + tag_entries(ls, i as int) == tag_entries(ls, start as int),
            decreases lines@.len() - i + (if done { 0int } else { 1int }),
        {
            let entry = tag_line(&lines[i]);
            assert(lines@[i as int]@ == ls[i as int]);
            match entry {
                TagLine::End => {
                    done = true;
                },
                TagLine::NoValue => {},
                TagLine::Entry(k, v) => {
                    let ghost before = tags@;
                    tags.push((k, v));
                    assert(pair_views(tags@) =~= pair_views(before).push((k@, v@)));
                    assert(pair_views(tags@) + tag_entries(ls, i + 1) =~= pair_views(before)
                        + tag_entries(ls, i as int));
                },
            }
            if !done {
                i = i + 1;
            }
        }
        proof {
            if i >= lines@.len() {
                assert(tag_entries(ls, i as int) =~= Seq::<(Seq<char>, Seq<char>)>::empty());
            }
            assert(pair_views(tags@) =~= tag_entries(ls, start as int));
        }
        TrackMetadata { tags }
    }

    /// A copy of the tags.
    pub fn duplicate(&self) -> (r: TrackMetadata)
        ensures
            r@ == self@,
    {
        let mut tags: Vec<(String, String)> = Vec::new();
        let mut i: usize = 0;
        while i < self.tags.len()
            invariant
                i <= self.tags@.len(),
                pair_views(tags@) == pair_views(self.tags@).take(i as int),
            decreases self.tags@.len() - i,
        {
            let ghost before = tags@;
            let k = self.tags[i].0.clone();
            let v = self.tags[i].1.clone();
            assert(k@ == self.tags@[i as int].0@ && v@ == self.tags@[i as int].1@);
            tags.push((k, v));
            assert(pair_views(tags@) =~= pair_views(before).push(pair_views(self.tags@)[i as int]));
            assert(pair_views(tags@) =~= pair_views(self.tags@).take(i + 1));
            i = i + 1;
        }
        assert(pair_views(tags@) =~= pair_views(self.tags@));
        TrackMetadata { tags }
    }

    /// The value of a tag.
    pub fn get(&self, key: &str) -> (r: Option<&str>)
        ensures
            r is Some <==> self@.contains_key(key@),
            r is Some ==> r->0@ == self@[key@],
    {
        let ghost e = pair_views(self.tags@);
        let mut i = self.tags.len();
        while i > 0
            invariant
                i <= self.tags@.len(),
                e == pair_views(self.tags@),
                forall|j: int| i <= j < e.len() ==> (#[trigger] e[j]).0 != key@,
            decreases i,
        {
            if str_eq(self.tags[i - 1].0.as_str(), key) {
                proof {
                    lemma_entries_map_tail(e, i as int, key@);
                    assert(e.take(i as int).drop_last() =~= e.take(i - 1));
                }
                return Some(self.tags[i - 1].1.as_str());
            }
            i = i - 1;
        }
        proof {
            lemma_entries_map_tail(e, 0, key@);
            assert(e.take(0) =~= Seq::<(Seq<char>, Seq<char>)>::empty());
        }
        None
    }
}

/// One line of the tag block, read.
enum TagLine {
    End,
    NoValue,
    Entry(String, String),
}

/// The first space-separated word of `s` and the rest, when `s` holds a
/// space.
pub fn split_space(s: &Vec<char>) -> (r: Option<(String, String)>)
    ensures
        r is Some <==> after_space(s@) is Some,
        r is Some ==> (r->0).0@ == before_space(s@) && (r->0).1@ == after_space(s@)->0,
{
    let k = find_from(s, ' ', 0);
    proof {
        assert(s@.skip(0) =~= s@);
        lemma_index_of(s@, ' ');
    }
    if k < s.len() {
        let a = string_of(s, 0, k);
        let b = string_of(s, k + 1, s.len());
        assert(a@ =~= before_space(s@));
        assert(b@ =~= after_space(s@)->0);
        Some((a, b))
    } else {
        None
    }
}

fn tag_line(line: &String) -> (r: TagLine)
    ensures
        (match r {
            TagLine::End => tag_entry(line@) is None,
            TagLine::NoValue => tag_entry(line@) == Some(None::<(Seq<char>, Seq<char>)>),
            TagLine::Entry(k, v) => tag_entry(line@) == Some(Some((k@, v@))),
        }),
{
    let cs = chars_of(line.as_str());
    let t = trim_chars(&cs);
    match split_space(&t) {
        Some((word, rest)) => {
            if str_eq(word.as_str(), "tag") {
                let rc = chars_of(rest.as_str());
                match split_space(&rc) {
                    Some((k, v)) => TagLine::Entry(k, v),
                    None => TagLine::NoValue,
                }
            } else {
                TagLine::End
            }
        },
        None => TagLine::End,
    }
}

/// The value of header line `i`: the text after its first space.
pub open spec fn header_value(lines: Seq<Seq<char>>, i: int) -> Option<Seq<char>> {
    if 0 <= i < lines.len() {
        after_space(lines[i])
    } else {
        None
    }
}

/// The number that header line `i` holds, if it holds one that fits in a
/// `u32`.
pub open spec fn header_number(lines: Seq<Seq<char>>, i: int) -> Option<nat> {
    match header_value(lines, i) {
        Some(v) => bounded_value(v, u32::MAX as nat),
        None => None,
    }
}

/// The error, if any, of reading the four header lines.
pub open spec fn header_error(lines: Seq<Seq<char>>) -> Option<ErrorKind> {
    if header_value(lines, 0) is None {
        Some(ErrorKind::NoStatus)
    } else if status_of(header_value(lines, 0)->0) is None {
        Some(ErrorKind::UnknownStatus)
    } else if header_value(lines, 1) is None {
        Some(ErrorKind::EmptyPath)
    } else if header_number(lines, 2) is None {
        Some(ErrorKind::Duration)
    } else if header_number(lines, 3) is None {
        Some(ErrorKind::Position)
    } else {
        None
    }
}

/// A track as one status response describes it.
#[derive(PartialEq, Eq, Clone, Debug)]
pub struct Track {
    pub status: TrackStatus,
    pub path: String,
    pub metadata: TrackMetadata,
    pub duration: u32,
    pub position: u32,
}

/// A track as a value: status, path, tags, duration and position.
pub struct TrackView {
    pub status: TrackStatus,
    pub path: Seq<char>,
    pub tags: Map<Seq<char>, Seq<char>>,
    pub duration: u32,
    pub position: u32,
}

impl View for Track {
    type V = TrackView;

    open spec fn view(&self) -> TrackView {
        TrackView {
            status: self.status,
            path: self.path@,
            tags: self.metadata@,
            duration: self.duration,
            position: self.position,
        }
    }
}

/// The track that the lines of a status response describe, or the error of
/// its header lines.
pub open spec fn track_of_lines(lines: Seq<Seq<char>>) -> Result<TrackView, ErrorKind> {
    match header_error(lines) {
        Some(e) => Err(e),
        None => Ok(
            TrackView {
                status: status_of(header_value(lines, 0)->0)->0,
                path: header_value(lines, 1)->0,
                tags: entries_map(tag_entries(lines, 4)),
                duration: header_number(lines, 2)->0 as u32,
                position: header_number(lines, 3)->0 as u32,
            },
        ),
    }
}

/// The track that a status response describes, or the error of its header
/// lines.
pub open spec fn track_of(text: Seq<char>) -> Result<TrackView, ErrorKind> {
    track_of_lines(lines_of(text))
}

/// The file name of a path: what follows its last `/`.
pub open spec fn file_name(p: Seq<char>) -> Seq<char>
    decreases p.len(),
{
    if p.len() == 0 {
        p
    } else if p.last() == '/' {
        Seq::empty()
    } else {
        file_name(p.drop_last()).push(p.last())
    }
}

/// The position of the last `.` of a name, or -1 where it has none.
pub open spec fn last_dot(n: Seq<char>) -> int
    decreases n.len(),
{
    if n.len() == 0 {
        -1
    } else if n.last() == '.' {
        n.len() - 1
    } else {
        last_dot(n.drop_last())
    }
}

/// A file name without its extension: up to its last `.`, or the whole
/// name where it has no `.`.
pub open spec fn stem(n: Seq<char>) -> Seq<char> {
    if last_dot(n) >= 0 {
        n.take(last_dot(n))
    } else {
        n
    }
}

proof fn lemma_last_dot(n: Seq<char>, d: int)
    requires
        -1 <= d < n.len(),
        forall|k: int| d < k < n.len() ==> n[k] != '.',
        d >= 0 ==> n[d] == '.',
    ensures
        last_dot(n) == d,
    decreases n.len(),
{
    if n.len() > 0 && d < n.len() - 1 {
        let m = n.drop_last();
        assert forall|k: int| d < k < m.len() implies m[k] != '.' by {
            assert(m[k] == n[k]);
        }
        if d >= 0 {
            assert(m[d] == n[d]);
        }
        assert(n.last() == n[n.len() - 1]);
        lemma_last_dot(m, d);
    }
}

/// The name that a track is shown by: its `title` tag, or else the stem of
/// its file name.
pub open spec fn display_name(t: TrackView) -> Seq<char> {
    if t.tags.contains_key("title"@) {
        t.tags["title"@]
    } else {
        stem(file_name(t.path))
    }
}

/// The file name of a path is what follows the `/` before position `j`,
/// where no `/` stands at or after `j`.
pub proof fn lemma_file_name(p: Seq<char>, j: int)
    requires
        0 <= j <= p.len(),
        forall|k: int| j <= k < p.len() ==> p[k] != '/',
        j > 0 ==> p[j - 1] == '/',
    ensures
        file_name(p) == p.skip(j),
    decreases p.len(),
{
    if p.len() > j {
        let q = p.drop_last();
        assert forall|k: int| j <= k < q.len() implies q[k] != '/' by {
            assert(q[k] == p[k]);
        }
        if j > 0 {
            assert(q[j - 1] == p[j - 1]);
        }
        lemma_file_name(q, j);
        assert(q.skip(j).push(p.last()) =~= p.skip(j));
    } else if j > 0 {
        assert(p.last() == p[j - 1]);
        assert(p.skip(j) =~= Seq::<char>::empty());
    } else {
        assert(p.skip(j) =~= p);
    }
}

impl Track {
    /// A copy of the track.
    pub fn duplicate(&self) -> (r: Track)
        ensures
            r@ == self@,
    {
        Track {
            status: self.status,
            path: self.path.clone(),
            metadata: self.metadata.duplicate(),
            duration: self.duration,
            position: self.position,
        }
    }

    /// Reads a track from the header and tag lines of a status response.
    pub fn from_str(s: &str) -> (r: Result<Track, CmusError>)
        ensures
            (match r {
                Ok(t) => track_of(s@) == Ok::<TrackView, ErrorKind>(t@),
                Err(e) => track_of(s@) == Err::<TrackView, ErrorKind>(e.kind()),
            }),
    {
        let lines = split_lines(s);
        Self::from_lines(&lines)
    }

    /// Reads a track from the lines of a status response.
    pub fn from_lines(lines: &Vec<String>) -> (r: Result<Track, CmusError>)
        ensures
            (match r {
                Ok(t) => track_of_lines(views(lines@)) == Ok::<TrackView, ErrorKind>(t@),
                Err(e) => track_of_lines(views(lines@)) == Err::<TrackView, ErrorKind>(e.kind()),
            }),
    {
        let ghost ls = views(lines@);
        let v0 = header_line(lines, 0);
        let status = match v0 {
            None => return Err(CmusError::NoStatus),
            Some(w) => TrackStatus::from_str(w.as_str())?,
        };
        let path = match header_line(lines, 1) {
            None => return Err(CmusError::EmptyPath),
            Some(p) => p,
        };
        let duration = match header_line(lines, 2) {
            None => return Err(CmusError::DurationError(String::from_str("Missing duration"))),
            Some(d) => match parse_unsigned(d.as_str(), u32::MAX) {
                Some(n) => n,
                None => return Err(CmusError::DurationError(d)),
            },
        };
        let position = match header_line(lines, 3) {
            None => return Err(CmusError::PositionError(String::from_str("Missing position"))),
            Some(d) => match parse_unsigned(d.as_str(), u32::MAX) {
                Some(n) => n,
                None => return Err(CmusError::PositionError(d)),
            },
        };
        let metadata = TrackMetadata::parse_lines(lines, 4);
        Ok(Track { status, path, metadata, duration, position })
    }

    /// The name that the track is shown by: its title, or else the file name
    /// of its path without its extension.
    pub fn get_name(&self) -> (r: &str)
        ensures
            r@ == display_name(self@),
    {
        match self.metadata.get("title") {
            Some(t) => t,
            None => {
                let p = self.path.as_str();
                let cs = chars_of(p);
                let mut j = cs.len();
                while j > 0 && cs[j - 1] != '/'
                    invariant
                        j <= cs@.len(),
                        forall|k: int| j <= k < cs@.len() ==> cs@[k] != '/',
                    decreases j,
                {
                    j = j - 1;
                }
                proof {
                    lemma_file_name(cs@, j as int);
                }
                let ghost name = cs@.skip(j as int);
                let mut d = cs.len();
                while d > j && cs[d - 1] != '.'
                    invariant
                        j <= d <= cs@.len(),
                        forall|k: int| d <= k < cs@.len() ==> cs@[k] != '.',
                    decreases d,
                {
                    d = d - 1;
                }
                proof {
                    let rel = if d > j { d - 1 - j } else { -1 };
                    assert forall|k: int| rel < k < name.len() implies name[k] != '.' by {
                        assert(name[k] == cs@[k + j]);
                    }
                    if d > j {
                        assert(name[rel] == cs@[d - 1]);
                    }
                    lemma_last_dot(name, rel);
                }
                if d > j {
                    let r = p.substring_char(j, d - 1);
                    assert(r@ =~= stem(name));
                    r
                } else {
                    let r = p.substring_char(j, cs.len());
                    assert(r@ =~= stem(name));
                    r
                }
            },
        }
    }
}

/// The text after the first space of line `i`, when line `i` exists and
/// holds a space.
fn header_line(lines: &Vec<String>, i: usize) -> (r: Option<String>)
    ensures
        r is Some <==> header_value(views(lines@), i as int) is Some,
        r is Some ==> r->0@ == header_value(views(lines@), i as int)->0,
{
    if i < lines.len() {
        let cs = chars_of(lines[i].as_str());
        assert(views(lines@)[i as int] == lines@[i as int]@);
        match split_space(&cs) {
            Some((_, rest)) => Some(rest),
            None => None,
        }
    } else {
        None
    }
}

/// The protocol line of one tag.
pub open spec fn tag_line_text(key: Seq<char>, value: Seq<char>) -> Seq<char> {
    "tag "@ + key + " "@ + value
}

/// Whether a key and a value can be written as a tag line and read back:
/// the key holds no space and the value does not end in whitespace.
pub open spec fn writable_tag(key: Seq<char>, value: Seq<char>) -> bool {
    &&& forall|j: int| 0 <= j < key.len() ==> key[j] != ' '
    &&& value.len() > 0
    &&& !crate::text::is_space(value.last())
}

proof fn lemma_tag_line(key: Seq<char>, value: Seq<char>)
    requires
        writable_tag(key, value),
    ensures
        tag_entry(tag_line_text(key, value)) == Some(Some((key, value))),
{
    reveal_strlit("tag ");
    reveal_strlit(" ");
    reveal_strlit("tag");
    let line = tag_line_text(key, value);
    assert(line[0] == 't');
    assert(!crate::text::is_space(line[0]));
    assert(line.last() == value.last());
    assert(crate::text::leading_space(line) == 0);
    assert(line.skip(0) =~= line);
    assert(crate::text::trailing_space(line) == 0);
    assert(line.take(line.len() as int) =~= line);
    assert(trim(line) == line);
    crate::text::lemma_index_of_unique(line, ' ', 3);
    assert(before_space(line) =~= "tag"@);
    let rest = line.skip(4);
    assert(rest =~= key + " "@ + value);
    assert forall|j: int| 0 <= j < key.len() implies rest[j] != ' ' by {
        assert(rest[j] == key[j]);
    }
    assert(rest[key.len() as int] == ' ');
    crate::text::lemma_index_of_unique(rest, ' ', key.len() as int);
    assert(before_space(rest) =~= key);
    assert(rest.skip(key.len() + 1int) =~= value);
}

proof fn lemma_tag_entries(
    lines: Seq<Seq<char>>,
    keys: Seq<Seq<char>>,
    values: Seq<Seq<char>>,
    i: int,
)
    requires
        keys.len() == values.len(),
        4 + keys.len() <= lines.len(),
        0 <= i <= keys.len(),
        forall|j: int| 0 <= j < keys.len() ==> writable_tag(#[trigger] keys[j], values[j]),
        forall|j: int|
            0 <= j < keys.len() ==> lines[4 + j] == tag_line_text(#[trigger] keys[j], values[j]),
        4 + keys.len() == lines.len() || tag_entry(lines[4 + keys.len() as int]) is None,
    ensures
        tag_entries(lines, 4 + i) == Seq::new(
            (keys.len() - i) as nat,
            |j: int| (keys[i + j], values[i + j]),
        ),
    decreases keys.len() - i,
{
    if i < keys.len() {
        lemma_tag_line(keys[i], values[i]);
        lemma_tag_entries(lines, keys, values, i + 1);
        assert(tag_entries(lines, 4 + i) =~= Seq::new(
            (keys.len() - i) as nat,
            |j: int| (keys[i + j], values[i + j]),
        ));
    } else {
        assert(tag_entries(lines, 4 + i) =~= Seq::<(Seq<char>, Seq<char>)>::empty());
    }
}

proof fn lemma_entries_map_distinct(e: Seq<(Seq<char>, Seq<char>)>)
    requires
        forall|a: int, b: int| 0 <= a < b < e.len() ==> (#[trigger] e[a]).0 != (#[trigger] e[b]).0,
    ensures
        forall|j: int|
            0 <= j < e.len() ==> entries_map(e).contains_key((#[trigger] e[j]).0) && entries_map(
                e,
            )[e[j].0] == e[j].1,
        forall|k: Seq<char>|
            entries_map(e).contains_key(k) ==> exists|j: int| 0 <= j < e.len() && (#[trigger] e[j]).0 == k,
    decreases e.len(),
{
    if e.len() > 0 {
        let d = e.drop_last();
        assert forall|a: int, b: int| 0 <= a < b < d.len() implies (#[trigger] d[a]).0 != (
        #[trigger] d[b]).0 by {
            assert(d[a] == e[a] && d[b] == e[b]);
        }
        lemma_entries_map_distinct(d);
        assert forall|j: int| 0 <= j < e.len() implies entries_map(e).contains_key(
            (#[trigger] e[j]).0,
        ) && entries_map(e)[e[j].0] == e[j].1 by {
            if j < e.len() - 1 {
                assert(d[j] == e[j]);
                assert(e[j].0 != e[e.len() - 1].0);
            }
        }
        assert forall|k: Seq<char>| entries_map(e).contains_key(k) implies exists|j: int|
            0 <= j < e.len() && (#[trigger] e[j]).0 == k by {
            if k != e.last().0 {
                assert(entries_map(d).contains_key(k));
                let j = choose|j: int| 0 <= j < d.len() && (#[trigger] d[j]).0 == k;
                assert(e[j] == d[j]);
            } else {
                assert(e[e.len() - 1].0 == k);
            }
        }
    }
}

/// Reading a response whose header lines can be read and whose tag block is
/// the lines of `keys` and `values`, with distinct keys, gives exactly those
/// tags: each key with its value, and no other key.
pub proof fn lemma_tags_read_back(
    lines: Seq<Seq<char>>,
    keys: Seq<Seq<char>>,
    values: Seq<Seq<char>>,
)
    requires
        header_error(lines) is None,
        keys.len() == values.len(),
        4 + keys.len() <= lines.len(),
        forall|j: int| 0 <= j < keys.len() ==> writable_tag(#[trigger] keys[j], values[j]),
        forall|a: int, b: int| 0 <= a < b < keys.len() ==> #[trigger] keys[a] != #[trigger] keys[b],
        forall|j: int|
            0 <= j < keys.len() ==> lines[4 + j] == tag_line_text(#[trigger] keys[j], values[j]),
        4 + keys.len() == lines.len() || tag_entry(lines[4 + keys.len() as int]) is None,
    ensures
        track_of_lines(lines) is Ok,
        forall|j: int|
            0 <= j < keys.len() ==> (track_of_lines(lines)->Ok_0).tags.contains_key(
                #[trigger] keys[j],
            ) && (track_of_lines(lines)->Ok_0).tags[keys[j]] == values[j],
        forall|k: Seq<char>|
            (track_of_lines(lines)->Ok_0).tags.contains_key(k) ==> exists|j: int|
                0 <= j < keys.len() && #[trigger] keys[j] == k,
{
    lemma_tag_entries(lines, keys, values, 0);
    let e = tag_entries(lines, 4);
    assert(e =~= Seq::new(keys.len(), |j: int| (keys[j], values[j])));
    assert forall|a: int, b: int| 0 <= a < b < e.len() implies (#[trigger] e[a]).0 != (
    #[trigger] e[b]).0 by {
        assert(e[a].0 == keys[a] && e[b].0 == keys[b]);
    }
    lemma_entries_map_distinct(e);
    assert forall|j: int| 0 <= j < keys.len() implies (track_of_lines(lines)->Ok_0).tags.contains_key(
        #[trigger] keys[j],
    ) && (track_of_lines(lines)->Ok_0).tags[keys[j]] == values[j] by {
        assert(e[j] == (keys[j], values[j]));
    }
    assert forall|k: Seq<char>| (track_of_lines(lines)->Ok_0).tags.contains_key(k) implies exists|
        j: int,
    | 0 <= j < keys.len() && #[trigger] keys[j] == k by {
        let j = choose|j: int| 0 <= j < e.len() && (#[trigger] e[j]).0 == k;
        assert(keys[j] == k);
    }
}

/// The tag lines of keys and values, in order.
pub open spec fn tag_lines(keys: Seq<Seq<char>>, values: Seq<Seq<char>>) -> Seq<Seq<char>> {
    Seq::new(keys.len(), |j: int| tag_line_text(keys[j], values[j]))
}

/// A response written as four header lines that can be read, then one tag
/// line for each of `keys` and `values` with distinct keys, reads back as a
/// track with exactly those tags.
pub proof fn lemma_response_tags_read_back(
    header: Seq<Seq<char>>,
    keys: Seq<Seq<char>>,
    values: Seq<Seq<char>>,
)
    requires
        header.len() == 4,
        header_error(header) is None,
        forall|i: int, j: int|
            0 <= i < 4 && 0 <= j < header[i].len() ==> header[i][j] != '\n',
        forall|i: int| 0 <= i < 4 && header[i].len() > 0 ==> header[i].last() != '\r',
        keys.len() == values.len(),
        forall|j: int| 0 <= j < keys.len() ==> writable_tag(#[trigger] keys[j], values[j]),
        forall|i: int, j: int|
            0 <= i < keys.len() && 0 <= j < keys[i].len() ==> keys[i][j] != '\n',
        forall|i: int, j: int|
            0 <= i < values.len() && 0 <= j < values[i].len() ==> values[i][j] != '\n',
        forall|a: int, b: int| 0 <= a < b < keys.len() ==> #[trigger] keys[a] != #[trigger] keys[b],
    ensures
        track_of(crate::text::join_lines(header + tag_lines(keys, values))) is Ok,
        forall|j: int|
            0 <= j < keys.len() ==> (track_of(
                crate::text::join_lines(header + tag_lines(keys, values)),
            )->Ok_0).tags.contains_key(#[trigger] keys[j]) && (track_of(
                crate::text::join_lines(header + tag_lines(keys, values)),
            )->Ok_0).tags[keys[j]] == values[j],
        forall|k: Seq<char>|
            (track_of(crate::text::join_lines(header + tag_lines(keys, values)))->Ok_0).tags.contains_key(
                k,
            ) ==> exists|j: int| 0 <= j < keys.len() && #[trigger] keys[j] == k,
{
    reveal_strlit("tag ");
    reveal_strlit(" ");
    let lines = header + tag_lines(keys, values);
    assert forall|i: int, j: int| 0 <= i < lines.len() && 0 <= j < lines[i].len() implies lines[i][j]
        != '\n' by {
        if i >= 4 {
            let t = i - 4;
            assert(lines[i] == tag_line_text(keys[t], values[t]));
            let ks = keys[t].len() as int;
            if 4 <= j < 4 + ks {
                assert(lines[i][j] == keys[t][j - 4]);
            } else if 4 + ks < j {
                assert(lines[i][j] == values[t][j - 5 - ks]);
            }
        }
    }
    assert forall|i: int| 0 <= i < lines.len() && lines[i].len() > 0 implies lines[i].last()
        != '\r' by {
        if i >= 4 {
            let t = i - 4;
            assert(lines[i] == tag_line_text(keys[t], values[t]));
            assert(lines[i].last() == values[t].last());
        }
    }
    crate::text::lemma_lines_of_join(lines);
    assert forall|i: int| 0 <= i < 4 implies lines[i] == header[i] by {}
    assert(header_value(lines, 0) == header_value(header, 0));
    assert(header_value(lines, 1) == header_value(header, 1));
    assert(header_value(lines, 2) == header_value(header, 2));
    assert(header_value(lines, 3) == header_value(header, 3));
    assert forall|j: int| 0 <= j < keys.len() implies lines[4 + j] == tag_line_text(
        #[trigger] keys[j],
        values[j],
    ) by {}
    lemma_tags_read_back(lines, keys, values);
}

} // verus!
