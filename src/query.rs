//! A raw status response, kept as its track block and its settings block,
//! each read only when it is needed.
use vstd::prelude::*;
use crate::events::{all_carry, event_kinds, events_between, kinds, CmusEvent, EventKind};
use crate::player_settings::{is_settings_error, settings_of, PlayerSettings};
use crate::text::{chars_of, str_eq, string_of};
use crate::track::{track_of, CmusError, ErrorKind, Track, TrackView};

verus! {

/// Whether a line that begins with `set ` starts at position `i`.
pub open spec fn set_line_at(s: Seq<char>, i: int) -> bool {
    &&& 0 <= i
    &&& i + 4 <= s.len()
    &&& (i == 0 || s[i - 1] == '\n')
    &&& s.subrange(i, i + 4) == "set "@
}

/// A status response, split where its settings block starts.
#[derive(PartialEq, Eq, Debug)]
pub struct CmusQueryResponse {
    track_row: String,
    player_settings_row: String,
}

impl CmusQueryResponse {
    /// The track block.
    pub closed spec fn track_text(&self) -> Seq<char> {
        self.track_row@
    }

    /// The settings block.
    pub closed spec fn settings_text(&self) -> Seq<char> {
        self.player_settings_row@
    }

    /// The response that stands before any poll: both blocks are empty.
    pub fn default() -> (r: CmusQueryResponse)
        ensures
            r.track_text().len() == 0,
            r.settings_text().len() == 0,
    {
        CmusQueryResponse { track_row: String::new(), player_settings_row: String::new() }
    }

    /// Whether this is the response that stands before any poll.
    pub open spec fn is_blank(&self) -> bool {
        self.track_text().len() == 0 || self.settings_text().len() == 0
    }

    /// Splits a response before its first line that begins with `set `;
    /// a response without such a line is refused.
    pub fn from_str(s: &str) -> (r: Result<CmusQueryResponse, String>)
        ensures
            r is Ok <==> exists|i: int| set_line_at(s@, i),
            r is Ok ==> {
                let q = r->Ok_0;
                &&& q.track_text() + q.settings_text() == s@
                &&& set_line_at(s@, q.track_text().len() as int)
                &&& forall|j: int| 0 <= j < q.track_text().len() ==> !set_line_at(s@, j)
            },
    {
        let cs = chars_of(s);
        let mut i: usize = 0;
        while i < cs.len() && cs.len() - i >= 4
            invariant
                cs@ == s@,
                forall|j: int| 0 <= j < i ==> !set_line_at(s@, j),
            decreases cs@.len() - i,
        {
            if i == 0 || cs[i - 1] == '\n' {
                let head = string_of(&cs, i, i + 4);
                if str_eq(head.as_str(), "set ") {
                    let track_row = string_of(&cs, 0, i);
                    let player_settings_row = string_of(&cs, i, cs.len());
                    let q = CmusQueryResponse { track_row, player_settings_row };
                    assert(q.track_text() + q.settings_text() =~= s@);
                    assert(set_line_at(s@, i as int));
                    return Ok(q);
                }
            }
            i = i + 1;
        }
        assert forall|j: int| !set_line_at(s@, j) by {
            if 0 <= j && j < i {
            }
        }
        Err(String::from_str("Corrupted cmus response"))
    }

    /// The track block as text.
    pub fn track_row(&self) -> (r: &str)
        ensures
            r@ == self.track_text(),
    {
        self.track_row.as_str()
    }

    /// The settings block as text.
    pub fn player_settings_row(&self) -> (r: &str)
        ensures
            r@ == self.settings_text(),
    {
        self.player_settings_row.as_str()
    }

    /// Reads the track block.
    pub fn track(&self) -> (r: Result<Track, CmusError>)
        ensures
            (match r {
                Ok(t) => track_of(self.track_text()) == Ok::<TrackView, ErrorKind>(t@),
                Err(e) => track_of(self.track_text()) == Err::<TrackView, ErrorKind>(e.kind()),
            }),
    {
        Track::from_str(self.track_row.as_str())
    }

    /// Reads the settings block.
    pub fn player_settings(&self) -> (r: Result<PlayerSettings, CmusError>)
        ensures
            (match r {
                Ok(p) => settings_of(self.settings_text()) == Ok::<
                    PlayerSettings,
                    (ErrorKind, Seq<char>),
                >(p),
                Err(e) => settings_of(self.settings_text()) is Err && is_settings_error(
                    e,
                    settings_of(self.settings_text())->Err_0,
                ),
            }),
    {
        PlayerSettings::from_str(self.player_settings_row.as_str())
    }

    /// The events from this response, the previous one, to `current`.
    pub fn events(&self, current: &CmusQueryResponse) -> (r: Result<Vec<CmusEvent>, CmusError>)
        ensures
            (match r {
                Ok(v) => snapshot_events(*self, *current) == Ok::<Seq<EventKind>, ErrorKind>(
                    kinds(v@),
                ) && all_carry(
                    v@,
                    track_of(current.track_text())->Ok_0,
                    settings_of(current.settings_text())->Ok_0,
                ),
                Err(e) => snapshot_events(*self, *current) == Err::<Seq<EventKind>, ErrorKind>(
                    e.kind(),
                ),
            }),
    {
        if self.track_row.as_str().unicode_len() == 0 || self.player_settings_row.as_str().unicode_len()
            == 0 || current.track_row.as_str().unicode_len() == 0
            || current.player_settings_row.as_str().unicode_len() == 0 {
            return Err(CmusError::NoEvents);
        }
        let previous_track = self.track()?;
        let current_track = current.track()?;
        let current_settings = current.player_settings()?;
        if !str_eq(previous_track.path.as_str(), current_track.path.as_str()) {
            // A new track is the only event; the previous settings play no part.
            return Ok(
                events_between(&previous_track, &current_settings, &current_track, &current_settings),
            );
        }
        let previous_settings = self.player_settings()?;
        Ok(events_between(&previous_track, &previous_settings, &current_track, &current_settings))
    }
}

/// The kinds of events between two responses: none while either is blank;
/// else the error of the first block that cannot be read, in the order
/// previous track, current track, current settings; a new path then gives
/// the change of track alone; else the error of the previous settings, or
/// the kinds that the two snapshots give.
pub open spec fn snapshot_events(prev: CmusQueryResponse, cur: CmusQueryResponse) -> Result<
    Seq<EventKind>,
    ErrorKind,
> {
    if prev.is_blank() || cur.is_blank() {
        Err(ErrorKind::NoEvents)
    } else {
        match (track_of(prev.track_text()), track_of(cur.track_text()), settings_of(cur.settings_text())) {
            (Err(e), _, _) => Err(e),
            (Ok(_), Err(e), _) => Err(e),
            (Ok(_), Ok(_), Err(e)) => Err(e.0),
            (Ok(pt), Ok(ct), Ok(cs)) => if pt.path != ct.path {
                Ok(seq![EventKind::TrackChanged])
            } else {
                match settings_of(prev.settings_text()) {
                    Err(e) => Err(e.0),
                    Ok(ps) => Ok(event_kinds(pt, ps, ct, cs)),
                }
            },
        }
    }
}

/// A response compared with itself gives no event, where it can be read.
pub proof fn lemma_same_response_no_events(q: CmusQueryResponse)
    requires
        !q.is_blank(),
        track_of(q.track_text()) is Ok,
        settings_of(q.settings_text()) is Ok,
    ensures
        snapshot_events(q, q) == Ok::<Seq<EventKind>, ErrorKind>(Seq::empty()),
{
    crate::events::lemma_no_change_no_events(
        track_of(q.track_text())->Ok_0,
        settings_of(q.settings_text())->Ok_0,
    );
}

} // verus!
