//! The changes between two successive snapshots of the player, as events.
use vstd::prelude::*;
use crate::player_settings::PlayerSettings;
use crate::text::str_eq;
use crate::track::{Track, TrackView};

verus! {

/// A change between two snapshots; each carries the newer snapshot's track
/// and settings.
#[derive(PartialEq, Eq, Debug)]
pub enum CmusEvent {
    StatusChanged(Track, PlayerSettings),
    TrackChanged(Track, PlayerSettings),
    VolumeChanged(Track, PlayerSettings),
    PositionChanged(Track, PlayerSettings),
    ShuffleChanged(Track, PlayerSettings),
    RepeatChanged(Track, PlayerSettings),
    AAAModeChanged(Track, PlayerSettings),
}

/// The variant of a `CmusEvent`.
#[derive(PartialEq, Eq, Structural, Clone, Copy, Debug)]
pub enum EventKind {
    StatusChanged,
    TrackChanged,
    VolumeChanged,
    PositionChanged,
    ShuffleChanged,
    RepeatChanged,
    AAAModeChanged,
}

impl CmusEvent {
    pub open spec fn kind(&self) -> EventKind {
        match self {
            CmusEvent::StatusChanged(..) => EventKind::StatusChanged,
            CmusEvent::TrackChanged(..) => EventKind::TrackChanged,
            CmusEvent::VolumeChanged(..) => EventKind::VolumeChanged,
            CmusEvent::PositionChanged(..) => EventKind::PositionChanged,
            CmusEvent::ShuffleChanged(..) => EventKind::ShuffleChanged,
            CmusEvent::RepeatChanged(..) => EventKind::RepeatChanged,
            CmusEvent::AAAModeChanged(..) => EventKind::AAAModeChanged,
        }
    }

    pub open spec fn track(&self) -> Track {
        match self {
            CmusEvent::StatusChanged(t, _) => *t,
            CmusEvent::TrackChanged(t, _) => *t,
            CmusEvent::VolumeChanged(t, _) => *t,
            CmusEvent::PositionChanged(t, _) => *t,
            CmusEvent::ShuffleChanged(t, _) => *t,
            CmusEvent::RepeatChanged(t, _) => *t,
            CmusEvent::AAAModeChanged(t, _) => *t,
        }
    }

    pub open spec fn settings(&self) -> PlayerSettings {
        match self {
            CmusEvent::StatusChanged(_, p) => *p,
            CmusEvent::TrackChanged(_, p) => *p,
            CmusEvent::VolumeChanged(_, p) => *p,
            CmusEvent::PositionChanged(_, p) => *p,
            CmusEvent::ShuffleChanged(_, p) => *p,
            CmusEvent::RepeatChanged(_, p) => *p,
            CmusEvent::AAAModeChanged(_, p) => *p,
        }
    }

    /// The track and settings that the event carries.
    pub fn parts(&self) -> (r: (&Track, &PlayerSettings))
        ensures
            *r.0 == self.track(),
            *r.1 == self.settings(),
    {
        match self {
            CmusEvent::StatusChanged(t, p) => (t, p),
            CmusEvent::TrackChanged(t, p) => (t, p),
            CmusEvent::VolumeChanged(t, p) => (t, p),
            CmusEvent::PositionChanged(t, p) => (t, p),
            CmusEvent::ShuffleChanged(t, p) => (t, p),
            CmusEvent::RepeatChanged(t, p) => (t, p),
            CmusEvent::AAAModeChanged(t, p) => (t, p),
        }
    }
}

/// The single event of the track, if any: a new path is a new track; else a
/// change of status comes before a change of position.
pub open spec fn track_events(prev: TrackView, cur: TrackView) -> Seq<EventKind> {
    if cur.status != prev.status {
        seq![EventKind::StatusChanged]
    } else if cur.position != prev.position {
        seq![EventKind::PositionChanged]
    } else {
        Seq::empty()
    }
}

/// The events of the settings, each one that changed, in a fixed order.
pub open spec fn settings_events(prev: PlayerSettings, cur: PlayerSettings) -> Seq<EventKind> {
    (if cur.shuffle != prev.shuffle {
        seq![EventKind::ShuffleChanged]
    } else {
        Seq::empty()
    }) + (if cur.repeat != prev.repeat {
        seq![EventKind::RepeatChanged]
    } else {
        Seq::empty()
    }) + (if cur.aaa_mode != prev.aaa_mode {
        seq![EventKind::AAAModeChanged]
    } else {
        Seq::empty()
    }) + (if cur.volume != prev.volume {
        seq![EventKind::VolumeChanged]
    } else {
        Seq::empty()
    })
}

/// The kinds of the events between two snapshots, in order: a new track
/// alone, or the track's event followed by the settings' events.
pub open spec fn event_kinds(
    prev: TrackView,
    prev_settings: PlayerSettings,
    cur: TrackView,
    cur_settings: PlayerSettings,
) -> Seq<EventKind> {
    if cur.path != prev.path {
        seq![EventKind::TrackChanged]
    } else {
        track_events(prev, cur) + settings_events(prev_settings, cur_settings)
    }
}

/// The kinds of a sequence of events.
pub open spec fn kinds(v: Seq<CmusEvent>) -> Seq<EventKind> {
    v.map_values(|e: CmusEvent| e.kind())
}

/// Whether every event carries the given track and settings.
pub open spec fn all_carry(v: Seq<CmusEvent>, t: TrackView, p: PlayerSettings) -> bool {
    forall|i: int| 0 <= i < v.len() ==> (#[trigger] v[i]).track()@ == t && v[i].settings() == p
}

fn push_event(
    events: &mut Vec<CmusEvent>,
    kind: EventKind,
    current: &Track,
    current_settings: &PlayerSettings,
)
    requires
        all_carry(old(events)@, current@, *current_settings),
    ensures
        kinds(final(events)@) == kinds(old(events)@).push(kind),
        all_carry(final(events)@, current@, *current_settings),
{
    let t = current.duplicate();
    let p = *current_settings;
    let e = match kind {
        EventKind::StatusChanged => CmusEvent::StatusChanged(t, p),
        EventKind::TrackChanged => CmusEvent::TrackChanged(t, p),
        EventKind::VolumeChanged => CmusEvent::VolumeChanged(t, p),
        EventKind::PositionChanged => CmusEvent::PositionChanged(t, p),
        EventKind::ShuffleChanged => CmusEvent::ShuffleChanged(t, p),
        EventKind::RepeatChanged => CmusEvent::RepeatChanged(t, p),
        EventKind::AAAModeChanged => CmusEvent::AAAModeChanged(t, p),
    };
    let ghost before = events@;
    events.push(e);
    assert(kinds(events@) =~= kinds(before).push(kind));
}

/// The events between the previous snapshot and the current one.
pub fn events_between(
    previous: &Track,
    previous_settings: &PlayerSettings,
    current: &Track,
    current_settings: &PlayerSettings,
) -> (r: Vec<CmusEvent>)
    ensures
        kinds(r@) == event_kinds(previous@, *previous_settings, current@, *current_settings),
        all_carry(r@, current@, *current_settings),
{
    let mut events: Vec<CmusEvent> = Vec::new();
    assert(kinds(events@) =~= Seq::<EventKind>::empty());
    if !str_eq(current.path.as_str(), previous.path.as_str()) {
        push_event(&mut events, EventKind::TrackChanged, current, current_settings);
        assert(kinds(events@) =~= seq![EventKind::TrackChanged]);
        return events;
    }
    if current.status != previous.status {
        push_event(&mut events, EventKind::StatusChanged, current, current_settings);
    } else if current.position != previous.position {
        push_event(&mut events, EventKind::PositionChanged, current, current_settings);
    }
    assert(kinds(events@) =~= track_events(previous@, current@));
    let ghost head = kinds(events@);
    if current_settings.shuffle != previous_settings.shuffle {
        push_event(&mut events, EventKind::ShuffleChanged, current, current_settings);
    }
    if current_settings.repeat != previous_settings.repeat {
        push_event(&mut events, EventKind::RepeatChanged, current, current_settings);
    }
    if current_settings.aaa_mode != previous_settings.aaa_mode {
        push_event(&mut events, EventKind::AAAModeChanged, current, current_settings);
    }
    if current_settings.volume != previous_settings.volume {
        push_event(&mut events, EventKind::VolumeChanged, current, current_settings);
    }
    assert(kinds(events@) =~= head + settings_events(*previous_settings, *current_settings));
    events
}

/// With nothing changed there is no event.
pub proof fn lemma_no_change_no_events(t: TrackView, p: PlayerSettings)
    ensures
        event_kinds(t, p, t, p) == Seq::<EventKind>::empty(),
{
    assert(event_kinds(t, p, t, p) =~= Seq::<EventKind>::empty());
}

/// A new path gives one event, the change of track, whatever else changed.
pub proof fn lemma_new_path_one_event(
    prev: TrackView,
    prev_settings: PlayerSettings,
    cur: TrackView,
    cur_settings: PlayerSettings,
)
    requires
        cur.path != prev.path,
    ensures
        event_kinds(prev, prev_settings, cur, cur_settings) == seq![EventKind::TrackChanged],
{
}

/// Where only the shuffle mode and the volume changed, the events are the
/// change of shuffle and then the change of volume.
pub proof fn lemma_shuffle_and_volume(
    prev: TrackView,
    prev_settings: PlayerSettings,
    cur: TrackView,
    cur_settings: PlayerSettings,
)
    requires
        cur.path == prev.path,
        cur.status == prev.status,
        cur.position == prev.position,
        cur_settings.shuffle != prev_settings.shuffle,
        cur_settings.volume != prev_settings.volume,
        cur_settings.repeat == prev_settings.repeat,
        cur_settings.aaa_mode == prev_settings.aaa_mode,
    ensures
        event_kinds(prev, prev_settings, cur, cur_settings) == seq![
            EventKind::ShuffleChanged,
            EventKind::VolumeChanged,
        ],
{
    assert(event_kinds(prev, prev_settings, cur, cur_settings) =~= seq![
        EventKind::ShuffleChanged,
        EventKind::VolumeChanged,
    ]);
}

} // verus!
