//! The decisions of the notification loop: which kept notifications to
//! fill again, which to close, what to show, and when to set the cover.
//! Showing and updating notifications is left to the caller.
use vstd::prelude::*;
use crate::events::{CmusEvent, EventKind};
use crate::notification::{is_action_for, Action};
use crate::settings::Settings;
use crate::template::{process_template_placeholders, render};

verus! {

/// A notification that was kept on screen, with the templates it is filled
/// from.
#[derive(Debug)]
pub struct SavedNotification {
    pub body_template: String,
    pub summary_template: String,
    pub visible: bool,
}

/// New text for kept notification `index`.
#[derive(Debug)]
pub struct Refill {
    pub index: usize,
    pub summary: String,
    pub body: String,
}

/// What to do for one event.
#[derive(Debug)]
pub enum Plan {
    /// Fill the kept notifications again; nothing new is shown.
    Refill(Vec<Refill>),
    /// Close and forget the kept notifications first where `close_saved`
    /// holds, then carry out `action`.
    Show { close_saved: bool, action: Action },
}

/// Whether `v` refills, in order, each visible kept notification from index
/// `from` on, with its templates filled from the event.
pub open spec fn refills_from(
    v: Seq<Refill>,
    saved: Seq<SavedNotification>,
    from: int,
    e: CmusEvent,
) -> bool
    decreases saved.len() - from,
{
    if from < 0 || from >= saved.len() {
        v.len() == 0
    } else if saved[from].visible {
        &&& v.len() > 0
        &&& v[0].index == from
        &&& v[0].summary@ == render(saved[from].summary_template@, e.track()@, e.settings())
        &&& v[0].body@ == render(saved[from].body_template@, e.track()@, e.settings())
        &&& refills_from(v.drop_first(), saved, from + 1, e)
    } else {
        refills_from(v, saved, from + 1, e)
    }
}

/// The plan for an event: a change of position refills the visible kept
/// notifications; any other event shows its notification, and a change of
/// track closes the kept ones first.
pub fn plan_event(saved: &Vec<SavedNotification>, event: &CmusEvent, settings: &Settings) -> (r:
    Plan)
    ensures
        event.kind() == EventKind::PositionChanged ==> (r matches Plan::Refill(v) && refills_from(
            v@,
            saved@,
            0,
            *event,
        )),
        event.kind() != EventKind::PositionChanged ==> (r matches Plan::Show { close_saved, action }
            && close_saved == (event.kind() == EventKind::TrackChanged) && is_action_for(
            action,
            *event,
            *settings,
        )),
{
    if let CmusEvent::PositionChanged(track, player) = event {
        let mut v: Vec<Refill> = Vec::new();
        let mut i = saved.len();
        while i > 0
            invariant
                i <= saved@.len(),
                event.kind() == EventKind::PositionChanged,
                *track == event.track(),
                *player == event.settings(),
                refills_from(v@, saved@, i as int, *event),
            decreases i,
        {
            i = i - 1;
            if saved[i].visible {
                let summary = process_template_placeholders(
                    saved[i].summary_template.as_str(),
                    track,
                    player,
                );
                let body = process_template_placeholders(
                    saved[i].body_template.as_str(),
                    track,
                    player,
                );
                let ghost rest = v@;
                v.insert(0, Refill { index: i, summary, body });
                assert(v@.drop_first() =~= rest);
            }
        }
        return Plan::Refill(v);
    }
    let close_saved = matches!(event, CmusEvent::TrackChanged(..));
    Plan::Show { close_saved, action: event.build_notification(settings) }
}

/// The kept notifications after a plan was carried out: none where the
/// plan closed them, then the shown notification where it is to be kept.
pub fn after_show(saved: &mut Vec<SavedNotification>, close_saved: bool, action: &Action)
    ensures
        (match action {
            Action::Show { body, summary, save, .. } => if *save {
                &&& final(saved)@.len() == (if close_saved {
                    0
                } else {
                    old(saved)@.len()
                }) + 1
                &&& final(saved)@.last().body_template@ == body.template@
                &&& final(saved)@.last().summary_template@ == summary.template@
                &&& final(saved)@.last().visible
            } else {
                final(saved)@.len() == if close_saved {
                    0
                } else {
                    old(saved)@.len()
                }
            },
            Action::Nothing => final(saved)@.len() == if close_saved {
                0
            } else {
                old(saved)@.len()
            },
        }),
        !close_saved ==> forall|i: int|
            0 <= i < old(saved)@.len() ==> final(saved)@[i] == old(saved)@[i],
{
    if close_saved {
        saved.clear();
    }
    match action {
        Action::Show { body, summary, save, .. } => {
            if *save {
                saved.push(
                    SavedNotification {
                        body_template: body.template.clone(),
                        summary_template: summary.template.clone(),
                        visible: true,
                    },
                );
            }
        },
        Action::Nothing => {},
    }
}

/// What to do about the picture of a notification that is about to be shown.
#[derive(PartialEq, Eq, Structural, Clone, Copy, Debug)]
pub enum CoverStep {
    /// Start a fresh notification and look up the cover of the event's track.
    Refresh,
    /// Look up the cover of the current track, as none is set yet.
    Fill,
    /// Start a fresh notification with the configured icon.
    StaticIcon,
    /// Leave the picture as it is.
    Keep,
}

/// The cover step: with covers shown, a change of track looks the cover up
/// again and other events fill it where none is set; without covers, the
/// configured icon is set once.
pub fn cover_step(
    show_track_cover: bool,
    has_static_icon: bool,
    cover_set: bool,
    track_changed: bool,
) -> (r: CoverStep)
    ensures
        r == (if show_track_cover {
            if track_changed {
                CoverStep::Refresh
            } else if !cover_set {
                CoverStep::Fill
            } else {
                CoverStep::Keep
            }
        } else if has_static_icon && !cover_set {
            CoverStep::StaticIcon
        } else {
            CoverStep::Keep
        }),
{
    if show_track_cover {
        if track_changed {
            CoverStep::Refresh
        } else if !cover_set {
            CoverStep::Fill
        } else {
            CoverStep::Keep
        }
    } else if has_static_icon && !cover_set {
        CoverStep::StaticIcon
    } else {
        CoverStep::Keep
    }
}

} // verus!
