//! What to show for an event: the filled templates and how long they stay.
use vstd::prelude::*;
use crate::events::{CmusEvent, EventKind};
use crate::settings::{
    text_or, Settings, DEFAULT_AAAMODE_NOTIFICATION_BODY, DEFAULT_AAAMODE_NOTIFICATION_SUMMARY,
    DEFAULT_AAAMODE_NOTIFICATION_TIMEOUT, DEFAULT_REPEAT_NOTIFICATION_BODY,
    DEFAULT_REPEAT_NOTIFICATION_SUMMARY, DEFAULT_REPEAT_NOTIFICATION_TIMEOUT,
    DEFAULT_SHUFFLE_NOTIFICATION_BODY, DEFAULT_SHUFFLE_NOTIFICATION_SUMMARY,
    DEFAULT_SHUFFLE_NOTIFICATION_TIMEOUT, DEFAULT_STATUS_CHANGE_NOTIFICATION_BODY,
    DEFAULT_STATUS_CHANGE_NOTIFICATION_SUMMARY, DEFAULT_STATUS_CHANGE_NOTIFICATION_TIMEOUT,
    DEFAULT_VOLUME_CHANGE_NOTIFICATION_BODY, DEFAULT_VOLUME_CHANGE_NOTIFICATION_SUMMARY,
    DEFAULT_VOLUME_CHANGE_NOTIFICATION_TIMEOUT, NOTIFICATION_BODY, NOTIFICATION_SUMMARY,
    NOTIFICATION_TIMEOUT,
};
use crate::template::{is_mutable, process_template_placeholders, render, volatile};

verus! {

/// A filled template together with the template it came from, so that it
/// can be filled again later.
#[derive(Debug)]
pub struct CompleteStr {
    pub template: String,
    pub str: String,
}

/// What to do for an event.
#[derive(Debug)]
pub enum Action {
    Show { body: CompleteStr, summary: CompleteStr, timeout: i32, save: bool },
    Nothing,
}

pub open spec fn u8_or(o: Option<u8>, d: u8) -> u8 {
    match o {
        Some(v) => v,
        None => d,
    }
}

/// The body template, the summary template and the timeout in seconds of
/// an event, where the event is to be shown.
pub open spec fn event_templates(kind: EventKind, s: Settings) -> Option<
    (Seq<char>, Seq<char>, u8),
> {
    match kind {
        EventKind::StatusChanged => Some(
            (
                text_or(s.status_notification_body, DEFAULT_STATUS_CHANGE_NOTIFICATION_BODY@),
                text_or(s.status_notification_summary, DEFAULT_STATUS_CHANGE_NOTIFICATION_SUMMARY@),
                u8_or(s.status_notification_timeout, DEFAULT_STATUS_CHANGE_NOTIFICATION_TIMEOUT),
            ),
        ),
        EventKind::TrackChanged => Some(
            (
                text_or(s.body, NOTIFICATION_BODY@),
                text_or(s.summary, NOTIFICATION_SUMMARY@),
                u8_or(s.timeout, NOTIFICATION_TIMEOUT),
            ),
        ),
        EventKind::VolumeChanged => if s.show_player_notifications {
            Some(
                (
                    text_or(s.volume_notification_body, DEFAULT_VOLUME_CHANGE_NOTIFICATION_BODY@),
                    text_or(
                        s.volume_notification_summary,
                        DEFAULT_VOLUME_CHANGE_NOTIFICATION_SUMMARY@,
                    ),
                    u8_or(s.volume_notification_timeout, DEFAULT_VOLUME_CHANGE_NOTIFICATION_TIMEOUT),
                ),
            )
        } else {
            None
        },
        EventKind::ShuffleChanged => if s.show_player_notifications {
            Some(
                (
                    text_or(s.shuffle_notification_body, DEFAULT_SHUFFLE_NOTIFICATION_BODY@),
                    text_or(s.shuffle_notification_summary, DEFAULT_SHUFFLE_NOTIFICATION_SUMMARY@),
                    u8_or(s.shuffle_notification_timeout, DEFAULT_SHUFFLE_NOTIFICATION_TIMEOUT),
                ),
            )
        } else {
            None
        },
        EventKind::RepeatChanged => if s.show_player_notifications {
            Some(
                (
                    text_or(s.repeat_notification_body, DEFAULT_REPEAT_NOTIFICATION_BODY@),
                    text_or(s.repeat_notification_summary, DEFAULT_REPEAT_NOTIFICATION_SUMMARY@),
                    u8_or(s.repeat_notification_timeout, DEFAULT_REPEAT_NOTIFICATION_TIMEOUT),
                ),
            )
        } else {
            None
        },
        EventKind::AAAModeChanged => if s.show_player_notifications {
            Some(
                (
                    text_or(s.aaa_mode_notification_body, DEFAULT_AAAMODE_NOTIFICATION_BODY@),
                    text_or(s.aaa_mode_notification_summary, DEFAULT_AAAMODE_NOTIFICATION_SUMMARY@),
                    u8_or(s.aaa_mode_notification_timeout, DEFAULT_AAAMODE_NOTIFICATION_TIMEOUT),
                ),
            )
        } else {
            None
        },
        EventKind::PositionChanged => None,
    }
}

/// Whether `a` is the action for an event with the given templates, track
/// and settings: templates that hold a volatile placeholder make the
/// notification stay, without a timeout, and be kept for updates.
pub open spec fn is_action_for(a: Action, e: CmusEvent, s: Settings) -> bool {
    match (event_templates(e.kind(), s), a) {
        (None, Action::Nothing) => true,
        (Some((b, m, t)), Action::Show { body, summary, timeout, save }) => {
            &&& body.template@ == b
            &&& summary.template@ == m
            &&& body.str@ == render(b, e.track()@, e.settings())
            &&& summary.str@ == render(m, e.track()@, e.settings())
            &&& save == (volatile(b) || volatile(m))
            &&& timeout == (if save {
                0
            } else {
                t as i32 * 1000
            })
        },
        _ => false,
    }
}

impl CmusEvent {
    /// The notification of this event under the given settings.
    pub fn build_notification(&self, settings: &Settings) -> (r: Action)
        ensures
            is_action_for(r, *self, *settings),
    {
        let (body_template, summary_template, timeout) = match self {
            CmusEvent::StatusChanged(..) => (
                settings.status_notification_body(),
                settings.status_notification_summary(),
                settings.status_notification_timeout(),
            ),
            CmusEvent::TrackChanged(..) => (settings.body(), settings.summary(), settings.timeout()),
            CmusEvent::VolumeChanged(..) if settings.show_player_notifications => (
                settings.volume_notification_body(),
                settings.volume_notification_summary(),
                settings.volume_notification_timeout(),
            ),
            CmusEvent::ShuffleChanged(..) if settings.show_player_notifications => (
                settings.shuffle_notification_body(),
                settings.shuffle_notification_summary(),
                settings.shuffle_notification_timeout(),
            ),
            CmusEvent::RepeatChanged(..) if settings.show_player_notifications => (
                settings.repeat_notification_body(),
                settings.repeat_notification_summary(),
                settings.repeat_notification_timeout(),
            ),
            CmusEvent::AAAModeChanged(..) if settings.show_player_notifications => (
                settings.aaa_mode_notification_body(),
                settings.aaa_mode_notification_summary(),
                settings.aaa_mode_notification_timeout(),
            ),
            _ => {
                return Action::Nothing;
            },
        };
        let (track, player_settings) = self.parts();
        let persistent = is_mutable(body_template.as_str()) || is_mutable(
            summary_template.as_str(),
        );
        let body = process_template_placeholders(body_template.as_str(), track, player_settings);
        let summary = process_template_placeholders(
            summary_template.as_str(),
            track,
            player_settings,
        );
        Action::Show {
            body: CompleteStr { template: body_template, str: body },
            summary: CompleteStr { template: summary_template, str: summary },
            timeout: if persistent {
                0
            } else {
                timeout as i32 * 1000
            },
            save: persistent,
        }
    }
}

} // verus!
