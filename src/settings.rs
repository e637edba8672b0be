//! What the user configures: templates, timeouts and the cover policy,
//! each with a default.
use vstd::prelude::*;

verus! {

pub const NOTIFICATION_TIMEOUT: u8 = 5;
pub const DEFAULT_MAX_DEPTH: u8 = 3;
pub const DEFAULT_VOLUME_CHANGE_NOTIFICATION_TIMEOUT: u8 = 1;
pub const DEFAULT_SHUFFLE_NOTIFICATION_TIMEOUT: u8 = 1;
pub const DEFAULT_REPEAT_NOTIFICATION_TIMEOUT: u8 = 1;
pub const DEFAULT_AAAMODE_NOTIFICATION_TIMEOUT: u8 = 1;
pub const DEFAULT_STATUS_CHANGE_NOTIFICATION_TIMEOUT: u8 = 1;
pub const DEFAULT_INTERVAL_TIME: u64 = 1000;
pub const NOTIFICATION_APP_NAME: &'static str = "C* Music Player";
pub const NOTIFICATION_SUMMARY: &'static str = "{title}";
pub const NOTIFICATION_BODY: &'static str = "<b>Playing:</b> {title} \n <b>album:</b> {album} \n <b>Artist:</b> {artist} - {date}";
pub const DEFAULT_REMOTE_COMMAND: &'static str = "cmus-remote";
pub const DEFAULT_STATUS_CHANGE_NOTIFICATION_BODY: &'static str = "<b>{status}</b>";
pub const DEFAULT_STATUS_CHANGE_NOTIFICATION_SUMMARY: &'static str = "Status changed";
pub const DEFAULT_VOLUME_CHANGE_NOTIFICATION_BODY: &'static str = "Volume changed to {volume}%";
pub const DEFAULT_VOLUME_CHANGE_NOTIFICATION_SUMMARY: &'static str = "Volume changed";
pub const DEFAULT_SHUFFLE_NOTIFICATION_BODY: &'static str = "Shuffle mode changed to {shuffle}";
pub const DEFAULT_SHUFFLE_NOTIFICATION_SUMMARY: &'static str = "Shuffle mode changed";
pub const DEFAULT_REPEAT_NOTIFICATION_BODY: &'static str = "Repeat mode changed to {repeat}";
pub const DEFAULT_REPEAT_NOTIFICATION_SUMMARY: &'static str = "Repeat mode changed";
pub const DEFAULT_AAAMODE_NOTIFICATION_BODY: &'static str = "AAA mode changed to {aaa_mode}";
pub const DEFAULT_AAAMODE_NOTIFICATION_SUMMARY: &'static str = "AAA mode changed";

/// The text of an optional setting, or its default.
pub open spec fn text_or(o: Option<String>, d: Seq<char>) -> Seq<char> {
    match o {
        Some(s) => s@,
        None => d,
    }
}

fn string_or(o: &Option<String>, d: &str) -> (r: String)
    ensures
        r@ == text_or(*o, d@),
{
    match o {
        Some(s) => s.clone(),
        None => String::from_str(d),
    }
}

/// The notification settings.
#[derive(Debug)]
pub struct Settings {
    /// The notification timeout, in seconds.
    pub timeout: Option<u8>,
    /// Keep notifications on screen until they are dismissed.
    pub persistent: bool,
    /// Show the track's cover in the notification, where one is found.
    pub show_track_cover: bool,
    /// An icon to show where no cover is shown.
    pub notification_static_cover: Option<String>,
    /// Where to look for the cover: a path template with placeholders.
    pub cover_path_template: Option<String>,
    /// How many parent directories the cover search may climb.
    pub depth: Option<u8>,
    /// The application name of the notifications.
    pub app_name: Option<String>,
    /// The summary template of the track notification.
    pub summary: Option<String>,
    /// The body template of the track notification.
    pub body: Option<String>,
    /// The command that queries the player.
    pub cmus_remote_bin_path: Option<String>,
    /// The player's socket, where it is not the default one.
    pub cmus_socket_address: Option<String>,
    /// The password of the player's socket.
    pub cmus_socket_password: Option<String>,
    /// The time between two polls, in milliseconds.
    pub interval: Option<u64>,
    /// Stop when the player cannot be reached.
    pub link: bool,
    /// Use a cover file even where the track embeds a cover.
    pub force_use_external_cover: bool,
    /// Never look for a cover file.
    pub no_use_external_cover: bool,
    /// Notify of changes of the player's settings too.
    pub show_player_notifications: bool,
    pub volume_notification_body: Option<String>,
    pub volume_notification_summary: Option<String>,
    pub volume_notification_timeout: Option<u8>,
    pub shuffle_notification_body: Option<String>,
    pub shuffle_notification_summary: Option<String>,
    pub shuffle_notification_timeout: Option<u8>,
    pub repeat_notification_body: Option<String>,
    pub repeat_notification_summary: Option<String>,
    pub repeat_notification_timeout: Option<u8>,
    pub aaa_mode_notification_body: Option<String>,
    pub aaa_mode_notification_summary: Option<String>,
    pub aaa_mode_notification_timeout: Option<u8>,
    pub status_notification_body: Option<String>,
    pub status_notification_summary: Option<String>,
    pub status_notification_timeout: Option<u8>,
}

impl Default for Settings {
    fn default() -> (r: Settings)
        ensures
            r.timeout == Some(NOTIFICATION_TIMEOUT),
            r.persistent == false,
            r.show_track_cover == true,
            r.notification_static_cover is None,
            r.cover_path_template is None,
            r.depth == Some(DEFAULT_MAX_DEPTH),
            r.app_name matches Some(s) && s@ == NOTIFICATION_APP_NAME@,
            r.summary matches Some(s) && s@ == NOTIFICATION_SUMMARY@,
            r.body matches Some(s) && s@ == NOTIFICATION_BODY@,
            r.cmus_remote_bin_path matches Some(s) && s@ == DEFAULT_REMOTE_COMMAND@,
            r.cmus_socket_address is None,
            r.cmus_socket_password is None,
            r.interval == Some(DEFAULT_INTERVAL_TIME),
            r.link == false,
            r.force_use_external_cover == false,
            r.no_use_external_cover == false,
            r.show_player_notifications == false,
            r.volume_notification_body matches Some(s) && s@ == DEFAULT_VOLUME_CHANGE_NOTIFICATION_BODY@,
            r.volume_notification_summary matches Some(s) && s@ == DEFAULT_VOLUME_CHANGE_NOTIFICATION_SUMMARY@,
            r.volume_notification_timeout == Some(DEFAULT_VOLUME_CHANGE_NOTIFICATION_TIMEOUT),
            r.shuffle_notification_body matches Some(s) && s@ == DEFAULT_SHUFFLE_NOTIFICATION_BODY@,
            r.shuffle_notification_summary matches Some(s) && s@ == DEFAULT_SHUFFLE_NOTIFICATION_SUMMARY@,
            r.shuffle_notification_timeout == Some(DEFAULT_SHUFFLE_NOTIFICATION_TIMEOUT),
            r.repeat_notification_body matches Some(s) && s@ == DEFAULT_REPEAT_NOTIFICATION_BODY@,
            r.repeat_notification_summary matches Some(s) && s@ == DEFAULT_REPEAT_NOTIFICATION_SUMMARY@,
            r.repeat_notification_timeout == Some(DEFAULT_REPEAT_NOTIFICATION_TIMEOUT),
            r.aaa_mode_notification_body matches Some(s) && s@ == DEFAULT_AAAMODE_NOTIFICATION_BODY@,
            r.aaa_mode_notification_summary matches Some(s) && s@ == DEFAULT_AAAMODE_NOTIFICATION_SUMMARY@,
            r.aaa_mode_notification_timeout == Some(DEFAULT_AAAMODE_NOTIFICATION_TIMEOUT),
            r.status_notification_body matches Some(s) && s@ == DEFAULT_STATUS_CHANGE_NOTIFICATION_BODY@,
            r.status_notification_summary matches Some(s) && s@ == DEFAULT_STATUS_CHANGE_NOTIFICATION_SUMMARY@,
            r.status_notification_timeout == Some(DEFAULT_STATUS_CHANGE_NOTIFICATION_TIMEOUT),
    {
        Settings {
            timeout: Some(NOTIFICATION_TIMEOUT),
            persistent: false,
            show_track_cover: true,
            notification_static_cover: None,
            cover_path_template: None,
            depth: Some(DEFAULT_MAX_DEPTH),
            app_name: Some(String::from_str(NOTIFICATION_APP_NAME)),
            summary: Some(String::from_str(NOTIFICATION_SUMMARY)),
            body: Some(String::from_str(NOTIFICATION_BODY)),
            cmus_remote_bin_path: Some(String::from_str(DEFAULT_REMOTE_COMMAND)),
            cmus_socket_address: None,
            cmus_socket_password: None,
            interval: Some(DEFAULT_INTERVAL_TIME),
            link: false,
            force_use_external_cover: false,
            no_use_external_cover: false,
            show_player_notifications: false,
            volume_notification_body: Some(String::from_str(DEFAULT_VOLUME_CHANGE_NOTIFICATION_BODY)),
            volume_notification_summary: Some(String::from_str(DEFAULT_VOLUME_CHANGE_NOTIFICATION_SUMMARY)),
            volume_notification_timeout: Some(DEFAULT_VOLUME_CHANGE_NOTIFICATION_TIMEOUT),
            shuffle_notification_body: Some(String::from_str(DEFAULT_SHUFFLE_NOTIFICATION_BODY)),
            shuffle_notification_summary: Some(String::from_str(DEFAULT_SHUFFLE_NOTIFICATION_SUMMARY)),
            shuffle_notification_timeout: Some(DEFAULT_SHUFFLE_NOTIFICATION_TIMEOUT),
            repeat_notification_body: Some(String::from_str(DEFAULT_REPEAT_NOTIFICATION_BODY)),
            repeat_notification_summary: Some(String::from_str(DEFAULT_REPEAT_NOTIFICATION_SUMMARY)),
            repeat_notification_timeout: Some(DEFAULT_REPEAT_NOTIFICATION_TIMEOUT),
            aaa_mode_notification_body: Some(String::from_str(DEFAULT_AAAMODE_NOTIFICATION_BODY)),
            aaa_mode_notification_summary: Some(String::from_str(DEFAULT_AAAMODE_NOTIFICATION_SUMMARY)),
            aaa_mode_notification_timeout: Some(DEFAULT_AAAMODE_NOTIFICATION_TIMEOUT),
            status_notification_body: Some(String::from_str(DEFAULT_STATUS_CHANGE_NOTIFICATION_BODY)),
            status_notification_summary: Some(String::from_str(DEFAULT_STATUS_CHANGE_NOTIFICATION_SUMMARY)),
            status_notification_timeout: Some(DEFAULT_STATUS_CHANGE_NOTIFICATION_TIMEOUT),
        }
    }
}

/// The optional setting of the arguments where it is given, else that of the
/// configuration.
pub open spec fn either<T>(args: Option<T>, config: Option<T>) -> Option<T> {
    match args {
        Some(v) => Some(v),
        None => config,
    }
}

impl Settings {
    /// The settings of the command line laid over those of the
    /// configuration file: a value given on the command line wins, and a
    /// flag is set where either sets it.
    pub fn combine(config: Settings, args: Settings) -> (r: Settings)
        ensures
            r.timeout == either(args.timeout, config.timeout),
            r.persistent == (args.persistent || config.persistent),
            r.show_track_cover == (args.show_track_cover || config.show_track_cover),
            r.notification_static_cover == either(args.notification_static_cover, config.notification_static_cover),
            r.cover_path_template == either(args.cover_path_template, config.cover_path_template),
            r.depth == either(args.depth, config.depth),
            r.app_name == either(args.app_name, config.app_name),
            r.summary == either(args.summary, config.summary),
            r.body == either(args.body, config.body),
            r.cmus_remote_bin_path == either(args.cmus_remote_bin_path, config.cmus_remote_bin_path),
            r.cmus_socket_address == either(args.cmus_socket_address, config.cmus_socket_address),
            r.cmus_socket_password == either(args.cmus_socket_password, config.cmus_socket_password),
            r.interval == either(args.interval, config.interval),
            r.link == (args.link || config.link),
            r.force_use_external_cover == (args.force_use_external_cover || config.force_use_external_cover),
            r.no_use_external_cover == (args.no_use_external_cover || config.no_use_external_cover),
            r.show_player_notifications == (args.show_player_notifications || config.show_player_notifications),
            r.volume_notification_body == either(args.volume_notification_body, config.volume_notification_body),
            r.volume_notification_summary == either(args.volume_notification_summary, config.volume_notification_summary),
            r.volume_notification_timeout == either(args.volume_notification_timeout, config.volume_notification_timeout),
            r.shuffle_notification_body == either(args.shuffle_notification_body, config.shuffle_notification_body),
            r.shuffle_notification_summary == either(args.shuffle_notification_summary, config.shuffle_notification_summary),
            r.shuffle_notification_timeout == either(args.shuffle_notification_timeout, config.shuffle_notification_timeout),
            r.repeat_notification_body == either(args.repeat_notification_body, config.repeat_notification_body),
            r.repeat_notification_summary == either(args.repeat_notification_summary, config.repeat_notification_summary),
            r.repeat_notification_timeout == either(args.repeat_notification_timeout, config.repeat_notification_timeout),
            r.aaa_mode_notification_body == either(args.aaa_mode_notification_body, config.aaa_mode_notification_body),
            r.aaa_mode_notification_summary == either(args.aaa_mode_notification_summary, config.aaa_mode_notification_summary),
            r.aaa_mode_notification_timeout == either(args.aaa_mode_notification_timeout, config.aaa_mode_notification_timeout),
            r.status_notification_body == either(args.status_notification_body, config.status_notification_body),
            r.status_notification_summary == either(args.status_notification_summary, config.status_notification_summary),
            r.status_notification_timeout == either(args.status_notification_timeout, config.status_notification_timeout),
    {
        Settings {
            timeout: match args.timeout {
                Some(v) => Some(v),
                None => config.timeout,
            },
            persistent: args.persistent || config.persistent,
            show_track_cover: args.show_track_cover || config.show_track_cover,
            notification_static_cover: match args.notification_static_cover {
                Some(v) => Some(v),
                None => config.notification_static_cover,
            },
            cover_path_template: match args.cover_path_template {
                Some(v) => Some(v),
                None => config.cover_path_template,
            },
            depth: match args.depth {
                Some(v) => Some(v),
                None => config.depth,
            },
            app_name: match args.app_name {
                Some(v) => Some(v),
                None => config.app_name,
            },
            summary: match args.summary {
                Some(v) => Some(v),
                None => config.summary,
            },
            body: match args.body {
                Some(v) => Some(v),
                None => config.body,
            },
            cmus_remote_bin_path: match args.cmus_remote_bin_path {
                Some(v) => Some(v),
                None => config.cmus_remote_bin_path,
            },
            cmus_socket_address: match args.cmus_socket_address {
                Some(v) => Some(v),
                None => config.cmus_socket_address,
            },
            cmus_socket_password: match args.cmus_socket_password {
                Some(v) => Some(v),
                None => config.cmus_socket_password,
            },
            interval: match args.interval {
                Some(v) => Some(v),
                None => config.interval,
            },
            link: args.link || config.link,
            force_use_external_cover: args.force_use_external_cover || config.force_use_external_cover,
            no_use_external_cover: args.no_use_external_cover || config.no_use_external_cover,
            show_player_notifications: args.show_player_notifications || config.show_player_notifications,
            volume_notification_body: match args.volume_notification_body {
                Some(v) => Some(v),
                None => config.volume_notification_body,
            },
            volume_notification_summary: match args.volume_notification_summary {
                Some(v) => Some(v),
                None => config.volume_notification_summary,
            },
            volume_notification_timeout: match args.volume_notification_timeout {
                Some(v) => Some(v),
                None => config.volume_notification_timeout,
            },
            shuffle_notification_body: match args.shuffle_notification_body {
                Some(v) => Some(v),
                None => config.shuffle_notification_body,
            },
            shuffle_notification_summary: match args.shuffle_notification_summary {
                Some(v) => Some(v),
                None => config.shuffle_notification_summary,
            },
            shuffle_notification_timeout: match args.shuffle_notification_timeout {
                Some(v) => Some(v),
                None => config.shuffle_notification_timeout,
            },
            repeat_notification_body: match args.repeat_notification_body {
                Some(v) => Some(v),
                None => config.repeat_notification_body,
            },
            repeat_notification_summary: match args.repeat_notification_summary {
                Some(v) => Some(v),
                None => config.repeat_notification_summary,
            },
            repeat_notification_timeout: match args.repeat_notification_timeout {
                Some(v) => Some(v),
                None => config.repeat_notification_timeout,
            },
            aaa_mode_notification_body: match args.aaa_mode_notification_body {
                Some(v) => Some(v),
                None => config.aaa_mode_notification_body,
            },
            aaa_mode_notification_summary: match args.aaa_mode_notification_summary {
                Some(v) => Some(v),
                None => config.aaa_mode_notification_summary,
            },
            aaa_mode_notification_timeout: match args.aaa_mode_notification_timeout {
                Some(v) => Some(v),
                None => config.aaa_mode_notification_timeout,
            },
            status_notification_body: match args.status_notification_body {
                Some(v) => Some(v),
                None => config.status_notification_body,
            },
            status_notification_summary: match args.status_notification_summary {
                Some(v) => Some(v),
                None => config.status_notification_summary,
            },
            status_notification_timeout: match args.status_notification_timeout {
                Some(v) => Some(v),
                None => config.status_notification_timeout,
            },
        }
    }

    pub fn timeout(&self) -> (r: u8)
        ensures
            r == (match self.timeout {
                Some(v) => v,
                None => NOTIFICATION_TIMEOUT,
            }),
    {
        match self.timeout {
            Some(v) => v,
            None => NOTIFICATION_TIMEOUT,
        }
    }

    pub fn app_name(&self) -> (r: String)
        ensures
            r@ == text_or(self.app_name, NOTIFICATION_APP_NAME@),
    {
        string_or(&self.app_name, NOTIFICATION_APP_NAME)
    }

    pub fn interval(&self) -> (r: u64)
        ensures
            r == (match self.interval {
                Some(v) => v,
                None => DEFAULT_INTERVAL_TIME,
            }),
    {
        match self.interval {
            Some(v) => v,
            None => DEFAULT_INTERVAL_TIME,
        }
    }

    pub fn depth(&self) -> (r: u8)
        ensures
            r == (match self.depth {
                Some(v) => v,
                None => DEFAULT_MAX_DEPTH,
            }),
    {
        match self.depth {
            Some(v) => v,
            None => DEFAULT_MAX_DEPTH,
        }
    }

    pub fn remote_bin_path(&self) -> (r: String)
        ensures
            r@ == text_or(self.cmus_remote_bin_path, DEFAULT_REMOTE_COMMAND@),
    {
        string_or(&self.cmus_remote_bin_path, DEFAULT_REMOTE_COMMAND)
    }

    pub fn status_notification_summary(&self) -> (r: String)
        ensures
            r@ == text_or(self.status_notification_summary, DEFAULT_STATUS_CHANGE_NOTIFICATION_SUMMARY@),
    {
        string_or(&self.status_notification_summary, DEFAULT_STATUS_CHANGE_NOTIFICATION_SUMMARY)
    }

    pub fn status_notification_body(&self) -> (r: String)
        ensures
            r@ == text_or(self.status_notification_body, DEFAULT_STATUS_CHANGE_NOTIFICATION_BODY@),
    {
        string_or(&self.status_notification_body, DEFAULT_STATUS_CHANGE_NOTIFICATION_BODY)
    }

    pub fn status_notification_timeout(&self) -> (r: u8)
        ensures
            r == (match self.status_notification_timeout {
                Some(v) => v,
                None => DEFAULT_STATUS_CHANGE_NOTIFICATION_TIMEOUT,
            }),
    {
        match self.status_notification_timeout {
            Some(v) => v,
            None => DEFAULT_STATUS_CHANGE_NOTIFICATION_TIMEOUT,
        }
    }

    pub fn summary(&self) -> (r: String)
        ensures
            r@ == text_or(self.summary, NOTIFICATION_SUMMARY@),
    {
        string_or(&self.summary, NOTIFICATION_SUMMARY)
    }

    pub fn body(&self) -> (r: String)
        ensures
            r@ == text_or(self.body, NOTIFICATION_BODY@),
    {
        string_or(&self.body, NOTIFICATION_BODY)
    }

    pub fn volume_notification_summary(&self) -> (r: String)
        ensures
            r@ == text_or(self.volume_notification_summary, DEFAULT_VOLUME_CHANGE_NOTIFICATION_SUMMARY@),
    {
        string_or(&self.volume_notification_summary, DEFAULT_VOLUME_CHANGE_NOTIFICATION_SUMMARY)
    }

    pub fn volume_notification_body(&self) -> (r: String)
        ensures
            r@ == text_or(self.volume_notification_body, DEFAULT_VOLUME_CHANGE_NOTIFICATION_BODY@),
    {
        string_or(&self.volume_notification_body, DEFAULT_VOLUME_CHANGE_NOTIFICATION_BODY)
    }

    pub fn volume_notification_timeout(&self) -> (r: u8)
        ensures
            r == (match self.volume_notification_timeout {
                Some(v) => v,
                None => DEFAULT_VOLUME_CHANGE_NOTIFICATION_TIMEOUT,
            }),
    {
        match self.volume_notification_timeout {
            Some(v) => v,
            None => DEFAULT_VOLUME_CHANGE_NOTIFICATION_TIMEOUT,
        }
    }

    pub fn shuffle_notification_summary(&self) -> (r: String)
        ensures
            r@ == text_or(self.shuffle_notification_summary, DEFAULT_SHUFFLE_NOTIFICATION_SUMMARY@),
    {
        string_or(&self.shuffle_notification_summary, DEFAULT_SHUFFLE_NOTIFICATION_SUMMARY)
    }

    pub fn shuffle_notification_body(&self) -> (r: String)
        ensures
            r@ == text_or(self.shuffle_notification_body, DEFAULT_SHUFFLE_NOTIFICATION_BODY@),
    {
        string_or(&self.shuffle_notification_body, DEFAULT_SHUFFLE_NOTIFICATION_BODY)
    }

    pub fn shuffle_notification_timeout(&self) -> (r: u8)
        ensures
            r == (match self.shuffle_notification_timeout {
                Some(v) => v,
                None => DEFAULT_SHUFFLE_NOTIFICATION_TIMEOUT,
            }),
    {
        match self.shuffle_notification_timeout {
            Some(v) => v,
            None => DEFAULT_SHUFFLE_NOTIFICATION_TIMEOUT,
        }
    }

    pub fn repeat_notification_summary(&self) -> (r: String)
        ensures
            r@ == text_or(self.repeat_notification_summary, DEFAULT_REPEAT_NOTIFICATION_SUMMARY@),
    {
        string_or(&self.repeat_notification_summary, DEFAULT_REPEAT_NOTIFICATION_SUMMARY)
    }

    pub fn repeat_notification_body(&self) -> (r: String)
        ensures
            r@ == text_or(self.repeat_notification_body, DEFAULT_REPEAT_NOTIFICATION_BODY@),
    {
        string_or(&self.repeat_notification_body, DEFAULT_REPEAT_NOTIFICATION_BODY)
    }

    pub fn repeat_notification_timeout(&self) -> (r: u8)
        ensures
            r == (match self.repeat_notification_timeout {
                Some(v) => v,
                None => DEFAULT_REPEAT_NOTIFICATION_TIMEOUT,
            }),
    {
        match self.repeat_notification_timeout {
            Some(v) => v,
            None => DEFAULT_REPEAT_NOTIFICATION_TIMEOUT,
        }
    }

    pub fn aaa_mode_notification_summary(&self) -> (r: String)
        ensures
            r@ == text_or(self.aaa_mode_notification_summary, DEFAULT_AAAMODE_NOTIFICATION_SUMMARY@),
    {
        string_or(&self.aaa_mode_notification_summary, DEFAULT_AAAMODE_NOTIFICATION_SUMMARY)
    }

    pub fn aaa_mode_notification_body(&self) -> (r: String)
        ensures
            r@ == text_or(self.aaa_mode_notification_body, DEFAULT_AAAMODE_NOTIFICATION_BODY@),
    {
        string_or(&self.aaa_mode_notification_body, DEFAULT_AAAMODE_NOTIFICATION_BODY)
    }

    pub fn aaa_mode_notification_timeout(&self) -> (r: u8)
        ensures
            r == (match self.aaa_mode_notification_timeout {
                Some(v) => v,
                None => DEFAULT_AAAMODE_NOTIFICATION_TIMEOUT,
            }),
    {
        match self.aaa_mode_notification_timeout {
            Some(v) => v,
            None => DEFAULT_AAAMODE_NOTIFICATION_TIMEOUT,
        }
    }
}

} // verus!
