//! The stored preferences.
use vstd::prelude::*;

verus! {

/// The preferences kept between runs.
#[derive(Debug, Clone, Copy, PartialEq, Eq, Structural)]
pub struct Config {
    pub show_sync_indicator: bool,
    pub send_typing_notifications: bool,
    pub render_markdown: bool,
    pub compact_mode: bool,
    pub media_previews_display_policy: bool,
    pub invite_avatars_display_policy: bool,
}

/// The preferences before the user changes any: every option off, but
/// media previews and invite avatars shown.
pub open spec fn default_config() -> Config {
    Config {
        show_sync_indicator: false,
        send_typing_notifications: false,
        render_markdown: false,
        compact_mode: false,
        media_previews_display_policy: true,
        invite_avatars_display_policy: true,
    }
}

impl Default for Config {
    fn default() -> (c: Self)
        ensures
            c == default_config(),
    {
        Config {
            show_sync_indicator: false,
            send_typing_notifications: false,
            render_markdown: false,
            compact_mode: false,
            media_previews_display_policy: true,
            invite_avatars_display_policy: true,
        }
    }
}

impl Config {
    /// The preferences to use given what reading the stored file gave: the
    /// stored preferences, or the defaults when there is no file or it
    /// could not be read or understood.
    pub fn from_stored(stored: Option<Config>) -> (c: Config)
        ensures
            c == match stored {
                Some(s) => s,
                None => default_config(),
            },
    {
        match stored {
            Some(s) => s,
            None => Config::default(),
        }
    }
}

} // verus!
