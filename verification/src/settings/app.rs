//! The application's preferences panel.
use vstd::prelude::*;
use crate::settings::config::Config;

verus! {

/// The preferences the panel shows.
#[derive(Debug, Clone, Copy, PartialEq, Eq, Structural)]
pub struct State {
    pub show_sync_indicator: bool,
    pub send_typing_notifications: bool,
    pub render_markdown: bool,
    pub compact_mode: bool,
}

/// What the user did on the panel.
#[derive(Debug, Clone, Copy, PartialEq, Eq, Structural)]
pub enum Message {
    ToggleSyncIndicator(bool),
    ToggleTypingNotifications(bool),
    ToggleMarkdown(bool),
    ToggleCompactMode(bool),
    ClearCache,
}

/// What the application is to do after a message.
#[derive(Debug, Clone, Copy, PartialEq, Eq, Structural)]
pub enum Effect {
    /// A preference changed: it is to be stored and applied.
    SettingChanged,
    /// The media cache is to be cleared.
    ClearCache,
}

impl Default for State {
    fn default() -> (s: Self)
        ensures
            !s.show_sync_indicator && !s.send_typing_notifications && !s.render_markdown
                && !s.compact_mode,
    {
        State {
            show_sync_indicator: false,
            send_typing_notifications: false,
            render_markdown: false,
            compact_mode: false,
        }
    }
}

impl State {
    /// The panel showing the stored preferences.
    pub fn from_config(config: &Config) -> (s: Self)
        ensures
            s.show_sync_indicator == config.show_sync_indicator,
            s.send_typing_notifications == config.send_typing_notifications,
            s.render_markdown == config.render_markdown,
            s.compact_mode == config.compact_mode,
    {
        State {
            show_sync_indicator: config.show_sync_indicator,
            send_typing_notifications: config.send_typing_notifications,
            render_markdown: config.render_markdown,
            compact_mode: config.compact_mode,
        }
    }

    /// A toggle sets its preference; clearing the cache changes nothing here.
    pub fn update(&mut self, message: Message) -> (e: Effect)
        ensures
            *final(self) == match message {
                Message::ToggleSyncIndicator(b) => State { show_sync_indicator: b, ..*old(self) },
                Message::ToggleTypingNotifications(b) => State { send_typing_notifications: b, ..*old(self) },
                Message::ToggleMarkdown(b) => State { render_markdown: b, ..*old(self) },
                Message::ToggleCompactMode(b) => State { compact_mode: b, ..*old(self) },
                Message::ClearCache => *old(self),
            },
            e == match message {
                Message::ClearCache => Effect::ClearCache,
                _ => Effect::SettingChanged,
            },
    {
        match message {
            Message::ToggleSyncIndicator(show) => {
                self.show_sync_indicator = show;
                Effect::SettingChanged
            },
            Message::ToggleTypingNotifications(send) => {
                self.send_typing_notifications = send;
                Effect::SettingChanged
            },
            Message::ToggleMarkdown(render) => {
                self.render_markdown = render;
                Effect::SettingChanged
            },
            Message::ToggleCompactMode(compact) => {
                self.compact_mode = compact;
                Effect::SettingChanged
            },
            Message::ClearCache => Effect::ClearCache,
        }
    }
}

} // verus!
