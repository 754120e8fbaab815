//! User settings: durations in minutes and two feature toggles.

use vstd::prelude::*;

verus! {

/// The largest number of minutes whose count of seconds fits in a `u32`
/// (the floor of `u32::MAX / 60`).
pub const MAX_MINUTES: u32 = 71582788;

/// Seconds in `minutes` minutes.
pub open spec fn seconds_of(minutes: u32) -> int {
    minutes * 60
}

/// A change to one setting.
#[derive(Debug, Clone, Copy, PartialEq, Eq, Structural)]
pub enum SettingsMsg {
    SetPomodoroMinutes(u32),
    SetShortBreakMinutes(u32),
    SetLongBreakMinutes(u32),
    SetEyeCheckEnabled(bool),
    SetEyeCheckInterval(u32),
    SetNotificationsEnabled(bool),
}

/// The configuration record. Values are taken as given, without range checks.
#[derive(Debug, Clone, Copy, PartialEq, Eq, Structural)]
pub struct SettingsModel {
    pub pomodoro_minutes: u32,
    pub short_break_minutes: u32,
    pub long_break_minutes: u32,
    pub eye_check_enabled: bool,
    /// Minutes between two eye-check reminders.
    pub eye_check_interval: u32,
    pub notifications_enabled: bool,
}

impl SettingsMsg {
    /// The record after the change: the one field named by the message is set.
    pub open spec fn apply(self, s: SettingsModel) -> SettingsModel {
        match self {
            SettingsMsg::SetPomodoroMinutes(m) => SettingsModel { pomodoro_minutes: m, ..s },
            SettingsMsg::SetShortBreakMinutes(m) => SettingsModel { short_break_minutes: m, ..s },
            SettingsMsg::SetLongBreakMinutes(m) => SettingsModel { long_break_minutes: m, ..s },
            SettingsMsg::SetEyeCheckEnabled(b) => SettingsModel { eye_check_enabled: b, ..s },
            SettingsMsg::SetEyeCheckInterval(m) => SettingsModel { eye_check_interval: m, ..s },
            SettingsMsg::SetNotificationsEnabled(b) => SettingsModel {
                notifications_enabled: b,
                ..s
            },
        }
    }
}

impl SettingsModel {
    /// 25 / 5 / 15 minutes, an eye check every 20 minutes, both toggles on.
    pub open spec fn spec_default() -> SettingsModel {
        SettingsModel {
            pomodoro_minutes: 25,
            short_break_minutes: 5,
            long_break_minutes: 15,
            eye_check_enabled: true,
            eye_check_interval: 20,
            notifications_enabled: true,
        }
    }

    /// The default record.
    pub fn init() -> (s: SettingsModel)
        ensures
            s == SettingsModel::spec_default(),
    {
        SettingsModel::default()
    }

    /// The record that was read back, or the defaults where none could be.
    pub fn loaded_or_default(found: Option<SettingsModel>) -> (s: SettingsModel)
        ensures
            s == match found {
                Some(f) => f,
                None => SettingsModel::spec_default(),
            },
    {
        match found {
            Some(f) => f,
            None => SettingsModel::default(),
        }
    }

    pub fn get_pomodoro_duration(&self) -> (r: u32)
        requires
            self.pomodoro_minutes <= MAX_MINUTES,
        ensures
            r == seconds_of(self.pomodoro_minutes),
    {
        self.pomodoro_minutes * 60
    }

    pub fn get_short_break_duration(&self) -> (r: u32)
        requires
            self.short_break_minutes <= MAX_MINUTES,
        ensures
            r == seconds_of(self.short_break_minutes),
    {
        self.short_break_minutes * 60
    }

    pub fn get_long_break_duration(&self) -> (r: u32)
        requires
            self.long_break_minutes <= MAX_MINUTES,
        ensures
            r == seconds_of(self.long_break_minutes),
    {
        self.long_break_minutes * 60
    }

    pub fn get_eye_check_interval(&self) -> (r: u32)
        requires
            self.eye_check_interval <= MAX_MINUTES,
        ensures
            r == seconds_of(self.eye_check_interval),
    {
        self.eye_check_interval * 60
    }

    /// Sets the one field that the message names; no command ever comes back.
    pub fn update(&mut self, msg: SettingsMsg) -> (r: Option<()>)
        ensures
            *final(self) == msg.apply(*old(self)),
            r.is_none(),
    {
        match msg {
            SettingsMsg::SetPomodoroMinutes(minutes) => {
                self.pomodoro_minutes = minutes;
                None
            },
            SettingsMsg::SetShortBreakMinutes(minutes) => {
                self.short_break_minutes = minutes;
                None
            },
            SettingsMsg::SetLongBreakMinutes(minutes) => {
                self.long_break_minutes = minutes;
                None
            },
            SettingsMsg::SetEyeCheckEnabled(enabled) => {
                self.eye_check_enabled = enabled;
                None
            },
            SettingsMsg::SetEyeCheckInterval(minutes) => {
                self.eye_check_interval = minutes;
                None
            },
            SettingsMsg::SetNotificationsEnabled(enabled) => {
                self.notifications_enabled = enabled;
                None
            },
        }
    }
}

impl Default for SettingsModel {
    fn default() -> (s: SettingsModel)
        ensures
            s == SettingsModel::spec_default(),
    {
        SettingsModel {
            pomodoro_minutes: 25,
            short_break_minutes: 5,
            long_break_minutes: 15,
            eye_check_enabled: true,
            eye_check_interval: 20,
            notifications_enabled: true,
        }
    }
}

} // verus!
