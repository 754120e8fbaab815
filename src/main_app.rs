//! The application as the window's event loop sees it.

use vstd::prelude::*;
use crate::app_model::{AppEffect, AppModel, AppMsg, AppState};
use crate::settings_model::{seconds_of, SettingsModel, MAX_MINUTES};
use crate::timer_model::TimerMsg;

verus! {

/// The aggregate, ready once constructed.
pub struct MainApp {
    app_model: AppModel,
    initialized: bool,
}

impl View for MainApp {
    type V = AppState;

    closed spec fn view(&self) -> AppState {
        self.app_model@
    }
}

impl MainApp {
    pub closed spec fn spec_initialized(&self) -> bool {
        self.initialized
    }

    /// The effect that the window's loop performs after `msg` was applied to
    /// a state in which the countdown was running or not: a start of a
    /// stopped countdown calls for a source of ticks.
    pub open spec fn effect_of(msg: AppMsg, was_running: bool) -> Option<AppEffect> {
        match msg {
            AppMsg::Timer(TimerMsg::Start) => if was_running {
                None
            } else {
                Some(AppEffect::StartTicking)
            },
            AppMsg::SaveSettings => Some(AppEffect::SaveSettings),
            AppMsg::LoadSettings => Some(AppEffect::LoadSettings),
            _ => None,
        }
    }

    /// The application over the default settings.
    pub fn new(_init_data: ()) -> (m: MainApp)
        ensures
            m@ == AppState::initial(SettingsModel::spec_default()),
            m.spec_initialized(),
    {
        MainApp { app_model: AppModel::init(), initialized: true }
    }

    /// The application over the settings read at start-up.
    pub fn with_settings(settings: SettingsModel) -> (m: MainApp)
        requires
            settings.pomodoro_minutes <= MAX_MINUTES,
        ensures
            m@ == AppState::initial(settings),
            m.spec_initialized(),
    {
        MainApp { app_model: AppModel::with_settings(settings), initialized: true }
    }

    pub fn is_initialized(&self) -> (b: bool)
        ensures
            b == self.spec_initialized(),
    {
        self.initialized
    }

    pub fn get_app_id(&self) -> (id: &'static str)
        ensures
            id@ == "com.example.pomodoro-timer"@,
    {
        "com.example.pomodoro-timer"
    }

    pub fn get_app_model(&self) -> (a: &AppModel)
        ensures
            a@ == self@,
    {
        &self.app_model
    }

    pub fn get_timer_running_state(&self) -> (b: bool)
        ensures
            b == self@.timer.running,
    {
        self.app_model.get_timer_model().is_running()
    }

    pub fn get_timer_duration(&self) -> (d: u32)
        ensures
            d == self@.timer.duration,
    {
        self.app_model.get_timer_model().get_duration()
    }

    /// Applies `message` and says what outside work it calls for.
    pub fn handle_message(&mut self, message: AppMsg) -> (effect: Option<AppEffect>)
        ensures
            final(self)@ == old(self)@.apply(message),
            final(self).spec_initialized() == old(self).spec_initialized(),
            effect == MainApp::effect_of(message, old(self)@.timer.running),
    {
        let was_running = self.app_model.get_timer_model().is_running();
        let effect = self.app_model.update(message);
        match message {
            AppMsg::Timer(TimerMsg::Start) => if was_running {
                None
            } else {
                Some(AppEffect::StartTicking)
            },
            _ => effect,
        }
    }

    pub fn handle_timer_start(&mut self) -> (effect: Option<AppEffect>)
        ensures
            final(self)@ == old(self)@.apply(AppMsg::Timer(TimerMsg::Start)),
            final(self).spec_initialized() == old(self).spec_initialized(),
            effect == MainApp::effect_of(AppMsg::Timer(TimerMsg::Start), old(self)@.timer.running),
    {
        self.handle_message(AppMsg::Timer(TimerMsg::Start))
    }

    pub fn handle_timer_pause(&mut self) -> (effect: Option<AppEffect>)
        ensures
            final(self)@ == old(self)@.apply(AppMsg::Timer(TimerMsg::Pause)),
            final(self).spec_initialized() == old(self).spec_initialized(),
            effect.is_none(),
    {
        self.handle_message(AppMsg::Timer(TimerMsg::Pause))
    }

    pub fn handle_timer_reset(&mut self) -> (effect: Option<AppEffect>)
        ensures
            final(self)@ == old(self)@.apply(AppMsg::Timer(TimerMsg::Reset)),
            final(self).spec_initialized() == old(self).spec_initialized(),
            effect.is_none(),
    {
        self.handle_message(AppMsg::Timer(TimerMsg::Reset))
    }

    /// Takes the settings record that the driver read back.
    pub fn settings_loaded(&mut self, settings: SettingsModel)
        requires
            settings.pomodoro_minutes <= MAX_MINUTES,
        ensures
            final(self)@ == (AppState {
                settings,
                timer: old(self)@.timer.set_duration(
                    seconds_of(settings.pomodoro_minutes) as nat,
                ),
                ..old(self)@
            }),
            final(self).spec_initialized() == old(self).spec_initialized(),
    {
        self.app_model.settings_loaded(settings);
    }
}

} // verus!
