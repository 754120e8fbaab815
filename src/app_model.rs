//! The application aggregate: it owns the countdown, the reminder flag and the
//! settings, runs the pomodoro / break cycle and decides what to notify.

use std::cell::RefCell;
use std::rc::Rc;
use vstd::prelude::*;
use vstd::string::StringExecFns;
use crate::eye_check_model::{EyeCheckModel, EyeCheckMsg};
use crate::settings_model::{seconds_of, SettingsModel, SettingsMsg, MAX_MINUTES};
use crate::timer::TimerState;
use crate::timer_model::{TimerModel, TimerMsg};

verus! {

#[verifier::external_type_specification]
#[verifier::external_body]
#[verifier::reject_recursive_types(T)]
pub struct ExRefCell<T: ?Sized>(RefCell<T>);

/// A message from the driver.
#[derive(Debug, Clone, Copy, PartialEq, Eq, Structural)]
pub enum AppMsg {
    Timer(TimerMsg),
    EyeCheck(EyeCheckMsg),
    Settings(SettingsMsg),
    ShowSettings,
    HideSettings,
    SaveSettings,
    LoadSettings,
}

/// Outside work that the driver performs on the core's behalf.
#[derive(Debug, Clone, Copy, PartialEq, Eq, Structural)]
pub enum AppEffect {
    /// Write the current settings record to its file.
    SaveSettings,
    /// Read the settings record and hand it to `AppModel::settings_loaded`.
    LoadSettings,
    /// Deliver a `Tick` once per second from now on.
    StartTicking,
}

/// Size, position and state of the main window.
#[derive(Debug, Clone, Copy, PartialEq, Eq, Structural)]
pub struct WindowState {
    pub width: i32,
    pub height: i32,
    pub x: i32,
    pub y: i32,
    pub maximized: bool,
}

impl WindowState {
    /// A 400 by 300 window at the origin, not maximized.
    pub open spec fn spec_default() -> WindowState {
        WindowState { width: 400, height: 300, x: 0, y: 0, maximized: false }
    }
}

impl Default for WindowState {
    fn default() -> (w: WindowState)
        ensures
            w == WindowState::spec_default(),
    {
        WindowState { width: 400, height: 300, x: 0, y: 0, maximized: false }
    }
}

/// The three events that are announced to the user.
#[derive(Debug, Clone, Copy, PartialEq, Eq, Structural)]
pub enum Notification {
    PomodoroFinished,
    BreakFinished,
    EyeCheckDue,
}

impl Notification {
    pub open spec fn spec_text(self) -> Seq<char> {
        match self {
            Notification::PomodoroFinished => "Pomodoro session complete! Time for a break."@,
            Notification::BreakFinished => "Break time is over! Ready for another pomodoro?"@,
            Notification::EyeCheckDue =>
                "20-20-20 eye check reminder: Look at something 20 feet away for 20 seconds."@,
        }
    }

    /// The sentence shown for the event.
    pub fn text(&self) -> (t: &'static str)
        ensures
            t@ == self.spec_text(),
    {
        match self {
            Notification::PomodoroFinished => "Pomodoro session complete! Time for a break.",
            Notification::BreakFinished => "Break time is over! Ready for another pomodoro?",
            Notification::EyeCheckDue =>
                "20-20-20 eye check reminder: Look at something 20 feet away for 20 seconds.",
        }
    }
}

/// Whether the break after the `n`-th completed pomodoro is a long one: every
/// fourth is.
pub open spec fn spec_is_long_break(n: int) -> bool {
    n % 4 == 0
}

/// Whether the break after the `n`-th completed pomodoro is a long one.
pub fn is_long_break(n: u32) -> (b: bool)
    ensures
        b == spec_is_long_break(n as int),
{
    n % 4 == 0
}

/// Mathematical state of the aggregate.
pub struct AppState {
    pub timer: TimerState,
    pub eye_check_visible: bool,
    pub settings: SettingsModel,
    pub settings_visible: bool,
    pub eye_check_timer_running: bool,
    pub eye_check_interval_for_testing: Option<u64>,
    pub completed_sessions: nat,
    pub is_break_mode: bool,
    /// The list that notification texts go to, if one is set.
    pub notification_callback: Option<Rc<RefCell<Vec<String>>>>,
    pub window: WindowState,
}

impl AppState {
    /// Fresh state over `settings`: the countdown holds one pomodoro, the
    /// cycle is at work with no completed session, nothing is shown.
    pub open spec fn initial(settings: SettingsModel) -> AppState {
        AppState {
            timer: TimerState::initial().set_duration(seconds_of(settings.pomodoro_minutes) as nat),
            eye_check_visible: false,
            settings,
            settings_visible: false,
            eye_check_timer_running: false,
            eye_check_interval_for_testing: None,
            completed_sessions: 0,
            is_break_mode: false,
            notification_callback: None,
            window: WindowState::spec_default(),
        }
    }

    pub open spec fn apply(self, msg: AppMsg) -> AppState {
        match msg {
            AppMsg::Timer(m) => AppState { timer: m.apply(self.timer), ..self },
            AppMsg::EyeCheck(m) => AppState { eye_check_visible: m.visible_after(), ..self },
            AppMsg::Settings(m) => AppState { settings: m.apply(self.settings), ..self },
            AppMsg::ShowSettings => AppState { settings_visible: true, ..self },
            AppMsg::HideSettings => AppState { settings_visible: false, ..self },
            AppMsg::SaveSettings => self,
            AppMsg::LoadSettings => self,
        }
    }

    /// Minutes of the break that follows the `n`-th completed pomodoro.
    pub open spec fn break_minutes(self, n: int) -> u32 {
        if spec_is_long_break(n) {
            self.settings.long_break_minutes
        } else {
            self.settings.short_break_minutes
        }
    }

    pub open spec fn is_long_break_time(self) -> bool {
        self.is_break_mode && spec_is_long_break(self.completed_sessions as int)
    }

    /// One more session done: the cycle goes on break, and the countdown
    /// holds a long break after every fourth session, a short one otherwise.
    pub open spec fn complete_pomodoro(self) -> AppState {
        let n = self.completed_sessions + 1;
        AppState {
            completed_sessions: n,
            is_break_mode: true,
            timer: self.timer.set_duration(seconds_of(self.break_minutes(n as int)) as nat),
            ..self
        }
    }

    /// Back to work: the countdown holds a pomodoro again.
    pub open spec fn complete_break(self) -> AppState {
        AppState {
            is_break_mode: false,
            timer: self.timer.set_duration(seconds_of(self.settings.pomodoro_minutes) as nat),
            ..self
        }
    }

    /// No completed session, at work, the countdown holding a pomodoro.
    pub open spec fn reset_sessions(self) -> AppState {
        AppState {
            completed_sessions: 0,
            is_break_mode: false,
            timer: self.timer.set_duration(seconds_of(self.settings.pomodoro_minutes) as nat),
            ..self
        }
    }

    /// `k` rounds of a completed pomodoro followed by its completed break.
    pub open spec fn run_cycles(self, k: nat) -> AppState
        decreases k,
    {
        if k == 0 {
            self
        } else {
            self.complete_pomodoro().complete_break().run_cycles((k - 1) as nat)
        }
    }
}

/// Each full round of pomodoro and break adds one completed session and
/// leaves the settings alone.
pub proof fn lemma_cycles_count_sessions(s: AppState, k: nat)
    ensures
        s.run_cycles(k).completed_sessions == s.completed_sessions + k,
        s.run_cycles(k).settings == s.settings,
    decreases k,
{
    if k > 0 {
        lemma_cycles_count_sessions(s.complete_pomodoro().complete_break(), (k - 1) as nat);
    }
}

/// From no completed session, alternating completed pomodoros and completed
/// breaks: the `n`-th pomodoro sets the countdown to the long break when `n`
/// is a multiple of four (the fourth, the eighth, ...) and to the short break
/// otherwise.
pub proof fn lemma_every_fourth_break_is_long(s: AppState, n: nat)
    requires
        s.completed_sessions == 0,
        n >= 1,
    ensures
        s.run_cycles((n - 1) as nat).complete_pomodoro().timer.duration == if n % 4 == 0 {
            seconds_of(s.settings.long_break_minutes)
        } else {
            seconds_of(s.settings.short_break_minutes)
        },
        s.run_cycles((n - 1) as nat).complete_pomodoro().completed_sessions == n,
        s.run_cycles((n - 1) as nat).complete_pomodoro().timer.remaining
            == s.run_cycles((n - 1) as nat).complete_pomodoro().timer.duration,
        s.run_cycles((n - 1) as nat).complete_pomodoro().is_break_mode,
{
    lemma_cycles_count_sessions(s, (n - 1) as nat);
}

/// Whatever the state, resetting the sessions leaves none completed and the
/// cycle at work.
pub proof fn lemma_reset_returns_to_work(s: AppState)
    ensures
        s.reset_sessions().completed_sessions == 0,
        !s.reset_sessions().is_break_mode,
        !s.reset_sessions().is_long_break_time(),
{
}

/// Relies on `RefCell::try_borrow_mut`: the message is appended to the shared
/// list through the borrow it hands out, unless the list is borrowed at that
/// moment; the result says which.
#[verifier::external_body]
fn deliver(sink: &Rc<RefCell<Vec<String>>>, message: String) -> (delivered: bool) {
    match sink.try_borrow_mut() {
        Ok(mut list) => {
            list.push(message);
            true
        },
        Err(_) => false,
    }
}

/// The aggregate that the driver talks to.
pub struct AppModel {
    pub timer_model: TimerModel,
    pub eye_check_model: EyeCheckModel,
    pub settings_model: SettingsModel,
    pub settings_visible: bool,
    pub eye_check_timer_running: bool,
    /// A reminder interval in seconds that replaces the configured one.
    pub eye_check_interval_for_testing: Option<u64>,
    pub completed_sessions: u32,
    pub is_break_mode: bool,
    /// Where notification texts go; none are kept while it is absent.
    pub notification_callback: Option<Rc<RefCell<Vec<String>>>>,
    pub window_state: WindowState,
}

impl View for AppModel {
    type V = AppState;

    open spec fn view(&self) -> AppState {
        AppState {
            timer: self.timer_model@,
            eye_check_visible: self.eye_check_model.spec_visible(),
            settings: self.settings_model,
            settings_visible: self.settings_visible,
            eye_check_timer_running: self.eye_check_timer_running,
            eye_check_interval_for_testing: self.eye_check_interval_for_testing,
            completed_sessions: self.completed_sessions as nat,
            is_break_mode: self.is_break_mode,
            notification_callback: self.notification_callback,
            window: self.window_state,
        }
    }
}

impl AppModel {
    /// The aggregate over the default settings.
    pub fn init() -> (a: AppModel)
        ensures
            a@ == AppState::initial(SettingsModel::spec_default()),
    {
        AppModel::with_settings(SettingsModel::default())
    }

    /// The aggregate over `settings`, as loaded at start-up.
    pub fn with_settings(settings: SettingsModel) -> (a: AppModel)
        requires
            settings.pomodoro_minutes <= MAX_MINUTES,
        ensures
            a@ == AppState::initial(settings),
    {
        let mut timer_model = TimerModel::init();
        timer_model.set_duration(settings.get_pomodoro_duration());
        AppModel {
            timer_model,
            eye_check_model: EyeCheckModel::init(),
            settings_model: settings,
            settings_visible: false,
            eye_check_timer_running: false,
            eye_check_interval_for_testing: None,
            completed_sessions: 0,
            is_break_mode: false,
            notification_callback: None,
            window_state: WindowState::default(),
        }
    }

    pub fn get_timer_model(&self) -> (t: &TimerModel)
        ensures
            *t == self.timer_model,
    {
        &self.timer_model
    }

    pub fn get_eye_check_model(&self) -> (e: &EyeCheckModel)
        ensures
            *e == self.eye_check_model,
    {
        &self.eye_check_model
    }

    pub fn get_settings_model(&self) -> (s: &SettingsModel)
        ensures
            *s == self.settings_model,
    {
        &self.settings_model
    }

    pub fn is_settings_visible(&self) -> (b: bool)
        ensures
            b == self.settings_visible,
    {
        self.settings_visible
    }

    /// Dispatches a message to the part it is for. Saving and loading the
    /// settings are handed back to the driver as effects.
    pub fn update(&mut self, msg: AppMsg) -> (effect: Option<AppEffect>)
        ensures
            final(self)@ == old(self)@.apply(msg),
            effect == match msg {
                AppMsg::SaveSettings => Some(AppEffect::SaveSettings),
                AppMsg::LoadSettings => Some(AppEffect::LoadSettings),
                _ => None::<AppEffect>,
            },
    {
        match msg {
            AppMsg::Timer(timer_msg) => {
                self.timer_model.update(timer_msg);
                None
            },
            AppMsg::EyeCheck(eye_check_msg) => {
                self.eye_check_model.update(eye_check_msg);
                None
            },
            AppMsg::Settings(settings_msg) => {
                self.settings_model.update(settings_msg);
                None
            },
            AppMsg::ShowSettings => {
                self.settings_visible = true;
                None
            },
            AppMsg::HideSettings => {
                self.settings_visible = false;
                None
            },
            AppMsg::SaveSettings => Some(AppEffect::SaveSettings),
            AppMsg::LoadSettings => Some(AppEffect::LoadSettings),
        }
    }

    /// Takes the record that the driver read back, and sets the countdown to
    /// its pomodoro.
    pub fn settings_loaded(&mut self, settings: SettingsModel)
        requires
            settings.pomodoro_minutes <= MAX_MINUTES,
        ensures
            final(self)@ == (AppState {
                settings,
                timer: old(self)@.timer.set_duration(seconds_of(settings.pomodoro_minutes) as nat),
                ..old(self)@
            }),
    {
        self.settings_model = settings;
        self.timer_model.set_duration(settings.get_pomodoro_duration());
    }

    pub fn start_eye_check_timer(&mut self)
        ensures
            final(self)@ == (AppState { eye_check_timer_running: true, ..old(self)@ }),
    {
        self.eye_check_timer_running = true;
    }

    pub fn stop_eye_check_timer(&mut self)
        ensures
            final(self)@ == (AppState { eye_check_timer_running: false, ..old(self)@ }),
    {
        self.eye_check_timer_running = false;
    }

    pub fn is_eye_check_timer_running(&self) -> (b: bool)
        ensures
            b == self.eye_check_timer_running,
    {
        self.eye_check_timer_running
    }

    /// Replaces the configured reminder interval by `seconds`.
    pub fn set_eye_check_interval_for_testing(&mut self, seconds: u64)
        ensures
            final(self)@ == (AppState {
                eye_check_interval_for_testing: Some(seconds),
                ..old(self)@
            }),
    {
        self.eye_check_interval_for_testing = Some(seconds);
    }

    /// The reminder is due: show it.
    pub fn trigger_eye_check(&mut self)
        ensures
            final(self)@ == old(self)@.apply(AppMsg::EyeCheck(EyeCheckMsg::Show)),
    {
        self.eye_check_model.update(EyeCheckMsg::Show);
    }

    pub fn get_completed_sessions(&self) -> (n: u32)
        ensures
            n == self.completed_sessions,
    {
        self.completed_sessions
    }

    pub fn is_break_mode(&self) -> (b: bool)
        ensures
            b == self.is_break_mode,
    {
        self.is_break_mode
    }

    /// On break after a multiple of four completed sessions.
    pub fn is_long_break_time(&self) -> (b: bool)
        ensures
            b == self@.is_long_break_time(),
    {
        self.is_break_mode && is_long_break(self.completed_sessions)
    }

    /// Counts a finished pomodoro and sets the countdown to the break that
    /// follows it.
    pub fn complete_pomodoro_session(&mut self)
        requires
            old(self).completed_sessions < u32::MAX,
            old(self)@.break_minutes(old(self).completed_sessions + 1) <= MAX_MINUTES,
        ensures
            final(self)@ == old(self)@.complete_pomodoro(),
            final(self).completed_sessions == old(self).completed_sessions + 1,
            final(self).is_break_mode,
            final(self)@.timer.duration == final(self)@.timer.remaining,
            final(self)@.timer.duration == if spec_is_long_break(
                old(self).completed_sessions + 1,
            ) {
                seconds_of(old(self).settings_model.long_break_minutes)
            } else {
                seconds_of(old(self).settings_model.short_break_minutes)
            },
    {
        self.completed_sessions = self.completed_sessions + 1;
        self.is_break_mode = true;
        if self.is_long_break_time() {
            self.timer_model.set_duration(self.settings_model.get_long_break_duration());
        } else {
            self.timer_model.set_duration(self.settings_model.get_short_break_duration());
        }
    }

    /// Ends the break and sets the countdown to a pomodoro.
    pub fn complete_break(&mut self)
        requires
            old(self).settings_model.pomodoro_minutes <= MAX_MINUTES,
        ensures
            final(self)@ == old(self)@.complete_break(),
            !final(self).is_break_mode,
            final(self).completed_sessions == old(self).completed_sessions,
            final(self)@.timer.duration == final(self)@.timer.remaining,
            final(self)@.timer.duration == seconds_of(old(self).settings_model.pomodoro_minutes),
    {
        self.is_break_mode = false;
        self.timer_model.set_duration(self.settings_model.get_pomodoro_duration());
    }

    /// Back to no completed session, at work, with a pomodoro on the
    /// countdown, from any state.
    pub fn reset_sessions(&mut self)
        requires
            old(self).settings_model.pomodoro_minutes <= MAX_MINUTES,
        ensures
            final(self)@ == old(self)@.reset_sessions(),
            final(self).completed_sessions == 0,
            !final(self).is_break_mode,
            !final(self)@.is_long_break_time(),
            final(self)@.timer.duration == final(self)@.timer.remaining,
            final(self)@.timer.duration == seconds_of(old(self).settings_model.pomodoro_minutes),
    {
        self.completed_sessions = 0;
        self.is_break_mode = false;
        self.timer_model.set_duration(self.settings_model.get_pomodoro_duration());
    }

    /// Makes `callback` the list that notification texts are appended to.
    pub fn set_notification_callback(&mut self, callback: Rc<RefCell<Vec<String>>>)
        ensures
            final(self)@ == (AppState { notification_callback: Some(callback), ..old(self)@ }),
    {
        self.notification_callback = Some(callback);
    }

    /// The text to announce `kind` with, or none while notifications are off.
    pub fn notification_text(&self, kind: Notification) -> (t: Option<&'static str>)
        ensures
            t is Some <==> self.settings_model.notifications_enabled,
            t matches Some(text) ==> text@ == kind.spec_text(),
    {
        if self.settings_model.notifications_enabled {
            Some(kind.text())
        } else {
            None
        }
    }

    /// Hands the text of `kind` to the notification list, if notifications
    /// are on and a list is set; the result says whether it was taken.
    fn notify(&self, kind: Notification) -> (delivered: bool)
        ensures
            delivered ==> self@.settings.notifications_enabled && self@.notification_callback is Some,
    {
        match self.notification_text(kind) {
            Some(text) => match &self.notification_callback {
                Some(sink) => deliver(sink, String::from_str(text)),
                None => false,
            },
            None => false,
        }
    }

    /// Announces the end of a pomodoro.
    pub fn send_pomodoro_finished_notification(&mut self) -> (delivered: bool)
        ensures
            final(self)@ == old(self)@,
            delivered ==> old(self)@.settings.notifications_enabled
                && old(self)@.notification_callback is Some,
    {
        self.notify(Notification::PomodoroFinished)
    }

    /// Announces the end of a break.
    pub fn send_break_finished_notification(&mut self) -> (delivered: bool)
        ensures
            final(self)@ == old(self)@,
            delivered ==> old(self)@.settings.notifications_enabled
                && old(self)@.notification_callback is Some,
    {
        self.notify(Notification::BreakFinished)
    }

    /// Announces that an eye check is due.
    pub fn send_eye_check_notification(&mut self) -> (delivered: bool)
        ensures
            final(self)@ == old(self)@,
            delivered ==> old(self)@.settings.notifications_enabled
                && old(self)@.notification_callback is Some,
    {
        self.notify(Notification::EyeCheckDue)
    }

    pub fn set_notifications_enabled(&mut self, enabled: bool)
        ensures
            final(self)@ == old(self)@.apply(
                AppMsg::Settings(SettingsMsg::SetNotificationsEnabled(enabled)),
            ),
    {
        self.settings_model.update(SettingsMsg::SetNotificationsEnabled(enabled));
    }

    pub fn get_window_state(&self) -> (w: WindowState)
        ensures
            w == self.window_state,
    {
        self.window_state
    }

    pub fn update_window_state(&mut self, state: WindowState)
        ensures
            final(self)@ == (AppState { window: state, ..old(self)@ }),
    {
        self.window_state = state;
    }

    pub fn set_window_maximized(&mut self, maximized: bool)
        ensures
            final(self)@ == (AppState {
                window: WindowState { maximized, ..old(self)@.window },
                ..old(self)@
            }),
    {
        self.window_state.maximized = maximized;
    }
}

} // verus!
