use std::cell::RefCell;
use std::rc::Rc;

use pomodoro_timer::app_model::is_long_break;
use pomodoro_timer::{
    AppEffect, AppModel, AppMsg, MainApp, Notification, SettingsModel, SettingsMsg, TickEvent,
    Timer, TimerModel, TimerMsg, WindowState,
};

#[test]
fn set_duration_then_remaining_gives_the_duration() {
    for d in [0u32, 1, 59, 1500, u32::MAX] {
        let mut timer = Timer::new();
        timer.set_duration(7);
        timer.start();
        timer.tick();
        timer.set_duration(d);
        assert_eq!(timer.get_remaining(), d);
        assert_eq!(timer.get_duration(), d);
    }
}

#[test]
fn paused_tick_leaves_remaining_alone() {
    let mut timer = Timer::new();
    timer.set_duration(30);
    assert_eq!(timer.tick(), TickEvent::Idle);
    assert_eq!(timer.get_remaining(), 30);
    timer.start();
    timer.tick();
    timer.pause();
    assert_eq!(timer.tick(), TickEvent::Idle);
    assert_eq!(timer.get_remaining(), 29);
}

#[test]
fn tick_at_zero_does_nothing() {
    let mut timer = Timer::new();
    timer.start();
    assert_eq!(timer.tick(), TickEvent::Idle);
    assert_eq!(timer.get_remaining(), 0);
    assert!(timer.is_running());
}

#[test]
fn last_second_finishes_once() {
    let mut timer = Timer::new();
    timer.set_duration(1);
    let finished = Rc::new(RefCell::new(0u32));
    let finished_clone = finished.clone();
    timer.on_finished(move || {
        *finished_clone.borrow_mut() += 1;
    });
    timer.start();
    assert_eq!(timer.tick(), TickEvent::Finished);
    assert_eq!(timer.get_remaining(), 0);
    assert!(!timer.is_running());
    assert_eq!(timer.tick(), TickEvent::Idle);
    assert_eq!(*finished.borrow(), 1);
}

#[test]
fn ten_second_countdown_notifies_each_second() {
    let mut timer = Timer::new();
    timer.set_duration(10);
    let ticks = Rc::new(RefCell::new(Vec::new()));
    let ticks_clone = ticks.clone();
    timer.on_tick(move |remaining| ticks_clone.borrow_mut().push(remaining));
    let finished_at = Rc::new(RefCell::new(Vec::new()));
    let finished_clone = finished_at.clone();
    let seen = ticks.clone();
    timer.on_finished(move || finished_clone.borrow_mut().push(seen.borrow().len()));
    timer.start();
    let mut events = Vec::new();
    for _ in 0..10 {
        events.push(timer.tick());
    }
    assert_eq!(timer.get_remaining(), 0);
    assert!(!timer.is_running());
    assert_eq!(*ticks.borrow(), vec![9, 8, 7, 6, 5, 4, 3, 2, 1, 0]);
    assert_eq!(*finished_at.borrow(), vec![10]);
    assert_eq!(events[0], TickEvent::Ticked(9));
    assert_eq!(events[8], TickEvent::Ticked(1));
    assert_eq!(events[9], TickEvent::Finished);
}

#[test]
fn a_new_subscriber_replaces_the_old_one() {
    let mut timer = Timer::new();
    timer.set_duration(5);
    let first = Rc::new(RefCell::new(0u32));
    let second = Rc::new(RefCell::new(0u32));
    let first_clone = first.clone();
    let second_clone = second.clone();
    timer.on_tick(move |_| *first_clone.borrow_mut() += 1);
    timer.on_tick(move |_| *second_clone.borrow_mut() += 1);
    timer.start();
    timer.tick();
    assert_eq!(*first.borrow(), 0);
    assert_eq!(*second.borrow(), 1);
}

#[test]
fn reset_restores_the_duration_after_ticks() {
    let mut model = TimerModel::init();
    model.set_duration(3);
    model.update(TimerMsg::Start);
    model.update(TimerMsg::Tick);
    model.update(TimerMsg::Tick);
    assert_eq!(model.get_remaining(), 1);
    model.update(TimerMsg::Reset);
    assert_eq!(model.get_remaining(), 3);
    assert_eq!(model.get_duration(), 3);
    assert!(!model.is_running());
}

#[test]
fn clock_text_pads_minutes_and_seconds() {
    assert_eq!(TimerModel::format_time(1500), "25:00");
    assert_eq!(TimerModel::format_time(1499), "24:59");
    assert_eq!(TimerModel::format_time(0), "00:00");
    assert_eq!(TimerModel::format_time(65), "01:05");
    assert_eq!(TimerModel::format_time(6005), "100:05");
    assert_eq!(TimerModel::format_time(u32::MAX), "71582788:15");
}

#[test]
fn default_settings_give_the_default_durations() {
    let settings = SettingsModel::default();
    assert_eq!(settings.get_pomodoro_duration(), 1500);
    assert_eq!(settings.get_short_break_duration(), 300);
    assert_eq!(settings.get_long_break_duration(), 900);
    assert_eq!(settings.get_eye_check_interval(), 1200);
}

#[test]
fn durations_convert_minutes_to_seconds() {
    let mut settings = SettingsModel::init();
    settings.update(SettingsMsg::SetShortBreakMinutes(7));
    settings.update(SettingsMsg::SetLongBreakMinutes(0));
    settings.update(SettingsMsg::SetEyeCheckInterval(71582788));
    assert_eq!(settings.get_short_break_duration(), 420);
    assert_eq!(settings.get_long_break_duration(), 0);
    assert_eq!(settings.get_eye_check_interval(), 4294967280);
    assert_eq!(settings.pomodoro_minutes, 25);
}

#[test]
fn missing_settings_fall_back_to_defaults() {
    assert_eq!(SettingsModel::loaded_or_default(None), SettingsModel::default());
    let mut custom = SettingsModel::default();
    custom.update(SettingsMsg::SetPomodoroMinutes(50));
    assert_eq!(SettingsModel::loaded_or_default(Some(custom)), custom);
}

#[test]
fn every_fourth_break_is_long_over_eight_sessions() {
    let mut app = AppModel::init();
    app.update(AppMsg::Settings(SettingsMsg::SetShortBreakMinutes(4)));
    app.update(AppMsg::Settings(SettingsMsg::SetLongBreakMinutes(21)));
    for n in 1..=8u32 {
        app.complete_pomodoro_session();
        let expected = if n % 4 == 0 { 21 * 60 } else { 4 * 60 };
        assert_eq!(app.get_timer_model().get_duration(), expected);
        assert_eq!(app.get_completed_sessions(), n);
        app.complete_break();
        assert_eq!(app.get_timer_model().get_duration(), 1500);
    }
}

#[test]
fn long_break_predicate() {
    assert!(is_long_break(0));
    assert!(!is_long_break(1));
    assert!(!is_long_break(3));
    assert!(is_long_break(4));
    assert!(is_long_break(8));
    assert!(!is_long_break(9));
}

#[test]
fn reset_sessions_from_break_returns_to_work() {
    let mut app = AppModel::init();
    app.complete_pomodoro_session();
    app.complete_pomodoro_session();
    assert!(app.is_break_mode());
    app.reset_sessions();
    assert_eq!(app.get_completed_sessions(), 0);
    assert!(!app.is_break_mode());
    assert_eq!(app.get_timer_model().get_duration(), 1500);
    app.reset_sessions();
    assert_eq!(app.get_completed_sessions(), 0);
    assert!(!app.is_break_mode());
}

#[test]
fn saving_and_loading_are_handed_to_the_driver() {
    let mut app = AppModel::init();
    assert_eq!(app.update(AppMsg::SaveSettings), Some(AppEffect::SaveSettings));
    assert_eq!(app.update(AppMsg::LoadSettings), Some(AppEffect::LoadSettings));
    assert_eq!(app.update(AppMsg::ShowSettings), None);
    let mut loaded = SettingsModel::default();
    loaded.update(SettingsMsg::SetPomodoroMinutes(40));
    app.settings_loaded(loaded);
    assert_eq!(app.get_settings_model().pomodoro_minutes, 40);
    assert_eq!(app.get_timer_model().get_duration(), 2400);
    assert_eq!(app.get_timer_model().get_remaining(), 2400);
}

#[test]
fn notifications_need_a_list() {
    let mut app = AppModel::init();
    assert!(!app.send_pomodoro_finished_notification());
    let list = Rc::new(RefCell::new(Vec::new()));
    app.set_notification_callback(list.clone());
    assert!(app.send_break_finished_notification());
    assert_eq!(list.borrow().len(), 1);
    assert_eq!(list.borrow()[0], "Break time is over! Ready for another pomodoro?");
    app.update(AppMsg::Settings(SettingsMsg::SetNotificationsEnabled(false)));
    assert!(!app.send_eye_check_notification());
    assert_eq!(list.borrow().len(), 1);
}

#[test]
fn notification_texts() {
    let app = AppModel::init();
    assert_eq!(
        app.notification_text(Notification::PomodoroFinished),
        Some("Pomodoro session complete! Time for a break.")
    );
    assert_eq!(
        app.notification_text(Notification::EyeCheckDue),
        Some("20-20-20 eye check reminder: Look at something 20 feet away for 20 seconds.")
    );
    let mut quiet = AppModel::init();
    quiet.set_notifications_enabled(false);
    assert_eq!(quiet.notification_text(Notification::BreakFinished), None);
}

#[test]
fn window_state_defaults_and_updates() {
    let mut app = AppModel::init();
    assert_eq!(app.get_window_state(), WindowState::default());
    assert_eq!(app.get_window_state().width, 400);
    assert_eq!(app.get_window_state().height, 300);
    app.update_window_state(WindowState { width: 600, height: 450, x: 100, y: 50, maximized: false });
    app.set_window_maximized(true);
    let state = app.get_window_state();
    assert_eq!((state.width, state.height, state.x, state.y), (600, 450, 100, 50));
    assert!(state.maximized);
}

#[test]
fn starting_a_stopped_timer_asks_for_ticks() {
    let mut main = MainApp::new(());
    assert!(main.is_initialized());
    assert_eq!(main.get_app_id(), "com.example.pomodoro-timer");
    assert_eq!(main.get_timer_duration(), 1500);
    assert_eq!(main.handle_timer_start(), Some(AppEffect::StartTicking));
    assert!(main.get_timer_running_state());
    assert_eq!(main.handle_timer_start(), None);
    assert_eq!(main.handle_message(AppMsg::Timer(TimerMsg::Tick)), None);
    assert_eq!(main.get_app_model().get_timer_model().get_remaining(), 1499);
    assert_eq!(main.handle_timer_pause(), None);
    assert!(!main.get_timer_running_state());
    assert_eq!(main.handle_timer_reset(), None);
    assert_eq!(main.get_app_model().get_timer_model().get_remaining(), 1500);
    assert_eq!(main.handle_message(AppMsg::SaveSettings), Some(AppEffect::SaveSettings));
}

#[test]
fn subscribers_survive_a_new_duration() {
    let mut timer = Timer::new();
    let ticks = Rc::new(RefCell::new(Vec::new()));
    let finished = Rc::new(RefCell::new(0u32));
    let ticks_clone = ticks.clone();
    let finished_clone = finished.clone();
    timer.on_tick(move |remaining| ticks_clone.borrow_mut().push(remaining));
    timer.on_finished(move || *finished_clone.borrow_mut() += 1);
    timer.set_duration(2);
    timer.start();
    timer.reset();
    timer.start();
    timer.tick();
    timer.pause();
    timer.start();
    timer.tick();
    assert_eq!(*ticks.borrow(), vec![1, 0]);
    assert_eq!(*finished.borrow(), 1);
}
