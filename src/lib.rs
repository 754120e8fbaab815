//! Core of a Pomodoro productivity timer: a one-second countdown, the message
//! driven models around it, the pomodoro / break cycle, the user settings and
//! the eye-check reminder flag.

pub mod app_model;
pub mod eye_check_model;
pub mod main_app;
pub mod settings_model;
pub mod timer;
pub mod timer_model;

pub use app_model::{AppEffect, AppModel, AppMsg, AppState, Notification, WindowState};
pub use eye_check_model::{EyeCheckModel, EyeCheckMsg};
pub use main_app::MainApp;
pub use settings_model::{SettingsModel, SettingsMsg};
pub use timer::{TickEvent, Timer, TimerState};
pub use timer_model::{TimerModel, TimerMsg};
