//! Decisions behind the end-of-interval actions of a work/break timer.

pub mod event;
pub mod json;
pub mod platform;
pub mod sound;
pub mod supervisor;

pub use event::{start_end_event, start_end_event_with_duration, EndEvent, Task};
pub use json::{from_json, to_json, JsonError};
pub use platform::{
    is_screen_locked, is_screen_locked_linux, is_screen_locked_macos, is_screen_locked_windows,
    lock_screen, lock_screen_on_linux, lock_screen_on_macos, lock_screen_on_windows, Command,
    LockResult, Outcome, Platform, Step,
};
pub use sound::{play_sound, SoundStep};
pub use supervisor::{
    continuously_lock_screen, Monitor, MonitorAction, MonitorEvent, MonitorPhase, RunAction,
    RunPhase, SupervisionRun, Timing,
};
