//! The end events and their dispatch: which tasks an event stands for when it
//! is fired once, and when it is fired for a duration.

use crate::supervisor::{continuously_lock_screen, RunPhase, SupervisionRun};
use std::time::Duration;
use vstd::prelude::*;

verus! {

/// The action to take when a timed interval ends.
#[derive(Clone, Debug, PartialEq, Eq)]
pub enum EndEvent {
    /// Play a sound: the file at the path or, where the path is absent, empty
    /// or names no file, the embedded default.
    Sound { filepath_sound: Option<String> },
    /// Lock the screen.
    LockScreen,
}

/// An end event as a mathematical value: the path is the sequence of its characters.
pub enum EndEventView {
    Sound { filepath_sound: Option<Seq<char>> },
    LockScreen,
}

impl View for EndEvent {
    type V = EndEventView;

    open spec fn view(&self) -> EndEventView {
        match *self {
            EndEvent::Sound { filepath_sound: Some(path) } => EndEventView::Sound {
                filepath_sound: Some(path@),
            },
            EndEvent::Sound { filepath_sound: None } => EndEventView::Sound { filepath_sound: None },
            EndEvent::LockScreen => EndEventView::LockScreen,
        }
    }
}

/// One task of a dispatched event.
#[derive(Debug, PartialEq, Eq)]
pub enum Task {
    /// Sleep for this long.
    Sleep(Duration),
    /// Play the sound at the path, or the embedded default, to its end.
    PlaySound { filepath_sound: Option<String> },
    /// Lock the screen once.
    LockScreen,
    /// Walk through this supervised run to its end.
    Supervise(SupervisionRun),
}

/// The task that an event stands for when it is fired once.
pub open spec fn fired(end_event: EndEvent) -> Task {
    match end_event {
        EndEvent::Sound { filepath_sound } => Task::PlaySound { filepath_sound },
        EndEvent::LockScreen => Task::LockScreen,
    }
}

/// The tasks, in order, that an event stands for when it is fired for a
/// duration: a sound waits out the duration and is played then; a screen lock
/// is supervised for the whole duration.
pub open spec fn fired_for(end_event: EndEvent, duration: Duration) -> Seq<Task> {
    match end_event {
        EndEvent::Sound { filepath_sound } => seq![
            Task::Sleep(duration),
            Task::PlaySound { filepath_sound },
        ],
        EndEvent::LockScreen => seq![
            Task::Supervise(SupervisionRun { phase: RunPhase::Idle, duration }),
        ],
    }
}

fn same_path(filepath_sound: &Option<String>) -> (copy: Option<String>)
    ensures
        copy == *filepath_sound,
{
    match filepath_sound {
        Some(path) => Some(path.clone()),
        None => None,
    }
}

/// Dispatches an event that is fired once.
pub fn start_end_event(end_event: &EndEvent) -> (task: Task)
    ensures
        task == fired(*end_event),
{
    match end_event {
        EndEvent::Sound { filepath_sound } => Task::PlaySound { filepath_sound: same_path(filepath_sound) },
        EndEvent::LockScreen => Task::LockScreen,
    }
}

/// Dispatches an event that is fired for a duration.
pub fn start_end_event_with_duration(end_event: &EndEvent, duration: Duration) -> (tasks: Vec<Task>)
    ensures
        tasks@ == fired_for(*end_event, duration),
{
    match end_event {
        EndEvent::Sound { filepath_sound } => {
            vec![Task::Sleep(duration), Task::PlaySound { filepath_sound: same_path(filepath_sound) }]
        },
        EndEvent::LockScreen => {
            vec![Task::Supervise(continuously_lock_screen(duration))]
        },
    }
}

} // verus!
