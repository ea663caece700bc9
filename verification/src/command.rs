//! The mapping from a command of the user to the work that carries it out.

use crate::controller::{Action, ActionView};
use crate::resolver::{PlayRequest, PlayRequestView};
use vstd::prelude::*;

verus! {

/// What the user can ask for.
#[derive(Clone, Debug, PartialEq, Eq)]
pub enum Command {
    Next,
    Previous,
    PlayPause,
    NowPlaying,
    PlaySong(PlayRequest),
}

pub enum CommandView {
    Next,
    Previous,
    PlayPause,
    NowPlaying,
    PlaySong(PlayRequestView),
}

impl View for Command {
    type V = CommandView;

    open spec fn view(&self) -> CommandView {
        match self {
            Command::Next => CommandView::Next,
            Command::Previous => CommandView::Previous,
            Command::PlayPause => CommandView::PlayPause,
            Command::NowPlaying => CommandView::NowPlaying,
            Command::PlaySong(request) => CommandView::PlaySong(request@),
        }
    }
}

/// The work that a command asks for.
#[derive(Clone, Debug, PartialEq, Eq)]
pub enum Task {
    /// Carry out this action on the player.
    Control(Action),
    /// Read the player's metadata and show it.
    ShowNowPlaying,
    /// Resolve this request, then open what it resolves to.
    Resolve(PlayRequest),
}

pub enum TaskView {
    Control(ActionView),
    ShowNowPlaying,
    Resolve(PlayRequestView),
}

impl View for Task {
    type V = TaskView;

    open spec fn view(&self) -> TaskView {
        match self {
            Task::Control(action) => TaskView::Control(action@),
            Task::ShowNowPlaying => TaskView::ShowNowPlaying,
            Task::Resolve(request) => TaskView::Resolve(request@),
        }
    }
}

/// The task of each command: the three plain commands are actions of the
/// same name, the others are handed on as they are.
pub open spec fn task_of(command: CommandView) -> TaskView {
    match command {
        CommandView::Next => TaskView::Control(ActionView::Next),
        CommandView::Previous => TaskView::Control(ActionView::Previous),
        CommandView::PlayPause => TaskView::Control(ActionView::PlayPause),
        CommandView::NowPlaying => TaskView::ShowNowPlaying,
        CommandView::PlaySong(request) => TaskView::Resolve(request),
    }
}

/// Says what is to be done for `command`.
pub fn dispatch(command: Command) -> (task: Task)
    ensures
        task@ == task_of(command@),
{
    match command {
        Command::Next => Task::Control(Action::Next),
        Command::Previous => Task::Control(Action::Previous),
        Command::PlayPause => Task::Control(Action::PlayPause),
        Command::NowPlaying => Task::ShowNowPlaying,
        Command::PlaySong(request) => Task::Resolve(request),
    }
}

} // verus!
