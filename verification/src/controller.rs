//! The mapping from playback actions to calls on the player's bus interface.

use vstd::prelude::*;
use vstd::string::*;

verus! {

/// What the player can be told to do.
#[derive(Clone, Debug, PartialEq, Eq)]
pub enum Action {
    Next,
    Previous,
    PlayPause,
    OpenUri(String),
}

pub enum ActionView {
    Next,
    Previous,
    PlayPause,
    OpenUri(Seq<char>),
}

impl View for Action {
    type V = ActionView;

    open spec fn view(&self) -> ActionView {
        match self {
            Action::Next => ActionView::Next,
            Action::Previous => ActionView::Previous,
            Action::PlayPause => ActionView::PlayPause,
            Action::OpenUri(uri) => ActionView::OpenUri(uri@),
        }
    }
}

/// One call on the player's interface: the method's name and its argument,
/// if it takes one.
#[derive(Clone, Debug, PartialEq, Eq)]
pub struct RemoteCall {
    pub method: String,
    pub argument: Option<String>,
}

pub struct RemoteCallView {
    pub method: Seq<char>,
    pub argument: Option<Seq<char>>,
}

impl View for RemoteCall {
    type V = RemoteCallView;

    open spec fn view(&self) -> RemoteCallView {
        RemoteCallView {
            method: self.method@,
            argument: match self.argument {
                Some(text) => Some(text@),
                None => None,
            },
        }
    }
}

/// The one call that an action stands for.
pub open spec fn call_of(action: ActionView) -> RemoteCallView {
    match action {
        ActionView::Next => RemoteCallView { method: "Next"@, argument: None },
        ActionView::Previous => RemoteCallView { method: "Previous"@, argument: None },
        ActionView::PlayPause => RemoteCallView { method: "PlayPause"@, argument: None },
        ActionView::OpenUri(uri) => RemoteCallView { method: "OpenUri"@, argument: Some(uri) },
    }
}

impl Action {
    /// The call that carries out the action. It depends on the action alone:
    /// nothing is kept from one action to the next.
    pub fn call(&self) -> (call: RemoteCall)
        ensures
            call@ == call_of(self@),
    {
        match self {
            Action::Next => RemoteCall { method: String::from_str("Next"), argument: None },
            Action::Previous => RemoteCall {
                method: String::from_str("Previous"),
                argument: None,
            },
            Action::PlayPause => RemoteCall {
                method: String::from_str("PlayPause"),
                argument: None,
            },
            Action::OpenUri(uri) => RemoteCall {
                method: String::from_str("OpenUri"),
                argument: Some(uri.clone()),
            },
        }
    }
}

/// Two actions stand for the same call only where they are the same action:
/// each action has a call of its own, whatever was asked for before.
pub proof fn lemma_call_tells_action(first: ActionView, second: ActionView)
    ensures
        call_of(first) == call_of(second) <==> first == second,
{
    reveal_strlit("Next");
    reveal_strlit("Previous");
    reveal_strlit("PlayPause");
    reveal_strlit("OpenUri");
    assert("Next"@.len() == 4);
    assert("Previous"@.len() == 8);
    assert("PlayPause"@.len() == 9);
    assert("OpenUri"@.len() == 7);
}

} // verus!
