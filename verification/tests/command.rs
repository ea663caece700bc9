use mpris_remote::command::{dispatch, Command, Task};
use mpris_remote::controller::Action;
use mpris_remote::resolver::{PlayRequest, SelectionMode};

#[test]
fn plain_commands_are_actions_of_the_same_name() {
    assert_eq!(dispatch(Command::Next), Task::Control(Action::Next));
    assert_eq!(dispatch(Command::Previous), Task::Control(Action::Previous));
    assert_eq!(dispatch(Command::PlayPause), Task::Control(Action::PlayPause));
}

#[test]
fn now_playing_shows_the_metadata() {
    assert_eq!(dispatch(Command::NowPlaying), Task::ShowNowPlaying);
}

#[test]
fn play_song_hands_the_request_on() {
    let uri = PlayRequest::Uri("spotify:track:abc".to_string());
    assert_eq!(dispatch(Command::PlaySong(uri.clone())), Task::Resolve(uri));
    let search = PlayRequest::Search {
        terms: "some song".to_string(),
        mode: SelectionMode::Interactive(5),
    };
    assert_eq!(dispatch(Command::PlaySong(search.clone())), Task::Resolve(search));
}

#[test]
fn dispatch_gives_the_same_task_each_time() {
    let first = dispatch(Command::Next);
    let _ = dispatch(Command::PlayPause);
    assert_eq!(dispatch(Command::Next), first);
}
