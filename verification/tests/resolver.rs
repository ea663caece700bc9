use mpris_remote::resolver::{
    after_input, after_search, announcement, begin, candidate_line, candidate_lines,
    playable_uri, resolve_with, search_request, search_url, selection_prompt, PlayRequest, ResolveError,
    SelectionMode, Step,
};
use mpris_remote::track::{Album, Artist, Track};

fn track(n: usize) -> Track {
    Track {
        name: format!("Song {}", n),
        id: format!("id{}", n),
        artists: vec![Artist { name: format!("Artist {}", n) }],
        album: Album { name: format!("Album {}", n) },
    }
}

fn tracks(count: usize) -> Vec<Track> {
    (0..count).map(track).collect()
}

fn search(terms: &str, mode: SelectionMode) -> PlayRequest {
    PlayRequest::Search { terms: terms.to_string(), mode }
}

fn play(uri: &str, chosen: Option<usize>) -> Step {
    Step::Play { uri: uri.to_string(), chosen }
}

#[test]
fn a_uri_is_played_unchanged() {
    for uri in ["spotify:track:4uLU6hMCjMI75M1A2tKUQC", "", "not a uri at all", "sp\u{f6}tify: x "] {
        let request = PlayRequest::Uri(uri.to_string());
        assert_eq!(begin(&request), play(uri, None));
        assert_eq!(after_search(&request, &tracks(3)), Ok(play(uri, None)));
        assert_eq!(after_search(&request, &tracks(0)), Ok(play(uri, None)));
    }
}

#[test]
fn a_search_begins_with_its_terms() {
    let request = search("never gonna", SelectionMode::First);
    assert_eq!(begin(&request), Step::Search("never gonna".to_string()));
    let request = search("never gonna", SelectionMode::Interactive(5));
    assert_eq!(begin(&request), Step::Search("never gonna".to_string()));
}

#[test]
fn an_empty_result_is_no_track_found() {
    let request = search("nothing here", SelectionMode::First);
    assert_eq!(
        after_search(&request, &tracks(0)),
        Err(ResolveError::NoTrackFound("nothing here".to_string()))
    );
    let request = search("nothing here", SelectionMode::Interactive(3));
    assert_eq!(
        after_search(&request, &tracks(0)),
        Err(ResolveError::NoTrackFound("nothing here".to_string()))
    );
}

#[test]
fn first_mode_plays_the_first_candidate() {
    let request = search("song", SelectionMode::First);
    assert_eq!(after_search(&request, &tracks(4)), Ok(play("spotify:track:id0", Some(0))));
    assert_eq!(after_search(&request, &tracks(1)), Ok(play("spotify:track:id0", Some(0))));
}

#[test]
fn interactive_mode_presents_three_of_five() {
    let request = search("song", SelectionMode::Interactive(3));
    let results = tracks(5);
    assert_eq!(after_search(&request, &results), Ok(Step::Prompt(3)));
    let lines = candidate_lines(&results, 3);
    assert_eq!(
        lines,
        vec![
            "0 - Song 0 by Artist 0 on Album 0".to_string(),
            "1 - Song 1 by Artist 1 on Album 1".to_string(),
            "2 - Song 2 by Artist 2 on Album 2".to_string(),
        ]
    );
    for i in 0..3 {
        let uri = format!("spotify:track:{}", results[i].id);
        assert_eq!(after_input(&results, &format!("{}\n", i)), Ok(play(&uri, Some(i))));
    }
    assert_eq!(after_input(&results, "5\n"), Err(ResolveError::SelectionInput));
}

#[test]
fn interactive_mode_presents_no_more_than_there_are() {
    let results = tracks(2);
    assert_eq!(
        after_search(&search("song", SelectionMode::Interactive(5)), &results),
        Ok(Step::Prompt(2))
    );
    assert_eq!(
        after_search(&search("song", SelectionMode::Interactive(2)), &results),
        Ok(Step::Prompt(2))
    );
    assert_eq!(
        after_search(&search("song", SelectionMode::Interactive(0)), &results),
        Ok(Step::Prompt(0))
    );
    assert_eq!(candidate_lines(&results, 0), Vec::<String>::new());
}

#[test]
fn the_index_counts_through_the_whole_result() {
    let results = tracks(5);
    assert_eq!(after_input(&results, "4"), Ok(play("spotify:track:id4", Some(4))));
    assert_eq!(after_input(&results, "  +2  "), Ok(play("spotify:track:id2", Some(2))));
}

#[test]
fn a_line_that_names_no_candidate_is_refused() {
    let results = tracks(5);
    for line in ["", "\n", "five", "-1", "5", "6", "1.5", "1 2", "99999999999999999999999999"] {
        assert_eq!(after_input(&results, line), Err(ResolveError::SelectionInput));
    }
    assert_eq!(after_input(&tracks(0), "0"), Err(ResolveError::SelectionInput));
}

#[test]
fn playable_uri_has_the_fixed_scheme() {
    assert_eq!(playable_uri(&track(7)), "spotify:track:id7");
    let mut odd = track(1);
    odd.id = String::new();
    assert_eq!(playable_uri(&odd), "spotify:track:");
}

#[test]
fn search_url_encodes_the_spaces() {
    assert_eq!(
        search_url("never gonna give you up"),
        "https://spotify-search-api-test.herokuapp.com/search/tracks?track=never%20gonna%20give%20you%20up"
    );
    assert_eq!(
        search_url(""),
        "https://spotify-search-api-test.herokuapp.com/search/tracks?track="
    );
}

#[test]
fn search_request_joins_the_words() {
    let words = vec!["never".to_string(), "gonna".to_string()];
    assert_eq!(
        search_request(&words, false, 5),
        search("never gonna", SelectionMode::First)
    );
    assert_eq!(
        search_request(&words, true, 3),
        search("never gonna", SelectionMode::Interactive(3))
    );
    assert_eq!(search_request(&Vec::new(), false, 5), search("", SelectionMode::First));
}

#[test]
fn candidate_line_numbers_the_track() {
    assert_eq!(candidate_line(12, &track(3)), "12 - Song 3 by Artist 3 on Album 3");
}

#[test]
fn announcement_names_the_track() {
    assert_eq!(announcement(&track(2)), "Playing Song 2 by Artist 2 on Album 2");
}

#[test]
fn messages_for_the_user() {
    assert_eq!(selection_prompt(), "Enter a number to play: ");
    assert_eq!(
        ResolveError::NoTrackFound("abc def".to_string()).message(),
        "No track found for abc def"
    );
    assert_eq!(ResolveError::SelectionInput.message(), "Not the number of a listed track");
}

#[test]
fn the_number_shown_selects_its_candidate() {
    let results = tracks(12);
    let lines = candidate_lines(&results, 12);
    for (i, line) in lines.iter().enumerate() {
        let shown = line.split(" - ").next().unwrap();
        let uri = format!("spotify:track:id{}", i);
        assert_eq!(after_input(&results, shown), Ok(play(&uri, Some(i))));
    }
}

#[test]
fn the_line_read_is_never_followed_by_another_prompt() {
    let results = tracks(3);
    for line in ["0", "1", "2", "3", "", "x", " 1 "] {
        let outcome = after_input(&results, line);
        assert!(matches!(outcome, Ok(Step::Play { .. }) | Err(ResolveError::SelectionInput)));
    }
}

#[test]
fn resolve_with_returns_a_uri_unchanged() {
    for uri in ["spotify:track:abc", "", "anything at all"] {
        let request = PlayRequest::Uri(uri.to_string());
        assert_eq!(resolve_with(&request, &tracks(0), ""), Ok(uri.to_string()));
        assert_eq!(resolve_with(&request, &tracks(4), "2"), Ok(uri.to_string()));
    }
}

#[test]
fn resolve_with_an_empty_result_finds_no_track() {
    let request = search("lost song", SelectionMode::First);
    assert_eq!(
        resolve_with(&request, &tracks(0), ""),
        Err(ResolveError::NoTrackFound("lost song".to_string()))
    );
    let request = search("lost song", SelectionMode::Interactive(3));
    assert_eq!(
        resolve_with(&request, &tracks(0), "0"),
        Err(ResolveError::NoTrackFound("lost song".to_string()))
    );
}

#[test]
fn resolve_with_first_mode_needs_no_line() {
    let request = search("song", SelectionMode::First);
    assert_eq!(resolve_with(&request, &tracks(3), ""), Ok("spotify:track:id0".to_string()));
    assert_eq!(resolve_with(&request, &tracks(3), "2"), Ok("spotify:track:id0".to_string()));
}

#[test]
fn resolve_with_three_of_five_presented() {
    let request = search("song", SelectionMode::Interactive(3));
    let results = tracks(5);
    for i in 0..3 {
        assert_eq!(
            resolve_with(&request, &results, &i.to_string()),
            Ok(format!("spotify:track:{}", results[i].id))
        );
    }
    assert_eq!(resolve_with(&request, &results, "5"), Err(ResolveError::SelectionInput));
    assert_eq!(resolve_with(&request, &results, "abc"), Err(ResolveError::SelectionInput));
}
