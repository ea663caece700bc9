use mpris_remote::track::{format_artists, Album, Artist, Track};

fn track(name: &str, id: &str, artists: &[&str], album: &str) -> Track {
    Track {
        name: name.to_string(),
        id: id.to_string(),
        artists: artists.iter().map(|a| Artist { name: a.to_string() }).collect(),
        album: Album { name: album.to_string() },
    }
}

#[test]
fn format_with_one_artist() {
    assert_eq!(track("Song", "1", &["Max"], "X").format(), "Song by Max on X");
}

#[test]
fn format_with_two_artists() {
    assert_eq!(track("Song", "1", &["A", "B"], "X").format(), "Song by A and B on X");
}

#[test]
fn format_with_three_artists() {
    assert_eq!(track("Song", "1", &["A", "B", "C"], "X").format(), "Song by A, B and C on X");
}

#[test]
fn format_with_four_artists() {
    assert_eq!(
        track("Song", "1", &["A", "B", "C", "D"], "X").format(),
        "Song by A, B, C and D on X"
    );
}

#[test]
fn format_artists_has_no_outer_separator() {
    for names in [vec!["A"], vec!["A", "B"], vec!["A", "B", "C"], vec!["Q", "R", "S", "T"]] {
        let owned: Vec<String> = names.iter().map(|n| n.to_string()).collect();
        let phrase = format_artists(&owned);
        assert!(phrase.starts_with(names[0]));
        assert!(phrase.ends_with(names[names.len() - 1]));
        let ands = phrase.matches(" and ").count();
        assert_eq!(ands, if names.len() >= 2 { 1 } else { 0 });
        let commas = phrase.matches(", ").count();
        assert_eq!(commas, names.len().saturating_sub(2));
    }
}

#[test]
fn format_artists_goes_by_the_count_of_names() {
    let names = vec![String::new(), "B".to_string()];
    assert_eq!(format_artists(&names), " and B");
}

#[test]
fn artist_names_keeps_the_order() {
    let t = track("Song", "1", &["A", "B", "C"], "X");
    assert_eq!(t.artist_names(), vec!["A".to_string(), "B".to_string(), "C".to_string()]);
}
