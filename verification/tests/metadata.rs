use mpris_remote::metadata::{Metadata, MetadataError, PropertyMap, PropertyValue};

const PLACEHOLDER: &str = "https://via.placeholder.com/300";

fn text(s: &str) -> PropertyValue {
    PropertyValue::Text(s.to_string())
}

fn list(items: &[&str]) -> PropertyValue {
    PropertyValue::TextList(items.iter().map(|s| s.to_string()).collect())
}

fn full() -> PropertyMap {
    let mut map = PropertyMap::new();
    map.insert("xesam:title".to_string(), text("Song"));
    map.insert("xesam:artist".to_string(), list(&["A", "B"]));
    map.insert("xesam:album".to_string(), text("Album"));
    map.insert("mpris:artUrl".to_string(), text("https://img.example/1.png"));
    map
}

#[test]
fn extract_reads_all_four_fields() {
    let record = Metadata::extract(&full());
    assert_eq!(record.title(), "Song");
    assert_eq!(record.artists(), &vec!["A".to_string(), "B".to_string()]);
    assert_eq!(record.album(), "Album");
    assert_eq!(record.artwork(), "https://img.example/1.png");
}

#[test]
fn extract_of_an_empty_map_is_all_defaults() {
    let record = Metadata::extract(&PropertyMap::new());
    assert_eq!(record.title(), "Unknown");
    assert_eq!(record.artists(), &vec!["Unknown".to_string()]);
    assert_eq!(record.album(), "Unknown");
    assert_eq!(record.artwork(), PLACEHOLDER);
}

#[test]
fn extract_defaults_exactly_the_missing_keys() {
    let keys = ["xesam:title", "xesam:artist", "xesam:album", "mpris:artUrl"];
    for mask in 0u32..16 {
        let mut map = PropertyMap::new();
        for (i, key) in keys.iter().enumerate() {
            if mask & (1 << i) != 0 {
                let value = if i == 1 { list(&["A", "B"]) } else { text(&format!("v{}", i)) };
                map.insert(key.to_string(), value);
            }
        }
        let record = Metadata::extract(&map);
        assert_eq!(record.title(), if mask & 1 != 0 { "v0" } else { "Unknown" });
        let artists = if mask & 2 != 0 {
            vec!["A".to_string(), "B".to_string()]
        } else {
            vec!["Unknown".to_string()]
        };
        assert_eq!(record.artists(), &artists);
        assert_eq!(record.album(), if mask & 4 != 0 { "v2" } else { "Unknown" });
        assert_eq!(record.artwork(), if mask & 8 != 0 { "v3" } else { PLACEHOLDER });
    }
}

#[test]
fn extract_defaults_a_value_of_the_wrong_shape() {
    let mut map = PropertyMap::new();
    map.insert("xesam:title".to_string(), list(&["not", "a", "string"]));
    map.insert("xesam:artist".to_string(), text("not a list"));
    map.insert("xesam:album".to_string(), PropertyValue::Other);
    map.insert("mpris:artUrl".to_string(), text("https://img.example/2.png"));
    let record = Metadata::extract(&map);
    assert_eq!(record.title(), "Unknown");
    assert_eq!(record.artists(), &vec!["Unknown".to_string()]);
    assert_eq!(record.album(), "Unknown");
    assert_eq!(record.artwork(), "https://img.example/2.png");
}

#[test]
fn extract_ignores_other_keys() {
    let mut map = PropertyMap::new();
    map.insert("xesam:url".to_string(), text("somewhere"));
    map.insert("Xesam:title".to_string(), text("wrong case"));
    let record = Metadata::extract(&map);
    assert_eq!(record.title(), "Unknown");
}

#[test]
fn extract_keeps_an_empty_artist_list() {
    let mut map = PropertyMap::new();
    map.insert("xesam:artist".to_string(), list(&[]));
    let record = Metadata::extract(&map);
    assert!(record.artists().is_empty());
}

#[test]
fn a_later_insert_takes_the_place_of_an_earlier_one() {
    let mut map = PropertyMap::new();
    map.insert("xesam:title".to_string(), text("first"));
    map.insert("xesam:album".to_string(), text("album"));
    map.insert("xesam:title".to_string(), text("second"));
    assert_eq!(map.get("xesam:title"), Some(&text("second")));
    assert_eq!(map.get("xesam:album"), Some(&text("album")));
    assert_eq!(map.get("xesam:artist"), None);
    assert_eq!(Metadata::extract(&map).title(), "second");
}

#[test]
fn typed_reads_say_why_they_fail() {
    let map = full();
    assert_eq!(map.text("xesam:title").unwrap(), "Song");
    assert_eq!(map.text_list("xesam:artist").unwrap(), vec!["A".to_string(), "B".to_string()]);
    assert!(matches!(map.text("xesam:genre"), Err(MetadataError::MissingKey(k)) if k == "xesam:genre"));
    assert!(matches!(
        map.text("xesam:artist"),
        Err(MetadataError::InvalidValueType(k)) if k == "xesam:artist"
    ));
    assert!(matches!(
        map.text_list("xesam:title"),
        Err(MetadataError::InvalidValueType(k)) if k == "xesam:title"
    ));
    assert!(matches!(
        map.text_list("nothing"),
        Err(MetadataError::MissingKey(k)) if k == "nothing"
    ));
}

#[test]
fn to_properties_writes_the_four_keys() {
    let record = Metadata::new(
        "Song".to_string(),
        vec!["A".to_string()],
        "Album".to_string(),
        "art".to_string(),
    );
    let map = record.to_properties();
    assert_eq!(map.get("xesam:title"), Some(&text("Song")));
    assert_eq!(map.get("xesam:artist"), Some(&list(&["A"])));
    assert_eq!(map.get("xesam:album"), Some(&text("Album")));
    assert_eq!(map.get("mpris:artUrl"), Some(&text("art")));
    assert_eq!(map.get("xesam:url"), None);
}

#[test]
fn extract_reads_back_what_to_properties_wrote() {
    let record = Metadata::new(
        "Song".to_string(),
        vec!["A".to_string(), "B".to_string()],
        "Album".to_string(),
        "art".to_string(),
    );
    let again = Metadata::extract(&record.to_properties());
    assert_eq!(again.title(), record.title());
    assert_eq!(again.artists(), record.artists());
    assert_eq!(again.album(), record.album());
    assert_eq!(again.artwork(), record.artwork());
}

#[test]
fn notification_body_joins_artists_and_album() {
    let record = Metadata::new(
        "Song".to_string(),
        vec!["A".to_string(), "B".to_string(), "C".to_string()],
        "Album".to_string(),
        "art".to_string(),
    );
    assert_eq!(record.notification_body(), "A, B, C - Album");
    let single = Metadata::extract(&PropertyMap::new());
    assert_eq!(single.notification_body(), "Unknown - Unknown");
}
