//! The player's metadata: a loosely typed property map as the bus hands it
//! over, and the typed record read from it.

use crate::text::{join, joined, texts};
use vstd::prelude::*;
use vstd::string::*;

verus! {

/// A value of the property map, by its shape.
#[derive(Clone, Debug, PartialEq, Eq)]
pub enum PropertyValue {
    /// A string.
    Text(String),
    /// A sequence of strings.
    TextList(Vec<String>),
    /// A value of any other shape.
    Other,
}

pub enum PropertyValueView {
    Text(Seq<char>),
    TextList(Seq<Seq<char>>),
    Other,
}

impl View for PropertyValue {
    type V = PropertyValueView;

    open spec fn view(&self) -> PropertyValueView {
        match self {
            PropertyValue::Text(text) => PropertyValueView::Text(text@),
            PropertyValue::TextList(list) => PropertyValueView::TextList(texts(list@)),
            PropertyValue::Other => PropertyValueView::Other,
        }
    }
}

/// Why a typed read of a property gave no value.
#[derive(Debug, Clone)]
pub enum MetadataError {
    /// The map has no entry under this key.
    MissingKey(String),
    /// The entry under this key has another shape than the one asked for.
    InvalidValueType(String),
}

pub enum MetadataErrorView {
    MissingKey(Seq<char>),
    InvalidValueType(Seq<char>),
}

impl View for MetadataError {
    type V = MetadataErrorView;

    open spec fn view(&self) -> MetadataErrorView {
        match self {
            MetadataError::MissingKey(key) => MetadataErrorView::MissingKey(key@),
            MetadataError::InvalidValueType(key) => MetadataErrorView::InvalidValueType(key@),
        }
    }
}

struct Property {
    key: String,
    value: PropertyValue,
}

/// A mapping from property names to values. An entry inserted later under a
/// key that is already there takes the earlier one's place.
pub struct PropertyMap {
    entries: Vec<Property>,
}

/// The value that the last entry under `key` holds.
spec fn latest(entries: Seq<Property>, key: Seq<char>) -> Option<PropertyValueView>
    decreases entries.len(),
{
    if entries.len() == 0 {
        None
    } else if entries.last().key@ == key {
        Some(entries.last().value@)
    } else {
        latest(entries.drop_last(), key)
    }
}

impl View for PropertyMap {
    type V = Map<Seq<char>, PropertyValueView>;

    closed spec fn view(&self) -> Map<Seq<char>, PropertyValueView> {
        Map::new(
            |key: Seq<char>| latest(self.entries@, key).is_some(),
            |key: Seq<char>| latest(self.entries@, key).unwrap(),
        )
    }
}

/// The string under `key`, or why there is none.
pub open spec fn text_at(map: Map<Seq<char>, PropertyValueView>, key: Seq<char>) -> Result<
    Seq<char>,
    MetadataErrorView,
> {
    if !map.contains_key(key) {
        Err(MetadataErrorView::MissingKey(key))
    } else {
        match map[key] {
            PropertyValueView::Text(text) => Ok(text),
            _ => Err(MetadataErrorView::InvalidValueType(key)),
        }
    }
}

/// The sequence of strings under `key`, or why there is none.
pub open spec fn list_at(map: Map<Seq<char>, PropertyValueView>, key: Seq<char>) -> Result<
    Seq<Seq<char>>,
    MetadataErrorView,
> {
    if !map.contains_key(key) {
        Err(MetadataErrorView::MissingKey(key))
    } else {
        match map[key] {
            PropertyValueView::TextList(list) => Ok(list),
            _ => Err(MetadataErrorView::InvalidValueType(key)),
        }
    }
}

pub open spec fn text_result_view(result: Result<String, MetadataError>) -> Result<
    Seq<char>,
    MetadataErrorView,
> {
    match result {
        Ok(text) => Ok(text@),
        Err(error) => Err(error@),
    }
}

pub open spec fn list_result_view(result: Result<Vec<String>, MetadataError>) -> Result<
    Seq<Seq<char>>,
    MetadataErrorView,
> {
    match result {
        Ok(list) => Ok(texts(list@)),
        Err(error) => Err(error@),
    }
}

/// Copies a list of strings.
pub fn copy_texts(list: &Vec<String>) -> (copy: Vec<String>)
    ensures
        texts(copy@) == texts(list@),
{
    let mut copy: Vec<String> = Vec::new();
    let mut i: usize = 0;
    while i < list.len()
        invariant
            i <= list.len(),
            copy.len() == i,
            forall|k: int| 0 <= k < i ==> copy@[k]@ == list@[k]@,
        decreases list.len() - i,
    {
        copy.push(list[i].clone());
        i += 1;
    }
    proof {
        assert(texts(copy@) =~= texts(list@));
    }
    copy
}

impl PropertyMap {
    /// A map without entries.
    pub fn new() -> (map: PropertyMap)
        ensures
            map@ == Map::<Seq<char>, PropertyValueView>::empty(),
    {
        let map = PropertyMap { entries: Vec::new() };
        proof {
            assert(map@ =~= Map::<Seq<char>, PropertyValueView>::empty());
        }
        map
    }

    /// Puts `value` under `key`.
    pub fn insert(&mut self, key: String, value: PropertyValue)
        ensures
            final(self)@ == old(self)@.insert(key@, value@),
    {
        let ghost before = self.entries@;
        self.entries.push(Property { key, value });
        proof {
            let after = self.entries@;
            assert(after.drop_last() =~= before);
            assert forall|k: Seq<char>| #[trigger]
                latest(after, k) == if k == key@ {
                    Some(value@)
                } else {
                    latest(before, k)
                } by {}
            assert(self@ =~= old(self)@.insert(key@, value@));
        }
    }

    /// The value under `key`, if there is one.
    pub fn get(&self, key: &str) -> (value: Option<&PropertyValue>)
        ensures
            match value {
                Some(found) => self@.contains_key(key@) && self@[key@] == found@,
                None => !self@.contains_key(key@),
            },
    {
        let wanted = String::from_str(key);
        let mut i: usize = self.entries.len();
        proof {
            assert(self.entries@.take(i as int) =~= self.entries@);
        }
        while i > 0
            invariant
                i <= self.entries.len(),
                wanted@ == key@,
                latest(self.entries@, key@) == latest(self.entries@.take(i as int), key@),
            decreases i,
        {
            proof {
                assert(self.entries@.take(i as int).drop_last() =~= self.entries@.take(i - 1));
            }
            if self.entries[i - 1].key == wanted {
                return Some(&self.entries[i - 1].value);
            }
            i -= 1;
        }
        None
    }

    /// Reads the string under `key`.
    pub fn text(&self, key: &str) -> (result: Result<String, MetadataError>)
        ensures
            text_result_view(result) == text_at(self@, key@),
    {
        match self.get(key) {
            None => Err(MetadataError::MissingKey(String::from_str(key))),
            Some(PropertyValue::Text(text)) => Ok(text.clone()),
            Some(_) => Err(MetadataError::InvalidValueType(String::from_str(key))),
        }
    }

    /// Reads the sequence of strings under `key`.
    pub fn text_list(&self, key: &str) -> (result: Result<Vec<String>, MetadataError>)
        ensures
            list_result_view(result) == list_at(self@, key@),
    {
        match self.get(key) {
            None => Err(MetadataError::MissingKey(String::from_str(key))),
            Some(PropertyValue::TextList(list)) => Ok(copy_texts(list)),
            Some(_) => Err(MetadataError::InvalidValueType(String::from_str(key))),
        }
    }
}

/// What is known of the track that plays now. Every field holds a value:
/// where the player gave none, a fixed one stands in.
#[derive(Debug)]
pub struct Metadata {
    title: String,
    artists: Vec<String>,
    album: String,
    artwork: String,
}

pub struct MetadataView {
    pub title: Seq<char>,
    pub artists: Seq<Seq<char>>,
    pub album: Seq<char>,
    pub artwork: Seq<char>,
}

impl View for Metadata {
    type V = MetadataView;

    closed spec fn view(&self) -> MetadataView {
        MetadataView {
            title: self.title@,
            artists: texts(self.artists@),
            album: self.album@,
            artwork: self.artwork@,
        }
    }
}

/// The key of the title.
pub open spec fn title_key() -> Seq<char> {
    "xesam:title"@
}

/// The key of the artists.
pub open spec fn artist_key() -> Seq<char> {
    "xesam:artist"@
}

/// The key of the album.
pub open spec fn album_key() -> Seq<char> {
    "xesam:album"@
}

/// The key of the artwork's address.
pub open spec fn artwork_key() -> Seq<char> {
    "mpris:artUrl"@
}

/// What stands in for a title, an artist or an album that the player did not
/// give.
pub open spec fn unknown() -> Seq<char> {
    "Unknown"@
}

/// The image that stands in for an artwork that the player did not give.
pub open spec fn placeholder_artwork() -> Seq<char> {
    "https://via.placeholder.com/300"@
}

/// The string under `key`, or `fallback` where the map holds none there.
pub open spec fn text_or(
    map: Map<Seq<char>, PropertyValueView>,
    key: Seq<char>,
    fallback: Seq<char>,
) -> Seq<char> {
    match text_at(map, key) {
        Ok(text) => text,
        Err(_) => fallback,
    }
}

/// The sequence of strings under `key`, or `fallback` where the map holds
/// none there.
pub open spec fn list_or(
    map: Map<Seq<char>, PropertyValueView>,
    key: Seq<char>,
    fallback: Seq<Seq<char>>,
) -> Seq<Seq<char>> {
    match list_at(map, key) {
        Ok(list) => list,
        Err(_) => fallback,
    }
}

/// The record that a property map gives: each field from its key where the
/// map holds a value of the field's shape there, the fixed value otherwise.
pub open spec fn extracted(map: Map<Seq<char>, PropertyValueView>) -> MetadataView {
    MetadataView {
        title: text_or(map, title_key(), unknown()),
        artists: list_or(map, artist_key(), seq![unknown()]),
        album: text_or(map, album_key(), unknown()),
        artwork: text_or(map, artwork_key(), placeholder_artwork()),
    }
}

/// The property map that holds a record: its four fields under their keys.
pub open spec fn properties_of(record: MetadataView) -> Map<Seq<char>, PropertyValueView> {
    Map::<Seq<char>, PropertyValueView>::empty().insert(
        title_key(),
        PropertyValueView::Text(record.title),
    ).insert(artist_key(), PropertyValueView::TextList(record.artists)).insert(
        album_key(),
        PropertyValueView::Text(record.album),
    ).insert(artwork_key(), PropertyValueView::Text(record.artwork))
}

/// The body of the notification that shows a record.
pub open spec fn body_text(record: MetadataView) -> Seq<char> {
    joined(record.artists, ", "@) + " - "@ + record.album
}

fn text_or_default(map: &PropertyMap, key: &str, fallback: &str) -> (text: String)
    ensures
        text@ == text_or(map@, key@, fallback@),
{
    match map.text(key) {
        Ok(text) => text,
        Err(_) => String::from_str(fallback),
    }
}

impl Metadata {
    /// A record of the four values given.
    pub fn new(title: String, artists: Vec<String>, album: String, artwork: String) -> (record:
        Metadata)
        ensures
            record@ == (MetadataView {
                title: title@,
                artists: texts(artists@),
                album: album@,
                artwork: artwork@,
            }),
    {
        Metadata { title, artists, album, artwork }
    }

    /// Reads the record from a property map. Never fails: a field whose key
    /// is missing, or holds a value of another shape, gets its fixed value.
    pub fn extract(map: &PropertyMap) -> (record: Metadata)
        ensures
            record@ == extracted(map@),
    {
        let title = text_or_default(map, "xesam:title", "Unknown");
        let artists = match map.text_list("xesam:artist") {
            Ok(list) => list,
            Err(_) => {
                let mut list: Vec<String> = Vec::new();
                list.push(String::from_str("Unknown"));
                proof {
                    assert(texts(list@) =~= seq![unknown()]);
                }
                list
            },
        };
        let album = text_or_default(map, "xesam:album", "Unknown");
        let artwork = text_or_default(map, "mpris:artUrl", "https://via.placeholder.com/300");
        Metadata { title, artists, album, artwork }
    }

    /// Writes the record as a property map.
    pub fn to_properties(&self) -> (map: PropertyMap)
        ensures
            map@ == properties_of(self@),
    {
        let mut map = PropertyMap::new();
        map.insert(String::from_str("xesam:title"), PropertyValue::Text(self.title.clone()));
        map.insert(
            String::from_str("xesam:artist"),
            PropertyValue::TextList(copy_texts(&self.artists)),
        );
        map.insert(String::from_str("xesam:album"), PropertyValue::Text(self.album.clone()));
        map.insert(String::from_str("mpris:artUrl"), PropertyValue::Text(self.artwork.clone()));
        map
    }

    pub fn title(&self) -> (title: &String)
        ensures
            title@ == self@.title,
    {
        &self.title
    }

    pub fn artists(&self) -> (artists: &Vec<String>)
        ensures
            texts(artists@) == self@.artists,
    {
        &self.artists
    }

    pub fn album(&self) -> (album: &String)
        ensures
            album@ == self@.album,
    {
        &self.album
    }

    pub fn artwork(&self) -> (artwork: &String)
        ensures
            artwork@ == self@.artwork,
    {
        &self.artwork
    }

    /// The body of the notification that shows the record: the artists
    /// joined with `", "`, then `" - "`, then the album.
    pub fn notification_body(&self) -> (body: String)
        ensures
            body@ == body_text(self@),
    {
        let mut body = join(&self.artists, ", ");
        body.append(" - ");
        body.append(self.album.as_str());
        body
    }
}

/// The four keys differ from one another.
pub proof fn lemma_keys_differ()
    ensures
        title_key() != artist_key(),
        title_key() != album_key(),
        title_key() != artwork_key(),
        artist_key() != album_key(),
        artist_key() != artwork_key(),
        album_key() != artwork_key(),
{
    reveal_strlit("xesam:title");
    reveal_strlit("xesam:artist");
    reveal_strlit("xesam:album");
    reveal_strlit("mpris:artUrl");
    assert(title_key().len() == 11);
    assert(artist_key().len() == 12);
    assert(album_key().len() == 11);
    assert(artwork_key().len() == 12);
    assert(title_key()[6] == 't' && album_key()[6] == 'a');
    assert(artist_key()[0] == 'x' && artwork_key()[0] == 'm');
}

/// Each field of the record read from a map is the value of its shape under
/// its key, and the fixed value exactly where the key is missing or holds
/// another shape.
pub proof fn lemma_extract_defaults(map: Map<Seq<char>, PropertyValueView>)
    ensures
        extracted(map).title == match text_at(map, title_key()) {
            Ok(text) => text,
            Err(_) => "Unknown"@,
        },
        extracted(map).artists == match list_at(map, artist_key()) {
            Ok(list) => list,
            Err(_) => seq!["Unknown"@],
        },
        extracted(map).album == match text_at(map, album_key()) {
            Ok(text) => text,
            Err(_) => "Unknown"@,
        },
        extracted(map).artwork == match text_at(map, artwork_key()) {
            Ok(text) => text,
            Err(_) => placeholder_artwork(),
        },
        !map.contains_key(title_key()) ==> extracted(map).title == "Unknown"@,
        !map.contains_key(artist_key()) ==> extracted(map).artists == seq!["Unknown"@],
        !map.contains_key(album_key()) ==> extracted(map).album == "Unknown"@,
        !map.contains_key(artwork_key()) ==> extracted(map).artwork == placeholder_artwork(),
{
}

/// A record written as a property map and read again is the same record.
pub proof fn lemma_extract_inverts_properties(record: MetadataView)
    ensures
        extracted(properties_of(record)) == record,
{
    lemma_keys_differ();
}

} // verus!
