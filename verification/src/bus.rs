//! Reading the player's metadata from a value of the bus.
//!
//! A value of the bus is opaque here. What is known of it comes from two
//! typed reads, one for each shape that a field of the record can have.

use crate::metadata::{
    album_key, artist_key, artwork_key, extracted, lemma_extract_inverts_properties,
    lemma_keys_differ, properties_of, title_key, Metadata, MetadataView, PropertyMap,
    PropertyValue, PropertyValueView,
};
use crate::text::texts;
use std::collections::HashMap;
use vstd::prelude::*;
use vstd::string::*;
use zbus::zvariant::{OwnedValue, Value};

verus! {

/// zvariant's `OwnedValue`, carried through as it is.
#[verifier::external_type_specification]
#[verifier::external_body]
pub struct ExOwnedValue(OwnedValue);

/// The strings that the typed read finds in a value of the bus, each under
/// its key: the entries of a dictionary with string keys that are strings.
pub uninterp spec fn text_entries(value: OwnedValue) -> Map<Seq<char>, Seq<char>>;

/// The sequences of strings that the typed read finds in a value of the
/// bus, each under its key: the entries of a dictionary with string keys
/// that are arrays of strings.
pub uninterp spec fn list_entries(value: OwnedValue) -> Map<Seq<char>, Seq<Seq<char>>>;

/// The entries of a value of the bus that have one of the two shapes. Where
/// both reads find something under a key, the string stands.
pub open spec fn bus_properties(value: OwnedValue) -> Map<Seq<char>, PropertyValueView> {
    Map::new(
        |key: Seq<char>|
            text_entries(value).contains_key(key) || list_entries(value).contains_key(key),
        |key: Seq<char>|
            if text_entries(value).contains_key(key) {
                PropertyValueView::Text(text_entries(value)[key])
            } else {
                PropertyValueView::TextList(list_entries(value)[key])
            },
    )
}

/// The four keys that the record is read from.
pub open spec fn known_keys() -> Set<Seq<char>> {
    set![title_key(), artist_key(), album_key(), artwork_key()]
}

/// Reads the string under `key` with zvariant: `Dict`'s conversion to a
/// `HashMap<String, Value>`, then `Value::downcast::<String>`. The contract
/// is not proved. It claims that the read depends on the value and the key
/// alone: it finds what `text_entries` holds under the key, and nothing
/// where that map has no such key.
#[verifier::external_body]
fn text_entry(value: &OwnedValue, key: &str) -> (found: Option<String>)
    ensures
        found matches Some(text) ==> text_entries(*value).contains_key(key@) && text_entries(
            *value,
        )[key@] == text@,
        found is None ==> !text_entries(*value).contains_key(key@),
{
    let entries: HashMap<String, Value<'_>> = match Value::from(value.clone()) {
        Value::Dict(dict) => dict.try_into().ok()?,
        _ => return None,
    };
    entries.get(key).cloned()?.downcast::<String>()
}

/// Reads the sequence of strings under `key` with zvariant: `Dict`'s
/// conversion to a `HashMap<String, Value>`, then
/// `Value::downcast::<Vec<String>>`. The contract is not proved. It claims
/// that the read depends on the value and the key alone: it finds what
/// `list_entries` holds under the key, and nothing where that map has no
/// such key.
#[verifier::external_body]
fn list_entry(value: &OwnedValue, key: &str) -> (found: Option<Vec<String>>)
    ensures
        found matches Some(list) ==> list_entries(*value).contains_key(key@) && list_entries(
            *value,
        )[key@] == texts(list@),
        found is None ==> !list_entries(*value).contains_key(key@),
{
    let entries: HashMap<String, Value<'_>> = match Value::from(value.clone()) {
        Value::Dict(dict) => dict.try_into().ok()?,
        _ => return None,
    };
    entries.get(key).cloned()?.downcast::<Vec<String>>()
}

/// The map that holds three strings, each under its key.
pub open spec fn three_texts(
    first: (Seq<char>, Seq<char>),
    second: (Seq<char>, Seq<char>),
    third: (Seq<char>, Seq<char>),
) -> Map<Seq<char>, Seq<char>> {
    Map::<Seq<char>, Seq<char>>::empty().insert(first.0, first.1).insert(
        second.0,
        second.1,
    ).insert(third.0, third.1)
}

/// The map that holds one sequence of strings under its key.
pub open spec fn one_list(key: Seq<char>, list: Seq<Seq<char>>) -> Map<Seq<char>, Seq<Seq<char>>> {
    Map::<Seq<char>, Seq<Seq<char>>>::empty().insert(key, list)
}

/// Builds with zvariant a dictionary of four entries: `Value::new` of each
/// string and of the list, collected in a `HashMap<String, Value>` that
/// becomes a `Dict` and then an `OwnedValue`. The contract is not proved. It
/// claims, for keys that differ from one another, that the typed reads find
/// in the result the three strings and the one list under their keys, and
/// nothing else.
#[verifier::external_body]
fn record_value(
    title: (&str, &str),
    artists: (&str, &Vec<String>),
    album: (&str, &str),
    artwork: (&str, &str),
) -> (value: OwnedValue)
    requires
        title.0@ != artists.0@,
        title.0@ != album.0@,
        title.0@ != artwork.0@,
        artists.0@ != album.0@,
        artists.0@ != artwork.0@,
        album.0@ != artwork.0@,
    ensures
        text_entries(value) == three_texts(
            (title.0@, title.1@),
            (album.0@, album.1@),
            (artwork.0@, artwork.1@),
        ),
        list_entries(value) == one_list(artists.0@, texts(artists.1@)),
{
    let mut entries: HashMap<String, Value<'static>> = HashMap::new();
    entries.insert(title.0.to_string(), Value::new(title.1.to_string()));
    entries.insert(artists.0.to_string(), Value::new(artists.1.clone()));
    entries.insert(album.0.to_string(), Value::new(album.1.to_string()));
    entries.insert(artwork.0.to_string(), Value::new(artwork.1.to_string()));
    Value::Dict(entries.into()).into()
}

/// Copies the entry under `key`, if it has one of the two shapes, into `map`.
fn read_entry(value: &OwnedValue, key: &str, map: &mut PropertyMap)
    ensures
        final(map)@ == if bus_properties(*value).contains_key(key@) {
            old(map)@.insert(key@, bus_properties(*value)[key@])
        } else {
            old(map)@
        },
{
    match text_entry(value, key) {
        Some(text) => {
            map.insert(String::from_str(key), PropertyValue::Text(text));
        },
        None => {
            match list_entry(value, key) {
                Some(list) => {
                    map.insert(String::from_str(key), PropertyValue::TextList(list));
                },
                None => {},
            }
        },
    }
}

/// Reads from a value of the bus the entries under the four known keys.
pub fn known_properties(value: &OwnedValue) -> (map: PropertyMap)
    ensures
        map@ == bus_properties(*value).restrict(known_keys()),
{
    let mut map = PropertyMap::new();
    read_entry(value, "xesam:title", &mut map);
    read_entry(value, "xesam:artist", &mut map);
    read_entry(value, "xesam:album", &mut map);
    read_entry(value, "mpris:artUrl", &mut map);
    proof {
        assert(map@ =~= bus_properties(*value).restrict(known_keys()));
    }
    map
}

impl Metadata {
    /// Reads the record from a value of the bus. Never fails: a field that
    /// the value does not hold in the field's shape gets its fixed value.
    pub fn from_value(value: &OwnedValue) -> (record: Metadata)
        ensures
            record@ == extracted(bus_properties(*value)),
    {
        let map = known_properties(value);
        proof {
            lemma_extract_reads_known_keys(bus_properties(*value));
        }
        Metadata::extract(&map)
    }

    /// Writes the record as a value of the bus: a dictionary that holds the
    /// four fields under their keys.
    pub fn to_value(&self) -> (value: OwnedValue)
        ensures
            bus_properties(value) == properties_of(self@),
    {
        proof {
            lemma_keys_differ();
        }
        let value = record_value(
            ("xesam:title", self.title().as_str()),
            ("xesam:artist", self.artists()),
            ("xesam:album", self.album().as_str()),
            ("mpris:artUrl", self.artwork().as_str()),
        );
        proof {
            assert(bus_properties(value) =~= properties_of(self@));
        }
        value
    }
}

/// A record written as a value of the bus and read again is the same record.
pub proof fn lemma_value_round_trip(record: MetadataView, value: OwnedValue)
    requires
        bus_properties(value) == properties_of(record),
    ensures
        extracted(bus_properties(value)) == record,
{
    lemma_extract_inverts_properties(record);
}

/// The record read from a map depends on the four known keys alone.
pub proof fn lemma_extract_reads_known_keys(map: Map<Seq<char>, PropertyValueView>)
    ensures
        extracted(map.restrict(known_keys())) == extracted(map),
{
}

} // verus!
