//! Tracks as a search returns them, and their rendering as prose.

use crate::text::{join_first, joined, texts};
use vstd::prelude::*;
use vstd::string::*;

verus! {

/// An artist of a track.
#[derive(Clone, Debug, PartialEq, Eq)]
pub struct Artist {
    pub name: String,
}

/// The album that a track is on.
#[derive(Clone, Debug, PartialEq, Eq)]
pub struct Album {
    pub name: String,
}

/// One candidate of a search. `id` is opaque: it only means something inside
/// a playable identifier.
#[derive(Clone, Debug, PartialEq, Eq)]
pub struct Track {
    pub name: String,
    pub id: String,
    pub artists: Vec<Artist>,
    pub album: Album,
}

/// What a track holds, as character sequences.
pub struct TrackView {
    pub name: Seq<char>,
    pub id: Seq<char>,
    pub artists: Seq<Seq<char>>,
    pub album: Seq<char>,
}

/// The names of a list of artists, in order.
pub open spec fn artist_names(artists: Seq<Artist>) -> Seq<Seq<char>> {
    Seq::new(artists.len(), |i: int| artists[i].name@)
}

impl View for Track {
    type V = TrackView;

    open spec fn view(&self) -> TrackView {
        TrackView {
            name: self.name@,
            id: self.id@,
            artists: artist_names(self.artists@),
            album: self.album.name@,
        }
    }
}

/// The views of a list of tracks, in order.
pub open spec fn track_views(tracks: Seq<Track>) -> Seq<TrackView> {
    Seq::new(tracks.len(), |i: int| tracks[i]@)
}

/// The artists of a track as one phrase: a single name alone; otherwise all
/// names but the last joined with `", "`, then `" and "`, then the last name.
pub open spec fn artist_phrase(names: Seq<Seq<char>>) -> Seq<char>
    recommends
        names.len() > 0,
{
    if names.len() == 1 {
        names[0]
    } else {
        joined(names.drop_last(), ", "@) + " and "@ + names.last()
    }
}

/// `"<name> by <artist phrase> on <album>"`.
pub open spec fn track_line(track: TrackView) -> Seq<char>
    recommends
        track.artists.len() > 0,
{
    track.name + " by "@ + artist_phrase(track.artists) + " on "@ + track.album
}

/// The sum of the lengths of `parts`.
pub open spec fn total_len(parts: Seq<Seq<char>>) -> nat
    decreases parts.len(),
{
    if parts.len() == 0 {
        0
    } else {
        total_len(parts.drop_last()) + parts.last().len()
    }
}

/// Renders the artist phrase of a non-empty list of names.
pub fn format_artists(names: &Vec<String>) -> (out: String)
    requires
        names.len() > 0,
    ensures
        out@ == artist_phrase(texts(names@)),
{
    let n: usize = names.len();
    if n == 1 {
        names[0].clone()
    } else {
        let mut out = join_first(names, n - 1, ", ");
        out.append(" and ");
        out.append(names[n - 1].as_str());
        proof {
            assert(texts(names@).take(n - 1) =~= texts(names@).drop_last());
        }
        out
    }
}

impl Track {
    /// The names of the track's artists, in order.
    pub fn artist_names(&self) -> (names: Vec<String>)
        ensures
            texts(names@) == self@.artists,
    {
        let mut names: Vec<String> = Vec::new();
        let mut i: usize = 0;
        while i < self.artists.len()
            invariant
                i <= self.artists.len(),
                names.len() == i,
                forall|k: int| 0 <= k < i ==> names@[k]@ == self.artists@[k].name@,
            decreases self.artists.len() - i,
        {
            names.push(self.artists[i].name.clone());
            i += 1;
        }
        proof {
            assert(texts(names@) =~= self@.artists);
        }
        names
    }

    /// Renders the track as `"<name> by <artists> on <album>"`. A track
    /// without artists has no rendering.
    pub fn format(&self) -> (out: String)
        requires
            self.artists.len() > 0,
        ensures
            out@ == track_line(self@),
    {
        let names = self.artist_names();
        let phrase = format_artists(&names);
        let mut out = self.name.clone();
        out.append(" by ");
        out.append(phrase.as_str());
        out.append(" on ");
        out.append(self.album.name.as_str());
        out
    }
}

/// A non-empty join begins with its first part.
pub proof fn lemma_joined_starts_with_first(parts: Seq<Seq<char>>, sep: Seq<char>)
    requires
        parts.len() > 0,
    ensures
        joined(parts, sep).len() >= parts[0].len(),
        joined(parts, sep).take(parts[0].len() as int) == parts[0],
    decreases parts.len(),
{
    if parts.len() == 1 {
        assert(parts[0].take(parts[0].len() as int) =~= parts[0]);
    } else {
        lemma_joined_starts_with_first(parts.drop_last(), sep);
        let head = joined(parts.drop_last(), sep);
        assert((head + sep + parts.last()).take(parts[0].len() as int) =~= head.take(
            parts[0].len() as int,
        ));
    }
}

/// A non-empty join is as long as its parts together and one separator
/// between each two neighbours.
pub proof fn lemma_joined_len(parts: Seq<Seq<char>>, sep: Seq<char>)
    requires
        parts.len() > 0,
    ensures
        joined(parts, sep).len() == total_len(parts) + (parts.len() - 1) * sep.len(),
    decreases parts.len(),
{
    if parts.len() == 1 {
        assert(parts.drop_last().len() == 0);
        assert(total_len(parts.drop_last()) == 0);
    } else {
        lemma_joined_len(parts.drop_last(), sep);
        assert((parts.len() - 1) * sep.len() == (parts.len() - 2) * sep.len() + sep.len())
            by (nonlinear_arith);
    }
}

/// The artist phrase has no separator at either end: it begins with the
/// first name and ends with the last one.
pub proof fn lemma_phrase_has_no_outer_separator(names: Seq<Seq<char>>)
    requires
        names.len() > 0,
    ensures
        artist_phrase(names).len() >= names.first().len(),
        artist_phrase(names).len() >= names.last().len(),
        artist_phrase(names).take(names.first().len() as int) == names.first(),
        artist_phrase(names).skip(artist_phrase(names).len() - names.last().len())
            == names.last(),
{
    let phrase = artist_phrase(names);
    if names.len() == 1 {
        assert(phrase.take(phrase.len() as int) =~= phrase);
        assert(phrase.skip(0) =~= phrase);
    } else {
        let head = joined(names.drop_last(), ", "@);
        lemma_joined_starts_with_first(names.drop_last(), ", "@);
        assert(phrase.take(names[0].len() as int) =~= head.take(names[0].len() as int));
        assert(phrase.skip(phrase.len() - names.last().len()) =~= names.last());
    }
}

/// With two or more artists the phrase holds, besides the names, one
/// `" and "` and a `", "` for each name before the last two.
pub proof fn lemma_phrase_uses_and_once(names: Seq<Seq<char>>)
    requires
        names.len() >= 2,
    ensures
        artist_phrase(names) == joined(names.drop_last(), ", "@) + " and "@ + names.last(),
        artist_phrase(names).len() == total_len(names) + 5 + 2 * (names.len() - 2),
{
    reveal_strlit(", ");
    reveal_strlit(" and ");
    lemma_joined_len(names.drop_last(), ", "@);
}

} // verus!
