//! Resolution of a play request into one playable identifier.
//!
//! The resolver does no work on the outside itself. Each function here takes
//! what has happened so far and says what is to happen next: the caller runs
//! the search or reads the line, and comes back with the answer.

use crate::text::{
    decimal_string, decimal_text, encode_spaces, join, joined, lemma_parse_reads_decimal_text,
    parse_index, parsed_index, spaces_encoded, texts,
};
use crate::track::{track_line, track_views, Track, TrackView};
use vstd::prelude::*;
use vstd::string::*;

verus! {

/// How one candidate is picked from a search result.
#[derive(Clone, Copy, Debug, PartialEq, Eq)]
pub enum SelectionMode {
    /// The most relevant candidate.
    First,
    /// The user picks among at most this many candidates.
    Interactive(usize),
}

/// What is to be played: an identifier given outright, or what a search
/// finds.
#[derive(Clone, Debug, PartialEq, Eq)]
pub enum PlayRequest {
    /// A playable identifier, taken as it is.
    Uri(String),
    /// Free text to search for.
    Search { terms: String, mode: SelectionMode },
}

pub enum PlayRequestView {
    Uri(Seq<char>),
    Search { terms: Seq<char>, mode: SelectionMode },
}

impl View for PlayRequest {
    type V = PlayRequestView;

    open spec fn view(&self) -> PlayRequestView {
        match self {
            PlayRequest::Uri(uri) => PlayRequestView::Uri(uri@),
            PlayRequest::Search { terms, mode } => PlayRequestView::Search {
                terms: terms@,
                mode: *mode,
            },
        }
    }
}

/// Why a request resolved to nothing.
#[derive(Clone, Debug, PartialEq, Eq)]
pub enum ResolveError {
    /// The search for these terms came back empty.
    NoTrackFound(String),
    /// The line read names no candidate.
    SelectionInput,
}

pub enum ResolveErrorView {
    NoTrackFound(Seq<char>),
    SelectionInput,
}

impl View for ResolveError {
    type V = ResolveErrorView;

    open spec fn view(&self) -> ResolveErrorView {
        match self {
            ResolveError::NoTrackFound(terms) => ResolveErrorView::NoTrackFound(terms@),
            ResolveError::SelectionInput => ResolveErrorView::SelectionInput,
        }
    }
}

/// What the caller is to do next.
#[derive(Clone, Debug, PartialEq, Eq)]
pub enum Step {
    /// Hand `uri` to the player. `chosen` is the index of the candidate that
    /// it was made from, where it came from a search.
    Play { uri: String, chosen: Option<usize> },
    /// Search for these terms, then come back with the result.
    Search(String),
    /// Present this many candidates from the front of the result, numbered
    /// from 0, read one line, then come back with it.
    Prompt(usize),
}

pub enum StepView {
    Play { uri: Seq<char>, chosen: Option<usize> },
    Search(Seq<char>),
    Prompt(usize),
}

impl View for Step {
    type V = StepView;

    open spec fn view(&self) -> StepView {
        match self {
            Step::Play { uri, chosen } => StepView::Play { uri: uri@, chosen: *chosen },
            Step::Search(terms) => StepView::Search(terms@),
            Step::Prompt(count) => StepView::Prompt(*count),
        }
    }
}

pub open spec fn outcome_view(outcome: Result<Step, ResolveError>) -> Result<
    StepView,
    ResolveErrorView,
> {
    match outcome {
        Ok(step) => Ok(step@),
        Err(error) => Err(error@),
    }
}

pub open spec fn resolved_view(outcome: Result<String, ResolveError>) -> Result<
    Seq<char>,
    ResolveErrorView,
> {
    match outcome {
        Ok(uri) => Ok(uri@),
        Err(error) => Err(error@),
    }
}

/// The playable identifier of the track with this id.
pub open spec fn playable(id: Seq<char>) -> Seq<char> {
    "spotify:track:"@ + id
}

/// The step that a request begins with: an identifier is played as it is,
/// terms are searched for.
pub open spec fn opening_step(request: PlayRequestView) -> StepView {
    match request {
        PlayRequestView::Uri(uri) => StepView::Play { uri, chosen: None },
        PlayRequestView::Search { terms, mode } => StepView::Search(terms),
    }
}

/// The step that follows a search. An empty result ends the resolution;
/// otherwise the first candidate is played, or up to the limit are presented.
pub open spec fn step_after_search(request: PlayRequestView, results: Seq<TrackView>) -> Result<
    StepView,
    ResolveErrorView,
> {
    match request {
        PlayRequestView::Uri(uri) => Ok(StepView::Play { uri, chosen: None }),
        PlayRequestView::Search { terms, mode } => if results.len() == 0 {
            Err(ResolveErrorView::NoTrackFound(terms))
        } else {
            match mode {
                SelectionMode::First => Ok(
                    StepView::Play { uri: playable(results[0].id), chosen: Some(0usize) },
                ),
                SelectionMode::Interactive(limit) => Ok(
                    StepView::Prompt(
                        if limit <= results.len() {
                            limit
                        } else {
                            results.len() as usize
                        },
                    ),
                ),
            }
        },
    }
}

/// The step that follows the line read: the candidate at the index that the
/// line names is played. The index counts through the whole result, in the
/// order of the search.
pub open spec fn step_after_input(results: Seq<TrackView>, input: Seq<char>) -> Result<
    StepView,
    ResolveErrorView,
> {
    match parsed_index(input) {
        Some(index) => if index < results.len() {
            Ok(
                StepView::Play {
                    uri: playable(results[index as int].id),
                    chosen: Some(index as usize),
                },
            )
        } else {
            Err(ResolveErrorView::SelectionInput)
        },
        None => Err(ResolveErrorView::SelectionInput),
    }
}

/// What a step leads to where it is the last one: the identifier to play.
pub open spec fn played(outcome: Result<StepView, ResolveErrorView>) -> Result<
    Seq<char>,
    ResolveErrorView,
> {
    match outcome {
        Ok(StepView::Play { uri, chosen }) => Ok(uri),
        Ok(_) => Err(ResolveErrorView::SelectionInput),
        Err(error) => Err(error),
    }
}

/// The whole resolution of a request, given what the search returns and
/// what the user types if asked. An identifier needs neither; the first
/// candidate needs no line.
pub open spec fn resolution(
    request: PlayRequestView,
    results: Seq<TrackView>,
    input: Seq<char>,
) -> Result<Seq<char>, ResolveErrorView> {
    match step_after_search(request, results) {
        Ok(StepView::Prompt(_)) => played(step_after_input(results, input)),
        outcome => played(outcome),
    }
}

/// The line that presents the candidate at `index`.
pub open spec fn candidate_text(index: nat, track: TrackView) -> Seq<char> {
    decimal_text(index) + " - "@ + track_line(track)
}

/// The address that the search for `terms` is asked at: the terms follow the
/// fixed part, each space written as `%20`.
pub open spec fn search_address(terms: Seq<char>) -> Seq<char> {
    "https://spotify-search-api-test.herokuapp.com/search/tracks?track="@ + spaces_encoded(terms)
}

/// The request that a search for `words` makes: the words joined by single
/// spaces are the terms; with `list` the user picks among `count` candidates.
pub open spec fn search_request_of(words: Seq<Seq<char>>, list: bool, count: usize)
    -> PlayRequestView {
    PlayRequestView::Search {
        terms: joined(words, " "@),
        mode: if list {
            SelectionMode::Interactive(count)
        } else {
            SelectionMode::First
        },
    }
}

/// Makes the request for a search from the words given.
pub fn search_request(words: &Vec<String>, list: bool, count: usize) -> (request: PlayRequest)
    ensures
        request@ == search_request_of(texts(words@), list, count),
{
    let mode = if list {
        SelectionMode::Interactive(count)
    } else {
        SelectionMode::First
    };
    PlayRequest::Search { terms: join(words, " "), mode }
}

/// Makes the address at which the search for `terms` is asked.
pub fn search_url(terms: &str) -> (url: String)
    ensures
        url@ == search_address(terms@),
{
    let mut url = String::from_str(
        "https://spotify-search-api-test.herokuapp.com/search/tracks?track=",
    );
    url.append(encode_spaces(terms).as_str());
    url
}

/// Makes the playable identifier of a track.
pub fn playable_uri(track: &Track) -> (uri: String)
    ensures
        uri@ == playable(track@.id),
{
    let mut uri = String::from_str("spotify:track:");
    uri.append(track.id.as_str());
    uri
}

/// Begins the resolution of `request`.
pub fn begin(request: &PlayRequest) -> (step: Step)
    ensures
        step@ == opening_step(request@),
{
    match request {
        PlayRequest::Uri(uri) => Step::Play { uri: uri.clone(), chosen: None },
        PlayRequest::Search { terms, mode } => Step::Search(terms.clone()),
    }
}

/// Goes on with what the search for the request's terms returned.
pub fn after_search(request: &PlayRequest, results: &Vec<Track>) -> (outcome: Result<
    Step,
    ResolveError,
>)
    ensures
        outcome_view(outcome) == step_after_search(request@, track_views(results@)),
{
    match request {
        PlayRequest::Uri(uri) => Ok(Step::Play { uri: uri.clone(), chosen: None }),
        PlayRequest::Search { terms, mode } => {
            if results.len() == 0 {
                Err(ResolveError::NoTrackFound(terms.clone()))
            } else {
                match mode {
                    SelectionMode::First => Ok(
                        Step::Play { uri: playable_uri(&results[0]), chosen: Some(0) },
                    ),
                    SelectionMode::Interactive(limit) => {
                        let count: usize = if *limit <= results.len() {
                            *limit
                        } else {
                            results.len()
                        };
                        Ok(Step::Prompt(count))
                    },
                }
            }
        },
    }
}

/// Goes on with the line that was read after the candidates were presented.
pub fn after_input(results: &Vec<Track>, input: &str) -> (outcome: Result<Step, ResolveError>)
    ensures
        outcome_view(outcome) == step_after_input(track_views(results@), input@),
{
    let found: usize = results.len();
    proof {
        assert(track_views(results@).len() == found);
    }
    match parse_index(input) {
        Some(index) => {
            if index < found {
                assert(track_views(results@)[index as int] == results@[index as int]@);
                Ok(Step::Play { uri: playable_uri(&results[index]), chosen: Some(index) })
            } else {
                Err(ResolveError::SelectionInput)
            }
        },
        None => Err(ResolveError::SelectionInput),
    }
}

/// Resolves `request` in one go, with the search result and the line typed
/// given beforehand: the steps above, run one after another.
pub fn resolve_with(request: &PlayRequest, results: &Vec<Track>, input: &str) -> (outcome: Result<
    String,
    ResolveError,
>)
    ensures
        resolved_view(outcome) == resolution(request@, track_views(results@), input@),
{
    let step = match after_search(request, results) {
        Ok(Step::Prompt(_)) => after_input(results, input),
        outcome => outcome,
    };
    match step {
        Ok(Step::Play { uri, chosen }) => Ok(uri),
        Ok(_) => Err(ResolveError::SelectionInput),
        Err(error) => Err(error),
    }
}

/// The line that presents `track` as candidate number `index`.
pub fn candidate_line(index: usize, track: &Track) -> (line: String)
    requires
        track.artists.len() > 0,
    ensures
        line@ == candidate_text(index as nat, track@),
{
    let mut line = decimal_string(index);
    line.append(" - ");
    line.append(track.format().as_str());
    line
}

/// The lines that present the first `count` candidates, in the order of the
/// search.
pub fn candidate_lines(results: &Vec<Track>, count: usize) -> (lines: Vec<String>)
    requires
        count <= results.len(),
        forall|i: int| 0 <= i < count ==> (#[trigger] results@[i]).artists.len() > 0,
    ensures
        lines.len() == count,
        forall|i: int|
            0 <= i < count ==> (#[trigger] lines@[i])@ == candidate_text(i as nat, results@[i]@),
{
    let mut lines: Vec<String> = Vec::new();
    let mut i: usize = 0;
    while i < count
        invariant
            i <= count <= results.len(),
            lines.len() == i,
            forall|k: int| 0 <= k < count ==> (#[trigger] results@[k]).artists.len() > 0,
            forall|k: int|
                0 <= k < i ==> (#[trigger] lines@[k])@ == candidate_text(k as nat, results@[k]@),
        decreases count - i,
    {
        lines.push(candidate_line(i, &results[i]));
        i += 1;
    }
    lines
}

/// The line that announces the track about to play.
pub fn announcement(track: &Track) -> (line: String)
    requires
        track.artists.len() > 0,
    ensures
        line@ == "Playing "@ + track_line(track@),
{
    let mut line = String::from_str("Playing ");
    line.append(track.format().as_str());
    line
}

/// What the user is asked before the line is read.
pub fn selection_prompt() -> (prompt: &'static str)
    ensures
        prompt@ == "Enter a number to play: "@,
{
    "Enter a number to play: "
}

impl ResolveError {
    /// The error in words for the user.
    pub fn message(&self) -> (text: String)
        ensures
            text@ == match self@ {
                ResolveErrorView::NoTrackFound(terms) => "No track found for "@ + terms,
                ResolveErrorView::SelectionInput => "Not the number of a listed track"@,
            },
    {
        match self {
            ResolveError::NoTrackFound(terms) => {
                let mut text = String::from_str("No track found for ");
                text.append(terms.as_str());
                text
            },
            ResolveError::SelectionInput => String::from_str("Not the number of a listed track"),
        }
    }
}

/// An identifier given outright is played unchanged, and nothing is
/// searched for, whatever the identifier holds.
pub proof fn lemma_uri_resolves_to_itself(uri: Seq<char>)
    ensures
        opening_step(PlayRequestView::Uri(uri)) == (StepView::Play { uri, chosen: None }),
        forall|results: Seq<TrackView>| #[trigger]
            step_after_search(PlayRequestView::Uri(uri), results) == Ok::<
                StepView,
                ResolveErrorView,
            >(StepView::Play { uri, chosen: None }),
{
}

/// A search that finds nothing ends in `NoTrackFound` with the terms that
/// were searched for, in either mode.
pub proof fn lemma_empty_search_finds_no_track(terms: Seq<char>, mode: SelectionMode)
    ensures
        step_after_search(PlayRequestView::Search { terms, mode }, Seq::empty()) == Err::<
            StepView,
            ResolveErrorView,
        >(ResolveErrorView::NoTrackFound(terms)),
{
}

/// Of a result that is not empty, an interactive request presents as many
/// candidates as the result holds, up to its limit.
pub proof fn lemma_prompt_presents_up_to_limit(
    terms: Seq<char>,
    limit: usize,
    results: Seq<TrackView>,
)
    requires
        0 < results.len() <= usize::MAX,
    ensures
        step_after_search(
            PlayRequestView::Search { terms, mode: SelectionMode::Interactive(limit) },
            results,
        ) matches Ok(StepView::Prompt(count)) && count <= limit && count <= results.len() && (
        count == limit || count == results.len()),
{
}

/// A line that names an index within the result resolves to the playable
/// identifier of the candidate there; every other line is refused.
pub proof fn lemma_selection_by_index(results: Seq<TrackView>, input: Seq<char>)
    ensures
        match parsed_index(input) {
            Some(index) => if index < results.len() {
                step_after_input(results, input) matches Ok(StepView::Play { uri, chosen })
                    && uri == "spotify:track:"@ + results[index as int].id && chosen == Some(
                    index as usize,
                )
            } else {
                step_after_input(results, input) == Err::<StepView, ResolveErrorView>(
                    ResolveErrorView::SelectionInput,
                )
            },
            None => step_after_input(results, input) == Err::<StepView, ResolveErrorView>(
                ResolveErrorView::SelectionInput,
            ),
        },
{
}

/// The line read ends the resolution: the user is asked once, and what
/// follows is a track to play or a refusal.
pub proof fn lemma_input_is_asked_once(results: Seq<TrackView>, input: Seq<char>)
    ensures
        !(step_after_input(results, input) matches Ok(StepView::Prompt(_))),
        !(step_after_input(results, input) matches Ok(StepView::Search(_))),
{
}

/// The number that a candidate is presented under, typed back as it was
/// shown, selects that candidate.
pub proof fn lemma_shown_number_selects(results: Seq<TrackView>, index: nat)
    requires
        index < results.len(),
    ensures
        step_after_input(results, decimal_text(index)) == Ok::<StepView, ResolveErrorView>(
            StepView::Play {
                uri: playable(results[index as int].id),
                chosen: Some(index as usize),
            },
        ),
{
    lemma_parse_reads_decimal_text(index);
}

/// The whole resolution of an identifier is the identifier, whatever a
/// search would return and whatever is typed.
pub proof fn lemma_resolution_of_uri(uri: Seq<char>, results: Seq<TrackView>, input: Seq<char>)
    ensures
        resolution(PlayRequestView::Uri(uri), results, input) == Ok::<
            Seq<char>,
            ResolveErrorView,
        >(uri),
{
}

/// The whole resolution of a search ends in an identifier of the fixed
/// scheme, made from a candidate of the result, or in one of the two errors;
/// it ends in `NoTrackFound` exactly where the result is empty.
pub proof fn lemma_resolution_of_search(
    terms: Seq<char>,
    mode: SelectionMode,
    results: Seq<TrackView>,
    input: Seq<char>,
)
    ensures
        match resolution(PlayRequestView::Search { terms, mode }, results, input) {
            Ok(uri) => exists|i: int| 0 <= i < results.len() && uri == playable(results[i].id),
            Err(ResolveErrorView::NoTrackFound(sought)) => sought == terms && results.len() == 0,
            Err(ResolveErrorView::SelectionInput) => results.len() > 0 && mode
                is Interactive,
        },
{
    let request = PlayRequestView::Search { terms, mode };
    if results.len() > 0 {
        match mode {
            SelectionMode::First => {
                assert(resolution(request, results, input) == Ok::<Seq<char>, ResolveErrorView>(
                    playable(results[0].id),
                ));
            },
            SelectionMode::Interactive(limit) => {
                match parsed_index(input) {
                    Some(index) => {
                        if index < results.len() {
                            assert(resolution(request, results, input) == Ok::<
                                Seq<char>,
                                ResolveErrorView,
                            >(playable(results[index as int].id)));
                        }
                    },
                    None => {},
                }
            },
        }
    }
}

} // verus!
