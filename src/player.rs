use crate::error::Error;
use crate::spotify_api::Track;
use crate::text::{index_of_text, is_numeral, join, joined, numeral, parse_index, trim, trimmed, views};
use vstd::prelude::*;

pub use crate::commands::{Args, Commands, PlayMode};

verus! {

/// The scheme prefix that turns a track's id into a uri the player opens.
pub const TRACK_URI_PREFIX: &'static str = "spotify:track:";

/// The one step that a command asks of the player, with what it needs.
#[derive(Clone, Debug, PartialEq, Eq)]
pub enum Action {
    Next,
    Previous,
    PlayPause,
    /// Read the metadata and show it in a notification.
    NowPlaying,
    /// Open this uri as it stands.
    OpenUri(String),
    /// Search for the query, then pick and open a track.
    Search { query: String, list: bool, count: usize },
}

/// What a selection among search results came to.
#[derive(Clone, Copy, Debug, PartialEq, Eq)]
pub enum Selection {
    /// Play the candidate at this index.
    Track(usize),
    /// The search found nothing.
    NoTrack,
    /// The number given names no candidate on show.
    Invalid,
}

/// Where a selection stands once the candidates are known.
#[derive(Clone, Copy, Debug, PartialEq, Eq)]
pub enum SelectStep {
    /// Decided without asking.
    Done(Selection),
    /// Show this many candidates, numbered from 0, and read the number of one.
    Ask(usize),
}

/// What the player is asked to play.
#[derive(Clone, Debug, PartialEq, Eq)]
pub enum PlaybackTarget {
    /// A uri given as it is.
    Uri(String),
    /// A track found by a search, by its id.
    Track(String),
}

/// How many candidates are shown when `count` are asked for.
pub open spec fn shown_count(len: nat, count: nat) -> nat {
    if count < len {
        count
    } else {
        len
    }
}

/// The selection that a line of input makes, `None` where it is no number. A
/// number too large for `usize` is beyond every list, so it is invalid too.
pub open spec fn choice_of(len: nat, count: nat, line: Seq<char>) -> Option<Selection> {
    match index_of_text(trimmed(line)) {
        Some(i) => if (i as nat) < shown_count(len, count) {
            Some(Selection::Track(i))
        } else {
            Some(Selection::Invalid)
        },
        None => if is_numeral(trimmed(line)) {
            Some(Selection::Invalid)
        } else {
            None
        },
    }
}

/// The uri that plays a target.
pub open spec fn target_uri(t: PlaybackTarget) -> Seq<char> {
    match t {
        PlaybackTarget::Uri(u) => u@,
        PlaybackTarget::Track(id) => TRACK_URI_PREFIX@ + id@,
    }
}

/// Whether a text is a valid bus name, as zbus decides it.
pub uninterp spec fn is_bus_name(s: Seq<char>) -> bool;

/// Relies on zbus's `BusName::try_from(&str)`: it accepts the text exactly when
/// it is a valid unique or well-known bus name, which depends on the text alone;
/// a refusal is passed on as its message.
#[verifier::external_body]
fn bus_name_check(name: &str) -> (r: Result<(), String>)
    ensures
        r is Ok <==> is_bus_name(name@),
{
    match zbus::names::BusName::try_from(name) {
        Ok(_) => Ok(()),
        Err(e) => Err(e.to_string()),
    }
}

/// Checks that the player's service name is a valid bus name.
pub fn check_service_name(name: &str) -> (r: Result<(), Error>)
    ensures
        r is Ok <==> is_bus_name(name@),
        r is Err ==> r->Err_0 is ZbusNamesError,
{
    match bus_name_check(name) {
        Ok(()) => Ok(()),
        Err(msg) => Err(Error::ZbusNamesError(msg)),
    }
}

/// The step that a command asks of the player. A search joins its words with
/// single spaces.
pub fn route(command: &Commands) -> (r: Action)
    ensures
        match *command {
            Commands::Next => r == Action::Next,
            Commands::Previous => r == Action::Previous,
            Commands::PlayPause => r == Action::PlayPause,
            Commands::NowPlaying => r == Action::NowPlaying,
            Commands::PlaySong { mode: PlayMode::Uri { uri } } => r matches Action::OpenUri(u)
                && u@ == uri@,
            Commands::PlaySong { mode: PlayMode::Search { query, list, count } } => r matches Action::Search { query: q, list: l, count: c }
                && q@ == joined(views(query@), " "@) && l == list && c == count,
        },
{
    match command {
        Commands::Next => Action::Next,
        Commands::Previous => Action::Previous,
        Commands::PlayPause => Action::PlayPause,
        Commands::NowPlaying => Action::NowPlaying,
        Commands::PlaySong { mode } => match mode {
            PlayMode::Uri { uri } => Action::OpenUri(uri.clone()),
            PlayMode::Search { query, list, count } => Action::Search {
                query: join(query, " "),
                list: *list,
                count: *count,
            },
        },
    }
}

/// How a selection among the candidates of a search begins. With no candidate
/// there is nothing to play; without `interactive` the first candidate is played
/// whatever `count` is; otherwise the first `count` candidates (or all, where
/// there are fewer) are offered.
pub fn begin_selection(candidates: &Vec<Track>, count: usize, interactive: bool) -> (r: SelectStep)
    ensures
        candidates@.len() == 0 ==> r == SelectStep::Done(Selection::NoTrack),
        candidates@.len() > 0 && !interactive ==> r == SelectStep::Done(Selection::Track(0)),
        candidates@.len() > 0 && interactive ==> r == SelectStep::Ask(
            shown_count(candidates@.len(), count as nat) as usize,
        ),
{
    let len = candidates.len();
    if len == 0 {
        SelectStep::Done(Selection::NoTrack)
    } else if !interactive {
        SelectStep::Done(Selection::Track(0))
    } else if count < len {
        SelectStep::Ask(count)
    } else {
        SelectStep::Ask(len)
    }
}

/// Reads the number typed to pick a candidate (whitespace around it is ignored).
/// A number among those on show picks that candidate; any other number, however
/// large, is an invalid selection; text that is no number is an `InputError`.
pub fn finish_selection(candidates: &Vec<Track>, count: usize, line: &str) -> (r: Result<
    Selection,
    Error,
>)
    ensures
        match choice_of(candidates@.len(), count as nat, line@) {
            Some(s) => r == Ok::<Selection, Error>(s),
            None => r matches Err(Error::InputError(t)) && t@ == trimmed(line@),
        },
{
    let text = trim(line);
    let len = candidates.len();
    let shown = if count < len {
        count
    } else {
        len
    };
    match parse_index(text) {
        Some(i) => if i < shown {
            Ok(Selection::Track(i))
        } else {
            Ok(Selection::Invalid)
        },
        None => if numeral(text) {
            Ok(Selection::Invalid)
        } else {
            Err(Error::InputError(String::from_str(text)))
        },
    }
}

/// The uri of a track: its id under the track scheme.
pub fn track_uri(track: &Track) -> (r: String)
    ensures
        r@ == TRACK_URI_PREFIX@ + track.id@,
{
    String::from_str(TRACK_URI_PREFIX).concat(track.id.as_str())
}

impl PlaybackTarget {
    /// The uri that the player is asked to open: a given uri verbatim, a track's
    /// id under the track scheme.
    pub fn uri(&self) -> (r: String)
        ensures
            r@ == target_uri(*self),
    {
        match self {
            PlaybackTarget::Uri(u) => u.clone(),
            PlaybackTarget::Track(id) => String::from_str(TRACK_URI_PREFIX).concat(id.as_str()),
        }
    }
}

/// What the player is asked to play for a selection, if anything.
pub fn selection_target(candidates: &Vec<Track>, selection: Selection) -> (r: Option<
    PlaybackTarget,
>)
    ensures
        match selection {
            Selection::Track(i) => if i < candidates@.len() {
                r matches Some(PlaybackTarget::Track(id)) && id@ == candidates@[i as int].id@
            } else {
                r is None
            },
            _ => r is None,
        },
{
    match selection {
        Selection::Track(i) => if i < candidates.len() {
            Some(PlaybackTarget::Track(candidates[i].id.clone()))
        } else {
            None
        },
        _ => None,
    }
}

} // verus!
