use crate::config::Config;
use crate::spotify::api::{SearchResult, SearchResultView, SearchType};
use crate::spotify::applescript::{
    activate, ensure_running, play_command, play_uri, repeat_command, running_query,
    running_script, set_repeat, tell_script,
};
use crate::text::case::{eq_ignoring_case, same_ignoring_case};
use crate::text::space::{blank, is_blank};
use vstd::prelude::*;

verus! {

/// What a play command is told to look for.
#[derive(Debug, Clone, Copy, PartialEq, Eq, Structural)]
pub enum PlayMode {
    Track,
    Album,
    Artist,
    Playlist,
}

impl PlayMode {
    /// The kind of entity that is searched for in this mode.
    pub open spec fn kind(self) -> SearchType {
        match self {
            PlayMode::Track => SearchType::Track,
            PlayMode::Album => SearchType::Album,
            PlayMode::Artist => SearchType::Artist,
            PlayMode::Playlist => SearchType::Playlist,
        }
    }

    /// What becomes of the repeat flag after a play in this mode: an album is repeated,
    /// anything else is not.
    pub open spec fn repeats(self) -> bool {
        self == PlayMode::Album
    }

    /// The kind of entity that is searched for in this mode.
    pub fn search_type(self) -> (kind: SearchType)
        ensures
            kind == self.kind(),
    {
        match self {
            PlayMode::Track => SearchType::Track,
            PlayMode::Album => SearchType::Album,
            PlayMode::Artist => SearchType::Artist,
            PlayMode::Playlist => SearchType::Playlist,
        }
    }

    /// The repeat flag to set once the play command has succeeded.
    pub fn repeat_hint(self) -> (hint: Option<bool>)
        ensures
            hint == Some(self.repeats()),
    {
        match self {
            PlayMode::Album => Some(true),
            _ => Some(false),
        }
    }
}

/// How many results are asked for when the first one is played.
pub const DIRECT_LIMIT: u32 = 5;

/// How many results are asked for when they are listed.
pub const LISTING_LIMIT: u32 = 20;

/// No entity matches the query. `kind` is what was looked for, or `None` where any kind
/// would have done.
#[derive(Debug, PartialEq, Eq)]
pub struct NotFound {
    pub query: String,
    pub kind: Option<SearchType>,
}

/// What a `NotFound` says.
pub struct NotFoundView {
    pub query: Seq<char>,
    pub kind: Option<SearchType>,
}

impl View for NotFound {
    type V = NotFoundView;

    open spec fn view(&self) -> NotFoundView {
        NotFoundView { query: self.query@, kind: self.kind }
    }
}

impl NotFoundView {
    /// What the error says to the user.
    pub open spec fn message_text(self) -> Seq<char> {
        "No "@ + (match self.kind {
            Some(kind) => kind.code(),
            None => "match"@,
        }) + " found for \""@ + self.query + "\""@
    }
}

impl NotFound {
    /// Writes what the error says to the user.
    pub fn message(&self) -> (text: String)
        ensures
            text@ == self@.message_text(),
    {
        let mut text = String::from_str("No ");
        match self.kind {
            Some(kind) => {
                text.append(kind.as_str());
            },
            None => {
                text.append("match");
            },
        }
        text.append(" found for \"");
        text.append(self.query.as_str());
        text.append("\"");
        text
    }
}

/// The result that a search for one kind resolves to: the first, which the catalog
/// holds to be the most relevant.
pub open spec fn forced_choice(results: Seq<SearchResultView>) -> Option<SearchResultView> {
    if results.len() > 0 {
        Some(results[0])
    } else {
        None
    }
}

/// Resolves a query for which one kind was searched: the first result is played, and
/// an empty list means that nothing was found.
pub fn resolve_forced(query: &str, kind: SearchType, results: &Vec<SearchResult>) -> (outcome:
    Result<SearchResult, NotFound>)
    ensures
        match outcome {
            Ok(result) => forced_choice(results.deep_view()) == Some(result@),
            Err(missing) => forced_choice(results.deep_view()) is None && missing@
                == (NotFoundView { query: query@, kind: Some(kind) }),
        },
{
    if results.len() > 0 {
        Ok(results[0].clone())
    } else {
        Err(NotFound { query: String::from_str(query), kind: Some(kind) })
    }
}

/// What a query without a forced kind resolves to.
#[derive(Debug, PartialEq, Eq)]
pub struct Resolution {
    pub result: SearchResult,
    pub kind: SearchType,
    pub force_repeat: bool,
}

/// The text and flags of a `Resolution`.
pub struct ResolutionView {
    pub result: SearchResultView,
    pub kind: SearchType,
    pub force_repeat: bool,
}

impl View for Resolution {
    type V = ResolutionView;

    open spec fn view(&self) -> ResolutionView {
        ResolutionView { result: self.result@, kind: self.kind, force_repeat: self.force_repeat }
    }
}

impl Resolution {
    /// The repeat flag to set once the play command has succeeded: repeating is
    /// switched on where it is forced, and left as it is where it is not.
    pub fn repeat_hint(&self) -> (hint: Option<bool>)
        ensures
            hint == if self.force_repeat {
                Some(true)
            } else {
                None::<bool>
            },
    {
        if self.force_repeat {
            Some(true)
        } else {
            None
        }
    }
}

/// The choice among the results of a search for tracks, one for albums and one for
/// artists, each in the catalog's order. `artist_exact` and `album_exact` say whether
/// the first artist and the first album bear the query as their name. An exact artist
/// wins, then an exact album; failing both, the first track is taken, then the first
/// artist, then the first album. An album is played on repeat, anything else is not.
pub open spec fn free_choice(
    artist_exact: bool,
    album_exact: bool,
    tracks: Seq<SearchResultView>,
    albums: Seq<SearchResultView>,
    artists: Seq<SearchResultView>,
) -> Option<ResolutionView> {
    if artists.len() > 0 && artist_exact {
        Some(ResolutionView { result: artists[0], kind: SearchType::Artist, force_repeat: false })
    } else if albums.len() > 0 && album_exact {
        Some(ResolutionView { result: albums[0], kind: SearchType::Album, force_repeat: true })
    } else if tracks.len() > 0 {
        Some(ResolutionView { result: tracks[0], kind: SearchType::Track, force_repeat: false })
    } else if artists.len() > 0 {
        Some(ResolutionView { result: artists[0], kind: SearchType::Artist, force_repeat: false })
    } else if albums.len() > 0 {
        Some(ResolutionView { result: albums[0], kind: SearchType::Album, force_repeat: true })
    } else {
        None
    }
}

/// Whether the first of `results` bears `query` as its name, the case of letters apart.
pub open spec fn exact_top(results: Seq<SearchResultView>, query: Seq<char>) -> bool {
    results.len() > 0 && same_ignoring_case(results[0].name, query)
}

/// Chooses among the results of the three searches, given whether the first artist and
/// the first album bear the query as their name.
pub fn choose_free(
    artist_exact: bool,
    album_exact: bool,
    tracks: &Vec<SearchResult>,
    albums: &Vec<SearchResult>,
    artists: &Vec<SearchResult>,
) -> (choice: Option<Resolution>)
    ensures
        match choice {
            Some(resolution) => free_choice(
                artist_exact,
                album_exact,
                tracks.deep_view(),
                albums.deep_view(),
                artists.deep_view(),
            ) == Some(resolution@),
            None => free_choice(
                artist_exact,
                album_exact,
                tracks.deep_view(),
                albums.deep_view(),
                artists.deep_view(),
            ) is None,
        },
{
    if artists.len() > 0 && artist_exact {
        Some(
            Resolution { result: artists[0].clone(), kind: SearchType::Artist, force_repeat: false },
        )
    } else if albums.len() > 0 && album_exact {
        Some(Resolution { result: albums[0].clone(), kind: SearchType::Album, force_repeat: true })
    } else if tracks.len() > 0 {
        Some(Resolution { result: tracks[0].clone(), kind: SearchType::Track, force_repeat: false })
    } else if artists.len() > 0 {
        Some(
            Resolution { result: artists[0].clone(), kind: SearchType::Artist, force_repeat: false },
        )
    } else if albums.len() > 0 {
        Some(Resolution { result: albums[0].clone(), kind: SearchType::Album, force_repeat: true })
    } else {
        None
    }
}

/// The results of the three searches of a query without a forced kind, once all three
/// have ended: together where all went well, else the failure of the first that
/// failed, tracks before albums before artists.
pub fn gather<E>(
    tracks: Result<Vec<SearchResult>, E>,
    albums: Result<Vec<SearchResult>, E>,
    artists: Result<Vec<SearchResult>, E>,
) -> (all: Result<(Vec<SearchResult>, Vec<SearchResult>, Vec<SearchResult>), E>)
    ensures
        match all {
            Ok(found) => tracks == Ok::<Vec<SearchResult>, E>(found.0) && albums == Ok::<
                Vec<SearchResult>,
                E,
            >(found.1) && artists == Ok::<Vec<SearchResult>, E>(found.2),
            Err(e) => tracks == Err::<Vec<SearchResult>, E>(e) || (tracks is Ok && albums
                == Err::<Vec<SearchResult>, E>(e)) || (tracks is Ok && albums is Ok && artists
                == Err::<Vec<SearchResult>, E>(e)),
        },
{
    let tracks = match tracks {
        Ok(found) => found,
        Err(e) => {
            return Err(e);
        },
    };
    let albums = match albums {
        Ok(found) => found,
        Err(e) => {
            return Err(e);
        },
    };
    let artists = match artists {
        Ok(found) => found,
        Err(e) => {
            return Err(e);
        },
    };
    Ok((tracks, albums, artists))
}

/// Tells whether the first of `results` bears `query` as its name.
fn is_exact_top(results: &Vec<SearchResult>, query: &str) -> (exact: bool)
    ensures
        exact == exact_top(results.deep_view(), query@),
{
    if results.len() > 0 {
        eq_ignoring_case(results[0].name.as_str(), query)
    } else {
        false
    }
}

/// Resolves a query for which tracks, albums and artists were searched. The names of
/// the first artist and the first album are held against the whole query without
/// regard to case, and `free_choice` decides. Nothing is found only where all three
/// lists are empty.
pub fn resolve_free(
    query: &str,
    tracks: &Vec<SearchResult>,
    albums: &Vec<SearchResult>,
    artists: &Vec<SearchResult>,
) -> (outcome: Result<Resolution, NotFound>)
    ensures
        match outcome {
            Ok(resolution) => free_choice(
                exact_top(artists.deep_view(), query@),
                exact_top(albums.deep_view(), query@),
                tracks.deep_view(),
                albums.deep_view(),
                artists.deep_view(),
            ) == Some(resolution@),
            Err(missing) => {
                &&& free_choice(
                    exact_top(artists.deep_view(), query@),
                    exact_top(albums.deep_view(), query@),
                    tracks.deep_view(),
                    albums.deep_view(),
                    artists.deep_view(),
                ) is None
                &&& missing@ == (NotFoundView { query: query@, kind: None })
            },
        },
{
    let artist_exact = is_exact_top(artists, query);
    let album_exact = is_exact_top(albums, query);
    match choose_free(artist_exact, album_exact, tracks, albums, artists) {
        Some(resolution) => Ok(resolution),
        None => Err(NotFound { query: String::from_str(query), kind: None }),
    }
}

/// An artist whose name is the query is chosen whatever the other searches found.
pub proof fn lemma_exact_artist_wins(
    album_exact: bool,
    tracks: Seq<SearchResultView>,
    albums: Seq<SearchResultView>,
    artists: Seq<SearchResultView>,
)
    requires
        artists.len() > 0,
    ensures
        free_choice(true, album_exact, tracks, albums, artists) == Some(
            ResolutionView { result: artists[0], kind: SearchType::Artist, force_repeat: false },
        ),
{
}

/// Where no artist takes the query by name, an album whose name is the query is chosen
/// whatever tracks were found, and it is repeated.
pub proof fn lemma_exact_album_is_next(
    artist_exact: bool,
    tracks: Seq<SearchResultView>,
    albums: Seq<SearchResultView>,
    artists: Seq<SearchResultView>,
)
    requires
        !(artists.len() > 0 && artist_exact),
        albums.len() > 0,
    ensures
        free_choice(artist_exact, true, tracks, albums, artists) == Some(
            ResolutionView { result: albums[0], kind: SearchType::Album, force_repeat: true },
        ),
{
}

/// Where neither the first artist nor the first album bears the query as its name, the
/// first track is chosen if there is any.
pub proof fn lemma_track_is_default(
    artist_exact: bool,
    album_exact: bool,
    tracks: Seq<SearchResultView>,
    albums: Seq<SearchResultView>,
    artists: Seq<SearchResultView>,
)
    requires
        !(artists.len() > 0 && artist_exact),
        !(albums.len() > 0 && album_exact),
        tracks.len() > 0,
    ensures
        free_choice(artist_exact, album_exact, tracks, albums, artists) == Some(
            ResolutionView { result: tracks[0], kind: SearchType::Track, force_repeat: false },
        ),
{
}

/// Nothing is found if and only if all three searches came back empty.
pub proof fn lemma_nothing_found_iff_all_empty(
    artist_exact: bool,
    album_exact: bool,
    tracks: Seq<SearchResultView>,
    albums: Seq<SearchResultView>,
    artists: Seq<SearchResultView>,
)
    ensures
        free_choice(artist_exact, album_exact, tracks, albums, artists) is None <==> tracks.len()
            == 0 && albums.len() == 0 && artists.len() == 0,
{
}

/// What is chosen is the first result of its kind, and repeating is forced exactly
/// where it is an album.
pub proof fn lemma_choice_is_a_first_result(
    artist_exact: bool,
    album_exact: bool,
    tracks: Seq<SearchResultView>,
    albums: Seq<SearchResultView>,
    artists: Seq<SearchResultView>,
)
    requires
        free_choice(artist_exact, album_exact, tracks, albums, artists) is Some,
    ensures
        ({
            let chosen = free_choice(artist_exact, album_exact, tracks, albums, artists)->0;
            &&& chosen.force_repeat <==> chosen.kind == SearchType::Album
            &&& chosen.kind == SearchType::Track ==> tracks.len() > 0 && chosen.result
                == tracks[0]
            &&& chosen.kind == SearchType::Album ==> albums.len() > 0 && chosen.result
                == albums[0]
            &&& chosen.kind == SearchType::Artist ==> artists.len() > 0 && chosen.result
                == artists[0]
            &&& chosen.kind != SearchType::Playlist
        }),
{
}

/// A first result whose name is the query as it was typed bears it as its name.
pub proof fn lemma_same_name_is_exact(results: Seq<SearchResultView>, query: Seq<char>)
    requires
        results.len() > 0,
        results[0].name == query,
    ensures
        exact_top(results, query),
{
}

/// The lines that offer `results` for selection, one each and in the same order.
pub open spec fn choice_lines(results: Seq<SearchResultView>) -> Seq<Seq<char>> {
    Seq::new(results.len(), |i: int| results[i].line())
}

/// Writes the lines that offer `results` for selection.
pub fn choices(results: &Vec<SearchResult>) -> (lines: Vec<String>)
    ensures
        lines.deep_view() == choice_lines(results.deep_view()),
{
    let mut lines: Vec<String> = Vec::new();
    let mut i: usize = 0;
    while i < results.len()
        invariant
            i <= results.len(),
            lines.len() == i,
            forall|j: int| 0 <= j < i ==> (#[trigger] lines@[j])@ == results@[j]@.line(),
        decreases results.len() - i,
    {
        lines.push(results[i].to_line());
        i += 1;
    }
    assert(lines.deep_view() =~= choice_lines(results.deep_view()));
    lines
}

/// The result that a selection picks: the one at the selected place; none where the
/// selection was cancelled or points outside the list.
pub open spec fn selected(results: Seq<SearchResultView>, selection: Option<usize>) -> Option<
    SearchResultView,
> {
    match selection {
        Some(i) => if i < results.len() {
            Some(results[i as int])
        } else {
            None
        },
        None => None,
    }
}

/// Resolves a query whose results were offered for selection. An empty list means that
/// nothing was found, and then nothing is offered; otherwise `selection` is the place
/// that the user picked, or `None` where the user cancelled, which is no error.
pub fn resolve_interactive(
    query: &str,
    kind: SearchType,
    results: &Vec<SearchResult>,
    selection: Option<usize>,
) -> (outcome: Result<Option<SearchResult>, NotFound>)
    ensures
        match outcome {
            Ok(Some(result)) => results.len() > 0 && selected(results.deep_view(), selection)
                == Some(result@),
            Ok(None) => results.len() > 0 && selected(results.deep_view(), selection) is None,
            Err(missing) => results.len() == 0 && missing@ == (NotFoundView {
                query: query@,
                kind: Some(kind),
            }),
        },
{
    if results.len() == 0 {
        return Err(NotFound { query: String::from_str(query), kind: Some(kind) });
    }
    match selection {
        Some(i) => {
            if i < results.len() {
                Ok(Some(results[i].clone()))
            } else {
                Ok(None)
            }
        },
        None => Ok(None),
    }
}

/// One search to send: what kind to look for and how many results to ask for.
#[derive(Debug, Clone, Copy, PartialEq, Eq, Structural)]
pub struct SearchPlan {
    pub kind: SearchType,
    pub limit: u32,
}

/// The searches that a play command needs: the one of its mode, or, without a mode,
/// one each for tracks, albums and artists. Each asks for `DIRECT_LIMIT` results.
pub open spec fn planned_searches(mode: Option<PlayMode>) -> Seq<SearchPlan> {
    match mode {
        Some(m) => seq![SearchPlan { kind: m.kind(), limit: DIRECT_LIMIT }],
        None => seq![
            SearchPlan { kind: SearchType::Track, limit: DIRECT_LIMIT },
            SearchPlan { kind: SearchType::Album, limit: DIRECT_LIMIT },
            SearchPlan { kind: SearchType::Artist, limit: DIRECT_LIMIT },
        ],
    }
}

/// Lists the searches that a play command needs.
pub fn searches(mode: Option<PlayMode>) -> (plans: Vec<SearchPlan>)
    ensures
        plans@ == planned_searches(mode),
{
    let mut plans: Vec<SearchPlan> = Vec::new();
    match mode {
        Some(m) => {
            plans.push(SearchPlan { kind: m.search_type(), limit: DIRECT_LIMIT });
        },
        None => {
            plans.push(SearchPlan { kind: SearchType::Track, limit: DIRECT_LIMIT });
            plans.push(SearchPlan { kind: SearchType::Album, limit: DIRECT_LIMIT });
            plans.push(SearchPlan { kind: SearchType::Artist, limit: DIRECT_LIMIT });
        },
    }
    assert(plans@ =~= planned_searches(mode));
    plans
}

/// What a play command sets out to do.
#[derive(Debug, PartialEq, Eq)]
pub enum PlayIntent {
    /// Go on with what was playing; nothing is searched.
    Resume,
    /// Search for this query and play what it resolves to.
    Search(String),
}

/// Decides what a play command does with the query it was given. Without a query, or
/// with one that holds nothing but whitespace, playback is resumed and nothing is
/// searched. Any other query is searched for, and if it is the name of an alias, the
/// alias's query is searched for in its place.
pub fn run(config: &Config, query: Option<&str>) -> (intent: PlayIntent)
    ensures
        match intent {
            PlayIntent::Resume => query is None || blank(query->0@),
            PlayIntent::Search(q) => query is Some && !blank(query->0@) && q@ == config.resolved(
                query->0@,
            ),
        },
{
    match query {
        Some(raw) => {
            if is_blank(raw) {
                PlayIntent::Resume
            } else {
                PlayIntent::Search(config.resolve(raw))
            }
        },
        None => PlayIntent::Resume,
    }
}

/// For how long a player that was just started is left alone before it is told to play.
pub const LAUNCH_SETTLE_MILLIS: u64 = 2000;

/// How far the playing of a result has come.
#[derive(Debug, Clone, Copy, PartialEq, Eq, Structural)]
pub enum PlaybackStage {
    /// Nothing was done yet.
    Start,
    /// The player was asked whether it runs.
    CheckingPlayer,
    /// The player was told to start.
    Launching,
    /// The started player is being left alone for a while.
    Settling,
    /// The player was told to play.
    Playing,
    /// The player was told how to set its repeat flag.
    Repeating,
    /// The playing has ended, well or badly.
    Finished,
}

/// What is to be done next on the way to playing a result.
#[derive(Debug, PartialEq, Eq)]
pub enum PortAction {
    /// Run this script and come back with what it answered, or with what it said when
    /// it failed.
    Run(String),
    /// Let this many milliseconds pass and come back.
    Wait(u64),
    /// The result plays. The flag tells how repeating was set, if it was.
    Finish(Option<bool>),
    /// The player could not be controlled; the text is what the failed script said.
    Abort(String),
    /// The playing had ended before: there is nothing to do.
    Halt,
}

/// The text and numbers of a `PortAction`.
pub enum PortActionView {
    Run(Seq<char>),
    Wait(u64),
    Finish(Option<bool>),
    Abort(Seq<char>),
    Halt,
}

impl View for PortAction {
    type V = PortActionView;

    open spec fn view(&self) -> PortActionView {
        match self {
            PortAction::Run(script) => PortActionView::Run(script@),
            PortAction::Wait(millis) => PortActionView::Wait(*millis),
            PortAction::Finish(repeat) => PortActionView::Finish(*repeat),
            PortAction::Abort(said) => PortActionView::Abort(said@),
            PortAction::Halt => PortActionView::Halt,
        }
    }
}

/// How the last action ended, as text: what the script answered, or what it said when
/// it failed. A wait answers nothing.
pub open spec fn ended(last: Result<String, String>) -> Result<Seq<char>, Seq<char>> {
    match last {
        Ok(reply) => Ok(reply@),
        Err(said) => Err(said@),
    }
}

/// The step that follows `stage`, given how the action of `stage` ended. The player is
/// asked whether it runs; if it does not, it is started and left alone for
/// `LAUNCH_SETTLE_MILLIS`. Then it is told to play `uri`. Once that has succeeded, the
/// repeat flag is set to `repeat_hint` if there is one. A script that fails ends the
/// playing at once.
pub open spec fn play_step(
    uri: Seq<char>,
    repeat_hint: Option<bool>,
    stage: PlaybackStage,
    last: Result<Seq<char>, Seq<char>>,
) -> (PlaybackStage, PortActionView) {
    match stage {
        PlaybackStage::Start => (
            PlaybackStage::CheckingPlayer,
            PortActionView::Run(running_script()),
        ),
        PlaybackStage::Finished => (PlaybackStage::Finished, PortActionView::Halt),
        _ => match last {
            Err(said) => (PlaybackStage::Finished, PortActionView::Abort(said)),
            Ok(reply) => match stage {
                PlaybackStage::CheckingPlayer => if reply == "true"@ {
                    (PlaybackStage::Playing, PortActionView::Run(tell_script(play_command(uri))))
                } else {
                    (PlaybackStage::Launching, PortActionView::Run(tell_script("activate"@)))
                },
                PlaybackStage::Launching => (
                    PlaybackStage::Settling,
                    PortActionView::Wait(LAUNCH_SETTLE_MILLIS),
                ),
                PlaybackStage::Settling => (
                    PlaybackStage::Playing,
                    PortActionView::Run(tell_script(play_command(uri))),
                ),
                PlaybackStage::Playing => match repeat_hint {
                    Some(on) => (
                        PlaybackStage::Repeating,
                        PortActionView::Run(tell_script(repeat_command(on))),
                    ),
                    None => (PlaybackStage::Finished, PortActionView::Finish(None)),
                },
                _ => (PlaybackStage::Finished, PortActionView::Finish(repeat_hint)),
            },
        },
    }
}

/// Takes the playing of `uri` one step further: `last` is how the action that the last
/// step asked for has ended, and the result is the stage reached and the action to
/// take now. The first call is made at `PlaybackStage::Start`, where `last` is not
/// looked at.
pub fn play(uri: &str, repeat_hint: Option<bool>, stage: PlaybackStage, last: &Result<
    String,
    String,
>) -> (next: (PlaybackStage, PortAction))
    ensures
        next.0 == play_step(uri@, repeat_hint, stage, ended(*last)).0,
        next.1@ == play_step(uri@, repeat_hint, stage, ended(*last)).1,
{
    match stage {
        PlaybackStage::Start => (PlaybackStage::CheckingPlayer, PortAction::Run(running_query())),
        PlaybackStage::Finished => (PlaybackStage::Finished, PortAction::Halt),
        _ => match last {
            Err(said) => (PlaybackStage::Finished, PortAction::Abort(said.clone())),
            Ok(reply) => match stage {
                PlaybackStage::CheckingPlayer => {
                    if ensure_running(reply.as_str()) {
                        (PlaybackStage::Launching, PortAction::Run(activate()))
                    } else {
                        (PlaybackStage::Playing, PortAction::Run(play_uri(uri)))
                    }
                },
                PlaybackStage::Launching => (
                    PlaybackStage::Settling,
                    PortAction::Wait(LAUNCH_SETTLE_MILLIS),
                ),
                PlaybackStage::Settling => (
                    PlaybackStage::Playing,
                    PortAction::Run(play_uri(uri)),
                ),
                PlaybackStage::Playing => match repeat_hint {
                    Some(on) => (PlaybackStage::Repeating, PortAction::Run(set_repeat(on))),
                    None => (PlaybackStage::Finished, PortAction::Finish(None)),
                },
                _ => (PlaybackStage::Finished, PortAction::Finish(repeat_hint)),
            },
        },
    }
}

/// Whether a step at `stage` finds that the player has just taken the play command:
/// from then on the result plays, whatever becomes of the repeat flag.
pub open spec fn play_taken(stage: PlaybackStage, last: Result<Seq<char>, Seq<char>>) -> bool {
    stage == PlaybackStage::Playing && last is Ok
}

/// Tells whether a step at `stage` finds that the player has just taken the play
/// command.
pub fn has_taken_play(stage: PlaybackStage, last: &Result<String, String>) -> (taken: bool)
    ensures
        taken == play_taken(stage, ended(*last)),
{
    match stage {
        PlaybackStage::Playing => last.is_ok(),
        _ => false,
    }
}

/// How many steps a stage is away from `Start`.
pub open spec fn stage_rank(stage: PlaybackStage) -> nat {
    match stage {
        PlaybackStage::Start => 0,
        PlaybackStage::CheckingPlayer => 1,
        PlaybackStage::Launching => 2,
        PlaybackStage::Settling => 3,
        PlaybackStage::Playing => 4,
        PlaybackStage::Repeating => 5,
        PlaybackStage::Finished => 6,
    }
}

/// Every step leads to a later stage, so that the playing ends after six steps at
/// most; a step at `Finished` stays there and asks for nothing.
pub proof fn lemma_play_advances(
    uri: Seq<char>,
    repeat_hint: Option<bool>,
    stage: PlaybackStage,
    last: Result<Seq<char>, Seq<char>>,
)
    ensures
        stage != PlaybackStage::Finished ==> stage_rank(
            play_step(uri, repeat_hint, stage, last).0,
        ) > stage_rank(stage),
        stage == PlaybackStage::Finished ==> play_step(uri, repeat_hint, stage, last) == (
            PlaybackStage::Finished,
            PortActionView::Halt,
        ),
{
}

/// A script that fails ends the playing, and nothing more is asked of the player.
pub proof fn lemma_failure_aborts(
    uri: Seq<char>,
    repeat_hint: Option<bool>,
    stage: PlaybackStage,
    said: Seq<char>,
)
    requires
        stage != PlaybackStage::Start,
        stage != PlaybackStage::Finished,
    ensures
        play_step(uri, repeat_hint, stage, Err(said)) == (
            PlaybackStage::Finished,
            PortActionView::Abort(said),
        ),
{
}

/// The playing is reported as done only after the play command has succeeded, and what
/// it reports of the repeat flag is the hint: nothing without a hint, and the hint's
/// value once the script that sets it has succeeded.
pub proof fn lemma_finish_follows_play(
    uri: Seq<char>,
    repeat_hint: Option<bool>,
    stage: PlaybackStage,
    last: Result<Seq<char>, Seq<char>>,
)
    requires
        play_step(uri, repeat_hint, stage, last).1 is Finish,
    ensures
        last is Ok,
        stage == PlaybackStage::Playing || stage == PlaybackStage::Repeating,
        stage == PlaybackStage::Playing ==> repeat_hint is None,
        play_step(uri, repeat_hint, stage, last).1 == PortActionView::Finish(repeat_hint),
{
}

/// The player is told to play only once it is known to run: either it said so, or it
/// was started and left alone for the settle time.
pub proof fn lemma_play_waits_for_player(
    uri: Seq<char>,
    repeat_hint: Option<bool>,
    stage: PlaybackStage,
    last: Result<Seq<char>, Seq<char>>,
)
    requires
        play_step(uri, repeat_hint, stage, last).0 == PlaybackStage::Playing,
    ensures
        last is Ok,
        stage == PlaybackStage::CheckingPlayer && last->Ok_0 == "true"@ || stage
            == PlaybackStage::Settling,
        play_step(uri, repeat_hint, stage, last).1 == PortActionView::Run(
            tell_script(play_command(uri)),
        ),
{
}

/// With a player that runs and scripts that succeed, playing takes the question
/// whether the player runs, the play command, the repeat command if there is a hint,
/// and ends with a report of how the repeat flag was set.
pub proof fn lemma_play_with_running_player(
    uri: Seq<char>,
    repeat_hint: Option<bool>,
    first: Result<Seq<char>, Seq<char>>,
    played: Seq<char>,
    repeated: Seq<char>,
)
    ensures
        ({
            let asked = play_step(uri, repeat_hint, PlaybackStage::Start, first);
            let told = play_step(uri, repeat_hint, asked.0, Ok("true"@));
            let then = play_step(uri, repeat_hint, told.0, Ok(played));
            &&& asked.1 == PortActionView::Run(running_script())
            &&& told.1 == PortActionView::Run(tell_script(play_command(uri)))
            &&& repeat_hint is None ==> then == (
                PlaybackStage::Finished,
                PortActionView::Finish(None),
            )
            &&& repeat_hint matches Some(on) ==> {
                &&& then.1 == PortActionView::Run(tell_script(repeat_command(on)))
                &&& play_step(uri, repeat_hint, then.0, Ok(repeated)) == (
                    PlaybackStage::Finished,
                    PortActionView::Finish(Some(on)),
                )
            }
        }),
{
}

/// With a player that does not run, it is started and left alone for the settle time
/// before the play command is given.
pub proof fn lemma_play_starts_the_player(
    uri: Seq<char>,
    repeat_hint: Option<bool>,
    first: Result<Seq<char>, Seq<char>>,
    answer: Seq<char>,
    started: Seq<char>,
    waited: Seq<char>,
)
    requires
        answer != "true"@,
    ensures
        ({
            let asked = play_step(uri, repeat_hint, PlaybackStage::Start, first);
            let launch = play_step(uri, repeat_hint, asked.0, Ok(answer));
            let settle = play_step(uri, repeat_hint, launch.0, Ok(started));
            let told = play_step(uri, repeat_hint, settle.0, Ok(waited));
            &&& launch.1 == PortActionView::Run(tell_script("activate"@))
            &&& settle.1 == PortActionView::Wait(LAUNCH_SETTLE_MILLIS)
            &&& told == (
                PlaybackStage::Playing,
                PortActionView::Run(tell_script(play_command(uri))),
            )
        }),
{
}

} // verus!
