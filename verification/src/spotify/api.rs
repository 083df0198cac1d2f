use crate::spotify::status::{is_success, status_line, status_text, success};
use crate::text::number::{decimal, decimal_text};
use crate::text::parts::{first_parts, first_piece_text, join, join_first, join_text, pieces};
use vstd::prelude::*;

verus! {

/// One entry of a search: what to show and what to play.
#[derive(Debug, PartialEq, Eq)]
pub struct SearchResult {
    pub name: String,
    pub uri: String,
    pub detail: String,
}

/// The text of a `SearchResult`.
pub struct SearchResultView {
    pub name: Seq<char>,
    pub uri: Seq<char>,
    pub detail: Seq<char>,
}

impl View for SearchResult {
    type V = SearchResultView;

    open spec fn view(&self) -> SearchResultView {
        SearchResultView { name: self.name@, uri: self.uri@, detail: self.detail@ }
    }
}

impl DeepView for SearchResult {
    type V = SearchResultView;

    open spec fn deep_view(&self) -> SearchResultView {
        self@
    }
}

impl Clone for SearchResult {
    fn clone(&self) -> (copy: SearchResult)
        ensures
            copy@ == self@,
    {
        SearchResult {
            name: self.name.clone(),
            uri: self.uri.clone(),
            detail: self.detail.clone(),
        }
    }
}

impl SearchResultView {
    /// The line that shows a result: its name, a dash, its detail.
    pub open spec fn line(self) -> Seq<char> {
        self.name + " — "@ + self.detail
    }
}

impl SearchResult {
    /// The line that shows this result in a list.
    pub fn to_line(&self) -> (line: String)
        ensures
            line@ == self@.line(),
    {
        let mut line = self.name.clone();
        line.append(" — ");
        line.append(self.detail.as_str());
        line
    }
}

/// The kinds of entity that the catalog can be searched for.
#[derive(Debug, Clone, Copy, PartialEq, Eq, Structural)]
pub enum SearchType {
    Track,
    Album,
    Artist,
    Playlist,
}

impl SearchType {
    /// The word that names this kind to the catalog.
    pub open spec fn code(self) -> Seq<char> {
        match self {
            SearchType::Track => "track"@,
            SearchType::Album => "album"@,
            SearchType::Artist => "artist"@,
            SearchType::Playlist => "playlist"@,
        }
    }

    /// The heading under which results of this kind are shown.
    pub open spec fn heading(self) -> Seq<char> {
        match self {
            SearchType::Track => "Tracks"@,
            SearchType::Album => "Albums"@,
            SearchType::Artist => "Artists"@,
            SearchType::Playlist => "Playlists"@,
        }
    }

    /// The word that names this kind to the catalog.
    pub fn as_str(&self) -> (code: &'static str)
        ensures
            code@ == self.code(),
    {
        match self {
            SearchType::Track => "track",
            SearchType::Album => "album",
            SearchType::Artist => "artist",
            SearchType::Playlist => "playlist",
        }
    }

    /// The heading under which results of this kind are shown.
    pub fn label(&self) -> (heading: &'static str)
        ensures
            heading@ == self.heading(),
    {
        match self {
            SearchType::Track => "Tracks",
            SearchType::Album => "Albums",
            SearchType::Artist => "Artists",
            SearchType::Playlist => "Playlists",
        }
    }
}

/// A track as the catalog reports it.
#[derive(Debug, PartialEq, Eq)]
pub struct TrackItem {
    pub name: String,
    pub uri: String,
    pub artists: Vec<String>,
    pub album: String,
}

/// An album as the catalog reports it.
#[derive(Debug, PartialEq, Eq)]
pub struct AlbumItem {
    pub name: String,
    pub uri: String,
    pub artists: Vec<String>,
    pub release_date: Option<String>,
}

/// An artist as the catalog reports it.
#[derive(Debug, PartialEq, Eq)]
pub struct ArtistItem {
    pub name: String,
    pub uri: String,
    pub genres: Option<Vec<String>>,
}

/// A playlist as the catalog reports it.
#[derive(Debug, PartialEq, Eq)]
pub struct PlaylistItem {
    pub name: String,
    pub uri: String,
    pub owner: Option<String>,
    pub total: u32,
}

/// The second line of a track: its artists, then its album.
pub open spec fn track_detail(artists: Seq<Seq<char>>, album: Seq<char>) -> Seq<char> {
    join(artists, ", "@) + " • "@ + album
}

/// The year of a release date: what stands before its first hyphen, or four question
/// marks where the date is missing.
pub open spec fn release_year(date: Option<Seq<char>>) -> Seq<char> {
    match date {
        Some(d) => pieces(d, "-"@)[0],
        None => "????"@,
    }
}

/// The second line of an album: its artists, then its year in parentheses.
pub open spec fn album_detail(artists: Seq<Seq<char>>, date: Option<Seq<char>>) -> Seq<char> {
    join(artists, ", "@) + " ("@ + release_year(date) + ")"@
}

/// How many genres an artist's second line shows at most.
pub const GENRES_SHOWN: usize = 3;

/// The genres that are shown: the first `GENRES_SHOWN`, or all where there are fewer.
pub open spec fn shown_genres(genres: Option<Seq<Seq<char>>>) -> Seq<Seq<char>> {
    match genres {
        Some(g) => first_parts(g, GENRES_SHOWN as nat),
        None => Seq::empty(),
    }
}

/// The second line of an artist: the shown genres, or the word `Artist` where they
/// give no text.
pub open spec fn artist_detail(genres: Option<Seq<Seq<char>>>) -> Seq<char> {
    let listed = join(shown_genres(genres), ", "@);
    if listed.len() == 0 {
        "Artist"@
    } else {
        listed
    }
}

/// The second line of a playlist: its owner, then the number of its tracks.
pub open spec fn playlist_detail(owner: Option<Seq<char>>, total: nat) -> Seq<char> {
    "by "@ + (match owner {
        Some(o) => o,
        None => "Unknown"@,
    }) + " • "@ + decimal(total) + " tracks"@
}

/// The second line of a result is never empty, whatever the catalog left out.
pub proof fn lemma_detail_is_never_empty(
    artists: Seq<Seq<char>>,
    album: Seq<char>,
    date: Option<Seq<char>>,
    genres: Option<Seq<Seq<char>>>,
    owner: Option<Seq<char>>,
    total: nat,
)
    ensures
        track_detail(artists, album).len() > 0,
        album_detail(artists, date).len() > 0,
        artist_detail(genres).len() > 0,
        playlist_detail(owner, total).len() > 0,
{
    reveal_strlit(" • ");
    reveal_strlit(" (");
    reveal_strlit("Artist");
    reveal_strlit("by ");
}

impl TrackItem {
    /// The search result that stands for this track.
    pub open spec fn normalized(&self) -> SearchResultView {
        SearchResultView {
            name: self.name@,
            uri: self.uri@,
            detail: track_detail(self.artists.deep_view(), self.album@),
        }
    }

    /// Makes the search result that stands for this track.
    pub fn normalize(&self) -> (result: SearchResult)
        ensures
            result@ == self.normalized(),
    {
        let mut detail = join_text(&self.artists, ", ");
        detail.append(" • ");
        detail.append(self.album.as_str());
        SearchResult { name: self.name.clone(), uri: self.uri.clone(), detail }
    }
}

impl AlbumItem {
    /// The release date as text, where there is one.
    pub open spec fn date(&self) -> Option<Seq<char>> {
        match self.release_date {
            Some(d) => Some(d@),
            None => None,
        }
    }

    /// The search result that stands for this album.
    pub open spec fn normalized(&self) -> SearchResultView {
        SearchResultView {
            name: self.name@,
            uri: self.uri@,
            detail: album_detail(self.artists.deep_view(), self.date()),
        }
    }

    /// Makes the search result that stands for this album.
    pub fn normalize(&self) -> (result: SearchResult)
        ensures
            result@ == self.normalized(),
    {
        let mut detail = join_text(&self.artists, ", ");
        detail.append(" (");
        match &self.release_date {
            Some(d) => {
                let year = first_piece_text(d.as_str(), "-");
                detail.append(year.as_str());
            },
            None => {
                detail.append("????");
            },
        }
        detail.append(")");
        SearchResult { name: self.name.clone(), uri: self.uri.clone(), detail }
    }
}

impl ArtistItem {
    /// The genres as text, where the catalog gave any.
    pub open spec fn genre_names(&self) -> Option<Seq<Seq<char>>> {
        match self.genres {
            Some(g) => Some(g.deep_view()),
            None => None,
        }
    }

    /// The search result that stands for this artist.
    pub open spec fn normalized(&self) -> SearchResultView {
        SearchResultView {
            name: self.name@,
            uri: self.uri@,
            detail: artist_detail(self.genre_names()),
        }
    }

    /// Makes the search result that stands for this artist.
    pub fn normalize(&self) -> (result: SearchResult)
        ensures
            result@ == self.normalized(),
    {
        let listed = match &self.genres {
            Some(g) => join_first(g, GENRES_SHOWN, ", "),
            None => {
                proof {
                    assert(join(Seq::<Seq<char>>::empty(), ", "@) =~= Seq::<char>::empty());
                }
                String::new()
            },
        };
        let detail = if listed.as_str().is_empty() {
            String::from_str("Artist")
        } else {
            listed
        };
        SearchResult { name: self.name.clone(), uri: self.uri.clone(), detail }
    }
}

impl PlaylistItem {
    /// The owner's display name, where the catalog gave one.
    pub open spec fn owner_name(&self) -> Option<Seq<char>> {
        match self.owner {
            Some(o) => Some(o@),
            None => None,
        }
    }

    /// The search result that stands for this playlist.
    pub open spec fn normalized(&self) -> SearchResultView {
        SearchResultView {
            name: self.name@,
            uri: self.uri@,
            detail: playlist_detail(self.owner_name(), self.total as nat),
        }
    }

    /// Makes the search result that stands for this playlist.
    pub fn normalize(&self) -> (result: SearchResult)
        ensures
            result@ == self.normalized(),
    {
        let mut detail = String::from_str("by ");
        match &self.owner {
            Some(o) => {
                detail.append(o.as_str());
            },
            None => {
                detail.append("Unknown");
            },
        }
        detail.append(" • ");
        let count = decimal_text(self.total as u64);
        detail.append(count.as_str());
        detail.append(" tracks");
        SearchResult { name: self.name.clone(), uri: self.uri.clone(), detail }
    }
}

/// The results that stand for `items`, one each and in the same order.
pub open spec fn normalized_tracks(items: Seq<TrackItem>) -> Seq<SearchResultView> {
    Seq::new(items.len(), |i: int| items[i].normalized())
}

/// The results that stand for `items`, one each and in the same order.
pub open spec fn normalized_albums(items: Seq<AlbumItem>) -> Seq<SearchResultView> {
    Seq::new(items.len(), |i: int| items[i].normalized())
}

/// The results that stand for `items`, one each and in the same order.
pub open spec fn normalized_artists(items: Seq<ArtistItem>) -> Seq<SearchResultView> {
    Seq::new(items.len(), |i: int| items[i].normalized())
}

/// The results that stand for `items`, one each and in the same order.
pub open spec fn normalized_playlists(items: Seq<PlaylistItem>) -> Seq<SearchResultView> {
    Seq::new(items.len(), |i: int| items[i].normalized())
}

/// Makes the results that stand for `items`, one each and in the same order.
pub fn normalize_tracks(items: &Vec<TrackItem>) -> (results: Vec<SearchResult>)
    ensures
        results.deep_view() == normalized_tracks(items@),
{
    let mut results: Vec<SearchResult> = Vec::new();
    let mut i: usize = 0;
    while i < items.len()
        invariant
            i <= items.len(),
            results.len() == i,
            forall|j: int| 0 <= j < i ==> (#[trigger] results@[j])@ == items@[j].normalized(),
        decreases items.len() - i,
    {
        let result = items[i].normalize();
        results.push(result);
        i += 1;
    }
    assert(results.deep_view() =~= normalized_tracks(items@));
    results
}

/// Makes the results that stand for `items`, one each and in the same order.
pub fn normalize_albums(items: &Vec<AlbumItem>) -> (results: Vec<SearchResult>)
    ensures
        results.deep_view() == normalized_albums(items@),
{
    let mut results: Vec<SearchResult> = Vec::new();
    let mut i: usize = 0;
    while i < items.len()
        invariant
            i <= items.len(),
            results.len() == i,
            forall|j: int| 0 <= j < i ==> (#[trigger] results@[j])@ == items@[j].normalized(),
        decreases items.len() - i,
    {
        let result = items[i].normalize();
        results.push(result);
        i += 1;
    }
    assert(results.deep_view() =~= normalized_albums(items@));
    results
}

/// Makes the results that stand for `items`, one each and in the same order.
pub fn normalize_artists(items: &Vec<ArtistItem>) -> (results: Vec<SearchResult>)
    ensures
        results.deep_view() == normalized_artists(items@),
{
    let mut results: Vec<SearchResult> = Vec::new();
    let mut i: usize = 0;
    while i < items.len()
        invariant
            i <= items.len(),
            results.len() == i,
            forall|j: int| 0 <= j < i ==> (#[trigger] results@[j])@ == items@[j].normalized(),
        decreases items.len() - i,
    {
        let result = items[i].normalize();
        results.push(result);
        i += 1;
    }
    assert(results.deep_view() =~= normalized_artists(items@));
    results
}

/// Makes the results that stand for `items`, one each and in the same order.
pub fn normalize_playlists(items: &Vec<PlaylistItem>) -> (results: Vec<SearchResult>)
    ensures
        results.deep_view() == normalized_playlists(items@),
{
    let mut results: Vec<SearchResult> = Vec::new();
    let mut i: usize = 0;
    while i < items.len()
        invariant
            i <= items.len(),
            results.len() == i,
            forall|j: int| 0 <= j < i ==> (#[trigger] results@[j])@ == items@[j].normalized(),
        decreases items.len() - i,
    {
        let result = items[i].normalize();
        results.push(result);
        i += 1;
    }
    assert(results.deep_view() =~= normalized_playlists(items@));
    results
}

/// What the catalog answers to a search: one optional section for each kind.
#[derive(Debug, PartialEq, Eq)]
pub struct SearchResponse {
    pub tracks: Option<Vec<TrackItem>>,
    pub albums: Option<Vec<AlbumItem>>,
    pub artists: Option<Vec<ArtistItem>>,
    pub playlists: Option<Vec<PlaylistItem>>,
}

impl SearchResponse {
    /// The results of the section for `kind`, in the catalog's order; none where the
    /// section is missing.
    pub open spec fn normalized(&self, kind: SearchType) -> Seq<SearchResultView> {
        match kind {
            SearchType::Track => match self.tracks {
                Some(items) => normalized_tracks(items@),
                None => Seq::empty(),
            },
            SearchType::Album => match self.albums {
                Some(items) => normalized_albums(items@),
                None => Seq::empty(),
            },
            SearchType::Artist => match self.artists {
                Some(items) => normalized_artists(items@),
                None => Seq::empty(),
            },
            SearchType::Playlist => match self.playlists {
                Some(items) => normalized_playlists(items@),
                None => Seq::empty(),
            },
        }
    }

    /// Makes the results of the section for `kind`.
    pub fn normalize(&self, kind: SearchType) -> (results: Vec<SearchResult>)
        ensures
            results.deep_view() == self.normalized(kind),
    {
        let found = match kind {
            SearchType::Track => match &self.tracks {
                Some(items) => Some(normalize_tracks(items)),
                None => None,
            },
            SearchType::Album => match &self.albums {
                Some(items) => Some(normalize_albums(items)),
                None => None,
            },
            SearchType::Artist => match &self.artists {
                Some(items) => Some(normalize_artists(items)),
                None => None,
            },
            SearchType::Playlist => match &self.playlists {
                Some(items) => Some(normalize_playlists(items)),
                None => None,
            },
        };
        match found {
            Some(results) => results,
            None => {
                let results: Vec<SearchResult> = Vec::new();
                assert(results.deep_view() =~= Seq::<SearchResultView>::empty());
                results
            },
        }
    }
}

/// Where searches are sent.
pub open spec fn search_url() -> Seq<char> {
    "https://api.spotify.com/v1/search"@
}

/// One search as it is sent to the catalog.
#[derive(Debug, PartialEq, Eq)]
pub struct SearchRequest {
    pub url: String,
    pub bearer: String,
    pub query: String,
    pub kind: String,
    pub limit: String,
}

/// The request that asks the catalog for at most `limit` entries of `kind` that match
/// `query`, in the name of `token`.
pub fn search_request(token: &str, query: &str, kind: SearchType, limit: u32) -> (request:
    SearchRequest)
    ensures
        request.url@ == search_url(),
        request.bearer@ == token@,
        request.query@ == query@,
        request.kind@ == kind.code(),
        request.limit@ == decimal(limit as nat),
{
    SearchRequest {
        url: String::from_str("https://api.spotify.com/v1/search"),
        bearer: String::from_str(token),
        query: String::from_str(query),
        kind: String::from_str(kind.as_str()),
        limit: decimal_text(limit as u64),
    }
}

/// Why a search gave no results.
#[derive(Debug, PartialEq, Eq)]
pub enum SearchError {
    /// The catalog answered with a status that does not report success.
    RequestFailed { status: u16, body: String },
    /// The catalog reported success, but its answer could not be read.
    ParseError,
}

impl SearchError {
    /// What the error says to the user.
    pub open spec fn message_text(&self) -> Seq<char> {
        match self {
            SearchError::RequestFailed { status, body } => "Search failed ("@ + status_line(*status)
                + "): "@ + body@,
            SearchError::ParseError => "Failed to parse search response"@,
        }
    }

    /// Writes what the error says to the user.
    pub fn message(&self) -> (text: String)
        ensures
            text@ == self.message_text(),
    {
        match self {
            SearchError::RequestFailed { status, body } => {
                let mut text = String::from_str("Search failed (");
                let line = status_text(*status);
                text.append(line.as_str());
                text.append("): ");
                text.append(body.as_str());
                text
            },
            SearchError::ParseError => String::from_str("Failed to parse search response"),
        }
    }
}

/// Turns the catalog's answer to a search for `kind` into results. `payload` is the
/// answer's body as read, or `None` where reading it failed. A status that does not
/// report success is an error that carries the status and the body; otherwise an
/// unreadable body is an error; otherwise the results are those of the section for
/// `kind`, in the catalog's order.
pub fn search(kind: SearchType, status: u16, body: String, payload: Option<SearchResponse>) -> (outcome:
    Result<Vec<SearchResult>, SearchError>)
    ensures
        match outcome {
            Ok(results) => success(status) && payload is Some && results.deep_view()
                == payload->0.normalized(kind),
            Err(SearchError::RequestFailed { status: s, body: b }) => !success(status) && s
                == status && b@ == body@,
            Err(SearchError::ParseError) => success(status) && payload is None,
        },
{
    if !is_success(status) {
        return Err(SearchError::RequestFailed { status, body });
    }
    match payload {
        Some(response) => Ok(response.normalize(kind)),
        None => Err(SearchError::ParseError),
    }
}

} // verus!
