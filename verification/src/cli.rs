use crate::commands::play::PlayMode;
use crate::commands::search::query_text;
use crate::spotify::api::SearchType;
use crate::text::parts::join_text;
use vstd::prelude::*;

verus! {

/// The kind that the flags of a command line ask for: the album flag goes before the
/// artist flag, that before the playlist flag, and without a flag tracks are meant.
pub open spec fn flagged_kind(album: bool, artist: bool, playlist: bool) -> SearchType {
    if album {
        SearchType::Album
    } else if artist {
        SearchType::Artist
    } else if playlist {
        SearchType::Playlist
    } else {
        SearchType::Track
    }
}

/// Picks the kind that the flags of a command line ask for.
pub fn resolve_search_type(album: bool, artist: bool, playlist: bool) -> (kind: SearchType)
    ensures
        kind == flagged_kind(album, artist, playlist),
{
    if album {
        SearchType::Album
    } else if artist {
        SearchType::Artist
    } else if playlist {
        SearchType::Playlist
    } else {
        SearchType::Track
    }
}

/// The mode that the flags of a play command force, with the same precedence; without
/// a flag no mode is forced.
pub fn play_mode(album: bool, artist: bool, playlist: bool) -> (mode: Option<PlayMode>)
    ensures
        match mode {
            Some(m) => (album || artist || playlist) && m.kind() == flagged_kind(
                album,
                artist,
                playlist,
            ),
            None => !album && !artist && !playlist,
        },
{
    if album {
        Some(PlayMode::Album)
    } else if artist {
        Some(PlayMode::Artist)
    } else if playlist {
        Some(PlayMode::Playlist)
    } else {
        None
    }
}

/// The query of a play command: none where no word was given, else the words with one
/// space between neighbours.
pub fn play_query(words: &Vec<String>) -> (query: Option<String>)
    ensures
        match query {
            Some(q) => words.len() > 0 && q@ == query_text(words.deep_view()),
            None => words.len() == 0,
        },
{
    if words.len() == 0 {
        None
    } else {
        Some(join_text(words, " "))
    }
}

} // verus!
