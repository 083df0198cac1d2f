use spot::cli::{play_mode, play_query, resolve_search_type};
use spot::commands::alias::add;
use spot::commands::play::{
    choices, choose_free, gather, resolve_forced, resolve_free, resolve_interactive, run, searches,
    NotFound, PlayIntent, PlayMode, Resolution, SearchPlan, DIRECT_LIMIT, LISTING_LIMIT,
};
use spot::commands::search::{run as search_run, QueryRequired, SearchJob};
use spot::config::Config;
use spot::spotify::api::{search_request, SearchResult, SearchType};

fn result(name: &str, kind: &str) -> SearchResult {
    SearchResult {
        name: name.to_string(),
        uri: format!("spotify:{kind}:{name}"),
        detail: format!("{kind} detail"),
    }
}

fn list(kind: &str, names: &[&str]) -> Vec<SearchResult> {
    names.iter().map(|n| result(n, kind)).collect()
}

#[test]
fn exact_artist_wins_over_matching_track() {
    let tracks = list("track", &["Radiohead", "Creep"]);
    let albums = list("album", &["Radiohead"]);
    let artists = list("artist", &["Radiohead", "Radiohead Tribute"]);
    let resolution = resolve_free("Radiohead", &tracks, &albums, &artists);
    assert_eq!(
        resolution,
        Ok(Resolution {
            result: result("Radiohead", "artist"),
            kind: SearchType::Artist,
            force_repeat: false,
        })
    );
}

#[test]
fn generic_query_selects_top_track() {
    let tracks = list("track", &["OK Computer Song", "ok then"]);
    let albums = list("album", &["OK Computer"]);
    let artists = list("artist", &["OK Go"]);
    let resolution = resolve_free("ok", &tracks, &albums, &artists);
    assert_eq!(
        resolution,
        Ok(Resolution {
            result: result("OK Computer Song", "track"),
            kind: SearchType::Track,
            force_repeat: false,
        })
    );
}

#[test]
fn names_are_compared_without_regard_to_case() {
    let tracks = list("track", &["t"]);
    let artists = list("artist", &["RADIOHEAD"]);
    let resolution = resolve_free("radiohead", &tracks, &Vec::new(), &artists).unwrap();
    assert_eq!(resolution.kind, SearchType::Artist);
    let artists = list("artist", &["Björk"]);
    let resolution = resolve_free("BJÖRK", &tracks, &Vec::new(), &artists).unwrap();
    assert_eq!(resolution.kind, SearchType::Artist);
}

#[test]
fn name_must_equal_the_whole_query() {
    let tracks = list("track", &["t"]);
    let artists = list("artist", &["Radiohead"]);
    let albums = list("album", &["Radio"]);
    for query in ["Radio", "Radiohead ", "Radiohead live", ""] {
        let resolution = resolve_free(query, &tracks, &Vec::new(), &artists).unwrap();
        assert_eq!(resolution.kind, SearchType::Track);
    }
    let resolution = resolve_free("Radio", &tracks, &albums, &artists).unwrap();
    assert_eq!(resolution.kind, SearchType::Album);
}

#[test]
fn only_the_top_result_can_match_exactly() {
    let tracks = list("track", &["t"]);
    let artists = list("artist", &["Someone Else", "Radiohead"]);
    let resolution = resolve_free("Radiohead", &tracks, &Vec::new(), &artists).unwrap();
    assert_eq!(resolution.kind, SearchType::Track);
    assert_eq!(resolution.result.name, "t");
}

#[test]
fn exact_album_is_played_on_repeat() {
    let tracks = list("track", &["Kid A"]);
    let albums = list("album", &["Kid A", "Kid A Mnesia"]);
    let artists = list("artist", &["Kid Cudi"]);
    let resolution = resolve_free("kid a", &tracks, &albums, &artists);
    assert_eq!(
        resolution,
        Ok(Resolution {
            result: result("Kid A", "album"),
            kind: SearchType::Album,
            force_repeat: true,
        })
    );
    assert_eq!(resolution.unwrap().repeat_hint(), Some(true));
}

#[test]
fn exact_artist_goes_before_exact_album() {
    let albums = list("album", &["Weezer"]);
    let artists = list("artist", &["Weezer"]);
    let resolution = resolve_free("weezer", &Vec::new(), &albums, &artists).unwrap();
    assert_eq!(resolution.kind, SearchType::Artist);
    assert!(!resolution.force_repeat);
    assert_eq!(resolution.repeat_hint(), None);
}

#[test]
fn fallback_order_is_track_artist_album() {
    let tracks = list("track", &["t1", "t2"]);
    let albums = list("album", &["al1"]);
    let artists = list("artist", &["ar1"]);
    let none: Vec<SearchResult> = Vec::new();
    let pick = |t: &Vec<SearchResult>, al: &Vec<SearchResult>, ar: &Vec<SearchResult>| {
        resolve_free("query", t, al, ar).map(|r| (r.result.name, r.kind, r.force_repeat))
    };
    assert_eq!(pick(&tracks, &albums, &artists), Ok(("t1".to_string(), SearchType::Track, false)));
    assert_eq!(pick(&none, &albums, &artists), Ok(("ar1".to_string(), SearchType::Artist, false)));
    assert_eq!(pick(&none, &albums, &none), Ok(("al1".to_string(), SearchType::Album, true)));
    assert_eq!(pick(&tracks, &none, &none), Ok(("t1".to_string(), SearchType::Track, false)));
}

#[test]
fn nothing_found_when_all_searches_are_empty() {
    let none: Vec<SearchResult> = Vec::new();
    let outcome = resolve_free("zzz", &none, &none, &none);
    assert_eq!(outcome, Err(NotFound { query: "zzz".to_string(), kind: None }));
    assert_eq!(outcome.unwrap_err().message(), "No match found for \"zzz\"");
}

#[test]
fn choose_free_follows_the_given_matches() {
    let tracks = list("track", &["t"]);
    let albums = list("album", &["al"]);
    let artists = list("artist", &["ar"]);
    let none: Vec<SearchResult> = Vec::new();
    let kind = |a, b, t: &Vec<SearchResult>, al: &Vec<SearchResult>, ar: &Vec<SearchResult>| {
        choose_free(a, b, t, al, ar).map(|r| (r.kind, r.force_repeat))
    };
    assert_eq!(kind(true, true, &tracks, &albums, &artists), Some((SearchType::Artist, false)));
    assert_eq!(kind(false, true, &tracks, &albums, &artists), Some((SearchType::Album, true)));
    assert_eq!(kind(false, false, &tracks, &albums, &artists), Some((SearchType::Track, false)));
    assert_eq!(kind(true, true, &tracks, &none, &none), Some((SearchType::Track, false)));
    assert_eq!(kind(true, false, &none, &albums, &none), Some((SearchType::Album, true)));
    assert_eq!(kind(true, true, &none, &none, &none), None);
}

#[test]
fn forced_resolution_takes_the_first_result() {
    let albums = list("album", &["first", "second"]);
    assert_eq!(
        resolve_forced("q", SearchType::Album, &albums),
        Ok(result("first", "album"))
    );
}

#[test]
fn forced_resolution_fails_on_empty_results() {
    let outcome = resolve_forced("nothing here", SearchType::Playlist, &Vec::new());
    assert_eq!(
        outcome,
        Err(NotFound { query: "nothing here".to_string(), kind: Some(SearchType::Playlist) })
    );
    assert_eq!(outcome.unwrap_err().message(), "No playlist found for \"nothing here\"");
    let missing = NotFound { query: "x".to_string(), kind: Some(SearchType::Track) };
    assert_eq!(missing.message(), "No track found for \"x\"");
}

#[test]
fn interactive_resolution_returns_the_selected_result() {
    let tracks = list("track", &["a", "b", "c"]);
    assert_eq!(
        resolve_interactive("q", SearchType::Track, &tracks, Some(2)),
        Ok(Some(result("c", "track")))
    );
    assert_eq!(
        resolve_interactive("q", SearchType::Track, &tracks, Some(0)),
        Ok(Some(result("a", "track")))
    );
}

#[test]
fn interactive_cancel_is_not_an_error() {
    let tracks = list("track", &["a", "b", "c"]);
    assert_eq!(resolve_interactive("q", SearchType::Track, &tracks, None), Ok(None));
    assert_eq!(resolve_interactive("q", SearchType::Track, &tracks, Some(3)), Ok(None));
}

#[test]
fn interactive_resolution_fails_before_presenting_nothing() {
    let none: Vec<SearchResult> = Vec::new();
    let expected = Err(NotFound { query: "q".to_string(), kind: Some(SearchType::Artist) });
    assert_eq!(resolve_interactive("q", SearchType::Artist, &none, None), expected);
    assert_eq!(resolve_interactive("q", SearchType::Artist, &none, Some(0)), expected);
}

#[test]
fn choices_are_offered_in_upstream_order() {
    let tracks = list("track", &["b", "a"]);
    assert_eq!(choices(&tracks), vec!["b — track detail", "a — track detail"]);
    assert!(choices(&Vec::new()).is_empty());
}

#[test]
fn empty_query_resumes_without_search() {
    let config = Config::default();
    assert_eq!(run(&config, None), PlayIntent::Resume);
    assert_eq!(run(&config, Some("")), PlayIntent::Resume);
    assert_eq!(run(&config, Some("   ")), PlayIntent::Resume);
    assert_eq!(run(&config, Some(" \t\n")), PlayIntent::Resume);
    assert_eq!(run(&config, Some("\u{a0}\u{2003}")), PlayIntent::Resume);
}

#[test]
fn empty_query_resumes_even_if_an_alias_is_blank() {
    let mut config = Config::default();
    add(&mut config, " ", "something");
    assert_eq!(run(&config, Some(" ")), PlayIntent::Resume);
}

#[test]
fn alias_is_substituted_before_search() {
    let mut config = Config::default();
    add(&mut config, "white-album", "The Beatles White Album");
    let intent = run(&config, Some("white-album"));
    assert_eq!(intent, PlayIntent::Search("The Beatles White Album".to_string()));
    let query = match intent {
        PlayIntent::Search(q) => q,
        PlayIntent::Resume => unreachable!(),
    };
    let sent = search_request("tok", &query, SearchType::Track, DIRECT_LIMIT);
    assert_eq!(sent.query, "The Beatles White Album");
}

#[test]
fn alias_substitution_needs_the_exact_name() {
    let mut config = Config::default();
    add(&mut config, "white-album", "The Beatles White Album");
    for raw in ["White-Album", "white-album ", "white", "the white-album"] {
        assert_eq!(run(&config, Some(raw)), PlayIntent::Search(raw.to_string()));
    }
    assert_eq!(run(&Config::default(), Some("white-album")), PlayIntent::Search("white-album".to_string()));
}

#[test]
fn alias_substitution_is_a_full_replace_and_not_repeated() {
    let mut config = Config::default();
    add(&mut config, "a", "b");
    add(&mut config, "b", "c");
    assert_eq!(run(&config, Some("a")), PlayIntent::Search("b".to_string()));
    assert_eq!(config.resolve("b"), "c");
    assert_eq!(config.resolve("z"), "z");
}

#[test]
fn play_searches_follow_the_mode() {
    assert_eq!(DIRECT_LIMIT, 5);
    assert_eq!(LISTING_LIMIT, 20);
    assert_eq!(
        searches(None),
        vec![
            SearchPlan { kind: SearchType::Track, limit: 5 },
            SearchPlan { kind: SearchType::Album, limit: 5 },
            SearchPlan { kind: SearchType::Artist, limit: 5 },
        ]
    );
    assert_eq!(
        searches(Some(PlayMode::Playlist)),
        vec![SearchPlan { kind: SearchType::Playlist, limit: 5 }]
    );
    assert_eq!(searches(Some(PlayMode::Track)), vec![SearchPlan { kind: SearchType::Track, limit: 5 }]);
}

#[test]
fn play_mode_kinds_and_repeat_hints() {
    assert_eq!(PlayMode::Track.search_type(), SearchType::Track);
    assert_eq!(PlayMode::Album.search_type(), SearchType::Album);
    assert_eq!(PlayMode::Artist.search_type(), SearchType::Artist);
    assert_eq!(PlayMode::Playlist.search_type(), SearchType::Playlist);
    assert_eq!(PlayMode::Track.repeat_hint(), Some(false));
    assert_eq!(PlayMode::Album.repeat_hint(), Some(true));
    assert_eq!(PlayMode::Artist.repeat_hint(), Some(false));
    assert_eq!(PlayMode::Playlist.repeat_hint(), Some(false));
}

#[test]
fn flags_choose_the_kind_by_precedence() {
    assert_eq!(resolve_search_type(false, false, false), SearchType::Track);
    assert_eq!(resolve_search_type(true, false, false), SearchType::Album);
    assert_eq!(resolve_search_type(true, true, true), SearchType::Album);
    assert_eq!(resolve_search_type(false, true, true), SearchType::Artist);
    assert_eq!(resolve_search_type(false, false, true), SearchType::Playlist);
    assert_eq!(play_mode(false, false, false), None);
    assert_eq!(play_mode(true, true, false), Some(PlayMode::Album));
    assert_eq!(play_mode(false, true, true), Some(PlayMode::Artist));
    assert_eq!(play_mode(false, false, true), Some(PlayMode::Playlist));
}

#[test]
fn query_words_are_joined_by_spaces() {
    let words = vec!["the".to_string(), "white".to_string(), "album".to_string()];
    assert_eq!(play_query(&words), Some("the white album".to_string()));
    assert_eq!(play_query(&vec!["one".to_string()]), Some("one".to_string()));
    assert_eq!(play_query(&vec!["".to_string()]), Some("".to_string()));
    assert_eq!(play_query(&Vec::new()), None);
}

#[test]
fn search_command_needs_a_query() {
    assert_eq!(search_run(&Vec::new(), SearchType::Track), Err(QueryRequired));
    assert_eq!(search_run(&vec!["".to_string()], SearchType::Track), Err(QueryRequired));
    assert_eq!(
        QueryRequired.message(),
        "Search query is required. Usage: spot search <query>"
    );
    let words = vec!["kid".to_string(), "a".to_string()];
    assert_eq!(
        search_run(&words, SearchType::Album),
        Ok(SearchJob {
            query: "kid a".to_string(),
            plan: SearchPlan { kind: SearchType::Album, limit: 20 },
        })
    );
    assert_eq!(
        search_run(&vec!["".to_string(), "".to_string()], SearchType::Track).map(|j| j.query),
        Ok(" ".to_string())
    );
}

#[test]
fn one_failed_search_fails_the_whole_resolution() {
    let tracks = list("track", &["t"]);
    let albums = list("album", &["al"]);
    let artists = list("artist", &["ar"]);
    assert_eq!(
        gather::<&str>(Ok(tracks.clone()), Ok(albums.clone()), Ok(artists.clone())),
        Ok((tracks.clone(), albums.clone(), artists.clone()))
    );
    assert_eq!(gather(Err("tracks"), Ok(albums.clone()), Ok(artists.clone())), Err("tracks"));
    assert_eq!(gather(Ok(tracks.clone()), Err("albums"), Ok(artists.clone())), Err("albums"));
    assert_eq!(gather(Ok(tracks.clone()), Ok(albums.clone()), Err("artists")), Err("artists"));
    assert_eq!(gather(Err("tracks"), Err("albums"), Err("artists")), Err("tracks"));
    assert_eq!(gather(Ok(tracks), Err("albums"), Err("artists")), Err("albums"));
}
