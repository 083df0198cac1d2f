use spot::display::{format_duration, nothing_found, now_playing, row_number, NowPlayingLines};
use spot::spotify::api::SearchType;
use spot::spotify::applescript::NowPlayingInfo;

#[test]
fn durations_are_minutes_and_seconds() {
    assert_eq!(format_duration(0), "0:00");
    assert_eq!(format_duration(999), "0:00");
    assert_eq!(format_duration(1000), "0:01");
    assert_eq!(format_duration(59_999), "0:59");
    assert_eq!(format_duration(60_000), "1:00");
    assert_eq!(format_duration(65_000), "1:05");
    assert_eq!(format_duration(238_640), "3:58");
    assert_eq!(format_duration(3_600_000), "60:00");
    assert_eq!(format_duration(i64::MAX), "153722867280912:55");
}

#[test]
fn negative_durations_keep_their_sign() {
    assert_eq!(format_duration(-1), "0:00");
    assert_eq!(format_duration(-5_000), "0:-5");
    assert_eq!(format_duration(-65_000), "-1:-5");
    assert_eq!(format_duration(-75_000), "-1:-15");
    assert_eq!(format_duration(i64::MIN), "-153722867280912:-55");
    for ms in [-1i64, -5_000, -65_000, -75_000, -600_000, i64::MIN] {
        let total = ms / 1000;
        assert_eq!(format_duration(ms), format!("{}:{:02}", total / 60, total % 60));
    }
}

#[test]
fn now_playing_lines() {
    let info = NowPlayingInfo {
        track_name: "Creep".to_string(),
        artist: "Radiohead".to_string(),
        album: "Pablo Honey".to_string(),
        track_id: "spotify:track:1".to_string(),
        duration_ms: 238_640,
        position: "12.5".to_string(),
        is_playing: true,
    };
    assert_eq!(
        now_playing(&info, 12_500),
        NowPlayingLines {
            symbol: "▶".to_string(),
            title: "Creep".to_string(),
            byline: "— Radiohead • Pablo Honey".to_string(),
            position: "0:12".to_string(),
            duration: "3:58".to_string(),
        }
    );
    let paused = NowPlayingInfo { is_playing: false, ..info };
    assert_eq!(now_playing(&paused, 0).symbol, "⏸");
}

#[test]
fn nothing_found_names_the_kind_in_lower_case() {
    assert_eq!(nothing_found(SearchType::Track), "No tracks found.");
    assert_eq!(nothing_found(SearchType::Album), "No albums found.");
    assert_eq!(nothing_found(SearchType::Artist), "No artists found.");
    assert_eq!(nothing_found(SearchType::Playlist), "No playlists found.");
}

#[test]
fn row_numbers_count_from_one_and_are_aligned() {
    assert_eq!(row_number(0), " 1.");
    assert_eq!(row_number(8), " 9.");
    assert_eq!(row_number(9), "10.");
    assert_eq!(row_number(19), "20.");
    assert_eq!(row_number(99), "100.");
    for index in [0usize, 5, 9, 10, 123] {
        assert_eq!(row_number(index), format!("{:>2}.", index + 1));
    }
}
