use crate::spotify::api::SearchType;
use crate::spotify::applescript::NowPlayingInfo;
use crate::text::case::{lowercase, to_lowercase};
use crate::text::number::{
    decimal, decimal_text, digit_char, signed_decimal, signed_decimal_text,
};
use vstd::prelude::*;

verus! {

/// The quotient of `a` by a positive `b`, rounded towards zero.
pub open spec fn truncated_div(a: int, b: int) -> int {
    if a >= 0 {
        a / b
    } else {
        -((-a) / b)
    }
}

/// What is left of `a` after `truncated_div` by `b`; it has the sign of `a`.
pub open spec fn truncated_rem(a: int, b: int) -> int {
    a - b * truncated_div(a, b)
}

/// A number written in two places at least: one digit gets a zero in front.
pub open spec fn two_places(v: int) -> Seq<char> {
    if 0 <= v < 10 {
        "0"@ + decimal(v as nat)
    } else {
        signed_decimal(v)
    }
}

/// A duration of `ms` milliseconds as minutes and seconds: the whole seconds are taken,
/// the minutes are written as they are and the seconds in two places.
pub open spec fn duration_text(ms: int) -> Seq<char> {
    let secs = truncated_div(ms, 1000);
    signed_decimal(truncated_div(secs, 60)) + ":"@ + two_places(truncated_rem(secs, 60))
}

/// Writes a duration of `ms` milliseconds as minutes and seconds.
pub fn format_duration(ms: i64) -> (text: String)
    ensures
        text@ == duration_text(ms as int),
{
    let total_secs = ms / 1000;
    let mins = total_secs / 60;
    let secs = total_secs % 60;
    let mut text = signed_decimal_text(mins);
    text.append(":");
    if 0 <= secs && secs < 10 {
        text.append("0");
        let digit = decimal_text(secs as u64);
        text.append(digit.as_str());
    } else {
        let digits = signed_decimal_text(secs);
        text.append(digits.as_str());
    }
    text
}

/// A duration that is not negative shows its seconds as a number below sixty, in two
/// places exactly.
pub proof fn lemma_duration_of_a_length(ms: int)
    requires
        ms >= 0,
    ensures
        duration_text(ms) == decimal((ms / 60000) as nat) + ":"@ + two_places((ms / 1000) % 60),
        two_places((ms / 1000) % 60).len() == 2,
{
    let secs = ms / 1000;
    assert(secs / 60 == ms / 60000) by (nonlinear_arith)
        requires
            secs == ms / 1000,
            ms >= 0,
    ;
    assert(secs - 60 * (secs / 60) == secs % 60) by (nonlinear_arith)
        requires
            secs >= 0,
    ;
    let s = secs % 60;
    reveal_strlit("0");
    if s < 10 {
        assert(decimal(s as nat).len() == 1);
    } else {
        assert(decimal(s as nat) == decimal((s / 10) as nat).push(digit_char((s % 10) as nat)));
        assert(decimal((s / 10) as nat).len() == 1);
    }
}

/// The sign that shows whether the player plays.
pub open spec fn state_symbol(is_playing: bool) -> Seq<char> {
    if is_playing {
        "▶"@
    } else {
        "⏸"@
    }
}

/// The texts that show what is playing.
#[derive(Debug, PartialEq, Eq)]
pub struct NowPlayingLines {
    pub symbol: String,
    pub title: String,
    pub byline: String,
    pub position: String,
    pub duration: String,
}

/// Writes the texts that show `info`, where the player is `position_ms` milliseconds
/// into the track: the sign of the player's state, the track's name, its artist and
/// album, and position and duration as minutes and seconds.
pub fn now_playing(info: &NowPlayingInfo, position_ms: i64) -> (lines: NowPlayingLines)
    ensures
        lines.symbol@ == state_symbol(info.is_playing),
        lines.title@ == info.track_name@,
        lines.byline@ == "— "@ + info.artist@ + " • "@ + info.album@,
        lines.position@ == duration_text(position_ms as int),
        lines.duration@ == duration_text(info.duration_ms as int),
{
    let symbol = if info.is_playing {
        String::from_str("▶")
    } else {
        String::from_str("⏸")
    };
    let mut byline = String::from_str("— ");
    byline.append(info.artist.as_str());
    byline.append(" • ");
    byline.append(info.album.as_str());
    NowPlayingLines {
        symbol,
        title: info.track_name.clone(),
        byline,
        position: format_duration(position_ms),
        duration: format_duration(info.duration_ms),
    }
}

/// What is said when a search for `kind` found nothing.
pub open spec fn nothing_found_text(kind: SearchType) -> Seq<char> {
    "No "@ + lowercase(kind.heading()) + " found."@
}

/// Writes what is said when a search for `kind` found nothing.
pub fn nothing_found(kind: SearchType) -> (text: String)
    ensures
        text@ == nothing_found_text(kind),
{
    let mut text = String::from_str("No ");
    let what = to_lowercase(kind.label());
    text.append(what.as_str());
    text.append(" found.");
    text
}

/// The number in front of the row at `index` of a listing: rows are counted from one,
/// a number of one digit is moved one place to the right, and a full stop follows.
pub open spec fn row_number_text(index: nat) -> Seq<char> {
    (if index + 1 < 10 {
        " "@ + decimal(index + 1)
    } else {
        decimal(index + 1)
    }) + "."@
}

/// Writes the number in front of the row at `index` of a listing.
pub fn row_number(index: usize) -> (text: String)
    requires
        index < usize::MAX,
    ensures
        text@ == row_number_text(index as nat),
{
    let number = index + 1;
    let mut text = if number < 10 {
        String::from_str(" ")
    } else {
        String::new()
    };
    let digits = decimal_text(number as u64);
    text.append(digits.as_str());
    text.append(".");
    text
}

} // verus!
