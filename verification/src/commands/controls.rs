use crate::spotify::applescript::{
    get_now_playing, next_track, now_playing_fields, now_playing_query, now_playing_script,
    prev_track, repeat_command, repeat_query, set_repeat, set_shuffle, set_volume,
    shuffle_command, shuffle_query, tell_script, volume_command, volume_query,
    NOW_PLAYING_FIELDS,
};
use crate::text::case::{lowercase, to_lowercase};
use crate::text::chars::same_text;
use crate::text::number::{signed_decimal, signed_decimal_text};
use vstd::prelude::*;

verus! {

/// For how long the player is left alone after it was told to change the track, so
/// that it reports the new track when it is asked.
pub const TRACK_SETTLE_MILLIS: u64 = 200;

/// The loudest volume that the player takes.
pub const MAX_VOLUME: u32 = 100;

/// A script to run, and what to tell the user once it has run.
#[derive(Debug, PartialEq, Eq)]
pub struct Control {
    pub script: String,
    pub notice: Option<String>,
}

impl Control {
    /// What the user is told, as text.
    pub open spec fn notice_text(&self) -> Option<Seq<char>> {
        match self.notice {
            Some(n) => Some(n@),
            None => None,
        }
    }
}

/// Pauses playback, and says so.
pub fn pause() -> (control: Control)
    ensures
        control.script@ == tell_script("pause"@),
        control.notice_text() == Some("Paused"@),
{
    Control {
        script: crate::spotify::applescript::pause(),
        notice: Some(String::from_str("Paused")),
    }
}

/// Resumes playback, and says so.
pub fn resume() -> (control: Control)
    ensures
        control.script@ == tell_script("play"@),
        control.notice_text() == Some("Resumed"@),
{
    Control {
        script: crate::spotify::applescript::resume(),
        notice: Some(String::from_str("Resumed")),
    }
}

/// Pauses a playing player and resumes a paused one, without a word.
pub fn toggle() -> (control: Control)
    ensures
        control.script@ == tell_script("playpause"@),
        control.notice_text() is None,
{
    Control { script: crate::spotify::applescript::toggle(), notice: None }
}

/// What a change of track takes: the script that changes the track, the time for
/// which the player is then left alone, and the script that asks what is playing now.
#[derive(Debug, PartialEq, Eq)]
pub struct TrackChange {
    pub change: String,
    pub settle_millis: u64,
    pub ask: String,
}

/// Skips to the next track and finds out what it is.
pub fn next() -> (step: TrackChange)
    ensures
        step.change@ == tell_script("next track"@),
        step.settle_millis == TRACK_SETTLE_MILLIS,
        step.ask@ == now_playing_script(),
{
    TrackChange {
        change: next_track(),
        settle_millis: TRACK_SETTLE_MILLIS,
        ask: now_playing_query(),
    }
}

/// Goes back to the previous track and finds out what it is.
pub fn prev() -> (step: TrackChange)
    ensures
        step.change@ == tell_script("previous track"@),
        step.settle_millis == TRACK_SETTLE_MILLIS,
        step.ask@ == now_playing_script(),
{
    TrackChange {
        change: prev_track(),
        settle_millis: TRACK_SETTLE_MILLIS,
        ask: now_playing_query(),
    }
}

/// The track that a change of track led to, as it is announced: its name and its
/// artist. `output` is the player's answer to the question what is playing; where it
/// tells of no track, nothing is announced.
pub fn announcement(output: &str) -> (track: Option<(String, String)>)
    ensures
        match track {
            Some((name, artist)) => {
                &&& output@ != "STOPPED"@
                &&& now_playing_fields(output@).len() >= NOW_PLAYING_FIELDS
                &&& name@ == now_playing_fields(output@)[0]
                &&& artist@ == now_playing_fields(output@)[1]
            },
            None => output@ == "STOPPED"@ || now_playing_fields(output@).len()
                < NOW_PLAYING_FIELDS,
        },
{
    match get_now_playing(output) {
        Ok(info) => Some((info.track_name, info.artist)),
        Err(_) => None,
    }
}

/// The volume that is set when `level` is asked for: `MAX_VOLUME` at most.
pub open spec fn clamped(level: u32) -> i32 {
    if level > MAX_VOLUME {
        MAX_VOLUME as i32
    } else {
        level as i32
    }
}

/// The volume that is set is never above `MAX_VOLUME`, and it is the level that was
/// asked for wherever that is not above it.
pub proof fn lemma_clamped_is_in_range(level: u32)
    ensures
        0 <= clamped(level) <= MAX_VOLUME,
        level <= MAX_VOLUME ==> clamped(level) == level,
        level > MAX_VOLUME ==> clamped(level) == MAX_VOLUME,
{
}

/// What a volume command asks of the player.
#[derive(Debug, PartialEq, Eq)]
pub enum VolumeRequest {
    /// Set the volume to `level` with `script`.
    Change { level: i32, script: String },
    /// Ask for the volume with `script`.
    Ask { script: String },
}

/// Decides what a volume command does: with a level it sets the volume to that level,
/// but to `MAX_VOLUME` at most; without one it asks for the volume.
pub fn volume(level: Option<u32>) -> (request: VolumeRequest)
    ensures
        match request {
            VolumeRequest::Change { level: set, script } => {
                &&& level is Some
                &&& set == clamped(level->0)
                &&& script@ == tell_script(volume_command(set))
            },
            VolumeRequest::Ask { script } => level is None && script@ == tell_script(
                "sound volume"@,
            ),
        },
{
    match level {
        Some(asked) => {
            let set: i32 = if asked > MAX_VOLUME {
                MAX_VOLUME as i32
            } else {
                asked as i32
            };
            VolumeRequest::Change { level: set, script: set_volume(set) }
        },
        None => VolumeRequest::Ask { script: volume_query() },
    }
}

/// Tells the volume.
pub fn volume_notice(level: i32) -> (text: String)
    ensures
        text@ == "Volume: "@ + signed_decimal(level as int) + "%"@,
{
    let mut text = String::from_str("Volume: ");
    let digits = signed_decimal_text(level as i64);
    text.append(digits.as_str());
    text.append("%");
    text
}

/// Whether a word in lower case switches something on: `on`, `true` and `1` do, and
/// nothing else does.
pub open spec fn switches_on(lower: Seq<char>) -> bool {
    lower == "on"@ || lower == "true"@ || lower == "1"@
}

/// Tells whether a word, given in lower case, switches something on.
pub fn is_on(lower: &str) -> (on: bool)
    ensures
        on == switches_on(lower@),
{
    same_text(lower, "on") || same_text(lower, "true") || same_text(lower, "1")
}

/// Reads a word that switches something on or off, without regard to case.
pub fn parse_switch(state: &str) -> (on: bool)
    ensures
        on == switches_on(lowercase(state@)),
{
    let lower = to_lowercase(state);
    is_on(lower.as_str())
}

/// What a shuffle or repeat command asks of the player.
#[derive(Debug, PartialEq, Eq)]
pub enum SwitchRequest {
    /// Switch to `on` with `script`.
    Turn { on: bool, script: String },
    /// Ask how the switch stands with `script`.
    Ask { script: String },
}

/// Decides what a shuffle command does: with a word it switches shuffling as the word
/// says; without one it asks whether shuffling is on.
pub fn shuffle(state: Option<String>) -> (request: SwitchRequest)
    ensures
        match request {
            SwitchRequest::Turn { on, script } => {
                &&& state is Some
                &&& on == switches_on(lowercase(state->0@))
                &&& script@ == tell_script(shuffle_command(on))
            },
            SwitchRequest::Ask { script } => state is None && script@ == tell_script(
                "shuffling"@,
            ),
        },
{
    match state {
        Some(word) => {
            let on = parse_switch(word.as_str());
            SwitchRequest::Turn { on, script: set_shuffle(on) }
        },
        None => SwitchRequest::Ask { script: shuffle_query() },
    }
}

/// Decides what a repeat command does: with a word it switches repeating as the word
/// says; without one it asks whether repeating is on.
pub fn repeat(state: Option<String>) -> (request: SwitchRequest)
    ensures
        match request {
            SwitchRequest::Turn { on, script } => {
                &&& state is Some
                &&& on == switches_on(lowercase(state->0@))
                &&& script@ == tell_script(repeat_command(on))
            },
            SwitchRequest::Ask { script } => state is None && script@ == tell_script(
                "repeating"@,
            ),
        },
{
    match state {
        Some(word) => {
            let on = parse_switch(word.as_str());
            SwitchRequest::Turn { on, script: set_repeat(on) }
        },
        None => SwitchRequest::Ask { script: repeat_query() },
    }
}

/// How a switch is told: its name, then `on` or `off`.
pub open spec fn switch_notice_text(name: Seq<char>, on: bool) -> Seq<char> {
    name + ": "@ + if on {
        "on"@
    } else {
        "off"@
    }
}

/// Tells how the switch called `name` stands.
pub fn switch_notice(name: &str, on: bool) -> (text: String)
    ensures
        text@ == switch_notice_text(name@, on),
{
    let mut text = String::from_str(name);
    text.append(": ");
    if on {
        text.append("on");
    } else {
        text.append("off");
    }
    text
}

} // verus!
