use crate::text::chars::same_text;
use crate::text::number::{parse_integer, parse_within, signed_decimal, signed_decimal_text};
use crate::text::parts::{pieces, pieces_text};
use vstd::prelude::*;

verus! {

/// Why the player did not do, or did not tell, what it was asked.
#[derive(Debug, PartialEq, Eq)]
pub enum PlaybackError {
    /// The script could not be run, or ended in an error; the text is what it said.
    Script(String),
    /// The player is stopped: no track is loaded.
    NothingPlaying,
    /// The player's answer does not have the expected form; the text is the answer.
    UnexpectedOutput(String),
    /// The player's answer is not a volume.
    BadVolume,
}

impl PlaybackError {
    /// What the error says to the user.
    pub open spec fn message_text(&self) -> Seq<char> {
        match self {
            PlaybackError::Script(said) => "osascript failed: "@ + said@,
            PlaybackError::NothingPlaying => "No track is currently playing"@,
            PlaybackError::UnexpectedOutput(output) => "Unexpected output from Spotify: "@
                + output@,
            PlaybackError::BadVolume => "Failed to parse volume from Spotify"@,
        }
    }

    /// Writes what the error says to the user.
    pub fn message(&self) -> (text: String)
        ensures
            text@ == self.message_text(),
    {
        match self {
            PlaybackError::Script(said) => {
                let mut text = String::from_str("osascript failed: ");
                text.append(said.as_str());
                text
            },
            PlaybackError::NothingPlaying => String::from_str("No track is currently playing"),
            PlaybackError::UnexpectedOutput(output) => {
                let mut text = String::from_str("Unexpected output from Spotify: ");
                text.append(output.as_str());
                text
            },
            PlaybackError::BadVolume => String::from_str("Failed to parse volume from Spotify"),
        }
    }
}

/// The script that tells the player to do `command`.
pub open spec fn tell_script(command: Seq<char>) -> Seq<char> {
    "tell application \"Spotify\" to "@ + command
}

/// How `on` is written in a script.
pub open spec fn switch_word(on: bool) -> Seq<char> {
    if on {
        "true"@
    } else {
        "false"@
    }
}

/// The command that plays what `uri` identifies.
pub open spec fn play_command(uri: Seq<char>) -> Seq<char> {
    "play track \""@ + uri + "\""@
}

/// The command that sets the volume.
pub open spec fn volume_command(vol: i32) -> Seq<char> {
    "set sound volume to "@ + signed_decimal(vol as int)
}

/// The command that switches shuffling.
pub open spec fn shuffle_command(on: bool) -> Seq<char> {
    "set shuffling to "@ + switch_word(on)
}

/// The command that switches repeating.
pub open spec fn repeat_command(on: bool) -> Seq<char> {
    "set repeating to "@ + switch_word(on)
}

/// The script that asks whether the player's process runs.
pub open spec fn running_script() -> Seq<char> {
    "tell application \"System Events\" to (name of processes) contains \"Spotify\""@
}

/// The script that asks what is playing. It answers `STOPPED`, or seven fields with
/// `|||` between them: track, artist, album, track identifier, duration in
/// milliseconds, position in seconds, player state.
pub open spec fn now_playing_script() -> Seq<char> {
    "\n"@
        + "tell application \"Spotify\"\n"@
        + "    if player state is stopped then\n"@
        + "        return \"STOPPED\"\n"@
        + "    end if\n"@
        + "    set trackName to name of current track\n"@
        + "    set artistName to artist of current track\n"@
        + "    set albumName to album of current track\n"@
        + "    set trackId to id of current track\n"@
        + "    set trackDuration to duration of current track\n"@
        + "    set trackPosition to player position\n"@
        + "    set playState to player state as string\n"@
        + "    return trackName & \"|||\" & artistName & \"|||\" & albumName & \"|||\" & trackId"@
        + " & \"|||\" & trackDuration & \"|||\" & trackPosition & \"|||\" & playState\n"@
        + "end tell\n"@
}

/// The script that tells the player to do `command`.
pub fn tell_spotify(command: &str) -> (script: String)
    ensures
        script@ == tell_script(command@),
{
    let mut script = String::from_str("tell application \"Spotify\" to ");
    script.append(command);
    script
}

/// How `on` is written in a script.
fn switch_text(on: bool) -> (word: &'static str)
    ensures
        word@ == switch_word(on),
{
    if on {
        "true"
    } else {
        "false"
    }
}

/// The script that asks whether the player's process runs.
pub fn running_query() -> (script: String)
    ensures
        script@ == running_script(),
{
    String::from_str(
        "tell application \"System Events\" to (name of processes) contains \"Spotify\"",
    )
}

/// The script that starts the player.
pub fn activate() -> (script: String)
    ensures
        script@ == tell_script("activate"@),
{
    tell_spotify("activate")
}

/// Reads the answer to `running_query` and tells whether the player has to be started
/// before it can be told anything: it has unless the answer is `true`.
pub fn ensure_running(reply: &str) -> (launch: bool)
    ensures
        launch == (reply@ != "true"@),
{
    !same_text(reply, "true")
}

/// The script that plays what `uri` identifies.
pub fn play_uri(uri: &str) -> (script: String)
    ensures
        script@ == tell_script(play_command(uri@)),
{
    let mut command = String::from_str("play track \"");
    command.append(uri);
    command.append("\"");
    tell_spotify(command.as_str())
}

/// The script that pauses playback.
pub fn pause() -> (script: String)
    ensures
        script@ == tell_script("pause"@),
{
    tell_spotify("pause")
}

/// The script that resumes playback.
pub fn resume() -> (script: String)
    ensures
        script@ == tell_script("play"@),
{
    tell_spotify("play")
}

/// The script that pauses a playing player and resumes a paused one.
pub fn toggle() -> (script: String)
    ensures
        script@ == tell_script("playpause"@),
{
    tell_spotify("playpause")
}

/// The script that skips to the next track.
pub fn next_track() -> (script: String)
    ensures
        script@ == tell_script("next track"@),
{
    tell_spotify("next track")
}

/// The script that goes back to the previous track.
pub fn prev_track() -> (script: String)
    ensures
        script@ == tell_script("previous track"@),
{
    tell_spotify("previous track")
}

/// The script that asks for the volume.
pub fn volume_query() -> (script: String)
    ensures
        script@ == tell_script("sound volume"@),
{
    tell_spotify("sound volume")
}

/// Reads the answer to `volume_query`: a decimal integer, and nothing else.
pub fn get_volume(reply: &str) -> (volume: Result<i32, PlaybackError>)
    ensures
        match volume {
            Ok(v) => parse_within(reply@, i32::MIN as int, i32::MAX as int) == Some(v as int),
            Err(PlaybackError::BadVolume) => parse_within(
                reply@,
                i32::MIN as int,
                i32::MAX as int,
            ) is None,
            Err(_) => false,
        },
{
    match parse_integer(reply, i32::MIN as i64, i32::MAX as i64) {
        Some(v) => Ok(v as i32),
        None => Err(PlaybackError::BadVolume),
    }
}

/// The script that sets the volume to `vol`.
pub fn set_volume(vol: i32) -> (script: String)
    ensures
        script@ == tell_script(volume_command(vol)),
{
    let mut command = String::from_str("set sound volume to ");
    let level = signed_decimal_text(vol as i64);
    command.append(level.as_str());
    tell_spotify(command.as_str())
}

/// The script that asks whether shuffling is on.
pub fn shuffle_query() -> (script: String)
    ensures
        script@ == tell_script("shuffling"@),
{
    tell_spotify("shuffling")
}

/// Reads the answer to `shuffle_query`: shuffling is on if the answer is `true`.
pub fn get_shuffle(reply: &str) -> (on: bool)
    ensures
        on == (reply@ == "true"@),
{
    same_text(reply, "true")
}

/// The script that switches shuffling on or off.
pub fn set_shuffle(on: bool) -> (script: String)
    ensures
        script@ == tell_script(shuffle_command(on)),
{
    let mut command = String::from_str("set shuffling to ");
    command.append(switch_text(on));
    tell_spotify(command.as_str())
}

/// The script that asks whether repeating is on.
pub fn repeat_query() -> (script: String)
    ensures
        script@ == tell_script("repeating"@),
{
    tell_spotify("repeating")
}

/// Reads the answer to `repeat_query`: repeating is on if the answer is `true`.
pub fn get_repeat(reply: &str) -> (on: bool)
    ensures
        on == (reply@ == "true"@),
{
    same_text(reply, "true")
}

/// The script that switches repeating on or off.
pub fn set_repeat(on: bool) -> (script: String)
    ensures
        script@ == tell_script(repeat_command(on)),
{
    let mut command = String::from_str("set repeating to ");
    command.append(switch_text(on));
    tell_spotify(command.as_str())
}

/// What the player is playing. The position is kept as the player reports it, in
/// seconds and as text.
#[derive(Debug, PartialEq, Eq)]
pub struct NowPlayingInfo {
    pub track_name: String,
    pub artist: String,
    pub album: String,
    pub track_id: String,
    pub duration_ms: i64,
    pub position: String,
    pub is_playing: bool,
}

/// How many fields the player's answer about what is playing has at least.
pub const NOW_PLAYING_FIELDS: usize = 7;

/// The fields of the player's answer about what is playing.
pub open spec fn now_playing_fields(output: Seq<char>) -> Seq<Seq<char>> {
    pieces(output, "|||"@)
}

/// The duration that a field writes: the integer of 64 bits it holds, else zero.
pub open spec fn duration_of(field: Seq<char>) -> int {
    match parse_within(field, i64::MIN as int, i64::MAX as int) {
        Some(ms) => ms,
        None => 0,
    }
}

/// The script that asks what is playing.
pub fn now_playing_query() -> (script: String)
    ensures
        script@ == now_playing_script(),
{
    let mut script = String::from_str("\n");
    script.append("tell application \"Spotify\"\n");
    script.append("    if player state is stopped then\n");
    script.append("        return \"STOPPED\"\n");
    script.append("    end if\n");
    script.append("    set trackName to name of current track\n");
    script.append("    set artistName to artist of current track\n");
    script.append("    set albumName to album of current track\n");
    script.append("    set trackId to id of current track\n");
    script.append("    set trackDuration to duration of current track\n");
    script.append("    set trackPosition to player position\n");
    script.append("    set playState to player state as string\n");
    script.append("    return trackName & \"|||\" & artistName & \"|||\" & albumName & \"|||\" & trackId");
    script.append(" & \"|||\" & trackDuration & \"|||\" & trackPosition & \"|||\" & playState\n");
    script.append("end tell\n");
    script
}

/// Reads the answer to `now_playing_query`. The answer `STOPPED` means that nothing is
/// playing. Any other answer must have seven fields or more; the first seven are read,
/// a duration that is no integer counts as zero, and the player plays if the seventh
/// field is `playing`.
pub fn get_now_playing(output: &str) -> (info: Result<NowPlayingInfo, PlaybackError>)
    ensures
        match info {
            Ok(now) => {
                let fields = now_playing_fields(output@);
                &&& output@ != "STOPPED"@
                &&& fields.len() >= NOW_PLAYING_FIELDS
                &&& now.track_name@ == fields[0]
                &&& now.artist@ == fields[1]
                &&& now.album@ == fields[2]
                &&& now.track_id@ == fields[3]
                &&& now.duration_ms == duration_of(fields[4])
                &&& now.position@ == fields[5]
                &&& now.is_playing == (fields[6] == "playing"@)
            },
            Err(PlaybackError::NothingPlaying) => output@ == "STOPPED"@,
            Err(PlaybackError::UnexpectedOutput(text)) => {
                &&& output@ != "STOPPED"@
                &&& now_playing_fields(output@).len() < NOW_PLAYING_FIELDS
                &&& text@ == output@
            },
            Err(_) => false,
        },
{
    if same_text(output, "STOPPED") {
        return Err(PlaybackError::NothingPlaying);
    }
    let parts = pieces_text(output, "|||");
    if parts.len() < NOW_PLAYING_FIELDS {
        return Err(PlaybackError::UnexpectedOutput(String::from_str(output)));
    }
    let duration_ms = match parse_integer(parts[4].as_str(), i64::MIN, i64::MAX) {
        Some(ms) => ms,
        None => 0,
    };
    Ok(
        NowPlayingInfo {
            track_name: parts[0].clone(),
            artist: parts[1].clone(),
            album: parts[2].clone(),
            track_id: parts[3].clone(),
            duration_ms,
            position: parts[5].clone(),
            is_playing: same_text(parts[6].as_str(), "playing"),
        },
    )
}

} // verus!
