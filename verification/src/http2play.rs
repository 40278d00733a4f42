//! Planning the playback of a remote audio file.
use vstd::prelude::*;

use crate::component::{describe_payload_for, descriptor_json, handle_message_for, handled_message};
use crate::component_http::{parse_url, url_parse};
use crate::json::render;
use crate::text::{push_str, trim, trimmed};

verus! {

broadcast use vstd::string::group_string_axioms;

pub const COMPONENT_NAME: &'static str = "greentic-http2play";

/// The audio to play, and the route that asked for it.
#[derive(Debug, Clone, PartialEq, Eq)]
pub struct PlaybackRequest {
    pub audio_url: String,
    pub route: Option<String>,
}

/// How the audio can be played.
#[derive(Debug, Clone, PartialEq, Eq)]
pub struct PlaybackPlan {
    pub ok: bool,
    pub audio_url: String,
    pub player_hint: String,
    pub downloaded_bytes: usize,
    pub played: bool,
    pub message: String,
}

pub open spec fn err_empty_audio_url() -> Seq<char> {
    "audio_url must not be empty"@
}

/// The outcome of checking an audio URL: its serialized form, or why it was refused.
pub open spec fn audio_url_check(audio_url: Seq<char>) -> Result<Seq<char>, Seq<char>> {
    if trimmed(audio_url).len() == 0 {
        Err(err_empty_audio_url())
    } else {
        match url_parse(audio_url) {
            Ok(u) => Ok(u),
            Err(e) => Err("invalid audio_url: "@ + e),
        }
    }
}

/// Checks an audio URL and gives back its serialized form.
pub fn validate_audio_url(audio_url: &str) -> (r: Result<String, String>)
    ensures
        match r {
            Ok(u) => audio_url_check(audio_url@) == Ok::<Seq<char>, Seq<char>>(u@),
            Err(e) => audio_url_check(audio_url@) == Err::<Seq<char>, Seq<char>>(e@),
        },
{
    if trim(audio_url).unicode_len() == 0 {
        return Err("audio_url must not be empty".to_string());
    }
    match parse_url(audio_url) {
        Ok(u) => Ok(u),
        Err(error) => {
            let mut msg = "invalid audio_url: ".to_string();
            push_str(&mut msg, error.as_str());
            Err(msg)
        },
    }
}

/// The command that plays a file on a platform.
pub open spec fn player_hint(platform: Seq<char>) -> Seq<char> {
    if platform == "macos"@ {
        "afplay"@
    } else if platform == "linux"@ {
        "ffplay -autoexit"@
    } else if platform == "windows"@ {
        "powershell -c (New-Object Media.SoundPlayer $args[0]).PlaySync()"@
    } else {
        "open"@
    }
}

/// Each platform plays audio with its own command: `afplay` on macOS,
/// `ffplay -autoexit` on Linux, the PowerShell `Media.SoundPlayer` on Windows,
/// and `open` on any other platform.
pub proof fn lemma_platform_players(platform: Seq<char>)
    ensures
        platform == "macos"@ ==> player_hint(platform) == "afplay"@,
        platform == "linux"@ ==> player_hint(platform) == "ffplay -autoexit"@,
        platform == "windows"@ ==> player_hint(platform)
            == "powershell -c (New-Object Media.SoundPlayer $args[0]).PlaySync()"@,
        platform != "macos"@ && platform != "linux"@ && platform != "windows"@ ==> player_hint(platform)
            == "open"@,
{
    reveal_strlit("macos");
    reveal_strlit("linux");
    reveal_strlit("windows");
    assert("macos"@[0] == 'm' && "linux"@[0] == 'l' && "windows"@[0] == 'w');
    assert("macos"@ != "linux"@ && "macos"@ != "windows"@ && "linux"@ != "windows"@);
}

/// The command that plays a file on `platform` (as `std::env::consts::OS` names it).
pub fn player_hint_for_platform(platform: &str) -> (r: &'static str)
    ensures
        r@ == player_hint(platform@),
        platform@ == "macos"@ ==> r@ == "afplay"@,
        platform@ == "linux"@ ==> r@ == "ffplay -autoexit"@,
        platform@ == "windows"@ ==> r@ == "powershell -c (New-Object Media.SoundPlayer $args[0]).PlaySync()"@,
        platform@ != "macos"@ && platform@ != "linux"@ && platform@ != "windows"@ ==> r@ == "open"@,
{
    proof {
        lemma_platform_players(platform@);
    }
    if crate::json::str_eq(platform, "macos") {
        "afplay"
    } else if crate::json::str_eq(platform, "linux") {
        "ffplay -autoexit"
    } else if crate::json::str_eq(platform, "windows") {
        "powershell -c (New-Object Media.SoundPlayer $args[0]).PlaySync()"
    } else {
        "open"
    }
}

pub open spec fn planned_message() -> Seq<char> {
    "Host tests only: playback is planned, not executed."@
}

/// Plans playback on the host: the URL is checked and a player chosen for
/// `platform`; nothing is fetched or played. The error is the reason the URL was refused.
pub fn plan_playback(input: &PlaybackRequest, platform: &str) -> (r: Result<PlaybackPlan, String>)
    ensures
        match audio_url_check(input.audio_url@) {
            Ok(u) => (r matches Ok(p) && p.ok && p.audio_url@ == u && p.player_hint@ == player_hint(
                platform@,
            ) && p.downloaded_bytes == 0 && !p.played && p.message@ == planned_message()),
            Err(e) => (r matches Err(m) && m@ == e),
        },
{
    let parsed = validate_audio_url(input.audio_url.as_str())?;
    Ok(
        PlaybackPlan {
            ok: true,
            audio_url: parsed,
            player_hint: player_hint_for_platform(platform).to_string(),
            downloaded_bytes: 0,
            played: false,
            message: "Host tests only: playback is planned, not executed.".to_string(),
        },
    )
}

/// The descriptor that the component reports as JSON text.
pub fn describe_payload() -> (r: String)
    ensures
        r@ == render(descriptor_json(COMPONENT_NAME@)),
{
    describe_payload_for(COMPONENT_NAME)
}

/// Echoes an operation and its trimmed input, prefixed with the component's name.
pub fn handle_message(operation: &str, input: &str) -> (r: String)
    ensures
        r@ == handled_message(COMPONENT_NAME@, operation@, input@),
{
    handle_message_for(COMPONENT_NAME, operation, input)
}

} // verus!
