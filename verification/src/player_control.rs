//! How a player request is carried out: the Web API call it makes on the
//! playback's device and the playback the application keeps afterwards.

use vstd::prelude::*;

use crate::client_request::PlayerRequest;
use crate::model::Playback;
use crate::player::PlaybackMetadata;
use crate::queue::{next_repeat, RepeatState};

verus! {

/// A call to the Web API's player, on the playback's device where one is
/// known.
#[derive(Debug)]
pub enum PlayerCall {
    /// Move the playback to a device, playing or not.
    Transfer { device_id: String, force_play: bool },
    /// Start a playback, then set the shuffle mode where given.
    Start { playback: Playback, device_id: Option<String>, shuffle_after: Option<bool> },
    Next { device_id: Option<String> },
    Previous { device_id: Option<String> },
    Resume { device_id: Option<String> },
    Pause { device_id: Option<String> },
    Seek { position_ms: i64, device_id: Option<String> },
    SetRepeat { state: RepeatState, device_id: Option<String> },
    SetShuffle { state: bool, device_id: Option<String> },
    SetVolume { volume: u8, device_id: Option<String> },
    /// Nothing to ask for.
    Nothing,
}

/// Why a player request cannot be carried out.
#[derive(Debug, Clone, Copy, PartialEq, Eq, Structural)]
pub enum PlayerRequestError {
    /// The request needs a playback and none is active.
    NoPlayback,
}

/// The device of a playback, as text.
pub open spec fn device_of(p: PlaybackMetadata) -> Option<Seq<char>> {
    match p.device_id {
        Some(d) => Some(d@),
        None => None,
    }
}

/// An optional device, as text.
pub open spec fn device_text(d: Option<String>) -> Option<Seq<char>> {
    match d {
        Some(s) => Some(s@),
        None => None,
    }
}

/// What carrying out `request` on the kept `playback` comes to: the call to
/// make and the playback kept afterwards (none after a transfer or a new
/// playback, which are read back from Spotify); the other requests need a
/// playback.
pub open spec fn player_request_outcome(
    request: PlayerRequest,
    playback: Option<PlaybackMetadata>,
    r: Result<(PlayerCall, Option<PlaybackMetadata>), PlayerRequestError>,
) -> bool {
    match request {
        PlayerRequest::TransferPlayback(device_id, force_play) => r matches Ok(
            (PlayerCall::Transfer { device_id: d, force_play: f }, None),
        ) && d@ == device_id@ && f == force_play,
        PlayerRequest::StartPlayback(p, shuffle) => r matches Ok(
            (PlayerCall::Start { playback: q, device_id, shuffle_after }, None),
        ) && q == p && device_text(device_id) == match playback {
            Some(b) => device_of(b),
            None => None,
        } && shuffle_after == match playback {
            Some(b) => Some(
                match shuffle {
                    Some(s) => s,
                    None => b.shuffle_state,
                },
            ),
            None => None,
        },
        _ => match playback {
            None => r == Err::<(PlayerCall, Option<PlaybackMetadata>), PlayerRequestError>(
                PlayerRequestError::NoPlayback,
            ),
            Some(b) => r matches Ok((call, Some(after))) && playback_call(request, b, call, after),
        },
    }
}

/// The call a request that needs a playback makes on `b`, and the playback
/// kept afterwards.
pub open spec fn playback_call(
    request: PlayerRequest,
    b: PlaybackMetadata,
    call: PlayerCall,
    after: PlaybackMetadata,
) -> bool {
    let dev = device_of(b);
    match request {
        PlayerRequest::NextTrack => call matches PlayerCall::Next { device_id } && device_text(device_id)
            == dev && after == b,
        PlayerRequest::PreviousTrack => call matches PlayerCall::Previous { device_id }
            && device_text(device_id) == dev && after == b,
        PlayerRequest::Resume => if b.is_playing {
            call is Nothing && after == b
        } else {
            call matches PlayerCall::Resume { device_id } && device_text(device_id) == dev
                && after == PlaybackMetadata { is_playing: true, ..b }
        },
        PlayerRequest::Pause => if b.is_playing {
            call matches PlayerCall::Pause { device_id } && device_text(device_id) == dev
                && after == PlaybackMetadata { is_playing: false, ..b }
        } else {
            call is Nothing && after == b
        },
        PlayerRequest::ResumePause => (if b.is_playing {
            call matches PlayerCall::Pause { device_id } && device_text(device_id) == dev
        } else {
            call matches PlayerCall::Resume { device_id } && device_text(device_id) == dev
        }) && after == PlaybackMetadata { is_playing: !b.is_playing, ..b },
        PlayerRequest::SeekTrack(ms) => call matches PlayerCall::Seek { position_ms, device_id }
            && position_ms == ms && device_text(device_id) == dev && after == b,
        PlayerRequest::Repeat => call matches PlayerCall::SetRepeat { state, device_id } && state
            == next_repeat(b.repeat_state) && device_text(device_id) == dev && after
            == PlaybackMetadata { repeat_state: next_repeat(b.repeat_state), ..b },
        PlayerRequest::Shuffle => call matches PlayerCall::SetShuffle { state, device_id } && state
            == !b.shuffle_state && device_text(device_id) == dev && after
            == PlaybackMetadata { shuffle_state: !b.shuffle_state, ..b },
        PlayerRequest::Volume(v) => call matches PlayerCall::SetVolume { volume, device_id }
            && volume == v && device_text(device_id) == dev && after == PlaybackMetadata {
            volume: Some(v as u32),
            mute_state: None,
            ..b
        },
        PlayerRequest::ToggleMute => match b.mute_state {
            None => call matches PlayerCall::SetVolume { volume, device_id } && volume == 0
                && device_text(device_id) == dev && after == PlaybackMetadata {
                mute_state: Some(
                    match b.volume {
                        Some(v) => v,
                        None => 0,
                    },
                ),
                ..b
            },
            Some(v) => call matches PlayerCall::SetVolume { volume, device_id } && volume == v as u8
                && device_text(device_id) == dev && after == PlaybackMetadata {
                mute_state: None,
                ..b
            },
        },
        _ => false,
    }
}

/// A copy of the device id `d`.
fn copy_device(d: &Option<String>) -> (r: Option<String>)
    ensures
        device_text(r) == device_text(*d),
{
    match d {
        Some(s) => Some(s.clone()),
        None => None,
    }
}

/// Carries out `request` on the kept `playback` (see
/// `player_request_outcome`).
pub fn plan_player_request(request: PlayerRequest, playback: Option<PlaybackMetadata>) -> (r: Result<
    (PlayerCall, Option<PlaybackMetadata>),
    PlayerRequestError,
>)
    ensures
        player_request_outcome(request, playback, r),
{
    match request {
        PlayerRequest::TransferPlayback(device_id, force_play) => {
            return Ok((PlayerCall::Transfer { device_id, force_play }, None));
        },
        PlayerRequest::StartPlayback(p, shuffle) => {
            let (device_id, shuffle_after) = match &playback {
                Some(b) => {
                    let s = match shuffle {
                        Some(s) => s,
                        None => b.shuffle_state,
                    };
                    (copy_device(&b.device_id), Some(s))
                },
                None => (None, None),
            };
            return Ok((PlayerCall::Start { playback: p, device_id, shuffle_after }, None));
        },
        _ => {},
    }
    let mut b = match playback {
        Some(b) => b,
        None => {
            return Err(PlayerRequestError::NoPlayback);
        },
    };
    let dev = copy_device(&b.device_id);
    let call = match request {
        PlayerRequest::NextTrack => PlayerCall::Next { device_id: dev },
        PlayerRequest::PreviousTrack => PlayerCall::Previous { device_id: dev },
        PlayerRequest::Resume => {
            if !b.is_playing {
                b.is_playing = true;
                PlayerCall::Resume { device_id: dev }
            } else {
                PlayerCall::Nothing
            }
        },
        PlayerRequest::Pause => {
            if b.is_playing {
                b.is_playing = false;
                PlayerCall::Pause { device_id: dev }
            } else {
                PlayerCall::Nothing
            }
        },
        PlayerRequest::ResumePause => {
            let call = if b.is_playing {
                PlayerCall::Pause { device_id: dev }
            } else {
                PlayerCall::Resume { device_id: dev }
            };
            b.is_playing = !b.is_playing;
            call
        },
        PlayerRequest::SeekTrack(ms) => PlayerCall::Seek { position_ms: ms, device_id: dev },
        PlayerRequest::Repeat => {
            let state = b.repeat_state.cycled();
            b.repeat_state = state;
            PlayerCall::SetRepeat { state, device_id: dev }
        },
        PlayerRequest::Shuffle => {
            let state = !b.shuffle_state;
            b.shuffle_state = state;
            PlayerCall::SetShuffle { state, device_id: dev }
        },
        PlayerRequest::Volume(v) => {
            b.volume = Some(v as u32);
            b.mute_state = None;
            PlayerCall::SetVolume { volume: v, device_id: dev }
        },
        PlayerRequest::ToggleMute => {
            match b.mute_state {
                None => {
                    let level = match b.volume {
                        Some(v) => v,
                        None => 0,
                    };
                    b.mute_state = Some(level);
                    PlayerCall::SetVolume { volume: 0, device_id: dev }
                },
                Some(v) => {
                    b.mute_state = None;
                    PlayerCall::SetVolume { volume: v as u8, device_id: dev }
                },
            }
        },
        PlayerRequest::TransferPlayback(..) => PlayerCall::Nothing,
        PlayerRequest::StartPlayback(..) => PlayerCall::Nothing,
    };
    Ok((call, Some(b)))
}

/// Muting and then unmuting gives back the playback as it was and sets the
/// volume it had before muting.
pub proof fn law_mute_then_unmute_restores(
    b: PlaybackMetadata,
    first: PlayerCall,
    muted: PlaybackMetadata,
    second: PlayerCall,
    unmuted: PlaybackMetadata,
)
    requires
        b.mute_state is None,
        playback_call(PlayerRequest::ToggleMute, b, first, muted),
        playback_call(PlayerRequest::ToggleMute, muted, second, unmuted),
    ensures
        unmuted == b,
        first matches PlayerCall::SetVolume { volume, .. } && volume == 0,
        second matches PlayerCall::SetVolume { volume, .. } && volume == (match b.volume {
            Some(v) => v,
            None => 0,
        }) as u8,
{
}

/// Toggling between playing and pausing twice gives back the playback as it
/// was.
pub proof fn law_resume_pause_twice_restores(
    b: PlaybackMetadata,
    first: PlayerCall,
    toggled: PlaybackMetadata,
    second: PlayerCall,
    back: PlaybackMetadata,
)
    requires
        playback_call(PlayerRequest::ResumePause, b, first, toggled),
        playback_call(PlayerRequest::ResumePause, toggled, second, back),
    ensures
        back == b,
        toggled.is_playing != b.is_playing,
{
}

/// Toggling shuffle twice gives back the playback as it was.
pub proof fn law_shuffle_twice_restores(
    b: PlaybackMetadata,
    first: PlayerCall,
    toggled: PlaybackMetadata,
    second: PlayerCall,
    back: PlaybackMetadata,
)
    requires
        playback_call(PlayerRequest::Shuffle, b, first, toggled),
        playback_call(PlayerRequest::Shuffle, toggled, second, back),
    ensures
        back == b,
{
}

/// Three repeat requests cycle the repeat setting Off, Track, Context and
/// back, each setting the next state on the playback's device, and give
/// back the playback as it was.
pub proof fn law_repeat_three_times_restores(
    b: PlaybackMetadata,
    c1: PlayerCall,
    p1: PlaybackMetadata,
    c2: PlayerCall,
    p2: PlaybackMetadata,
    c3: PlayerCall,
    p3: PlaybackMetadata,
)
    requires
        playback_call(PlayerRequest::Repeat, b, c1, p1),
        playback_call(PlayerRequest::Repeat, p1, c2, p2),
        playback_call(PlayerRequest::Repeat, p2, c3, p3),
    ensures
        p3 == b,
        p1.repeat_state == next_repeat(b.repeat_state),
        p2.repeat_state == next_repeat(p1.repeat_state),
        p1.repeat_state != b.repeat_state && p2.repeat_state != b.repeat_state,
        b.repeat_state == RepeatState::Off ==> p1.repeat_state == RepeatState::Track
            && p2.repeat_state == RepeatState::Context,
        c3 matches PlayerCall::SetRepeat { state, .. } && state == b.repeat_state,
{
}

} // verus!
