//! Player-side state the library decides on: the buffered playback
//! metadata, and how volume changes are applied and rate-limited.

use vstd::prelude::*;

use crate::clock;
use crate::queue::RepeatState;

verus! {

/// The player in use: a remote Spotify Connect device or the integrated one.
#[derive(Debug)]
pub enum Player {
    Remote(RemotePlayer),
    Local(LocalPlayer),
}

/// A remote Spotify Connect player.
#[derive(Debug)]
pub struct RemotePlayer {}

/// The integrated player.
#[derive(Debug)]
pub struct LocalPlayer {}

/// Playback metadata the application updates ahead of Spotify's
/// confirmation.
#[derive(Debug, Clone)]
pub struct PlaybackMetadata {
    pub device_name: String,
    pub device_id: Option<String>,
    pub volume: Option<u32>,
    pub is_playing: bool,
    pub repeat_state: RepeatState,
    pub shuffle_state: bool,
    /// The volume before muting, while muted.
    pub mute_state: Option<u32>,
    /// Whether the emulated track-repeat mode is on.
    pub fake_track_repeat_state: bool,
}

/// The minimum spacing between volume requests sent to Spotify: 100
/// milliseconds, in nanoseconds.
pub const VOLUME_SEND_INTERVAL_NANOS: u128 = 100_000_000;

/// Volume changes not yet sent to Spotify, and when one was last sent.
#[derive(Debug)]
pub struct VolumeSync {
    /// A volume the user has dialed in that has not been sent yet.
    pub pending: Option<u8>,
    /// When a volume request was last sent.
    pub last_sent: Option<std::time::Instant>,
}

impl Default for VolumeSync {
    fn default() -> (r: Self)
        ensures
            r.pending is None,
            r.last_sent is None,
    {
        VolumeSync { pending: None, last_sent: None }
    }
}

/// Whether a volume request may be sent: always when none was sent yet
/// (`sent` false), else once `elapsed_nanos` since the last one reach the
/// minimum spacing.
pub open spec fn may_send_at(sent: bool, elapsed_nanos: u128) -> bool {
    !sent || elapsed_nanos >= VOLUME_SEND_INTERVAL_NANOS
}

/// Whether a request may be sent `elapsed_nanos` nanoseconds after the last.
pub fn interval_passed(elapsed_nanos: u128) -> (r: bool)
    ensures
        r == (elapsed_nanos >= VOLUME_SEND_INTERVAL_NANOS),
{
    elapsed_nanos >= VOLUME_SEND_INTERVAL_NANOS
}

impl VolumeSync {
    /// Whether a request may be sent now: always when none was sent yet,
    /// else once the minimum spacing has passed on the clock.
    pub fn may_send(&self) -> (r: bool)
        ensures
            self.last_sent is None ==> r,
    {
        match &self.last_sent {
            Some(t) => self.may_send_after(clock::elapsed_nanos(t)),
            None => true,
        }
    }

    /// Whether a request may be sent `elapsed_nanos` nanoseconds after the
    /// last one (see `may_send_at`).
    pub fn may_send_after(&self, elapsed_nanos: u128) -> (r: bool)
        ensures
            r == may_send_at(self.last_sent is Some, elapsed_nanos),
    {
        match &self.last_sent {
            Some(_) => interval_passed(elapsed_nanos),
            None => true,
        }
    }

    /// Sends the trailing volume the user dialed in, as the player event
    /// watcher does on each tick: when one is pending and `send_now` (a
    /// request may be sent, see `may_send`), it is returned to be sent and
    /// recorded as sent; otherwise nothing changes.
    pub fn flush_pending_decided(&mut self, send_now: bool) -> (r: Option<u8>)
        ensures
            match old(self).pending {
                Some(v) => if send_now {
                    r == Some(v) && final(self).pending is None && final(self).last_sent is Some
                } else {
                    r is None && final(self).pending == old(self).pending && final(self).last_sent
                        == old(self).last_sent
                },
                None => r is None && final(self).pending is None && final(self).last_sent
                    == old(self).last_sent,
            },
    {
        match self.pending {
            Some(v) => {
                if send_now {
                    self.mark_sent();
                    Some(v)
                } else {
                    None
                }
            },
            None => None,
        }
    }

    /// Sends the trailing pending volume when a request may be sent now
    /// (see `flush_pending_decided` and `may_send`).
    pub fn flush_pending(&mut self) -> (r: Option<u8>)
        ensures
            r matches Some(v) ==> old(self).pending == Some(v) && final(self).pending is None
                && final(self).last_sent is Some,
            r is None ==> final(self).pending == old(self).pending && final(self).last_sent
                == old(self).last_sent,
            old(self).pending is Some && old(self).last_sent is None ==> r == old(self).pending,
    {
        let send_now = self.may_send();
        self.flush_pending_decided(send_now)
    }

    /// Records that a request was sent now: nothing is pending any more.
    pub fn mark_sent(&mut self)
        ensures
            final(self).pending is None,
            final(self).last_sent is Some,
    {
        self.pending = None;
        self.last_sent = Some(clock::now());
    }
}

/// The volume adjustments start from: the level before muting while muted,
/// else the current level, at most 100.
pub open spec fn effective_volume_of(p: Option<PlaybackMetadata>) -> Option<u8> {
    match p {
        Some(p) => match (if p.mute_state is Some {
            p.mute_state
        } else {
            p.volume
        }) {
            Some(v) => Some(if v <= 100 {
                v as u8
            } else {
                100u8
            }),
            None => None,
        },
        None => None,
    }
}

/// The volume a further adjustment applies to.
pub fn effective_volume(buffered: &Option<PlaybackMetadata>) -> (r: Option<u8>)
    ensures
        r == effective_volume_of(*buffered),
{
    let playback = match buffered {
        Some(p) => p,
        None => return None,
    };
    let volume = match playback.mute_state {
        Some(v) => v,
        None => match playback.volume {
            Some(v) => v,
            None => return None,
        },
    };
    if volume <= 100 {
        Some(volume as u8)
    } else {
        Some(100)
    }
}

/// `volume`, at most 100.
pub open spec fn capped_volume(volume: u8) -> u8 {
    if volume <= 100 {
        volume
    } else {
        100u8
    }
}

/// Applies `volume`, at most 100, to the buffered playback at once and
/// unmutes it; when `send_now` (a request may be sent, see
/// `VolumeSync::may_send`) the volume is returned to be sent and recorded as
/// sent, else it is kept pending. Without buffered playback nothing changes.
pub fn apply_volume_decided(
    buffered: &mut Option<PlaybackMetadata>,
    sync: &mut VolumeSync,
    volume: u8,
    send_now: bool,
) -> (r: Option<u8>)
    ensures
        match *old(buffered) {
            None => r is None && *final(buffered) == *old(buffered) && final(sync).pending
                == old(sync).pending && final(sync).last_sent == old(sync).last_sent,
            Some(p) => {
                &&& *final(buffered) == Some(
                    PlaybackMetadata { volume: Some(capped_volume(volume) as u32), mute_state: None, ..p },
                )
                &&& send_now ==> r == Some(capped_volume(volume)) && final(sync).pending is None
                    && final(sync).last_sent is Some
                &&& !send_now ==> r is None && final(sync).pending == Some(capped_volume(volume))
                    && final(sync).last_sent == old(sync).last_sent
            },
        },
{
    let volume = if volume <= 100 {
        volume
    } else {
        100
    };
    match buffered {
        None => None,
        Some(playback) => {
            playback.volume = Some(volume as u32);
            playback.mute_state = None;
            if send_now {
                sync.mark_sent();
                Some(volume)
            } else {
                sync.pending = Some(volume);
                None
            }
        },
    }
}

/// Applies `volume` (see `apply_volume_decided`), sending it when
/// `VolumeSync::may_send` allows a request now: always when none was sent
/// before, else once the minimum spacing has passed on the clock.
pub fn apply_volume(buffered: &mut Option<PlaybackMetadata>, sync: &mut VolumeSync, volume: u8) -> (r: Option<u8>)
    ensures
        match *old(buffered) {
            None => r is None && *final(buffered) == *old(buffered) && final(sync).pending
                == old(sync).pending && final(sync).last_sent == old(sync).last_sent,
            Some(p) => {
                &&& *final(buffered) == Some(
                    PlaybackMetadata { volume: Some(capped_volume(volume) as u32), mute_state: None, ..p },
                )
                &&& (r is Some ==> r == Some(capped_volume(volume)) && final(sync).pending is None
                    && final(sync).last_sent is Some)
                &&& (r is None ==> final(sync).pending == Some(capped_volume(volume)) && final(sync).last_sent
                    == old(sync).last_sent)
                &&& (old(sync).last_sent is None ==> r is Some)
            },
        },
{
    let send_now = match buffered {
        Some(_) => sync.may_send(),
        None => false,
    };
    apply_volume_decided(buffered, sync, volume, send_now)
}

/// Two volume requests are sent at least the minimum spacing apart: once a
/// volume was applied and sent, a volume applied `elapsed_nanos` later is
/// sent only if that spacing has passed, and otherwise kept pending.
pub proof fn law_volume_sends_are_spaced(elapsed_nanos: u128)
    ensures
        may_send_at(true, elapsed_nanos) <==> elapsed_nanos >= VOLUME_SEND_INTERVAL_NANOS,
        elapsed_nanos < VOLUME_SEND_INTERVAL_NANOS ==> !may_send_at(true, elapsed_nanos),
{
}

/// Applying a volume and then reading the level further adjustments start
/// from gives the applied volume, capped at 100, whether or not it was sent.
pub proof fn law_applied_volume_is_effective(p: PlaybackMetadata, volume: u8)
    ensures
        effective_volume_of(
            Some(PlaybackMetadata {
                volume: Some((if volume <= 100 { volume } else { 100u8 }) as u32),
                mute_state: None,
                ..p
            }),
        ) == Some(if volume <= 100 { volume } else { 100u8 }),
{
}

/// Why a volume request from the command line cannot be served.
#[derive(Debug, Clone, Copy, PartialEq, Eq, Structural)]
pub enum VolumeRequestError {
    /// No playback is active.
    NoPlayback,
    /// The playback reports no volume.
    NoVolume,
    /// The resulting volume is negative.
    Negative,
}

/// The volume a command-line request sets: `percent` itself, or, as an
/// offset, the current volume (read as a signed byte) plus `percent`, at
/// least 0.
pub open spec fn requested_volume(current: i8, percent: i8, is_offset: bool) -> int {
    if is_offset {
        if current + percent < 0 {
            0
        } else {
            current + percent
        }
    } else {
        percent as int
    }
}

/// The current volume read as a signed byte, as the request does.
pub open spec fn signed_byte(v: u32) -> i8 {
    v as i8
}

/// The volume to send for a command-line volume request, given the
/// playback's reported volume.
pub fn volume_for_request(playback_volume: Option<Option<u32>>, percent: i8, is_offset: bool) -> (r: Result<u8, VolumeRequestError>)
    requires
        is_offset ==> match playback_volume {
            Some(Some(v)) => -128 <= signed_byte(v) + percent <= 127,
            _ => true,
        },
    ensures
        match playback_volume {
            None => r == Err::<u8, VolumeRequestError>(VolumeRequestError::NoPlayback),
            Some(None) => r == Err::<u8, VolumeRequestError>(VolumeRequestError::NoVolume),
            Some(Some(v)) => {
                let target = requested_volume(signed_byte(v), percent, is_offset);
                if target < 0 {
                    r == Err::<u8, VolumeRequestError>(VolumeRequestError::Negative)
                } else {
                    r == Ok::<u8, VolumeRequestError>(target as u8)
                }
            },
        },
{
    let volume = match playback_volume {
        None => return Err(VolumeRequestError::NoPlayback),
        Some(None) => return Err(VolumeRequestError::NoVolume),
        Some(Some(v)) => v,
    };
    let current = volume as i8;
    assert(current == signed_byte(volume));
    let percent = if is_offset {
        let sum = current + percent;
        if sum < 0 {
            0
        } else {
            sum
        }
    } else {
        percent
    };
    if percent < 0 {
        Err(VolumeRequestError::Negative)
    } else {
        Ok(percent as u8)
    }
}

} // verus!
