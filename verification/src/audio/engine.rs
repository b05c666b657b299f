//! The playback engine: what the audio thread decides between two commands.
//!
//! The thread owns a player of an audio library. It tells this module what the
//! player says and does with it what comes back. The one thing that a player
//! cannot tell is why it ran empty: a decoder ends in the same way at the end of
//! a track and in the middle of a broken stream. [`classify_drain`] tells the two
//! apart by the stream itself.

use vstd::prelude::*;
use crate::audio::streaming::{StreamView, StreamingBuffer};
use crate::audio::volume::{clamp_unit, clamped};

verus! {

/// How far one key press moves, in milliseconds.
pub const SEEK_STEP_MS: i64 = 5_000;

#[derive(Debug, Clone, Copy, PartialEq, Eq, Default, Structural)]
pub enum PlaybackState {
    /// Nothing is loaded.
    #[default]
    Stopped,
    /// A track was asked for and is being fetched or decoded.
    Loading,
    Playing,
    Paused,
}

impl PlaybackState {
    pub open spec fn number(self) -> u8 {
        match self {
            PlaybackState::Stopped => 0,
            PlaybackState::Loading => 1,
            PlaybackState::Playing => 2,
            PlaybackState::Paused => 3,
        }
    }

    pub open spec fn numbered(code: u8) -> PlaybackState {
        if code == 1 {
            PlaybackState::Loading
        } else if code == 2 {
            PlaybackState::Playing
        } else if code == 3 {
            PlaybackState::Paused
        } else {
            PlaybackState::Stopped
        }
    }

    /// The number under which the state is shared.
    pub fn code(self) -> (r: u8)
        ensures
            r == self.number(),
    {
        match self {
            PlaybackState::Stopped => 0,
            PlaybackState::Loading => 1,
            PlaybackState::Playing => 2,
            PlaybackState::Paused => 3,
        }
    }

    /// The state of a number; an unknown number means that nothing is loaded.
    pub fn from_code(code: u8) -> (r: Self)
        ensures
            r == PlaybackState::numbered(code),
    {
        if code == 1 {
            PlaybackState::Loading
        } else if code == 2 {
            PlaybackState::Playing
        } else if code == 3 {
            PlaybackState::Paused
        } else {
            PlaybackState::Stopped
        }
    }

    pub fn label(self) -> (r: &'static str)
        ensures
            r@ == (match self {
                PlaybackState::Stopped => "已停止"@,
                PlaybackState::Loading => "缓冲中"@,
                PlaybackState::Playing => "播放中"@,
                PlaybackState::Paused => "已暂停"@,
            }),
    {
        match self {
            PlaybackState::Stopped => "已停止",
            PlaybackState::Loading => "缓冲中",
            PlaybackState::Playing => "播放中",
            PlaybackState::Paused => "已暂停",
        }
    }
}

/// Shared numbers stand for their states: coding a state and decoding the number
/// gives the state back.
pub proof fn codes_round_trip(state: PlaybackState, code: u8)
    ensures
        PlaybackState::numbered(state.number()) == state,
        code > 3 ==> PlaybackState::numbered(code) == PlaybackState::Stopped,
{
}

/// What the audio thread reports.
#[derive(Debug, PartialEq, Eq)]
pub enum AudioEvent {
    /// A track is loaded; its length as the decoder knows it, `0` where it does
    /// not.
    Ready { duration_ms: u64 },
    /// An output device was opened.
    DeviceOpened { name: String },
    /// The track was played to its end.
    TrackFinished,
    /// The stream starved in the middle of the track, at this position.
    StreamInterrupted { position_ms: u64 },
    /// Another device could not be opened; the old one still plays.
    DeviceSwitchFailed(String),
    /// A device or a track could not be opened.
    Failed(String),
}

/// Where a track comes from.
#[derive(Debug, PartialEq, Eq)]
pub enum AudioSource {
    /// A whole file of the cache.
    File(String),
    /// A stream that is still coming in, by its number.
    Stream(u64),
}

/// What the main thread asks of the audio thread.
#[derive(Debug, PartialEq, Eq)]
pub enum AudioCmd {
    Load { source: AudioSource, start_at_ms: u64, expected_duration_ms: u64 },
    Toggle,
    Stop,
    SeekTo(u64),
    SeekBy(i64),
    /// A volume, by its bit pattern.
    SetVolume(u32),
    /// Another device; `None` means the system's own.
    UseDevice(Option<String>),
    Shutdown,
}

/// What both threads see of the playback.
#[derive(Debug, Clone, Copy, PartialEq, Eq)]
pub struct Shared {
    pub state_code: u8,
    pub position_ms: u64,
    pub duration_ms: u64,
    pub volume_bits: u32,
}

impl Shared {
    /// Nothing is loaded; the volume is brought within its bounds.
    pub fn new(volume_bits: u32) -> (r: Self)
        ensures
            r == (Shared {
                state_code: PlaybackState::Stopped.number(),
                position_ms: 0,
                duration_ms: 0,
                volume_bits: clamped(volume_bits),
            }),
    {
        Shared {
            state_code: PlaybackState::Stopped.code(),
            position_ms: 0,
            duration_ms: 0,
            volume_bits: clamp_unit(volume_bits),
        }
    }

    pub fn state(&self) -> (r: PlaybackState)
        ensures
            r == PlaybackState::numbered(self.state_code),
    {
        PlaybackState::from_code(self.state_code)
    }

    pub fn set_state(&mut self, state: PlaybackState)
        ensures
            *final(self) == (Shared { state_code: state.number(), ..*old(self) }),
    {
        self.state_code = state.code();
    }

    pub fn position_ms(&self) -> (r: u64)
        ensures
            r == self.position_ms,
    {
        self.position_ms
    }

    pub fn duration_ms(&self) -> (r: u64)
        ensures
            r == self.duration_ms,
    {
        self.duration_ms
    }

    /// The volume's bit pattern.
    pub fn volume(&self) -> (r: u32)
        ensures
            r == self.volume_bits,
    {
        self.volume_bits
    }

    /// Sets the volume, brought within its bounds.
    pub fn set_volume(&mut self, volume_bits: u32)
        ensures
            *final(self) == (Shared { volume_bits: clamped(volume_bits), ..*old(self) }),
    {
        self.volume_bits = clamp_unit(volume_bits);
    }

    /// Shows that a track is being fetched.
    pub fn mark_loading(&mut self)
        ensures
            *final(self) == (Shared {
                state_code: PlaybackState::Loading.number(),
                position_ms: 0,
                ..*old(self)
            }),
    {
        self.set_state(PlaybackState::Loading);
        self.position_ms = 0;
    }

    /// Shows the length that a track is expected to have.
    pub fn expect_duration(&mut self, duration_ms: u64)
        ensures
            *final(self) == (Shared { duration_ms, ..*old(self) }),
    {
        self.duration_ms = duration_ms;
    }
}

/// Why a player ran empty.
#[derive(Debug, PartialEq, Eq)]
pub enum DrainOutcome {
    /// The stream was called off; nothing is to be said.
    Silent,
    /// The stream broke off, for this reason.
    Failed(String),
    /// The stream starved: the track is not over.
    Interrupted,
    /// The track is over.
    Finished,
}

impl DrainOutcome {
    /// Whether this is the outcome for a player that was fed by `stream`, or by
    /// a file where there is none.
    pub open spec fn fits(self, stream: Option<StreamView>) -> bool {
        match stream {
            None => self == DrainOutcome::Finished,
            Some(s) => if s.cancelled {
                self == DrainOutcome::Silent
            } else if s.complete() {
                self == DrainOutcome::Finished
            } else {
                match s.error {
                    Some(reason) => self matches DrainOutcome::Failed(text) && text@ == reason,
                    None => self == DrainOutcome::Interrupted,
                }
            },
        }
    }
}

pub open spec fn stream_view(stream: Option<&StreamingBuffer>) -> Option<StreamView> {
    match stream {
        Some(buffer) => Some(buffer@),
        None => None,
    }
}

/// Tells why a player ran empty, by the stream that fed it.
pub fn classify_drain(stream: Option<&StreamingBuffer>) -> (r: DrainOutcome)
    ensures
        r.fits(stream_view(stream)),
{
    match stream {
        None => DrainOutcome::Finished,
        Some(stream) => {
            if stream.is_cancelled() {
                DrainOutcome::Silent
            } else if stream.is_complete() {
                DrainOutcome::Finished
            } else {
                match stream.error() {
                    Some(message) => DrainOutcome::Failed(message),
                    None => DrainOutcome::Interrupted,
                }
            }
        },
    }
}

/// What a player says of itself.
#[derive(Debug, Clone, Copy, PartialEq, Eq)]
pub struct PlayerStatus {
    pub paused: bool,
    /// Nothing is left to play.
    pub drained: bool,
    pub position_ms: u64,
}

/// What is to be done with the player to load a track.
#[derive(Debug, PartialEq, Eq)]
pub enum LoadAction {
    /// The track cannot be decoded.
    Failed,
    /// There is no device to play on.
    NoOutput,
    /// Stop and clear the player, append the track, play it and go to the given
    /// place, where there is one.
    Play { seek_to: Option<u64> },
}

/// What the audio thread is to do for a command. What comes of decoding, of going
/// to a place and of opening a device goes back to the runtime.
#[derive(Debug, PartialEq, Eq)]
pub enum PlayerOrder {
    /// Decode this track, for [`Runtime::load`].
    Decode { source: AudioSource, start_at_ms: u64, expected_duration_ms: u64 },
    Resume,
    Pause,
    /// Stop and clear the player.
    Stop,
    SetVolume(u32),
    /// Go to this place, for [`Runtime::sought`].
    SeekTo(u64),
    /// Open this device, or the system's own, for [`Runtime::use_device`].
    OpenDevice(Option<String>),
    Nothing,
}

/// What the audio thread knows besides the player itself.
#[derive(Debug, Clone, Copy, PartialEq, Eq)]
pub struct Runtime {
    /// Whether an output device is open.
    pub has_output: bool,
    pub shared: Shared,
    /// The stream that feeds the player, where one does.
    pub stream: Option<u64>,
    /// The last position that was read while the track was playing. At the end
    /// of a track the player reports `0`, so nothing is read then.
    pub last_position_ms: u64,
    pub loaded: bool,
    /// Whether the end of the track was already reported.
    pub finished_reported: bool,
}

/// The length of a track: what the decoder knows, else what was expected.
pub open spec fn track_length(decoded: Option<u64>, expected: u64) -> u64 {
    match decoded {
        Some(ms) => if ms > 0 {
            ms
        } else {
            expected
        },
        None => expected,
    }
}

/// A position kept within a track; an unknown length bounds nothing.
pub open spec fn within_track(position_ms: u64, duration_ms: u64) -> u64 {
    if duration_ms > 0 && position_ms > duration_ms - 1 {
        (duration_ms - 1) as u64
    } else {
        position_ms
    }
}

/// A position kept within a track.
pub fn clamp_to_track(position_ms: u64, duration_ms: u64) -> (r: u64)
    ensures
        r == within_track(position_ms, duration_ms),
{
    if duration_ms > 0 && position_ms > duration_ms - 1 {
        duration_ms - 1
    } else {
        position_ms
    }
}

/// A position moved by a number of milliseconds, not below the start.
pub open spec fn shifted(position_ms: u64, delta_ms: i64) -> u64 {
    let sum = position_ms + delta_ms;
    if sum < 0 {
        0
    } else if sum > i64::MAX {
        i64::MAX as u64
    } else {
        sum as u64
    }
}

impl Runtime {
    /// A thread that opened a device.
    pub fn started(volume_bits: u32) -> (r: Self)
        ensures
            r.has_output,
            !r.loaded,
            r.finished_reported,
            r.stream is None,
            r.last_position_ms == 0,
            r.shared.volume_bits == clamped(volume_bits),
            r.shared.state_code == PlaybackState::Stopped.number(),
            r.shared.position_ms == 0,
            r.shared.duration_ms == 0,
    {
        Runtime {
            has_output: true,
            shared: Shared::new(volume_bits),
            stream: None,
            last_position_ms: 0,
            loaded: false,
            finished_reported: true,
        }
    }

    pub open spec fn failed(self) -> Runtime {
        Runtime {
            stream: None,
            loaded: false,
            finished_reported: true,
            shared: Shared { state_code: PlaybackState::Stopped.number(), ..self.shared },
            ..self
        }
    }

    /// The state after a decoded track was loaded and plays.
    pub open spec fn playing(
        self,
        source: AudioSource,
        start_at_ms: u64,
        duration_ms: u64,
    ) -> Runtime {
        Runtime {
            stream: match source {
                AudioSource::Stream(id) => Some(id),
                AudioSource::File(_) => None,
            },
            last_position_ms: start_at_ms,
            loaded: true,
            finished_reported: false,
            shared: Shared {
                state_code: PlaybackState::Playing.number(),
                position_ms: start_at_ms,
                duration_ms,
                ..self.shared
            },
            ..self
        }
    }

    /// The state after the player went to a place.
    pub open spec fn standing_at(self, target: u64) -> Runtime {
        Runtime {
            last_position_ms: target,
            finished_reported: false,
            shared: Shared { position_ms: target, ..self.shared },
            ..self
        }
    }

    /// The state after another device was opened.
    pub open spec fn on_another_device(self) -> Runtime {
        Runtime {
            has_output: true,
            stream: None,
            loaded: false,
            finished_reported: true,
            ..self
        }
    }

    /// Loads a track that was decoded, with the length that the decoder knows,
    /// or could not be.
    pub fn load(
        &mut self,
        source: &AudioSource,
        start_at_ms: u64,
        expected_duration_ms: u64,
        decoded: Result<Option<u64>, String>,
    ) -> (r: (LoadAction, Option<AudioEvent>))
        ensures
            ({
                let begun = Runtime {
                    stream: match *source {
                        AudioSource::Stream(id) => Some(id),
                        AudioSource::File(_) => None,
                    },
                    last_position_ms: start_at_ms,
                    ..*old(self)
                };
                match decoded {
                    Err(message) => {
                        &&& *final(self) == begun.failed()
                        &&& r == (LoadAction::Failed, Some(AudioEvent::Failed(message)))
                    },
                    Ok(length) => if !old(self).has_output {
                        *final(self) == begun && r == (LoadAction::NoOutput, None::<AudioEvent>)
                    } else {
                        let duration_ms = track_length(length, expected_duration_ms);
                        &&& *final(self) == (Runtime {
                            loaded: true,
                            finished_reported: false,
                            shared: Shared {
                                state_code: PlaybackState::Playing.number(),
                                position_ms: start_at_ms,
                                duration_ms,
                                ..old(self).shared
                            },
                            ..begun
                        })
                        &&& r == (
                            LoadAction::Play {
                                seek_to: if start_at_ms > 0 {
                                    Some(start_at_ms)
                                } else {
                                    None
                                },
                            },
                            Some(AudioEvent::Ready { duration_ms }),
                        )
                    },
                }
            }),
            decoded matches Ok(length) ==> (old(self).has_output ==> *final(self) == old(
                self,
            ).playing(*source, start_at_ms, track_length(length, expected_duration_ms))),
    {
        self.stream = match source {
            AudioSource::Stream(id) => Some(*id),
            AudioSource::File(_) => None,
        };
        self.last_position_ms = start_at_ms;
        let length: Option<u64> = match decoded {
            Ok(length) => length,
            Err(message) => {
                let event = self.report_failure(message);
                return (LoadAction::Failed, Some(event));
            },
        };
        if !self.has_output {
            return (LoadAction::NoOutput, None);
        }
        let duration_ms: u64 = match length {
            Some(ms) => if ms > 0 {
                ms
            } else {
                expected_duration_ms
            },
            None => expected_duration_ms,
        };
        self.shared.duration_ms = duration_ms;
        self.shared.position_ms = start_at_ms;
        self.loaded = true;
        self.finished_reported = false;
        self.shared.set_state(PlaybackState::Playing);
        let seek_to: Option<u64> = if start_at_ms > 0 {
            Some(start_at_ms)
        } else {
            None
        };
        (LoadAction::Play { seek_to }, Some(AudioEvent::Ready { duration_ms }))
    }

    /// The state after a playing track was paused, or a paused one resumed.
    pub open spec fn toggled(self, player_paused: bool) -> Runtime {
        if !self.loaded {
            self
        } else if self.has_output && player_paused {
            Runtime {
                finished_reported: false,
                shared: Shared { state_code: PlaybackState::Playing.number(), ..self.shared },
                ..self
            }
        } else {
            Runtime {
                shared: Shared { state_code: PlaybackState::Paused.number(), ..self.shared },
                ..self
            }
        }
    }

    /// Pauses a playing track or resumes a paused one. Says whether the player
    /// is to play, to pause, or to be left alone.
    pub fn toggle(&mut self, player_paused: bool) -> (r: Option<bool>)
        ensures
            *final(self) == old(self).toggled(player_paused),
            r == (if old(self).loaded && old(self).has_output {
                Some(player_paused)
            } else {
                None
            }),
    {
        let resume = self.has_output && player_paused;
        if !self.loaded {
            return None;
        }
        if resume {
            self.shared.set_state(PlaybackState::Playing);
            self.finished_reported = false;
        } else {
            self.shared.set_state(PlaybackState::Paused);
        }
        if self.has_output {
            Some(resume)
        } else {
            None
        }
    }

    pub open spec fn stopped(self) -> Runtime {
        Runtime {
            stream: None,
            last_position_ms: 0,
            loaded: false,
            finished_reported: true,
            shared: Shared {
                state_code: PlaybackState::Stopped.number(),
                position_ms: 0,
                duration_ms: 0,
                ..self.shared
            },
            ..self
        }
    }

    /// The state after a command was taken.
    pub open spec fn commanded(self, command: AudioCmd, player_paused: bool) -> Runtime {
        match command {
            AudioCmd::Toggle => self.toggled(player_paused),
            AudioCmd::Stop => self.stopped(),
            AudioCmd::SetVolume(bits) => Runtime {
                shared: Shared { volume_bits: clamped(bits), ..self.shared },
                ..self
            },
            _ => self,
        }
    }

    /// What is to be done for a command.
    pub open spec fn order_for(self, command: AudioCmd, player_paused: bool) -> PlayerOrder {
        match command {
            AudioCmd::Load { source, start_at_ms, expected_duration_ms } => PlayerOrder::Decode {
                source,
                start_at_ms,
                expected_duration_ms,
            },
            AudioCmd::Toggle => if !self.loaded || !self.has_output {
                PlayerOrder::Nothing
            } else if player_paused {
                PlayerOrder::Resume
            } else {
                PlayerOrder::Pause
            },
            AudioCmd::Stop => if self.has_output {
                PlayerOrder::Stop
            } else {
                PlayerOrder::Nothing
            },
            AudioCmd::SeekTo(position_ms) => self.seek_order(position_ms),
            AudioCmd::SeekBy(delta_ms) => self.seek_order(
                shifted(self.shared.position_ms, delta_ms),
            ),
            AudioCmd::SetVolume(bits) => if self.has_output {
                PlayerOrder::SetVolume(bits)
            } else {
                PlayerOrder::Nothing
            },
            AudioCmd::UseDevice(device) => PlayerOrder::OpenDevice(device),
            AudioCmd::Shutdown => PlayerOrder::Nothing,
        }
    }

    pub open spec fn seek_order(self, position_ms: u64) -> PlayerOrder {
        if self.loaded && self.has_output {
            PlayerOrder::SeekTo(within_track(position_ms, self.shared.duration_ms))
        } else {
            PlayerOrder::Nothing
        }
    }

    fn order_seek(&self, position_ms: u64) -> (r: PlayerOrder)
        ensures
            r == self.seek_order(position_ms),
    {
        match self.seek_to(position_ms) {
            Some(target) => PlayerOrder::SeekTo(target),
            None => PlayerOrder::Nothing,
        }
    }

    /// Takes a command; says what is to be done for it.
    pub fn handle(&mut self, command: AudioCmd, player_paused: bool) -> (r: PlayerOrder)
        requires
            command is SeekBy ==> old(self).shared.position_ms <= i64::MAX,
        ensures
            *final(self) == old(self).commanded(command, player_paused),
            r == old(self).order_for(command, player_paused),
    {
        match command {
            AudioCmd::Load { source, start_at_ms, expected_duration_ms } => PlayerOrder::Decode {
                source,
                start_at_ms,
                expected_duration_ms,
            },
            AudioCmd::Toggle => match self.toggle(player_paused) {
                Some(resume) => if resume {
                    PlayerOrder::Resume
                } else {
                    PlayerOrder::Pause
                },
                None => PlayerOrder::Nothing,
            },
            AudioCmd::Stop => {
                self.stop();
                if self.has_output {
                    PlayerOrder::Stop
                } else {
                    PlayerOrder::Nothing
                }
            },
            AudioCmd::SeekTo(position_ms) => self.order_seek(position_ms),
            AudioCmd::SeekBy(delta_ms) => {
                let target: u64 = self.seek_by(delta_ms);
                self.order_seek(target)
            },
            AudioCmd::SetVolume(bits) => {
                self.set_volume(bits);
                if self.has_output {
                    PlayerOrder::SetVolume(bits)
                } else {
                    PlayerOrder::Nothing
                }
            },
            AudioCmd::UseDevice(device) => PlayerOrder::OpenDevice(device),
            AudioCmd::Shutdown => PlayerOrder::Nothing,
        }
    }

    /// Stops: the player, where there is one, is stopped and cleared.
    pub fn stop(&mut self)
        ensures
            *final(self) == old(self).stopped(),
    {
        self.stream = None;
        self.last_position_ms = 0;
        self.loaded = false;
        self.finished_reported = true;
        self.shared.position_ms = 0;
        self.shared.duration_ms = 0;
        self.shared.set_state(PlaybackState::Stopped);
    }

    /// Where a seek goes: within the track, and only where one is loaded and
    /// there is a player.
    pub fn seek_to(&self, position_ms: u64) -> (r: Option<u64>)
        ensures
            r == (if self.loaded && self.has_output {
                Some(within_track(position_ms, self.shared.duration_ms))
            } else {
                None
            }),
    {
        if !self.loaded || !self.has_output {
            return None;
        }
        Some(clamp_to_track(position_ms, self.shared.duration_ms))
    }

    /// Where a seek by `delta_ms` goes: the target handed to [`Self::seek_to`].
    pub fn seek_by(&self, delta_ms: i64) -> (r: u64)
        requires
            self.shared.position_ms <= i64::MAX,
        ensures
            r == shifted(self.shared.position_ms, delta_ms),
    {
        let sum: i128 = self.shared.position_ms as i128 + delta_ms as i128;
        if sum < 0 {
            0
        } else if sum > i64::MAX as i128 {
            i64::MAX as u64
        } else {
            sum as u64
        }
    }

    /// Takes whether the player went to `target`.
    pub fn sought(&mut self, target: u64, went: bool)
        ensures
            *final(self) == (if went {
                Runtime {
                    last_position_ms: target,
                    finished_reported: false,
                    shared: Shared { position_ms: target, ..old(self).shared },
                    ..*old(self)
                }
            } else {
                *old(self)
            }),
            went ==> *final(self) == old(self).standing_at(target),
    {
        if went {
            self.last_position_ms = target;
            self.shared.position_ms = target;
            self.finished_reported = false;
        }
    }

    /// Sets the volume.
    pub fn set_volume(&mut self, volume_bits: u32)
        ensures
            *final(self) == (Runtime {
                shared: Shared { volume_bits: clamped(volume_bits), ..old(self).shared },
                ..*old(self)
            }),
    {
        self.shared.set_volume(volume_bits);
    }

    /// Takes the outcome of opening another device. A device that cannot be
    /// opened leaves everything as it was.
    pub fn use_device(&mut self, opened: Result<String, String>) -> (r: AudioEvent)
        ensures
            match opened {
                Ok(name) => {
                    &&& *final(self) == (Runtime {
                        has_output: true,
                        stream: None,
                        loaded: false,
                        finished_reported: true,
                        ..*old(self)
                    })
                    &&& r == (AudioEvent::DeviceOpened { name })
                },
                Err(message) => {
                    &&& *final(self) == *old(self)
                    &&& r == AudioEvent::DeviceSwitchFailed(message)
                },
            },
            opened is Ok ==> *final(self) == old(self).on_another_device(),
    {
        match opened {
            Ok(name) => {
                self.stream = None;
                self.loaded = false;
                self.finished_reported = true;
                self.has_output = true;
                AudioEvent::DeviceOpened { name }
            },
            Err(message) => AudioEvent::DeviceSwitchFailed(message),
        }
    }

    /// Whether the player has run empty and this was not reported yet.
    pub open spec fn drains(self, player: PlayerStatus) -> bool {
        self.loaded && self.has_output && player.drained && !player.paused
            && !self.finished_reported
    }

    /// The state after a look at the player.
    pub open spec fn synced(self, player: PlayerStatus) -> Runtime {
        if !self.loaded || !self.has_output {
            self
        } else if player.drained && !player.paused {
            if self.finished_reported {
                self
            } else {
                Runtime {
                    finished_reported: true,
                    loaded: false,
                    stream: None,
                    shared: Shared { state_code: PlaybackState::Stopped.number(), ..self.shared },
                    ..self
                }
            }
        } else {
            Runtime {
                last_position_ms: player.position_ms,
                shared: Shared {
                    position_ms: player.position_ms,
                    state_code: (if player.paused {
                        PlaybackState::Paused
                    } else {
                        PlaybackState::Playing
                    }).number(),
                    ..self.shared
                },
                ..self
            }
        }
    }

    /// Looks at the player: follows its position, and where it has run empty
    /// says what that means. `stream` is the stream that feeds it, where one
    /// does.
    pub fn sync(&mut self, player: PlayerStatus, stream: Option<&StreamingBuffer>) -> (r: Option<
        AudioEvent,
    >)
        ensures
            *final(self) == old(self).synced(player),
            if old(self).drains(player) {
                exists|outcome: DrainOutcome| #[trigger]
                    outcome.fits(stream_view(stream)) && r == (match outcome {
                        DrainOutcome::Silent => None,
                        DrainOutcome::Failed(message) => Some(AudioEvent::Failed(message)),
                        DrainOutcome::Interrupted => Some(
                            AudioEvent::StreamInterrupted {
                                position_ms: old(self).last_position_ms,
                            },
                        ),
                        DrainOutcome::Finished => Some(AudioEvent::TrackFinished),
                    })
            } else {
                r is None
            },
    {
        if !self.loaded || !self.has_output {
            return None;
        }
        if player.drained && !player.paused {
            if self.finished_reported {
                return None;
            }
            self.finished_reported = true;
            self.loaded = false;
            self.shared.set_state(PlaybackState::Stopped);
            let position_ms: u64 = self.last_position_ms;
            self.stream = None;
            let outcome = classify_drain(stream);
            assert(outcome.fits(stream_view(stream)));
            return match outcome {
                DrainOutcome::Silent => None,
                DrainOutcome::Failed(message) => Some(AudioEvent::Failed(message)),
                DrainOutcome::Interrupted => Some(AudioEvent::StreamInterrupted { position_ms }),
                DrainOutcome::Finished => Some(AudioEvent::TrackFinished),
            };
        }
        self.last_position_ms = player.position_ms;
        self.shared.position_ms = player.position_ms;
        let state = if player.paused {
            PlaybackState::Paused
        } else {
            PlaybackState::Playing
        };
        if self.shared.state() != state {
            self.shared.set_state(state);
        }
        None
    }

    /// Reports a failure. It is no end of the track, so no next track follows.
    pub fn report_failure(&mut self, message: String) -> (r: AudioEvent)
        ensures
            *final(self) == old(self).failed(),
            r == AudioEvent::Failed(message),
    {
        self.stream = None;
        self.loaded = false;
        self.finished_reported = true;
        self.shared.set_state(PlaybackState::Stopped);
        AudioEvent::Failed(message)
    }
}

/// The end of a track is reported once: after a player ran empty, looking at it
/// again reports nothing.
pub proof fn end_is_reported_once(runtime: Runtime, player: PlayerStatus, again: PlayerStatus)
    requires
        runtime.drains(player),
    ensures
        !runtime.synced(player).drains(again),
        runtime.synced(player).synced(again) == runtime.synced(player),
{
}

/// The end of a track does not wipe out the position: looking at an empty player
/// leaves the last position that was read while it played.
pub proof fn draining_keeps_the_position(runtime: Runtime, player: PlayerStatus)
    requires
        runtime.drains(player),
    ensures
        runtime.synced(player).last_position_ms == runtime.last_position_ms,
        runtime.synced(player).shared.position_ms == runtime.shared.position_ms,
{
}

/// A starving stream is never taken for the end of the track, a stream that was
/// called off is never reported, and being called off outweighs a failure.
pub proof fn drains_are_told_apart(stream: StreamView, outcome: DrainOutcome)
    requires
        outcome.fits(Some(stream)),
    ensures
        !stream.finished && !stream.cancelled && stream.error is None ==> outcome
            == DrainOutcome::Interrupted,
        stream.cancelled ==> outcome == DrainOutcome::Silent,
        outcome == DrainOutcome::Finished ==> stream.complete(),
        !stream.cancelled && stream.error is Some ==> outcome is Failed,
{
}

/// Seeking never leaves the track: where its length is known, the target lies
/// within it.
pub proof fn seeks_stay_within_the_track(position_ms: u64, duration_ms: u64)
    ensures
        duration_ms > 0 ==> within_track(position_ms, duration_ms) < duration_ms,
        position_ms < duration_ms ==> within_track(position_ms, duration_ms) == position_ms,
{
}

/// A relative seek goes to the sum of the place and the step: not before the start, and
/// not behind the end, where that is known.
pub proof fn relative_seeks_go_to_the_sum(runtime: Runtime, delta_ms: i64, paused: bool)
    requires
        runtime.loaded,
        runtime.has_output,
        runtime.shared.position_ms <= i64::MAX,
        runtime.shared.position_ms + delta_ms <= i64::MAX,
    ensures
        ({
            let sum = runtime.shared.position_ms + delta_ms;
            let duration_ms = runtime.shared.duration_ms;
            let order = runtime.order_for(AudioCmd::SeekBy(delta_ms), paused);
            &&& 0 <= sum && (sum < duration_ms || duration_ms == 0) ==> order
                == PlayerOrder::SeekTo(sum as u64)
            &&& sum < 0 ==> order == PlayerOrder::SeekTo(0)
            &&& 0 < duration_ms <= sum ==> order == PlayerOrder::SeekTo((duration_ms - 1) as u64)
        }),
{
}

/// A seek goes to the very place that is asked for, where that lies within the track.
pub proof fn seeks_go_where_they_are_sent(runtime: Runtime, position_ms: u64, paused: bool)
    requires
        runtime.loaded,
        runtime.has_output,
    ensures
        ({
            let duration_ms = runtime.shared.duration_ms;
            let order = runtime.order_for(AudioCmd::SeekTo(position_ms), paused);
            &&& position_ms < duration_ms || duration_ms == 0 ==> order == PlayerOrder::SeekTo(
                position_ms,
            )
            &&& 0 < duration_ms <= position_ms ==> order == PlayerOrder::SeekTo(
                (duration_ms - 1) as u64,
            )
        }),
{
}

/// Where nothing is loaded, or there is nothing to play on, no seek and no pausing
/// reaches the player.
pub proof fn nothing_is_done_without_a_track(
    runtime: Runtime,
    position_ms: u64,
    delta_ms: i64,
    paused: bool,
)
    requires
        !runtime.loaded || !runtime.has_output,
    ensures
        runtime.order_for(AudioCmd::SeekTo(position_ms), paused) == PlayerOrder::Nothing,
        runtime.order_for(AudioCmd::SeekBy(delta_ms), paused) == PlayerOrder::Nothing,
        runtime.order_for(AudioCmd::Toggle, paused) == PlayerOrder::Nothing,
{
}

/// A track that plays is paused, and a paused one plays on; what is shown is what the
/// player does, and doing it twice restores it. The place stays.
pub proof fn pausing_and_resuming(runtime: Runtime)
    requires
        runtime.loaded,
        runtime.has_output,
    ensures
        runtime.order_for(AudioCmd::Toggle, false) == PlayerOrder::Pause,
        PlaybackState::numbered(runtime.commanded(AudioCmd::Toggle, false).shared.state_code)
            == PlaybackState::Paused,
        runtime.order_for(AudioCmd::Toggle, true) == PlayerOrder::Resume,
        PlaybackState::numbered(runtime.commanded(AudioCmd::Toggle, true).shared.state_code)
            == PlaybackState::Playing,
        runtime.shared.state_code == PlaybackState::Playing.number() ==> runtime.commanded(
            AudioCmd::Toggle,
            false,
        ).commanded(AudioCmd::Toggle, true).shared == runtime.shared,
        forall|paused: bool| #[trigger]
            runtime.commanded(AudioCmd::Toggle, paused).shared.position_ms
                == runtime.shared.position_ms && runtime.commanded(
                AudioCmd::Toggle,
                paused,
            ).loaded,
{
}

/// What the player is told to do is what the command asks for: the same track from the
/// same place, the same device, the same volume, or to stop.
pub proof fn commands_reach_the_player(
    runtime: Runtime,
    source: AudioSource,
    start_at_ms: u64,
    expected_duration_ms: u64,
    volume: u32,
    device: Option<String>,
    paused: bool,
)
    ensures
        ({
            let load = AudioCmd::Load { source, start_at_ms, expected_duration_ms };
            let used = AudioCmd::UseDevice(device);
            &&& runtime.order_for(load, paused) == (PlayerOrder::Decode {
                source,
                start_at_ms,
                expected_duration_ms,
            })
            &&& runtime.commanded(load, paused) == runtime
            &&& runtime.order_for(used, paused) == PlayerOrder::OpenDevice(device)
            &&& runtime.commanded(used, paused) == runtime
            &&& runtime.has_output ==> runtime.order_for(AudioCmd::SetVolume(volume), paused)
                == PlayerOrder::SetVolume(volume)
            &&& runtime.commanded(AudioCmd::SetVolume(volume), paused).shared.position_ms
                == runtime.shared.position_ms
            &&& runtime.commanded(AudioCmd::SetVolume(volume), paused).shared.state_code
                == runtime.shared.state_code
            &&& runtime.has_output ==> runtime.order_for(AudioCmd::Stop, paused)
                == PlayerOrder::Stop
        }),
{
}

/// A stopped thread holds no track, shows that nothing plays, and stands at the start;
/// the volume stays.
pub proof fn stopping_ends_the_track(runtime: Runtime, paused: bool)
    ensures
        ({
            let after = runtime.commanded(AudioCmd::Stop, paused);
            &&& !after.loaded
            &&& after.shared.state_code == PlaybackState::Stopped.number()
            &&& after.shared.position_ms == 0
            &&& after.shared.duration_ms == 0
            &&& after.shared.volume_bits == runtime.shared.volume_bits
            &&& after.has_output == runtime.has_output
        }),
{
}

/// While a track is played, what is shown follows the player: its place, and whether it
/// is paused. A drained player ends the track once; a paused one does not.
pub proof fn playing_is_followed(runtime: Runtime, player: PlayerStatus)
    requires
        runtime.loaded,
        runtime.has_output,
    ensures
        !player.drained || player.paused ==> {
            let after = runtime.synced(player);
            &&& after.shared.position_ms == player.position_ms
            &&& after.last_position_ms == player.position_ms
            &&& PlaybackState::numbered(after.shared.state_code) == (if player.paused {
                PlaybackState::Paused
            } else {
                PlaybackState::Playing
            })
            &&& after.loaded
            &&& after.stream == runtime.stream
            &&& !runtime.drains(player)
        },
        player.drained && !player.paused && !runtime.finished_reported ==> {
            let after = runtime.synced(player);
            &&& runtime.drains(player)
            &&& !after.loaded
            &&& PlaybackState::numbered(after.shared.state_code) == PlaybackState::Stopped
        },
        runtime.synced(player).shared.duration_ms == runtime.shared.duration_ms,
        runtime.synced(player).shared.volume_bits == runtime.shared.volume_bits,
{
}

/// A track that was played from a file, or whose stream came in as a whole, is at its end
/// when the player has run empty; a stream that broke off says why.
pub proof fn drained_tracks_are_over(stream: Option<StreamView>, outcome: DrainOutcome)
    requires
        outcome.fits(stream),
    ensures
        stream is None ==> outcome == DrainOutcome::Finished,
        stream matches Some(s) ==> (!s.cancelled && s.finished && s.error is None ==> outcome
            == DrainOutcome::Finished),
        stream matches Some(s) ==> (!s.cancelled && s.error is Some ==> outcome is Failed
            && outcome->Failed_0@ == s.error->0),
{
}

/// The length of a track is the one that the decoder knows, else the one that was
/// expected.
pub proof fn decoders_know_lengths_best(decoded: u64, expected: u64)
    ensures
        decoded > 0 ==> track_length(Some(decoded), expected) == decoded,
        track_length(Some(0), expected) == expected,
        track_length(None, expected) == expected,
{
}

/// The stream of a track is let go when the track has ended, cannot be decoded or is
/// stopped, and when another device is opened.
pub proof fn ended_tracks_let_their_stream_go(runtime: Runtime, player: PlayerStatus)
    ensures
        runtime.drains(player) ==> runtime.synced(player).stream is None,
        runtime.failed().stream is None,
        runtime.stopped().stream is None,
{
}

/// Stopping twice is stopping once, and a stopped thread plays nothing.
pub proof fn stopping_settles(runtime: Runtime, player: PlayerStatus, position_ms: u64)
    ensures
        runtime.stopped().stopped() == runtime.stopped(),
        runtime.stopped().synced(player) == runtime.stopped(),
        runtime.stopped().seek_order(position_ms) == PlayerOrder::Nothing,
{
}

/// A track that is loaded plays from the place that was asked for, is fed by its stream where
/// it has one, and its end is still to be reported. The volume stays.
pub proof fn loaded_tracks_play_from_their_place(
    runtime: Runtime,
    path: String,
    stream: u64,
    start_at_ms: u64,
    duration_ms: u64,
)
    ensures
        ({
            let next = runtime.playing(AudioSource::Stream(stream), start_at_ms, duration_ms);
            &&& next.loaded
            &&& !next.finished_reported
            &&& next.stream == Some(stream)
            &&& next.shared.position_ms == start_at_ms
            &&& next.last_position_ms == start_at_ms
            &&& next.shared.duration_ms == duration_ms
            &&& PlaybackState::numbered(next.shared.state_code) == PlaybackState::Playing
            &&& next.shared.volume_bits == runtime.shared.volume_bits
            &&& next.has_output == runtime.has_output
        }),
        ({
            let next = runtime.playing(AudioSource::File(path), start_at_ms, duration_ms);
            &&& next.stream is None
            &&& next.loaded
            &&& next.shared.position_ms == start_at_ms
        }),
{
}

/// A player that went to a place stands there, and what was loaded stays loaded; its end is
/// reported anew.
pub proof fn players_stand_where_they_went(runtime: Runtime, target: u64)
    ensures
        runtime.standing_at(target).shared.position_ms == target,
        runtime.standing_at(target).last_position_ms == target,
        !runtime.standing_at(target).finished_reported,
        runtime.standing_at(target).loaded == runtime.loaded,
        runtime.standing_at(target).stream == runtime.stream,
        runtime.standing_at(target).shared.state_code == runtime.shared.state_code,
        runtime.standing_at(target).shared.duration_ms == runtime.shared.duration_ms,
{
}

/// Another device starts without a track, and can be played on; the volume stays.
pub proof fn other_devices_start_without_a_track(runtime: Runtime)
    ensures
        runtime.on_another_device().has_output,
        !runtime.on_another_device().loaded,
        runtime.on_another_device().stream is None,
        runtime.on_another_device().shared.volume_bits == runtime.shared.volume_bits,
{
}

/// A volume within its bounds is the one that is heard and shown.
pub proof fn volumes_are_heard_as_they_are_set(runtime: Runtime, volume: u32, paused: bool)
    requires
        volume <= 0x3f80_0000,
    ensures
        runtime.commanded(AudioCmd::SetVolume(volume), paused).shared.volume_bits == volume,
        runtime.commanded(AudioCmd::SetVolume(volume), paused).loaded == runtime.loaded,
{
}

/// What cannot be decoded leaves nothing loaded, and is no end of a track.
pub proof fn failed_tracks_are_not_loaded(runtime: Runtime, player: PlayerStatus)
    ensures
        !runtime.failed().loaded,
        !runtime.failed().drains(player),
        PlaybackState::numbered(runtime.failed().shared.state_code) == PlaybackState::Stopped,
        runtime.failed().shared.volume_bits == runtime.shared.volume_bits,
{
}

} // verus!
