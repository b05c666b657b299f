//! What the audio thread tells, and the beat of the clock.

use vstd::prelude::*;
use crate::app::conf;
use crate::app::effect::Effect;
use crate::app::nav::Tab;
use crate::app::player::Player;
use crate::app::screen::Screen;
use crate::app::state::{App, AppView};
use crate::audio::engine::{AudioEvent, PlaybackState};
use crate::event::AudioSnapshot;
use crate::model::{describe_song, Song};
use crate::text::{cat2, cat5, clock_text, format_duration_ms, same};

verus! {

/// Between two beats at which the size of the cache is measured.
pub const CACHE_MEASURE_TICKS: u64 = 50;

/// Between two beats at which a login is asked about.
pub const LOGIN_POLL_TICKS: u64 = 10;

/// How often the session is saved, in milliseconds.
pub const SESSION_SAVE_MS: u64 = 30_000;

/// Whether the audio thread has a track, so that the place it tells is one.
pub open spec fn holds_track(state: PlaybackState) -> bool {
    state == PlaybackState::Playing || state == PlaybackState::Paused
}

fn next_tick(ticks: u64) -> (r: u64)
    ensures
        r == (if ticks == u64::MAX {
            0
        } else {
            (ticks + 1) as u64
        }),
{
    if ticks == u64::MAX {
        0
    } else {
        ticks + 1
    }
}

impl AppView {
    /// The length of the track, as far as it is known.
    #[verifier::opaque]
    pub open spec fn learn_duration(self, duration_ms: u64) -> AppView {
        if duration_ms > 0 {
            self.with_player(Player { duration_ms, ..self.state.player })
        } else {
            self
        }
    }

    #[verifier::opaque]
    pub open spec fn set_playback(self, playback: PlaybackState) -> AppView {
        self.with_player(Player { playback, ..self.state.player })
    }

    /// A track plays; where to resume is settled by that.
    #[verifier::opaque]
    pub open spec fn track_ready(self, duration_ms: u64) -> AppView {
        self.learn_duration(duration_ms).settle().set_playback(
            PlaybackState::Playing,
        ).forget_resume().success(
            "正在播放："@ + match self.state.player.current {
                Some(song) => song.title(),
                None => Seq::empty(),
            },
        )
    }

    #[verifier::opaque]
    pub open spec fn forget_resume(self) -> AppView {
        self.with_player(self.state.player.unresumed())
    }

    #[verifier::opaque]
    pub open spec fn with_device(self, name: Seq<char>) -> AppView {
        self.with_player(Player { output_device: name, ..self.state.player })
    }

    /// Another device is open: what was to go on goes on there. The first device
    /// is not spoken of.
    #[verifier::opaque]
    pub open spec fn device_opened(self, name: Seq<char>) -> AppView {
        match self.pending_device_resume {
            Some((song, position)) => (AppView {
                pending_device_resume: None,
                ..self.with_device(name)
            }).start_playback(song, position),
            None => if self.state.player.output_device.len() == 0 {
                self.with_device(name)
            } else {
                self.with_device(name).info("输出设备 → "@ + name)
            },
        }
    }

    /// A track was played to its end. Behind an excerpt one stops: the rest could
    /// not be had.
    #[verifier::opaque]
    pub open spec fn track_finished(self) -> AppView {
        let ended = (AppView { active_stream: None, ..self }).with_player(
            Player { position_ms: 0, ..self.state.player },
        );
        if self.state.player.current_is_trial {
            ended.trial_ended()
        } else {
            ended.next_track(false)
        }
    }

    #[verifier::opaque]
    pub open spec fn trial_ended(self) -> AppView {
        self.with_player(
            Player {
                current_is_trial: false,
                playback: PlaybackState::Stopped,
                ..self.state.player
            },
        ).warn("试听片段已播完（完整版需要对应会员），按 n 跳下一首"@)
    }

    #[verifier::opaque]
    pub open spec fn halt_at(self, position_ms: u64) -> AppView {
        let settled = self.settle();
        settled.with_player(
            Player { playback: PlaybackState::Stopped, position_ms, ..settled.state.player },
        )
    }

    /// A song whose stream starved goes on from there by itself, once. Then the place
    /// is kept, to go on from there when the user asks for it.
    #[verifier::opaque]
    pub open spec fn pick_up(self, song: Song, position_ms: u64) -> AppView {
        if self.stream_retried == Some(song.hash@) {
            self.mark_resume_point().warn(
                "《"@ + song.name@ + "》缓冲中断在 "@ + clock_text(position_ms as nat)
                    + "，按 Space 或 Enter 重试"@,
            )
        } else {
            (AppView { stream_retried: Some(song.hash@), ..self }).warn(
                "《"@ + song.name@ + "》缓冲中断，正从 "@ + clock_text(position_ms as nat)
                    + " 继续…"@,
            ).start_playback(song, position_ms)
        }
    }

    /// A stream starved in the middle of a track: the place is kept, and this is
    /// no end of the track.
    #[verifier::opaque]
    pub open spec fn stream_interrupted(self, position_ms: u64) -> AppView {
        let halted = self.halt_at(position_ms);
        match self.state.player.current {
            Some(song) => halted.pick_up(song, position_ms),
            None => halted.warn("缓冲中断"@),
        }
    }

    #[verifier::opaque]
    pub open spec fn device_switch_failed(self, message: Seq<char>) -> AppView {
        (AppView { pending_device_resume: None, ..self }).warn(message)
    }

    /// A device or a track could not be opened: the place is kept to be resumed.
    #[verifier::opaque]
    pub open spec fn audio_failed(self, message: Seq<char>) -> AppView {
        (AppView {
            pending_device_resume: None,
            active_stream: None,
            ..self.settle()
        }).set_playback(PlaybackState::Stopped).mark_resume_point().error(message)
    }

    #[verifier::opaque]
    pub open spec fn handle_audio_event(self, event: AudioEvent) -> AppView {
        match event {
            AudioEvent::Ready { duration_ms } => self.track_ready(duration_ms),
            AudioEvent::DeviceOpened { name } => self.device_opened(name@),
            AudioEvent::TrackFinished => self.track_finished(),
            AudioEvent::StreamInterrupted { position_ms } => self.stream_interrupted(position_ms),
            AudioEvent::DeviceSwitchFailed(message) => self.device_switch_failed(message@),
            AudioEvent::Failed(message) => self.audio_failed(message@),
        }
    }

    #[verifier::opaque]
    pub open spec fn count_tick(self) -> AppView {
        self.with_screen(
            Screen {
                ticks: if self.state.screen.ticks == u64::MAX {
                    0
                } else {
                    (self.state.screen.ticks + 1) as u64
                },
                ..self.state.screen
            },
        )
    }

    /// The session is saved from time to time, for the case that the program does
    /// not end by itself.
    #[verifier::opaque]
    pub open spec fn save_session_in_time(self) -> AppView {
        if self.clock.now_ms >= self.last_session_save + SESSION_SAVE_MS {
            (AppView { last_session_save: self.clock.now_ms, ..self }).emit(Effect::SaveSession)
        } else {
            self
        }
    }

    /// The screen follows the audio thread. While that has no track, the place
    /// stays what it was.
    #[verifier::opaque]
    pub open spec fn follow_audio(self, audio: AudioSnapshot) -> AppView {
        self.with_player(
            Player {
                playback: audio.state,
                position_ms: if holds_track(audio.state) {
                    audio.position_ms
                } else {
                    self.state.player.position_ms
                },
                duration_ms: if audio.duration_ms > 0 {
                    audio.duration_ms
                } else {
                    self.state.player.duration_ms
                },
                ..self.state.player
            },
        )
    }

    /// The spectrum is computed only where it is seen.
    pub open spec fn wants_spectrum(self) -> bool {
        !self.state.config.lite_mode && self.state.screen.tab == Tab::Visualizer
            && self.state.player.playback == PlaybackState::Playing
    }

    #[verifier::opaque]
    pub open spec fn sing(self) -> AppView {
        if self.state.player.playback == PlaybackState::Playing {
            self.update_active_lyric()
        } else {
            self
        }
    }

    #[verifier::opaque]
    pub open spec fn poll_in_time(self) -> AppView {
        if self.state.panels.login is Some && self.state.screen.ticks % LOGIN_POLL_TICKS == 0 {
            self.poll_login()
        } else {
            self
        }
    }

    #[verifier::opaque]
    pub open spec fn measure_in_time(self, ticks: u64) -> AppView {
        if ticks % CACHE_MEASURE_TICKS == 0 {
            self.refresh_cache_usage()
        } else {
            self
        }
    }

    #[verifier::opaque]
    pub open spec fn show_audio(self) -> AppView {
        self.emit(Effect::RefreshLevels { spectrum: self.wants_spectrum() }).emit(
            Effect::PublishTrack,
        )
    }

    /// One beat of the clock.
    #[verifier::opaque]
    pub open spec fn tick(self, audio: AudioSnapshot) -> AppView {
        let counted = self.count_tick();
        counted.save_session_in_time().follow_audio(
            audio,
        ).show_audio().sing().poll_in_time().measure_in_time(counted.state.screen.ticks)
    }
}

impl App {
    fn learn_duration(&mut self, duration_ms: u64)
        ensures
            final(self)@ == old(self)@.learn_duration(duration_ms),
    {
        proof {
            reveal(AppView::learn_duration);
        }
        if duration_ms > 0 {
            self.state.player.set_duration_ms(duration_ms);
        }
    }

    fn set_playback(&mut self, playback: PlaybackState)
        ensures
            final(self)@ == old(self)@.set_playback(playback),
    {
        proof {
            reveal(AppView::set_playback);
        }
        self.state.player.set_playback(playback);
    }

    fn forget_resume(&mut self)
        ensures
            final(self)@ == old(self)@.forget_resume(),
    {
        proof {
            reveal(AppView::forget_resume);
        }
        self.state.player.forget_resume();
    }

    fn track_ready(&mut self, duration_ms: u64)
        ensures
            final(self)@ == old(self)@.track_ready(duration_ms),
    {
        proof {
            reveal(AppView::track_ready);
        }
        let title = match self.state.player.current() {
            Some(song) => describe_song(&song),
            None => String::new(),
        };
        self.learn_duration(duration_ms);
        self.settle();
        self.set_playback(PlaybackState::Playing);
        self.forget_resume();
        self.success(cat2("正在播放：", title.as_str()));
    }

    fn with_device(&mut self, name: &str)
        ensures
            final(self)@ == old(self)@.with_device(name@),
    {
        proof {
            reveal(AppView::with_device);
        }
        self.state.player.set_output_device(name.to_owned());
    }

    fn device_opened(&mut self, name: &str)
        ensures
            final(self)@ == old(self)@.device_opened(name@),
    {
        proof {
            reveal(AppView::device_opened);
            reveal(AppView::with_device);
        }
        let first = self.state.player.has_no_device();
        let resume = self.pending_device_resume.take();
        self.with_device(name);
        match resume {
            Some((song, position)) => {
                self.start_playback(song, position);
            },
            None => {
                if !first {
                    self.info(cat2("输出设备 → ", name));
                }
            },
        }
    }

    fn trial_ended(&mut self)
        ensures
            final(self)@ == old(self)@.trial_ended(),
    {
        proof {
            reveal(AppView::trial_ended);
        }
        self.state.player.set_current_is_trial(false);
        self.state.player.set_playback(PlaybackState::Stopped);
        self.warn("试听片段已播完（完整版需要对应会员），按 n 跳下一首".to_owned());
    }

    fn track_finished(&mut self)
        ensures
            final(self)@ == old(self)@.track_finished(),
    {
        proof {
            reveal(AppView::track_finished);
        }
        let trial = self.state.player.current_is_trial();
        self.state.player.set_position_ms(0);
        self.active_stream = None;
        if trial {
            self.trial_ended();
        } else {
            self.next_track(false);
        }
    }

    fn halt_at(&mut self, position_ms: u64)
        ensures
            final(self)@ == old(self)@.halt_at(position_ms),
    {
        proof {
            reveal(AppView::halt_at);
        }
        self.settle();
        self.state.player.set_playback(PlaybackState::Stopped);
        self.state.player.set_position_ms(position_ms);
    }

    fn pick_up(&mut self, song: Song, position_ms: u64)
        ensures
            final(self)@ == old(self)@.pick_up(song, position_ms),
    {
        proof {
            reveal(AppView::pick_up);
        }
        let place = format_duration_ms(position_ms);
        let retried = match &self.stream_retried {
            Some(hash) => same(hash.as_str(), song.hash.as_str()),
            None => false,
        };
        if retried {
            self.mark_resume_point();
            self.warn(
                cat5(
                    "《",
                    song.name.as_str(),
                    "》缓冲中断在 ",
                    place.as_str(),
                    "，按 Space 或 Enter 重试",
                ),
            );
        } else {
            self.stream_retried = Some(song.hash.clone());
            self.warn(
                cat5(
                    "《",
                    song.name.as_str(),
                    "》缓冲中断，正从 ",
                    place.as_str(),
                    " 继续…",
                ),
            );
            self.start_playback(song, position_ms);
        }
    }

    fn stream_interrupted(&mut self, position_ms: u64)
        ensures
            final(self)@ == old(self)@.stream_interrupted(position_ms),
    {
        proof {
            reveal(AppView::stream_interrupted);
        }
        let current = self.state.player.current();
        self.halt_at(position_ms);
        match current {
            Some(song) => {
                self.pick_up(song, position_ms);
            },
            None => {
                self.warn("缓冲中断".to_owned());
            },
        }
    }

    fn device_switch_failed(&mut self, message: String)
        ensures
            final(self)@ == old(self)@.device_switch_failed(message@),
    {
        proof {
            reveal(AppView::device_switch_failed);
        }
        self.pending_device_resume = None;
        self.warn(message);
    }

    fn audio_failed(&mut self, message: String)
        ensures
            final(self)@ == old(self)@.audio_failed(message@),
    {
        proof {
            reveal(AppView::audio_failed);
        }
        self.settle();
        self.pending_device_resume = None;
        self.active_stream = None;
        self.set_playback(PlaybackState::Stopped);
        self.mark_resume_point();
        self.error(message);
    }

    /// Takes what the audio thread tells.
    pub fn handle_audio_event(&mut self, event: AudioEvent)
        ensures
            final(self)@ == old(self)@.handle_audio_event(event),
    {
        proof {
            reveal(AppView::handle_audio_event);
        }
        match event {
            AudioEvent::Ready { duration_ms } => {
                self.track_ready(duration_ms);
            },
            AudioEvent::DeviceOpened { name } => {
                self.device_opened(name.as_str());
            },
            AudioEvent::TrackFinished => {
                self.track_finished();
            },
            AudioEvent::StreamInterrupted { position_ms } => {
                self.stream_interrupted(position_ms);
            },
            AudioEvent::DeviceSwitchFailed(message) => {
                self.device_switch_failed(message);
            },
            AudioEvent::Failed(message) => {
                self.audio_failed(message);
            },
        }
    }

    fn count_tick(&mut self)
        ensures
            final(self)@ == old(self)@.count_tick(),
    {
        proof {
            reveal(AppView::count_tick);
        }
        let ticks: u64 = next_tick(self.state.screen.ticks());
        self.state.screen.set_ticks(ticks);
    }

    fn save_session_in_time(&mut self)
        ensures
            final(self)@ == old(self)@.save_session_in_time(),
    {
        proof {
            reveal(AppView::save_session_in_time);
        }
        let now_ms: u64 = self.clock.now_ms;
        if now_ms >= self.last_session_save && now_ms - self.last_session_save
            >= SESSION_SAVE_MS {
            self.last_session_save = now_ms;
            self.emit(Effect::SaveSession);
        }
    }

    fn follow_audio(&mut self, audio: AudioSnapshot)
        ensures
            final(self)@ == old(self)@.follow_audio(audio),
    {
        proof {
            reveal(AppView::follow_audio);
        }
        self.state.player.set_playback(audio.state);
        if audio.state == PlaybackState::Playing || audio.state == PlaybackState::Paused {
            self.state.player.set_position_ms(audio.position_ms);
        }
        if audio.duration_ms > 0 {
            self.state.player.set_duration_ms(audio.duration_ms);
        }
    }

    fn show_audio(&mut self)
        ensures
            final(self)@ == old(self)@.show_audio(),
    {
        proof {
            reveal(AppView::show_audio);
        }
        let spectrum = !conf::lite_mode(&self.state.config) && self.state.screen.tab()
            == Tab::Visualizer && self.state.player.playback() == PlaybackState::Playing;
        self.emit(Effect::RefreshLevels { spectrum });
        self.emit(Effect::PublishTrack);
    }

    fn sing(&mut self)
        ensures
            final(self)@ == old(self)@.sing(),
    {
        proof {
            reveal(AppView::sing);
        }
        if self.state.player.playback() == PlaybackState::Playing {
            self.update_active_lyric();
        }
    }

    fn poll_in_time(&mut self)
        ensures
            final(self)@ == old(self)@.poll_in_time(),
    {
        proof {
            reveal(AppView::poll_in_time);
        }
        if self.state.panels.has_login() && self.state.screen.ticks() % LOGIN_POLL_TICKS == 0 {
            self.poll_login();
        }
    }

    fn measure_in_time(&mut self, ticks: u64)
        ensures
            final(self)@ == old(self)@.measure_in_time(ticks),
    {
        proof {
            reveal(AppView::measure_in_time);
        }
        if ticks % CACHE_MEASURE_TICKS == 0 {
            self.refresh_cache_usage();
        }
    }

    /// Takes one beat of the clock.
    pub fn tick(&mut self, audio: AudioSnapshot)
        ensures
            final(self)@ == old(self)@.tick(audio),
    {
        proof {
            reveal(AppView::tick);
        }
        self.count_tick();
        let ticks: u64 = self.state.screen.ticks();
        self.save_session_in_time();
        self.follow_audio(audio);
        self.show_audio();
        self.sing();
        self.poll_in_time();
        self.measure_in_time(ticks);
    }
}

} // verus!
