//! Playing: starting, pausing, going on and back, and where a song is fetched
//! from.

use vstd::prelude::*;
use crate::app::effect::{Effect, Lookup, Purpose};
use crate::app::account::Account;
use crate::app::conf;
use crate::app::panes::LoadState;
use crate::app::player::Player;
use crate::app::queue::clone_songs;
use crate::app::state::{App, AppView, Marks};
use crate::audio::engine::{clamp_to_track, within_track, PlaybackState};
use crate::audio::volume::SILENT;
use crate::config::{between, clamp_offset, Config, LYRIC_OFFSET_LIMIT};
use crate::error::AppError;
use crate::model::{describe_song, LyricLine, Song};
use crate::source::{header_for, SourceKind};
use crate::text::{
    cat2, cat3, clock_text, format_duration_ms, opt, same, signed, signed_text,
};

verus! {

/// Beyond this a step back goes to the start of the song instead.
pub const RESTART_THRESHOLD_MS: u64 = 3_000;

impl AppView {
    /// Whether a song is the one that is playing.
    pub open spec fn is_current(self, song: Song) -> bool {
        self.state.player.plays(song.hash@)
    }

    /// Calls the running stream off.
    #[verifier::opaque]
    pub open spec fn cancel_stream(self) -> AppView {
        match self.active_stream {
            Some(stream) => AppView { active_stream: None, ..self }.emit(
                Effect::CancelStream(stream),
            ),
            None => self,
        }
    }

    #[verifier::opaque]
    pub open spec fn stop_playback(self) -> AppView {
        AppView { stream_retried: None, ..self.cancel_stream() }.emit(Effect::AudioStop)
    }

    /// Uses the client of a service, or asks for one where it is not in use.
    #[verifier::opaque]
    pub open spec fn with_client(self, kind: SourceKind, purpose: Purpose<Seq<char>>) -> AppView {
        if kind == self.state.config.sources.active {
            self.client_ready(purpose)
        } else {
            let profile = self.state.config.sources.of(kind);
            self.emit(
                Effect::Connect {
                    kind,
                    api_base: profile.api_base,
                    cookie: header_for(kind, profile.cookie, profile.device_id),
                    purpose,
                },
            )
        }
    }

    /// A client is there.
    #[verifier::opaque]
    pub open spec fn client_ready(self, purpose: Purpose<Seq<char>>) -> AppView {
        let quality = self.state.config.quality;
        match purpose {
            Purpose::Stream { song, start_at_ms } => self.emit(
                Effect::SongUrl { song, quality, start_at_ms },
            ),
            Purpose::Lyric { song } => self.with_player(self.state.player.loading_lyric()).emit(
                Effect::FetchLyric { song },
            ),
            Purpose::Cover { song } => self.emit(Effect::FetchCover { song }),
            Purpose::Prefetch { song } => self.emit(Effect::PrefetchSong { song, quality }),
            Purpose::Download { song, quality } => self.emit(
                Effect::DownloadSong { song, quality, dir: self.state.config.download_dir },
            ),
            Purpose::Vip { day, manual } => self.with_account(
                Account { vip_claiming: true, ..self.state.account },
            ).info("正在同步今日 VIP…"@).emit(Effect::SyncVip { day, manual }),
        }
    }

    /// No client could be built.
    #[verifier::opaque]
    pub open spec fn client_failed(self, purpose: Purpose<Seq<char>>, error: AppError) -> AppView {
        match purpose {
            Purpose::Stream { song, .. } => self.error(
                "无法连接「"@ + song.source.name() + "」："@ + error.text@,
            ),
            Purpose::Download { song, .. } => self.error(
                "无法连接「"@ + song.source.name() + "」："@ + error.text@,
            ),
            Purpose::Lyric { song } => self.lyric_failed(song.hash@, error.hint@),
            Purpose::Cover { .. } => self,
            Purpose::Prefetch { .. } => self,
            Purpose::Vip { .. } => self.error("无法连接概念版接口："@ + error.text@),
        }
    }

    /// The lyrics of a song cannot be had; a song that is no longer played is
    /// passed over.
    #[verifier::opaque]
    pub open spec fn lyric_failed(self, hash: Seq<char>, reason: Seq<char>) -> AppView {
        self.with_player(
            self.state.player.with_lines(hash, Seq::empty(), LoadState::Failed(reason)),
        )
    }

    /// Without a cover.
    #[verifier::opaque]
    pub open spec fn no_cover(self) -> AppView {
        self.with_player(self.state.player.bare())
    }

    /// Fetches the cover of a song: not in the lite mode, not where it is there,
    /// and not for a song without an identity.
    #[verifier::opaque]
    pub open spec fn load_cover(self, song: Song) -> AppView {
        let cover = self.state.player.cover;
        if self.state.config.lite_mode {
            if cover.hash matches Some(hash) && hash.len() > 0 {
                self.no_cover()
            } else {
                self
            }
        } else if cover.of(song.hash@) && cover.aspect is Some {
            self
        } else if song.hash@.len() == 0 {
            self.no_cover()
        } else {
            self.with_client(song.source, Purpose::Cover { song })
        }
    }

    #[verifier::opaque]
    pub open spec fn request_stream(self, song: Song, start_at_ms: u64) -> AppView {
        self.emit(
            Effect::FindCached {
                key: song.key(self.state.config.quality),
                lookup: Lookup::Play { song, start_at_ms },
            },
        )
    }

    /// Whether a song was found in the cache: it is played from there, else its
    /// link is asked for. What is fetched ahead is left alone once it is there.
    #[verifier::opaque]
    pub open spec fn cache_found(self, lookup: Lookup, path: Option<Seq<char>>) -> AppView {
        match (lookup, path) {
            (Lookup::Play { song, start_at_ms }, Some(path)) => self.emit(
                Effect::AudioLoadFile { path, start_at_ms, duration_ms: song.duration_ms },
            ),
            (Lookup::Play { song, start_at_ms }, None) => self.with_client(
                song.source,
                Purpose::Stream { song, start_at_ms },
            ),
            (Lookup::Prefetch { song }, Some(_)) => self,
            (Lookup::Prefetch { song }, None) => self.with_client(
                song.source,
                Purpose::Prefetch { song },
            ),
        }
    }

    /// A song takes the stage: what belonged to the one before is dropped.
    #[verifier::opaque]
    pub open spec fn take_stage(self, song: Song, start_at_ms: u64) -> AppView {
        AppView {
            stream_retried: if self.stream_retried == Some(song.hash@) {
                self.stream_retried
            } else {
                None
            },
            ..self
        }.with_player(self.state.player.staged(song, start_at_ms))
    }

    /// The state shows that a song is being fetched.
    #[verifier::opaque]
    pub open spec fn mark_loading(self) -> AppView {
        self.emit(Effect::AudioMarkLoading).with_player(
            Player { playback: PlaybackState::Loading, ..self.state.player },
        )
    }

    #[verifier::opaque]
    pub open spec fn announce(self, song: Song) -> AppView {
        if song.playable {
            self.info("正在解析播放地址："@ + song.title())
        } else {
            self.warn("《"@ + song.name@ + "》可能受版权限制（VIP/已下架），若取链失败请换一首"@)
        }
    }

    /// Plays a song from a place on.
    #[verifier::opaque]
    pub open spec fn start_playback(self, song: Song, start_at_ms: u64) -> AppView {
        self.cancel_stream().take_stage(song, start_at_ms).load_cover(
            song,
        ).mark_loading().announce(song).with_client(
            song.source,
            Purpose::Lyric { song },
        ).request_stream(song, start_at_ms)
    }

    pub open spec fn select_in_queue(self, cursor: Option<usize>) -> AppView {
        self.with_marks(Marks { queue: cursor, ..self.state.marks })
    }

    /// The mark in the queue goes to `index`, or to the last song where that is
    /// too far.
    #[verifier::opaque]
    pub open spec fn sync_queue_cursor(self, index: usize) -> AppView {
        self.select_in_queue(last_at_most(self.state.queue.items.len(), index))
    }

    /// The mark in the queue is kept within it.
    #[verifier::opaque]
    pub open spec fn clamp_queue_cursor(self) -> AppView {
        self.sync_queue_cursor(
            match self.state.marks.queue {
                Some(i) => i,
                None => 0,
            },
        )
    }

    /// Plays a list of songs from the one at `index` on.
    #[verifier::opaque]
    pub open spec fn play_from(self, songs: Seq<Song>, index: usize) -> AppView {
        let queued = self.with_queue(self.state.queue.replaced(songs, index));
        match queued.state.queue.current_song() {
            None => queued.warn("列表为空，无法播放"@),
            Some(song) => queued.sync_queue_cursor(index).start_playback(song, 0),
        }
    }

    #[verifier::opaque]
    pub open spec fn play_from_focused_songs(self) -> AppView {
        match self.state.focused_songs() {
            Some(list) => match list.chosen() {
                Some(index) => self.play_from(list.songs, index),
                None => self.warn("当前没有可播放的歌曲"@),
            },
            None => self.warn("当前没有可播放的歌曲"@),
        }
    }

    #[verifier::opaque]
    pub open spec fn play_from_queue(self) -> AppView {
        match self.state.marks.queue {
            Some(index) => if index < self.state.queue.items.len() {
                self.with_queue(self.state.queue.jumped(index)).start_playback(
                    self.state.queue.items[index as int],
                    0,
                )
            } else {
                self.warn("播放队列为空"@)
            },
            None => self.warn("播放队列为空"@),
        }
    }

    #[verifier::opaque]
    pub open spec fn toggle_playback(self) -> AppView {
        match self.state.player.playback {
            PlaybackState::Loading => self,
            PlaybackState::Playing | PlaybackState::Paused => self.emit(Effect::AudioToggle),
            PlaybackState::Stopped => match self.state.queue.current_song() {
                Some(song) => {
                    let place = self.state.player.resume_place(song);
                    self.with_player(self.state.player.unresumed()).say_resumed(
                        place,
                    ).start_playback(song, place)
                },
                None => self.play_from_focused_songs(),
            },
        }
    }

    /// The queue is at its end: playing stops, and with it the running stream.
    #[verifier::opaque]
    pub open spec fn queue_ended(self) -> AppView {
        let stopped = self.stop_playback();
        stopped.with_player(
            Player { playback: PlaybackState::Stopped, position_ms: 0, ..stopped.state.player },
        ).info("播放队列已到末尾"@)
    }

    /// Plays the song that the queue stands at.
    #[verifier::opaque]
    pub open spec fn play_current(self, index: usize) -> AppView {
        let marked = self.sync_queue_cursor(index);
        match marked.state.queue.current_song() {
            Some(song) => marked.start_playback(song, 0),
            None => marked,
        }
    }

    #[verifier::opaque]
    pub open spec fn next_track(self, by_user: bool) -> AppView {
        let place = self.state.queue.next_place(by_user, self.clock.random);
        match place {
            None => self.queue_ended(),
            Some(index) => self.with_queue(self.state.queue.at(place)).play_current(index),
        }
    }

    #[verifier::opaque]
    pub open spec fn previous_track(self) -> AppView {
        if self.state.player.position_ms > RESTART_THRESHOLD_MS {
            self.show_seek(0)
        } else {
            let place = self.state.queue.previous_place();
            match place {
                None => self.warn("播放队列为空"@),
                Some(index) => self.with_queue(self.state.queue.at(place)).play_current(index),
            }
        }
    }

    /// The audio thread goes to a place, and the screen shows it at once.
    #[verifier::opaque]
    pub open spec fn show_seek(self, target: u64) -> AppView {
        self.emit(Effect::AudioSeekTo(target)).with_player(
            Player { position_ms: target, ..self.state.player },
        )
    }

    #[verifier::opaque]
    pub open spec fn seek_to(self, position_ms: u64) -> AppView {
        if self.state.player.current is None {
            self
        } else {
            self.show_seek(within_track(position_ms, self.state.player.duration_ms))
        }
    }

    #[verifier::opaque]
    pub open spec fn seek_by(self, delta_ms: i64) -> AppView {
        if self.state.player.current is None {
            self
        } else {
            self.emit(Effect::AudioSeekBy(delta_ms)).with_player(
                Player {
                    position_ms: seek_shown(
                        self.state.player.position_ms,
                        delta_ms,
                        self.state.player.duration_ms,
                    ),
                    ..self.state.player
                },
            )
        }
    }

    /// The volume goes one step up or down; a muted one is unmuted first.
    #[verifier::opaque]
    pub open spec fn adjust_volume(self, up: bool) -> AppView {
        let base = match self.state.player.volume_before_mute {
            Some(before) => before,
            None => self.state.player.volume,
        };
        self.with_player(self.state.player.volumes(self.state.player.volume, None)).emit(
            Effect::StepVolume { base, up },
        )
    }

    /// The volume that a step led to.
    #[verifier::opaque]
    pub open spec fn volume_stepped(self, volume: u32) -> AppView {
        self.with_player(Player { volume, ..self.state.player }).emit(
            Effect::AudioSetVolume(volume),
        ).emit(Effect::ShowVolume { volume, unmuted: false })
    }

    #[verifier::opaque]
    pub open spec fn toggle_mute(self) -> AppView {
        match self.state.player.volume_before_mute {
            Some(before) => self.with_player(self.state.player.volumes(before, None)).emit(
                Effect::AudioSetVolume(before),
            ).emit(
                Effect::ShowVolume { volume: before, unmuted: true },
            ),
            None => self.with_player(
                self.state.player.volumes(SILENT, Some(self.state.player.volume)),
            ).emit(Effect::AudioSetVolume(SILENT)).info("已静音"@),
        }
    }

    /// The lyrics are moved, within bounds.
    #[verifier::opaque]
    pub open spec fn adjust_lyric_offset(self, delta_ms: i64) -> AppView {
        let offset = shifted_offset(self.state.config.lyric_offset_ms, delta_ms as int);
        self.with_config(Config { lyric_offset_ms: offset, ..self.state.config }).info(
            "歌词偏移 "@ + plus_signed(offset as int) + " ms"@,
        )
    }

    /// The place of the current song is kept to be resumed.
    #[verifier::opaque]
    pub open spec fn mark_resume_point(self) -> AppView {
        self.with_player(self.state.player.marked())
    }

    /// The song behind the marked one in the queue, which is worth fetching
    /// ahead.
    pub open spec fn song_ahead(self) -> Option<Song> {
        let items = self.state.queue.items;
        let marked: int = match self.state.marks.queue {
            Some(i) => if i < items.len() {
                i as int
            } else {
                items.len() - 1
            },
            None => 0,
        };
        if items.len() >= 2 && marked + 1 < items.len() {
            Some(items[marked + 1])
        } else {
            None
        }
    }

    #[verifier::opaque]
    pub open spec fn prefetch_next(self) -> AppView {
        match self.song_ahead() {
            Some(song) => self.emit(
                Effect::FindCached {
                    key: song.key(self.state.config.quality),
                    lookup: Lookup::Prefetch { song },
                },
            ),
            None => self,
        }
    }

    #[verifier::opaque]
    pub open spec fn after_download_landed(self) -> AppView {
        self.prefetch_next().emit(Effect::EvictCache)
    }

    /// The line of the lyrics that is sung.
    #[verifier::opaque]
    pub open spec fn update_active_lyric(self) -> AppView {
        self.with_player(
            self.state.player.sung_at(
                lyric_place(self.state.player.position_ms, self.state.config.lyric_offset_ms),
            ),
        )
    }

    #[verifier::opaque]
    pub open spec fn say_resumed(self, place: u64) -> AppView {
        if place > 0 {
            self.info("接着上次播："@ + clock_text(place as nat))
        } else {
            self
        }
    }
}

/// The place `index` of a list of `len` items, or its last where that is too far.
pub open spec fn last_at_most(len: nat, index: usize) -> Option<usize> {
    if len == 0 {
        None
    } else if index < len {
        Some(index)
    } else {
        Some((len - 1) as usize)
    }
}

fn place_at_most(len: usize, index: usize) -> (r: Option<usize>)
    ensures
        r == last_at_most(len as nat, index),
{
    if len == 0 {
        None
    } else if index < len {
        Some(index)
    } else {
        Some(len - 1)
    }
}

/// The place in the lyrics: a positive shift lets them come earlier.
pub open spec fn lyric_place(position_ms: u64, offset_ms: i64) -> int {
    let place = position_ms + offset_ms;
    if place < 0 {
        0
    } else if place > u64::MAX {
        u64::MAX as int
    } else {
        place
    }
}

/// The place that the screen shows after a step of `delta_ms`: not before the
/// start, and not behind the end where that is known.
pub open spec fn seek_shown(position_ms: u64, delta_ms: i64, duration_ms: u64) -> u64 {
    let sum = position_ms + delta_ms;
    let next: int = if sum < 0 {
        0
    } else {
        sum
    };
    (if duration_ms != 0 && next > duration_ms {
        duration_ms as int
    } else if next > u64::MAX {
        u64::MAX as int
    } else {
        next
    }) as u64
}

fn shown_after_seek(position_ms: u64, delta_ms: i64, duration_ms: u64) -> (r: u64)
    ensures
        r == seek_shown(position_ms, delta_ms, duration_ms),
{
    let sum: i128 = position_ms as i128 + delta_ms as i128;
    let next: i128 = if sum < 0 {
        0
    } else {
        sum
    };
    if duration_ms != 0 && next > duration_ms as i128 {
        duration_ms
    } else if next > u64::MAX as i128 {
        u64::MAX
    } else {
        next as u64
    }
}

/// A shift of the lyrics changed by `delta_ms`, within bounds.
pub open spec fn shifted_offset(offset_ms: i64, delta_ms: int) -> i64 {
    between(
        offset_ms + delta_ms,
        -LYRIC_OFFSET_LIMIT as int,
        LYRIC_OFFSET_LIMIT as int,
    ) as i64
}

/// Changes a shift of the lyrics, within bounds.
pub fn shift_offset(offset_ms: i64, delta_ms: i64) -> (r: i64)
    ensures
        r == shifted_offset(offset_ms, delta_ms as int),
{
    let sum: i128 = offset_ms as i128 + delta_ms as i128;
    if sum < -(LYRIC_OFFSET_LIMIT as i128) {
        -LYRIC_OFFSET_LIMIT
    } else if sum > LYRIC_OFFSET_LIMIT as i128 {
        LYRIC_OFFSET_LIMIT
    } else {
        clamp_offset(sum as i64)
    }
}

/// A number with its sign, a plus sign too.
pub open spec fn plus_signed(n: int) -> Seq<char> {
    if n < 0 {
        signed(n)
    } else {
        seq!['+'] + signed(n)
    }
}

fn plus_signed_text(n: i64) -> (r: String)
    ensures
        r@ == plus_signed(n as int),
{
    let digits = signed_text(n);
    if n < 0 {
        digits
    } else {
        proof {
            reveal_strlit("+");
        }
        let r = cat2("+", digits.as_str());
        assert(r@ =~= plus_signed(n as int));
        r
    }
}

/// The song that is fetched ahead.
fn find_song_ahead(items: &Vec<Song>, marked: Option<usize>) -> (r: Option<Song>)
    ensures
        r == ({
            let place: int = match marked {
                Some(i) => if i < items@.len() {
                    i as int
                } else {
                    items@.len() - 1
                },
                None => 0,
            };
            if items@.len() >= 2 && place + 1 < items@.len() {
                Some(items@[place + 1])
            } else {
                None
            }
        }),
{
    let len: usize = items.len();
    if len < 2 {
        return None;
    }
    let place: usize = match marked {
        Some(i) => if i < len {
            i
        } else {
            len - 1
        },
        None => 0,
    };
    if place + 1 < len {
        Some(items[place + 1].clone())
    } else {
        None
    }
}

fn lyric_position(position_ms: u64, offset_ms: i64) -> (r: u64)
    ensures
        r == lyric_place(position_ms, offset_ms),
{
    let place: i128 = position_ms as i128 + offset_ms as i128;
    if place < 0 {
        0
    } else if place > u64::MAX as i128 {
        u64::MAX
    } else {
        place as u64
    }
}

impl App {
    /// Whether a song is the one that is playing.
    pub fn is_current(&self, song: &Song) -> (r: bool)
        ensures
            r == self@.is_current(*song),
    {
        self.state.player.plays(song.hash.as_str())
    }

    /// Calls the running stream off.
    pub fn cancel_stream(&mut self)
        ensures
            final(self)@ == old(self)@.cancel_stream(),
    {
        proof {
            reveal(AppView::cancel_stream);
        }
        match self.active_stream {
            Some(stream) => {
                self.active_stream = None;
                self.emit(Effect::CancelStream(stream));
            },
            None => {},
        }
    }

    /// Stops, and calls the running stream off.
    pub fn stop_playback(&mut self)
        ensures
            final(self)@ == old(self)@.stop_playback(),
    {
        proof {
            reveal(AppView::stop_playback);
        }
        self.cancel_stream();
        self.stream_retried = None;
        self.emit(Effect::AudioStop);
    }

    /// Uses the client of a service, or asks for one where it is not in use.
    pub fn with_client(&mut self, kind: SourceKind, purpose: Purpose<String>)
        ensures
            final(self)@ == old(self)@.with_client(kind, purpose@),
    {
        proof {
            reveal(AppView::with_client);
        }
        if kind == conf::active(&self.state.config) {
            self.client_ready(purpose);
        } else {
            let (api_base, cookie) = conf::reach(&self.state.config, kind);
            self.emit(Effect::Connect { kind, api_base, cookie, purpose });
        }
    }

    /// Takes that a client is there.
    pub fn client_ready(&mut self, purpose: Purpose<String>)
        ensures
            final(self)@ == old(self)@.client_ready(purpose@),
    {
        proof {
            reveal(AppView::client_ready);
        }
        match purpose {
            Purpose::Stream { song, start_at_ms } => {
                let quality = conf::quality(&self.state.config);
                self.emit(Effect::SongUrl { song, quality, start_at_ms });
            },
            Purpose::Lyric { song } => {
                self.state.player.begin_lyric();
                self.emit(Effect::FetchLyric { song });
            },
            Purpose::Cover { song } => {
                self.emit(Effect::FetchCover { song });
            },
            Purpose::Prefetch { song } => {
                let quality = conf::quality(&self.state.config);
                self.emit(Effect::PrefetchSong { song, quality });
            },
            Purpose::Download { song, quality } => {
                let dir = conf::download_dir(&self.state.config);
                self.emit(Effect::DownloadSong { song, quality, dir });
            },
            Purpose::Vip { day, manual } => {
                self.state.account.set_vip_claiming(true);
                self.info("正在同步今日 VIP…".to_owned());
                self.emit(Effect::SyncVip { day, manual });
            },
        }
    }

    /// Takes that no client could be built.
    pub fn client_failed(&mut self, purpose: Purpose<String>, error: AppError)
        ensures
            final(self)@ == old(self)@.client_failed(purpose@, error),
    {
        proof {
            reveal(AppView::client_failed);
        }
        match purpose {
            Purpose::Stream { song, start_at_ms: _ } => {
                let mut text = cat3("无法连接「", song.source.label(), "」：");
                text.append(error.text.as_str());
                self.error(text);
            },
            Purpose::Download { song, quality: _ } => {
                let mut text = cat3("无法连接「", song.source.label(), "」：");
                text.append(error.text.as_str());
                self.error(text);
            },
            Purpose::Lyric { song } => {
                self.lyric_failed(song.hash.as_str(), error.hint);
            },
            Purpose::Cover { song: _ } => {},
            Purpose::Prefetch { song: _ } => {},
            Purpose::Vip { day: _, manual: _ } => {
                self.error(cat2("无法连接概念版接口：", error.text.as_str()));
            },
        }
    }

    pub fn lyric_failed(&mut self, hash: &str, reason: String)
        ensures
            final(self)@ == old(self)@.lyric_failed(hash@, reason@),
    {
        proof {
            reveal(AppView::lyric_failed);
        }
        let none: Vec<LyricLine> = Vec::new();
        assert(none@ =~= Seq::empty());
        self.state.player.set_lines(hash, none, LoadState::Failed(reason));
    }

    fn no_cover(&mut self)
        ensures
            final(self)@ == old(self)@.no_cover(),
    {
        proof {
            reveal(AppView::no_cover);
        }
        self.state.player.drop_cover();
    }

    /// Fetches the cover of a song.
    pub fn load_cover(&mut self, song: &Song)
        ensures
            final(self)@ == old(self)@.load_cover(*song),
    {
        proof {
            reveal(AppView::load_cover);
        }
        if conf::lite_mode(&self.state.config) {
            if self.state.player.shows_cover() {
                self.no_cover();
            }
        } else if self.state.player.has_cover(song.hash.as_str()) {
        } else if song.hash.as_str().is_empty() {
            self.no_cover();
        } else {
            self.with_client(song.source, Purpose::Cover { song: song.clone() });
        }
    }

    fn request_stream(&mut self, song: Song, start_at_ms: u64)
        ensures
            final(self)@ == old(self)@.request_stream(song, start_at_ms),
    {
        proof {
            reveal(AppView::request_stream);
        }
        let quality = conf::quality(&self.state.config);
        let key = song.cache_key(quality.as_str());
        self.emit(Effect::FindCached { key, lookup: Lookup::Play { song, start_at_ms } });
    }

    /// Takes whether a song was found in the cache.
    pub fn cache_found(&mut self, lookup: Lookup, path: Option<String>)
        ensures
            final(self)@ == old(self)@.cache_found(lookup, opt(path)),
    {
        proof {
            reveal(AppView::cache_found);
        }
        match lookup {
            Lookup::Play { song, start_at_ms } => match path {
                Some(path) => {
                    let duration_ms: u64 = song.duration_ms;
                    self.emit(Effect::AudioLoadFile { path, start_at_ms, duration_ms });
                },
                None => {
                    let source = song.source;
                    self.with_client(source, Purpose::Stream { song, start_at_ms });
                },
            },
            Lookup::Prefetch { song } => {
                if path.is_none() {
                    let source = song.source;
                    self.with_client(source, Purpose::Prefetch { song });
                }
            },
        }
    }

    fn take_stage(&mut self, song: &Song, start_at_ms: u64)
        ensures
            final(self)@ == old(self)@.take_stage(*song, start_at_ms),
    {
        proof {
            reveal(AppView::take_stage);
        }
        let retried = match &self.stream_retried {
            Some(hash) => same(hash.as_str(), song.hash.as_str()),
            None => false,
        };
        if !retried {
            self.stream_retried = None;
        }
        self.state.player.stage(song, start_at_ms);
    }

    fn mark_loading(&mut self)
        ensures
            final(self)@ == old(self)@.mark_loading(),
    {
        proof {
            reveal(AppView::mark_loading);
        }
        self.emit(Effect::AudioMarkLoading);
        self.state.player.set_playback(PlaybackState::Loading);
    }

    fn announce(&mut self, song: &Song)
        ensures
            final(self)@ == old(self)@.announce(*song),
    {
        proof {
            reveal(AppView::announce);
        }
        if song.looks_playable() {
            let title = describe_song(song);
            self.info(cat2("正在解析播放地址：", title.as_str()));
        } else {
            self.warn(
                cat3(
                    "《",
                    song.name.as_str(),
                    "》可能受版权限制（VIP/已下架），若取链失败请换一首",
                ),
            );
        }
    }

    /// Plays a song from a place on: the running stream is called off, the screen
    /// shows the song, and its cover, lyrics and sound are asked for.
    pub fn start_playback(&mut self, song: Song, start_at_ms: u64)
        ensures
            final(self)@ == old(self)@.start_playback(song, start_at_ms),
    {
        proof {
            reveal(AppView::start_playback);
        }
        self.cancel_stream();
        self.take_stage(&song, start_at_ms);
        self.load_cover(&song);
        self.mark_loading();
        self.announce(&song);
        self.with_client(song.source, Purpose::Lyric { song: song.clone() });
        self.request_stream(song, start_at_ms);
    }

    /// Marks a place in the queue.
    pub fn sync_queue_cursor(&mut self, index: usize)
        ensures
            final(self)@ == old(self)@.sync_queue_cursor(index),
    {
        proof {
            reveal(AppView::sync_queue_cursor);
        }
        self.state.marks.queue = place_at_most(self.state.queue.len(), index);
    }

    /// Keeps the mark in the queue within it.
    pub fn clamp_queue_cursor(&mut self)
        ensures
            final(self)@ == old(self)@.clamp_queue_cursor(),
    {
        proof {
            reveal(AppView::clamp_queue_cursor);
        }
        let index: usize = self.state.marks.queue.unwrap_or(0);
        self.sync_queue_cursor(index);
    }

    /// Plays a list of songs from the one at `index` on.
    pub fn play_from(&mut self, songs: Vec<Song>, index: usize)
        ensures
            final(self)@ == old(self)@.play_from(songs@, index),
    {
        proof {
            reveal(AppView::play_from);
        }
        match self.state.queue.replace_with(songs, index) {
            None => {
                self.warn("列表为空，无法播放".to_owned());
            },
            Some(song) => {
                self.sync_queue_cursor(index);
                self.start_playback(song, 0);
            },
        }
    }

    /// Plays the list of the page from the chosen song on.
    pub fn play_from_focused_songs(&mut self)
        ensures
            final(self)@ == old(self)@.play_from_focused_songs(),
    {
        proof {
            reveal(AppView::play_from_focused_songs);
        }
        let selection: Option<(Vec<Song>, usize)> = match self.state.focused_songs() {
            Some(list) => match list.selected_index() {
                Some(index) => Some((clone_songs(&list.songs), index)),
                None => None,
            },
            None => None,
        };
        match selection {
            Some((songs, index)) => {
                self.play_from(songs, index);
            },
            None => {
                self.warn("当前没有可播放的歌曲".to_owned());
            },
        }
    }

    /// Plays the marked song of the queue.
    pub fn play_from_queue(&mut self)
        ensures
            final(self)@ == old(self)@.play_from_queue(),
    {
        proof {
            reveal(AppView::play_from_queue);
        }
        let song: Option<Song> = match self.state.marks.queue {
            Some(index) => self.state.queue.jump_to(index),
            None => None,
        };
        match song {
            Some(song) => {
                self.start_playback(song, 0);
            },
            None => {
                self.warn("播放队列为空".to_owned());
            },
        }
    }

    fn say_resumed(&mut self, place: u64)
        ensures
            final(self)@ == old(self)@.say_resumed(place),
    {
        proof {
            reveal(AppView::say_resumed);
        }
        if place > 0 {
            let at = format_duration_ms(place);
            self.info(cat2("接着上次播：", at.as_str()));
        }
    }

    /// Pauses, resumes, or starts what the queue stands at.
    pub fn toggle_playback(&mut self)
        ensures
            final(self)@ == old(self)@.toggle_playback(),
    {
        proof {
            reveal(AppView::toggle_playback);
        }
        match self.state.player.playback() {
            PlaybackState::Loading => {},
            PlaybackState::Playing | PlaybackState::Paused => {
                self.emit(Effect::AudioToggle);
            },
            PlaybackState::Stopped => match self.state.queue.current() {
                Some(song) => {
                    let place: u64 = self.state.player.resume_place(&song);
                    self.state.player.forget_resume();
                    self.say_resumed(place);
                    self.start_playback(song, place);
                },
                None => {
                    self.play_from_focused_songs();
                },
            },
        }
    }

    fn queue_ended(&mut self)
        ensures
            final(self)@ == old(self)@.queue_ended(),
    {
        proof {
            reveal(AppView::queue_ended);
        }
        self.stop_playback();
        self.state.player.set_playback(PlaybackState::Stopped);
        self.state.player.set_position_ms(0);
        self.info("播放队列已到末尾".to_owned());
    }

    fn play_current(&mut self, index: usize)
        ensures
            final(self)@ == old(self)@.play_current(index),
    {
        proof {
            reveal(AppView::play_current);
        }
        self.sync_queue_cursor(index);
        match self.state.queue.current() {
            Some(song) => {
                self.start_playback(song, 0);
            },
            None => {},
        }
    }

    /// Goes on to the next song.
    pub fn next_track(&mut self, by_user: bool)
        ensures
            final(self)@ == old(self)@.next_track(by_user),
    {
        proof {
            reveal(AppView::next_track);
        }
        let random: usize = self.clock.random;
        match self.state.queue.advance(by_user, random) {
            None => {
                self.queue_ended();
            },
            Some(index) => {
                self.play_current(index);
            },
        }
    }

    /// Goes back to the song before, or to the start of the song.
    pub fn previous_track(&mut self)
        ensures
            final(self)@ == old(self)@.previous_track(),
    {
        proof {
            reveal(AppView::previous_track);
        }
        if self.state.player.position_ms() > RESTART_THRESHOLD_MS {
            self.show_seek(0);
            return;
        }
        match self.state.queue.retreat() {
            None => {
                self.warn("播放队列为空".to_owned());
            },
            Some(index) => {
                self.play_current(index);
            },
        }
    }

    pub fn show_seek(&mut self, target: u64)
        ensures
            final(self)@ == old(self)@.show_seek(target),
    {
        proof {
            reveal(AppView::show_seek);
        }
        self.emit(Effect::AudioSeekTo(target));
        self.state.player.set_position_ms(target);
    }

    /// Goes to a place in the song.
    pub fn seek_to(&mut self, position_ms: u64)
        ensures
            final(self)@ == old(self)@.seek_to(position_ms),
    {
        proof {
            reveal(AppView::seek_to);
        }
        if !self.state.player.has_current() {
            return;
        }
        let target: u64 = clamp_to_track(position_ms, self.state.player.duration_ms());
        self.show_seek(target);
    }

    /// Goes forwards or backwards in the song.
    pub fn seek_by(&mut self, delta_ms: i64)
        ensures
            final(self)@ == old(self)@.seek_by(delta_ms),
    {
        proof {
            reveal(AppView::seek_by);
        }
        if !self.state.player.has_current() {
            return;
        }
        self.emit(Effect::AudioSeekBy(delta_ms));
        let shown: u64 = shown_after_seek(
            self.state.player.position_ms(),
            delta_ms,
            self.state.player.duration_ms(),
        );
        self.state.player.set_position_ms(shown);
    }

    /// Asks for the volume one step up or down.
    pub fn adjust_volume(&mut self, up: bool)
        ensures
            final(self)@ == old(self)@.adjust_volume(up),
    {
        proof {
            reveal(AppView::adjust_volume);
        }
        let volume: u32 = self.state.player.volume();
        let base: u32 = self.state.player.volume_before_mute().unwrap_or(volume);
        self.state.player.set_volumes(volume, None);
        self.emit(Effect::StepVolume { base, up });
    }

    /// Takes the volume that a step led to.
    pub fn volume_stepped(&mut self, volume: u32)
        ensures
            final(self)@ == old(self)@.volume_stepped(volume),
    {
        proof {
            reveal(AppView::volume_stepped);
        }
        self.state.player.set_volume(volume);
        self.emit(Effect::AudioSetVolume(volume));
        self.emit(Effect::ShowVolume { volume, unmuted: false });
    }

    /// Mutes, or brings the volume back.
    pub fn toggle_mute(&mut self)
        ensures
            final(self)@ == old(self)@.toggle_mute(),
    {
        proof {
            reveal(AppView::toggle_mute);
        }
        match self.state.player.volume_before_mute() {
            Some(before) => {
                self.state.player.set_volumes(before, None);
                self.emit(Effect::AudioSetVolume(before));
                self.emit(Effect::ShowVolume { volume: before, unmuted: true });
            },
            None => {
                let volume: u32 = self.state.player.volume();
                self.state.player.set_volumes(SILENT, Some(volume));
                self.emit(Effect::AudioSetVolume(SILENT));
                self.info("已静音".to_owned());
            },
        }
    }

    /// Moves the lyrics.
    pub fn adjust_lyric_offset(&mut self, delta_ms: i64)
        ensures
            final(self)@ == old(self)@.adjust_lyric_offset(delta_ms),
    {
        proof {
            reveal(AppView::adjust_lyric_offset);
        }
        let offset: i64 = shift_offset(conf::lyric_offset_ms(&self.state.config), delta_ms);
        conf::set_lyric_offset_ms(&mut self.state.config, offset);
        let shown = plus_signed_text(offset);
        self.info(cat3("歌词偏移 ", shown.as_str(), " ms"));
    }

    /// Keeps the place of the current song to be resumed.
    pub fn mark_resume_point(&mut self)
        ensures
            final(self)@ == old(self)@.mark_resume_point(),
    {
        proof {
            reveal(AppView::mark_resume_point);
        }
        self.state.player.mark_resume_point();
    }

    /// Fetches the next song of the queue ahead.
    pub fn prefetch_next(&mut self)
        ensures
            final(self)@ == old(self)@.prefetch_next(),
    {
        proof {
            reveal(AppView::prefetch_next);
        }
        match find_song_ahead(&self.state.queue.items, self.state.marks.queue) {
            Some(song) => {
                let quality = conf::quality(&self.state.config);
                let key = song.cache_key(quality.as_str());
                self.emit(Effect::FindCached { key, lookup: Lookup::Prefetch { song } });
            },
            None => {},
        }
    }

    /// A song has reached the disk: the next one is fetched, and the cache is
    /// kept within its limit.
    pub fn after_download_landed(&mut self)
        ensures
            final(self)@ == old(self)@.after_download_landed(),
    {
        proof {
            reveal(AppView::after_download_landed);
        }
        self.prefetch_next();
        self.emit(Effect::EvictCache);
    }

    pub fn update_active_lyric(&mut self)
        ensures
            final(self)@ == old(self)@.update_active_lyric(),
    {
        proof {
            reveal(AppView::update_active_lyric);
        }
        let place: u64 = lyric_position(
            self.state.player.position_ms(),
            conf::lyric_offset_ms(&self.state.config),
        );
        self.state.player.sing_at(place);
    }
}

} // verus!
