//! The start and the end of the program, and what is kept from one to the other.

use vstd::prelude::*;
use crate::app::account::Account;
use crate::app::conf;
use crate::app::conf::config_view;
use crate::app::effect::{effect_views, AfterSave, Effect};
use crate::app::pages::{Pages, PagesView};
use crate::app::panels::Panels;
use crate::app::player::{Player, PlayerView};
use crate::app::queue::{clone_songs, PlayQueue};
use crate::app::screen::Screen;
use crate::app::state::{App, AppState, AppView, Clock, Marks, SettingOptions, StateView};
use crate::audio::cache::{AudioCache, CacheView};
use crate::config::{Config, ConfigView};
use crate::model::Song;
use crate::text::{cat3, cat5, dec, dec_text, opt};

verus! {

/// What is kept of a session.
#[verifier::ext_equal]
#[derive(Debug)]
pub struct Session<S = String, L = Vec<Song>> {
    pub queue: L,
    pub cursor: Option<usize>,
    pub position_ms: u64,
    /// The day on which the membership was claimed last.
    pub vip_claimed_day: Option<S>,
}

impl View for Session<String, Vec<Song>> {
    type V = Session<Seq<char>, Seq<Song>>;

    open spec fn view(&self) -> Session<Seq<char>, Seq<Song>> {
        Session {
            queue: self.queue@,
            cursor: self.cursor,
            position_ms: self.position_ms,
            vip_claimed_day: opt(self.vip_claimed_day),
        }
    }
}

/// What is said when the program has started.
pub open spec fn readiness(source: Seq<char>, base: Seq<char>, logged_in: bool) -> Seq<char> {
    "音源 "@ + source + " · "@ + base + (if logged_in {
        "（已登录）"@
    } else {
        "（未登录，云端歌单不可用）"@
    })
}

fn describe_readiness(source: &str, base: &str, logged_in: bool) -> (r: String)
    ensures
        r@ == readiness(source@, base@, logged_in),
{
    let state = if logged_in {
        "（已登录）"
    } else {
        "（未登录，云端歌单不可用）"
    };
    cat5("音源 ", source, " · ", base, state)
}

impl StateView {
    /// The state before anything has happened.
    pub open spec fn fresh(config: ConfigView, devices: Seq<String>) -> StateView {
        StateView {
            screen: Screen::<Seq<char>>::fresh(),
            panels: Panels::<Seq<char>, Seq<char>>::closed(),
            pages: PagesView::empty(),
            queue: PlayQueue { items: Seq::empty(), cursor: None, mode: config.playback_mode },
            marks: Marks { queue: None, sources: None, settings: 0 },
            config,
            player: PlayerView::silent(config.volume, devices),
            account: Account::<Seq<char>>::fresh(config.logged_in()),
        }
    }
}

impl AppView {
    /// The program before anything has happened.
    pub open spec fn fresh(
        config: ConfigView,
        devices: Seq<String>,
        options: SettingOptions,
        clock: Clock<Seq<char>>,
    ) -> AppView {
        AppView {
            state: StateView::fresh(config, devices),
            effects: Seq::empty(),
            cache: CacheView::of(config.cache_dir, config.cache_limit_mib),
            options,
            clock,
            pending_device_resume: None,
            active_stream: None,
            stream_retried: None,
            last_session_save: clock.now_ms,
            client_base: config.api_base,
        }
    }

    /// What is kept of this session.
    pub open spec fn session(self) -> Session<Seq<char>, Seq<Song>> {
        Session {
            queue: self.state.queue.items,
            cursor: self.state.queue.cursor,
            position_ms: self.state.player.position_ms,
            vip_claimed_day: self.state.account.vip_claimed_day,
        }
    }

    #[verifier::opaque]
    pub open spec fn remember_day(self, vip_claimed_day: Option<Seq<char>>) -> AppView {
        self.with_account(Account { vip_claimed_day, ..self.state.account })
    }

    #[verifier::opaque]
    pub open spec fn recall_queue(self, songs: Seq<Song>, index: usize) -> AppView {
        self.with_queue(
            PlayQueue {
                mode: self.state.config.playback_mode,
                ..self.state.queue.replaced(songs, index)
            },
        )
    }

    #[verifier::opaque]
    pub open spec fn recall_song(self, song: Song, position_ms: u64) -> AppView {
        self.with_player(self.state.player.recalled(song, position_ms))
    }

    /// An earlier session is taken up where it ended. Nothing plays by itself.
    #[verifier::opaque]
    pub open spec fn restore_session(
        self,
        session: Option<Session<Seq<char>, Seq<Song>>>,
    ) -> AppView {
        match session {
            None => self,
            Some(session) => {
                let remembered = self.remember_day(session.vip_claimed_day);
                if session.queue.len() == 0 {
                    remembered
                } else {
                    let index = match session.cursor {
                        Some(i) => i,
                        None => 0,
                    };
                    let song = session.queue[if index < session.queue.len() {
                        index as int
                    } else {
                        session.queue.len() - 1
                    }];
                    remembered.recall_queue(session.queue, index).recall_song(
                        song,
                        session.position_ms,
                    ).info(
                        "已恢复上次会话："@ + dec(session.queue.len()) + " 首 · 按 Space 继续播放"@,
                    )
                }
            },
        }
    }

    /// Only what is known at the start is said: the service and the login, not
    /// whether it answers.
    #[verifier::opaque]
    pub open spec fn announce_readiness(self) -> AppView {
        let text = readiness(
            self.source().name(),
            self.client_base,
            self.state.account.logged_in,
        );
        if self.state.account.logged_in {
            self.info(text)
        } else {
            self.warn(text)
        }
    }

    #[verifier::opaque]
    pub open spec fn audio_missing(self, failed: bool) -> AppView {
        if failed {
            self.error("音频线程启动失败，播放不可用（详见日志）"@)
        } else {
            self
        }
    }

    /// The program has started.
    #[verifier::opaque]
    pub open spec fn start(
        self,
        session: Option<Session<Seq<char>, Seq<Song>>>,
        audio_failed: bool,
    ) -> AppView {
        let greeted = self.restore_session(session).announce_readiness().audio_missing(
            audio_failed,
        );
        let asked = greeted.ensure_device_fingerprint().refresh_cache_usage().fetch_vip_status()
            .fetch_user_info().maybe_claim_daily_vip();
        asked.ensure_tab_loaded(asked.state.screen.tab)
    }

    #[verifier::opaque]
    pub open spec fn persist_session(self) -> AppView {
        self.emit(Effect::SaveSession)
    }

    /// The settings are saved as they are used now; the address is that of the
    /// service, not one that was given for this run alone.
    #[verifier::opaque]
    pub open spec fn persist_config(self) -> AppView {
        let config = self.state.config;
        self.with_config(
            Config {
                volume: self.state.player.volume,
                playback_mode: self.state.queue.mode,
                cache_dir: self.cache.root,
                api_base: config.sources.of(config.sources.active).api_base,
                ..config
            },
        ).save_config(AfterSave::Nothing)
    }

    /// The program ends. Who forces that leaves nothing saved.
    #[verifier::opaque]
    pub open spec fn shutdown(self) -> AppView {
        (if self.state.screen.force_quit {
            self
        } else {
            self.persist_config().persist_session()
        }).cancel_stream().emit(Effect::AudioShutdown)
    }
}

impl AppState {
    pub fn new(config: Config<String>, devices: Vec<String>) -> (r: Self)
        ensures
            r@ == StateView::fresh(config_view(config), devices@),
    {
        let volume: u32 = conf::volume(&config);
        let mode = conf::playback_mode(&config);
        let logged_in = conf::is_logged_in(&config);
        let queue = PlayQueue::new(mode);
        assert(queue@.items =~= Seq::empty());
        AppState {
            screen: Screen::new(),
            panels: Panels::new(),
            pages: Pages::new(),
            queue,
            marks: Marks { queue: None, sources: None, settings: 0 },
            config,
            player: Player::new(volume, devices),
            account: Account::new(logged_in),
        }
    }
}

impl App {
    fn fresh(
        config: Config<String>,
        devices: Vec<String>,
        options: SettingOptions,
        clock: Clock<String>,
    ) -> (r: Self)
        ensures
            r@ == AppView::fresh(config_view(config), devices@, options, clock@),
    {
        let cache = AudioCache::new(conf::cache_dir(&config), conf::cache_limit_mib(&config));
        let effects: Vec<Effect<String>> = Vec::new();
        assert(effect_views(effects@) =~= Seq::empty());
        let now_ms: u64 = clock.now_ms;
        let client_base = conf::api_base(&config);
        App {
            state: AppState::new(config, devices),
            effects,
            cache,
            options,
            clock,
            pending_device_resume: None,
            active_stream: None,
            stream_retried: None,
            last_session_save: now_ms,
            client_base,
        }
    }

    /// Starts the program with these settings, these output devices and what was
    /// kept of the last session.
    pub fn new(
        config: Config<String>,
        devices: Vec<String>,
        options: SettingOptions,
        clock: Clock<String>,
        session: Option<Session<String, Vec<Song>>>,
        audio_failed: bool,
    ) -> (r: Self)
        ensures
            r@ == AppView::fresh(config_view(config), devices@, options, clock@).start(
                session_view(session),
                audio_failed,
            ),
    {
        let mut app = App::fresh(config, devices, options, clock);
        app.start(session, audio_failed);
        app
    }

    fn start(&mut self, session: Option<Session<String, Vec<Song>>>, audio_failed: bool)
        ensures
            final(self)@ == old(self)@.start(session_view(session), audio_failed),
    {
        proof {
            reveal(AppView::start);
        }
        self.restore_session(session);
        self.announce_readiness();
        self.audio_missing(audio_failed);
        self.ensure_device_fingerprint();
        self.refresh_cache_usage();
        self.fetch_vip_status();
        self.fetch_user_info();
        self.maybe_claim_daily_vip();
        let tab = self.state.screen.tab();
        self.ensure_tab_loaded(tab);
    }

    /// What is kept of this session.
    pub fn session(&self) -> (r: Session<String, Vec<Song>>)
        ensures
            r@ == self@.session(),
    {
        Session {
            queue: clone_songs(&self.state.queue.items),
            cursor: self.state.queue.cursor,
            position_ms: self.state.player.position_ms(),
            vip_claimed_day: self.state.account.vip_claimed_day(),
        }
    }

    fn remember_day(&mut self, vip_claimed_day: Option<String>)
        ensures
            final(self)@ == old(self)@.remember_day(opt(vip_claimed_day)),
    {
        proof {
            reveal(AppView::remember_day);
        }
        self.state.account.set_vip_claimed_day(vip_claimed_day);
    }

    fn recall_queue(&mut self, songs: Vec<Song>, index: usize) -> (r: Option<Song>)
        ensures
            final(self)@ == old(self)@.recall_queue(songs@, index),
            r == old(self)@.state.queue.replaced(songs@, index).current_song(),
    {
        proof {
            reveal(AppView::recall_queue);
        }
        let song = self.state.queue.replace_with(songs, index);
        let mode = conf::playback_mode(&self.state.config);
        self.state.queue.mode = mode;
        song
    }

    fn recall_song(&mut self, song: Song, position_ms: u64)
        ensures
            final(self)@ == old(self)@.recall_song(song, position_ms),
    {
        proof {
            reveal(AppView::recall_song);
        }
        self.state.player.recall(song, position_ms);
    }

    /// Takes up an earlier session.
    pub fn restore_session(&mut self, session: Option<Session<String, Vec<Song>>>)
        ensures
            final(self)@ == old(self)@.restore_session(session_view(session)),
    {
        proof {
            reveal(AppView::restore_session);
        }
        match session {
            None => {},
            Some(session) => {
                let count: usize = session.queue.len();
                let text = dec_text(count as u64);
                let index: usize = session.cursor.unwrap_or(0);
                self.remember_day(session.vip_claimed_day);
                if count == 0 {
                    return;
                }
                match self.recall_queue(session.queue, index) {
                    Some(song) => {
                        self.recall_song(song, session.position_ms);
                        self.info(
                            cat3("已恢复上次会话：", text.as_str(), " 首 · 按 Space 继续播放"),
                        );
                    },
                    None => {},
                }
            },
        }
    }

    /// Says what is known at the start.
    pub fn announce_readiness(&mut self)
        ensures
            final(self)@ == old(self)@.announce_readiness(),
    {
        proof {
            reveal(AppView::announce_readiness);
        }
        let base = self.client_base.clone();
        let source = conf::active(&self.state.config);
        let logged_in = self.state.account.logged_in();
        let text = describe_readiness(source.label(), base.as_str(), logged_in);
        if logged_in {
            self.info(text);
        } else {
            self.warn(text);
        }
    }

    fn audio_missing(&mut self, failed: bool)
        ensures
            final(self)@ == old(self)@.audio_missing(failed),
    {
        proof {
            reveal(AppView::audio_missing);
        }
        if failed {
            self.error("音频线程启动失败，播放不可用（详见日志）".to_owned());
        }
    }

    /// Asks for the session to be saved.
    pub fn persist_session(&mut self)
        ensures
            final(self)@ == old(self)@.persist_session(),
    {
        proof {
            reveal(AppView::persist_session);
        }
        self.emit(Effect::SaveSession);
    }

    /// Asks for the settings to be saved as they are used now.
    pub fn persist_config(&mut self)
        ensures
            final(self)@ == old(self)@.persist_config(),
    {
        proof {
            reveal(AppView::persist_config);
        }
        let volume: u32 = self.state.player.volume();
        let mode = self.state.queue.mode;
        let root = self.cache.root().to_owned();
        let address = conf::own_address(&self.state.config);
        conf::set_volume(&mut self.state.config, volume);
        conf::set_playback_mode(&mut self.state.config, mode);
        conf::set_cache_dir(&mut self.state.config, root);
        conf::set_api_base(&mut self.state.config, address);
        self.save_config(AfterSave::Nothing);
    }

    /// Ends the program.
    pub fn shutdown(&mut self)
        ensures
            final(self)@ == old(self)@.shutdown(),
    {
        proof {
            reveal(AppView::shutdown);
        }
        if !self.state.screen.force_quit() {
            self.persist_config();
            self.persist_session();
        }
        self.cancel_stream();
        self.emit(Effect::AudioShutdown);
    }
}

/// The view of what was kept of a session, where something was.
pub open spec fn session_view(session: Option<Session<String, Vec<Song>>>) -> Option<
    Session<Seq<char>, Seq<Song>>,
> {
    match session {
        Some(session) => Some(session@),
        None => None,
    }
}

/// What was kept of a session and taken up again is the same queue, standing at
/// the same song and the same place, and it does not play by itself.
pub proof fn session_survives_a_restart(before: AppView, after: AppView)
    requires
        before.state.queue.wf(),
        before.state.queue.cursor is Some,
    ensures
        ({
            let restored = after.restore_session(Some(before.session())).state;
            &&& restored.queue.items == before.state.queue.items
            &&& restored.queue.cursor == before.state.queue.cursor
            &&& restored.player.current == before.state.queue.current_song()
            &&& restored.player.position_ms == before.state.player.position_ms
            &&& restored.player.playback == after.state.player.playback
            &&& restored.account.vip_claimed_day == before.state.account.vip_claimed_day
            &&& after.restore_session(Some(before.session())).effects == after.effects
        }),
{
    reveal(AppView::restore_session);
    reveal(AppView::recall_queue);
    reveal(AppView::recall_song);
    reveal(AppView::remember_day);
}

/// The day of the last claim is kept even where nothing was ever queued.
pub proof fn claims_survive_without_a_queue(before: AppView, after: AppView)
    ensures
        after.restore_session(Some(before.session())).state.account.vip_claimed_day
            == before.state.account.vip_claimed_day,
{
    reveal(AppView::restore_session);
    reveal(AppView::recall_queue);
    reveal(AppView::recall_song);
    reveal(AppView::remember_day);
}

/// Who presses play after a restart hears the song from where it was left.
pub proof fn restored_song_resumes_at_its_place(before: AppView, after: AppView)
    requires
        before.state.queue.wf(),
        before.state.queue.cursor is Some,
        before.state.player.position_ms > 0,
    ensures
        ({
            let restored = after.restore_session(Some(before.session())).state;
            restored.player.resume_place(restored.player.current->0)
                == before.state.player.position_ms
        }),
{
    reveal(AppView::restore_session);
    reveal(AppView::recall_queue);
    reveal(AppView::recall_song);
    reveal(AppView::remember_day);
}

/// An address that was given for one run is not saved: what is saved is the one of
/// the service.
pub proof fn saved_address_belongs_to_the_service(app: AppView)
    ensures
        app.persist_config().state.config.api_base == app.state.config.sources.of(
            app.state.config.sources.active,
        ).api_base,
        app.persist_config().state.config.volume == app.state.player.volume,
        app.persist_config().state.config.playback_mode == app.state.queue.mode,
{
    reveal(Config::synced);
    reveal(AppView::persist_config);
    reveal(AppView::save_config);
}

} // verus!
