//! The state of the program as a whole, and what it asks of the outside.

use vstd::prelude::*;
use crate::app::account::{account_view, Account};
use crate::app::conf::config_view;
use crate::app::effect::{effect_views, Effect, EffectView};
use crate::app::nav::{Focus, Tab};
use crate::app::pages::{pages_view, Pages, PagesView};
use crate::app::panels::{panels_view, Panels};
use crate::app::panes::SongList;
use crate::app::player::{player_view, Player};
use crate::app::queue::PlayQueue;
use crate::app::screen::{screen_view, Level, Screen, Status};
use crate::audio::cache::{AudioCache, CacheView};
use crate::config::{Config, ConfigView};
use crate::event::KeyMode;
use crate::model::{LyricLine, Song};
use crate::text::opt;

verus! {

/// The marks in the lists that are not on a page with songs.
#[derive(Debug, Clone, Copy, PartialEq, Eq)]
pub struct Marks {
    pub queue: Option<usize>,
    pub sources: Option<usize>,
    pub settings: usize,
}

/// The state of the program.
#[derive(Debug)]
pub struct AppState {
    pub screen: Screen<String>,
    pub panels: Panels<String, Vec<char>>,
    pub pages: Pages,
    pub queue: PlayQueue<Vec<Song>>,
    pub marks: Marks,
    pub config: Config<String>,
    pub player: Player<String, Vec<LyricLine>, Vec<String>>,
    pub account: Account<String>,
}

/// The view of the state.
pub struct StateView {
    pub screen: Screen<Seq<char>>,
    pub panels: Panels<Seq<char>, Seq<char>>,
    pub pages: PagesView,
    pub queue: PlayQueue<Seq<Song>>,
    pub marks: Marks,
    pub config: ConfigView,
    pub player: Player<Seq<char>, Seq<LyricLine>, Seq<String>>,
    pub account: Account<Seq<char>>,
}

impl View for AppState {
    type V = StateView;

    open spec fn view(&self) -> StateView {
        StateView {
            screen: screen_view(self.screen),
            panels: panels_view(self.panels),
            pages: pages_view(self.pages),
            queue: self.queue@,
            marks: self.marks,
            config: config_view(self.config),
            player: player_view(self.player),
            account: account_view(self.account),
        }
    }
}

impl StateView {
    /// Whether keys write text.
    pub open spec fn is_editing(self) -> bool {
        self.pages.search.editing || self.panels.prompt is Some
    }

    /// The list of songs of the page, where it has one.
    pub open spec fn focused_songs(self) -> Option<SongList<Seq<char>, Seq<Song>>> {
        self.pages.songs_of(self.screen.tab)
    }

    /// The marked song of the queue.
    pub open spec fn marked_song(self) -> Option<Song> {
        match self.marks.queue {
            Some(i) => if i < self.queue.items.len() {
                Some(self.queue.items[i as int])
            } else {
                None
            },
            None => None,
        }
    }

    /// The song that is chosen: in the queue where that takes the keys or is the
    /// page, else in the list of the page.
    pub open spec fn selected_song(self) -> Option<Song> {
        if self.screen.focus == Focus::Queue || self.screen.tab == Tab::Queue {
            self.marked_song()
        } else {
            match self.focused_songs() {
                Some(list) => match list.chosen() {
                    Some(i) => Some(list.songs[i as int]),
                    None => None,
                },
                None => None,
            }
        }
    }
}

/// What the settings page lets one choose from.
#[derive(Debug)]
pub struct SettingOptions {
    pub themes: Vec<String>,
    pub refresh_ms: Vec<u64>,
    pub page_sizes: Vec<u32>,
    pub cache_limits: Vec<u64>,
    pub download_dirs: Vec<String>,
}

/// What the outside says at the time of an event.
#[verifier::ext_equal]
#[derive(Debug)]
pub struct Clock<S = String> {
    /// A clock that never goes back, in milliseconds.
    pub now_ms: u64,
    /// The date here, where it is known.
    pub today: Option<S>,
    /// A random number.
    pub random: usize,
}

impl View for Clock<String> {
    type V = Clock<Seq<char>>;

    open spec fn view(&self) -> Clock<Seq<char>> {
        Clock { now_ms: self.now_ms, today: opt(self.today), random: self.random }
    }
}

/// The program: its state, and what it has asked the outside to do since the last
/// time that was carried out.
pub struct App {
    pub state: AppState,
    pub effects: Vec<Effect<String>>,
    pub cache: AudioCache,
    pub options: SettingOptions,
    pub clock: Clock<String>,
    /// The song and the place to go on with when another device is open.
    pub pending_device_resume: Option<(Song, u64)>,
    /// The stream that feeds the current song.
    pub active_stream: Option<u64>,
    /// The song whose stream was already resumed once.
    pub stream_retried: Option<String>,
    pub last_session_save: u64,
    /// The address of the client that requests go through.
    pub client_base: String,
}

/// The view of the program.
pub struct AppView {
    pub state: StateView,
    pub effects: Seq<EffectView>,
    pub cache: CacheView,
    pub options: SettingOptions,
    pub clock: Clock<Seq<char>>,
    pub pending_device_resume: Option<(Song, u64)>,
    pub active_stream: Option<u64>,
    pub stream_retried: Option<Seq<char>>,
    pub last_session_save: u64,
    pub client_base: Seq<char>,
}

impl View for App {
    type V = AppView;

    open spec fn view(&self) -> AppView {
        AppView {
            state: self.state@,
            effects: effect_views(self.effects@),
            cache: self.cache@,
            options: self.options,
            clock: self.clock@,
            pending_device_resume: self.pending_device_resume,
            active_stream: self.active_stream,
            stream_retried: opt(self.stream_retried),
            last_session_save: self.last_session_save,
            client_base: self.client_base@,
        }
    }
}

impl AppView {
    pub open spec fn emit(self, effect: EffectView) -> AppView {
        AppView { effects: self.effects.push(effect), ..self }
    }

    pub open spec fn with_screen(self, screen: Screen<Seq<char>>) -> AppView {
        AppView { state: StateView { screen, ..self.state }, ..self }
    }

    pub open spec fn with_panels(self, panels: Panels<Seq<char>, Seq<char>>) -> AppView {
        AppView { state: StateView { panels, ..self.state }, ..self }
    }

    pub open spec fn with_pages(self, pages: PagesView) -> AppView {
        AppView { state: StateView { pages, ..self.state }, ..self }
    }

    pub open spec fn with_queue(self, queue: PlayQueue<Seq<Song>>) -> AppView {
        AppView { state: StateView { queue, ..self.state }, ..self }
    }

    pub open spec fn with_marks(self, marks: Marks) -> AppView {
        AppView { state: StateView { marks, ..self.state }, ..self }
    }

    pub open spec fn with_config(self, config: ConfigView) -> AppView {
        AppView { state: StateView { config, ..self.state }, ..self }
    }

    pub open spec fn with_player(
        self,
        player: Player<Seq<char>, Seq<LyricLine>, Seq<String>>,
    ) -> AppView {
        AppView { state: StateView { player, ..self.state }, ..self }
    }

    pub open spec fn with_account(self, account: Account<Seq<char>>) -> AppView {
        AppView { state: StateView { account, ..self.state }, ..self }
    }

    pub open spec fn say(self, level: Level, text: Seq<char>) -> AppView {
        self.with_screen(Screen { status: Status { level, text }, ..self.state.screen })
    }

    pub open spec fn info(self, text: Seq<char>) -> AppView {
        self.say(Level::Info, text)
    }

    pub open spec fn success(self, text: Seq<char>) -> AppView {
        self.say(Level::Success, text)
    }

    pub open spec fn warn(self, text: Seq<char>) -> AppView {
        self.say(Level::Warn, text)
    }

    pub open spec fn error(self, text: Seq<char>) -> AppView {
        self.say(Level::Error, text)
    }

    pub open spec fn set_busy(self, text: Option<Seq<char>>) -> AppView {
        self.with_screen(Screen { busy: text, ..self.state.screen })
    }
}

impl AppState {
    pub fn is_editing(&self) -> (r: bool)
        ensures
            r == self@.is_editing(),
    {
        self.pages.is_editing() || self.panels.is_prompting()
    }

    /// How keys are to be read now.
    pub fn key_mode(&self) -> (r: KeyMode)
        ensures
            r == (if self@.is_editing() {
                KeyMode::TextInput
            } else {
                KeyMode::Normal
            }),
    {
        if self.is_editing() {
            KeyMode::TextInput
        } else {
            KeyMode::Normal
        }
    }

    /// The list of songs of the page, where it has one.
    pub fn focused_songs(&self) -> (r: Option<&SongList<String, Vec<Song>>>)
        ensures
            match r {
                Some(list) => self@.focused_songs() == Some(list@),
                None => self@.focused_songs() is None,
            },
    {
        self.pages.songs_of(self.screen.tab())
    }

    /// The marked song of the queue.
    pub fn marked_song(&self) -> (r: Option<Song>)
        ensures
            r == self@.marked_song(),
    {
        match self.marks.queue {
            Some(i) => if i < self.queue.items.len() {
                Some(self.queue.items[i].clone())
            } else {
                None
            },
            None => None,
        }
    }

    /// The song that is chosen.
    pub fn selected_song(&self) -> (r: Option<Song>)
        ensures
            r == self@.selected_song(),
    {
        if self.screen.focus() == Focus::Queue || self.screen.tab() == Tab::Queue {
            self.marked_song()
        } else {
            match self.focused_songs() {
                Some(list) => match list.selected_index() {
                    Some(i) => Some(list.songs[i].clone()),
                    None => None,
                },
                None => None,
            }
        }
    }
}

impl App {
    /// Asks the outside for something.
    pub fn emit(&mut self, effect: Effect<String>)
        ensures
            final(self)@ == old(self)@.emit(effect@),
    {
        self.effects.push(effect);
        assert(effect_views(self.effects@) =~= effect_views(old(self).effects@).push(effect@));
    }

    fn say(&mut self, level: Level, text: String)
        ensures
            final(self)@ == old(self)@.say(level, text@),
    {
        self.state.screen.set_status(level, text);
    }

    pub fn info(&mut self, text: String)
        ensures
            final(self)@ == old(self)@.info(text@),
    {
        self.say(Level::Info, text);
    }

    pub fn success(&mut self, text: String)
        ensures
            final(self)@ == old(self)@.success(text@),
    {
        self.say(Level::Success, text);
    }

    pub fn warn(&mut self, text: String)
        ensures
            final(self)@ == old(self)@.warn(text@),
    {
        self.say(Level::Warn, text);
    }

    pub fn error(&mut self, text: String)
        ensures
            final(self)@ == old(self)@.error(text@),
    {
        self.say(Level::Error, text);
    }

    pub fn set_busy(&mut self, text: Option<String>)
        ensures
            final(self)@ == old(self)@.set_busy(opt(text)),
    {
        self.state.screen.set_busy(text);
    }

    /// Hands over what was asked for, and forgets it.
    pub fn take_effects(&mut self) -> (r: Vec<Effect<String>>)
        ensures
            effect_views(r@) == old(self)@.effects,
            final(self)@ == (AppView { effects: Seq::empty(), ..old(self)@ }),
    {
        let mut effects: Vec<Effect<String>> = Vec::new();
        std::mem::swap(&mut effects, &mut self.effects);
        assert(effect_views(self.effects@) =~= Seq::empty());
        effects
    }
}

} // verus!
