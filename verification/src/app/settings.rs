//! The settings page: what a line holds, and what changes with it.

use vstd::prelude::*;
use vstd::arithmetic::div_mod::{lemma_fundamental_div_mod, lemma_mod_multiples_vanish};
use crate::app::conf;
use crate::app::conf::config_view;
use crate::app::effect::{AfterSave, Effect, Setting};
use crate::app::nav::SETTINGS;
use crate::app::panes::{step_cursor, stepped};
use crate::app::playback::{shift_offset, shifted_offset};
use crate::app::queue::PlaybackMode;
use crate::app::screen::Screen;
use crate::app::state::{App, AppView, Marks, SettingOptions};
use crate::audio::cache::{AudioCache, CacheView};
use crate::audio::engine::PlaybackState;
use crate::config::{
    find_quality, quality, quality_place, supported_quality, Config, ConfigView, CoverFill,
    QUALITIES,
};
use crate::model::Song;
use crate::text::same;

verus! {

/// How many milliseconds one step of the lyrics' shift is.
pub const LYRIC_OFFSET_STEP: i64 = 100;

/// The line at a place of the settings page.
pub open spec fn setting_place(i: int) -> Option<Setting> {
    if i == 0 {
        Some(Setting::Theme)
    } else if i == 1 {
        Some(Setting::Quality)
    } else if i == 2 {
        Some(Setting::PlaybackMode)
    } else if i == 3 {
        Some(Setting::RefreshMs)
    } else if i == 4 {
        Some(Setting::LyricOffsetMs)
    } else if i == 5 {
        Some(Setting::PageSize)
    } else if i == 6 {
        Some(Setting::CacheLimitMib)
    } else if i == 7 {
        Some(Setting::BasicColor)
    } else if i == 8 {
        Some(Setting::LyricPanel)
    } else if i == 9 {
        Some(Setting::Sidebar)
    } else if i == 10 {
        Some(Setting::LiteMode)
    } else if i == 11 {
        Some(Setting::DownloadDir)
    } else if i == 12 {
        Some(Setting::CoverFill)
    } else if i == 13 {
        Some(Setting::AudioDevice)
    } else {
        None
    }
}

impl Setting {
    /// The line at a place of the settings page, where there is one.
    pub fn at(i: usize) -> (r: Option<Setting>)
        ensures
            r == setting_place(i as int),
    {
        if i == 0 {
            Some(Setting::Theme)
        } else if i == 1 {
            Some(Setting::Quality)
        } else if i == 2 {
            Some(Setting::PlaybackMode)
        } else if i == 3 {
            Some(Setting::RefreshMs)
        } else if i == 4 {
            Some(Setting::LyricOffsetMs)
        } else if i == 5 {
            Some(Setting::PageSize)
        } else if i == 6 {
            Some(Setting::CacheLimitMib)
        } else if i == 7 {
            Some(Setting::BasicColor)
        } else if i == 8 {
            Some(Setting::LyricPanel)
        } else if i == 9 {
            Some(Setting::Sidebar)
        } else if i == 10 {
            Some(Setting::LiteMode)
        } else if i == 11 {
            Some(Setting::DownloadDir)
        } else if i == 12 {
            Some(Setting::CoverFill)
        } else if i == 13 {
            Some(Setting::AudioDevice)
        } else {
            None
        }
    }
}

/// The page has a line at each of its places and at no other.
pub proof fn settings_page_is_full(i: int)
    ensures
        setting_place(i) is Some <==> 0 <= i < SETTINGS,
{
}

/// The place that lies `delta` places on in a ring of `len`, from the place of the
/// present value, or from the first where that is not there.
pub open spec fn turned(place: Option<usize>, len: nat, delta: int) -> Option<usize> {
    if len == 0 {
        None
    } else {
        Some(
            (((match place {
                Some(i) => i as int,
                None => 0,
            }) + delta) % (len as int)) as usize,
        )
    }
}

/// Goes `delta` places on in a ring of `len`.
fn turn_wide(from: u128, len: u128, delta: isize) -> (r: u128)
    requires
        from <= usize::MAX,
        0 < len <= usize::MAX + 1,
    ensures
        r == (from + delta) % (len as int),
        r < len,
{
    let step: u128 = if delta >= 0 {
        let ahead: u128 = delta as u128 % len;
        proof {
            lemma_fundamental_div_mod(delta as int, len as int);
            lemma_mod_multiples_vanish(delta as int / len as int, from + ahead, len as int);
        }
        ahead
    } else {
        let distance: u128 = (-(delta as i128)) as u128;
        let back: u128 = distance % len;
        let ahead: u128 = len - back;
        proof {
            let q = distance as int / len as int;
            lemma_fundamental_div_mod(distance as int, len as int);
            lemma_mod_multiples_vanish(-q - 1, from + ahead, len as int);
            assert(len as int * (-q - 1) == -(len as int * q) - len) by (nonlinear_arith);
            assert(from + delta == len as int * (-q - 1) + (from + ahead));
        }
        ahead
    };
    (from + step) % len
}

/// Goes `delta` places on in a ring of `len`.
pub fn turn(place: Option<usize>, len: usize, delta: isize) -> (r: Option<usize>)
    ensures
        r == turned(place, len as nat, delta as int),
        r matches Some(i) ==> i < len,
{
    if len == 0 {
        return None;
    }
    let from: usize = place.unwrap_or(0);
    let to: u128 = turn_wide(from as u128, len as u128, delta);
    Some(to as usize)
}

/// Turning on by one and back by one leads to the same value.
pub proof fn turning_back_restores(place: usize, len: nat)
    requires
        place < len <= usize::MAX,
    ensures
        turned(turned(Some(place), len, 1), len, -1) == Some(place),
        turned(turned(Some(place), len, -1), len, 1) == Some(place),
{
    let n = len as int;
    vstd::arithmetic::div_mod::lemma_add_mod_noop(place + 1, -1, n);
    vstd::arithmetic::div_mod::lemma_add_mod_noop(place - 1, 1, n);
    vstd::arithmetic::div_mod::lemma_mod_bound(place + 1, n);
    vstd::arithmetic::div_mod::lemma_mod_bound(place - 1, n);
    vstd::arithmetic::div_mod::lemma_small_mod(place as nat, len);
    vstd::arithmetic::div_mod::lemma_add_mod_noop_right(-1, place + 1, n);
    vstd::arithmetic::div_mod::lemma_add_mod_noop_right(1, place - 1, n);
}

/// The place of a value among some, from `from` on.
pub open spec fn place_in<T>(options: Seq<T>, value: T, from: int) -> Option<usize>
    decreases options.len() - from,
{
    if from < 0 || from >= options.len() {
        None
    } else if options[from] == value {
        Some(from as usize)
    } else {
        place_in(options, value, from + 1)
    }
}

/// The texts of a list.
pub open spec fn texts(options: Seq<String>) -> Seq<Seq<char>> {
    options.map_values(|s: String| s@)
}

/// The value that lies `delta` places on among some.
pub open spec fn cycled<T>(options: Seq<T>, value: T, delta: int) -> Option<T> {
    match turned(place_in(options, value, 0), options.len(), delta) {
        Some(i) => Some(options[i as int]),
        None => None,
    }
}

fn cycle_u64(options: &Vec<u64>, value: u64, delta: isize) -> (r: Option<u64>)
    ensures
        r == cycled(options@, value, delta as int),
{
    let n: usize = options.len();
    let mut i: usize = 0;
    while i < n && options[i] != value
        invariant
            i <= n,
            n == options@.len(),
            place_in(options@, value, 0) == place_in(options@, value, i as int),
        decreases n - i,
    {
        i = i + 1;
    }
    let place: Option<usize> = if i < n {
        Some(i)
    } else {
        None
    };
    match turn(place, n, delta) {
        Some(to) => Some(options[to]),
        None => None,
    }
}

fn cycle_u32(options: &Vec<u32>, value: u32, delta: isize) -> (r: Option<u32>)
    ensures
        r == cycled(options@, value, delta as int),
{
    let n: usize = options.len();
    let mut i: usize = 0;
    while i < n && options[i] != value
        invariant
            i <= n,
            n == options@.len(),
            place_in(options@, value, 0) == place_in(options@, value, i as int),
        decreases n - i,
    {
        i = i + 1;
    }
    let place: Option<usize> = if i < n {
        Some(i)
    } else {
        None
    };
    match turn(place, n, delta) {
        Some(to) => Some(options[to]),
        None => None,
    }
}

fn find_text(options: &Vec<String>, value: &str) -> (r: Option<usize>)
    ensures
        r == place_in(texts(options@), value@, 0),
        r matches Some(i) ==> i < options@.len(),
{
    let n: usize = options.len();
    let mut i: usize = 0;
    while i < n
        invariant
            i <= n,
            n == options@.len(),
            place_in(texts(options@), value@, 0) == place_in(texts(options@), value@, i as int),
        decreases n - i,
    {
        if same(options[i].as_str(), value) {
            return Some(i);
        }
        i = i + 1;
    }
    None
}

fn cycle_text(options: &Vec<String>, value: &str, delta: isize) -> (r: Option<String>)
    ensures
        match r {
            Some(next) => cycled(texts(options@), value@, delta as int) == Some(next@),
            None => cycled(texts(options@), value@, delta as int) is None,
        },
{
    match turn(find_text(options, value), options.len(), delta) {
        Some(to) => Some(options[to].clone()),
        None => None,
    }
}

/// The playback modes in their order.
pub open spec fn modes() -> Seq<PlaybackMode> {
    seq![
        PlaybackMode::Sequential,
        PlaybackMode::RepeatAll,
        PlaybackMode::RepeatOne,
        PlaybackMode::Shuffle,
    ]
}

fn cycle_mode(mode: PlaybackMode, delta: isize) -> (r: PlaybackMode)
    ensures
        Some(r) == cycled(modes(), mode, delta as int),
{
    proof {
        reveal_with_fuel(place_in, 5);
    }
    let place: usize = match mode {
        PlaybackMode::Sequential => 0,
        PlaybackMode::RepeatAll => 1,
        PlaybackMode::RepeatOne => 2,
        PlaybackMode::Shuffle => 3,
    };
    match turn(Some(place), 4, delta) {
        Some(to) => if to == 0 {
            PlaybackMode::Sequential
        } else if to == 1 {
            PlaybackMode::RepeatAll
        } else if to == 2 {
            PlaybackMode::RepeatOne
        } else {
            PlaybackMode::Shuffle
        },
        None => mode,
    }
}

/// The ways to fill the cover's place, in their order.
pub open spec fn fills() -> Seq<CoverFill> {
    seq![CoverFill::Crop, CoverFill::Stretch, CoverFill::Fit]
}

fn cycle_fill(fill: CoverFill, delta: isize) -> (r: CoverFill)
    ensures
        Some(r) == cycled(fills(), fill, delta as int),
{
    proof {
        reveal_with_fuel(place_in, 4);
    }
    let place: usize = match fill {
        CoverFill::Crop => 0,
        CoverFill::Stretch => 1,
        CoverFill::Fit => 2,
    };
    match turn(Some(place), 3, delta) {
        Some(to) => if to == 0 {
            CoverFill::Crop
        } else if to == 1 {
            CoverFill::Stretch
        } else {
            CoverFill::Fit
        },
        None => fill,
    }
}

/// The quality that lies `delta` places on.
pub open spec fn quality_on(current: Seq<char>, delta: int) -> Seq<char> {
    match turned(quality_place(current, 0), QUALITIES as nat, delta) {
        Some(i) => quality(i as int),
        None => current,
    }
}

pub fn cycle_quality(current: &str, delta: isize) -> (r: String)
    ensures
        r@ == quality_on(current@, delta as int),
{
    match turn(find_quality(current), QUALITIES, delta) {
        Some(i) => supported_quality(i).to_owned(),
        None => current.to_owned(),
    }
}

/// The device that lies `delta` places on; the system's own choice, `None`, comes
/// first. There is nothing to choose where no device is known.
pub open spec fn device_on(
    devices: Seq<String>,
    current: Option<Seq<char>>,
    delta: int,
) -> Option<Option<Seq<char>>> {
    if devices.len() == 0 {
        None
    } else {
        let place = match current {
            Some(name) => match place_in(texts(devices), name, 0) {
                Some(i) => i + 1,
                None => 0,
            },
            None => 0,
        };
        let to = (place + delta) % (devices.len() as int + 1);
        Some(
            if to == 0 {
                None
            } else {
                Some(texts(devices)[to - 1])
            },
        )
    }
}

pub fn cycle_device(devices: &Vec<String>, current: Option<&str>, delta: isize) -> (r: Option<
    Option<String>,
>)
    ensures
        match r {
            Some(Some(name)) => device_on(
                devices@,
                crate::text::opt_str(current),
                delta as int,
            ) == Some(Some(name@)),
            Some(None) => device_on(devices@, crate::text::opt_str(current), delta as int) == Some(
                None::<Seq<char>>,
            ),
            None => device_on(devices@, crate::text::opt_str(current), delta as int) is None,
        },
{
    let n: usize = devices.len();
    if n == 0 {
        return None;
    }
    let place: u128 = match current {
        Some(name) => match find_text(devices, name) {
            Some(i) => i as u128 + 1,
            None => 0,
        },
        None => 0,
    };
    let to: u128 = turn_wide(place, n as u128 + 1, delta);
    if to == 0 {
        Some(None)
    } else {
        Some(Some(devices[(to - 1) as usize].clone()))
    }
}

/// The value or, where there is none, another.
pub open spec fn or_else<T>(first: Option<T>, second: T) -> T {
    match first {
        Some(value) => value,
        None => second,
    }
}

/// The settings with one of them moved `delta` places on.
pub open spec fn changed(
    config: ConfigView,
    options: SettingOptions,
    setting: Setting,
    delta: int,
) -> ConfigView {
    match setting {
        Setting::Theme => Config {
            theme: or_else(cycled(texts(options.themes@), config.theme, delta), config.theme),
            ..config
        },
        Setting::Quality => Config { quality: quality_on(config.quality, delta), ..config },
        Setting::PlaybackMode => Config {
            playback_mode: or_else(
                cycled(modes(), config.playback_mode, delta),
                config.playback_mode,
            ),
            ..config
        },
        Setting::RefreshMs => Config {
            tick_ms: or_else(cycled(options.refresh_ms@, config.tick_ms, delta), config.tick_ms),
            ..config
        },
        Setting::LyricOffsetMs => Config {
            lyric_offset_ms: shifted_offset(config.lyric_offset_ms, delta * LYRIC_OFFSET_STEP),
            ..config
        },
        Setting::PageSize => Config {
            page_size: or_else(
                cycled(options.page_sizes@, config.page_size, delta),
                config.page_size,
            ),
            ..config
        },
        Setting::CacheLimitMib => Config {
            cache_limit_mib: or_else(
                cycled(options.cache_limits@, config.cache_limit_mib, delta),
                config.cache_limit_mib,
            ),
            ..config
        },
        Setting::BasicColor => Config {
            basic_color: config.basic_color != (delta != 0),
            ..config
        },
        Setting::LiteMode => Config { lite_mode: config.lite_mode != (delta != 0), ..config },
        Setting::DownloadDir => match cycled(
            texts(options.download_dirs@),
            or_else(config.download_dir, "~/Music"@),
            delta,
        ) {
            Some(next) => Config { download_dir: Some(next), ..config },
            None => config,
        },
        Setting::CoverFill => Config {
            cover_fill: or_else(cycled(fills(), config.cover_fill, delta), config.cover_fill),
            ..config
        },
        Setting::LyricPanel | Setting::Sidebar | Setting::AudioDevice => config,
    }
}

/// Moves one of the settings `delta` places on.
fn change(config: &mut Config<String>, options: &SettingOptions, setting: Setting, delta: isize)
    requires
        i64::MIN <= delta * LYRIC_OFFSET_STEP <= i64::MAX,
    ensures
        config_view(*final(config)) == changed(
            config_view(*old(config)),
            *options,
            setting,
            delta as int,
        ),
{
    match setting {
        Setting::Theme => {
            let theme = conf::theme(config);
            match cycle_text(&options.themes, theme.as_str(), delta) {
                Some(next) => conf::set_theme(config, next),
                None => {},
            }
        },
        Setting::Quality => {
            let current = conf::quality(config);
            conf::set_quality(config, cycle_quality(current.as_str(), delta));
        },
        Setting::PlaybackMode => {
            let mode = conf::playback_mode(config);
            conf::set_playback_mode(config, cycle_mode(mode, delta));
        },
        Setting::RefreshMs => match cycle_u64(&options.refresh_ms, conf::tick_ms(config), delta) {
            Some(next) => conf::set_tick_ms(config, next),
            None => {},
        },
        Setting::LyricOffsetMs => {
            let offset_ms: i64 = conf::lyric_offset_ms(config);
            conf::set_lyric_offset_ms(
                config,
                shift_offset(offset_ms, delta as i64 * LYRIC_OFFSET_STEP),
            );
        },
        Setting::PageSize => match cycle_u32(&options.page_sizes, conf::page_size(config), delta) {
            Some(next) => conf::set_page_size(config, next),
            None => {},
        },
        Setting::CacheLimitMib => match cycle_u64(
            &options.cache_limits,
            conf::cache_limit_mib(config),
            delta,
        ) {
            Some(next) => conf::set_cache_limit_mib(config, next),
            None => {},
        },
        Setting::BasicColor => {
            let on = conf::basic_color(config);
            conf::set_basic_color(config, on != (delta != 0));
        },
        Setting::LiteMode => {
            let on = conf::lite_mode(config);
            conf::set_lite_mode(config, on != (delta != 0));
        },
        Setting::DownloadDir => {
            let current = match conf::download_dir(config) {
                Some(dir) => dir,
                None => "~/Music".to_owned(),
            };
            match cycle_text(&options.download_dirs, current.as_str(), delta) {
                Some(next) => conf::set_download_dir(config, Some(next)),
                None => {},
            }
        },
        Setting::CoverFill => {
            let fill = conf::cover_fill(config);
            conf::set_cover_fill(config, cycle_fill(fill, delta));
        },
        Setting::LyricPanel | Setting::Sidebar | Setting::AudioDevice => {},
    }
}

impl AppView {
    /// The mark goes up or down, and stops at the ends.
    #[verifier::opaque]
    pub open spec fn move_settings(self, delta: int) -> AppView {
        self.with_marks(
            Marks {
                settings: stepped(self.state.marks.settings, SETTINGS as nat, delta),
                ..self.state.marks
            },
        )
    }

    #[verifier::opaque]
    pub open spec fn change_config(self, setting: Setting, delta: int) -> AppView {
        self.with_config(changed(self.state.config, self.options, setting, delta))
    }

    /// The song and the place to go on with on another device: only what sounds
    /// goes on by itself.
    pub open spec fn device_resume(self) -> Option<(Song, u64)> {
        match self.state.player.current {
            Some(song) => if self.state.player.playback == PlaybackState::Playing {
                Some((song, self.state.player.position_ms))
            } else {
                None
            },
            None => None,
        }
    }

    /// Another output device is chosen.
    #[verifier::opaque]
    pub open spec fn change_device(self, delta: int) -> AppView {
        match device_on(self.state.player.audio_devices, self.state.config.audio_device, delta) {
            None => self,
            Some(next) => (AppView {
                pending_device_resume: self.device_resume(),
                ..self.with_config(Config { audio_device: next, ..self.state.config })
            }).emit(Effect::AudioUseDevice(next)).emit(
                Effect::ShowSettingChanged(Setting::AudioDevice),
            ).save_config(AfterSave::Device),
        }
    }

    /// The cache gets another limit, and is measured anew.
    #[verifier::opaque]
    pub open spec fn change_cache_limit(self, delta: int) -> AppView {
        let next = self.change_config(Setting::CacheLimitMib, delta);
        if self.options.cache_limits@.len() == 0 {
            next
        } else {
            (AppView {
                cache: CacheView::of(
                    next.state.config.cache_dir,
                    next.state.config.cache_limit_mib,
                ),
                ..next
            }).refresh_cache_usage()
        }
    }

    /// The simple mode is switched; it does without the cover.
    #[verifier::opaque]
    pub open spec fn change_lite_mode(self, delta: int) -> AppView {
        let next = self.change_config(Setting::LiteMode, delta);
        if delta != 0 && next.state.config.lite_mode {
            next.no_cover()
        } else {
            next
        }
    }

    #[verifier::opaque]
    pub open spec fn change_lyric_panel(self, delta: int) -> AppView {
        self.with_screen(
            Screen {
                show_lyric_panel: self.state.screen.show_lyric_panel != (delta != 0),
                ..self.state.screen
            },
        ).emit(Effect::ShowSettingChanged(Setting::LyricPanel))
    }

    #[verifier::opaque]
    pub open spec fn change_sidebar(self, delta: int) -> AppView {
        self.with_screen(
            Screen {
                sidebar_visible: self.state.screen.sidebar_visible != (delta != 0),
                ..self.state.screen
            },
        ).emit(Effect::ShowSettingChanged(Setting::Sidebar))
    }

    #[verifier::opaque]
    pub open spec fn change_setting(self, setting: Setting, delta: int) -> AppView {
        match setting {
            Setting::LyricPanel => self.change_lyric_panel(delta),
            Setting::Sidebar => self.change_sidebar(delta),
            Setting::AudioDevice => self.change_device(delta),
            Setting::CacheLimitMib => self.change_cache_limit(delta).save_config(
                AfterSave::Setting(setting),
            ),
            Setting::LiteMode => self.change_lite_mode(delta).save_config(
                AfterSave::Setting(setting),
            ),
            _ => self.change_config(setting, delta).save_config(AfterSave::Setting(setting)),
        }
    }

    /// The marked setting is moved `delta` places on, and is saved unless it is
    /// only for this session.
    #[verifier::opaque]
    pub open spec fn adjust_setting(self, delta: int) -> AppView {
        match setting_place(self.state.marks.settings as int) {
            Some(setting) => self.change_setting(setting, delta),
            None => self,
        }
    }
}

impl App {
    /// Moves the mark of the settings page.
    pub fn move_settings(&mut self, delta: isize)
        ensures
            final(self)@ == old(self)@.move_settings(delta as int),
    {
        proof {
            reveal(AppView::move_settings);
        }
        self.state.marks.settings = step_cursor(self.state.marks.settings, SETTINGS, delta);
    }

    fn change_config(&mut self, setting: Setting, delta: isize)
        requires
            i64::MIN <= delta * LYRIC_OFFSET_STEP <= i64::MAX,
        ensures
            final(self)@ == old(self)@.change_config(setting, delta as int),
    {
        proof {
            reveal(AppView::change_config);
        }
        change(&mut self.state.config, &self.options, setting, delta);
    }

    fn device_resume(&self) -> (r: Option<(Song, u64)>)
        ensures
            r == self@.device_resume(),
    {
        match self.state.player.current() {
            Some(song) => if self.state.player.playback() == PlaybackState::Playing {
                Some((song, self.state.player.position_ms()))
            } else {
                None
            },
            None => None,
        }
    }

    fn change_device(&mut self, delta: isize)
        ensures
            final(self)@ == old(self)@.change_device(delta as int),
    {
        proof {
            reveal(AppView::change_device);
        }
        let current = conf::audio_device(&self.state.config);
        let next = match cycle_device(
            self.state.player.devices(),
            crate::source::borrow(&current),
            delta,
        ) {
            None => {
                return;
            },
            Some(next) => next,
        };
        let resume = self.device_resume();
        conf::set_audio_device(&mut self.state.config, crate::source::copy_opt(&next));
        self.pending_device_resume = resume;
        self.emit(Effect::AudioUseDevice(next));
        self.emit(Effect::ShowSettingChanged(Setting::AudioDevice));
        self.save_config(AfterSave::Device);
    }

    fn change_cache_limit(&mut self, delta: isize)
        requires
            i64::MIN <= delta * LYRIC_OFFSET_STEP <= i64::MAX,
        ensures
            final(self)@ == old(self)@.change_cache_limit(delta as int),
    {
        proof {
            reveal(AppView::change_cache_limit);
        }
        let choice = self.options.cache_limits.len() != 0;
        self.change_config(Setting::CacheLimitMib, delta);
        if choice {
            self.cache = AudioCache::new(
                conf::cache_dir(&self.state.config),
                conf::cache_limit_mib(&self.state.config),
            );
            self.refresh_cache_usage();
        }
    }

    fn change_lite_mode(&mut self, delta: isize)
        requires
            i64::MIN <= delta * LYRIC_OFFSET_STEP <= i64::MAX,
        ensures
            final(self)@ == old(self)@.change_lite_mode(delta as int),
    {
        proof {
            reveal(AppView::change_lite_mode);
            reveal(AppView::no_cover);
        }
        self.change_config(Setting::LiteMode, delta);
        if delta != 0 && conf::lite_mode(&self.state.config) {
            self.state.player.drop_cover();
        }
    }

    fn change_lyric_panel(&mut self, delta: isize)
        ensures
            final(self)@ == old(self)@.change_lyric_panel(delta as int),
    {
        proof {
            reveal(AppView::change_lyric_panel);
        }
        let shown = self.state.screen.show_lyric_panel();
        self.state.screen.set_show_lyric_panel(shown != (delta != 0));
        self.emit(Effect::ShowSettingChanged(Setting::LyricPanel));
    }

    fn change_sidebar(&mut self, delta: isize)
        ensures
            final(self)@ == old(self)@.change_sidebar(delta as int),
    {
        proof {
            reveal(AppView::change_sidebar);
        }
        let shown = self.state.screen.sidebar_visible();
        self.state.screen.set_sidebar_visible(shown != (delta != 0));
        self.emit(Effect::ShowSettingChanged(Setting::Sidebar));
    }

    fn change_setting(&mut self, setting: Setting, delta: isize)
        requires
            i64::MIN <= delta * LYRIC_OFFSET_STEP <= i64::MAX,
        ensures
            final(self)@ == old(self)@.change_setting(setting, delta as int),
    {
        proof {
            reveal(AppView::change_setting);
        }
        match setting {
            Setting::LyricPanel => {
                self.change_lyric_panel(delta);
            },
            Setting::Sidebar => {
                self.change_sidebar(delta);
            },
            Setting::AudioDevice => {
                self.change_device(delta);
            },
            Setting::CacheLimitMib => {
                self.change_cache_limit(delta);
                self.save_config(AfterSave::Setting(setting));
            },
            Setting::LiteMode => {
                self.change_lite_mode(delta);
                self.save_config(AfterSave::Setting(setting));
            },
            _ => {
                self.change_config(setting, delta);
                self.save_config(AfterSave::Setting(setting));
            },
        }
    }

    /// Moves the marked setting `delta` places on.
    pub fn adjust_setting(&mut self, delta: isize)
        requires
            i64::MIN <= delta * LYRIC_OFFSET_STEP <= i64::MAX,
        ensures
            final(self)@ == old(self)@.adjust_setting(delta as int),
    {
        proof {
            reveal(AppView::adjust_setting);
        }
        match Setting::at(self.state.marks.settings) {
            Some(setting) => {
                self.change_setting(setting, delta);
            },
            None => {},
        }
    }
}

} // verus!
