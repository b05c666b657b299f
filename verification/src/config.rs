//! The settings: what they are, how they are brought within their bounds, and
//! how the identity of the service in use moves in and out of them.
//!
//! The program reads `api_base`, `cookie` and `dfid` at the top. They mirror the
//! profile of the service in use: switching loads them from a profile, saving
//! stores the cookie and the fingerprint back. The address is never stored back,
//! since it belongs to the service.

use vstd::prelude::*;
use crate::app::queue::PlaybackMode;
use crate::audio::volume::{sane, sane_volume, DEFAULT_VOLUME};
use crate::source::{
    borrow, cookie_header_for, copy_opt, header_for, SourceKind, SourceProfile, SourceSet,
};
use crate::text::{
    ascii_lower, cat2, chars_of, contains, drop_leading, drop_trailing, has_text, is_white, join,
    joined, lemma_dropped_ends, lemma_lower_twice, lemma_trimmed_already, lemma_trimmed_twice,
    lower, occurs_at, opt, opt_str, same, starts_with, text_of, trim, trim_end_slashes,
    trim_start_slashes, trimmed, Blank,
};

verus! {

/// Where the server of the first service listens.
pub const DEFAULT_API_BASE: &'static str = "http://127.0.0.1:3000";

/// The quality of a fresh installation.
pub const DEFAULT_QUALITY: &'static str = "128";

/// The program's own directory below those of the system.
pub const APP_DIR_NAME: &'static str = "kugou-tui";

/// The bit pattern of `2.0`, the usual shape of a character cell.
pub const DEFAULT_QR_ASPECT: u32 = 0x4000_0000;

/// How many qualities there are.
pub const QUALITIES: usize = 8;

/// The furthest that lyrics can be moved, in milliseconds.
pub const LYRIC_OFFSET_LIMIT: i64 = 10_000;

/// The qualities that a song can be asked for in.
pub open spec fn quality(i: int) -> Seq<char> {
    if i == 0 {
        "128"@
    } else if i == 1 {
        "320"@
    } else if i == 2 {
        "flac"@
    } else if i == 3 {
        "high"@
    } else if i == 4 {
        "super"@
    } else if i == 5 {
        "viper_clear"@
    } else if i == 6 {
        "viper_atmos"@
    } else {
        "viper_tape"@
    }
}

/// The quality at a place in their fixed order.
pub fn supported_quality(i: usize) -> (r: &'static str)
    ensures
        r@ == quality(i as int),
{
    if i == 0 {
        "128"
    } else if i == 1 {
        "320"
    } else if i == 2 {
        "flac"
    } else if i == 3 {
        "high"
    } else if i == 4 {
        "super"
    } else if i == 5 {
        "viper_clear"
    } else if i == 6 {
        "viper_atmos"
    } else {
        "viper_tape"
    }
}

/// The place of a quality in their order, from `from` on.
pub open spec fn quality_place(q: Seq<char>, from: int) -> Option<usize>
    decreases QUALITIES - from,
{
    if from < 0 || from >= QUALITIES {
        None
    } else if q == quality(from) {
        Some(from as usize)
    } else {
        quality_place(q, from + 1)
    }
}

/// The place of a quality in their order.
pub fn find_quality(q: &str) -> (r: Option<usize>)
    ensures
        r == quality_place(q@, 0),
        r matches Some(i) ==> i < QUALITIES,
{
    let mut i: usize = 0;
    while i < QUALITIES
        invariant
            i <= QUALITIES,
            quality_place(q@, 0) == quality_place(q@, i as int),
        decreases QUALITIES - i,
    {
        if same(q, supported_quality(i)) {
            return Some(i);
        }
        i = i + 1;
    }
    None
}

/// How the large cover fills its place: a frame and a picture of different
/// shapes cannot be filled, undistorted and uncut at once.
#[derive(Debug, Clone, Copy, PartialEq, Eq, Default, Structural)]
pub enum CoverFill {
    /// Filled and undistorted; what stands over is cut.
    #[default]
    Crop,
    /// Filled and uncut; the picture is distorted.
    Stretch,
    /// Undistorted and uncut; the frame is not filled.
    Fit,
}

impl CoverFill {
    pub fn label(self) -> (r: &'static str)
        ensures
            r@ == (match self {
                CoverFill::Crop => "居中裁剪"@,
                CoverFill::Stretch => "拉伸铺满"@,
                CoverFill::Fit => "完整显示"@,
            }),
    {
        match self {
            CoverFill::Crop => "居中裁剪",
            CoverFill::Stretch => "拉伸铺满",
            CoverFill::Fit => "完整显示",
        }
    }
}

/// What the command line asks for.
#[derive(Debug)]
pub struct Cli {
    pub api_base: Option<String>,
    pub cookie: Option<String>,
    /// A volume, by its bit pattern.
    pub volume: Option<u32>,
    pub cache_dir: Option<String>,
    pub cache_limit: Option<u64>,
    pub tick_ms: Option<u64>,
    pub page_size: Option<u32>,
    pub proxy: Option<String>,
    pub basic_color: bool,
    pub no_tray: bool,
}

/// The settings. The types of their texts and of their list are parameters, so that
/// the view of the settings has the same shape.
#[verifier::ext_equal]
#[derive(Debug)]
pub struct Config<S = String, K = Vec<(String, String)>> {
    pub api_base: S,
    pub cookie: Option<S>,
    /// The fingerprint of the device.
    pub dfid: Option<S>,
    /// The volume, by its bit pattern.
    pub volume: u32,
    pub audio_device: Option<S>,
    pub playback_mode: PlaybackMode,
    pub cache_dir: S,
    /// In MiB; `0` means no limit.
    pub cache_limit_mib: u64,
    pub lyric_offset_ms: i64,
    pub tick_ms: u64,
    pub page_size: u32,
    pub proxy: Option<S>,
    pub quality: S,
    pub basic_color: bool,
    pub download_dir: Option<S>,
    pub theme: S,
    /// The user's own keys: each the name of an action and the key for it. An action
    /// that is not named keeps its usual key.
    pub keymap: K,
    /// The shape of a character cell, height to width, by its bit pattern.
    pub qr_aspect: u32,
    pub lite_mode: bool,
    pub cover_fill: CoverFill,
    pub tray: bool,
    pub sources: SourceSet<S>,
}

/// The view of the settings.
pub type ConfigView = Config<Seq<char>, Seq<(String, String)>>;

impl View for Config<String> {
    type V = ConfigView;

    open spec fn view(&self) -> ConfigView {
        Config {
            api_base: self.api_base@,
            cookie: opt(self.cookie),
            dfid: opt(self.dfid),
            volume: self.volume,
            audio_device: opt(self.audio_device),
            playback_mode: self.playback_mode,
            cache_dir: self.cache_dir@,
            cache_limit_mib: self.cache_limit_mib,
            lyric_offset_ms: self.lyric_offset_ms,
            tick_ms: self.tick_ms,
            page_size: self.page_size,
            proxy: opt(self.proxy),
            quality: self.quality@,
            basic_color: self.basic_color,
            download_dir: opt(self.download_dir),
            theme: self.theme@,
            keymap: self.keymap@,
            qr_aspect: self.qr_aspect,
            lite_mode: self.lite_mode,
            cover_fill: self.cover_fill,
            tray: self.tray,
            sources: self.sources@,
        }
    }
}

/// `n` brought between two bounds.
pub open spec fn between(n: int, low: int, high: int) -> int {
    if n < low {
        low
    } else if n > high {
        high
    } else {
        n
    }
}

/// An address in its usual form: no blanks around it, no `/` at its end, and a
/// protocol in front.
pub open spec fn usual_address(address: Seq<char>) -> Seq<char> {
    let bare = drop_trailing(trimmed(address), Blank::Slash);
    let named = if bare.len() == 0 {
        DEFAULT_API_BASE@
    } else {
        bare
    };
    if occurs_at(named, "http://"@, 0) || occurs_at(named, "https://"@, 0) {
        named
    } else {
        "http://"@ + named
    }
}

/// A quality in its usual spelling; an unknown one falls back to the default.
pub open spec fn usual_quality(q: Seq<char>) -> Seq<char> {
    let spelled = lower(trimmed(q));
    if quality_place(spelled, 0) is Some {
        spelled
    } else {
        DEFAULT_QUALITY@
    }
}

/// A path with a leading `~` replaced by the home directory, where that is known.
pub open spec fn home_expanded(path: Seq<char>, home: Option<Seq<char>>) -> Seq<char> {
    match home {
        Some(h) => if path.len() > 0 && path[0] == '~' {
            joined(h, drop_leading(path.drop_first(), Blank::Slash))
        } else {
            path
        },
        None => path,
    }
}

/// A profile that was never filled in gets the address of its service and counts
/// as enabled.
pub open spec fn filled_in(
    profile: SourceProfile<Seq<char>>,
    kind: SourceKind,
) -> SourceProfile<Seq<char>> {
    if trimmed(profile.api_base).len() == 0 {
        SourceProfile { api_base: kind.address(), enabled: true, ..profile }
    } else {
        profile
    }
}

/// What an argument asks for: its trimmed text, where that is not blank.
pub open spec fn asked(argument: Option<Seq<char>>) -> Option<Seq<char>> {
    match argument {
        Some(a) => if trimmed(a).len() > 0 {
            Some(trimmed(a))
        } else {
            None
        },
        None => None,
    }
}

/// The first value where there is one, else the second.
pub open spec fn or<T>(first: Option<T>, second: T) -> T {
    match first {
        Some(value) => value,
        None => second,
    }
}

/// The first value where there is one, else the second, where there is one.
pub open spec fn or_opt<T>(first: Option<T>, second: Option<T>) -> Option<T> {
    match first {
        Some(value) => Some(value),
        None => second,
    }
}

impl Config<Seq<char>, Seq<(String, String)>> {
    /// The settings of a fresh installation.
    pub open spec fn fresh(cache_dir: Seq<char>) -> Self {
        Config {
            api_base: DEFAULT_API_BASE@,
            cookie: None,
            dfid: None,
            volume: DEFAULT_VOLUME,
            audio_device: None,
            playback_mode: PlaybackMode::Sequential,
            cache_dir,
            cache_limit_mib: 512,
            lyric_offset_ms: 0,
            tick_ms: 200,
            page_size: 30,
            proxy: None,
            quality: DEFAULT_QUALITY@,
            basic_color: false,
            download_dir: None,
            theme: ""@,
            keymap: Seq::empty(),
            qr_aspect: DEFAULT_QR_ASPECT,
            lite_mode: false,
            cover_fill: CoverFill::Crop,
            tray: true,
            sources: SourceSet::first(),
        }
    }

    /// With another service in use, whose profile gives address and identity.
    #[verifier::opaque]
    pub open spec fn switched(self, kind: SourceKind) -> Self {
        let profile = self.sources.of(kind);
        Config {
            api_base: profile.api_base,
            cookie: profile.cookie,
            dfid: profile.device_id,
            sources: SourceSet { active: kind, ..self.sources },
            ..self
        }
    }

    /// With the identity stored in the profile of the service in use.
    #[verifier::opaque]
    pub open spec fn synced(self) -> Self {
        let profile = self.sources.of(self.sources.active);
        Config {
            sources: self.sources.with(
                self.sources.active,
                SourceProfile { cookie: self.cookie, device_id: self.dfid, ..profile },
            ),
            ..self
        }
    }

    /// Within its bounds, given the home directory and the place for a cache.
    pub open spec fn normal(self, home: Option<Seq<char>>, cache_root: Seq<char>) -> Self {
        Config {
            api_base: usual_address(self.api_base),
            cookie: asked(self.cookie),
            volume: sane(self.volume),
            cache_dir: cache_place(self.cache_dir, home, cache_root),
            lyric_offset_ms: between(
                self.lyric_offset_ms as int,
                -LYRIC_OFFSET_LIMIT as int,
                LYRIC_OFFSET_LIMIT as int,
            ) as i64,
            tick_ms: between(self.tick_ms as int, 50, 5_000) as u64,
            page_size: between(self.page_size as int, 5, 200) as u32,
            quality: usual_quality(self.quality),
            sources: SourceSet {
                active: self.sources.active,
                kugou: filled_in(self.sources.kugou, SourceKind::Kugou),
                concept: filled_in(self.sources.concept, SourceKind::KugouConcept),
                netease: filled_in(self.sources.netease, SourceKind::Netease),
            },
            ..self
        }
    }

    /// Brought within its bounds again, it stays as it is, wherever the home directory
    /// and the place for a cache are by then; those say nothing more where its own place
    /// for the cache is set and does not begin with `~`.
    pub open spec fn settled(self) -> bool {
        self.cache_dir.len() > 0 && !at_home(self.cache_dir) ==> forall|
            home: Option<Seq<char>>,
            cache_root: Seq<char>,
        |
            #[trigger] self.normal(home, cache_root) == self
    }

    /// Overridden by what the command line asks for; what it leaves out or leaves
    /// blank stays.
    pub open spec fn overridden(self, cli: Cli) -> Self {
        Config {
            api_base: or(asked(opt(cli.api_base)), self.api_base),
            cookie: or_opt(asked(opt(cli.cookie)), self.cookie),
            volume: or(cli.volume, self.volume),
            cache_dir: or(opt(cli.cache_dir), self.cache_dir),
            cache_limit_mib: or(cli.cache_limit, self.cache_limit_mib),
            tick_ms: or(cli.tick_ms, self.tick_ms),
            page_size: or(cli.page_size, self.page_size),
            proxy: or_opt(asked(opt(cli.proxy)), self.proxy),
            basic_color: self.basic_color || cli.basic_color,
            tray: self.tray && !cli.no_tray,
            ..self
        }
    }

    /// The cookie that requests carry.
    pub open spec fn header(self) -> Option<Seq<char>> {
        header_for(self.sources.active, self.cookie, self.dfid)
    }

    /// Whether the cookie holds a login of one of the two kinds.
    pub open spec fn logged_in(self) -> bool {
        match self.cookie {
            Some(c) => has_text(c, "token="@) && has_text(c, "userid="@) || has_text(
                c,
                "MUSIC_U="@,
            ),
            None => false,
        }
    }
}

/// Calls `dirs::home_dir`, the home directory of the user. It depends on the
/// environment, so nothing is promised of it; a directory whose name is not valid
/// text counts as unknown.
#[verifier::external_body]
fn home_dir() -> (r: Option<String>) {
    dirs::home_dir().and_then(|path| path.into_os_string().into_string().ok())
}

/// Calls `dirs::cache_dir`, the directory for caches of the user. It depends on
/// the environment, so nothing is promised of it; a directory whose name is not
/// valid text counts as unknown.
#[verifier::external_body]
fn cache_dir() -> (r: Option<String>) {
    dirs::cache_dir().and_then(|path| path.into_os_string().into_string().ok())
}

/// Calls `dirs::config_dir`, the directory for settings of the user. It depends
/// on the environment, so nothing is promised of it; a directory whose name is
/// not valid text counts as unknown.
#[verifier::external_body]
fn config_dir() -> (r: Option<String>) {
    dirs::config_dir().and_then(|path| path.into_os_string().into_string().ok())
}

/// The program's directory below `base`, or below `fallback` where that is not
/// known.
pub open spec fn own_dir(base: Option<Seq<char>>, fallback: Seq<char>) -> Seq<char> {
    joined(
        match base {
            Some(b) => b,
            None => fallback,
        },
        APP_DIR_NAME@,
    )
}

/// The program's directory below `base`, or below `fallback` where that is not
/// known.
pub fn own_dir_below(base: Option<&str>, fallback: &str) -> (r: String)
    ensures
        r@ == own_dir(opt_str(base), fallback@),
{
    match base {
        Some(base) => join(base, APP_DIR_NAME),
        None => join(fallback, APP_DIR_NAME),
    }
}

/// Where the cache stands unless told otherwise: in the user's directory for
/// caches, or in `temp_dir` where there is none.
pub fn default_cache_dir(temp_dir: &str) -> (r: String)
    ensures
        exists|base: Option<Seq<char>>| r@ == #[trigger] own_dir(base, temp_dir@),
{
    let base = cache_dir();
    let r = own_dir_below(borrow(&base), temp_dir);
    assert(r@ == own_dir(opt(base), temp_dir@));
    r
}

/// Replaces a leading `~` by `home`, where that is known.
pub fn expand_tilde_with(path: &str, home: Option<&str>) -> (r: String)
    ensures
        r@ == home_expanded(path@, opt_str(home)),
{
    let v = chars_of(path);
    match home {
        Some(home) => {
            if v.len() > 0 && v[0] == '~' {
                let len: usize = v.len();
                let rest = text_of(&v, 1, len);
                assert(rest@ =~= path@.drop_first());
                let rest = trim_start_slashes(rest.as_str());
                join(home, rest.as_str())
            } else {
                path.to_owned()
            }
        },
        None => path.to_owned(),
    }
}

/// Replaces a leading `~` by the user's home directory.
pub fn expand_tilde(path: &str) -> (r: String)
    ensures
        exists|home: Option<Seq<char>>| r@ == #[trigger] home_expanded(path@, home),
        !(path@.len() > 0 && path@[0] == '~') ==> r@ == path@,
{
    let home = home_dir();
    let r = expand_tilde_with(path, borrow(&home));
    assert(r@ == home_expanded(path@, opt(home)));
    r
}

/// An address in its usual form.
pub fn normalize_address(address: &str) -> (r: String)
    ensures
        r@ == usual_address(address@),
{
    let bare = trim_end_slashes(trim(address).as_str());
    let named = if bare.as_str().is_empty() {
        DEFAULT_API_BASE.to_owned()
    } else {
        bare
    };
    if starts_with(named.as_str(), "http://") || starts_with(named.as_str(), "https://") {
        named
    } else {
        cat2("http://", named.as_str())
    }
}

fn keep_between(n: u64, low: u64, high: u64) -> (r: u64)
    requires
        low <= high,
    ensures
        r == between(n as int, low as int, high as int),
{
    if n < low {
        low
    } else if n > high {
        high
    } else {
        n
    }
}

/// A shift of the lyrics kept within its bounds.
pub fn clamp_offset(offset_ms: i64) -> (r: i64)
    ensures
        r == between(offset_ms as int, -LYRIC_OFFSET_LIMIT as int, LYRIC_OFFSET_LIMIT as int),
{
    if offset_ms < -LYRIC_OFFSET_LIMIT {
        -LYRIC_OFFSET_LIMIT
    } else if offset_ms > LYRIC_OFFSET_LIMIT {
        LYRIC_OFFSET_LIMIT
    } else {
        offset_ms
    }
}

fn normalize_quality(quality: &str) -> (r: String)
    ensures
        r@ == usual_quality(quality@),
{
    let quality = ascii_lower(trim(quality).as_str());
    if find_quality(quality.as_str()).is_some() {
        quality
    } else {
        DEFAULT_QUALITY.to_owned()
    }
}

/// The place of the cache: what is set, or `cache_root` where nothing is.
pub open spec fn cache_place(
    set: Seq<char>,
    home: Option<Seq<char>>,
    cache_root: Seq<char>,
) -> Seq<char> {
    if set.len() == 0 {
        cache_root
    } else {
        home_expanded(set, home)
    }
}

fn normalize_cache_dir(set: &str, home: Option<&str>, cache_root: &str) -> (r: String)
    ensures
        r@ == cache_place(set@, opt_str(home), cache_root@),
{
    if set.is_empty() {
        cache_root.to_owned()
    } else {
        expand_tilde_with(set, home)
    }
}

fn fill_in(profile: &mut SourceProfile<String>, kind: SourceKind)
    ensures
        final(profile)@ == filled_in(old(profile)@, kind),
{
    if trim(profile.api_base.as_str()).as_str().is_empty() {
        profile.api_base = kind.default_api_base().to_owned();
        profile.enabled = true;
    }
}

/// The trimmed text of an argument that is given and not blank.
fn given(argument: &Option<String>) -> (r: Option<String>)
    ensures
        opt(r) == asked(opt(*argument)),
{
    match argument {
        Some(text) => {
            let text = trim(text.as_str());
            if text.as_str().is_empty() {
                None
            } else {
                Some(text)
            }
        },
        None => None,
    }
}

fn pick(first: Option<String>, second: &String) -> (r: String)
    ensures
        r@ == or(opt(first), second@),
{
    match first {
        Some(text) => text,
        None => second.clone(),
    }
}

fn pick_opt(first: Option<String>, second: &Option<String>) -> (r: Option<String>)
    ensures
        opt(r) == or_opt(opt(first), opt(*second)),
{
    match first {
        Some(text) => Some(text),
        None => copy_opt(second),
    }
}

impl Config<String> {
    /// The settings of a fresh installation, with the cache in `cache_dir`.
    pub fn with_cache_dir(cache_dir: String) -> (r: Self)
        ensures
            r@ == Config::fresh(cache_dir@),
    {
        Config {
            api_base: DEFAULT_API_BASE.to_owned(),
            cookie: None,
            dfid: None,
            volume: DEFAULT_VOLUME,
            audio_device: None,
            playback_mode: PlaybackMode::Sequential,
            cache_dir,
            cache_limit_mib: 512,
            lyric_offset_ms: 0,
            tick_ms: 200,
            page_size: 30,
            proxy: None,
            quality: DEFAULT_QUALITY.to_owned(),
            basic_color: false,
            download_dir: None,
            theme: "".to_owned(),
            keymap: Vec::new(),
            qr_aspect: DEFAULT_QR_ASPECT,
            lite_mode: false,
            cover_fill: CoverFill::Crop,
            tray: true,
            sources: SourceSet::fresh(),
        }
    }

    /// The service in use.
    pub fn active_source_kind(&self) -> (r: SourceKind)
        ensures
            r == self@.sources.active,
    {
        self.sources.active
    }

    /// Puts another service in use: its profile gives address and identity.
    pub fn switch_source(&mut self, kind: SourceKind)
        ensures
            final(self)@ == old(self)@.switched(kind),
    {
        proof {
            reveal(Config::switched);
        }
        let profile = self.sources.profile(kind).clone();
        self.sources.active = kind;
        self.api_base = profile.api_base;
        self.cookie = profile.cookie;
        self.dfid = profile.device_id;
    }

    /// Stores the identity in the profile of the service in use, so that it is
    /// there when one switches back.
    pub fn sync_active_source(&mut self)
        ensures
            final(self)@ == old(self)@.synced(),
    {
        proof {
            reveal(Config::synced);
        }
        let kind = self.sources.active;
        let mut profile = self.sources.profile(kind).clone();
        profile.cookie = copy_opt(&self.cookie);
        profile.device_id = copy_opt(&self.dfid);
        self.sources.set_profile(kind, profile);
    }

    /// Brings the settings within their bounds, given the home directory and the
    /// place for a cache.
    pub fn normalize_with(&mut self, home: Option<&str>, cache_root: &str)
        ensures
            final(self)@ == old(self)@.normal(opt_str(home), cache_root@),
    {
        fill_in(&mut self.sources.kugou, SourceKind::Kugou);
        fill_in(&mut self.sources.concept, SourceKind::KugouConcept);
        fill_in(&mut self.sources.netease, SourceKind::Netease);

        self.api_base = normalize_address(self.api_base.as_str());
        self.volume = sane_volume(self.volume);
        self.tick_ms = keep_between(self.tick_ms, 50, 5_000);
        self.page_size = keep_between(self.page_size as u64, 5, 200) as u32;
        self.lyric_offset_ms = clamp_offset(self.lyric_offset_ms);
        self.quality = normalize_quality(self.quality.as_str());
        self.cache_dir = normalize_cache_dir(self.cache_dir.as_str(), home, cache_root);
        self.cookie = given(&self.cookie);
    }

    /// Brings the settings within their bounds. Where the home directory and the
    /// cache stand, the environment says.
    pub fn normalize(&mut self, temp_dir: &str)
        ensures
            exists|home: Option<Seq<char>>, base: Option<Seq<char>>|
                final(self)@ == #[trigger] old(self)@.normal(home, own_dir(base, temp_dir@)),
            closes_cleanly(old(self)@.api_base) ==> final(self)@.settled(),
    {
        let home = home_dir();
        let base = cache_dir();
        let cache_root = own_dir_below(borrow(&base), temp_dir);
        self.normalize_with(borrow(&home), cache_root.as_str());
        assert(self@ == old(self)@.normal(opt(home), own_dir(opt(base), temp_dir@)));
        proof {
            if closes_cleanly(old(self)@.api_base) {
                lemma_settled(old(self)@, opt(home), own_dir(opt(base), temp_dir@));
            }
        }
    }

    /// The settings within their bounds.
    pub fn normalized(self, temp_dir: &str) -> (r: Self)
        ensures
            exists|home: Option<Seq<char>>, base: Option<Seq<char>>|
                r@ == #[trigger] self@.normal(home, own_dir(base, temp_dir@)),
            closes_cleanly(self@.api_base) ==> r@.settled(),
    {
        let mut config = self;
        config.normalize(temp_dir);
        config
    }

    /// Takes over what the command line asks for.
    pub fn override_with(&mut self, cli: &Cli)
        ensures
            final(self)@ == old(self)@.overridden(*cli),
    {
        self.api_base = pick(given(&cli.api_base), &self.api_base);
        self.cookie = pick_opt(given(&cli.cookie), &self.cookie);
        self.volume = cli.volume.unwrap_or(self.volume);
        self.cache_dir = pick(copy_opt(&cli.cache_dir), &self.cache_dir);
        self.cache_limit_mib = cli.cache_limit.unwrap_or(self.cache_limit_mib);
        self.tick_ms = cli.tick_ms.unwrap_or(self.tick_ms);
        self.page_size = cli.page_size.unwrap_or(self.page_size);
        self.proxy = pick_opt(given(&cli.proxy), &self.proxy);
        self.basic_color = self.basic_color || cli.basic_color;
        self.tray = self.tray && !cli.no_tray;
    }

    /// Takes over what the command line asks for, and brings the settings within
    /// their bounds.
    pub fn merge_cli(&mut self, cli: &Cli, temp_dir: &str)
        ensures
            exists|home: Option<Seq<char>>, base: Option<Seq<char>>|
                final(self)@ == #[trigger] old(self)@.overridden(*cli).normal(
                    home,
                    own_dir(base, temp_dir@),
                ),
            closes_cleanly(old(self)@.overridden(*cli).api_base) ==> final(self)@.settled(),
    {
        self.override_with(cli);
        self.normalize(temp_dir);
    }

    /// The cookie that requests carry.
    pub fn cookie_header(&self) -> (r: Option<String>)
        ensures
            opt(r) == self@.header(),
    {
        cookie_header_for(self.sources.active, borrow(&self.cookie), borrow(&self.dfid))
    }

    /// Whether the cookie holds a login.
    pub fn is_logged_in(&self) -> (r: bool)
        ensures
            r == self@.logged_in(),
    {
        match &self.cookie {
            Some(cookie) => {
                let cookie = cookie.as_str();
                (contains(cookie, "token=") && contains(cookie, "userid=")) || contains(
                    cookie,
                    "MUSIC_U=",
                )
            },
            None => false,
        }
    }

    /// Where the settings are stored.
    pub fn path() -> (r: String)
        ensures
            exists|base: Option<Seq<char>>|
                r@ == joined(#[trigger] own_dir(base, "."@), "config.toml"@),
    {
        let base = config_dir();
        let root = own_dir_below(borrow(&base), ".");
        assert(root@ == own_dir(opt(base), "."@));
        join(root.as_str(), "config.toml")
    }

    /// Where the log is written.
    pub fn log_path(temp_dir: &str) -> (r: String)
        ensures
            exists|base: Option<Seq<char>>|
                r@ == joined(#[trigger] own_dir(base, temp_dir@), "kugou-tui.log"@),
    {
        let root = default_cache_dir(temp_dir);
        join(root.as_str(), "kugou-tui.log")
    }
}

impl Default for Config<String> {
    fn default() -> (r: Self)
        ensures
            r@ == Config::fresh(r@.cache_dir),
            exists|base: Option<Seq<char>>| r@.cache_dir == #[trigger] own_dir(base, "/tmp"@),
    {
        Config::with_cache_dir(default_cache_dir("/tmp"))
    }
}

fn clone_keys(keys: &Vec<(String, String)>) -> (r: Vec<(String, String)>)
    ensures
        r@ == keys@,
{
    let mut out: Vec<(String, String)> = Vec::new();
    let mut i: usize = 0;
    while i < keys.len()
        invariant
            i <= keys@.len(),
            out@ == keys@.take(i as int),
        decreases keys@.len() - i,
    {
        let (action, key) = &keys[i];
        out.push((action.clone(), key.clone()));
        i = i + 1;
        assert(out@ =~= keys@.take(i as int));
    }
    assert(keys@.take(i as int) =~= keys@);
    out
}

impl Clone for Config<String> {
    fn clone(&self) -> (r: Self)
        ensures
            r@ == self@,
    {
        Config {
            api_base: self.api_base.clone(),
            cookie: copy_opt(&self.cookie),
            dfid: copy_opt(&self.dfid),
            volume: self.volume,
            audio_device: copy_opt(&self.audio_device),
            playback_mode: self.playback_mode,
            cache_dir: self.cache_dir.clone(),
            cache_limit_mib: self.cache_limit_mib,
            lyric_offset_ms: self.lyric_offset_ms,
            tick_ms: self.tick_ms,
            page_size: self.page_size,
            proxy: copy_opt(&self.proxy),
            quality: self.quality.clone(),
            basic_color: self.basic_color,
            download_dir: copy_opt(&self.download_dir),
            theme: self.theme.clone(),
            keymap: clone_keys(&self.keymap),
            qr_aspect: self.qr_aspect,
            lite_mode: self.lite_mode,
            cover_fill: self.cover_fill,
            tray: self.tray,
            sources: self.sources.clone(),
        }
    }
}

/// Settings that were brought within their bounds are within them.
pub proof fn normal_settings_are_in_bounds(
    config: ConfigView,
    home: Option<Seq<char>>,
    cache_root: Seq<char>,
)
    ensures
        ({
            let n = config.normal(home, cache_root);
            &&& 50 <= n.tick_ms <= 5_000
            &&& 5 <= n.page_size <= 200
            &&& -LYRIC_OFFSET_LIMIT <= n.lyric_offset_ms <= LYRIC_OFFSET_LIMIT
            &&& quality_place(n.quality, 0) is Some
            &&& n.api_base.len() > 0
            &&& occurs_at(n.api_base, "http://"@, 0) || occurs_at(n.api_base, "https://"@, 0)
            &&& n.cookie matches Some(c) ==> c.len() > 0
            &&& forall|kind: SourceKind| trimmed(#[trigger] n.sources.of(kind).api_base).len() > 0
        }),
{
    lemma_addresses_are_usual();
    lemma_default_quality();
    reveal_strlit("http://");
    reveal_strlit("https://");
    let n = config.normal(home, cache_root);
    let bare = drop_trailing(trimmed(config.api_base), Blank::Slash);
    if !(occurs_at(n.api_base, "http://"@, 0) || occurs_at(n.api_base, "https://"@, 0)) {
        assert(n.api_base.subrange(0, 7) =~= "http://"@);
    }
    assert(config.cookie matches Some(c) ==> n.cookie matches Some(t) ==> t.len() > 0);
    assert forall|kind: SourceKind| trimmed(#[trigger] n.sources.of(kind).api_base).len() > 0 by {
        lemma_addresses_are_usual();
    }
}

proof fn lemma_default_quality()
    ensures
        quality_place(DEFAULT_QUALITY@, 0) == Some(0usize),
        lower(trimmed(DEFAULT_QUALITY@)) == DEFAULT_QUALITY@,
{
    reveal_strlit("128");
    lemma_trimmed_already(DEFAULT_QUALITY@);
    assert(lower(DEFAULT_QUALITY@) =~= DEFAULT_QUALITY@);
}

proof fn lemma_addresses_are_usual()
    ensures
        forall|kind: SourceKind| trimmed(#[trigger] kind.address()).len() > 0,
        DEFAULT_API_BASE@.len() > 0,
        !is_white(DEFAULT_API_BASE@[0]),
        !is_white(DEFAULT_API_BASE@.last()),
        DEFAULT_API_BASE@.last() != '/',
        occurs_at(DEFAULT_API_BASE@, "http://"@, 0),
{
    reveal_strlit("http://127.0.0.1:3000");
    reveal_strlit("http://127.0.0.1:3001");
    reveal_strlit("http://127.0.0.1:3002");
    reveal_strlit("http://");
    assert forall|kind: SourceKind| trimmed(#[trigger] kind.address()).len() > 0 by {
        lemma_trimmed_already(kind.address());
    }
    assert(DEFAULT_API_BASE@.subrange(0, 7) =~= "http://"@);
}

proof fn lemma_usual_address_twice(address: Seq<char>)
    requires
        closes_cleanly(address),
    ensures
        usual_address(usual_address(address)) == usual_address(address),
{
    lemma_addresses_are_usual();
    reveal_strlit("http://");
    lemma_trimmed_twice(address);
    let bare = drop_trailing(trimmed(address), Blank::Slash);
    lemma_dropped_ends(trimmed(address), Blank::Slash);
    if bare.len() > 0 {
        assert(bare[0] == trimmed(address)[0]);
    }
    let usual = usual_address(address);
    assert(usual.len() > 0 && !is_white(usual[0]) && !is_white(usual.last()) && usual.last()
        != '/');
    lemma_trimmed_already(usual);
    assert(drop_trailing(usual, Blank::Slash) == usual);
    if !(occurs_at(usual, "http://"@, 0) || occurs_at(usual, "https://"@, 0)) {
        assert(usual.subrange(0, 7) =~= "http://"@);
    }
}

/// Whether no blank stands right before the slashes at the end of the address.
pub open spec fn closes_cleanly(address: Seq<char>) -> bool {
    let bare = drop_trailing(trimmed(address), Blank::Slash);
    bare.len() > 0 ==> !is_white(bare.last())
}

/// Whether a path begins with `~`.
pub open spec fn at_home(path: Seq<char>) -> bool {
    path.len() > 0 && path[0] == '~'
}

/// Settings that were brought within their bounds stay as they are however often that
/// is done, and wherever the home directory and the place for a cache are by then, as
/// long as the first time gave the cache a place that needs neither.
pub proof fn normal_settings_stay(
    config: ConfigView,
    home: Option<Seq<char>>,
    cache_root: Seq<char>,
    later_home: Option<Seq<char>>,
    later_root: Seq<char>,
)
    requires
        closes_cleanly(config.api_base),
        config.normal(home, cache_root).cache_dir.len() > 0,
        !at_home(config.normal(home, cache_root).cache_dir),
    ensures
        config.normal(home, cache_root).normal(later_home, later_root) == config.normal(
            home,
            cache_root,
        ),
{
    let n = config.normal(home, cache_root);
    lemma_usual_address_twice(config.api_base);
    match config.cookie {
        Some(c) => {
            lemma_trimmed_twice(c);
        },
        None => {},
    }
    lemma_default_quality();
    lemma_lower_twice(trimmed(config.quality));
    lemma_lower_twice(config.quality);
    lemma_addresses_are_usual();
    crate::audio::volume::sane_volumes_are_in_bounds(config.volume);
    assert(n.normal(later_home, later_root) =~= n);
}

proof fn lemma_settled(config: ConfigView, home: Option<Seq<char>>, cache_root: Seq<char>)
    requires
        closes_cleanly(config.api_base),
    ensures
        config.normal(home, cache_root).settled(),
{
    let n = config.normal(home, cache_root);
    if n.cache_dir.len() > 0 && !at_home(n.cache_dir) {
        assert forall|later_home: Option<Seq<char>>, later_root: Seq<char>|
            #[trigger] n.normal(later_home, later_root) == n by {
            normal_settings_stay(config, home, cache_root, later_home, later_root);
        }
    }
}

/// Bringing settings within their bounds twice changes no more than once, where
/// no blank stands before the slashes at the end of the address. What a `~` stands for,
/// and the place that an unset cache gets, must not need the same again.
pub proof fn normalizing_settles(
    config: ConfigView,
    home: Option<Seq<char>>,
    cache_root: Seq<char>,
)
    requires
        closes_cleanly(config.api_base),
        at_home(config.cache_dir) ==> (home matches Some(h) ==> h.len() > 0 && !at_home(h)),
        config.cache_dir.len() == 0 ==> !at_home(cache_root),
    ensures
        config.normal(home, cache_root).normal(home, cache_root) == config.normal(
            home,
            cache_root,
        ),
{
    lemma_usual_address_twice(config.api_base);
    match config.cookie {
        Some(c) => {
            lemma_trimmed_twice(c);
        },
        None => {},
    }
    lemma_default_quality();
    lemma_lower_twice(trimmed(config.quality));
    lemma_lower_twice(config.quality);
    lemma_addresses_are_usual();
    crate::audio::volume::sane_volumes_are_in_bounds(config.volume);
    let n = config.normal(home, cache_root);
    lemma_home_stays_out(config.cache_dir, home);
    assert(n.normal(home, cache_root) =~= n);
}

proof fn lemma_home_stays_out(path: Seq<char>, home: Option<Seq<char>>)
    requires
        at_home(path) ==> (home matches Some(h) ==> h.len() > 0 && !at_home(h)),
    ensures
        home_expanded(home_expanded(path, home), home) == home_expanded(path, home),
        path.len() > 0 ==> home_expanded(path, home).len() > 0,
        home is Some ==> !at_home(home_expanded(path, home)),
{
    match home {
        Some(h) => {
            if at_home(path) {
                let rest = drop_leading(path.drop_first(), Blank::Slash);
                lemma_dropped_ends(path.drop_first(), Blank::Slash);
                assert(joined(h, rest)[0] == h[0]);
            }
        },
        None => {},
    }
}

/// Identity survives a restart: what was logged in when the settings were saved
/// is logged in after they were loaded and the service in use was switched to.
pub proof fn login_survives_a_restart(
    config: ConfigView,
    home: Option<Seq<char>>,
    cache_root: Seq<char>,
)
    ensures
        ({
            let restarted = config.synced().normal(home, cache_root).switched(
                config.sources.active,
            );
            &&& restarted.cookie == config.cookie
            &&& restarted.dfid == config.dfid
            &&& restarted.logged_in() == config.logged_in()
            &&& restarted.sources.active == config.sources.active
        }),
{
    reveal(Config::synced);
    reveal(Config::switched);
}

/// Storing the identity touches the profile of the service in use alone, and
/// there neither the address nor the place in the list.
pub proof fn syncing_touches_one_identity(config: ConfigView, kind: SourceKind)
    ensures
        config.synced().sources.of(config.sources.active).cookie == config.cookie,
        config.synced().sources.of(config.sources.active).device_id == config.dfid,
        config.synced().sources.of(kind).api_base == config.sources.of(kind).api_base,
        config.synced().sources.of(kind).priority == config.sources.of(kind).priority,
        kind != config.sources.active ==> config.synced().sources.of(kind)
            == config.sources.of(kind),
        config.synced().synced() == config.synced(),
{
    reveal(Config::synced);
}

/// Switching to another service and back brings the identity back.
pub proof fn switching_back_restores_the_identity(config: ConfigView, kind: SourceKind)
    ensures
        ({
            let back = config.synced().switched(kind).synced().switched(config.sources.active);
            &&& back.cookie == config.cookie
            &&& back.dfid == config.dfid
            &&& back.sources.active == config.sources.active
        }),
{
    reveal(Config::synced);
    reveal(Config::switched);
}

/// Settings that the command line does not mention stay.
pub proof fn silent_command_line_changes_nothing(config: ConfigView, cli: Cli)
    requires
        cli.api_base is None && cli.cookie is None && cli.volume is None && cli.cache_dir is None,
        cli.cache_limit is None && cli.tick_ms is None && cli.page_size is None,
        cli.proxy is None && !cli.basic_color && !cli.no_tray,
    ensures
        config.overridden(cli) == config,
{
}

/// What the command line gives is used; what it leaves out stays as it was set.
pub proof fn the_command_line_wins(config: ConfigView, cli: Cli)
    ensures
        ({
            let next = config.overridden(cli);
            &&& cli.api_base matches Some(text) ==> trimmed(text@).len() > 0 ==> next.api_base
                == trimmed(text@)
            &&& cli.api_base is None ==> next.api_base == config.api_base
            &&& cli.cookie matches Some(text) ==> trimmed(text@).len() > 0 ==> next.cookie
                == Some(trimmed(text@))
            &&& cli.cookie is None ==> next.cookie == config.cookie
            &&& cli.volume matches Some(volume) ==> next.volume == volume
            &&& cli.volume is None ==> next.volume == config.volume
            &&& cli.cache_dir matches Some(text) ==> next.cache_dir == text@
            &&& cli.cache_dir is None ==> next.cache_dir == config.cache_dir
            &&& cli.cache_limit matches Some(limit) ==> next.cache_limit_mib == limit
            &&& cli.cache_limit is None ==> next.cache_limit_mib == config.cache_limit_mib
            &&& cli.tick_ms matches Some(ms) ==> next.tick_ms == ms
            &&& cli.tick_ms is None ==> next.tick_ms == config.tick_ms
            &&& cli.page_size matches Some(size) ==> next.page_size == size
            &&& cli.page_size is None ==> next.page_size == config.page_size
            &&& cli.proxy matches Some(text) ==> trimmed(text@).len() > 0 ==> next.proxy == Some(
                trimmed(text@),
            )
            &&& cli.proxy is None ==> next.proxy == config.proxy
            &&& next.basic_color == (config.basic_color || cli.basic_color)
            &&& next.tray == (config.tray && !cli.no_tray)
            &&& next.quality == config.quality
            &&& next.sources == config.sources
            &&& next.keymap == config.keymap
        }),
{
}

/// Values within their bounds stay as they are; others come to the nearest bound, and an
/// unknown quality becomes the usual one.
pub proof fn sound_settings_are_kept(
    config: ConfigView,
    home: Option<Seq<char>>,
    cache_root: Seq<char>,
)
    ensures
        ({
            let n = config.normal(home, cache_root);
            &&& 50 <= config.tick_ms <= 5_000 ==> n.tick_ms == config.tick_ms
            &&& config.tick_ms < 50 ==> n.tick_ms == 50
            &&& config.tick_ms > 5_000 ==> n.tick_ms == 5_000
            &&& 5 <= config.page_size <= 200 ==> n.page_size == config.page_size
            &&& config.page_size < 5 ==> n.page_size == 5
            &&& config.page_size > 200 ==> n.page_size == 200
            &&& -10_000 <= config.lyric_offset_ms <= 10_000 ==> n.lyric_offset_ms
                == config.lyric_offset_ms
            &&& config.lyric_offset_ms > 10_000 ==> n.lyric_offset_ms == 10_000
            &&& config.lyric_offset_ms < -10_000 ==> n.lyric_offset_ms == -10_000
            &&& quality_place(lower(trimmed(config.quality)), 0) is Some ==> n.quality == lower(
                trimmed(config.quality),
            )
            &&& quality_place(lower(trimmed(config.quality)), 0) is None ==> n.quality == "128"@
            &&& config.cookie matches Some(c) ==> trimmed(c).len() > 0 ==> n.cookie == Some(
                trimmed(c),
            )
            &&& config.cookie matches Some(c) ==> trimmed(c).len() == 0 ==> n.cookie is None
            &&& config.cookie is None ==> n.cookie is None
            &&& n.dfid == config.dfid
            &&& n.playback_mode == config.playback_mode
            &&& n.cache_limit_mib == config.cache_limit_mib
            &&& n.proxy == config.proxy
            &&& n.theme == config.theme
            &&& n.keymap == config.keymap
            &&& n.lite_mode == config.lite_mode
            &&& n.tray == config.tray
            &&& n.download_dir == config.download_dir
            &&& n.sources.active == config.sources.active
        }),
{
}

/// The place of the cache is the one that is set, with the home directory for a `~`; one
/// that is not set is the usual one.
pub proof fn caches_stand_where_they_are_set(
    set: Seq<char>,
    home: Seq<char>,
    rest: Seq<char>,
    cache_root: Seq<char>,
)
    requires
        rest.len() > 0,
        rest[0] != '/',
        home.len() > 0,
        home.last() != '/',
    ensures
        set.len() > 0 && set[0] != '~' ==> cache_place(set, Some(home), cache_root) == set,
        cache_place(Seq::empty(), Some(home), cache_root) == cache_root,
        home_expanded("~/"@ + rest, Some(home)) == home + seq!['/'] + rest,
        home_expanded("~/"@ + rest, None) == "~/"@ + rest,
{
    reveal_strlit("~/");
    let path = "~/"@ + rest;
    assert(path.drop_first() =~= seq!['/'] + rest);
    assert(drop_leading(seq!['/'] + rest, Blank::Slash) == rest) by {
        assert((seq!['/'] + rest).drop_first() =~= rest);
        reveal_with_fuel(drop_leading, 3);
    }
    crate::text::paths_are_joined(home, rest);
}

/// An address gets a protocol where it has none, and loses the slash at its end; one in its
/// usual form stays as it is.
pub proof fn addresses_get_their_usual_form(host: Seq<char>)
    requires
        host.len() > 0,
        !is_white(host[0]),
        !is_white(host.last()),
        host.last() != '/',
    ensures
        !occurs_at(host, "http://"@, 0) && !occurs_at(host, "https://"@, 0) ==> usual_address(host)
            == "http://"@ + host,
        occurs_at(host, "http://"@, 0) || occurs_at(host, "https://"@, 0) ==> usual_address(host)
            == host,
        usual_address(host.push('/')) == usual_address(host),
{
    lemma_trimmed_already(host);
    let slashed = host.push('/');
    assert(!is_white('/'));
    lemma_trimmed_already(slashed);
    assert(slashed.drop_last() =~= host);
    assert(drop_trailing(host, Blank::Slash) == host);
    assert(drop_trailing(slashed, Blank::Slash) == drop_trailing(host, Blank::Slash));
}

/// One is logged in with a token and an account, or with the cookie of the other service.
pub proof fn logins_are_seen(config: ConfigView)
    ensures
        config.cookie is None ==> !config.logged_in(),
        config.cookie matches Some(c) ==> (has_text(c, "token="@) && has_text(c, "userid="@)
            ==> config.logged_in()),
        config.cookie matches Some(c) ==> (has_text(c, "MUSIC_U="@) ==> config.logged_in()),
        config.cookie matches Some(c) ==> (!has_text(c, "MUSIC_U="@) && !has_text(c, "userid="@)
            ==> !config.logged_in()),
{
}

/// A service that is switched to is used with its own address and identity, and the
/// profiles stay what they are; storing the identity puts it into the profile in use.
pub proof fn profiles_hold_identities(config: ConfigView, kind: SourceKind, other: SourceKind)
    ensures
        config.switched(kind).sources.active == kind,
        config.switched(kind).api_base == config.sources.of(kind).api_base,
        config.switched(kind).cookie == config.sources.of(kind).cookie,
        config.switched(kind).dfid == config.sources.of(kind).device_id,
        config.switched(kind).sources.of(other) == config.sources.of(other),
        config.switched(kind).quality == config.quality,
        config.synced().cookie == config.cookie,
        config.synced().api_base == config.api_base,
        config.synced().sources.active == config.sources.active,
{
    reveal(Config::switched);
    reveal(Config::synced);
}

/// A fresh installation uses the first service at its usual address, without a login, plays
/// in order in the usual quality, and keeps half a gibibyte.
pub proof fn fresh_settings(cache_dir: Seq<char>)
    ensures
        ({
            let config = Config::fresh(cache_dir);
            &&& config.sources.active == SourceKind::Kugou
            &&& config.api_base == config.sources.of(SourceKind::Kugou).api_base
            &&& config.cookie is None
            &&& config.playback_mode == PlaybackMode::Sequential
            &&& config.quality == "128"@
            &&& config.cache_limit_mib == 512
            &&& config.cache_dir == cache_dir
            &&& config.tick_ms == 200
            &&& config.page_size == 30
            &&& config.lyric_offset_ms == 0
            &&& config.tray
            &&& !config.lite_mode
            &&& !config.basic_color
        }),
{
}

} // verus!
