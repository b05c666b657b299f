//! The settings as the program reads and changes them.

use vstd::prelude::*;
use crate::app::queue::PlaybackMode;
use crate::config::{Config, ConfigView, CoverFill};
use crate::source::{copy_opt, header_for, SourceKind, SourceProfile};
use crate::text::opt;

verus! {

/// The view of the settings, folded: what is said of the whole program need not
/// look inside.
#[verifier::opaque]
pub open spec fn config_view(config: Config<String>) -> ConfigView {
    config@
}

pub fn lite_mode(config: &Config<String>) -> (r: bool)
    ensures
        r == config_view(*config).lite_mode,
{
    proof {
        reveal(config_view);
    }
    config.lite_mode
}

pub fn basic_color(config: &Config<String>) -> (r: bool)
    ensures
        r == config_view(*config).basic_color,
{
    proof {
        reveal(config_view);
    }
    config.basic_color
}

pub fn page_size(config: &Config<String>) -> (r: u32)
    ensures
        r == config_view(*config).page_size,
{
    proof {
        reveal(config_view);
    }
    config.page_size
}

pub fn tick_ms(config: &Config<String>) -> (r: u64)
    ensures
        r == config_view(*config).tick_ms,
{
    proof {
        reveal(config_view);
    }
    config.tick_ms
}

pub fn cache_limit_mib(config: &Config<String>) -> (r: u64)
    ensures
        r == config_view(*config).cache_limit_mib,
{
    proof {
        reveal(config_view);
    }
    config.cache_limit_mib
}

pub fn lyric_offset_ms(config: &Config<String>) -> (r: i64)
    ensures
        r == config_view(*config).lyric_offset_ms,
{
    proof {
        reveal(config_view);
    }
    config.lyric_offset_ms
}

pub fn playback_mode(config: &Config<String>) -> (r: PlaybackMode)
    ensures
        r == config_view(*config).playback_mode,
{
    proof {
        reveal(config_view);
    }
    config.playback_mode
}

pub fn cover_fill(config: &Config<String>) -> (r: CoverFill)
    ensures
        r == config_view(*config).cover_fill,
{
    proof {
        reveal(config_view);
    }
    config.cover_fill
}

pub fn volume(config: &Config<String>) -> (r: u32)
    ensures
        r == config_view(*config).volume,
{
    proof {
        reveal(config_view);
    }
    config.volume
}

pub fn tray(config: &Config<String>) -> (r: bool)
    ensures
        r == config_view(*config).tray,
{
    proof {
        reveal(config_view);
    }
    config.tray
}

pub fn quality(config: &Config<String>) -> (r: String)
    ensures
        r@ == config_view(*config).quality,
{
    proof {
        reveal(config_view);
    }
    config.quality.clone()
}

pub fn api_base(config: &Config<String>) -> (r: String)
    ensures
        r@ == config_view(*config).api_base,
{
    proof {
        reveal(config_view);
    }
    config.api_base.clone()
}

pub fn theme(config: &Config<String>) -> (r: String)
    ensures
        r@ == config_view(*config).theme,
{
    proof {
        reveal(config_view);
    }
    config.theme.clone()
}

pub fn cache_dir(config: &Config<String>) -> (r: String)
    ensures
        r@ == config_view(*config).cache_dir,
{
    proof {
        reveal(config_view);
    }
    config.cache_dir.clone()
}

pub fn cookie(config: &Config<String>) -> (r: Option<String>)
    ensures
        opt(r) == config_view(*config).cookie,
{
    proof {
        reveal(config_view);
    }
    copy_opt(&config.cookie)
}

pub fn dfid(config: &Config<String>) -> (r: Option<String>)
    ensures
        opt(r) == config_view(*config).dfid,
{
    proof {
        reveal(config_view);
    }
    copy_opt(&config.dfid)
}

pub fn download_dir(config: &Config<String>) -> (r: Option<String>)
    ensures
        opt(r) == config_view(*config).download_dir,
{
    proof {
        reveal(config_view);
    }
    copy_opt(&config.download_dir)
}

pub fn audio_device(config: &Config<String>) -> (r: Option<String>)
    ensures
        opt(r) == config_view(*config).audio_device,
{
    proof {
        reveal(config_view);
    }
    copy_opt(&config.audio_device)
}

pub fn proxy(config: &Config<String>) -> (r: Option<String>)
    ensures
        opt(r) == config_view(*config).proxy,
{
    proof {
        reveal(config_view);
    }
    copy_opt(&config.proxy)
}

pub fn set_lite_mode(config: &mut Config<String>, lite_mode: bool)
    ensures
        config_view(*final(config)) == (Config { lite_mode, ..config_view(*old(config)) }),
{
    proof {
        reveal(config_view);
    }
    config.lite_mode = lite_mode;
}

pub fn set_basic_color(config: &mut Config<String>, basic_color: bool)
    ensures
        config_view(*final(config)) == (Config { basic_color, ..config_view(*old(config)) }),
{
    proof {
        reveal(config_view);
    }
    config.basic_color = basic_color;
}

pub fn set_page_size(config: &mut Config<String>, page_size: u32)
    ensures
        config_view(*final(config)) == (Config { page_size, ..config_view(*old(config)) }),
{
    proof {
        reveal(config_view);
    }
    config.page_size = page_size;
}

pub fn set_tick_ms(config: &mut Config<String>, tick_ms: u64)
    ensures
        config_view(*final(config)) == (Config { tick_ms, ..config_view(*old(config)) }),
{
    proof {
        reveal(config_view);
    }
    config.tick_ms = tick_ms;
}

pub fn set_cache_limit_mib(config: &mut Config<String>, cache_limit_mib: u64)
    ensures
        config_view(*final(config)) == (Config { cache_limit_mib, ..config_view(*old(config)) }),
{
    proof {
        reveal(config_view);
    }
    config.cache_limit_mib = cache_limit_mib;
}

pub fn set_lyric_offset_ms(config: &mut Config<String>, lyric_offset_ms: i64)
    ensures
        config_view(*final(config)) == (Config { lyric_offset_ms, ..config_view(*old(config)) }),
{
    proof {
        reveal(config_view);
    }
    config.lyric_offset_ms = lyric_offset_ms;
}

pub fn set_playback_mode(config: &mut Config<String>, playback_mode: PlaybackMode)
    ensures
        config_view(*final(config)) == (Config { playback_mode, ..config_view(*old(config)) }),
{
    proof {
        reveal(config_view);
    }
    config.playback_mode = playback_mode;
}

pub fn set_cover_fill(config: &mut Config<String>, cover_fill: CoverFill)
    ensures
        config_view(*final(config)) == (Config { cover_fill, ..config_view(*old(config)) }),
{
    proof {
        reveal(config_view);
    }
    config.cover_fill = cover_fill;
}

pub fn set_volume(config: &mut Config<String>, volume: u32)
    ensures
        config_view(*final(config)) == (Config { volume, ..config_view(*old(config)) }),
{
    proof {
        reveal(config_view);
    }
    config.volume = volume;
}

pub fn set_quality(config: &mut Config<String>, quality: String)
    ensures
        config_view(*final(config)) == (Config { quality: quality@, ..config_view(*old(config)) }),
{
    proof {
        reveal(config_view);
    }
    config.quality = quality;
}

pub fn set_theme(config: &mut Config<String>, theme: String)
    ensures
        config_view(*final(config)) == (Config { theme: theme@, ..config_view(*old(config)) }),
{
    proof {
        reveal(config_view);
    }
    config.theme = theme;
}

pub fn set_cache_dir(config: &mut Config<String>, cache_dir: String)
    ensures
        config_view(*final(config)) == (Config {
            cache_dir: cache_dir@,
            ..config_view(*old(config))
        }),
{
    proof {
        reveal(config_view);
    }
    config.cache_dir = cache_dir;
}

pub fn set_api_base(config: &mut Config<String>, api_base: String)
    ensures
        config_view(*final(config)) == (Config {
            api_base: api_base@,
            ..config_view(*old(config))
        }),
{
    proof {
        reveal(config_view);
    }
    config.api_base = api_base;
}

pub fn set_cookie(config: &mut Config<String>, cookie: Option<String>)
    ensures
        config_view(*final(config)) == (Config {
            cookie: opt(cookie),
            ..config_view(*old(config))
        }),
{
    proof {
        reveal(config_view);
    }
    config.cookie = cookie;
}

pub fn set_dfid(config: &mut Config<String>, dfid: Option<String>)
    ensures
        config_view(*final(config)) == (Config { dfid: opt(dfid), ..config_view(*old(config)) }),
{
    proof {
        reveal(config_view);
    }
    config.dfid = dfid;
}

pub fn set_download_dir(config: &mut Config<String>, download_dir: Option<String>)
    ensures
        config_view(*final(config)) == (Config {
            download_dir: opt(download_dir),
            ..config_view(*old(config))
        }),
{
    proof {
        reveal(config_view);
    }
    config.download_dir = download_dir;
}

pub fn set_audio_device(config: &mut Config<String>, audio_device: Option<String>)
    ensures
        config_view(*final(config)) == (Config {
            audio_device: opt(audio_device),
            ..config_view(*old(config))
        }),
{
    proof {
        reveal(config_view);
    }
    config.audio_device = audio_device;
}

/// The service in use.
pub fn active(config: &Config<String>) -> (r: SourceKind)
    ensures
        r == config_view(*config).sources.active,
{
    proof {
        reveal(config_view);
    }
    config.sources.active
}

/// The address and the cookie of a service.
pub fn reach(config: &Config<String>, kind: SourceKind) -> (r: (String, Option<String>))
    ensures
        r.0@ == config_view(*config).sources.of(kind).api_base,
        opt(r.1) == header_for(
            kind,
            config_view(*config).sources.of(kind).cookie,
            config_view(*config).sources.of(kind).device_id,
        ),
{
    proof {
        reveal(config_view);
    }
    let profile = config.sources.profile(kind);
    (profile.api_base.clone(), profile.cookie_header(kind))
}

/// The cookie that requests carry.
pub fn header(config: &Config<String>) -> (r: Option<String>)
    ensures
        opt(r) == config_view(*config).header(),
{
    proof {
        reveal(config_view);
    }
    config.cookie_header()
}

/// Whether the cookie holds a login.
pub fn is_logged_in(config: &Config<String>) -> (r: bool)
    ensures
        r == config_view(*config).logged_in(),
{
    proof {
        reveal(config_view);
    }
    config.is_logged_in()
}

pub fn sync_active_source(config: &mut Config<String>)
    ensures
        config_view(*final(config)) == config_view(*old(config)).synced(),
{
    proof {
        reveal(config_view);
    }
    config.sync_active_source();
}

pub fn switch_source(config: &mut Config<String>, kind: SourceKind)
    ensures
        config_view(*final(config)) == config_view(*old(config)).switched(kind),
{
    proof {
        reveal(config_view);
    }
    config.switch_source(kind);
}

/// The services in order.
pub fn ordered(config: &Config<String>) -> (r: Vec<SourceKind>)
    ensures
        r@ == config_view(*config).sources.in_order(),
        r@.len() == 3,
{
    proof {
        reveal(config_view);
    }
    config.sources.ordered()
}

/// The first service in order that is enabled.
pub fn first_enabled(config: &Config<String>) -> (r: Option<SourceKind>)
    ensures
        r == config_view(*config).sources.first_enabled(),
{
    proof {
        reveal(config_view);
    }
    config.sources.first_enabled_source()
}

pub fn is_enabled(config: &Config<String>, kind: SourceKind) -> (r: bool)
    ensures
        r == config_view(*config).sources.of(kind).enabled,
{
    proof {
        reveal(config_view);
    }
    config.sources.profile(kind).enabled
}

/// With one service enabled or disabled.
pub open spec fn enabled_as(
    config: ConfigView,
    kind: SourceKind,
    enabled: bool,
) -> ConfigView {
    Config {
        sources: config.sources.with(
            kind,
            SourceProfile { enabled, ..config.sources.of(kind) },
        ),
        ..config
    }
}

pub fn set_enabled(config: &mut Config<String>, kind: SourceKind, enabled: bool)
    ensures
        config_view(*final(config)) == enabled_as(config_view(*old(config)), kind, enabled),
{
    proof {
        reveal(config_view);
    }
    let mut profile = config.sources.profile(kind).clone();
    profile.enabled = enabled;
    config.sources.set_profile(kind, profile);
}

/// Sets the priorities to tens in the order of `kinds`.
pub fn renumber(config: &mut Config<String>, kinds: &Vec<SourceKind>)
    requires
        kinds@.len() <= 3,
    ensures
        config_view(*final(config)) == (Config {
            sources: config_view(*old(config)).sources.renumbered(kinds@),
            ..config_view(*old(config))
        }),
{
    proof {
        reveal(config_view);
    }
    config.sources.renumber(kinds);
}

/// The address that the profile of the service in use holds.
pub fn own_address(config: &Config<String>) -> (r: String)
    ensures
        r@ == config_view(*config).sources.of(config_view(*config).sources.active).api_base,
{
    proof {
        reveal(config_view);
    }
    config.sources.profile(config.sources.active).api_base.clone()
}

} // verus!
