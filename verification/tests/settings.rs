use kugou_tui::app::frame::{frame_delay, ANIMATED_TICK_MS, LITE_TICK_MS};
use kugou_tui::app::queue::PlaybackMode;
use kugou_tui::config::{
    default_cache_dir, expand_tilde, expand_tilde_with, find_quality, normalize_address,
    supported_quality, Cli, Config, CoverFill, QUALITIES,
};
use kugou_tui::cookie::tidy_cookie;
use kugou_tui::source::{cookie_header_for, SourceKind};

fn config(tick_ms: u64, lite_mode: bool) -> Config {
    Config {
        tick_ms,
        lite_mode,
        ..Config::default()
    }
}

fn silent_cli() -> Cli {
    Cli {
        api_base: None,
        cookie: None,
        volume: None,
        cache_dir: None,
        cache_limit: None,
        tick_ms: None,
        page_size: None,
        proxy: None,
        basic_color: false,
        no_tray: false,
    }
}

#[test]
fn idle_keeps_the_configured_interval() {
    assert_eq!(frame_delay(&config(200, false), false, false), 200);
    assert_eq!(frame_delay(&config(500, false), false, false), 500);
}

#[test]
fn animating_raises_the_rate_to_thirty_fps() {
    let cfg = config(200, false);
    assert_eq!(frame_delay(&cfg, true, false), ANIMATED_TICK_MS);
    assert_eq!(frame_delay(&cfg, false, true), ANIMATED_TICK_MS);
    assert_eq!(frame_delay(&cfg, true, true), ANIMATED_TICK_MS);
}

#[test]
fn animating_never_slows_a_faster_configured_tick() {
    assert_eq!(frame_delay(&config(16, false), true, false), 16);
    assert_eq!(frame_delay(&config(16, false), false, true), 16);
}

#[test]
fn lite_mode_ignores_every_animation() {
    let cfg = config(50, true);
    assert_eq!(frame_delay(&cfg, true, true), LITE_TICK_MS);
    assert_eq!(frame_delay(&cfg, false, false), LITE_TICK_MS);
    assert_eq!(frame_delay(&config(1000, true), true, true), 1000);
}

#[test]
fn normalizes_api_base_and_volume() {
    let mut config = Config {
        api_base: "127.0.0.1:3000/".to_string(),
        volume: 9.0f32.to_bits(),
        ..Config::default()
    };
    config = config.normalized("/tmp");
    assert_eq!(config.api_base, "http://127.0.0.1:3000");
    assert!((f32::from_bits(config.volume) - 1.0).abs() < f32::EPSILON);
}

#[test]
fn login_survives_restart() {
    let mut config = Config::default();
    config.sources.active = SourceKind::KugouConcept;
    config.switch_source(SourceKind::KugouConcept);
    config.cookie = Some("token=abc; userid=42".to_string());
    config.dfid = Some("df-xyz".to_string());
    // What is saved is synced first.
    config.sync_active_source();

    let mut restarted = config.clone().normalized("/tmp");
    let active = restarted.active_source_kind();
    restarted.switch_source(active);

    assert_eq!(
        restarted.cookie.as_deref(),
        Some("token=abc; userid=42"),
        "重启后登录态丢失"
    );
    assert_eq!(restarted.dfid.as_deref(), Some("df-xyz"), "重启后 dfid 丢失");
    assert!(restarted.is_logged_in());
}

#[test]
fn sync_active_source_writes_identity_into_profile() {
    let mut config = Config {
        cookie: Some("token=t; userid=1".to_string()),
        dfid: Some("df-1".to_string()),
        ..Config::default()
    };
    config.sources.active = SourceKind::KugouConcept;

    config.sync_active_source();

    let profile = config.sources.profile(SourceKind::KugouConcept);
    assert_eq!(profile.cookie.as_deref(), Some("token=t; userid=1"));
    assert_eq!(profile.device_id.as_deref(), Some("df-1"));
    assert!(config.sources.profile(SourceKind::Kugou).cookie.is_none());
}

#[test]
fn sync_active_source_keeps_profile_address() {
    let mut config = Config {
        api_base: "http://127.0.0.1:9999".to_string(),
        ..Config::default()
    };
    config.sources.active = SourceKind::Kugou;
    config.sync_active_source();
    assert_eq!(
        config.sources.profile(SourceKind::Kugou).api_base,
        "http://127.0.0.1:3000"
    );
}

#[test]
fn appends_dfid_only_when_absent() {
    let mut config = Config {
        cookie: Some("token=t; userid=1".to_string()),
        dfid: Some("abc".to_string()),
        ..Config::default()
    };
    assert_eq!(
        config.cookie_header().as_deref(),
        Some("token=t; userid=1; dfid=abc")
    );

    config.cookie = Some("token=t; userid=1; dfid=keep".to_string());
    assert_eq!(
        config.cookie_header().as_deref(),
        Some("token=t; userid=1; dfid=keep")
    );
}

#[test]
fn addresses_take_their_usual_form() {
    assert_eq!(normalize_address("127.0.0.1:3000/"), "http://127.0.0.1:3000");
    assert_eq!(normalize_address(" https://x.y/ "), "https://x.y");
    assert_eq!(normalize_address("http://x///"), "http://x");
}

#[test]
fn settings_are_kept_within_bounds() {
    let mut config = Config {
        tick_ms: 1,
        page_size: 0,
        lyric_offset_ms: 99_999,
        quality: "no such quality".to_string(),
        ..Config::default()
    };
    config.normalize_with(Some("/home/u"), "/var/cache");
    let settled = config.clone();
    assert_eq!(config.lyric_offset_ms, 10_000);
    assert!(config.tick_ms > 1);
    assert!(config.page_size > 0);
    assert_eq!(config.quality, "128");
    config.normalize_with(Some("/home/u"), "/var/cache");
    assert_eq!(config.tick_ms, settled.tick_ms);
    assert_eq!(config.page_size, settled.page_size);
    assert_eq!(config.cache_dir, settled.cache_dir);
    // Settled settings need neither the home directory nor a place for the cache.
    config.normalize_with(Some("/elsewhere"), "/another/cache");
    assert_eq!(config.cache_dir, settled.cache_dir);
    assert_eq!(config.api_base, settled.api_base);
}

#[test]
fn bringing_settings_within_their_bounds_twice_changes_nothing_more() {
    let config = Config {
        api_base: " music.example:3000// ".to_string(),
        cookie: Some(" token=a ".to_string()),
        quality: " FLAC ".to_string(),
        cache_dir: "~/cache".to_string(),
        ..Config::default()
    };
    let once = config.normalized("/tmp");
    let twice = once.clone().normalized("/tmp");
    assert_eq!(once.api_base, "http://music.example:3000");
    assert_eq!(once.quality, "flac");
    assert_eq!(once.cookie.as_deref(), Some("token=a"));
    assert_eq!(twice.api_base, once.api_base);
    assert_eq!(twice.quality, once.quality);
    assert_eq!(twice.cookie, once.cookie);
    assert_eq!(twice.cache_dir, once.cache_dir);
}

#[test]
fn keys_of_the_user_are_kept() {
    let mut config = Config::default();
    assert!(config.keymap.is_empty());
    config.keymap.push(("quit".to_string(), "Q".to_string()));
    config.keymap.push(("open_sources".to_string(), "s".to_string()));
    let mut kept = config.clone().normalized("/tmp");
    kept.switch_source(SourceKind::Netease);
    kept.override_with(&silent_cli());
    assert_eq!(kept.keymap, config.keymap);
    assert_eq!(kept.keymap[1], ("open_sources".to_string(), "s".to_string()));
}

#[test]
fn the_home_directory_stands_for_a_tilde() {
    assert_eq!(expand_tilde_with("~/x", Some("/home/u")), "/home/u/x");
    assert_eq!(expand_tilde_with("~", Some("/home/u")), "/home/u/");
    assert_eq!(expand_tilde_with("~/x", None), "~/x");
    assert_eq!(expand_tilde_with("/a/~", Some("/home/u")), "/a/~");
    assert_eq!(expand_tilde("/plain/path"), "/plain/path");
    assert_ne!(expand_tilde("~/x"), "");
}

#[test]
fn directories_of_the_program_carry_its_name() {
    assert!(default_cache_dir("/tmp").ends_with("kugou-tui"));
    assert!(Config::path().ends_with("kugou-tui/config.toml"));
    assert!(Config::log_path("/tmp").contains("kugou-tui"));
}

#[test]
fn the_command_line_overrides_the_settings() {
    let mut config = Config::default();
    let before = config.clone();
    config.override_with(&silent_cli());
    assert_eq!(config.api_base, before.api_base);
    assert_eq!(config.quality, before.quality);
    assert_eq!(config.volume, before.volume);

    let cli = Cli {
        api_base: Some("127.0.0.1:9000".to_string()),
        tick_ms: Some(100),
        no_tray: true,
        ..silent_cli()
    };
    config.merge_cli(&cli, "/tmp");
    assert_eq!(config.api_base, "http://127.0.0.1:9000");
    assert_eq!(config.tick_ms, 100);
    assert!(!config.tray);
}

#[test]
fn qualities_have_their_places() {
    assert_eq!(find_quality("nothing"), None);
    for place in 0..QUALITIES {
        assert_eq!(find_quality(supported_quality(place)), Some(place));
    }
}

#[test]
fn switching_back_restores_the_login() {
    let mut config = Config::default();
    config.cookie = Some("token=a; userid=1".to_string());
    config.sync_active_source();
    let first = config.active_source_kind();
    config.switch_source(SourceKind::Netease);
    assert_eq!(config.cookie, None);
    config.sync_active_source();
    config.switch_source(first);
    assert_eq!(config.cookie.as_deref(), Some("token=a; userid=1"));
}

#[test]
fn labels_of_the_choices() {
    assert_eq!(CoverFill::Crop.label(), "居中裁剪");
    assert_eq!(CoverFill::Stretch.label(), "拉伸铺满");
    assert_eq!(CoverFill::Fit.label(), "完整显示");
    assert_eq!(PlaybackMode::Shuffle.label(), "随机");
    assert_eq!(SourceKind::Netease.label(), "网易云");
}

#[test]
fn cookies_are_tidied() {
    let raw = "MUSIC_R_T=1; Max-Age=2147483647; Expires=Mon, 01 Jan 2035 00:00:00 GMT; Path=/;\
               ;MUSIC_U=abc=; HttpOnly; __csrf=x;  ";
    assert_eq!(tidy_cookie(raw), "MUSIC_R_T=1; MUSIC_U=abc=; __csrf=x");
    assert_eq!(tidy_cookie(&tidy_cookie(raw)), tidy_cookie(raw));
    assert_eq!(tidy_cookie(""), "");
    assert_eq!(tidy_cookie("token=t; userid=1"), "token=t; userid=1");
    assert_eq!(
        cookie_header_for(SourceKind::Netease, Some(raw), Some("df")).as_deref(),
        Some("MUSIC_R_T=1; MUSIC_U=abc=; __csrf=x")
    );
    assert_eq!(
        cookie_header_for(SourceKind::Kugou, None, Some("df")).as_deref(),
        Some("dfid=df")
    );
    assert_eq!(cookie_header_for(SourceKind::Netease, None, Some("df")), None);
}
