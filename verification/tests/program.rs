use kugou_tui::app::browse::{first_screen_page, needs_full_fetch};
use kugou_tui::app::effect::{AfterSave, Effect, Lookup, Setting};
use kugou_tui::app::frame::{image_protocol, ImageProtocol};
use kugou_tui::app::nav::{ConfirmAction, Connection, Focus, Tab};
use kugou_tui::app::panes::LoadState;
use kugou_tui::app::queue::{PlayQueue, PlaybackMode};
use kugou_tui::app::screen::Level;
use kugou_tui::app::session::Session;
use kugou_tui::app::state::{App, Clock, SettingOptions};
use kugou_tui::audio::cache::ClearReport;
use kugou_tui::audio::engine::{AudioEvent, PlaybackState};
use kugou_tui::config::Config;
use kugou_tui::error::AppError;
use kugou_tui::event::{
    Action, AudioSnapshot, Event, HitTarget, HitZone, KeyMode, Loaded, LoadingTarget, MouseInput,
    MouseKind, PlaylistSource, VipClaimOutcome,
};
use kugou_tui::model::{LyricLine, Playlist, Song, VipInfo};
use kugou_tui::source::SourceKind;

fn song(hash: &str) -> Song {
    Song {
        hash: hash.to_string(),
        name: format!("歌{hash}"),
        singers: "歌手".to_string(),
        album: None,
        cover: None,
        duration_ms: 200_000,
        source: SourceKind::Kugou,
        file_id: None,
        playable: true,
    }
}

fn options() -> SettingOptions {
    SettingOptions {
        themes: vec!["dark".to_string(), "light".to_string()],
        refresh_ms: vec![100, 200, 500],
        page_sizes: vec![20, 30, 50],
        cache_limits: vec![0, 512, 1024],
        download_dirs: vec!["~/Music".to_string(), "~/Downloads".to_string()],
    }
}

fn clock(now_ms: u64) -> Clock {
    Clock { now_ms, today: Some("2026-01-02".to_string()), random: 0 }
}

fn plain_config() -> Config {
    Config::with_cache_dir("/cache".to_string())
}

fn logged_in_config() -> Config {
    let mut config = plain_config();
    config.cookie = Some("token=a; userid=1".to_string());
    config
}

fn start(config: Config) -> App {
    let mut app = App::new(config, Vec::new(), options(), clock(1000), None, false);
    app.take_effects();
    app
}

fn playing(hash: &str) -> App {
    let mut app = start(plain_config());
    app.play_from(vec![song("a"), song("b"), song("c")], 0);
    if hash == "b" {
        app.next_track(true);
    }
    app.take_effects();
    app
}

fn status(app: &App) -> &str {
    app.state.screen.status.text.as_str()
}

fn loaded(app: &mut App, loaded: Loaded) -> Vec<Effect> {
    app.handle_event(Event::Loaded(Box::new(loaded)));
    app.take_effects()
}

fn key(app: &mut App, action: Action) -> Vec<Effect> {
    app.handle_event(Event::Action(action));
    app.take_effects()
}

fn snapshot(state: PlaybackState, position_ms: u64) -> AudioSnapshot {
    AudioSnapshot { state, position_ms, duration_ms: 0 }
}

fn failure(hint: &str, connectivity: bool, login_expired: bool) -> AppError {
    AppError {
        text: format!("full {hint}"),
        hint: hint.to_string(),
        api_message: None,
        login_expired,
        connectivity,
        page_out_of_range: false,
    }
}

#[test]
fn locally_produced_events_are_not_api_responses() {
    let local = [
        Loaded::CacheUsage(1024),
        Loaded::DownloadProgress {
            received: 1,
            total: Some(2),
        },
        Loaded::CloudNotice("已收藏".to_string()),
        Loaded::CloudPlaylistChanged {
            playlist: Box::new(Playlist::default()),
        },
    ];
    for loaded in &local {
        assert!(
            !loaded.is_api_response(),
            "{loaded:?} 是本机产生的，不该被算成服务回应"
        );
    }
}

#[test]
fn responses_from_the_service_count_as_reachable() {
    let remote = [
        Loaded::Search {
            keyword: "海阔天空".to_string(),
            songs: Vec::new(),
            append: false,
        },
        Loaded::VipStatus(Box::new(VipInfo::default())),
        Loaded::DeviceFingerprint("dfid".to_string()),
        Loaded::LoginFailed {
            message: "二维码已过期".to_string(),
        },
    ];
    for loaded in &remote {
        assert!(
            loaded.is_api_response(),
            "{loaded:?} 是服务的回应，应算作已连通"
        );
    }
}

#[test]
fn the_start_says_what_is_known_and_asks_for_the_rest() {
    let mut app = App::new(plain_config(), Vec::new(), options(), clock(1000), None, false);
    assert_eq!(
        status(&app),
        "音源 酷狗 · http://127.0.0.1:3000（未登录，云端歌单不可用）"
    );
    assert_eq!(app.state.account.connection, Connection::Unknown);
    let effects = app.take_effects();
    assert_eq!(effects, vec![Effect::DeviceFingerprint, Effect::MeasureCache]);

    let app = App::new(logged_in_config(), Vec::new(), options(), clock(1000), None, true);
    assert_eq!(status(&app), "音频线程启动失败，播放不可用（详见日志）");
    assert!(app.state.account.logged_in);
}

#[test]
fn playing_asks_for_the_cached_file_first() {
    let mut app = start(plain_config());
    app.play_from(vec![song("a"), song("b")], 1);
    assert_eq!(app.state.player.current.as_ref().map(|s| s.hash.as_str()), Some("b"));
    assert_eq!(app.state.player.playback, PlaybackState::Loading);
    assert_eq!(app.state.marks.queue, Some(1));
    assert_eq!(status(&app), "正在解析播放地址：歌手 - 歌b");
    let effects = app.take_effects();
    let key = format!("b-{}", app.state.config.quality);
    assert_eq!(
        effects.last(),
        Some(&Effect::FindCached {
            key,
            lookup: Lookup::Play { song: song("b"), start_at_ms: 0 },
        })
    );
    app.cache_found(
        Lookup::Play { song: song("b"), start_at_ms: 0 },
        Some("/cache/b.mp3".to_string()),
    );
    assert_eq!(
        app.take_effects(),
        vec![Effect::AudioLoadFile {
            path: "/cache/b.mp3".to_string(),
            start_at_ms: 0,
            duration_ms: 200_000,
        }]
    );
}

#[test]
fn a_link_starts_a_download_beside_the_cache() {
    let mut app = playing("a");
    let effects = loaded(
        &mut app,
        Loaded::StreamReady {
            song: Box::new(song("a")),
            url: "http://x/y.flac?k=1".to_string(),
            start_at_ms: 0,
            is_trial: true,
            reason: None,
        },
    );
    assert_eq!(
        effects,
        vec![Effect::StartDownload {
            song: song("a"),
            url: "http://x/y.flac?k=1".to_string(),
            target: format!("/cache/a-{}-trial.flac", app.state.config.quality),
            start_at_ms: 0,
        }]
    );
    assert!(app.state.player.current_is_trial);
    assert_eq!(status(&app), "《歌a》只有试听片段（完整版需要对应会员）");
    assert_eq!(app.state.screen.busy.as_deref(), Some("缓冲《歌手 - 歌a》"));
}

#[test]
fn late_streams_are_called_off_and_late_files_removed() {
    let mut app = playing("b");
    assert_eq!(
        loaded(
            &mut app,
            Loaded::StreamPrerolled { song: Box::new(song("a")), stream: 9, start_at_ms: 0 },
        ),
        vec![Effect::CancelStream(9)]
    );
    assert_eq!(
        loaded(
            &mut app,
            Loaded::StreamCached {
                song: Box::new(song("a")),
                path: "/cache/a.mp3".to_string(),
                start_at_ms: 0,
            },
        ),
        vec![Effect::RemoveFile("/cache/a.mp3".to_string())]
    );
    assert!(loaded(
        &mut app,
        Loaded::CoverReady { hash: "a".to_string(), width: 3, height: 4 },
    )
    .is_empty());
    assert_eq!(app.state.player.cover.aspect, None);
    loaded(&mut app, Loaded::CoverReady { hash: "b".to_string(), width: 3, height: 4 });
    assert_eq!(app.state.player.cover.aspect, Some((3, 4)));
    loaded(&mut app, Loaded::CoverReady { hash: "b".to_string(), width: 3, height: 0 });
    assert_eq!(app.state.player.cover.aspect, Some((1, 1)));
}

#[test]
fn a_completed_stream_is_not_loaded_again() {
    let mut app = playing("a");
    loaded(
        &mut app,
        Loaded::StreamPrerolled { song: Box::new(song("a")), stream: 4, start_at_ms: 0 },
    );
    assert_eq!(app.active_stream, Some(4));
    app.handle_event(Event::Tick(snapshot(PlaybackState::Playing, 42_000)));
    app.take_effects();
    let effects = loaded(
        &mut app,
        Loaded::StreamCompleted { song: Box::new(song("a")), path: "/cache/a.mp3".to_string() },
    );
    assert_eq!(app.state.player.position_ms, 42_000);
    assert_eq!(app.active_stream, None);
    let key = format!("b-{}", app.state.config.quality);
    assert_eq!(
        effects,
        vec![
            Effect::FindCached { key, lookup: Lookup::Prefetch { song: song("b") } },
            Effect::EvictCache,
        ]
    );
}

#[test]
fn a_starved_stream_is_picked_up_once() {
    let mut app = playing("a");
    app.handle_event(Event::Audio(AudioEvent::StreamInterrupted { position_ms: 61_000 }));
    assert_eq!(status(&app), "正在解析播放地址：歌手 - 歌a");
    let effects = app.take_effects();
    assert!(effects.iter().any(|effect| matches!(
        effect,
        Effect::FindCached { lookup: Lookup::Play { start_at_ms: 61_000, .. }, .. }
    )));
    app.handle_event(Event::Audio(AudioEvent::StreamInterrupted { position_ms: 62_000 }));
    assert_eq!(status(&app), "《歌a》缓冲中断在 01:02，按 Space 或 Enter 重试");
    assert!(app.take_effects().is_empty());
    assert_eq!(app.state.player.position_ms, 62_000);
    assert_eq!(app.state.queue.cursor, Some(0));

    let effects = key(&mut app, Action::PlayPause);
    assert!(effects.iter().any(|effect| matches!(
        effect,
        Effect::FindCached { lookup: Lookup::Play { start_at_ms: 62_000, .. }, .. }
    )));
    assert_eq!(app.state.player.position_ms, 62_000);
}

#[test]
fn an_excerpt_does_not_go_on_by_itself() {
    let mut app = playing("a");
    app.state.player.set_current_is_trial(true);
    app.handle_event(Event::Audio(AudioEvent::TrackFinished));
    assert_eq!(app.state.queue.cursor, Some(0));
    assert_eq!(status(&app), "试听片段已播完（完整版需要对应会员），按 n 跳下一首");
    app.handle_event(Event::Audio(AudioEvent::TrackFinished));
    assert_eq!(app.state.queue.cursor, Some(1));
}

#[test]
fn playing_in_order_ends_with_the_queue() {
    let mut app = playing("b");
    app.next_track(true);
    assert_eq!(app.state.queue.cursor, Some(2));
    app.take_effects();
    app.handle_event(Event::Audio(AudioEvent::TrackFinished));
    assert_eq!(app.state.player.playback, PlaybackState::Stopped);
    assert_eq!(status(&app), "播放队列已到末尾");
    assert_eq!(app.take_effects(), vec![Effect::AudioStop]);
}

#[test]
fn failures_of_the_audio_thread_keep_the_place() {
    let mut app = playing("a");
    app.handle_event(Event::Tick(snapshot(PlaybackState::Playing, 5_000)));
    app.handle_event(Event::Audio(AudioEvent::Failed("坏文件".to_string())));
    assert_eq!(status(&app), "坏文件");
    assert_eq!(app.state.screen.status.level, Level::Error);
    assert_eq!(app.state.player.resume, Some(("a".to_string(), 5_000)));
    app.take_effects();
    key(&mut app, Action::PlayPause);
    assert_eq!(app.state.player.position_ms, 5_000);
}

#[test]
fn devices_are_spoken_of_from_the_second_on() {
    let mut app = start(plain_config());
    app.info("x".to_string());
    app.handle_event(Event::Audio(AudioEvent::DeviceOpened { name: "A".to_string() }));
    assert_eq!(status(&app), "x");
    app.handle_event(Event::Audio(AudioEvent::DeviceOpened { name: "B".to_string() }));
    assert_eq!(status(&app), "输出设备 → B");
    app.pending_device_resume = Some((song("a"), 7_000));
    app.handle_event(Event::Audio(AudioEvent::DeviceOpened { name: "C".to_string() }));
    assert_eq!(app.state.player.position_ms, 7_000);
    app.pending_device_resume = Some((song("a"), 7_000));
    app.handle_event(Event::Audio(AudioEvent::DeviceSwitchFailed("没有".to_string())));
    assert_eq!(app.pending_device_resume, None);
    assert_eq!(status(&app), "没有");
}

#[test]
fn the_clock_keeps_a_restored_place() {
    let session = Session {
        queue: vec![song("a"), song("b")],
        cursor: Some(1),
        position_ms: 90_000,
        vip_claimed_day: Some("2026-01-01".to_string()),
    };
    let mut app =
        App::new(plain_config(), Vec::new(), options(), clock(1000), Some(session), false);
    assert_eq!(app.state.player.current.as_ref().map(|s| s.hash.as_str()), Some("b"));
    assert_eq!(app.state.player.duration_ms, 200_000);
    assert_eq!(app.state.player.playback, PlaybackState::Stopped);
    app.take_effects();
    app.handle_event(Event::Tick(snapshot(PlaybackState::Stopped, 0)));
    assert_eq!(app.state.player.position_ms, 90_000);
    app.take_effects();
    key(&mut app, Action::PlayPause);
    assert_eq!(app.state.player.position_ms, 90_000);

    let kept = app.session();
    assert_eq!(kept.queue, vec![song("a"), song("b")]);
    assert_eq!(kept.cursor, Some(1));
    assert_eq!(kept.position_ms, 90_000);
    assert_eq!(kept.vip_claimed_day.as_deref(), Some("2026-01-01"));
}

#[test]
fn an_empty_session_still_keeps_the_claimed_day() {
    let session = Session {
        queue: Vec::new(),
        cursor: None,
        position_ms: 0,
        vip_claimed_day: Some("2026-01-02".to_string()),
    };
    let app = App::new(plain_config(), Vec::new(), options(), clock(1000), Some(session), false);
    assert_eq!(app.state.account.vip_claimed_day.as_deref(), Some("2026-01-02"));
    assert_eq!(app.state.player.current, None);
}

#[test]
fn ticks_save_the_session_poll_logins_and_measure_the_cache() {
    let mut app = start(plain_config());
    app.clock = clock(30_999);
    app.handle_event(Event::Tick(snapshot(PlaybackState::Stopped, 0)));
    assert!(!app.take_effects().contains(&Effect::SaveSession));
    app.clock = clock(31_000);
    app.handle_event(Event::Tick(snapshot(PlaybackState::Stopped, 0)));
    assert!(app.take_effects().contains(&Effect::SaveSession));
    app.handle_event(Event::Tick(snapshot(PlaybackState::Stopped, 0)));
    assert!(!app.take_effects().contains(&Effect::SaveSession));
    for _ in 3..49 {
        app.handle_event(Event::Tick(snapshot(PlaybackState::Stopped, 0)));
    }
    assert!(!app.take_effects().contains(&Effect::MeasureCache));
    app.handle_event(Event::Tick(snapshot(PlaybackState::Stopped, 0)));
    assert!(app.take_effects().contains(&Effect::MeasureCache));
}

#[test]
fn logins_are_polled_and_answered() {
    let mut app = start(plain_config());
    app.begin_login();
    assert_eq!(app.take_effects(), vec![Effect::LoginQr { source: SourceKind::Kugou }]);
    loaded(
        &mut app,
        Loaded::LoginQr { key: "k1".to_string(), content: "http://qr".to_string() },
    );
    for _ in 0..9 {
        app.handle_event(Event::Tick(snapshot(PlaybackState::Stopped, 0)));
    }
    app.take_effects();
    app.handle_event(Event::Tick(snapshot(PlaybackState::Stopped, 0)));
    assert!(app.take_effects().contains(&Effect::LoginCheck {
        source: SourceKind::Kugou,
        key: "k1".to_string(),
    }));
    let effects = loaded(
        &mut app,
        Loaded::LoginSucceeded {
            token: Some("t".to_string()),
            userid: Some("7".to_string()),
            cookie: None,
        },
    );
    assert_eq!(app.state.config.cookie.as_deref(), Some("token=t; userid=7"));
    assert_eq!(
        effects,
        vec![
            Effect::SetCookie(Some("token=t; userid=7".to_string())),
            Effect::SaveConfig(AfterSave::Login { userid: "7".to_string() }),
        ]
    );
    app.config_saved(AfterSave::Login { userid: "7".to_string() }, "/cfg", Ok(()));
    assert!(app.state.account.logged_in);
    assert_eq!(status(&app), "登录成功，按 Esc 关闭");
    let login = app.state.panels.login.as_ref().unwrap();
    assert!(login.finished);
    assert_eq!(login.message, "登录成功（userid=7），凭据已写入 /cfg");
}

#[test]
fn codes_are_not_asked_for_too_often() {
    let mut app = start(plain_config());
    app.begin_login();
    app.take_effects();
    key(&mut app, Action::Cancel);
    assert_eq!(status(&app), "已取消登录");
    app.clock = clock(11_000);
    app.begin_login();
    assert!(app.take_effects().is_empty());
    assert_eq!(
        status(&app),
        "取二维码太频繁了，请 21 秒后再按 L（频繁申请会被服务端限流）"
    );
    app.clock = clock(31_000);
    app.begin_login();
    assert_eq!(app.take_effects().len(), 1);
}

#[test]
fn failures_reach_their_panel_and_the_status_line() {
    let mut app = start(logged_in_config());
    app.switch_tab(Tab::Playlists);
    assert_eq!(app.state.pages.playlists.list.load, LoadState::Loading);
    loaded(
        &mut app,
        Loaded::fail_loading(
            LoadingTarget::Playlists,
            "载入歌单广场失败".to_string(),
            failure("连不上", true, false),
        ),
    );
    assert_eq!(
        app.state.pages.playlists.list.load,
        LoadState::Failed("连不上".to_string())
    );
    assert_eq!(status(&app), "载入歌单广场失败：连不上");
    assert_eq!(app.state.account.connection, Connection::Unreachable);
    assert_eq!(app.state.screen.busy, None);

    loaded(
        &mut app,
        Loaded::fail("下载失败".to_string(), failure("断开", true, true)),
    );
    assert!(!app.state.account.logged_in);
    assert_eq!(app.state.account.connection, Connection::Unreachable);

    loaded(&mut app, Loaded::Playlists { title: "歌单广场".to_string(), items: Vec::new() });
    assert_eq!(app.state.account.connection, Connection::Connected);
    assert_eq!(status(&app), "歌单广场暂无内容");
}

#[test]
fn the_connection_is_told_when_it_changes() {
    let mut app = start(plain_config());
    loaded(&mut app, Loaded::CloudPlaylists(Vec::new()));
    assert_eq!(status(&app), "已连接 http://127.0.0.1:3000");
    app.info("x".to_string());
    loaded(&mut app, Loaded::CloudPlaylists(Vec::new()));
    assert_eq!(status(&app), "x");
}

#[test]
fn searches_keep_the_order_and_grow() {
    let mut app = start(plain_config());
    key(&mut app, Action::OpenSearch);
    for c in "ab".chars() {
        key(&mut app, Action::Char(c));
    }
    assert!(matches!(app.state.key_mode(), KeyMode::TextInput));
    let effects = key(&mut app, Action::Submit);
    assert_eq!(
        effects,
        vec![Effect::Search {
            source: SourceKind::Kugou,
            keyword: "ab".to_string(),
            page: 1,
            page_size: 30,
            append: false,
        }]
    );
    loaded(
        &mut app,
        Loaded::Search {
            keyword: "ab".to_string(),
            songs: vec![song("1"), song("2")],
            append: false,
        },
    );
    assert_eq!(status(&app), "「ab」找到 2 首");
    assert_eq!(app.state.screen.focus, Focus::Secondary);
    let effects = key(&mut app, Action::LoadMoreSearch);
    assert!(matches!(effects[0], Effect::Search { page: 2, append: true, .. }));
    loaded(
        &mut app,
        Loaded::Search { keyword: "ab".to_string(), songs: vec![song("3")], append: true },
    );
    let results = &app.state.pages.search.results;
    assert_eq!(results.songs, vec![song("1"), song("2"), song("3")]);
    assert_eq!(results.title, "搜索「ab」· 3 首");
    assert_eq!(status(&app), "又加载了 1 首（共 3 首）");
}

#[test]
fn playlists_are_shown_in_the_order_that_is_set() {
    let mut app = start(plain_config());
    let playlist = Playlist { name: "我的".to_string(), ..Playlist::default() };
    loaded(
        &mut app,
        Loaded::PlaylistTracks {
            playlist,
            songs: vec![song("1"), song("2")],
            source: PlaylistSource::Plaza,
        },
    );
    assert_eq!(app.state.pages.playlists.songs.songs, vec![song("2"), song("1")]);
    assert_eq!(app.state.pages.playlists.songs.title, "我的 · 2 首");
    key(&mut app, Action::ToggleSortOrder);
    assert_eq!(app.state.pages.playlists.songs.songs, vec![song("1"), song("2")]);
    assert_eq!(status(&app), "列表排列：正序");
    key(&mut app, Action::ToggleSortOrder);
    assert_eq!(app.state.pages.playlists.songs.songs, vec![song("2"), song("1")]);
}

#[test]
fn first_pages_follow_the_order() {
    assert_eq!(first_screen_page(100, false), 1);
    assert_eq!(first_screen_page(100, true), 4);
    assert_eq!(first_screen_page(90, true), 3);
    assert_eq!(first_screen_page(0, true), 1);
    assert!(needs_full_fetch(4, 10));
    assert!(needs_full_fetch(1, 30));
    assert!(!needs_full_fetch(1, 29));
}

#[test]
fn muting_twice_gives_the_volume_back() {
    let mut app = start(plain_config());
    let before = app.state.player.volume;
    let effects = key(&mut app, Action::ToggleMute);
    assert_eq!(effects, vec![Effect::AudioSetVolume(0)]);
    assert_eq!(status(&app), "已静音");
    assert_eq!(app.state.player.volume, 0);
    let effects = key(&mut app, Action::ToggleMute);
    assert_eq!(
        effects,
        vec![
            Effect::AudioSetVolume(before),
            Effect::ShowVolume { volume: before, unmuted: true },
        ]
    );
    assert_eq!(app.state.player.volume, before);
    let effects = key(&mut app, Action::VolumeUp);
    assert_eq!(effects, vec![Effect::StepVolume { base: before, up: true }]);
}

#[test]
fn seeking_stays_in_the_track() {
    let mut app = playing("a");
    assert_eq!(key(&mut app, Action::SeekTo(900_000)), vec![Effect::AudioSeekTo(199_999)]);
    assert_eq!(app.state.player.position_ms, 199_999);
    assert_eq!(key(&mut app, Action::SeekBackward), vec![Effect::AudioSeekBy(-5_000)]);
    assert_eq!(app.state.player.position_ms, 194_999);
    app.state.screen.set_focus(Focus::Sidebar);
    assert!(key(&mut app, Action::SeekForward).is_empty());
    assert_eq!(app.state.screen.focus, Focus::Primary);
}

fn mouse(
    kind: MouseKind,
    target: HitTarget,
    index: Option<usize>,
    double_click: bool,
) -> MouseInput {
    MouseInput {
        kind,
        column: 15,
        row: 3,
        zone: Some(HitZone { target, index, left: 5, width: 40, double_click }),
    }
}

#[test]
fn the_progress_bar_can_be_clicked() {
    let mut app = playing("a");
    app.handle_event(Event::Mouse(mouse(MouseKind::LeftDown, HitTarget::Progress, None, false)));
    assert_eq!(
        app.take_effects(),
        vec![Effect::EstimateProgress { offset: 10, width: 40, duration_ms: 200_000 }]
    );
    app.progress_estimated(50_000);
    assert_eq!(app.state.player.position_ms, 50_000);
    app.progress_estimated(900_000);
    assert_eq!(app.state.player.position_ms, 199_999);
}

#[test]
fn the_right_button_opens_the_menu_of_that_song() {
    let mut app = playing("a");
    app.handle_event(Event::Mouse(mouse(
        MouseKind::RightDown,
        HitTarget::Queue,
        Some(2),
        false,
    )));
    let menu = app.state.panels.context_menu.as_ref().unwrap();
    assert_eq!(menu.song, song("c"));
    assert!(menu.in_queue);
    key(&mut app, Action::MoveDown);
    key(&mut app, Action::Cancel);
    assert!(app.state.panels.context_menu.is_none());
}

#[test]
fn a_double_click_plays() {
    let mut app = playing("a");
    app.switch_tab(Tab::Queue);
    app.handle_event(Event::Mouse(mouse(MouseKind::LeftDown, HitTarget::Queue, Some(1), true)));
    assert_eq!(app.state.player.current.as_ref().map(|s| s.hash.as_str()), Some("b"));
    app.take_effects();
    app.handle_event(Event::Mouse(mouse(MouseKind::ScrollDown, HitTarget::Queue, None, false)));
    assert_eq!(app.state.marks.queue, Some(2));
    let miss = MouseInput { kind: MouseKind::LeftDown, column: 1, row: 1, zone: None };
    app.handle_event(Event::Mouse(miss));
    assert!(app.take_effects().is_empty());
}

#[test]
fn a_setting_is_changed_by_its_second_click() {
    let mut app = start(plain_config());
    let click = mouse(MouseKind::LeftDown, HitTarget::Settings, Some(4), false);
    app.handle_event(Event::Mouse(click));
    assert_eq!(app.state.config.lyric_offset_ms, 0);
    app.take_effects();
    app.handle_event(Event::Mouse(click));
    assert_eq!(app.state.config.lyric_offset_ms, 100);
    assert!(app
        .take_effects()
        .contains(&Effect::SaveConfig(AfterSave::Setting(Setting::LyricOffsetMs))));
}

#[test]
fn settings_go_round() {
    let mut app = start(plain_config());
    key(&mut app, Action::OpenSettings);
    let change = |app: &mut App, place: usize, action: Action| {
        app.mark_setting(place);
        key(app, action)
    };
    change(&mut app, 2, Action::SeekForward);
    assert_eq!(app.state.config.playback_mode, PlaybackMode::RepeatAll);
    change(&mut app, 2, Action::SeekBackward);
    change(&mut app, 2, Action::SeekBackward);
    assert_eq!(app.state.config.playback_mode, PlaybackMode::Shuffle);
    change(&mut app, 3, Action::CursorRight);
    assert_eq!(app.state.config.tick_ms, 500);
    change(&mut app, 3, Action::CursorRight);
    assert_eq!(app.state.config.tick_ms, 100);
    change(&mut app, 5, Action::CursorLeft);
    assert_eq!(app.state.config.page_size, 20);
    let effects = change(&mut app, 6, Action::CursorRight);
    assert_eq!(app.state.config.cache_limit_mib, 1024);
    assert!(effects.contains(&Effect::MeasureCache));
    change(&mut app, 10, Action::CursorRight);
    assert!(app.state.config.lite_mode);
    change(&mut app, 11, Action::CursorRight);
    assert_eq!(app.state.config.download_dir.as_deref(), Some("~/Downloads"));
    let effects = change(&mut app, 9, Action::CursorRight);
    assert_eq!(effects, vec![Effect::ShowSettingChanged(Setting::Sidebar)]);
    assert!(!app.state.screen.sidebar_visible);
    assert!(change(&mut app, 13, Action::CursorRight).is_empty());
    change(&mut app, 0, Action::CursorRight);
    assert_eq!(app.state.config.theme, "light");
}

#[test]
fn another_device_resumes_what_sounds() {
    let devices = vec!["A".to_string(), "B".to_string()];
    let mut app = App::new(plain_config(), devices, options(), clock(0), None, false);
    app.play_from(vec![song("a")], 0);
    app.handle_event(Event::Tick(snapshot(PlaybackState::Playing, 3_000)));
    key(&mut app, Action::OpenSettings);
    app.mark_setting(13);
    let effects = key(&mut app, Action::CursorLeft);
    assert_eq!(effects[0], Effect::AudioUseDevice(Some("B".to_string())));
    assert_eq!(app.pending_device_resume, Some((song("a"), 3_000)));
    let effects = key(&mut app, Action::CursorRight);
    assert_eq!(effects[0], Effect::AudioUseDevice(None));
    app.handle_event(Event::Tick(snapshot(PlaybackState::Paused, 3_000)));
    app.take_effects();
    key(&mut app, Action::CursorRight);
    assert_eq!(app.state.config.audio_device.as_deref(), Some("A"));
    assert_eq!(app.pending_device_resume, None);
}

#[test]
fn pages_are_reached_by_digits_and_by_the_sidebar() {
    let mut app = start(plain_config());
    key(&mut app, Action::Digit(2));
    assert_eq!(app.state.screen.tab, Tab::Search);
    key(&mut app, Action::Digit(0));
    assert_eq!(app.state.screen.tab, Tab::Visualizer);
    key(&mut app, Action::MoveUp);
    assert_eq!(app.state.screen.tab, Tab::Settings);
    app.state.screen.set_focus(Focus::Sidebar);
    key(&mut app, Action::MoveTop);
    assert_eq!(app.state.screen.tab, Tab::Home);
    key(&mut app, Action::MoveUp);
    assert_eq!(app.state.screen.tab, Tab::Home);
    key(&mut app, Action::Cancel);
    assert_eq!(app.state.screen.focus, Focus::Primary);
}

#[test]
fn destruction_is_asked_for() {
    let mut app = playing("a");
    key(&mut app, Action::ClearQueue);
    assert_eq!(app.state.panels.pending_confirm, Some(ConfirmAction::ClearQueue));
    key(&mut app, Action::MoveDown);
    assert_eq!(app.state.queue.len(), 3);
    key(&mut app, Action::Char('n'));
    assert_eq!(app.state.panels.pending_confirm, None);
    assert_eq!(status(&app), "已取消");
    key(&mut app, Action::ClearQueue);
    let effects = key(&mut app, Action::Submit);
    assert_eq!(effects, vec![Effect::AudioStop]);
    assert!(app.state.queue.is_empty());
    assert_eq!(status(&app), "已清空播放队列（3 首），已停止播放");
    assert_eq!(app.state.player.current, None);
}

#[test]
fn the_cache_is_emptied_after_a_question() {
    let mut app = start(plain_config());
    key(&mut app, Action::ClearCache);
    assert_eq!(key(&mut app, Action::Submit), vec![Effect::ClearCache]);
    let report = ClearReport { removed_files: 2, freed_bytes: 2048, failed: 0 };
    app.cache_cleared(Ok(report), "2.0 KiB");
    assert_eq!(status(&app), "已清理缓存：2 个文件，释放 2.0 KiB");
    let report = ClearReport { removed_files: 2, freed_bytes: 2048, failed: 1 };
    app.cache_cleared(Ok(report), "2.0 KiB");
    assert_eq!(status(&app), "已清理 2 个文件（2.0 KiB），1 个删除失败（检查目录权限）");
    let report = ClearReport { removed_files: 0, freed_bytes: 0, failed: 0 };
    app.cache_cleared(Ok(report), "0 B");
    assert_eq!(status(&app), "缓存已经是空的");
    app.cache_cleared(Err(failure("x", false, false)), "");
    assert_eq!(status(&app), "清空缓存失败：full x");
}

#[test]
fn the_help_panel_scrolls_and_keeps_other_keys() {
    let mut app = playing("a");
    key(&mut app, Action::Help);
    assert!(app.state.panels.help.open);
    key(&mut app, Action::MoveDown);
    key(&mut app, Action::PageDown);
    assert_eq!(app.state.panels.help.offset, 11);
    key(&mut app, Action::MoveBottom);
    assert_eq!(app.state.panels.help.offset, 37);
    key(&mut app, Action::MoveDown);
    assert_eq!(app.state.panels.help.offset, 37);
    assert!(key(&mut app, Action::Next).is_empty());
    key(&mut app, Action::Cancel);
    assert!(!app.state.panels.help.open);
    key(&mut app, Action::Help);
    key(&mut app, Action::ForceQuit);
    assert!(app.state.screen.should_quit && app.state.screen.force_quit);
}

#[test]
fn playlists_are_named_in_a_panel() {
    let mut app = start(logged_in_config());
    key(&mut app, Action::NewCloudPlaylist);
    assert!(matches!(app.state.key_mode(), KeyMode::TextInput));
    for c in " 新 ".chars() {
        key(&mut app, Action::Char(c));
    }
    key(&mut app, Action::Char('x'));
    key(&mut app, Action::Backspace);
    let effects = key(&mut app, Action::Submit);
    assert_eq!(
        effects,
        vec![Effect::CreatePlaylist { source: SourceKind::Kugou, name: "新".to_string() }]
    );
    key(&mut app, Action::NewCloudPlaylist);
    key(&mut app, Action::Submit);
    assert_eq!(status(&app), "歌单名称不能为空");
}

fn own_playlist(id: i64) -> Playlist {
    Playlist {
        id: format!("p{id}"),
        name: format!("单{id}"),
        list_id: Some(id),
        is_own: true,
        song_count: 2,
        creator: None,
    }
}

#[test]
fn songs_go_to_the_playlist_that_is_open() {
    let mut app = start(logged_in_config());
    app.switch_tab(Tab::Cloud);
    loaded(&mut app, Loaded::CloudPlaylists(vec![own_playlist(1), own_playlist(2)]));
    key(&mut app, Action::MoveDown);
    let effects = key(&mut app, Action::Submit);
    assert!(matches!(effects[0], Effect::PlaylistTracks { .. }));
    loaded(
        &mut app,
        Loaded::PlaylistTracks {
            playlist: own_playlist(2),
            songs: vec![song("1"), song("2")],
            source: PlaylistSource::Cloud,
        },
    );
    let effects = key(&mut app, Action::AddToCloud);
    assert_eq!(
        effects,
        vec![Effect::AddTrack {
            source: SourceKind::Kugou,
            list_id: 2,
            song: song("2"),
            target: own_playlist(2),
        }]
    );
    key(&mut app, Action::RemoveFromCloud);
    assert_eq!(status(&app), "这首歌不在歌单里（缺少 fileid），无法从歌单移除");

    let effects = loaded(
        &mut app,
        Loaded::CloudPlaylistChanged { playlist: Box::new(own_playlist(2)) },
    );
    assert_eq!(effects.len(), 2);
    let effects = loaded(
        &mut app,
        Loaded::CloudPlaylistChanged { playlist: Box::new(own_playlist(1)) },
    );
    assert_eq!(effects.len(), 1);
}

#[test]
fn the_queue_can_be_filled_and_thinned() {
    let mut app = playing("a");
    app.state.screen.set_focus(Focus::Queue);
    app.state.marks.queue = Some(2);
    assert!(key(&mut app, Action::RemoveFromQueue).is_empty());
    assert_eq!(app.state.queue.len(), 2);
    assert_eq!(status(&app), "已从队列移除：歌手 - 歌c");
    app.state.marks.queue = Some(0);
    app.active_stream = Some(8);
    assert_eq!(
        key(&mut app, Action::RemoveFromQueue),
        vec![Effect::CancelStream(8), Effect::AudioStop]
    );
    assert_eq!(app.active_stream, None);
    assert_eq!(app.state.player.current, None);
    key(&mut app, Action::QueueAppend);
    assert_eq!(app.state.queue.len(), 2);
    assert_eq!(status(&app), "已加入队列：歌手 - 歌b");
}

#[test]
fn downloads_ask_for_the_quality() {
    let mut app = playing("a");
    key(&mut app, Action::DownloadCurrent);
    let picker = app.state.panels.quality_picker.as_ref().unwrap();
    assert_eq!(picker.song, song("a"));
    let effects = key(&mut app, Action::Submit);
    assert!(matches!(effects[0], Effect::DownloadSong { .. }));
    key(&mut app, Action::DownloadCurrent);
    key(&mut app, Action::Cancel);
    assert_eq!(status(&app), "已取消下载");
}

#[test]
fn services_are_switched_without_a_pause() {
    let mut app = playing("a");
    app.switch_source_to(SourceKind::Netease);
    assert_eq!(
        app.take_effects(),
        vec![Effect::SaveConfig(AfterSave::Switch {
            kind: SourceKind::Netease,
            then_login: false,
        })]
    );
    assert_eq!(app.state.queue.len(), 3);
    assert_eq!(app.state.player.current.as_ref().map(|s| s.hash.as_str()), Some("a"));
    app.config_saved(
        AfterSave::Switch { kind: SourceKind::Netease, then_login: false },
        "/cfg",
        Ok(()),
    );
    assert!(matches!(app.take_effects()[0], Effect::Reconnect { .. }));
    app.reconnected(SourceKind::Netease, false, Ok(()));
    assert!(status(&app).starts_with("已切换到「网易云」"));
    app.next_track(true);
    let effects = app.take_effects();
    assert!(effects
        .iter()
        .any(|effect| matches!(effect, Effect::Connect { kind: SourceKind::Kugou, .. })));
}

#[test]
fn claims_are_remembered_when_they_worked() {
    let mut app = start(plain_config());
    loaded(
        &mut app,
        Loaded::VipClaimed {
            day: "2026-01-02".to_string(),
            outcome: VipClaimOutcome::Failed("今日已领取".to_string()),
            manual: true,
        },
    );
    assert_eq!(status(&app), "领取 VIP 失败：今日已领取");
    assert_eq!(app.state.account.vip_claimed_day, None);
    loaded(
        &mut app,
        Loaded::VipClaimed {
            day: "2026-01-02".to_string(),
            outcome: VipClaimOutcome::Claimed,
            manual: false,
        },
    );
    assert_eq!(app.state.account.vip_claimed_day.as_deref(), Some("2026-01-02"));
    loaded(
        &mut app,
        Loaded::VipClaimed {
            day: "2026-01-03".to_string(),
            outcome: VipClaimOutcome::AlreadyClaimed,
            manual: true,
        },
    );
    assert_eq!(status(&app), "今日 VIP 已经领过了，无需重复领取");
}

#[test]
fn lyrics_follow_the_song() {
    let mut app = playing("a");
    let line = |start_ms: u64, text: &str| LyricLine { start_ms, text: text.to_string() };
    loaded(
        &mut app,
        Loaded::Lyric { hash: "a".to_string(), lines: vec![line(0, "x"), line(5_000, "y")] },
    );
    app.handle_event(Event::Tick(snapshot(PlaybackState::Playing, 6_000)));
    assert_eq!(app.state.player.lyric.active_line, Some(1));
    loaded(
        &mut app,
        Loaded::LyricFailed { hash: "z".to_string(), reason: "迟到".to_string() },
    );
    assert_eq!(app.state.player.lyric.lines.len(), 2);
    loaded(
        &mut app,
        Loaded::LyricFailed { hash: "a".to_string(), reason: "没有".to_string() },
    );
    assert_eq!(app.state.player.lyric.load, LoadState::Failed("没有".to_string()));
}

#[test]
fn the_end_saves_unless_it_is_forced() {
    let mut app = playing("a");
    app.active_stream = Some(3);
    app.shutdown();
    assert_eq!(
        app.take_effects(),
        vec![
            Effect::SaveConfig(AfterSave::Nothing),
            Effect::SaveSession,
            Effect::CancelStream(3),
            Effect::AudioShutdown,
        ]
    );
    let mut app = playing("a");
    key(&mut app, Action::ForceQuit);
    app.shutdown();
    assert_eq!(app.take_effects(), vec![Effect::AudioShutdown]);
}

#[test]
fn an_address_for_one_run_is_not_saved() {
    let mut config = plain_config();
    config.api_base = "http://127.0.0.1:9999".to_string();
    let mut app = start(config);
    app.persist_config();
    assert_eq!(app.state.config.api_base, "http://127.0.0.1:3000");
    assert_eq!(app.state.config.cache_dir, "/cache");
}

#[test]
fn frames_and_events_are_bounded() {
    let mut app = start(plain_config());
    assert_eq!(app.frame_interval(), 200);
    app.state.screen.set_lyric_visible(true);
    assert_eq!(app.frame_interval(), 200);
    app.handle_event(Event::Tick(snapshot(PlaybackState::Playing, 0)));
    assert_eq!(app.frame_interval(), 33);
    assert!(app.drain_events(63));
    assert!(!app.drain_events(64));
    key(&mut app, Action::Quit);
    assert!(app.drain_events(0));
    assert!(!app.drain_events(1));
}

#[test]
fn pictures_are_drawn_as_the_terminal_can() {
    assert_eq!(image_protocol(true, None, None), ImageProtocol::Kitty);
    assert_eq!(image_protocol(false, Some("xterm-kitty"), None), ImageProtocol::Kitty);
    assert_eq!(image_protocol(false, Some("xterm"), Some("iTerm.app")), ImageProtocol::Iterm2);
    assert_eq!(image_protocol(false, Some("xterm"), None), ImageProtocol::Halfblocks);
}

#[test]
fn the_desktop_is_shown_the_track() {
    let mut app = playing("a");
    app.handle_event(Event::Tick(snapshot(PlaybackState::Playing, 1_500)));
    let info = app.track_info();
    assert_eq!(info.title, "歌a");
    assert_eq!(info.position_us, 1_500_000);
    assert_eq!(info.duration_us, 200_000_000);
    assert_eq!(app.tray_info().artists, "歌手");
}

#[test]
fn windows_are_spoken_of() {
    let mut app = start(plain_config());
    assert_eq!(key(&mut app, Action::ToggleWindow), vec![Effect::ToggleWindow]);
    app.window_toggled(None);
    assert_eq!(status(&app), "当前环境不支持窗口控制（需要 niri）");
    app.window_toggled(Some(true));
    assert_eq!(status(&app), "已切换窗口最小化");
    app.window_toggled(Some(false));
    assert_eq!(status(&app), "窗口操作失败（详见日志）");
}

#[test]
fn qualities_and_modes_go_round() {
    let mut app = start(plain_config());
    app.state.config.quality = "128".to_string();
    key(&mut app, Action::CycleQuality);
    assert_eq!(app.state.config.quality, "320");
    assert_eq!(status(&app), "音质：较高 320kbps（下一首生效）");
    key(&mut app, Action::CyclePlaybackMode);
    assert_eq!(app.state.queue.mode, PlaybackMode::RepeatAll);
    assert_eq!(status(&app), "播放模式：列表循环");
    key(&mut app, Action::LyricAdvance);
    assert_eq!(app.state.config.lyric_offset_ms, 100);
}

#[test]
fn another_song_calls_the_stream_off() {
    let mut app = playing("a");
    app.active_stream = Some(5);
    app.next_track(true);
    assert_eq!(app.take_effects()[0], Effect::CancelStream(5));
    assert_eq!(app.active_stream, None);
    app.active_stream = Some(6);
    app.handle_event(Event::Audio(AudioEvent::TrackFinished));
    assert_eq!(app.active_stream, None);
}

#[test]
fn the_queue_stays_sound() {
    let mut app = playing("a");
    app.next_track(true);
    app.next_track(true);
    assert_eq!(app.state.queue.cursor, Some(2));
    app.state.screen.set_focus(Focus::Queue);
    for _ in 0..3 {
        app.state.marks.queue = Some(0);
        key(&mut app, Action::RemoveFromQueue);
        if let Some(cursor) = app.state.queue.cursor {
            assert!(cursor < app.state.queue.len());
        }
    }
    assert!(app.state.queue.is_empty());
    assert_eq!(app.state.queue.cursor, None);
    key(&mut app, Action::Next);
    key(&mut app, Action::Prev);
    assert_eq!(app.state.queue.cursor, None);
}

#[test]
fn the_menu_takes_digits() {
    let mut app = playing("a");
    app.state.screen.set_focus(Focus::Queue);
    app.state.marks.queue = Some(2);
    key(&mut app, Action::ContextMenu);
    key(&mut app, Action::Char('5'));
    assert_eq!(status(&app), "已从队列移除《歌c》");
    assert_eq!(app.state.queue.len(), 2);
    app.state.marks.queue = Some(1);
    key(&mut app, Action::ContextMenu);
    key(&mut app, Action::Char('9'));
    assert!(app.state.panels.context_menu.is_some());
    key(&mut app, Action::Submit);
    assert_eq!(app.state.player.current.as_ref().map(|s| s.hash.as_str()), Some("b"));
}

#[test]
fn services_are_arranged() {
    let mut app = start(plain_config());
    key(&mut app, Action::SwitchSource);
    assert_eq!(app.state.screen.tab, Tab::Sources);
    assert_eq!(status(&app), "音源管理：Enter 启用/禁用 · E 设为默认 · K/J 调优先级");
    key(&mut app, Action::RaiseSourcePriority);
    assert_eq!(status(&app), "已经是第一个");
    let effects = key(&mut app, Action::LowerSourcePriority);
    assert_eq!(effects, vec![Effect::SaveConfig(AfterSave::Sources)]);
    assert_eq!(status(&app), "「酷狗」优先级已下调（第 2 位）");
    key(&mut app, Action::Submit);
    assert_eq!(status(&app), "「酷狗概念版」已禁用");
    key(&mut app, Action::SetDefaultSource);
    assert_eq!(status(&app), "「酷狗概念版」已禁用，先按 Enter 启用");
    key(&mut app, Action::SwitchSource);
    assert_eq!(app.state.screen.tab, Tab::Search);
}

#[test]
fn logging_in_anew_keeps_the_fingerprint() {
    let mut config = logged_in_config();
    config.dfid = Some("df".to_string());
    let mut app = start(config);
    app.relogin();
    assert_eq!(app.state.config.cookie, None);
    assert_eq!(app.state.config.dfid.as_deref(), Some("df"));
    assert!(!app.state.account.logged_in);
    assert_eq!(
        app.take_effects()[0],
        Effect::SetCookie(Some("dfid=df".to_string()))
    );
}

#[test]
fn memberships_are_claimed_by_the_day() {
    let mut config = plain_config();
    config.switch_source(SourceKind::KugouConcept);
    config.cookie = Some("token=a; userid=1".to_string());
    let mut app = App::new(config, Vec::new(), options(), clock(0), None, false);
    let effects = app.take_effects();
    assert!(effects.contains(&Effect::SyncVip { day: "2026-01-02".to_string(), manual: false }));
    app.state.account.set_vip_claiming(false);
    app.state.account.set_vip_claimed_day(Some("2026-01-02".to_string()));
    app.maybe_claim_daily_vip();
    assert!(app.take_effects().is_empty());
    key(&mut app, Action::ClaimVip);
    assert!(app.state.account.vip_claiming);
}

#[test]
fn the_simple_mode_asks_for_no_pictures() {
    let mut config = plain_config();
    config.lite_mode = true;
    let mut app = start(config);
    app.play_from(vec![song("a")], 0);
    assert!(!app
        .take_effects()
        .iter()
        .any(|effect| matches!(effect, Effect::FetchCover { .. })));
    app.load_avatar("http://x".to_string());
    assert!(app.take_effects().is_empty());
}

#[test]
fn what_cannot_be_reached_is_told() {
    let mut app = playing("a");
    let purpose = kugou_tui::app::effect::Purpose::Stream { song: song("a"), start_at_ms: 0 };
    app.client_failed(purpose, failure("x", true, false));
    assert_eq!(status(&app), "无法连接「酷狗」：full x");
    app.reconnected(SourceKind::Netease, false, Err(failure("x", true, false)));
    assert!(status(&app).starts_with("切换到「网易云」失败：full x（需要 NeteaseCloudMusicApi"));
    app.config_saved(
        AfterSave::Setting(Setting::Theme),
        "/cfg",
        Err(failure("满了", false, false)),
    );
    assert_eq!(status(&app), "保存设置失败：满了");
}

#[test]
fn open_panels_keep_commands_back() {
    let mut app = playing("a");
    app.begin_login();
    app.take_effects();
    assert!(key(&mut app, Action::Next).is_empty());
    assert!(key(&mut app, Action::ToggleMute).is_empty());
    key(&mut app, Action::Cancel);
    key(&mut app, Action::DownloadCurrent);
    assert!(key(&mut app, Action::ClearQueue).is_empty());
    assert_eq!(app.state.panels.pending_confirm, None);
    key(&mut app, Action::Cancel);
    key(&mut app, Action::NewCloudPlaylist);
    assert!(key(&mut app, Action::Prev).is_empty());
    assert_eq!(app.state.queue.cursor, Some(0));
}

#[test]
fn an_open_question_comes_before_the_settings() {
    let mut app = start(logged_in_config());
    key(&mut app, Action::OpenSettings);
    app.mark_setting(7);
    key(&mut app, Action::ClearQueue);
    for action in [
        Action::SeekForward,
        Action::SeekBackward,
        Action::CursorLeft,
        Action::CursorRight,
    ] {
        assert!(key(&mut app, action).is_empty());
    }
    assert!(!app.state.config.basic_color);
    assert_eq!(app.state.panels.pending_confirm, Some(ConfirmAction::ClearQueue));
    key(&mut app, Action::Cancel);
    key(&mut app, Action::SeekForward);
    assert!(app.state.config.basic_color);

    key(&mut app, Action::NewCloudPlaylist);
    key(&mut app, Action::Char('a'));
    key(&mut app, Action::CursorLeft);
    key(&mut app, Action::Char('b'));
    assert!(app.state.config.basic_color);
    assert_eq!(app.state.panels.prompt.as_ref().unwrap().buffer.text(), "ba");
}

#[test]
fn the_end_of_the_queue_calls_the_stream_off() {
    let mut app = playing("b");
    app.next_track(true);
    app.take_effects();
    app.active_stream = Some(9);
    assert_eq!(
        key(&mut app, Action::Next),
        vec![Effect::CancelStream(9), Effect::AudioStop]
    );
    assert_eq!(app.active_stream, None);
}

#[test]
fn the_address_of_the_client_in_use_is_told() {
    let mut app = start(plain_config());
    app.switch_source_to(SourceKind::Netease);
    app.reconnected(SourceKind::Netease, false, Err(failure("x", true, false)));
    loaded(&mut app, Loaded::CloudPlaylists(Vec::new()));
    assert_eq!(status(&app), "已连接 http://127.0.0.1:3000");
    app.reconnected(SourceKind::Netease, false, Ok(()));
    assert_eq!(app.client_base, "http://127.0.0.1:3002");
}

#[test]
fn the_whole_queue_goes_to_the_cloud() {
    let mut app = start(logged_in_config());
    app.state.queue.append_all(vec![song("a"), song("b"), song("a")]);
    app.state.pages.set_sync_target(Some(Playlist {
        id: "pid".to_string(),
        name: "单".to_string(),
        list_id: Some(5),
        is_own: true,
        song_count: 0,
        creator: None,
    }));
    app.take_effects();
    app.sync_queue_to_cloud();
    assert_eq!(
        app.take_effects(),
        vec![Effect::SyncQueue {
            source: SourceKind::Kugou,
            list_id: 5,
            name: "单".to_string(),
            songs: vec![song("a"), song("b"), song("a")],
        }]
    );
}

#[test]
fn a_song_put_in_next_is_played_next() {
    for (mode, by_user) in [
        (PlaybackMode::Sequential, false),
        (PlaybackMode::RepeatAll, false),
        (PlaybackMode::RepeatOne, true),
    ] {
        let mut queue = PlayQueue::new(mode);
        queue.replace_with(vec![song("a"), song("b")], 1);
        queue.insert_next(song("n"));
        queue.advance(by_user, 7);
        assert_eq!(queue.current(), Some(song("n")));
    }
}
