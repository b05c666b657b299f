//! What belongs to the user: the login, the services, the settings, and what is kept for
//! the next start; and what the mouse and the desktop do with it.

use vstd::prelude::*;
use crate::app::effect::{AfterSave, Effect, Setting};
use crate::app::nav::{Focus, Tab};
use crate::app::playing::{keys_are_free, lemma_free_keys};
use crate::app::queue::PlaybackMode;
use crate::app::settings::{changed, cycled, device_on, modes, place_in, quality_on, texts};
use crate::app::state::{AppView, SettingOptions};
use crate::audio::engine::PlaybackState;
use crate::config::{quality, quality_place, Config, ConfigView, CoverFill, QUALITIES};
use crate::error::AppError;
use crate::event::{Action, AudioSnapshot, HitTarget, HitZone, VipClaimOutcome};
use crate::model::{Song, UserInfo, VipInfo};
use crate::source::{header_for, SourceKind};

verus! {

// Logging in.

/// Logging in asks the service in use for a code, and a panel waits for it. While one is
/// shown, or within the time that the service wants between two, nothing is asked.
pub proof fn logins_ask_for_a_code(app: AppView)
    ensures
        ({
            let shown = app.state.panels.login is Some && !(app.state.panels.login->0).finished;
            let next = app.begin_login();
            &&& !shown && app.state.account.last_qr_key_at is None ==> {
                &&& next.effects == app.effects.push(
                    Effect::LoginQr { source: app.state.config.sources.active },
                )
                &&& next.state.panels.login is Some
                &&& !(next.state.panels.login->0).finished
                &&& next.state.account.last_qr_key_at == Some(app.clock.now_ms)
            }
            &&& shown ==> next.effects == app.effects && next.state.panels == app.state.panels
            &&& app.state.account.last_qr_key_at == Some(app.clock.now_ms) ==> next.effects
                == app.effects
        }),
{
    reveal(AppView::begin_login);
}

/// The code that comes is the one that is shown, and the service is asked what became of
/// that very code, until the login has ended.
pub proof fn codes_are_shown_and_asked_about(app: AppView, key: Seq<char>, content: Seq<char>)
    ensures
        ({
            let shown = app.login_code(key, content);
            &&& shown.state.panels.login is Some
            &&& (shown.state.panels.login->0).key == key
            &&& (shown.state.panels.login->0).qr == content
            &&& !(shown.state.panels.login->0).finished
            &&& shown.effects == app.effects
            &&& key.len() > 0 ==> shown.poll_login() == shown.emit(
                Effect::LoginCheck { source: app.state.config.sources.active, key },
            )
        }),
        app.state.panels.login is None ==> app.poll_login() == app,
        app.state.panels.login matches Some(login) ==> (login.finished ==> app.poll_login()
            == app),
{
    reveal(AppView::login_code);
    reveal(AppView::poll_login);
}

/// A login with a token is stored as a cookie that holds both parts, is sent from then on,
/// and is saved.
pub proof fn logins_are_stored(app: AppView, token: Seq<char>, userid: Seq<char>)
    ensures
        ({
            let next = app.apply_login(token, userid);
            let cookie = "token="@ + token + "; userid="@ + userid;
            let active = app.state.config.sources.active;
            &&& next.state.config.cookie == Some(cookie)
            &&& next.state.config.dfid == app.state.config.dfid
            &&& next.state.config.sources.of(active).cookie == Some(cookie)
            &&& next.effects == app.effects.push(
                Effect::SetCookie(header_for(active, Some(cookie), app.state.config.dfid)),
            ).push(Effect::SaveConfig(AfterSave::Login { userid }))
        }),
{
    reveal(AppView::apply_login);
    reveal(AppView::use_cookie);
    reveal(AppView::save_config);
    reveal(Config::synced);
}

/// A login that the service gives as a cookie is stored as it is, is sent from then on, and
/// is saved.
pub proof fn cookies_are_stored(app: AppView, cookie: Seq<char>)
    ensures
        ({
            let next = app.apply_server_cookie(cookie);
            let active = app.state.config.sources.active;
            &&& next.state.config.cookie == Some(cookie)
            &&& next.state.config.sources.of(active).cookie == Some(cookie)
            &&& next.effects == app.effects.push(
                Effect::SetCookie(header_for(active, Some(cookie), app.state.config.dfid)),
            ).push(Effect::SaveConfig(AfterSave::ServerCookie))
        }),
{
    reveal(AppView::apply_server_cookie);
    reveal(AppView::use_cookie);
    reveal(AppView::save_config);
    reveal(Config::synced);
}

/// What a login brings decides how it is kept: a token with an account, else a cookie, else
/// the service keeps it, and one counts as logged in.
pub proof fn logins_are_kept_as_they_come(
    app: AppView,
    token: Option<Seq<char>>,
    userid: Option<Seq<char>>,
    cookie: Option<Seq<char>>,
)
    ensures
        token is Some && userid is Some ==> app.login_succeeded(token, userid, cookie)
            == app.apply_login(token->0, userid->0),
        (token is None || userid is None) && cookie is Some && crate::text::trimmed(
            cookie->0,
        ).len() > 0 ==> app.login_succeeded(token, userid, cookie) == app.apply_server_cookie(
            cookie->0,
        ),
        (token is None || userid is None) && cookie is None ==> {
            let next = app.login_succeeded(token, userid, cookie);
            &&& next.state.account.logged_in
            &&& next.state.panels.login is Some
            &&& (next.state.panels.login->0).finished
            &&& (next.state.panels.login->0).succeeded
            &&& next.state.config == app.state.config
        },
{
    reveal(AppView::login_succeeded);
    reveal(AppView::finish_server_side_login);
    reveal(AppView::set_logged_in);
    reveal(AppView::finish_login);
}

/// Once a login is saved one is logged in, and is told so; one that could not be saved is
/// told as failed, and does not count.
pub proof fn saved_logins_count(
    app: AppView,
    userid: Seq<char>,
    path: Seq<char>,
    error: AppError,
)
    ensures
        ({
            let next = app.config_saved(AfterSave::Login { userid }, path, Ok(()));
            &&& next.state.account.logged_in
            &&& next.state.panels.login is Some
            &&& (next.state.panels.login->0).finished
            &&& (next.state.panels.login->0).succeeded
        }),
        ({
            let next = app.config_saved(AfterSave::ServerCookie, path, Ok(()));
            &&& next.state.account.logged_in
            &&& next.state.panels.login is Some
            &&& (next.state.panels.login->0).succeeded
        }),
        ({
            let next = app.config_saved(AfterSave::Login { userid }, path, Err(error));
            &&& next.state.account.logged_in == app.state.account.logged_in
            &&& next.state.panels.login is Some
            &&& !(next.state.panels.login->0).succeeded
            &&& next.effects == app.effects
        }),
{
    lemma_login_is_stored(
        app,
        "登录成功（userid="@ + userid + "），凭据已写入 "@ + path,
    );
    lemma_login_is_stored(
        app,
        "「"@ + app.source().name() + "」登录成功，凭据已写入 "@ + path,
    );
    reveal(AppView::config_saved);
    reveal(AppView::finish_login);
}

#[verifier::rlimit(30)]
proof fn lemma_login_is_stored(app: AppView, message: Seq<char>)
    ensures
        ({
            let next = app.login_stored(message);
            &&& next.state.account.logged_in
            &&& next.state.panels.login is Some
            &&& (next.state.panels.login->0).finished
            &&& (next.state.panels.login->0).succeeded
        }),
{
    let told = app.set_logged_in(true).finish_login(true, message).success(
        "登录成功，按 Esc 关闭"@,
    );
    let vip = told.fetch_vip_status();
    let asked = vip.fetch_user_info();
    assert(told.state.account.logged_in && told.state.panels.login is Some && (
    told.state.panels.login->0).finished && (told.state.panels.login->0).succeeded) by {
        reveal(AppView::set_logged_in);
        reveal(AppView::finish_login);
    }
    assert(vip.state.account.logged_in && vip.state.panels == told.state.panels) by {
        reveal(AppView::fetch_vip_status);
    }
    assert(asked.state.account.logged_in && asked.state.panels == told.state.panels) by {
        reveal(AppView::fetch_user_info);
    }
    reveal(AppView::login_stored);
    reveal(AppView::maybe_claim_daily_vip);
    reveal(AppView::start_vip_sync);
    reveal(AppView::with_client);
    reveal(AppView::client_ready);
}

/// Logging in to another service than the one in use switches to it first; to the one in
/// use it begins at once, or asks whether the login that is there is to be replaced.
pub proof fn logins_go_to_the_chosen_service(app: AppView, kind: SourceKind)
    ensures
        kind == app.state.config.sources.active && !app.state.account.logged_in
            ==> app.begin_login_for(kind) == app.begin_login(),
        kind == app.state.config.sources.active && app.state.account.logged_in ==> {
            let next = app.begin_login_for(kind);
            &&& next.state.panels.pending_confirm == Some(crate::app::nav::ConfirmAction::Relogin)
            &&& next.effects == app.effects
        },
        kind != app.state.config.sources.active ==> app.begin_login_for(kind)
            == app.switch_source_with(kind, true),
{
    reveal(AppView::begin_login_for);
    reveal(AppView::login_or_confirm);
}

/// The account's data and its membership are asked for with a login alone, at the service
/// in use, and shown when they come.
pub proof fn accounts_are_asked_about(app: AppView, info: UserInfo, vip: VipInfo)
    ensures
        app.state.account.logged_in ==> app.fetch_user_info().effects == app.effects.push(
            Effect::UserDetail { source: app.state.config.sources.active },
        ) && app.fetch_user_info().state.account.user_info_load is Loading,
        !app.state.account.logged_in ==> app.fetch_user_info().effects == app.effects
            && app.fetch_user_info().state.account.user_info is None,
        app.state.account.logged_in && app.state.config.sources.active != SourceKind::Netease
            ==> app.fetch_vip_status() == app.emit(Effect::VipDetail),
        !app.state.account.logged_in ==> app.fetch_vip_status().effects == app.effects
            && app.fetch_vip_status().state.account.vip_info is None,
        app.user_loaded(info).state.account.user_info == Some(info),
        app.user_loaded(info).state.account.user_info_load is Idle,
        info.pic matches Some(url) ==> !app.state.config.lite_mode ==> app.user_loaded(
            info,
        ).effects == app.effects.push(Effect::FetchAvatar { url: url@ }),
        app.vip_loaded(vip).state.account.vip_info == Some(vip),
{
    reveal(AppView::fetch_user_info);
    reveal(AppView::fetch_vip_status);
    reveal(AppView::user_loaded);
    reveal(AppView::load_avatar);
    reveal(AppView::vip_loaded);
}

/// The membership of a day is claimed for that day, at the one service that has it, and
/// only with a login.
pub proof fn days_are_claimed(app: AppView)
    requires
        app.clock.today is Some,
        app.state.config.sources.active == SourceKind::KugouConcept,
    ensures
        ({
            let day = app.clock.today->0;
            &&& app.state.account.logged_in && !app.state.account.vip_claiming
                ==> app.claim_daily_vip().effects == app.effects.push(
                Effect::SyncVip { day, manual: true },
            )
            &&& app.state.account.logged_in && app.state.account.vip_claimed_day != Some(day)
                ==> app.maybe_claim_daily_vip().effects == app.effects.push(
                Effect::SyncVip { day, manual: false },
            )
            &&& !app.state.account.logged_in ==> app.claim_daily_vip().effects == app.effects
                && app.maybe_claim_daily_vip() == app
        }),
{
    reveal(AppView::claim_daily_vip);
    reveal(AppView::maybe_claim_daily_vip);
    reveal(AppView::start_vip_sync);
    reveal(AppView::with_client);
    reveal(AppView::client_ready);
}

/// A day that was claimed, now or before, is remembered; one that could not be is not. No
/// claim is under way then.
pub proof fn claims_are_remembered(app: AppView, day: Seq<char>, manual: bool, message: String)
    ensures
        app.vip_claimed(day, VipClaimOutcome::Claimed, manual).state.account.vip_claimed_day
            == Some(day),
        app.vip_claimed(day, VipClaimOutcome::AlreadyClaimed, manual).state.account.vip_claimed_day
            == Some(day),
        app.vip_claimed(
            day,
            VipClaimOutcome::Failed(message),
            manual,
        ).state.account.vip_claimed_day == app.state.account.vip_claimed_day,
        !app.vip_claimed(day, VipClaimOutcome::Claimed, manual).state.account.vip_claiming,
        !app.vip_claimed(day, VipClaimOutcome::AlreadyClaimed, manual).state.account.vip_claiming,
        !app.vip_claimed(day, VipClaimOutcome::Failed(message), manual).state.account.vip_claiming,
{
    reveal(AppView::vip_claimed);
    reveal(AppView::remember_claim);
    reveal(AppView::fetch_vip_status);
}

/// The fingerprint of the device is asked for where the service wants one and none is
/// known; the one that comes is kept, sent from then on, and saved.
pub proof fn fingerprints_are_kept(app: AppView, dfid: Seq<char>)
    ensures
        app.state.config.dfid is None && app.state.config.sources.active != SourceKind::Netease
            ==> app.ensure_device_fingerprint() == app.emit(Effect::DeviceFingerprint),
        app.state.config.dfid is Some ==> app.ensure_device_fingerprint() == app,
        ({
            let next = app.fingerprint_loaded(dfid);
            &&& next.state.config.dfid == Some(dfid)
            &&& next.state.config.cookie == app.state.config.cookie
            &&& next.effects == app.effects.push(
                Effect::SetCookie(
                    header_for(
                        app.state.config.sources.active,
                        app.state.config.cookie,
                        Some(dfid),
                    ),
                ),
            ).push(Effect::SaveConfig(AfterSave::Nothing))
        }),
{
    reveal(AppView::ensure_device_fingerprint);
    reveal(AppView::fingerprint_loaded);
    reveal(AppView::save_config);
    reveal(Config::synced);
}

// The services.

/// A service that is switched to is in use from then on, with the address and the login of
/// its own profile; that is saved, and its client is built with them. The login of the
/// service before is kept in its profile.
#[verifier::rlimit(30)]
pub proof fn services_are_switched_to(
    app: AppView,
    kind: SourceKind,
    then_login: bool,
    path: Seq<char>,
)
    requires
        kind != app.state.config.sources.active,
    ensures
        ({
            let before = app.state.config;
            let next = app.switch_source_with(kind, then_login);
            let config = next.state.config;
            let profile = before.sources.of(kind);
            &&& config.sources.active == kind
            &&& config.api_base == profile.api_base
            &&& config.cookie == profile.cookie
            &&& config.dfid == profile.device_id
            &&& config.sources.of(before.sources.active).cookie == before.cookie
            &&& config.sources.of(before.sources.active).device_id == before.dfid
            &&& config.quality == before.quality
            &&& next.effects == app.effects.push(
                Effect::SaveConfig(AfterSave::Switch { kind, then_login }),
            )
            &&& next.state.queue == app.state.queue
            &&& next.state.player == app.state.player
            &&& next.config_saved(AfterSave::Switch { kind, then_login }, path, Ok(()))
                == next.emit(
                Effect::Reconnect {
                    kind,
                    api_base: config.api_base,
                    cookie: header_for(kind, config.cookie, config.dfid),
                    then_login,
                },
            )
        }),
        app.switch_source_to(kind) == app.switch_source_with(kind, false),
{
    reveal(AppView::switch_source_with);
    reveal(AppView::switch_source_to);
    reveal(AppView::set_logged_in);
    reveal(AppView::save_config);
    reveal(AppView::config_saved);
    reveal(AppView::reconnect);
    reveal(Config::synced);
    reveal(Config::switched);
}

/// The marked service is the one that is enabled or disabled, and put in use. One that is
/// disabled is not put in use.
pub proof fn the_marked_service_is_changed(app: AppView, kind: SourceKind)
    requires
        app.selected_source() == Some(kind),
    ensures
        ({
            let next = app.toggle_source_enabled().state.config;
            let before = app.state.config;
            &&& kind != before.sources.active ==> next.sources.of(kind).enabled
                == !before.sources.of(kind).enabled && next.sources.active
                == before.sources.active
            &&& !before.sources.of(kind).enabled ==> next.sources.of(kind).enabled
        }),
        kind != app.state.config.sources.active && app.state.config.sources.of(kind).enabled
            ==> app.set_default_source() == app.switch_source_to(kind),
        kind != app.state.config.sources.active && !app.state.config.sources.of(kind).enabled
            ==> app.set_default_source().state.config == app.state.config
            && app.set_default_source().effects == app.effects,
{
    reveal(AppView::toggle_source_enabled);
    reveal(AppView::toggle_enabled);
    reveal(AppView::set_default_source);
    reveal(AppView::save_config);
    reveal(Config::synced);
    reveal(Config::switched);
}

/// Each service has a name and an address of its own, and only one that uses it is sent the
/// fingerprint of the device.
pub proof fn services_are_told_apart(
    kind: SourceKind,
    other: SourceKind,
    cookie: Option<Seq<char>>,
    dfid: Seq<char>,
)
    ensures
        kind.name() == other.name() ==> kind == other,
        kind.address() == other.address() ==> kind == other,
        header_for(SourceKind::Netease, cookie, Some(dfid)) == header_for(
            SourceKind::Netease,
            cookie,
            None,
        ),
        header_for(kind, None, None) is None,
        header_for(SourceKind::Kugou, None, Some(dfid)) == Some("dfid="@ + dfid),
        cookie matches Some(c) ==> header_for(kind, cookie, None) == Some(crate::cookie::tidy(c)),
{
    reveal_strlit("酷狗");
    reveal_strlit("酷狗概念版");
    reveal_strlit("网易云");
    reveal_strlit("http://127.0.0.1:3000");
    reveal_strlit("http://127.0.0.1:3001");
    reveal_strlit("http://127.0.0.1:3002");
    assert("酷狗"@.len() == 2 && "酷狗概念版"@.len() == 5 && "网易云"@.len() == 3);
    assert("http://127.0.0.1:3000"@[20] == '0');
    assert("http://127.0.0.1:3001"@[20] == '1');
    assert("http://127.0.0.1:3002"@[20] == '2');
    reveal(header_for);
}

// The settings.

/// A value that is found in a list stands there, at its first place.
pub proof fn values_are_found<T>(options: Seq<T>, value: T, from: int)
    requires
        0 <= from <= options.len() <= usize::MAX,
    ensures
        match place_in(options, value, from) {
            Some(i) => from <= i < options.len() && options[i as int] == value,
            None => forall|j: int| from <= j < options.len() ==> #[trigger] options[j] != value,
        },
    decreases options.len() - from,
{
    if from < options.len() && options[from] != value {
        values_are_found(options, value, from + 1);
    }
}

/// The next value in a list is the one behind the present value, and the first behind the
/// last; the one before is the one before it. A value that is not in the list counts as the
/// first.
pub proof fn values_follow_each_other<T>(options: Seq<T>, value: T)
    requires
        0 < options.len() <= usize::MAX,
    ensures
        ({
            let i: int = match place_in(options, value, 0) {
                Some(i) => i as int,
                None => 0,
            };
            &&& cycled(options, value, 1) == Some(
                options[if i + 1 < options.len() {
                    i + 1
                } else {
                    0
                }],
            )
            &&& cycled(options, value, -1) == Some(
                options[if i > 0 {
                    i - 1
                } else {
                    options.len() - 1
                }],
            )
        }),
{
    values_are_found(options, value, 0);
    let n = options.len() as int;
    let i: int = match place_in(options, value, 0) {
        Some(i) => i as int,
        None => 0,
    };
    if i + 1 < n {
        vstd::arithmetic::div_mod::lemma_small_mod((i + 1) as nat, n as nat);
    } else {
        vstd::arithmetic::div_mod::lemma_mod_self_0(n);
    }
    if i > 0 {
        vstd::arithmetic::div_mod::lemma_small_mod((i - 1) as nat, n as nat);
    } else {
        vstd::arithmetic::div_mod::lemma_mod_add_multiples_vanish(-1, n);
        vstd::arithmetic::div_mod::lemma_small_mod((n - 1) as nat, n as nat);
    }
}

/// Changing a setting changes that one, to the next of its values, and leaves all others.
pub proof fn settings_change_one_at_a_time(
    config: ConfigView,
    options: SettingOptions,
    setting: Setting,
)
    requires
        options.themes@.len() > 0,
        options.refresh_ms@.len() > 0,
        options.page_sizes@.len() > 0,
        options.cache_limits@.len() > 0,
    ensures
        ({
            let next = changed(config, options, setting, 1);
            &&& setting == Setting::Theme ==> Some(next.theme) == cycled(
                texts(options.themes@),
                config.theme,
                1,
            )
            &&& setting != Setting::Theme ==> next.theme == config.theme
            &&& setting == Setting::RefreshMs ==> Some(next.tick_ms) == cycled(
                options.refresh_ms@,
                config.tick_ms,
                1,
            )
            &&& setting != Setting::RefreshMs ==> next.tick_ms == config.tick_ms
            &&& setting == Setting::PageSize ==> Some(next.page_size) == cycled(
                options.page_sizes@,
                config.page_size,
                1,
            )
            &&& setting != Setting::PageSize ==> next.page_size == config.page_size
            &&& setting == Setting::CacheLimitMib ==> Some(next.cache_limit_mib) == cycled(
                options.cache_limits@,
                config.cache_limit_mib,
                1,
            )
            &&& setting != Setting::CacheLimitMib ==> next.cache_limit_mib
                == config.cache_limit_mib
            &&& setting == Setting::LyricOffsetMs && -10_000 <= config.lyric_offset_ms <= 9_900
                ==> next.lyric_offset_ms == config.lyric_offset_ms + 100
            &&& setting != Setting::LyricOffsetMs ==> next.lyric_offset_ms
                == config.lyric_offset_ms
            &&& next.basic_color == (if setting == Setting::BasicColor {
                !config.basic_color
            } else {
                config.basic_color
            })
            &&& next.lite_mode == (if setting == Setting::LiteMode {
                !config.lite_mode
            } else {
                config.lite_mode
            })
            &&& setting != Setting::Quality ==> next.quality == config.quality
            &&& setting == Setting::PlaybackMode ==> next.playback_mode
                == config.playback_mode.following()
            &&& setting != Setting::PlaybackMode ==> next.playback_mode == config.playback_mode
            &&& setting != Setting::CoverFill ==> next.cover_fill == config.cover_fill
            &&& setting != Setting::DownloadDir ==> next.download_dir == config.download_dir
            &&& next.api_base == config.api_base
            &&& next.cookie == config.cookie
            &&& next.volume == config.volume
            &&& next.sources == config.sources
            &&& next.cache_dir == config.cache_dir
        }),
{
    assert(texts(options.themes@).len() == options.themes@.len());
    lemma_mode_is_followed(config.playback_mode);
}

proof fn lemma_mode_is_followed(mode: PlaybackMode)
    ensures
        cycled(modes(), mode, 1) == Some(mode.following()),
{
    reveal_with_fuel(place_in, 5);
    values_follow_each_other(modes(), mode);
}

/// The quality that follows is the next in their order, and the first follows the last.
pub proof fn qualities_follow_each_other(i: int)
    requires
        0 <= i < QUALITIES,
        quality_place(quality(i), 0) == Some(i as usize),
    ensures
        quality_on(quality(i), 1) == quality(
            if i + 1 < QUALITIES {
                i + 1
            } else {
                0
            },
        ),
{
}

/// The key for the quality takes the next one, which is kept and saved, and nothing that
/// plays is touched.
pub proof fn the_next_quality_is_kept(app: AppView)
    ensures
        app.cycle_quality().state.config.quality == quality_on(app.state.config.quality, 1),
        app.cycle_quality().effects == app.effects.push(Effect::SaveConfig(AfterSave::Nothing)),
        app.cycle_quality().state.player == app.state.player,
{
    reveal(AppView::cycle_quality);
    reveal(AppView::save_config);
    reveal(Config::synced);
}

/// The marked setting is the one that is changed, and what is saved is told so. Of the
/// fourteen lines each stands for its own setting.
#[verifier::rlimit(30)]
pub proof fn the_marked_setting_is_changed(app: AppView, delta: int)
    ensures
        app.state.marks.settings == 1 ==> {
            let next = app.adjust_setting(delta);
            &&& next.state.config.quality == quality_on(app.state.config.quality, delta)
            &&& next.effects.last() == Effect::<Seq<char>, Seq<Song>>::SaveConfig(
                AfterSave::Setting(Setting::Quality),
            )
        },
        app.state.marks.settings == 7 && delta != 0 ==> app.adjust_setting(
            delta,
        ).state.config.basic_color == !app.state.config.basic_color,
        app.state.marks.settings == 8 && delta != 0 ==> app.adjust_setting(
            delta,
        ).state.screen.show_lyric_panel == !app.state.screen.show_lyric_panel,
        app.state.marks.settings == 9 && delta != 0 ==> app.adjust_setting(
            delta,
        ).state.screen.sidebar_visible == !app.state.screen.sidebar_visible,
        app.state.marks.settings == 10 && delta != 0 ==> app.adjust_setting(
            delta,
        ).state.config.lite_mode == !app.state.config.lite_mode,
        app.state.marks.settings == 13 ==> app.adjust_setting(delta) == app.change_device(delta),
        app.state.marks.settings >= 14 ==> app.adjust_setting(delta) == app,
{
    reveal(AppView::adjust_setting);
    reveal(AppView::change_setting);
    reveal(AppView::change_config);
    reveal(AppView::change_lyric_panel);
    reveal(AppView::change_sidebar);
    reveal(AppView::change_lite_mode);
    reveal(AppView::no_cover);
    reveal(AppView::save_config);
    reveal(Config::synced);
}

/// The device that is chosen is the one that is opened and kept. A song that sounds is to
/// go on there at its place; a silent one is not.
pub proof fn chosen_devices_are_opened(app: AppView, delta: int)
    requires
        app.state.player.audio_devices.len() > 0,
    ensures
        ({
            let next = app.change_device(delta);
            let device = device_on(
                app.state.player.audio_devices,
                app.state.config.audio_device,
                delta,
            )->0;
            &&& next.state.config.audio_device == device
            &&& next.effects[app.effects.len() as int] == Effect::<
                Seq<char>,
                Seq<Song>,
            >::AudioUseDevice(device)
            &&& next.effects.last() == Effect::<Seq<char>, Seq<Song>>::SaveConfig(
                AfterSave::Device,
            )
            &&& app.state.player.playback == PlaybackState::Playing && app.state.player.current
                is Some ==> next.pending_device_resume == Some(
                (app.state.player.current->0, app.state.player.position_ms),
            )
            &&& app.state.player.playback != PlaybackState::Playing
                ==> next.pending_device_resume is None
        }),
{
    reveal(AppView::change_device);
    reveal(AppView::save_config);
    reveal(Config::synced);
}

/// Among the devices the system's own choice comes first, then the devices in their order,
/// and then the system's own choice again.
pub proof fn devices_follow_each_other(devices: Seq<String>)
    requires
        0 < devices.len() < usize::MAX,
    ensures
        device_on(devices, None, 1) == Some(Some(devices[0]@)),
        device_on(devices, None, -1) == Some(Some(devices.last()@)),
        device_on(devices, None, 0) == Some(None::<Seq<char>>),
{
    let n = devices.len() as int + 1;
    vstd::arithmetic::div_mod::lemma_small_mod(1, n as nat);
    vstd::arithmetic::div_mod::lemma_mod_add_multiples_vanish(-1, n);
    vstd::arithmetic::div_mod::lemma_small_mod((n - 1) as nat, n as nat);
    vstd::arithmetic::div_mod::lemma_small_mod(0, n as nat);
    assert(texts(devices)[0] == devices[0]@);
    assert(texts(devices)[n - 2] == devices.last()@);
}

// What is kept.

/// What is saved of a session is the queue, the song it stands at, the place in it, and the
/// day of the last claim.
pub proof fn sessions_keep_the_queue(app: AppView)
    ensures
        app.session().queue == app.state.queue.items,
        app.session().cursor == app.state.queue.cursor,
        app.session().position_ms == app.state.player.position_ms,
        app.session().vip_claimed_day == app.state.account.vip_claimed_day,
{
}

/// A program that ends saves the settings as they are used and the session, and then lets
/// the audio thread go. One that is forced to end saves nothing.
pub proof fn ending_saves_what_is_used(app: AppView)
    requires
        app.active_stream is None,
    ensures
        !app.state.screen.force_quit ==> {
            let next = app.shutdown();
            &&& next.effects == app.effects.push(Effect::SaveConfig(AfterSave::Nothing)).push(
                Effect::SaveSession,
            ).push(Effect::AudioShutdown)
            &&& next.state.config.volume == app.state.player.volume
            &&& next.state.config.playback_mode == app.state.queue.mode
            &&& next.state.config.quality == app.state.config.quality
            &&& next.state.config.cookie == app.state.config.cookie
        },
        app.state.screen.force_quit ==> app.shutdown().effects == app.effects.push(
            Effect::AudioShutdown,
        ),
{
    reveal(AppView::shutdown);
    reveal(AppView::persist_config);
    reveal(AppView::persist_session);
    reveal(AppView::cancel_stream);
    reveal(AppView::save_config);
    reveal(Config::synced);
}

/// The keys that end the program end it, and tell an end by force from one without.
pub proof fn keys_end_the_program(app: AppView)
    requires
        keys_are_free(app),
    ensures
        app.handle_action(Action::Quit).state.screen.should_quit,
        app.handle_action(Action::Quit).state.screen.force_quit == app.state.screen.force_quit,
        app.handle_action(Action::ForceQuit).state.screen.should_quit,
        app.handle_action(Action::ForceQuit).state.screen.force_quit,
{
    lemma_free_keys(app, Action::Quit);
    lemma_free_keys(app, Action::ForceQuit);
    reveal(AppView::handle_normal_action);
    reveal(AppView::quit_key);
    reveal(AppView::quit);
}

/// The keys of the account, the services and the settings do what they are named after.
#[verifier::rlimit(30)]
pub proof fn keys_of_the_user(app: AppView)
    requires
        keys_are_free(app),
    ensures
        app.handle_action(Action::Login) == app.open_login_picker(),
        app.handle_action(Action::ClaimVip) == app.claim_daily_vip(),
        app.handle_action(Action::SwitchSource) == app.open_sources_page(),
        app.handle_action(Action::SetDefaultSource) == app.set_default_source(),
        app.handle_action(Action::RaiseSourcePriority) == app.shift_source_priority(true),
        app.handle_action(Action::LowerSourcePriority) == app.shift_source_priority(false),
        app.handle_action(Action::CycleQuality) == app.cycle_quality(),
        app.handle_action(Action::CyclePlaybackMode) == app.cycle_playback_mode(),
{
    lemma_free_keys(app, Action::Login);
    lemma_free_keys(app, Action::ClaimVip);
    lemma_free_keys(app, Action::SwitchSource);
    lemma_free_keys(app, Action::SetDefaultSource);
    lemma_free_keys(app, Action::RaiseSourcePriority);
    lemma_free_keys(app, Action::LowerSourcePriority);
    lemma_free_keys(app, Action::CycleQuality);
    lemma_free_keys(app, Action::CyclePlaybackMode);
    reveal(AppView::handle_normal_action);
}

/// The keys for what is seen show it or hide it, and open what they are named after.
#[verifier::rlimit(30)]
pub proof fn keys_of_the_screen(app: AppView)
    requires
        keys_are_free(app),
    ensures
        app.handle_action(Action::ToggleLyricPanel).state.screen.show_lyric_panel
            == !app.state.screen.show_lyric_panel,
        app.handle_action(Action::ToggleSidebar).state.screen.sidebar_visible
            == !app.state.screen.sidebar_visible,
        app.handle_action(Action::Help).state.panels.help.open,
        app.handle_action(Action::NewCloudPlaylist).state.panels.prompt is Some,
        app.handle_action(Action::ToggleWindow) == app.emit(Effect::ToggleWindow),
{
    lemma_free_keys(app, Action::ToggleLyricPanel);
    lemma_free_keys(app, Action::ToggleSidebar);
    lemma_free_keys(app, Action::Help);
    lemma_free_keys(app, Action::NewCloudPlaylist);
    lemma_free_keys(app, Action::ToggleWindow);
    assert(app.handle_action(Action::ToggleLyricPanel) == app.toggle_lyric_panel()
        && app.handle_action(Action::ToggleSidebar) == app.toggle_sidebar() && app.handle_action(
        Action::Help,
    ) == app.open_help() && app.handle_action(Action::NewCloudPlaylist)
        == app.new_cloud_playlist() && app.handle_action(Action::ToggleWindow)
        == app.toggle_window()) by {
        reveal(AppView::handle_normal_action);
    }
    reveal(AppView::toggle_lyric_panel);
    reveal(AppView::toggle_sidebar);
    reveal(AppView::open_help);
    reveal(AppView::new_cloud_playlist);
    reveal(AppView::toggle_window);
}

/// On the settings page the keys to the sides turn the marked setting one value back or on.
pub proof fn side_keys_turn_settings(app: AppView)
    requires
        keys_are_free(app),
        app.state.screen.tab == Tab::Settings,
    ensures
        app.handle_action(Action::CursorRight) == app.adjust_setting(1),
        app.handle_action(Action::SeekForward) == app.adjust_setting(1),
        app.handle_action(Action::CursorLeft) == app.adjust_setting(-1),
        app.handle_action(Action::SeekBackward) == app.adjust_setting(-1),
{
    reveal(AppView::handle_action);
    reveal(AppView::handle_dialog_key);
    reveal(AppView::handle_page_key);
}

// The clock.

/// With every beat the screen follows the audio thread, and the session is saved once half a
/// minute has gone by since the last time.
pub proof fn sessions_are_saved_in_time(app: AppView)
    ensures
        app.clock.now_ms >= app.last_session_save + 30_000 ==> app.save_session_in_time().effects
            == app.effects.push(Effect::SaveSession)
            && app.save_session_in_time().last_session_save == app.clock.now_ms,
        app.clock.now_ms < app.last_session_save + 30_000 ==> app.save_session_in_time() == app,
{
    reveal(AppView::save_session_in_time);
}

/// While a song plays, each beat shows the line that is sung; every tenth beat a login that
/// is under way is asked about, and every fiftieth the cache is measured.
pub proof fn beats_do_their_work(app: AppView, ticks: u64)
    ensures
        app.state.player.playback == PlaybackState::Playing ==> app.sing()
            == app.update_active_lyric(),
        app.state.player.playback != PlaybackState::Playing ==> app.sing() == app,
        app.state.panels.login is Some && app.state.screen.ticks % 10 == 0 ==> app.poll_in_time()
            == app.poll_login(),
        ticks % 50 == 0 ==> app.measure_in_time(ticks) == app.emit(Effect::MeasureCache),
        ticks % 50 != 0 ==> app.measure_in_time(ticks) == app,
{
    reveal(AppView::sing);
    reveal(AppView::poll_in_time);
    reveal(AppView::measure_in_time);
    reveal(AppView::refresh_cache_usage);
}

/// A beat shows what the audio thread says, and lets the desktop show it too.
#[verifier::rlimit(30)]
pub proof fn beats_follow_the_audio_thread(app: AppView, audio: AudioSnapshot)
    requires
        audio.state == PlaybackState::Playing || audio.state == PlaybackState::Paused,
    ensures
        ({
            let next = app.tick(audio);
            &&& next.state.player.position_ms == audio.position_ms
            &&& next.state.player.playback == audio.state
            &&& next.state.player.current == app.state.player.current
            &&& next.state.queue == app.state.queue
            &&& next.state.config == app.state.config
        }),
{
    let counted = app.count_tick();
    let saved = counted.save_session_in_time();
    let followed = saved.follow_audio(audio);
    let shown = followed.show_audio();
    let sung = shown.sing();
    let polled = sung.poll_in_time();
    assert(app.tick(audio) == polled.measure_in_time(counted.state.screen.ticks)) by {
        reveal(AppView::tick);
    }
    assert(saved.state.player == app.state.player && saved.state.queue == app.state.queue
        && saved.state.config == app.state.config) by {
        reveal(AppView::count_tick);
        reveal(AppView::save_session_in_time);
    }
    reveal(AppView::follow_audio);
    assert(shown.state == followed.state) by {
        reveal(AppView::show_audio);
    }
    assert(sung.state.player.position_ms == shown.state.player.position_ms
        && sung.state.player.playback == shown.state.player.playback && sung.state.player.current
        == shown.state.player.current && sung.state.queue == shown.state.queue
        && sung.state.config == shown.state.config) by {
        reveal(AppView::sing);
        reveal(AppView::update_active_lyric);
    }
    assert(polled.state == sung.state) by {
        reveal(AppView::poll_in_time);
        reveal(AppView::poll_login);
    }
    reveal(AppView::measure_in_time);
    reveal(AppView::refresh_cache_usage);
}

// The mouse and the desktop.

/// A click on a line marks that line and gives its list the keys; a second click on it does
/// what Enter does.
#[verifier::rlimit(30)]
pub proof fn clicks_mark_the_line(app: AppView, zone: HitZone, index: usize)
    requires
        zone.index == Some(index),
    ensures
        zone.target == HitTarget::Queue && !zone.double_click ==> {
            let next = app.click_list_row(zone);
            &&& next.state.marks.queue == Some(index)
            &&& next.state.screen.focus == Focus::Queue
            &&& next.state.queue == app.state.queue
            &&& next.state.player == app.state.player
        },
        zone.target == HitTarget::Songs && !zone.double_click && app.state.screen.tab
            == Tab::Search ==> {
            let next = app.click_list_row(zone);
            &&& next.state.pages.search.results.cursor == Some(index)
            &&& next.state.pages.search.results.songs == app.state.pages.search.results.songs
            &&& next.state.screen.focus == Focus::Secondary
            &&& next.state.player == app.state.player
        },
        zone.target == HitTarget::Queue && zone.double_click ==> app.click_list_row(zone)
            == app.click_list_row(HitZone { double_click: false, ..zone }).activate(),
        zone.target == HitTarget::Songs && zone.double_click ==> app.click_list_row(zone)
            == app.click_list_row(HitZone { double_click: false, ..zone }).activate(),
{
    reveal(AppView::click_list_row);
    reveal(AppView::point_at);
    reveal(AppView::focus_hit_target);
    reveal(AppView::with_focus);
    reveal(crate::app::pages::PagesView::select_song);
    reveal(crate::app::pages::PagesView::songs_of);
    reveal(crate::app::pages::PagesView::put_songs);
}

/// A click on the progress bar asks for the place as far into the bar as the click, and the
/// song goes on from the place that comes of it, within the song.
pub proof fn clicks_seek_within_the_song(app: AppView, zone: HitZone, column: u16, target: u64)
    requires
        app.state.player.duration_ms > 0,
        zone.width > 0,
        zone.left <= column,
    ensures
        app.click_progress(zone, column) == app.emit(
            Effect::EstimateProgress {
                offset: (column - zone.left) as u16,
                width: zone.width,
                duration_ms: app.state.player.duration_ms,
            },
        ),
        ({
            let place = if target < app.state.player.duration_ms {
                target
            } else {
                (app.state.player.duration_ms - 1) as u64
            };
            &&& app.progress_estimated(target).effects == app.effects.push(
                Effect::AudioSeekTo(place),
            )
            &&& app.progress_estimated(target).state.player.position_ms == place
        }),
{
    reveal(AppView::click_progress);
    reveal(AppView::progress_estimated);
}

/// The desktop is shown the song that plays, where it stands, how long it is and whether it
/// plays; nothing where no song is.
pub proof fn the_desktop_shows_the_song(app: AppView)
    requires
        app.state.player.position_ms * 1000 <= i64::MAX,
        app.state.player.duration_ms * 1000 <= i64::MAX,
    ensures
        app.track_info().status == app.state.player.playback,
        app.tray_info().status == app.state.player.playback,
        app.state.player.current matches Some(song) ==> {
            &&& app.track_info().title == song.name@
            &&& app.track_info().artists == song.singers@
            &&& app.track_info().position_us == app.state.player.position_ms * 1000
            &&& app.track_info().duration_us == app.state.player.duration_ms * 1000
            &&& app.tray_info().title == song.name@
            &&& app.tray_info().artists == song.singers@
        },
        app.state.player.current is None ==> {
            &&& app.track_info().title.len() == 0
            &&& app.track_info().duration_us == 0
            &&& app.tray_info().title.len() == 0
        },
{
}

/// Codes are asked for at least half a minute apart.
pub proof fn codes_are_asked_for_in_time(app: AppView, last: u64)
    requires
        app.state.account.last_qr_key_at == Some(last),
        app.state.panels.login is None,
        last <= app.clock.now_ms,
    ensures
        app.clock.now_ms - last < 30_000 ==> app.begin_login().effects == app.effects,
        app.clock.now_ms - last >= 30_000 ==> app.begin_login().effects == app.effects.push(
            Effect::LoginQr { source: app.state.config.sources.active },
        ),
{
    reveal(AppView::begin_login);
}

/// Esc closes the panel of a login.
pub proof fn logins_can_be_left(app: AppView)
    ensures
        app.handle_login_key(Action::Cancel).state.panels.login is None,
        app.handle_login_key(Action::Cancel).effects == app.effects,
        app.handle_login_key(Action::Cancel).state.account == app.state.account,
{
    reveal(AppView::handle_login_key);
    reveal(AppView::close_login);
}

/// Once the client of a service is built, its address is the one that is used and told, and
/// its account is asked about; where it could not be built, that is told.
#[verifier::rlimit(30)]
pub proof fn built_clients_are_used(app: AppView, kind: SourceKind, error: AppError)
    ensures
        ({
            let next = app.reconnected(kind, false, Ok(()));
            &&& next.client_base == app.state.config.api_base
            &&& next.state.queue == app.state.queue
            &&& next.state.player == app.state.player
            &&& next.state.config == app.state.config
        }),
        ({
            let next = app.reconnected(kind, false, Err(error));
            &&& next.client_base == app.client_base
            &&& next.state.screen.status.level == crate::app::screen::Level::Error
            &&& next.effects == app.effects
            &&& next.state.player == app.state.player
        }),
{
    reveal(AppView::reconnected);
    reveal(AppView::fetch_vip_status);
    reveal(AppView::fetch_user_info);
    reveal(AppView::ensure_device_fingerprint);
    reveal(AppView::maybe_claim_daily_vip);
    reveal(AppView::start_vip_sync);
    reveal(AppView::with_client);
    reveal(AppView::client_ready);
    reveal(AppView::say_switched);
}

/// A login that another service was switched to for begins as soon as its client is there.
pub proof fn logins_follow_the_switch(app: AppView, kind: SourceKind, result: Result<(), AppError>)
    ensures
        app.reconnected(kind, true, result) == app.reconnected(
            kind,
            false,
            result,
        ).login_or_confirm(),
{
    reveal(AppView::reconnected);
}

/// Another limit of the cache holds at once: for the cache that is in use, which is measured
/// anew, and in the settings, which are saved.
#[verifier::rlimit(30)]
pub proof fn limits_hold_at_once(app: AppView, delta: int)
    requires
        app.state.marks.settings == 6,
        app.options.cache_limits@.len() > 0,
    ensures
        ({
            let next = app.adjust_setting(delta);
            &&& Some(next.state.config.cache_limit_mib) == cycled(
                app.options.cache_limits@,
                app.state.config.cache_limit_mib,
                delta,
            )
            &&& next.cache == crate::audio::cache::CacheView::of(
                app.state.config.cache_dir,
                next.state.config.cache_limit_mib,
            )
            &&& next.effects == app.effects.push(Effect::MeasureCache).push(
                Effect::SaveConfig(AfterSave::Setting(Setting::CacheLimitMib)),
            )
        }),
{
    reveal(AppView::adjust_setting);
    reveal(AppView::change_setting);
    reveal(AppView::change_cache_limit);
    reveal(AppView::change_config);
    reveal(AppView::refresh_cache_usage);
    reveal(AppView::save_config);
    reveal(Config::synced);
}

/// The simple mode lets the cover go at once.
#[verifier::rlimit(30)]
pub proof fn the_simple_mode_drops_the_cover(app: AppView, delta: int)
    requires
        app.state.marks.settings == 10,
        !app.state.config.lite_mode,
        delta != 0,
    ensures
        app.adjust_setting(delta).state.config.lite_mode,
        app.adjust_setting(delta).state.player.cover.hash is None,
        app.adjust_setting(delta).state.player.current == app.state.player.current,
{
    reveal(AppView::adjust_setting);
    reveal(AppView::change_setting);
    reveal(AppView::change_lite_mode);
    reveal(AppView::change_config);
    reveal(AppView::no_cover);
    reveal(AppView::save_config);
    reveal(Config::synced);
}

/// The ways to fill the place of the cover follow each other: cut, distorted, and with
/// margins; the setting for the quality takes the next one.
pub proof fn covers_and_qualities_turn(config: ConfigView, options: SettingOptions)
    ensures
        changed(config, options, Setting::CoverFill, 1).cover_fill == (match config.cover_fill {
            CoverFill::Crop => CoverFill::Stretch,
            CoverFill::Stretch => CoverFill::Fit,
            CoverFill::Fit => CoverFill::Crop,
        }),
        changed(config, options, Setting::Quality, 1).quality == quality_on(config.quality, 1),
        options.download_dirs@.len() > 0 ==> changed(
            config,
            options,
            Setting::DownloadDir,
            1,
        ).download_dir == cycled(
            texts(options.download_dirs@),
            match config.download_dir {
                Some(dir) => dir,
                None => "~/Music"@,
            },
            1,
        ),
{
    reveal_with_fuel(place_in, 4);
    values_follow_each_other(crate::app::settings::fills(), config.cover_fill);
    assert(texts(options.download_dirs@).len() == options.download_dirs@.len());
}

/// A program that starts asks for what the first page and the account need, and says whether
/// there is no sound.
pub proof fn starting_says_whether_there_is_sound(app: AppView, failed: bool)
    ensures
        failed ==> app.audio_missing(failed).state.screen.status.level
            == crate::app::screen::Level::Error,
        !failed ==> app.audio_missing(failed) == app,
        app.announce_readiness().effects == app.effects,
        app.state.account.logged_in ==> app.announce_readiness().state.screen.status.level
            == crate::app::screen::Level::Info,
        !app.state.account.logged_in ==> app.announce_readiness().state.screen.status.level
            == crate::app::screen::Level::Warn,
{
    reveal(AppView::audio_missing);
    reveal(AppView::announce_readiness);
}

/// Behind a device comes the next one in their order, and behind the last the system's own
/// choice.
pub proof fn the_next_device_is_chosen(devices: Seq<String>, i: int)
    requires
        0 <= i < devices.len() < usize::MAX,
        place_in(texts(devices), devices[i]@, 0) == Some(i as usize),
    ensures
        device_on(devices, Some(devices[i]@), 1) == Some(
            if i + 1 < devices.len() {
                Some(devices[i + 1]@)
            } else {
                None
            },
        ),
        device_on(devices, Some(devices[i]@), -1) == Some(
            if i > 0 {
                Some(devices[i - 1]@)
            } else {
                None
            },
        ),
{
    let n = devices.len() as int + 1;
    if i + 2 < n {
        vstd::arithmetic::div_mod::lemma_small_mod((i + 2) as nat, n as nat);
        assert(texts(devices)[i + 1] == devices[i + 1]@);
    } else {
        vstd::arithmetic::div_mod::lemma_mod_self_0(n);
    }
    vstd::arithmetic::div_mod::lemma_small_mod(i as nat, n as nat);
    if i > 0 {
        assert(texts(devices)[i - 1] == devices[i - 1]@);
    }
}

/// The desktop is also shown the album and a large cover.
pub proof fn the_desktop_shows_album_and_cover(app: AppView)
    requires
        app.state.player.current is Some,
    ensures
        ({
            let song = app.state.player.current->0;
            &&& song.album matches Some(album) ==> app.track_info().album == Some(album@)
            &&& song.album is None ==> app.track_info().album is None
            &&& song.cover matches Some(url) ==> app.track_info().art_url == Some(
                crate::model::sized(url@, 400),
            )
            &&& song.cover is None ==> app.track_info().art_url is None
        }),
{
}

/// A program that starts takes up the session, and has the cache measured.
pub proof fn starting_takes_up_the_session(
    app: AppView,
    session: Option<crate::app::session::Session<Seq<char>, Seq<Song>>>,
    audio_failed: bool,
)
    ensures
        ({
            let next = app.start(session, audio_failed);
            let restored = app.restore_session(session);
            &&& next.state.queue == restored.state.queue
            &&& next.state.player == restored.state.player
            &&& next.state.config == restored.state.config
            &&& next.effects.contains(Effect::MeasureCache)
        }),
{
    let restored = app.restore_session(session);
    let greeted = restored.announce_readiness().audio_missing(audio_failed);
    let known = greeted.ensure_device_fingerprint();
    let measured = known.refresh_cache_usage();
    let vip = measured.fetch_vip_status();
    let info = vip.fetch_user_info();
    let claimed = info.maybe_claim_daily_vip();
    let next = claimed.ensure_tab_loaded(claimed.state.screen.tab);
    assert(app.start(session, audio_failed) == next) by {
        reveal(AppView::start);
    }
    assert(greeted.state.queue == restored.state.queue && greeted.state.player
        == restored.state.player && greeted.state.config == restored.state.config) by {
        reveal(AppView::announce_readiness);
        reveal(AppView::audio_missing);
    }
    assert(known.state == greeted.state) by {
        reveal(AppView::ensure_device_fingerprint);
    }
    let at = known.effects.len() as int;
    let measure = Effect::<Seq<char>, Seq<Song>>::MeasureCache;
    assert(measured.state == known.state && measured.effects.len() > at && measured.effects[at]
        == measure) by {
        reveal(AppView::refresh_cache_usage);
    }
    lemma_steps_keep_effects(measured, at);
    lemma_steps_keep_effects(vip, at);
    lemma_steps_keep_effects(info, at);
    lemma_steps_keep_effects(claimed, at);
    assert(next.effects[at] == measure);
}

#[verifier::rlimit(30)]
proof fn lemma_steps_keep_effects(app: AppView, i: int)
    requires
        0 <= i < app.effects.len(),
    ensures
        ({
            let vip = app.fetch_vip_status();
            &&& i < vip.effects.len() && vip.effects[i] == app.effects[i]
            &&& vip.state.queue == app.state.queue && vip.state.player == app.state.player
                && vip.state.config == app.state.config
        }),
        ({
            let info = app.fetch_user_info();
            &&& i < info.effects.len() && info.effects[i] == app.effects[i]
            &&& info.state.queue == app.state.queue && info.state.player == app.state.player
                && info.state.config == app.state.config
        }),
        ({
            let claimed = app.maybe_claim_daily_vip();
            &&& i < claimed.effects.len() && claimed.effects[i] == app.effects[i]
            &&& claimed.state.queue == app.state.queue && claimed.state.player
                == app.state.player && claimed.state.config == app.state.config
        }),
        ({
            let shown = app.ensure_tab_loaded(app.state.screen.tab);
            &&& i < shown.effects.len() && shown.effects[i] == app.effects[i]
            &&& shown.state.queue == app.state.queue && shown.state.player == app.state.player
                && shown.state.config == app.state.config
        }),
{
    assert({
        let vip = app.fetch_vip_status();
        i < vip.effects.len() && vip.effects[i] == app.effects[i] && vip.state.queue
            == app.state.queue && vip.state.player == app.state.player && vip.state.config
            == app.state.config
    }) by {
        reveal(AppView::fetch_vip_status);
    }
    assert({
        let info = app.fetch_user_info();
        i < info.effects.len() && info.effects[i] == app.effects[i] && info.state.queue
            == app.state.queue && info.state.player == app.state.player && info.state.config
            == app.state.config
    }) by {
        reveal(AppView::fetch_user_info);
    }
    assert({
        let claimed = app.maybe_claim_daily_vip();
        i < claimed.effects.len() && claimed.effects[i] == app.effects[i] && claimed.state.queue
            == app.state.queue && claimed.state.player == app.state.player && claimed.state.config
            == app.state.config
    }) by {
        reveal(AppView::maybe_claim_daily_vip);
        reveal(AppView::start_vip_sync);
        reveal(AppView::with_client);
        reveal(AppView::client_ready);
    }
    reveal(AppView::ensure_tab_loaded);
    reveal(AppView::load_plaza_playlists);
    reveal(AppView::load_artists);
    reveal(AppView::load_ranks);
    reveal(AppView::load_cloud_playlists);
}

/// A setting that was saved is shown with its new value; one that could not be saved is told
/// of. Where nothing is to follow, nothing does.
pub proof fn saved_settings_are_shown(
    app: AppView,
    setting: Setting,
    path: Seq<char>,
    error: AppError,
)
    ensures
        app.config_saved(AfterSave::Setting(setting), path, Ok(())) == app.emit(
            Effect::ShowSettingChanged(setting),
        ),
        ({
            let next = app.config_saved(AfterSave::Setting(setting), path, Err(error));
            &&& next.effects == app.effects
            &&& next.state.screen.status.text == "保存设置失败："@ + error.hint@
            &&& next.state.config == app.state.config
        }),
        app.config_saved(AfterSave::Nothing, path, Ok(())) == app,
        app.config_saved(AfterSave::Device, path, Ok(())) == app,
        app.config_saved(AfterSave::Sources, path, Ok(())) == app,
{
    reveal(AppView::config_saved);
}

/// A switch to another service goes on even where it could not be saved.
pub proof fn unsaved_switches_go_on(
    app: AppView,
    kind: SourceKind,
    then_login: bool,
    path: Seq<char>,
    error: AppError,
)
    ensures
        app.config_saved(AfterSave::Switch { kind, then_login }, path, Err(error)).effects
            == app.effects.push(
            Effect::Reconnect {
                kind,
                api_base: app.state.config.api_base,
                cookie: header_for(
                    app.state.config.sources.active,
                    app.state.config.cookie,
                    app.state.config.dfid,
                ),
                then_login,
            },
        ),
{
    reveal(AppView::config_saved);
    reveal(AppView::reconnect);
}

/// Who logs in anew is logged out first: the cookie is forgotten, here and in what is sent,
/// and a code is asked for.
pub proof fn logging_in_anew_logs_out_first(app: AppView)
    requires
        app.state.panels.login is None,
        app.state.account.last_qr_key_at is None,
    ensures
        ({
            let next = app.relogin();
            &&& next.state.config.cookie is None
            &&& next.state.config.dfid == app.state.config.dfid
            &&& !next.state.account.logged_in
            &&& next.effects == app.effects.push(
                Effect::SetCookie(
                    header_for(app.state.config.sources.active, None, app.state.config.dfid),
                ),
            ).push(Effect::LoginQr { source: app.state.config.sources.active })
        }),
{
    reveal(AppView::relogin);
    reveal(AppView::begin_login);
}

/// What is changed of the services is saved.
pub proof fn changes_of_services_are_saved(app: AppView, raise: bool, from: usize)
    requires
        app.state.marks.sources == Some(from),
        if raise {
            0 < from < 3
        } else {
            from < 2
        },
    ensures
        app.shift_source_priority(raise).effects == app.effects.push(
            Effect::SaveConfig(AfterSave::Sources),
        ),
        app.shift_source_priority(raise).state.config.sources.active
            == app.state.config.sources.active,
{
    crate::source::lemma_in_order_has_all(app.state.config.sources);
    reveal(AppView::shift_source_priority);
    reveal(AppView::save_config);
    reveal(Config::synced);
    lemma_numbering_keeps_the_service(
        app.state.config.sources,
        app.state.config.sources.in_order(),
        from as int,
        if raise {
            from - 1
        } else {
            from + 1
        },
    );
}

proof fn lemma_numbering_keeps_the_service(
    sources: crate::source::SourceSet<Seq<char>>,
    kinds: Seq<SourceKind>,
    from: int,
    to: int,
)
    ensures
        sources.renumbered(kinds.update(from, kinds[to]).update(to, kinds[from])).active
            == sources.active,
{
    lemma_numbering_keeps_active(sources, kinds.update(from, kinds[to]).update(to, kinds[from]));
}

proof fn lemma_numbering_keeps_active(
    sources: crate::source::SourceSet<Seq<char>>,
    kinds: Seq<SourceKind>,
)
    ensures
        sources.renumbered(kinds).active == sources.active,
    decreases kinds.len(),
{
    if kinds.len() > 0 {
        lemma_numbering_keeps_active(sources, kinds.drop_last());
    }
}

/// The key for the services leads to their page, and from there back to the search.
pub proof fn the_page_of_the_services_opens_and_closes(app: AppView)
    ensures
        app.state.screen.tab == Tab::Sources ==> app.open_sources_page().state.screen.tab
            == Tab::Search,
        app.state.screen.tab != Tab::Sources ==> app.open_sources_page().state.screen.tab
            == Tab::Sources && app.open_sources_page().state.screen.focus == Focus::Primary,
        app.open_sources_page().state.config == app.state.config,
{
    reveal(AppView::open_sources_page);
    reveal(AppView::switch_tab);
    reveal(AppView::switch_tab_inner);
    reveal(AppView::show_page);
    reveal(AppView::ensure_tab_loaded);
    reveal(crate::app::pages::PagesView::wants_entries);
}

/// To delete a playlist is asked about where one is chosen, and nothing is deleted by asking.
pub proof fn deleting_is_asked_about(app: AppView)
    ensures
        app.state.pages.sync_target is Some
            ==> app.ask_to_delete_playlist().state.panels.pending_confirm == Some(
            crate::app::nav::ConfirmAction::DeleteCloudPlaylist,
        ),
        app.state.pages.sync_target is None ==> app.ask_to_delete_playlist().state.panels
            == app.state.panels,
        app.ask_to_delete_playlist().effects == app.effects,
{
    reveal(AppView::ask_to_delete_playlist);
    reveal(AppView::ask);
}

/// Every beat counts one on.
pub proof fn beats_are_counted(app: AppView)
    ensures
        app.state.screen.ticks < u64::MAX ==> app.count_tick().state.screen.ticks
            == app.state.screen.ticks + 1,
        app.count_tick().state.player == app.state.player,
        app.count_tick().effects == app.effects,
        app.state.screen.ticks % 10 != 0 ==> app.poll_in_time() == app,
        app.state.panels.login is None ==> app.poll_in_time() == app,
{
    reveal(AppView::count_tick);
    reveal(AppView::poll_in_time);
}

/// Where the service in use has no membership, or the date is not known, none is claimed.
pub proof fn only_one_service_has_days_to_claim(app: AppView)
    ensures
        app.state.config.sources.active != SourceKind::KugouConcept ==> app.maybe_claim_daily_vip()
            == app && app.claim_daily_vip().effects == app.effects,
        app.clock.today is None ==> app.maybe_claim_daily_vip() == app
            && app.claim_daily_vip().effects == app.effects,
        app.state.account.vip_claiming ==> app.claim_daily_vip() == app,
        app.state.config.sources.active == SourceKind::Netease ==> app.fetch_vip_status().effects
            == app.effects && app.fetch_vip_status().state.account.vip_info is None,
{
    reveal(AppView::maybe_claim_daily_vip);
    reveal(AppView::claim_daily_vip);
    reveal(AppView::fetch_vip_status);
}

} // verus!
