//! The queue stays sound: whatever happens, it stands at one of its songs, if at
//! any.
//!
//! A lemma `keeps_x` says that the step `x` leaves the queue as it is, a lemma
//! `sound_x` that it leaves a sound queue sound. The laws at the end rest on them.

use vstd::prelude::*;
use crate::app::effect::{AfterSave, Lookup, Purpose, Setting};
use crate::app::nav::{ConfirmAction, Focus, Tab};
use crate::app::panes::{MenuAction, PromptAction};
use crate::app::queue::queue_stays_well_formed;
use crate::app::state::AppView;
use crate::audio::cache::ClearReport;
use crate::audio::engine::{AudioEvent, PlaybackState};
use crate::error::AppError;
use crate::event::{
    Action, AudioSnapshot, Event, HitTarget, HitZone, Loaded, LoadingTarget, MouseInput,
    PlaylistSource, VipClaimOutcome,
};
use crate::model::{Artist, LyricLine, Playlist, RankBoard, Song, UserInfo, VipInfo};
use crate::source::SourceKind;

verus! {

broadcast proof fn keeps_stop_playback(app: AppView)
    ensures
        (#[trigger] app.stop_playback()).state.queue == app.state.queue,
{
    reveal(AppView::stop_playback);
    reveal(AppView::cancel_stream);
}

broadcast proof fn keeps_with_client(app: AppView, kind: SourceKind, purpose: Purpose<Seq<char>>)
    ensures
        (#[trigger] app.with_client(kind, purpose)).state.queue == app.state.queue,
{
    broadcast use keeps_client_ready;

    reveal(AppView::with_client);
}

broadcast proof fn keeps_client_ready(app: AppView, purpose: Purpose<Seq<char>>)
    ensures
        (#[trigger] app.client_ready(purpose)).state.queue == app.state.queue,
{
    reveal(AppView::client_ready);
}

broadcast proof fn keeps_client_failed(app: AppView, purpose: Purpose<Seq<char>>, error: AppError)
    ensures
        (#[trigger] app.client_failed(purpose, error)).state.queue == app.state.queue,
{
    broadcast use keeps_lyric_failed;

    reveal(AppView::client_failed);
}

broadcast proof fn keeps_lyric_failed(app: AppView, hash: Seq<char>, reason: Seq<char>)
    ensures
        (#[trigger] app.lyric_failed(hash, reason)).state.queue == app.state.queue,
{
    reveal(AppView::lyric_failed);
}

broadcast proof fn keeps_load_cover(app: AppView, song: Song)
    ensures
        (#[trigger] app.load_cover(song)).state.queue == app.state.queue,
{
    broadcast use keeps_with_client;

    reveal(AppView::load_cover);
    reveal(AppView::no_cover);
}

broadcast proof fn keeps_cache_found(app: AppView, lookup: Lookup, path: Option<Seq<char>>)
    ensures
        (#[trigger] app.cache_found(lookup, path)).state.queue == app.state.queue,
{
    broadcast use keeps_with_client;

    reveal(AppView::cache_found);
}

broadcast proof fn keeps_start_playback(app: AppView, song: Song, start_at_ms: u64)
    ensures
        (#[trigger] app.start_playback(song, start_at_ms)).state.queue == app.state.queue,
{
    broadcast use {keeps_load_cover, keeps_with_client};

    reveal(AppView::start_playback);
    reveal(AppView::cancel_stream);
    reveal(AppView::take_stage);
    reveal(AppView::mark_loading);
    reveal(AppView::announce);
    reveal(AppView::request_stream);
}

broadcast proof fn keeps_clamp_queue_cursor(app: AppView)
    ensures
        (#[trigger] app.clamp_queue_cursor()).state.queue == app.state.queue,
{
    reveal(AppView::clamp_queue_cursor);
    reveal(AppView::sync_queue_cursor);
}

broadcast proof fn keeps_queue_ended(app: AppView)
    ensures
        (#[trigger] app.queue_ended()).state.queue == app.state.queue,
{
    broadcast use keeps_stop_playback;

    reveal(AppView::queue_ended);
}

broadcast proof fn keeps_seek_to(app: AppView, position_ms: u64)
    ensures
        (#[trigger] app.seek_to(position_ms)).state.queue == app.state.queue,
{
    reveal(AppView::seek_to);
    reveal(AppView::show_seek);
}

broadcast proof fn keeps_seek_by(app: AppView, delta_ms: i64)
    ensures
        (#[trigger] app.seek_by(delta_ms)).state.queue == app.state.queue,
{
    reveal(AppView::seek_by);
}

broadcast proof fn keeps_adjust_volume(app: AppView, up: bool)
    ensures
        (#[trigger] app.adjust_volume(up)).state.queue == app.state.queue,
{
    reveal(AppView::adjust_volume);
}

broadcast proof fn keeps_volume_stepped(app: AppView, volume: u32)
    ensures
        (#[trigger] app.volume_stepped(volume)).state.queue == app.state.queue,
{
    reveal(AppView::volume_stepped);
}

broadcast proof fn keeps_toggle_mute(app: AppView)
    ensures
        (#[trigger] app.toggle_mute()).state.queue == app.state.queue,
{
    reveal(AppView::toggle_mute);
}

broadcast proof fn keeps_adjust_lyric_offset(app: AppView, delta_ms: i64)
    ensures
        (#[trigger] app.adjust_lyric_offset(delta_ms)).state.queue == app.state.queue,
{
    reveal(AppView::adjust_lyric_offset);
}

broadcast proof fn keeps_after_download_landed(app: AppView)
    ensures
        (#[trigger] app.after_download_landed()).state.queue == app.state.queue,
{
    reveal(AppView::after_download_landed);
    reveal(AppView::prefetch_next);
}

broadcast proof fn keeps_load_more_search(app: AppView)
    ensures
        (#[trigger] app.load_more_search()).state.queue == app.state.queue,
{
    reveal(AppView::load_more_search);
}

broadcast proof fn keeps_cycle_artist_filter(app: AppView)
    ensures
        (#[trigger] app.cycle_artist_filter()).state.queue == app.state.queue,
{
    reveal(AppView::cycle_artist_filter);
    reveal(AppView::load_artists);
}

broadcast proof fn keeps_open_selected_playlist(app: AppView)
    ensures
        (#[trigger] app.open_selected_playlist()).state.queue == app.state.queue,
{
    reveal(AppView::open_selected_playlist);
    reveal(AppView::load_playlist_songs);
}

broadcast proof fn keeps_open_selected_cloud_playlist(app: AppView)
    ensures
        (#[trigger] app.open_selected_cloud_playlist()).state.queue == app.state.queue,
{
    reveal(AppView::open_selected_cloud_playlist);
    reveal(AppView::load_playlist_songs);
}

broadcast proof fn keeps_reload_opened(
    app: AppView,
    opened: Option<Playlist>,
    panel: PlaylistSource,
)
    ensures
        (#[trigger] app.reload_opened(opened, panel)).state.queue == app.state.queue,
{
    reveal(AppView::reload_opened);
    reveal(AppView::load_playlist_songs);
}

broadcast proof fn keeps_reload_current_tab(app: AppView)
    ensures
        (#[trigger] app.reload_current_tab()).state.queue == app.state.queue,
{
    broadcast use keeps_reload_opened;

    reveal(AppView::reload_current_tab);
    reveal(AppView::run_search);
    reveal(AppView::load_plaza_playlists);
    reveal(AppView::load_artists);
    reveal(AppView::load_ranks);
    reveal(AppView::load_cloud_playlists);
}

broadcast proof fn keeps_ensure_tab_loaded(app: AppView, tab: Tab)
    ensures
        (#[trigger] app.ensure_tab_loaded(tab)).state.queue == app.state.queue,
{
    reveal(AppView::ensure_tab_loaded);
    reveal(AppView::load_plaza_playlists);
    reveal(AppView::load_artists);
    reveal(AppView::load_ranks);
    reveal(AppView::load_cloud_playlists);
}

broadcast proof fn keeps_switch_tab_inner(app: AppView, tab: Tab, move_focus: bool)
    ensures
        (#[trigger] app.switch_tab_inner(tab, move_focus)).state.queue == app.state.queue,
{
    broadcast use keeps_ensure_tab_loaded;

    reveal(AppView::switch_tab_inner);
    reveal(AppView::show_page);
}

broadcast proof fn keeps_switch_tab(app: AppView, tab: Tab)
    ensures
        (#[trigger] app.switch_tab(tab)).state.queue == app.state.queue,
{
    broadcast use keeps_switch_tab_inner;

    reveal(AppView::switch_tab);
}

broadcast proof fn keeps_start_vip_sync(app: AppView, day: Seq<char>, manual: bool)
    ensures
        (#[trigger] app.start_vip_sync(day, manual)).state.queue == app.state.queue,
{
    broadcast use keeps_with_client;

    reveal(AppView::start_vip_sync);
}

broadcast proof fn keeps_maybe_claim_daily_vip(app: AppView)
    ensures
        (#[trigger] app.maybe_claim_daily_vip()).state.queue == app.state.queue,
{
    broadcast use keeps_start_vip_sync;

    reveal(AppView::maybe_claim_daily_vip);
}

broadcast proof fn keeps_claim_daily_vip(app: AppView)
    ensures
        (#[trigger] app.claim_daily_vip()).state.queue == app.state.queue,
{
    broadcast use keeps_start_vip_sync;

    reveal(AppView::claim_daily_vip);
}

broadcast proof fn keeps_open_login_picker(app: AppView)
    ensures
        (#[trigger] app.open_login_picker()).state.queue == app.state.queue,
{
    broadcast use keeps_begin_login_for;

    reveal(AppView::open_login_picker);
}

broadcast proof fn keeps_confirm_login_source(app: AppView)
    ensures
        (#[trigger] app.confirm_login_source()).state.queue == app.state.queue,
{
    broadcast use keeps_begin_login_for;

    reveal(AppView::confirm_login_source);
}

broadcast proof fn keeps_begin_login_for(app: AppView, kind: SourceKind)
    ensures
        (#[trigger] app.begin_login_for(kind)).state.queue == app.state.queue,
{
    broadcast use {keeps_switch_source_with, keeps_login_or_confirm};

    reveal(AppView::begin_login_for);
}

broadcast proof fn keeps_login_or_confirm(app: AppView)
    ensures
        (#[trigger] app.login_or_confirm()).state.queue == app.state.queue,
{
    reveal(AppView::login_or_confirm);
    reveal(AppView::begin_login);
}

broadcast proof fn keeps_relogin(app: AppView)
    ensures
        (#[trigger] app.relogin()).state.queue == app.state.queue,
{
    reveal(AppView::relogin);
    reveal(AppView::begin_login);
}

broadcast proof fn keeps_finish_login(app: AppView, succeeded: bool, message: Seq<char>)
    ensures
        (#[trigger] app.finish_login(succeeded, message)).state.queue == app.state.queue,
{
    reveal(AppView::finish_login);
}

broadcast proof fn keeps_finish_server_side_login(app: AppView)
    ensures
        (#[trigger] app.finish_server_side_login()).state.queue == app.state.queue,
{
    broadcast use keeps_finish_login;

    reveal(AppView::finish_server_side_login);
    reveal(AppView::set_logged_in);
}

broadcast proof fn keeps_use_cookie(app: AppView, cookie: Seq<char>, after: AfterSave<Seq<char>>)
    ensures
        (#[trigger] app.use_cookie(cookie, after)).state.queue == app.state.queue,
{
    reveal(AppView::use_cookie);
    reveal(AppView::save_config);
}

broadcast proof fn keeps_apply_login(app: AppView, token: Seq<char>, userid: Seq<char>)
    ensures
        (#[trigger] app.apply_login(token, userid)).state.queue == app.state.queue,
{
    broadcast use keeps_use_cookie;

    reveal(AppView::apply_login);
}

broadcast proof fn keeps_apply_server_cookie(app: AppView, cookie: Seq<char>)
    ensures
        (#[trigger] app.apply_server_cookie(cookie)).state.queue == app.state.queue,
{
    broadcast use keeps_use_cookie;

    reveal(AppView::apply_server_cookie);
}

broadcast proof fn keeps_login_stored(app: AppView, message: Seq<char>)
    ensures
        (#[trigger] app.login_stored(message)).state.queue == app.state.queue,
{
    broadcast use {keeps_finish_login, keeps_maybe_claim_daily_vip};

    reveal(AppView::login_stored);
    reveal(AppView::set_logged_in);
    reveal(AppView::fetch_vip_status);
    reveal(AppView::fetch_user_info);
}

broadcast proof fn keeps_config_saved(
    app: AppView,
    after: AfterSave<Seq<char>>,
    path: Seq<char>,
    result: Result<(), AppError>,
)
    ensures
        (#[trigger] app.config_saved(after, path, result)).state.queue == app.state.queue,
{
    broadcast use {keeps_login_stored, keeps_finish_login};

    reveal(AppView::config_saved);
    reveal(AppView::reconnect);
}

broadcast proof fn keeps_switch_source_with(app: AppView, kind: SourceKind, then_login: bool)
    ensures
        (#[trigger] app.switch_source_with(kind, then_login)).state.queue == app.state.queue,
{
    reveal(AppView::switch_source_with);
    reveal(AppView::set_logged_in);
    reveal(AppView::save_config);
}

broadcast proof fn keeps_switch_source_to(app: AppView, kind: SourceKind)
    ensures
        (#[trigger] app.switch_source_to(kind)).state.queue == app.state.queue,
{
    broadcast use keeps_switch_source_with;

    reveal(AppView::switch_source_to);
}

broadcast proof fn keeps_reconnected(
    app: AppView,
    kind: SourceKind,
    then_login: bool,
    result: Result<(), AppError>,
)
    ensures
        (#[trigger] app.reconnected(kind, then_login, result)).state.queue == app.state.queue,
{
    broadcast use {keeps_maybe_claim_daily_vip, keeps_login_or_confirm};

    reveal(AppView::reconnected);
    reveal(AppView::fetch_vip_status);
    reveal(AppView::fetch_user_info);
    reveal(AppView::ensure_device_fingerprint);
    reveal(AppView::say_switched);
}

broadcast proof fn keeps_open_sources_page(app: AppView)
    ensures
        (#[trigger] app.open_sources_page()).state.queue == app.state.queue,
{
    broadcast use keeps_switch_tab;

    reveal(AppView::open_sources_page);
}

broadcast proof fn keeps_toggle_enabled(app: AppView, kind: SourceKind)
    ensures
        (#[trigger] app.toggle_enabled(kind)).state.queue == app.state.queue,
{
    reveal(AppView::toggle_enabled);
    reveal(AppView::save_config);
}

broadcast proof fn keeps_toggle_source_enabled(app: AppView)
    ensures
        (#[trigger] app.toggle_source_enabled()).state.queue == app.state.queue,
{
    broadcast use keeps_toggle_enabled;

    reveal(AppView::toggle_source_enabled);
}

broadcast proof fn keeps_set_default_source(app: AppView)
    ensures
        (#[trigger] app.set_default_source()).state.queue == app.state.queue,
{
    broadcast use keeps_switch_source_to;

    reveal(AppView::set_default_source);
}

broadcast proof fn keeps_shift_source_priority(app: AppView, raise: bool)
    ensures
        (#[trigger] app.shift_source_priority(raise)).state.queue == app.state.queue,
{
    reveal(AppView::shift_source_priority);
    reveal(AppView::save_config);
}

broadcast proof fn keeps_drop_current(app: AppView)
    ensures
        (#[trigger] app.drop_current()).state.queue == app.state.queue,
{
    broadcast use keeps_stop_playback;

    reveal(AppView::drop_current);
}

broadcast proof fn keeps_toggle_sort_order(app: AppView)
    ensures
        (#[trigger] app.toggle_sort_order()).state.queue == app.state.queue,
{
    reveal(AppView::toggle_sort_order);
}

broadcast proof fn keeps_cache_cleared(
    app: AppView,
    result: Result<ClearReport, AppError>,
    freed: Seq<char>,
)
    ensures
        (#[trigger] app.cache_cleared(result, freed)).state.queue == app.state.queue,
{
    reveal(AppView::cache_cleared);
    reveal(AppView::refresh_cache_usage);
}

broadcast proof fn keeps_open_context_menu(app: AppView)
    ensures
        (#[trigger] app.open_context_menu()).state.queue == app.state.queue,
{
    reveal(AppView::open_context_menu);
}

broadcast proof fn keeps_download_current(app: AppView)
    ensures
        (#[trigger] app.download_current()).state.queue == app.state.queue,
{
    reveal(AppView::download_current);
    reveal(AppView::open_quality_picker);
}

broadcast proof fn keeps_confirm_quality_picker(app: AppView)
    ensures
        (#[trigger] app.confirm_quality_picker()).state.queue == app.state.queue,
{
    broadcast use keeps_download_song;

    reveal(AppView::confirm_quality_picker);
}

broadcast proof fn keeps_download_song(app: AppView, song: Song, quality: Seq<char>)
    ensures
        (#[trigger] app.download_song(song, quality)).state.queue == app.state.queue,
{
    broadcast use keeps_with_client;

    reveal(AppView::download_song);
}

broadcast proof fn keeps_remove_focused_song_from_cloud(app: AppView)
    ensures
        (#[trigger] app.remove_focused_song_from_cloud()).state.queue == app.state.queue,
{
    reveal(AppView::remove_focused_song_from_cloud);
}

broadcast proof fn keeps_add_focused_song_to_cloud(app: AppView)
    ensures
        (#[trigger] app.add_focused_song_to_cloud()).state.queue == app.state.queue,
{
    reveal(AppView::add_focused_song_to_cloud);
}

broadcast proof fn keeps_sync_queue_to_cloud(app: AppView)
    ensures
        (#[trigger] app.sync_queue_to_cloud()).state.queue == app.state.queue,
{
    reveal(AppView::sync_queue_to_cloud);
}

broadcast proof fn keeps_change_device(app: AppView, delta: int)
    ensures
        (#[trigger] app.change_device(delta)).state.queue == app.state.queue,
{
    reveal(AppView::change_device);
    reveal(AppView::save_config);
}

broadcast proof fn keeps_change_cache_limit(app: AppView, delta: int)
    ensures
        (#[trigger] app.change_cache_limit(delta)).state.queue == app.state.queue,
{
    reveal(AppView::change_cache_limit);
    reveal(AppView::change_config);
    reveal(AppView::refresh_cache_usage);
}

broadcast proof fn keeps_change_lite_mode(app: AppView, delta: int)
    ensures
        (#[trigger] app.change_lite_mode(delta)).state.queue == app.state.queue,
{
    reveal(AppView::change_lite_mode);
    reveal(AppView::change_config);
    reveal(AppView::no_cover);
}

broadcast proof fn keeps_change_setting(app: AppView, setting: Setting, delta: int)
    ensures
        (#[trigger] app.change_setting(setting, delta)).state.queue == app.state.queue,
{
    broadcast use {keeps_change_device, keeps_change_cache_limit, keeps_change_lite_mode};

    reveal(AppView::change_setting);
    reveal(AppView::change_lyric_panel);
    reveal(AppView::change_sidebar);
    reveal(AppView::save_config);
    reveal(AppView::change_config);
}

broadcast proof fn keeps_adjust_setting(app: AppView, delta: int)
    ensures
        (#[trigger] app.adjust_setting(delta)).state.queue == app.state.queue,
{
    broadcast use keeps_change_setting;

    reveal(AppView::adjust_setting);
}

broadcast proof fn keeps_cycle_focus(app: AppView, forward: bool)
    ensures
        (#[trigger] app.cycle_focus(forward)).state.queue == app.state.queue,
{
    reveal(AppView::cycle_focus);
    reveal(AppView::with_focus);
}

broadcast proof fn keeps_show_tab(app: AppView, tab: Tab)
    ensures
        (#[trigger] app.show_tab(tab)).state.queue == app.state.queue,
{
    broadcast use keeps_switch_tab_inner;

    reveal(AppView::show_tab);
}

broadcast proof fn keeps_move_sidebar(app: AppView, delta: int)
    ensures
        (#[trigger] app.move_sidebar(delta)).state.queue == app.state.queue,
{
    broadcast use keeps_show_tab;

    reveal(AppView::move_sidebar);
}

broadcast proof fn keeps_select_sidebar_edge(app: AppView, first: bool)
    ensures
        (#[trigger] app.select_sidebar_edge(first)).state.queue == app.state.queue,
{
    broadcast use keeps_show_tab;

    reveal(AppView::select_sidebar_edge);
}

broadcast proof fn keeps_move_selection(app: AppView, delta: int)
    ensures
        (#[trigger] app.move_selection(delta)).state.queue == app.state.queue,
{
    broadcast use keeps_move_sidebar;

    reveal(AppView::move_selection);
    reveal(AppView::move_settings);
    reveal(AppView::mark_source);
}

broadcast proof fn keeps_move_selection_edge(app: AppView, first: bool)
    ensures
        (#[trigger] app.move_selection_edge(first)).state.queue == app.state.queue,
{
    broadcast use keeps_select_sidebar_edge;

    reveal(AppView::move_selection_edge);
    reveal(AppView::mark_setting);
    reveal(AppView::mark_source);
}

broadcast proof fn keeps_enter_search(app: AppView)
    ensures
        (#[trigger] app.enter_search()).state.queue == app.state.queue,
{
    reveal(AppView::enter_search);
    reveal(AppView::run_search);
}

broadcast proof fn keeps_go_back(app: AppView)
    ensures
        (#[trigger] app.go_back()).state.queue == app.state.queue,
{
    reveal(AppView::go_back);
    reveal(AppView::with_focus);
}

broadcast proof fn keeps_handle_digit(app: AppView, number: u8)
    ensures
        (#[trigger] app.handle_digit(number)).state.queue == app.state.queue,
{
    broadcast use keeps_switch_tab;

    reveal(AppView::handle_digit);
}

broadcast proof fn keeps_focus_hit_target(app: AppView, target: HitTarget)
    ensures
        (#[trigger] app.focus_hit_target(target)).state.queue == app.state.queue,
{
    reveal(AppView::focus_hit_target);
    reveal(AppView::with_focus);
}

broadcast proof fn keeps_scroll_list_at(app: AppView, mouse: MouseInput, delta: int)
    ensures
        (#[trigger] app.scroll_list_at(mouse, delta)).state.queue == app.state.queue,
{
    broadcast use {keeps_focus_hit_target, keeps_move_selection};

    reveal(AppView::scroll_list_at);
}

broadcast proof fn keeps_point_at(app: AppView, target: HitTarget, index: usize)
    ensures
        (#[trigger] app.point_at(target, index)).state.queue == app.state.queue,
{
    broadcast use keeps_focus_hit_target;

    reveal(AppView::point_at);
}

broadcast proof fn keeps_click_setting(app: AppView, zone: HitZone)
    ensures
        (#[trigger] app.click_setting(zone)).state.queue == app.state.queue,
{
    broadcast use keeps_adjust_setting;

    reveal(AppView::click_setting);
    reveal(AppView::mark_setting);
}

broadcast proof fn keeps_progress_estimated(app: AppView, target: u64)
    ensures
        (#[trigger] app.progress_estimated(target)).state.queue == app.state.queue,
{
    reveal(AppView::progress_estimated);
}

broadcast proof fn keeps_retry_profile(app: AppView)
    ensures
        (#[trigger] app.retry_profile()).state.queue == app.state.queue,
{
    reveal(AppView::retry_profile);
    reveal(AppView::fetch_user_info);
}

broadcast proof fn keeps_right_click_at(app: AppView, mouse: MouseInput)
    ensures
        (#[trigger] app.right_click_at(mouse)).state.queue == app.state.queue,
{
    broadcast use {keeps_point_at, keeps_open_context_menu};

    reveal(AppView::right_click_at);
}

broadcast proof fn keeps_search_appended(app: AppView, keyword: Seq<char>, songs: Seq<Song>)
    ensures
        (#[trigger] app.search_appended(keyword, songs)).state.queue == app.state.queue,
{
    reveal(AppView::search_appended);
}

broadcast proof fn keeps_search_found(app: AppView, keyword: Seq<char>, songs: Seq<Song>)
    ensures
        (#[trigger] app.search_found(keyword, songs)).state.queue == app.state.queue,
{
    reveal(AppView::search_found);
    reveal(AppView::with_focus);
}

broadcast proof fn keeps_playlists_loaded(app: AppView, title: Seq<char>, items: Seq<Playlist>)
    ensures
        (#[trigger] app.playlists_loaded(title, items)).state.queue == app.state.queue,
{
    reveal(AppView::playlists_loaded);
}

broadcast proof fn keeps_songs_loaded(app: AppView, tab: Tab, name: Seq<char>, songs: Seq<Song>)
    ensures
        (#[trigger] app.songs_loaded(tab, name, songs)).state.queue == app.state.queue,
{
    reveal(AppView::songs_loaded);
    reveal(AppView::with_focus);
}

broadcast proof fn keeps_playlist_loaded(app: AppView, tab: Tab, name: Seq<char>, songs: Seq<Song>)
    ensures
        (#[trigger] app.playlist_loaded(tab, name, songs)).state.queue == app.state.queue,
{
    broadcast use keeps_songs_loaded;

    reveal(AppView::playlist_loaded);
}

broadcast proof fn keeps_artists_loaded(app: AppView, artists: Seq<Artist>)
    ensures
        (#[trigger] app.artists_loaded(artists)).state.queue == app.state.queue,
{
    reveal(AppView::artists_loaded);
}

broadcast proof fn keeps_ranks_loaded(app: AppView, boards: Seq<RankBoard>)
    ensures
        (#[trigger] app.ranks_loaded(boards)).state.queue == app.state.queue,
{
    reveal(AppView::ranks_loaded);
}

broadcast proof fn keeps_cloud_loaded(app: AppView, items: Seq<Playlist>)
    ensures
        (#[trigger] app.cloud_loaded(items)).state.queue == app.state.queue,
{
    reveal(AppView::cloud_loaded);
}

broadcast proof fn keeps_lyric_loaded(app: AppView, hash: Seq<char>, lines: Seq<LyricLine>)
    ensures
        (#[trigger] app.lyric_loaded(hash, lines)).state.queue == app.state.queue,
{
    reveal(AppView::lyric_loaded);
}

broadcast proof fn keeps_set_progress(app: AppView, progress: Option<(u64, Option<u64>)>)
    ensures
        (#[trigger] app.set_progress(progress)).state.queue == app.state.queue,
{
    reveal(AppView::set_progress);
}

broadcast proof fn keeps_start_download(
    app: AppView,
    song: Song,
    url: Seq<char>,
    start_at_ms: u64,
    is_trial: bool,
)
    ensures
        (#[trigger] app.start_download(song, url, start_at_ms, is_trial)).state.queue
            == app.state.queue,
{
    broadcast use keeps_set_progress;

    reveal(AppView::start_download);
}

broadcast proof fn keeps_stream_ready(
    app: AppView,
    song: Song,
    url: Seq<char>,
    start_at_ms: u64,
    is_trial: bool,
    reason: Option<Seq<char>>,
)
    ensures
        (#[trigger] app.stream_ready(song, url, start_at_ms, is_trial, reason)).state.queue
            == app.state.queue,
{
    broadcast use keeps_start_download;

    reveal(AppView::stream_ready);
    reveal(AppView::note_trial);
}

broadcast proof fn keeps_settle(app: AppView)
    ensures
        (#[trigger] app.settle()).state.queue == app.state.queue,
{
    broadcast use keeps_set_progress;

    reveal(AppView::settle);
}

broadcast proof fn keeps_stream_prerolled(app: AppView, song: Song, stream: u64, start_at_ms: u64)
    ensures
        (#[trigger] app.stream_prerolled(song, stream, start_at_ms)).state.queue
            == app.state.queue,
{
    broadcast use keeps_settle;

    reveal(AppView::stream_prerolled);
}

broadcast proof fn keeps_stream_cached(app: AppView, song: Song, path: Seq<char>, start_at_ms: u64)
    ensures
        (#[trigger] app.stream_cached(song, path, start_at_ms)).state.queue == app.state.queue,
{
    broadcast use {keeps_settle, keeps_after_download_landed};

    reveal(AppView::stream_cached);
}

broadcast proof fn keeps_stream_completed(app: AppView, song: Song)
    ensures
        (#[trigger] app.stream_completed(song)).state.queue == app.state.queue,
{
    broadcast use {keeps_settle, keeps_after_download_landed};

    reveal(AppView::stream_completed);
}

broadcast proof fn keeps_fingerprint_loaded(app: AppView, dfid: Seq<char>)
    ensures
        (#[trigger] app.fingerprint_loaded(dfid)).state.queue == app.state.queue,
{
    reveal(AppView::fingerprint_loaded);
    reveal(AppView::save_config);
}

broadcast proof fn keeps_cache_measured(app: AppView, cache_bytes: u64)
    ensures
        (#[trigger] app.cache_measured(cache_bytes)).state.queue == app.state.queue,
{
    reveal(AppView::cache_measured);
}

broadcast proof fn keeps_cloud_notice(app: AppView, message: Seq<char>)
    ensures
        (#[trigger] app.cloud_notice(message)).state.queue == app.state.queue,
{
    reveal(AppView::cloud_notice);
    reveal(AppView::load_cloud_playlists);
}

broadcast proof fn keeps_cloud_changed(app: AppView, playlist: Playlist)
    ensures
        (#[trigger] app.cloud_changed(playlist)).state.queue == app.state.queue,
{
    reveal(AppView::cloud_changed);
    reveal(AppView::load_cloud_playlists);
    reveal(AppView::load_playlist_songs);
}

broadcast proof fn keeps_login_code(app: AppView, key: Seq<char>, content: Seq<char>)
    ensures
        (#[trigger] app.login_code(key, content)).state.queue == app.state.queue,
{
    reveal(AppView::login_code);
}

broadcast proof fn keeps_login_says(app: AppView, message: Seq<char>)
    ensures
        (#[trigger] app.login_says(message)).state.queue == app.state.queue,
{
    reveal(AppView::login_says);
}

broadcast proof fn keeps_login_succeeded(
    app: AppView,
    token: Option<Seq<char>>,
    userid: Option<Seq<char>>,
    cookie: Option<Seq<char>>,
)
    ensures
        (#[trigger] app.login_succeeded(token, userid, cookie)).state.queue == app.state.queue,
{
    broadcast use {keeps_apply_login, keeps_apply_server_cookie, keeps_finish_server_side_login};

    reveal(AppView::login_succeeded);
}

broadcast proof fn keeps_cover_ready(app: AppView, hash: Seq<char>, width: u32, height: u32)
    ensures
        (#[trigger] app.cover_ready(hash, width, height)).state.queue == app.state.queue,
{
    reveal(AppView::cover_ready);
}

broadcast proof fn keeps_user_loaded(app: AppView, info: UserInfo)
    ensures
        (#[trigger] app.user_loaded(info)).state.queue == app.state.queue,
{
    reveal(AppView::user_loaded);
    reveal(AppView::load_avatar);
}

broadcast proof fn keeps_vip_loaded(app: AppView, info: VipInfo)
    ensures
        (#[trigger] app.vip_loaded(info)).state.queue == app.state.queue,
{
    reveal(AppView::vip_loaded);
}

broadcast proof fn keeps_vip_claimed(
    app: AppView,
    day: Seq<char>,
    outcome: VipClaimOutcome,
    manual: bool,
)
    ensures
        (#[trigger] app.vip_claimed(day, outcome, manual)).state.queue == app.state.queue,
{
    reveal(AppView::vip_claimed);
    reveal(AppView::remember_claim);
    reveal(AppView::fetch_vip_status);
}

broadcast proof fn keeps_request_failed(
    app: AppView,
    context: Seq<char>,
    error: AppError,
    target: Option<LoadingTarget>,
)
    ensures
        (#[trigger] app.request_failed(context, error, target)).state.queue == app.state.queue,
{
    broadcast use keeps_settle;

    reveal(AppView::request_failed);
    reveal(AppView::login_lost);
    reveal(AppView::mark_load_failed);
}

broadcast proof fn keeps_note_connection(app: AppView, loaded: Loaded)
    ensures
        (#[trigger] app.note_connection(loaded)).state.queue == app.state.queue,
{
    reveal(AppView::note_connection);
}

broadcast proof fn keeps_handle_loaded(app: AppView, loaded: Loaded)
    ensures
        (#[trigger] app.handle_loaded(loaded)).state.queue == app.state.queue,
{
    broadcast use {
        keeps_search_appended,
        keeps_search_found,
        keeps_playlists_loaded,
        keeps_playlist_loaded,
        keeps_artists_loaded,
        keeps_songs_loaded,
        keeps_ranks_loaded,
        keeps_cloud_loaded,
        keeps_lyric_loaded,
        keeps_lyric_failed,
        keeps_stream_ready,
        keeps_set_progress,
        keeps_stream_cached,
        keeps_stream_completed,
        keeps_fingerprint_loaded,
        keeps_cache_measured,
        keeps_login_code,
        keeps_login_says,
        keeps_login_succeeded,
        keeps_finish_login,
        keeps_cover_ready,
        keeps_vip_loaded,
        keeps_vip_claimed,
        keeps_user_loaded,
        keeps_stream_prerolled,
        keeps_cloud_notice,
        keeps_cloud_changed,
        keeps_request_failed,
    };

    reveal(AppView::handle_loaded);
}

broadcast proof fn keeps_track_ready(app: AppView, duration_ms: u64)
    ensures
        (#[trigger] app.track_ready(duration_ms)).state.queue == app.state.queue,
{
    broadcast use keeps_settle;

    reveal(AppView::track_ready);
    reveal(AppView::learn_duration);
    reveal(AppView::set_playback);
    reveal(AppView::forget_resume);
}

broadcast proof fn keeps_device_opened(app: AppView, name: Seq<char>)
    ensures
        (#[trigger] app.device_opened(name)).state.queue == app.state.queue,
{
    broadcast use keeps_start_playback;

    reveal(AppView::device_opened);
    reveal(AppView::with_device);
}

broadcast proof fn keeps_halt_at(app: AppView, position_ms: u64)
    ensures
        (#[trigger] app.halt_at(position_ms)).state.queue == app.state.queue,
{
    broadcast use keeps_settle;

    reveal(AppView::halt_at);
}

broadcast proof fn keeps_pick_up(app: AppView, song: Song, position_ms: u64)
    ensures
        (#[trigger] app.pick_up(song, position_ms)).state.queue == app.state.queue,
{
    broadcast use keeps_start_playback;

    reveal(AppView::pick_up);
    reveal(AppView::mark_resume_point);
}

broadcast proof fn keeps_stream_interrupted(app: AppView, position_ms: u64)
    ensures
        (#[trigger] app.stream_interrupted(position_ms)).state.queue == app.state.queue,
{
    broadcast use {keeps_halt_at, keeps_pick_up};

    reveal(AppView::stream_interrupted);
}

broadcast proof fn keeps_audio_failed(app: AppView, message: Seq<char>)
    ensures
        (#[trigger] app.audio_failed(message)).state.queue == app.state.queue,
{
    broadcast use keeps_settle;

    reveal(AppView::audio_failed);
    reveal(AppView::set_playback);
    reveal(AppView::mark_resume_point);
}

broadcast proof fn keeps_sing(app: AppView)
    ensures
        (#[trigger] app.sing()).state.queue == app.state.queue,
{
    reveal(AppView::sing);
    reveal(AppView::update_active_lyric);
}

broadcast proof fn keeps_poll_in_time(app: AppView)
    ensures
        (#[trigger] app.poll_in_time()).state.queue == app.state.queue,
{
    reveal(AppView::poll_in_time);
    reveal(AppView::poll_login);
}

broadcast proof fn keeps_measure_in_time(app: AppView, ticks: u64)
    ensures
        (#[trigger] app.measure_in_time(ticks)).state.queue == app.state.queue,
{
    reveal(AppView::measure_in_time);
    reveal(AppView::refresh_cache_usage);
}

broadcast proof fn keeps_tick(app: AppView, audio: AudioSnapshot)
    ensures
        (#[trigger] app.tick(audio)).state.queue == app.state.queue,
{
    broadcast use {keeps_sing, keeps_poll_in_time, keeps_measure_in_time};

    reveal(AppView::tick);
    reveal(AppView::count_tick);
    reveal(AppView::save_session_in_time);
    reveal(AppView::follow_audio);
    reveal(AppView::show_audio);
}

broadcast proof fn keeps_quit_key(app: AppView, action: Action)
    ensures
        (#[trigger] app.quit_key(action)).state.queue == app.state.queue,
{
    reveal(AppView::quit_key);
    reveal(AppView::quit);
}

broadcast proof fn keeps_handle_help_key(app: AppView, action: Action)
    ensures
        (#[trigger] app.handle_help_key(action)).state.queue == app.state.queue,
{
    broadcast use keeps_quit_key;

    reveal(AppView::handle_help_key);
}

broadcast proof fn keeps_handle_quality_key(app: AppView, action: Action)
    ensures
        (#[trigger] app.handle_quality_key(action)).state.queue == app.state.queue,
{
    broadcast use {keeps_confirm_quality_picker, keeps_quit_key};

    reveal(AppView::handle_quality_key);
}

broadcast proof fn keeps_handle_login_choice_key(app: AppView, cursor: usize, action: Action)
    ensures
        (#[trigger] app.handle_login_choice_key(cursor, action)).state.queue == app.state.queue,
{
    broadcast use {keeps_confirm_login_source, keeps_quit_key};

    reveal(AppView::handle_login_choice_key);
    reveal(AppView::choose_login);
}

broadcast proof fn keeps_ask(app: AppView, pending_confirm: Option<ConfirmAction>)
    ensures
        (#[trigger] app.ask(pending_confirm)).state.queue == app.state.queue,
{
    reveal(AppView::ask);
}

broadcast proof fn keeps_prompt_entered(app: AppView, line: Seq<char>, action: PromptAction)
    ensures
        (#[trigger] app.prompt_entered(line, action)).state.queue == app.state.queue,
{
    reveal(AppView::prompt_entered);
    reveal(AppView::close_prompt);
    reveal(AppView::create_cloud_playlist);
}

broadcast proof fn keeps_handle_prompt_key(app: AppView, action: Action)
    ensures
        (#[trigger] app.handle_prompt_key(action)).state.queue == app.state.queue,
{
    broadcast use {keeps_prompt_entered, keeps_quit_key};

    reveal(AppView::handle_prompt_key);
    reveal(AppView::close_prompt);
}

broadcast proof fn keeps_handle_login_key(app: AppView, action: Action)
    ensures
        (#[trigger] app.handle_login_key(action)).state.queue == app.state.queue,
{
    broadcast use keeps_quit_key;

    reveal(AppView::handle_login_key);
    reveal(AppView::close_login);
}

broadcast proof fn keeps_handle_editing_action(app: AppView, action: Action)
    ensures
        (#[trigger] app.handle_editing_action(action)).state.queue == app.state.queue,
{
    reveal(AppView::handle_editing_action);
    reveal(AppView::run_search);
}

broadcast proof fn keeps_open_help(app: AppView)
    ensures
        (#[trigger] app.open_help()).state.queue == app.state.queue,
{
    reveal(AppView::open_help);
}

broadcast proof fn keeps_toggle_sidebar(app: AppView)
    ensures
        (#[trigger] app.toggle_sidebar()).state.queue == app.state.queue,
{
    reveal(AppView::toggle_sidebar);
}

broadcast proof fn keeps_toggle_lyric_panel(app: AppView)
    ensures
        (#[trigger] app.toggle_lyric_panel()).state.queue == app.state.queue,
{
    reveal(AppView::toggle_lyric_panel);
}

broadcast proof fn keeps_toggle_window(app: AppView)
    ensures
        (#[trigger] app.toggle_window()).state.queue == app.state.queue,
{
    reveal(AppView::toggle_window);
}

broadcast proof fn keeps_window_toggled(app: AppView, done: Option<bool>)
    ensures
        (#[trigger] app.window_toggled(done)).state.queue == app.state.queue,
{
    reveal(AppView::window_toggled);
}

broadcast proof fn keeps_seek_key(app: AppView, forward: bool)
    ensures
        (#[trigger] app.seek_key(forward)).state.queue == app.state.queue,
{
    broadcast use {keeps_cycle_focus, keeps_seek_by};

    reveal(AppView::seek_key);
}

broadcast proof fn keeps_cycle_quality(app: AppView)
    ensures
        (#[trigger] app.cycle_quality()).state.queue == app.state.queue,
{
    reveal(AppView::cycle_quality);
    reveal(AppView::save_config);
}

broadcast proof fn keeps_open_search(app: AppView)
    ensures
        (#[trigger] app.open_search()).state.queue == app.state.queue,
{
    broadcast use keeps_switch_tab;

    reveal(AppView::open_search);
    reveal(AppView::with_focus);
}

broadcast proof fn keeps_open_settings(app: AppView)
    ensures
        (#[trigger] app.open_settings()).state.queue == app.state.queue,
{
    broadcast use keeps_switch_tab;

    reveal(AppView::open_settings);
    reveal(AppView::with_focus);
}

broadcast proof fn keeps_ask_to_delete_playlist(app: AppView)
    ensures
        (#[trigger] app.ask_to_delete_playlist()).state.queue == app.state.queue,
{
    broadcast use keeps_ask;

    reveal(AppView::ask_to_delete_playlist);
}

broadcast proof fn keeps_new_cloud_playlist(app: AppView)
    ensures
        (#[trigger] app.new_cloud_playlist()).state.queue == app.state.queue,
{
    reveal(AppView::new_cloud_playlist);
}

broadcast proof fn sound_play_from(app: AppView, songs: Seq<Song>, index: usize)
    ensures
        app.state.queue.wf() ==> (#[trigger] app.play_from(songs, index)).state.queue.wf(),
{
    broadcast use keeps_start_playback;

    if app.state.queue.wf() {
        queue_stays_well_formed(
            app.state.queue,
            songs,
            arbitrary(),
            index,
            true,
            0,
        );
    }
    reveal(AppView::play_from);
    reveal(AppView::sync_queue_cursor);
}

broadcast proof fn sound_play_from_focused_songs(app: AppView)
    ensures
        app.state.queue.wf() ==> (#[trigger] app.play_from_focused_songs()).state.queue.wf(),
{
    broadcast use sound_play_from;

    reveal(AppView::play_from_focused_songs);
}

broadcast proof fn sound_play_from_queue(app: AppView)
    ensures
        app.state.queue.wf() ==> (#[trigger] app.play_from_queue()).state.queue.wf(),
{
    broadcast use keeps_start_playback;

    if app.state.queue.wf() {
        queue_stays_well_formed(
            app.state.queue,
            arbitrary(),
            arbitrary(),
            app.state.marks.queue->0,
            true,
            0,
        );
    }
    reveal(AppView::play_from_queue);
}

broadcast proof fn sound_toggle_playback(app: AppView)
    ensures
        app.state.queue.wf() ==> (#[trigger] app.toggle_playback()).state.queue.wf(),
{
    broadcast use {keeps_start_playback, sound_play_from_focused_songs};

    reveal(AppView::toggle_playback);
    reveal(AppView::say_resumed);
}

broadcast proof fn sound_play_current(app: AppView, index: usize)
    ensures
        app.state.queue.wf() ==> (#[trigger] app.play_current(index)).state.queue.wf(),
{
    broadcast use keeps_start_playback;

    reveal(AppView::play_current);
    reveal(AppView::sync_queue_cursor);
}

broadcast proof fn sound_next_track(app: AppView, by_user: bool)
    ensures
        app.state.queue.wf() ==> (#[trigger] app.next_track(by_user)).state.queue.wf(),
{
    broadcast use {keeps_queue_ended, sound_play_current};

    if app.state.queue.wf() {
        queue_stays_well_formed(
            app.state.queue,
            arbitrary(),
            arbitrary(),
            0,
            by_user,
            app.clock.random,
        );
    }
    reveal(AppView::next_track);
}

broadcast proof fn sound_previous_track(app: AppView)
    ensures
        app.state.queue.wf() ==> (#[trigger] app.previous_track()).state.queue.wf(),
{
    broadcast use sound_play_current;

    if app.state.queue.wf() {
        queue_stays_well_formed(
            app.state.queue,
            arbitrary(),
            arbitrary(),
            0,
            true,
            0,
        );
    }
    reveal(AppView::previous_track);
    reveal(AppView::show_seek);
}

broadcast proof fn sound_append_song(app: AppView, song: Song)
    ensures
        app.state.queue.wf() ==> (#[trigger] app.append_song(song)).state.queue.wf(),
{
    if app.state.queue.wf() {
        queue_stays_well_formed(
            app.state.queue,
            seq![song],
            song,
            0,
            true,
            0,
        );
    }
    reveal(AppView::append_song);
}

broadcast proof fn sound_insert_song(app: AppView, song: Song)
    ensures
        app.state.queue.wf() ==> (#[trigger] app.insert_song(song)).state.queue.wf(),
{
    if app.state.queue.wf() {
        queue_stays_well_formed(
            app.state.queue,
            seq![song],
            song,
            0,
            true,
            0,
        );
    }
    reveal(AppView::insert_song);
}

broadcast proof fn sound_queue_focused_song(app: AppView, play_next: bool)
    ensures
        app.state.queue.wf() ==> (#[trigger] app.queue_focused_song(play_next)).state.queue.wf(),
{
    broadcast use {sound_insert_song, sound_append_song, keeps_clamp_queue_cursor};

    reveal(AppView::queue_focused_song);
}

broadcast proof fn sound_remove_selected_from_queue(app: AppView)
    ensures
        app.state.queue.wf() ==> (#[trigger] app.remove_selected_from_queue()).state.queue.wf(),
{
    broadcast use {keeps_clamp_queue_cursor, keeps_drop_current};

    if app.state.queue.wf() {
        queue_stays_well_formed(
            app.state.queue,
            arbitrary(),
            arbitrary(),
            app.state.marks.queue->0,
            true,
            0,
        );
    }
    reveal(AppView::remove_selected_from_queue);
}

broadcast proof fn sound_remove_song_from_queue(app: AppView, song: Song)
    ensures
        app.state.queue.wf() ==> (#[trigger] app.remove_song_from_queue(song)).state.queue.wf(),
{
    if app.state.queue.wf() {
        queue_stays_well_formed(
            app.state.queue,
            arbitrary(),
            arbitrary(),
            app.state.queue.place_of(song.hash@, 0)->0,
            true,
            0,
        );
    }
    reveal(AppView::remove_song_from_queue);
}

broadcast proof fn sound_queue_all_songs(app: AppView)
    ensures
        app.state.queue.wf() ==> (#[trigger] app.queue_all_songs()).state.queue.wf(),
{
    broadcast use keeps_clamp_queue_cursor;

    if app.state.queue.wf() {
        queue_stays_well_formed(
            app.state.queue,
            (app.state.focused_songs()->0).songs,
            arbitrary(),
            0,
            true,
            0,
        );
    }
    reveal(AppView::queue_all_songs);
}

broadcast proof fn sound_clear_queue(app: AppView)
    ensures
        app.state.queue.wf() ==> (#[trigger] app.clear_queue()).state.queue.wf(),
{
    broadcast use keeps_stop_playback;

    if app.state.queue.wf() {
        queue_stays_well_formed(
            app.state.queue,
            arbitrary(),
            arbitrary(),
            0,
            true,
            0,
        );
    }
    reveal(AppView::clear_queue);
}

broadcast proof fn sound_run_menu_action(app: AppView, action: MenuAction, song: Song)
    ensures
        app.state.queue.wf() ==> (#[trigger] app.run_menu_action(action, song)).state.queue.wf(),
{
    broadcast use {
        keeps_start_playback,
        sound_append_song,
        keeps_clamp_queue_cursor,
        sound_insert_song,
        keeps_add_focused_song_to_cloud,
        sound_remove_song_from_queue,
    };

    reveal(AppView::run_menu_action);
    reveal(AppView::open_quality_picker);
}

broadcast proof fn sound_choose_in_menu(app: AppView, i: usize)
    ensures
        app.state.queue.wf() ==> (#[trigger] app.choose_in_menu(i)).state.queue.wf(),
{
    broadcast use sound_run_menu_action;

    reveal(AppView::choose_in_menu);
    reveal(AppView::close_menu);
}

broadcast proof fn sound_handle_menu_key(app: AppView, action: Action)
    ensures
        app.state.queue.wf() ==> (#[trigger] app.handle_menu_key(action)).state.queue.wf(),
{
    broadcast use sound_choose_in_menu;

    reveal(AppView::handle_menu_key);
    reveal(AppView::close_menu);
}

broadcast proof fn sound_activate(app: AppView)
    ensures
        app.state.queue.wf() ==> (#[trigger] app.activate()).state.queue.wf(),
{
    broadcast use {
        sound_play_from_queue,
        keeps_toggle_source_enabled,
        keeps_adjust_setting,
        keeps_enter_search,
        sound_play_from_focused_songs,
        keeps_open_selected_playlist,
        keeps_open_selected_cloud_playlist,
    };

    reveal(AppView::activate);
    reveal(AppView::open_selected_artist);
    reveal(AppView::open_selected_rank);
    reveal(AppView::with_focus);
}

broadcast proof fn sound_click_list_row(app: AppView, zone: HitZone)
    ensures
        app.state.queue.wf() ==> (#[trigger] app.click_list_row(zone)).state.queue.wf(),
{
    broadcast use {keeps_point_at, sound_activate};

    reveal(AppView::click_list_row);
}

broadcast proof fn sound_click_at(app: AppView, mouse: MouseInput)
    ensures
        app.state.queue.wf() ==> (#[trigger] app.click_at(mouse)).state.queue.wf(),
{
    broadcast use {
        keeps_switch_tab,
        sound_click_list_row,
        keeps_click_setting,
        keeps_claim_daily_vip,
        keeps_retry_profile,
    };

    reveal(AppView::click_at);
    reveal(AppView::click_progress);
}

broadcast proof fn sound_handle_mouse(app: AppView, mouse: MouseInput)
    ensures
        app.state.queue.wf() ==> (#[trigger] app.handle_mouse(mouse)).state.queue.wf(),
{
    broadcast use {keeps_scroll_list_at, sound_click_at, keeps_right_click_at};

    reveal(AppView::handle_mouse);
}

broadcast proof fn sound_track_finished(app: AppView)
    ensures
        app.state.queue.wf() ==> (#[trigger] app.track_finished()).state.queue.wf(),
{
    broadcast use sound_next_track;

    reveal(AppView::track_finished);
    reveal(AppView::trial_ended);
}

broadcast proof fn sound_handle_audio_event(app: AppView, event: AudioEvent)
    ensures
        app.state.queue.wf() ==> (#[trigger] app.handle_audio_event(event)).state.queue.wf(),
{
    broadcast use {
        keeps_track_ready,
        keeps_device_opened,
        sound_track_finished,
        keeps_stream_interrupted,
        keeps_audio_failed,
    };

    reveal(AppView::handle_audio_event);
    reveal(AppView::device_switch_failed);
}

broadcast proof fn sound_confirmed(app: AppView, confirm: ConfirmAction)
    ensures
        app.state.queue.wf() ==> (#[trigger] app.confirmed(confirm)).state.queue.wf(),
{
    broadcast use {sound_clear_queue, keeps_relogin};

    reveal(AppView::confirmed);
    reveal(AppView::delete_cloud_playlist);
    reveal(AppView::clear_cache);
}

broadcast proof fn sound_handle_confirm_key(app: AppView, confirm: ConfirmAction, action: Action)
    ensures
        app.state.queue.wf()
            ==> (#[trigger] app.handle_confirm_key(confirm, action)).state.queue.wf(),
{
    broadcast use {keeps_ask, sound_confirmed};

    reveal(AppView::handle_confirm_key);
}

broadcast proof fn sound_cycle_playback_mode(app: AppView)
    ensures
        app.state.queue.wf() ==> (#[trigger] app.cycle_playback_mode()).state.queue.wf(),
{
    reveal(AppView::cycle_playback_mode);
}

broadcast proof fn sound_handle_normal_action(app: AppView, action: Action)
    ensures
        app.state.queue.wf() ==> (#[trigger] app.handle_normal_action(action)).state.queue.wf(),
{
    broadcast use {
        keeps_quit_key,
        keeps_open_help,
        keeps_open_context_menu,
        keeps_open_sources_page,
        keeps_set_default_source,
        keeps_shift_source_priority,
        keeps_toggle_sidebar,
        keeps_toggle_window,
        keeps_handle_digit,
        keeps_cycle_focus,
        keeps_move_selection,
        keeps_move_selection_edge,
        sound_activate,
        keeps_go_back,
        sound_toggle_playback,
        sound_next_track,
        sound_previous_track,
        keeps_seek_key,
        keeps_seek_to,
        keeps_seek_by,
        keeps_load_more_search,
        keeps_adjust_volume,
        keeps_toggle_mute,
        sound_cycle_playback_mode,
        keeps_cycle_quality,
        keeps_toggle_lyric_panel,
        keeps_adjust_lyric_offset,
        keeps_open_search,
        keeps_open_settings,
        keeps_download_current,
        keeps_reload_current_tab,
        sound_queue_focused_song,
        sound_queue_all_songs,
        sound_remove_selected_from_queue,
        keeps_ask,
        keeps_toggle_sort_order,
        keeps_switch_tab,
        keeps_open_login_picker,
        keeps_claim_daily_vip,
        keeps_cycle_artist_filter,
        keeps_sync_queue_to_cloud,
        keeps_add_focused_song_to_cloud,
        keeps_remove_focused_song_from_cloud,
        keeps_ask_to_delete_playlist,
        keeps_new_cloud_playlist,
    };

    reveal(AppView::handle_normal_action);
}

broadcast proof fn sound_handle_page_key(app: AppView, action: Action)
    ensures
        app.state.queue.wf() ==> (#[trigger] app.handle_page_key(action)).state.queue.wf(),
{
    broadcast use {keeps_adjust_setting, keeps_handle_editing_action, sound_handle_normal_action};

    reveal(AppView::handle_page_key);
}

broadcast proof fn sound_handle_dialog_key(app: AppView, action: Action)
    ensures
        app.state.queue.wf() ==> (#[trigger] app.handle_dialog_key(action)).state.queue.wf(),
{
    broadcast use {
        sound_handle_confirm_key,
        keeps_handle_prompt_key,
        keeps_handle_login_key,
        sound_handle_page_key,
    };

    reveal(AppView::handle_dialog_key);
}

broadcast proof fn sound_handle_action(app: AppView, action: Action)
    ensures
        app.state.queue.wf() ==> (#[trigger] app.handle_action(action)).state.queue.wf(),
{
    broadcast use {
        sound_handle_menu_key,
        keeps_handle_help_key,
        keeps_handle_quality_key,
        keeps_handle_login_choice_key,
        sound_handle_dialog_key,
    };

    reveal(AppView::handle_action);
}

/// The answers of the outside to what the program asked for leave the queue alone.
pub proof fn answers_leave_the_queue_alone(
    app: AppView,
    purpose: Purpose<Seq<char>>,
    error: AppError,
    lookup: Lookup,
    path: Option<Seq<char>>,
    after: AfterSave<Seq<char>>,
    text: Seq<char>,
    saved: Result<(), AppError>,
    cleared: Result<ClearReport, AppError>,
    kind: SourceKind,
    then_login: bool,
    number: u64,
    volume: u32,
    done: Option<bool>,
)
    ensures
        app.client_ready(purpose).state.queue == app.state.queue,
        app.client_failed(purpose, error).state.queue == app.state.queue,
        app.cache_found(lookup, path).state.queue == app.state.queue,
        app.config_saved(after, text, saved).state.queue == app.state.queue,
        app.reconnected(kind, then_login, saved).state.queue == app.state.queue,
        app.cache_cleared(cleared, text).state.queue == app.state.queue,
        app.progress_estimated(number).state.queue == app.state.queue,
        app.volume_stepped(volume).state.queue == app.state.queue,
        app.window_toggled(done).state.queue == app.state.queue,
{
    broadcast use {
        keeps_client_ready,
        keeps_client_failed,
        keeps_cache_found,
        keeps_config_saved,
        keeps_reconnected,
        keeps_cache_cleared,
        keeps_progress_estimated,
        keeps_volume_stepped,
        keeps_window_toggled,
    };

}

/// Whatever happens, a queue that stands at one of its songs, if at any, goes on to
/// do so.
pub proof fn events_keep_the_queue_sound(app: AppView, event: Event)
    requires
        app.state.queue.wf(),
    ensures
        app.handle_event(event).state.queue.wf(),
{
    broadcast use {
        keeps_handle_loaded,
        keeps_note_connection,
        keeps_tick,
        sound_handle_action,
        sound_handle_audio_event,
        sound_handle_mouse,
    };

    reveal(AppView::handle_event);
}

} // verus!
