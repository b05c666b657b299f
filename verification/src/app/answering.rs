//! What events lead to: each answer, each word of the audio thread and each move of the
//! mouse goes where it belongs.

use vstd::prelude::*;
use crate::app::effect::Effect;
use crate::app::identity::{login_candidates, place_of_kind};
use crate::app::nav::{Connection, Focus, Tab};
use crate::app::panes::moved;
use crate::app::session::Session;
use crate::app::state::{AppView, Clock, SettingOptions};
use crate::audio::engine::{AudioEvent, PlaybackState};
use crate::config::{ConfigView, QUALITIES};
use crate::error::AppError;
use crate::event::{
    Action, AudioSnapshot, Event, HitTarget, HitZone, Loaded, LoadingTarget, MouseInput, MouseKind,
    PlaylistSource, VipClaimOutcome,
};
use crate::model::{Artist, LyricLine, Playlist, RankBoard, Song, UserInfo, VipInfo};
use crate::source::SourceKind;
use crate::text::{opt, trimmed};

verus! {

/// Every event is taken for what it is: a key, the mouse, the audio thread, an answer or the
/// clock. An answer first says whether the service can be reached.
pub proof fn events_are_taken_for_what_they_are(
    app: AppView,
    action: Action,
    mouse: MouseInput,
    audio: AudioEvent,
    loaded: Loaded,
    snapshot: AudioSnapshot,
)
    ensures
        app.handle_event(Event::Action(action)) == app.handle_action(action),
        app.handle_event(Event::Mouse(mouse)) == app.handle_mouse(mouse),
        app.handle_event(Event::Audio(audio)) == app.handle_audio_event(audio),
        app.handle_event(Event::Loaded(Box::new(loaded))) == app.note_connection(
            loaded,
        ).handle_loaded(loaded),
        app.handle_event(Event::Tick(snapshot)) == app.tick(snapshot),
        app.handle_event(Event::Resize) == app,
{
    reveal(AppView::handle_event);
}

/// What the audio thread tells is taken for what it is: a track that is ready, one that has
/// ended, a stream that starved, a device, or a failure.
pub proof fn the_audio_thread_is_heard(
    app: AppView,
    duration_ms: u64,
    position_ms: u64,
    name: String,
    message: String,
)
    ensures
        app.handle_audio_event(AudioEvent::Ready { duration_ms }) == app.track_ready(duration_ms),
        app.handle_audio_event(AudioEvent::TrackFinished) == app.track_finished(),
        app.handle_audio_event(AudioEvent::StreamInterrupted { position_ms })
            == app.stream_interrupted(position_ms),
        app.handle_audio_event(AudioEvent::DeviceOpened { name }) == app.device_opened(name@),
        app.handle_audio_event(AudioEvent::Failed(message)) == app.audio_failed(message@),
        ({
            let next = app.handle_audio_event(AudioEvent::DeviceSwitchFailed(message));
            &&& next.pending_device_resume is None
            &&& next.state.player == app.state.player
            &&& next.effects == app.effects
        }),
{
    reveal(AppView::handle_audio_event);
    reveal(AppView::device_switch_failed);
}

/// A device or a track that could not be opened ends playing, for a reason that is said; the
/// queue stays, and the place is kept to go on from.
pub proof fn audio_failures_are_told(app: AppView, message: Seq<char>)
    ensures
        ({
            let next = app.audio_failed(message);
            &&& next.state.player.playback == PlaybackState::Stopped
            &&& next.state.screen.status.text == message
            &&& next.state.screen.busy is None
            &&& next.state.queue == app.state.queue
            &&& next.state.player.current == app.state.player.current
            &&& next.effects == app.effects
            &&& next.active_stream is None
        }),
{
    reveal(AppView::audio_failed);
    reveal(AppView::settle);
    reveal(AppView::set_progress);
    reveal(AppView::set_playback);
    reveal(AppView::mark_resume_point);
}

/// The results of a search go to the search: the first ones in place of the old, further ones
/// behind them.
pub proof fn results_go_to_the_search(app: AppView, keyword: String, songs: Vec<Song>)
    ensures
        app.handle_loaded(Loaded::Search { keyword, songs, append: false }) == app.search_found(
            keyword@,
            songs@,
        ),
        app.handle_loaded(Loaded::Search { keyword, songs, append: true }) == app.search_appended(
            keyword@,
            songs@,
        ),
{
    reveal(AppView::handle_loaded);
}

/// Lists that come go to the pages they were asked for.
pub proof fn lists_go_to_their_page(
    app: AppView,
    title: String,
    items: Vec<Playlist>,
    artists: Vec<Artist>,
    boards: Vec<RankBoard>,
)
    ensures
        app.handle_loaded(Loaded::Playlists { title, items }) == app.playlists_loaded(
            title@,
            items@,
        ),
        app.handle_loaded(Loaded::CloudPlaylists(items)) == app.cloud_loaded(items@),
        app.handle_loaded(Loaded::Artists(artists)) == app.artists_loaded(artists@),
        app.handle_loaded(Loaded::RankBoards(boards)) == app.ranks_loaded(boards@),
{
    reveal(AppView::handle_loaded);
}

/// Songs that come go to the page of the entry they were asked for.
pub proof fn songs_go_to_their_page(
    app: AppView,
    songs: Vec<Song>,
    playlist: Playlist,
    artist: Artist,
    board: RankBoard,
)
    ensures
        app.handle_loaded(
            Loaded::PlaylistTracks { playlist, songs, source: PlaylistSource::Plaza },
        ) == app.playlist_loaded(Tab::Playlists, playlist.name@, songs@),
        app.handle_loaded(
            Loaded::PlaylistTracks { playlist, songs, source: PlaylistSource::Cloud },
        ) == app.playlist_loaded(Tab::Cloud, playlist.name@, songs@),
        app.handle_loaded(Loaded::ArtistSongs { artist, songs }) == app.songs_loaded(
            Tab::Artists,
            artist.name@,
            songs@,
        ),
        app.handle_loaded(Loaded::RankTracks { board, songs }) == app.songs_loaded(
            Tab::Ranks,
            board.name@,
            songs@,
        ),
{
    reveal(AppView::handle_loaded);
}

/// What is told of the sound of a song goes to that song: the link to it, its stream, and its
/// file.
pub proof fn answers_go_to_their_song(
    app: AppView,
    song: Box<Song>,
    text: String,
    start_at_ms: u64,
    is_trial: bool,
    reason: Option<String>,
    stream: u64,
)
    ensures
        app.handle_loaded(
            Loaded::StreamReady { song, url: text, start_at_ms, is_trial, reason },
        ) == app.stream_ready(*song, text@, start_at_ms, is_trial, opt(reason)),
        app.handle_loaded(Loaded::StreamPrerolled { song, stream, start_at_ms })
            == app.stream_prerolled(*song, stream, start_at_ms),
        app.handle_loaded(Loaded::StreamCached { song, path: text, start_at_ms })
            == app.stream_cached(*song, text@, start_at_ms),
        app.handle_loaded(Loaded::StreamCompleted { song, path: text }) == app.stream_completed(
            *song,
        ),
{
    reveal(AppView::handle_loaded);
}

/// What is told of the looks of a song goes to it too: its lyrics, its cover, and how far its
/// download is.
pub proof fn lyrics_and_covers_go_to_their_song(
    app: AppView,
    hash: String,
    lines: Vec<LyricLine>,
    reason: String,
    width: u32,
    height: u32,
    received: u64,
    total: Option<u64>,
)
    ensures
        app.handle_loaded(Loaded::Lyric { hash, lines }) == app.lyric_loaded(hash@, lines@),
        app.handle_loaded(Loaded::LyricFailed { hash, reason }) == app.lyric_failed(
            hash@,
            reason@,
        ),
        app.handle_loaded(Loaded::CoverReady { hash, width, height }) == app.cover_ready(
            hash@,
            width,
            height,
        ),
        app.handle_loaded(Loaded::DownloadProgress { received, total }) == app.set_progress(
            Some((received, total)),
        ),
        app.handle_loaded(Loaded::AvatarReady) == app.emit(Effect::ShowAvatar),
{
    reveal(AppView::handle_loaded);
}

/// The cover of the playing song is shown in its shape, and how far a download is is shown as
/// it is told.
pub proof fn covers_are_shown(
    app: AppView,
    hash: Seq<char>,
    width: u32,
    height: u32,
    progress: Option<(u64, Option<u64>)>,
)
    requires
        app.state.player.current matches Some(song) && song.hash@ == hash,
    ensures
        app.cover_ready(hash, width, height).state.player.cover.hash == Some(hash),
        width > 0 && height > 0 ==> app.cover_ready(hash, width, height).state.player.cover.aspect
            == Some((width, height)),
        app.cover_ready(hash, width, height).effects == app.effects,
        app.set_progress(progress).state.player.download_progress == progress,
        app.set_progress(progress).state.player.current == app.state.player.current,
{
    reveal(AppView::cover_ready);
    reveal(AppView::set_progress);
}

/// What is told of a login goes to it: the code, its course, and its end.
pub proof fn answers_go_to_the_login(
    app: AppView,
    key: String,
    content: String,
    message: String,
    token: Option<String>,
    userid: Option<String>,
    cookie: Option<String>,
)
    ensures
        app.handle_loaded(Loaded::LoginQr { key, content }) == app.login_code(key@, content@),
        app.handle_loaded(Loaded::LoginStatus { message }) == app.login_says(message@),
        app.handle_loaded(Loaded::LoginSucceeded { token, userid, cookie }) == app.login_succeeded(
            opt(token),
            opt(userid),
            opt(cookie),
        ),
        app.handle_loaded(Loaded::LoginFailed { message }) == app.finish_login(false, message@),
{
    reveal(AppView::handle_loaded);
}

/// A login that has ended says how, and whether it worked.
pub proof fn logins_end(app: AppView, succeeded: bool, message: Seq<char>)
    ensures
        ({
            let next = app.finish_login(succeeded, message);
            &&& next.state.panels.login is Some
            &&& (next.state.panels.login->0).finished
            &&& (next.state.panels.login->0).succeeded == succeeded
            &&& (next.state.panels.login->0).message == message
            &&& next.state.account == app.state.account
            &&& next.effects == app.effects
        }),
{
    reveal(AppView::finish_login);
}

/// What is told of the account goes there: its data, its membership, and what was claimed.
pub proof fn answers_go_to_the_account(
    app: AppView,
    info: Box<UserInfo>,
    vip: Box<VipInfo>,
    day: String,
    outcome: VipClaimOutcome,
    manual: bool,
)
    ensures
        app.handle_loaded(Loaded::UserInfo(info)) == app.user_loaded(*info),
        app.handle_loaded(Loaded::VipStatus(vip)) == app.vip_loaded(*vip),
        app.handle_loaded(Loaded::VipClaimed { day, outcome, manual }) == app.vip_claimed(
            day@,
            outcome,
            manual,
        ),
{
    reveal(AppView::handle_loaded);
}

/// What is told of the device, the cache and the cloud is taken for that.
pub proof fn answers_go_to_the_rest(
    app: AppView,
    text: String,
    bytes: u64,
    playlist: Box<Playlist>,
)
    ensures
        app.handle_loaded(Loaded::DeviceFingerprint(text)) == app.fingerprint_loaded(text@),
        app.handle_loaded(Loaded::CacheUsage(bytes)) == app.cache_measured(bytes),
        app.handle_loaded(Loaded::CloudPlaylistChanged { playlist }) == app.cloud_changed(
            *playlist,
        ),
        app.handle_loaded(Loaded::CloudNotice(text)) == app.cloud_notice(text@),
        app.cache_measured(bytes).state.account.cache_bytes == bytes,
{
    reveal(AppView::handle_loaded);
    reveal(AppView::cache_measured);
}

/// A change of a cloud playlist is told, and the list of them is loaded again; the songs
/// that are shown too, where they are those of the playlist that changed.
pub proof fn changed_playlists_are_loaded_again(
    app: AppView,
    playlist: Playlist,
    message: Seq<char>,
)
    requires
        app.state.account.logged_in,
    ensures
        app.cloud_notice(message).effects == app.effects.push(
            Effect::UserPlaylists { source: app.state.config.sources.active },
        ),
        app.state.pages.open_cloud matches Some(opened) ==> (opened.list_id is Some
            && opened.list_id == playlist.list_id ==> {
            let next = app.cloud_changed(playlist);
            &&& next.effects.len() == app.effects.len() + 2
            &&& next.effects.last() is PlaylistTracks
            &&& next.effects.last()->PlaylistTracks_playlist == playlist
            &&& next.effects.last()->PlaylistTracks_fresh
        }),
        app.state.pages.open_cloud is None ==> app.cloud_changed(playlist).effects
            == app.effects.push(
            Effect::UserPlaylists { source: app.state.config.sources.active },
        ),
{
    reveal(AppView::cloud_notice);
    reveal(AppView::cloud_changed);
    reveal(AppView::load_cloud_playlists);
    reveal(AppView::load_playlist_songs);
}

/// Whether the service can be reached is what its last answer showed: it can where it
/// answered, if only to refuse, and cannot where the connection failed.
pub proof fn answers_show_the_connection(
    app: AppView,
    loaded: Loaded,
    context: String,
    error: AppError,
    target: LoadingTarget,
)
    ensures
        loaded.from_service() ==> app.note_connection(loaded).state.account.connection
            == Connection::Connected,
        ({
            let failed = Loaded::Failed { context, error, target: Some(target) };
            app.note_connection(failed).state.account.connection == (if error.connectivity {
                Connection::Unreachable
            } else {
                Connection::Connected
            })
        }),
        app.note_connection(loaded).effects == app.effects,
        app.note_connection(loaded).state.player == app.state.player,
{
    reveal(AppView::note_connection);
}

/// A request that has failed says why, and a login that is no longer accepted is none.
pub proof fn failed_requests_say_why(
    app: AppView,
    context: String,
    error: AppError,
    target: Option<LoadingTarget>,
)
    ensures
        app.handle_loaded(Loaded::Failed { context, error, target }) == app.request_failed(
            context@,
            error,
            target,
        ),
        ({
            let next = app.request_failed(context@, error, target);
            &&& next.state.screen.status.text == context@ + "："@ + error.hint@
            &&& next.state.account.logged_in == (app.state.account.logged_in
                && !error.login_expired)
            &&& next.state.player.current == app.state.player.current
            &&& next.state.queue == app.state.queue
            &&& next.effects == app.effects
        }),
{
    assert(app.handle_loaded(Loaded::Failed { context, error, target }) == app.request_failed(
        context@,
        error,
        target,
    )) by {
        reveal(AppView::handle_loaded);
    }
    reveal(AppView::request_failed);
    reveal(AppView::settle);
    reveal(AppView::set_progress);
    reveal(AppView::login_lost);
    reveal(AppView::mark_load_failed);
}

// The panels.

/// In the help the keys scroll by one line, a page or to an end, and the keys that open and
/// close it close it.
pub proof fn keys_of_the_help(app: AppView)
    requires
        app.state.panels.context_menu is None,
        app.state.panels.help.open,
    ensures
        ({
            let offset = app.state.panels.help.offset;
            let lines = crate::app::nav::HELP_LINES as nat;
            &&& Some(app.handle_action(Action::MoveDown).state.panels.help.offset) == moved(
                Some(offset),
                lines,
                1,
            )
            &&& Some(app.handle_action(Action::MoveUp).state.panels.help.offset) == moved(
                Some(offset),
                lines,
                -1,
            )
            &&& app.handle_action(Action::MoveTop).state.panels.help.offset == 0
            &&& app.handle_action(Action::MoveBottom).state.panels.help.offset == lines - 1
            &&& !app.handle_action(Action::Cancel).state.panels.help.open
            &&& !app.handle_action(Action::Help).state.panels.help.open
            &&& app.handle_action(Action::MoveDown).state.panels.help.open
        }),
{
    reveal(AppView::handle_action);
    reveal(AppView::handle_help_key);
}

/// In the list of qualities the keys up and down move the mark by one, Enter takes the marked
/// one, and Esc takes none.
pub proof fn keys_of_the_quality_list(app: AppView)
    requires
        app.state.panels.context_menu is None,
        !app.state.panels.help.open,
        app.state.panels.quality_picker is Some,
    ensures
        ({
            let picker = app.state.panels.quality_picker->0;
            let down = app.handle_action(Action::MoveDown).state.panels.quality_picker;
            let up = app.handle_action(Action::MoveUp).state.panels.quality_picker;
            &&& down is Some && (down->0).song == picker.song && Some((down->0).cursor) == moved(
                Some(picker.cursor),
                QUALITIES as nat,
                1,
            )
            &&& up is Some && (up->0).song == picker.song && Some((up->0).cursor) == moved(
                Some(picker.cursor),
                QUALITIES as nat,
                -1,
            )
            &&& app.handle_action(Action::Submit) == app.confirm_quality_picker()
            &&& app.handle_action(Action::Cancel).state.panels.quality_picker is None
            &&& app.handle_action(Action::Cancel).effects == app.effects
        }),
{
    reveal(AppView::handle_action);
    reveal(AppView::handle_quality_key);
}

/// The list of services to log in to stands at the one in use; Enter logs in to the marked
/// one, and Esc closes the list.
pub proof fn keys_of_the_login_list(app: AppView)
    requires
        app.state.panels.context_menu is None,
        !app.state.panels.help.open,
        app.state.panels.quality_picker is None,
        app.state.panels.login_picker matches Some(i) && i < 3,
    ensures
        ({
            let i = app.state.panels.login_picker->0;
            let closed = app.with_panels(
                crate::app::panels::Panels { login_picker: None, ..app.state.panels },
            );
            let kind = if i == 0 {
                SourceKind::Kugou
            } else if i == 1 {
                SourceKind::KugouConcept
            } else {
                SourceKind::Netease
            };
            &&& app.handle_action(Action::Submit) == closed.begin_login_for(kind)
            &&& app.handle_action(Action::Cancel).state.panels.login_picker is None
            &&& app.handle_action(Action::Cancel).effects == app.effects
        }),
{
    lemma_login_candidates();
    reveal(AppView::handle_action);
    reveal(AppView::handle_login_choice_key);
    reveal(AppView::confirm_login_source);
    reveal(AppView::choose_login);
}

proof fn lemma_login_candidates()
    ensures
        login_candidates() == seq![
            SourceKind::Kugou,
            SourceKind::KugouConcept,
            SourceKind::Netease,
        ],
{
    assert(login_candidates() =~= seq![
        SourceKind::Kugou,
        SourceKind::KugouConcept,
        SourceKind::Netease,
    ]);
}

/// One can log in to every service, and the list of them is opened at the one in use.
pub proof fn logins_begin_with_a_choice(app: AppView)
    ensures
        ({
            let next = app.open_login_picker();
            &&& next.state.panels.login_picker == Some(
                match app.state.config.sources.active {
                    SourceKind::Kugou => 0usize,
                    SourceKind::KugouConcept => 1usize,
                    SourceKind::Netease => 2usize,
                },
            )
            &&& next.effects == app.effects
        }),
{
    lemma_login_candidates();
    reveal_with_fuel(place_of_kind, 4);
    reveal(AppView::open_login_picker);
}

/// The line for the name of a playlist is written like any other; Enter makes the playlist
/// under that name, without the blanks around it, and Esc closes the line.
pub proof fn keys_of_the_prompt(app: AppView, c: char)
    requires
        app.state.panels.context_menu is None,
        !app.state.panels.help.open,
        app.state.panels.quality_picker is None,
        app.state.panels.login_picker is None,
        app.state.panels.pending_confirm is None,
        app.state.panels.prompt is Some,
    ensures
        ({
            let prompt = app.state.panels.prompt->0;
            let closed = app.close_prompt();
            let written = app.handle_action(Action::Char(c)).state.panels.prompt;
            &&& written is Some
            &&& (written->0).buffer == prompt.buffer.edit(crate::app::panes::Edit::Insert(c))
            &&& closed.state.panels.prompt is None
            &&& closed.effects == app.effects
            &&& app.handle_action(Action::Submit) == closed.create_cloud_playlist(
                trimmed(prompt.buffer.chars),
            )
            &&& app.handle_action(Action::Cancel).state.panels.prompt is None
            &&& app.handle_action(Action::Cancel).effects == app.effects
        }),
{
    reveal(AppView::handle_action);
    reveal(AppView::handle_dialog_key);
    reveal(AppView::handle_prompt_key);
    reveal(AppView::prompt_entered);
    reveal(AppView::close_prompt);
}

// The mouse.

/// The wheel moves the list under the mouse by one line, the left button clicks, and the
/// right one opens the menu.
pub proof fn the_mouse_is_followed(app: AppView, mouse: MouseInput)
    ensures
        mouse.kind == MouseKind::ScrollDown ==> app.handle_mouse(mouse) == app.scroll_list_at(
            mouse,
            1,
        ),
        mouse.kind == MouseKind::ScrollUp ==> app.handle_mouse(mouse) == app.scroll_list_at(
            mouse,
            -1,
        ),
        mouse.kind == MouseKind::LeftDown ==> app.handle_mouse(mouse) == app.click_at(mouse),
        mouse.kind == MouseKind::RightDown ==> app.handle_mouse(mouse) == app.right_click_at(
            mouse,
        ),
        mouse.kind == MouseKind::Moved ==> app.handle_mouse(mouse).state.screen.hover == Some(
            (mouse.column, mouse.row),
        ) && app.handle_mouse(mouse).effects == app.effects,
        mouse.kind == MouseKind::Other ==> app.handle_mouse(mouse) == app,
{
    reveal(AppView::handle_mouse);
}

/// A click does what lies under it: it goes to a page, marks a line, goes to a place of the
/// song, changes a setting, claims the membership, or asks for the account again.
pub proof fn clicks_do_what_lies_under_them(app: AppView, mouse: MouseInput, zone: HitZone)
    requires
        mouse.zone == Some(zone),
    ensures
        zone.target == HitTarget::Tab(0) ==> app.click_at(mouse) == app.switch_tab(Tab::Home),
        zone.target == HitTarget::Tab(1) ==> app.click_at(mouse) == app.switch_tab(Tab::Search),
        zone.target == HitTarget::Tab(6) ==> app.click_at(mouse) == app.switch_tab(Tab::Queue),
        zone.target == HitTarget::Entries || zone.target == HitTarget::Songs || zone.target
            == HitTarget::Queue ==> app.click_at(mouse) == app.click_list_row(zone),
        zone.target == HitTarget::Progress ==> app.click_at(mouse) == app.click_progress(
            zone,
            mouse.column,
        ),
        zone.target == HitTarget::Settings ==> app.click_at(mouse) == app.click_setting(zone),
        zone.target == HitTarget::VipClaim ==> app.click_at(mouse) == app.claim_daily_vip(),
        zone.target == HitTarget::ProfileRetry ==> app.click_at(mouse).effects
            == app.fetch_user_info().effects,
{
    reveal(AppView::click_at);
    reveal(AppView::retry_profile);
    reveal(AppView::fetch_user_info);
}

/// The wheel over a list gives it the keys and moves its mark; elsewhere it does nothing.
pub proof fn the_wheel_moves_the_list_under_it(app: AppView, mouse: MouseInput, delta: int)
    ensures
        mouse.zone is None ==> app.scroll_list_at(mouse, delta) == app,
        mouse.zone matches Some(zone) ==> (zone.target == HitTarget::Progress
            ==> app.scroll_list_at(mouse, delta) == app),
        mouse.zone matches Some(zone) ==> (zone.target == HitTarget::Queue && app.state.screen.tab
            == Tab::Search ==> {
            let next = app.scroll_list_at(mouse, delta);
            &&& next.state.screen.focus == Focus::Queue
            &&& next.state.marks.queue == moved(
                app.state.marks.queue,
                app.state.queue.items.len(),
                delta,
            )
            &&& next.effects == app.effects
        }),
{
    reveal(AppView::scroll_list_at);
    reveal(AppView::focus_hit_target);
    reveal(AppView::with_focus);
    reveal(AppView::move_selection);
}

/// A click on a setting marks it; on the marked one it turns it to its next value.
pub proof fn clicks_turn_the_marked_setting(app: AppView, zone: HitZone, index: usize)
    requires
        zone.index == Some(index),
        !zone.double_click,
    ensures
        app.state.marks.settings != index ==> {
            let next = app.click_setting(zone);
            &&& next.state.marks.settings == index
            &&& next.state.config == app.state.config
        },
        app.state.marks.settings == index ==> app.click_setting(zone) == app.emit(
            Effect::RememberClick { target: zone.target, index: Some(index) },
        ).adjust_setting(1),
{
    reveal(AppView::click_setting);
    reveal(AppView::mark_setting);
    assert(app.state.marks.settings == index ==> app.mark_setting(index).state == app.state);
}

// Starting.

/// A program that starts has an empty queue in the mode that is set, plays nothing at the
/// volume that is set, and is logged in where the settings hold a login.
pub proof fn programs_start_with_their_settings(
    config: ConfigView,
    devices: Seq<String>,
    options: SettingOptions,
    clock: Clock<Seq<char>>,
)
    ensures
        ({
            let app = AppView::fresh(config, devices, options, clock);
            &&& app.state.queue.items.len() == 0
            &&& app.state.queue.cursor is None
            &&& app.state.queue.mode == config.playback_mode
            &&& app.state.player.playback == PlaybackState::Stopped
            &&& app.state.player.current is None
            &&& app.state.player.volume == config.volume
            &&& app.state.player.audio_devices == devices
            &&& app.state.account.logged_in == config.logged_in()
            &&& app.state.config == config
            &&& app.cache.root == config.cache_dir
            &&& app.effects.len() == 0
            &&& app.client_base == config.api_base
        }),
{
}

/// A session that is taken up again brings back the queue, the song and its place, which
/// stands ready to be resumed; nothing is heard by itself.
pub proof fn sessions_are_taken_up(app: AppView, session: Session<Seq<char>, Seq<Song>>, i: usize)
    requires
        session.cursor == Some(i),
        i < session.queue.len(),
        session.position_ms > 0,
    ensures
        ({
            let next = app.restore_session(Some(session));
            let song = session.queue[i as int];
            &&& next.state.queue.items == session.queue
            &&& next.state.queue.cursor == Some(i)
            &&& next.state.queue.mode == app.state.config.playback_mode
            &&& next.state.player.current == Some(song)
            &&& next.state.player.position_ms == session.position_ms
            &&& next.state.player.resume == Some((song.hash@, session.position_ms))
            &&& next.state.player.playback == app.state.player.playback
            &&& next.state.account.vip_claimed_day == session.vip_claimed_day
            &&& next.effects == app.effects
        }),
        app.restore_session(None) == app,
{
    reveal(AppView::restore_session);
    reveal(AppView::remember_day);
    reveal(AppView::recall_queue);
    reveal(AppView::recall_song);
}

/// Where another playlist is shown than the one that changed, its songs stay as they are.
pub proof fn other_playlists_are_left_alone(app: AppView, playlist: Playlist)
    requires
        app.state.account.logged_in,
        app.state.pages.open_cloud matches Some(opened) && opened.list_id != playlist.list_id,
    ensures
        app.cloud_changed(playlist).effects == app.effects.push(
            Effect::UserPlaylists { source: app.state.config.sources.active },
        ),
        app.cloud_changed(playlist).state.pages.cloud.songs == app.state.pages.cloud.songs,
{
    reveal(AppView::cloud_changed);
    reveal(AppView::load_cloud_playlists);
    reveal(crate::app::pages::PagesView::begin_entries);
}

/// What the service says of a login that is under way is shown; one that has ended says what
/// it ended with.
pub proof fn logins_say_how_far_they_are(app: AppView, message: Seq<char>)
    requires
        app.state.panels.login is Some,
    ensures
        ({
            let login = app.state.panels.login->0;
            let next = app.login_says(message).state.panels.login;
            &&& next is Some
            &&& !login.finished ==> (next->0).message == message
            &&& login.finished ==> (next->0).message == login.message
            &&& (next->0).key == login.key
            &&& (next->0).qr == login.qr
            &&& (next->0).finished == login.finished
        }),
        app.login_says(message).effects == app.effects,
{
    reveal(AppView::login_says);
}

/// In the list of services to log in to, the keys up and down move the mark by one.
pub proof fn keys_move_in_the_login_list(app: AppView)
    requires
        app.state.panels.context_menu is None,
        !app.state.panels.help.open,
        app.state.panels.quality_picker is None,
        app.state.panels.login_picker is Some,
    ensures
        app.handle_action(Action::MoveDown).state.panels.login_picker == moved(
            app.state.panels.login_picker,
            3,
            1,
        ),
        app.handle_action(Action::MoveUp).state.panels.login_picker == moved(
            app.state.panels.login_picker,
            3,
            -1,
        ),
{
    lemma_login_candidates();
    reveal(AppView::handle_action);
    reveal(AppView::handle_login_choice_key);
    reveal(AppView::choose_login);
}

/// The help opens at its first line, and the line for the name of a playlist is empty.
pub proof fn panels_open_at_their_start(app: AppView)
    ensures
        app.open_help().state.panels.help.open,
        app.open_help().state.panels.help.offset == 0,
        app.open_help().effects == app.effects,
        app.new_cloud_playlist().state.panels.prompt matches Some(prompt)
            && prompt.buffer.chars.len() == 0 && prompt.buffer.cursor == 0,
        app.new_cloud_playlist().effects == app.effects,
{
    reveal(AppView::open_help);
    reveal(AppView::new_cloud_playlist);
}

/// A session whose place in the queue is not known begins with the first song, and one whose
/// place lies behind the end with the last; without songs only the day of the claim comes back.
pub proof fn uncertain_sessions_are_taken_up(
    app: AppView,
    session: Session<Seq<char>, Seq<Song>>,
)
    requires
        session.queue.len() <= usize::MAX,
    ensures
        ({
            let next = app.restore_session(Some(session));
            &&& session.queue.len() > 0 && session.cursor is None ==> next.state.player.current
                == Some(session.queue[0]) && next.state.queue.cursor == Some(0usize)
            &&& session.queue.len() > 0 && (session.cursor matches Some(i) && i
                >= session.queue.len()) ==> next.state.player.current == Some(session.queue.last())
                && next.state.queue.cursor == Some((session.queue.len() - 1) as usize)
            &&& session.queue.len() == 0 ==> next.state.queue == app.state.queue
                && next.state.player == app.state.player
        }),
{
    reveal(AppView::restore_session);
    reveal(AppView::remember_day);
    reveal(AppView::recall_queue);
    reveal(AppView::recall_song);
}

} // verus!
