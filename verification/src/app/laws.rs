//! What holds of the program as a whole.

use vstd::prelude::*;
use crate::app::effect::{Effect, EffectView, Lookup, Purpose};
use crate::app::nav::Focus;
use crate::app::pages::PagesView;
use crate::app::panes::{sorting_twice_restores, Edit, LoadState};
use crate::app::state::AppView;
use crate::audio::engine::PlaybackState;
use crate::config::Config;
use crate::error::AppError;
use crate::event::{
    Action, AudioSnapshot, HitTarget, Loaded, LoadingTarget, MouseInput, MouseKind, PlaylistSource,
    VipClaimOutcome,
};
use crate::model::{LyricLine, Song};
use crate::source::{
    lemma_first_enabled, lemma_in_order_has_all, lemma_order_is_by_priority,
    numbering_sets_the_order, SourceKind,
};

verus! {

/// Whether an effect makes the audio thread load a track.
pub open spec fn loads_track(effect: EffectView) -> bool {
    effect is AudioLoadFile || effect is AudioLoadStream
}

/// Whether an effect writes to the disk what the program would keep.
pub open spec fn saves(effect: EffectView) -> bool {
    effect is SaveConfig || effect is SaveSession
}

// Playing.

/// That a song has come in as a whole is no reason to load it again: it plays on
/// from where it is.
pub proof fn completed_stream_plays_on(app: AppView, song: Song, i: int)
    requires
        app.effects.len() <= i < app.stream_completed(song).effects.len(),
    ensures
        app.stream_completed(song).state.player.position_ms == app.state.player.position_ms,
        app.stream_completed(song).state.player.playback == app.state.player.playback,
        app.stream_completed(song).state.player.current == app.state.player.current,
        !loads_track(app.stream_completed(song).effects[i]),
{
    reveal(AppView::stream_completed);
    reveal(AppView::settle);
    reveal(AppView::set_progress);
    reveal(AppView::after_download_landed);
    reveal(AppView::prefetch_next);
}

/// Answers for a song that is no longer played change nothing: a stream is called
/// off, a file is removed, and the rest is passed over.
pub proof fn late_answers_are_passed_over(
    app: AppView,
    song: Song,
    text: Seq<char>,
    stream: u64,
    start_at_ms: u64,
    is_trial: bool,
    reason: Option<Seq<char>>,
    size: (u32, u32),
)
    requires
        !app.is_current(song),
    ensures
        app.stream_ready(song, text, start_at_ms, is_trial, reason) == app,
        app.stream_completed(song) == app,
        app.stream_cached(song, text, start_at_ms) == app.emit(Effect::RemoveFile(text)),
        app.stream_prerolled(song, stream, start_at_ms) == app.emit(Effect::CancelStream(stream)),
        app.cover_ready(song.hash@, size.0, size.1) == app,
{
    reveal(AppView::stream_ready);
    reveal(AppView::stream_completed);
    reveal(AppView::stream_cached);
    reveal(AppView::stream_prerolled);
    reveal(AppView::cover_ready);
}

/// Lyrics of another song than the one that is shown are passed over, and so is
/// that they could not be had.
pub proof fn late_lyrics_are_passed_over(
    app: AppView,
    hash: Seq<char>,
    lines: Seq<LyricLine>,
    reason: Seq<char>,
)
    requires
        app.state.player.lyric.hash != Some(hash),
    ensures
        app.lyric_loaded(hash, lines) == app,
        app.lyric_failed(hash, reason) == app,
{
    reveal(AppView::lyric_loaded);
    reveal(AppView::lyric_failed);
}

/// Whether `after` plays the same song at the same place as `before`, and asks for
/// everything that `before` asks for.
spec fn goes_on(before: AppView, after: AppView) -> bool {
    &&& after.state.queue == before.state.queue
    &&& after.state.marks == before.state.marks
    &&& after.state.pages == before.state.pages
    &&& after.state.panels == before.state.panels
    &&& after.state.config == before.state.config
    &&& after.state.account == before.state.account
    &&& after.state.player.current == before.state.player.current
    &&& after.state.player.position_ms == before.state.player.position_ms
    &&& after.state.player.current_is_trial == before.state.player.current_is_trial
    &&& after.active_stream == before.active_stream
    &&& after.cache == before.cache
    &&& after.stream_retried == before.stream_retried
    &&& before.effects.len() <= after.effects.len()
    &&& forall|i: int|
        0 <= i < before.effects.len() ==> #[trigger] after.effects[i] == before.effects[i]
}

proof fn lemma_cover_goes_on(app: AppView, song: Song)
    ensures
        goes_on(app, app.load_cover(song)),
{
    reveal(AppView::load_cover);
    reveal(AppView::no_cover);
    reveal(AppView::with_client);
    reveal(AppView::client_ready);
}

proof fn lemma_loading_goes_on(app: AppView, song: Song)
    ensures
        goes_on(app, app.mark_loading().announce(song)),
{
    reveal(AppView::mark_loading);
    reveal(AppView::announce);
}

proof fn lemma_lyric_goes_on(app: AppView, song: Song)
    ensures
        goes_on(app, app.with_client(song.source, Purpose::Lyric { song })),
{
    reveal(AppView::with_client);
    reveal(AppView::client_ready);
}

/// What starting a song leaves as it was, and what it sets.
pub proof fn lemma_start_playback(app: AppView, song: Song, start_at_ms: u64)
    ensures
        ({
            let next = app.start_playback(song, start_at_ms);
            &&& next.state.queue == app.state.queue
            &&& next.state.marks == app.state.marks
            &&& next.state.pages == app.state.pages
            &&& next.state.panels == app.state.panels
            &&& next.state.config == app.state.config
            &&& next.state.account == app.state.account
            &&& next.state.player.current == Some(song)
            &&& next.state.player.position_ms == start_at_ms
            &&& next.state.player.current_is_trial == app.state.player.current_is_trial
            &&& next.active_stream is None
            &&& next.cache == app.cache
            &&& next.effects.last() == (Effect::<Seq<char>, Seq<Song>>::FindCached {
                key: song.key(app.state.config.quality),
                lookup: Lookup::Play { song, start_at_ms },
            })
            &&& next.stream_retried == (if app.stream_retried == Some(song.hash@) {
                app.stream_retried
            } else {
                None
            })
            &&& app.active_stream matches Some(stream) ==> app.effects.len() < next.effects.len()
                && next.effects[app.effects.len() as int] == Effect::<
                Seq<char>,
                Seq<Song>,
            >::CancelStream(stream)
        }),
{
    let staged = app.cancel_stream().take_stage(song, start_at_ms);
    let covered = staged.load_cover(song);
    let told = covered.mark_loading().announce(song);
    let asked = told.with_client(song.source, Purpose::Lyric { song });
    assert(app.start_playback(song, start_at_ms) == asked.request_stream(song, start_at_ms)) by {
        reveal(AppView::start_playback);
    }
    lemma_cover_goes_on(staged, song);
    lemma_loading_goes_on(covered, song);
    lemma_lyric_goes_on(told, song);
    assert(goes_on(staged, asked));
    reveal(AppView::cancel_stream);
    reveal(AppView::take_stage);
    reveal(AppView::request_stream);
}

/// A song that is started stands at the place it is started from, and the stream of
/// the song before is called off.
pub proof fn started_song_is_current(app: AppView, song: Song, start_at_ms: u64)
    ensures
        app.start_playback(song, start_at_ms).is_current(song),
        app.start_playback(song, start_at_ms).state.player.position_ms == start_at_ms,
        app.start_playback(song, start_at_ms).state.queue == app.state.queue,
        app.start_playback(song, start_at_ms).active_stream is None,
{
    lemma_start_playback(app, song, start_at_ms);
}

/// Whoever plays another song calls the running stream off first: at no time do two
/// of them come in.
pub proof fn changing_songs_calls_the_stream_off(
    app: AppView,
    song: Song,
    start_at_ms: u64,
    stream: u64,
)
    requires
        app.active_stream == Some(stream),
    ensures
        app.start_playback(song, start_at_ms).effects.len() > app.effects.len(),
        app.start_playback(song, start_at_ms).effects[app.effects.len() as int]
            == Effect::<Seq<char>, Seq<Song>>::CancelStream(stream),
{
    lemma_start_playback(app, song, start_at_ms);
}

/// What stopping to play does to the stream, and what it asks for.
proof fn lemma_stopping(app: AppView)
    ensures
        app.stop_playback().active_stream is None,
        app.queue_ended().active_stream is None,
        app.queue_ended().effects == app.stop_playback().effects,
        app.active_stream matches Some(stream) ==> app.stop_playback().effects == app.effects.push(
            Effect::CancelStream(stream),
        ).push(Effect::AudioStop),
{
    reveal(AppView::stop_playback);
    reveal(AppView::cancel_stream);
    reveal(AppView::queue_ended);
}

proof fn lemma_next_track_lets_go(app: AppView, by_user: bool)
    requires
        app.active_stream is None,
    ensures
        app.next_track(by_user).active_stream is None,
{
    reveal(AppView::next_track);
    lemma_stopping(app);
    let place = app.state.queue.next_place(by_user, app.clock.random);
    if place is Some {
        let moved = app.with_queue(app.state.queue.at(place));
        let marked = moved.sync_queue_cursor(place->0);
        assert(marked.active_stream is None) by {
            reveal(AppView::sync_queue_cursor);
        }
        reveal(AppView::play_current);
        if marked.state.queue.current_song() is Some {
            lemma_start_playback(marked, marked.state.queue.current_song()->0, 0);
        }
    }
}

/// A stream is let go when its song has ended, has failed, has come in as a whole,
/// or is no longer wanted.
pub proof fn streams_are_let_go(app: AppView, song: Song, message: Seq<char>)
    ensures
        app.track_finished().active_stream is None,
        app.audio_failed(message).active_stream is None,
        app.is_current(song) ==> app.stream_completed(song).active_stream is None,
        app.stop_playback().active_stream is None,
        app.drop_current().active_stream is None,
        app.queue_ended().active_stream is None,
        app.shutdown().active_stream is None,
{
    lemma_stopping(app);
    assert(app.track_finished().active_stream is None) by {
        reveal(AppView::track_finished);
        reveal(AppView::trial_ended);
        lemma_next_track_lets_go(
            (AppView { active_stream: None, ..app }).with_player(
                crate::app::player::Player { position_ms: 0, ..app.state.player },
            ),
            false,
        );
    }
    assert(app.audio_failed(message).active_stream is None) by {
        reveal(AppView::audio_failed);
        reveal(AppView::set_playback);
        reveal(AppView::mark_resume_point);
    }
    assert(app.is_current(song) ==> app.stream_completed(song).active_stream is None) by {
        reveal(AppView::stream_completed);
        reveal(AppView::after_download_landed);
        reveal(AppView::prefetch_next);
    }
    assert(app.drop_current().active_stream is None) by {
        reveal(AppView::drop_current);
    }
    assert(app.shutdown().active_stream is None) by {
        reveal(AppView::shutdown);
        reveal(AppView::cancel_stream);
    }
}

/// Whatever stops playing calls the running stream off: the song that plays is taken
/// out of the queue, the queue is emptied, or it is at its end.
pub proof fn stopping_calls_the_stream_off(app: AppView, stream: u64)
    requires
        app.active_stream == Some(stream),
    ensures
        ({
            let called_off = app.effects.push(Effect::CancelStream(stream)).push(Effect::AudioStop);
            &&& app.stop_playback().effects == called_off
            &&& app.state.queue.items.len() > 0 ==> app.clear_queue().effects == called_off
            &&& app.state.queue.next_place(true, app.clock.random) is None ==> app.next_track(
                true,
            ).effects == called_off
            &&& app.state.screen.focus == Focus::Queue && (app.state.marks.queue matches Some(
                i,
            ) && i < app.state.queue.items.len() && app.is_current(
                app.state.queue.items[i as int],
            )) ==> app.remove_selected_from_queue().effects == called_off
                && app.remove_selected_from_queue().active_stream is None
        }),
{
    lemma_stopping(app);
    assert(app.state.queue.items.len() > 0 ==> app.clear_queue().effects
        == app.stop_playback().effects) by {
        reveal(AppView::clear_queue);
    }
    assert(app.state.queue.next_place(true, app.clock.random) is None ==> app.next_track(
        true,
    ).effects == app.stop_playback().effects) by {
        reveal(AppView::next_track);
    }
    if app.state.screen.focus == Focus::Queue && (app.state.marks.queue matches Some(i) && i
        < app.state.queue.items.len() && app.is_current(app.state.queue.items[i as int])) {
        let index = app.state.marks.queue->0;
        let shorter = app.with_queue(app.state.queue.without(index)).clamp_queue_cursor();
        assert(shorter.effects == app.effects && shorter.active_stream == app.active_stream) by {
            reveal(AppView::clamp_queue_cursor);
            reveal(AppView::sync_queue_cursor);
        }
        lemma_stopping(shorter);
        reveal(AppView::remove_selected_from_queue);
        reveal(AppView::drop_current);
    }
}

/// Who plays a song again whose stream starved a second time hears it from where it
/// broke off.
pub proof fn broken_off_songs_resume_at_their_place(app: AppView, position_ms: u64)
    requires
        position_ms > 0,
        app.state.player.current is Some,
        app.state.queue.current_song() == app.state.player.current,
        app.stream_retried == Some((app.state.player.current->0).hash@),
    ensures
        ({
            let song = app.state.player.current->0;
            let again = app.stream_interrupted(position_ms).toggle_playback();
            &&& again.state.player.current == Some(song)
            &&& again.state.player.position_ms == position_ms
            &&& again.effects.last() == (Effect::<Seq<char>, Seq<Song>>::FindCached {
                key: song.key(app.state.config.quality),
                lookup: Lookup::Play { song, start_at_ms: position_ms },
            })
        }),
{
    let song = app.state.player.current->0;
    let broken = app.stream_interrupted(position_ms);
    assert(broken.state.player.playback == PlaybackState::Stopped
        && broken.state.player.resume_place(song) == position_ms && broken.state.queue
        == app.state.queue && broken.state.config == app.state.config) by {
        reveal(AppView::stream_interrupted);
        reveal(AppView::halt_at);
        reveal(AppView::settle);
        reveal(AppView::set_progress);
        reveal(AppView::pick_up);
        reveal(AppView::mark_resume_point);
    }
    let said = broken.with_player(broken.state.player.unresumed()).say_resumed(position_ms);
    assert(said.state.config == app.state.config) by {
        reveal(AppView::say_resumed);
    }
    lemma_start_playback(said, song, position_ms);
    reveal(AppView::toggle_playback);
}

/// That a stream starved is no end of the song: the queue stays where it is, and
/// so does the place in the song.
pub proof fn interruption_is_no_end(app: AppView, position_ms: u64)
    ensures
        app.stream_interrupted(position_ms).state.queue == app.state.queue,
        app.stream_interrupted(position_ms).state.player.position_ms == position_ms,
        app.stream_interrupted(position_ms).state.player.current == app.state.player.current,
{
    reveal(AppView::stream_interrupted);
    reveal(AppView::halt_at);
    reveal(AppView::settle);
    reveal(AppView::set_progress);
    reveal(AppView::pick_up);
    reveal(AppView::mark_resume_point);
    match app.state.player.current {
        Some(song) => {
            let halted = app.halt_at(position_ms);
            let noted = (AppView { stream_retried: Some(song.hash@), ..halted }).warn(
                "《"@ + song.name@ + "》缓冲中断，正从 "@ + crate::text::clock_text(
                    position_ms as nat,
                ) + " 继续…"@,
            );
            lemma_start_playback(noted, song, position_ms);
        },
        None => {},
    }
}

/// A song is picked up by itself once: when its stream starves again, nothing is
/// started.
pub proof fn songs_are_picked_up_once(app: AppView, first_ms: u64, second_ms: u64)
    requires
        app.state.player.current is Some,
    ensures
        app.stream_interrupted(first_ms).stream_retried == Some(
            (app.state.player.current->0).hash@,
        ),
        app.stream_interrupted(first_ms).stream_interrupted(second_ms).effects
            == app.stream_interrupted(first_ms).effects,
{
    let song = app.state.player.current->0;
    reveal(AppView::stream_interrupted);
    reveal(AppView::halt_at);
    reveal(AppView::settle);
    reveal(AppView::set_progress);
    reveal(AppView::pick_up);
    reveal(AppView::mark_resume_point);
    let halted = app.halt_at(first_ms);
    let noted = (AppView { stream_retried: Some(song.hash@), ..halted }).warn(
        "《"@ + song.name@ + "》缓冲中断，正从 "@ + crate::text::clock_text(first_ms as nat)
            + " 继续…"@,
    );
    lemma_start_playback(noted, song, first_ms);
}

/// Behind an excerpt the queue does not go on by itself.
pub proof fn excerpts_do_not_go_on(app: AppView)
    requires
        app.state.player.current_is_trial,
    ensures
        app.track_finished().state.queue == app.state.queue,
        app.track_finished().state.player.current == app.state.player.current,
        app.track_finished().state.player.playback == PlaybackState::Stopped,
        app.track_finished().effects == app.effects,
{
    reveal(AppView::track_finished);
    reveal(AppView::trial_ended);
}

/// Where playing fails, the place is kept: to play again goes on from there.
pub proof fn failures_keep_the_place(app: AppView, message: Seq<char>)
    requires
        app.state.player.current is Some,
        app.state.player.position_ms > 0,
    ensures
        app.audio_failed(message).state.player.resume_place(app.state.player.current->0)
            == app.state.player.position_ms,
        app.audio_failed(message).active_stream is None,
{
    reveal(AppView::audio_failed);
    reveal(AppView::settle);
    reveal(AppView::set_progress);
    reveal(AppView::set_playback);
    reveal(AppView::mark_resume_point);
}

/// To mute and to mute again gives the volume back.
pub proof fn muting_twice_restores_the_volume(app: AppView)
    requires
        app.state.player.volume_before_mute is None,
    ensures
        app.toggle_mute().toggle_mute().state.player == app.state.player,
{
    reveal(AppView::toggle_mute);
}

/// One never goes beyond the end of a track.
pub proof fn going_to_a_place_stays_in_the_track(app: AppView, position_ms: u64)
    requires
        app.state.player.current is Some,
        app.state.player.duration_ms > 0,
    ensures
        app.seek_to(position_ms).state.player.position_ms < app.state.player.duration_ms,
        app.progress_estimated(position_ms).state.player.position_ms
            < app.state.player.duration_ms,
        position_ms < app.state.player.duration_ms ==> app.seek_to(
            position_ms,
        ).state.player.position_ms == position_ms,
{
    reveal(AppView::seek_to);
    reveal(AppView::show_seek);
    reveal(AppView::progress_estimated);
}

/// While the audio thread has no track, the clock leaves the place alone: that of
/// an earlier session stays until it is played.
pub proof fn idle_clock_keeps_the_place(app: AppView, audio: AudioSnapshot)
    requires
        audio.state != PlaybackState::Playing,
        audio.state != PlaybackState::Paused,
    ensures
        app.tick(audio).state.player.position_ms == app.state.player.position_ms,
        app.tick(audio).state.player.resume == app.state.player.resume,
        app.tick(audio).state.queue == app.state.queue,
{
    reveal(AppView::tick);
    reveal(AppView::count_tick);
    reveal(AppView::save_session_in_time);
    reveal(AppView::follow_audio);
    reveal(AppView::show_audio);
    reveal(AppView::sing);
    reveal(AppView::poll_in_time);
    reveal(AppView::poll_login);
    reveal(AppView::measure_in_time);
    reveal(AppView::refresh_cache_usage);
}

/// Another quality holds from the next song on: the current one plays on.
pub proof fn quality_changes_spare_the_current_song(app: AppView)
    ensures
        app.cycle_quality().state.player == app.state.player,
        app.cycle_quality().state.queue == app.state.queue,
        app.cycle_quality().active_stream == app.active_stream,
{
    reveal(AppView::cycle_quality);
    reveal(AppView::save_config);
}

// The queue.

/// To take another song out of the queue does not disturb the one that plays.
pub proof fn removing_another_song_plays_on(app: AppView)
    requires
        app.state.marks.queue matches Some(i) && i < app.state.queue.items.len()
            && !app.is_current(app.state.queue.items[i as int]),
    ensures
        app.remove_selected_from_queue().state.player == app.state.player,
        app.remove_selected_from_queue().effects == app.effects,
{
    let index = app.state.marks.queue->0;
    let removed = app.state.queue.items[index as int];
    let shorter = app.with_queue(app.state.queue.without(index));
    assert(shorter.clamp_queue_cursor().state.player == app.state.player
        && shorter.clamp_queue_cursor().effects == app.effects) by {
        reveal(AppView::clamp_queue_cursor);
        reveal(AppView::sync_queue_cursor);
    }
    assert(!app.is_current(removed));
    reveal(AppView::remove_selected_from_queue);
}

/// To empty the queue ends playing and calls the running stream off.
pub proof fn emptying_the_queue_ends_playing(app: AppView)
    requires
        app.state.queue.items.len() > 0,
    ensures
        app.clear_queue().state.queue.items.len() == 0,
        app.clear_queue().state.player.current is None,
        app.clear_queue().state.player.playback == PlaybackState::Stopped,
        app.clear_queue().active_stream is None,
        app.clear_queue().effects.last() == Effect::<Seq<char>, Seq<Song>>::AudioStop,
{
    reveal(AppView::clear_queue);
    reveal(AppView::stop_playback);
    reveal(AppView::cancel_stream);
}

/// The right button opens the menu of the song that it hit, whatever was marked
/// before.
pub proof fn right_button_opens_the_menu_of_that_song(app: AppView, mouse: MouseInput, index: usize)
    requires
        mouse.kind == MouseKind::RightDown,
        mouse.zone matches Some(zone) && zone.target == HitTarget::Queue && zone.index == Some(
            index,
        ),
        index < app.state.queue.items.len(),
    ensures
        app.handle_mouse(mouse).state.panels.context_menu is Some,
        (app.handle_mouse(mouse).state.panels.context_menu->0).song
            == app.state.queue.items[index as int],
{
    reveal(AppView::handle_mouse);
    reveal(AppView::right_click_at);
    reveal(AppView::point_at);
    reveal(AppView::focus_hit_target);
    reveal(AppView::with_focus);
    reveal(AppView::open_context_menu);
}

// Lists.

/// To turn the lists round twice leaves them as they were.
pub proof fn sorting_lists_twice_restores_them(app: AppView)
    ensures
        app.toggle_sort_order().toggle_sort_order().state.pages == app.state.pages,
        app.toggle_sort_order().toggle_sort_order().state.screen.sort_descending
            == app.state.screen.sort_descending,
{
    reveal(PagesView::toggle_sort);
    reveal(AppView::toggle_sort_order);
    sorting_twice_restores(app.state.pages.search.results);
    sorting_twice_restores(app.state.pages.playlists.songs);
    sorting_twice_restores(app.state.pages.artists.songs);
    sorting_twice_restores(app.state.pages.ranks.songs);
    sorting_twice_restores(app.state.pages.cloud.songs);
}

/// The results of a search keep the order of the service, whatever order is set,
/// and further results follow the ones that are there.
pub proof fn searches_keep_their_order(app: AppView, keyword: Seq<char>, songs: Seq<Song>)
    ensures
        app.search_found(keyword, songs).state.pages.search.results.songs == songs,
        app.search_appended(keyword, songs).state.pages.search.results.songs
            == app.state.pages.search.results.songs + songs,
{
    reveal(PagesView::set_songs);
    reveal(PagesView::put_songs);
    reveal(PagesView::songs_of);
    reveal(AppView::search_found);
    reveal(AppView::search_appended);
    reveal(AppView::with_focus);
}

impl AppView {
    /// How far the loading of something is.
    pub open spec fn load_of(self, target: LoadingTarget) -> LoadState<Seq<char>> {
        let pages = self.state.pages;
        match target {
            LoadingTarget::SearchResults => pages.search.results.load,
            LoadingTarget::Playlists => pages.playlists.list.load,
            LoadingTarget::Artists => pages.artists.list.load,
            LoadingTarget::Ranks => pages.ranks.list.load,
            LoadingTarget::CloudPlaylists => pages.cloud.list.load,
            LoadingTarget::PlaylistSongs(PlaylistSource::Plaza) => pages.playlists.songs.load,
            LoadingTarget::PlaylistSongs(PlaylistSource::Cloud) => pages.cloud.songs.load,
            LoadingTarget::ArtistSongs => pages.artists.songs.load,
            LoadingTarget::RankSongs => pages.ranks.songs.load,
            LoadingTarget::UserInfo => self.state.account.user_info_load,
        }
    }
}

/// What could not be loaded says so in its own place, and in no other; it does not
/// wait for ever.
pub proof fn failures_reach_their_place(
    app: AppView,
    target: LoadingTarget,
    other: LoadingTarget,
    reason: Seq<char>,
)
    requires
        other != target,
    ensures
        app.mark_load_failed(target, reason).load_of(target) == LoadState::Failed(reason),
        app.mark_load_failed(target, reason).load_of(other) == app.load_of(other),
        app.mark_load_failed(target, reason).state.queue == app.state.queue,
        app.mark_load_failed(target, reason).state.player == app.state.player,
        app.mark_load_failed(target, reason).state.screen == app.state.screen,
        app.mark_load_failed(target, reason).state.config == app.state.config,
        app.mark_load_failed(target, reason).effects == app.effects,
{
    reveal(PagesView::fail_songs);
    reveal(PagesView::fail_entries);
    reveal(PagesView::put_songs);
    reveal(PagesView::songs_of);
    reveal(AppView::mark_load_failed);
}

/// A request that has failed no longer keeps anything waiting.
pub proof fn failed_requests_leave_nothing_waiting(
    app: AppView,
    context: Seq<char>,
    error: AppError,
    target: Option<LoadingTarget>,
)
    ensures
        app.request_failed(context, error, target).state.screen.busy is None,
        app.request_failed(context, error, target).state.player.download_progress is None,
        target is Some ==> app.request_failed(context, error, target).load_of(target->0)
            == LoadState::Failed(error.hint@),
        error.login_expired && target != Some(LoadingTarget::UserInfo)
            ==> !app.request_failed(context, error, target).state.account.logged_in,
{
    reveal(PagesView::fail_songs);
    reveal(PagesView::fail_entries);
    reveal(PagesView::put_songs);
    reveal(PagesView::songs_of);
    reveal(AppView::request_failed);
    reveal(AppView::settle);
    reveal(AppView::set_progress);
    reveal(AppView::login_lost);
    reveal(AppView::mark_load_failed);
}

// Services.

/// Another service leaves the queue and what is playing as they are.
pub proof fn switching_services_plays_on(app: AppView, kind: SourceKind, then_login: bool)
    ensures
        app.switch_source_with(kind, then_login).state.queue == app.state.queue,
        app.switch_source_with(kind, then_login).state.player == app.state.player,
        app.switch_source_with(kind, then_login).active_stream == app.active_stream,
{
    reveal(AppView::switch_source_with);
    reveal(AppView::set_logged_in);
    reveal(AppView::save_config);
}

/// The service in use is always one that is enabled: it cannot be disabled without
/// another taking its place.
pub proof fn service_in_use_stays_enabled(app: AppView)
    requires
        app.state.config.sources.of(app.source()).enabled,
    ensures
        ({
            let next = app.toggle_source_enabled();
            next.state.config.sources.of(next.source()).enabled
        }),
{
    reveal(Config::switched);
    reveal(Config::synced);
    reveal(AppView::toggle_source_enabled);
    if app.selected_source() is Some {
        let kind = app.selected_source()->0;
        reveal(AppView::toggle_enabled);
        reveal(AppView::save_config);
        let config = crate::app::conf::enabled_as(
            app.state.config,
            kind,
            !app.state.config.sources.of(kind).enabled,
        );
        lemma_first_enabled(config.sources, kind);
    }
}

/// To move a service up or down changes its place with its neighbour's, and nothing
/// else of the order.
pub proof fn shifting_swaps_two_services(app: AppView, raise: bool, from: usize)
    requires
        app.state.marks.sources == Some(from),
        from < 3,
        if raise {
            from > 0
        } else {
            from < 2
        },
    ensures
        ({
            let kinds = app.state.config.sources.in_order();
            let to = if raise {
                from - 1
            } else {
                from + 1
            };
            app.shift_source_priority(raise).state.config.sources.in_order() == kinds.update(
                from as int,
                kinds[to],
            ).update(to, kinds[from as int])
        }),
{
    reveal(Config::synced);
    reveal(AppView::shift_source_priority);
    reveal(AppView::save_config);
    let kinds = app.state.config.sources.in_order();
    let to = if raise {
        from - 1
    } else {
        from + 1
    };
    lemma_in_order_has_all(app.state.config.sources);
    let swapped = kinds.update(from as int, kinds[to]).update(to, kinds[from as int]);
    assert(swapped.no_duplicates());
    numbering_sets_the_order(app.state.config.sources, swapped);
    let numbered = app.state.config.sources.renumbered(swapped);
    let next = app.shift_source_priority(raise).state.config.sources;
    assert(next.kugou.priority == numbered.kugou.priority);
    assert(next.concept.priority == numbered.concept.priority);
    assert(next.netease.priority == numbered.netease.priority);
    lemma_order_is_by_priority(next, numbered);
}

/// What this machine finds out by itself says nothing about the service, and
/// neither does a download that failed.
pub proof fn local_events_leave_the_connection_alone(app: AppView, loaded: Loaded)
    requires
        !loaded.from_service(),
        !(loaded matches Loaded::Failed { target: Some(_), .. }),
    ensures
        app.note_connection(loaded) == app,
{
    reveal(AppView::note_connection);
}

/// That the service answers is said once: as long as nothing changes, an answer
/// leaves the status line alone.
pub proof fn connection_is_told_once(app: AppView, first: Loaded, second: Loaded)
    requires
        first.from_service(),
        second.from_service(),
    ensures
        app.note_connection(first).note_connection(second) == app.note_connection(first),
{
    reveal(AppView::note_connection);
}

/// A claim that failed can be tried again on the same day.
pub proof fn failed_claims_can_be_tried_again(
    app: AppView,
    day: Seq<char>,
    message: String,
    manual: bool,
)
    ensures
        ({
            let next = app.vip_claimed(day, VipClaimOutcome::Failed(message), manual);
            &&& next.state.account.vip_claimed_day == app.state.account.vip_claimed_day
            &&& !next.state.account.vip_claiming
        }),
{
    reveal(AppView::vip_claimed);
}

/// What was claimed today is not claimed again by itself.
pub proof fn claimed_days_are_not_claimed_again(app: AppView)
    requires
        app.clock.today is Some,
        app.state.account.vip_claimed_day == app.clock.today,
    ensures
        app.maybe_claim_daily_vip() == app,
{
    reveal(AppView::maybe_claim_daily_vip);
}

/// To log in anew forgets the login, but not the fingerprint of the device.
pub proof fn logging_in_anew_keeps_the_fingerprint(app: AppView)
    ensures
        app.relogin().state.config.dfid == app.state.config.dfid,
        app.relogin().state.config.cookie is None,
        !app.relogin().state.account.logged_in,
{
    reveal(AppView::relogin);
    reveal(AppView::begin_login);
}

// Saving resources.

/// The simple mode asks for no picture.
pub proof fn simple_mode_asks_for_no_picture(app: AppView, song: Song, url: Seq<char>)
    requires
        app.state.config.lite_mode,
    ensures
        app.load_cover(song).effects == app.effects,
        app.load_avatar(url) == app,
{
    reveal(AppView::load_cover);
    reveal(AppView::no_cover);
    reveal(AppView::load_avatar);
}

// Keys.

/// Whether a key is a command for what lies behind the panels: it neither moves in a
/// panel, nor answers or closes it, nor writes in it, nor ends the program.
pub open spec fn commands(action: Action) -> bool {
    match action {
        Action::MoveUp | Action::MoveDown | Action::MoveTop | Action::MoveBottom => false,
        Action::PageUp | Action::PageDown => false,
        Action::Submit | Action::Cancel | Action::Help | Action::PlayPause => false,
        Action::Char(_) | Action::Backspace | Action::Delete => false,
        Action::CursorLeft | Action::CursorRight | Action::CursorHome | Action::CursorEnd => false,
        Action::Quit | Action::ForceQuit => false,
        _ => true,
    }
}

impl AppView {
    /// Whether a panel is open.
    pub open spec fn has_panel(self) -> bool {
        let panels = self.state.panels;
        panels.context_menu is Some || panels.help.open || panels.quality_picker is Some
            || panels.login_picker is Some || panels.pending_confirm is Some || panels.prompt
            is Some || panels.login is Some
    }
}

/// While a panel is open, commands for what lies behind it are lost.
pub proof fn open_panels_keep_commands_back(app: AppView, action: Action)
    requires
        app.has_panel(),
        commands(action),
    ensures
        app.handle_action(action) == app,
{
    reveal(AppView::handle_action);
    reveal(AppView::handle_menu_key);
    reveal(AppView::handle_help_key);
    reveal(AppView::handle_quality_key);
    reveal(AppView::handle_login_choice_key);
    reveal(AppView::handle_dialog_key);
    reveal(AppView::handle_confirm_key);
    reveal(AppView::handle_prompt_key);
    reveal(AppView::handle_login_key);
    reveal(AppView::quit_key);
}

/// The help panel keeps all keys: nothing behind it moves.
pub proof fn help_keeps_all_keys(app: AppView, action: Action)
    requires
        app.state.panels.help.open,
        app.state.panels.context_menu is None,
    ensures
        app.handle_action(action).state.pages == app.state.pages,
        app.handle_action(action).state.queue == app.state.queue,
        app.handle_action(action).state.marks == app.state.marks,
        app.handle_action(action).state.player == app.state.player,
        app.handle_action(action).state.config == app.state.config,
        app.handle_action(action).state.screen.tab == app.state.screen.tab,
        app.handle_action(action).state.screen.focus == app.state.screen.focus,
        app.handle_action(action).effects == app.effects,
{
    reveal(AppView::handle_action);
    reveal(AppView::handle_help_key);
    reveal(AppView::quit_key);
    reveal(AppView::quit);
}

/// While a question is open, a key that does not answer it is lost, on whatever page.
pub proof fn open_questions_keep_other_keys(app: AppView, action: Action)
    requires
        app.state.panels.pending_confirm is Some,
        app.state.panels.context_menu is None,
        !app.state.panels.help.open,
        app.state.panels.quality_picker is None,
        app.state.panels.login_picker is None,
        action != Action::Submit,
        action != Action::Cancel,
        action != Action::Char('n'),
        action != Action::Char('N'),
    ensures
        app.handle_action(action) == app,
{
    reveal(AppView::handle_action);
    reveal(AppView::handle_dialog_key);
    reveal(AppView::handle_confirm_key);
}

/// What cannot be undone is done only after a question: the keys for it change
/// nothing but that the question is open.
pub proof fn destruction_is_asked_for_first(app: AppView, action: Action)
    requires
        action == Action::ClearQueue || action == Action::ClearCache || action
            == Action::DeleteCloudPlaylist,
    ensures
        app.handle_normal_action(action).state.queue == app.state.queue,
        app.handle_normal_action(action).state.pages == app.state.pages,
        app.handle_normal_action(action).effects == app.effects,
{
    reveal(AppView::handle_normal_action);
    reveal(AppView::ask);
    reveal(AppView::ask_to_delete_playlist);
}

/// While the search line is written, a letter is a letter, whatever it stands for
/// elsewhere.
pub proof fn letters_are_written(app: AppView, c: char)
    requires
        app.state.pages.search.editing,
        app.state.panels.context_menu is None,
        !app.state.panels.help.open,
        app.state.panels.quality_picker is None,
        app.state.panels.login_picker is None,
        app.state.panels.pending_confirm is None,
        app.state.panels.prompt is None,
        app.state.panels.login is None,
    ensures
        app.handle_action(Action::Char(c)) == app.with_pages(
            app.state.pages.edit(Edit::Insert(c)),
        ),
{
    reveal(AppView::handle_action);
    reveal(AppView::handle_dialog_key);
    reveal(AppView::handle_page_key);
    reveal(AppView::handle_editing_action);
}

// The end.

/// Who forces the end leaves nothing saved.
pub proof fn forced_end_saves_nothing(app: AppView, i: int)
    requires
        app.state.screen.force_quit,
        app.effects.len() <= i < app.shutdown().effects.len(),
    ensures
        !saves(app.shutdown().effects[i]),
{
    reveal(AppView::shutdown);
    reveal(AppView::cancel_stream);
}

/// At the end the running stream is called off before the audio thread is told to
/// end, so that it does not wait for bytes.
pub proof fn streams_end_before_the_audio_thread(app: AppView, stream: u64)
    requires
        app.active_stream == Some(stream),
    ensures
        ({
            let effects = app.shutdown().effects;
            &&& effects.last() == Effect::<Seq<char>, Seq<Song>>::AudioShutdown
            &&& effects[effects.len() - 2] == Effect::<Seq<char>, Seq<Song>>::CancelStream(stream)
        }),
        app.shutdown().active_stream is None,
{
    reveal(AppView::shutdown);
    reveal(AppView::persist_config);
    reveal(AppView::persist_session);
    reveal(AppView::save_config);
    reveal(AppView::cancel_stream);
}

} // verus!
