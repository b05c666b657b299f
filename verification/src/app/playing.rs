//! What playing means: which song is heard, from where and from which place on.

use vstd::prelude::*;
use crate::app::actions::value_step;
use crate::app::effect::{Effect, Lookup, Purpose};
use crate::app::laws::lemma_start_playback;
use crate::app::nav::{Focus, Tab};
use crate::app::panes::LoadState;
use crate::app::player::Player;
use crate::app::queue::{queue_stays_well_formed, PlayQueue, PlaybackMode};
use crate::app::state::AppView;
use crate::audio::download::url_extension;
use crate::audio::engine::PlaybackState;
use crate::event::{Action, AudioSnapshot};
use crate::model::{sung_line_has_begun, LyricLine, Song};
use crate::source::SourceKind;

verus! {

// Where a song comes from.

/// Whether all that `next` asks for beyond `app` is one request for a purpose at a
/// service: a client for that service, built with its profile.
pub open spec fn asks_for_client(
    app: AppView,
    next: AppView,
    kind: SourceKind,
    purpose: Purpose<Seq<char>>,
) -> bool {
    &&& next.state == app.state
    &&& next.effects.len() == app.effects.len() + 1
    &&& next.effects.take(app.effects.len() as int) == app.effects
    &&& next.effects.last() is Connect
    &&& next.effects.last()->Connect_kind == kind
    &&& next.effects.last()->Connect_api_base == app.state.config.sources.of(kind).api_base
    &&& next.effects.last()->Connect_purpose == purpose
}

/// A song that is to be heard and is not in the cache is asked for at its service: the
/// link to it in the quality that is set, from the same place on. Where another service
/// is in use, a client for its service is asked for first, to the same end.
pub proof fn missing_songs_are_asked_for(app: AppView, song: Song, start_at_ms: u64)
    ensures
        ({
            let next = app.cache_found(Lookup::Play { song, start_at_ms }, None);
            &&& song.source == app.state.config.sources.active ==> next == app.emit(
                Effect::SongUrl { song, quality: app.state.config.quality, start_at_ms },
            )
            &&& song.source != app.state.config.sources.active ==> asks_for_client(
                app,
                next,
                song.source,
                Purpose::Stream { song, start_at_ms },
            )
        }),
{
    reveal(AppView::cache_found);
    reveal(AppView::with_client);
    reveal(AppView::client_ready);
    let next = app.cache_found(Lookup::Play { song, start_at_ms }, None);
    assert(next.effects.take(app.effects.len() as int) =~= app.effects);
}

/// A song that is in the cache is heard from there, from the place that was asked for,
/// and no service is asked.
pub proof fn cached_songs_are_heard(
    app: AppView,
    song: Song,
    start_at_ms: u64,
    path: Seq<char>,
)
    ensures
        app.cache_found(Lookup::Play { song, start_at_ms }, Some(path)) == app.emit(
            Effect::AudioLoadFile { path, start_at_ms, duration_ms: song.duration_ms },
        ),
{
    reveal(AppView::cache_found);
}

/// A song that is fetched ahead is fetched where it is missing, in the quality that is
/// set, and left alone where it is there. In neither case is it heard.
pub proof fn songs_ahead_are_only_fetched(app: AppView, song: Song, path: Seq<char>)
    ensures
        app.cache_found(Lookup::Prefetch { song }, Some(path)) == app,
        ({
            let next = app.cache_found(Lookup::Prefetch { song }, None);
            &&& song.source == app.state.config.sources.active ==> next == app.emit(
                Effect::PrefetchSong { song, quality: app.state.config.quality },
            )
            &&& song.source != app.state.config.sources.active ==> asks_for_client(
                app,
                next,
                song.source,
                Purpose::Prefetch { song },
            )
        }),
{
    reveal(AppView::cache_found);
    reveal(AppView::with_client);
    reveal(AppView::client_ready);
    let next = app.cache_found(Lookup::Prefetch { song }, None);
    assert(next.effects.take(app.effects.len() as int) =~= app.effects);
}

/// A client that is there is used for what it was asked for: the link to a song, its
/// lyrics, its cover, a song ahead, a download in the chosen quality, or the membership
/// of a day.
pub proof fn clients_serve_their_purpose(
    app: AppView,
    song: Song,
    start_at_ms: u64,
    quality: Seq<char>,
    day: Seq<char>,
    manual: bool,
)
    ensures
        app.client_ready(Purpose::Stream { song, start_at_ms }) == app.emit(
            Effect::SongUrl { song, quality: app.state.config.quality, start_at_ms },
        ),
        app.client_ready(Purpose::Cover { song }) == app.emit(Effect::FetchCover { song }),
        app.client_ready(Purpose::Prefetch { song }) == app.emit(
            Effect::PrefetchSong { song, quality: app.state.config.quality },
        ),
        app.client_ready(Purpose::Download { song, quality }) == app.emit(
            Effect::DownloadSong { song, quality, dir: app.state.config.download_dir },
        ),
        app.client_ready(Purpose::Lyric { song }).effects == app.effects.push(
            Effect::FetchLyric { song },
        ),
        app.client_ready(Purpose::Lyric { song }).state.player.lyric.load is Loading,
        app.client_ready(Purpose::Lyric { song }).state.player.current == app.state.player.current,
        app.client_ready(Purpose::Vip { day, manual }).effects == app.effects.push(
            Effect::SyncVip { day, manual },
        ),
        app.client_ready(Purpose::Vip { day, manual }).state.account.vip_claiming,
{
    reveal(AppView::client_ready);
}

/// The service in use is asked at once. For any other a client is asked for, with the
/// address in its profile and to the same end, and the rest stays as it is.
pub proof fn services_are_asked_through_their_own_client(
    app: AppView,
    kind: SourceKind,
    purpose: Purpose<Seq<char>>,
)
    ensures
        kind == app.state.config.sources.active ==> app.with_client(kind, purpose)
            == app.client_ready(purpose),
        kind != app.state.config.sources.active ==> asks_for_client(
            app,
            app.with_client(kind, purpose),
            kind,
            purpose,
        ),
{
    reveal(AppView::with_client);
    assert(app.with_client(kind, purpose).effects.take(app.effects.len() as int) =~= app.effects
        || kind == app.state.config.sources.active);
}

/// The link to the song that is playing starts its download, from that link, for that
/// song and from the place that was asked for. An excerpt is told from the whole song and
/// goes to another file.
pub proof fn links_start_the_download(
    app: AppView,
    song: Song,
    url: Seq<char>,
    start_at_ms: u64,
    is_trial: bool,
    reason: Option<Seq<char>>,
)
    requires
        app.is_current(song),
    ensures
        ({
            let next = app.stream_ready(song, url, start_at_ms, is_trial, reason);
            &&& next.effects.len() == app.effects.len() + 1
            &&& next.effects.last() is StartDownload
            &&& next.effects.last()->StartDownload_song == song
            &&& next.effects.last()->StartDownload_url == url
            &&& next.effects.last()->StartDownload_start_at_ms == start_at_ms
            &&& next.effects.last()->StartDownload_target == app.cache.path(
                if is_trial {
                    song.trial_key(app.state.config.quality)
                } else {
                    song.key(app.state.config.quality)
                },
                url_extension(url),
            )
            &&& next.state.player.current_is_trial == is_trial
            &&& next.state.player.current == app.state.player.current
            &&& next.state.player.download_progress == Some((0u64, None::<u64>))
            &&& next.state.queue == app.state.queue
        }),
{
    reveal(AppView::stream_ready);
    reveal(AppView::note_trial);
    reveal(AppView::start_download);
    reveal(AppView::set_progress);
}

/// As soon as enough of the stream of the playing song is there, it is heard from the
/// place that was asked for, and it is the stream that is called off later.
pub proof fn streams_are_heard_once_they_flow(
    app: AppView,
    song: Song,
    stream: u64,
    start_at_ms: u64,
)
    requires
        app.is_current(song),
    ensures
        ({
            let next = app.stream_prerolled(song, stream, start_at_ms);
            &&& next.effects == app.effects.push(
                Effect::AudioLoadStream { stream, start_at_ms, duration_ms: song.duration_ms },
            )
            &&& next.active_stream == Some(stream)
            &&& next.state.player.current == app.state.player.current
            &&& next.state.player.download_progress is None
            &&& next.state.screen.busy is None
            &&& next.state.queue == app.state.queue
        }),
{
    reveal(AppView::stream_prerolled);
    reveal(AppView::settle);
    reveal(AppView::set_progress);
}

/// A file of the playing song that has come in is heard from the place that was asked
/// for; then the song behind it is looked for, and the cache is kept within its limit.
pub proof fn downloaded_files_are_heard(
    app: AppView,
    song: Song,
    path: Seq<char>,
    start_at_ms: u64,
)
    requires
        app.is_current(song),
    ensures
        ({
            let next = app.stream_cached(song, path, start_at_ms);
            &&& next.effects.len() >= app.effects.len() + 2
            &&& next.effects[app.effects.len() as int] == (Effect::<
                Seq<char>,
                Seq<Song>,
            >::AudioLoadFile { path, start_at_ms, duration_ms: song.duration_ms })
            &&& next.effects.last() == Effect::<Seq<char>, Seq<Song>>::EvictCache
            &&& next.state.player.current == app.state.player.current
            &&& next.state.player.download_progress is None
            &&& next.state.queue == app.state.queue
        }),
{
    reveal(AppView::stream_cached);
    reveal(AppView::settle);
    reveal(AppView::set_progress);
    reveal(AppView::after_download_landed);
    reveal(AppView::prefetch_next);
}

/// What is fetched ahead is the song behind the marked one, under the key of the quality
/// that is set; behind the last one nothing is.
pub proof fn the_following_song_is_fetched_ahead(app: AppView)
    requires
        app.state.marks.queue is Some,
    ensures
        ({
            let i = app.state.marks.queue->0 as int;
            let items = app.state.queue.items;
            &&& i + 1 < items.len() ==> app.prefetch_next() == app.emit(
                Effect::FindCached {
                    key: items[i + 1].key(app.state.config.quality),
                    lookup: Lookup::Prefetch { song: items[i + 1] },
                },
            )
            &&& i + 1 >= items.len() ==> app.prefetch_next() == app
        }),
{
    reveal(AppView::prefetch_next);
}

/// Without a mark the queue counts as marked at its first song.
pub proof fn unmarked_queues_count_from_their_first_song(app: AppView)
    requires
        app.state.marks.queue is None,
    ensures
        ({
            let items = app.state.queue.items;
            &&& items.len() > 1 ==> app.prefetch_next() == app.emit(
                Effect::FindCached {
                    key: items[1].key(app.state.config.quality),
                    lookup: Lookup::Prefetch { song: items[1] },
                },
            )
            &&& items.len() <= 1 ==> app.prefetch_next() == app
        }),
{
    reveal(AppView::prefetch_next);
}

// Starting.

/// A song that is started shows its own length, waits for its own lyrics, and is shown
/// as being fetched.
#[verifier::rlimit(30)]
pub proof fn started_songs_are_shown(app: AppView, song: Song, start_at_ms: u64)
    ensures
        ({
            let next = app.start_playback(song, start_at_ms);
            &&& next.state.player.duration_ms == song.duration_ms
            &&& next.state.player.playback == PlaybackState::Loading
            &&& next.state.player.download_progress is None
            &&& next.state.player.lyric.hash == Some(song.hash@)
            &&& next.state.player.lyric.lines.len() == 0
            &&& next.state.player.lyric.active_line is None
            &&& next.state.player.volume == app.state.player.volume
            &&& next.state.player.cover.hash matches Some(hash) ==> hash == song.hash@
        }),
{
    let staged = app.cancel_stream().take_stage(song, start_at_ms);
    let covered = staged.load_cover(song);
    let told = covered.mark_loading().announce(song);
    let asked = told.with_client(song.source, Purpose::Lyric { song });
    assert(app.start_playback(song, start_at_ms) == asked.request_stream(song, start_at_ms)) by {
        reveal(AppView::start_playback);
    }
    assert(app.cancel_stream().state == app.state) by {
        reveal(AppView::cancel_stream);
    }
    assert(staged.state.player == app.state.player.staged(song, start_at_ms)) by {
        reveal(AppView::take_stage);
    }
    assert(covered.state.player == staged.state.player || covered.state.player
        == staged.state.player.bare()) by {
        reveal(AppView::load_cover);
        reveal(AppView::no_cover);
        reveal(AppView::with_client);
        reveal(AppView::client_ready);
    }
    assert(told.state.player == (Player {
        playback: PlaybackState::Loading,
        ..covered.state.player
    })) by {
        reveal(AppView::mark_loading);
        reveal(AppView::announce);
    }
    assert(asked.state.player == told.state.player || asked.state.player
        == told.state.player.loading_lyric()) by {
        reveal(AppView::with_client);
        reveal(AppView::client_ready);
    }
    reveal(AppView::request_stream);
}

/// Who starts a song asks for its lyrics and then for the song itself: nothing comes
/// between.
#[verifier::rlimit(30)]
pub proof fn started_songs_get_their_lyrics(app: AppView, song: Song, start_at_ms: u64)
    ensures
        ({
            let next = app.start_playback(song, start_at_ms);
            let before = next.effects[next.effects.len() - 2];
            &&& next.effects.len() >= app.effects.len() + 2
            &&& song.source == app.state.config.sources.active ==> before == (Effect::<
                Seq<char>,
                Seq<Song>,
            >::FetchLyric { song })
            &&& song.source != app.state.config.sources.active ==> before is Connect
                && before->Connect_kind == song.source && before->Connect_purpose == (
            Purpose::Lyric::<Seq<char>> { song })
        }),
{
    let staged = app.cancel_stream().take_stage(song, start_at_ms);
    let told = staged.load_cover(song).mark_loading().announce(song);
    let asked = told.with_client(song.source, Purpose::Lyric { song });
    lemma_start_playback(app, song, start_at_ms);
    assert(app.start_playback(song, start_at_ms) == asked.request_stream(song, start_at_ms)) by {
        reveal(AppView::start_playback);
    }
    assert(told.state.config == app.state.config && told.effects.len() >= app.effects.len()) by {
        reveal(AppView::cancel_stream);
        reveal(AppView::take_stage);
        reveal(AppView::load_cover);
        reveal(AppView::no_cover);
        reveal(AppView::with_client);
        reveal(AppView::client_ready);
        reveal(AppView::mark_loading);
        reveal(AppView::announce);
    }
    assert(asked.effects.len() == told.effects.len() + 1 && (song.source
        == app.state.config.sources.active ==> asked.effects.last() == (Effect::<
        Seq<char>,
        Seq<Song>,
    >::FetchLyric { song })) && (song.source != app.state.config.sources.active
        ==> asked.effects.last() is Connect && asked.effects.last()->Connect_kind == song.source
        && asked.effects.last()->Connect_purpose == (Purpose::Lyric::<Seq<char>> { song }))) by {
        reveal(AppView::with_client);
        reveal(AppView::client_ready);
    }
    reveal(AppView::request_stream);
}

/// The cover of a song is asked for unless the simple mode does without, it is there, or
/// the song has no identity.
pub proof fn covers_are_asked_for(app: AppView, song: Song)
    requires
        song.source == app.state.config.sources.active,
    ensures
        ({
            let cover = app.state.player.cover;
            let next = app.load_cover(song);
            &&& !app.state.config.lite_mode && song.hash@.len() > 0 && cover.hash != Some(
                song.hash@,
            ) ==> next == app.emit(Effect::FetchCover { song })
            &&& cover.hash == Some(song.hash@) && cover.aspect is Some
                && !app.state.config.lite_mode ==> next == app
            &&& app.state.config.lite_mode ==> next.effects == app.effects && (cover.hash
                == Some(song.hash@) && song.hash@.len() > 0 ==> next.state.player.cover.hash
                is None)
        }),
{
    reveal(AppView::load_cover);
    reveal(AppView::no_cover);
    reveal(AppView::with_client);
    reveal(AppView::client_ready);
}

/// Whether playing has gone to the song at `index` of `songs`: it is the current one,
/// from its start on, the queue is that list and stands there, and the song is looked for
/// so that it can be heard.
pub open spec fn plays_at(app: AppView, songs: Seq<Song>, index: int) -> bool {
    &&& app.state.queue.items == songs
    &&& app.state.queue.cursor == Some(index as usize)
    &&& app.state.player.current == Some(songs[index])
    &&& app.state.player.position_ms == 0
    &&& app.effects.last() == (Effect::<Seq<char>, Seq<Song>>::FindCached {
        key: songs[index].key(app.state.config.quality),
        lookup: Lookup::Play { song: songs[index], start_at_ms: 0 },
    })
}

/// Playing a list from a place on plays the song at that place, and the rest of the list
/// stands in the queue around it. An empty list plays nothing.
pub proof fn lists_are_played_from_the_chosen_place(
    app: AppView,
    songs: Seq<Song>,
    index: usize,
)
    ensures
        index < songs.len() ==> plays_at(app.play_from(songs, index), songs, index as int)
            && app.play_from(songs, index).state.marks.queue == Some(index)
            && app.play_from(songs, index).state.queue.mode == app.state.queue.mode,
        songs.len() == 0 ==> app.play_from(songs, index).effects == app.effects
            && app.play_from(songs, index).state.player == app.state.player,
{
    reveal(AppView::play_from);
    reveal(AppView::sync_queue_cursor);
    if index < songs.len() {
        let queued = app.with_queue(app.state.queue.replaced(songs, index));
        lemma_start_playback(queued.sync_queue_cursor(index), songs[index as int], 0);
    }
}

/// Whoever plays from the list of a page hears the song that is chosen there, and the
/// list is the queue; without a chosen song nothing changes but what is said.
pub proof fn the_chosen_song_is_heard(app: AppView)
    ensures
        match app.state.pages.songs_of(app.state.screen.tab) {
            Some(list) => match list.cursor {
                Some(i) => i < list.songs.len() ==> plays_at(
                    app.play_from_focused_songs(),
                    list.songs,
                    i as int,
                ),
                None => app.play_from_focused_songs().effects == app.effects,
            },
            None => app.play_from_focused_songs().effects == app.effects
                && app.play_from_focused_songs().state.player == app.state.player,
        },
{
    reveal(AppView::play_from_focused_songs);
    match app.state.pages.songs_of(app.state.screen.tab) {
        Some(list) => match list.cursor {
            Some(i) => {
                lists_are_played_from_the_chosen_place(app, list.songs, i);
            },
            None => {},
        },
        None => {},
    }
}

/// Whoever plays from the queue hears the marked song, and the queue stays what it is.
pub proof fn the_marked_song_is_heard(app: AppView)
    ensures
        app.state.marks.queue matches Some(i) && i < app.state.queue.items.len() ==> plays_at(
            app.play_from_queue(),
            app.state.queue.items,
            app.state.marks.queue->0 as int,
        ),
        !(app.state.marks.queue matches Some(i) && i < app.state.queue.items.len())
            ==> app.play_from_queue().effects == app.effects && app.play_from_queue().state.player
            == app.state.player,
{
    reveal(AppView::play_from_queue);
    match app.state.marks.queue {
        Some(i) => {
            if i < app.state.queue.items.len() {
                lemma_start_playback(
                    app.with_queue(app.state.queue.jumped(i)),
                    app.state.queue.items[i as int],
                    0,
                );
            }
        },
        None => {},
    }
}

/// Playing and pausing are told to the audio thread; while a song is fetched nothing
/// happens. Where nothing plays, the song of the queue is started where it was left.
pub proof fn play_and_pause(app: AppView)
    ensures
        app.state.player.playback == PlaybackState::Playing || app.state.player.playback
            == PlaybackState::Paused ==> app.toggle_playback() == app.emit(Effect::AudioToggle),
        app.state.player.playback == PlaybackState::Loading ==> app.toggle_playback() == app,
        app.state.player.playback == PlaybackState::Stopped && app.state.queue.current_song()
            is Some ==> {
            let song = app.state.queue.current_song()->0;
            let place = match app.state.player.resume {
                Some((hash, ms)) => if hash == song.hash@ {
                    ms
                } else {
                    0
                },
                None => 0,
            };
            let next = app.toggle_playback();
            &&& next.state.player.current == Some(song)
            &&& next.state.player.position_ms == place
            &&& next.state.queue == app.state.queue
            &&& next.effects.last() == (Effect::<Seq<char>, Seq<Song>>::FindCached {
                key: song.key(app.state.config.quality),
                lookup: Lookup::Play { song, start_at_ms: place },
            })
        },
        app.state.player.playback == PlaybackState::Stopped && app.state.queue.current_song()
            is None ==> app.toggle_playback() == app.play_from_focused_songs(),
{
    reveal(AppView::toggle_playback);
    reveal(AppView::say_resumed);
    if app.state.player.playback == PlaybackState::Stopped && app.state.queue.current_song()
        is Some {
        let song = app.state.queue.current_song()->0;
        let place = app.state.player.resume_place(song);
        lemma_start_playback(
            app.with_player(app.state.player.unresumed()).say_resumed(place),
            song,
            place,
        );
    }
}

/// The place at which a song is left is kept for it, and for no other.
pub proof fn places_are_kept_for_their_song(app: AppView, other: Song)
    requires
        app.state.player.current is Some,
        app.state.player.position_ms > 0,
    ensures
        ({
            let song = app.state.player.current->0;
            let player = app.mark_resume_point().state.player;
            &&& player.resume_place(song) == app.state.player.position_ms
            &&& other.hash@ != song.hash@ ==> player.resume_place(other) == 0
            &&& player.current == app.state.player.current
        }),
{
    reveal(AppView::mark_resume_point);
}

// Going on and back.

/// Going on plays the song that the queue goes on to, from its start. At the end of the
/// queue playing stops.
pub proof fn going_on_plays_the_next_song(app: AppView, by_user: bool)
    requires
        app.state.queue.items.len() <= usize::MAX,
    ensures
        match app.state.queue.next_place(by_user, app.clock.random) {
            Some(i) => i < app.state.queue.items.len() ==> plays_at(
                app.next_track(by_user),
                app.state.queue.items,
                i as int,
            ) && app.next_track(by_user).state.marks.queue == Some(i),
            None => {
                let next = app.next_track(by_user);
                &&& next.state.player.playback == PlaybackState::Stopped
                &&& next.state.player.position_ms == 0
                &&& next.state.queue == app.state.queue
                &&& next.effects.last() == Effect::<Seq<char>, Seq<Song>>::AudioStop
            },
        },
{
    reveal(AppView::next_track);
    let place = app.state.queue.next_place(by_user, app.clock.random);
    match place {
        Some(i) => {
            if i < app.state.queue.items.len() {
                lemma_play_current(app, i);
            }
        },
        None => {
            reveal(AppView::queue_ended);
            reveal(AppView::stop_playback);
            reveal(AppView::cancel_stream);
        },
    }
}

proof fn lemma_play_current(app: AppView, i: usize)
    requires
        i < app.state.queue.items.len(),
    ensures
        plays_at(
            app.with_queue(app.state.queue.at(Some(i))).play_current(i),
            app.state.queue.items,
            i as int,
        ),
        app.with_queue(app.state.queue.at(Some(i))).play_current(i).state.marks.queue == Some(i),
{
    reveal(AppView::play_current);
    reveal(AppView::sync_queue_cursor);
    let marked = app.with_queue(app.state.queue.at(Some(i))).sync_queue_cursor(i);
    lemma_start_playback(marked, app.state.queue.items[i as int], 0);
}

/// A song that has ended by itself is followed as the mode says: it is played again where
/// one song is repeated, followed by the one behind it where there is one and the queue
/// is not shuffled, and by the first where the list is repeated.
pub proof fn ended_songs_are_followed_by_the_mode(app: AppView, i: int)
    requires
        !app.state.player.current_is_trial,
        app.state.queue.cursor == Some(i as usize),
        0 <= i < app.state.queue.items.len() <= usize::MAX,
    ensures
        is_followed(app, app.state.queue.mode),
{
    reveal(AppView::track_finished);
    let ended = (AppView { active_stream: None, ..app }).with_player(
        Player { position_ms: 0, ..app.state.player },
    );
    going_on_plays_the_next_song(ended, false);
    queue_stays_well_formed(
        app.state.queue,
        app.state.queue.items,
        app.state.queue.items[i],
        0,
        false,
        app.clock.random,
    );
    reveal(PlayQueue::next_place);
}

/// What is heard after a song of the queue ended by itself, in a mode.
pub open spec fn is_followed(app: AppView, mode: PlaybackMode) -> bool {
    let items = app.state.queue.items;
    let i = app.state.queue.cursor->0 as int;
    let next = app.track_finished();
    match mode {
        PlaybackMode::RepeatOne => plays_at(next, items, i),
        PlaybackMode::RepeatAll => plays_at(
            next,
            items,
            if i + 1 < items.len() {
                i + 1
            } else {
                0
            },
        ),
        PlaybackMode::Sequential => if i + 1 < items.len() {
            plays_at(next, items, i + 1)
        } else {
            next.state.player.playback == PlaybackState::Stopped
        },
        PlaybackMode::Shuffle => exists|j: int|
            0 <= j < items.len() && #[trigger] plays_at(next, items, j),
    }
}

/// Going back plays the song before, in every mode. Once a song has run for three
/// seconds, it is started over instead.
pub proof fn going_back_plays_the_song_before(app: AppView)
    requires
        app.state.queue.cursor matches Some(i) && i < app.state.queue.items.len() <= usize::MAX,
    ensures
        app.state.player.position_ms > 3_000 ==> {
            let next = app.previous_track();
            &&& next.effects == app.effects.push(Effect::AudioSeekTo(0))
            &&& next.state.player.position_ms == 0
            &&& next.state.player.current == app.state.player.current
            &&& next.state.queue == app.state.queue
        },
        app.state.player.position_ms <= 3_000 ==> plays_at(
            app.previous_track(),
            app.state.queue.items,
            if app.state.queue.cursor->0 > 0 {
                app.state.queue.cursor->0 - 1
            } else {
                app.state.queue.items.len() - 1
            },
        ),
{
    reveal(AppView::previous_track);
    reveal(AppView::show_seek);
    reveal(PlayQueue::previous_place);
    if app.state.player.position_ms <= 3_000 {
        lemma_play_current(app, app.state.queue.previous_place()->0);
    }
}

// Places within a song.

/// Whoever goes to a place of the playing song hears and sees it from there: the very
/// place where it lies within the song, else its last millisecond. Where nothing plays
/// nothing happens.
pub proof fn seeking_goes_to_the_place(app: AppView, position_ms: u64)
    ensures
        app.state.player.current is None ==> app.seek_to(position_ms) == app,
        app.state.player.current is Some ==> {
            let next = app.seek_to(position_ms);
            let duration_ms = app.state.player.duration_ms;
            let place = if duration_ms > 0 && position_ms >= duration_ms {
                (duration_ms - 1) as u64
            } else {
                position_ms
            };
            &&& next.effects == app.effects.push(Effect::AudioSeekTo(place))
            &&& next.state.player.position_ms == place
            &&& next.state.player.current == app.state.player.current
            &&& next.state.queue == app.state.queue
        },
{
    reveal(AppView::seek_to);
    reveal(AppView::show_seek);
}

/// A step within the playing song is told to the audio thread as it is, and the screen
/// shows the sum at once, within the song.
pub proof fn steps_are_shown_at_once(app: AppView, delta_ms: i64)
    ensures
        app.state.player.current is None ==> app.seek_by(delta_ms) == app,
        app.state.player.current is Some ==> {
            let next = app.seek_by(delta_ms);
            let sum = app.state.player.position_ms + delta_ms;
            let duration_ms = app.state.player.duration_ms;
            &&& next.effects == app.effects.push(Effect::AudioSeekBy(delta_ms))
            &&& sum < 0 ==> next.state.player.position_ms == 0
            &&& 0 <= sum <= u64::MAX && (duration_ms == 0 || sum <= duration_ms)
                ==> next.state.player.position_ms == sum
            &&& 0 < duration_ms < sum ==> next.state.player.position_ms == duration_ms
            &&& next.state.player.current == app.state.player.current
            &&& next.state.queue == app.state.queue
        },
{
    reveal(AppView::seek_by);
}

// The volume.

/// A step of the volume starts from what is heard, or from what was heard before it was
/// muted, and ends the muting.
pub proof fn volume_steps_start_from_what_was_heard(app: AppView, up: bool)
    ensures
        app.adjust_volume(up).effects == app.effects.push(
            Effect::StepVolume {
                base: match app.state.player.volume_before_mute {
                    Some(before) => before,
                    None => app.state.player.volume,
                },
                up,
            },
        ),
        app.adjust_volume(up).state.player.volume_before_mute is None,
        app.adjust_volume(up).state.player.volume == app.state.player.volume,
        app.adjust_volume(up).state.player.current == app.state.player.current,
{
    reveal(AppView::adjust_volume);
}

/// The volume that a step led to is the one that is shown, kept and heard.
pub proof fn volume_steps_are_heard(app: AppView, volume: u32)
    ensures
        app.volume_stepped(volume).state.player.volume == volume,
        app.volume_stepped(volume).effects == app.effects.push(Effect::AudioSetVolume(volume)).push(
            Effect::ShowVolume { volume, unmuted: false },
        ),
{
    reveal(AppView::volume_stepped);
}

/// Muting is heard: the volume is zero then, and the one before is kept; unmuting lets
/// that one be heard again.
pub proof fn muting_is_heard(app: AppView)
    ensures
        app.state.player.volume_before_mute is None ==> {
            let next = app.toggle_mute();
            &&& next.state.player.volume == 0
            &&& next.state.player.volume_before_mute == Some(app.state.player.volume)
            &&& next.effects == app.effects.push(Effect::AudioSetVolume(0))
        },
        app.state.player.volume_before_mute matches Some(before) ==> {
            let next = app.toggle_mute();
            &&& next.state.player.volume == before
            &&& next.state.player.volume_before_mute is None
            &&& next.effects[app.effects.len() as int] == Effect::<
                Seq<char>,
                Seq<Song>,
            >::AudioSetVolume(before)
        },
{
    reveal(AppView::toggle_mute);
}

// The lyrics.

/// The line that is shown as sung has begun at the place of the song, moved by the shift
/// of the lyrics, and the line behind it has not; where none has begun, none is shown. A
/// positive shift lets a line come earlier by as much.
pub proof fn the_sung_line_is_shown(app: AppView)
    requires
        app.state.player.lyric.lines.len() <= usize::MAX,
        0 <= app.state.player.position_ms + app.state.config.lyric_offset_ms <= u64::MAX,
    ensures
        ({
            let lines = app.state.player.lyric.lines;
            let place = app.state.player.position_ms + app.state.config.lyric_offset_ms;
            let next = app.update_active_lyric();
            &&& next.state.player.lyric.lines == lines
            &&& next.effects == app.effects
            &&& match next.state.player.lyric.active_line {
                Some(i) => {
                    &&& i < lines.len()
                    &&& lines[i as int].start_ms <= place
                    &&& i + 1 < lines.len() ==> lines[i + 1].start_ms > place
                },
                None => forall|j: int|
                    0 <= j < lines.len() ==> #[trigger] lines[j].start_ms > place,
            }
        }),
{
    reveal(AppView::update_active_lyric);
    sung_line_has_begun(
        app.state.player.lyric.lines,
        app.state.player.position_ms + app.state.config.lyric_offset_ms,
    );
}

/// Before the start of the song the lyrics stand at their start.
pub proof fn lyrics_wait_for_the_start(app: AppView)
    requires
        app.state.player.position_ms + app.state.config.lyric_offset_ms < 0,
        app.state.player.lyric.lines.len() <= usize::MAX,
    ensures
        app.update_active_lyric().state.player.lyric.active_line matches Some(i) ==> i
            < app.state.player.lyric.lines.len()
            && app.state.player.lyric.lines[i as int].start_ms == 0,
{
    reveal(AppView::update_active_lyric);
    sung_line_has_begun(app.state.player.lyric.lines, 0);
}

/// The shift of the lyrics changes by exactly what is asked for, within ten seconds to
/// both sides, and nothing else of the settings changes.
pub proof fn lyrics_are_shifted_by_the_step(app: AppView, delta_ms: i64)
    ensures
        ({
            let sum = app.state.config.lyric_offset_ms + delta_ms;
            let next = app.adjust_lyric_offset(delta_ms);
            &&& -10_000 <= sum <= 10_000 ==> next.state.config.lyric_offset_ms == sum
            &&& sum > 10_000 ==> next.state.config.lyric_offset_ms == 10_000
            &&& sum < -10_000 ==> next.state.config.lyric_offset_ms == -10_000
            &&& next.state.config.quality == app.state.config.quality
            &&& next.state.player == app.state.player
            &&& next.effects == app.effects
        }),
{
    reveal(AppView::adjust_lyric_offset);
}

/// Lyrics that come for the song that is shown are the ones that are sung.
pub proof fn lyrics_are_taken_over(
    app: AppView,
    hash: Seq<char>,
    lines: Seq<LyricLine>,
    reason: Seq<char>,
)
    requires
        app.state.player.lyric.hash == Some(hash),
    ensures
        app.lyric_loaded(hash, lines).state.player.lyric.lines == lines,
        app.lyric_loaded(hash, lines).state.player.lyric.hash == Some(hash),
        app.lyric_loaded(hash, lines).state.player.lyric.load is Idle,
        app.lyric_loaded(hash, lines).state.player.current == app.state.player.current,
        app.lyric_failed(hash, reason).state.player.lyric.load == LoadState::Failed(reason),
        app.lyric_failed(hash, reason).state.player.lyric.lines.len() == 0,
{
    reveal(AppView::lyric_loaded);
    reveal(AppView::lyric_failed);
}

// The audio thread and the clock.

/// A track that is ready plays, with the length that the decoder knows, and is no longer
/// to be resumed.
pub proof fn ready_tracks_play(app: AppView, duration_ms: u64)
    ensures
        ({
            let next = app.track_ready(duration_ms);
            &&& next.state.player.playback == PlaybackState::Playing
            &&& next.state.player.duration_ms == (if duration_ms > 0 {
                duration_ms
            } else {
                app.state.player.duration_ms
            })
            &&& next.state.player.resume is None
            &&& next.state.player.download_progress is None
            &&& next.state.screen.busy is None
            &&& next.state.player.current == app.state.player.current
            &&& next.state.player.position_ms == app.state.player.position_ms
            &&& next.state.queue == app.state.queue
            &&& next.effects == app.effects
        }),
{
    reveal(AppView::track_ready);
    reveal(AppView::learn_duration);
    reveal(AppView::settle);
    reveal(AppView::set_progress);
    reveal(AppView::set_playback);
    reveal(AppView::forget_resume);
}

/// What was playing when another device was chosen goes on there, at the place it had.
/// What was silent stays silent.
pub proof fn songs_go_on_at_the_other_device(app: AppView, name: Seq<char>)
    ensures
        app.pending_device_resume matches Some((song, position_ms)) ==> {
            let next = app.device_opened(name);
            &&& next.state.player.current == Some(song)
            &&& next.state.player.position_ms == position_ms
            &&& next.effects.last() == (Effect::<Seq<char>, Seq<Song>>::FindCached {
                key: song.key(app.state.config.quality),
                lookup: Lookup::Play { song, start_at_ms: position_ms },
            })
        },
        app.pending_device_resume is None ==> {
            let next = app.device_opened(name);
            &&& next.effects == app.effects
            &&& next.state.player.output_device == name
            &&& next.state.player.current == app.state.player.current
            &&& next.state.player.playback == app.state.player.playback
        },
{
    reveal(AppView::device_opened);
    reveal(AppView::with_device);
    match app.pending_device_resume {
        Some((song, position_ms)) => {
            lemma_start_playback(
                (AppView { pending_device_resume: None, ..app.with_device(name) }),
                song,
                position_ms,
            );
        },
        None => {},
    }
}

/// While the audio thread has a track, the screen shows what it says: the place, the
/// length as far as it knows it, and whether it plays.
pub proof fn the_screen_follows_the_audio_thread(app: AppView, audio: AudioSnapshot)
    ensures
        ({
            let player = app.follow_audio(audio).state.player;
            &&& player.playback == audio.state
            &&& audio.state == PlaybackState::Playing || audio.state == PlaybackState::Paused
                ==> player.position_ms == audio.position_ms
            &&& audio.duration_ms > 0 ==> player.duration_ms == audio.duration_ms
            &&& audio.duration_ms == 0 ==> player.duration_ms == app.state.player.duration_ms
            &&& player.current == app.state.player.current
            &&& player.volume == app.state.player.volume
            &&& player.lyric == app.state.player.lyric
        }),
{
    reveal(AppView::follow_audio);
}

// The keys.

/// Whether no panel is open and nothing is written, so that keys go to the page.
pub open spec fn keys_are_free(app: AppView) -> bool {
    &&& app.state.panels.context_menu is None
    &&& !app.state.panels.help.open
    &&& app.state.panels.quality_picker is None
    &&& app.state.panels.login_picker is None
    &&& app.state.panels.pending_confirm is None
    &&& app.state.panels.prompt is None
    &&& app.state.panels.login is None
    &&& !app.state.pages.search.editing
}

/// The keys of the player do what they are named after.
#[verifier::rlimit(30)]
pub proof fn keys_of_the_player(app: AppView, position_ms: u64, delta_ms: i64)
    requires
        keys_are_free(app),
    ensures
        app.handle_action(Action::PlayPause) == app.toggle_playback(),
        app.handle_action(Action::Next) == app.next_track(true),
        app.handle_action(Action::Prev) == app.previous_track(),
        app.handle_action(Action::SeekTo(position_ms)) == app.seek_to(position_ms),
        app.handle_action(Action::SeekBy(delta_ms)) == app.seek_by(delta_ms),
        app.handle_action(Action::VolumeUp) == app.adjust_volume(true),
        app.handle_action(Action::VolumeDown) == app.adjust_volume(false),
        app.handle_action(Action::ToggleMute) == app.toggle_mute(),
        app.handle_action(Action::LyricAdvance) == app.adjust_lyric_offset(100),
        app.handle_action(Action::LyricDelay) == app.adjust_lyric_offset((-100) as i64),
{
    lemma_free_keys(app, Action::PlayPause);
    lemma_free_keys(app, Action::Next);
    lemma_free_keys(app, Action::Prev);
    lemma_free_keys(app, Action::SeekTo(position_ms));
    lemma_free_keys(app, Action::SeekBy(delta_ms));
    lemma_free_keys(app, Action::VolumeUp);
    lemma_free_keys(app, Action::VolumeDown);
    lemma_free_keys(app, Action::ToggleMute);
    lemma_free_keys(app, Action::LyricAdvance);
    lemma_free_keys(app, Action::LyricDelay);
    reveal(AppView::handle_normal_action);
}

/// The keys to the sides step five seconds on or back in the playing song, unless the
/// settings or the sidebar take them.
pub proof fn side_keys_step_within_the_song(app: AppView)
    requires
        keys_are_free(app),
        app.state.screen.tab != Tab::Settings,
        app.state.screen.focus != Focus::Sidebar,
    ensures
        app.handle_action(Action::SeekForward) == app.seek_by(5_000),
        app.handle_action(Action::SeekBackward) == app.seek_by((-5_000) as i64),
{
    lemma_free_keys(app, Action::SeekForward);
    lemma_free_keys(app, Action::SeekBackward);
    reveal(AppView::handle_normal_action);
    reveal(AppView::seek_key);
}

/// A key that no panel takes and that writes nothing goes to the page, except for the
/// keys that change a setting on its page.
pub proof fn lemma_free_keys(app: AppView, action: Action)
    requires
        keys_are_free(app),
        app.state.screen.tab != Tab::Settings
            || value_step(action) is None,
    ensures
        app.handle_action(action) == app.handle_normal_action(action),
{
    reveal(AppView::handle_action);
    reveal(AppView::handle_dialog_key);
    reveal(AppView::handle_page_key);
}

/// The mode that is chosen next is the one that the queue is played in and that is kept.
pub proof fn modes_take_effect(app: AppView)
    ensures
        app.cycle_playback_mode().state.queue.mode == app.state.queue.mode.following(),
        app.cycle_playback_mode().state.config.playback_mode == app.state.queue.mode.following(),
        app.cycle_playback_mode().state.queue.items == app.state.queue.items,
        app.cycle_playback_mode().state.queue.cursor == app.state.queue.cursor,
        app.cycle_playback_mode().effects == app.effects,
{
    reveal(AppView::cycle_playback_mode);
}

/// A service that cannot be reached is told of for a song that was to be heard, and for the
/// lyrics in their place; a cover or a song ahead is done without.
pub proof fn unreachable_services_are_told_of(
    app: AppView,
    song: Song,
    start_at_ms: u64,
    error: crate::error::AppError,
)
    ensures
        ({
            let next = app.client_failed(Purpose::Stream { song, start_at_ms }, error);
            &&& next.state.screen.status.text == "无法连接「"@ + song.source.name() + "」："@
                + error.text@
            &&& next.state.player == app.state.player
            &&& next.effects == app.effects
        }),
        app.client_failed(Purpose::Lyric { song }, error) == app.lyric_failed(
            song.hash@,
            error.hint@,
        ),
        app.client_failed(Purpose::Cover { song }, error) == app,
        app.client_failed(Purpose::Prefetch { song }, error) == app,
{
    reveal(AppView::client_failed);
}

/// The levels are taken with every beat, with the spectrum only where that is seen and
/// something plays, and the desktop is told.
pub proof fn levels_are_taken_with_every_beat(app: AppView)
    ensures
        app.show_audio() == app.emit(
            Effect::RefreshLevels {
                spectrum: !app.state.config.lite_mode && app.state.screen.tab == Tab::Visualizer
                    && app.state.player.playback == PlaybackState::Playing,
            },
        ).emit(Effect::PublishTrack),
{
    reveal(AppView::show_audio);
}

/// The song that is playing is told by its hash, and nothing is playing before a song is
/// started.
pub proof fn songs_are_told_by_their_hash(app: AppView, song: Song)
    ensures
        app.is_current(song) <==> app.state.player.current is Some && (
        app.state.player.current->0).hash@ == song.hash@,
{
}

/// An excerpt that has ended is followed by nothing: playing stops, and the queue stays.
pub proof fn excerpts_are_followed_by_nothing(app: AppView)
    requires
        app.state.player.current_is_trial,
    ensures
        ({
            let next = app.track_finished();
            &&& next.state.player.playback == PlaybackState::Stopped
            &&& !next.state.player.current_is_trial
            &&& next.state.player.current == app.state.player.current
            &&& next.state.queue == app.state.queue
            &&& next.effects == app.effects
        }),
{
    reveal(AppView::track_finished);
    reveal(AppView::trial_ended);
}

/// A stream that starved for the first time is taken up again at once, for the same song and
/// from the same place.
pub proof fn starved_streams_are_taken_up(app: AppView, position_ms: u64)
    requires
        app.state.player.current is Some,
        app.stream_retried != Some((app.state.player.current->0).hash@),
    ensures
        ({
            let song = app.state.player.current->0;
            let next = app.stream_interrupted(position_ms);
            &&& next.state.player.current == Some(song)
            &&& next.state.player.position_ms == position_ms
            &&& next.stream_retried == Some(song.hash@)
            &&& next.effects.last() == (Effect::<Seq<char>, Seq<Song>>::FindCached {
                key: song.key(app.state.config.quality),
                lookup: Lookup::Play { song, start_at_ms: position_ms },
            })
        }),
{
    let song = app.state.player.current->0;
    let halted = app.halt_at(position_ms);
    assert(halted.state.config == app.state.config && halted.stream_retried == app.stream_retried)
        by {
        reveal(AppView::halt_at);
        reveal(AppView::settle);
        reveal(AppView::set_progress);
    }
    let noted = (AppView { stream_retried: Some(song.hash@), ..halted }).warn(
        "《"@ + song.name@ + "》缓冲中断，正从 "@ + crate::text::clock_text(position_ms as nat)
            + " 继续…"@,
    );
    lemma_start_playback(noted, song, position_ms);
    reveal(AppView::stream_interrupted);
    reveal(AppView::pick_up);
}

} // verus!
