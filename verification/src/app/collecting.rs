//! What collecting means: which songs come into the queue, into a cloud playlist and
//! onto the disk, and which leave them.

use vstd::prelude::*;
use crate::app::effect::{Effect, Purpose};
use crate::app::nav::{ConfirmAction, Focus, Tab};
use crate::app::panes::{menu_item, MenuAction, MENU_ITEMS};
use crate::app::playing::{keys_are_free, lemma_free_keys};
use crate::app::queue::songs_are_found_at_their_first_place;
use crate::app::state::AppView;
use crate::audio::engine::PlaybackState;
use crate::config::{quality, quality_place, QUALITIES};
use crate::event::Action;
use crate::model::Song;
use crate::source::SourceKind;
use crate::text::trimmed;

verus! {

/// Whether `next` plays what `app` plays and asks for nothing more.
pub open spec fn plays_on(app: AppView, next: AppView) -> bool {
    &&& next.state.player == app.state.player
    &&& next.effects == app.effects
    &&& next.active_stream == app.active_stream
}

/// The chosen song is the marked one where the queue takes the keys or is the page, and
/// the one at the mark of the page's list elsewhere; without a mark none is chosen.
pub proof fn the_mark_chooses_the_song(app: AppView)
    ensures
        app.state.screen.focus == Focus::Queue || app.state.screen.tab == Tab::Queue ==> (
        match app.state.marks.queue {
            Some(i) => if i < app.state.queue.items.len() {
                app.state.selected_song() == Some(app.state.queue.items[i as int])
            } else {
                app.state.selected_song() is None
            },
            None => app.state.selected_song() is None,
        }),
        app.state.screen.focus != Focus::Queue && app.state.screen.tab == Tab::Search ==> (
        match app.state.pages.search.results.cursor {
            Some(i) => if i < app.state.pages.search.results.songs.len() {
                app.state.selected_song() == Some(app.state.pages.search.results.songs[i as int])
            } else {
                app.state.selected_song() is None
            },
            None => app.state.selected_song() is None,
        }),
        app.state.screen.focus != Focus::Queue && app.state.screen.tab == Tab::Cloud ==> (
        match app.state.pages.cloud.songs.cursor {
            Some(i) => if i < app.state.pages.cloud.songs.songs.len() {
                app.state.selected_song() == Some(app.state.pages.cloud.songs.songs[i as int])
            } else {
                app.state.selected_song() is None
            },
            None => app.state.selected_song() is None,
        }),
{
    reveal(crate::app::pages::PagesView::songs_of);
}

/// Each page with songs has a list of its own: the results of the search, and the songs
/// of the opened playlist, artist, chart or cloud playlist.
pub proof fn pages_have_their_own_songs(app: AppView)
    ensures
        app.state.pages.songs_of(Tab::Search) == Some(app.state.pages.search.results),
        app.state.pages.songs_of(Tab::Playlists) == Some(app.state.pages.playlists.songs),
        app.state.pages.songs_of(Tab::Artists) == Some(app.state.pages.artists.songs),
        app.state.pages.songs_of(Tab::Ranks) == Some(app.state.pages.ranks.songs),
        app.state.pages.songs_of(Tab::Cloud) == Some(app.state.pages.cloud.songs),
        app.state.pages.songs_of(Tab::Queue) is None,
        app.state.pages.songs_of(Tab::Home) is None,
        app.state.focused_songs() == app.state.pages.songs_of(app.state.screen.tab),
{
    reveal(crate::app::pages::PagesView::songs_of);
}

// The queue.

/// The chosen song goes to the very end of the queue, and what plays plays on.
pub proof fn chosen_songs_are_queued(app: AppView)
    ensures
        match app.state.selected_song() {
            Some(song) => {
                let next = app.queue_focused_song(false);
                &&& next.state.queue.items == app.state.queue.items.push(song)
                &&& next.state.queue.cursor == app.state.queue.cursor
                &&& next.state.queue.mode == app.state.queue.mode
                &&& plays_on(app, next)
            },
            None => app.queue_focused_song(false).state.queue == app.state.queue && plays_on(
                app,
                app.queue_focused_song(false),
            ),
        },
{
    reveal(AppView::queue_focused_song);
    reveal(AppView::append_song);
    reveal(AppView::clamp_queue_cursor);
    reveal(AppView::sync_queue_cursor);
    match app.state.selected_song() {
        Some(song) => {
            assert(app.state.queue.items + seq![song] =~= app.state.queue.items.push(song));
        },
        None => {},
    }
}

/// A song that is to be played next goes right behind the current one, or to the end
/// where there is none. What plays plays on.
pub proof fn chosen_songs_are_put_in_next(app: AppView)
    requires
        app.state.queue.wf(),
    ensures
        match app.state.selected_song() {
            Some(song) => {
                let next = app.queue_focused_song(true);
                let place: int = match app.state.queue.cursor {
                    Some(i) => i + 1,
                    None => app.state.queue.items.len() as int,
                };
                &&& next.state.queue.items == app.state.queue.items.insert(place, song)
                &&& next.state.queue.cursor == app.state.queue.cursor
                &&& plays_on(app, next)
            },
            None => app.queue_focused_song(true).state.queue == app.state.queue,
        },
{
    reveal(AppView::queue_focused_song);
    reveal(AppView::insert_song);
    reveal(AppView::clamp_queue_cursor);
    reveal(AppView::sync_queue_cursor);
}

/// All songs of the page's list go to the end of the queue, in the order of the list, and
/// what plays plays on.
pub proof fn whole_lists_are_queued(app: AppView)
    ensures
        match app.state.focused_songs() {
            Some(list) => {
                let next = app.queue_all_songs();
                &&& next.state.queue.items == app.state.queue.items + list.songs
                &&& next.state.queue.cursor == app.state.queue.cursor
                &&& plays_on(app, next)
            },
            None => app.queue_all_songs().state.queue == app.state.queue,
        },
{
    reveal(AppView::queue_all_songs);
    reveal(AppView::clamp_queue_cursor);
    reveal(AppView::sync_queue_cursor);
    match app.state.focused_songs() {
        Some(list) => {
            if list.songs.len() == 0 {
                assert(app.state.queue.items + list.songs =~= app.state.queue.items);
            }
        },
        None => {},
    }
}

/// Taking the marked song out takes out that one alone. Where it is playing, that ends;
/// otherwise what plays plays on. The keys must be with the queue.
pub proof fn the_marked_song_is_taken_out(app: AppView)
    requires
        app.state.screen.focus == Focus::Queue,
        app.state.marks.queue matches Some(i) && i < app.state.queue.items.len() <= usize::MAX,
    ensures
        ({
            let i = app.state.marks.queue->0 as int;
            let removed = app.state.queue.items[i];
            let next = app.remove_selected_from_queue();
            &&& next.state.queue.items == app.state.queue.items.remove(i)
            &&& app.is_current(removed) ==> {
                &&& next.state.player.current is None
                &&& next.state.player.playback == PlaybackState::Stopped
                &&& next.effects.last() == Effect::<Seq<char>, Seq<Song>>::AudioStop
            }
            &&& !app.is_current(removed) ==> plays_on(app, next)
        }),
{
    let i = app.state.marks.queue->0;
    let shorter = app.with_queue(app.state.queue.without(i)).clamp_queue_cursor();
    assert(shorter.state.queue == app.state.queue.without(i) && plays_on(app, shorter)) by {
        reveal(AppView::clamp_queue_cursor);
        reveal(AppView::sync_queue_cursor);
    }
    reveal(AppView::remove_selected_from_queue);
    reveal(AppView::drop_current);
    reveal(AppView::stop_playback);
    reveal(AppView::cancel_stream);
}

/// Elsewhere the key that takes songs out changes nothing.
pub proof fn songs_are_taken_out_of_the_queue_alone(app: AppView)
    requires
        app.state.screen.focus != Focus::Queue,
    ensures
        app.remove_selected_from_queue().state.queue == app.state.queue,
        plays_on(app, app.remove_selected_from_queue()),
{
    reveal(AppView::remove_selected_from_queue);
}

/// A song that is taken out by its menu leaves its first place in the queue, and nothing
/// else does; one that is not there changes nothing.
pub proof fn menus_take_out_their_song(app: AppView, song: Song, j: int)
    requires
        app.state.queue.items.len() <= usize::MAX,
    ensures
        ({
            let items = app.state.queue.items;
            let next = app.remove_song_from_queue(song);
            &&& plays_on(app, next)
            &&& 0 <= j < items.len() && items[j].hash@ == song.hash@ && (forall|k: int|
                0 <= k < j ==> (#[trigger] items[k]).hash@ != song.hash@)
                ==> next.state.queue.items == items.remove(j)
            &&& (forall|k: int| 0 <= k < items.len() ==> (#[trigger] items[k]).hash@ != song.hash@)
                ==> next.state.queue == app.state.queue
        }),
{
    reveal(AppView::remove_song_from_queue);
    songs_are_found_at_their_first_place(app.state.queue, song.hash@, 0);
}

/// An emptied queue holds nothing, and nothing is heard any more.
pub proof fn emptying_the_queue_empties_it(app: AppView)
    ensures
        app.clear_queue().state.queue.items.len() == 0,
        app.state.queue.items.len() > 0 ==> {
            let next = app.clear_queue();
            &&& next.state.queue.cursor is None
            &&& next.state.queue.mode == app.state.queue.mode
            &&& next.state.marks.queue is None
            &&& next.state.player.current is None
            &&& next.state.player.playback == PlaybackState::Stopped
            &&& next.effects.last() == Effect::<Seq<char>, Seq<Song>>::AudioStop
        },
{
    reveal(AppView::clear_queue);
    reveal(AppView::stop_playback);
    reveal(AppView::cancel_stream);
}

/// The keys of the queue do what they are named after; to empty it is asked about first.
#[verifier::rlimit(30)]
pub proof fn keys_of_the_queue(app: AppView)
    requires
        keys_are_free(app),
    ensures
        app.handle_action(Action::QueueAppend) == app.queue_focused_song(false),
        app.handle_action(Action::QueuePlayNext) == app.queue_focused_song(true),
        app.handle_action(Action::AddAllToQueue) == app.queue_all_songs(),
        app.handle_action(Action::RemoveFromQueue) == app.remove_selected_from_queue(),
        app.handle_action(Action::ToggleSortOrder) == app.toggle_sort_order(),
        app.handle_action(Action::ContextMenu) == app.open_context_menu(),
        app.handle_action(Action::DownloadCurrent) == app.download_current(),
        app.handle_action(Action::AddToCloud) == app.add_focused_song_to_cloud(),
        app.handle_action(Action::RemoveFromCloud) == app.remove_focused_song_from_cloud(),
        app.handle_action(Action::SyncToCloud) == app.sync_queue_to_cloud(),
        app.handle_action(Action::ClearQueue).state.panels.pending_confirm == Some(
            ConfirmAction::ClearQueue,
        ),
        app.handle_action(Action::ClearCache).state.panels.pending_confirm == Some(
            ConfirmAction::ClearCache,
        ),
{
    lemma_free_keys(app, Action::QueueAppend);
    lemma_free_keys(app, Action::QueuePlayNext);
    lemma_free_keys(app, Action::AddAllToQueue);
    lemma_free_keys(app, Action::RemoveFromQueue);
    lemma_free_keys(app, Action::ToggleSortOrder);
    lemma_free_keys(app, Action::ContextMenu);
    lemma_free_keys(app, Action::DownloadCurrent);
    lemma_free_keys(app, Action::AddToCloud);
    lemma_free_keys(app, Action::RemoveFromCloud);
    lemma_free_keys(app, Action::SyncToCloud);
    lemma_free_keys(app, Action::ClearQueue);
    lemma_free_keys(app, Action::ClearCache);
    reveal(AppView::handle_normal_action);
    reveal(AppView::ask);
}

/// Who confirms a question gets what was asked about, and who declines gets nothing; the
/// question is closed either way.
pub proof fn confirmed_questions_are_carried_out(app: AppView, confirm: ConfirmAction)
    ensures
        ({
            let closed = app.ask(None);
            &&& closed.state.panels.pending_confirm is None
            &&& plays_on(app, closed)
            &&& closed.state.queue == app.state.queue
            &&& app.handle_confirm_key(ConfirmAction::ClearQueue, Action::Submit)
                == closed.clear_queue()
            &&& app.handle_confirm_key(ConfirmAction::ClearCache, Action::Submit) == closed.emit(
                Effect::ClearCache,
            )
            &&& app.handle_confirm_key(ConfirmAction::DeleteCloudPlaylist, Action::Submit)
                == closed.delete_cloud_playlist()
            &&& app.handle_confirm_key(ConfirmAction::Relogin, Action::Submit)
                == closed.relogin()
            &&& plays_on(app, app.handle_confirm_key(confirm, Action::Cancel))
            &&& app.handle_confirm_key(confirm, Action::Cancel).state.queue == app.state.queue
            &&& app.handle_confirm_key(confirm, Action::Cancel).state.panels.pending_confirm
                is None
        }),
{
    reveal(AppView::ask);
    reveal(AppView::handle_confirm_key);
    reveal(AppView::confirmed);
    reveal(AppView::clear_cache);
}

/// Turning the lists round turns the songs of every page round, and the mark for that.
pub proof fn every_list_is_turned_round(app: AppView)
    ensures
        ({
            let next = app.toggle_sort_order();
            let pages = app.state.pages;
            &&& next.state.screen.sort_descending == !app.state.screen.sort_descending
            &&& next.state.pages.search.results.songs == pages.search.results.songs.reverse()
            &&& next.state.pages.playlists.songs.songs == pages.playlists.songs.songs.reverse()
            &&& next.state.pages.artists.songs.songs == pages.artists.songs.songs.reverse()
            &&& next.state.pages.ranks.songs.songs == pages.ranks.songs.songs.reverse()
            &&& next.state.pages.cloud.songs.songs == pages.cloud.songs.songs.reverse()
            &&& next.state.queue == app.state.queue
            &&& plays_on(app, next)
        }),
{
    reveal(AppView::toggle_sort_order);
    reveal(crate::app::pages::PagesView::toggle_sort);
}

// The menu of a song.

/// The menu that is opened belongs to the chosen song, and stands at its first entry.
pub proof fn menus_belong_to_the_chosen_song(app: AppView)
    ensures
        match app.state.selected_song() {
            Some(song) => app.open_context_menu().state.panels.context_menu matches Some(menu)
                && menu.song == song && menu.cursor == 0 && menu.in_queue == (
            app.state.screen.focus == Focus::Queue),
            None => app.open_context_menu().state.panels == app.state.panels,
        },
        plays_on(app, app.open_context_menu()),
{
    reveal(AppView::open_context_menu);
}

/// The menu offers to play the song, to put it in next, to add it to the cloud and to
/// download it, in this order; then, in the queue, to take it out, elsewhere to put it in.
pub proof fn menus_offer_five_things(in_queue: bool, i: int)
    ensures
        menu_item(in_queue, 0) == Some(MenuAction::Play),
        menu_item(in_queue, 1) == Some(MenuAction::QueuePlayNext),
        menu_item(in_queue, 2) == Some(MenuAction::AddToCloud),
        menu_item(in_queue, 3) == Some(MenuAction::Download),
        menu_item(true, 4) == Some(MenuAction::RemoveFromQueue),
        menu_item(false, 4) == Some(MenuAction::QueueAppend),
        menu_item(in_queue, i) is Some <==> 0 <= i < MENU_ITEMS,
{
}

/// The entry that is chosen in a menu is carried out with the song of the menu, which is
/// closed.
#[verifier::rlimit(30)]
pub proof fn menus_act_on_their_song(app: AppView, i: usize)
    requires
        app.state.panels.context_menu is Some,
    ensures
        ({
            let menu = app.state.panels.context_menu->0;
            let next = app.choose_in_menu(i);
            let closed = app.close_menu();
            &&& closed.state.panels.context_menu is None
            &&& plays_on(app, closed)
            &&& i == 0 ==> next == closed.start_playback(menu.song, 0)
            &&& i == 1 ==> next.state.queue == app.state.queue.inserted_next(menu.song)
                && plays_on(app, next)
            &&& i == 2 ==> next == closed.add_focused_song_to_cloud()
            &&& i == 3 ==> next.state.panels.quality_picker is Some && (
            next.state.panels.quality_picker->0).song == menu.song
            &&& i == 4 && menu.in_queue ==> next == closed.remove_song_from_queue(menu.song)
            &&& i == 4 && !menu.in_queue ==> next.state.queue.items
                == app.state.queue.items.push(menu.song) && plays_on(app, next)
            &&& i >= 5 ==> next == app
        }),
{
    reveal(AppView::choose_in_menu);
    reveal(AppView::close_menu);
    reveal(AppView::run_menu_action);
    reveal(AppView::insert_song);
    reveal(AppView::append_song);
    reveal(AppView::clamp_queue_cursor);
    reveal(AppView::sync_queue_cursor);
    reveal(AppView::open_quality_picker);
    let song = (app.state.panels.context_menu->0).song;
    assert(app.state.queue.items + seq![song] =~= app.state.queue.items.push(song));
}

/// Enter chooses the marked entry of a menu, a digit the one with that number, Esc closes
/// it, and the keys up and down move its mark by one entry.
pub proof fn keys_of_the_menu(app: AppView)
    requires
        app.state.panels.context_menu matches Some(menu) && menu.cursor < MENU_ITEMS,
    ensures
        ({
            let menu = app.state.panels.context_menu->0;
            let up = app.handle_action(Action::MoveUp).state.panels.context_menu;
            let down = app.handle_action(Action::MoveDown).state.panels.context_menu;
            &&& app.handle_action(Action::Submit) == app.choose_in_menu(menu.cursor)
            &&& app.handle_action(Action::Char('1')) == app.choose_in_menu(0)
            &&& app.handle_action(Action::Char('4')) == app.choose_in_menu(3)
            &&& app.handle_action(Action::Char('5')) == app.choose_in_menu(4)
            &&& app.handle_action(Action::Cancel).state.panels.context_menu is None
            &&& up is Some && (up->0).song == menu.song && (up->0).cursor == (if menu.cursor > 0 {
                menu.cursor - 1
            } else {
                0
            })
            &&& down is Some && (down->0).song == menu.song && (down->0).cursor == (
            if menu.cursor + 1 < MENU_ITEMS {
                menu.cursor + 1
            } else {
                MENU_ITEMS - 1
            })
        }),
{
    reveal(AppView::handle_action);
    reveal(AppView::handle_menu_key);
    reveal(AppView::close_menu);
}

// Downloads.

/// What is downloaded is the song that the list was opened for, in the quality at its
/// mark, from the song's own service.
pub proof fn downloads_take_the_chosen_quality(app: AppView)
    requires
        app.state.panels.quality_picker matches Some(picker) && picker.cursor < QUALITIES,
    ensures
        ({
            let picker = app.state.panels.quality_picker->0;
            let next = app.confirm_quality_picker();
            let chosen = quality(picker.cursor as int);
            &&& next.state.panels.quality_picker is None
            &&& next.effects.len() == app.effects.len() + 1
            &&& picker.song.source == app.state.config.sources.active ==> next.effects.last() == (
            Effect::<Seq<char>, Seq<Song>>::DownloadSong {
                song: picker.song,
                quality: chosen,
                dir: app.state.config.download_dir,
            })
            &&& picker.song.source != app.state.config.sources.active ==> {
                &&& next.effects.last() is Connect
                &&& next.effects.last()->Connect_kind == picker.song.source
                &&& next.effects.last()->Connect_purpose == (Purpose::Download {
                    song: picker.song,
                    quality: chosen,
                })
            }
            &&& next.state.player == app.state.player
            &&& next.state.queue == app.state.queue
        }),
{
    reveal(AppView::confirm_quality_picker);
    reveal(AppView::download_song);
    reveal(AppView::with_client);
    reveal(AppView::client_ready);
}

/// The list of qualities is opened for the song that is asked for, at the quality in use;
/// the key for it asks for the playing song.
pub proof fn quality_lists_stand_at_the_quality_in_use(app: AppView, song: Song, i: usize)
    requires
        i < QUALITIES,
    ensures
        app.open_quality_picker(song).state.panels.quality_picker matches Some(picker)
            && picker.song == song && (quality_place(trimmed(app.state.config.quality), 0)
            == Some(i) ==> picker.cursor == i),
        app.state.player.current matches Some(current) ==> app.download_current()
            == app.open_quality_picker(current),
        app.state.player.current is None ==> app.download_current().state.panels
            == app.state.panels,
{
    reveal(AppView::open_quality_picker);
    reveal(AppView::download_current);
}

/// The qualities that can be chosen are these eight, from the usual one up.
pub proof fn qualities_stand_in_their_order(i: int)
    ensures
        quality(0) == "128"@,
        quality(1) == "320"@,
        quality(2) == "flac"@,
        quality(3) == "high"@,
        quality(4) == "super"@,
        quality(5) == "viper_clear"@,
        quality(6) == "viper_atmos"@,
        quality(7) == "viper_tape"@,
        0 <= i < QUALITIES ==> quality_place(quality(i), 0) == Some(i as usize),
{
    reveal_strlit("128");
    reveal_strlit("320");
    reveal_strlit("flac");
    reveal_strlit("high");
    reveal_strlit("super");
    reveal_strlit("viper_clear");
    reveal_strlit("viper_atmos");
    reveal_strlit("viper_tape");
    reveal_with_fuel(quality_place, 9);
    assert("128"@[0] != "320"@[0]);
    assert("flac"@[0] != "high"@[0]);
    assert("viper_clear"@[6] != "viper_atmos"@[6]);
    assert("super"@.len() == 5 && "viper_clear"@.len() == 11 && "viper_atmos"@.len() == 11);
    assert(quality_place("128"@, 0) == Some(0usize));
    assert(quality_place("320"@, 0) == Some(1usize));
    assert(quality_place("flac"@, 0) == Some(2usize));
    assert(quality_place("high"@, 0) == Some(3usize));
    assert(quality_place("super"@, 0) == Some(4usize));
    assert(quality_place("viper_clear"@, 0) == Some(5usize));
    assert(quality_place("viper_atmos"@, 0) == Some(6usize));
    assert(quality_place("viper_tape"@, 0) == Some(7usize));
    if 0 <= i < QUALITIES {
        assert(i == 0 || i == 1 || i == 2 || i == 3 || i == 4 || i == 5 || i == 6 || i == 7);
    }
}

// The cloud playlists.

/// The chosen song is added to the cloud playlist that is open, where that can be
/// changed, else to the one that was chosen for that. Without a login nothing is sent.
pub proof fn chosen_songs_go_to_the_cloud(app: AppView)
    ensures
        ({
            let opened = app.state.pages.open_cloud;
            let target = if opened is Some && (opened->0).is_own && (opened->0).list_id is Some {
                opened
            } else {
                app.state.pages.sync_target
            };
            let next = app.add_focused_song_to_cloud();
            &&& app.state.account.logged_in && target is Some && (target->0).list_id is Some
                && app.state.selected_song() is Some ==> next.effects == app.effects.push(
                Effect::AddTrack {
                    source: app.state.config.sources.active,
                    list_id: (target->0).list_id->0,
                    song: app.state.selected_song()->0,
                    target: target->0,
                },
            )
            &&& !app.state.account.logged_in || target is None || (target->0).list_id is None
                || app.state.selected_song() is None ==> next.effects == app.effects
            &&& next.state.queue == app.state.queue
            &&& next.state.player == app.state.player
        }),
{
    reveal(AppView::add_focused_song_to_cloud);
}

/// The chosen song leaves the cloud playlist that was chosen to be changed. Without a
/// login, or where the service does not know the song's place in it, nothing is sent.
pub proof fn chosen_songs_leave_the_cloud(app: AppView)
    ensures
        ({
            let target = app.state.pages.sync_target;
            let song = app.state.selected_song();
            let source = app.state.config.sources.active;
            let known = target is Some && (target->0).list_id is Some && song is Some
                && app.state.account.logged_in && (source == SourceKind::Netease
                || (song->0).file_id is Some);
            let next = app.remove_focused_song_from_cloud();
            &&& known ==> next.effects == app.effects.push(
                Effect::RemoveTrack {
                    source,
                    list_id: (target->0).list_id->0,
                    song: song->0,
                    target: target->0,
                },
            )
            &&& !known ==> next.effects == app.effects
            &&& next.state.queue == app.state.queue
        }),
{
    reveal(AppView::remove_focused_song_from_cloud);
}

/// The whole queue, in its order, goes to the cloud playlist that was chosen; without a
/// login, without a playlist or without songs nothing is sent.
pub proof fn the_queue_goes_to_the_cloud(app: AppView)
    ensures
        ({
            let target = app.state.pages.sync_target;
            let ready = app.state.account.logged_in && target is Some && (target->0).list_id
                is Some && app.state.queue.items.len() > 0;
            let next = app.sync_queue_to_cloud();
            &&& ready ==> next.effects == app.effects.push(
                Effect::SyncQueue {
                    source: app.state.config.sources.active,
                    list_id: (target->0).list_id->0,
                    name: (target->0).name@,
                    songs: app.state.queue.items,
                },
            )
            &&& !ready ==> next.effects == app.effects
            &&& next.state.queue == app.state.queue
        }),
{
    reveal(AppView::sync_queue_to_cloud);
}

/// The playlist that is deleted is the one that was chosen, and it is chosen no longer.
pub proof fn the_chosen_playlist_is_deleted(app: AppView)
    ensures
        ({
            let target = app.state.pages.sync_target;
            let ready = app.state.account.logged_in && target is Some && (target->0).list_id
                is Some;
            let next = app.delete_cloud_playlist();
            &&& ready ==> next.effects == app.effects.push(
                Effect::DeletePlaylist {
                    source: app.state.config.sources.active,
                    list_id: (target->0).list_id->0,
                    name: (target->0).name@,
                },
            )
            &&& !ready ==> next.effects == app.effects
            &&& next.state.pages.sync_target is None
        }),
{
    reveal(AppView::delete_cloud_playlist);
}

/// A playlist is made under the name that is given, unless that is blank or nobody is
/// logged in.
pub proof fn playlists_are_made_under_their_name(app: AppView, name: Seq<char>)
    ensures
        app.state.account.logged_in && trimmed(name).len() > 0 ==> app.create_cloud_playlist(
            name,
        ).effects == app.effects.push(
            Effect::CreatePlaylist { source: app.state.config.sources.active, name },
        ),
        !app.state.account.logged_in || trimmed(name).len() == 0 ==> app.create_cloud_playlist(
            name,
        ).effects == app.effects,
{
    reveal(AppView::create_cloud_playlist);
}

/// A cache that was emptied, or could not be, leaves what plays alone; its size is
/// measured anew where it was emptied.
pub proof fn emptied_caches_are_measured(
    app: AppView,
    report: crate::audio::cache::ClearReport,
    error: crate::error::AppError,
    freed: Seq<char>,
)
    ensures
        app.cache_cleared(Ok(report), freed).effects == app.effects.push(Effect::MeasureCache),
        app.cache_cleared(Err(error), freed).effects == app.effects,
        app.cache_cleared(Ok(report), freed).state.player == app.state.player,
        app.cache_cleared(Ok(report), freed).state.queue == app.state.queue,
{
    reveal(AppView::cache_cleared);
    reveal(AppView::refresh_cache_usage);
}

} // verus!
