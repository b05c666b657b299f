//! What finding means: what is searched for and opened, what comes to stand on the
//! pages, and where the marks go.

use vstd::prelude::*;
use crate::app::browse::{first_page, panel_tab};
use crate::app::effect::{Effect, EffectView};
use crate::app::nav::{Focus, Tab};
use crate::app::pages::PagesView;
use crate::app::panes::{edge, moved, stepped, Edit, SongListView, TextInput};
use crate::app::playing::{keys_are_free, lemma_free_keys};
use crate::app::state::AppView;
use crate::event::{Action, PlaylistSource};
use crate::model::{Artist, Playlist, RankBoard, Song};
use crate::text::trimmed;

verus! {

// Searching.

/// Searching asks the service in use for the first page of what stands in the input line,
/// without the blanks around it. A blank line asks for nothing.
pub proof fn searches_ask_for_what_is_written(app: AppView)
    ensures
        ({
            let keyword = trimmed(app.state.pages.search.input.chars);
            let next = app.run_search();
            &&& keyword.len() > 0 ==> {
                &&& next.effects == app.effects.push(
                    Effect::Search {
                        source: app.state.config.sources.active,
                        keyword,
                        page: 1,
                        page_size: app.state.config.page_size,
                        append: false,
                    },
                )
                &&& next.state.pages.search.submitted == keyword
                &&& !next.state.pages.search.editing
                &&& next.state.pages.search.results.load is Loading
                &&& next.state.pages.search.input == app.state.pages.search.input
            }
            &&& keyword.len() == 0 ==> next.effects == app.effects && next.state.pages
                == app.state.pages
            &&& next.state.player == app.state.player
            &&& next.state.queue == app.state.queue
        }),
{
    reveal(AppView::run_search);
    reveal(PagesView::submitted);
}

/// More results are asked for under the same words, one page on, up to the sixteenth, and
/// are to be added to those that are there. Before a search there is nothing to ask for.
pub proof fn more_results_are_asked_for(app: AppView)
    ensures
        ({
            let search = app.state.pages.search;
            let next = app.load_more_search();
            let more = search.submitted.len() > 0 && search.results.songs.len() > 0
                && search.page < 16;
            &&& more ==> {
                &&& next.effects == app.effects.push(
                    Effect::Search {
                        source: app.state.config.sources.active,
                        keyword: search.submitted,
                        page: (search.page + 1) as u32,
                        page_size: app.state.config.page_size,
                        append: true,
                    },
                )
                &&& next.state.pages.search.page == search.page + 1
            }
            &&& !more ==> next.effects == app.effects && next.state.pages == app.state.pages
            &&& next.state.pages.search.results == search.results
        }),
{
    reveal(AppView::load_more_search);
}

/// The results of a search are shown as they came, with the first one marked; further
/// results come behind them. Nothing is waited for then.
pub proof fn results_are_shown(app: AppView, keyword: Seq<char>, songs: Seq<Song>)
    ensures
        ({
            let found = app.search_found(keyword, songs);
            let results = found.state.pages.search.results;
            &&& results.songs == songs
            &&& songs.len() > 0 ==> results.cursor == Some(0usize) && found.state.screen.focus
                == Focus::Secondary
            &&& results.load is Idle
            &&& found.state.pages.search.page == 1
            &&& found.state.screen.busy is None
            &&& found.effects == app.effects
            &&& found.state.player == app.state.player
        }),
        ({
            let more = app.search_appended(keyword, songs);
            &&& more.state.pages.search.results.songs == app.state.pages.search.results.songs
                + songs
            &&& more.state.pages.search.page == app.state.pages.search.page
            &&& more.state.screen.busy is None
            &&& more.effects == app.effects
        }),
{
    reveal(AppView::search_found);
    reveal(AppView::search_appended);
    reveal(AppView::with_focus);
    reveal(PagesView::set_songs);
    reveal(PagesView::songs_of);
    reveal(PagesView::put_songs);
}

/// A program that is started with words searches for them.
#[verifier::rlimit(30)]
pub proof fn first_searches_are_made(app: AppView, keyword: Seq<char>)
    requires
        trimmed(keyword).len() > 0,
    ensures
        app.startup_search(keyword).effects == app.effects.push(
            Effect::Search {
                source: app.state.config.sources.active,
                keyword: trimmed(keyword),
                page: 1,
                page_size: app.state.config.page_size,
                append: false,
            },
        ),
        app.startup_search(keyword).state.screen.tab == Tab::Search,
{
    reveal(AppView::startup_search);
    reveal(AppView::switch_tab);
    reveal(AppView::switch_tab_inner);
    reveal(AppView::show_page);
    reveal(AppView::ensure_tab_loaded);
    reveal(PagesView::wants_entries);
    reveal(PagesView::with_input);
    let shown = app.switch_tab(Tab::Search);
    searches_ask_for_what_is_written(shown.with_pages(shown.state.pages.with_input(keyword)));
    reveal(AppView::run_search);
}

// What the pages show.

/// The playlists, artists, charts and cloud playlists that come are the ones that their
/// page shows, with the first one marked, and nothing else changes places.
pub proof fn entries_are_shown_on_their_page(
    app: AppView,
    title: Seq<char>,
    playlists: Seq<Playlist>,
    artists: Seq<Artist>,
    boards: Seq<RankBoard>,
)
    ensures
        ({
            let next = app.playlists_loaded(title, playlists).state.pages;
            &&& next.playlists.list.items == playlists
            &&& next.playlists.list.cursor == edge(playlists.len(), true)
            &&& next.playlists.list.load is Idle
            &&& next.playlists.songs == app.state.pages.playlists.songs
            &&& next.cloud == app.state.pages.cloud
        }),
        ({
            let next = app.artists_loaded(artists).state.pages;
            &&& next.artists.list.items == artists
            &&& next.artists.list.cursor == edge(artists.len(), true)
            &&& next.artists.list.load is Idle
            &&& next.artists.songs == app.state.pages.artists.songs
        }),
        ({
            let next = app.ranks_loaded(boards).state.pages;
            &&& next.ranks.list.items == boards
            &&& next.ranks.list.cursor == edge(boards.len(), true)
            &&& next.ranks.list.load is Idle
            &&& next.ranks.songs == app.state.pages.ranks.songs
        }),
        ({
            let next = app.cloud_loaded(playlists).state.pages;
            &&& next.cloud.list.items == playlists
            &&& next.cloud.list.cursor == edge(playlists.len(), true)
            &&& next.cloud.list.load is Idle
            &&& next.cloud.songs == app.state.pages.cloud.songs
            &&& next.playlists == app.state.pages.playlists
        }),
{
    reveal(AppView::playlists_loaded);
    reveal(AppView::artists_loaded);
    reveal(AppView::ranks_loaded);
    reveal(AppView::cloud_loaded);
}

/// Once the entries of a page have come, nothing is waited for, and nothing more is asked.
pub proof fn nothing_is_waited_for_behind_entries(
    app: AppView,
    title: Seq<char>,
    playlists: Seq<Playlist>,
    artists: Seq<Artist>,
    boards: Seq<RankBoard>,
)
    ensures
        app.playlists_loaded(title, playlists).state.screen.busy is None,
        app.playlists_loaded(title, playlists).effects == app.effects,
        app.artists_loaded(artists).state.screen.busy is None,
        app.artists_loaded(artists).effects == app.effects,
        app.ranks_loaded(boards).state.screen.busy is None,
        app.ranks_loaded(boards).effects == app.effects,
        app.cloud_loaded(playlists).state.screen.busy is None,
        app.cloud_loaded(playlists).effects == app.effects,
{
    reveal(AppView::playlists_loaded);
    reveal(AppView::artists_loaded);
    reveal(AppView::ranks_loaded);
    reveal(AppView::cloud_loaded);
}

/// The songs of an entry come to stand on its page, in the order that is set: as they came,
/// or from the last to the first. The first line is marked, and the list takes the keys.
pub proof fn songs_are_shown_on_their_page(
    app: AppView,
    tab: Tab,
    name: Seq<char>,
    songs: Seq<Song>,
)
    requires
        tab == Tab::Playlists || tab == Tab::Artists || tab == Tab::Ranks || tab == Tab::Cloud,
    ensures
        ({
            let next = app.songs_loaded(tab, name, songs);
            let list = next.state.pages.songs_of(tab);
            &&& list is Some
            &&& (list->0).songs == (if app.state.screen.sort_descending {
                songs.reverse()
            } else {
                songs
            })
            &&& (list->0).cursor == edge(songs.len(), true)
            &&& (list->0).load is Idle
            &&& next.state.screen.focus == Focus::Secondary
            &&& next.state.screen.busy is None
            &&& next.effects == app.effects
            &&& next.state.player == app.state.player
            &&& next.state.queue == app.state.queue
            &&& next.state.pages.search == app.state.pages.search
        }),
        app.playlist_loaded(tab, name, songs).state.pages == app.songs_loaded(
            tab,
            name,
            songs,
        ).state.pages,
{
    reveal(AppView::songs_loaded);
    reveal(AppView::playlist_loaded);
    reveal(AppView::with_focus);
    reveal(PagesView::set_songs);
    reveal(PagesView::songs_of);
    reveal(PagesView::put_songs);
}

/// Whether all that is asked for is this, while `tab` waits for its songs under a name.
pub open spec fn asks_for_songs(
    app: AppView,
    next: AppView,
    tab: Tab,
    name: Seq<char>,
    effect: EffectView,
) -> bool {
    let list = next.state.pages.songs_of(tab);
    &&& next.effects == app.effects.push(effect)
    &&& list is Some
    &&& (list->0).load is Loading
    &&& (list->0).title == name
    &&& next.state.player == app.state.player
    &&& next.state.queue == app.state.queue
}

/// Opening a playlist asks for its songs: the page that is shown first, of that playlist,
/// at the service in use. It is the one that counts as open on its page.
pub proof fn playlists_are_opened(
    app: AppView,
    playlist: Playlist,
    panel: PlaylistSource,
    fresh: bool,
)
    ensures
        ({
            let next = app.load_playlist_songs(playlist, panel, fresh);
            let tab = if panel == PlaylistSource::Plaza {
                Tab::Playlists
            } else {
                Tab::Cloud
            };
            &&& next.effects == app.effects.push(
                Effect::PlaylistTracks {
                    source: app.state.config.sources.active,
                    playlist,
                    panel,
                    page: first_page(playlist.song_count, app.state.screen.sort_descending),
                    fresh,
                },
            )
            &&& next.state.pages.songs_of(tab) matches Some(list) && list.load is Loading
                && list.title == playlist.name@
            &&& panel == PlaylistSource::Plaza ==> next.state.pages.open_plaza == Some(playlist)
                && next.state.pages.open_cloud == app.state.pages.open_cloud
            &&& panel == PlaylistSource::Cloud ==> next.state.pages.open_cloud == Some(playlist)
                && next.state.pages.open_plaza == app.state.pages.open_plaza
            &&& next.state.player == app.state.player
            &&& next.state.queue == app.state.queue
        }),
{
    reveal(AppView::load_playlist_songs);
    reveal(PagesView::begin_songs);
    reveal(PagesView::songs_of);
    reveal(PagesView::put_songs);
}

/// What is opened is the entry at the mark: its songs are asked for. A cloud playlist that
/// can be changed is the one that is changed from then on. Without a mark nothing is asked.
pub proof fn the_marked_entry_is_opened(app: AppView)
    ensures
        ({
            let list = app.state.pages.playlists.list;
            match list.cursor {
                Some(i) => i < list.items.len() ==> app.open_selected_playlist()
                    == app.load_playlist_songs(
                    list.items[i as int],
                    PlaylistSource::Plaza,
                    false,
                ),
                None => app.open_selected_playlist().effects == app.effects,
            }
        }),
        ({
            let list = app.state.pages.cloud.list;
            match list.cursor {
                Some(i) => i < list.items.len() ==> {
                    let playlist = list.items[i as int];
                    let next = app.open_selected_cloud_playlist();
                    &&& next.effects.len() == app.effects.len() + 1
                    &&& next.effects.last() is PlaylistTracks
                    &&& next.effects.last()->PlaylistTracks_playlist == playlist
                    &&& next.effects.last()->PlaylistTracks_panel == PlaylistSource::Cloud
                    &&& next.state.pages.open_cloud == Some(playlist)
                    &&& next.state.pages.sync_target == (if playlist.is_own && playlist.list_id
                        is Some {
                        Some(playlist)
                    } else {
                        app.state.pages.sync_target
                    })
                },
                None => app.open_selected_cloud_playlist().effects == app.effects,
            }
        }),
        ({
            let list = app.state.pages.artists.list;
            match list.cursor {
                Some(i) => i < list.items.len() ==> asks_for_songs(
                    app,
                    app.open_selected_artist(),
                    Tab::Artists,
                    list.items[i as int].name@,
                    Effect::ArtistTracks {
                        source: app.state.config.sources.active,
                        artist: list.items[i as int],
                    },
                ),
                None => app.open_selected_artist().effects == app.effects,
            }
        }),
        ({
            let list = app.state.pages.ranks.list;
            match list.cursor {
                Some(i) => i < list.items.len() ==> asks_for_songs(
                    app,
                    app.open_selected_rank(),
                    Tab::Ranks,
                    list.items[i as int].name@,
                    Effect::RankTracks {
                        source: app.state.config.sources.active,
                        board: list.items[i as int],
                    },
                ),
                None => app.open_selected_rank().effects == app.effects,
            }
        }),
{
    reveal(AppView::open_selected_playlist);
    reveal(AppView::open_selected_artist);
    reveal(AppView::open_selected_rank);
    reveal(PagesView::begin_songs);
    reveal(PagesView::songs_of);
    reveal(PagesView::put_songs);
    lemma_cloud_playlist_is_opened(app);
}

proof fn lemma_cloud_playlist_is_opened(app: AppView)
    ensures
        app.state.pages.cloud.list.cursor is None ==> app.open_selected_cloud_playlist().effects
            == app.effects,
        app.state.pages.cloud.list.cursor matches Some(i) ==> i
            < app.state.pages.cloud.list.items.len() ==> {
            let playlist = app.state.pages.cloud.list.items[i as int];
            let next = app.open_selected_cloud_playlist();
            &&& next.effects.len() == app.effects.len() + 1
            &&& next.effects.last() is PlaylistTracks
            &&& next.effects.last()->PlaylistTracks_playlist == playlist
            &&& next.effects.last()->PlaylistTracks_panel == PlaylistSource::Cloud
            &&& next.state.pages.open_cloud == Some(playlist)
            &&& next.state.pages.sync_target == (if playlist.is_own && playlist.list_id is Some {
                Some(playlist)
            } else {
                app.state.pages.sync_target
            })
        },
{
    reveal(AppView::open_selected_cloud_playlist);
    reveal(AppView::load_playlist_songs);
    reveal(PagesView::begin_songs);
    reveal(PagesView::songs_of);
    reveal(PagesView::put_songs);
}

/// The lists of a page are asked for at the service in use; the cloud playlists only with
/// a login. The page waits for them then.
pub proof fn lists_are_asked_for(app: AppView)
    ensures
        ({
            let source = app.state.config.sources.active;
            let plaza = app.load_plaza_playlists();
            let artists = app.load_artists();
            let ranks = app.load_ranks();
            let cloud = app.load_cloud_playlists();
            &&& plaza.effects == app.effects.push(
                Effect::PlazaPlaylists {
                    source,
                    category: app.state.pages.category,
                    page_size: app.state.config.page_size,
                },
            )
            &&& plaza.state.pages.playlists.list.load is Loading
            &&& plaza.state.pages.playlists.list.items == app.state.pages.playlists.list.items
            &&& artists.effects == app.effects.push(
                Effect::ArtistList { source, kind: app.state.pages.artist_kind, size: 60 },
            )
            &&& artists.state.pages.artists.list.load is Loading
            &&& ranks.effects == app.effects.push(Effect::RankBoards { source })
            &&& ranks.state.pages.ranks.list.load is Loading
            &&& app.state.account.logged_in ==> cloud.effects == app.effects.push(
                Effect::UserPlaylists { source },
            ) && cloud.state.pages.cloud.list.load is Loading
            &&& !app.state.account.logged_in ==> cloud.effects == app.effects
                && cloud.state.pages == app.state.pages
        }),
{
    reveal(AppView::load_plaza_playlists);
    reveal(AppView::load_artists);
    reveal(AppView::load_ranks);
    reveal(AppView::load_cloud_playlists);
    reveal(PagesView::begin_entries);
}

/// A page that is shown for the first time asks for its own list, and one whose list is
/// there or on its way does not ask again.
pub proof fn pages_load_when_they_are_shown(app: AppView)
    ensures
        ({
            let pages = app.state.pages;
            let wants = pages.playlists.list.items.len() == 0 && !(pages.playlists.list.load
                is Loading);
            app.ensure_tab_loaded(Tab::Playlists) == (if wants {
                app.load_plaza_playlists()
            } else {
                app
            })
        }),
        ({
            let pages = app.state.pages;
            let wants = pages.artists.list.items.len() == 0 && !(pages.artists.list.load
                is Loading);
            app.ensure_tab_loaded(Tab::Artists) == (if wants {
                app.load_artists()
            } else {
                app
            })
        }),
        ({
            let pages = app.state.pages;
            let wants = pages.ranks.list.items.len() == 0 && !(pages.ranks.list.load is Loading);
            app.ensure_tab_loaded(Tab::Ranks) == (if wants {
                app.load_ranks()
            } else {
                app
            })
        }),
        ({
            let pages = app.state.pages;
            let wants = pages.cloud.list.items.len() == 0 && !(pages.cloud.list.load is Loading);
            app.ensure_tab_loaded(Tab::Cloud) == (if wants {
                app.load_cloud_playlists()
            } else {
                app
            })
        }),
        app.ensure_tab_loaded(Tab::Search) == app,
        app.ensure_tab_loaded(Tab::Queue) == app,
        app.ensure_tab_loaded(Tab::Home) == app,
{
    reveal(AppView::ensure_tab_loaded);
    reveal(PagesView::wants_entries);
}

/// A page that is gone to is the one that is shown, and takes the keys; nothing is written
/// any more. What plays plays on.
#[verifier::rlimit(30)]
pub proof fn pages_are_shown(app: AppView, tab: Tab)
    ensures
        app.switch_tab(tab).state.screen.tab == tab,
        app.switch_tab(tab).state.screen.focus == Focus::Primary,
        !app.switch_tab(tab).state.pages.search.editing,
        app.switch_tab(tab).state.player == app.state.player,
        app.switch_tab(tab).state.queue == app.state.queue,
{
    reveal(AppView::switch_tab);
    reveal(AppView::switch_tab_inner);
    reveal(AppView::show_page);
    reveal(AppView::ensure_tab_loaded);
    reveal(AppView::load_plaza_playlists);
    reveal(AppView::load_artists);
    reveal(AppView::load_ranks);
    reveal(AppView::load_cloud_playlists);
    reveal(PagesView::begin_entries);
}

/// The digits lead to the pages in the order of the sidebar: the start page, the search,
/// the playlists, the artists, the charts, the cloud, the queue, the services, the
/// settings, and `0` to the spectrum.
pub proof fn digits_lead_to_the_pages(app: AppView, number: u8)
    ensures
        app.handle_digit(1) == app.switch_tab(Tab::Home),
        app.handle_digit(2) == app.switch_tab(Tab::Search),
        app.handle_digit(3) == app.switch_tab(Tab::Playlists),
        app.handle_digit(4) == app.switch_tab(Tab::Artists),
        app.handle_digit(5) == app.switch_tab(Tab::Ranks),
        app.handle_digit(6) == app.switch_tab(Tab::Cloud),
        app.handle_digit(7) == app.switch_tab(Tab::Queue),
        app.handle_digit(8) == app.switch_tab(Tab::Sources),
        app.handle_digit(9) == app.switch_tab(Tab::Settings),
        app.handle_digit(0) == app.switch_tab(Tab::Visualizer),
        number > 9 ==> app.handle_digit(number) == app,
{
    reveal(AppView::handle_digit);
}

/// The artists are filtered by the next region: all, Chinese, Western, Japanese and Korean,
/// others, and all again. The artists of the old region make way, and those of the new one
/// are asked for.
pub proof fn regions_follow_each_other(app: AppView)
    requires
        app.state.screen.tab == Tab::Artists,
        0 <= app.state.pages.artist_kind <= 4,
    ensures
        ({
            let next = app.cycle_artist_filter();
            let kind = if app.state.pages.artist_kind == 4 {
                0i64
            } else {
                (app.state.pages.artist_kind + 1) as i64
            };
            &&& next.state.pages.artist_kind == kind
            &&& next.state.pages.artists.list.items.len() == 0
            &&& next.state.pages.artists.songs.songs.len() == 0
            &&& next.effects == app.effects.push(
                Effect::ArtistList { source: app.state.config.sources.active, kind, size: 60 },
            )
        }),
{
    reveal(AppView::cycle_artist_filter);
    reveal(AppView::load_artists);
    reveal(PagesView::begin_entries);
    reveal(PagesView::set_songs);
    reveal(PagesView::songs_of);
    reveal(PagesView::put_songs);
}

/// Loading anew asks again for what the page shows: the search, the list of the page, and
/// the songs of the opened playlist.
pub proof fn reloading_asks_again(app: AppView)
    ensures
        app.state.screen.tab == Tab::Search && app.state.pages.search.submitted.len() > 0
            ==> app.reload_current_tab() == app.run_search(),
        app.state.screen.tab == Tab::Playlists && app.state.pages.open_plaza is None
            ==> app.reload_current_tab() == app.load_plaza_playlists(),
        app.state.screen.tab == Tab::Playlists && app.state.pages.open_plaza is Some
            ==> app.reload_current_tab() == app.load_plaza_playlists().load_playlist_songs(
            app.state.pages.open_plaza->0,
            PlaylistSource::Plaza,
            true,
        ),
        app.state.screen.tab == Tab::Artists ==> app.reload_current_tab() == app.load_artists(),
        app.state.screen.tab == Tab::Ranks ==> app.reload_current_tab() == app.load_ranks(),
        app.state.screen.tab == Tab::Cloud && app.state.pages.open_cloud is None
            ==> app.reload_current_tab() == app.load_cloud_playlists(),
        app.state.screen.tab == Tab::Cloud && app.state.pages.open_cloud is Some
            ==> app.reload_current_tab() == app.load_cloud_playlists().load_playlist_songs(
            app.state.pages.open_cloud->0,
            PlaylistSource::Cloud,
            true,
        ),
{
    reveal(AppView::reload_current_tab);
    reveal(AppView::reload_opened);
}

/// The songs of a panel's playlist stand on its own page.
pub proof fn panels_have_their_page()
    ensures
        panel_tab(PlaylistSource::Plaza) == Tab::Playlists,
        panel_tab(PlaylistSource::Cloud) == Tab::Cloud,
{
}

// The marks.

/// A mark that is moved goes exactly as far as asked, and stops at both ends; from no mark
/// one starts at the first line. A list without lines has no mark.
pub proof fn marks_move_by_the_step(cursor: usize, len: nat, delta: int)
    requires
        0 < len <= usize::MAX,
    ensures
        0 <= cursor + delta < len ==> moved(Some(cursor), len, delta) == Some(
            (cursor + delta) as usize,
        ),
        cursor + delta < 0 ==> moved(Some(cursor), len, delta) == Some(0usize),
        cursor + delta >= len ==> moved(Some(cursor), len, delta) == Some((len - 1) as usize),
        moved(None, len, delta) == moved(Some(0), len, delta),
        moved(Some(cursor), 0, delta) is None,
        stepped(cursor, len, delta) == moved(Some(cursor), len, delta)->0,
        edge(len, true) == Some(0usize),
        edge(len, false) == Some((len - 1) as usize),
        edge(0, true) is None,
{
}

/// Up and down move the mark in the list that has the keys: in the songs of the page, in
/// its entries, in the queue, in the services or in the settings.
pub proof fn keys_move_the_mark(app: AppView, delta: int)
    ensures
        ({
            let next = app.move_selection(delta);
            let tab = app.state.screen.tab;
            let focus = app.state.screen.focus;
            let list = app.state.pages.songs_of(tab);
            &&& list is Some && focus == Focus::Secondary ==> {
                &&& next.state.pages.songs_of(tab) is Some
                &&& (next.state.pages.songs_of(tab)->0).songs == (list->0).songs
                &&& (next.state.pages.songs_of(tab)->0).cursor == moved(
                    (list->0).cursor,
                    (list->0).songs.len(),
                    delta,
                )
                &&& next.effects == app.effects
            }
            &&& list is Some && focus == Focus::Queue ==> {
                &&& next.state.marks.queue == moved(
                    app.state.marks.queue,
                    app.state.queue.items.len(),
                    delta,
                )
                &&& next.state.queue == app.state.queue
                &&& next.state.pages == app.state.pages
            }
            &&& tab == Tab::Settings && focus == Focus::Primary ==> next.state.marks.settings
                == stepped(app.state.marks.settings, 14, delta)
        }),
{
    reveal(AppView::move_selection);
    reveal(AppView::move_settings);
    reveal(PagesView::move_songs);
    reveal(PagesView::songs_of);
    reveal(PagesView::put_songs);
}

/// In the middle of a page with entries the keys move among these.
pub proof fn keys_move_among_entries(app: AppView, delta: int)
    requires
        app.state.screen.focus == Focus::Primary,
    ensures
        ({
            let next = app.move_selection(delta).state.pages;
            let pages = app.state.pages;
            &&& app.state.screen.tab == Tab::Playlists ==> next.playlists.list.cursor == moved(
                pages.playlists.list.cursor,
                pages.playlists.list.items.len(),
                delta,
            ) && next.playlists.list.items == pages.playlists.list.items
            &&& app.state.screen.tab == Tab::Artists ==> next.artists.list.cursor == moved(
                pages.artists.list.cursor,
                pages.artists.list.items.len(),
                delta,
            )
            &&& app.state.screen.tab == Tab::Ranks ==> next.ranks.list.cursor == moved(
                pages.ranks.list.cursor,
                pages.ranks.list.items.len(),
                delta,
            )
            &&& app.state.screen.tab == Tab::Cloud ==> next.cloud.list.cursor == moved(
                pages.cloud.list.cursor,
                pages.cloud.list.items.len(),
                delta,
            )
        }),
{
    reveal(AppView::move_selection);
    reveal(PagesView::move_entries);
}

/// Enter goes one level in: it opens the marked entry, plays the chosen song of a list, or
/// the marked song of the queue.
pub proof fn enter_goes_one_level_in(app: AppView)
    ensures
        ({
            let tab = app.state.screen.tab;
            let focus = app.state.screen.focus;
            let next = app.activate();
            let lists = tab == Tab::Search || tab == Tab::Playlists || tab == Tab::Artists || tab
                == Tab::Ranks || tab == Tab::Cloud;
            &&& lists && focus == Focus::Secondary ==> next == app.play_from_focused_songs()
            &&& lists && focus == Focus::Queue ==> next == app.play_from_queue()
            &&& tab == Tab::Queue ==> next == app.play_from_queue()
            &&& tab == Tab::Playlists && focus == Focus::Primary ==> next
                == app.open_selected_playlist()
            &&& tab == Tab::Artists && focus == Focus::Primary ==> next
                == app.open_selected_artist()
            &&& tab == Tab::Ranks && focus == Focus::Primary ==> next == app.open_selected_rank()
            &&& tab == Tab::Cloud && focus == Focus::Primary ==> next
                == app.open_selected_cloud_playlist()
            &&& tab == Tab::Search && focus == Focus::Primary
                && app.state.pages.search.input.chars.len() > 0 ==> next == app.run_search()
            &&& tab == Tab::Sources ==> next == app.toggle_source_enabled()
            &&& tab == Tab::Settings ==> next == app.adjust_setting(1)
        }),
{
    reveal(AppView::activate);
    reveal(AppView::enter_search);
}

/// The keys that find something do what they are named after.
#[verifier::rlimit(30)]
pub proof fn keys_of_the_pages(app: AppView, number: u8)
    requires
        keys_are_free(app),
    ensures
        app.handle_action(Action::Submit) == app.activate(),
        app.handle_action(Action::Cancel) == app.go_back(),
        app.handle_action(Action::MoveDown) == app.move_selection(1),
        app.handle_action(Action::MoveUp) == app.move_selection(-1),
        app.handle_action(Action::MoveTop) == app.move_selection_edge(true),
        app.handle_action(Action::MoveBottom) == app.move_selection_edge(false),
        app.handle_action(Action::FocusNext) == app.cycle_focus(true),
        app.handle_action(Action::FocusPrev) == app.cycle_focus(false),
        app.handle_action(Action::Digit(number)) == app.handle_digit(number),
        app.handle_action(Action::LoadMoreSearch) == app.load_more_search(),
        app.handle_action(Action::Reload) == app.reload_current_tab(),
        app.handle_action(Action::OpenRanks) == app.switch_tab(Tab::Ranks),
        app.handle_action(Action::OpenCloud) == app.switch_tab(Tab::Cloud),
        app.handle_action(Action::CycleArtistFilter) == app.cycle_artist_filter(),
        app.handle_action(Action::OpenSearch).state.screen.tab == Tab::Search,
        app.handle_action(Action::OpenSearch).state.pages.search.editing,
        app.handle_action(Action::OpenSettings).state.screen.tab == Tab::Settings,
{
    lemma_free_keys(app, Action::Submit);
    lemma_free_keys(app, Action::Cancel);
    lemma_free_keys(app, Action::MoveDown);
    lemma_free_keys(app, Action::MoveUp);
    lemma_free_keys(app, Action::MoveTop);
    lemma_free_keys(app, Action::MoveBottom);
    lemma_free_keys(app, Action::FocusNext);
    lemma_free_keys(app, Action::FocusPrev);
    lemma_free_keys(app, Action::Digit(number));
    lemma_free_keys(app, Action::LoadMoreSearch);
    lemma_free_keys(app, Action::Reload);
    lemma_free_keys(app, Action::OpenRanks);
    lemma_free_keys(app, Action::OpenCloud);
    lemma_free_keys(app, Action::CycleArtistFilter);
    lemma_free_keys(app, Action::OpenSearch);
    lemma_free_keys(app, Action::OpenSettings);
    pages_are_shown(app, Tab::Search);
    pages_are_shown(app, Tab::Settings);
    reveal(AppView::handle_normal_action);
    reveal(AppView::open_search);
    reveal(AppView::open_settings);
    reveal(AppView::with_focus);
}

/// Esc goes one level back: from the queue to the songs, from everywhere else to the
/// middle of the page.
pub proof fn esc_goes_one_level_back(app: AppView)
    ensures
        app.state.screen.focus == Focus::Queue ==> app.go_back().state.screen.focus
            == Focus::Secondary,
        app.state.screen.focus != Focus::Queue ==> app.go_back().state.screen.focus
            == Focus::Primary && app.go_back().state.screen.sidebar_visible,
        app.go_back().state.screen.tab == app.state.screen.tab,
        app.go_back().effects == app.effects,
{
    reveal(AppView::go_back);
    reveal(AppView::with_focus);
}

// The lists and lines of a page.

/// Songs that come are the songs of the list, as they came or turned round, with the first
/// line marked; turning a list round keeps its mark. Waiting and failing keep the songs.
pub proof fn song_lists_hold_their_songs(
    list: SongListView,
    title: Seq<char>,
    songs: Seq<Song>,
    i: int,
)
    ensures
        list.set_songs_sorted(title, songs, false).songs == songs,
        0 <= i < songs.len() ==> list.set_songs_sorted(title, songs, true).songs[i]
            == songs[songs.len() - 1 - i],
        list.set_songs_sorted(title, songs, true).songs.len() == songs.len(),
        songs.len() > 0 ==> list.set_songs_sorted(title, songs, true).chosen() == Some(0usize),
        list.set_songs_sorted(title, songs, false).title == title,
        list.toggle_sort().cursor == list.cursor,
        0 <= i < list.songs.len() ==> list.toggle_sort().songs[i] == list.songs[list.songs.len() - 1
            - i],
        list.begin(title).songs == list.songs,
        list.begin(title).load is Loading,
        list.fail(title).songs == list.songs,
        list.fail(title).load is Failed,
        list.select(0).cursor == Some(0usize),
        list.select(0).songs == list.songs,
{
}

/// What is written comes to stand at the cursor, which goes behind it; the rest of the line
/// stays. The keys that take away take away the character before the cursor, or behind it.
pub proof fn lines_are_written_at_the_cursor(line: TextInput<Seq<char>>, c: char)
    requires
        line.cursor <= line.chars.len() < usize::MAX,
    ensures
        line.edit(Edit::Insert(c)).chars == line.chars.take(line.cursor as int).push(c)
            + line.chars.skip(line.cursor as int),
        line.edit(Edit::Insert(c)).cursor == line.cursor + 1,
        line.cursor > 0 ==> line.edit(Edit::Backspace).chars == line.chars.remove(line.cursor - 1)
            && line.edit(Edit::Backspace).cursor == line.cursor - 1,
        line.cursor < line.chars.len() ==> line.edit(Edit::Delete).chars == line.chars.remove(
            line.cursor as int,
        ) && line.edit(Edit::Delete).cursor == line.cursor,
        line.cursor > 0 ==> line.edit(Edit::Left).cursor == line.cursor - 1,
        line.cursor < line.chars.len() ==> line.edit(Edit::Right).cursor == line.cursor + 1,
        line.edit(Edit::Home).cursor == 0,
        line.edit(Edit::End).cursor == line.chars.len(),
        line.edit(Edit::Left).chars == line.chars,
        line.edit(Edit::Right).chars == line.chars,
        line.edit(Edit::Home).chars == line.chars,
        line.edit(Edit::End).chars == line.chars,
{
    assert(line.chars.insert(line.cursor as int, c) =~= line.chars.take(line.cursor as int).push(c)
        + line.chars.skip(line.cursor as int));
}

/// While the search line is written, keys write in it, Enter searches and Esc leaves it.
pub proof fn keys_write_the_search_line(app: AppView, c: char)
    requires
        app.state.pages.search.editing,
    ensures
        app.handle_editing_action(Action::Char(c)).state.pages.search.input
            == app.state.pages.search.input.edit(Edit::Insert(c)),
        app.handle_editing_action(Action::Backspace).state.pages.search.input
            == app.state.pages.search.input.edit(Edit::Backspace),
        app.handle_editing_action(Action::Delete).state.pages.search.input
            == app.state.pages.search.input.edit(Edit::Delete),
        app.handle_editing_action(Action::CursorLeft).state.pages.search.input
            == app.state.pages.search.input.edit(Edit::Left),
        app.handle_editing_action(Action::CursorRight).state.pages.search.input
            == app.state.pages.search.input.edit(Edit::Right),
        app.handle_editing_action(Action::Submit) == app.run_search(),
        !app.handle_editing_action(Action::Cancel).state.pages.search.editing,
{
    reveal(AppView::handle_editing_action);
    reveal(PagesView::edit);
}

/// The keys to the ends move the mark to the first line or to the last of the list that has
/// the keys.
pub proof fn keys_move_to_the_ends(app: AppView, first: bool)
    ensures
        ({
            let next = app.move_selection_edge(first);
            let tab = app.state.screen.tab;
            let list = app.state.pages.songs_of(tab);
            &&& list is Some && app.state.screen.focus == Focus::Secondary ==> {
                &&& next.state.pages.songs_of(tab) is Some
                &&& (next.state.pages.songs_of(tab)->0).songs == (list->0).songs
                &&& (next.state.pages.songs_of(tab)->0).cursor == edge((list->0).songs.len(), first)
            }
            &&& list is Some && app.state.screen.focus == Focus::Queue
                ==> next.state.marks.queue == edge(app.state.queue.items.len(), first)
            &&& tab == Tab::Playlists && app.state.screen.focus == Focus::Primary
                ==> next.state.pages.playlists.list.cursor == edge(
                app.state.pages.playlists.list.items.len(),
                first,
            )
            &&& tab == Tab::Cloud && app.state.screen.focus == Focus::Primary
                ==> next.state.pages.cloud.list.cursor == edge(
                app.state.pages.cloud.list.items.len(),
                first,
            )
            &&& tab == Tab::Artists && app.state.screen.focus == Focus::Primary
                ==> next.state.pages.artists.list.cursor == edge(
                app.state.pages.artists.list.items.len(),
                first,
            )
            &&& tab == Tab::Ranks && app.state.screen.focus == Focus::Primary
                ==> next.state.pages.ranks.list.cursor == edge(
                app.state.pages.ranks.list.items.len(),
                first,
            )
        }),
{
    reveal(AppView::move_selection_edge);
    reveal(PagesView::songs_edge);
    reveal(PagesView::entries_edge);
    reveal(PagesView::songs_of);
    reveal(PagesView::put_songs);
}

/// In the sidebar the keys go to the page that lies as far on in its order; at the ends one
/// stays.
pub proof fn keys_move_through_the_sidebar(app: AppView)
    requires
        app.state.screen.focus == Focus::Sidebar,
    ensures
        app.state.screen.tab == Tab::Home ==> app.move_selection(1).state.screen.tab
            == Tab::Search,
        app.state.screen.tab == Tab::Search ==> app.move_selection(-1).state.screen.tab
            == Tab::Home,
        app.state.screen.tab == Tab::Home ==> app.move_selection(-1) == app,
        app.state.screen.tab == Tab::Visualizer ==> app.move_selection(1) == app,
        app.state.screen.tab == Tab::Search ==> app.move_selection_edge(true).state.screen.tab
            == Tab::Home,
        app.state.screen.tab == Tab::Search ==> app.move_selection_edge(false).state.screen.tab
            == Tab::Visualizer,
{
    lemma_page_is_shown(app, Tab::Home);
    lemma_page_is_shown(app, Tab::Search);
    lemma_page_is_shown(app, Tab::Visualizer);
    reveal(AppView::move_selection);
    reveal(AppView::move_selection_edge);
    reveal(AppView::move_sidebar);
    reveal(AppView::select_sidebar_edge);
}

#[verifier::rlimit(30)]
proof fn lemma_page_is_shown(app: AppView, tab: Tab)
    ensures
        app.show_tab(tab).state.screen.tab == tab,
        app.state.screen.tab == tab ==> app.show_tab(tab) == app,
{
    reveal(AppView::show_tab);
    reveal(AppView::switch_tab_inner);
    reveal(AppView::show_page);
    reveal(AppView::ensure_tab_loaded);
    reveal(AppView::load_plaza_playlists);
    reveal(AppView::load_artists);
    reveal(AppView::load_ranks);
    reveal(AppView::load_cloud_playlists);
}

/// A line of a page's entries that is clicked is the one that is marked.
pub proof fn clicked_entries_are_marked(pages: PagesView, index: usize)
    ensures
        pages.select_entry(Tab::Playlists, index).playlists.list.cursor == Some(index),
        pages.select_entry(Tab::Artists, index).artists.list.cursor == Some(index),
        pages.select_entry(Tab::Ranks, index).ranks.list.cursor == Some(index),
        pages.select_entry(Tab::Cloud, index).cloud.list.cursor == Some(index),
        pages.select_entry(Tab::Playlists, index).playlists.list.items
            == pages.playlists.list.items,
        pages.select_entry(Tab::Cloud, index).cloud.list.items == pages.cloud.list.items,
{
    reveal(PagesView::select_entry);
}

/// On the page of the queue and on that of the services the keys move the marks there.
pub proof fn keys_move_among_songs_and_services(app: AppView, delta: int)
    requires
        app.state.screen.focus == Focus::Primary,
    ensures
        app.state.screen.tab == Tab::Queue ==> app.move_selection(delta).state.marks.queue == moved(
            app.state.marks.queue,
            app.state.queue.items.len(),
            delta,
        ),
        app.state.screen.tab == Tab::Sources ==> app.move_selection(delta).state.marks.sources
            == moved(
            app.state.marks.sources,
            app.state.config.sources.in_order().len(),
            delta,
        ),
        app.state.screen.tab == Tab::Search ==> app.move_selection(
            delta,
        ).state.pages.search.results.cursor == moved(
            app.state.pages.search.results.cursor,
            app.state.pages.search.results.songs.len(),
            delta,
        ),
{
    reveal(AppView::move_selection);
    reveal(AppView::mark_source);
    reveal(PagesView::move_songs);
    reveal(PagesView::songs_of);
    reveal(PagesView::put_songs);
}

/// The key for it gives the keys to the next part of the page, or to the one before.
pub proof fn keys_go_round_the_page(app: AppView, forward: bool)
    ensures
        app.cycle_focus(forward).state.screen.focus == app.state.screen.focus.following(forward),
        app.cycle_focus(forward).state.screen.tab == app.state.screen.tab,
        app.cycle_focus(forward).effects == app.effects,
{
    reveal(AppView::cycle_focus);
    reveal(AppView::with_focus);
}

} // verus!
