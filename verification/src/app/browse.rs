//! Searching and loading: what is asked of the services to fill the pages.

use vstd::prelude::*;
use crate::app::conf;
use crate::app::effect::Effect;
use crate::app::nav::{Focus, Tab};
use crate::app::pages::PagesView;
use crate::app::screen::Screen;
use crate::app::state::{App, AppView};
use crate::event::PlaylistSource;
use crate::model::{login_hint, not_logged_in_hint, Artist, Playlist, Song};
use crate::text::{cat2, cat3, cat5, dec, dec_text, trim, trimmed};

verus! {

/// How many songs of a playlist come on one page.
pub const PAGE_LIMIT: u64 = 30;

/// The last page of a search that the service gives.
pub const SEARCH_MAX_PAGES: u32 = 16;

/// How many artists are asked for at once.
pub const ARTIST_LIST_SIZE: u32 = 60;

/// The page of a playlist that is shown first: the one whose songs stand at the
/// top in the end, which is the last one where the list is turned round.
pub open spec fn first_page(song_count: u64, descending: bool) -> u32 {
    let last = (song_count + PAGE_LIMIT - 1) / PAGE_LIMIT as int;
    if !descending || last < 1 {
        1
    } else if last > u32::MAX {
        u32::MAX
    } else {
        last as u32
    }
}

/// The page of a playlist that is shown first.
pub fn first_screen_page(song_count: u64, descending: bool) -> (r: u32)
    ensures
        r == first_page(song_count, descending),
        r >= 1,
{
    let last: u64 = song_count / PAGE_LIMIT + (if song_count % PAGE_LIMIT == 0 {
        0
    } else {
        1
    });
    if !descending || last < 1 {
        1
    } else if last > u32::MAX as u64 {
        u32::MAX
    } else {
        last as u32
    }
}

/// Whether the whole list is still to be fetched when a first page of `got` songs
/// was shown. That a page is not full means that there is no more only of the
/// first page.
pub open spec fn more_to_fetch(page: u32, got: nat) -> bool {
    page > 1 || got >= PAGE_LIMIT
}

/// Whether the whole list is still to be fetched.
pub fn needs_full_fetch(page: u32, got: usize) -> (r: bool)
    ensures
        r == more_to_fetch(page, got as nat),
{
    page > 1 || got as u64 >= PAGE_LIMIT
}

/// The first page holds what stands at the top: a song that is shown on it comes
/// from the end of a list that is turned round, and from the start of one that
/// is not; and a list that does not fit on it is always fetched whole.
pub proof fn first_page_agrees_with_the_order(song_count: u64)
    ensures
        first_page(song_count, false) == 1,
        song_count > 0 && song_count <= u32::MAX ==> {
            let page = first_page(song_count, true);
            &&& (page - 1) * PAGE_LIMIT < song_count <= page * PAGE_LIMIT
        },
        song_count > PAGE_LIMIT ==> more_to_fetch(first_page(song_count, true), 0),
{
}

/// The page of a song list that belongs to a panel.
pub open spec fn panel_tab(panel: PlaylistSource) -> Tab {
    match panel {
        PlaylistSource::Plaza => Tab::Playlists,
        PlaylistSource::Cloud => Tab::Cloud,
    }
}

/// The region that follows, and its name.
pub open spec fn next_region(kind: i64) -> (i64, Seq<char>) {
    if kind == 1 {
        (2, "欧美"@)
    } else if kind == 2 {
        (3, "日韩"@)
    } else if kind == 3 {
        (4, "其他"@)
    } else if kind == 4 {
        (0, "全部"@)
    } else {
        (1, "华语"@)
    }
}

fn following_region(kind: i64) -> (r: (i64, &'static str))
    ensures
        r.0 == next_region(kind).0,
        r.1@ == next_region(kind).1,
{
    if kind == 1 {
        (2, "欧美")
    } else if kind == 2 {
        (3, "日韩")
    } else if kind == 3 {
        (4, "其他")
    } else if kind == 4 {
        (0, "全部")
    } else {
        (1, "华语")
    }
}

impl AppView {
    pub open spec fn source(self) -> crate::source::SourceKind {
        self.state.config.sources.active
    }

    /// Searches for what stands in the input line.
    #[verifier::opaque]
    pub open spec fn run_search(self) -> AppView {
        let keyword = trimmed(self.state.pages.search.input.chars);
        if keyword.len() == 0 {
            self.warn("请输入搜索关键词"@)
        } else {
            self.with_pages(
                self.state.pages.submitted(keyword, "搜索「"@ + keyword + "」"@),
            ).set_busy(Some("搜索 "@ + keyword)).emit(
                Effect::Search {
                    source: self.source(),
                    keyword,
                    page: 1,
                    page_size: self.state.config.page_size,
                    append: false,
                },
            )
        }
    }

    /// Asks for the next page of the results.
    #[verifier::opaque]
    pub open spec fn load_more_search(self) -> AppView {
        let search = self.state.pages.search;
        if search.submitted.len() == 0 {
            self.warn("请先搜索"@)
        } else if search.results.songs.len() == 0 {
            self.warn("当前没有搜索结果"@)
        } else if search.page >= SEARCH_MAX_PAGES {
            self.info("已经到最后一页了"@)
        } else {
            let page = (search.page + 1) as u32;
            self.set_busy(
                Some("加载「"@ + search.submitted + "」第 "@ + dec(page as nat) + " 页"@),
            ).with_pages(self.state.pages.at_page(page)).emit(
                Effect::Search {
                    source: self.source(),
                    keyword: search.submitted,
                    page,
                    page_size: self.state.config.page_size,
                    append: true,
                },
            )
        }
    }

    #[verifier::opaque]
    pub open spec fn load_plaza_playlists(self) -> AppView {
        self.with_pages(self.state.pages.begin_entries(Tab::Playlists)).set_busy(
            Some("载入歌单广场"@),
        ).emit(
            Effect::PlazaPlaylists {
                source: self.source(),
                category: self.state.pages.category,
                page_size: self.state.config.page_size,
            },
        )
    }

    #[verifier::opaque]
    pub open spec fn load_artists(self) -> AppView {
        self.with_pages(self.state.pages.begin_entries(Tab::Artists)).set_busy(
            Some("载入歌手列表"@),
        ).emit(
            Effect::ArtistList {
                source: self.source(),
                kind: self.state.pages.artist_kind,
                size: ARTIST_LIST_SIZE,
            },
        )
    }

    /// Filters the artists by the next region; the old ones are dropped.
    #[verifier::opaque]
    pub open spec fn cycle_artist_filter(self) -> AppView {
        if self.state.screen.tab != Tab::Artists {
            self.info("按 f 可筛选歌手地区，请先切到「歌手」标签页"@)
        } else {
            let region = next_region(self.state.pages.artist_kind);
            let pages = PagesView { artist_kind: region.0, ..self.state.pages };
            let emptied = pages.with_artists(pages.artists.list.replace(Seq::empty()));
            self.with_pages(
                emptied.set_songs(Tab::Artists, Seq::empty(), Seq::empty(), false),
            ).info("歌手地区筛选："@ + region.1).load_artists()
        }
    }

    #[verifier::opaque]
    pub open spec fn load_ranks(self) -> AppView {
        self.with_pages(self.state.pages.begin_entries(Tab::Ranks)).set_busy(
            Some("载入排行榜"@),
        ).emit(Effect::RankBoards { source: self.source() })
    }

    #[verifier::opaque]
    pub open spec fn load_cloud_playlists(self) -> AppView {
        if !self.state.account.logged_in {
            self.warn(login_hint(self.source()))
        } else {
            self.with_pages(self.state.pages.begin_entries(Tab::Cloud)).set_busy(
                Some("载入云端歌单"@),
            ).emit(Effect::UserPlaylists { source: self.source() })
        }
    }

    #[verifier::opaque]
    pub open spec fn load_playlist_songs(
        self,
        playlist: Playlist,
        panel: PlaylistSource,
        fresh: bool,
    ) -> AppView {
        let opened = match panel {
            PlaylistSource::Plaza => PagesView { open_plaza: Some(playlist), ..self.state.pages },
            PlaylistSource::Cloud => PagesView { open_cloud: Some(playlist), ..self.state.pages },
        };
        self.with_pages(opened.begin_songs(panel_tab(panel), playlist.name@)).set_busy(
            Some("载入歌单《"@ + playlist.name@ + "》"@),
        ).emit(
            Effect::PlaylistTracks {
                source: self.source(),
                playlist,
                panel,
                page: first_page(playlist.song_count, self.state.screen.sort_descending),
                fresh,
            },
        )
    }

    #[verifier::opaque]
    pub open spec fn open_selected_playlist(self) -> AppView {
        match self.state.pages.playlists.list.chosen() {
            Some(playlist) => self.load_playlist_songs(playlist, PlaylistSource::Plaza, false),
            None => self.warn("请先选择一个歌单"@),
        }
    }

    /// Opens a cloud playlist; one that can be changed becomes the one that is.
    #[verifier::opaque]
    pub open spec fn open_selected_cloud_playlist(self) -> AppView {
        match self.state.pages.cloud.list.chosen() {
            Some(playlist) => self.with_pages(
                PagesView {
                    sync_target: if playlist.writable() {
                        Some(playlist)
                    } else {
                        self.state.pages.sync_target
                    },
                    ..self.state.pages
                },
            ).load_playlist_songs(playlist, PlaylistSource::Cloud, false),
            None => self.warn("请先选择一个歌单"@),
        }
    }

    #[verifier::opaque]
    pub open spec fn open_selected_artist(self) -> AppView {
        match self.state.pages.artists.list.chosen() {
            Some(artist) => self.with_pages(
                self.state.pages.begin_songs(Tab::Artists, artist.name@),
            ).set_busy(Some("载入歌手 "@ + artist.name@)).emit(
                Effect::ArtistTracks { source: self.source(), artist },
            ),
            None => self.warn("请先选择一位歌手"@),
        }
    }

    #[verifier::opaque]
    pub open spec fn open_selected_rank(self) -> AppView {
        match self.state.pages.ranks.list.chosen() {
            Some(board) => self.with_pages(
                self.state.pages.begin_songs(Tab::Ranks, board.name@),
            ).set_busy(Some("载入榜单 "@ + board.name@)).emit(
                Effect::RankTracks { source: self.source(), board },
            ),
            None => self.warn("请先选择一个榜单"@),
        }
    }

    /// Loads an opened playlist anew, where one is open.
    #[verifier::opaque]
    pub open spec fn reload_opened(
        self,
        opened: Option<Playlist>,
        panel: PlaylistSource,
    ) -> AppView {
        match opened {
            Some(playlist) => self.load_playlist_songs(playlist, panel, true),
            None => self,
        }
    }

    /// Loads what the page shows anew.
    #[verifier::opaque]
    pub open spec fn reload_current_tab(self) -> AppView {
        match self.state.screen.tab {
            Tab::Search => if self.state.pages.search.submitted.len() == 0 {
                self.info("还没有搜索过，按 / 开始搜索"@)
            } else {
                self.run_search()
            },
            Tab::Playlists => self.load_plaza_playlists().reload_opened(
                self.state.pages.open_plaza,
                PlaylistSource::Plaza,
            ),
            Tab::Artists => self.load_artists(),
            Tab::Ranks => self.load_ranks(),
            Tab::Cloud => self.load_cloud_playlists().reload_opened(
                self.state.pages.open_cloud,
                PlaylistSource::Cloud,
            ),
            Tab::Visualizer => self.info("可视化页面没有需要刷新的数据"@),
            Tab::Sources => self.info("音源状态会在切换与启动时自动探测"@),
            Tab::Home | Tab::Queue => self.info(
                "这一页展示的是本地状态，没有需要刷新的列表"@,
            ),
            Tab::Settings => self.info("设置改完即生效并已保存，无需刷新"@),
        }
    }

    /// Loads the entries of a page that is shown for the first time.
    #[verifier::opaque]
    pub open spec fn ensure_tab_loaded(self, tab: Tab) -> AppView {
        if !self.state.pages.wants_entries(tab) {
            self
        } else {
            match tab {
                Tab::Playlists => self.load_plaza_playlists(),
                Tab::Artists => self.load_artists(),
                Tab::Ranks => self.load_ranks(),
                Tab::Cloud => self.load_cloud_playlists(),
                _ => self,
            }
        }
    }

    #[verifier::opaque]
    pub open spec fn show_page(self, tab: Tab, focus: Focus) -> AppView {
        self.with_screen(Screen { tab, focus, ..self.state.screen }).with_pages(
            self.state.pages.editing(false),
        )
    }

    /// Shows a page; the keys go to it, or stay where they are.
    #[verifier::opaque]
    pub open spec fn switch_tab_inner(self, tab: Tab, move_focus: bool) -> AppView {
        self.show_page(
            tab,
            if move_focus {
                Focus::Primary
            } else {
                self.state.screen.focus
            },
        ).ensure_tab_loaded(tab)
    }

    #[verifier::opaque]
    pub open spec fn switch_tab(self, tab: Tab) -> AppView {
        self.switch_tab_inner(tab, true)
    }

    /// Starts with a search.
    #[verifier::opaque]
    pub open spec fn startup_search(self, keyword: Seq<char>) -> AppView {
        let shown = self.switch_tab(Tab::Search);
        shown.with_pages(shown.state.pages.with_input(keyword)).run_search()
    }
}

impl App {
    /// Searches for what stands in the input line.
    pub fn run_search(&mut self)
        ensures
            final(self)@ == old(self)@.run_search(),
    {
        proof {
            reveal(AppView::run_search);
        }
        let keyword = trim(self.state.pages.input_text().as_str());
        if keyword.as_str().is_empty() {
            self.warn("请输入搜索关键词".to_owned());
            return;
        }
        let title = cat3("搜索「", keyword.as_str(), "」");
        let busy = cat2("搜索 ", keyword.as_str());
        let source = conf::active(&self.state.config);
        let page_size: u32 = conf::page_size(&self.state.config);
        self.state.pages.submit(keyword.clone(), title);
        self.set_busy(Some(busy));
        self.emit(Effect::Search { source, keyword, page: 1, page_size, append: false });
    }

    /// Asks for the next page of the results.
    pub fn load_more_search(&mut self)
        ensures
            final(self)@ == old(self)@.load_more_search(),
    {
        proof {
            reveal(AppView::load_more_search);
        }
        let keyword = self.state.pages.submitted_text();
        if keyword.as_str().is_empty() {
            self.warn("请先搜索".to_owned());
            return;
        }
        if self.state.pages.result_count() == 0 {
            self.warn("当前没有搜索结果".to_owned());
            return;
        }
        let page: u32 = self.state.pages.page();
        if page >= SEARCH_MAX_PAGES {
            self.info("已经到最后一页了".to_owned());
            return;
        }
        let page: u32 = page + 1;
        let number = dec_text(page as u64);
        let busy = cat5("加载「", keyword.as_str(), "」第 ", number.as_str(), " 页");
        let source = conf::active(&self.state.config);
        let page_size: u32 = conf::page_size(&self.state.config);
        self.set_busy(Some(busy));
        self.state.pages.set_page(page);
        self.emit(Effect::Search { source, keyword, page, page_size, append: true });
    }

    pub fn load_plaza_playlists(&mut self)
        ensures
            final(self)@ == old(self)@.load_plaza_playlists(),
    {
        proof {
            reveal(AppView::load_plaza_playlists);
        }
        let source = conf::active(&self.state.config);
        let category: i64 = self.state.pages.category();
        let page_size: u32 = conf::page_size(&self.state.config);
        self.state.pages.begin_entries(Tab::Playlists);
        self.set_busy(Some("载入歌单广场".to_owned()));
        self.emit(Effect::PlazaPlaylists { source, category, page_size });
    }

    pub fn load_artists(&mut self)
        ensures
            final(self)@ == old(self)@.load_artists(),
    {
        proof {
            reveal(AppView::load_artists);
        }
        let source = conf::active(&self.state.config);
        let kind: i64 = self.state.pages.artist_kind();
        self.state.pages.begin_entries(Tab::Artists);
        self.set_busy(Some("载入歌手列表".to_owned()));
        self.emit(Effect::ArtistList { source, kind, size: ARTIST_LIST_SIZE });
    }

    /// Filters the artists by the next region.
    pub fn cycle_artist_filter(&mut self)
        ensures
            final(self)@ == old(self)@.cycle_artist_filter(),
    {
        proof {
            reveal(AppView::cycle_artist_filter);
        }
        if self.state.screen.tab() != Tab::Artists {
            self.info("按 f 可筛选歌手地区，请先切到「歌手」标签页".to_owned());
            return;
        }
        let (kind, label) = following_region(self.state.pages.artist_kind());
        self.state.pages.set_artist_kind(kind);
        let none: Vec<Artist> = Vec::new();
        let no_songs: Vec<Song> = Vec::new();
        let no_title = String::new();
        assert(none@ =~= Seq::empty());
        assert(no_songs@ =~= Seq::empty());
        assert(no_title@ =~= Seq::empty());
        self.state.pages.replace_artists(none);
        self.state.pages.set_songs(Tab::Artists, no_title, no_songs, false);
        self.info(cat2("歌手地区筛选：", label));
        self.load_artists();
    }

    pub fn load_ranks(&mut self)
        ensures
            final(self)@ == old(self)@.load_ranks(),
    {
        proof {
            reveal(AppView::load_ranks);
        }
        let source = conf::active(&self.state.config);
        self.state.pages.begin_entries(Tab::Ranks);
        self.set_busy(Some("载入排行榜".to_owned()));
        self.emit(Effect::RankBoards { source });
    }

    /// Loads the account's own playlists, for which one must be logged in.
    pub fn load_cloud_playlists(&mut self)
        ensures
            final(self)@ == old(self)@.load_cloud_playlists(),
    {
        proof {
            reveal(AppView::load_cloud_playlists);
        }
        let source = conf::active(&self.state.config);
        if !self.state.account.logged_in() {
            self.warn(not_logged_in_hint(source));
            return;
        }
        self.state.pages.begin_entries(Tab::Cloud);
        self.set_busy(Some("载入云端歌单".to_owned()));
        self.emit(Effect::UserPlaylists { source });
    }

    /// Opens a playlist: its songs go to the panel that asked. `fresh` passes
    /// over what the service has kept of it.
    pub fn load_playlist_songs(&mut self, playlist: Playlist, panel: PlaylistSource, fresh: bool)
        ensures
            final(self)@ == old(self)@.load_playlist_songs(playlist, panel, fresh),
    {
        proof {
            reveal(AppView::load_playlist_songs);
        }
        let title = playlist.name.clone();
        match panel {
            PlaylistSource::Plaza => {
                self.state.pages.set_open_plaza(Some(playlist.clone()));
                self.state.pages.begin_songs(Tab::Playlists, title);
            },
            PlaylistSource::Cloud => {
                self.state.pages.set_open_cloud(Some(playlist.clone()));
                self.state.pages.begin_songs(Tab::Cloud, title);
            },
        }
        let busy = cat3("载入歌单《", playlist.name.as_str(), "》");
        self.set_busy(Some(busy));
        let source = conf::active(&self.state.config);
        let page: u32 = first_screen_page(
            playlist.song_count,
            self.state.screen.sort_descending(),
        );
        self.emit(Effect::PlaylistTracks { source, playlist, panel, page, fresh });
    }

    pub fn open_selected_playlist(&mut self)
        ensures
            final(self)@ == old(self)@.open_selected_playlist(),
    {
        proof {
            reveal(AppView::open_selected_playlist);
        }
        match self.state.pages.selected_playlists() {
            Some(playlist) => {
                self.load_playlist_songs(playlist, PlaylistSource::Plaza, false);
            },
            None => {
                self.warn("请先选择一个歌单".to_owned());
            },
        }
    }

    /// Opens a cloud playlist; one that can be changed becomes the one that is.
    pub fn open_selected_cloud_playlist(&mut self)
        ensures
            final(self)@ == old(self)@.open_selected_cloud_playlist(),
    {
        proof {
            reveal(AppView::open_selected_cloud_playlist);
        }
        match self.state.pages.selected_cloud() {
            Some(playlist) => {
                let target = if playlist.is_writable() {
                    Some(playlist.clone())
                } else {
                    self.state.pages.sync_target()
                };
                self.state.pages.set_sync_target(target);
                self.load_playlist_songs(playlist, PlaylistSource::Cloud, false);
            },
            None => {
                self.warn("请先选择一个歌单".to_owned());
            },
        }
    }

    pub fn open_selected_artist(&mut self)
        ensures
            final(self)@ == old(self)@.open_selected_artist(),
    {
        proof {
            reveal(AppView::open_selected_artist);
        }
        match self.state.pages.selected_artists() {
            Some(artist) => {
                let source = conf::active(&self.state.config);
                let busy = cat2("载入歌手 ", artist.name.as_str());
                self.state.pages.begin_songs(Tab::Artists, artist.name.clone());
                self.set_busy(Some(busy));
                self.emit(Effect::ArtistTracks { source, artist });
            },
            None => {
                self.warn("请先选择一位歌手".to_owned());
            },
        }
    }

    pub fn open_selected_rank(&mut self)
        ensures
            final(self)@ == old(self)@.open_selected_rank(),
    {
        proof {
            reveal(AppView::open_selected_rank);
        }
        match self.state.pages.selected_ranks() {
            Some(board) => {
                let source = conf::active(&self.state.config);
                let busy = cat2("载入榜单 ", board.name.as_str());
                self.state.pages.begin_songs(Tab::Ranks, board.name.clone());
                self.set_busy(Some(busy));
                self.emit(Effect::RankTracks { source, board });
            },
            None => {
                self.warn("请先选择一个榜单".to_owned());
            },
        }
    }

    fn reload_opened(&mut self, opened: Option<Playlist>, panel: PlaylistSource)
        ensures
            final(self)@ == old(self)@.reload_opened(opened, panel),
    {
        proof {
            reveal(AppView::reload_opened);
        }
        match opened {
            Some(playlist) => {
                self.load_playlist_songs(playlist, panel, true);
            },
            None => {},
        }
    }

    /// Loads what the page shows anew.
    pub fn reload_current_tab(&mut self)
        ensures
            final(self)@ == old(self)@.reload_current_tab(),
    {
        proof {
            reveal(AppView::reload_current_tab);
        }
        match self.state.screen.tab() {
            Tab::Search => {
                if self.state.pages.submitted_text().as_str().is_empty() {
                    self.info("还没有搜索过，按 / 开始搜索".to_owned());
                } else {
                    self.run_search();
                }
            },
            Tab::Playlists => {
                let opened = self.state.pages.open_plaza();
                self.load_plaza_playlists();
                self.reload_opened(opened, PlaylistSource::Plaza);
            },
            Tab::Artists => {
                self.load_artists();
            },
            Tab::Ranks => {
                self.load_ranks();
            },
            Tab::Cloud => {
                let opened = self.state.pages.open_cloud();
                self.load_cloud_playlists();
                self.reload_opened(opened, PlaylistSource::Cloud);
            },
            Tab::Visualizer => {
                self.info("可视化页面没有需要刷新的数据".to_owned());
            },
            Tab::Sources => {
                self.info("音源状态会在切换与启动时自动探测".to_owned());
            },
            Tab::Home | Tab::Queue => {
                self.info("这一页展示的是本地状态，没有需要刷新的列表".to_owned());
            },
            Tab::Settings => {
                self.info("设置改完即生效并已保存，无需刷新".to_owned());
            },
        }
    }

    /// Loads the entries of a page that is shown for the first time.
    pub fn ensure_tab_loaded(&mut self, tab: Tab)
        ensures
            final(self)@ == old(self)@.ensure_tab_loaded(tab),
    {
        proof {
            reveal(AppView::ensure_tab_loaded);
        }
        if !self.state.pages.wants_entries(tab) {
            return;
        }
        match tab {
            Tab::Playlists => {
                self.load_plaza_playlists();
            },
            Tab::Artists => {
                self.load_artists();
            },
            Tab::Ranks => {
                self.load_ranks();
            },
            Tab::Cloud => {
                self.load_cloud_playlists();
            },
            _ => {},
        }
    }

    fn show_page(&mut self, tab: Tab, focus: Focus)
        ensures
            final(self)@ == old(self)@.show_page(tab, focus),
    {
        proof {
            reveal(AppView::show_page);
        }
        self.state.screen.set_tab(tab);
        self.state.screen.set_focus(focus);
        self.state.pages.set_editing(false);
    }

    pub fn switch_tab_inner(&mut self, tab: Tab, move_focus: bool)
        ensures
            final(self)@ == old(self)@.switch_tab_inner(tab, move_focus),
    {
        proof {
            reveal(AppView::switch_tab_inner);
        }
        let focus = if move_focus {
            Focus::Primary
        } else {
            self.state.screen.focus()
        };
        self.show_page(tab, focus);
        self.ensure_tab_loaded(tab);
    }

    /// Shows a page.
    pub fn switch_tab(&mut self, tab: Tab)
        ensures
            final(self)@ == old(self)@.switch_tab(tab),
    {
        proof {
            reveal(AppView::switch_tab);
        }
        self.switch_tab_inner(tab, true);
    }

    /// Starts with a search.
    pub fn startup_search(&mut self, keyword: &str)
        ensures
            final(self)@ == old(self)@.startup_search(keyword@),
    {
        proof {
            reveal(AppView::startup_search);
        }
        self.switch_tab(Tab::Search);
        self.state.pages.set_input(keyword);
        self.run_search();
    }
}

/// The page that is shown first is the first one, unless the list is turned round: then it is
/// the last one, of thirty songs each.
pub proof fn pages_hold_thirty_songs(song_count: u64, descending: bool)
    ensures
        !descending ==> first_page(song_count, descending) == 1,
        song_count <= 30 ==> first_page(song_count, descending) == 1,
        descending && 30 < song_count <= 60 ==> first_page(song_count, descending) == 2,
        descending && 60 < song_count <= u32::MAX ==> first_page(song_count, descending)
            == first_page((song_count - 30) as u64, descending) + 1,
{
}

} // verus!
