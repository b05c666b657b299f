//! The pages with lists: search, playlists, artists, charts and the cloud.

use vstd::prelude::*;
use crate::app::nav::Tab;
use crate::app::panes::{Edit, EntryList, SongList, TextInput};
use crate::model::{Artist, Playlist, RankBoard, Song};
use crate::text::{cat5, dec, dec_text};

verus! {

/// The search page.
#[verifier::ext_equal]
#[derive(Debug)]
pub struct SearchPane<S = String, C = Vec<char>, L = Vec<Song>> {
    pub input: TextInput<C>,
    pub editing: bool,
    /// What was searched for last.
    pub submitted: S,
    pub page: u32,
    pub results: SongList<S, L>,
}

impl View for SearchPane<String, Vec<char>, Vec<Song>> {
    type V = SearchPane<Seq<char>, Seq<char>, Seq<Song>>;

    open spec fn view(&self) -> SearchPane<Seq<char>, Seq<char>, Seq<Song>> {
        SearchPane {
            input: self.input@,
            editing: self.editing,
            submitted: self.submitted@,
            page: self.page,
            results: self.results@,
        }
    }
}

/// A page with entries on one side and the songs of one of them on the other.
#[verifier::ext_equal]
#[derive(Debug)]
pub struct Browser<E, S = String, L = Vec<Song>> {
    pub list: EntryList<E, S>,
    pub songs: SongList<S, L>,
}

impl<T> Browser<Seq<T>, Seq<char>, Seq<Song>> {
    pub open spec fn empty() -> Self {
        Browser { list: EntryList::empty(), songs: SongList::<Seq<char>, Seq<Song>>::empty() }
    }
}

impl<T> Browser<Vec<T>, String, Vec<Song>> {
    pub fn new() -> (r: Self)
        ensures
            r@ == Browser::<Seq<T>, Seq<char>, Seq<Song>>::empty(),
    {
        Browser { list: EntryList::new(), songs: SongList::new() }
    }
}

impl<T> View for Browser<Vec<T>, String, Vec<Song>> {
    type V = Browser<Seq<T>, Seq<char>, Seq<Song>>;

    open spec fn view(&self) -> Browser<Seq<T>, Seq<char>, Seq<Song>> {
        Browser { list: self.list@, songs: self.songs@ }
    }
}

/// The pages with lists.
#[derive(Debug)]
pub struct Pages {
    pub search: SearchPane<String, Vec<char>, Vec<Song>>,
    pub playlists: Browser<Vec<Playlist>, String, Vec<Song>>,
    /// The public playlist whose songs are shown.
    pub open_plaza: Option<Playlist>,
    pub category: i64,
    pub artists: Browser<Vec<Artist>, String, Vec<Song>>,
    pub artist_kind: i64,
    pub ranks: Browser<Vec<RankBoard>, String, Vec<Song>>,
    pub cloud: Browser<Vec<Playlist>, String, Vec<Song>>,
    /// The cloud playlist whose songs are shown.
    pub open_cloud: Option<Playlist>,
    /// The cloud playlist that is changed.
    pub sync_target: Option<Playlist>,
}

/// The view of the pages.
pub struct PagesView {
    pub search: SearchPane<Seq<char>, Seq<char>, Seq<Song>>,
    pub playlists: Browser<Seq<Playlist>, Seq<char>, Seq<Song>>,
    pub open_plaza: Option<Playlist>,
    pub category: i64,
    pub artists: Browser<Seq<Artist>, Seq<char>, Seq<Song>>,
    pub artist_kind: i64,
    pub ranks: Browser<Seq<RankBoard>, Seq<char>, Seq<Song>>,
    pub cloud: Browser<Seq<Playlist>, Seq<char>, Seq<Song>>,
    pub open_cloud: Option<Playlist>,
    pub sync_target: Option<Playlist>,
}

impl View for Pages {
    type V = PagesView;

    open spec fn view(&self) -> PagesView {
        PagesView {
            search: self.search@,
            playlists: self.playlists@,
            open_plaza: self.open_plaza,
            category: self.category,
            artists: self.artists@,
            artist_kind: self.artist_kind,
            ranks: self.ranks@,
            cloud: self.cloud@,
            open_cloud: self.open_cloud,
            sync_target: self.sync_target,
        }
    }
}

/// The view of the pages, folded: what is said of the whole program need not look
/// inside.
#[verifier::opaque]
pub open spec fn pages_view(pages: Pages) -> PagesView {
    pages@
}

impl PagesView {
    /// The pages before anything was loaded.
    pub open spec fn empty() -> PagesView {
        PagesView {
            search: SearchPane {
                input: TextInput::<Seq<char>>::empty(),
                editing: false,
                submitted: Seq::empty(),
                page: 1,
                results: SongList::<Seq<char>, Seq<Song>>::empty(),
            },
            playlists: Browser::<Seq<Playlist>, Seq<char>, Seq<Song>>::empty(),
            open_plaza: None,
            category: 0,
            artists: Browser::<Seq<Artist>, Seq<char>, Seq<Song>>::empty(),
            artist_kind: 0,
            ranks: Browser::<Seq<RankBoard>, Seq<char>, Seq<Song>>::empty(),
            cloud: Browser::<Seq<Playlist>, Seq<char>, Seq<Song>>::empty(),
            open_cloud: None,
            sync_target: None,
        }
    }

    pub open spec fn with_search(
        self,
        search: SearchPane<Seq<char>, Seq<char>, Seq<Song>>,
    ) -> PagesView {
        PagesView { search, ..self }
    }

    pub open spec fn editing(self, editing: bool) -> PagesView {
        self.with_search(SearchPane { editing, ..self.search })
    }

    #[verifier::opaque]
    pub open spec fn edit(self, edit: Edit) -> PagesView {
        self.with_search(SearchPane { input: self.search.input.edit(edit), ..self.search })
    }

    #[verifier::opaque]
    pub open spec fn with_input(self, text: Seq<char>) -> PagesView {
        self.with_search(SearchPane { input: self.search.input.set(text), ..self.search })
    }

    /// A search for `keyword` has begun.
    #[verifier::opaque]
    pub open spec fn submitted(self, keyword: Seq<char>, title: Seq<char>) -> PagesView {
        self.with_search(
            SearchPane {
                submitted: keyword,
                editing: false,
                results: self.search.results.begin(title),
                ..self.search
            },
        )
    }

    pub open spec fn at_page(self, page: u32) -> PagesView {
        self.with_search(SearchPane { page, ..self.search })
    }

    /// With other songs on a page, where it has songs.
    #[verifier::opaque]
    pub open spec fn put_songs(
        self,
        tab: Tab,
        songs: SongList<Seq<char>, Seq<Song>>,
    ) -> PagesView {
        match tab {
            Tab::Search => self.with_search(SearchPane { results: songs, ..self.search }),
            Tab::Playlists => PagesView { playlists: Browser { songs, ..self.playlists }, ..self },
            Tab::Artists => PagesView { artists: Browser { songs, ..self.artists }, ..self },
            Tab::Ranks => PagesView { ranks: Browser { songs, ..self.ranks }, ..self },
            Tab::Cloud => PagesView { cloud: Browser { songs, ..self.cloud }, ..self },
            _ => self,
        }
    }

    #[verifier::opaque]
    pub open spec fn set_songs(
        self,
        tab: Tab,
        title: Seq<char>,
        songs: Seq<Song>,
        descending: bool,
    ) -> PagesView {
        match self.songs_of(tab) {
            Some(list) => self.put_songs(tab, list.set_songs_sorted(title, songs, descending)),
            None => self,
        }
    }

    #[verifier::opaque]
    pub open spec fn begin_songs(self, tab: Tab, title: Seq<char>) -> PagesView {
        match self.songs_of(tab) {
            Some(list) => self.put_songs(tab, list.begin(title)),
            None => self,
        }
    }

    #[verifier::opaque]
    pub open spec fn fail_songs(self, tab: Tab, reason: Seq<char>) -> PagesView {
        match self.songs_of(tab) {
            Some(list) => self.put_songs(tab, list.fail(reason)),
            None => self,
        }
    }

    #[verifier::opaque]
    pub open spec fn move_songs(self, tab: Tab, delta: int) -> PagesView {
        match self.songs_of(tab) {
            Some(list) => self.put_songs(tab, list.move_by(delta)),
            None => self,
        }
    }

    #[verifier::opaque]
    pub open spec fn songs_edge(self, tab: Tab, first: bool) -> PagesView {
        match self.songs_of(tab) {
            Some(list) => self.put_songs(tab, list.to_edge(first)),
            None => self,
        }
    }

    #[verifier::opaque]
    pub open spec fn select_song(self, tab: Tab, index: usize) -> PagesView {
        match self.songs_of(tab) {
            Some(list) => self.put_songs(tab, list.select(index)),
            None => self,
        }
    }

    /// Every list of songs turned round.
    #[verifier::opaque]
    pub open spec fn toggle_sort(self) -> PagesView {
        PagesView {
            search: SearchPane { results: self.search.results.toggle_sort(), ..self.search },
            playlists: Browser { songs: self.playlists.songs.toggle_sort(), ..self.playlists },
            artists: Browser { songs: self.artists.songs.toggle_sort(), ..self.artists },
            ranks: Browser { songs: self.ranks.songs.toggle_sort(), ..self.ranks },
            cloud: Browser { songs: self.cloud.songs.toggle_sort(), ..self.cloud },
            ..self
        }
    }

    pub open spec fn with_playlists(
        self,
        list: EntryList<Seq<Playlist>, Seq<char>>,
    ) -> PagesView {
        PagesView { playlists: Browser { list, ..self.playlists }, ..self }
    }

    pub open spec fn with_artists(self, list: EntryList<Seq<Artist>, Seq<char>>) -> PagesView {
        PagesView { artists: Browser { list, ..self.artists }, ..self }
    }

    pub open spec fn with_ranks(self, list: EntryList<Seq<RankBoard>, Seq<char>>) -> PagesView {
        PagesView { ranks: Browser { list, ..self.ranks }, ..self }
    }

    pub open spec fn with_cloud(self, list: EntryList<Seq<Playlist>, Seq<char>>) -> PagesView {
        PagesView { cloud: Browser { list, ..self.cloud }, ..self }
    }

    /// The entries of a page are being loaded.
    #[verifier::opaque]
    pub open spec fn begin_entries(self, tab: Tab) -> PagesView {
        match tab {
            Tab::Playlists => self.with_playlists(self.playlists.list.begin()),
            Tab::Artists => self.with_artists(self.artists.list.begin()),
            Tab::Ranks => self.with_ranks(self.ranks.list.begin()),
            Tab::Cloud => self.with_cloud(self.cloud.list.begin()),
            _ => self,
        }
    }

    #[verifier::opaque]
    pub open spec fn fail_entries(self, tab: Tab, reason: Seq<char>) -> PagesView {
        match tab {
            Tab::Playlists => self.with_playlists(self.playlists.list.fail(reason)),
            Tab::Artists => self.with_artists(self.artists.list.fail(reason)),
            Tab::Ranks => self.with_ranks(self.ranks.list.fail(reason)),
            Tab::Cloud => self.with_cloud(self.cloud.list.fail(reason)),
            _ => self,
        }
    }

    #[verifier::opaque]
    pub open spec fn move_entries(self, tab: Tab, delta: int) -> PagesView {
        match tab {
            Tab::Playlists => self.with_playlists(self.playlists.list.move_by(delta)),
            Tab::Artists => self.with_artists(self.artists.list.move_by(delta)),
            Tab::Ranks => self.with_ranks(self.ranks.list.move_by(delta)),
            Tab::Cloud => self.with_cloud(self.cloud.list.move_by(delta)),
            _ => self,
        }
    }

    #[verifier::opaque]
    pub open spec fn entries_edge(self, tab: Tab, first: bool) -> PagesView {
        match tab {
            Tab::Playlists => self.with_playlists(self.playlists.list.to_edge(first)),
            Tab::Artists => self.with_artists(self.artists.list.to_edge(first)),
            Tab::Ranks => self.with_ranks(self.ranks.list.to_edge(first)),
            Tab::Cloud => self.with_cloud(self.cloud.list.to_edge(first)),
            _ => self,
        }
    }

    #[verifier::opaque]
    pub open spec fn select_entry(self, tab: Tab, index: usize) -> PagesView {
        match tab {
            Tab::Playlists => self.with_playlists(self.playlists.list.select(index)),
            Tab::Artists => self.with_artists(self.artists.list.select(index)),
            Tab::Ranks => self.with_ranks(self.ranks.list.select(index)),
            Tab::Cloud => self.with_cloud(self.cloud.list.select(index)),
            _ => self,
        }
    }

    /// Whether the entries of a page are missing and not on their way.
    #[verifier::opaque]
    pub open spec fn wants_entries(self, tab: Tab) -> bool {
        match tab {
            Tab::Playlists => self.playlists.list.wants_loading(),
            Tab::Artists => self.artists.list.wants_loading(),
            Tab::Ranks => self.ranks.list.wants_loading(),
            Tab::Cloud => self.cloud.list.wants_loading(),
            _ => false,
        }
    }

    /// The list of songs of a page, where it has one.
    #[verifier::opaque]
    pub open spec fn songs_of(self, tab: Tab) -> Option<SongList<Seq<char>, Seq<Song>>> {
        match tab {
            Tab::Search => Some(self.search.results),
            Tab::Playlists => Some(self.playlists.songs),
            Tab::Artists => Some(self.artists.songs),
            Tab::Ranks => Some(self.ranks.songs),
            Tab::Cloud => Some(self.cloud.songs),
            _ => None,
        }
    }
}

impl Pages {
    pub fn new() -> (r: Self)
        ensures
            pages_view(r) == PagesView::empty(),
    {
        proof {
            reveal(pages_view);
        }
        Pages {
            search: SearchPane {
                input: TextInput::new(),
                editing: false,
                submitted: String::new(),
                page: 1,
                results: SongList::new(),
            },
            playlists: Browser::new(),
            open_plaza: None,
            category: 0,
            artists: Browser::new(),
            artist_kind: 0,
            ranks: Browser::new(),
            cloud: Browser::new(),
            open_cloud: None,
            sync_target: None,
        }
    }

    /// The list of songs of a page, where it has one.
    pub fn songs_of(&self, tab: Tab) -> (r: Option<&SongList<String, Vec<Song>>>)
        ensures
            match r {
                Some(list) => pages_view(*self).songs_of(tab) == Some(list@),
                None => pages_view(*self).songs_of(tab) is None,
            },
    {
        proof {
            reveal(pages_view);
            reveal(PagesView::songs_of);
        }
        match tab {
            Tab::Search => Some(&self.search.results),
            Tab::Playlists => Some(&self.playlists.songs),
            Tab::Artists => Some(&self.artists.songs),
            Tab::Ranks => Some(&self.ranks.songs),
            Tab::Cloud => Some(&self.cloud.songs),
            _ => None,
        }
    }

    pub fn is_editing(&self) -> (r: bool)
        ensures
            r == pages_view(*self).search.editing,
    {
        proof {
            reveal(pages_view);
        }
        self.search.editing
    }

    pub fn set_editing(&mut self, editing: bool)
        ensures
            pages_view(*final(self)) == pages_view(*old(self)).editing(editing),
    {
        proof {
            reveal(pages_view);
        }
        self.search.editing = editing;
    }

    pub fn edit_input(&mut self, edit: Edit)
        requires
            pages_view(*old(self)).search.input.chars.len() < usize::MAX,
        ensures
            pages_view(*final(self)) == pages_view(*old(self)).edit(edit),
    {
        proof {
            reveal(pages_view);
            reveal(PagesView::edit);
        }
        self.search.input.edit(edit);
    }

    pub fn set_input(&mut self, text: &str)
        ensures
            pages_view(*final(self)) == pages_view(*old(self)).with_input(text@),
    {
        proof {
            reveal(pages_view);
            reveal(PagesView::with_input);
        }
        self.search.input.set(text);
    }

    pub fn input_text(&self) -> (r: String)
        ensures
            r@ == pages_view(*self).search.input.chars,
    {
        proof {
            reveal(pages_view);
        }
        self.search.input.text()
    }

    pub fn input_is_empty(&self) -> (r: bool)
        ensures
            r == (pages_view(*self).search.input.chars.len() == 0),
    {
        proof {
            reveal(pages_view);
        }
        self.search.input.is_empty()
    }

    pub fn submit(&mut self, keyword: String, title: String)
        ensures
            pages_view(*final(self)) == pages_view(*old(self)).submitted(keyword@, title@),
    {
        proof {
            reveal(pages_view);
            reveal(PagesView::submitted);
        }
        self.search.submitted = keyword;
        self.search.editing = false;
        self.search.results.begin(title);
    }

    pub fn submitted_text(&self) -> (r: String)
        ensures
            r@ == pages_view(*self).search.submitted,
    {
        proof {
            reveal(pages_view);
        }
        self.search.submitted.clone()
    }

    pub fn page(&self) -> (r: u32)
        ensures
            r == pages_view(*self).search.page,
    {
        proof {
            reveal(pages_view);
        }
        self.search.page
    }

    pub fn set_page(&mut self, page: u32)
        ensures
            pages_view(*final(self)) == pages_view(*old(self)).at_page(page),
    {
        proof {
            reveal(pages_view);
        }
        self.search.page = page;
    }

    pub fn set_songs(&mut self, tab: Tab, title: String, songs: Vec<Song>, descending: bool)
        ensures
            pages_view(*final(self)) == pages_view(*old(self)).set_songs(
                tab,
                title@,
                songs@,
                descending,
            ),
    {
        proof {
            reveal(pages_view);
            reveal(PagesView::set_songs);
            reveal(PagesView::put_songs);
            reveal(PagesView::songs_of);
        }
        match tab {
            Tab::Search => {
                self.search.results.set_songs_sorted(title, songs, descending);
            },
            Tab::Playlists => {
                self.playlists.songs.set_songs_sorted(title, songs, descending);
            },
            Tab::Artists => {
                self.artists.songs.set_songs_sorted(title, songs, descending);
            },
            Tab::Ranks => {
                self.ranks.songs.set_songs_sorted(title, songs, descending);
            },
            Tab::Cloud => {
                self.cloud.songs.set_songs_sorted(title, songs, descending);
            },
            _ => {},
        }
    }

    pub fn begin_songs(&mut self, tab: Tab, title: String)
        ensures
            pages_view(*final(self)) == pages_view(*old(self)).begin_songs(tab, title@),
    {
        proof {
            reveal(pages_view);
            reveal(PagesView::begin_songs);
            reveal(PagesView::put_songs);
            reveal(PagesView::songs_of);
        }
        match tab {
            Tab::Search => {
                self.search.results.begin(title);
            },
            Tab::Playlists => {
                self.playlists.songs.begin(title);
            },
            Tab::Artists => {
                self.artists.songs.begin(title);
            },
            Tab::Ranks => {
                self.ranks.songs.begin(title);
            },
            Tab::Cloud => {
                self.cloud.songs.begin(title);
            },
            _ => {},
        }
    }

    pub fn fail_songs(&mut self, tab: Tab, reason: String)
        ensures
            pages_view(*final(self)) == pages_view(*old(self)).fail_songs(tab, reason@),
    {
        proof {
            reveal(pages_view);
            reveal(PagesView::fail_songs);
            reveal(PagesView::put_songs);
            reveal(PagesView::songs_of);
        }
        match tab {
            Tab::Search => {
                self.search.results.fail(reason);
            },
            Tab::Playlists => {
                self.playlists.songs.fail(reason);
            },
            Tab::Artists => {
                self.artists.songs.fail(reason);
            },
            Tab::Ranks => {
                self.ranks.songs.fail(reason);
            },
            Tab::Cloud => {
                self.cloud.songs.fail(reason);
            },
            _ => {},
        }
    }

    pub fn move_songs(&mut self, tab: Tab, delta: isize)
        ensures
            pages_view(*final(self)) == pages_view(*old(self)).move_songs(tab, delta as int),
    {
        proof {
            reveal(pages_view);
            reveal(PagesView::move_songs);
            reveal(PagesView::put_songs);
            reveal(PagesView::songs_of);
        }
        match tab {
            Tab::Search => {
                self.search.results.move_by(delta);
            },
            Tab::Playlists => {
                self.playlists.songs.move_by(delta);
            },
            Tab::Artists => {
                self.artists.songs.move_by(delta);
            },
            Tab::Ranks => {
                self.ranks.songs.move_by(delta);
            },
            Tab::Cloud => {
                self.cloud.songs.move_by(delta);
            },
            _ => {},
        }
    }

    pub fn songs_edge(&mut self, tab: Tab, first: bool)
        ensures
            pages_view(*final(self)) == pages_view(*old(self)).songs_edge(tab, first),
    {
        proof {
            reveal(pages_view);
            reveal(PagesView::songs_edge);
            reveal(PagesView::put_songs);
            reveal(PagesView::songs_of);
        }
        match tab {
            Tab::Search => {
                self.search.results.to_edge(first);
            },
            Tab::Playlists => {
                self.playlists.songs.to_edge(first);
            },
            Tab::Artists => {
                self.artists.songs.to_edge(first);
            },
            Tab::Ranks => {
                self.ranks.songs.to_edge(first);
            },
            Tab::Cloud => {
                self.cloud.songs.to_edge(first);
            },
            _ => {},
        }
    }

    pub fn select_song(&mut self, tab: Tab, index: usize)
        ensures
            pages_view(*final(self)) == pages_view(*old(self)).select_song(tab, index),
    {
        proof {
            reveal(pages_view);
            reveal(PagesView::select_song);
            reveal(PagesView::put_songs);
            reveal(PagesView::songs_of);
        }
        match tab {
            Tab::Search => {
                self.search.results.select(index);
            },
            Tab::Playlists => {
                self.playlists.songs.select(index);
            },
            Tab::Artists => {
                self.artists.songs.select(index);
            },
            Tab::Ranks => {
                self.ranks.songs.select(index);
            },
            Tab::Cloud => {
                self.cloud.songs.select(index);
            },
            _ => {},
        }
    }

    pub fn toggle_sort(&mut self)
        ensures
            pages_view(*final(self)) == pages_view(*old(self)).toggle_sort(),
    {
        proof {
            reveal(pages_view);
            reveal(PagesView::toggle_sort);
        }
        self.search.results.toggle_sort();
        self.playlists.songs.toggle_sort();
        self.artists.songs.toggle_sort();
        self.ranks.songs.toggle_sort();
        self.cloud.songs.toggle_sort();
    }

    pub fn begin_entries(&mut self, tab: Tab)
        ensures
            pages_view(*final(self)) == pages_view(*old(self)).begin_entries(tab),
    {
        proof {
            reveal(pages_view);
            reveal(PagesView::begin_entries);
        }
        match tab {
            Tab::Playlists => {
                self.playlists.list.begin();
            },
            Tab::Artists => {
                self.artists.list.begin();
            },
            Tab::Ranks => {
                self.ranks.list.begin();
            },
            Tab::Cloud => {
                self.cloud.list.begin();
            },
            _ => {},
        }
    }

    pub fn fail_entries(&mut self, tab: Tab, reason: String)
        ensures
            pages_view(*final(self)) == pages_view(*old(self)).fail_entries(tab, reason@),
    {
        proof {
            reveal(pages_view);
            reveal(PagesView::fail_entries);
        }
        match tab {
            Tab::Playlists => {
                self.playlists.list.fail(reason);
            },
            Tab::Artists => {
                self.artists.list.fail(reason);
            },
            Tab::Ranks => {
                self.ranks.list.fail(reason);
            },
            Tab::Cloud => {
                self.cloud.list.fail(reason);
            },
            _ => {},
        }
    }

    pub fn move_entries(&mut self, tab: Tab, delta: isize)
        ensures
            pages_view(*final(self)) == pages_view(*old(self)).move_entries(tab, delta as int),
    {
        proof {
            reveal(pages_view);
            reveal(PagesView::move_entries);
        }
        match tab {
            Tab::Playlists => {
                self.playlists.list.move_by(delta);
            },
            Tab::Artists => {
                self.artists.list.move_by(delta);
            },
            Tab::Ranks => {
                self.ranks.list.move_by(delta);
            },
            Tab::Cloud => {
                self.cloud.list.move_by(delta);
            },
            _ => {},
        }
    }

    pub fn entries_edge(&mut self, tab: Tab, first: bool)
        ensures
            pages_view(*final(self)) == pages_view(*old(self)).entries_edge(tab, first),
    {
        proof {
            reveal(pages_view);
            reveal(PagesView::entries_edge);
        }
        match tab {
            Tab::Playlists => {
                self.playlists.list.to_edge(first);
            },
            Tab::Artists => {
                self.artists.list.to_edge(first);
            },
            Tab::Ranks => {
                self.ranks.list.to_edge(first);
            },
            Tab::Cloud => {
                self.cloud.list.to_edge(first);
            },
            _ => {},
        }
    }

    pub fn select_entry(&mut self, tab: Tab, index: usize)
        ensures
            pages_view(*final(self)) == pages_view(*old(self)).select_entry(tab, index),
    {
        proof {
            reveal(pages_view);
            reveal(PagesView::select_entry);
        }
        match tab {
            Tab::Playlists => {
                self.playlists.list.select(index);
            },
            Tab::Artists => {
                self.artists.list.select(index);
            },
            Tab::Ranks => {
                self.ranks.list.select(index);
            },
            Tab::Cloud => {
                self.cloud.list.select(index);
            },
            _ => {},
        }
    }

    pub fn wants_entries(&self, tab: Tab) -> (r: bool)
        ensures
            r == pages_view(*self).wants_entries(tab),
    {
        proof {
            reveal(pages_view);
            reveal(PagesView::wants_entries);
        }
        match tab {
            Tab::Playlists => self.playlists.list.is_wanting(),
            Tab::Artists => self.artists.list.is_wanting(),
            Tab::Ranks => self.ranks.list.is_wanting(),
            Tab::Cloud => self.cloud.list.is_wanting(),
            _ => false,
        }
    }

    pub fn replace_playlists(&mut self, items: Vec<Playlist>)
        ensures
            pages_view(*final(self)) == pages_view(*old(self)).with_playlists(
                pages_view(*old(self)).playlists.list.replace(items@),
            ),
    {
        proof {
            reveal(pages_view);
        }
        self.playlists.list.replace(items);
    }

    pub fn selected_playlists(&self) -> (r: Option<Playlist>)
        ensures
            r == pages_view(*self).playlists.list.chosen(),
    {
        proof {
            reveal(pages_view);
        }
        match self.playlists.list.selected() {
            Some(item) => Some(item.clone()),
            None => None,
        }
    }

    pub fn replace_artists(&mut self, items: Vec<Artist>)
        ensures
            pages_view(*final(self)) == pages_view(*old(self)).with_artists(
                pages_view(*old(self)).artists.list.replace(items@),
            ),
    {
        proof {
            reveal(pages_view);
        }
        self.artists.list.replace(items);
    }

    pub fn selected_artists(&self) -> (r: Option<Artist>)
        ensures
            r == pages_view(*self).artists.list.chosen(),
    {
        proof {
            reveal(pages_view);
        }
        match self.artists.list.selected() {
            Some(item) => Some(item.clone()),
            None => None,
        }
    }

    pub fn replace_ranks(&mut self, items: Vec<RankBoard>)
        ensures
            pages_view(*final(self)) == pages_view(*old(self)).with_ranks(
                pages_view(*old(self)).ranks.list.replace(items@),
            ),
    {
        proof {
            reveal(pages_view);
        }
        self.ranks.list.replace(items);
    }

    pub fn selected_ranks(&self) -> (r: Option<RankBoard>)
        ensures
            r == pages_view(*self).ranks.list.chosen(),
    {
        proof {
            reveal(pages_view);
        }
        match self.ranks.list.selected() {
            Some(item) => Some(item.clone()),
            None => None,
        }
    }

    pub fn replace_cloud(&mut self, items: Vec<Playlist>)
        ensures
            pages_view(*final(self)) == pages_view(*old(self)).with_cloud(
                pages_view(*old(self)).cloud.list.replace(items@),
            ),
    {
        proof {
            reveal(pages_view);
        }
        self.cloud.list.replace(items);
    }

    pub fn selected_cloud(&self) -> (r: Option<Playlist>)
        ensures
            r == pages_view(*self).cloud.list.chosen(),
    {
        proof {
            reveal(pages_view);
        }
        match self.cloud.list.selected() {
            Some(item) => Some(item.clone()),
            None => None,
        }
    }

    pub fn open_plaza(&self) -> (r: Option<Playlist>)
        ensures
            r == pages_view(*self).open_plaza,
    {
        proof {
            reveal(pages_view);
        }
        match &self.open_plaza {
            Some(playlist) => Some(playlist.clone()),
            None => None,
        }
    }

    pub fn set_open_plaza(&mut self, open_plaza: Option<Playlist>)
        ensures
            pages_view(*final(self)) == (PagesView { open_plaza, ..pages_view(*old(self)) }),
    {
        proof {
            reveal(pages_view);
        }
        self.open_plaza = open_plaza;
    }

    pub fn open_cloud(&self) -> (r: Option<Playlist>)
        ensures
            r == pages_view(*self).open_cloud,
    {
        proof {
            reveal(pages_view);
        }
        match &self.open_cloud {
            Some(playlist) => Some(playlist.clone()),
            None => None,
        }
    }

    pub fn set_open_cloud(&mut self, open_cloud: Option<Playlist>)
        ensures
            pages_view(*final(self)) == (PagesView { open_cloud, ..pages_view(*old(self)) }),
    {
        proof {
            reveal(pages_view);
        }
        self.open_cloud = open_cloud;
    }

    pub fn sync_target(&self) -> (r: Option<Playlist>)
        ensures
            r == pages_view(*self).sync_target,
    {
        proof {
            reveal(pages_view);
        }
        match &self.sync_target {
            Some(playlist) => Some(playlist.clone()),
            None => None,
        }
    }

    pub fn set_sync_target(&mut self, sync_target: Option<Playlist>)
        ensures
            pages_view(*final(self)) == (PagesView { sync_target, ..pages_view(*old(self)) }),
    {
        proof {
            reveal(pages_view);
        }
        self.sync_target = sync_target;
    }

    pub fn artist_kind(&self) -> (r: i64)
        ensures
            r == pages_view(*self).artist_kind,
    {
        proof {
            reveal(pages_view);
        }
        self.artist_kind
    }

    pub fn set_artist_kind(&mut self, artist_kind: i64)
        ensures
            pages_view(*final(self)) == (PagesView { artist_kind, ..pages_view(*old(self)) }),
    {
        proof {
            reveal(pages_view);
        }
        self.artist_kind = artist_kind;
    }

    pub fn category(&self) -> (r: i64)
        ensures
            r == pages_view(*self).category,
    {
        proof {
            reveal(pages_view);
        }
        self.category
    }

    pub fn result_count(&self) -> (r: usize)
        ensures
            r == pages_view(*self).search.results.songs.len(),
    {
        proof {
            reveal(pages_view);
        }
        self.search.results.songs.len()
    }

    /// Appends songs to the results of the search; gives how many there are then.
    pub fn append_results(&mut self, keyword: &str, songs: Vec<Song>) -> (total: usize)
        ensures
            total == pages_view(*old(self)).search.results.songs.len() + songs@.len(),
            pages_view(*final(self)) == pages_view(*old(self)).set_songs(
                Tab::Search,
                results_title(keyword@, total as nat),
                pages_view(*old(self)).search.results.songs + songs@,
                false,
            ),
    {
        proof {
            reveal(pages_view);
            reveal(PagesView::set_songs);
            reveal(PagesView::put_songs);
            reveal(PagesView::songs_of);
        }
        let mut songs = songs;
        let mut all: Vec<Song> = Vec::new();
        std::mem::swap(&mut all, &mut self.search.results.songs);
        all.append(&mut songs);
        let total: usize = all.len();
        self.search.results.set_songs_sorted(describe_results(keyword, total), all, false);
        total
    }
}

/// The heading over the results of a search.
pub open spec fn results_title(keyword: Seq<char>, count: nat) -> Seq<char> {
    "搜索「"@ + keyword + "」· "@ + dec(count) + " 首"@
}

/// The heading over the results of a search.
pub fn describe_results(keyword: &str, count: usize) -> (r: String)
    ensures
        r@ == results_title(keyword@, count as nat),
{
    cat5("搜索「", keyword, "」· ", dec_text(count as u64).as_str(), " 首")
}

} // verus!
