//! The parts of the screen: lists, input lines and panels.
//!
//! Types with texts or lists in them take the types of those as parameters, so
//! that the view of such a part is a part of the same shape.

use vstd::prelude::*;
use crate::config::{find_quality, quality, quality_place};
use crate::model::{LyricLine, Song};
use crate::text::{opt, same, text_of, chars_of};

verus! {

/// Whether something is being loaded, or why it could not be.
#[verifier::ext_equal]
#[derive(Debug, PartialEq, Eq)]
pub enum LoadState<S = String> {
    Idle,
    Loading,
    Failed(S),
}

impl View for LoadState<String> {
    type V = LoadState<Seq<char>>;

    open spec fn view(&self) -> LoadState<Seq<char>> {
        match self {
            LoadState::Idle => LoadState::Idle,
            LoadState::Loading => LoadState::Loading,
            LoadState::Failed(reason) => LoadState::Failed(reason@),
        }
    }
}

impl LoadState<String> {
    pub fn is_loading(&self) -> (r: bool)
        ensures
            r == (self@ == LoadState::<Seq<char>>::Loading),
    {
        match self {
            LoadState::Loading => true,
            _ => false,
        }
    }
}

/// The place that a move by `delta` lands on in a list of `len` items: it stops
/// at both ends.
pub open spec fn moved(cursor: Option<usize>, len: nat, delta: int) -> Option<usize> {
    if len == 0 {
        None
    } else {
        let from: int = match cursor {
            Some(i) => i as int,
            None => 0,
        };
        let to = from + delta;
        Some(
            (if to < 0 {
                0
            } else if to >= len {
                len - 1
            } else {
                to
            }) as usize,
        )
    }
}

/// Moves a place in a list by `delta`; it stops at both ends.
pub fn move_selection(cursor: Option<usize>, len: usize, delta: isize) -> (r: Option<usize>)
    ensures
        r == moved(cursor, len as nat, delta as int),
{
    if len == 0 {
        return None;
    }
    let from: usize = cursor.unwrap_or(0);
    let to: i128 = from as i128 + delta as i128;
    if to < 0 {
        Some(0)
    } else if to >= len as i128 {
        Some(len - 1)
    } else {
        Some(to as usize)
    }
}

/// The first or the last place of a list.
pub open spec fn edge(len: nat, first: bool) -> Option<usize> {
    if len == 0 {
        None
    } else if first {
        Some(0)
    } else {
        Some((len - 1) as usize)
    }
}

/// The first or the last place of a list.
pub fn select_edge(len: usize, first: bool) -> (r: Option<usize>)
    ensures
        r == edge(len as nat, first),
{
    if len == 0 {
        None
    } else if first {
        Some(0)
    } else {
        Some(len - 1)
    }
}

/// A list of songs under a title.
#[verifier::ext_equal]
#[derive(Debug)]
pub struct SongList<S = String, L = Vec<Song>> {
    pub title: S,
    pub songs: L,
    pub cursor: Option<usize>,
    pub load: LoadState<S>,
}

pub type SongListView = SongList<Seq<char>, Seq<Song>>;

impl View for SongList<String, Vec<Song>> {
    type V = SongList<Seq<char>, Seq<Song>>;

    open spec fn view(&self) -> SongList<Seq<char>, Seq<Song>> {
        SongList {
            title: self.title@,
            songs: self.songs@,
            cursor: self.cursor,
            load: self.load@,
        }
    }
}

impl SongList<Seq<char>, Seq<Song>> {
    pub open spec fn empty() -> Self {
        SongList {
            title: Seq::empty(),
            songs: Seq::empty(),
            cursor: None,
            load: LoadState::Idle,
        }
    }

    /// Other songs, turned round where `descending` says so, at the first one.
    pub open spec fn set_songs_sorted(
        self,
        title: Seq<char>,
        songs: Seq<Song>,
        descending: bool,
    ) -> Self {
        SongList {
            title,
            songs: if descending {
                songs.reverse()
            } else {
                songs
            },
            cursor: edge(songs.len(), true),
            load: LoadState::Idle,
        }
    }

    /// The songs turned round.
    pub open spec fn toggle_sort(self) -> Self {
        SongList { songs: self.songs.reverse(), ..self }
    }

    pub open spec fn begin(self, title: Seq<char>) -> Self {
        SongList { title, load: LoadState::Loading, ..self }
    }

    pub open spec fn fail(self, reason: Seq<char>) -> Self {
        SongList { load: LoadState::Failed(reason), ..self }
    }

    pub open spec fn move_by(self, delta: int) -> Self {
        SongList { cursor: moved(self.cursor, self.songs.len(), delta), ..self }
    }

    pub open spec fn to_edge(self, first: bool) -> Self {
        SongList { cursor: edge(self.songs.len(), first), ..self }
    }

    pub open spec fn select(self, index: usize) -> Self {
        SongList { cursor: Some(index), ..self }
    }

    /// The place of the chosen song, where there is one.
    pub open spec fn chosen(self) -> Option<usize> {
        match self.cursor {
            Some(i) => if i < self.songs.len() {
                Some(i)
            } else {
                None
            },
            None => None,
        }
    }
}

/// The songs from the last to the first.
pub fn reversed(songs: Vec<Song>) -> (r: Vec<Song>)
    ensures
        r@ == songs@.reverse(),
{
    let mut songs = songs;
    let mut out: Vec<Song> = Vec::new();
    let ghost all = songs@;
    while songs.len() > 0
        invariant
            songs@.len() <= all.len(),
            songs@ == all.take(songs@.len() as int),
            out@ == all.skip(songs@.len() as int).reverse(),
        decreases songs@.len(),
    {
        let ghost n = songs@.len() as int;
        match songs.pop() {
            Some(song) => {
                out.push(song);
                assert(songs@ =~= all.take(n - 1));
                assert(out@ =~= all.skip(n - 1).reverse());
            },
            None => {},
        }
    }
    assert(all.skip(0) =~= all);
    out
}

impl SongList<String, Vec<Song>> {
    pub fn new() -> (r: Self)
        ensures
            r@ == SongListView::empty(),
    {
        SongList { title: String::new(), songs: Vec::new(), cursor: None, load: LoadState::Idle }
    }

    pub fn set_songs_sorted(&mut self, title: String, songs: Vec<Song>, descending: bool)
        ensures
            final(self)@ == old(self)@.set_songs_sorted(title@, songs@, descending),
    {
        let len: usize = songs.len();
        self.title = title;
        self.songs = if descending {
            reversed(songs)
        } else {
            songs
        };
        self.cursor = select_edge(len, true);
        self.load = LoadState::Idle;
    }

    pub fn toggle_sort(&mut self)
        ensures
            final(self)@ == old(self)@.toggle_sort(),
    {
        let mut songs: Vec<Song> = Vec::new();
        std::mem::swap(&mut songs, &mut self.songs);
        self.songs = reversed(songs);
    }

    /// Shows that songs are being loaded under this title.
    pub fn begin(&mut self, title: String)
        ensures
            final(self)@ == old(self)@.begin(title@),
    {
        self.title = title;
        self.load = LoadState::Loading;
    }

    pub fn fail(&mut self, reason: String)
        ensures
            final(self)@ == old(self)@.fail(reason@),
    {
        self.load = LoadState::Failed(reason);
    }

    pub fn move_by(&mut self, delta: isize)
        ensures
            final(self)@ == old(self)@.move_by(delta as int),
    {
        self.cursor = move_selection(self.cursor, self.songs.len(), delta);
    }

    pub fn to_edge(&mut self, first: bool)
        ensures
            final(self)@ == old(self)@.to_edge(first),
    {
        self.cursor = select_edge(self.songs.len(), first);
    }

    pub fn select(&mut self, index: usize)
        ensures
            final(self)@ == old(self)@.select(index),
    {
        self.cursor = Some(index);
    }

    pub fn selected_index(&self) -> (r: Option<usize>)
        ensures
            r == self@.chosen(),
    {
        match self.cursor {
            Some(i) => if i < self.songs.len() {
                Some(i)
            } else {
                None
            },
            None => None,
        }
    }
}

/// Turning a list of songs round twice gives it back.
pub proof fn sorting_twice_restores(list: SongListView)
    ensures
        list.toggle_sort().toggle_sort() == list,
{
    assert(list.songs.reverse().reverse() =~= list.songs);
}

/// A list of playlists, artists or charts.
#[verifier::ext_equal]
#[derive(Debug)]
pub struct EntryList<L, S = String> {
    pub items: L,
    pub cursor: Option<usize>,
    pub load: LoadState<S>,
}

impl<T> View for EntryList<Vec<T>, String> {
    type V = EntryList<Seq<T>, Seq<char>>;

    open spec fn view(&self) -> EntryList<Seq<T>, Seq<char>> {
        EntryList { items: self.items@, cursor: self.cursor, load: self.load@ }
    }
}

impl<T> EntryList<Seq<T>, Seq<char>> {
    pub open spec fn empty() -> Self {
        EntryList { items: Seq::empty(), cursor: None, load: LoadState::Idle }
    }

    /// Other entries, at the first one; the loading is over.
    pub open spec fn replace(self, items: Seq<T>) -> Self {
        EntryList { items, cursor: edge(items.len(), true), load: LoadState::Idle }
    }

    pub open spec fn begin(self) -> Self {
        EntryList { load: LoadState::Loading, ..self }
    }

    pub open spec fn fail(self, reason: Seq<char>) -> Self {
        EntryList { load: LoadState::Failed(reason), ..self }
    }

    pub open spec fn move_by(self, delta: int) -> Self {
        EntryList { cursor: moved(self.cursor, self.items.len(), delta), ..self }
    }

    pub open spec fn to_edge(self, first: bool) -> Self {
        EntryList { cursor: edge(self.items.len(), first), ..self }
    }

    pub open spec fn select(self, index: usize) -> Self {
        EntryList { cursor: Some(index), ..self }
    }

    /// The chosen entry.
    pub open spec fn chosen(self) -> Option<T> {
        match self.cursor {
            Some(i) => if i < self.items.len() {
                Some(self.items[i as int])
            } else {
                None
            },
            None => None,
        }
    }

    /// Nothing is there and nothing is coming.
    pub open spec fn wants_loading(self) -> bool {
        self.items.len() == 0 && !(self.load is Loading)
    }
}

impl<T> EntryList<Vec<T>, String> {
    pub fn new() -> (r: Self)
        ensures
            r@ == EntryList::<Seq<T>, Seq<char>>::empty(),
    {
        EntryList { items: Vec::new(), cursor: None, load: LoadState::Idle }
    }

    pub fn replace(&mut self, items: Vec<T>)
        ensures
            final(self)@ == old(self)@.replace(items@),
    {
        let len: usize = items.len();
        self.items = items;
        self.cursor = select_edge(len, true);
        self.load = LoadState::Idle;
    }

    pub fn begin(&mut self)
        ensures
            final(self)@ == old(self)@.begin(),
    {
        self.load = LoadState::Loading;
    }

    pub fn fail(&mut self, reason: String)
        ensures
            final(self)@ == old(self)@.fail(reason@),
    {
        self.load = LoadState::Failed(reason);
    }

    pub fn move_by(&mut self, delta: isize)
        ensures
            final(self)@ == old(self)@.move_by(delta as int),
    {
        self.cursor = move_selection(self.cursor, self.items.len(), delta);
    }

    pub fn to_edge(&mut self, first: bool)
        ensures
            final(self)@ == old(self)@.to_edge(first),
    {
        self.cursor = select_edge(self.items.len(), first);
    }

    pub fn select(&mut self, index: usize)
        ensures
            final(self)@ == old(self)@.select(index),
    {
        self.cursor = Some(index);
    }

    pub fn is_wanting(&self) -> (r: bool)
        ensures
            r == self@.wants_loading(),
    {
        self.items.len() == 0 && !self.load.is_loading()
    }

    /// The chosen entry.
    pub fn selected(&self) -> (r: Option<&T>)
        ensures
            match r {
                Some(item) => self@.chosen() == Some(*item),
                None => self@.chosen() is None,
            },
    {
        match self.cursor {
            Some(i) => if i < self.items.len() {
                Some(&self.items[i])
            } else {
                None
            },
            None => None,
        }
    }
}

/// An input line and the place of its cursor.
#[verifier::ext_equal]
#[derive(Debug)]
pub struct TextInput<L = Vec<char>> {
    pub chars: L,
    pub cursor: usize,
}

/// What a key does to an input line.
#[derive(Debug, Clone, Copy, PartialEq, Eq)]
pub enum Edit {
    Insert(char),
    Backspace,
    Delete,
    Left,
    Right,
    Home,
    End,
}

impl View for TextInput<Vec<char>> {
    type V = TextInput<Seq<char>>;

    open spec fn view(&self) -> TextInput<Seq<char>> {
        TextInput { chars: self.chars@, cursor: self.cursor }
    }
}

impl TextInput<Seq<char>> {
    pub open spec fn empty() -> Self {
        TextInput { chars: Seq::empty(), cursor: 0 }
    }

    /// The cursor stands within the line or behind it.
    pub open spec fn at(self) -> int {
        if self.cursor <= self.chars.len() {
            self.cursor as int
        } else {
            self.chars.len() as int
        }
    }

    pub open spec fn set(self, text: Seq<char>) -> Self {
        TextInput { chars: text, cursor: text.len() as usize }
    }

    pub open spec fn edit(self, edit: Edit) -> Self {
        let at = self.at();
        match edit {
            Edit::Insert(c) => TextInput {
                chars: self.chars.insert(at, c),
                cursor: (at + 1) as usize,
            },
            Edit::Backspace => if at > 0 {
                TextInput { chars: self.chars.remove(at - 1), cursor: (at - 1) as usize }
            } else {
                self
            },
            Edit::Delete => if at < self.chars.len() {
                TextInput { chars: self.chars.remove(at), cursor: at as usize }
            } else {
                self
            },
            Edit::Left => TextInput {
                cursor: (if at > 0 {
                    at - 1
                } else {
                    0
                }) as usize,
                ..self
            },
            Edit::Right => TextInput {
                cursor: (if at < self.chars.len() {
                    at + 1
                } else {
                    at
                }) as usize,
                ..self
            },
            Edit::Home => TextInput { cursor: 0, ..self },
            Edit::End => TextInput { cursor: self.chars.len() as usize, ..self },
        }
    }
}

impl TextInput<Vec<char>> {
    pub fn new() -> (r: Self)
        ensures
            r@ == TextInput::<Seq<char>>::empty(),
    {
        TextInput { chars: Vec::new(), cursor: 0 }
    }

    pub fn set(&mut self, text: &str)
        ensures
            final(self)@ == old(self)@.set(text@),
    {
        self.chars = chars_of(text);
        self.cursor = self.chars.len();
    }

    pub fn text(&self) -> (r: String)
        ensures
            r@ == self@.chars,
    {
        let len: usize = self.chars.len();
        assert(self.chars@.subrange(0, len as int) =~= self.chars@);
        text_of(&self.chars, 0, len)
    }

    pub fn is_empty(&self) -> (r: bool)
        ensures
            r == (self@.chars.len() == 0),
    {
        self.chars.len() == 0
    }

    pub fn edit(&mut self, edit: Edit)
        requires
            old(self)@.chars.len() < usize::MAX,
        ensures
            final(self)@ == old(self)@.edit(edit),
    {
        let len: usize = self.chars.len();
        let at: usize = if self.cursor <= len {
            self.cursor
        } else {
            len
        };
        match edit {
            Edit::Insert(c) => {
                self.chars.insert(at, c);
                self.cursor = at + 1;
            },
            Edit::Backspace => {
                if at > 0 {
                    self.chars.remove(at - 1);
                    self.cursor = at - 1;
                }
            },
            Edit::Delete => {
                if at < len {
                    self.chars.remove(at);
                    self.cursor = at;
                }
            },
            Edit::Left => {
                self.cursor = if at > 0 {
                    at - 1
                } else {
                    0
                };
            },
            Edit::Right => {
                self.cursor = if at < len {
                    at + 1
                } else {
                    at
                };
            },
            Edit::Home => {
                self.cursor = 0;
            },
            Edit::End => {
                self.cursor = len;
            },
        }
    }
}

/// A character that is put in and taken out again leaves the line as it was,
/// with the cursor where it stood.
pub proof fn backspace_undoes_insert(line: TextInput<Seq<char>>, c: char)
    requires
        line.cursor <= line.chars.len() < usize::MAX,
    ensures
        line.edit(Edit::Insert(c)).edit(Edit::Backspace) == line,
{
    assert(line.chars.insert(line.at(), c).remove(line.at()) =~= line.chars);
}

/// What can be done with a song from its menu.
#[derive(Debug, Clone, Copy, PartialEq, Eq, Structural)]
pub enum MenuAction {
    Play,
    QueueAppend,
    QueuePlayNext,
    AddToCloud,
    Download,
    RemoveFromQueue,
}

/// How many entries the menu of a song has.
pub const MENU_ITEMS: usize = 5;

/// The menu of a song.
#[derive(Debug)]
pub struct ContextMenu {
    pub song: Song,
    /// Whether the song was chosen in the queue.
    pub in_queue: bool,
    pub cursor: usize,
}

/// The entry at a place of the menu: in the queue the song can be taken out,
/// elsewhere put in.
pub open spec fn menu_item(in_queue: bool, i: int) -> Option<MenuAction> {
    if i == 0 {
        Some(MenuAction::Play)
    } else if i == 1 {
        Some(MenuAction::QueuePlayNext)
    } else if i == 2 {
        Some(MenuAction::AddToCloud)
    } else if i == 3 {
        Some(MenuAction::Download)
    } else if i == 4 {
        Some(
            if in_queue {
                MenuAction::RemoveFromQueue
            } else {
                MenuAction::QueueAppend
            },
        )
    } else {
        None
    }
}

impl ContextMenu {
    /// The entry at a place.
    pub fn item(&self, i: usize) -> (r: Option<MenuAction>)
        ensures
            r == menu_item(self.in_queue, i as int),
    {
        if i == 0 {
            Some(MenuAction::Play)
        } else if i == 1 {
            Some(MenuAction::QueuePlayNext)
        } else if i == 2 {
            Some(MenuAction::AddToCloud)
        } else if i == 3 {
            Some(MenuAction::Download)
        } else if i == 4 {
            Some(
                if self.in_queue {
                    MenuAction::RemoveFromQueue
                } else {
                    MenuAction::QueueAppend
                },
            )
        } else {
            None
        }
    }
}

/// The place that a move lands on in a list of `len` items, which is not empty.
pub open spec fn stepped(cursor: usize, len: nat, delta: int) -> usize {
    match moved(Some(cursor), len, delta) {
        Some(i) => i,
        None => 0,
    }
}

/// Moves a place in a list by `delta`; it stops at both ends.
pub fn step_cursor(cursor: usize, len: usize, delta: isize) -> (r: usize)
    ensures
        r == stepped(cursor, len as nat, delta as int),
{
    match move_selection(Some(cursor), len, delta) {
        Some(i) => i,
        None => 0,
    }
}

/// The choice of a quality to download a song in.
#[derive(Debug)]
pub struct QualityPicker {
    pub song: Song,
    pub cursor: usize,
}

impl QualityPicker {
    pub open spec fn opened(song: Song, current: Seq<char>) -> QualityPicker {
        QualityPicker {
            song,
            cursor: match quality_place(current, 0) {
                Some(i) => i,
                None => 0,
            },
        }
    }

    /// Starts at the quality in use.
    pub fn new(song: Song, current: &str) -> (r: Self)
        ensures
            r == QualityPicker::opened(song, current@),
    {
        let cursor: usize = find_quality(current).unwrap_or(0);
        QualityPicker { song, cursor }
    }
}

/// The help panel: whether it is open, and its first line.
#[derive(Debug, Clone, Copy, PartialEq, Eq)]
pub struct HelpPane {
    pub open: bool,
    pub offset: usize,
}

/// A line that the user is asked for, and what for.
#[derive(Debug, Clone, Copy, PartialEq, Eq, Structural)]
pub enum PromptAction {
    CreateCloudPlaylist,
}

#[verifier::ext_equal]
#[derive(Debug)]
pub struct PromptState<L = Vec<char>> {
    pub buffer: TextInput<L>,
    pub action: PromptAction,
}

impl View for PromptState<Vec<char>> {
    type V = PromptState<Seq<char>>;

    open spec fn view(&self) -> PromptState<Seq<char>> {
        PromptState { buffer: self.buffer@, action: self.action }
    }
}

/// A login by scanning a code.
#[verifier::ext_equal]
#[derive(Debug)]
pub struct LoginState<S = String> {
    pub key: S,
    /// What the code says; empty while there is none.
    pub qr: S,
    pub message: S,
    pub finished: bool,
    pub succeeded: bool,
}

impl View for LoginState<String> {
    type V = LoginState<Seq<char>>;

    open spec fn view(&self) -> LoginState<Seq<char>> {
        LoginState {
            key: self.key@,
            qr: self.qr@,
            message: self.message@,
            finished: self.finished,
            succeeded: self.succeeded,
        }
    }
}

/// The lyrics of the current song.
#[verifier::ext_equal]
#[derive(Debug)]
pub struct LyricPane<S = String, L = Vec<LyricLine>> {
    /// The song that they belong to.
    pub hash: Option<S>,
    pub lines: L,
    pub load: LoadState<S>,
    pub active_line: Option<usize>,
}

impl View for LyricPane<String, Vec<LyricLine>> {
    type V = LyricPane<Seq<char>, Seq<LyricLine>>;

    open spec fn view(&self) -> LyricPane<Seq<char>, Seq<LyricLine>> {
        LyricPane {
            hash: opt(self.hash),
            lines: self.lines@,
            load: self.load@,
            active_line: self.active_line,
        }
    }
}

/// The cover of the current song: whose it is, and its shape once it is decoded.
#[verifier::ext_equal]
#[derive(Debug)]
pub struct CoverArt<S = String> {
    pub hash: Option<S>,
    /// Width to height.
    pub aspect: Option<(u32, u32)>,
}

impl View for CoverArt<String> {
    type V = CoverArt<Seq<char>>;

    open spec fn view(&self) -> CoverArt<Seq<char>> {
        CoverArt { hash: opt(self.hash), aspect: self.aspect }
    }
}

impl CoverArt<Seq<char>> {
    pub open spec fn none() -> Self {
        CoverArt { hash: None, aspect: None }
    }

    pub open spec fn of(self, hash: Seq<char>) -> bool {
        self.hash == Some(hash)
    }
}

impl CoverArt<String> {
    pub fn empty() -> (r: Self)
        ensures
            r@ == CoverArt::<Seq<char>>::none(),
    {
        CoverArt { hash: None, aspect: None }
    }

    pub fn belongs_to(&self, hash: &str) -> (r: bool)
        ensures
            r == self@.of(hash@),
    {
        match &self.hash {
            Some(own) => same(own.as_str(), hash),
            None => false,
        }
    }
}

/// The shape of a picture, width to height, as two whole numbers; a picture
/// without extent counts as square.
pub open spec fn aspect_of(width: u32, height: u32) -> (u32, u32) {
    if width == 0 || height == 0 {
        (1, 1)
    } else {
        (width, height)
    }
}

/// The shape of a picture, width to height.
pub fn image_aspect(width: u32, height: u32) -> (r: (u32, u32))
    ensures
        r == aspect_of(width, height),
        r.0 > 0,
        r.1 > 0,
{
    if height == 0 || width == 0 {
        (1, 1)
    } else {
        (width, height)
    }
}

/// The shape of a picture is its width to its height.
pub proof fn pictures_keep_their_shape(width: u32, height: u32)
    ensures
        width > 0 && height > 0 ==> aspect_of(width, height) == (width, height),
        aspect_of(0, height) == (1u32, 1u32),
        aspect_of(width, 0) == (1u32, 1u32),
{
}

} // verus!
