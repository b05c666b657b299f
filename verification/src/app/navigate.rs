//! Moving about on the pages: the part that takes the keys, the marks, going in
//! and going back.

use vstd::prelude::*;
use crate::app::conf;
use crate::app::nav::{Focus, Tab, SETTINGS, TABS};
use crate::app::pages::PagesView;
use crate::app::panes::{edge, move_selection, moved, select_edge, step_cursor, stepped};
use crate::app::screen::Screen;
use crate::app::state::{App, AppView, Marks};
use crate::event::HitTarget;

verus! {

/// What the keys for up and down move.
#[derive(Debug, Clone, Copy, PartialEq, Eq, Structural)]
pub enum Scope {
    Sidebar,
    Queue,
    Settings,
    Entries,
    Sources,
    /// The songs of the page, where it has a list of them.
    Songs,
}

impl Scope {
    /// What is moved on a page, by the part that takes the keys. The pages without
    /// a list leave up and down to the sidebar.
    pub open spec fn of(tab: Tab, focus: Focus) -> Scope {
        if focus == Focus::Sidebar {
            Scope::Sidebar
        } else if focus == Focus::Queue {
            Scope::Queue
        } else if tab == Tab::Home || tab == Tab::Visualizer {
            Scope::Sidebar
        } else if tab == Tab::Settings {
            Scope::Settings
        } else if tab == Tab::Search || focus == Focus::Secondary {
            Scope::Songs
        } else if tab == Tab::Queue {
            Scope::Queue
        } else if tab == Tab::Sources {
            Scope::Sources
        } else {
            Scope::Entries
        }
    }

    pub fn find(tab: Tab, focus: Focus) -> (r: Scope)
        ensures
            r == Scope::of(tab, focus),
    {
        if focus == Focus::Sidebar {
            Scope::Sidebar
        } else if focus == Focus::Queue {
            Scope::Queue
        } else if tab == Tab::Home || tab == Tab::Visualizer {
            Scope::Sidebar
        } else if tab == Tab::Settings {
            Scope::Settings
        } else if tab == Tab::Search || focus == Focus::Secondary {
            Scope::Songs
        } else if tab == Tab::Queue {
            Scope::Queue
        } else if tab == Tab::Sources {
            Scope::Sources
        } else {
            Scope::Entries
        }
    }
}

/// Up and down are never lost on a page: from its middle part they move a list that
/// the page has, or the sidebar.
pub proof fn every_page_has_something_to_move(pages: PagesView, tab: Tab)
    ensures
        Scope::of(tab, Focus::Primary) == Scope::Songs ==> pages.songs_of(tab) is Some,
        Scope::of(tab, Focus::Primary) == Scope::Entries ==> (tab == Tab::Playlists || tab
            == Tab::Artists || tab == Tab::Ranks || tab == Tab::Cloud),
        (tab == Tab::Home || tab == Tab::Visualizer) ==> Scope::of(tab, Focus::Primary)
            == Scope::Sidebar && Scope::of(tab, Focus::Secondary) == Scope::Sidebar,
{
    reveal(PagesView::songs_of);
}

/// What Enter does.
#[derive(Debug, Clone, Copy, PartialEq, Eq, Structural)]
pub enum Entry {
    Nothing,
    PlayQueued,
    ToggleSource,
    NextValue,
    Search,
    PlayListed,
    OpenPlaylist,
    OpenArtist,
    OpenRank,
    OpenCloudPlaylist,
    LeaveSidebar,
}

impl Entry {
    /// What Enter does on a page, by the part that takes the keys.
    pub open spec fn of(tab: Tab, focus: Focus) -> Entry {
        match (tab, focus) {
            (Tab::Home, _) => Entry::Nothing,
            (Tab::Visualizer, _) => Entry::Nothing,
            (Tab::Queue, _) => Entry::PlayQueued,
            (Tab::Sources, _) => Entry::ToggleSource,
            (Tab::Settings, _) => Entry::NextValue,
            (Tab::Search, Focus::Primary) => Entry::Search,
            (Tab::Playlists, Focus::Primary) => Entry::OpenPlaylist,
            (Tab::Artists, Focus::Primary) => Entry::OpenArtist,
            (Tab::Ranks, Focus::Primary) => Entry::OpenRank,
            (Tab::Cloud, Focus::Primary) => Entry::OpenCloudPlaylist,
            (_, Focus::Secondary) => Entry::PlayListed,
            (_, Focus::Queue) => Entry::PlayQueued,
            (_, Focus::Sidebar) => Entry::LeaveSidebar,
        }
    }

    pub fn find(tab: Tab, focus: Focus) -> (r: Entry)
        ensures
            r == Entry::of(tab, focus),
    {
        match tab {
            Tab::Home | Tab::Visualizer => Entry::Nothing,
            Tab::Queue => Entry::PlayQueued,
            Tab::Sources => Entry::ToggleSource,
            Tab::Settings => Entry::NextValue,
            _ => match focus {
                Focus::Secondary => Entry::PlayListed,
                Focus::Queue => Entry::PlayQueued,
                Focus::Sidebar => Entry::LeaveSidebar,
                Focus::Primary => match tab {
                    Tab::Search => Entry::Search,
                    Tab::Playlists => Entry::OpenPlaylist,
                    Tab::Artists => Entry::OpenArtist,
                    Tab::Ranks => Entry::OpenRank,
                    _ => Entry::OpenCloudPlaylist,
                },
            },
        }
    }
}

/// The part that a hit with the mouse gives the keys to, where it changes that.
pub open spec fn focus_of(target: HitTarget) -> Option<Focus> {
    match target {
        HitTarget::Entries => Some(Focus::Primary),
        HitTarget::Songs => Some(Focus::Secondary),
        HitTarget::Queue => Some(Focus::Queue),
        HitTarget::Settings => Some(Focus::Primary),
        _ => None,
    }
}

fn focus_for(target: HitTarget) -> (r: Option<Focus>)
    ensures
        r == focus_of(target),
{
    match target {
        HitTarget::Entries => Some(Focus::Primary),
        HitTarget::Songs => Some(Focus::Secondary),
        HitTarget::Queue => Some(Focus::Queue),
        HitTarget::Settings => Some(Focus::Primary),
        _ => None,
    }
}

impl AppView {
    #[verifier::opaque]
    pub open spec fn with_focus(self, focus: Focus) -> AppView {
        self.with_screen(Screen { focus, ..self.state.screen })
    }

    #[verifier::opaque]
    pub open spec fn cycle_focus(self, forward: bool) -> AppView {
        self.with_focus(self.state.screen.focus.following(forward))
    }

    /// Another page is shown, and the keys stay where they are; the same page is
    /// left as it is.
    #[verifier::opaque]
    pub open spec fn show_tab(self, tab: Tab) -> AppView {
        if tab == self.state.screen.tab {
            self
        } else {
            self.switch_tab_inner(tab, false)
        }
    }

    /// The next pages in the order of the sidebar; at the ends one stays.
    #[verifier::opaque]
    pub open spec fn move_sidebar(self, delta: int) -> AppView {
        self.show_tab(
            Tab::placed(
                stepped(self.state.screen.tab.place() as usize, TABS as nat, delta) as int,
            ),
        )
    }

    #[verifier::opaque]
    pub open spec fn select_sidebar_edge(self, first: bool) -> AppView {
        self.show_tab(
            Tab::placed(
                if first {
                    0
                } else {
                    TABS - 1
                },
            ),
        )
    }

    #[verifier::opaque]
    pub open spec fn mark_source(self, sources: Option<usize>) -> AppView {
        self.with_marks(Marks { sources, ..self.state.marks })
    }

    #[verifier::opaque]
    pub open spec fn mark_setting(self, settings: usize) -> AppView {
        self.with_marks(Marks { settings, ..self.state.marks })
    }

    /// The marks go `delta` lines down, or up.
    #[verifier::opaque]
    pub open spec fn move_selection(self, delta: int) -> AppView {
        let tab = self.state.screen.tab;
        match Scope::of(tab, self.state.screen.focus) {
            Scope::Sidebar => self.move_sidebar(delta),
            Scope::Queue => self.select_in_queue(
                moved(self.state.marks.queue, self.state.queue.items.len(), delta),
            ),
            Scope::Settings => self.move_settings(delta),
            Scope::Entries => self.with_pages(self.state.pages.move_entries(tab, delta)),
            Scope::Sources => self.mark_source(
                moved(
                    self.state.marks.sources,
                    self.state.config.sources.in_order().len(),
                    delta,
                ),
            ),
            Scope::Songs => self.with_pages(self.state.pages.move_songs(tab, delta)),
        }
    }

    /// The marks go to the first line, or to the last.
    #[verifier::opaque]
    pub open spec fn move_selection_edge(self, first: bool) -> AppView {
        let tab = self.state.screen.tab;
        match Scope::of(tab, self.state.screen.focus) {
            Scope::Sidebar => self.select_sidebar_edge(first),
            Scope::Queue => self.select_in_queue(edge(self.state.queue.items.len(), first)),
            Scope::Settings => self.mark_setting(
                if first {
                    0
                } else {
                    (SETTINGS - 1) as usize
                },
            ),
            Scope::Entries => self.with_pages(self.state.pages.entries_edge(tab, first)),
            Scope::Sources => self.mark_source(
                edge(self.state.config.sources.in_order().len(), first),
            ),
            Scope::Songs => self.with_pages(self.state.pages.songs_edge(tab, first)),
        }
    }

    /// Enter in the search line: an empty line is first written in.
    #[verifier::opaque]
    pub open spec fn enter_search(self) -> AppView {
        if !self.state.pages.search.editing && self.state.pages.search.input.chars.len() == 0 {
            self.with_pages(self.state.pages.editing(true))
        } else {
            self.run_search()
        }
    }

    /// Enter: one level in, or the chosen song is played.
    #[verifier::opaque]
    pub open spec fn activate(self) -> AppView {
        match Entry::of(self.state.screen.tab, self.state.screen.focus) {
            Entry::Nothing => self,
            Entry::PlayQueued => self.play_from_queue(),
            Entry::ToggleSource => self.toggle_source_enabled(),
            Entry::NextValue => self.adjust_setting(1),
            Entry::Search => self.enter_search(),
            Entry::PlayListed => self.play_from_focused_songs(),
            Entry::OpenPlaylist => self.open_selected_playlist(),
            Entry::OpenArtist => self.open_selected_artist(),
            Entry::OpenRank => self.open_selected_rank(),
            Entry::OpenCloudPlaylist => self.open_selected_cloud_playlist(),
            Entry::LeaveSidebar => self.with_focus(Focus::Primary),
        }
    }

    /// Esc: one level back.
    #[verifier::opaque]
    pub open spec fn go_back(self) -> AppView {
        if self.state.screen.focus == Focus::Queue {
            self.with_focus(Focus::Secondary)
        } else {
            self.with_screen(
                Screen { focus: Focus::Primary, sidebar_visible: true, ..self.state.screen },
            )
        }
    }

    #[verifier::opaque]
    pub open spec fn handle_digit(self, number: u8) -> AppView {
        if number == 0 {
            self.switch_tab(Tab::Visualizer)
        } else if number <= 9 {
            self.switch_tab(Tab::placed(number - 1))
        } else {
            self
        }
    }

    /// The part that was hit takes the keys. Who leaves the search line no longer
    /// writes in it.
    #[verifier::opaque]
    pub open spec fn focus_hit_target(self, target: HitTarget) -> AppView {
        match focus_of(target) {
            Some(focus) => (if self.state.screen.focus == Focus::Primary && focus
                != Focus::Primary {
                self.with_pages(self.state.pages.editing(false))
            } else {
                self
            }).with_focus(focus),
            None => self,
        }
    }
}

impl App {
    pub fn with_focus(&mut self, focus: Focus)
        ensures
            final(self)@ == old(self)@.with_focus(focus),
    {
        proof {
            reveal(AppView::with_focus);
        }
        self.state.screen.set_focus(focus);
    }

    /// Gives the keys to the next part of the page, or to the one before.
    pub fn cycle_focus(&mut self, forward: bool)
        ensures
            final(self)@ == old(self)@.cycle_focus(forward),
    {
        proof {
            reveal(AppView::cycle_focus);
        }
        let focus = self.state.screen.focus();
        self.with_focus(focus.next(forward));
    }

    fn show_tab(&mut self, tab: Tab)
        ensures
            final(self)@ == old(self)@.show_tab(tab),
    {
        proof {
            reveal(AppView::show_tab);
        }
        if tab != self.state.screen.tab() {
            self.switch_tab_inner(tab, false);
        }
    }

    /// Goes up or down in the sidebar.
    pub fn move_sidebar(&mut self, delta: isize)
        ensures
            final(self)@ == old(self)@.move_sidebar(delta as int),
    {
        proof {
            reveal(AppView::move_sidebar);
        }
        let place: usize = self.state.screen.tab().index();
        self.show_tab(Tab::at(step_cursor(place, TABS, delta)));
    }

    /// Goes to the first or the last page of the sidebar.
    pub fn select_sidebar_edge(&mut self, first: bool)
        ensures
            final(self)@ == old(self)@.select_sidebar_edge(first),
    {
        proof {
            reveal(AppView::select_sidebar_edge);
        }
        if first {
            self.show_tab(Tab::at(0));
        } else {
            self.show_tab(Tab::at(TABS - 1));
        }
    }

    fn mark_source(&mut self, sources: Option<usize>)
        ensures
            final(self)@ == old(self)@.mark_source(sources),
    {
        proof {
            reveal(AppView::mark_source);
        }
        self.state.marks.sources = sources;
    }

    /// Marks a line of the settings page.
    pub fn mark_setting(&mut self, settings: usize)
        ensures
            final(self)@ == old(self)@.mark_setting(settings),
    {
        proof {
            reveal(AppView::mark_setting);
        }
        self.state.marks.settings = settings;
    }

    /// Moves the mark of what takes the keys.
    pub fn move_selection(&mut self, delta: isize)
        ensures
            final(self)@ == old(self)@.move_selection(delta as int),
    {
        proof {
            reveal(AppView::move_selection);
        }
        let tab = self.state.screen.tab();
        match Scope::find(tab, self.state.screen.focus()) {
            Scope::Sidebar => {
                self.move_sidebar(delta);
            },
            Scope::Queue => {
                let to = move_selection(self.state.marks.queue, self.state.queue.len(), delta);
                self.state.marks.queue = to;
            },
            Scope::Settings => {
                self.move_settings(delta);
            },
            Scope::Entries => {
                self.state.pages.move_entries(tab, delta);
            },
            Scope::Sources => {
                let count: usize = conf::ordered(&self.state.config).len();
                let to = move_selection(self.state.marks.sources, count, delta);
                self.mark_source(to);
            },
            Scope::Songs => {
                self.state.pages.move_songs(tab, delta);
            },
        }
    }

    /// Moves the mark of what takes the keys to the first or the last line.
    pub fn move_selection_edge(&mut self, first: bool)
        ensures
            final(self)@ == old(self)@.move_selection_edge(first),
    {
        proof {
            reveal(AppView::move_selection_edge);
        }
        let tab = self.state.screen.tab();
        match Scope::find(tab, self.state.screen.focus()) {
            Scope::Sidebar => {
                self.select_sidebar_edge(first);
            },
            Scope::Queue => {
                let to = select_edge(self.state.queue.len(), first);
                self.state.marks.queue = to;
            },
            Scope::Settings => {
                if first {
                    self.mark_setting(0);
                } else {
                    self.mark_setting(SETTINGS - 1);
                }
            },
            Scope::Entries => {
                self.state.pages.entries_edge(tab, first);
            },
            Scope::Sources => {
                let count: usize = conf::ordered(&self.state.config).len();
                self.mark_source(select_edge(count, first));
            },
            Scope::Songs => {
                self.state.pages.songs_edge(tab, first);
            },
        }
    }

    fn enter_search(&mut self)
        ensures
            final(self)@ == old(self)@.enter_search(),
    {
        proof {
            reveal(AppView::enter_search);
        }
        if !self.state.pages.is_editing() && self.state.pages.input_is_empty() {
            self.state.pages.set_editing(true);
        } else {
            self.run_search();
        }
    }

    /// Goes one level in, or plays the chosen song.
    pub fn activate(&mut self)
        ensures
            final(self)@ == old(self)@.activate(),
    {
        proof {
            reveal(AppView::activate);
        }
        match Entry::find(self.state.screen.tab(), self.state.screen.focus()) {
            Entry::Nothing => {},
            Entry::PlayQueued => {
                self.play_from_queue();
            },
            Entry::ToggleSource => {
                self.toggle_source_enabled();
            },
            Entry::NextValue => {
                self.adjust_setting(1);
            },
            Entry::Search => {
                self.enter_search();
            },
            Entry::PlayListed => {
                self.play_from_focused_songs();
            },
            Entry::OpenPlaylist => {
                self.open_selected_playlist();
            },
            Entry::OpenArtist => {
                self.open_selected_artist();
            },
            Entry::OpenRank => {
                self.open_selected_rank();
            },
            Entry::OpenCloudPlaylist => {
                self.open_selected_cloud_playlist();
            },
            Entry::LeaveSidebar => {
                self.with_focus(Focus::Primary);
            },
        }
    }

    /// Goes one level back.
    pub fn go_back(&mut self)
        ensures
            final(self)@ == old(self)@.go_back(),
    {
        proof {
            reveal(AppView::go_back);
        }
        if self.state.screen.focus() == Focus::Queue {
            self.with_focus(Focus::Secondary);
        } else {
            self.state.screen.set_focus(Focus::Primary);
            self.state.screen.set_sidebar_visible(true);
        }
    }

    /// Goes to the page behind a digit.
    pub fn handle_digit(&mut self, number: u8)
        ensures
            final(self)@ == old(self)@.handle_digit(number),
    {
        proof {
            reveal(AppView::handle_digit);
        }
        match Tab::from_number(number) {
            Some(tab) => {
                self.switch_tab(tab);
            },
            None => {},
        }
    }

    /// Gives the keys to the part that was hit.
    pub fn focus_hit_target(&mut self, target: HitTarget)
        ensures
            final(self)@ == old(self)@.focus_hit_target(target),
    {
        proof {
            reveal(AppView::focus_hit_target);
        }
        match focus_for(target) {
            Some(focus) => {
                if self.state.screen.focus() == Focus::Primary && focus != Focus::Primary {
                    self.state.pages.set_editing(false);
                }
                self.with_focus(focus);
            },
            None => {},
        }
    }
}

} // verus!
