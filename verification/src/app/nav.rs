//! Pages, the parts of a page, and other names of the screen.

use vstd::prelude::*;

verus! {

/// How many pages there are.
pub const TABS: usize = 10;

/// How many lines the settings page has.
pub const SETTINGS: usize = 14;

/// How many lines the help panel has.
pub const HELP_LINES: usize = 38;

/// How many lines a page key moves.
pub const PAGE_STEP: isize = 10;

/// A page.
#[derive(Debug, Clone, Copy, PartialEq, Eq, Structural)]
pub enum Tab {
    Home,
    Search,
    Playlists,
    Artists,
    Ranks,
    Cloud,
    Queue,
    Sources,
    Settings,
    Visualizer,
}

impl Tab {
    /// The page at a place of the sidebar.
    pub open spec fn placed(i: int) -> Tab {
        if i == 0 {
            Tab::Home
        } else if i == 1 {
            Tab::Search
        } else if i == 2 {
            Tab::Playlists
        } else if i == 3 {
            Tab::Artists
        } else if i == 4 {
            Tab::Ranks
        } else if i == 5 {
            Tab::Cloud
        } else if i == 6 {
            Tab::Queue
        } else if i == 7 {
            Tab::Sources
        } else if i == 8 {
            Tab::Settings
        } else {
            Tab::Visualizer
        }
    }

    /// The place of a page in the sidebar.
    pub open spec fn place(self) -> int {
        match self {
            Tab::Home => 0,
            Tab::Search => 1,
            Tab::Playlists => 2,
            Tab::Artists => 3,
            Tab::Ranks => 4,
            Tab::Cloud => 5,
            Tab::Queue => 6,
            Tab::Sources => 7,
            Tab::Settings => 8,
            Tab::Visualizer => 9,
        }
    }

    /// The page at a place of the sidebar.
    pub fn at(i: usize) -> (r: Tab)
        ensures
            r == Tab::placed(i as int),
    {
        if i == 0 {
            Tab::Home
        } else if i == 1 {
            Tab::Search
        } else if i == 2 {
            Tab::Playlists
        } else if i == 3 {
            Tab::Artists
        } else if i == 4 {
            Tab::Ranks
        } else if i == 5 {
            Tab::Cloud
        } else if i == 6 {
            Tab::Queue
        } else if i == 7 {
            Tab::Sources
        } else if i == 8 {
            Tab::Settings
        } else {
            Tab::Visualizer
        }
    }

    /// The place of a page in the sidebar.
    pub fn index(self) -> (r: usize)
        ensures
            r == self.place(),
            r < TABS,
    {
        match self {
            Tab::Home => 0,
            Tab::Search => 1,
            Tab::Playlists => 2,
            Tab::Artists => 3,
            Tab::Ranks => 4,
            Tab::Cloud => 5,
            Tab::Queue => 6,
            Tab::Sources => 7,
            Tab::Settings => 8,
            Tab::Visualizer => 9,
        }
    }

    /// The page at a place of the sidebar, where there is one.
    pub fn from_sidebar_index(i: usize) -> (r: Option<Tab>)
        ensures
            r == (if i < TABS {
                Some(Tab::placed(i as int))
            } else {
                None
            }),
    {
        if i < TABS {
            Some(Tab::at(i))
        } else {
            None
        }
    }

    /// The page behind a digit key: the pages in order, the tenth behind `0`.
    pub fn from_number(number: u8) -> (r: Option<Tab>)
        ensures
            r == (if number == 0 {
                Some(Tab::Visualizer)
            } else if number <= 9 {
                Some(Tab::placed(number - 1))
            } else {
                None
            }),
    {
        if number == 0 {
            Some(Tab::Visualizer)
        } else if number <= 9 {
            Some(Tab::at(number as usize - 1))
        } else {
            None
        }
    }
}

/// Every page has its own place in the sidebar.
pub proof fn sidebar_holds_every_page(tab: Tab, i: int)
    ensures
        0 <= tab.place() < TABS,
        Tab::placed(tab.place()) == tab,
        0 <= i < TABS ==> Tab::placed(i).place() == i,
{
}

/// The part of a page that takes the keys.
#[derive(Debug, Clone, Copy, PartialEq, Eq, Structural)]
pub enum Focus {
    Sidebar,
    Primary,
    Secondary,
    Queue,
}

impl Focus {
    pub open spec fn following(self, forward: bool) -> Focus {
        match self {
            Focus::Sidebar => if forward {
                Focus::Primary
            } else {
                Focus::Queue
            },
            Focus::Primary => if forward {
                Focus::Secondary
            } else {
                Focus::Sidebar
            },
            Focus::Secondary => if forward {
                Focus::Queue
            } else {
                Focus::Primary
            },
            Focus::Queue => if forward {
                Focus::Sidebar
            } else {
                Focus::Secondary
            },
        }
    }

    /// The part that follows or comes before.
    pub fn next(self, forward: bool) -> (r: Focus)
        ensures
            r == self.following(forward),
    {
        match self {
            Focus::Sidebar => if forward {
                Focus::Primary
            } else {
                Focus::Queue
            },
            Focus::Primary => if forward {
                Focus::Secondary
            } else {
                Focus::Sidebar
            },
            Focus::Secondary => if forward {
                Focus::Queue
            } else {
                Focus::Primary
            },
            Focus::Queue => if forward {
                Focus::Sidebar
            } else {
                Focus::Secondary
            },
        }
    }
}

/// Going on and back again leads to the same part.
pub proof fn focus_comes_back(focus: Focus, forward: bool)
    ensures
        focus.following(forward).following(!forward) == focus,
{
}

/// What is about to be done once it is confirmed.
#[derive(Debug, Clone, Copy, PartialEq, Eq, Structural)]
pub enum ConfirmAction {
    ClearQueue,
    DeleteCloudPlaylist,
    ClearCache,
    Relogin,
}

/// Whether the music service answers.
#[derive(Debug, Clone, Copy, PartialEq, Eq, Structural)]
pub enum Connection {
    Unknown,
    Connected,
    Unreachable,
}

/// The parts of a page take the keys in this order: the sidebar, the middle, the songs, the
/// queue, and the sidebar again.
pub proof fn focus_goes_round()
    ensures
        Focus::Sidebar.following(true) == Focus::Primary,
        Focus::Primary.following(true) == Focus::Secondary,
        Focus::Secondary.following(true) == Focus::Queue,
        Focus::Queue.following(true) == Focus::Sidebar,
{
}

} // verus!
