//! What the screen shows around the pages.

use vstd::prelude::*;
use crate::app::nav::{Focus, Tab};
use crate::text::opt;

verus! {

#[derive(Debug, Clone, Copy, PartialEq, Eq, Structural)]
pub enum Level {
    Info,
    Success,
    Warn,
    Error,
}

/// The status line.
#[verifier::ext_equal]
#[derive(Debug)]
pub struct Status<S = String> {
    pub level: Level,
    pub text: S,
}

impl View for Status<String> {
    type V = Status<Seq<char>>;

    open spec fn view(&self) -> Status<Seq<char>> {
        Status { level: self.level, text: self.text@ }
    }
}

/// What the screen shows around the pages.
#[derive(Debug)]
pub struct Screen<S = String> {
    pub tab: Tab,
    pub focus: Focus,
    pub sidebar_visible: bool,
    pub show_lyric_panel: bool,
    pub lyric_visible: bool,
    pub should_quit: bool,
    pub force_quit: bool,
    pub status: Status<S>,
    /// What is being waited for.
    pub busy: Option<S>,
    pub sort_descending: bool,
    pub hover: Option<(u16, u16)>,
    pub ticks: u64,
}

impl View for Screen<String> {
    type V = Screen<Seq<char>>;

    open spec fn view(&self) -> Screen<Seq<char>> {
        Screen {
            tab: self.tab,
            focus: self.focus,
            sidebar_visible: self.sidebar_visible,
            show_lyric_panel: self.show_lyric_panel,
            lyric_visible: self.lyric_visible,
            should_quit: self.should_quit,
            force_quit: self.force_quit,
            status: self.status@,
            busy: opt(self.busy),
            sort_descending: self.sort_descending,
            hover: self.hover,
            ticks: self.ticks,
        }
    }
}

/// The view of the screen, folded: what is said of the whole program need not
/// look inside.
#[verifier::opaque]
pub open spec fn screen_view(screen: Screen<String>) -> Screen<Seq<char>> {
    screen@
}

impl Screen<Seq<char>> {
    /// The screen at the start: on the first page, the newest songs on top.
    pub open spec fn fresh() -> Self {
        Screen {
            tab: Tab::Home,
            focus: Focus::Primary,
            sidebar_visible: true,
            show_lyric_panel: true,
            lyric_visible: false,
            should_quit: false,
            force_quit: false,
            status: Status { level: Level::Info, text: Seq::empty() },
            busy: None,
            sort_descending: true,
            hover: None,
            ticks: 0,
        }
    }
}

impl Screen<String> {
    pub fn new() -> (r: Self)
        ensures
            screen_view(r) == Screen::<Seq<char>>::fresh(),
    {
        proof {
            reveal(screen_view);
        }
        Screen {
            tab: Tab::Home,
            focus: Focus::Primary,
            sidebar_visible: true,
            show_lyric_panel: true,
            lyric_visible: false,
            should_quit: false,
            force_quit: false,
            status: Status { level: Level::Info, text: String::new() },
            busy: None,
            sort_descending: true,
            hover: None,
            ticks: 0,
        }
    }

    /// Notes whether the lyrics are on the screen.
    pub fn set_lyric_visible(&mut self, lyric_visible: bool)
        ensures
            screen_view(*final(self)) == (Screen { lyric_visible, ..screen_view(*old(self)) }),
    {
        proof {
            reveal(screen_view);
        }
        self.lyric_visible = lyric_visible;
    }

    pub fn tab(&self) -> (r: Tab)
        ensures
            r == screen_view(*self).tab,
    {
        proof {
            reveal(screen_view);
        }
        self.tab
    }

    pub fn focus(&self) -> (r: Focus)
        ensures
            r == screen_view(*self).focus,
    {
        proof {
            reveal(screen_view);
        }
        self.focus
    }

    pub fn sidebar_visible(&self) -> (r: bool)
        ensures
            r == screen_view(*self).sidebar_visible,
    {
        proof {
            reveal(screen_view);
        }
        self.sidebar_visible
    }

    pub fn show_lyric_panel(&self) -> (r: bool)
        ensures
            r == screen_view(*self).show_lyric_panel,
    {
        proof {
            reveal(screen_view);
        }
        self.show_lyric_panel
    }

    pub fn lyric_visible(&self) -> (r: bool)
        ensures
            r == screen_view(*self).lyric_visible,
    {
        proof {
            reveal(screen_view);
        }
        self.lyric_visible
    }

    pub fn should_quit(&self) -> (r: bool)
        ensures
            r == screen_view(*self).should_quit,
    {
        proof {
            reveal(screen_view);
        }
        self.should_quit
    }

    pub fn sort_descending(&self) -> (r: bool)
        ensures
            r == screen_view(*self).sort_descending,
    {
        proof {
            reveal(screen_view);
        }
        self.sort_descending
    }

    pub fn ticks(&self) -> (r: u64)
        ensures
            r == screen_view(*self).ticks,
    {
        proof {
            reveal(screen_view);
        }
        self.ticks
    }

    pub fn set_tab(&mut self, tab: Tab)
        ensures
            screen_view(*final(self)) == (Screen { tab, ..screen_view(*old(self)) }),
    {
        proof {
            reveal(screen_view);
        }
        self.tab = tab;
    }

    pub fn set_focus(&mut self, focus: Focus)
        ensures
            screen_view(*final(self)) == (Screen { focus, ..screen_view(*old(self)) }),
    {
        proof {
            reveal(screen_view);
        }
        self.focus = focus;
    }

    pub fn set_sidebar_visible(&mut self, sidebar_visible: bool)
        ensures
            screen_view(*final(self)) == (Screen { sidebar_visible, ..screen_view(*old(self)) }),
    {
        proof {
            reveal(screen_view);
        }
        self.sidebar_visible = sidebar_visible;
    }

    pub fn set_show_lyric_panel(&mut self, show_lyric_panel: bool)
        ensures
            screen_view(*final(self)) == (Screen { show_lyric_panel, ..screen_view(*old(self)) }),
    {
        proof {
            reveal(screen_view);
        }
        self.show_lyric_panel = show_lyric_panel;
    }

    pub fn set_sort_descending(&mut self, sort_descending: bool)
        ensures
            screen_view(*final(self)) == (Screen { sort_descending, ..screen_view(*old(self)) }),
    {
        proof {
            reveal(screen_view);
        }
        self.sort_descending = sort_descending;
    }

    pub fn set_ticks(&mut self, ticks: u64)
        ensures
            screen_view(*final(self)) == (Screen { ticks, ..screen_view(*old(self)) }),
    {
        proof {
            reveal(screen_view);
        }
        self.ticks = ticks;
    }

    pub fn set_hover(&mut self, hover: Option<(u16, u16)>)
        ensures
            screen_view(*final(self)) == (Screen { hover, ..screen_view(*old(self)) }),
    {
        proof {
            reveal(screen_view);
        }
        self.hover = hover;
    }

    pub fn set_busy(&mut self, busy: Option<String>)
        ensures
            screen_view(*final(self)) == (Screen { busy: opt(busy), ..screen_view(*old(self)) }),
    {
        proof {
            reveal(screen_view);
        }
        self.busy = busy;
    }

    /// Sets the status line.
    pub fn set_status(&mut self, level: Level, text: String)
        ensures
            screen_view(*final(self)) == (Screen {
                status: Status { level, text: text@ },
                ..screen_view(*old(self))
            }),
    {
        proof {
            reveal(screen_view);
        }
        self.status = Status { level, text };
    }

    /// The program is to end, at once where `force` says so.
    pub fn quit(&mut self, force: bool)
        ensures
            screen_view(*final(self)) == (Screen {
                should_quit: true,
                force_quit: force || screen_view(*old(self)).force_quit,
                ..screen_view(*old(self))
            }),
    {
        proof {
            reveal(screen_view);
        }
        self.should_quit = true;
        self.force_quit = force || self.force_quit;
    }

    pub fn force_quit(&self) -> (r: bool)
        ensures
            r == screen_view(*self).force_quit,
    {
        proof {
            reveal(screen_view);
        }
        self.force_quit
    }
}

} // verus!
