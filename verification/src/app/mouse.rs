//! The mouse.

use vstd::prelude::*;
use crate::app::effect::Effect;
use crate::app::nav::{Tab, TABS};
use crate::app::player::Player;
use crate::app::screen::Screen;
use crate::app::state::{App, AppView, Marks};
use crate::event::{HitTarget, HitZone, MouseInput, MouseKind};

verus! {

/// Whether a zone holds lines that can be chosen.
pub open spec fn has_rows(target: HitTarget) -> bool {
    target == HitTarget::Entries || target == HitTarget::Songs || target == HitTarget::Queue
}

fn holds_rows(target: HitTarget) -> (r: bool)
    ensures
        r == has_rows(target),
{
    match target {
        HitTarget::Entries => true,
        HitTarget::Songs => true,
        HitTarget::Queue => true,
        _ => false,
    }
}

/// How far a column lies behind the left edge.
pub open spec fn columns_in(column: u16, left: u16) -> u16 {
    if column < left {
        0
    } else {
        (column - left) as u16
    }
}

/// The nearest place that lies within a track.
pub open spec fn inside(target: u64, duration_ms: u64) -> u64 {
    if duration_ms == 0 {
        0
    } else if target >= duration_ms {
        (duration_ms - 1) as u64
    } else {
        target
    }
}

fn keep_inside(target: u64, duration_ms: u64) -> (r: u64)
    ensures
        r == inside(target, duration_ms),
{
    if duration_ms == 0 {
        0
    } else if target >= duration_ms {
        duration_ms - 1
    } else {
        target
    }
}

impl AppView {
    /// The wheel moves the list under the mouse by one line.
    #[verifier::opaque]
    pub open spec fn scroll_list_at(self, mouse: MouseInput, delta: int) -> AppView {
        match mouse.zone {
            Some(zone) => if has_rows(zone.target) {
                self.focus_hit_target(zone.target).move_selection(delta)
            } else {
                self
            },
            None => self,
        }
    }

    /// A line under the mouse is marked, and its list takes the keys.
    #[verifier::opaque]
    pub open spec fn point_at(self, target: HitTarget, index: usize) -> AppView {
        let tab = self.state.screen.tab;
        (match target {
            HitTarget::Entries => self.with_pages(self.state.pages.select_entry(tab, index)),
            HitTarget::Songs => self.with_pages(self.state.pages.select_song(tab, index)),
            HitTarget::Queue => self.with_marks(Marks { queue: Some(index), ..self.state.marks }),
            _ => self,
        }).focus_hit_target(target)
    }

    /// A click on a line marks it; the second click does what Enter does.
    #[verifier::opaque]
    pub open spec fn click_list_row(self, zone: HitZone) -> AppView {
        match zone.index {
            Some(index) => if has_rows(zone.target) {
                let marked = self.point_at(zone.target, index).emit(
                    Effect::RememberClick { target: zone.target, index: Some(index) },
                );
                if zone.double_click {
                    marked.activate()
                } else {
                    marked
                }
            } else {
                self
            },
            None => self,
        }
    }

    /// A click on a setting marks it; one on the marked setting changes it.
    #[verifier::opaque]
    pub open spec fn click_setting(self, zone: HitZone) -> AppView {
        match zone.index {
            Some(index) => {
                let marked = self.mark_setting(index).emit(
                    Effect::RememberClick { target: zone.target, index: Some(index) },
                );
                if self.state.marks.settings == index || zone.double_click {
                    marked.adjust_setting(1)
                } else {
                    marked
                }
            },
            None => self,
        }
    }

    /// A click on the progress bar asks for the place that it stands for.
    #[verifier::opaque]
    pub open spec fn click_progress(self, zone: HitZone, column: u16) -> AppView {
        let duration_ms = self.state.player.duration_ms;
        if duration_ms == 0 || zone.width == 0 {
            self
        } else {
            self.emit(
                Effect::EstimateProgress {
                    offset: columns_in(column, zone.left),
                    width: zone.width,
                    duration_ms,
                },
            )
        }
    }

    /// The place in the track that a click on the progress bar stands for is known:
    /// the track goes on from there, at the latest from its last millisecond.
    #[verifier::opaque]
    pub open spec fn progress_estimated(self, target: u64) -> AppView {
        let place = inside(target, self.state.player.duration_ms);
        self.emit(Effect::AudioSeekTo(place)).with_player(
            Player { position_ms: place, ..self.state.player },
        )
    }

    #[verifier::opaque]
    pub open spec fn retry_profile(self) -> AppView {
        self.info("正在重新获取用户资料…"@).fetch_user_info()
    }

    #[verifier::opaque]
    pub open spec fn click_at(self, mouse: MouseInput) -> AppView {
        match mouse.zone {
            None => self,
            Some(zone) => match zone.target {
                HitTarget::Tab(index) => if index < TABS {
                    self.switch_tab(Tab::placed(index as int))
                } else {
                    self
                },
                HitTarget::Entries => self.click_list_row(zone),
                HitTarget::Songs => self.click_list_row(zone),
                HitTarget::Queue => self.click_list_row(zone),
                HitTarget::Progress => self.click_progress(zone, mouse.column),
                HitTarget::Settings => self.click_setting(zone),
                HitTarget::VipClaim => self.claim_daily_vip(),
                HitTarget::ProfileRetry => self.retry_profile(),
            },
        }
    }

    /// The right button marks a line and opens the menu of its song.
    #[verifier::opaque]
    pub open spec fn right_click_at(self, mouse: MouseInput) -> AppView {
        match mouse.zone {
            Some(zone) => match zone.index {
                Some(index) => if has_rows(zone.target) {
                    self.point_at(zone.target, index).open_context_menu()
                } else {
                    self
                },
                None => self,
            },
            None => self,
        }
    }

    #[verifier::opaque]
    pub open spec fn handle_mouse(self, mouse: MouseInput) -> AppView {
        match mouse.kind {
            MouseKind::Moved => self.with_screen(
                Screen { hover: Some((mouse.column, mouse.row)), ..self.state.screen },
            ),
            MouseKind::ScrollDown => self.scroll_list_at(mouse, 1),
            MouseKind::ScrollUp => self.scroll_list_at(mouse, -1),
            MouseKind::LeftDown => self.click_at(mouse),
            MouseKind::RightDown => self.right_click_at(mouse),
            MouseKind::Other => self,
        }
    }
}

impl App {
    /// Moves the list under the mouse.
    pub fn scroll_list_at(&mut self, mouse: MouseInput, delta: isize)
        ensures
            final(self)@ == old(self)@.scroll_list_at(mouse, delta as int),
    {
        proof {
            reveal(AppView::scroll_list_at);
        }
        match mouse.zone {
            Some(zone) => {
                if holds_rows(zone.target) {
                    self.focus_hit_target(zone.target);
                    self.move_selection(delta);
                }
            },
            None => {},
        }
    }

    fn point_at(&mut self, target: HitTarget, index: usize)
        ensures
            final(self)@ == old(self)@.point_at(target, index),
    {
        proof {
            reveal(AppView::point_at);
        }
        let tab = self.state.screen.tab();
        match target {
            HitTarget::Entries => {
                self.state.pages.select_entry(tab, index);
            },
            HitTarget::Songs => {
                self.state.pages.select_song(tab, index);
            },
            HitTarget::Queue => {
                self.state.marks.queue = Some(index);
            },
            _ => {},
        }
        self.focus_hit_target(target);
    }

    /// Takes a click on a line of a list.
    pub fn click_list_row(&mut self, zone: HitZone)
        ensures
            final(self)@ == old(self)@.click_list_row(zone),
    {
        proof {
            reveal(AppView::click_list_row);
        }
        match zone.index {
            Some(index) => {
                if holds_rows(zone.target) {
                    self.point_at(zone.target, index);
                    self.emit(Effect::RememberClick { target: zone.target, index: Some(index) });
                    if zone.double_click {
                        self.activate();
                    }
                }
            },
            None => {},
        }
    }

    /// Takes a click on a line of the settings page.
    pub fn click_setting(&mut self, zone: HitZone)
        ensures
            final(self)@ == old(self)@.click_setting(zone),
    {
        proof {
            reveal(AppView::click_setting);
        }
        match zone.index {
            Some(index) => {
                let marked = self.state.marks.settings == index;
                self.mark_setting(index);
                self.emit(Effect::RememberClick { target: zone.target, index: Some(index) });
                if marked || zone.double_click {
                    self.adjust_setting(1);
                }
            },
            None => {},
        }
    }

    /// Takes a click on the progress bar.
    pub fn click_progress(&mut self, zone: HitZone, column: u16)
        ensures
            final(self)@ == old(self)@.click_progress(zone, column),
    {
        proof {
            reveal(AppView::click_progress);
        }
        let duration_ms: u64 = self.state.player.duration_ms();
        if duration_ms == 0 || zone.width == 0 {
            return;
        }
        let offset: u16 = if column < zone.left {
            0
        } else {
            column - zone.left
        };
        self.emit(Effect::EstimateProgress { offset, width: zone.width, duration_ms });
    }

    /// Goes to the place that a click on the progress bar stands for.
    pub fn progress_estimated(&mut self, target: u64)
        ensures
            final(self)@ == old(self)@.progress_estimated(target),
    {
        proof {
            reveal(AppView::progress_estimated);
        }
        let place: u64 = keep_inside(target, self.state.player.duration_ms());
        self.emit(Effect::AudioSeekTo(place));
        self.state.player.set_position_ms(place);
    }

    fn retry_profile(&mut self)
        ensures
            final(self)@ == old(self)@.retry_profile(),
    {
        proof {
            reveal(AppView::retry_profile);
        }
        self.info("正在重新获取用户资料…".to_owned());
        self.fetch_user_info();
    }

    /// Takes a click with the left button.
    pub fn click_at(&mut self, mouse: MouseInput)
        ensures
            final(self)@ == old(self)@.click_at(mouse),
    {
        proof {
            reveal(AppView::click_at);
        }
        let zone = match mouse.zone {
            Some(zone) => zone,
            None => {
                return;
            },
        };
        match zone.target {
            HitTarget::Tab(index) => match Tab::from_sidebar_index(index) {
                Some(tab) => {
                    self.switch_tab(tab);
                },
                None => {},
            },
            HitTarget::Entries | HitTarget::Songs | HitTarget::Queue => {
                self.click_list_row(zone);
            },
            HitTarget::Progress => {
                self.click_progress(zone, mouse.column);
            },
            HitTarget::Settings => {
                self.click_setting(zone);
            },
            HitTarget::VipClaim => {
                self.claim_daily_vip();
            },
            HitTarget::ProfileRetry => {
                self.retry_profile();
            },
        }
    }

    /// Takes a click with the right button.
    pub fn right_click_at(&mut self, mouse: MouseInput)
        ensures
            final(self)@ == old(self)@.right_click_at(mouse),
    {
        proof {
            reveal(AppView::right_click_at);
        }
        match mouse.zone {
            Some(zone) => match zone.index {
                Some(index) => {
                    if holds_rows(zone.target) {
                        self.point_at(zone.target, index);
                        self.open_context_menu();
                    }
                },
                None => {},
            },
            None => {},
        }
    }

    /// Takes what the mouse did.
    pub fn handle_mouse(&mut self, mouse: MouseInput)
        ensures
            final(self)@ == old(self)@.handle_mouse(mouse),
    {
        proof {
            reveal(AppView::handle_mouse);
        }
        match mouse.kind {
            MouseKind::Moved => {
                self.state.screen.set_hover(Some((mouse.column, mouse.row)));
            },
            MouseKind::ScrollDown => {
                self.scroll_list_at(mouse, 1);
            },
            MouseKind::ScrollUp => {
                self.scroll_list_at(mouse, -1);
            },
            MouseKind::LeftDown => {
                self.click_at(mouse);
            },
            MouseKind::RightDown => {
                self.right_click_at(mouse);
            },
            MouseKind::Other => {},
        }
    }
}

/// Where nothing was hit, a click or a turn of the wheel changes nothing.
pub proof fn a_miss_changes_nothing(app: AppView, mouse: MouseInput)
    requires
        mouse.zone is None,
        mouse.kind != MouseKind::Moved,
    ensures
        app.handle_mouse(mouse) == app,
{
    reveal(AppView::handle_mouse);
    reveal(AppView::scroll_list_at);
    reveal(AppView::click_at);
    reveal(AppView::right_click_at);
}

} // verus!
