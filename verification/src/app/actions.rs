//! What keys do: first to the panel that is open, then to the page.

use vstd::prelude::*;
use crate::app::conf;
use crate::app::effect::{AfterSave, Effect};
use crate::app::identity::{count_login_candidates, login_candidates};
use crate::app::nav::{ConfirmAction, Focus, Tab, HELP_LINES, PAGE_STEP};
use crate::app::panels::Panels;
use crate::app::panes::{step_cursor, stepped, Edit, HelpPane, PromptAction, PromptState, TextInput};
use crate::app::queue::PlayQueue;
use crate::app::screen::Screen;
use crate::app::settings::{cycle_quality, quality_on};
use crate::app::state::{App, AppView};
use crate::audio::engine::SEEK_STEP_MS;
use crate::config::Config;
use crate::event::{Action, Event};
use crate::model::{quality_label, quality_name};
use crate::text::{cat2, cat3, trim, trimmed};

verus! {

/// How many milliseconds one key shifts the lyrics.
pub const LYRIC_KEY_STEP_MS: i64 = 100;

/// What a key does to a line that is written.
pub open spec fn edit_of(action: Action) -> Option<Edit> {
    match action {
        Action::Char(c) => Some(Edit::Insert(c)),
        Action::Backspace => Some(Edit::Backspace),
        Action::Delete => Some(Edit::Delete),
        Action::CursorLeft => Some(Edit::Left),
        Action::CursorRight => Some(Edit::Right),
        Action::CursorHome => Some(Edit::Home),
        Action::CursorEnd => Some(Edit::End),
        _ => None,
    }
}

fn edit_for(action: Action) -> (r: Option<Edit>)
    ensures
        r == edit_of(action),
{
    match action {
        Action::Char(c) => Some(Edit::Insert(c)),
        Action::Backspace => Some(Edit::Backspace),
        Action::Delete => Some(Edit::Delete),
        Action::CursorLeft => Some(Edit::Left),
        Action::CursorRight => Some(Edit::Right),
        Action::CursorHome => Some(Edit::Home),
        Action::CursorEnd => Some(Edit::End),
        _ => None,
    }
}

/// Whether a key belongs to the search line while that is written.
pub open spec fn writes(action: Action) -> bool {
    edit_of(action) is Some || action == Action::Submit || action == Action::Cancel
}

/// By how many places a key changes a setting.
pub open spec fn value_step(action: Action) -> Option<int> {
    match action {
        Action::CursorLeft | Action::SeekBackward => Some(-1),
        Action::CursorRight | Action::SeekForward => Some(1),
        _ => None,
    }
}

fn step_of_value(action: Action) -> (r: Option<isize>)
    ensures
        match r {
            Some(step) => value_step(action) == Some(step as int) && -1 <= step <= 1,
            None => value_step(action) is None,
        },
{
    match action {
        Action::CursorLeft | Action::SeekBackward => Some(-1),
        Action::CursorRight | Action::SeekForward => Some(1),
        _ => None,
    }
}

/// The help panel after a key; keys that mean nothing there change nothing.
pub open spec fn help_after(help: HelpPane, action: Action) -> HelpPane {
    let at = |delta: int|
        HelpPane { offset: stepped(help.offset, HELP_LINES as nat, delta), ..help };
    match action {
        Action::MoveUp => at(-1),
        Action::MoveDown => at(1),
        Action::PageUp => at(-PAGE_STEP as int),
        Action::PageDown => at(PAGE_STEP as int),
        Action::MoveTop => HelpPane { offset: 0, ..help },
        Action::MoveBottom => HelpPane { offset: (HELP_LINES - 1) as usize, ..help },
        Action::Help | Action::Cancel => HelpPane { open: false, ..help },
        _ => help,
    }
}

fn scroll_help(help: HelpPane, action: Action) -> (r: HelpPane)
    ensures
        r == help_after(help, action),
{
    match action {
        Action::MoveUp => HelpPane { offset: step_cursor(help.offset, HELP_LINES, -1), ..help },
        Action::MoveDown => HelpPane { offset: step_cursor(help.offset, HELP_LINES, 1), ..help },
        Action::PageUp => HelpPane {
            offset: step_cursor(help.offset, HELP_LINES, -PAGE_STEP),
            ..help
        },
        Action::PageDown => HelpPane {
            offset: step_cursor(help.offset, HELP_LINES, PAGE_STEP),
            ..help
        },
        Action::MoveTop => HelpPane { offset: 0, ..help },
        Action::MoveBottom => HelpPane { offset: HELP_LINES - 1, ..help },
        Action::Help | Action::Cancel => HelpPane { open: false, ..help },
        _ => help,
    }
}

impl AppView {
    /// The lines that are written can still grow.
    pub open spec fn has_room(self) -> bool {
        &&& self.state.pages.search.input.chars.len() < usize::MAX
        &&& self.state.panels.prompt matches Some(prompt) ==> prompt.buffer.chars.len()
            < usize::MAX
    }

    #[verifier::opaque]
    pub open spec fn quit(self, force: bool) -> AppView {
        self.with_screen(
            Screen {
                should_quit: true,
                force_quit: force || self.state.screen.force_quit,
                ..self.state.screen
            },
        )
    }

    /// The keys that end the program while a panel is open; all others are lost.
    #[verifier::opaque]
    pub open spec fn quit_key(self, action: Action) -> AppView {
        match action {
            Action::Quit => self.quit(false),
            Action::ForceQuit => self.quit(true),
            _ => self,
        }
    }

    #[verifier::opaque]
    pub open spec fn handle_help_key(self, action: Action) -> AppView {
        match action {
            Action::Quit | Action::ForceQuit => self.quit_key(action),
            _ => self.with_panels(
                Panels { help: help_after(self.state.panels.help, action), ..self.state.panels },
            ),
        }
    }

    #[verifier::opaque]
    pub open spec fn handle_quality_key(self, action: Action) -> AppView {
        match action {
            Action::MoveUp => self.with_panels(self.state.panels.picker_step(-1)),
            Action::MoveDown => self.with_panels(self.state.panels.picker_step(1)),
            Action::Submit => self.confirm_quality_picker(),
            Action::Cancel => self.with_panels(
                Panels { quality_picker: None, ..self.state.panels },
            ).info("已取消下载"@),
            _ => self.quit_key(action),
        }
    }

    #[verifier::opaque]
    pub open spec fn choose_login(self, login_picker: Option<usize>) -> AppView {
        self.with_panels(Panels { login_picker, ..self.state.panels })
    }

    #[verifier::opaque]
    pub open spec fn handle_login_choice_key(self, cursor: usize, action: Action) -> AppView {
        let count = login_candidates().len();
        match action {
            Action::MoveUp => self.choose_login(Some(stepped(cursor, count, -1))),
            Action::MoveDown => self.choose_login(Some(stepped(cursor, count, 1))),
            Action::Submit => self.confirm_login_source(),
            Action::Cancel => self.choose_login(None).info("已取消登录"@),
            _ => self.quit_key(action),
        }
    }

    #[verifier::opaque]
    pub open spec fn ask(self, pending_confirm: Option<ConfirmAction>) -> AppView {
        self.with_panels(Panels { pending_confirm, ..self.state.panels })
    }

    #[verifier::opaque]
    pub open spec fn clear_cache(self) -> AppView {
        self.emit(Effect::ClearCache)
    }

    #[verifier::opaque]
    pub open spec fn confirmed(self, confirm: ConfirmAction) -> AppView {
        match confirm {
            ConfirmAction::ClearQueue => self.clear_queue(),
            ConfirmAction::DeleteCloudPlaylist => self.delete_cloud_playlist(),
            ConfirmAction::ClearCache => self.clear_cache(),
            ConfirmAction::Relogin => self.relogin(),
        }
    }

    #[verifier::opaque]
    pub open spec fn handle_confirm_key(self, confirm: ConfirmAction, action: Action) -> AppView {
        match action {
            Action::Submit => self.ask(None).confirmed(confirm),
            Action::Cancel => self.ask(None).info("已取消"@),
            Action::Char(c) => if c == 'n' || c == 'N' {
                self.ask(None).info("已取消"@)
            } else {
                self
            },
            _ => self,
        }
    }

    #[verifier::opaque]
    pub open spec fn close_prompt(self) -> AppView {
        self.with_panels(self.state.panels.with_prompt(None))
    }

    #[verifier::opaque]
    pub open spec fn prompt_entered(self, line: Seq<char>, action: PromptAction) -> AppView {
        match action {
            PromptAction::CreateCloudPlaylist => self.close_prompt().create_cloud_playlist(
                trimmed(line),
            ),
        }
    }

    #[verifier::opaque]
    pub open spec fn handle_prompt_key(self, action: Action) -> AppView {
        match self.state.panels.prompt {
            None => self,
            Some(prompt) => match edit_of(action) {
                Some(edit) => self.with_panels(self.state.panels.edit_prompt(edit)),
                None => match action {
                    Action::Submit => self.prompt_entered(prompt.buffer.chars, prompt.action),
                    Action::Cancel => self.close_prompt().info("已取消"@),
                    _ => self.quit_key(action),
                },
            },
        }
    }

    #[verifier::opaque]
    pub open spec fn close_login(self) -> AppView {
        let closed = self.with_panels(self.state.panels.with_login(None));
        match self.state.panels.login {
            Some(login) => if login.finished {
                closed
            } else {
                closed.info("已取消登录"@)
            },
            None => closed,
        }
    }

    #[verifier::opaque]
    pub open spec fn handle_login_key(self, action: Action) -> AppView {
        match action {
            Action::Cancel => self.close_login(),
            _ => self.quit_key(action),
        }
    }

    /// A key while the search line is written.
    #[verifier::opaque]
    pub open spec fn handle_editing_action(self, action: Action) -> AppView {
        match edit_of(action) {
            Some(edit) => self.with_pages(self.state.pages.edit(edit)),
            None => match action {
                Action::Submit => self.run_search(),
                Action::Cancel => self.with_pages(self.state.pages.editing(false)),
                _ => self,
            },
        }
    }

    #[verifier::opaque]
    pub open spec fn open_help(self) -> AppView {
        self.with_panels(
            Panels { help: HelpPane { open: true, offset: 0 }, ..self.state.panels },
        )
    }

    #[verifier::opaque]
    pub open spec fn toggle_sidebar(self) -> AppView {
        self.with_screen(
            Screen { sidebar_visible: !self.state.screen.sidebar_visible, ..self.state.screen },
        )
    }

    #[verifier::opaque]
    pub open spec fn toggle_lyric_panel(self) -> AppView {
        self.with_screen(
            Screen { show_lyric_panel: !self.state.screen.show_lyric_panel, ..self.state.screen },
        )
    }

    /// The window is to be put away, or brought back.
    #[verifier::opaque]
    pub open spec fn toggle_window(self) -> AppView {
        self.emit(Effect::ToggleWindow)
    }

    /// What became of that; `None` where windows cannot be controlled here.
    #[verifier::opaque]
    pub open spec fn window_toggled(self, done: Option<bool>) -> AppView {
        match done {
            None => self.warn("当前环境不支持窗口控制（需要 niri）"@),
            Some(done) => if done {
                self.info("已切换窗口最小化"@)
            } else {
                self.warn("窗口操作失败（详见日志）"@)
            },
        }
    }

    /// The keys to the sides: in the sidebar they go to the next part of the page,
    /// elsewhere on or back in the track.
    #[verifier::opaque]
    pub open spec fn seek_key(self, forward: bool) -> AppView {
        if self.state.screen.focus == Focus::Sidebar {
            self.cycle_focus(forward)
        } else if forward {
            self.seek_by(SEEK_STEP_MS)
        } else {
            self.seek_by((-SEEK_STEP_MS) as i64)
        }
    }

    #[verifier::opaque]
    pub open spec fn cycle_playback_mode(self) -> AppView {
        let mode = self.state.queue.mode.following();
        self.with_queue(PlayQueue { mode, ..self.state.queue }).with_config(
            Config { playback_mode: mode, ..self.state.config },
        ).info("播放模式："@ + mode.name())
    }

    /// The next quality; it holds from the next song on.
    #[verifier::opaque]
    pub open spec fn cycle_quality(self) -> AppView {
        let next = quality_on(self.state.config.quality, 1);
        self.with_config(Config { quality: next, ..self.state.config }).save_config(
            AfterSave::Nothing,
        ).success("音质："@ + quality_name(next) + "（下一首生效）"@)
    }

    #[verifier::opaque]
    pub open spec fn open_search(self) -> AppView {
        let shown = self.switch_tab(Tab::Search).with_focus(Focus::Primary);
        shown.with_pages(shown.state.pages.editing(true))
    }

    #[verifier::opaque]
    pub open spec fn open_settings(self) -> AppView {
        self.switch_tab(Tab::Settings).with_focus(Focus::Primary)
    }

    #[verifier::opaque]
    pub open spec fn ask_to_delete_playlist(self) -> AppView {
        if self.state.pages.sync_target is None {
            self.warn("请先在「云端」标签页选中一个歌单"@)
        } else {
            self.ask(Some(ConfirmAction::DeleteCloudPlaylist))
        }
    }

    #[verifier::opaque]
    pub open spec fn new_cloud_playlist(self) -> AppView {
        self.with_panels(
            self.state.panels.with_prompt(
                Some(
                    PromptState {
                        buffer: TextInput::<Seq<char>>::empty(),
                        action: PromptAction::CreateCloudPlaylist,
                    },
                ),
            ),
        ).info("输入歌单名称，Enter 创建 · Esc 取消"@)
    }

    #[verifier::opaque]
    pub open spec fn handle_normal_action(self, action: Action) -> AppView {
        match action {
            Action::Quit | Action::ForceQuit => self.quit_key(action),
            Action::Help => self.open_help(),
            Action::ContextMenu => self.open_context_menu(),
            Action::SwitchSource => self.open_sources_page(),
            Action::SetDefaultSource => self.set_default_source(),
            Action::RaiseSourcePriority => self.shift_source_priority(true),
            Action::LowerSourcePriority => self.shift_source_priority(false),
            Action::ToggleSidebar => self.toggle_sidebar(),
            Action::ToggleWindow => self.toggle_window(),
            Action::Digit(number) => self.handle_digit(number),
            Action::FocusNext => self.cycle_focus(true),
            Action::FocusPrev => self.cycle_focus(false),
            Action::MoveDown => self.move_selection(1),
            Action::MoveUp => self.move_selection(-1),
            Action::MoveTop => self.move_selection_edge(true),
            Action::MoveBottom => self.move_selection_edge(false),
            Action::PageDown => self.move_selection(PAGE_STEP as int),
            Action::PageUp => self.move_selection(-PAGE_STEP as int),
            Action::Submit => self.activate(),
            Action::Cancel => self.go_back(),
            Action::PlayPause => self.toggle_playback(),
            Action::Next => self.next_track(true),
            Action::Prev => self.previous_track(),
            Action::SeekForward => self.seek_key(true),
            Action::SeekTo(position_ms) => self.seek_to(position_ms),
            Action::SeekBy(delta_ms) => self.seek_by(delta_ms),
            Action::LoadMoreSearch => self.load_more_search(),
            Action::SeekBackward => self.seek_key(false),
            Action::VolumeUp => self.adjust_volume(true),
            Action::VolumeDown => self.adjust_volume(false),
            Action::ToggleMute => self.toggle_mute(),
            Action::CyclePlaybackMode => self.cycle_playback_mode(),
            Action::CycleQuality => self.cycle_quality(),
            Action::ToggleLyricPanel => self.toggle_lyric_panel(),
            Action::LyricDelay => self.adjust_lyric_offset((-LYRIC_KEY_STEP_MS) as i64),
            Action::LyricAdvance => self.adjust_lyric_offset(LYRIC_KEY_STEP_MS),
            Action::OpenSearch => self.open_search(),
            Action::OpenSettings => self.open_settings(),
            Action::DownloadCurrent => self.download_current(),
            Action::Reload => self.reload_current_tab(),
            Action::QueueAppend => self.queue_focused_song(false),
            Action::AddAllToQueue => self.queue_all_songs(),
            Action::QueuePlayNext => self.queue_focused_song(true),
            Action::RemoveFromQueue => self.remove_selected_from_queue(),
            Action::ClearQueue => self.ask(Some(ConfirmAction::ClearQueue)),
            Action::ClearCache => self.ask(Some(ConfirmAction::ClearCache)),
            Action::ToggleSortOrder => self.toggle_sort_order(),
            Action::OpenRanks => self.switch_tab(Tab::Ranks),
            Action::OpenCloud => self.switch_tab(Tab::Cloud),
            Action::Login => self.open_login_picker(),
            Action::ClaimVip => self.claim_daily_vip(),
            Action::CycleArtistFilter => self.cycle_artist_filter(),
            Action::SyncToCloud => self.sync_queue_to_cloud(),
            Action::AddToCloud => self.add_focused_song_to_cloud(),
            Action::RemoveFromCloud => self.remove_focused_song_from_cloud(),
            Action::DeleteCloudPlaylist => self.ask_to_delete_playlist(),
            Action::NewCloudPlaylist => self.new_cloud_playlist(),
            _ => self,
        }
    }

    /// A key that no panel takes: on the settings page the keys to the sides change a
    /// value; the search line takes what is written in it, and the page the rest.
    #[verifier::opaque]
    pub open spec fn handle_page_key(self, action: Action) -> AppView {
        if self.state.screen.tab == Tab::Settings && value_step(action) is Some {
            self.adjust_setting(value_step(action)->0)
        } else if self.state.is_editing() && writes(action) {
            self.handle_editing_action(action)
        } else {
            self.handle_normal_action(action)
        }
    }

    /// A key that neither the menu nor a list to choose from takes: an open question
    /// comes before everything else, then a line that is asked for, then a login.
    #[verifier::opaque]
    pub open spec fn handle_dialog_key(self, action: Action) -> AppView {
        if self.state.panels.pending_confirm is Some {
            self.handle_confirm_key(self.state.panels.pending_confirm->0, action)
        } else if self.state.panels.prompt is Some {
            self.handle_prompt_key(action)
        } else if self.state.panels.login is Some {
            self.handle_login_key(action)
        } else {
            self.handle_page_key(action)
        }
    }

    /// A key: the panels that are open come first, in a fixed order, and keep it
    /// from what lies behind them.
    #[verifier::opaque]
    pub open spec fn handle_action(self, action: Action) -> AppView {
        if self.state.panels.context_menu is Some {
            self.handle_menu_key(action)
        } else if self.state.panels.help.open {
            self.handle_help_key(action)
        } else if self.state.panels.quality_picker is Some {
            self.handle_quality_key(action)
        } else if self.state.panels.login_picker is Some {
            self.handle_login_choice_key(self.state.panels.login_picker->0, action)
        } else {
            self.handle_dialog_key(action)
        }
    }

    #[verifier::opaque]
    pub open spec fn handle_event(self, event: Event) -> AppView {
        match event {
            Event::Action(action) => self.handle_action(action),
            Event::Resize => self,
            Event::Mouse(mouse) => self.handle_mouse(mouse),
            Event::Audio(audio) => self.handle_audio_event(audio),
            Event::Loaded(loaded) => self.note_connection(*loaded).handle_loaded(*loaded),
            Event::Tick(audio) => self.tick(audio),
        }
    }
}

impl App {
    fn quit(&mut self, force: bool)
        ensures
            final(self)@ == old(self)@.quit(force),
    {
        proof {
            reveal(AppView::quit);
        }
        self.state.screen.quit(force);
    }

    fn quit_key(&mut self, action: Action)
        ensures
            final(self)@ == old(self)@.quit_key(action),
    {
        proof {
            reveal(AppView::quit_key);
        }
        match action {
            Action::Quit => {
                self.quit(false);
            },
            Action::ForceQuit => {
                self.quit(true);
            },
            _ => {},
        }
    }

    fn handle_help_key(&mut self, action: Action)
        ensures
            final(self)@ == old(self)@.handle_help_key(action),
    {
        proof {
            reveal(AppView::handle_help_key);
        }
        match action {
            Action::Quit | Action::ForceQuit => {
                self.quit_key(action);
            },
            _ => {
                let help = scroll_help(self.state.panels.help(), action);
                self.state.panels.set_help(help);
            },
        }
    }

    fn handle_quality_key(&mut self, action: Action)
        ensures
            final(self)@ == old(self)@.handle_quality_key(action),
    {
        proof {
            reveal(AppView::handle_quality_key);
        }
        match action {
            Action::MoveUp => {
                self.state.panels.step_picker(-1);
            },
            Action::MoveDown => {
                self.state.panels.step_picker(1);
            },
            Action::Submit => {
                self.confirm_quality_picker();
            },
            Action::Cancel => {
                self.state.panels.set_quality_picker(None);
                self.info("已取消下载".to_owned());
            },
            _ => {
                self.quit_key(action);
            },
        }
    }

    fn choose_login(&mut self, login_picker: Option<usize>)
        ensures
            final(self)@ == old(self)@.choose_login(login_picker),
    {
        proof {
            reveal(AppView::choose_login);
        }
        self.state.panels.set_login_picker(login_picker);
    }

    fn handle_login_choice_key(&mut self, cursor: usize, action: Action)
        ensures
            final(self)@ == old(self)@.handle_login_choice_key(cursor, action),
    {
        proof {
            reveal(AppView::handle_login_choice_key);
        }
        let count: usize = count_login_candidates();
        match action {
            Action::MoveUp => {
                self.choose_login(Some(step_cursor(cursor, count, -1)));
            },
            Action::MoveDown => {
                self.choose_login(Some(step_cursor(cursor, count, 1)));
            },
            Action::Submit => {
                self.confirm_login_source();
            },
            Action::Cancel => {
                self.choose_login(None);
                self.info("已取消登录".to_owned());
            },
            _ => {
                self.quit_key(action);
            },
        }
    }

    fn ask(&mut self, pending_confirm: Option<ConfirmAction>)
        ensures
            final(self)@ == old(self)@.ask(pending_confirm),
    {
        proof {
            reveal(AppView::ask);
        }
        self.state.panels.set_pending_confirm(pending_confirm);
    }

    /// Asks for the cache to be emptied.
    pub fn clear_cache(&mut self)
        ensures
            final(self)@ == old(self)@.clear_cache(),
    {
        proof {
            reveal(AppView::clear_cache);
        }
        self.emit(Effect::ClearCache);
    }

    fn confirmed(&mut self, confirm: ConfirmAction)
        ensures
            final(self)@ == old(self)@.confirmed(confirm),
    {
        proof {
            reveal(AppView::confirmed);
        }
        match confirm {
            ConfirmAction::ClearQueue => {
                self.clear_queue();
            },
            ConfirmAction::DeleteCloudPlaylist => {
                self.delete_cloud_playlist();
            },
            ConfirmAction::ClearCache => {
                self.clear_cache();
            },
            ConfirmAction::Relogin => {
                self.relogin();
            },
        }
    }

    fn handle_confirm_key(&mut self, confirm: ConfirmAction, action: Action)
        ensures
            final(self)@ == old(self)@.handle_confirm_key(confirm, action),
    {
        proof {
            reveal(AppView::handle_confirm_key);
        }
        match action {
            Action::Submit => {
                self.ask(None);
                self.confirmed(confirm);
            },
            Action::Cancel => {
                self.ask(None);
                self.info("已取消".to_owned());
            },
            Action::Char(c) => {
                if c == 'n' || c == 'N' {
                    self.ask(None);
                    self.info("已取消".to_owned());
                }
            },
            _ => {},
        }
    }

    fn close_prompt(&mut self)
        ensures
            final(self)@ == old(self)@.close_prompt(),
    {
        proof {
            reveal(AppView::close_prompt);
        }
        self.state.panels.close_prompt();
    }

    fn prompt_entered(&mut self, line: &str, action: PromptAction)
        ensures
            final(self)@ == old(self)@.prompt_entered(line@, action),
    {
        proof {
            reveal(AppView::prompt_entered);
        }
        match action {
            PromptAction::CreateCloudPlaylist => {
                self.close_prompt();
                self.create_cloud_playlist(trim(line));
            },
        }
    }

    fn handle_prompt_key(&mut self, action: Action)
        requires
            old(self)@.has_room(),
        ensures
            final(self)@ == old(self)@.handle_prompt_key(action),
    {
        proof {
            reveal(AppView::handle_prompt_key);
        }
        let (line, asked) = match self.state.panels.prompt_line() {
            Some(prompt) => prompt,
            None => {
                return;
            },
        };
        match edit_for(action) {
            Some(edit) => {
                self.state.panels.edit_prompt(edit);
            },
            None => match action {
                Action::Submit => {
                    self.prompt_entered(line.as_str(), asked);
                },
                Action::Cancel => {
                    self.close_prompt();
                    self.info("已取消".to_owned());
                },
                _ => {
                    self.quit_key(action);
                },
            },
        }
    }

    fn close_login(&mut self)
        ensures
            final(self)@ == old(self)@.close_login(),
    {
        proof {
            reveal(AppView::close_login);
        }
        let unfinished = self.state.panels.is_logging_in();
        self.state.panels.close_login();
        if unfinished {
            self.info("已取消登录".to_owned());
        }
    }

    fn handle_login_key(&mut self, action: Action)
        ensures
            final(self)@ == old(self)@.handle_login_key(action),
    {
        proof {
            reveal(AppView::handle_login_key);
        }
        match action {
            Action::Cancel => {
                self.close_login();
            },
            _ => {
                self.quit_key(action);
            },
        }
    }

    /// Takes a key while the search line is written; says whether it belongs there.
    pub fn handle_editing_action(&mut self, action: Action) -> (taken: bool)
        requires
            old(self)@.has_room(),
        ensures
            taken == writes(action),
            final(self)@ == old(self)@.handle_editing_action(action),
    {
        proof {
            reveal(AppView::handle_editing_action);
        }
        match edit_for(action) {
            Some(edit) => {
                self.state.pages.edit_input(edit);
                true
            },
            None => match action {
                Action::Submit => {
                    self.run_search();
                    true
                },
                Action::Cancel => {
                    self.state.pages.set_editing(false);
                    true
                },
                _ => false,
            },
        }
    }

    fn open_help(&mut self)
        ensures
            final(self)@ == old(self)@.open_help(),
    {
        proof {
            reveal(AppView::open_help);
        }
        self.state.panels.set_help(HelpPane { open: true, offset: 0 });
    }

    fn toggle_sidebar(&mut self)
        ensures
            final(self)@ == old(self)@.toggle_sidebar(),
    {
        proof {
            reveal(AppView::toggle_sidebar);
        }
        let visible = self.state.screen.sidebar_visible();
        self.state.screen.set_sidebar_visible(!visible);
    }

    fn toggle_lyric_panel(&mut self)
        ensures
            final(self)@ == old(self)@.toggle_lyric_panel(),
    {
        proof {
            reveal(AppView::toggle_lyric_panel);
        }
        let shown = self.state.screen.show_lyric_panel();
        self.state.screen.set_show_lyric_panel(!shown);
    }

    /// Asks for the window to be put away, or brought back.
    pub fn toggle_window(&mut self)
        ensures
            final(self)@ == old(self)@.toggle_window(),
    {
        proof {
            reveal(AppView::toggle_window);
        }
        self.emit(Effect::ToggleWindow);
    }

    /// Takes what became of the window.
    pub fn window_toggled(&mut self, done: Option<bool>)
        ensures
            final(self)@ == old(self)@.window_toggled(done),
    {
        proof {
            reveal(AppView::window_toggled);
        }
        match done {
            None => {
                self.warn("当前环境不支持窗口控制（需要 niri）".to_owned());
            },
            Some(done) => {
                if done {
                    self.info("已切换窗口最小化".to_owned());
                } else {
                    self.warn("窗口操作失败（详见日志）".to_owned());
                }
            },
        }
    }

    fn seek_key(&mut self, forward: bool)
        ensures
            final(self)@ == old(self)@.seek_key(forward),
    {
        proof {
            reveal(AppView::seek_key);
        }
        if self.state.screen.focus() == Focus::Sidebar {
            self.cycle_focus(forward);
        } else if forward {
            self.seek_by(SEEK_STEP_MS);
        } else {
            self.seek_by(-SEEK_STEP_MS);
        }
    }

    fn cycle_playback_mode(&mut self)
        ensures
            final(self)@ == old(self)@.cycle_playback_mode(),
    {
        proof {
            reveal(AppView::cycle_playback_mode);
        }
        let mode = self.state.queue.mode.next();
        self.state.queue.mode = mode;
        conf::set_playback_mode(&mut self.state.config, mode);
        self.info(cat2("播放模式：", mode.label()));
    }

    fn cycle_quality(&mut self)
        ensures
            final(self)@ == old(self)@.cycle_quality(),
    {
        proof {
            reveal(AppView::cycle_quality);
        }
        let current = conf::quality(&self.state.config);
        let next = cycle_quality(current.as_str(), 1);
        let label = quality_label(next.as_str());
        conf::set_quality(&mut self.state.config, next);
        self.save_config(AfterSave::Nothing);
        self.success(cat3("音质：", label.as_str(), "（下一首生效）"));
    }

    fn open_search(&mut self)
        ensures
            final(self)@ == old(self)@.open_search(),
    {
        proof {
            reveal(AppView::open_search);
        }
        self.switch_tab(Tab::Search);
        self.with_focus(Focus::Primary);
        self.state.pages.set_editing(true);
    }

    fn open_settings(&mut self)
        ensures
            final(self)@ == old(self)@.open_settings(),
    {
        proof {
            reveal(AppView::open_settings);
        }
        self.switch_tab(Tab::Settings);
        self.with_focus(Focus::Primary);
    }

    fn ask_to_delete_playlist(&mut self)
        ensures
            final(self)@ == old(self)@.ask_to_delete_playlist(),
    {
        proof {
            reveal(AppView::ask_to_delete_playlist);
        }
        if self.state.pages.sync_target().is_none() {
            self.warn("请先在「云端」标签页选中一个歌单".to_owned());
        } else {
            self.ask(Some(ConfirmAction::DeleteCloudPlaylist));
        }
    }

    fn new_cloud_playlist(&mut self)
        ensures
            final(self)@ == old(self)@.new_cloud_playlist(),
    {
        proof {
            reveal(AppView::new_cloud_playlist);
        }
        self.state.panels.open_prompt(PromptAction::CreateCloudPlaylist);
        self.info("输入歌单名称，Enter 创建 · Esc 取消".to_owned());
    }

    /// Takes a key on a page.
    pub fn handle_normal_action(&mut self, action: Action)
        ensures
            final(self)@ == old(self)@.handle_normal_action(action),
    {
        proof {
            reveal(AppView::handle_normal_action);
        }
        match action {
            Action::Quit | Action::ForceQuit => {
                self.quit_key(action);
            },
            Action::Help => {
                self.open_help();
            },
            Action::ContextMenu => {
                self.open_context_menu();
            },
            Action::SwitchSource => {
                self.open_sources_page();
            },
            Action::SetDefaultSource => {
                self.set_default_source();
            },
            Action::RaiseSourcePriority => {
                self.shift_source_priority(true);
            },
            Action::LowerSourcePriority => {
                self.shift_source_priority(false);
            },
            Action::ToggleSidebar => {
                self.toggle_sidebar();
            },
            Action::ToggleWindow => {
                self.toggle_window();
            },
            Action::Digit(number) => {
                self.handle_digit(number);
            },
            Action::FocusNext => {
                self.cycle_focus(true);
            },
            Action::FocusPrev => {
                self.cycle_focus(false);
            },
            Action::MoveDown => {
                self.move_selection(1);
            },
            Action::MoveUp => {
                self.move_selection(-1);
            },
            Action::MoveTop => {
                self.move_selection_edge(true);
            },
            Action::MoveBottom => {
                self.move_selection_edge(false);
            },
            Action::PageDown => {
                self.move_selection(PAGE_STEP);
            },
            Action::PageUp => {
                self.move_selection(-PAGE_STEP);
            },
            Action::Submit => {
                self.activate();
            },
            Action::Cancel => {
                self.go_back();
            },
            Action::PlayPause => {
                self.toggle_playback();
            },
            Action::Next => {
                self.next_track(true);
            },
            Action::Prev => {
                self.previous_track();
            },
            Action::SeekForward => {
                self.seek_key(true);
            },
            Action::SeekTo(position_ms) => {
                self.seek_to(position_ms);
            },
            Action::SeekBy(delta_ms) => {
                self.seek_by(delta_ms);
            },
            Action::LoadMoreSearch => {
                self.load_more_search();
            },
            Action::SeekBackward => {
                self.seek_key(false);
            },
            Action::VolumeUp => {
                self.adjust_volume(true);
            },
            Action::VolumeDown => {
                self.adjust_volume(false);
            },
            Action::ToggleMute => {
                self.toggle_mute();
            },
            Action::CyclePlaybackMode => {
                self.cycle_playback_mode();
            },
            Action::CycleQuality => {
                self.cycle_quality();
            },
            Action::ToggleLyricPanel => {
                self.toggle_lyric_panel();
            },
            Action::LyricDelay => {
                self.adjust_lyric_offset(-LYRIC_KEY_STEP_MS);
            },
            Action::LyricAdvance => {
                self.adjust_lyric_offset(LYRIC_KEY_STEP_MS);
            },
            Action::OpenSearch => {
                self.open_search();
            },
            Action::OpenSettings => {
                self.open_settings();
            },
            Action::DownloadCurrent => {
                self.download_current();
            },
            Action::Reload => {
                self.reload_current_tab();
            },
            Action::QueueAppend => {
                self.queue_focused_song(false);
            },
            Action::AddAllToQueue => {
                self.queue_all_songs();
            },
            Action::QueuePlayNext => {
                self.queue_focused_song(true);
            },
            Action::RemoveFromQueue => {
                self.remove_selected_from_queue();
            },
            Action::ClearQueue => {
                self.ask(Some(ConfirmAction::ClearQueue));
            },
            Action::ClearCache => {
                self.ask(Some(ConfirmAction::ClearCache));
            },
            Action::ToggleSortOrder => {
                self.toggle_sort_order();
            },
            Action::OpenRanks => {
                self.switch_tab(Tab::Ranks);
            },
            Action::OpenCloud => {
                self.switch_tab(Tab::Cloud);
            },
            Action::Login => {
                self.open_login_picker();
            },
            Action::ClaimVip => {
                self.claim_daily_vip();
            },
            Action::CycleArtistFilter => {
                self.cycle_artist_filter();
            },
            Action::SyncToCloud => {
                self.sync_queue_to_cloud();
            },
            Action::AddToCloud => {
                self.add_focused_song_to_cloud();
            },
            Action::RemoveFromCloud => {
                self.remove_focused_song_from_cloud();
            },
            Action::DeleteCloudPlaylist => {
                self.ask_to_delete_playlist();
            },
            Action::NewCloudPlaylist => {
                self.new_cloud_playlist();
            },
            _ => {},
        }
    }

    fn handle_page_key(&mut self, action: Action)
        requires
            old(self)@.has_room(),
        ensures
            final(self)@ == old(self)@.handle_page_key(action),
    {
        proof {
            reveal(AppView::handle_page_key);
        }
        proof {
            reveal(AppView::handle_editing_action);
        }
        if self.state.screen.tab() == Tab::Settings {
            match step_of_value(action) {
                Some(step) => {
                    self.adjust_setting(step);
                    return;
                },
                None => {},
            }
        }
        if self.state.is_editing() && self.handle_editing_action(action) {
            return;
        }
        self.handle_normal_action(action);
    }

    fn handle_dialog_key(&mut self, action: Action)
        requires
            old(self)@.has_room(),
        ensures
            final(self)@ == old(self)@.handle_dialog_key(action),
    {
        proof {
            reveal(AppView::handle_dialog_key);
        }
        match self.state.panels.pending_confirm() {
            Some(confirm) => {
                self.handle_confirm_key(confirm, action);
            },
            None => {
                if self.state.panels.is_prompting() {
                    self.handle_prompt_key(action);
                } else if self.state.panels.has_login() {
                    self.handle_login_key(action);
                } else {
                    self.handle_page_key(action);
                }
            },
        }
    }

    /// Takes a key.
    pub fn handle_action(&mut self, action: Action)
        requires
            old(self)@.has_room(),
        ensures
            final(self)@ == old(self)@.handle_action(action),
    {
        proof {
            reveal(AppView::handle_action);
        }
        if self.state.panels.has_menu() {
            self.handle_menu_key(action);
            return;
        }
        if self.state.panels.help().open {
            self.handle_help_key(action);
            return;
        }
        if self.state.panels.has_picker() {
            self.handle_quality_key(action);
            return;
        }
        match self.state.panels.login_picker() {
            Some(cursor) => {
                self.handle_login_choice_key(cursor, action);
                return;
            },
            None => {},
        }
        self.handle_dialog_key(action);
    }

    /// Takes whatever happened.
    pub fn handle_event(&mut self, event: Event)
        requires
            old(self)@.has_room(),
        ensures
            final(self)@ == old(self)@.handle_event(event),
    {
        proof {
            reveal(AppView::handle_event);
        }
        match event {
            Event::Action(action) => {
                self.handle_action(action);
            },
            Event::Resize => {},
            Event::Mouse(mouse) => {
                self.handle_mouse(mouse);
            },
            Event::Audio(audio) => {
                self.handle_audio_event(audio);
            },
            Event::Loaded(loaded) => {
                self.note_connection(&loaded);
                self.handle_loaded(*loaded);
            },
            Event::Tick(audio) => {
                self.tick(audio);
            },
        }
    }
}

} // verus!
