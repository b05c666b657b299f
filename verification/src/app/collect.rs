//! Collecting songs: the queue, the menu of a song, downloads and the cloud
//! playlists.

use vstd::prelude::*;
use crate::app::conf;
use crate::app::effect::{Effect, Purpose};
use crate::app::nav::Focus;
use crate::app::pages::PagesView;
use crate::app::panels::Panels;
use crate::app::panes::{
    menu_item, step_cursor, stepped, ContextMenu, MenuAction, QualityPicker, MENU_ITEMS,
};
use crate::app::queue::clone_songs;
use crate::app::screen::Screen;
use crate::app::state::{App, AppView};
use crate::audio::cache::ClearReport;
use crate::config::{quality, supported_quality, QUALITIES};
use crate::error::AppError;
use crate::event::Action;
use crate::model::{describe_song, Playlist, Song};
use crate::source::SourceKind;
use crate::text::{cat2, cat3, cat5, dec, dec_text, trim, trimmed};

verus! {

/// The playlist that a song is added to: the one that is open, where it can be
/// changed, else the one that is chosen to be.
pub open spec fn add_target(pages: PagesView) -> Option<Playlist> {
    match pages.open_cloud {
        Some(playlist) => if playlist.writable() {
            Some(playlist)
        } else {
            pages.sync_target
        },
        None => pages.sync_target,
    }
}

/// What is said of an emptied cache; `freed` names the bytes.
pub open spec fn cleared_text(report: ClearReport, freed: Seq<char>) -> Seq<char> {
    if report.failed > 0 {
        "已清理 "@ + dec(report.removed_files as nat) + " 个文件（"@ + freed + "），"@ + dec(
            report.failed as nat,
        ) + " 个删除失败（检查目录权限）"@
    } else if report.removed_files == 0 {
        "缓存已经是空的"@
    } else {
        "已清理缓存："@ + dec(report.removed_files as nat) + " 个文件，释放 "@ + freed
    }
}

/// The place that a digit of the menu stands for.
pub open spec fn digit_place(c: char) -> Option<usize> {
    if '1' <= c <= '9' {
        Some((c as u32 - '1' as u32) as usize)
    } else {
        None
    }
}

fn place_of_digit(c: char) -> (r: Option<usize>)
    ensures
        r == digit_place(c),
{
    if '1' <= c && c <= '9' {
        Some((c as u8 - 49u8) as usize)
    } else {
        None
    }
}

impl AppView {
    #[verifier::opaque]
    pub open spec fn append_song(self, song: Song) -> AppView {
        self.with_queue(self.state.queue.appended(seq![song]))
    }

    #[verifier::opaque]
    pub open spec fn insert_song(self, song: Song) -> AppView {
        self.with_queue(self.state.queue.inserted_next(song))
    }

    /// The chosen song goes to the end of the queue, or behind the current one.
    #[verifier::opaque]
    pub open spec fn queue_focused_song(self, play_next: bool) -> AppView {
        match self.state.selected_song() {
            None => self.warn("当前没有选中的歌曲"@),
            Some(song) => (if play_next {
                self.insert_song(song).success("已插入到下一首："@ + song.title())
            } else {
                self.append_song(song).success("已加入队列："@ + song.title())
            }).clamp_queue_cursor(),
        }
    }

    /// Nothing is playing any more, and nothing comes in to be played.
    #[verifier::opaque]
    pub open spec fn drop_current(self) -> AppView {
        let stopped = self.stop_playback();
        stopped.with_player(stopped.state.player.off_stage())
    }

    /// The marked song leaves the queue; where it is playing, that ends.
    #[verifier::opaque]
    pub open spec fn remove_selected_from_queue(self) -> AppView {
        if self.state.screen.focus != Focus::Queue {
            self.warn("请先按 Tab 把焦点切到播放队列"@)
        } else {
            match self.state.marks.queue {
                None => self.warn("播放队列为空"@),
                Some(index) => if index >= self.state.queue.items.len() {
                    self
                } else {
                    let removed = self.state.queue.items[index as int];
                    let shorter = self.with_queue(
                        self.state.queue.without(index),
                    ).clamp_queue_cursor();
                    (if self.is_current(removed) {
                        shorter.drop_current()
                    } else {
                        shorter
                    }).info("已从队列移除："@ + removed.title())
                },
            }
        }
    }

    /// A song leaves the queue, wherever it stands.
    #[verifier::opaque]
    pub open spec fn remove_song_from_queue(self, song: Song) -> AppView {
        match self.state.queue.place_of(song.hash@, 0) {
            None => self.warn("这首歌不在播放队列里"@),
            Some(index) => if index < self.state.queue.items.len() {
                self.with_queue(self.state.queue.without(index)).info(
                    "已从队列移除《"@ + self.state.queue.items[index as int].name@ + "》"@,
                )
            } else {
                self
            },
        }
    }

    /// All songs of the page go to the end of the queue.
    #[verifier::opaque]
    pub open spec fn queue_all_songs(self) -> AppView {
        match self.state.focused_songs() {
            None => self.warn("当前没有可加入队列的歌曲列表"@),
            Some(list) => if list.songs.len() == 0 {
                self.warn("列表为空，先按 Enter 载入歌曲"@)
            } else {
                self.with_queue(
                    self.state.queue.appended(list.songs),
                ).clamp_queue_cursor().success(
                    "已把 "@ + dec(list.songs.len()) + " 首歌加入队列（"@ + (
                    if self.state.screen.sort_descending {
                        "倒序"@
                    } else {
                        "正序"@
                    }) + "）"@,
                )
            },
        }
    }

    /// Every list of songs is turned round.
    #[verifier::opaque]
    pub open spec fn toggle_sort_order(self) -> AppView {
        let descending = !self.state.screen.sort_descending;
        self.with_screen(
            Screen { sort_descending: descending, ..self.state.screen },
        ).with_pages(self.state.pages.toggle_sort()).info(
            "列表排列："@ + (if descending {
                "倒序（最后一首在最上）"@
            } else {
                "正序"@
            }),
        )
    }

    /// The queue is emptied, and playing ends.
    #[verifier::opaque]
    pub open spec fn clear_queue(self) -> AppView {
        let count = self.state.queue.items.len();
        if count == 0 {
            self.warn("播放队列已经为空"@)
        } else {
            let stopped = self.stop_playback();
            stopped.with_queue(stopped.state.queue.emptied()).select_in_queue(None).with_player(
                stopped.state.player.off_stage(),
            ).info("已清空播放队列（"@ + dec(count) + " 首），已停止播放"@)
        }
    }

    #[verifier::opaque]
    pub open spec fn refresh_cache_usage(self) -> AppView {
        self.emit(Effect::MeasureCache)
    }

    /// The cache was emptied, or could not be; `freed` names the bytes.
    #[verifier::opaque]
    pub open spec fn cache_cleared(
        self,
        result: Result<ClearReport, AppError>,
        freed: Seq<char>,
    ) -> AppView {
        match result {
            Ok(report) => {
                let measured = self.refresh_cache_usage();
                let text = cleared_text(report, freed);
                if report.failed > 0 {
                    measured.warn(text)
                } else if report.removed_files == 0 {
                    measured.info(text)
                } else {
                    measured.success(text)
                }
            },
            Err(error) => self.error("清空缓存失败："@ + error.text@),
        }
    }

    // The menu of a song.

    #[verifier::opaque]
    pub open spec fn open_context_menu(self) -> AppView {
        match self.state.selected_song() {
            None => self.info("这里没有可对它操作的歌曲"@),
            Some(song) => self.with_panels(
                Panels {
                    context_menu: Some(
                        ContextMenu {
                            song,
                            in_queue: self.state.screen.focus == Focus::Queue,
                            cursor: 0,
                        },
                    ),
                    ..self.state.panels
                },
            ),
        }
    }

    #[verifier::opaque]
    pub open spec fn close_menu(self) -> AppView {
        self.with_panels(Panels { context_menu: None, ..self.state.panels })
    }

    #[verifier::opaque]
    pub open spec fn run_menu_action(self, action: MenuAction, song: Song) -> AppView {
        match action {
            MenuAction::Play => self.start_playback(song, 0),
            MenuAction::QueueAppend => self.append_song(song).clamp_queue_cursor().success(
                "已加入队列："@ + song.title(),
            ),
            MenuAction::QueuePlayNext => self.insert_song(song).clamp_queue_cursor().success(
                "已插入到下一首："@ + song.title(),
            ),
            MenuAction::AddToCloud => self.add_focused_song_to_cloud(),
            MenuAction::Download => self.open_quality_picker(song),
            MenuAction::RemoveFromQueue => self.remove_song_from_queue(song),
        }
    }

    /// The entry at a place of the menu is carried out, where there is one.
    #[verifier::opaque]
    pub open spec fn choose_in_menu(self, i: usize) -> AppView {
        match self.state.panels.context_menu {
            Some(menu) => match menu_item(menu.in_queue, i as int) {
                Some(action) => self.close_menu().run_menu_action(action, menu.song),
                None => self,
            },
            None => self,
        }
    }

    /// A key while the menu is open: all keys belong to it.
    #[verifier::opaque]
    pub open spec fn handle_menu_key(self, action: Action) -> AppView {
        match self.state.panels.context_menu {
            None => self,
            Some(menu) => match action {
                Action::MoveUp => self.with_panels(
                    self.state.panels.menu_at(stepped(menu.cursor, MENU_ITEMS as nat, -1)),
                ),
                Action::MoveDown => self.with_panels(
                    self.state.panels.menu_at(stepped(menu.cursor, MENU_ITEMS as nat, 1)),
                ),
                Action::MoveTop => self.with_panels(self.state.panels.menu_at(0)),
                Action::MoveBottom => self.with_panels(
                    self.state.panels.menu_at((MENU_ITEMS - 1) as usize),
                ),
                Action::Cancel | Action::Help => self.close_menu(),
                Action::Submit | Action::PlayPause => self.choose_in_menu(menu.cursor),
                Action::Char(c) => match digit_place(c) {
                    Some(i) => self.choose_in_menu(i),
                    None => self,
                },
                _ => self,
            },
        }
    }

    // Downloads.

    #[verifier::opaque]
    pub open spec fn open_quality_picker(self, song: Song) -> AppView {
        self.with_panels(
            Panels {
                quality_picker: Some(
                    QualityPicker::opened(song, trimmed(self.state.config.quality)),
                ),
                ..self.state.panels
            },
        )
    }

    #[verifier::opaque]
    pub open spec fn download_current(self) -> AppView {
        match self.state.player.current {
            None => self.warn("当前没有在播放的歌曲"@),
            Some(song) => self.open_quality_picker(song),
        }
    }

    #[verifier::opaque]
    pub open spec fn confirm_quality_picker(self) -> AppView {
        match self.state.panels.quality_picker {
            None => self,
            Some(picker) => {
                let closed = self.with_panels(
                    Panels { quality_picker: None, ..self.state.panels },
                );
                if picker.cursor < QUALITIES {
                    closed.download_song(picker.song, quality(picker.cursor as int))
                } else {
                    closed
                }
            },
        }
    }

    #[verifier::opaque]
    pub open spec fn download_song(self, song: Song, quality: Seq<char>) -> AppView {
        self.with_client(song.source, Purpose::Download { song, quality })
    }

    // The cloud playlists.

    /// The chosen song leaves the cloud playlist that is changed.
    #[verifier::opaque]
    pub open spec fn remove_focused_song_from_cloud(self) -> AppView {
        match self.state.pages.sync_target {
            None => self.warn("请先在「云端」标签页选中一个歌单"@),
            Some(target) => match target.list_id {
                None => self.error("该歌单不可写（缺少 listid）"@),
                Some(list_id) => if !self.state.account.logged_in {
                    self.warn("需要登录才能修改云端歌单，按 L 扫码登录"@)
                } else {
                    match self.state.selected_song() {
                        None => self.warn("当前没有选中的歌曲"@),
                        Some(song) => if self.source() != SourceKind::Netease && song.file_id
                            is None {
                            self.warn("这首歌不在歌单里（缺少 fileid），无法从歌单移除"@)
                        } else {
                            self.set_busy(Some("从《"@ + target.name@ + "》移除歌曲"@)).emit(
                                Effect::RemoveTrack {
                                    source: self.source(),
                                    list_id,
                                    song,
                                    target,
                                },
                            )
                        },
                    }
                },
            },
        }
    }

    /// The cloud playlist that is changed is deleted; another must be chosen then.
    #[verifier::opaque]
    pub open spec fn delete_cloud_playlist(self) -> AppView {
        match self.state.pages.sync_target {
            None => self.warn("没有选中的云端歌单"@),
            Some(target) => {
                let left = self.with_pages(PagesView { sync_target: None, ..self.state.pages });
                match target.list_id {
                    None => left.error("该歌单不可写（缺少 listid）"@),
                    Some(list_id) => if !self.state.account.logged_in {
                        left.warn("需要登录才能删除云端歌单，按 L 扫码登录"@)
                    } else {
                        left.set_busy(Some("删除歌单《"@ + target.name@ + "》"@)).emit(
                            Effect::DeletePlaylist {
                                source: self.source(),
                                list_id,
                                name: target.name@,
                            },
                        )
                    },
                }
            },
        }
    }

    #[verifier::opaque]
    pub open spec fn create_cloud_playlist(self, name: Seq<char>) -> AppView {
        if trimmed(name).len() == 0 {
            self.warn("歌单名称不能为空"@)
        } else if !self.state.account.logged_in {
            self.warn("需要登录才能新建云端歌单，按 L 扫码登录"@)
        } else {
            self.set_busy(Some("新建云端歌单"@)).emit(
                Effect::CreatePlaylist { source: self.source(), name },
            )
        }
    }

    /// The chosen song goes to the cloud playlist that is open, or that is chosen
    /// to be changed.
    #[verifier::opaque]
    pub open spec fn add_focused_song_to_cloud(self) -> AppView {
        if !self.state.account.logged_in {
            self.warn("云端歌单需要登录，请配置 cookie"@)
        } else {
            match add_target(self.state.pages) {
                None => self.warn("请先在「云端」标签页选中一个歌单作为目标"@),
                Some(target) => match target.list_id {
                    None => self.error("该歌单不可写（缺少 listid）"@),
                    Some(list_id) => match self.state.selected_song() {
                        None => self.warn("当前没有选中的歌曲"@),
                        Some(song) => self.set_busy(
                            Some("收藏《"@ + song.title() + "》"@),
                        ).emit(
                            Effect::AddTrack { source: self.source(), list_id, song, target },
                        ),
                    },
                },
            }
        }
    }

    /// The whole queue goes to the cloud playlist that is changed.
    #[verifier::opaque]
    pub open spec fn sync_queue_to_cloud(self) -> AppView {
        if !self.state.account.logged_in {
            self.warn("云端歌单需要登录，请配置 cookie"@)
        } else {
            match self.state.pages.sync_target {
                None => self.warn("请先在「云端」标签页选中一个歌单作为同步目标"@),
                Some(target) => match target.list_id {
                    None => self.error("该歌单不可写（缺少 listid）"@),
                    Some(list_id) => if self.state.queue.items.len() == 0 {
                        self.warn("播放队列为空，没有可同步的内容"@)
                    } else {
                        self.set_busy(
                            Some(
                                "同步 "@ + dec(self.state.queue.items.len()) + " 首到《"@
                                    + target.name@ + "》"@,
                            ),
                        ).emit(
                            Effect::SyncQueue {
                                source: self.source(),
                                list_id,
                                name: target.name@,
                                songs: self.state.queue.items,
                            },
                        )
                    },
                },
            }
        }
    }
}

fn find_add_target(opened: Option<Playlist>, chosen: Option<Playlist>) -> (r: Option<Playlist>)
    ensures
        r == (match opened {
            Some(playlist) => if playlist.writable() {
                Some(playlist)
            } else {
                chosen
            },
            None => chosen,
        }),
{
    match opened {
        Some(playlist) => if playlist.is_writable() {
            Some(playlist)
        } else {
            chosen
        },
        None => chosen,
    }
}

fn describe_cleared(report: ClearReport, freed: &str) -> (r: String)
    ensures
        r@ == cleared_text(report, freed@),
{
    let removed = dec_text(report.removed_files as u64);
    if report.failed > 0 {
        let failed = dec_text(report.failed as u64);
        let mut text = cat5("已清理 ", removed.as_str(), " 个文件（", freed, "），");
        text.append(failed.as_str());
        text.append(" 个删除失败（检查目录权限）");
        text
    } else if report.removed_files == 0 {
        "缓存已经是空的".to_owned()
    } else {
        let mut text = cat3("已清理缓存：", removed.as_str(), " 个文件，释放 ");
        text.append(freed);
        text
    }
}

impl App {
    fn append_song(&mut self, song: Song)
        ensures
            final(self)@ == old(self)@.append_song(song),
    {
        proof {
            reveal(AppView::append_song);
        }
        self.state.queue.append(song);
    }

    fn insert_song(&mut self, song: Song)
        ensures
            final(self)@ == old(self)@.insert_song(song),
    {
        proof {
            reveal(AppView::insert_song);
        }
        self.state.queue.insert_next(song);
    }

    /// Puts the chosen song into the queue.
    pub fn queue_focused_song(&mut self, play_next: bool)
        ensures
            final(self)@ == old(self)@.queue_focused_song(play_next),
    {
        proof {
            reveal(AppView::queue_focused_song);
        }
        match self.state.selected_song() {
            None => {
                self.warn("当前没有选中的歌曲".to_owned());
            },
            Some(song) => {
                let label = describe_song(&song);
                if play_next {
                    self.insert_song(song);
                    self.success(cat2("已插入到下一首：", label.as_str()));
                } else {
                    self.append_song(song);
                    self.success(cat2("已加入队列：", label.as_str()));
                }
                self.clamp_queue_cursor();
            },
        }
    }

    fn drop_current(&mut self)
        ensures
            final(self)@ == old(self)@.drop_current(),
    {
        proof {
            reveal(AppView::drop_current);
        }
        self.stop_playback();
        self.state.player.leave_stage();
    }

    /// Takes the marked song out of the queue.
    pub fn remove_selected_from_queue(&mut self)
        ensures
            final(self)@ == old(self)@.remove_selected_from_queue(),
    {
        proof {
            reveal(AppView::remove_selected_from_queue);
        }
        if self.state.screen.focus() != Focus::Queue {
            self.warn("请先按 Tab 把焦点切到播放队列".to_owned());
            return;
        }
        match self.state.marks.queue {
            None => {
                self.warn("播放队列为空".to_owned());
            },
            Some(index) => match self.state.queue.remove(index) {
                None => {},
                Some(removed) => {
                    let playing = self.is_current(&removed);
                    self.clamp_queue_cursor();
                    if playing {
                        self.drop_current();
                    }
                    let label = describe_song(&removed);
                    self.info(cat2("已从队列移除：", label.as_str()));
                },
            },
        }
    }

    /// Takes a song out of the queue, wherever it stands.
    pub fn remove_song_from_queue(&mut self, song: &Song)
        ensures
            final(self)@ == old(self)@.remove_song_from_queue(*song),
    {
        proof {
            reveal(AppView::remove_song_from_queue);
        }
        match self.state.queue.position(song.hash.as_str()) {
            None => {
                self.warn("这首歌不在播放队列里".to_owned());
            },
            Some(index) => match self.state.queue.remove(index) {
                Some(removed) => {
                    self.info(cat3("已从队列移除《", removed.name.as_str(), "》"));
                },
                None => {},
            },
        }
    }

    /// Puts all songs of the page into the queue.
    pub fn queue_all_songs(&mut self)
        ensures
            final(self)@ == old(self)@.queue_all_songs(),
    {
        proof {
            reveal(AppView::queue_all_songs);
        }
        let songs: Option<Vec<Song>> = match self.state.focused_songs() {
            Some(list) => Some(clone_songs(&list.songs)),
            None => None,
        };
        match songs {
            None => {
                self.warn("当前没有可加入队列的歌曲列表".to_owned());
            },
            Some(songs) => {
                if songs.len() == 0 {
                    self.warn("列表为空，先按 Enter 载入歌曲".to_owned());
                    return;
                }
                let count = dec_text(songs.len() as u64);
                let order = if self.state.screen.sort_descending() {
                    "倒序"
                } else {
                    "正序"
                };
                self.state.queue.append_all(songs);
                self.clamp_queue_cursor();
                self.success(cat5("已把 ", count.as_str(), " 首歌加入队列（", order, "）"));
            },
        }
    }

    /// Turns every list of songs round.
    pub fn toggle_sort_order(&mut self)
        ensures
            final(self)@ == old(self)@.toggle_sort_order(),
    {
        proof {
            reveal(AppView::toggle_sort_order);
        }
        let descending = !self.state.screen.sort_descending();
        let order = if descending {
            "倒序（最后一首在最上）"
        } else {
            "正序"
        };
        self.state.screen.set_sort_descending(descending);
        self.state.pages.toggle_sort();
        self.info(cat2("列表排列：", order));
    }

    /// Empties the queue, which ends playing.
    pub fn clear_queue(&mut self)
        ensures
            final(self)@ == old(self)@.clear_queue(),
    {
        proof {
            reveal(AppView::clear_queue);
        }
        let count: usize = self.state.queue.len();
        if count == 0 {
            self.warn("播放队列已经为空".to_owned());
            return;
        }
        let number = dec_text(count as u64);
        self.stop_playback();
        self.state.queue.clear();
        self.state.marks.queue = None;
        self.state.player.leave_stage();
        self.info(cat3("已清空播放队列（", number.as_str(), " 首），已停止播放"));
    }

    /// Asks how much the cache takes.
    pub fn refresh_cache_usage(&mut self)
        ensures
            final(self)@ == old(self)@.refresh_cache_usage(),
    {
        proof {
            reveal(AppView::refresh_cache_usage);
        }
        self.emit(Effect::MeasureCache);
    }

    /// Takes that the cache was emptied, or could not be.
    pub fn cache_cleared(&mut self, result: Result<ClearReport, AppError>, freed: &str)
        ensures
            final(self)@ == old(self)@.cache_cleared(result, freed@),
    {
        proof {
            reveal(AppView::cache_cleared);
        }
        match result {
            Ok(report) => {
                self.refresh_cache_usage();
                let text = describe_cleared(report, freed);
                if report.failed > 0 {
                    self.warn(text);
                } else if report.removed_files == 0 {
                    self.info(text);
                } else {
                    self.success(text);
                }
            },
            Err(error) => {
                self.error(cat2("清空缓存失败：", error.text.as_str()));
            },
        }
    }

    /// Opens the menu of the chosen song.
    pub fn open_context_menu(&mut self)
        ensures
            final(self)@ == old(self)@.open_context_menu(),
    {
        proof {
            reveal(AppView::open_context_menu);
        }
        match self.state.selected_song() {
            None => {
                self.info("这里没有可对它操作的歌曲".to_owned());
            },
            Some(song) => {
                let in_queue = self.state.screen.focus() == Focus::Queue;
                self.state.panels.set_context_menu(
                    Some(ContextMenu { song, in_queue, cursor: 0 }),
                );
            },
        }
    }

    fn close_menu(&mut self)
        ensures
            final(self)@ == old(self)@.close_menu(),
    {
        proof {
            reveal(AppView::close_menu);
        }
        self.state.panels.set_context_menu(None);
    }

    /// Carries out an entry of the menu of a song.
    pub fn run_menu_action(&mut self, action: MenuAction, song: Song)
        ensures
            final(self)@ == old(self)@.run_menu_action(action, song),
    {
        proof {
            reveal(AppView::run_menu_action);
        }
        match action {
            MenuAction::Play => {
                self.start_playback(song, 0);
            },
            MenuAction::QueueAppend => {
                let label = describe_song(&song);
                self.append_song(song);
                self.clamp_queue_cursor();
                self.success(cat2("已加入队列：", label.as_str()));
            },
            MenuAction::QueuePlayNext => {
                let label = describe_song(&song);
                self.insert_song(song);
                self.clamp_queue_cursor();
                self.success(cat2("已插入到下一首：", label.as_str()));
            },
            MenuAction::AddToCloud => {
                self.add_focused_song_to_cloud();
            },
            MenuAction::Download => {
                self.open_quality_picker(song);
            },
            MenuAction::RemoveFromQueue => {
                self.remove_song_from_queue(&song);
            },
        }
    }

    fn choose_in_menu(&mut self, i: usize)
        ensures
            final(self)@ == old(self)@.choose_in_menu(i),
    {
        proof {
            reveal(AppView::choose_in_menu);
        }
        match self.state.panels.menu_choice(i) {
            Some((action, song)) => {
                self.close_menu();
                self.run_menu_action(action, song);
            },
            None => {},
        }
    }

    /// Takes a key while the menu is open.
    pub fn handle_menu_key(&mut self, action: Action)
        ensures
            final(self)@ == old(self)@.handle_menu_key(action),
    {
        proof {
            reveal(AppView::handle_menu_key);
        }
        if !self.state.panels.has_menu() {
            return;
        }
        let cursor: usize = self.state.panels.menu_cursor();
        match action {
            Action::MoveUp => {
                self.state.panels.menu_go(step_cursor(cursor, MENU_ITEMS, -1));
            },
            Action::MoveDown => {
                self.state.panels.menu_go(step_cursor(cursor, MENU_ITEMS, 1));
            },
            Action::MoveTop => {
                self.state.panels.menu_go(0);
            },
            Action::MoveBottom => {
                self.state.panels.menu_go(MENU_ITEMS - 1);
            },
            Action::Cancel | Action::Help => {
                self.close_menu();
            },
            Action::Submit | Action::PlayPause => {
                self.choose_in_menu(cursor);
            },
            Action::Char(c) => match place_of_digit(c) {
                Some(i) => {
                    self.choose_in_menu(i);
                },
                None => {},
            },
            _ => {},
        }
    }

    /// Lets the user choose the quality to download a song in.
    pub fn open_quality_picker(&mut self, song: Song)
        ensures
            final(self)@ == old(self)@.open_quality_picker(song),
    {
        proof {
            reveal(AppView::open_quality_picker);
        }
        let current = trim(conf::quality(&self.state.config).as_str());
        self.state.panels.set_quality_picker(Some(QualityPicker::new(song, current.as_str())));
    }

    /// Downloads the song that is playing.
    pub fn download_current(&mut self)
        ensures
            final(self)@ == old(self)@.download_current(),
    {
        proof {
            reveal(AppView::download_current);
        }
        match self.state.player.current() {
            None => {
                self.warn("当前没有在播放的歌曲".to_owned());
            },
            Some(song) => {
                self.open_quality_picker(song);
            },
        }
    }

    /// Downloads in the quality that was chosen.
    pub fn confirm_quality_picker(&mut self)
        ensures
            final(self)@ == old(self)@.confirm_quality_picker(),
    {
        proof {
            reveal(AppView::confirm_quality_picker);
        }
        if !self.state.panels.has_picker() {
            return;
        }
        match self.state.panels.take_picker() {
            Some(picker) => {
                if picker.cursor < QUALITIES {
                    let chosen = supported_quality(picker.cursor).to_owned();
                    self.download_song(picker.song, chosen);
                }
            },
            None => {},
        }
    }

    /// Downloads a song to a file of its own.
    pub fn download_song(&mut self, song: Song, quality: String)
        ensures
            final(self)@ == old(self)@.download_song(song, quality@),
    {
        proof {
            reveal(AppView::download_song);
        }
        let source = song.source;
        self.with_client(source, Purpose::Download { song, quality });
    }

    /// Takes the chosen song out of the cloud playlist that is changed.
    pub fn remove_focused_song_from_cloud(&mut self)
        ensures
            final(self)@ == old(self)@.remove_focused_song_from_cloud(),
    {
        proof {
            reveal(AppView::remove_focused_song_from_cloud);
        }
        let target = match self.state.pages.sync_target() {
            None => {
                self.warn("请先在「云端」标签页选中一个歌单".to_owned());
                return;
            },
            Some(target) => target,
        };
        let list_id: i64 = match target.list_id {
            None => {
                self.error("该歌单不可写（缺少 listid）".to_owned());
                return;
            },
            Some(list_id) => list_id,
        };
        if !self.state.account.logged_in() {
            self.warn("需要登录才能修改云端歌单，按 L 扫码登录".to_owned());
            return;
        }
        match self.state.selected_song() {
            None => {
                self.warn("当前没有选中的歌曲".to_owned());
            },
            Some(song) => {
                let source = conf::active(&self.state.config);
                if source != SourceKind::Netease && song.file_id.is_none() {
                    self.warn("这首歌不在歌单里（缺少 fileid），无法从歌单移除".to_owned());
                } else {
                    let busy = cat3("从《", target.name.as_str(), "》移除歌曲");
                    self.set_busy(Some(busy));
                    self.emit(Effect::RemoveTrack { source, list_id, song, target });
                }
            },
        }
    }

    /// Deletes the cloud playlist that is changed.
    pub fn delete_cloud_playlist(&mut self)
        ensures
            final(self)@ == old(self)@.delete_cloud_playlist(),
    {
        proof {
            reveal(AppView::delete_cloud_playlist);
        }
        let target = match self.state.pages.sync_target() {
            None => {
                self.warn("没有选中的云端歌单".to_owned());
                return;
            },
            Some(target) => target,
        };
        self.state.pages.set_sync_target(None);
        match target.list_id {
            None => {
                self.error("该歌单不可写（缺少 listid）".to_owned());
            },
            Some(list_id) => {
                if !self.state.account.logged_in() {
                    self.warn("需要登录才能删除云端歌单，按 L 扫码登录".to_owned());
                } else {
                    let source = conf::active(&self.state.config);
                    let busy = cat3("删除歌单《", target.name.as_str(), "》");
                    self.set_busy(Some(busy));
                    self.emit(Effect::DeletePlaylist { source, list_id, name: target.name });
                }
            },
        }
    }

    /// Makes a new cloud playlist.
    pub fn create_cloud_playlist(&mut self, name: String)
        ensures
            final(self)@ == old(self)@.create_cloud_playlist(name@),
    {
        proof {
            reveal(AppView::create_cloud_playlist);
        }
        if trim(name.as_str()).as_str().is_empty() {
            self.warn("歌单名称不能为空".to_owned());
        } else if !self.state.account.logged_in() {
            self.warn("需要登录才能新建云端歌单，按 L 扫码登录".to_owned());
        } else {
            let source = conf::active(&self.state.config);
            self.set_busy(Some("新建云端歌单".to_owned()));
            self.emit(Effect::CreatePlaylist { source, name });
        }
    }

    /// Puts the chosen song into a cloud playlist.
    pub fn add_focused_song_to_cloud(&mut self)
        ensures
            final(self)@ == old(self)@.add_focused_song_to_cloud(),
    {
        proof {
            reveal(AppView::add_focused_song_to_cloud);
        }
        if !self.state.account.logged_in() {
            self.warn("云端歌单需要登录，请配置 cookie".to_owned());
            return;
        }
        let target = match find_add_target(
            self.state.pages.open_cloud(),
            self.state.pages.sync_target(),
        ) {
            None => {
                self.warn("请先在「云端」标签页选中一个歌单作为目标".to_owned());
                return;
            },
            Some(target) => target,
        };
        let list_id: i64 = match target.list_id {
            None => {
                self.error("该歌单不可写（缺少 listid）".to_owned());
                return;
            },
            Some(list_id) => list_id,
        };
        match self.state.selected_song() {
            None => {
                self.warn("当前没有选中的歌曲".to_owned());
            },
            Some(song) => {
                let source = conf::active(&self.state.config);
                let label = describe_song(&song);
                let busy = cat3("收藏《", label.as_str(), "》");
                self.set_busy(Some(busy));
                self.emit(Effect::AddTrack { source, list_id, song, target });
            },
        }
    }

    /// Puts the whole queue into the cloud playlist that is changed.
    pub fn sync_queue_to_cloud(&mut self)
        ensures
            final(self)@ == old(self)@.sync_queue_to_cloud(),
    {
        proof {
            reveal(AppView::sync_queue_to_cloud);
        }
        if !self.state.account.logged_in() {
            self.warn("云端歌单需要登录，请配置 cookie".to_owned());
            return;
        }
        let target = match self.state.pages.sync_target() {
            None => {
                self.warn("请先在「云端」标签页选中一个歌单作为同步目标".to_owned());
                return;
            },
            Some(target) => target,
        };
        match target.list_id {
            None => {
                self.error("该歌单不可写（缺少 listid）".to_owned());
            },
            Some(list_id) => {
                if self.state.queue.is_empty() {
                    self.warn("播放队列为空，没有可同步的内容".to_owned());
                } else {
                    let source = conf::active(&self.state.config);
                    let count = dec_text(self.state.queue.len() as u64);
                    let busy = cat5(
                        "同步 ",
                        count.as_str(),
                        " 首到《",
                        target.name.as_str(),
                        "》",
                    );
                    self.set_busy(Some(busy));
                    let songs = clone_songs(&self.state.queue.items);
                    self.emit(Effect::SyncQueue { source, list_id, name: target.name, songs });
                }
            },
        }
    }
}

} // verus!
