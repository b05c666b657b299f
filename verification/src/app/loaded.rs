//! What the answers of the services and of the disk change.

use vstd::prelude::*;
use crate::app::account::Account;
use crate::app::conf;
use crate::app::effect::{AfterSave, Effect};
use crate::app::nav::{Connection, Focus, Tab};
use crate::app::pages::{describe_results, results_title};
use crate::app::panes::{aspect_of, image_aspect, CoverArt, LoadState};
use crate::app::player::Player;
use crate::app::state::{App, AppView};
use crate::audio::download::{url_extension, Downloader};
use crate::config::Config;
use crate::error::AppError;
use crate::event::{Loaded, LoadingTarget, PlaylistSource, VipClaimOutcome};
use crate::model::{
    describe_song, Artist, LyricLine, Playlist, RankBoard, Song, UserInfo, VipInfo,
};
use crate::text::{cat2, cat3, cat5, dec, dec_text, opt, trim, trimmed};

verus! {

/// The heading over the songs of an entry.
pub open spec fn songs_title(name: Seq<char>, count: nat) -> Seq<char> {
    name + " · "@ + dec(count) + " 首"@
}

fn describe_songs(name: &str, count: usize) -> (r: String)
    ensures
        r@ == songs_title(name@, count as nat),
{
    let mut text = cat3(name, " · ", dec_text(count as u64).as_str());
    text.append(" 首");
    text
}

/// Why only an excerpt of a song can be had.
pub open spec fn trial_reason(reason: Option<Seq<char>>) -> Seq<char> {
    match reason {
        Some(why) => "："@ + why,
        None => "（完整版需要对应会员）"@,
    }
}

/// What an answer says about whether the service can be reached. A refusal of the
/// service shows that it answers; a download does not go to it.
pub open spec fn seen_connection(loaded: Loaded) -> Option<Connection> {
    match loaded {
        Loaded::Failed { error, target, .. } => if target is Some {
            if error.connectivity {
                Some(Connection::Unreachable)
            } else {
                Some(Connection::Connected)
            }
        } else {
            None
        },
        _ => if loaded.from_service() {
            Some(Connection::Connected)
        } else {
            None
        },
    }
}

fn see_connection(loaded: &Loaded) -> (r: Option<Connection>)
    ensures
        r == seen_connection(*loaded),
{
    match loaded {
        Loaded::Failed { error, target, .. } => if target.is_some() {
            if error.connectivity {
                Some(Connection::Unreachable)
            } else {
                Some(Connection::Connected)
            }
        } else {
            None
        },
        _ => if loaded.is_api_response() {
            Some(Connection::Connected)
        } else {
            None
        },
    }
}

/// Whether the songs on the cloud page are those of the playlist that changed.
pub open spec fn shows_playlist(opened: Option<Playlist>, changed: Playlist) -> bool {
    changed.list_id is Some && match opened {
        Some(playlist) => playlist.list_id == changed.list_id,
        None => false,
    }
}

fn is_shown(opened: &Option<Playlist>, changed: &Playlist) -> (r: bool)
    ensures
        r == shows_playlist(*opened, *changed),
{
    match (opened, changed.list_id) {
        (Some(playlist), Some(id)) => match playlist.list_id {
            Some(own) => own == id,
            None => false,
        },
        _ => false,
    }
}

impl AppView {
    /// More results of a search: they keep the order of the service, which puts
    /// the best first.
    #[verifier::opaque]
    pub open spec fn search_appended(self, keyword: Seq<char>, songs: Seq<Song>) -> AppView {
        let total = self.state.pages.search.results.songs.len() + songs.len();
        let idle = self.set_busy(None).with_pages(
            self.state.pages.set_songs(
                Tab::Search,
                results_title(keyword, total),
                self.state.pages.search.results.songs + songs,
                false,
            ),
        );
        if songs.len() == 0 {
            idle.info("没有更多结果了"@)
        } else {
            idle.success(
                "又加载了 "@ + dec(songs.len()) + " 首（共 "@ + dec(total) + " 首）"@,
            )
        }
    }

    /// The results of a search, in the order of the service.
    #[verifier::opaque]
    pub open spec fn search_found(self, keyword: Seq<char>, songs: Seq<Song>) -> AppView {
        let idle = self.set_busy(None).with_pages(
            self.state.pages.at_page(1).set_songs(
                Tab::Search,
                results_title(keyword, songs.len()),
                songs,
                false,
            ),
        );
        if songs.len() == 0 {
            idle.warn("「"@ + keyword + "」没有找到结果"@)
        } else {
            idle.success("「"@ + keyword + "」找到 "@ + dec(songs.len()) + " 首"@).with_focus(
                Focus::Secondary,
            )
        }
    }

    #[verifier::opaque]
    pub open spec fn playlists_loaded(self, title: Seq<char>, items: Seq<Playlist>) -> AppView {
        let idle = self.set_busy(None).with_pages(
            self.state.pages.with_playlists(self.state.pages.playlists.list.replace(items)),
        );
        if items.len() == 0 {
            idle.warn(title + "暂无内容"@)
        } else {
            idle.info(title + "："@ + dec(items.len()) + " 个歌单"@)
        }
    }

    /// The songs of an entry of a page, in the order that is set.
    #[verifier::opaque]
    pub open spec fn songs_loaded(self, tab: Tab, name: Seq<char>, songs: Seq<Song>) -> AppView {
        self.set_busy(None).with_pages(
            self.state.pages.set_songs(
                tab,
                songs_title(name, songs.len()),
                songs,
                self.state.screen.sort_descending,
            ),
        ).with_focus(Focus::Secondary)
    }

    #[verifier::opaque]
    pub open spec fn playlist_loaded(
        self,
        tab: Tab,
        name: Seq<char>,
        songs: Seq<Song>,
    ) -> AppView {
        self.songs_loaded(tab, name, songs).info(
            "《"@ + name + "》共 "@ + dec(songs.len()) + " 首"@,
        )
    }

    #[verifier::opaque]
    pub open spec fn artists_loaded(self, artists: Seq<Artist>) -> AppView {
        let idle = self.set_busy(None).with_pages(
            self.state.pages.with_artists(self.state.pages.artists.list.replace(artists)),
        );
        if artists.len() == 0 {
            idle.warn("歌手列表为空"@)
        } else {
            idle.info("共 "@ + dec(artists.len()) + " 位歌手"@)
        }
    }

    #[verifier::opaque]
    pub open spec fn ranks_loaded(self, boards: Seq<RankBoard>) -> AppView {
        let idle = self.set_busy(None).with_pages(
            self.state.pages.with_ranks(self.state.pages.ranks.list.replace(boards)),
        );
        if boards.len() == 0 {
            idle.warn("排行榜列表为空"@)
        } else {
            idle.info("共 "@ + dec(boards.len()) + " 个榜单"@)
        }
    }

    /// The playlists of the account; the status line is left as it is.
    #[verifier::opaque]
    pub open spec fn cloud_loaded(self, items: Seq<Playlist>) -> AppView {
        self.set_busy(None).with_pages(
            self.state.pages.with_cloud(self.state.pages.cloud.list.replace(items)),
        )
    }

    #[verifier::opaque]
    pub open spec fn lyric_loaded(self, hash: Seq<char>, lines: Seq<LyricLine>) -> AppView {
        self.with_player(self.state.player.with_lines(hash, lines, LoadState::Idle))
    }

    #[verifier::opaque]
    pub open spec fn set_progress(self, progress: Option<(u64, Option<u64>)>) -> AppView {
        self.with_player(Player { download_progress: progress, ..self.state.player })
    }

    /// A song is downloaded; an excerpt goes to a file of its own.
    #[verifier::opaque]
    pub open spec fn start_download(
        self,
        song: Song,
        url: Seq<char>,
        start_at_ms: u64,
        is_trial: bool,
    ) -> AppView {
        let quality = self.state.config.quality;
        let key = if is_trial {
            song.trial_key(quality)
        } else {
            song.key(quality)
        };
        self.set_progress(Some((0, None))).set_busy(Some("缓冲《"@ + song.title() + "》"@)).emit(
            Effect::StartDownload {
                song,
                url,
                target: self.cache.path(key, url_extension(url)),
                start_at_ms,
            },
        )
    }

    #[verifier::opaque]
    pub open spec fn note_trial(
        self,
        song: Song,
        is_trial: bool,
        reason: Option<Seq<char>>,
    ) -> AppView {
        let noted = self.with_player(Player { current_is_trial: is_trial, ..self.state.player });
        if is_trial {
            noted.warn("《"@ + song.name@ + "》只有试听片段"@ + trial_reason(reason))
        } else {
            noted
        }
    }

    /// The link to a song is there; one for a song that is no longer played is
    /// passed over.
    #[verifier::opaque]
    pub open spec fn stream_ready(
        self,
        song: Song,
        url: Seq<char>,
        start_at_ms: u64,
        is_trial: bool,
        reason: Option<Seq<char>>,
    ) -> AppView {
        if !self.is_current(song) {
            self
        } else {
            self.note_trial(song, is_trial, reason).start_download(
                song,
                url,
                start_at_ms,
                is_trial,
            )
        }
    }

    /// Nothing is being loaded any more.
    #[verifier::opaque]
    pub open spec fn settle(self) -> AppView {
        self.set_progress(None).set_busy(None)
    }

    /// Enough of a stream is there: it is played, or called off where another
    /// song is played by now.
    #[verifier::opaque]
    pub open spec fn stream_prerolled(self, song: Song, stream: u64, start_at_ms: u64) -> AppView {
        if !self.is_current(song) {
            self.emit(Effect::CancelStream(stream))
        } else {
            (AppView { active_stream: Some(stream), ..self.settle() }).emit(
                Effect::AudioLoadStream { stream, start_at_ms, duration_ms: song.duration_ms },
            )
        }
    }

    /// A file is there: it is played, or removed where another song is played by
    /// now.
    #[verifier::opaque]
    pub open spec fn stream_cached(
        self,
        song: Song,
        path: Seq<char>,
        start_at_ms: u64,
    ) -> AppView {
        if !self.is_current(song) {
            self.emit(Effect::RemoveFile(path))
        } else {
            self.settle().emit(
                Effect::AudioLoadFile { path, start_at_ms, duration_ms: song.duration_ms },
            ).after_download_landed()
        }
    }

    /// The song that is playing has come in as a whole. It goes on playing where
    /// it is: nothing is loaded again.
    #[verifier::opaque]
    pub open spec fn stream_completed(self, song: Song) -> AppView {
        if !self.is_current(song) {
            self
        } else {
            (AppView { active_stream: None, ..self.settle() }).after_download_landed()
        }
    }

    #[verifier::opaque]
    pub open spec fn fingerprint_loaded(self, dfid: Seq<char>) -> AppView {
        let config = Config { dfid: Some(dfid), ..self.state.config };
        self.with_config(config).emit(Effect::SetCookie(config.header())).save_config(
            AfterSave::Nothing,
        )
    }

    #[verifier::opaque]
    pub open spec fn cache_measured(self, cache_bytes: u64) -> AppView {
        self.with_account(Account { cache_bytes, ..self.state.account })
    }

    #[verifier::opaque]
    pub open spec fn cloud_notice(self, message: Seq<char>) -> AppView {
        self.set_busy(None).success(message).load_cloud_playlists()
    }

    /// A cloud playlist was changed: the list of them is loaded again, and its
    /// songs where they are the ones on the page.
    #[verifier::opaque]
    pub open spec fn cloud_changed(self, playlist: Playlist) -> AppView {
        let listed = self.load_cloud_playlists();
        if shows_playlist(self.state.pages.open_cloud, playlist) {
            listed.load_playlist_songs(playlist, PlaylistSource::Cloud, true)
        } else {
            listed
        }
    }

    #[verifier::opaque]
    pub open spec fn login_code(self, key: Seq<char>, content: Seq<char>) -> AppView {
        self.with_panels(
            self.state.panels.login_code(
                key,
                content,
                "用 "@ + self.source().app() + " App 扫码登录"@,
            ),
        )
    }

    #[verifier::opaque]
    pub open spec fn login_says(self, message: Seq<char>) -> AppView {
        self.with_panels(self.state.panels.login_says(message))
    }

    /// The login worked: with a token and an account, else with a cookie, else the
    /// service keeps it to itself.
    #[verifier::opaque]
    pub open spec fn login_succeeded(
        self,
        token: Option<Seq<char>>,
        userid: Option<Seq<char>>,
        cookie: Option<Seq<char>>,
    ) -> AppView {
        if token is Some && userid is Some {
            self.apply_login(token->0, userid->0)
        } else if cookie is Some && trimmed(cookie->0).len() > 0 {
            self.apply_server_cookie(cookie->0)
        } else {
            self.finish_server_side_login()
        }
    }

    /// The cover of a song is decoded; one of another song is passed over.
    #[verifier::opaque]
    pub open spec fn cover_ready(self, hash: Seq<char>, width: u32, height: u32) -> AppView {
        if self.state.player.plays(hash) {
            self.with_player(
                Player {
                    cover: CoverArt { hash: Some(hash), aspect: Some(aspect_of(width, height)) },
                    ..self.state.player
                },
            )
        } else {
            self
        }
    }

    /// The simple mode does without the picture of the account.
    #[verifier::opaque]
    pub open spec fn load_avatar(self, url: Seq<char>) -> AppView {
        if self.state.config.lite_mode {
            self
        } else {
            self.emit(Effect::FetchAvatar { url })
        }
    }

    #[verifier::opaque]
    pub open spec fn user_loaded(self, info: UserInfo) -> AppView {
        (match info.pic {
            Some(url) => self.load_avatar(url@),
            None => self,
        }).with_account(
            Account {
                user_info: Some(info),
                user_info_load: LoadState::Idle,
                ..self.state.account
            },
        )
    }

    #[verifier::opaque]
    pub open spec fn vip_loaded(self, info: VipInfo) -> AppView {
        self.with_account(Account { vip_info: Some(info), ..self.state.account })
    }

    #[verifier::opaque]
    pub open spec fn remember_claim(self, day: Seq<char>) -> AppView {
        self.with_account(Account { vip_claimed_day: Some(day), ..self.state.account })
    }

    /// Only a day that was really claimed is remembered as claimed.
    #[verifier::opaque]
    pub open spec fn vip_claimed(
        self,
        day: Seq<char>,
        outcome: VipClaimOutcome,
        manual: bool,
    ) -> AppView {
        let done = self.with_account(Account { vip_claiming: false, ..self.state.account });
        match outcome {
            VipClaimOutcome::Claimed => done.remember_claim(day).success(
                "已领取今日概念版 VIP"@,
            ).fetch_vip_status(),
            VipClaimOutcome::AlreadyClaimed => (if manual {
                done.remember_claim(day).info("今日 VIP 已经领过了，无需重复领取"@)
            } else {
                done.remember_claim(day)
            }).fetch_vip_status(),
            VipClaimOutcome::Failed(message) => done.warn("领取 VIP 失败："@ + message@),
        }
    }

    /// What could not be loaded says why, and no longer waits.
    #[verifier::opaque]
    pub open spec fn mark_load_failed(self, target: LoadingTarget, reason: Seq<char>) -> AppView {
        let pages = self.state.pages;
        match target {
            LoadingTarget::SearchResults => self.with_pages(pages.fail_songs(Tab::Search, reason)),
            LoadingTarget::Playlists => self.with_pages(
                pages.fail_entries(Tab::Playlists, reason),
            ),
            LoadingTarget::Artists => self.with_pages(pages.fail_entries(Tab::Artists, reason)),
            LoadingTarget::Ranks => self.with_pages(pages.fail_entries(Tab::Ranks, reason)),
            LoadingTarget::CloudPlaylists => self.with_pages(
                pages.fail_entries(Tab::Cloud, reason),
            ),
            LoadingTarget::PlaylistSongs(PlaylistSource::Plaza) => self.with_pages(
                pages.fail_songs(Tab::Playlists, reason),
            ),
            LoadingTarget::PlaylistSongs(PlaylistSource::Cloud) => self.with_pages(
                pages.fail_songs(Tab::Cloud, reason),
            ),
            LoadingTarget::ArtistSongs => self.with_pages(pages.fail_songs(Tab::Artists, reason)),
            LoadingTarget::RankSongs => self.with_pages(pages.fail_songs(Tab::Ranks, reason)),
            LoadingTarget::UserInfo => self.with_account(
                Account { user_info_load: LoadState::Failed(reason), ..self.state.account },
            ),
        }
    }

    #[verifier::opaque]
    pub open spec fn login_lost(self, error: AppError) -> AppView {
        if error.login_expired {
            self.with_account(Account { logged_in: false, ..self.state.account })
        } else {
            self
        }
    }

    /// A request has failed: that is said in its place and in the status line, and
    /// a login that the service no longer accepts is no login.
    #[verifier::opaque]
    pub open spec fn request_failed(
        self,
        context: Seq<char>,
        error: AppError,
        target: Option<LoadingTarget>,
    ) -> AppView {
        let settled = self.settle().login_lost(error);
        (match target {
            Some(target) => settled.mark_load_failed(target, error.hint@),
            None => settled,
        }).error(context + "："@ + error.hint@)
    }

    /// Whether the service can be reached is noted, and said where that is new.
    #[verifier::opaque]
    pub open spec fn note_connection(self, loaded: Loaded) -> AppView {
        match seen_connection(loaded) {
            Some(next) => if self.state.account.connection == next {
                self
            } else {
                let noted = self.with_account(Account { connection: next, ..self.state.account });
                if next == Connection::Connected {
                    noted.info("已连接 "@ + self.client_base)
                } else {
                    noted
                }
            },
            None => self,
        }
    }

    #[verifier::opaque]
    pub open spec fn handle_loaded(self, loaded: Loaded) -> AppView {
        match loaded {
            Loaded::Search { keyword, songs, append } => if append {
                self.search_appended(keyword@, songs@)
            } else {
                self.search_found(keyword@, songs@)
            },
            Loaded::Playlists { title, items } => self.playlists_loaded(title@, items@),
            Loaded::PlaylistTracks { playlist, songs, source } => self.playlist_loaded(
                crate::app::browse::panel_tab(source),
                playlist.name@,
                songs@,
            ),
            Loaded::Artists(artists) => self.artists_loaded(artists@),
            Loaded::ArtistSongs { artist, songs } => self.songs_loaded(
                Tab::Artists,
                artist.name@,
                songs@,
            ),
            Loaded::RankBoards(boards) => self.ranks_loaded(boards@),
            Loaded::RankTracks { board, songs } => self.songs_loaded(
                Tab::Ranks,
                board.name@,
                songs@,
            ),
            Loaded::CloudPlaylists(items) => self.cloud_loaded(items@),
            Loaded::Lyric { hash, lines } => self.lyric_loaded(hash@, lines@),
            Loaded::LyricFailed { hash, reason } => self.lyric_failed(hash@, reason@),
            Loaded::StreamReady { song, url, start_at_ms, is_trial, reason } => self.stream_ready(
                *song,
                url@,
                start_at_ms,
                is_trial,
                opt(reason),
            ),
            Loaded::DownloadProgress { received, total } => self.set_progress(
                Some((received, total)),
            ),
            Loaded::StreamCached { song, path, start_at_ms } => self.stream_cached(
                *song,
                path@,
                start_at_ms,
            ),
            Loaded::StreamCompleted { song, .. } => self.stream_completed(*song),
            Loaded::DeviceFingerprint(dfid) => self.fingerprint_loaded(dfid@),
            Loaded::CacheUsage(bytes) => self.cache_measured(bytes),
            Loaded::LoginQr { key, content } => self.login_code(key@, content@),
            Loaded::LoginStatus { message } => self.login_says(message@),
            Loaded::LoginSucceeded { token, userid, cookie } => self.login_succeeded(
                opt(token),
                opt(userid),
                opt(cookie),
            ),
            Loaded::LoginFailed { message } => self.finish_login(false, message@),
            Loaded::CoverReady { hash, width, height } => self.cover_ready(hash@, width, height),
            Loaded::VipStatus(info) => self.vip_loaded(*info),
            Loaded::VipClaimed { day, outcome, manual } => self.vip_claimed(day@, outcome, manual),
            Loaded::UserInfo(info) => self.user_loaded(*info),
            Loaded::AvatarReady => self.emit(Effect::ShowAvatar),
            Loaded::StreamPrerolled { song, stream, start_at_ms } => self.stream_prerolled(
                *song,
                stream,
                start_at_ms,
            ),
            Loaded::CloudNotice(message) => self.cloud_notice(message@),
            Loaded::CloudPlaylistChanged { playlist } => self.cloud_changed(*playlist),
            Loaded::Failed { context, error, target } => self.request_failed(
                context@,
                error,
                target,
            ),
        }
    }
}

impl App {
    fn search_appended(&mut self, keyword: &str, songs: Vec<Song>)
        ensures
            final(self)@ == old(self)@.search_appended(keyword@, songs@),
    {
        proof {
            reveal(AppView::search_appended);
        }
        let added: usize = songs.len();
        self.set_busy(None);
        let total: usize = self.state.pages.append_results(keyword, songs);
        if added == 0 {
            self.info("没有更多结果了".to_owned());
        } else {
            let added = dec_text(added as u64);
            let total = dec_text(total as u64);
            self.success(cat5("又加载了 ", added.as_str(), " 首（共 ", total.as_str(), " 首）"));
        }
    }

    fn search_found(&mut self, keyword: &str, songs: Vec<Song>)
        ensures
            final(self)@ == old(self)@.search_found(keyword@, songs@),
    {
        proof {
            reveal(AppView::search_found);
        }
        let count: usize = songs.len();
        self.set_busy(None);
        self.state.pages.set_page(1);
        self.state.pages.set_songs(Tab::Search, describe_results(keyword, count), songs, false);
        if count == 0 {
            self.warn(cat3("「", keyword, "」没有找到结果"));
        } else {
            let count = dec_text(count as u64);
            self.success(cat5("「", keyword, "」找到 ", count.as_str(), " 首"));
            self.with_focus(Focus::Secondary);
        }
    }

    fn playlists_loaded(&mut self, title: &str, items: Vec<Playlist>)
        ensures
            final(self)@ == old(self)@.playlists_loaded(title@, items@),
    {
        proof {
            reveal(AppView::playlists_loaded);
        }
        let count: usize = items.len();
        self.set_busy(None);
        self.state.pages.replace_playlists(items);
        if count == 0 {
            self.warn(cat2(title, "暂无内容"));
        } else {
            let mut text = cat3(title, "：", dec_text(count as u64).as_str());
            text.append(" 个歌单");
            self.info(text);
        }
    }

    fn songs_loaded(&mut self, tab: Tab, name: &str, songs: Vec<Song>)
        ensures
            final(self)@ == old(self)@.songs_loaded(tab, name@, songs@),
    {
        proof {
            reveal(AppView::songs_loaded);
        }
        let title = describe_songs(name, songs.len());
        let descending = self.state.screen.sort_descending();
        self.set_busy(None);
        self.state.pages.set_songs(tab, title, songs, descending);
        self.with_focus(Focus::Secondary);
    }

    fn playlist_loaded(&mut self, tab: Tab, name: &str, songs: Vec<Song>)
        ensures
            final(self)@ == old(self)@.playlist_loaded(tab, name@, songs@),
    {
        proof {
            reveal(AppView::playlist_loaded);
        }
        let count = dec_text(songs.len() as u64);
        self.songs_loaded(tab, name, songs);
        self.info(cat5("《", name, "》共 ", count.as_str(), " 首"));
    }

    fn artists_loaded(&mut self, artists: Vec<Artist>)
        ensures
            final(self)@ == old(self)@.artists_loaded(artists@),
    {
        proof {
            reveal(AppView::artists_loaded);
        }
        let count: usize = artists.len();
        self.set_busy(None);
        self.state.pages.replace_artists(artists);
        if count == 0 {
            self.warn("歌手列表为空".to_owned());
        } else {
            self.info(cat3("共 ", dec_text(count as u64).as_str(), " 位歌手"));
        }
    }

    fn ranks_loaded(&mut self, boards: Vec<RankBoard>)
        ensures
            final(self)@ == old(self)@.ranks_loaded(boards@),
    {
        proof {
            reveal(AppView::ranks_loaded);
        }
        let count: usize = boards.len();
        self.set_busy(None);
        self.state.pages.replace_ranks(boards);
        if count == 0 {
            self.warn("排行榜列表为空".to_owned());
        } else {
            self.info(cat3("共 ", dec_text(count as u64).as_str(), " 个榜单"));
        }
    }

    fn cloud_loaded(&mut self, items: Vec<Playlist>)
        ensures
            final(self)@ == old(self)@.cloud_loaded(items@),
    {
        proof {
            reveal(AppView::cloud_loaded);
        }
        self.set_busy(None);
        self.state.pages.replace_cloud(items);
    }

    fn lyric_loaded(&mut self, hash: &str, lines: Vec<LyricLine>)
        ensures
            final(self)@ == old(self)@.lyric_loaded(hash@, lines@),
    {
        proof {
            reveal(AppView::lyric_loaded);
        }
        self.state.player.set_lines(hash, lines, LoadState::Idle);
    }

    fn set_progress(&mut self, progress: Option<(u64, Option<u64>)>)
        ensures
            final(self)@ == old(self)@.set_progress(progress),
    {
        proof {
            reveal(AppView::set_progress);
        }
        self.state.player.set_download_progress(progress);
    }

    /// Starts the download of a song.
    pub fn start_download(&mut self, song: Song, url: String, start_at_ms: u64, is_trial: bool)
        ensures
            final(self)@ == old(self)@.start_download(song, url@, start_at_ms, is_trial),
    {
        proof {
            reveal(AppView::start_download);
        }
        let quality = conf::quality(&self.state.config);
        let key = if is_trial {
            song.trial_cache_key(quality.as_str())
        } else {
            song.cache_key(quality.as_str())
        };
        let extension = Downloader::extension_from_url(url.as_str());
        let target = self.cache.path_for(key.as_str(), extension);
        let label = describe_song(&song);
        self.set_progress(Some((0, None)));
        self.set_busy(Some(cat3("缓冲《", label.as_str(), "》")));
        self.emit(Effect::StartDownload { song, url, target, start_at_ms });
    }

    fn note_trial(&mut self, song: &Song, is_trial: bool, reason: Option<String>)
        ensures
            final(self)@ == old(self)@.note_trial(*song, is_trial, opt(reason)),
    {
        proof {
            reveal(AppView::note_trial);
        }
        self.state.player.set_current_is_trial(is_trial);
        if is_trial {
            let why = match reason {
                Some(why) => cat2("：", why.as_str()),
                None => "（完整版需要对应会员）".to_owned(),
            };
            let mut text = cat3("《", song.name.as_str(), "》只有试听片段");
            text.append(why.as_str());
            self.warn(text);
        }
    }

    fn stream_ready(
        &mut self,
        song: Song,
        url: String,
        start_at_ms: u64,
        is_trial: bool,
        reason: Option<String>,
    )
        ensures
            final(self)@ == old(self)@.stream_ready(song, url@, start_at_ms, is_trial, opt(reason)),
    {
        proof {
            reveal(AppView::stream_ready);
        }
        if self.is_current(&song) {
            self.note_trial(&song, is_trial, reason);
            self.start_download(song, url, start_at_ms, is_trial);
        }
    }

    pub(crate) fn settle(&mut self)
        ensures
            final(self)@ == old(self)@.settle(),
    {
        proof {
            reveal(AppView::settle);
        }
        self.set_progress(None);
        self.set_busy(None);
    }

    fn stream_prerolled(&mut self, song: Song, stream: u64, start_at_ms: u64)
        ensures
            final(self)@ == old(self)@.stream_prerolled(song, stream, start_at_ms),
    {
        proof {
            reveal(AppView::stream_prerolled);
        }
        if !self.is_current(&song) {
            self.emit(Effect::CancelStream(stream));
        } else {
            self.settle();
            self.active_stream = Some(stream);
            self.emit(
                Effect::AudioLoadStream { stream, start_at_ms, duration_ms: song.duration_ms },
            );
        }
    }

    fn stream_cached(&mut self, song: Song, path: String, start_at_ms: u64)
        ensures
            final(self)@ == old(self)@.stream_cached(song, path@, start_at_ms),
    {
        proof {
            reveal(AppView::stream_cached);
        }
        if !self.is_current(&song) {
            self.emit(Effect::RemoveFile(path));
        } else {
            self.settle();
            self.emit(
                Effect::AudioLoadFile { path, start_at_ms, duration_ms: song.duration_ms },
            );
            self.after_download_landed();
        }
    }

    fn stream_completed(&mut self, song: Song)
        ensures
            final(self)@ == old(self)@.stream_completed(song),
    {
        proof {
            reveal(AppView::stream_completed);
        }
        if self.is_current(&song) {
            self.settle();
            self.active_stream = None;
            self.after_download_landed();
        }
    }

    fn fingerprint_loaded(&mut self, dfid: String)
        ensures
            final(self)@ == old(self)@.fingerprint_loaded(dfid@),
    {
        proof {
            reveal(AppView::fingerprint_loaded);
        }
        conf::set_dfid(&mut self.state.config, Some(dfid));
        let header = conf::header(&self.state.config);
        self.emit(Effect::SetCookie(header));
        self.save_config(AfterSave::Nothing);
    }

    fn cache_measured(&mut self, cache_bytes: u64)
        ensures
            final(self)@ == old(self)@.cache_measured(cache_bytes),
    {
        proof {
            reveal(AppView::cache_measured);
        }
        self.state.account.set_cache_bytes(cache_bytes);
    }

    fn cloud_notice(&mut self, message: String)
        ensures
            final(self)@ == old(self)@.cloud_notice(message@),
    {
        proof {
            reveal(AppView::cloud_notice);
        }
        self.set_busy(None);
        self.success(message);
        self.load_cloud_playlists();
    }

    fn cloud_changed(&mut self, playlist: Playlist)
        ensures
            final(self)@ == old(self)@.cloud_changed(playlist),
    {
        proof {
            reveal(AppView::cloud_changed);
        }
        let shown = is_shown(&self.state.pages.open_cloud(), &playlist);
        self.load_cloud_playlists();
        if shown {
            self.load_playlist_songs(playlist, PlaylistSource::Cloud, true);
        }
    }

    fn login_code(&mut self, key: String, content: String)
        ensures
            final(self)@ == old(self)@.login_code(key@, content@),
    {
        proof {
            reveal(AppView::login_code);
        }
        let app = conf::active(&self.state.config).scan_app();
        self.state.panels.show_code(key, content, cat3("用 ", app, " App 扫码登录"));
    }

    fn login_says(&mut self, message: String)
        ensures
            final(self)@ == old(self)@.login_says(message@),
    {
        proof {
            reveal(AppView::login_says);
        }
        self.state.panels.say_in_login(message);
    }

    fn login_succeeded(
        &mut self,
        token: Option<String>,
        userid: Option<String>,
        cookie: Option<String>,
    )
        ensures
            final(self)@ == old(self)@.login_succeeded(opt(token), opt(userid), opt(cookie)),
    {
        proof {
            reveal(AppView::login_succeeded);
        }
        match (token, userid) {
            (Some(token), Some(userid)) => {
                self.apply_login(token.as_str(), userid);
            },
            _ => match cookie {
                Some(cookie) => {
                    if trim(cookie.as_str()).as_str().is_empty() {
                        self.finish_server_side_login();
                    } else {
                        self.apply_server_cookie(cookie);
                    }
                },
                None => {
                    self.finish_server_side_login();
                },
            },
        }
    }

    fn cover_ready(&mut self, hash: String, width: u32, height: u32)
        ensures
            final(self)@ == old(self)@.cover_ready(hash@, width, height),
    {
        proof {
            reveal(AppView::cover_ready);
        }
        if self.state.player.plays(hash.as_str()) {
            self.state.player.set_cover(
                CoverArt { hash: Some(hash), aspect: Some(image_aspect(width, height)) },
            );
        }
    }

    /// Loads the picture of the account.
    pub fn load_avatar(&mut self, url: String)
        ensures
            final(self)@ == old(self)@.load_avatar(url@),
    {
        proof {
            reveal(AppView::load_avatar);
        }
        if !conf::lite_mode(&self.state.config) {
            self.emit(Effect::FetchAvatar { url });
        }
    }

    fn user_loaded(&mut self, info: UserInfo)
        ensures
            final(self)@ == old(self)@.user_loaded(info),
    {
        proof {
            reveal(AppView::user_loaded);
        }
        proof {
            reveal(AppView::load_avatar);
        }
        match &info.pic {
            Some(url) => {
                self.load_avatar(url.clone());
            },
            None => {},
        }
        self.state.account.set_user_info(Some(info));
        self.state.account.set_user_info_load(LoadState::Idle);
    }

    fn vip_loaded(&mut self, info: VipInfo)
        ensures
            final(self)@ == old(self)@.vip_loaded(info),
    {
        proof {
            reveal(AppView::vip_loaded);
        }
        self.state.account.set_vip_info(Some(info));
    }

    fn remember_claim(&mut self, day: String)
        ensures
            final(self)@ == old(self)@.remember_claim(day@),
    {
        proof {
            reveal(AppView::remember_claim);
        }
        self.state.account.set_vip_claimed_day(Some(day));
    }

    fn vip_claimed(&mut self, day: String, outcome: VipClaimOutcome, manual: bool)
        ensures
            final(self)@ == old(self)@.vip_claimed(day@, outcome, manual),
    {
        proof {
            reveal(AppView::vip_claimed);
        }
        self.state.account.set_vip_claiming(false);
        match outcome {
            VipClaimOutcome::Claimed => {
                self.remember_claim(day);
                self.success("已领取今日概念版 VIP".to_owned());
                self.fetch_vip_status();
            },
            VipClaimOutcome::AlreadyClaimed => {
                self.remember_claim(day);
                if manual {
                    self.info("今日 VIP 已经领过了，无需重复领取".to_owned());
                }
                self.fetch_vip_status();
            },
            VipClaimOutcome::Failed(message) => {
                self.warn(cat2("领取 VIP 失败：", message.as_str()));
            },
        }
    }

    /// Lets what could not be loaded say why.
    pub fn mark_load_failed(&mut self, target: LoadingTarget, reason: &str)
        ensures
            final(self)@ == old(self)@.mark_load_failed(target, reason@),
    {
        proof {
            reveal(AppView::mark_load_failed);
        }
        let reason = reason.to_owned();
        match target {
            LoadingTarget::SearchResults => {
                self.state.pages.fail_songs(Tab::Search, reason);
            },
            LoadingTarget::Playlists => {
                self.state.pages.fail_entries(Tab::Playlists, reason);
            },
            LoadingTarget::Artists => {
                self.state.pages.fail_entries(Tab::Artists, reason);
            },
            LoadingTarget::Ranks => {
                self.state.pages.fail_entries(Tab::Ranks, reason);
            },
            LoadingTarget::CloudPlaylists => {
                self.state.pages.fail_entries(Tab::Cloud, reason);
            },
            LoadingTarget::PlaylistSongs(source) => match source {
                PlaylistSource::Plaza => {
                    self.state.pages.fail_songs(Tab::Playlists, reason);
                },
                PlaylistSource::Cloud => {
                    self.state.pages.fail_songs(Tab::Cloud, reason);
                },
            },
            LoadingTarget::ArtistSongs => {
                self.state.pages.fail_songs(Tab::Artists, reason);
            },
            LoadingTarget::RankSongs => {
                self.state.pages.fail_songs(Tab::Ranks, reason);
            },
            LoadingTarget::UserInfo => {
                self.state.account.set_user_info_load(LoadState::Failed(reason));
            },
        }
    }

    fn login_lost(&mut self, error: &AppError)
        ensures
            final(self)@ == old(self)@.login_lost(*error),
    {
        proof {
            reveal(AppView::login_lost);
        }
        if error.login_expired {
            self.state.account.set_logged_in(false);
        }
    }

    fn request_failed(&mut self, context: &str, error: AppError, target: Option<LoadingTarget>)
        ensures
            final(self)@ == old(self)@.request_failed(context@, error, target),
    {
        proof {
            reveal(AppView::request_failed);
        }
        self.settle();
        self.login_lost(&error);
        match target {
            Some(target) => {
                self.mark_load_failed(target, error.hint.as_str());
            },
            None => {},
        }
        self.error(cat3(context, "：", error.hint.as_str()));
    }

    /// Notes whether the service can be reached.
    pub fn note_connection(&mut self, loaded: &Loaded)
        ensures
            final(self)@ == old(self)@.note_connection(*loaded),
    {
        proof {
            reveal(AppView::note_connection);
        }
        match see_connection(loaded) {
            Some(next) => {
                if self.state.account.connection() != next {
                    self.state.account.set_connection(next);
                    if next == Connection::Connected {
                        let base = self.client_base.clone();
                        self.info(cat2("已连接 ", base.as_str()));
                    }
                }
            },
            None => {},
        }
    }

    /// Takes an answer.
    pub fn handle_loaded(&mut self, loaded: Loaded)
        ensures
            final(self)@ == old(self)@.handle_loaded(loaded),
    {
        proof {
            reveal(AppView::handle_loaded);
        }
        match loaded {
            Loaded::Search { keyword, songs, append } => {
                if append {
                    self.search_appended(keyword.as_str(), songs);
                } else {
                    self.search_found(keyword.as_str(), songs);
                }
            },
            Loaded::Playlists { title, items } => {
                self.playlists_loaded(title.as_str(), items);
            },
            Loaded::PlaylistTracks { playlist, songs, source } => {
                let tab = match source {
                    PlaylistSource::Plaza => Tab::Playlists,
                    PlaylistSource::Cloud => Tab::Cloud,
                };
                self.playlist_loaded(tab, playlist.name.as_str(), songs);
            },
            Loaded::Artists(artists) => {
                self.artists_loaded(artists);
            },
            Loaded::ArtistSongs { artist, songs } => {
                self.songs_loaded(Tab::Artists, artist.name.as_str(), songs);
            },
            Loaded::RankBoards(boards) => {
                self.ranks_loaded(boards);
            },
            Loaded::RankTracks { board, songs } => {
                self.songs_loaded(Tab::Ranks, board.name.as_str(), songs);
            },
            Loaded::CloudPlaylists(items) => {
                self.cloud_loaded(items);
            },
            Loaded::Lyric { hash, lines } => {
                self.lyric_loaded(hash.as_str(), lines);
            },
            Loaded::LyricFailed { hash, reason } => {
                self.lyric_failed(hash.as_str(), reason);
            },
            Loaded::StreamReady { song, url, start_at_ms, is_trial, reason } => {
                self.stream_ready(*song, url, start_at_ms, is_trial, reason);
            },
            Loaded::DownloadProgress { received, total } => {
                self.set_progress(Some((received, total)));
            },
            Loaded::StreamCached { song, path, start_at_ms } => {
                self.stream_cached(*song, path, start_at_ms);
            },
            Loaded::StreamCompleted { song, path: _ } => {
                self.stream_completed(*song);
            },
            Loaded::DeviceFingerprint(dfid) => {
                self.fingerprint_loaded(dfid);
            },
            Loaded::CacheUsage(bytes) => {
                self.cache_measured(bytes);
            },
            Loaded::LoginQr { key, content } => {
                self.login_code(key, content);
            },
            Loaded::LoginStatus { message } => {
                self.login_says(message);
            },
            Loaded::LoginSucceeded { token, userid, cookie } => {
                self.login_succeeded(token, userid, cookie);
            },
            Loaded::LoginFailed { message } => {
                self.finish_login(false, message);
            },
            Loaded::CoverReady { hash, width, height } => {
                self.cover_ready(hash, width, height);
            },
            Loaded::VipStatus(info) => {
                self.vip_loaded(*info);
            },
            Loaded::VipClaimed { day, outcome, manual } => {
                self.vip_claimed(day, outcome, manual);
            },
            Loaded::UserInfo(info) => {
                self.user_loaded(*info);
            },
            Loaded::AvatarReady => {
                self.emit(Effect::ShowAvatar);
            },
            Loaded::StreamPrerolled { song, stream, start_at_ms } => {
                self.stream_prerolled(*song, stream, start_at_ms);
            },
            Loaded::CloudNotice(message) => {
                self.cloud_notice(message);
            },
            Loaded::CloudPlaylistChanged { playlist } => {
                self.cloud_changed(*playlist);
            },
            Loaded::Failed { context, error, target } => {
                self.request_failed(context.as_str(), error, target);
            },
        }
    }
}

} // verus!
