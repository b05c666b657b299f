//! What is made of the outcomes of requests: each becomes the event that tells the
//! program of it.

use vstd::prelude::*;
use crate::app::browse::{more_to_fetch, needs_full_fetch};
use crate::audio::cache::AudioCache;
use crate::audio::download::{url_extension, Downloader, StreamOutcome};
use crate::config::{expand_tilde, expand_tilde_with, home_expanded};
use crate::error::{readable_reason, reason, AppError};
use crate::event::{Loaded, LoadingTarget, PlaylistSource, VipClaimOutcome};
use crate::model::{
    describe_song, expand_cover_size, sized, Artist, LyricLine, Playlist, RankBoard, Song, UserInfo,
    VipInfo,
};
use crate::source::SourceKind;
use crate::text::{
    bare_path, bare_text, before, cat3, cat5, chars_of, dec, dec_text, ends_with, join, joined,
    occurs_at, opt_str, same, signed, signed_text, text_before,
};

verus! {

/// How large a cover is asked for, in pixels.
pub const COVER_PIXEL_SIZE: u32 = 256;

/// How long one waits before a changed playlist is loaded again, in milliseconds.
pub const EDIT_SETTLE_MS: u64 = 300;

/// Where songs are downloaded to unless told otherwise.
pub const DOWNLOAD_DIR: &'static str = "~/Music";

/// Whether an event tells that something has failed.
pub open spec fn tells_failure(
    loaded: Loaded,
    target: Option<LoadingTarget>,
    context: Seq<char>,
    error: AppError,
) -> bool {
    match loaded {
        Loaded::Failed { context: c, error: e, target: t } => c@ == context && e == error && t
            == target,
        _ => false,
    }
}

// Lists and their songs.

/// The results of a search. That a further page lies behind the last one is no
/// failure: there are no more results.
pub fn search_reply(keyword: String, append: bool, result: Result<Vec<Song>, AppError>) -> (r:
    Loaded)
    ensures
        match result {
            Ok(songs) => r == (Loaded::Search { keyword, songs, append }),
            Err(error) => if !append {
                tells_failure(
                    r,
                    Some(LoadingTarget::SearchResults),
                    "搜索「"@ + keyword@ + "」失败"@,
                    error,
                )
            } else if error.page_out_of_range {
                match r {
                    Loaded::Search { keyword: k, songs, append: a } => k == keyword && songs@
                        == Seq::<Song>::empty() && a,
                    _ => false,
                }
            } else {
                tells_failure(
                    r,
                    Some(LoadingTarget::SearchResults),
                    "加载「"@ + keyword@ + "」更多结果失败"@,
                    error,
                )
            },
        },
{
    match result {
        Ok(songs) => Loaded::Search { keyword, songs, append },
        Err(error) => {
            if !append {
                let context = cat3("搜索「", keyword.as_str(), "」失败");
                Loaded::fail_loading(LoadingTarget::SearchResults, context, error)
            } else if error.page_out_of_range {
                Loaded::Search { keyword, songs: Vec::new(), append }
            } else {
                let context = cat3("加载「", keyword.as_str(), "」更多结果失败");
                Loaded::fail_loading(LoadingTarget::SearchResults, context, error)
            }
        },
    }
}

/// The public playlists.
pub fn playlists_reply(result: Result<Vec<Playlist>, AppError>) -> (r: Loaded)
    ensures
        match result {
            Ok(items) => match r {
                Loaded::Playlists { title, items: shown } => title@ == "歌单广场"@ && shown == items,
                _ => false,
            },
            Err(error) => tells_failure(
                r,
                Some(LoadingTarget::Playlists),
                "载入歌单广场失败"@,
                error,
            ),
        },
{
    match result {
        Ok(items) => Loaded::Playlists { title: "歌单广场".to_owned(), items },
        Err(error) => Loaded::fail_loading(
            LoadingTarget::Playlists,
            "载入歌单广场失败".to_owned(),
            error,
        ),
    }
}

pub fn artists_reply(result: Result<Vec<Artist>, AppError>) -> (r: Loaded)
    ensures
        match result {
            Ok(artists) => r == Loaded::Artists(artists),
            Err(error) => tells_failure(
                r,
                Some(LoadingTarget::Artists),
                "载入歌手列表失败"@,
                error,
            ),
        },
{
    match result {
        Ok(artists) => Loaded::Artists(artists),
        Err(error) => Loaded::fail_loading(
            LoadingTarget::Artists,
            "载入歌手列表失败".to_owned(),
            error,
        ),
    }
}

pub fn ranks_reply(result: Result<Vec<RankBoard>, AppError>) -> (r: Loaded)
    ensures
        match result {
            Ok(boards) => r == Loaded::RankBoards(boards),
            Err(error) => tells_failure(r, Some(LoadingTarget::Ranks), "载入排行榜失败"@, error),
        },
{
    match result {
        Ok(boards) => Loaded::RankBoards(boards),
        Err(error) => Loaded::fail_loading(
            LoadingTarget::Ranks,
            "载入排行榜失败".to_owned(),
            error,
        ),
    }
}

pub fn cloud_reply(result: Result<Vec<Playlist>, AppError>) -> (r: Loaded)
    ensures
        match result {
            Ok(items) => r == Loaded::CloudPlaylists(items),
            Err(error) => tells_failure(
                r,
                Some(LoadingTarget::CloudPlaylists),
                "载入云端歌单失败"@,
                error,
            ),
        },
{
    match result {
        Ok(items) => Loaded::CloudPlaylists(items),
        Err(error) => Loaded::fail_loading(
            LoadingTarget::CloudPlaylists,
            "载入云端歌单失败".to_owned(),
            error,
        ),
    }
}

/// By what the songs of a playlist are asked for.
#[derive(Debug, PartialEq, Eq)]
pub enum PlaylistRef {
    /// One of the account's own, by its number.
    Own(i64),
    Public(String),
}

impl PlaylistRef {
    pub fn of(playlist: &Playlist) -> (r: Self)
        ensures
            match playlist.list_id {
                Some(id) => if playlist.is_own {
                    r == PlaylistRef::Own(id)
                } else {
                    r == PlaylistRef::Public(playlist.id)
                },
                None => r == PlaylistRef::Public(playlist.id),
            },
    {
        match playlist.list_id {
            Some(id) => if playlist.is_own {
                PlaylistRef::Own(id)
            } else {
                PlaylistRef::Public(playlist.id.clone())
            },
            None => PlaylistRef::Public(playlist.id.clone()),
        }
    }
}

/// What to fetch next of a playlist.
#[derive(Debug, Clone, Copy, PartialEq, Eq)]
pub enum PlaylistNext {
    Page(u32),
    /// The whole list.
    Everything,
    Done,
}

/// What follows when the first page of a playlist was fetched.
pub open spec fn after_page(page: u32, songs: Seq<Song>) -> PlaylistNext {
    if songs.len() == 0 && page > 1 {
        PlaylistNext::Page(1)
    } else if more_to_fetch(page, songs.len()) {
        PlaylistNext::Everything
    } else {
        PlaylistNext::Done
    }
}

fn playlist_failed(playlist: &Playlist, source: PlaylistSource, error: AppError) -> (r: Loaded)
    ensures
        tells_failure(
            r,
            Some(LoadingTarget::PlaylistSongs(source)),
            "载入歌单《"@ + playlist.name@ + "》失败"@,
            error,
        ),
{
    Loaded::fail_loading(
        LoadingTarget::PlaylistSongs(source),
        cat3("载入歌单《", playlist.name.as_str(), "》失败"),
        error,
    )
}

/// The first page of a playlist that is shown. It is shown at once, while the rest
/// is fetched; a page that turns out to be empty makes way for the first.
pub fn playlist_page_reply(
    playlist: &Playlist,
    source: PlaylistSource,
    page: u32,
    result: Result<Vec<Song>, AppError>,
) -> (r: (Option<Loaded>, PlaylistNext))
    ensures
        match result {
            Ok(songs) => r.1 == after_page(page, songs@) && match r.0 {
                Some(loaded) => !(r.1 is Page) && loaded == (Loaded::PlaylistTracks {
                    playlist: *playlist,
                    songs,
                    source,
                }),
                None => r.1 is Page,
            },
            Err(error) => r.1 == PlaylistNext::Done && r.0 is Some && tells_failure(
                r.0->0,
                Some(LoadingTarget::PlaylistSongs(source)),
                "载入歌单《"@ + playlist.name@ + "》失败"@,
                error,
            ),
        },
{
    match result {
        Ok(songs) => {
            let count: usize = songs.len();
            if count == 0 && page > 1 {
                return (None, PlaylistNext::Page(1));
            }
            let next = if needs_full_fetch(page, count) {
                PlaylistNext::Everything
            } else {
                PlaylistNext::Done
            };
            (Some(Loaded::PlaylistTracks { playlist: playlist.clone(), songs, source }), next)
        },
        Err(error) => (Some(playlist_failed(playlist, source, error)), PlaylistNext::Done),
    }
}

/// A whole playlist.
pub fn playlist_reply(
    playlist: &Playlist,
    source: PlaylistSource,
    result: Result<Vec<Song>, AppError>,
) -> (r: Loaded)
    ensures
        match result {
            Ok(songs) => r == (Loaded::PlaylistTracks { playlist: *playlist, songs, source }),
            Err(error) => tells_failure(
                r,
                Some(LoadingTarget::PlaylistSongs(source)),
                "载入歌单《"@ + playlist.name@ + "》失败"@,
                error,
            ),
        },
{
    match result {
        Ok(songs) => Loaded::PlaylistTracks { playlist: playlist.clone(), songs, source },
        Err(error) => playlist_failed(playlist, source, error),
    }
}

/// A playlist is fetched in at most three steps: a page that is shown, the first
/// page instead of an empty one, and the whole list; and it is left unfinished
/// only where its first page is not full.
pub proof fn playlists_are_fetched_in_few_steps(page: u32, songs: Seq<Song>)
    ensures
        after_page(page, songs) == PlaylistNext::Page(1) ==> page > 1 && songs.len() == 0,
        !(after_page(1, songs) is Page),
        after_page(page, songs) == PlaylistNext::Done ==> page <= 1 && songs.len()
            < crate::app::browse::PAGE_LIMIT,
{
}

pub fn artist_reply(artist: Artist, result: Result<Vec<Song>, AppError>) -> (r: Loaded)
    ensures
        match result {
            Ok(songs) => r == (Loaded::ArtistSongs { artist, songs }),
            Err(error) => tells_failure(
                r,
                Some(LoadingTarget::ArtistSongs),
                "载入歌手 "@ + artist.name@ + " 的歌曲失败"@,
                error,
            ),
        },
{
    match result {
        Ok(songs) => Loaded::ArtistSongs { artist, songs },
        Err(error) => Loaded::fail_loading(
            LoadingTarget::ArtistSongs,
            cat3("载入歌手 ", artist.name.as_str(), " 的歌曲失败"),
            error,
        ),
    }
}

pub fn rank_reply(board: RankBoard, result: Result<Vec<Song>, AppError>) -> (r: Loaded)
    ensures
        match result {
            Ok(songs) => r == (Loaded::RankTracks { board, songs }),
            Err(error) => tells_failure(
                r,
                Some(LoadingTarget::RankSongs),
                "载入榜单 "@ + board.name@ + " 失败"@,
                error,
            ),
        },
{
    match result {
        Ok(songs) => Loaded::RankTracks { board, songs },
        Err(error) => Loaded::fail_loading(
            LoadingTarget::RankSongs,
            cat3("载入榜单 ", board.name.as_str(), " 失败"),
            error,
        ),
    }
}

// A song.

/// The link to a song, as the service gives it.
#[derive(Debug, PartialEq, Eq)]
pub struct SongStream {
    pub url: String,
    /// Whether it leads to an excerpt only, and why.
    pub is_trial: bool,
    pub reason: Option<String>,
}

fn link_failed(song: &Song, error: AppError) -> (r: Loaded)
    ensures
        tells_failure(r, None, "获取《"@ + song.name@ + "》的播放地址失败"@, error),
{
    Loaded::fail(cat3("获取《", song.name.as_str(), "》的播放地址失败"), error)
}

pub fn song_url_reply(song: Song, start_at_ms: u64, result: Result<SongStream, AppError>) -> (r:
    Loaded)
    ensures
        match result {
            Ok(stream) => r == (Loaded::StreamReady {
                song: Box::new(song),
                url: stream.url,
                start_at_ms,
                is_trial: stream.is_trial,
                reason: stream.reason,
            }),
            Err(error) => tells_failure(
                r,
                None,
                "获取《"@ + song.name@ + "》的播放地址失败"@,
                error,
            ),
        },
{
    match result {
        Ok(stream) => Loaded::StreamReady {
            song: Box::new(song),
            url: stream.url,
            start_at_ms,
            is_trial: stream.is_trial,
            reason: stream.reason,
        },
        Err(error) => link_failed(&song, error),
    }
}

/// Lyrics. That they could not be had is told apart from that there are none.
pub fn lyric_reply(song: &Song, result: Result<Vec<LyricLine>, AppError>) -> (r: Loaded)
    ensures
        match result {
            Ok(lines) => r == (Loaded::Lyric { hash: song.hash, lines }),
            Err(error) => r == (Loaded::LyricFailed { hash: song.hash, reason: error.hint }),
        },
{
    let hash = song.hash.clone();
    match result {
        Ok(lines) => Loaded::Lyric { hash, lines },
        Err(error) => Loaded::LyricFailed { hash, reason: error.hint },
    }
}

/// Where the next song is downloaded to ahead of time.
pub fn prefetch_target(cache: &AudioCache, song: &Song, quality: &str, url: &str) -> (r: String)
    ensures
        r@ == cache@.path(song.key(quality@), url_extension(url@)),
{
    let key = song.cache_key(quality);
    cache.path_for(key.as_str(), Downloader::extension_from_url(url))
}

fn download_failed(song: &Song, error: AppError) -> (r: Loaded)
    ensures
        tells_failure(r, None, "下载《"@ + song.title() + "》失败"@, error),
{
    let label = describe_song(song);
    Loaded::fail(cat3("下载《", label.as_str(), "》失败"), error)
}

/// A song that is to go on from its middle was downloaded as a whole.
pub fn fetched_reply(song: Song, path: String, start_at_ms: u64, result: Result<u64, AppError>)
    -> (r: Loaded)
    ensures
        match result {
            Ok(_) => r == (Loaded::StreamCached { song: Box::new(song), path, start_at_ms }),
            Err(error) => tells_failure(r, None, "下载《"@ + song.title() + "》失败"@, error),
        },
{
    match result {
        Ok(_) => Loaded::StreamCached { song: Box::new(song), path, start_at_ms },
        Err(error) => download_failed(&song, error),
    }
}

/// A stream has ended. For the song that plays it is the same whether its file is in
/// the cache by then; one that was called off says nothing.
pub fn stream_reply(song: Song, path: String, outcome: StreamOutcome) -> (r: Option<Loaded>)
    ensures
        match outcome {
            StreamOutcome::Completed | StreamOutcome::Uncached => r == Some(
                Loaded::StreamCompleted { song: Box::new(song), path },
            ),
            StreamOutcome::Failed(message) => match r {
                Some(Loaded::Failed { context, error, target }) => context@ == "下载《"@
                    + song.title() + "》失败"@ && error.is_plain(message@) && target is None,
                _ => false,
            },
            StreamOutcome::Cancelled => r is None,
        },
{
    match outcome {
        StreamOutcome::Completed | StreamOutcome::Uncached => Some(
            Loaded::StreamCompleted { song: Box::new(song), path },
        ),
        StreamOutcome::Failed(message) => Some(download_failed(&song, AppError::plain(message))),
        StreamOutcome::Cancelled => None,
    }
}

/// Enough of a stream is there, or it has ended; a stream without a byte is not
/// played.
pub fn preroll_reply(song: Song, stream: u64, start_at_ms: u64, buffered: u64) -> (r: Option<
    Loaded,
>)
    ensures
        r == (if buffered > 0 {
            Some(Loaded::StreamPrerolled { song: Box::new(song), stream, start_at_ms })
        } else {
            None
        }),
{
    if buffered > 0 {
        Some(Loaded::StreamPrerolled { song: Box::new(song), stream, start_at_ms })
    } else {
        None
    }
}

/// Whether a song is streamed; one that goes on from its middle is downloaded
/// first.
pub fn plays_while_downloading(start_at_ms: u64) -> (r: bool)
    ensures
        r == (start_at_ms == 0),
{
    start_at_ms == 0
}

// A song as a file of one's own.

/// Whether a path leads to a file with this ending, which starts with a dot; a name
/// that is nothing but the ending has none.
pub open spec fn has_ending(p: Seq<char>, ending: Seq<char>) -> bool {
    let bare = bare_path(p);
    let at = bare.len() - ending.len();
    at > 0 && bare[at - 1] != '/' && occurs_at(bare, ending, at)
}

/// The ending of a song's file, by the path in the link to it: `mp3` where that says
/// nothing.
pub open spec fn file_kind(url: Seq<char>) -> Seq<char> {
    let path = before(before(url, '#'), '?');
    if has_ending(path, ".flac"@) {
        "flac"@
    } else if has_ending(path, ".m4a"@) {
        "m4a"@
    } else {
        "mp3"@
    }
}

fn ends_as(path: &str, ending: &str) -> (r: bool)
    ensures
        r == has_ending(path@, ending@),
{
    let bare = bare_text(path);
    let v = chars_of(bare.as_str());
    let n: usize = v.len();
    let k: usize = chars_of(ending).len();
    if n <= k || v[n - k - 1] == '/' {
        return false;
    }
    ends_with(bare.as_str(), ending)
}

/// The ending of a song's file, by the link to it.
pub fn download_kind(url: &str) -> (r: &'static str)
    ensures
        r@ == file_kind(url@),
{
    let path = text_before(text_before(url, '#').as_str(), '?');
    if ends_as(path.as_str(), ".flac") {
        "flac"
    } else if ends_as(path.as_str(), ".m4a") {
        "m4a"
    } else {
        "mp3"
    }
}

/// Whether a character may stand in the name of a file.
pub open spec fn names_well(c: char) -> bool {
    c != '/' && c != '\\' && c as u32 >= 0x20 && c as u32 != 0x7f
}

/// A text without the characters that may not stand in the name of a file.
pub open spec fn cleaned(s: Seq<char>) -> Seq<char>
    decreases s.len(),
{
    if s.len() == 0 {
        s
    } else if names_well(s.last()) {
        cleaned(s.drop_last()).push(s.last())
    } else {
        cleaned(s.drop_last())
    }
}

/// Leaves out the characters that may not stand in the name of a file.
pub fn sanitize_filename(name: &str) -> (r: String)
    ensures
        r@ == cleaned(name@),
{
    let v = chars_of(name);
    let n: usize = v.len();
    let mut out = String::new();
    let mut i: usize = 0;
    assert(name@.take(0) =~= Seq::<char>::empty());
    while i < n
        invariant
            i <= n,
            n == v@.len(),
            v@ == name@,
            out@ == cleaned(name@.take(i as int)),
        decreases n - i,
    {
        let c = v[i];
        assert(name@.take(i + 1).drop_last() =~= name@.take(i as int));
        if c != '/' && c != '\\' && c as u32 >= 0x20 && c as u32 != 0x7f {
            out.push(c);
        }
        i = i + 1;
    }
    assert(name@.take(n as int) =~= name@);
    out
}

/// A name of a file never leads to another directory.
pub proof fn cleaned_names_stay_in_their_directory(s: Seq<char>, i: int)
    requires
        0 <= i < cleaned(s).len(),
    ensures
        names_well(cleaned(s)[i]),
        cleaned(s).len() <= s.len(),
    decreases s.len(),
{
    if s.len() > 0 {
        let rest = cleaned(s.drop_last());
        if i < rest.len() {
            cleaned_names_stay_in_their_directory(s.drop_last(), i);
        }
        lemma_cleaned_is_no_longer(s);
    }
}

proof fn lemma_cleaned_is_no_longer(s: Seq<char>)
    ensures
        cleaned(s).len() <= s.len(),
    decreases s.len(),
{
    if s.len() > 0 {
        lemma_cleaned_is_no_longer(s.drop_last());
    }
}

/// The directory that songs are downloaded to.
pub open spec fn download_place(dir: Option<Seq<char>>, home: Option<Seq<char>>) -> Seq<char> {
    home_expanded(
        match dir {
            Some(dir) => dir,
            None => DOWNLOAD_DIR@,
        },
        home,
    )
}

pub fn expand_download_dir_with(dir: Option<&str>, home: Option<&str>) -> (r: String)
    ensures
        r@ == download_place(opt_str(dir), opt_str(home)),
{
    match dir {
        Some(dir) => expand_tilde_with(dir, home),
        None => expand_tilde_with(DOWNLOAD_DIR, home),
    }
}

/// The directory that songs are downloaded to, in the user's home where it begins
/// with `~`.
pub fn expand_download_dir(dir: Option<&str>) -> (r: String)
    ensures
        exists|home: Option<Seq<char>>| r@ == #[trigger] download_place(opt_str(dir), home),
        dir matches Some(dir) ==> !(dir@.len() > 0 && dir@[0] == '~') ==> r@ == dir@,
{
    let r = match dir {
        Some(dir) => expand_tilde(dir),
        None => expand_tilde(DOWNLOAD_DIR),
    };
    proof {
        let path = match dir {
            Some(dir) => dir@,
            None => DOWNLOAD_DIR@,
        };
        let home = choose|home: Option<Seq<char>>| r@ == #[trigger] home_expanded(path, home);
        assert(r@ == download_place(opt_str(dir), home));
    }
    r
}

/// The file that a song is downloaded to.
pub open spec fn file_for(song: Song, dir: Seq<char>, url: Seq<char>) -> Seq<char> {
    joined(
        dir,
        cleaned(song.shown_singers() + " - "@ + song.name@) + "."@ + file_kind(url),
    )
}

/// The file that a song is downloaded to.
pub fn download_target(song: &Song, dir: &str, url: &str) -> (r: String)
    ensures
        r@ == file_for(*song, dir@, url@),
{
    let label = cat3(song.singer_text().as_str(), " - ", song.name.as_str());
    let name = cat3(sanitize_filename(label.as_str()).as_str(), ".", download_kind(url));
    join(dir, name.as_str())
}

/// The link to a song that is to be downloaded could not be had.
pub fn download_link_failed(song: &Song, error: AppError) -> (r: Loaded)
    ensures
        tells_failure(r, None, "获取《"@ + song.name@ + "》的播放地址失败"@, error),
{
    link_failed(song, error)
}

/// The file is there already; it is not overwritten.
pub fn download_exists(song: &Song, target: &str) -> (r: Loaded)
    ensures
        r matches Loaded::CloudNotice(text) && text@ == "《"@ + song.name@ + "》已存在："@ + target@
            + "（请换目录或改名）"@,
{
    Loaded::CloudNotice(
        cat5("《", song.name.as_str(), "》已存在：", target, "（请换目录或改名）"),
    )
}

/// A song was downloaded, or could not be.
pub fn download_reply(song: &Song, dir: &str, result: Result<u64, AppError>) -> (r: Loaded)
    ensures
        match result {
            Ok(written) => r matches Loaded::CloudNotice(text) && text@ == "已下载《"@ + song.name@
                + "》（"@ + dec((written / 0x10_0000) as nat) + " MiB → "@ + dir@ + "）"@,
            Err(error) => tells_failure(r, None, "下载《"@ + song.name@ + "》失败"@, error),
        },
{
    match result {
        Ok(written) => {
            let size = dec_text(written / 0x10_0000);
            let mut text = cat5("已下载《", song.name.as_str(), "》（", size.as_str(), " MiB → ");
            text.append(dir);
            text.append("）");
            Loaded::CloudNotice(text)
        },
        Err(error) => Loaded::fail(cat3("下载《", song.name.as_str(), "》失败"), error),
    }
}

// Logging in.

/// The code of a login, in two steps: its key, then what it says.
pub fn login_key_failed(error: AppError) -> (r: Loaded)
    ensures
        tells_failure(r, None, "获取登录二维码失败"@, error),
{
    Loaded::fail("获取登录二维码失败".to_owned(), error)
}

pub fn login_code_reply(key: String, result: Result<String, AppError>) -> (r: Loaded)
    ensures
        match result {
            Ok(content) => r == (Loaded::LoginQr { key, content }),
            Err(error) => tells_failure(r, None, "生成登录二维码失败"@, error),
        },
{
    match result {
        Ok(content) => Loaded::LoginQr { key, content },
        Err(error) => Loaded::fail("生成登录二维码失败".to_owned(), error),
    }
}

/// How far a login has come.
#[derive(Debug, Clone, Copy, PartialEq, Eq, Structural)]
pub enum QrStatus {
    Expired,
    Waiting,
    /// The code was scanned, but not confirmed yet.
    Pending,
    Success,
}

/// What the service says of a login.
#[derive(Debug)]
pub struct QrCheck {
    pub status: QrStatus,
    pub token: Option<String>,
    pub userid: Option<String>,
    pub cookie: Option<String>,
}

fn login_failed(message: &str) -> (r: Loaded)
    ensures
        r matches Loaded::LoginFailed { message: m } && m@ == message@,
{
    Loaded::LoginFailed { message: message.to_owned() }
}

fn login_status(message: &str) -> (r: Loaded)
    ensures
        r matches Loaded::LoginStatus { message: m } && m@ == message@,
{
    Loaded::LoginStatus { message: message.to_owned() }
}

/// What is made of a login that was confirmed. A service that hands out tokens must
/// have handed out both; one that keeps the login to itself need not.
pub open spec fn login_granted(source: SourceKind, check: QrCheck, r: Loaded) -> bool {
    if !source.can().client_token {
        r == (Loaded::LoginSucceeded { token: None, userid: None, cookie: check.cookie })
    } else if check.token is Some && check.userid is Some {
        r == (Loaded::LoginSucceeded { token: check.token, userid: check.userid, cookie: None })
    } else {
        r matches Loaded::LoginFailed { message } && message@ == "扫码已授权，但未拿到 token"@
    }
}

/// What the service says of a login.
pub fn login_check_reply(source: SourceKind, result: Result<QrCheck, AppError>) -> (r: Loaded)
    ensures
        match result {
            Ok(check) => match check.status {
                QrStatus::Expired => r matches Loaded::LoginFailed { message } && message@
                    == "二维码已过期，请按 Esc 后重新按 L"@,
                QrStatus::Waiting => r matches Loaded::LoginStatus { message } && message@
                    == "等待扫码…"@,
                QrStatus::Pending => r matches Loaded::LoginStatus { message } && message@
                    == "已扫码，请在手机上确认"@,
                QrStatus::Success => login_granted(source, check, r),
            },
            Err(error) => tells_failure(r, None, "查询扫码状态失败"@, error),
        },
{
    match result {
        Ok(check) => match check.status {
            QrStatus::Expired => login_failed("二维码已过期，请按 Esc 后重新按 L"),
            QrStatus::Waiting => login_status("等待扫码…"),
            QrStatus::Pending => login_status("已扫码，请在手机上确认"),
            QrStatus::Success => {
                if !source.capability().client_token {
                    Loaded::LoginSucceeded { token: None, userid: None, cookie: check.cookie }
                } else if check.token.is_some() && check.userid.is_some() {
                    Loaded::LoginSucceeded {
                        token: check.token,
                        userid: check.userid,
                        cookie: None,
                    }
                } else {
                    login_failed("扫码已授权，但未拿到 token")
                }
            },
        },
        Err(error) => Loaded::fail("查询扫码状态失败".to_owned(), error),
    }
}

pub fn user_reply(result: Result<UserInfo, AppError>) -> (r: Loaded)
    ensures
        match result {
            Ok(info) => r == Loaded::UserInfo(Box::new(info)),
            Err(error) => tells_failure(
                r,
                Some(LoadingTarget::UserInfo),
                "获取用户资料失败"@,
                error,
            ),
        },
{
    match result {
        Ok(info) => Loaded::UserInfo(Box::new(info)),
        Err(error) => Loaded::fail_loading(
            LoadingTarget::UserInfo,
            "获取用户资料失败".to_owned(),
            error,
        ),
    }
}

/// The membership. That it is not known keeps nobody from listening.
pub fn vip_reply(result: Result<VipInfo, AppError>) -> (r: Option<Loaded>)
    ensures
        match result {
            Ok(info) => r == Some(Loaded::VipStatus(Box::new(info))),
            Err(_) => r is None,
        },
{
    match result {
        Ok(info) => Some(Loaded::VipStatus(Box::new(info))),
        Err(_) => None,
    }
}

/// Whether a day is in a list of days.
pub open spec fn lists_day(days: Seq<String>, day: Seq<char>) -> bool {
    exists|i: int| 0 <= i < days.len() && (#[trigger] days[i])@ == day
}

fn has_day(days: &Vec<String>, day: &str) -> (r: bool)
    ensures
        r == lists_day(days@, day@),
{
    let n: usize = days.len();
    let mut i: usize = 0;
    while i < n
        invariant
            i <= n,
            n == days@.len(),
            forall|k: int| 0 <= k < i ==> (#[trigger] days@[k])@ != day@,
        decreases n - i,
    {
        if same(days[i].as_str(), day) {
            return true;
        }
        i = i + 1;
    }
    false
}

/// Whether the service has the day among those that were claimed; where it does
/// not say, one tries.
pub fn already_claimed(day: &str, record: &Result<Vec<String>, AppError>) -> (r: bool)
    ensures
        r == (match *record {
            Ok(days) => lists_day(days@, day@),
            Err(_) => false,
        }),
{
    match record {
        Ok(days) => has_day(days, day),
        Err(_) => false,
    }
}

/// What became of the attempt to claim the membership of a day: `None` where it was
/// not tried because it had been claimed.
pub fn claim_outcome(claim: Option<Result<(), AppError>>) -> (r: VipClaimOutcome)
    ensures
        match claim {
            None => r == VipClaimOutcome::AlreadyClaimed,
            Some(Ok(_)) => r == VipClaimOutcome::Claimed,
            Some(Err(error)) => r matches VipClaimOutcome::Failed(text) && text@ == reason(error),
        },
{
    match claim {
        None => VipClaimOutcome::AlreadyClaimed,
        Some(result) => match result {
            Ok(_) => VipClaimOutcome::Claimed,
            Err(error) => VipClaimOutcome::Failed(readable_reason(&error)),
        },
    }
}

// The cloud playlists.

/// What is told of a change of a cloud playlist: at once, and after a while.
#[derive(Debug)]
pub struct EditReply {
    pub notice: Loaded,
    pub changed: Option<Loaded>,
}

impl EditReply {
    /// Whether a notice comes first, and then that the playlist has changed.
    pub open spec fn succeeds(self, text: Seq<char>, target: Playlist) -> bool {
        &&& self.notice matches Loaded::CloudNotice(notice) && notice@ == text
        &&& self.changed == Some(Loaded::CloudPlaylistChanged { playlist: Box::new(target) })
    }
}

/// A song was taken out of a cloud playlist, or could not be.
pub fn remove_reply(song: &Song, target: Playlist, result: Result<u64, AppError>) -> (r: EditReply)
    ensures
        match result {
            Ok(count) => r.succeeds(
                "已从《"@ + target.name@ + "》移除 "@ + dec(count as nat) + " 首歌"@,
                target,
            ),
            Err(error) => r.changed is None && tells_failure(
                r.notice,
                None,
                "从《"@ + target.name@ + "》移除《"@ + song.title() + "》失败"@,
                error,
            ),
        },
{
    match result {
        Ok(count) => {
            let count = dec_text(count);
            let text = cat5("已从《", target.name.as_str(), "》移除 ", count.as_str(), " 首歌");
            EditReply {
                notice: Loaded::CloudNotice(text),
                changed: Some(Loaded::CloudPlaylistChanged { playlist: Box::new(target) }),
            }
        },
        Err(error) => {
            let label = describe_song(song);
            let context = cat5("从《", target.name.as_str(), "》移除《", label.as_str(), "》失败");
            EditReply { notice: Loaded::fail(context, error), changed: None }
        },
    }
}

/// A song was put into a cloud playlist, or could not be.
pub fn add_reply(song: &Song, target: Playlist, result: Result<u64, AppError>) -> (r: EditReply)
    ensures
        match result {
            Ok(_) => r.succeeds(
                "已把《"@ + song.title() + "》收藏到《"@ + target.name@ + "》，正在刷新列表"@,
                target,
            ),
            Err(error) => r.changed is None && tells_failure(
                r.notice,
                None,
                "收藏《"@ + song.title() + "》失败"@,
                error,
            ),
        },
{
    let label = describe_song(song);
    match result {
        Ok(_) => {
            let text = cat5(
                "已把《",
                label.as_str(),
                "》收藏到《",
                target.name.as_str(),
                "》，正在刷新列表",
            );
            EditReply {
                notice: Loaded::CloudNotice(text),
                changed: Some(Loaded::CloudPlaylistChanged { playlist: Box::new(target) }),
            }
        },
        Err(error) => EditReply {
            notice: Loaded::fail(cat3("收藏《", label.as_str(), "》失败"), error),
            changed: None,
        },
    }
}

/// A cloud playlist was deleted, or could not be.
pub fn delete_reply(name: &str, result: Result<(), AppError>) -> (r: Loaded)
    ensures
        match result {
            Ok(_) => r matches Loaded::CloudNotice(text) && text@ == "已删除歌单《"@ + name@ + "》"@,
            Err(error) => tells_failure(r, None, "删除歌单《"@ + name@ + "》失败"@, error),
        },
{
    match result {
        Ok(_) => Loaded::CloudNotice(cat3("已删除歌单《", name, "》")),
        Err(error) => Loaded::fail(cat3("删除歌单《", name, "》失败"), error),
    }
}

/// A cloud playlist was made, or could not be; its number, where the service gives
/// one.
pub fn create_reply(name: &str, result: Result<Option<i64>, AppError>) -> (r: Loaded)
    ensures
        match result {
            Ok(Some(id)) => r matches Loaded::CloudNotice(text) && text@ == "已新建歌单《"@ + name@
                + "》（listid="@ + signed(id as int) + "）"@,
            Ok(None) => r matches Loaded::CloudNotice(text) && text@ == "已新建歌单《"@ + name@
                + "》"@,
            Err(error) => tells_failure(r, None, "新建歌单《"@ + name@ + "》失败"@, error),
        },
{
    match result {
        Ok(list_id) => match list_id {
            Some(id) => {
                let id = signed_text(id);
                Loaded::CloudNotice(cat5("已新建歌单《", name, "》（listid=", id.as_str(), "）"))
            },
            None => Loaded::CloudNotice(cat3("已新建歌单《", name, "》")),
        },
        Err(error) => Loaded::fail(cat3("新建歌单《", name, "》失败"), error),
    }
}

/// The queue was put into a cloud playlist, or could not be.
pub fn sync_reply(name: &str, result: Result<u64, AppError>) -> (r: Loaded)
    ensures
        match result {
            Ok(written) => r matches Loaded::CloudNotice(text) && text@ == "已把 "@ + dec(
                written as nat,
            ) + " 首歌同步到《"@ + name@ + "》"@,
            Err(error) => tells_failure(r, None, "同步到《"@ + name@ + "》失败"@, error),
        },
{
    match result {
        Ok(written) => {
            let written = dec_text(written);
            Loaded::CloudNotice(cat5("已把 ", written.as_str(), " 首歌同步到《", name, "》"))
        },
        Err(error) => Loaded::fail(cat3("同步到《", name, "》失败"), error),
    }
}

// Pictures.

/// The address of a cover in the size that is shown, where there is one.
pub fn cover_address(result: Result<Option<String>, AppError>) -> (r: Option<String>)
    ensures
        match result {
            Ok(Some(url)) => r matches Some(address) && address@ == sized(url@, COVER_PIXEL_SIZE),
            _ => r is None,
        },
{
    match result {
        Ok(url) => match url {
            Some(url) => Some(expand_cover_size(url.as_str(), COVER_PIXEL_SIZE)),
            None => None,
        },
        Err(_) => None,
    }
}

/// `image::DynamicImage`, a decoded picture, to be drawn.
#[verifier::external_type_specification]
#[verifier::external_body]
pub struct ExDynamicImage(image::DynamicImage);

/// What `image::load_from_memory` makes of these bytes: the picture, its width and its
/// height, or nothing where they are not a picture that it can decode.
pub uninterp spec fn decoded(bytes: Seq<u8>) -> Option<(image::DynamicImage, u32, u32)>;

/// Calls `image::load_from_memory`, which guesses the format of a picture from its
/// first bytes and decodes it. Whether that works, and the picture with its size, are
/// claimed to depend on the bytes alone; this program adds no decoders of its own to
/// that crate.
#[verifier::external_body]
fn load_from_memory(bytes: &[u8]) -> (r: Option<(image::DynamicImage, u32, u32)>)
    ensures
        r == decoded(bytes@),
{
    let picture = image::load_from_memory(bytes).ok()?;
    let (width, height) = (picture.width(), picture.height());
    Some((picture, width, height))
}

/// The cover of a song as it was decoded, with the event that tells of it; a cover
/// that could not be decoded is not told of.
pub fn cover_decoded(hash: String, outcome: Option<(image::DynamicImage, u32, u32)>) -> (r: Option<
    (Loaded, image::DynamicImage),
>)
    ensures
        r == (match outcome {
            Some((picture, width, height)) => Some(
                (Loaded::CoverReady { hash, width, height }, picture),
            ),
            None => None,
        }),
{
    match outcome {
        Some((picture, width, height)) => Some(
            (Loaded::CoverReady { hash, width, height }, picture),
        ),
        None => None,
    }
}

/// Decodes the cover of a song: the picture, and the event that tells of it.
pub fn cover_reply(hash: String, bytes: &[u8]) -> (r: Option<(Loaded, image::DynamicImage)>)
    ensures
        r == (match decoded(bytes@) {
            Some((picture, width, height)) => Some(
                (Loaded::CoverReady { hash, width, height }, picture),
            ),
            None => None,
        }),
{
    cover_decoded(hash, load_from_memory(bytes))
}

/// The picture of the account as it was decoded, with the event that tells of it.
pub fn avatar_decoded(outcome: Option<(image::DynamicImage, u32, u32)>) -> (r: Option<
    (Loaded, image::DynamicImage),
>)
    ensures
        r == (match outcome {
            Some((picture, _, _)) => Some((Loaded::AvatarReady, picture)),
            None => None,
        }),
{
    match outcome {
        Some((picture, _, _)) => Some((Loaded::AvatarReady, picture)),
        None => None,
    }
}

/// Decodes the picture of the account.
pub fn avatar_reply(bytes: &[u8]) -> (r: Option<(Loaded, image::DynamicImage)>)
    ensures
        r == (match decoded(bytes@) {
            Some((picture, _, _)) => Some((Loaded::AvatarReady, picture)),
            None => None,
        }),
{
    avatar_decoded(load_from_memory(bytes))
}

/// A name without a character that may not stand in the name of a file is left as it is.
pub proof fn good_names_are_kept(s: Seq<char>)
    requires
        forall|i: int| 0 <= i < s.len() ==> names_well(#[trigger] s[i]),
    ensures
        cleaned(s) == s,
    decreases s.len(),
{
    if s.len() > 0 {
        good_names_are_kept(s.drop_last());
        assert(s.drop_last().push(s.last()) =~= s);
    }
}

/// A character that may not stand in the name of a file is left out, and the rest is kept
/// around it.
pub proof fn bad_characters_are_left_out(front: Seq<char>, c: char, back: Seq<char>)
    requires
        !names_well(c),
    ensures
        cleaned(front.push(c) + back) == cleaned(front + back),
    decreases back.len(),
{
    let with = front.push(c) + back;
    let without = front + back;
    if back.len() == 0 {
        assert(with =~= front.push(c));
        assert(with.drop_last() =~= front);
        assert(without =~= front);
    } else {
        bad_characters_are_left_out(front, c, back.drop_last());
        assert(with.drop_last() =~= front.push(c) + back.drop_last());
        assert(without.drop_last() =~= front + back.drop_last());
    }
}

/// A downloaded song stands in the directory for it, under its singers and its name, with
/// the ending of its kind.
pub proof fn downloads_are_named_after_the_song(song: Song, dir: Seq<char>, url: Seq<char>)
    requires
        song.singers@.len() > 0,
        dir.len() > 0,
        dir.last() != '/',
        forall|i: int| 0 <= i < song.singers@.len() ==> names_well(#[trigger] song.singers@[i]),
        forall|i: int| 0 <= i < song.name@.len() ==> names_well(#[trigger] song.name@[i]),
    ensures
        file_for(song, dir, url) == dir + seq!['/'] + (song.singers@ + " - "@ + song.name@ + "."@
            + file_kind(url)),
{
    reveal_strlit(" - ");
    let label = song.singers@ + " - "@ + song.name@;
    assert forall|i: int| 0 <= i < label.len() implies names_well(#[trigger] label[i]) by {
        if i >= song.singers@.len() && i < song.singers@.len() + 3 {
            assert(label[i] == " - "@[i - song.singers@.len()]);
        } else if i < song.singers@.len() {
            assert(label[i] == song.singers@[i]);
        } else {
            assert(label[i] == song.name@[i - song.singers@.len() - 3]);
        }
    }
    good_names_are_kept(label);
    let name = label + "."@ + file_kind(url);
    assert(name[0] == song.singers@[0]);
    crate::text::paths_are_joined(dir, name);
}

/// Songs are downloaded to the directory that is set, or to the one for music, with the
/// home directory for a `~`.
pub proof fn downloads_go_where_they_are_set(dir: Seq<char>, home: Option<Seq<char>>)
    ensures
        dir.len() > 0 && dir[0] != '~' ==> download_place(Some(dir), home) == dir,
        download_place(None, None) == "~/Music"@,
        download_place(None, home) == download_place(Some("~/Music"@), home),
{
}

/// The kind of a downloaded file is the one that its link ends with, whatever is asked for
/// behind it; `mp3` where that says nothing.
pub proof fn downloads_keep_their_kind(front: Seq<char>)
    requires
        front.len() > 0,
        front.last() != '/',
        forall|i: int| 0 <= i < front.len() ==> #[trigger] front[i] != '#' && front[i] != '?',
    ensures
        file_kind(front + ".flac"@) == "flac"@,
        file_kind(front + ".m4a"@) == "m4a"@,
        file_kind(front + ".mp3"@) == "mp3"@,
{
    reveal_strlit(".flac");
    reveal_strlit(".m4a");
    reveal_strlit(".mp3");
    lemma_no_query(front, ".flac"@);
    lemma_no_query(front, ".m4a"@);
    lemma_no_query(front, ".mp3"@);
    let flac = front + ".flac"@;
    let m4a = front + ".m4a"@;
    let mp3 = front + ".mp3"@;
    assert(flac.last() == 'c' && m4a.last() == 'a' && mp3.last() == '3');
    assert(bare_path(flac) == flac && bare_path(m4a) == m4a && bare_path(mp3) == mp3);
    assert(flac.subrange(front.len() as int, front.len() as int + 5) =~= ".flac"@);
    assert(m4a.subrange(front.len() as int, front.len() as int + 4) =~= ".m4a"@);
    lemma_other_end(m4a, ".flac"@);
    lemma_other_end(mp3, ".flac"@);
    lemma_other_end(mp3, ".m4a"@);
}

proof fn lemma_other_end(s: Seq<char>, ending: Seq<char>)
    requires
        s.len() > 0,
        ending.len() > 0,
        s.last() != ending.last(),
        bare_path(s) == s,
    ensures
        !has_ending(s, ending),
{
    let at = s.len() - ending.len();
    if has_ending(s, ending) {
        assert(s.subrange(at, at + ending.len())[ending.len() - 1] == s.last());
    }
}

proof fn lemma_no_query(front: Seq<char>, ending: Seq<char>)
    requires
        forall|i: int| 0 <= i < front.len() ==> #[trigger] front[i] != '#' && front[i] != '?',
        forall|i: int| 0 <= i < ending.len() ==> #[trigger] ending[i] != '#' && ending[i] != '?',
    ensures
        before(before(front + ending, '#'), '?') == front + ending,
{
    let s = front + ending;
    crate::text::texts_are_cut_before_the_first(s, '#');
    assert(before(s, '#').len() == s.len());
    assert(before(s, '#') =~= s);
    crate::text::texts_are_cut_before_the_first(s, '?');
    assert(before(s, '?').len() == s.len());
    assert(before(s, '?') =~= s);
}

/// A first page of a playlist that turns out to be empty makes way for the first one. What may
/// have more behind it is fetched whole, and a first page that is not full is all there is.
pub proof fn playlists_are_fetched_to_their_end(page: u32, songs: Seq<Song>)
    ensures
        page > 1 && songs.len() == 0 ==> after_page(page, songs) == PlaylistNext::Page(1),
        page > 1 && songs.len() > 0 ==> after_page(page, songs) == PlaylistNext::Everything,
        page <= 1 && songs.len() >= 30 ==> after_page(page, songs) == PlaylistNext::Everything,
        page <= 1 && songs.len() < 30 ==> after_page(page, songs) == PlaylistNext::Done,
{
}

/// A login that was granted brings the token and the account where the service gives them, and
/// the cookie where it keeps them to itself.
pub proof fn granted_logins_bring_their_proof(source: SourceKind, check: QrCheck, reply: Loaded)
    requires
        login_granted(source, check, reply),
    ensures
        source != SourceKind::Netease && check.token is Some && check.userid is Some ==> reply == (
        Loaded::LoginSucceeded { token: check.token, userid: check.userid, cookie: None }),
        source != SourceKind::Netease && (check.token is None || check.userid is None) ==> reply
            is LoginFailed,
        source == SourceKind::Netease ==> reply == (Loaded::LoginSucceeded {
            token: None,
            userid: None,
            cookie: check.cookie,
        }),
{
}

/// A day is claimed where the service lists it, and only there.
pub proof fn listed_days_are_claimed(days: Seq<String>, day: Seq<char>, i: int)
    ensures
        0 <= i < days.len() && days[i]@ == day ==> lists_day(days, day),
        (forall|k: int| 0 <= k < days.len() ==> (#[trigger] days[k])@ != day) ==> !lists_day(
            days,
            day,
        ),
{
}

} // verus!
