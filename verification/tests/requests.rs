use kugou_tui::app::tasks::{
    add_reply, already_claimed, artist_reply, avatar_decoded, avatar_reply, claim_outcome,
    cloud_reply, cover_address, cover_decoded, cover_reply, create_reply, delete_reply, download_exists,
    download_kind, download_reply, download_target, expand_download_dir, expand_download_dir_with,
    fetched_reply, login_check_reply, login_code_reply, lyric_reply, playlist_page_reply,
    playlist_reply, plays_while_downloading, prefetch_target, preroll_reply, rank_reply,
    remove_reply, sanitize_filename, search_reply, song_url_reply, stream_reply, sync_reply,
    user_reply, vip_reply, PlaylistNext, PlaylistRef, QrCheck, QrStatus, SongStream,
};
use kugou_tui::audio::cache::AudioCache;
use kugou_tui::audio::download::StreamOutcome;
use kugou_tui::error::AppError;
use kugou_tui::event::{Loaded, LoadingTarget, PlaylistSource, VipClaimOutcome};
use kugou_tui::model::{
    artist_subtitle, describe_song, expand_cover_size, playlist_subtitle, quality_label,
    rank_subtitle, Artist, Playlist, RankBoard, Song, UserInfo, VipInfo,
};
use kugou_tui::source::SourceKind;
use kugou_tui::text::{format_duration_ms, parse_u64, signed_text, trim};

fn song() -> Song {
    Song {
        hash: "h".to_string(),
        name: "歌".to_string(),
        singers: "人".to_string(),
        album: None,
        cover: None,
        duration_ms: 1000,
        source: SourceKind::Kugou,
        file_id: None,
        playable: true,
    }
}

fn error() -> AppError {
    AppError {
        text: "full".to_string(),
        hint: "hint".to_string(),
        api_message: Some("今日已领取".to_string()),
        login_expired: false,
        connectivity: false,
        page_out_of_range: false,
    }
}

fn failed(loaded: &Loaded) -> (&str, Option<LoadingTarget>) {
    match loaded {
        Loaded::Failed { context, target, .. } => (context.as_str(), *target),
        other => panic!("{other:?}"),
    }
}

fn notice(loaded: &Loaded) -> &str {
    match loaded {
        Loaded::CloudNotice(text) => text.as_str(),
        other => panic!("{other:?}"),
    }
}

fn playlist() -> Playlist {
    Playlist {
        id: "pid".to_string(),
        name: "单".to_string(),
        list_id: Some(5),
        is_own: true,
        song_count: 70,
        creator: None,
    }
}

#[test]
fn pages_behind_the_last_are_no_failure() {
    let mut behind = error();
    behind.page_out_of_range = true;
    match search_reply("k".to_string(), true, Err(behind.clone())) {
        Loaded::Search { keyword, songs, append } => {
            assert_eq!(keyword, "k");
            assert!(songs.is_empty());
            assert!(append);
        }
        other => panic!("{other:?}"),
    }
    let first = search_reply("k".to_string(), false, Err(behind));
    assert_eq!(failed(&first), ("搜索「k」失败", Some(LoadingTarget::SearchResults)));
    let more = search_reply("k".to_string(), true, Err(error()));
    assert_eq!(failed(&more), ("加载「k」更多结果失败", Some(LoadingTarget::SearchResults)));
}

#[test]
fn playlists_come_page_first_and_whole_then() {
    let full: Vec<Song> = (0..30).map(|_| song()).collect();
    let (shown, next) = playlist_page_reply(&playlist(), PlaylistSource::Plaza, 1, Ok(full));
    assert!(matches!(shown, Some(Loaded::PlaylistTracks { .. })));
    assert_eq!(next, PlaylistNext::Everything);

    let (shown, next) =
        playlist_page_reply(&playlist(), PlaylistSource::Plaza, 1, Ok(vec![song()]));
    assert!(shown.is_some());
    assert_eq!(next, PlaylistNext::Done);

    let (shown, next) =
        playlist_page_reply(&playlist(), PlaylistSource::Plaza, 3, Ok(vec![song()]));
    assert!(shown.is_some());
    assert_eq!(next, PlaylistNext::Everything);

    let (shown, next) = playlist_page_reply(&playlist(), PlaylistSource::Plaza, 3, Ok(Vec::new()));
    assert!(shown.is_none());
    assert_eq!(next, PlaylistNext::Page(1));

    let (shown, next) = playlist_page_reply(&playlist(), PlaylistSource::Cloud, 1, Err(error()));
    assert_eq!(
        failed(&shown.unwrap()),
        (
            "载入歌单《单》失败",
            Some(LoadingTarget::PlaylistSongs(PlaylistSource::Cloud))
        )
    );
    assert_eq!(next, PlaylistNext::Done);
    let whole = playlist_reply(&playlist(), PlaylistSource::Cloud, Ok(vec![song()]));
    assert!(matches!(whole, Loaded::PlaylistTracks { .. }));
}

#[test]
fn own_playlists_are_asked_for_by_their_number() {
    assert_eq!(PlaylistRef::of(&playlist()), PlaylistRef::Own(5));
    let mut public = playlist();
    public.is_own = false;
    assert_eq!(PlaylistRef::of(&public), PlaylistRef::Public("pid".to_string()));
}

#[test]
fn lists_that_fail_name_their_place() {
    let artist = Artist { id: 1, name: "人".to_string(), ..some_artist() };
    assert_eq!(
        failed(&artist_reply(artist, Err(error()))),
        ("载入歌手 人 的歌曲失败", Some(LoadingTarget::ArtistSongs))
    );
    assert_eq!(
        failed(&rank_reply(some_board(), Err(error()))),
        ("载入榜单 榜 失败", Some(LoadingTarget::RankSongs))
    );
    assert_eq!(
        failed(&cloud_reply(Err(error()))),
        ("载入云端歌单失败", Some(LoadingTarget::CloudPlaylists))
    );
    assert_eq!(
        failed(&user_reply(Err(error()))),
        ("获取用户资料失败", Some(LoadingTarget::UserInfo))
    );
    assert!(vip_reply(Err(error())).is_none());
    assert!(vip_reply(Ok(VipInfo::default())).is_some());
    let user = UserInfo { nickname: "n".to_string(), pic: None };
    assert!(matches!(user_reply(Ok(user)), Loaded::UserInfo(_)));
}

fn some_artist() -> Artist {
    Artist { id: 0, name: String::new(), song_count: None, follower_count: None }
}

fn some_board() -> RankBoard {
    RankBoard { id: 0, name: "榜".to_string(), update_frequency: None }
}

#[test]
fn links_lyrics_and_streams_become_events() {
    let stream = SongStream { url: "http://u".to_string(), is_trial: true, reason: None };
    match song_url_reply(song(), 7, Ok(stream)) {
        Loaded::StreamReady { url, start_at_ms, is_trial, .. } => {
            assert_eq!(url, "http://u");
            assert_eq!(start_at_ms, 7);
            assert!(is_trial);
        }
        other => panic!("{other:?}"),
    }
    assert_eq!(
        failed(&song_url_reply(song(), 0, Err(error()))),
        ("获取《歌》的播放地址失败", None)
    );
    match lyric_reply(&song(), Err(error())) {
        Loaded::LyricFailed { hash, reason } => {
            assert_eq!(hash, "h");
            assert_eq!(reason, "hint");
        }
        other => panic!("{other:?}"),
    }
    assert!(matches!(
        fetched_reply(song(), "/p".to_string(), 5, Ok(9)),
        Loaded::StreamCached { start_at_ms: 5, .. }
    ));
    assert!(stream_reply(song(), "/p".to_string(), StreamOutcome::Cancelled).is_none());
    let broken = stream_reply(song(), "/p".to_string(), StreamOutcome::Failed("断".to_string()));
    assert_eq!(failed(&broken.unwrap()), ("下载《人 - 歌》失败", None));
    assert!(matches!(
        stream_reply(song(), "/p".to_string(), StreamOutcome::Completed),
        Some(Loaded::StreamCompleted { .. })
    ));
    assert!(matches!(
        stream_reply(song(), "/p".to_string(), StreamOutcome::Uncached),
        Some(Loaded::StreamCompleted { .. })
    ));
    assert!(preroll_reply(song(), 1, 0, 0).is_none());
    assert!(preroll_reply(song(), 1, 0, 1).is_some());
    assert!(plays_while_downloading(0));
    assert!(!plays_while_downloading(1));
    let cache = AudioCache::new("/c".to_string(), 0);
    assert_eq!(prefetch_target(&cache, &song(), "320", "http://x/y.m4a?z"), "/c/h-320.m4a");
}

#[test]
fn downloads_have_safe_names() {
    assert_eq!(download_kind("http://x/y.flac"), "flac");
    assert_eq!(download_kind("http://x/y.m4a"), "m4a");
    assert_eq!(download_kind("http://x/y.flac?k=1.mp3"), "flac");
    assert_eq!(download_kind("http://x/.flac"), "mp3");
    assert_eq!(download_kind("http://x/y.flac/./"), "flac");
    assert_eq!(download_kind("http://x/y.ogg"), "mp3");
    assert_eq!(sanitize_filename("a/b\\c\u{7}d"), "abcd");
    assert_eq!(
        download_target(&song(), "/m", "http://x/y.flac"),
        "/m/人 - 歌.flac"
    );
    assert_eq!(expand_download_dir_with(None, Some("/home/u")), "/home/u/Music");
    assert_eq!(expand_download_dir_with(Some("/d"), Some("/home/u")), "/d");
    assert_eq!(expand_download_dir(Some("/d")), "/d");
    assert_eq!(
        notice(&download_exists(&song(), "/m/x.mp3")),
        "《歌》已存在：/m/x.mp3（请换目录或改名）"
    );
    assert_eq!(
        notice(&download_reply(&song(), "/m", Ok(3 * 1024 * 1024 + 5))),
        "已下载《歌》（3 MiB → /m）"
    );
    assert_eq!(failed(&download_reply(&song(), "/m", Err(error()))), ("下载《歌》失败", None));
}

fn check(status: QrStatus, token: Option<&str>, userid: Option<&str>) -> QrCheck {
    QrCheck {
        status,
        token: token.map(|text| text.to_string()),
        userid: userid.map(|text| text.to_string()),
        cookie: Some("c".to_string()),
    }
}

#[test]
fn logins_end_with_what_the_service_hands_out() {
    let kugou = SourceKind::Kugou;
    match login_check_reply(kugou, Ok(check(QrStatus::Success, Some("t"), Some("u")))) {
        Loaded::LoginSucceeded { token, userid, cookie } => {
            assert_eq!(token.as_deref(), Some("t"));
            assert_eq!(userid.as_deref(), Some("u"));
            assert_eq!(cookie, None);
        }
        other => panic!("{other:?}"),
    }
    match login_check_reply(kugou, Ok(check(QrStatus::Success, Some("t"), None))) {
        Loaded::LoginFailed { message } => assert_eq!(message, "扫码已授权，但未拿到 token"),
        other => panic!("{other:?}"),
    }
    match login_check_reply(SourceKind::Netease, Ok(check(QrStatus::Success, None, None))) {
        Loaded::LoginSucceeded { token, cookie, .. } => {
            assert_eq!(token, None);
            assert_eq!(cookie.as_deref(), Some("c"));
        }
        other => panic!("{other:?}"),
    }
    match login_check_reply(kugou, Ok(check(QrStatus::Expired, None, None))) {
        Loaded::LoginFailed { message } => {
            assert_eq!(message, "二维码已过期，请按 Esc 后重新按 L")
        }
        other => panic!("{other:?}"),
    }
    match login_check_reply(kugou, Ok(check(QrStatus::Pending, None, None))) {
        Loaded::LoginStatus { message } => assert_eq!(message, "已扫码，请在手机上确认"),
        other => panic!("{other:?}"),
    }
    assert_eq!(failed(&login_check_reply(kugou, Err(error()))), ("查询扫码状态失败", None));
    assert_eq!(
        failed(&login_code_reply("k".to_string(), Err(error()))),
        ("生成登录二维码失败", None)
    );
}

#[test]
fn days_are_claimed_once() {
    let days = Ok(vec!["2026-01-01".to_string(), "2026-01-02".to_string()]);
    assert!(already_claimed("2026-01-02", &days));
    assert!(!already_claimed("2026-01-03", &days));
    assert!(!already_claimed("2026-01-02", &Err(error())));
    assert_eq!(claim_outcome(None), VipClaimOutcome::AlreadyClaimed);
    assert_eq!(claim_outcome(Some(Ok(()))), VipClaimOutcome::Claimed);
    assert_eq!(
        claim_outcome(Some(Err(error()))),
        VipClaimOutcome::Failed("今日已领取".to_string())
    );
}

#[test]
fn edits_of_cloud_playlists_are_told() {
    let removed = remove_reply(&song(), playlist(), Ok(1));
    assert_eq!(notice(&removed.notice), "已从《单》移除 1 首歌");
    assert!(matches!(removed.changed, Some(Loaded::CloudPlaylistChanged { .. })));
    let broken = remove_reply(&song(), playlist(), Err(error()));
    assert_eq!(failed(&broken.notice), ("从《单》移除《人 - 歌》失败", None));
    assert!(broken.changed.is_none());
    let added = add_reply(&song(), playlist(), Ok(1));
    assert_eq!(notice(&added.notice), "已把《人 - 歌》收藏到《单》，正在刷新列表");
    let broken = add_reply(&song(), playlist(), Err(error()));
    assert_eq!(failed(&broken.notice), ("收藏《人 - 歌》失败", None));
    assert_eq!(notice(&delete_reply("单", Ok(()))), "已删除歌单《单》");
    assert_eq!(failed(&delete_reply("单", Err(error()))), ("删除歌单《单》失败", None));
    assert_eq!(notice(&create_reply("单", Ok(Some(-3)))), "已新建歌单《单》（listid=-3）");
    assert_eq!(notice(&create_reply("单", Ok(None))), "已新建歌单《单》");
    assert_eq!(failed(&create_reply("单", Err(error()))), ("新建歌单《单》失败", None));
    assert_eq!(notice(&sync_reply("单", Ok(12))), "已把 12 首歌同步到《单》");
    assert_eq!(failed(&sync_reply("单", Err(error()))), ("同步到《单》失败", None));
}

/// A picture of two by three pixels, uncompressed.
fn bitmap() -> Vec<u8> {
    let mut bytes: Vec<u8> = Vec::new();
    bytes.extend_from_slice(b"BM");
    bytes.extend_from_slice(&78u32.to_le_bytes());
    bytes.extend_from_slice(&0u32.to_le_bytes());
    bytes.extend_from_slice(&54u32.to_le_bytes());
    bytes.extend_from_slice(&40u32.to_le_bytes());
    bytes.extend_from_slice(&2i32.to_le_bytes());
    bytes.extend_from_slice(&3i32.to_le_bytes());
    bytes.extend_from_slice(&1u16.to_le_bytes());
    bytes.extend_from_slice(&24u16.to_le_bytes());
    bytes.extend_from_slice(&0u32.to_le_bytes());
    bytes.extend_from_slice(&24u32.to_le_bytes());
    bytes.extend_from_slice(&[0u8; 16]);
    for _ in 0..3 {
        bytes.extend_from_slice(&[1, 2, 3, 4, 5, 6, 0, 0]);
    }
    bytes
}

#[test]
fn pictures_are_decoded() {
    let (event, picture) = cover_reply("h".to_string(), &bitmap()).unwrap();
    match event {
        Loaded::CoverReady { hash, width, height } => {
            assert_eq!(hash, "h");
            assert_eq!((width, height), (2, 3));
        }
        other => panic!("{other:?}"),
    }
    // A bitmap holds blue, green and red in this order.
    let pixels: Vec<u8> = [3, 2, 1, 6, 5, 4].repeat(3);
    assert_eq!((picture.width(), picture.height()), (2, 3));
    assert_eq!(picture.to_rgb8().into_raw(), pixels);
    assert!(cover_reply("h".to_string(), b"no picture").is_none());

    let (event, picture) = avatar_reply(&bitmap()).unwrap();
    assert!(matches!(event, Loaded::AvatarReady));
    assert_eq!(picture.to_rgb8().into_raw(), pixels);
    assert!(avatar_reply(b"").is_none());

    // Another picture comes out as another picture.
    let mut other = bitmap();
    other[54] = 9;
    let (_, changed) = avatar_reply(&other).unwrap();
    assert_ne!(changed, picture);
    let (_, changed) = cover_reply("h".to_string(), &other).unwrap();
    assert_ne!(changed, picture);
}

#[test]
fn decoded_pictures_are_handed_on() {
    let blank = image::DynamicImage::new_rgb8(5, 7);
    let (event, picture) = cover_decoded("h".to_string(), Some((blank.clone(), 5, 7))).unwrap();
    assert!(matches!(event, Loaded::CoverReady { width: 5, height: 7, .. }));
    assert_eq!(picture, blank);
    assert!(cover_decoded("h".to_string(), None).is_none());
    let (event, picture) = avatar_decoded(Some((blank.clone(), 5, 7))).unwrap();
    assert!(matches!(event, Loaded::AvatarReady));
    assert_eq!(picture, blank);
    assert!(avatar_decoded(None).is_none());
}

#[test]
fn covers_are_asked_for_in_their_size() {
    assert_eq!(
        cover_address(Ok(Some("http://x/{size}/a.jpg".to_string()))),
        Some("http://x/256/a.jpg".to_string())
    );
    assert_eq!(cover_address(Ok(None)), None);
    assert_eq!(cover_address(Err(error())), None);
    assert_eq!(expand_cover_size("http://x/a.jpg", 400), "http://x/a.jpg");
}

#[test]
fn texts_are_written_as_they_are_shown() {
    assert_eq!(describe_song(&song()), "人 - 歌");
    let unknown = Song { singers: String::new(), ..song() };
    assert_eq!(describe_song(&unknown), "歌");
    assert_eq!(quality_label("flac"), "无损 FLAC");
    assert_eq!(quality_label("other"), "other");
    assert_eq!(format_duration_ms(62_999), "01:02");
    assert_eq!(signed_text(-120), "-120");
    assert_eq!(trim("  a b \n"), "a b");
    assert_eq!(parse_u64("18446744073709551615"), Some(u64::MAX));
    assert_eq!(parse_u64("18446744073709551616"), None);
    assert_eq!(artist_subtitle(&some_artist()), "");
    let known = Artist { song_count: Some(3), follower_count: Some(7), ..some_artist() };
    assert_eq!(artist_subtitle(&known), "3 首 · 7 粉丝");
    let silent = Artist { song_count: Some(0), ..known };
    assert_eq!(artist_subtitle(&silent), "7 粉丝");
    assert_eq!(rank_subtitle(&some_board()), "#0");
    let daily = RankBoard { update_frequency: Some("每日".to_string()), ..some_board() };
    assert_eq!(rank_subtitle(&daily), "每日");
    assert_eq!(playlist_subtitle(&playlist()), "70 首 · 可写");
    let made = Playlist { creator: Some("某".to_string()), is_own: false, ..playlist() };
    assert_eq!(playlist_subtitle(&made), "70 首 · by 某");
}
