use kugou_tui::audio::download::{
    bad_client, bad_proxy, client_settings, effective_proxy, preroll_reached, temp_path_for,
    ChunkResult, Downloader, FetchEnd, FetchStep, ProbeReply, ProgressMeter, MIN_CHUNK_BYTES,
    PARALLEL_MAX_CHUNKS, PREROLL_BYTES,
};
use kugou_tui::error::AppError;

#[test]
fn infers_extension_ignoring_query_string() {
    assert_eq!(
        Downloader::extension_from_url("http://cdn.kugou.com/a/b/abc.mp3?token=xyz&x=1"),
        "mp3"
    );
    assert_eq!(Downloader::extension_from_url("https://x/y.flac"), "flac");
    assert_eq!(
        Downloader::extension_from_url("https://x/y.m4a#frag"),
        "m4a"
    );
}

#[test]
fn falls_back_to_mp3_for_unknown_extension() {
    assert_eq!(Downloader::extension_from_url("http://x/stream"), "mp3");
    assert_eq!(Downloader::extension_from_url("http://x/y.weird"), "mp3");
}

#[test]
fn builds_part_file_beside_target() {
    let path = temp_path_for("/tmp/cache/abc-128.mp3");
    assert_eq!(path, "/tmp/cache/abc-128.mp3.part");
    assert_eq!(temp_path_for("a/b/"), "a/b.part");
    assert_eq!(temp_path_for("a/."), "a.part");
}

#[test]
fn small_file_is_never_split() {
    let chunks = Downloader::split_into_chunks(100 * 1024);
    assert_eq!(chunks.len(), 1);
    assert_eq!(chunks[0].start, 0);
    assert_eq!(chunks[0].end, 100 * 1024 - 1);
}

#[test]
fn chunks_cover_the_file_exactly_once() {
    let total = 8 * 1024 * 1024;
    let chunks = Downloader::split_into_chunks(total);
    assert!(chunks.len() > 1, "8 MB 应当分块");
    assert!(chunks.len() <= PARALLEL_MAX_CHUNKS as usize);

    assert_eq!(chunks[0].start, 0);
    for pair in chunks.windows(2) {
        assert_eq!(pair[0].end + 1, pair[1].start, "块之间不能有缝");
    }
    assert_eq!(chunks.last().unwrap().end, total - 1);
    for range in &chunks {
        assert!(
            range.end - range.start + 1 >= MIN_CHUNK_BYTES,
            "块太小：{range:?}"
        );
    }
}

fn probe(success: bool, ranges: Option<&str>, length: Option<&str>) -> Option<u64> {
    Downloader::probe_parallel(&ProbeReply {
        success,
        accept_ranges: ranges.map(|text| text.to_string()),
        content_length: length.map(|text| text.to_string()),
    })
}

#[test]
fn only_large_files_of_willing_servers_are_split() {
    assert_eq!(probe(true, Some("bytes"), Some("8388608")), Some(8388608));
    assert_eq!(probe(false, Some("bytes"), Some("8388608")), None);
    assert_eq!(probe(true, Some("none"), Some("8388608")), None);
    assert_eq!(probe(true, None, Some("8388608")), None);
    assert_eq!(probe(true, Some("bytes"), None), None);
    assert_eq!(probe(true, Some("bytes"), Some("many")), None);
    assert_eq!(probe(true, Some("bytes"), Some("1000")), None);
}

#[test]
fn downloads_go_in_parts_or_in_one() {
    match Downloader::after_probe(Some(8 * 1024 * 1024)) {
        FetchStep::Parallel { total, chunks } => {
            assert_eq!(total, 8 * 1024 * 1024);
            assert_eq!(chunks.len(), 4);
            assert_eq!(Downloader::range_header(chunks[1]), "bytes=2097152-4194303");
        }
        other => panic!("{other:?}"),
    }
    assert!(matches!(Downloader::after_probe(None), FetchStep::Sequential));
    assert!(matches!(
        Downloader::after_parallel(Err(AppError::plain("x".to_string()))),
        FetchStep::Sequential
    ));
    assert!(matches!(Downloader::after_parallel(Ok(7)), FetchStep::Done(Ok(7))));
}

#[test]
fn parts_add_up_and_one_failure_discards_all() {
    let url = "http://x/y.mp3";
    let sum = Downloader::fetch_parallel(
        url,
        vec![ChunkResult::Written(3), ChunkResult::Written(4)],
    );
    assert_eq!(sum, FetchEnd::Keep(7));
    let crash = Downloader::fetch_parallel(
        url,
        vec![ChunkResult::Written(3), ChunkResult::Crashed("panic".to_string())],
    );
    match crash {
        FetchEnd::Discard(error) => assert_eq!(error.text, "下载任务异常：panic"),
        other => panic!("{other:?}"),
    }
    let failed = Downloader::fetch_parallel(
        url,
        vec![ChunkResult::Failed(AppError::plain("断开".to_string()))],
    );
    assert_eq!(failed, FetchEnd::Discard(AppError::plain("断开".to_string())));
    assert!(matches!(
        Downloader::fetch_parallel(url, vec![ChunkResult::Written(0)]),
        FetchEnd::Discard(_)
    ));
    assert_eq!(Downloader::fetch_sequential(url, Ok(9)), FetchEnd::Keep(9));
    assert!(matches!(Downloader::fetch_sequential(url, Ok(0)), FetchEnd::Discard(_)));
}

#[test]
fn statuses_of_success() {
    assert!(Downloader::is_success(200));
    assert!(Downloader::is_success(206));
    assert!(!Downloader::is_success(199));
    assert!(!Downloader::is_success(300));
    assert!(Downloader::is_refusal(400));
    assert!(Downloader::is_refusal(599));
    assert!(!Downloader::is_refusal(399));
    assert!(!Downloader::is_refusal(600));
}

#[test]
fn playing_starts_with_the_preroll() {
    assert!(!preroll_reached(PREROLL_BYTES - 1, false));
    assert!(preroll_reached(PREROLL_BYTES, false));
    assert!(preroll_reached(0, true));
}

#[test]
fn progress_is_reported_in_steps() {
    let mut meter = ProgressMeter::new();
    assert!(!meter.step(1000, None));
    assert!(meter.step(256 * 1024, None));
    assert!(!meter.step(256 * 1024 + 1, None));
    assert!(meter.step(256 * 1024 + 2, Some(256 * 1024 + 2)));
}

#[test]
fn blank_proxies_count_as_none() {
    assert_eq!(effective_proxy(None), None);
    assert_eq!(effective_proxy(Some("  ")), None);
    assert_eq!(
        effective_proxy(Some(" http://127.0.0.1:7890 ")),
        Some("http://127.0.0.1:7890".to_string())
    );
    assert_eq!(bad_proxy("u", "e").text, "代理地址 u 无效：e");
    assert_eq!(bad_client("e").text, "构造下载客户端失败：e");
}

#[test]
fn downloaders_are_built_with_and_without_a_proxy() {
    let plain = client_settings(None);
    assert_eq!((plain.timeout, plain.connect_timeout, plain.idle), (180, 8, 2));
    assert_eq!(plain.agent, "kugou-tui/0.4.0");
    assert_eq!(plain.proxy, None);
    let through = client_settings(Some(" http://127.0.0.1:7890 "));
    assert_eq!(through.proxy.as_deref(), Some("http://127.0.0.1:7890"));
    assert_eq!(client_settings(Some("  ")).proxy, None);

    let plain = format!("{:?}", Downloader::new(None).ok().unwrap().http);
    assert!(plain.contains("kugou-tui/0.4.0"));
    assert!(plain.contains("180s"));
    assert!(!plain.contains("7890"));
    let through = Downloader::new(Some(" http://127.0.0.1:7890 ")).ok().unwrap();
    assert!(format!("{:?}", through.http).contains("7890"));

    match Downloader::built(Err("x".to_string())) {
        Err(error) => assert_eq!(error.text, "构造下载客户端失败：x"),
        Ok(_) => panic!("no client was built"),
    }
    assert!(Downloader::new(Some("   ")).is_ok());
    assert!(Downloader::new(Some("http://127.0.0.1:7890")).is_ok());
    match Downloader::new(Some(" http://[ ")) {
        Err(error) => assert_eq!(error.text, "代理地址 http://[ 无效：builder error"),
        Ok(_) => panic!("the address is no address"),
    }
}
