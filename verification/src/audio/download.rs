//! Downloading audio: whole files in several connections or one, and streams
//! that are played while they come in.
//!
//! Both ways write to a `.part` file beside the target and rename it only when
//! every byte is there. What is decided on the way stands here; the requests and
//! the file operations are made by the caller.

use vstd::prelude::*;
use crate::audio::cache::{extension, names_a_file, partial, CacheView};
use crate::audio::streaming::{StreamView, StreamingBuffer};
use crate::error::AppError;
use crate::text::{
    after_last, ascii_lower, bare_path, bare_text, before, cat2, cat3, contains, dec, ends_in,
    file_name, has_text, lemma_bare_twice, lower, number, opt, opt_str, parse_u64, push_dec, same,
    text_after_last, text_before, texts_are_cut_before_the_first, texts_are_cut_behind_the_last,
    trim, trimmed,
};

verus! {

/// Files below this size come in one connection.
pub const PARALLEL_MIN_BYTES: u64 = 512 * 1024;

/// The most connections for one file.
pub const PARALLEL_MAX_CHUNKS: u64 = 4;

/// No part of a split file is smaller.
pub const MIN_CHUNK_BYTES: u64 = 256 * 1024;

/// How much of a stream must be there before it is played.
pub const PREROLL_BYTES: u64 = 128 * 1024;

/// How many bytes lie between two reports of progress.
pub const PROGRESS_STEP_BYTES: u64 = 256 * 1024;

/// A part of a file: its first and its last byte.
#[derive(Debug, Clone, Copy, PartialEq, Eq)]
pub struct ChunkRange {
    pub start: u64,
    pub end: u64,
}

/// Into how many parts a file of `total` bytes is split.
pub open spec fn chunk_count(total: u64) -> int {
    let n = total as int / MIN_CHUNK_BYTES as int;
    if n < 1 {
        1
    } else if n > PARALLEL_MAX_CHUNKS {
        PARALLEL_MAX_CHUNKS as int
    } else {
        n
    }
}

/// The `i`-th part: all parts have the same size, but the last takes the rest.
pub open spec fn chunk(total: u64, i: int) -> ChunkRange {
    let count = chunk_count(total);
    let size = total as int / count;
    ChunkRange {
        start: (i * size) as u64,
        end: if i == count - 1 {
            (if total == 0 {
                0
            } else {
                total - 1
            }) as u64
        } else {
            (i * size + size - 1) as u64
        },
    }
}

/// What a server answered to the question for a file's size.
#[derive(Debug)]
pub struct ProbeReply {
    pub success: bool,
    /// The header that says whether parts of the file can be asked for.
    pub accept_ranges: Option<String>,
    pub content_length: Option<String>,
}

/// The size of a file that is worth splitting, where the server offers parts of
/// it.
pub open spec fn splittable(reply: ProbeReply) -> Option<u64> {
    match (reply.accept_ranges, reply.content_length) {
        (Some(ranges), Some(length)) => match number(length@) {
            Some(total) => if reply.success && has_text(ranges@, "bytes"@) && total
                >= PARALLEL_MIN_BYTES {
                Some(total)
            } else {
                None
            },
            None => None,
        },
        _ => None,
    }
}

/// The next thing that a download to a file does.
#[derive(Debug, PartialEq, Eq)]
pub enum FetchStep {
    /// Fetch these parts of a file of this size at once.
    Parallel { total: u64, chunks: Vec<ChunkRange> },
    /// Fetch the file in one connection.
    Sequential,
    /// The download is over: its size, or why it failed.
    Done(Result<u64, AppError>),
}

/// What became of one part of a parallel download.
#[derive(Debug)]
pub enum ChunkResult {
    /// So many bytes were written.
    Written(u64),
    Failed(AppError),
    /// The task itself broke off, for this reason.
    Crashed(String),
}

/// What is to be done with the `.part` file when its bytes have come in.
#[derive(Debug, PartialEq, Eq)]
pub enum FetchEnd {
    /// It is complete: rename it to its target.
    Keep(u64),
    /// Remove it: the download failed.
    Discard(AppError),
}

impl FetchEnd {
    /// The download failed with this one sentence.
    pub open spec fn discards(self, text: Seq<char>) -> bool {
        self matches FetchEnd::Discard(error) && error.is_plain(text)
    }
}

/// What is said of a download that brought nothing.
pub open spec fn empty_content(url: Seq<char>) -> Seq<char> {
    "从 "@ + url + " 下载到的内容为空，可能该歌曲需要 VIP 或已下架"@
}

fn empty_content_error(url: &str) -> (r: AppError)
    ensures
        r.is_plain(empty_content(url@)),
{
    AppError::plain(cat3("从 ", url, " 下载到的内容为空，可能该歌曲需要 VIP 或已下架"))
}

/// How many bytes the parts before the first that failed brought.
pub open spec fn written_before(results: Seq<ChunkResult>, i: int) -> nat
    decreases i,
{
    if i <= 0 {
        0
    } else {
        written_before(results, i - 1) + (match results[i - 1] {
            ChunkResult::Written(bytes) => bytes as nat,
            _ => 0,
        })
    }
}

/// Whether the first `i` parts all went well.
pub open spec fn all_written(results: Seq<ChunkResult>, i: int) -> bool {
    forall|k: int| 0 <= k < i ==> #[trigger] results[k] is Written
}

/// How a stream ended.
#[derive(Debug, PartialEq, Eq)]
pub enum StreamOutcome {
    /// Every byte came in and the file has its final name.
    Completed,
    /// Every byte came in, but the file could not be given its final name: the song
    /// is heard to its end, and is not in the cache.
    Uncached,
    /// It broke off, for this reason.
    Failed(String),
    /// It was called off; that is no error.
    Cancelled,
}

/// What is to be done with the `.part` file of a stream whose transfer has ended.
#[derive(Debug, PartialEq, Eq)]
pub enum PartFate {
    /// It is complete: give it its final name. [`Downloader::stream_outcome`] takes
    /// whether that worked.
    Rename,
    /// Remove it. The stream has ended so.
    Remove(StreamOutcome),
}

/// An HTTP client, as the `reqwest` crate has it.
#[verifier::external_type_specification]
#[verifier::external_body]
pub struct ExClient(reqwest::Client);

/// A proxy, as the `reqwest` crate has it.
#[verifier::external_type_specification]
#[verifier::external_body]
pub struct ExProxy(reqwest::Proxy);

/// An error of the `reqwest` crate.
#[verifier::external_type_specification]
#[verifier::external_body]
pub struct ExHttpError(reqwest::Error);

/// What the client of a downloader is built with. The type of its texts is a
/// parameter, so that its view has the same shape.
#[derive(Debug)]
pub struct ClientSettings<S = String> {
    /// The longest time that a download takes, in seconds.
    pub timeout: u64,
    /// The longest time until a server answers, in seconds.
    pub connect_timeout: u64,
    /// The name that the client gives itself.
    pub agent: S,
    /// The most idle connections to one host.
    pub idle: usize,
    /// The address of the proxy that it goes through.
    pub proxy: Option<S>,
}

impl View for ClientSettings<String> {
    type V = ClientSettings<Seq<char>>;

    open spec fn view(&self) -> ClientSettings<Seq<char>> {
        ClientSettings {
            timeout: self.timeout,
            connect_timeout: self.connect_timeout,
            agent: self.agent@,
            idle: self.idle,
            proxy: opt(self.proxy),
        }
    }
}

impl ClientSettings<Seq<char>> {
    /// The settings of a downloader for which this proxy is set.
    pub open spec fn wanted(proxy: Option<Seq<char>>) -> Self {
        ClientSettings {
            timeout: 180,
            connect_timeout: 8,
            agent: "kugou-tui/0.4.0"@,
            idle: 2,
            proxy: wanted_proxy(proxy),
        }
    }
}

/// The text of a `reqwest::Error`, as its `Display` writes it.
pub uninterp spec fn http_text(error: reqwest::Error) -> Seq<char>;

/// Whether `reqwest::Proxy::all` takes an address for one of a proxy.
pub uninterp spec fn takes_proxy(url: Seq<char>) -> bool;

/// What a client was built with.
pub uninterp spec fn built_with(http: reqwest::Client) -> ClientSettings<Seq<char>>;

/// The text of every error in the making of a client, whatever stands behind it.
pub const BUILDER_ERROR: &'static str = "builder error";

/// Calls `reqwest::Proxy::all`, which reads a proxy address. Whether it takes the
/// address is claimed to depend on its text alone. Every address that it refuses comes
/// back as an error of the same kind, without an address of its own, so that its text
/// is always the same. Of the proxy nothing is claimed.
#[verifier::external_body]
fn proxy_at(url: &str) -> (r: Result<reqwest::Proxy, reqwest::Error>)
    ensures
        match r {
            Ok(_) => takes_proxy(url@),
            Err(error) => !takes_proxy(url@) && http_text(error) == BUILDER_ERROR@,
        },
{
    reqwest::Proxy::all(url)
}

/// Calls `reqwest::ClientBuilder::build` on a builder with exactly these settings:
/// both limits, the name, the idle connections, and a proxy for all addresses where
/// one is set. The client that comes of it was built with them. Whether a client can
/// be built depends on the machine, so nothing is promised of that; where it cannot,
/// the error is one of the same kind, whose text is always the same.
#[verifier::external_body]
fn build_client(settings: &ClientSettings) -> (r: Result<reqwest::Client, reqwest::Error>)
    requires
        settings.proxy matches Some(url) ==> takes_proxy(url@),
    ensures
        match r {
            Ok(http) => built_with(http) == settings@,
            Err(error) => http_text(error) == BUILDER_ERROR@,
        },
{
    let mut builder = reqwest::Client::builder()
        .timeout(std::time::Duration::from_secs(settings.timeout))
        .connect_timeout(std::time::Duration::from_secs(settings.connect_timeout))
        .user_agent(settings.agent.as_str())
        .pool_max_idle_per_host(settings.idle);
    if let Some(url) = &settings.proxy {
        builder = builder.proxy(reqwest::Proxy::all(url.as_str())?);
    }
    builder.build()
}

/// The text of a `reqwest::Error`, as its `Display` writes it. The text is claimed to
/// depend on the error alone.
#[verifier::external_body]
fn http_error_text(error: &reqwest::Error) -> (r: String)
    ensures
        r@ == http_text(*error),
{
    error.to_string()
}

/// The proxy that a setting asks for: none where it is empty or blank.
pub open spec fn wanted_proxy(proxy: Option<Seq<char>>) -> Option<Seq<char>> {
    match proxy {
        Some(url) => if trimmed(url).len() == 0 {
            None
        } else {
            Some(trimmed(url))
        },
        None => None,
    }
}

/// The proxy that a setting asks for: none where it is empty or blank.
pub fn effective_proxy(proxy: Option<&str>) -> (r: Option<String>)
    ensures
        opt(r) == wanted_proxy(opt_str(proxy)),
{
    match proxy {
        Some(url) => {
            let url = trim(url);
            if url.as_str().is_empty() {
                None
            } else {
                Some(url)
            }
        },
        None => None,
    }
}

/// What the client of a downloader is built with, where this proxy is set.
pub fn client_settings(proxy: Option<&str>) -> (r: ClientSettings)
    ensures
        r@ == ClientSettings::wanted(opt_str(proxy)),
{
    ClientSettings {
        timeout: 180,
        connect_timeout: 8,
        agent: "kugou-tui/0.4.0".to_owned(),
        idle: 2,
        proxy: effective_proxy(proxy),
    }
}

/// What is said of a proxy address that cannot be read.
pub fn bad_proxy(url: &str, error: &str) -> (r: AppError)
    ensures
        r.is_plain("代理地址 "@ + url@ + " 无效："@ + error@),
{
    let mut text = cat3("代理地址 ", url, " 无效：");
    text.append(error);
    AppError::plain(text)
}

/// What is said of a client that cannot be built.
pub fn bad_client(error: &str) -> (r: AppError)
    ensures
        r.is_plain("构造下载客户端失败："@ + error@),
{
    AppError::plain(cat2("构造下载客户端失败：", error))
}

/// Whether an error says that a proxy address cannot be read, for this reason.
pub open spec fn tells_bad_proxy(error: AppError, url: Seq<char>, text: Seq<char>) -> bool {
    error.is_plain("代理地址 "@ + url + " 无效："@ + text)
}

/// Whether an error says that no client can be built, for this reason.
pub open spec fn tells_bad_client(error: AppError, text: Seq<char>) -> bool {
    error.is_plain("构造下载客户端失败："@ + text)
}

/// Downloads audio. Links point to content servers, not to the music service, so
/// this client sends no credentials and waits longer.
pub struct Downloader {
    pub http: reqwest::Client,
}

impl Downloader {
    /// Ends the making of a downloader: it holds the client that was built, and the
    /// text of a failure becomes the error.
    pub fn built(outcome: Result<reqwest::Client, String>) -> (r: Result<Self, AppError>)
        ensures
            match outcome {
                Ok(http) => r == Ok::<Self, AppError>(Downloader { http }),
                Err(text) => r matches Err(error) && tells_bad_client(error, text@),
            },
    {
        match outcome {
            Ok(http) => Ok(Downloader { http }),
            Err(text) => Err(bad_client(text.as_str())),
        }
    }

    /// A downloader that goes through `proxy`, where that is set: its client is built
    /// with [`client_settings`] of that proxy, and with nothing else.
    ///
    /// An address that is no proxy address is refused. Apart from that it fails
    /// only where no client can be built, which depends on the machine; what is made
    /// of that, [`Self::built`] says.
    pub fn new(proxy: Option<&str>) -> (r: Result<Self, AppError>)
        ensures
            match r {
                Ok(downloader) => {
                    &&& built_with(downloader.http) == ClientSettings::wanted(opt_str(proxy))
                    &&& wanted_proxy(opt_str(proxy)) matches Some(url) ==> takes_proxy(url)
                },
                Err(error) => match wanted_proxy(opt_str(proxy)) {
                    Some(url) => if takes_proxy(url) {
                        tells_bad_client(error, BUILDER_ERROR@)
                    } else {
                        tells_bad_proxy(error, url, BUILDER_ERROR@)
                    },
                    None => tells_bad_client(error, BUILDER_ERROR@),
                },
            },
    {
        let settings = client_settings(proxy);
        match &settings.proxy {
            Some(url) => match proxy_at(url.as_str()) {
                Ok(_) => {},
                Err(error) => {
                    let text = http_error_text(&error);
                    return Err(bad_proxy(url.as_str(), text.as_str()));
                },
            },
            None => {},
        }
        match build_client(&settings) {
            Ok(http) => Self::built(Ok(http)),
            Err(error) => Self::built(Err(http_error_text(&error))),
        }
    }

    /// Whether a file can be fetched in parts: its size, where the server
    /// answered well, offers parts, and the file is large enough.
    pub fn probe_parallel(reply: &ProbeReply) -> (r: Option<u64>)
        ensures
            r == splittable(*reply),
    {
        if !reply.success {
            return None;
        }
        match (&reply.accept_ranges, &reply.content_length) {
            (Some(ranges), Some(length)) => {
                if !contains(ranges.as_str(), "bytes") {
                    return None;
                }
                match parse_u64(length.as_str()) {
                    Some(total) => if total >= PARALLEL_MIN_BYTES {
                        Some(total)
                    } else {
                        None
                    },
                    None => None,
                }
            },
            _ => None,
        }
    }

    /// Splits a file of `total` bytes.
    pub fn split_into_chunks(total: u64) -> (r: Vec<ChunkRange>)
        ensures
            r@.len() == chunk_count(total),
            forall|i: int| 0 <= i < r@.len() ==> #[trigger] r@[i] == chunk(total, i),
    {
        let n: u64 = total / MIN_CHUNK_BYTES;
        let count: u64 = if n < 1 {
            1
        } else if n > PARALLEL_MAX_CHUNKS {
            PARALLEL_MAX_CHUNKS
        } else {
            n
        };
        let size: u64 = total / count;
        assert(count > 1 ==> size >= 1) by (nonlinear_arith)
            requires
                1 <= count,
                count > 1 ==> total >= count,
                size == total as int / count as int,
        ;
        let mut out: Vec<ChunkRange> = Vec::new();
        let mut index: u64 = 0;
        while index < count
            invariant
                index <= count,
                1 <= count <= 4,
                count == chunk_count(total),
                size == total as int / count as int,
                count > 1 ==> size >= 1,
                out@.len() == index,
                forall|i: int| 0 <= i < index ==> #[trigger] out@[i] == chunk(total, i),
            decreases count - index,
        {
            assert(index * size <= total && (index < count - 1 ==> index * size + size <= total))
                by (nonlinear_arith)
                requires
                    index < count,
                    1 <= count,
                    size == total as int / count as int,
            ;
            let start: u64 = index * size;
            let end: u64 = if index == count - 1 {
                if total == 0 {
                    0
                } else {
                    total - 1
                }
            } else {
                start + size - 1
            };
            out.push(ChunkRange { start, end });
            index = index + 1;
        }
        out
    }

    /// What a download does once the size is known: the parts at once where
    /// there is more than one, else one connection.
    pub fn after_probe(probed: Option<u64>) -> (r: FetchStep)
        ensures
            match probed {
                Some(total) if chunk_count(total) > 1 => r matches FetchStep::Parallel {
                    total: t,
                    chunks,
                } && t == total && chunks@.len() == chunk_count(total) && forall|i: int|
                    0 <= i < chunks@.len() ==> #[trigger] chunks@[i] == chunk(total, i),
                _ => r == FetchStep::Sequential,
            },
    {
        match probed {
            Some(total) => {
                let chunks = Self::split_into_chunks(total);
                if chunks.len() > 1 {
                    FetchStep::Parallel { total, chunks }
                } else {
                    FetchStep::Sequential
                }
            },
            None => FetchStep::Sequential,
        }
    }

    /// What a download does after its parts came in or failed: a failure is no
    /// end, the file is then fetched in one connection.
    pub fn after_parallel(result: Result<u64, AppError>) -> (r: FetchStep)
        ensures
            r == (match result {
                Ok(bytes) => FetchStep::Done(Ok(bytes)),
                Err(_) => FetchStep::Sequential,
            }),
    {
        match result {
            Ok(bytes) => FetchStep::Done(Ok(bytes)),
            Err(_) => FetchStep::Sequential,
        }
    }

    /// The header that asks for one part of a file.
    pub fn range_header(range: ChunkRange) -> (r: String)
        ensures
            r@ == "bytes="@ + dec(range.start as nat) + "-"@ + dec(range.end as nat),
    {
        let mut text = "bytes=".to_owned();
        push_dec(&mut text, range.start);
        text.append("-");
        push_dec(&mut text, range.end);
        text
    }

    /// Whether a server's status means that it sends what was asked for.
    pub fn is_success(status: u16) -> (r: bool)
        ensures
            r == (200 <= status < 300),
    {
        200 <= status && status < 300
    }

    /// Whether a server's status means that it refuses what was asked for, through the
    /// fault of either side. What is heard while it comes in ends by this alone.
    pub fn is_refusal(status: u16) -> (r: bool)
        ensures
            r == (400 <= status < 600),
    {
        400 <= status && status < 600
    }

    /// Puts the parts of a parallel download together. The first part that
    /// failed decides; a download without a byte fails too.
    pub fn fetch_parallel(url: &str, results: Vec<ChunkResult>) -> (r: FetchEnd)
        requires
            written_before(results@, results@.len() as int) <= u64::MAX,
        ensures
            all_written(results@, results@.len() as int) ==> {
                let total = written_before(results@, results@.len() as int);
                if total == 0 {
                    r.discards(empty_content(url@))
                } else {
                    r == FetchEnd::Keep(total as u64)
                }
            },
            forall|i: int|
                0 <= i < results@.len() && all_written(results@, i) ==> match #[trigger] results@[i] {
                    ChunkResult::Written(_) => true,
                    ChunkResult::Failed(error) => r == FetchEnd::Discard(error),
                    ChunkResult::Crashed(text) => r.discards("下载任务异常："@ + text@),
                },
    {
        let mut total: u64 = 0;
        let mut i: usize = 0;
        while i < results.len()
            invariant
                i <= results@.len(),
                written_before(results@, results@.len() as int) <= u64::MAX,
                total == written_before(results@, i as int),
                all_written(results@, i as int),
            decreases results@.len() - i,
        {
            proof {
                lemma_written_grows(results@, i + 1, results@.len() as int);
            }
            match &results[i] {
                ChunkResult::Written(bytes) => {
                    total = total + *bytes;
                },
                ChunkResult::Failed(error) => {
                    return FetchEnd::Discard(error.clone());
                },
                ChunkResult::Crashed(text) => {
                    return FetchEnd::Discard(AppError::plain(cat2("下载任务异常：", text.as_str())));
                },
            }
            i = i + 1;
        }
        if total == 0 {
            FetchEnd::Discard(empty_content_error(url))
        } else {
            FetchEnd::Keep(total)
        }
    }

    /// Ends a download in one connection: it is kept where a byte came in.
    pub fn fetch_sequential(url: &str, result: Result<u64, AppError>) -> (r: FetchEnd)
        ensures
            match result {
                Ok(bytes) => if bytes > 0 {
                    r == FetchEnd::Keep(bytes)
                } else {
                    r.discards(empty_content(url@))
                },
                Err(error) => r == FetchEnd::Discard(error),
            },
    {
        match result {
            Ok(bytes) => if bytes > 0 {
                FetchEnd::Keep(bytes)
            } else {
                FetchEnd::Discard(empty_content_error(url))
            },
            Err(error) => FetchEnd::Discard(error),
        }
    }

    /// The kind of audio file behind a link: the ending of its path, without what
    /// follows a `?` or a `#`; `mp3` where that says nothing.
    pub fn extension_from_url(url: &str) -> (r: &'static str)
        ensures
            r@ == url_extension(url@),
    {
        let path = text_before(text_before(url, '#').as_str(), '?');
        let ending = ascii_lower(text_after_last(path.as_str(), '.').as_str());
        let ending = ending.as_str();
        if same(ending, "flac") {
            "flac"
        } else if same(ending, "m4a") || same(ending, "mp4") {
            "m4a"
        } else if same(ending, "aac") {
            "aac"
        } else if same(ending, "ogg") || same(ending, "oga") {
            "ogg"
        } else if same(ending, "wav") {
            "wav"
        } else if same(ending, "ape") {
            "ape"
        } else {
            "mp3"
        }
    }

    /// Whether the next bytes of a stream are still wanted. Those that are go to the
    /// `.part` file first and to the buffer then.
    pub fn stream_into(buffer: &StreamingBuffer) -> (r: bool)
        ensures
            r == !buffer@.cancelled,
    {
        !buffer.is_cancelled()
    }

    /// Ends a stream: what became of the transfer is written into the buffer, so
    /// that no reader keeps waiting, and decides the fate of the `.part` file.
    ///
    /// A stream that was called off ends quietly, whatever its transfer says.
    pub fn finish_streaming(buffer: &mut StreamingBuffer, result: Result<(), String>) -> (r:
        PartFate)
        requires
            old(buffer).wf(),
        ensures
            final(buffer).wf(),
            final(buffer)@ == (if old(buffer)@.cancelled {
                old(buffer)@
            } else {
                match result {
                    Ok(()) => old(buffer)@.ended(None),
                    Err(message) => old(buffer)@.ended(Some(message@)),
                }
            }),
            r == fate_of(old(buffer)@, result),
    {
        if buffer.is_cancelled() {
            return PartFate::Remove(StreamOutcome::Cancelled);
        }
        match result {
            Ok(()) => {
                buffer.finish(None);
                PartFate::Rename
            },
            Err(message) => {
                buffer.finish(Some(message.clone()));
                PartFate::Remove(StreamOutcome::Failed(message))
            },
        }
    }

    /// How a stream ended, when its `.part` file was dealt with: it is completed only
    /// where the file was `renamed`.
    pub fn stream_outcome(fate: PartFate, renamed: bool) -> (r: StreamOutcome)
        ensures
            r == outcome_of(fate, renamed),
    {
        match fate {
            PartFate::Rename => if renamed {
                StreamOutcome::Completed
            } else {
                StreamOutcome::Uncached
            },
            PartFate::Remove(outcome) => outcome,
        }
    }
}

/// How a stream ended, by the fate of its `.part` file and by whether that was
/// renamed.
pub open spec fn outcome_of(fate: PartFate, renamed: bool) -> StreamOutcome {
    match fate {
        PartFate::Rename => if renamed {
            StreamOutcome::Completed
        } else {
            StreamOutcome::Uncached
        },
        PartFate::Remove(outcome) => outcome,
    }
}

/// What a transfer that ended means for the file of a stream.
pub open spec fn fate_of(buffer: StreamView, result: Result<(), String>) -> PartFate {
    if buffer.cancelled {
        PartFate::Remove(StreamOutcome::Cancelled)
    } else {
        match result {
            Ok(_) => PartFate::Rename,
            Err(message) => PartFate::Remove(StreamOutcome::Failed(message)),
        }
    }
}

/// A stream is completed only where its transfer went well, it was not called off and
/// its file has its final name; it counts as called off exactly where it was, and
/// what failed says why.
pub proof fn outcomes_tell_what_is_on_the_disk(
    buffer: StreamView,
    result: Result<(), String>,
    renamed: bool,
)
    ensures
        outcome_of(fate_of(buffer, result), renamed) == StreamOutcome::Completed
            <==> !buffer.cancelled && result is Ok && renamed,
        outcome_of(fate_of(buffer, result), renamed) == StreamOutcome::Cancelled
            <==> buffer.cancelled,
        outcome_of(fate_of(buffer, result), renamed) matches StreamOutcome::Failed(message) ==> (
        result matches Err(text) && message == text),
        outcome_of(fate_of(buffer, result), renamed) is Failed
            <==> !buffer.cancelled && result is Err,
{
}

proof fn lemma_written_grows(results: Seq<ChunkResult>, i: int, j: int)
    requires
        0 <= i <= j,
    ensures
        written_before(results, i) <= written_before(results, j),
    decreases j - i,
{
    if i < j {
        lemma_written_grows(results, i, j - 1);
    }
}

/// The kind of audio file that the ending `ending` stands for.
pub open spec fn audio_kind(ending: Seq<char>) -> Seq<char> {
    if ending == "flac"@ {
        "flac"@
    } else if ending == "m4a"@ || ending == "mp4"@ {
        "m4a"@
    } else if ending == "aac"@ {
        "aac"@
    } else if ending == "ogg"@ || ending == "oga"@ {
        "ogg"@
    } else if ending == "wav"@ {
        "wav"@
    } else if ending == "ape"@ {
        "ape"@
    } else {
        "mp3"@
    }
}

/// The kind of audio file behind a link.
pub open spec fn url_extension(url: Seq<char>) -> Seq<char> {
    audio_kind(lower(after_last(before(before(url, '#'), '?'), '.')))
}

/// The `.part` file beside a target.
pub open spec fn part_path(target: Seq<char>) -> Seq<char> {
    bare_path(target) + ".part"@
}

/// The directory that a path leads to, up to the name of the file.
pub open spec fn directory(path: Seq<char>) -> Seq<char> {
    let bare = bare_path(path);
    bare.take(bare.len() - file_name(bare).len())
}

/// The `.part` file beside a target.
pub fn temp_path_for(target: &str) -> (r: String)
    requires
        names_a_file(target@),
    ensures
        r@ == part_path(target@),
{
    cat2(bare_text(target).as_str(), ".part")
}

/// Whether enough of a stream is there to play it: the preroll, or all that will
/// ever come.
pub fn preroll_reached(got: u64, finished: bool) -> (r: bool)
    ensures
        r == (got >= PREROLL_BYTES || finished),
{
    got >= PREROLL_BYTES || finished
}

/// Thins out reports of progress.
#[derive(Debug, Clone, Copy, PartialEq, Eq)]
pub struct ProgressMeter {
    /// The last number that was reported.
    pub last_reported: u64,
}

impl ProgressMeter {
    /// Whether this number is worth a report: it ends the download, or lies one
    /// step beyond the last report.
    pub open spec fn reports(self, received: u64, total: Option<u64>) -> bool {
        (total matches Some(t) && received >= t) || received - self.last_reported
            >= PROGRESS_STEP_BYTES
    }

    pub fn new() -> (r: Self)
        ensures
            r.last_reported == 0,
    {
        ProgressMeter { last_reported: 0 }
    }

    /// Takes a number of received bytes and says whether to report it.
    pub fn step(&mut self, received: u64, total: Option<u64>) -> (r: bool)
        ensures
            r == old(self).reports(received, total),
            final(self).last_reported == (if r {
                received
            } else {
                old(self).last_reported
            }),
    {
        let finished = match total {
            Some(total) => received >= total,
            None => false,
        };
        let beyond: u64 = if received >= self.last_reported {
            received - self.last_reported
        } else {
            0
        };
        if !finished && beyond < PROGRESS_STEP_BYTES {
            return false;
        }
        self.last_reported = received;
        true
    }
}

/// The parts of a split file cover it exactly once: they start at its first
/// byte, follow each other without a gap and end at its last byte; where there
/// is more than one, none is smaller than the least size.
pub proof fn chunks_cover_the_file(total: u64, i: int)
    requires
        0 < total,
        0 <= i < chunk_count(total),
    ensures
        chunk(total, 0).start == 0,
        chunk(total, chunk_count(total) - 1).end == total - 1,
        i + 1 < chunk_count(total) ==> chunk(total, i).end + 1 == chunk(total, i + 1).start,
        chunk(total, i).start <= chunk(total, i).end,
        chunk_count(total) > 1 ==> chunk(total, i).end - chunk(total, i).start + 1
            >= MIN_CHUNK_BYTES,
        chunk_count(total) <= PARALLEL_MAX_CHUNKS,
{
    let count = chunk_count(total);
    let size = total as int / count;
    assert(size * count <= total && i * size >= 0 && i * size + size <= size * count && 0 * size
        == 0 && (i + 1) * size == i * size + size && (count - 1) * size + size == size * count)
        by (nonlinear_arith)
        requires
            1 <= count,
            0 <= i < count,
            size == total as int / count,
            total > 0,
    ;
    assert(count > 1 ==> size >= MIN_CHUNK_BYTES) by (nonlinear_arith)
        requires
            count <= total as int / MIN_CHUNK_BYTES as int || count == 1,
            size == total as int / count,
            count >= 1,
            MIN_CHUNK_BYTES == 262144,
    ;
}

/// A small file is never split.
pub proof fn small_files_stay_whole(total: u64)
    requires
        total < 2 * MIN_CHUNK_BYTES,
    ensures
        chunk_count(total) == 1,
{
}

/// Writing bytes to the spill file before they are appended keeps the file ahead
/// of the buffer: whatever the buffer then counts as downloaded stands in the
/// file.
pub proof fn write_before_push_keeps_the_spill(
    buffer: StreamView,
    file: Seq<u8>,
    chunk: Seq<u8>,
)
    requires
        file == buffer.bytes,
    ensures
        buffer.pushed(chunk).bytes.len() <= (file + chunk).len(),
        (file + chunk).take(buffer.pushed(chunk).bytes.len() as int) == buffer.pushed(chunk).bytes,
        !buffer.cancelled ==> buffer.pushed(chunk).bytes == file + chunk,
{
    assert(buffer.pushed(chunk).bytes == if chunk.len() == 0 || buffer.cancelled {
        file
    } else {
        file + chunk
    });
    assert(chunk.len() == 0 ==> file + chunk =~= file);
    assert((file + chunk).take(file.len() as int) =~= file);
    assert((file + chunk).take((file + chunk).len() as int) =~= file + chunk);
}

proof fn lemma_file_name_of_sum(a: Seq<char>, b: Seq<char>)
    requires
        forall|i: int| 0 <= i < b.len() ==> b[i] != '/',
    ensures
        file_name(a + b) == file_name(a) + b,
    decreases b.len(),
{
    if b.len() == 0 {
        assert(a + b =~= a);
        assert(file_name(a) + b =~= file_name(a));
    } else {
        lemma_file_name_of_sum(a, b.drop_last());
        assert((a + b).drop_last() =~= a + b.drop_last());
        assert(file_name(a) + b =~= (file_name(a) + b.drop_last()).push(b.last()));
    }
}

/// The `.part` file of any target counts as a file that is still being written,
/// so neither a lookup finds it nor a cleanup removes it. It stands in the directory
/// of the target and is another file.
pub proof fn part_files_are_partial(target: Seq<char>)
    requires
        names_a_file(target),
    ensures
        partial(part_path(target)),
        file_name(part_path(target)) == file_name(bare_path(target)) + ".part"@,
        directory(part_path(target)) == directory(target),
        part_path(target) != target,
        bare_path(part_path(target)) != bare_path(target),
{
    let bare = bare_path(target);
    let path = part_path(target);
    lemma_bare_twice(target);
    lemma_part_is_bare(bare);
    assert(bare.len() + 5 == path.len()) by {
        reveal_strlit(".part");
    }
    lemma_file_name_of_part(bare);
    lemma_file_name_fits(bare);
    assert(ends_in(path, ".part"@)) by {
        assert(path.subrange(path.len() - ".part"@.len(), path.len() as int) =~= ".part"@);
    }
    let n = bare.len() - file_name(bare).len();
    assert(path.take(n) =~= bare.take(n));
}

proof fn lemma_part_is_bare(bare: Seq<char>)
    ensures
        bare_path(bare + ".part"@) == bare + ".part"@,
{
    reveal_strlit(".part");
    assert((bare + ".part"@).last() == 't');
}

proof fn lemma_file_name_of_part(bare: Seq<char>)
    ensures
        file_name(bare + ".part"@) == file_name(bare) + ".part"@,
        ".part"@.len() == 5,
{
    reveal_strlit(".part");
    lemma_file_name_of_sum(bare, ".part"@);
}

proof fn lemma_file_name_fits(p: Seq<char>)
    ensures
        file_name(p).len() <= p.len(),
    decreases p.len(),
{
    if p.len() > 0 && p.last() != '/' {
        lemma_file_name_fits(p.drop_last());
    }
}

/// Every place of the cache can take a download: it names a file.
pub proof fn cache_places_name_files(cache: CacheView, key: Seq<char>, i: int)
    ensures
        names_a_file(cache.candidate(key, i)),
{
    reveal_strlit(".");
    reveal_strlit("..");
    reveal_strlit("mp3");
    reveal_strlit("flac");
    reveal_strlit("m4a");
    reveal_strlit("aac");
    reveal_strlit("ogg");
    reveal_strlit("wav");
    reveal_strlit("ape");
    reveal_strlit("mp4");
    let ext = extension(i);
    let path = cache.candidate(key, i);
    let head = path.take(path.len() - ext.len());
    assert(path =~= head + ext);
    lemma_file_name_of_sum(head, ext);
    assert(path.last() == ext.last());
    assert(bare_path(path) == path);
    assert(file_name(path).len() >= 3);
}

/// A file that is downloaded for a song is one that a later lookup finds: its ending is one
/// of those that are tried.
pub proof fn downloaded_songs_are_found(cache: CacheView, key: Seq<char>, url: Seq<char>)
    ensures
        exists|i: int|
            0 <= i < 8 && #[trigger] cache.candidate(key, i) == cache.path(
                key,
                url_extension(url),
            ),
{
    let kind = url_extension(url);
    let i: int = if kind == "flac"@ {
        1
    } else if kind == "m4a"@ {
        2
    } else if kind == "aac"@ {
        3
    } else if kind == "ogg"@ {
        4
    } else if kind == "wav"@ {
        5
    } else if kind == "ape"@ {
        6
    } else {
        0
    };
    assert(cache.candidate(key, i) == cache.path(key, kind));
}

/// The kind of a file is what its link ends with, where that is a kind of audio file, and
/// `mp3` elsewhere.
pub proof fn kinds_follow_the_link(ending: Seq<char>)
    ensures
        audio_kind("mp3"@) == "mp3"@,
        audio_kind("flac"@) == "flac"@,
        audio_kind("m4a"@) == "m4a"@,
        audio_kind("mp4"@) == "m4a"@,
        audio_kind("aac"@) == "aac"@,
        audio_kind("ogg"@) == "ogg"@,
        audio_kind("wav"@) == "wav"@,
        audio_kind("ape"@) == "ape"@,
        audio_kind(ending) == ending || audio_kind(ending) == "mp3"@ || audio_kind(ending)
            == "m4a"@ || audio_kind(ending) == "ogg"@,
{
    reveal_strlit("mp3");
    reveal_strlit("flac");
    reveal_strlit("m4a");
    reveal_strlit("mp4");
    reveal_strlit("aac");
    reveal_strlit("ogg");
    reveal_strlit("oga");
    reveal_strlit("wav");
    reveal_strlit("ape");
    assert("mp3"@[2] == '3' && "m4a"@[1] == '4' && "mp4"@[2] == '4' && "aac"@[0] == 'a'
        && "ogg"@[0] == 'o' && "wav"@[0] == 'w' && "ape"@[1] == 'p' && "flac"@.len() == 4);
    assert("mp3"@.len() == 3 && "m4a"@.len() == 3 && "mp4"@.len() == 3 && "aac"@.len() == 3
        && "ogg"@.len() == 3 && "oga"@.len() == 3 && "wav"@.len() == 3 && "ape"@.len() == 3);
    assert("mp3"@[0] == 'm' && "m4a"@[0] == 'm' && "mp4"@[1] == 'p' && "mp4"@[0] == 'm'
        && "aac"@[1] == 'a' && "ape"@[0] == 'a' && "mp3"@[1] == 'p' && "oga"@[2] == 'a'
        && "ogg"@[2] == 'g' && "oga"@[0] == 'o');
}

/// A file is fetched in parts only where the server answered well, offers parts of bytes,
/// and the file has at least half a mebibyte; then its size is the one that the server told.
pub proof fn large_files_are_split(reply: ProbeReply, total: u64)
    requires
        reply.accept_ranges is Some,
        reply.content_length is Some,
        number((reply.content_length->0)@) == Some(total),
        has_text((reply.accept_ranges->0)@, "bytes"@),
    ensures
        reply.success && total >= 524_288 ==> splittable(reply) == Some(total),
        !reply.success || total < 524_288 ==> splittable(reply) is None,
{
}

/// A part that was called off, or a stream whose song is no longer wanted, leaves no file,
/// and a whole one is kept.
pub proof fn whole_streams_are_kept(buffer: StreamView, message: String)
    ensures
        !buffer.cancelled ==> fate_of(buffer, Ok(())) == PartFate::Rename,
        buffer.cancelled ==> fate_of(buffer, Ok(())) == PartFate::Remove(StreamOutcome::Cancelled),
        !buffer.cancelled ==> fate_of(buffer, Err(message)) == PartFate::Remove(
            StreamOutcome::Failed(message),
        ),
        outcome_of(PartFate::Rename, true) == StreamOutcome::Completed,
        outcome_of(PartFate::Rename, false) == StreamOutcome::Uncached,
{
}

/// A proxy is used as it is set, without the blanks around it; a blank one is none.
pub proof fn proxies_are_used_as_set(url: Seq<char>)
    ensures
        trimmed(url).len() > 0 ==> wanted_proxy(Some(url)) == Some(trimmed(url)),
        trimmed(url).len() == 0 ==> wanted_proxy(Some(url)) is None,
        wanted_proxy(None) is None,
        ClientSettings::wanted(Some(url)).proxy == wanted_proxy(Some(url)),
{
}

/// Progress is told at the end of a download, and not for every byte before.
pub proof fn progress_is_thinned_out(meter: ProgressMeter, received: u64, total: u64)
    ensures
        received >= total ==> meter.reports(received, Some(total)),
        received < total && received < meter.last_reported + PROGRESS_STEP_BYTES
            ==> !meter.reports(received, Some(total)),
        received >= meter.last_reported + PROGRESS_STEP_BYTES ==> meter.reports(received, None),
{
}

/// The kind of a file is read from its link, in small letters or large, whatever is asked for
/// behind it.
pub proof fn kinds_are_read_from_the_link(
    front: Seq<char>,
    ending: Seq<char>,
    query: Seq<char>,
)
    requires
        forall|i: int|
            0 <= i < front.len() ==> #[trigger] front[i] != '#' && front[i] != '?',
        forall|i: int|
            0 <= i < ending.len() ==> #[trigger] ending[i] != '#' && ending[i] != '?' && ending[i]
                != '.',
        forall|i: int| 0 <= i < query.len() ==> #[trigger] query[i] != '#',
    ensures
        url_extension(front.push('.') + ending) == audio_kind(lower(ending)),
        url_extension(front.push('.') + ending + seq!['?'] + query) == audio_kind(lower(ending)),
        url_extension(front.push('.') + ending + seq!['#'] + query) == audio_kind(lower(ending)),
{
    let path = front.push('.') + ending;
    assert forall|i: int| 0 <= i < path.len() implies #[trigger] path[i] != '#' && path[i]
        != '?' by {
        if i < front.len() {
            assert(path[i] == front[i]);
        } else if i > front.len() {
            assert(path[i] == ending[i - front.len() - 1]);
        }
    }
    lemma_cut_at(path, Seq::empty(), '#');
    lemma_cut_at(path, Seq::empty(), '?');
    assert(path + Seq::<char>::empty() =~= path);
    lemma_cut_at(path, seq!['?'] + query, '?');
    lemma_cut_at(path, seq!['#'] + query, '#');
    let asked = path + (seq!['?'] + query);
    assert(path + seq!['?'] + query =~= asked);
    assert(path + seq!['#'] + query =~= path + (seq!['#'] + query));
    assert forall|i: int| 0 <= i < asked.len() implies #[trigger] asked[i] != '#' by {
        if i < path.len() {
            assert(asked[i] == path[i]);
        } else if i > path.len() {
            assert(asked[i] == query[i - path.len() - 1]);
        }
    }
    lemma_cut_at(asked, Seq::empty(), '#');
    assert(asked + Seq::<char>::empty() =~= asked);
    lemma_last_part(front, ending);
}

proof fn lemma_cut_at(s: Seq<char>, rest: Seq<char>, c: char)
    requires
        forall|i: int| 0 <= i < s.len() ==> #[trigger] s[i] != c,
        rest.len() > 0 ==> rest[0] == c,
    ensures
        before(s + rest, c) == s,
{
    texts_are_cut_before_the_first(s + rest, c);
    let b = before(s + rest, c);
    if b.len() < s.len() {
        assert((s + rest)[b.len() as int] == s[b.len() as int]);
    } else if b.len() > s.len() {
        assert(b[s.len() as int] == (s + rest)[s.len() as int]);
    }
    assert(b =~= s);
}

proof fn lemma_last_part(front: Seq<char>, ending: Seq<char>)
    requires
        forall|i: int| 0 <= i < ending.len() ==> #[trigger] ending[i] != '.',
    ensures
        after_last(front.push('.') + ending, '.') == ending,
{
    let s = front.push('.') + ending;
    texts_are_cut_behind_the_last(s, '.');
    let a = after_last(s, '.');
    if a.len() < ending.len() {
        let k = s.len() - a.len() - 1;
        assert(s[k] == ending[k - front.len() - 1]);
    } else if a.len() > ending.len() {
        let k = front.len() as int;
        assert(a[k - (s.len() - a.len())] == s[k]);
    }
    assert(a =~= ending);
}

} // verus!
