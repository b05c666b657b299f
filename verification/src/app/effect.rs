//! What the program asks the outside to do. Handling an event changes the state
//! and leaves a list of these; whoever runs the program carries them out in
//! order and hands back what comes of them.

use vstd::prelude::*;
use crate::event::{HitTarget, PlaylistSource};
use crate::model::{Artist, Playlist, RankBoard, Song};
use crate::source::SourceKind;
use crate::text::opt;

verus! {

/// A line of the settings page.
#[derive(Debug, Clone, Copy, PartialEq, Eq, Structural)]
pub enum Setting {
    Theme,
    Quality,
    PlaybackMode,
    RefreshMs,
    LyricOffsetMs,
    PageSize,
    CacheLimitMib,
    BasicColor,
    LyricPanel,
    Sidebar,
    LiteMode,
    DownloadDir,
    CoverFill,
    AudioDevice,
}

/// What follows when the settings were saved or could not be.
#[derive(Debug, PartialEq, Eq)]
pub enum AfterSave<S = String> {
    /// Nothing is said.
    Nothing,
    /// A setting was changed on its page.
    Setting(Setting),
    /// Another output device was chosen.
    Device,
    /// The services were rearranged.
    Sources,
    /// A login with a token, for this account.
    Login { userid: S },
    /// A login with a cookie.
    ServerCookie,
    /// Another service is in use; whether one logs in there next.
    Switch { kind: SourceKind, then_login: bool },
}

/// What a connection to a service is wanted for.
#[derive(Debug, PartialEq, Eq)]
pub enum Purpose<S = String> {
    Stream { song: Song, start_at_ms: u64 },
    Lyric { song: Song },
    Cover { song: Song },
    Prefetch { song: Song },
    Download { song: Song, quality: S },
    Vip { day: S, manual: bool },
}

/// What a lookup in the cache is for.
#[derive(Debug, PartialEq, Eq)]
pub enum Lookup {
    Play { song: Song, start_at_ms: u64 },
    Prefetch { song: Song },
}

/// Something to be done outside. The types of its texts and of its list are parameters,
/// so that its view has the same shape.
#[derive(Debug, PartialEq, Eq)]
pub enum Effect<S = String, L = Vec<Song>> {
    // The audio thread.
    AudioToggle,
    AudioStop,
    AudioSeekTo(u64),
    AudioSeekBy(i64),
    /// A volume, by its bit pattern.
    AudioSetVolume(u32),
    AudioMarkLoading,
    AudioLoadFile { path: S, start_at_ms: u64, duration_ms: u64 },
    AudioLoadStream { stream: u64, start_at_ms: u64, duration_ms: u64 },
    AudioUseDevice(Option<S>),
    AudioShutdown,
    /// Calls a stream off.
    CancelStream(u64),
    // Files.
    RemoveFile(S),
    SaveConfig(AfterSave<S>),
    SaveSession,
    FindCached { key: S, lookup: Lookup },
    ClearCache,
    EvictCache,
    MeasureCache,
    // Connections.
    /// The client of the service in use sends this cookie from now on.
    SetCookie(Option<S>),
    /// Builds a client for another service than the one in use.
    Connect { kind: SourceKind, api_base: S, cookie: Option<S>, purpose: Purpose<S> },
    /// Builds the client of the service in use anew.
    Reconnect { kind: SourceKind, api_base: S, cookie: Option<S>, then_login: bool },
    // Requests to the service in use, or to the one that a song comes from.
    Search { source: SourceKind, keyword: S, page: u32, page_size: u32, append: bool },
    PlazaPlaylists { source: SourceKind, category: i64, page_size: u32 },
    ArtistList { source: SourceKind, kind: i64, size: u32 },
    RankBoards { source: SourceKind },
    UserPlaylists { source: SourceKind },
    PlaylistTracks {
        source: SourceKind,
        playlist: Playlist,
        panel: PlaylistSource,
        page: u32,
        fresh: bool,
    },
    ArtistTracks { source: SourceKind, artist: Artist },
    RankTracks { source: SourceKind, board: RankBoard },
    SongUrl { song: Song, quality: S, start_at_ms: u64 },
    FetchLyric { song: Song },
    FetchCover { song: Song },
    FetchAvatar { url: S },
    PrefetchSong { song: Song, quality: S },
    DownloadSong { song: Song, quality: S, dir: Option<S> },
    StartDownload { song: Song, url: S, target: S, start_at_ms: u64 },
    LoginQr { source: SourceKind },
    LoginCheck { source: SourceKind, key: S },
    UserDetail { source: SourceKind },
    VipDetail,
    SyncVip { day: S, manual: bool },
    DeviceFingerprint,
    AddTrack { source: SourceKind, list_id: i64, song: Song, target: Playlist },
    RemoveTrack { source: SourceKind, list_id: i64, song: Song, target: Playlist },
    /// Adds these songs, the whole queue, to a playlist.
    SyncQueue { source: SourceKind, list_id: i64, name: S, songs: L },
    DeletePlaylist { source: SourceKind, list_id: i64, name: S },
    CreatePlaylist { source: SourceKind, name: S },
    // The screen.
    ToggleWindow,
    /// Names a setting and its new value in the status line.
    ShowSettingChanged(Setting),
    /// Names the volume in the status line.
    ShowVolume { volume: u32, unmuted: bool },
    /// Moves this volume by one step.
    StepVolume { base: u32, up: bool },
    /// The place in a track of this length that lies `offset` of `width` columns
    /// from its start.
    EstimateProgress { offset: u16, width: u16, duration_ms: u64 },
    RememberClick { target: HitTarget, index: Option<usize> },
    ShowAvatar,
    /// Shows the current track to the desktop.
    PublishTrack,
    /// Takes new levels from the audio thread, with the spectrum or without.
    RefreshLevels { spectrum: bool },
}

impl View for AfterSave<String> {
    type V = AfterSave<Seq<char>>;

    open spec fn view(&self) -> AfterSave<Seq<char>> {
        match *self {
            AfterSave::Nothing => AfterSave::Nothing,
            AfterSave::Setting(setting) => AfterSave::Setting(setting),
            AfterSave::Device => AfterSave::Device,
            AfterSave::Sources => AfterSave::Sources,
            AfterSave::Login { userid } => AfterSave::Login { userid: userid@ },
            AfterSave::ServerCookie => AfterSave::ServerCookie,
            AfterSave::Switch { kind, then_login } => AfterSave::Switch { kind, then_login },
        }
    }
}

impl View for Purpose<String> {
    type V = Purpose<Seq<char>>;

    open spec fn view(&self) -> Purpose<Seq<char>> {
        match *self {
            Purpose::Stream { song, start_at_ms } => Purpose::Stream { song, start_at_ms },
            Purpose::Lyric { song } => Purpose::Lyric { song },
            Purpose::Cover { song } => Purpose::Cover { song },
            Purpose::Prefetch { song } => Purpose::Prefetch { song },
            Purpose::Download { song, quality } => Purpose::Download { song, quality: quality@ },
            Purpose::Vip { day, manual } => Purpose::Vip { day: day@, manual },
        }
    }
}

/// The view of an effect.
pub type EffectView = Effect<Seq<char>, Seq<Song>>;

impl View for Effect<String> {
    type V = EffectView;

    open spec fn view(&self) -> EffectView {
        match *self {
            Effect::AudioToggle => Effect::AudioToggle,
            Effect::AudioStop => Effect::AudioStop,
            Effect::AudioSeekTo(ms) => Effect::AudioSeekTo(ms),
            Effect::AudioSeekBy(ms) => Effect::AudioSeekBy(ms),
            Effect::AudioSetVolume(bits) => Effect::AudioSetVolume(bits),
            Effect::AudioMarkLoading => Effect::AudioMarkLoading,
            Effect::AudioLoadFile { path, start_at_ms, duration_ms } => Effect::AudioLoadFile {
                path: path@,
                start_at_ms,
                duration_ms,
            },
            Effect::AudioLoadStream { stream, start_at_ms, duration_ms } =>
                Effect::AudioLoadStream { stream, start_at_ms, duration_ms },
            Effect::AudioUseDevice(device) => Effect::AudioUseDevice(opt(device)),
            Effect::AudioShutdown => Effect::AudioShutdown,
            Effect::CancelStream(stream) => Effect::CancelStream(stream),
            Effect::RemoveFile(path) => Effect::RemoveFile(path@),
            Effect::SaveConfig(after) => Effect::SaveConfig(after@),
            Effect::SaveSession => Effect::SaveSession,
            Effect::FindCached { key, lookup } => Effect::FindCached { key: key@, lookup },
            Effect::ClearCache => Effect::ClearCache,
            Effect::EvictCache => Effect::EvictCache,
            Effect::MeasureCache => Effect::MeasureCache,
            Effect::SetCookie(cookie) => Effect::SetCookie(opt(cookie)),
            Effect::Connect { kind, api_base, cookie, purpose } => Effect::Connect {
                kind,
                api_base: api_base@,
                cookie: opt(cookie),
                purpose: purpose@,
            },
            Effect::Reconnect { kind, api_base, cookie, then_login } => Effect::Reconnect {
                kind,
                api_base: api_base@,
                cookie: opt(cookie),
                then_login,
            },
            Effect::Search { source, keyword, page, page_size, append } => Effect::Search {
                source,
                keyword: keyword@,
                page,
                page_size,
                append,
            },
            Effect::PlazaPlaylists { source, category, page_size } => Effect::PlazaPlaylists {
                source,
                category,
                page_size,
            },
            Effect::ArtistList { source, kind, size } => Effect::ArtistList { source, kind, size },
            Effect::RankBoards { source } => Effect::RankBoards { source },
            Effect::UserPlaylists { source } => Effect::UserPlaylists { source },
            Effect::PlaylistTracks { source, playlist, panel, page, fresh } =>
                Effect::PlaylistTracks { source, playlist, panel, page, fresh },
            Effect::ArtistTracks { source, artist } => Effect::ArtistTracks { source, artist },
            Effect::RankTracks { source, board } => Effect::RankTracks { source, board },
            Effect::SongUrl { song, quality, start_at_ms } => Effect::SongUrl {
                song,
                quality: quality@,
                start_at_ms,
            },
            Effect::FetchLyric { song } => Effect::FetchLyric { song },
            Effect::FetchCover { song } => Effect::FetchCover { song },
            Effect::FetchAvatar { url } => Effect::FetchAvatar { url: url@ },
            Effect::PrefetchSong { song, quality } => Effect::PrefetchSong {
                song,
                quality: quality@,
            },
            Effect::DownloadSong { song, quality, dir } => Effect::DownloadSong {
                song,
                quality: quality@,
                dir: opt(dir),
            },
            Effect::StartDownload { song, url, target, start_at_ms } => Effect::StartDownload {
                song,
                url: url@,
                target: target@,
                start_at_ms,
            },
            Effect::LoginQr { source } => Effect::LoginQr { source },
            Effect::LoginCheck { source, key } => Effect::LoginCheck { source, key: key@ },
            Effect::UserDetail { source } => Effect::UserDetail { source },
            Effect::VipDetail => Effect::VipDetail,
            Effect::SyncVip { day, manual } => Effect::SyncVip { day: day@, manual },
            Effect::DeviceFingerprint => Effect::DeviceFingerprint,
            Effect::AddTrack { source, list_id, song, target } => Effect::AddTrack {
                source,
                list_id,
                song,
                target,
            },
            Effect::RemoveTrack { source, list_id, song, target } => Effect::RemoveTrack {
                source,
                list_id,
                song,
                target,
            },
            Effect::SyncQueue { source, list_id, name, songs } => Effect::SyncQueue {
                source,
                list_id,
                name: name@,
                songs: songs@,
            },
            Effect::DeletePlaylist { source, list_id, name } => Effect::DeletePlaylist {
                source,
                list_id,
                name: name@,
            },
            Effect::CreatePlaylist { source, name } => Effect::CreatePlaylist {
                source,
                name: name@,
            },
            Effect::ToggleWindow => Effect::ToggleWindow,
            Effect::ShowSettingChanged(setting) => Effect::ShowSettingChanged(setting),
            Effect::ShowVolume { volume, unmuted } => Effect::ShowVolume { volume, unmuted },
            Effect::StepVolume { base, up } => Effect::StepVolume { base, up },
            Effect::EstimateProgress { offset, width, duration_ms } => Effect::EstimateProgress {
                offset,
                width,
                duration_ms,
            },
            Effect::RememberClick { target, index } => Effect::RememberClick { target, index },
            Effect::ShowAvatar => Effect::ShowAvatar,
            Effect::PublishTrack => Effect::PublishTrack,
            Effect::RefreshLevels { spectrum } => Effect::RefreshLevels { spectrum },
        }
    }
}

/// The views of a list of effects.
pub open spec fn effect_views(effects: Seq<Effect<String>>) -> Seq<EffectView> {
    effects.map_values(|e: Effect<String>| e@)
}

} // verus!
