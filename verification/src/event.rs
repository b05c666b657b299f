//! Everything that can happen: keys, the mouse, the audio thread, the clock and
//! the outcomes of requests.

use vstd::prelude::*;
use crate::audio::engine::{AudioEvent, PlaybackState};
use crate::error::AppError;
use crate::model::{Artist, LyricLine, Playlist, RankBoard, Song, UserInfo, VipInfo};

verus! {

/// Which of the two pages with playlists asked for songs. The answer goes there,
/// whatever page is shown by then.
#[derive(Debug, Clone, Copy, PartialEq, Eq, Structural)]
pub enum PlaylistSource {
    /// The public playlists.
    Plaza,
    /// The account's own.
    Cloud,
}

/// What is no longer being loaded when a request has failed.
#[derive(Debug, Clone, Copy, PartialEq, Eq, Structural)]
pub enum LoadingTarget {
    SearchResults,
    Playlists,
    Artists,
    Ranks,
    CloudPlaylists,
    PlaylistSongs(PlaylistSource),
    ArtistSongs,
    RankSongs,
    UserInfo,
}

/// What became of the attempt to claim the day's membership.
#[derive(Debug, PartialEq, Eq)]
pub enum VipClaimOutcome {
    Claimed,
    /// It had been claimed before, here or elsewhere.
    AlreadyClaimed,
    Failed(String),
}

/// The outcome of a request. Each one says what it was asked for, so that an
/// answer that comes too late can be told from one that is awaited.
#[derive(Debug)]
pub enum Loaded {
    Search { keyword: String, songs: Vec<Song>, append: bool },
    Playlists { title: String, items: Vec<Playlist> },
    PlaylistTracks { playlist: Playlist, songs: Vec<Song>, source: PlaylistSource },
    Artists(Vec<Artist>),
    ArtistSongs { artist: Artist, songs: Vec<Song> },
    RankBoards(Vec<RankBoard>),
    RankTracks { board: RankBoard, songs: Vec<Song> },
    CloudPlaylists(Vec<Playlist>),
    Lyric { hash: String, lines: Vec<LyricLine> },
    /// The lyrics could not be had; that is not the same as there being none.
    LyricFailed { hash: String, reason: String },
    /// The link to a song, or to an excerpt of it, with the reason for that.
    StreamReady {
        song: Box<Song>,
        url: String,
        start_at_ms: u64,
        is_trial: bool,
        reason: Option<String>,
    },
    DownloadProgress { received: u64, total: Option<u64> },
    /// A song was downloaded as a whole and is to be played from the file.
    StreamCached { song: Box<Song>, path: String, start_at_ms: u64 },
    /// A song that is already playing has come in as a whole.
    StreamCompleted { song: Box<Song>, path: String },
    DeviceFingerprint(String),
    CacheUsage(u64),
    LoginQr { key: String, content: String },
    LoginStatus { message: String },
    /// A login with a token, or with a cookie, or with neither where the service
    /// keeps the login to itself.
    LoginSucceeded { token: Option<String>, userid: Option<String>, cookie: Option<String> },
    LoginFailed { message: String },
    /// A cover was decoded; its width and height.
    CoverReady { hash: String, width: u32, height: u32 },
    VipStatus(Box<VipInfo>),
    VipClaimed { day: String, outcome: VipClaimOutcome, manual: bool },
    UserInfo(Box<UserInfo>),
    AvatarReady,
    /// Enough of a stream is there to play it.
    StreamPrerolled { song: Box<Song>, stream: u64, start_at_ms: u64 },
    CloudNotice(String),
    CloudPlaylistChanged { playlist: Box<Playlist> },
    Failed { context: String, error: AppError, target: Option<LoadingTarget> },
}

impl Loaded {
    /// Whether the music service itself answered. What this machine finds out by
    /// itself says nothing about the service.
    pub open spec fn from_service(self) -> bool {
        match self {
            Loaded::Search { .. } => true,
            Loaded::Playlists { .. } => true,
            Loaded::PlaylistTracks { .. } => true,
            Loaded::Artists(_) => true,
            Loaded::ArtistSongs { .. } => true,
            Loaded::RankBoards(_) => true,
            Loaded::RankTracks { .. } => true,
            Loaded::CloudPlaylists(_) => true,
            Loaded::Lyric { .. } => true,
            Loaded::StreamReady { .. } => true,
            Loaded::LoginQr { .. } => true,
            Loaded::LoginStatus { .. } => true,
            Loaded::LoginSucceeded { .. } => true,
            Loaded::LoginFailed { .. } => true,
            Loaded::VipStatus(_) => true,
            Loaded::VipClaimed { .. } => true,
            Loaded::UserInfo(_) => true,
            Loaded::DeviceFingerprint(_) => true,
            _ => false,
        }
    }

    /// Whether the music service itself answered.
    pub fn is_api_response(&self) -> (r: bool)
        ensures
            r == self.from_service(),
    {
        match self {
            Loaded::Search { .. } => true,
            Loaded::Playlists { .. } => true,
            Loaded::PlaylistTracks { .. } => true,
            Loaded::Artists(_) => true,
            Loaded::ArtistSongs { .. } => true,
            Loaded::RankBoards(_) => true,
            Loaded::RankTracks { .. } => true,
            Loaded::CloudPlaylists(_) => true,
            Loaded::Lyric { .. } => true,
            Loaded::StreamReady { .. } => true,
            Loaded::LoginQr { .. } => true,
            Loaded::LoginStatus { .. } => true,
            Loaded::LoginSucceeded { .. } => true,
            Loaded::LoginFailed { .. } => true,
            Loaded::VipStatus(_) => true,
            Loaded::VipClaimed { .. } => true,
            Loaded::UserInfo(_) => true,
            Loaded::DeviceFingerprint(_) => true,
            _ => false,
        }
    }

    /// The failure of a request that loads nothing on the screen.
    pub fn fail(context: String, error: AppError) -> (r: Self)
        ensures
            r == (Loaded::Failed { context, error, target: None }),
    {
        Loaded::Failed { context, error, target: None }
    }

    /// The failure of a request that loads something on the screen.
    pub fn fail_loading(target: LoadingTarget, context: String, error: AppError) -> (r: Self)
        ensures
            r == (Loaded::Failed { context, error, target: Some(target) }),
    {
        Loaded::Failed { context, error, target: Some(target) }
    }
}

/// What a key means.
#[derive(Debug, Clone, Copy, PartialEq, Eq)]
pub enum Action {
    Nothing,
    Quit,
    ForceQuit,
    Help,
    ContextMenu,
    SwitchSource,
    SetDefaultSource,
    RaiseSourcePriority,
    LowerSourcePriority,
    ToggleSidebar,
    ToggleWindow,
    Digit(u8),
    FocusNext,
    FocusPrev,
    MoveDown,
    MoveUp,
    MoveTop,
    MoveBottom,
    PageDown,
    PageUp,
    Submit,
    Cancel,
    PlayPause,
    Next,
    Prev,
    SeekForward,
    SeekTo(u64),
    SeekBy(i64),
    LoadMoreSearch,
    SeekBackward,
    VolumeUp,
    VolumeDown,
    ToggleMute,
    CyclePlaybackMode,
    CycleQuality,
    ToggleLyricPanel,
    LyricDelay,
    LyricAdvance,
    OpenSearch,
    OpenSettings,
    DownloadCurrent,
    Reload,
    QueueAppend,
    AddAllToQueue,
    QueuePlayNext,
    RemoveFromQueue,
    ClearQueue,
    ClearCache,
    ToggleSortOrder,
    OpenRanks,
    OpenCloud,
    Login,
    ClaimVip,
    CycleArtistFilter,
    SyncToCloud,
    AddToCloud,
    RemoveFromCloud,
    DeleteCloudPlaylist,
    NewCloudPlaylist,
    Char(char),
    Backspace,
    Delete,
    CursorLeft,
    CursorRight,
    CursorHome,
    CursorEnd,
}

/// Whether keys write text or command.
#[derive(Debug, Clone, Copy, PartialEq, Eq, Structural)]
pub enum KeyMode {
    Normal,
    TextInput,
}

/// What can be hit with the mouse.
#[derive(Debug, Clone, Copy, PartialEq, Eq)]
pub enum HitTarget {
    /// A page in the sidebar, by its place there.
    Tab(usize),
    Entries,
    Songs,
    Queue,
    Progress,
    Settings,
    VipClaim,
    ProfileRetry,
}

/// The part of the screen under the mouse.
#[derive(Debug, Clone, Copy, PartialEq, Eq)]
pub struct HitZone {
    pub target: HitTarget,
    /// The entry on the row that was hit, where there is one.
    pub index: Option<usize>,
    /// The columns of the zone.
    pub left: u16,
    pub width: u16,
    /// Whether this is the second click there within a short time.
    pub double_click: bool,
}

#[derive(Debug, Clone, Copy, PartialEq, Eq, Structural)]
pub enum MouseKind {
    Moved,
    ScrollDown,
    ScrollUp,
    LeftDown,
    RightDown,
    Other,
}

/// A mouse event and what lies under it.
#[derive(Debug, Clone, Copy, PartialEq, Eq)]
pub struct MouseInput {
    pub kind: MouseKind,
    pub column: u16,
    pub row: u16,
    pub zone: Option<HitZone>,
}

/// What the audio thread shows of itself.
#[derive(Debug, Clone, Copy, PartialEq, Eq)]
pub struct AudioSnapshot {
    pub state: PlaybackState,
    pub position_ms: u64,
    pub duration_ms: u64,
}

#[derive(Debug)]
pub enum Event {
    /// A key or an outside control, by its meaning.
    Action(Action),
    /// The terminal has another size.
    Resize,
    Mouse(MouseInput),
    Audio(AudioEvent),
    Loaded(Box<Loaded>),
    /// The clock ticks; what the audio thread shows then.
    Tick(AudioSnapshot),
}

} // verus!
