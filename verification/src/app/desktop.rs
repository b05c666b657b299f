//! What the desktop is shown of the current track.

use vstd::prelude::*;
use crate::app::state::{App, AppView};
use crate::audio::engine::PlaybackState;
use crate::model::{expand_cover_size, sized, Song};
use crate::source::copy_opt;
use crate::text::opt;

verus! {

/// How large a cover the desktop is given, in pixels.
pub const MPRIS_COVER_SIZE: u32 = 400;

/// The current track, as media controls show it.
#[derive(Debug)]
pub struct TrackInfo<S = String> {
    pub title: S,
    pub artists: S,
    pub album: Option<S>,
    pub art_url: Option<S>,
    /// In microseconds.
    pub position_us: i64,
    pub duration_us: i64,
    pub status: PlaybackState,
}

impl View for TrackInfo<String> {
    type V = TrackInfo<Seq<char>>;

    open spec fn view(&self) -> TrackInfo<Seq<char>> {
        TrackInfo {
            title: self.title@,
            artists: self.artists@,
            album: opt(self.album),
            art_url: opt(self.art_url),
            position_us: self.position_us,
            duration_us: self.duration_us,
            status: self.status,
        }
    }
}

/// The current track, as the tray shows it.
#[derive(Debug)]
pub struct TrayInfo<S = String> {
    pub title: S,
    pub artists: S,
    pub status: PlaybackState,
}

impl View for TrayInfo<String> {
    type V = TrayInfo<Seq<char>>;

    open spec fn view(&self) -> TrayInfo<Seq<char>> {
        TrayInfo { title: self.title@, artists: self.artists@, status: self.status }
    }
}

fn cover_of(song: &Song) -> (r: Option<String>)
    ensures
        opt(r) == (match song.cover {
            Some(url) => Some(sized(url@, MPRIS_COVER_SIZE)),
            None => None,
        }),
{
    match &song.cover {
        Some(url) => Some(expand_cover_size(url.as_str(), MPRIS_COVER_SIZE)),
        None => None,
    }
}

impl AppView {
    pub open spec fn track_info(self) -> TrackInfo<Seq<char>> {
        let status = self.state.player.playback;
        match self.state.player.current {
            Some(song) => TrackInfo {
                title: song.name@,
                artists: song.singers@,
                album: opt(song.album),
                art_url: match song.cover {
                    Some(url) => Some(sized(url@, MPRIS_COVER_SIZE)),
                    None => None,
                },
                position_us: (self.state.player.position_ms * 1000) as i64,
                duration_us: (self.state.player.duration_ms * 1000) as i64,
                status,
            },
            None => TrackInfo {
                title: Seq::empty(),
                artists: Seq::empty(),
                album: None,
                art_url: None,
                position_us: 0,
                duration_us: 0,
                status,
            },
        }
    }

    pub open spec fn tray_info(self) -> TrayInfo<Seq<char>> {
        let info = self.track_info();
        TrayInfo { title: info.title, artists: info.artists, status: info.status }
    }
}

impl App {
    /// The current track, as media controls show it.
    pub fn track_info(&self) -> (r: TrackInfo<String>)
        requires
            self@.state.player.position_ms * 1000 <= i64::MAX,
            self@.state.player.duration_ms * 1000 <= i64::MAX,
        ensures
            r@ == self@.track_info(),
    {
        let status = self.state.player.playback();
        match self.state.player.current() {
            Some(song) => {
                let art_url = cover_of(&song);
                TrackInfo {
                    title: song.name,
                    artists: song.singers,
                    album: copy_opt(&song.album),
                    art_url,
                    position_us: self.state.player.position_ms() as i64 * 1000,
                    duration_us: self.state.player.duration_ms() as i64 * 1000,
                    status,
                }
            },
            None => TrackInfo {
                title: String::new(),
                artists: String::new(),
                album: None,
                art_url: None,
                position_us: 0,
                duration_us: 0,
                status,
            },
        }
    }

    /// The current track, as the tray shows it.
    pub fn tray_info(&self) -> (r: TrayInfo<String>)
        ensures
            r@ == self@.tray_info(),
    {
        let status = self.state.player.playback();
        match self.state.player.current() {
            Some(song) => TrayInfo { title: song.name, artists: song.singers, status },
            None => TrayInfo { title: String::new(), artists: String::new(), status },
        }
    }
}

} // verus!
