//! What is playing and how.

use vstd::prelude::*;
use crate::app::panes::{CoverArt, LoadState, LyricPane};
use crate::audio::engine::PlaybackState;
use crate::model::{index_at, line_at, LyricLine, Song};
use crate::text::same;

verus! {

/// What is playing and how.
#[derive(Debug)]
pub struct Player<S = String, L = Vec<LyricLine>, D = Vec<String>> {
    pub playback: PlaybackState,
    pub position_ms: u64,
    pub duration_ms: u64,
    /// The volume, by its bit pattern.
    pub volume: u32,
    pub volume_before_mute: Option<u32>,
    pub current: Option<Song>,
    pub current_is_trial: bool,
    /// Where a song is to be resumed.
    pub resume: Option<(S, u64)>,
    pub download_progress: Option<(u64, Option<u64>)>,
    pub lyric: LyricPane<S, L>,
    pub cover: CoverArt<S>,
    pub output_device: S,
    pub audio_devices: D,
}

impl View for Player<String, Vec<LyricLine>, Vec<String>> {
    type V = Player<Seq<char>, Seq<LyricLine>, Seq<String>>;

    open spec fn view(&self) -> Player<Seq<char>, Seq<LyricLine>, Seq<String>> {
        Player {
            playback: self.playback,
            position_ms: self.position_ms,
            duration_ms: self.duration_ms,
            volume: self.volume,
            volume_before_mute: self.volume_before_mute,
            current: self.current,
            current_is_trial: self.current_is_trial,
            resume: match self.resume {
                Some((hash, ms)) => Some((hash@, ms)),
                None => None,
            },
            download_progress: self.download_progress,
            lyric: self.lyric@,
            cover: self.cover@,
            output_device: self.output_device@,
            audio_devices: self.audio_devices@,
        }
    }
}

/// The view of a player.
pub type PlayerView = Player<Seq<char>, Seq<LyricLine>, Seq<String>>;

/// The view of the player, folded: what is said of the whole program need not
/// look inside.
#[verifier::opaque]
pub open spec fn player_view(player: Player<String, Vec<LyricLine>, Vec<String>>) -> Player<
    Seq<char>,
    Seq<LyricLine>,
    Seq<String>,
> {
    player@
}

impl Player<Seq<char>, Seq<LyricLine>, Seq<String>> {
    /// Nothing has been played yet.
    pub open spec fn silent(volume: u32, audio_devices: Seq<String>) -> Self {
        Player {
            playback: PlaybackState::Stopped,
            position_ms: 0,
            duration_ms: 0,
            volume,
            volume_before_mute: None,
            current: None,
            current_is_trial: false,
            resume: None,
            download_progress: None,
            lyric: LyricPane {
                hash: None,
                lines: Seq::empty(),
                load: LoadState::Idle,
                active_line: None,
            },
            cover: CoverArt::none(),
            output_device: Seq::empty(),
            audio_devices,
        }
    }

    /// The song of an earlier session stands ready at its place; it does not play
    /// by itself.
    pub open spec fn recalled(self, song: Song, position_ms: u64) -> Self {
        Player {
            current: Some(song),
            duration_ms: song.duration_ms,
            position_ms,
            resume: if position_ms > 0 {
                Some((song.hash@, position_ms))
            } else {
                self.resume
            },
            ..self
        }
    }

    /// Whether a song with this hash is playing.
    pub open spec fn plays(self, hash: Seq<char>) -> bool {
        self.current matches Some(song) && song.hash@ == hash
    }

    /// Shows a song from a place on: what belonged to the song before is dropped.
    pub open spec fn staged(self, song: Song, start_at_ms: u64) -> Self {
        Player {
            current: Some(song),
            duration_ms: song.duration_ms,
            position_ms: start_at_ms,
            download_progress: None,
            lyric: LyricPane {
                hash: Some(song.hash@),
                lines: Seq::empty(),
                load: LoadState::Idle,
                active_line: None,
            },
            cover: if self.cover.of(song.hash@) {
                self.cover
            } else {
                CoverArt::none()
            },
            ..self
        }
    }

    /// The place at which a song is to be resumed.
    pub open spec fn resume_place(self, song: Song) -> u64 {
        match self.resume {
            Some((hash, ms)) => if hash == song.hash@ {
                ms
            } else {
                0
            },
            None => 0,
        }
    }

    /// The place of the current song is kept to be resumed.
    pub open spec fn marked(self) -> Self {
        match self.current {
            Some(song) => if self.position_ms == 0 {
                self
            } else {
                Player { resume: Some((song.hash@, self.position_ms)), ..self }
            },
            None => self,
        }
    }

    pub open spec fn unresumed(self) -> Self {
        Player { resume: None, ..self }
    }

    pub open spec fn loading_lyric(self) -> Self {
        Player { lyric: LyricPane { load: LoadState::Loading, ..self.lyric }, ..self }
    }

    /// Lyrics for a song have come, or could not be had; those of a song that is
    /// no longer shown are passed over.
    pub open spec fn with_lines(
        self,
        hash: Seq<char>,
        lines: Seq<LyricLine>,
        load: LoadState<Seq<char>>,
    ) -> Self {
        if self.lyric.hash != Some(hash) {
            self
        } else {
            Player {
                lyric: LyricPane { lines, load, active_line: None, ..self.lyric },
                ..self
            }
        }
    }

    /// The line that is sung at a place of the lyrics.
    pub open spec fn sung_at(self, place: int) -> Self {
        Player {
            lyric: LyricPane { active_line: line_at(self.lyric.lines, place), ..self.lyric },
            ..self
        }
    }

    pub open spec fn bare(self) -> Self {
        Player { cover: CoverArt::none(), ..self }
    }

    /// Nothing is playing, at the start of nothing.
    pub open spec fn off_stage(self) -> Self {
        Player {
            current: None,
            playback: PlaybackState::Stopped,
            position_ms: 0,
            duration_ms: 0,
            ..self
        }
    }

    pub open spec fn volumes(self, volume: u32, before: Option<u32>) -> Self {
        Player { volume, volume_before_mute: before, ..self }
    }
}

impl Player<String, Vec<LyricLine>, Vec<String>> {
    pub fn new(volume: u32, audio_devices: Vec<String>) -> (r: Self)
        ensures
            player_view(r) == PlayerView::silent(volume, audio_devices@),
    {
        proof {
            reveal(player_view);
        }
        Player {
            playback: PlaybackState::Stopped,
            position_ms: 0,
            duration_ms: 0,
            volume,
            volume_before_mute: None,
            current: None,
            current_is_trial: false,
            resume: None,
            download_progress: None,
            lyric: LyricPane {
                hash: None,
                lines: Vec::new(),
                load: LoadState::Idle,
                active_line: None,
            },
            cover: CoverArt::empty(),
            output_device: String::new(),
            audio_devices,
        }
    }

    /// Takes up the song of an earlier session.
    pub fn recall(&mut self, song: Song, position_ms: u64)
        ensures
            player_view(*final(self)) == player_view(*old(self)).recalled(song, position_ms),
    {
        proof {
            reveal(player_view);
        }
        self.duration_ms = song.duration_ms;
        self.position_ms = position_ms;
        if position_ms > 0 {
            self.resume = Some((song.hash.clone(), position_ms));
        }
        self.current = Some(song);
    }

    pub fn playback(&self) -> (r: PlaybackState)
        ensures
            r == player_view(*self).playback,
    {
        proof {
            reveal(player_view);
        }
        self.playback
    }

    pub fn position_ms(&self) -> (r: u64)
        ensures
            r == player_view(*self).position_ms,
    {
        proof {
            reveal(player_view);
        }
        self.position_ms
    }

    pub fn duration_ms(&self) -> (r: u64)
        ensures
            r == player_view(*self).duration_ms,
    {
        proof {
            reveal(player_view);
        }
        self.duration_ms
    }

    pub fn volume(&self) -> (r: u32)
        ensures
            r == player_view(*self).volume,
    {
        proof {
            reveal(player_view);
        }
        self.volume
    }

    pub fn volume_before_mute(&self) -> (r: Option<u32>)
        ensures
            r == player_view(*self).volume_before_mute,
    {
        proof {
            reveal(player_view);
        }
        self.volume_before_mute
    }

    pub fn current_is_trial(&self) -> (r: bool)
        ensures
            r == player_view(*self).current_is_trial,
    {
        proof {
            reveal(player_view);
        }
        self.current_is_trial
    }

    pub fn set_playback(&mut self, playback: PlaybackState)
        ensures
            player_view(*final(self)) == (Player { playback, ..player_view(*old(self)) }),
    {
        proof {
            reveal(player_view);
        }
        self.playback = playback;
    }

    pub fn set_position_ms(&mut self, position_ms: u64)
        ensures
            player_view(*final(self)) == (Player { position_ms, ..player_view(*old(self)) }),
    {
        proof {
            reveal(player_view);
        }
        self.position_ms = position_ms;
    }

    pub fn set_duration_ms(&mut self, duration_ms: u64)
        ensures
            player_view(*final(self)) == (Player { duration_ms, ..player_view(*old(self)) }),
    {
        proof {
            reveal(player_view);
        }
        self.duration_ms = duration_ms;
    }

    pub fn set_volume(&mut self, volume: u32)
        ensures
            player_view(*final(self)) == (Player { volume, ..player_view(*old(self)) }),
    {
        proof {
            reveal(player_view);
        }
        self.volume = volume;
    }

    pub fn set_current_is_trial(&mut self, current_is_trial: bool)
        ensures
            player_view(*final(self)) == (Player { current_is_trial, ..player_view(*old(self)) }),
    {
        proof {
            reveal(player_view);
        }
        self.current_is_trial = current_is_trial;
    }

    pub fn set_download_progress(&mut self, download_progress: Option<(u64, Option<u64>)>)
        ensures
            player_view(*final(self)) == (Player { download_progress, ..player_view(*old(self)) }),
    {
        proof {
            reveal(player_view);
        }
        self.download_progress = download_progress;
    }

    pub fn set_cover(&mut self, cover: CoverArt<String>)
        ensures
            player_view(*final(self)) == (Player { cover: cover@, ..player_view(*old(self)) }),
    {
        proof {
            reveal(player_view);
        }
        self.cover = cover;
    }

    pub fn set_output_device(&mut self, output_device: String)
        ensures
            player_view(*final(self)) == (Player {
                output_device: output_device@,
                ..player_view(*old(self))
            }),
    {
        proof {
            reveal(player_view);
        }
        self.output_device = output_device;
    }

    /// Whether a song with this hash is playing.
    pub fn plays(&self, hash: &str) -> (r: bool)
        ensures
            r == player_view(*self).plays(hash@),
    {
        proof {
            reveal(player_view);
        }
        match &self.current {
            Some(song) => same(song.hash.as_str(), hash),
            None => false,
        }
    }

    pub fn has_current(&self) -> (r: bool)
        ensures
            r == (player_view(*self).current is Some),
    {
        proof {
            reveal(player_view);
        }
        self.current.is_some()
    }

    /// The song that is playing.
    pub fn current(&self) -> (r: Option<Song>)
        ensures
            r == player_view(*self).current,
    {
        proof {
            reveal(player_view);
        }
        match &self.current {
            Some(song) => Some(song.clone()),
            None => None,
        }
    }

    /// Shows a song from a place on.
    pub fn stage(&mut self, song: &Song, start_at_ms: u64)
        ensures
            player_view(*final(self)) == player_view(*old(self)).staged(*song, start_at_ms),
    {
        proof {
            reveal(player_view);
        }
        if !self.cover.belongs_to(song.hash.as_str()) {
            self.cover = CoverArt::empty();
        }
        self.current = Some(song.clone());
        self.duration_ms = song.duration_ms;
        self.position_ms = start_at_ms;
        self.download_progress = None;
        self.lyric = LyricPane {
            hash: Some(song.hash.clone()),
            lines: Vec::new(),
            load: LoadState::Idle,
            active_line: None,
        };
    }

    pub fn resume_place(&self, song: &Song) -> (r: u64)
        ensures
            r == player_view(*self).resume_place(*song),
    {
        proof {
            reveal(player_view);
        }
        match &self.resume {
            Some((hash, ms)) => if same(hash.as_str(), song.hash.as_str()) {
                *ms
            } else {
                0
            },
            None => 0,
        }
    }

    pub fn mark_resume_point(&mut self)
        ensures
            player_view(*final(self)) == player_view(*old(self)).marked(),
    {
        proof {
            reveal(player_view);
        }
        let position_ms: u64 = self.position_ms;
        match &self.current {
            Some(song) => {
                if position_ms != 0 {
                    let hash = song.hash.clone();
                    self.resume = Some((hash, position_ms));
                }
            },
            None => {},
        }
    }

    pub fn forget_resume(&mut self)
        ensures
            player_view(*final(self)) == player_view(*old(self)).unresumed(),
    {
        proof {
            reveal(player_view);
        }
        self.resume = None;
    }

    pub fn begin_lyric(&mut self)
        ensures
            player_view(*final(self)) == player_view(*old(self)).loading_lyric(),
    {
        proof {
            reveal(player_view);
        }
        self.lyric.load = LoadState::Loading;
    }

    /// Takes the lyrics of a song, or why they could not be had.
    pub fn set_lines(&mut self, hash: &str, lines: Vec<LyricLine>, load: LoadState<String>)
        ensures
            player_view(*final(self)) == player_view(*old(self)).with_lines(hash@, lines@, load@),
    {
        proof {
            reveal(player_view);
        }
        let shown = match &self.lyric.hash {
            Some(own) => same(own.as_str(), hash),
            None => false,
        };
        if shown {
            self.lyric.lines = lines;
            self.lyric.load = load;
            self.lyric.active_line = None;
        }
    }

    pub fn sing_at(&mut self, place: u64)
        ensures
            player_view(*final(self)) == player_view(*old(self)).sung_at(place as int),
    {
        proof {
            reveal(player_view);
        }
        self.lyric.active_line = index_at(&self.lyric.lines, place);
    }

    /// Whether the cover of this song is there.
    pub fn has_cover(&self, hash: &str) -> (r: bool)
        ensures
            r == (player_view(*self).cover.of(hash@) && player_view(*self).cover.aspect is Some),
    {
        proof {
            reveal(player_view);
        }
        self.cover.belongs_to(hash) && self.cover.aspect.is_some()
    }

    /// Whether a cover is assigned to some song.
    pub fn shows_cover(&self) -> (r: bool)
        ensures
            r == (player_view(*self).cover.hash matches Some(hash) && hash.len() > 0),
    {
        proof {
            reveal(player_view);
        }
        match &self.cover.hash {
            Some(hash) => !hash.as_str().is_empty(),
            None => false,
        }
    }

    pub fn drop_cover(&mut self)
        ensures
            player_view(*final(self)) == player_view(*old(self)).bare(),
    {
        self.set_cover(CoverArt::empty());
    }

    pub fn leave_stage(&mut self)
        ensures
            player_view(*final(self)) == player_view(*old(self)).off_stage(),
    {
        proof {
            reveal(player_view);
        }
        self.current = None;
        self.playback = PlaybackState::Stopped;
        self.position_ms = 0;
        self.duration_ms = 0;
    }

    pub fn set_volumes(&mut self, volume: u32, before: Option<u32>)
        ensures
            player_view(*final(self)) == player_view(*old(self)).volumes(volume, before),
    {
        proof {
            reveal(player_view);
        }
        self.volume = volume;
        self.volume_before_mute = before;
    }

    /// Whether no output device was reported yet.
    pub fn has_no_device(&self) -> (r: bool)
        ensures
            r == (player_view(*self).output_device.len() == 0),
    {
        proof {
            reveal(player_view);
        }
        self.output_device.as_str().is_empty()
    }

    pub fn devices(&self) -> (r: &Vec<String>)
        ensures
            r@ == player_view(*self).audio_devices,
    {
        proof {
            reveal(player_view);
        }
        &self.audio_devices
    }
}

} // verus!
