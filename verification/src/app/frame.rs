//! How often the screen is drawn, how many events one frame takes, and how
//! pictures are drawn.

use vstd::prelude::*;
use crate::app::conf;
use crate::app::nav::Tab;
use crate::app::state::{App, AppView};
use crate::audio::engine::PlaybackState;
use crate::config::Config;
use crate::text::{contains, has_text, opt_str, same};

verus! {

/// Between two frames while something moves, in milliseconds.
pub const ANIMATED_TICK_MS: u64 = 33;

/// The shortest time between two frames in the simple mode, in milliseconds.
pub const LITE_TICK_MS: u64 = 200;

/// How many events are taken before the screen is drawn again.
pub const MAX_EVENTS_PER_FRAME: usize = 64;

/// The time until the next frame, in milliseconds: the time that is set, shorter
/// while something moves, and in the simple mode never short.
pub open spec fn delay(tick_ms: u64, lite_mode: bool, moving: bool) -> u64 {
    if lite_mode {
        if tick_ms < LITE_TICK_MS {
            LITE_TICK_MS
        } else {
            tick_ms
        }
    } else if moving && tick_ms > ANIMATED_TICK_MS {
        ANIMATED_TICK_MS
    } else {
        tick_ms
    }
}

fn delay_ms(tick_ms: u64, lite_mode: bool, moving: bool) -> (r: u64)
    ensures
        r == delay(tick_ms, lite_mode, moving),
{
    if lite_mode {
        if tick_ms < LITE_TICK_MS {
            LITE_TICK_MS
        } else {
            tick_ms
        }
    } else if moving && tick_ms > ANIMATED_TICK_MS {
        ANIMATED_TICK_MS
    } else {
        tick_ms
    }
}

/// The time until the next frame, in milliseconds.
pub fn frame_delay(config: &Config<String>, visualizer_animating: bool, lyric_visible: bool) -> (r:
    u64)
    ensures
        r == delay(config.tick_ms, config.lite_mode, visualizer_animating || lyric_visible),
{
    delay_ms(config.tick_ms, config.lite_mode, visualizer_animating || lyric_visible)
}

/// The simple mode takes no notice of what moves, and never draws more than five
/// frames a second.
pub proof fn simple_mode_ignores_movement(tick_ms: u64, moving: bool)
    ensures
        delay(tick_ms, true, moving) == delay(tick_ms, true, false),
        delay(tick_ms, true, moving) >= LITE_TICK_MS,
{
}

/// Movement never makes the screen slower than it is set, and what stands still is
/// drawn as often as is set.
pub proof fn movement_only_speeds_up(tick_ms: u64, moving: bool)
    ensures
        delay(tick_ms, false, moving) <= tick_ms,
        moving ==> delay(tick_ms, false, moving) <= ANIMATED_TICK_MS,
        delay(tick_ms, false, false) == tick_ms,
{
}

/// How pictures are drawn in a terminal.
#[derive(Debug, Clone, Copy, PartialEq, Eq, Structural)]
pub enum ImageProtocol {
    Kitty,
    Iterm2,
    Halfblocks,
}

/// How pictures are drawn, by what the environment says of the terminal: whether
/// it names a window of kitty, and the two names of the terminal.
pub open spec fn protocol(
    kitty_window: bool,
    term: Option<Seq<char>>,
    term_program: Option<Seq<char>>,
) -> ImageProtocol {
    if kitty_window || (term is Some && has_text(term->0, "kitty"@)) {
        ImageProtocol::Kitty
    } else if term_program == Some("iTerm.app"@) {
        ImageProtocol::Iterm2
    } else {
        ImageProtocol::Halfblocks
    }
}

/// Chooses how pictures are drawn.
pub fn image_protocol(kitty_window: bool, term: Option<&str>, term_program: Option<&str>) -> (r:
    ImageProtocol)
    ensures
        r == protocol(kitty_window, opt_str(term), opt_str(term_program)),
{
    proof {
        reveal_strlit("kitty");
    }
    let kitty = match term {
        Some(name) => contains(name, "kitty"),
        None => false,
    };
    let iterm2 = match term_program {
        Some(name) => same(name, "iTerm.app"),
        None => false,
    };
    if kitty_window || kitty {
        ImageProtocol::Kitty
    } else if iterm2 {
        ImageProtocol::Iterm2
    } else {
        ImageProtocol::Halfblocks
    }
}

impl AppView {
    /// The time until the next frame, in milliseconds. Only what is seen and plays
    /// moves.
    pub open spec fn frame_interval(self) -> u64 {
        delay(
            self.state.config.tick_ms,
            self.state.config.lite_mode,
            self.state.player.playback == PlaybackState::Playing && (self.state.screen.tab
                == Tab::Visualizer || self.state.screen.lyric_visible),
        )
    }

    /// Whether another event is taken before the screen is drawn, when so many
    /// were taken already: one is always taken where there is one, and none behind one
    /// that ended the program.
    pub open spec fn takes_more(self, taken: nat) -> bool {
        taken < MAX_EVENTS_PER_FRAME && (taken == 0 || !self.state.screen.should_quit)
    }
}

impl App {
    /// The time until the next frame, in milliseconds.
    pub fn frame_interval(&self) -> (r: u64)
        ensures
            r == self@.frame_interval(),
    {
        let playing = self.state.player.playback() == PlaybackState::Playing;
        let visualizer = playing && self.state.screen.tab() == Tab::Visualizer;
        let lyric = playing && self.state.screen.lyric_visible();
        delay_ms(
            conf::tick_ms(&self.state.config),
            conf::lite_mode(&self.state.config),
            visualizer || lyric,
        )
    }

    /// Whether another event is taken before the screen is drawn.
    pub fn drain_events(&self, taken: usize) -> (r: bool)
        ensures
            r == self@.takes_more(taken as nat),
    {
        taken < MAX_EVENTS_PER_FRAME && (taken == 0 || !self.state.screen.should_quit())
    }
}

/// An idle program is never drawn more often than is set, whatever is on the
/// screen: movement counts only while something plays.
pub proof fn silence_keeps_the_set_pace(app: AppView)
    requires
        app.state.player.playback != PlaybackState::Playing,
    ensures
        app.frame_interval() >= app.state.config.tick_ms,
{
}

/// Pictures are drawn as kitty does where the terminal is kitty, as iTerm does there, and
/// with half blocks elsewhere.
pub proof fn terminals_are_told_apart(term: Option<Seq<char>>, program: Option<Seq<char>>)
    ensures
        protocol(true, term, program) == ImageProtocol::Kitty,
        term matches Some(name) ==> (has_text(name, "kitty"@) ==> protocol(false, term, program)
            == ImageProtocol::Kitty),
        protocol(false, None, Some("iTerm.app"@)) == ImageProtocol::Iterm2,
        protocol(false, None, None) == ImageProtocol::Halfblocks,
{
}

/// Between two frames at most sixty-four events are taken, one at least, and none behind one
/// that ended the program.
pub proof fn frames_are_not_held_up(app: AppView, taken: nat)
    ensures
        app.takes_more(0),
        taken >= 64 ==> !app.takes_more(taken),
        0 < taken && app.state.screen.should_quit ==> !app.takes_more(taken),
        0 < taken < 64 && !app.state.screen.should_quit ==> app.takes_more(taken),
{
}

/// What moves is drawn thirty times a second while it plays and is seen; otherwise as often
/// as is set.
pub proof fn frames_follow_what_moves(app: AppView)
    requires
        !app.state.config.lite_mode,
        app.state.config.tick_ms >= 33,
    ensures
        app.state.player.playback == PlaybackState::Playing && (app.state.screen.tab
            == Tab::Visualizer || app.state.screen.lyric_visible) ==> app.frame_interval() == 33,
        app.state.player.playback != PlaybackState::Playing ==> app.frame_interval()
            == app.state.config.tick_ms,
{
}

} // verus!
