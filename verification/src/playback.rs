//! Playback state, command dispatch, and the fixed-interval stepping
//! discipline that decides when autoplay advances a generation.
//!
//! The functions here are pure decisions from state and event to next state
//! and action; reading the keyboard, the clock, and the terminal is the
//! caller's business. The one exception is [`get_time_now`], the clock read
//! itself.

use vstd::prelude::*;

verus! {

/// Milliseconds between automatic generation advances during autoplay.
pub const FRAME_INTERVAL_MS: u64 = 200;

/// A decoded single-key command.
#[derive(Clone, Copy, Debug, PartialEq, Eq, Structural)]
pub enum Command {
    /// Leave the program.
    Quit,
    /// Clear the screen without touching the grid.
    ClearScreen,
    /// Begin autoplay and paint the current generation.
    Start,
    /// Redraw the idle banner.
    ShowBanner,
    /// Any other byte: ignored.
    Other,
}

/// What the caller should do to the terminal after dispatching a command.
#[derive(Clone, Copy, Debug, PartialEq, Eq, Structural)]
pub enum Action {
    /// Nothing to draw.
    DoNothing,
    /// Clear the whole screen.
    ClearScreen,
    /// Paint the current generation.
    PaintState,
    /// Draw the idle banner.
    ShowBanner,
    /// Exit the program.
    Quit,
}

/// Playback state: whether autoplay is running, and when the last
/// generation advance happened (monotonic wall-clock milliseconds).
#[derive(Clone, Copy, Debug, PartialEq, Eq, Structural)]
pub struct Playback {
    pub playing: bool,
    pub last_step_time: u64,
}

/// The command bound to each input byte: `q` quits, `c` clears, `s` starts
/// autoplay, `a` shows the banner; every other byte is ignored.
pub open spec fn decode_spec(b: u8) -> Command {
    if b == 'q' as u8 {
        Command::Quit
    } else if b == 'c' as u8 {
        Command::ClearScreen
    } else if b == 's' as u8 {
        Command::Start
    } else if b == 'a' as u8 {
        Command::ShowBanner
    } else {
        Command::Other
    }
}

/// Decodes one raw input byte into its command.
pub fn decode_command(b: u8) -> (c: Command)
    ensures
        c == decode_spec(b),
{
    if b == 'q' as u8 {
        Command::Quit
    } else if b == 'c' as u8 {
        Command::ClearScreen
    } else if b == 's' as u8 {
        Command::Start
    } else if b == 'a' as u8 {
        Command::ShowBanner
    } else {
        Command::Other
    }
}

/// The draw action each command asks for.
pub open spec fn action_for(cmd: Command) -> Action {
    match cmd {
        Command::Quit => Action::Quit,
        Command::ClearScreen => Action::ClearScreen,
        Command::Start => Action::PaintState,
        Command::ShowBanner => Action::ShowBanner,
        Command::Other => Action::DoNothing,
    }
}

/// The playback state after a command: `Start` begins autoplay and records
/// `now` as the reference point of the frame clock; no other command touches
/// the state.
pub open spec fn playback_after(pb: Playback, cmd: Command, now: u64) -> Playback {
    if cmd == Command::Start {
        Playback { playing: true, last_step_time: now }
    } else {
        pb
    }
}

/// Dispatches one decoded command: updates the playback state and returns
/// the draw action the caller owes the terminal.
pub fn apply_command(pb: &mut Playback, cmd: Command, now: u64) -> (act: Action)
    ensures
        act == action_for(cmd),
        *final(pb) == playback_after(*old(pb), cmd, now),
{
    match cmd {
        Command::Quit => Action::Quit,
        Command::ClearScreen => Action::ClearScreen,
        Command::Start => {
            pb.playing = true;
            pb.last_step_time = now;
            Action::PaintState
        },
        Command::ShowBanner => Action::ShowBanner,
        Command::Other => Action::DoNothing,
    }
}

/// Whether a generation advance is due: autoplay is running and more than
/// one frame interval has elapsed since the last advance.
pub open spec fn step_due(pb: Playback, now: u64) -> bool {
    pb.playing && now > pb.last_step_time + FRAME_INTERVAL_MS
}

/// One check of the frame clock. Exactly when a step is due, the reference
/// point advances by one frame interval — not to `now`, so a long pause is
/// not silently absorbed, and never twice for one elapsed interval — and the
/// caller owes one evolve-and-paint cycle.
pub fn tick(pb: &mut Playback, now: u64) -> (step: bool)
    ensures
        step == step_due(*old(pb), now),
        step ==> *final(pb) == (Playback {
            playing: old(pb).playing,
            last_step_time: (old(pb).last_step_time + FRAME_INTERVAL_MS) as u64,
        }),
        !step ==> *final(pb) == *old(pb),
{
    if pb.playing && now > pb.last_step_time && now - pb.last_step_time > FRAME_INTERVAL_MS {
        pb.last_step_time = pb.last_step_time + FRAME_INTERVAL_MS;
        true
    } else {
        false
    }
}

/// Milliseconds since the Unix epoch, read from the system clock.
///
/// Relies on `std::time::SystemTime::now` and `Duration::as_millis`. The
/// result depends on the clock, so nothing is promised of it; a clock set
/// before the epoch reads as zero rather than failing.
#[verifier::external_body]
pub fn get_time_now() -> (ms: u64) {
    match std::time::SystemTime::now().duration_since(std::time::UNIX_EPOCH) {
        Ok(d) => d.as_millis() as u64,
        Err(_) => 0,
    }
}

} // verus!
