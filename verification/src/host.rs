//! The decisions of the host loop: what a keyboard event asks of the host,
//! and when the machine and the display are due.
use crate::input::{InputEvent, Key, Mappings};
use vstd::prelude::*;

verus! {

/// What an event asks of the host itself, before the pad sees it.
#[derive(Clone, Copy, Debug, PartialEq, Eq, Structural)]
pub enum HostCommand {
    /// Leave the loop.
    Quit,
    /// Switch to another key mapping.
    SelectMapping(Mappings),
    /// Build the machine anew from the program image.
    Reset,
    /// Nothing for the host.
    Nothing,
}

/// Steps of the machine are this many microseconds apart.
pub const STEP_MICROSECONDS: u64 = 555;

/// Frames are more than this many milliseconds apart.
pub const FRAME_MILLISECONDS: u64 = 8;

/// What `event` asks of the host: leaving on a quit event or Escape, a
/// mapping on F1 (default), F2 (alternative) and F3 (Tetris), a reset on
/// F10 and on the period key.
pub open spec fn command_for(event: InputEvent) -> HostCommand {
    match event {
        InputEvent::Quit => HostCommand::Quit,
        InputEvent::KeyDown { keycode: Some(Key::Escape) } => HostCommand::Quit,
        InputEvent::KeyDown { keycode: Some(Key::F1) } => HostCommand::SelectMapping(
            Mappings::Default,
        ),
        InputEvent::KeyDown { keycode: Some(Key::F2) } => HostCommand::SelectMapping(Mappings::Alt),
        InputEvent::KeyDown { keycode: Some(Key::F3) } => HostCommand::SelectMapping(
            Mappings::Tetris,
        ),
        InputEvent::KeyDown { keycode: Some(Key::F10) } => HostCommand::Reset,
        InputEvent::KeyDown { keycode: Some(Key::Period) } => HostCommand::Reset,
        _ => HostCommand::Nothing,
    }
}

/// Whether the machine is due for a step: more ticks of the host's counter
/// have passed since the last step than `STEP_MICROSECONDS` take, the
/// counter running at `frequency` ticks per second. A counter that ran
/// backwards makes nothing due.
pub open spec fn step_is_due(now: u64, last_step: u64, frequency: u64) -> bool {
    now - last_step > (frequency / 1000 / 1000) * STEP_MICROSECONDS
}

/// Whether a frame is due: more than `FRAME_MILLISECONDS` whole
/// milliseconds have passed since the last frame. A counter that stands
/// still or ran backwards makes nothing due.
pub open spec fn frame_is_due(now: u64, last_frame: u64, frequency: u64) -> bool {
    frequency > 0 && now >= last_frame && ((now - last_frame) * 1000) / (frequency as int)
        > FRAME_MILLISECONDS
}

/// What `event` asks of the host.
pub fn host_command(event: InputEvent) -> (command: HostCommand)
    ensures
        command == command_for(event),
{
    match event {
        InputEvent::Quit => HostCommand::Quit,
        InputEvent::KeyDown { keycode: Some(Key::Escape) } => HostCommand::Quit,
        InputEvent::KeyDown { keycode: Some(Key::F1) } => HostCommand::SelectMapping(
            Mappings::Default,
        ),
        InputEvent::KeyDown { keycode: Some(Key::F2) } => HostCommand::SelectMapping(Mappings::Alt),
        InputEvent::KeyDown { keycode: Some(Key::F3) } => HostCommand::SelectMapping(
            Mappings::Tetris,
        ),
        InputEvent::KeyDown { keycode: Some(Key::F10) } => HostCommand::Reset,
        InputEvent::KeyDown { keycode: Some(Key::Period) } => HostCommand::Reset,
        _ => HostCommand::Nothing,
    }
}

/// Whether the machine is due for a step.
pub fn step_due(now: u64, last_step: u64, frequency: u64) -> (due: bool)
    ensures
        due == step_is_due(now, last_step, frequency),
{
    let pause: u64 = (frequency / 1000 / 1000) * STEP_MICROSECONDS;
    now > last_step && now - last_step > pause
}

/// Whether a frame is due.
pub fn frame_due(now: u64, last_frame: u64, frequency: u64) -> (due: bool)
    ensures
        due == frame_is_due(now, last_frame, frequency),
{
    if frequency == 0 || now < last_frame {
        return false;
    }
    let elapsed: u128 = (now - last_frame) as u128 * 1000;
    elapsed / (frequency as u128) > FRAME_MILLISECONDS as u128
}

} // verus!
