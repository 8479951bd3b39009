//! Whether the tone sounds, and what to tell the audio device when that
//! changes.
use vstd::prelude::*;

verus! {

/// What the audio device has to do.
#[derive(Clone, Copy, Debug, PartialEq, Eq, Structural)]
pub enum SoundAction {
    /// Start playing.
    Resume,
    /// Stop playing.
    Pause,
    /// Go on as before.
    Nothing,
}

/// The tone generator's switch. It remembers whether the device is playing,
/// so that the device is told only of changes.
#[derive(Debug)]
pub struct Sound {
    running: bool,
}

impl View for Sound {
    type V = bool;

    /// Whether the device is playing.
    closed spec fn view(&self) -> bool {
        self.running
    }
}

/// What switching to `run` asks of a device that is playing or not, as
/// `running` says.
pub open spec fn action_for(running: bool, run: bool) -> SoundAction {
    if run && !running {
        SoundAction::Resume
    } else if !run && running {
        SoundAction::Pause
    } else {
        SoundAction::Nothing
    }
}

impl Sound {
    /// A switch for a device that does not play yet.
    pub fn new() -> (sound: Sound)
        ensures
            !sound@,
    {
        Sound { running: false }
    }

    /// Whether the device is playing.
    pub fn is_running(&self) -> (running: bool)
        ensures
            running == self@,
    {
        self.running
    }

    /// Switches the tone on: the device has to resume unless it plays
    /// already.
    pub fn start(&mut self) -> (action: SoundAction)
        ensures
            final(self)@,
            action == action_for(old(self)@, true),
    {
        if !self.running {
            self.running = true;
            SoundAction::Resume
        } else {
            SoundAction::Nothing
        }
    }

    /// Switches the tone off: the device has to pause if it plays.
    pub fn stop(&mut self) -> (action: SoundAction)
        ensures
            !final(self)@,
            action == action_for(old(self)@, false),
    {
        if self.running {
            self.running = false;
            SoundAction::Pause
        } else {
            SoundAction::Nothing
        }
    }

    /// Switches the tone on or off as `run` says.
    pub fn set_state(&mut self, run: bool) -> (action: SoundAction)
        ensures
            final(self)@ == run,
            action == action_for(old(self)@, run),
    {
        if run {
            self.start()
        } else {
            self.stop()
        }
    }
}

} // verus!
