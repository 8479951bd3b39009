//! The sixteen-key pad and the latch through which a waiting program
//! learns of the next key press.
use vstd::prelude::*;

verus! {

/// Number of keys on the pad.
pub const KEYS: u8 = 16;

/// The sixteen-key hexadecimal pad, together with the latch that the
/// wait-for-key instruction reads.
#[derive(Debug)]
pub struct Keypad {
    /// Which keys are held down.
    pub keys: [bool; 16],
    /// Whether a program waits for a key.
    pub wait: bool,
    /// Whether a key went down since the latch was armed.
    pub new_key: bool,
    /// The key that went down last.
    pub last_key: u8,
}

/// What a `Keypad` holds.
#[verifier::ext_equal]
pub struct KeypadState {
    pub keys: Seq<bool>,
    pub wait: bool,
    pub new_key: bool,
    pub last_key: u8,
}

impl KeypadState {
    /// One entry for each key.
    pub open spec fn well_formed(self) -> bool {
        self.keys.len() == KEYS
    }

    /// A pad with no key held and an idle latch.
    pub open spec fn idle() -> KeypadState {
        KeypadState {
            keys: Seq::new(KEYS as nat, |k: int| false),
            wait: false,
            new_key: false,
            last_key: 0,
        }
    }

    /// The pad after `key` went down: the key is held, and the latch has
    /// stopped waiting and remembers `key` as the newest key.
    pub open spec fn key_down(self, key: u8) -> KeypadState {
        KeypadState { keys: self.keys.update(key as int, true), wait: false, new_key: true, last_key: key }
    }

    /// The pad after `key` was released. The latch is left alone.
    pub open spec fn key_up(self, key: u8) -> KeypadState {
        KeypadState { keys: self.keys.update(key as int, false), ..self }
    }

    /// The pad with its latch armed: the next key that goes down counts as
    /// new, the keys already held do not.
    pub open spec fn armed(self) -> KeypadState {
        KeypadState { wait: true, new_key: false, ..self }
    }
}

impl View for Keypad {
    type V = KeypadState;

    open spec fn view(&self) -> KeypadState {
        KeypadState {
            keys: self.keys@,
            wait: self.wait,
            new_key: self.new_key,
            last_key: self.last_key,
        }
    }
}

impl Keypad {
    /// A pad with no key held and an idle latch.
    pub fn new() -> (pad: Keypad)
        ensures
            pad@ == KeypadState::idle(),
    {
        let pad = Keypad { keys: [false; 16], wait: false, new_key: false, last_key: 0 };
        assert(pad@.keys =~= KeypadState::idle().keys);
        pad
    }

    /// Records that `key` went down.
    pub fn key_down(&mut self, key: u8)
        requires
            key < KEYS,
        ensures
            final(self)@ == old(self)@.key_down(key),
    {
        self.keys[key as usize] = true;
        self.wait = false;
        self.new_key = true;
        self.last_key = key;
    }

    /// Records that `key` was released.
    pub fn key_up(&mut self, key: u8)
        requires
            key < KEYS,
        ensures
            final(self)@ == old(self)@.key_up(key),
    {
        self.keys[key as usize] = false;
    }

    /// Arms the latch for a program that waits for a key.
    pub fn set_wait(&mut self)
        ensures
            final(self)@ == old(self)@.armed(),
    {
        self.wait = true;
        self.new_key = false;
    }

    /// The key that went down last, or 0 when none ever did.
    pub fn get_last_key(&self) -> (key: u8)
        ensures
            key == self@.last_key,
    {
        self.last_key
    }

    /// Every pad has one entry for each key.
    pub proof fn lemma_well_formed(&self)
        ensures
            self@.well_formed(),
    {
    }
}

} // verus!
