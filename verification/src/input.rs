//! From the keyboard to the pad: the key mappings, and what a keyboard
//! event does to the pad under a mapping.
use crate::keypad::{Keypad, KeypadState, KEYS};
use vstd::prelude::*;

verus! {

/// The keys of the keyboard that matter to the machine or to its host. Any
/// other key is `Other`.
#[derive(Clone, Copy, Debug, PartialEq, Eq, Structural)]
pub enum Key {
    Num0,
    Num1,
    Num2,
    Num3,
    Num4,
    Num5,
    Num6,
    Num7,
    Num8,
    Num9,
    W,
    A,
    D,
    S,
    Space,
    Escape,
    F1,
    F2,
    F3,
    F10,
    Period,
    Other,
}

/// What the host's event queue hands over.
#[derive(Clone, Copy, Debug, PartialEq, Eq, Structural)]
pub enum InputEvent {
    /// The user asked to leave.
    Quit,
    /// A key went down. `None` stands for a key without a code.
    KeyDown { keycode: Option<Key> },
    /// A key was released.
    KeyUp { keycode: Option<Key> },
    /// Anything else.
    Other,
}

/// One entry of a mapping: the keyboard key `key` is the pad's key
/// `keypad`.
#[derive(Clone, Copy, Debug, PartialEq, Eq, Structural)]
pub struct KeyMapping {
    pub key: Key,
    pub keypad: u8,
}

/// The key mappings to choose from.
#[derive(Clone, Copy, Debug, PartialEq, Eq, Structural)]
pub enum Mappings {
    Default,
    Tetris,
    Alt,
}

/// Number of entries of each mapping.
pub const MAPPING_LEN: usize = 15;

/// The keyboard key of entry `k`, the same in every mapping: the ten
/// digits, then W, A, D, S and the space bar.
pub open spec fn mapped_key(k: int) -> Key {
    if k == 0 {
        Key::Num0
    } else if k == 1 {
        Key::Num1
    } else if k == 2 {
        Key::Num2
    } else if k == 3 {
        Key::Num3
    } else if k == 4 {
        Key::Num4
    } else if k == 5 {
        Key::Num5
    } else if k == 6 {
        Key::Num6
    } else if k == 7 {
        Key::Num7
    } else if k == 8 {
        Key::Num8
    } else if k == 9 {
        Key::Num9
    } else if k == 10 {
        Key::W
    } else if k == 11 {
        Key::A
    } else if k == 12 {
        Key::D
    } else if k == 13 {
        Key::S
    } else {
        Key::Space
    }
}

/// The pad keys of W, A, D and S under each mapping.
pub open spec fn letter_pads(selected: Mappings) -> (u8, u8, u8, u8) {
    match selected {
        Mappings::Tetris => (4, 5, 6, 7),
        Mappings::Alt => (8, 4, 6, 2),
        Mappings::Default => (3, 7, 8, 6),
    }
}

/// The pad key of entry `k` under a mapping: each digit is its own pad key,
/// the letters are what `letter_pads` says, and the space bar is F.
pub open spec fn mapped_pad(selected: Mappings, k: int) -> u8 {
    if 0 <= k < 10 {
        k as u8
    } else if k == 10 {
        letter_pads(selected).0
    } else if k == 11 {
        letter_pads(selected).1
    } else if k == 12 {
        letter_pads(selected).2
    } else if k == 13 {
        letter_pads(selected).3
    } else {
        0xF
    }
}

/// The entries of a mapping, in order.
pub open spec fn mapping_table(selected: Mappings) -> Seq<KeyMapping> {
    Seq::new(
        MAPPING_LEN as nat,
        |k: int| KeyMapping { key: mapped_key(k), keypad: mapped_pad(selected, k) },
    )
}

/// The pad after `key` went down under `mapping`: every entry for `key`,
/// in order, presses its pad key.
pub open spec fn after_key_down(mapping: Seq<KeyMapping>, pad: KeypadState, key: Key) -> KeypadState
    decreases mapping.len(),
{
    if mapping.len() == 0 {
        pad
    } else {
        let so_far = after_key_down(mapping.drop_last(), pad, key);
        if mapping.last().key == key {
            so_far.key_down(mapping.last().keypad)
        } else {
            so_far
        }
    }
}

/// The pad after `key` was released under `mapping`: every entry for `key`,
/// in order, releases its pad key.
pub open spec fn after_key_up(mapping: Seq<KeyMapping>, pad: KeypadState, key: Key) -> KeypadState
    decreases mapping.len(),
{
    if mapping.len() == 0 {
        pad
    } else {
        let so_far = after_key_up(mapping.drop_last(), pad, key);
        if mapping.last().key == key {
            so_far.key_up(mapping.last().keypad)
        } else {
            so_far
        }
    }
}

/// The pad after an event under `mapping`. Only keys with a code that go
/// down or up touch the pad.
pub open spec fn after_event(mapping: Seq<KeyMapping>, pad: KeypadState, event: InputEvent) -> KeypadState {
    match event {
        InputEvent::KeyDown { keycode: Some(key) } => after_key_down(mapping, pad, key),
        InputEvent::KeyUp { keycode: Some(key) } => after_key_up(mapping, pad, key),
        _ => pad,
    }
}

/// The mapping in use.
pub struct Input {
    mapping: Vec<KeyMapping>,
}

impl View for Input {
    type V = Seq<KeyMapping>;

    closed spec fn view(&self) -> Seq<KeyMapping> {
        self.mapping@
    }
}

impl Input {
    /// Every entry names a key that the pad has.
    #[verifier::type_invariant]
    spec fn well_formed(self) -> bool {
        forall|k: int| 0 <= k < self.mapping@.len() ==> (#[trigger] self.mapping@[k]).keypad < KEYS
    }

    /// The mapping `selected`.
    pub fn new(selected: Mappings) -> (input: Input)
        ensures
            input@ == mapping_table(selected),
    {
        let keys: [Key; 15] = [
            Key::Num0,
            Key::Num1,
            Key::Num2,
            Key::Num3,
            Key::Num4,
            Key::Num5,
            Key::Num6,
            Key::Num7,
            Key::Num8,
            Key::Num9,
            Key::W,
            Key::A,
            Key::D,
            Key::S,
            Key::Space,
        ];
        let pads: [u8; 15] = match selected {
            Mappings::Tetris => [0, 1, 2, 3, 4, 5, 6, 7, 8, 9, 4, 5, 6, 7, 0xF],
            Mappings::Alt => [0, 1, 2, 3, 4, 5, 6, 7, 8, 9, 8, 4, 6, 2, 0xF],
            Mappings::Default => [0, 1, 2, 3, 4, 5, 6, 7, 8, 9, 3, 7, 8, 6, 0xF],
        };
        let mut mapping: Vec<KeyMapping> = Vec::new();
        let mut x: usize = 0;
        while x < MAPPING_LEN
            invariant
                x <= MAPPING_LEN,
                mapping@.len() == x,
                forall|k: int| 0 <= k < 15 ==> keys@[k] == mapped_key(k),
                forall|k: int| 0 <= k < 15 ==> pads@[k] == mapped_pad(selected, k),
                forall|k: int| 0 <= k < x ==> mapping@[k] == mapping_table(selected)[k],
            decreases MAPPING_LEN - x,
        {
            mapping.push(KeyMapping { key: keys[x], keypad: pads[x] });
            x += 1;
        }
        assert(mapping@ =~= mapping_table(selected));
        Input { mapping }
    }

    /// Passes a keyboard event on to the pad: the pad keys that the mapping
    /// gives for the event's key go down or up with it.
    pub fn handle_keys(&self, keypad: &mut Keypad, event: InputEvent)
        ensures
            final(keypad)@ == after_event(self@, old(keypad)@, event),
    {
        proof {
            use_type_invariant(self);
        }
        match event {
            InputEvent::KeyDown { keycode } => {
                match keycode {
                    Some(pressed) => {
                        let mut x: usize = 0;
                        while x < self.mapping.len()
                            invariant
                                x <= self.mapping.len(),
                                forall|k: int|
                                    0 <= k < self.mapping@.len() ==> (
                                    #[trigger] self.mapping@[k]).keypad < KEYS,
                                keypad@ == after_key_down(
                                    self.mapping@.take(x as int),
                                    old(keypad)@,
                                    pressed,
                                ),
                            decreases self.mapping.len() - x,
                        {
                            assert(self.mapping@.take(x + 1).drop_last() =~= self.mapping@.take(
                                x as int,
                            ));
                            if pressed == self.mapping[x].key {
                                keypad.key_down(self.mapping[x].keypad);
                            }
                            x += 1;
                        }
                        assert(self.mapping@.take(x as int) =~= self.mapping@);
                    },
                    _ => {},
                }
            },
            InputEvent::KeyUp { keycode } => {
                match keycode {
                    Some(released) => {
                        let mut x: usize = 0;
                        while x < self.mapping.len()
                            invariant
                                x <= self.mapping.len(),
                                forall|k: int|
                                    0 <= k < self.mapping@.len() ==> (
                                    #[trigger] self.mapping@[k]).keypad < KEYS,
                                keypad@ == after_key_up(
                                    self.mapping@.take(x as int),
                                    old(keypad)@,
                                    released,
                                ),
                            decreases self.mapping.len() - x,
                        {
                            assert(self.mapping@.take(x + 1).drop_last() =~= self.mapping@.take(
                                x as int,
                            ));
                            if released == self.mapping[x].key {
                                keypad.key_up(self.mapping[x].keypad);
                            }
                            x += 1;
                        }
                        assert(self.mapping@.take(x as int) =~= self.mapping@);
                    },
                    _ => {},
                }
            },
            _ => {},
        }
    }
}

} // verus!
