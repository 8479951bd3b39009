use chipy::input::{Input, InputEvent, Key, Mappings};
use chipy::keypad::Keypad;

fn held(pad: &Keypad) -> Vec<usize> {
    (0..16).filter(|k| pad.keys[*k]).collect()
}

fn down(key: Key) -> InputEvent {
    InputEvent::KeyDown { keycode: Some(key) }
}

fn up(key: Key) -> InputEvent {
    InputEvent::KeyUp { keycode: Some(key) }
}

const MAPPED: [Key; 15] = [
    Key::Num0,
    Key::Num1,
    Key::Num2,
    Key::Num3,
    Key::Num4,
    Key::Num5,
    Key::Num6,
    Key::Num7,
    Key::Num8,
    Key::Num9,
    Key::W,
    Key::A,
    Key::D,
    Key::S,
    Key::Space,
];

fn pads_of(selected: Mappings) -> Vec<u8> {
    let input = Input::new(selected);
    MAPPED
        .iter()
        .map(|key| {
            let mut pad = Keypad::new();
            input.handle_keys(&mut pad, down(*key));
            assert_eq!(held(&pad).len(), 1);
            assert!(pad.new_key);
            pad.get_last_key()
        })
        .collect()
}

#[test]
fn new_pad_is_idle() {
    let pad = Keypad::new();
    assert_eq!(held(&pad), Vec::<usize>::new());
    assert!(!pad.wait);
    assert!(!pad.new_key);
    assert_eq!(pad.last_key, 0);
    assert_eq!(pad.get_last_key(), 0);
}

#[test]
fn key_down_holds_and_latches() {
    let mut pad = Keypad::new();
    pad.set_wait();
    pad.key_down(0xA);
    assert_eq!(held(&pad), vec![0xA]);
    assert!(!pad.wait);
    assert!(pad.new_key);
    assert_eq!(pad.get_last_key(), 0xA);
    pad.key_down(0x0);
    assert_eq!(held(&pad), vec![0x0, 0xA]);
    assert_eq!(pad.get_last_key(), 0x0);
    pad.key_down(0xF);
    assert_eq!(held(&pad), vec![0x0, 0xA, 0xF]);
    assert_eq!(pad.get_last_key(), 0xF);
}

#[test]
fn key_up_releases_and_leaves_the_latch() {
    let mut pad = Keypad::new();
    pad.key_down(3);
    pad.key_down(5);
    pad.key_up(3);
    assert_eq!(held(&pad), vec![5]);
    assert!(pad.new_key);
    assert_eq!(pad.get_last_key(), 5);
    pad.set_wait();
    pad.key_up(5);
    assert_eq!(held(&pad), Vec::<usize>::new());
    assert!(pad.wait);
    assert!(!pad.new_key);
    assert_eq!(pad.get_last_key(), 5);
}

#[test]
fn set_wait_arms_the_latch() {
    let mut pad = Keypad::new();
    pad.key_down(9);
    assert!(pad.new_key);
    pad.set_wait();
    assert!(pad.wait);
    assert!(!pad.new_key);
    assert_eq!(held(&pad), vec![9]);
    assert_eq!(pad.get_last_key(), 9);
}

#[test]
fn default_mapping() {
    assert_eq!(pads_of(Mappings::Default), vec![0, 1, 2, 3, 4, 5, 6, 7, 8, 9, 3, 7, 8, 6, 0xF]);
}

#[test]
fn tetris_mapping() {
    assert_eq!(pads_of(Mappings::Tetris), vec![0, 1, 2, 3, 4, 5, 6, 7, 8, 9, 4, 5, 6, 7, 0xF]);
}

#[test]
fn alt_mapping() {
    assert_eq!(pads_of(Mappings::Alt), vec![0, 1, 2, 3, 4, 5, 6, 7, 8, 9, 8, 4, 6, 2, 0xF]);
}

#[test]
fn key_up_event_releases_the_mapped_key() {
    let input = Input::new(Mappings::Default);
    let mut pad = Keypad::new();
    input.handle_keys(&mut pad, down(Key::W));
    input.handle_keys(&mut pad, down(Key::Space));
    assert_eq!(held(&pad), vec![3, 0xF]);
    input.handle_keys(&mut pad, up(Key::W));
    assert_eq!(held(&pad), vec![0xF]);
    assert_eq!(pad.get_last_key(), 0xF);
    input.handle_keys(&mut pad, up(Key::Space));
    assert_eq!(held(&pad), Vec::<usize>::new());
}

#[test]
fn two_keys_of_one_pad_key() {
    // Under the default mapping both 3 and W are pad key 3.
    let input = Input::new(Mappings::Default);
    let mut pad = Keypad::new();
    input.handle_keys(&mut pad, down(Key::Num3));
    input.handle_keys(&mut pad, down(Key::W));
    assert_eq!(held(&pad), vec![3]);
    input.handle_keys(&mut pad, up(Key::W));
    assert_eq!(held(&pad), Vec::<usize>::new());
}

#[test]
fn other_events_leave_the_pad_alone() {
    let input = Input::new(Mappings::Alt);
    let mut pad = Keypad::new();
    pad.key_down(2);
    pad.set_wait();
    for event in [
        InputEvent::Quit,
        InputEvent::Other,
        InputEvent::KeyDown { keycode: None },
        InputEvent::KeyUp { keycode: None },
        down(Key::Other),
        down(Key::Escape),
        down(Key::F1),
        down(Key::F2),
        down(Key::F3),
        down(Key::F10),
        down(Key::Period),
        up(Key::Other),
        up(Key::Escape),
    ] {
        input.handle_keys(&mut pad, event);
        assert_eq!(held(&pad), vec![2]);
        assert!(pad.wait);
        assert!(!pad.new_key);
        assert_eq!(pad.get_last_key(), 2);
    }
}

#[test]
fn mapping_names_print() {
    assert_eq!(format!("{:?}", Mappings::Default), "Default");
    assert_eq!(format!("{:?}", Mappings::Tetris), "Tetris");
    assert_eq!(format!("{:?}", Mappings::Alt), "Alt");
}
