//! A virtual machine for CHIP-8 programs: sixteen byte-wide registers, 4096
//! bytes of memory, a call stack, two timers, a 64 by 32 display and a
//! sixteen-key pad.
//!
//! `cpu` holds the machine: `cpu::instruction` decodes instruction words,
//! `cpu::state` says as a mathematical function what one instruction cycle
//! does, `cpu::cpu` is the engine that is proved to do just that, `cpu::alu`
//! its arithmetic, and `cpu::laws` what follows for every machine.
//! `screen` and `keypad` are the display and the pad. `input`, `sound` and
//! `host` hold what a host program decides between the machine and its
//! window, keyboard, speaker and clock.
pub mod cpu;
pub mod host;
pub mod input;
pub mod keypad;
pub mod screen;
pub mod sound;
