//! Shared input state for a per-frame application loop: which keys are held,
//! how far the mouse has moved since the last frame, and cooldown-gated key
//! queries that turn a held key into periodic trigger pulses.
//!
//! All state lives in one explicit context value. Every operation takes it by
//! `&mut`, so a program that shares it between threads puts it behind one lock;
//! input event rates are low enough that contention on that lock is negligible.
mod mouse;

pub use mouse::Mouse;
mod clock;
mod maps;

pub use maps::{CooldownMap, KeyMap};
mod input;

pub use input::{
    fetch_motion, get_key, get_key_with_cooldown, get_key_with_cooldown_at, ingest, InputEvent,
    InputState,
};
