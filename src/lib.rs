//! Remaps the three programmable buttons of a G930 headset to keystrokes.
//!
//! The library holds the logic: decoding captured USB interrupt packets into
//! button events, and the replay state machine that turns those events into
//! key presses and releases. Capturing packets and delivering keystrokes to
//! the windowing system are left to the caller.
pub mod events;
pub mod packet_parser;
pub mod replay;
pub mod monitor;
