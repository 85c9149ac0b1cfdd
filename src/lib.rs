//! Bridges a chorded Bluetooth input device to a virtual keyboard.
//!
//! The library holds the logic: the profile and binding model, decoding of
//! chord notifications, dispatch to keyboard actions, device selection, and
//! the session state machine that drives discovery, streaming and shutdown.
//! Transport and keyboard-device I/O are performed by the caller, which feeds
//! events in and carries out the commands that come back.

pub mod keys;
pub mod profile;
pub mod toggle;
pub mod dispatch;
pub mod locate;
pub mod session;
