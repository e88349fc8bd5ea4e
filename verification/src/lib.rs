//! Remote CW keying transport: frame codec, sender and keyer state
//! machines, session bookkeeping, authentication and device configuration.

pub mod ascii;
pub mod auth;
pub mod config;
pub mod esp32;
pub mod frame;
pub mod keyer;
pub mod listener;
pub mod morse;
pub mod receiver;
pub mod rendezvous;
pub mod rig;
pub mod sender;
pub mod serial_cmd;
pub mod session;
pub mod stats;
pub mod text;
pub mod tick;
pub mod web;
pub mod wifi;
