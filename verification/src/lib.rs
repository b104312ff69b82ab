//! Device firmware update over a byte-oriented transport.
//!
//! The crate is a two-layer framed protocol stack together with the update
//! state machine that drives it:
//!
//! - the link protocol layer frames a payload with a sync byte, protects it
//!   with CRC-16, byte-stuffs it so that no interior zero remains, and
//!   terminates it with a zero delimiter;
//! - the application protocol layer provides block-numbered request/response
//!   exchanges with retry bookkeeping on top of the link layer;
//! - the update engine orchestrates entering the bootloader, reading the
//!   device info block, writing the firmware image block by block, verifying
//!   it by CRC-32, and quitting the bootloader.
//!
//! The engine is a pure state machine: it consumes events (decoded payloads,
//! timeouts, completion notices) and emits actions (bytes to send, sleeps,
//! speed changes). The surrounding transport loop performs the actions.

pub mod apl;
pub mod cobs;
pub mod crc;
pub mod dfu;
pub mod engine;
pub mod error;
pub mod lpl;

use vstd::prelude::*;

verus! {

/// A new update configuration with every option at its default.
pub fn new_config() -> (r: crate::dfu::DfuConfig)
    ensures
        r.uri@.len() == 0,
        r.filename is None,
        !r.get_info && !r.update && !r.overwrite && !r.verify && !r.quit,
        crate::dfu::config_defaults(r),
{
    crate::dfu::DfuConfig::new()
}

} // verus!
