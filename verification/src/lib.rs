//! Helpers for talking to devices over a framed serial link, with a
//! codec for the SLCAN (serial line CAN) ASCII protocol.
//!
//! Every device interaction follows the same pattern: the host writes a
//! command, the device does its work and writes back a result. The
//! verified library holds the frame model, the byte-level codec, the
//! decisions of the read side of the link and the USB port selection.

pub mod buffer;
pub mod link;
pub mod slcan;
pub mod util;

