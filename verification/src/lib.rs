//! Driver core for the JSY-MK-194 two-channel electrical power meter.
//!
//! The meter answers a fixed 8-byte read request with a 61-byte frame that
//! carries sixteen measurements at fixed byte offsets, guarded by a
//! CRC-16/Modbus checksum.  This crate holds the protocol engine: the frame
//! codec, the checksum validator, the command builder and the device session
//! that drives one request/response exchange over a caller-supplied
//! transport.  Measurements are exposed as the raw integers of the wire
//! format; the documented unit scales (0.0001, 0.001, 0.01) are left to the
//! caller, so that the core stays in integer arithmetic throughout.
//!
//! Layout of the 61-byte measurement frame:
//!
//! | Field                     | Byte offsets   | Unit scale        |
//! |---------------------------|----------------|-------------------|
//! | response header           | 0, 1, 2        | n/a               |
//! | voltage 1                 | 3, 4, 5, 6     | 0.0001 V          |
//! | current 1                 | 7, 8, 9, 10    | 0.0001 A          |
//! | power 1                   | 11, 12, 13, 14 | 0.0001 W, signed  |
//! | positive energy 1         | 15, 16, 17, 18 | 0.0001 kWh        |
//! | power factor 1            | 19, 20, 21, 22 | 0.001             |
//! | negative energy 1         | 23, 24, 25, 26 | 0.0001 kWh        |
//! | power-direction flag 1    | 27             | 0 or 1            |
//! | power-direction flag 2    | 28             | 0 or 1            |
//! | unused                    | 29, 30         | n/a               |
//! | frequency                 | 31, 32, 33, 34 | 0.01 Hz           |
//! | voltage 2 .. energy 2     | 35 .. 58       | as channel 1      |
//! | checksum                  | 59, 60         | low byte first    |
//!
//! Every four-byte field stores its most significant byte first.
use vstd::prelude::*;

pub mod codec;
pub mod crc;
pub mod device;
pub mod error;

pub use codec::conv8to32;
pub use codec::get_data;
pub use codec::power;
pub use crc::crc_always_ok;
pub use crc::is_crc_ok;
pub use device::bitrate_command;
pub use device::confirm_bitrate_write;
pub use device::ChangeBitrate;
pub use device::Channel;
pub use device::Delay;
pub use device::JsyMk194;
pub use device::Uart;

verus! {

/// Number of bytes in the buffer handed to the transport for one read.
pub const SEGMENT_READ: usize = 64;

/// Number of bytes in the read-measurements request.
pub const SEGMENT_WRITE: usize = 8;

/// Number of bytes in one complete measurement frame.
pub const READ_DATA_SIZE: usize = 61;

/// Number of bytes in the change-bitrate request.
pub const SEGMENT_WRITE_CHANGE_BIT_RATE: usize = 11;

/// Byte offset of the first channel's measurements in a frame.
pub const CHANNEL_1_OFFSET: usize = 3;

/// Byte offset of the second channel's measurements in a frame.
pub const CHANNEL_2_OFFSET: usize = 35;

/// Offset of the voltage word within a channel's block.
pub const VOLTAGE: usize = 0;

/// Offset of the current word within a channel's block.
pub const CURRENT: usize = 4;

/// Offset of the power word within a channel's block.
pub const POWER: usize = 8;

/// Offset of the positive-energy word within a channel's block.
pub const POSITIVE_ENERGY: usize = 12;

/// Offset of the power-factor word within a channel's block.
pub const FACTOR: usize = 16;

/// Offset of the negative-energy word within a channel's block.
pub const NEGATIVE_ENERGY: usize = 20;

/// Byte offset of the frequency word in a frame.
pub const FREQUENCY: usize = 31;

/// Byte offset of the first channel's power-direction flag.
pub const POWER_SIGN_1: usize = 27;

/// Byte offset of the second channel's power-direction flag.
pub const POWER_SIGN_2: usize = 28;

} // verus!
