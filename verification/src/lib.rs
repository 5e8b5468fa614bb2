//! Drivers for Lian Li LCD panels.
//!
//! What a driver decides stands here; what it does to devices, files and threads is left to the
//! caller. A loop or dialogue with a device is a value that is started and then resumed: it hands out
//! an action, and takes what came of it. A call that is carried out in one go hands out the packets or
//! steps in their order.

pub mod access_unit;
pub mod aio_controller;
pub mod aio_protocol;
pub mod backend;
pub mod device_id;
pub mod dialogue;
pub mod enumerate;
pub mod file_stream;
pub mod firmware;
pub mod frame_source;
pub mod init;
pub mod lcd_packet;
pub mod live_stream;
pub mod pacing;
pub mod reader_stream;
pub mod recovery;
pub mod recovery_watch;
pub mod sender;
pub mod serial;
pub mod shutdown;
pub mod target;
pub mod text;
pub mod transfer;
pub mod unit_buffer;
pub mod winusb_device;
pub mod winusb_lcd;
