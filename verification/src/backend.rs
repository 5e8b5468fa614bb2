//! The three kinds of LCD that a target drives.

use vstd::prelude::*;
use crate::sender::{LcdMessage, LcdThreadMsg, SenderRequest, StreamRestarter};

verus! {

/// The kinds of LCD.
#[derive(Clone, Copy, Debug, PartialEq, Eq, Structural)]
pub enum LcdBackend {
    /// A wireless SLV3 LCD.
    Slv3,
    /// A WinUSB panel with a thread of its own.
    WinUsb,
    /// An LCD behind a HID device, shared under a lock.
    HidLcd,
}

/// How long a frame waits for the lock of a HID LCD before it is put off. The lock is held throughout
/// the initialization of the device.
pub const LCD_BUSY_WAIT_MS: u64 = 100;

/// How long a new target waits for the lock of a HID LCD to ask about recovery. The lock can be held
/// across the time in which the device settles.
pub const RECOVERY_LOCK_WAIT_MS: u64 = 200;

/// How long a brightness value waits for the lock of a HID LCD before it is put off.
pub const BRIGHTNESS_LOCK_WAIT_MS: u64 = 500;

/// The way of a frame to its LCD.
#[derive(Clone, Copy, Debug, PartialEq, Eq, Structural)]
pub enum FrameRoute {
    /// To the SLV3 LCD, with the wireless link brought to video mode first; if that fails, nothing is
    /// sent.
    Slv3 { ensure_video_mode: bool },
    /// To the thread of the panel.
    WinUsb { verified: bool },
    /// To the HID LCD, if its lock can be had in time; otherwise the LCD is busy.
    HidLcd { lock_wait_ms: u64, still_picture: bool },
}

/// The way of a brightness value to its LCD.
#[derive(Clone, Copy, Debug, PartialEq, Eq, Structural)]
pub enum BrightnessRoute {
    Slv3 { ensure_video_mode: bool },
    WinUsb,
    /// To the HID LCD, waiting for its lock as long as it takes.
    HidLcd,
}

/// What starting a live stream takes.
pub enum StreamStart {
    /// Start a worker.
    Worker,
    /// Post a message to the thread of the panel.
    Post(SenderRequest),
    /// The LCD plays no streams.
    Unsupported,
}

impl LcdBackend {
    /// The way of a frame. `wireless` says whether there is a wireless link.
    pub fn send_frame(&self, wireless: bool) -> (route: FrameRoute)
        ensures
            route == self.frame_route(wireless),
            match *self {
                LcdBackend::Slv3 => route == (FrameRoute::Slv3 { ensure_video_mode: wireless }),
                LcdBackend::WinUsb => route == (FrameRoute::WinUsb { verified: false }),
                LcdBackend::HidLcd => route == (FrameRoute::HidLcd {
                    lock_wait_ms: 100,
                    still_picture: false,
                }),
            },
    {
        match self {
            LcdBackend::Slv3 => FrameRoute::Slv3 { ensure_video_mode: wireless },
            LcdBackend::WinUsb => FrameRoute::WinUsb { verified: false },
            LcdBackend::HidLcd => FrameRoute::HidLcd {
                lock_wait_ms: LCD_BUSY_WAIT_MS,
                still_picture: false,
            },
        }
    }

    /// The way of a frame.
    pub open spec fn frame_route(self, wireless: bool) -> FrameRoute {
        match self {
            LcdBackend::Slv3 => FrameRoute::Slv3 { ensure_video_mode: wireless },
            LcdBackend::WinUsb => FrameRoute::WinUsb { verified: false },
            LcdBackend::HidLcd => FrameRoute::HidLcd {
                lock_wait_ms: LCD_BUSY_WAIT_MS,
                still_picture: false,
            },
        }
    }

    /// The way of a still picture, which is sent so that it arrives where the LCD has such a way.
    pub fn send_frame_verified(&self, wireless: bool) -> (route: FrameRoute)
        ensures
            route == (match *self {
                LcdBackend::WinUsb => FrameRoute::WinUsb { verified: true },
                LcdBackend::HidLcd => FrameRoute::HidLcd {
                    lock_wait_ms: LCD_BUSY_WAIT_MS,
                    still_picture: true,
                },
                LcdBackend::Slv3 => self.frame_route(wireless),
            }),
            match *self {
                LcdBackend::Slv3 => route == (FrameRoute::Slv3 { ensure_video_mode: wireless }),
                LcdBackend::WinUsb => route == (FrameRoute::WinUsb { verified: true }),
                LcdBackend::HidLcd => route == (FrameRoute::HidLcd {
                    lock_wait_ms: 100,
                    still_picture: true,
                }),
            },
    {
        match self {
            LcdBackend::WinUsb => FrameRoute::WinUsb { verified: true },
            LcdBackend::HidLcd => FrameRoute::HidLcd {
                lock_wait_ms: LCD_BUSY_WAIT_MS,
                still_picture: true,
            },
            LcdBackend::Slv3 => self.send_frame(wireless),
        }
    }

    /// The way of a brightness value.
    pub fn set_brightness(&self, wireless: bool) -> (route: BrightnessRoute)
        ensures
            route == (match *self {
                LcdBackend::Slv3 => BrightnessRoute::Slv3 { ensure_video_mode: wireless },
                LcdBackend::WinUsb => BrightnessRoute::WinUsb,
                LcdBackend::HidLcd => BrightnessRoute::HidLcd,
            }),
    {
        match self {
            LcdBackend::Slv3 => BrightnessRoute::Slv3 { ensure_video_mode: wireless },
            LcdBackend::WinUsb => BrightnessRoute::WinUsb,
            LcdBackend::HidLcd => BrightnessRoute::HidLcd,
        }
    }

    /// How long a new target waits for the lock of its LCD to ask about recovery. Only a HID LCD is
    /// asked.
    pub fn recovery_lock_wait(&self) -> (wait_ms: Option<u64>)
        ensures
            wait_ms == (if *self == LcdBackend::HidLcd {
                Some(RECOVERY_LOCK_WAIT_MS)
            } else {
                None
            }),
            wait_ms is Some <==> *self == LcdBackend::HidLcd,
            wait_ms is Some ==> wait_ms->0 == 200,
    {
        match self {
            LcdBackend::HidLcd => Some(RECOVERY_LOCK_WAIT_MS),
            _ => None,
        }
    }

    /// How long a brightness value that is wanted now waits for the lock of its LCD. Only a HID LCD has
    /// one.
    pub fn brightness_lock_wait(&self) -> (wait_ms: Option<u64>)
        ensures
            wait_ms == (if *self == LcdBackend::HidLcd {
                Some(BRIGHTNESS_LOCK_WAIT_MS)
            } else {
                None
            }),
            wait_ms is Some <==> *self == LcdBackend::HidLcd,
            wait_ms is Some ==> wait_ms->0 == 500,
    {
        match self {
            LcdBackend::HidLcd => Some(BRIGHTNESS_LOCK_WAIT_MS),
            _ => None,
        }
    }

    /// Starts a live stream at a frame rate, given as the bits of a 32-bit float.
    pub fn start_h264_stream(&self, fps_bits: u32) -> (start: StreamStart)
        ensures
            match (*self, start) {
                (LcdBackend::HidLcd, StreamStart::Worker) => true,
                (LcdBackend::WinUsb, StreamStart::Post(request)) => {
                    &&& request.raise_stop && request.blocking
                    &&& request.message@ == (LcdMessage::StreamH264Reader { fps_bits })
                },
                (LcdBackend::Slv3, StreamStart::Unsupported) => true,
                _ => false,
            },
    {
        match self {
            LcdBackend::HidLcd => StreamStart::Worker,
            LcdBackend::WinUsb => StreamStart::Post(
                SenderRequest {
                    raise_stop: true,
                    blocking: true,
                    message: LcdThreadMsg::StreamH264Reader { fps_bits },
                },
            ),
            LcdBackend::Slv3 => StreamStart::Unsupported,
        }
    }

    /// A handle for restarting streams. `has_worker` says whether there is a worker that the first
    /// restart can stop.
    pub fn stream_restarter(&self, has_worker: bool) -> (restarter: Option<StreamRestarter>)
        ensures
            restarter == (match *self {
                LcdBackend::HidLcd => Some(StreamRestarter::HidLcd { has_worker }),
                LcdBackend::WinUsb => Some(StreamRestarter::WinUsb),
                LcdBackend::Slv3 => None,
            }),
    {
        match self {
            LcdBackend::HidLcd => Some(StreamRestarter::HidLcd { has_worker }),
            LcdBackend::WinUsb => Some(StreamRestarter::WinUsb),
            LcdBackend::Slv3 => None,
        }
    }
}

} // verus!
