//! Values exchanged with the host: device settings and command results.

use crate::text::{decimal, decimal_string, hex4, hex4_string, opt_text};
use vstd::prelude::*;

verus! {

/// Which device to open and how to configure it. Fixed for the lifetime of a session.
#[derive(Debug, Clone, Copy, PartialEq, Eq, Structural)]
pub struct DeviceConfig {
    pub vendor_id: u16,
    pub product_id: u16,
    pub video_device_index: u8,
    pub default_width: u32,
    pub default_height: u32,
    pub default_fps: u32,
}

impl Default for DeviceConfig {
    /// The supported microscope: vendor `05e3`, product `f12a`, video device 4,
    /// 640 by 480 at 30 frames per second.
    fn default() -> (r: Self)
        ensures
            r == DeviceConfig::standard(),
    {
        DeviceConfig {
            vendor_id: 0x05e3,
            product_id: 0xf12a,
            video_device_index: 4,
            default_width: 640,
            default_height: 480,
            default_fps: 30,
        }
    }
}

impl DeviceConfig {
    /// The configuration of the supported microscope.
    pub open spec fn standard() -> DeviceConfig {
        DeviceConfig {
            vendor_id: 0x05e3,
            product_id: 0xf12a,
            video_device_index: 4,
            default_width: 640,
            default_height: 480,
            default_fps: 30,
        }
    }

    /// The USB identifier, `vvvv:pppp` in lower-case hexadecimal.
    pub open spec fn usb_id_text(self) -> Seq<char> {
        hex4(self.vendor_id) + seq![':'] + hex4(self.product_id)
    }

    /// The resolution, written as width, `x`, height.
    pub open spec fn resolution_text(self) -> Seq<char> {
        decimal(self.default_width as nat) + seq!['x'] + decimal(self.default_height as nat)
    }

    /// Writes the USB identifier.
    pub fn usb_id(&self) -> (r: String)
        ensures
            r@ == self.usb_id_text(),
    {
        proof {
            reveal_strlit(":");
        }
        let mut r = hex4_string(self.vendor_id);
        r.append(":");
        let product = hex4_string(self.product_id);
        r.append(product.as_str());
        assert(r@ =~= self.usb_id_text());
        r
    }

    /// Writes the resolution.
    pub fn resolution(&self) -> (r: String)
        ensures
            r@ == self.resolution_text(),
    {
        proof {
            reveal_strlit("x");
        }
        let mut r = decimal_string(self.default_width as u64);
        r.append("x");
        let height = decimal_string(self.default_height as u64);
        r.append(height.as_str());
        assert(r@ =~= self.resolution_text());
        r
    }
}

/// What a device check reports. The rate is a whole number of frames per second.
#[derive(Debug, Clone)]
pub struct MicroscopeStatus {
    pub connected: bool,
    pub device_id: Option<String>,
    pub resolution: String,
    pub fps: u32,
}

/// The mathematical content of a `MicroscopeStatus`.
pub struct MicroscopeStatusView {
    pub connected: bool,
    pub device_id: Option<Seq<char>>,
    pub resolution: Seq<char>,
    pub fps: u32,
}

impl View for MicroscopeStatus {
    type V = MicroscopeStatusView;

    open spec fn view(&self) -> MicroscopeStatusView {
        MicroscopeStatusView {
            connected: self.connected,
            device_id: opt_text(self.device_id),
            resolution: self.resolution@,
            fps: self.fps,
        }
    }
}

impl Default for MicroscopeStatus {
    /// The status of a device that is not there.
    fn default() -> (r: Self)
        ensures
            r@ == MicroscopeStatus::absent(),
    {
        MicroscopeStatus { connected: false, device_id: None, resolution: String::new(), fps: 0 }
    }
}

impl MicroscopeStatus {
    /// The status of a device that is not there.
    pub open spec fn absent() -> MicroscopeStatusView {
        MicroscopeStatusView {
            connected: false,
            device_id: None,
            resolution: Seq::empty(),
            fps: 0,
        }
    }

    /// The status of a device that answered, described by its configuration.
    pub open spec fn present(device: DeviceConfig) -> MicroscopeStatusView {
        MicroscopeStatusView {
            connected: true,
            device_id: Some(device.usb_id_text()),
            resolution: device.resolution_text(),
            fps: device.default_fps,
        }
    }

    /// Builds the status for the outcome of a device check.
    pub fn from_check(connected: bool, device: &DeviceConfig) -> (r: MicroscopeStatus)
        ensures
            r@ == if connected {
                MicroscopeStatus::present(*device)
            } else {
                MicroscopeStatus::absent()
            },
    {
        if connected {
            MicroscopeStatus {
                connected: true,
                device_id: Some(device.usb_id()),
                resolution: device.resolution(),
                fps: device.default_fps,
            }
        } else {
            MicroscopeStatus::default()
        }
    }
}

/// The result of a still capture.
#[derive(Debug, Clone)]
pub struct CaptureResult {
    pub success: bool,
    pub image_path: Option<String>,
    pub image_base64: Option<String>,
    pub error: Option<String>,
}

/// The mathematical content of a `CaptureResult`.
pub struct CaptureResultView {
    pub success: bool,
    pub image_path: Option<Seq<char>>,
    pub image_base64: Option<Seq<char>>,
    pub error: Option<Seq<char>>,
}

impl View for CaptureResult {
    type V = CaptureResultView;

    open spec fn view(&self) -> CaptureResultView {
        CaptureResultView {
            success: self.success,
            image_path: opt_text(self.image_path),
            image_base64: opt_text(self.image_base64),
            error: opt_text(self.error),
        }
    }
}

impl CaptureResult {
    /// A capture that succeeded, with where it was stored and its payload.
    pub fn success(image_path: Option<String>, image_base64: Option<String>) -> (r: Self)
        ensures
            r.success,
            r.image_path == image_path,
            r.image_base64 == image_base64,
            r.error is None,
    {
        CaptureResult { success: true, image_path, image_base64, error: None }
    }

    /// A capture that failed, with the reason.
    pub fn error(error: String) -> (r: Self)
        ensures
            !r.success,
            r.image_path is None,
            r.image_base64 is None,
            r.error == Some(error),
    {
        CaptureResult { success: false, image_path: None, image_base64: None, error: Some(error) }
    }
}

/// One frame of the live stream, or the reason there is none.
#[derive(Debug, Clone)]
pub struct StreamFrame {
    pub success: bool,
    pub image_base64: Option<String>,
    pub timestamp: u64,
    pub error: Option<String>,
}

/// The mathematical content of a `StreamFrame`.
pub struct StreamFrameView {
    pub success: bool,
    pub image_base64: Option<Seq<char>>,
    pub timestamp: u64,
    pub error: Option<Seq<char>>,
}

impl View for StreamFrame {
    type V = StreamFrameView;

    open spec fn view(&self) -> StreamFrameView {
        StreamFrameView {
            success: self.success,
            image_base64: opt_text(self.image_base64),
            timestamp: self.timestamp,
            error: opt_text(self.error),
        }
    }
}

impl StreamFrame {
    /// A frame, with its payload and capture time in milliseconds.
    pub fn success(image_base64: String, timestamp: u64) -> (r: Self)
        ensures
            r.success,
            r.image_base64 == Some(image_base64),
            r.timestamp == timestamp,
            r.error is None,
    {
        StreamFrame { success: true, image_base64: Some(image_base64), timestamp, error: None }
    }

    /// No frame, with the reason; the timestamp is zero.
    pub fn error(error: String) -> (r: Self)
        ensures
            !r.success,
            r.image_base64 is None,
            r.timestamp == 0,
            r.error == Some(error),
    {
        StreamFrame { success: false, image_base64: None, timestamp: 0, error: Some(error) }
    }
}

} // verus!
