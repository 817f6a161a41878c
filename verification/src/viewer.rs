//! The in-process variant: one microscope, its session, its log and the
//! choices a user makes in the viewer.
//!
//! The host owns the device and the window. It asks this type what to do,
//! does it, and reports back.

use crate::error::MicroscopeError;
use crate::frame::{mat_to_rgb_image, opt_frame, rgb_frame, Frame};
use crate::log_panel::{logged, logged_both, LogPanel};
use crate::outside::{is_file_stamp, local_time_text, rgb_buffer_fits, FILE_STAMP_PATTERN};
use crate::session::{ConnectEvent, ConnectionState, Session, SessionView};
use crate::text::joined;
use vstd::prelude::*;

verus! {

/// The video device the viewer opens.
pub const VIDEO_DEVICE_INDEX: u8 = 4;

/// The frame rate the viewer asks the device for.
pub const REQUESTED_FPS: u32 = 30;

/// Logged when a connection attempt begins.
pub const MSG_CONNECTING: &'static str = "Attempting to connect microscope...";

/// Logged when the device has been opened.
pub const MSG_CONNECTED: &'static str = "Microscope connected successfully!";

/// Logged when the device has been given up.
pub const MSG_DISCONNECTED: &'static str = "Microscope disconnected";

/// Logged when streaming begins.
pub const MSG_STREAM_STARTED: &'static str = "Video streaming started";

/// Logged when streaming ends.
pub const MSG_STREAM_STOPPED: &'static str = "Video streaming stopped";

/// The reason given when the device is not open after an attempt.
pub const MSG_CANNOT_OPEN: &'static str = "Cannot open video device";

/// The reason given when a read delivered no frame.
pub const MSG_CAPTURE_FAILED: &'static str = "Frame capture failed";

/// The reason given when there is nothing to save.
pub const MSG_NO_FRAME: &'static str = "No frame to save";

/// The resolutions a user can choose from.
#[derive(Debug, Clone, Copy, PartialEq, Eq, Structural)]
pub enum Resolution {
    /// 640 by 480, the default.
    Standard,
    /// 320 by 240.
    Low,
    /// 1280 by 720.
    Hd,
}

impl Resolution {
    /// Width and height in pixels.
    pub open spec fn size(self) -> (u32, u32) {
        match self {
            Resolution::Standard => (640u32, 480u32),
            Resolution::Low => (320u32, 240u32),
            Resolution::Hd => (1280u32, 720u32),
        }
    }

    /// The place of this resolution in the list shown to the user.
    pub open spec fn position(self) -> usize {
        match self {
            Resolution::Standard => 0,
            Resolution::Low => 1,
            Resolution::Hd => 2,
        }
    }

    /// Width and height in pixels.
    pub fn dimensions(&self) -> (r: (u32, u32))
        ensures
            r == self.size(),
    {
        match self {
            Resolution::Standard => (640, 480),
            Resolution::Low => (320, 240),
            Resolution::Hd => (1280, 720),
        }
    }

    /// The place of this resolution in the list shown to the user.
    pub fn index(&self) -> (r: usize)
        ensures
            r == self.position(),
    {
        match self {
            Resolution::Standard => 0,
            Resolution::Low => 1,
            Resolution::Hd => 2,
        }
    }

    /// The resolution at place `index` of the list, if there is one.
    pub fn from_index(index: usize) -> (r: Option<Resolution>)
        ensures
            index < 3 <==> r is Some,
            r matches Some(chosen) ==> chosen.position() == index,
    {
        if index == 0 {
            Some(Resolution::Standard)
        } else if index == 1 {
            Some(Resolution::Low)
        } else if index == 2 {
            Some(Resolution::Hd)
        } else {
            None
        }
    }
}

/// What the host must open and how it must set it up.
#[derive(Debug, Clone, Copy, PartialEq, Eq, Structural)]
pub struct DeviceRequest {
    pub device_index: u8,
    pub width: u32,
    pub height: u32,
    pub fps: u32,
}

/// How the host's attempt to open the device went.
#[derive(Debug, Clone)]
pub enum ConnectAttempt {
    /// The device is open and took every setting.
    Opened,
    /// The backend made a handle, but the device is not open.
    NotOpened,
    /// The backend failed while opening; the field holds its words.
    OpenFailed(String),
    /// The backend failed while applying a setting; the field holds its words.
    SettingFailed(String),
}

/// A frame to write and the file to write it to.
#[derive(Debug)]
pub struct SaveRequest {
    pub filename: String,
    pub frame: Frame,
}

/// The name of an image saved in `directory` at the time written as `stamp`.
pub open spec fn image_file_name(directory: Seq<char>, stamp: Seq<char>) -> Seq<char> {
    directory + "/microscope_"@ + stamp + ".jpg"@
}

/// The state of the viewer.
#[derive(Debug)]
pub struct MicroscopeApp {
    session: Session,
    log: LogPanel,
    save_directory: String,
    resolution: Resolution,
}

/// The mathematical content of a `MicroscopeApp`.
pub struct MicroscopeAppView {
    pub session: SessionView,
    pub log: Seq<Seq<char>>,
    pub save_directory: Seq<char>,
    pub resolution: Resolution,
}

impl View for MicroscopeApp {
    type V = MicroscopeAppView;

    closed spec fn view(&self) -> MicroscopeAppView {
        MicroscopeAppView {
            session: self.session@,
            log: self.log@,
            save_directory: self.save_directory@,
            resolution: self.resolution,
        }
    }
}

impl MicroscopeAppView {
    /// What the host is asked to open for this viewer.
    pub open spec fn request(self) -> DeviceRequest {
        DeviceRequest {
            device_index: VIDEO_DEVICE_INDEX,
            width: self.resolution.size().0,
            height: self.resolution.size().1,
            fps: REQUESTED_FPS,
        }
    }

    /// This viewer with another session state and another log.
    pub open spec fn with(self, session: SessionView, log: Seq<Seq<char>>) -> MicroscopeAppView {
        MicroscopeAppView { session, log, ..self }
    }
}

impl MicroscopeApp {
    /// A viewer that is disconnected, has logged nothing, saves to
    /// `save_directory` and uses the default resolution.
    pub fn new(save_directory: String) -> (r: MicroscopeApp)
        ensures
            r@ == (MicroscopeAppView {
                session: SessionView::initial(),
                log: Seq::empty(),
                save_directory: save_directory@,
                resolution: Resolution::Standard,
            }),
    {
        MicroscopeApp {
            session: Session::new(),
            log: LogPanel::new(),
            save_directory,
            resolution: Resolution::Standard,
        }
    }

    /// Tells whether a device is held.
    pub fn is_connected(&self) -> (r: bool)
        ensures
            r == (self@.session.state != ConnectionState::Disconnected),
    {
        self.session.is_connected()
    }

    /// Tells whether frames are being read.
    pub fn is_streaming(&self) -> (r: bool)
        ensures
            r == (self@.session.state == ConnectionState::Streaming),
    {
        self.session.is_streaming()
    }

    /// The rate measured over the last complete second.
    pub fn fps(&self) -> (r: u64)
        ensures
            r == self@.session.stats.fps,
    {
        self.session.fps()
    }

    /// The session.
    pub fn session(&self) -> (r: &Session)
        ensures
            r@ == self@.session,
    {
        &self.session
    }

    /// The log.
    pub fn log(&self) -> (r: &LogPanel)
        ensures
            r@ == self@.log,
    {
        &self.log
    }

    /// Where images are saved.
    pub fn save_directory(&self) -> (r: &str)
        ensures
            r@ == self@.save_directory,
    {
        self.save_directory.as_str()
    }

    /// The chosen resolution.
    pub fn resolution(&self) -> (r: Resolution)
        ensures
            r == self@.resolution,
    {
        self.resolution
    }

    /// Chooses the resolution at place `index` of the list. An index past the
    /// end of the list is refused and changes nothing.
    pub fn select_resolution(&mut self, index: usize) -> (r: bool)
        ensures
            r == (index < 3),
            r ==> final(self)@.resolution.position() == index && final(self)@ == (MicroscopeAppView {
                resolution: final(self)@.resolution,
                ..old(self)@
            }),
            !r ==> final(self)@ == old(self)@,
    {
        match Resolution::from_index(index) {
            Some(chosen) => {
                self.resolution = chosen;
                true
            },
            None => false,
        }
    }

    /// Adds `message` to the log under the current time of day.
    pub fn add_log(&mut self, message: &str)
        ensures
            logged(old(self)@.log, final(self)@.log, message@),
            final(self)@ == old(self)@.with(old(self)@.session, final(self)@.log),
    {
        self.log.add_log(message);
    }

    /// Begins to connect: a disconnected viewer logs the attempt and says
    /// what the host must open; a connected one does nothing.
    pub fn connect_microscope(&mut self) -> (r: Option<DeviceRequest>)
        ensures
            old(self)@.session.state != ConnectionState::Disconnected ==> r is None && final(self)@
                == old(self)@,
            old(self)@.session.state == ConnectionState::Disconnected ==> {
                &&& r == Some(old(self)@.request())
                &&& logged(old(self)@.log, final(self)@.log, MSG_CONNECTING@)
                &&& final(self)@ == old(self)@.with(old(self)@.session, final(self)@.log)
            },
    {
        if self.session.is_connected() {
            return None;
        }
        self.log.add_log(MSG_CONNECTING);
        let size: (u32, u32) = self.resolution.dimensions();
        Some(
            DeviceRequest {
                device_index: VIDEO_DEVICE_INDEX,
                width: size.0,
                height: size.1,
                fps: REQUESTED_FPS,
            },
        )
    }

    /// Ends a connection attempt with what the host found. An opened device
    /// makes the viewer connected and is logged. A failure leaves the viewer
    /// as it was and is returned. A viewer that is already connected ignores
    /// the attempt.
    pub fn device_opened(&mut self, attempt: ConnectAttempt) -> (r: Result<(), MicroscopeError>)
        ensures
            old(self)@.session.state != ConnectionState::Disconnected ==> r is Ok && final(self)@
                == old(self)@,
            old(self)@.session.state == ConnectionState::Disconnected ==> match attempt {
                ConnectAttempt::Opened => {
                    &&& r is Ok
                    &&& logged(old(self)@.log, final(self)@.log, MSG_CONNECTED@)
                    &&& final(self)@ == old(self)@.with(
                        old(self)@.session.connected(ConnectEvent::Opened),
                        final(self)@.log,
                    )
                },
                ConnectAttempt::NotOpened => {
                    &&& r matches Err(MicroscopeError::ConnectionError(m)) && m@ == MSG_CANNOT_OPEN@
                    &&& final(self)@ == old(self)@
                },
                ConnectAttempt::OpenFailed(words) => {
                    &&& r matches Err(MicroscopeError::OpenCvError(m)) && m@ == words@
                    &&& final(self)@ == old(self)@
                },
                ConnectAttempt::SettingFailed(words) => {
                    &&& r matches Err(MicroscopeError::OpenCvError(m)) && m@ == words@
                    &&& final(self)@ == old(self)@
                },
            },
    {
        if self.session.is_connected() {
            return Ok(());
        }
        match attempt {
            ConnectAttempt::Opened => {
                let _ = self.session.connect(ConnectEvent::Opened);
                self.log.add_log(MSG_CONNECTED);
                Ok(())
            },
            ConnectAttempt::NotOpened => Err(
                MicroscopeError::ConnectionError(String::from_str(MSG_CANNOT_OPEN)),
            ),
            ConnectAttempt::OpenFailed(words) => Err(MicroscopeError::OpenCvError(words)),
            ConnectAttempt::SettingFailed(words) => Err(MicroscopeError::OpenCvError(words)),
        }
    }

    /// Ends the stream, logging it, if one runs.
    pub fn stop_streaming(&mut self)
        ensures
            old(self)@.session.state != ConnectionState::Streaming ==> final(self)@ == old(self)@,
            old(self)@.session.state == ConnectionState::Streaming ==> {
                &&& logged(old(self)@.log, final(self)@.log, MSG_STREAM_STOPPED@)
                &&& final(self)@ == old(self)@.with(old(self)@.session.stopped(), final(self)@.log)
            },
    {
        if self.session.stop() {
            self.log.add_log(MSG_STREAM_STOPPED);
        }
    }

    /// Begins to stream at `now_ms`, logging it, if the viewer is connected
    /// and does not stream yet.
    pub fn start_streaming(&mut self, now_ms: u64)
        ensures
            old(self)@.session.state != ConnectionState::Connected ==> final(self)@ == old(self)@,
            old(self)@.session.state == ConnectionState::Connected ==> {
                &&& logged(old(self)@.log, final(self)@.log, MSG_STREAM_STARTED@)
                &&& final(self)@ == old(self)@.with(
                    old(self)@.session.started(now_ms),
                    final(self)@.log,
                )
            },
    {
        if self.session.start(now_ms) {
            self.log.add_log(MSG_STREAM_STARTED);
        }
    }

    /// Gives the device up, logging it. A running stream is stopped first,
    /// and that is logged too. A disconnected viewer does nothing.
    pub fn disconnect_microscope(&mut self)
        ensures
            final(self)@ == old(self)@.with(old(self)@.session.disconnected(), final(self)@.log),
            match old(self)@.session.state {
                ConnectionState::Disconnected => final(self)@.log == old(self)@.log,
                ConnectionState::Connected => logged(
                    old(self)@.log,
                    final(self)@.log,
                    MSG_DISCONNECTED@,
                ),
                ConnectionState::Streaming => logged_both(
                    old(self)@.log,
                    final(self)@.log,
                    MSG_STREAM_STOPPED@,
                    MSG_DISCONNECTED@,
                ),
            },
    {
        if !self.session.is_connected() {
            return;
        }
        self.stop_streaming();
        let ghost between = self.log@;
        let _ = self.session.disconnect();
        self.log.add_log(MSG_DISCONNECTED);
        proof {
            if old(self)@.session.state == ConnectionState::Streaming {
                assert(logged(old(self)@.log, between, MSG_STREAM_STOPPED@) && logged(
                    between,
                    self.log@,
                    MSG_DISCONNECTED@,
                ));
            }
        }
    }

    /// Takes the outcome of one read at `now_ms`. A frame is published and
    /// counted if the viewer streams and discarded otherwise; no frame is an error.
    pub fn capture_frame(&mut self, reading: Option<Frame>, now_ms: u64) -> (r: Result<
        (),
        MicroscopeError,
    >)
        ensures
            match reading {
                Some(frame) => r is Ok && final(self)@ == old(self)@.with(
                    old(self)@.session.with_frame(frame@, now_ms),
                    old(self)@.log,
                ),
                None => (r matches Err(MicroscopeError::CaptureError(m)) && m@
                    == MSG_CAPTURE_FAILED@) && final(self)@ == old(self)@,
            },
    {
        match reading {
            Some(frame) => {
                let _ = self.session.tick(Ok(frame), now_ms);
                Ok(())
            },
            None => Err(MicroscopeError::CaptureError(String::from_str(MSG_CAPTURE_FAILED))),
        }
    }

    /// One pass of the host's loop at `now_ms`, with the outcome of its read.
    /// While streaming, a frame is published and counted and comes back in
    /// RGB order for display, unless its buffer is too small for its size; a
    /// failed read is passed over. A viewer that does not stream does nothing.
    pub fn update(&mut self, reading: Option<Frame>, now_ms: u64) -> (r: Option<Frame>)
        ensures
            final(self)@ == match reading {
                Some(frame) => old(self)@.with(
                    old(self)@.session.with_frame(frame@, now_ms),
                    old(self)@.log,
                ),
                None => old(self)@,
            },
            opt_frame(r) == match reading {
                Some(frame) => if old(self)@.session.state == ConnectionState::Streaming
                    && rgb_buffer_fits(frame@.width, frame@.height, frame@.pixels.len()) {
                    Some(rgb_frame(frame@))
                } else {
                    None
                },
                None => None,
            },
    {
        if !self.session.is_streaming() {
            return None;
        }
        match self.capture_frame(reading, now_ms) {
            Ok(()) => match self.session.snapshot() {
                Some(current) => match mat_to_rgb_image(&current) {
                    Ok(rgb) => Some(rgb),
                    Err(_) => None,
                },
                None => None,
            },
            Err(_) => None,
        }
    }

    /// What to write for a save made at the time written as `stamp`: the most
    /// recent frame, and a file name in the save directory made from the stamp.
    pub fn save_request(&self, stamp: &str) -> (r: Result<SaveRequest, MicroscopeError>)
        ensures
            match self@.session.frame {
                Some(frame) => r matches Ok(request) && request.frame@ == frame && request.filename@
                    == image_file_name(self@.save_directory, stamp@),
                None => r matches Err(MicroscopeError::CaptureError(m)) && m@ == MSG_NO_FRAME@,
            },
    {
        match self.session.snapshot() {
            Some(frame) => {
                let mut filename = joined(self.save_directory.as_str(), "/microscope_");
                filename.append(stamp);
                filename.append(".jpg");
                Ok(SaveRequest { filename, frame })
            },
            None => Err(MicroscopeError::CaptureError(String::from_str(MSG_NO_FRAME))),
        }
    }

    /// What to write for a save made now: the most recent frame, and a file
    /// name in the save directory made from the local date and time.
    pub fn save_image(&self) -> (r: Result<SaveRequest, MicroscopeError>)
        ensures
            match self@.session.frame {
                Some(frame) => r matches Ok(request) && request.frame@ == frame && exists|
                    stamp: Seq<char>,
                |
                    is_file_stamp(stamp) && request.filename@ == #[trigger] image_file_name(
                        self@.save_directory,
                        stamp,
                    ),
                None => r matches Err(MicroscopeError::CaptureError(m)) && m@ == MSG_NO_FRAME@,
            },
    {
        let stamp = local_time_text(FILE_STAMP_PATTERN);
        let r = self.save_request(stamp.as_str());
        proof {
            if r is Ok {
                assert(is_file_stamp(stamp@) && r->Ok_0.filename@ == image_file_name(
                    self@.save_directory,
                    stamp@,
                ));
            }
        }
        r
    }

    /// Takes note of how writing `filename` went: success is logged, a
    /// failure comes back as an error with the backend's words.
    pub fn image_saved(&mut self, filename: &str, failure: Option<String>) -> (r: Result<
        (),
        MicroscopeError,
    >)
        ensures
            match failure {
                None => {
                    &&& r is Ok
                    &&& logged(old(self)@.log, final(self)@.log, "Image saved: "@ + filename@)
                    &&& final(self)@ == old(self)@.with(old(self)@.session, final(self)@.log)
                },
                Some(words) => {
                    &&& r matches Err(MicroscopeError::OpenCvError(m)) && m@ == words@
                    &&& final(self)@ == old(self)@
                },
            },
    {
        match failure {
            None => {
                let message = joined("Image saved: ", filename);
                self.log.add_log(message.as_str());
                Ok(())
            },
            Some(words) => Err(MicroscopeError::OpenCvError(words)),
        }
    }

    /// Logs that connecting failed, with the error's text.
    pub fn connection_failed(&mut self, error: &MicroscopeError)
        ensures
            logged(old(self)@.log, final(self)@.log, "Connection failed: "@ + error.message_text()),
            final(self)@ == old(self)@.with(old(self)@.session, final(self)@.log),
    {
        let text = error.message();
        let message = joined("Connection failed: ", text.as_str());
        self.log.add_log(message.as_str());
    }

    /// Logs that saving failed, with the error's text.
    pub fn save_failed(&mut self, error: &MicroscopeError)
        ensures
            logged(old(self)@.log, final(self)@.log, "Save failed: "@ + error.message_text()),
            final(self)@ == old(self)@.with(old(self)@.session, final(self)@.log),
    {
        let text = error.message();
        let message = joined("Save failed: ", text.as_str());
        self.log.add_log(message.as_str());
    }

    /// Saves to `directory` from now on, and logs the choice.
    pub fn set_save_directory(&mut self, directory: String)
        ensures
            logged(old(self)@.log, final(self)@.log, "Save folder: "@ + directory@),
            final(self)@ == (MicroscopeAppView {
                save_directory: directory@,
                log: final(self)@.log,
                ..old(self)@
            }),
    {
        let message = joined("Save folder: ", directory.as_str());
        self.save_directory = directory;
        self.log.add_log(message.as_str());
    }
}

} // verus!
