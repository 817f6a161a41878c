//! Frames and the single-slot buffer that holds the most recent one.

use crate::error::MicroscopeError;
use crate::outside::{rgb_buffer_fits, rgb_image_buffer};
use vstd::prelude::*;

verus! {

/// The order of the three color channels of a pixel.
#[derive(Debug, Clone, Copy, PartialEq, Eq, Structural)]
pub enum ColorLayout {
    Bgr,
    Rgb,
}

/// One image sample: three bytes per pixel, row by row. A frame does not
/// change once it is made.
#[derive(Debug)]
pub struct Frame {
    pixels: Vec<u8>,
    width: u32,
    height: u32,
    layout: ColorLayout,
    timestamp_ms: u64,
}

/// The mathematical content of a `Frame`.
pub struct FrameView {
    pub pixels: Seq<u8>,
    pub width: u32,
    pub height: u32,
    pub layout: ColorLayout,
    pub timestamp_ms: u64,
}

impl View for Frame {
    type V = FrameView;

    closed spec fn view(&self) -> FrameView {
        FrameView {
            pixels: self.pixels@,
            width: self.width,
            height: self.height,
            layout: self.layout,
            timestamp_ms: self.timestamp_ms,
        }
    }
}

/// The view of an optional frame.
pub open spec fn opt_frame(frame: Option<Frame>) -> Option<FrameView> {
    match frame {
        Some(f) => Some(f@),
        None => None,
    }
}

/// `p` with the first and third byte of every complete pixel exchanged; bytes
/// past the last complete pixel stay as they are.
pub open spec fn swapped_channels(p: Seq<u8>) -> Seq<u8> {
    Seq::new(
        p.len(),
        |i: int|
            if i >= 3 * (p.len() as int / 3) {
                p[i]
            } else if i % 3 == 0 {
                p[i + 2]
            } else if i % 3 == 2 {
                p[i - 2]
            } else {
                p[i]
            },
    )
}

/// The pixels of `frame` in RGB order.
pub open spec fn rgb_pixels(frame: FrameView) -> Seq<u8> {
    if frame.layout == ColorLayout::Bgr {
        swapped_channels(frame.pixels)
    } else {
        frame.pixels
    }
}

/// `frame` as an RGB frame of the same size and time.
pub open spec fn rgb_frame(frame: FrameView) -> FrameView {
    FrameView {
        pixels: rgb_pixels(frame),
        width: frame.width,
        height: frame.height,
        layout: ColorLayout::Rgb,
        timestamp_ms: frame.timestamp_ms,
    }
}

/// Exchanges the first and third byte of every complete pixel.
pub fn swap_channels(pixels: &Vec<u8>) -> (r: Vec<u8>)
    ensures
        r@ == swapped_channels(pixels@),
{
    let n: usize = pixels.len();
    let whole: usize = n - n % 3;
    let mut r: Vec<u8> = Vec::new();
    let mut i: usize = 0;
    while i < whole
        invariant
            n == pixels@.len(),
            whole == 3 * (n as int / 3),
            i <= whole,
            i % 3 == 0,
            r@.len() == i,
            forall|k: int| 0 <= k < i ==> r@[k] == swapped_channels(pixels@)[k],
        decreases whole - i,
    {
        r.push(pixels[i + 2]);
        r.push(pixels[i + 1]);
        r.push(pixels[i]);
        i += 3;
    }
    while i < n
        invariant
            n == pixels@.len(),
            whole == 3 * (n as int / 3),
            whole <= i <= n,
            r@.len() == i,
            forall|k: int| 0 <= k < i ==> r@[k] == swapped_channels(pixels@)[k],
        decreases n - i,
    {
        r.push(pixels[i]);
        i += 1;
    }
    assert(r@ =~= swapped_channels(pixels@));
    r
}

impl Frame {
    /// A frame with the given content.
    pub fn new(pixels: Vec<u8>, width: u32, height: u32, layout: ColorLayout, timestamp_ms: u64) -> (r:
        Frame)
        ensures
            r@ == (FrameView { pixels: pixels@, width, height, layout, timestamp_ms }),
    {
        Frame { pixels, width, height, layout, timestamp_ms }
    }

    /// The pixel bytes.
    pub fn pixels(&self) -> (r: &Vec<u8>)
        ensures
            r@ == self@.pixels,
    {
        &self.pixels
    }

    /// The width in pixels.
    pub fn width(&self) -> (r: u32)
        ensures
            r == self@.width,
    {
        self.width
    }

    /// The height in pixels.
    pub fn height(&self) -> (r: u32)
        ensures
            r == self@.height,
    {
        self.height
    }

    /// The channel order of the pixel bytes.
    pub fn layout(&self) -> (r: ColorLayout)
        ensures
            r == self@.layout,
    {
        self.layout
    }

    /// When the frame was captured, in milliseconds.
    pub fn timestamp_ms(&self) -> (r: u64)
        ensures
            r == self@.timestamp_ms,
    {
        self.timestamp_ms
    }

    /// A frame with no pixels, as a device delivers when it has nothing.
    pub fn is_empty(&self) -> (r: bool)
        ensures
            r == (self@.pixels.len() == 0),
    {
        self.pixels.len() == 0
    }
}

impl Clone for Frame {
    /// An independent copy with the same content.
    fn clone(&self) -> (r: Frame)
        ensures
            r@ == self@,
    {
        let pixels = self.pixels.clone();
        assert(pixels@ =~= self.pixels@);
        Frame {
            pixels,
            width: self.width,
            height: self.height,
            layout: self.layout,
            timestamp_ms: self.timestamp_ms,
        }
    }
}

/// Brings a frame into RGB order for display or encoding. The frame is
/// refused when its buffer is too small for its dimensions.
pub fn mat_to_rgb_image(mat: &Frame) -> (r: Result<Frame, MicroscopeError>)
    ensures
        match r {
            Ok(rgb) => rgb_buffer_fits(mat@.width, mat@.height, mat@.pixels.len()) && rgb@
                == rgb_frame(mat@),
            Err(e) => !rgb_buffer_fits(mat@.width, mat@.height, mat@.pixels.len()) && (e matches MicroscopeError::CaptureError(
                m,
            ) && m@ == "Image conversion failed"@),
        },
{
    let data = match mat.layout {
        ColorLayout::Bgr => swap_channels(&mat.pixels),
        ColorLayout::Rgb => {
            let copy = mat.pixels.clone();
            assert(copy@ =~= mat.pixels@);
            copy
        },
    };
    match rgb_image_buffer(mat.width, mat.height, data) {
        Some(pixels) => Ok(
            Frame {
                pixels,
                width: mat.width,
                height: mat.height,
                layout: ColorLayout::Rgb,
                timestamp_ms: mat.timestamp_ms,
            },
        ),
        None => Err(MicroscopeError::CaptureError(String::from_str("Image conversion failed"))),
    }
}

/// Holds the most recent frame. Writing replaces what was there; reading
/// hands out a copy, so a reader's frame is its own.
#[derive(Debug)]
pub struct FrameSlot {
    current: Option<Frame>,
}

impl View for FrameSlot {
    type V = Option<FrameView>;

    closed spec fn view(&self) -> Option<FrameView> {
        opt_frame(self.current)
    }
}

impl FrameSlot {
    /// What the slot holds after `frame` is published, whatever it held before.
    pub open spec fn after_publish(before: Option<FrameView>, frame: FrameView) -> Option<
        FrameView,
    > {
        Some(frame)
    }

    /// What a reader receives from a slot that holds `content`.
    pub open spec fn snapshot_of(content: Option<FrameView>) -> Option<FrameView> {
        content
    }

    /// An empty slot.
    pub fn new() -> (r: FrameSlot)
        ensures
            r@ is None,
    {
        FrameSlot { current: None }
    }

    /// Tells whether nothing has been published yet.
    pub fn is_empty(&self) -> (r: bool)
        ensures
            r == (self@ is None),
    {
        self.current.is_none()
    }

    /// Puts `frame` in the slot; the frame that was there is dropped.
    pub fn publish(&mut self, frame: Frame)
        ensures
            final(self)@ == Self::after_publish(old(self)@, frame@),
    {
        self.current = Some(frame);
    }

    /// A copy of the frame in the slot. The slot keeps its own.
    pub fn snapshot(&self) -> (r: Option<Frame>)
        ensures
            opt_frame(r) == Self::snapshot_of(self@),
    {
        match &self.current {
            Some(frame) => Some(frame.clone()),
            None => None,
        }
    }
}

/// A snapshot is a value of its own: it holds what the slot held when it was
/// taken, and publishing afterwards changes the slot, not the snapshot. A
/// reader who asks again after the publish receives the new frame.
pub proof fn lemma_snapshot_outlives_publish(content: Option<FrameView>, next: FrameView)
    ensures
        FrameSlot::snapshot_of(content) == content,
        FrameSlot::snapshot_of(FrameSlot::after_publish(content, next)) == Some(next),
{
}

} // verus!
