use microscope::error::MicroscopeError;
use microscope::frame::{mat_to_rgb_image, swap_channels, ColorLayout, Frame, FrameSlot};

#[test]
fn frame_getters_return_what_was_given() {
    let f = Frame::new(vec![1, 2, 3, 4, 5, 6], 2, 1, ColorLayout::Bgr, 99);
    assert_eq!(f.pixels(), &vec![1, 2, 3, 4, 5, 6]);
    assert_eq!(f.width(), 2);
    assert_eq!(f.height(), 1);
    assert_eq!(f.layout(), ColorLayout::Bgr);
    assert_eq!(f.timestamp_ms(), 99);
    assert!(!f.is_empty());
    assert!(Frame::new(vec![], 0, 0, ColorLayout::Rgb, 0).is_empty());
}

#[test]
fn frame_clone_is_equal_and_independent() {
    let f = Frame::new(vec![1, 2, 3], 1, 1, ColorLayout::Rgb, 5);
    let g = f.clone();
    drop(f);
    assert_eq!(g.pixels(), &vec![1, 2, 3]);
    assert_eq!(g.width(), 1);
    assert_eq!(g.height(), 1);
    assert_eq!(g.layout(), ColorLayout::Rgb);
    assert_eq!(g.timestamp_ms(), 5);
}

#[test]
fn swap_channels_exchanges_first_and_third_byte() {
    assert_eq!(swap_channels(&vec![]), Vec::<u8>::new());
    assert_eq!(swap_channels(&vec![1, 2, 3]), vec![3, 2, 1]);
    assert_eq!(swap_channels(&vec![1, 2, 3, 4, 5, 6]), vec![3, 2, 1, 6, 5, 4]);
}

#[test]
fn swap_channels_leaves_an_incomplete_pixel_alone() {
    assert_eq!(swap_channels(&vec![9]), vec![9]);
    assert_eq!(swap_channels(&vec![9, 8]), vec![9, 8]);
    assert_eq!(swap_channels(&vec![1, 2, 3, 9]), vec![3, 2, 1, 9]);
    assert_eq!(swap_channels(&vec![1, 2, 3, 9, 8]), vec![3, 2, 1, 9, 8]);
}

#[test]
fn swap_channels_twice_is_the_identity() {
    let p: Vec<u8> = (0u8..200).collect();
    assert_eq!(swap_channels(&swap_channels(&p)), p);
}

#[test]
fn bgr_frame_becomes_rgb() {
    let f = Frame::new(vec![10, 20, 30, 40, 50, 60], 2, 1, ColorLayout::Bgr, 7);
    let rgb = mat_to_rgb_image(&f).unwrap();
    assert_eq!(rgb.pixels(), &vec![30, 20, 10, 60, 50, 40]);
    assert_eq!(rgb.width(), 2);
    assert_eq!(rgb.height(), 1);
    assert_eq!(rgb.layout(), ColorLayout::Rgb);
    assert_eq!(rgb.timestamp_ms(), 7);
}

#[test]
fn rgb_frame_stays_as_it_is() {
    let f = Frame::new(vec![10, 20, 30], 1, 1, ColorLayout::Rgb, 7);
    let rgb = mat_to_rgb_image(&f).unwrap();
    assert_eq!(rgb.pixels(), &vec![10, 20, 30]);
    assert_eq!(rgb.layout(), ColorLayout::Rgb);
}

#[test]
fn a_buffer_larger_than_needed_is_accepted() {
    let f = Frame::new(vec![1, 2, 3, 4, 5, 6, 7], 1, 2, ColorLayout::Bgr, 0);
    assert_eq!(mat_to_rgb_image(&f).unwrap().pixels(), &vec![3, 2, 1, 6, 5, 4, 7]);
    let g = Frame::new(vec![1, 2, 3, 4, 5, 6], 1, 1, ColorLayout::Rgb, 0);
    assert_eq!(mat_to_rgb_image(&g).unwrap().pixels(), &vec![1, 2, 3, 4, 5, 6]);
}

#[test]
fn a_buffer_too_small_for_its_size_is_refused() {
    for (pixels, w, h) in [(vec![1u8, 2, 3], 2u32, 1u32), (vec![], 1, 1), (vec![1, 2], 1, 1), (vec![0; 11], 2, 2), (vec![0; 12], u32::MAX, u32::MAX)] {
        let f = Frame::new(pixels, w, h, ColorLayout::Bgr, 0);
        match mat_to_rgb_image(&f) {
            Err(MicroscopeError::CaptureError(m)) => assert_eq!(m, "Image conversion failed"),
            other => panic!("unexpected: {:?}", other),
        }
    }
}

#[test]
fn an_image_without_pixels_needs_no_buffer() {
    let f = Frame::new(vec![], 0, 0, ColorLayout::Bgr, 0);
    assert!(mat_to_rgb_image(&f).unwrap().pixels().is_empty());
    let g = Frame::new(vec![], 5, 0, ColorLayout::Bgr, 0);
    assert!(mat_to_rgb_image(&g).is_ok());
}

#[test]
fn new_slot_is_empty() {
    let slot = FrameSlot::new();
    assert!(slot.is_empty());
    assert!(slot.snapshot().is_none());
}

#[test]
fn publish_overwrites() {
    let mut slot = FrameSlot::new();
    slot.publish(Frame::new(vec![1, 1, 1], 1, 1, ColorLayout::Bgr, 1));
    assert!(!slot.is_empty());
    slot.publish(Frame::new(vec![2, 2, 2], 1, 1, ColorLayout::Bgr, 2));
    let snap = slot.snapshot().unwrap();
    assert_eq!(snap.pixels(), &vec![2, 2, 2]);
    assert_eq!(snap.timestamp_ms(), 2);
}

#[test]
fn snapshot_is_not_changed_by_a_later_publish() {
    let mut slot = FrameSlot::new();
    slot.publish(Frame::new(vec![1, 2, 3], 1, 1, ColorLayout::Bgr, 10));
    let snap = slot.snapshot().unwrap();
    slot.publish(Frame::new(vec![7, 8, 9, 7, 8, 9], 2, 1, ColorLayout::Rgb, 20));
    assert_eq!(snap.pixels(), &vec![1, 2, 3]);
    assert_eq!(snap.width(), 1);
    assert_eq!(snap.layout(), ColorLayout::Bgr);
    assert_eq!(snap.timestamp_ms(), 10);
    let later = slot.snapshot().unwrap();
    assert_eq!(later.pixels(), &vec![7, 8, 9, 7, 8, 9]);
    assert_eq!(later.timestamp_ms(), 20);
}

#[test]
fn snapshot_leaves_the_slot_as_it_is() {
    let mut slot = FrameSlot::new();
    slot.publish(Frame::new(vec![1, 2, 3], 1, 1, ColorLayout::Bgr, 10));
    let a = slot.snapshot().unwrap();
    let b = slot.snapshot().unwrap();
    assert_eq!(a.pixels(), b.pixels());
    assert_eq!(a.timestamp_ms(), b.timestamp_ms());
}
