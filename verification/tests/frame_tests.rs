use wootili_view::color::Rgb;
use wootili_view::downscale::{
    average_color, can_resize, downscale, downscale_index_to_filter, filter_to_downscale_index,
    DownscaleMethod,
};
use wootili_view::frame::Frame;

fn solid(width: u32, height: u32, rgba: [u8; 4]) -> Frame {
    let mut pixels = Vec::new();
    for _ in 0..(width * height) {
        pixels.extend_from_slice(&rgba);
    }
    Frame::from_raw(width, height, pixels).unwrap()
}

#[test]
fn from_raw_wants_the_exact_length() {
    assert!(Frame::from_raw(2, 2, vec![0; 16]).is_some());
    assert!(Frame::from_raw(2, 2, vec![0; 15]).is_none());
    assert!(Frame::from_raw(2, 2, vec![0; 17]).is_none());
    assert!(Frame::from_raw(0, 5, vec![]).is_some());
    assert!(Frame::from_raw(0, 0, vec![0]).is_none());
}

#[test]
fn from_raw_keeps_what_it_was_given() {
    let frame = Frame::from_raw(2, 1, vec![1, 2, 3, 4, 5, 6, 7, 8]).unwrap();
    assert_eq!(frame.width(), 2);
    assert_eq!(frame.height(), 1);
    assert_eq!(frame.dimensions(), (2, 1));
    assert_eq!(frame.as_raw(), &vec![1, 2, 3, 4, 5, 6, 7, 8]);
    assert_eq!(frame.into_raw(), vec![1, 2, 3, 4, 5, 6, 7, 8]);
}

#[test]
fn blank_is_one_transparent_pixel() {
    let frame = Frame::blank();
    assert_eq!(frame.dimensions(), (1, 1));
    assert_eq!(frame.as_raw(), &vec![0, 0, 0, 0]);
}

#[test]
fn pixels_are_read_row_after_row() {
    let frame = Frame::from_raw(
        2,
        2,
        vec![1, 2, 3, 255, 4, 5, 6, 255, 7, 8, 9, 255, 10, 11, 12, 255],
    )
    .unwrap();
    assert_eq!(frame.get_pixel(0, 0), Some(Rgb { r: 1, g: 2, b: 3 }));
    assert_eq!(frame.get_pixel(1, 0), Some(Rgb { r: 4, g: 5, b: 6 }));
    assert_eq!(frame.get_pixel(0, 1), Some(Rgb { r: 7, g: 8, b: 9 }));
    assert_eq!(frame.get_pixel(1, 1), Some(Rgb { r: 10, g: 11, b: 12 }));
    assert_eq!(frame.pixel(1, 1), Rgb { r: 10, g: 11, b: 12 });
    assert_eq!(frame.get_pixel(2, 0), None);
    assert_eq!(frame.get_pixel(0, 2), None);
}

#[test]
fn same_as_compares_size_and_bytes() {
    let a = solid(2, 2, [1, 2, 3, 4]);
    let b = solid(2, 2, [1, 2, 3, 4]);
    let c = solid(2, 2, [1, 2, 3, 5]);
    let d = solid(4, 1, [1, 2, 3, 4]);
    assert!(a.same_as(&b));
    assert!(!a.same_as(&c));
    assert!(!a.same_as(&d));
    assert!(a.same_as(&a.duplicate()));
}

#[test]
fn downscale_gives_the_size_asked_for() {
    let frame = solid(8, 6, [10, 20, 30, 255]);
    for method in [
        DownscaleMethod::Nearest,
        DownscaleMethod::Triangle,
        DownscaleMethod::CatmullRom,
        DownscaleMethod::Gaussian,
        DownscaleMethod::Lanczos3,
    ] {
        let small = downscale(&frame, 4, 3, method).unwrap();
        assert_eq!(small.dimensions(), (4, 3));
        assert_eq!(small.as_raw().len(), 4 * 3 * 4);
    }
}

#[test]
fn downscale_of_a_solid_frame_is_solid() {
    let frame = solid(28, 10, [10, 20, 30, 255]);
    let small = downscale(&frame, 14, 5, DownscaleMethod::Triangle).unwrap();
    for y in 0..5 {
        for x in 0..14 {
            assert_eq!(small.get_pixel(x, y), Some(Rgb { r: 10, g: 20, b: 30 }));
        }
    }
}

#[test]
fn downscale_to_the_same_size_is_a_copy() {
    let frame = Frame::from_raw(2, 1, vec![1, 2, 3, 4, 5, 6, 7, 8]).unwrap();
    let same = downscale(&frame, 2, 1, DownscaleMethod::Lanczos3).unwrap();
    assert!(same.same_as(&frame));
}

#[test]
fn downscale_to_nothing_is_empty() {
    let frame = solid(8, 6, [10, 20, 30, 255]);
    let none = downscale(&frame, 0, 0, DownscaleMethod::Triangle).unwrap();
    assert_eq!(none.dimensions(), (0, 0));
    assert!(none.as_raw().is_empty());
    let flat = downscale(&frame, 3, 0, DownscaleMethod::Triangle).unwrap();
    assert_eq!(flat.dimensions(), (3, 0));
    assert!(flat.as_raw().is_empty());
}

#[test]
fn downscale_refuses_what_cannot_be_allocated() {
    let frame = solid(2, 2, [0, 0, 0, 0]);
    assert!(downscale(&frame, u32::MAX, u32::MAX, DownscaleMethod::Nearest).is_none());
    assert!(!can_resize(2, u32::MAX, u32::MAX));
    assert!(can_resize(1920, 17, 6));
    assert!(can_resize(0, 0, 0));
}

#[test]
fn average_of_one_pixel_is_the_pixel() {
    let frame = solid(1, 1, [230, 20, 30, 255]);
    assert_eq!(average_color(&frame), Some(Rgb { r: 230, g: 20, b: 30 }));
}

#[test]
fn average_of_a_solid_frame_is_its_colour() {
    let frame = solid(14, 5, [230, 20, 30, 255]);
    assert_eq!(average_color(&frame), Some(Rgb { r: 230, g: 20, b: 30 }));
}

#[test]
fn average_of_nothing_is_none() {
    let frame = solid(0, 0, [0, 0, 0, 0]);
    assert_eq!(average_color(&frame), None);
    let flat = solid(3, 0, [0, 0, 0, 0]);
    assert_eq!(average_color(&flat), None);
}

#[test]
fn filter_indices_round_trip() {
    let methods = [
        DownscaleMethod::Nearest,
        DownscaleMethod::Triangle,
        DownscaleMethod::CatmullRom,
        DownscaleMethod::Gaussian,
        DownscaleMethod::Lanczos3,
    ];
    for (index, method) in methods.iter().enumerate() {
        assert_eq!(filter_to_downscale_index(*method), index as u8);
        assert_eq!(downscale_index_to_filter(index as u8), *method);
    }
}

#[test]
fn unknown_filter_index_is_nearest() {
    assert_eq!(downscale_index_to_filter(5), DownscaleMethod::Nearest);
    assert_eq!(downscale_index_to_filter(255), DownscaleMethod::Nearest);
}
