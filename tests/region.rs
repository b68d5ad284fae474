use pixel_peeker::color::Rgb;
use pixel_peeker::geometry::{Display, Point};
use pixel_peeker::region::{build_grid, build_sample, capture_region, plan_capture, CapturePlan, PixelBuffer, SampleError};

fn d1() -> Display {
    Display::new(1, 0, 0, 1920, 1080, 1920, 1080).unwrap()
}

fn d2() -> Display {
    Display::new(2, 1920, 0, 1920, 1080, 3840, 2160).unwrap()
}

/// A buffer whose pixel (c, r) is (c, r, c + r), with the given channel count.
fn coded_buffer(width: u32, height: u32, channels: u32) -> PixelBuffer {
    let mut data = Vec::new();
    for r in 0..height {
        for c in 0..width {
            data.push(c as u8);
            data.push(r as u8);
            data.push((c + r) as u8);
            for _ in 3..channels {
                data.push(255);
            }
        }
    }
    PixelBuffer::new(width, height, channels, data).unwrap()
}

fn plan_for(display: Display, x: u32, y: u32, window: u32) -> CapturePlan {
    let plan = plan_capture(Point { x: display.x + x as i32, y: display.y + y as i32 }, &vec![display], window)
        .unwrap();
    assert_eq!((plan.location.x, plan.location.y), (x, y));
    plan
}

#[test]
fn origin_pixel_pushes_window_inward() {
    let plan = plan_capture(Point { x: 0, y: 0 }, &vec![d1(), d2()], 21).unwrap();
    let r = plan.region;
    assert_eq!((r.x, r.y, r.width, r.height), (0, 0, 21, 21));
    assert_eq!((r.offset_x, r.offset_y), (10, 10));
    let focus = (21 / 2 - r.offset_x, 21 / 2 - r.offset_y);
    assert_eq!(focus, (0, 0));
    assert_ne!(focus, (10, 10));
}

#[test]
fn scaled_display_region_is_not_pushed() {
    let plan = plan_capture(Point { x: 1930, y: 10 }, &vec![d1(), d2()], 21).unwrap();
    assert_eq!(plan.location.index, 1);
    assert_eq!((plan.location.x, plan.location.y), (20, 20));
    let r = plan.region;
    assert_eq!((r.x, r.y, r.width, r.height), (10, 10, 21, 21));
    assert_eq!((r.offset_x, r.offset_y), (0, 0));
}

#[test]
fn far_corner_pushes_window_back() {
    let r = capture_region(&d1(), 1919, 1079, 21);
    assert_eq!((r.x, r.y, r.width, r.height), (1899, 1059, 21, 21));
    assert_eq!((r.offset_x, r.offset_y), (-10, -10));
    assert_eq!((21 / 2 - r.offset_x, 21 / 2 - r.offset_y), (20, 20));
}

#[test]
fn small_display_shrinks_region() {
    let tiny = Display::new(9, 0, 0, 5, 3, 5, 3).unwrap();
    let r = capture_region(&tiny, 2, 1, 21);
    assert_eq!((r.x, r.y, r.width, r.height), (0, 0, 5, 3));
    assert_eq!((r.offset_x, r.offset_y), (8, 9));
}

#[test]
fn point_off_displays_is_a_locate_miss() {
    assert_eq!(plan_capture(Point { x: -5, y: -5 }, &vec![d1(), d2()], 21).unwrap_err(), SampleError::LocateMiss);
    assert_eq!(plan_capture(Point { x: 3840, y: 0 }, &vec![d1(), d2()], 21).unwrap_err(), SampleError::LocateMiss);
}

#[test]
fn no_displays_is_an_enumeration_failure() {
    assert_eq!(plan_capture(Point { x: 0, y: 0 }, &Vec::new(), 21).unwrap_err(), SampleError::EnumerationFailure);
}

#[test]
fn sample_grid_is_the_captured_rectangle() {
    let plan = plan_for(d1(), 0, 0, 21);
    let buf = coded_buffer(21, 21, 4);
    let s = build_sample(&plan, &buf).unwrap();
    assert_eq!(s.grid.len(), 21 * 21);
    assert_eq!((s.focus_x, s.focus_y), (0, 0));
    assert_eq!(s.color, Rgb::new(0, 0, 0));
    assert_eq!(s.grid[5 * 21 + 7], Rgb::new(7, 5, 12));
    assert_eq!(s.grid[20 * 21 + 20], Rgb::new(20, 20, 40));
    assert_eq!(s.point, Point { x: 0, y: 0 });
}

#[test]
fn sample_colour_is_the_query_pixel() {
    let plan = plan_for(d1(), 1915, 3, 21);
    assert_eq!((plan.region.x, plan.region.y), (1899, 0));
    let buf = coded_buffer(21, 21, 3);
    let s = build_sample(&plan, &buf).unwrap();
    assert_eq!((s.focus_x, s.focus_y), (16, 3));
    assert_eq!(s.color, Rgb::new(16, 3, 19));
    assert_eq!(s.grid[3 * 21 + 16], s.color);
}

#[test]
fn grid_is_padded_with_black_on_small_display() {
    let tiny = Display::new(9, 0, 0, 5, 3, 5, 3).unwrap();
    let plan = plan_for(tiny, 2, 1, 21);
    let buf = coded_buffer(5, 3, 4);
    let s = build_sample(&plan, &buf).unwrap();
    assert_eq!(s.grid.len(), 441);
    assert_eq!((s.focus_x, s.focus_y), (2, 1));
    assert_eq!(s.color, Rgb::new(2, 1, 3));
    assert_eq!(s.grid[2 * 21 + 4], Rgb::new(4, 2, 6));
    assert_eq!(s.grid[2 * 21 + 5], Rgb::black());
    assert_eq!(s.grid[3 * 21], Rgb::black());
    assert_eq!(s.grid[440], Rgb::black());
}

#[test]
fn grid_size_is_window_squared_everywhere() {
    let buf = coded_buffer(21, 21, 4);
    for &(x, y) in &[(0, 0), (10, 10), (1919, 1079), (960, 0), (0, 540)] {
        let plan = plan_for(d1(), x, y, 21);
        let s = build_sample(&plan, &buf).unwrap();
        assert_eq!(s.grid.len(), 441);
    }
    let plan = plan_for(d1(), 4, 4, 3);
    let s = build_sample(&plan, &coded_buffer(3, 3, 4)).unwrap();
    assert_eq!(s.grid.len(), 9);
    assert_eq!((s.focus_x, s.focus_y), (1, 1));
}

#[test]
fn short_buffer_is_a_failed_capture() {
    let plan = plan_for(d1(), 100, 100, 21);
    assert_eq!((plan.region.offset_x, plan.region.offset_y), (0, 0));
    assert_eq!(build_sample(&plan, &coded_buffer(10, 21, 4)).unwrap_err(), SampleError::CaptureUnavailable);
    assert_eq!(build_sample(&plan, &coded_buffer(21, 10, 4)).unwrap_err(), SampleError::CaptureUnavailable);
    assert_eq!(build_sample(&plan, &coded_buffer(0, 0, 4)).unwrap_err(), SampleError::CaptureUnavailable);
    assert!(build_sample(&plan, &coded_buffer(22, 21, 4)).is_ok());
}

#[test]
fn short_buffer_holding_query_pixel_is_padded() {
    let plan = plan_for(d1(), 100, 100, 21);
    let s = build_sample(&plan, &coded_buffer(12, 15, 4)).unwrap();
    assert_eq!(s.grid.len(), 441);
    assert_eq!(s.color, Rgb::new(10, 10, 20));
    assert_eq!(s.grid[14 * 21 + 11], Rgb::new(11, 14, 25));
    assert_eq!(s.grid[14 * 21 + 12], Rgb::black());
    assert_eq!(s.grid[15 * 21], Rgb::black());
}

#[test]
fn grid_is_full_size_for_any_buffer() {
    let plan = plan_for(d1(), 0, 0, 21);
    for &(w, h) in &[(0, 0), (1, 1), (5, 30), (21, 21), (40, 40)] {
        let grid = build_grid(&plan, &coded_buffer(w, h, 4));
        assert_eq!(grid.len(), 441);
    }
    let empty = build_grid(&plan, &coded_buffer(0, 0, 3));
    assert!(empty.iter().all(|&c| c == Rgb::black()));
}

#[test]
fn pixel_buffer_checks_its_length() {
    assert!(PixelBuffer::new(2, 2, 4, vec![0; 16]).is_some());
    assert!(PixelBuffer::new(2, 2, 4, vec![0; 15]).is_none());
    assert!(PixelBuffer::new(2, 2, 2, vec![0; 8]).is_none());
    let buf = coded_buffer(3, 2, 4);
    assert_eq!((buf.width(), buf.height()), (3, 2));
    assert_eq!(buf.pixel_at(2, 1), Some(Rgb::new(2, 1, 3)));
    assert_eq!(buf.pixel_at(3, 1), None);
    assert_eq!(buf.pixel_at(0, 2), None);
}
