use wgpu_rgb8_demo::producer::{FpsReport, FPS_WINDOW_NANOS, TILE};
use wgpu_rgb8_demo::Producer;

fn ramp(height: usize) -> Vec<u8> {
    (0..height)
        .map(|y| (255.0 * (y as f32 / height as f32)) as u8)
        .collect()
}

fn pixel(frame: &[u8], width: usize, x: usize, y: usize) -> [u8; 3] {
    let at = 3 * (y * width + x);
    [frame[at], frame[at + 1], frame[at + 2]]
}

#[test]
fn a_frame_has_three_bytes_for_each_pixel() {
    let mut producer = Producer::new_with_size(400, 300, ramp(300), 0);
    assert_eq!(producer.next_frame().len(), 3 * 400 * 300);
    assert_eq!(producer.next_frame().len(), 360_000);
    let mut narrow = Producer::new_with_size(7, 3, ramp(3), 0);
    assert_eq!(narrow.next_frame().len(), 63);
}

#[test]
fn an_empty_size_gives_an_empty_frame() {
    let mut no_width = Producer::new_with_size(0, 5, ramp(5), 0);
    assert!(no_width.next_frame().is_empty());
    let mut no_height = Producer::new_with_size(5, 0, Vec::new(), 0);
    assert!(no_height.next_frame().is_empty());
}

#[test]
fn the_same_counter_and_size_give_the_same_bytes() {
    let mut first = Producer::new_with_size(64, 48, ramp(48), 0);
    let mut second = Producer::new_with_size(64, 48, ramp(48), 999_999_999_999);
    assert_eq!(second.report_fps(2_000_000_000_000), Some(FpsReport { frames: 0, elapsed_nanos: 1_000_000_000_001 }));
    for _ in 0..4 {
        assert_eq!(first.frame(), second.frame());
        assert_eq!(first.next_frame(), second.next_frame());
    }
}

#[test]
fn even_frames_are_dark() {
    let mut producer = Producer::new_with_size(30, 30, ramp(30), 0);
    let frame = producer.next_frame();
    assert!(frame.iter().all(|b| *b == 0));
    producer.next_frame();
    let third = producer.next_frame();
    assert!(third.iter().all(|b| *b == 0));
}

#[test]
fn frames_alternate_between_two_levels() {
    let mut producer = Producer::new_with_size(30, 30, ramp(30), 0);
    let f0 = producer.next_frame();
    let f1 = producer.next_frame();
    let f2 = producer.next_frame();
    let f3 = producer.next_frame();
    assert_eq!(f0, f2);
    assert_eq!(f1, f3);
    assert_ne!(f0, f1);
}

#[test]
fn odd_frames_show_the_checkerboard() {
    let width: usize = 40;
    let height: usize = 300;
    let mut producer = Producer::new_with_size(width, height, ramp(height), 0);
    producer.next_frame();
    let frame = producer.next_frame();
    assert_eq!(pixel(&frame, width, 0, 0), [0, 0, 0]);
    assert_eq!(pixel(&frame, width, 0, 20), [17, 0, 0]);
    assert_eq!(pixel(&frame, width, 9, 29), [24, 0, 0]);
    assert_eq!(pixel(&frame, width, 10, 20), [0, 0, 17]);
    assert_eq!(pixel(&frame, width, 19, 20), [0, 0, 17]);
    assert_eq!(pixel(&frame, width, 20, 20), [17, 0, 0]);
    assert_eq!(pixel(&frame, width, 0, 150), [0, 0, 127]);
    assert_eq!(pixel(&frame, width, 10, 150), [127, 0, 0]);
    assert_eq!(pixel(&frame, width, 39, 299), [254, 0, 0]);
    assert_eq!(pixel(&frame, width, 0, 299), [0, 0, 254]);
}

#[test]
fn a_tile_has_one_channel() {
    assert_eq!(TILE, 10);
    let width: usize = 25;
    let height: usize = 25;
    let mut producer = Producer::new_with_size(width, height, vec![200; height], 0);
    producer.next_frame();
    let frame = producer.next_frame();
    for y in 0..height {
        for x in 0..width {
            let first = (x / 10) % 2 == (y / 10) % 2;
            let expected = if first { [200, 0, 0] } else { [0, 0, 200] };
            assert_eq!(pixel(&frame, width, x, y), expected);
        }
    }
}

#[test]
fn each_row_shows_its_own_shade() {
    let mut producer = Producer::new_with_size(1, 4, vec![9, 99, 199, 255], 0);
    producer.next_frame();
    assert_eq!(
        producer.next_frame(),
        vec![9, 0, 0, 99, 0, 0, 199, 0, 0, 255, 0, 0]
    );
}

#[test]
fn the_counter_advances_by_one() {
    let mut producer = Producer::new_with_size(2, 2, ramp(2), 0);
    assert_eq!(producer.frame(), 0);
    assert_eq!(producer.width(), 2);
    assert_eq!(producer.height(), 2);
    producer.next_frame();
    assert_eq!(producer.frame(), 1);
    producer.next_frame();
    assert_eq!(producer.frame(), 2);
}

#[test]
fn a_running_window_reports_nothing() {
    let mut producer = Producer::new_with_size(2, 2, ramp(2), 1_000);
    producer.next_frame();
    assert_eq!(producer.report_fps(1_000), None);
    assert_eq!(producer.report_fps(1_000 + FPS_WINDOW_NANOS - 1), None);
    assert_eq!(producer.report_fps(0), None);
}

#[test]
fn a_full_window_reports_its_frames_and_starts_anew() {
    assert_eq!(FPS_WINDOW_NANOS, 5_000_000_000);
    let mut producer = Producer::new_with_size(2, 2, ramp(2), 1_000);
    for _ in 0..3 {
        producer.next_frame();
    }
    assert_eq!(
        producer.report_fps(5_000_001_000),
        Some(FpsReport { frames: 3, elapsed_nanos: 5_000_000_000 })
    );
    assert_eq!(producer.report_fps(5_000_001_001), None);
    producer.next_frame();
    producer.next_frame();
    assert_eq!(
        producer.report_fps(12_000_001_000),
        Some(FpsReport { frames: 2, elapsed_nanos: 7_000_000_000 })
    );
    assert_eq!(producer.frame(), 5);
}
