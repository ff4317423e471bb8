use draw_read::capture::{capture, CaptureBuffer, CaptureError, RawCapture};
use draw_read::geometry::ScaleFactor;

fn unit() -> ScaleFactor {
    ScaleFactor::identity()
}

fn bytes(count: usize) -> Vec<u8> {
    (0..count).map(|k| (k % 256) as u8).collect()
}

#[test]
fn a_buffer_holds_four_bytes_for_each_pixel() {
    let buffer = CaptureBuffer::new(bytes(24), 3, 2, unit()).unwrap();
    assert_eq!(buffer.size(), (3, 2));
    assert_eq!(buffer.width(), 3);
    assert_eq!(buffer.height(), 2);
    assert_eq!(buffer.scale(), unit());
    assert_eq!(buffer.bytes(), &bytes(24));
    assert_eq!(buffer.to_frame(), bytes(24));
    assert_eq!(buffer.into_bytes(), bytes(24));
}

#[test]
fn a_buffer_keeps_the_scale_of_its_monitor() {
    let scale = ScaleFactor::new(3, 2).unwrap();
    let buffer = CaptureBuffer::new(bytes(4), 1, 1, scale).unwrap();
    assert_eq!(buffer.scale(), scale);
}

#[test]
fn a_buffer_with_too_few_or_too_many_bytes_is_refused() {
    assert_eq!(CaptureBuffer::new(bytes(23), 3, 2, unit()), None);
    assert_eq!(CaptureBuffer::new(bytes(25), 3, 2, unit()), None);
    assert_eq!(CaptureBuffer::new(bytes(6), 3, 2, unit()), None);
    assert_eq!(CaptureBuffer::new(Vec::new(), 3, 2, unit()), None);
}

#[test]
fn a_buffer_without_pixels_is_refused() {
    assert_eq!(CaptureBuffer::new(Vec::new(), 0, 0, unit()), None);
    assert_eq!(CaptureBuffer::new(Vec::new(), 0, 5, unit()), None);
    assert_eq!(CaptureBuffer::new(Vec::new(), 5, 0, unit()), None);
}

#[test]
fn a_capture_becomes_a_buffer() {
    let raw = RawCapture {
        bytes: bytes(48),
        width: 4,
        height: 3,
    };
    let scale = ScaleFactor::new(5, 4).unwrap();
    let buffer = capture(scale, Ok(raw)).unwrap();
    assert_eq!(buffer.size(), (4, 3));
    assert_eq!(buffer.scale(), scale);
    assert_eq!(buffer.bytes(), &bytes(48));
}

#[test]
fn a_failed_capture_is_handed_on() {
    assert_eq!(
        capture(unit(), Err(CaptureError::NoMonitor)),
        Err(CaptureError::NoMonitor)
    );
    assert_eq!(
        capture(unit(), Err(CaptureError::PermissionDenied)),
        Err(CaptureError::PermissionDenied)
    );
    assert_eq!(
        capture(unit(), Err(CaptureError::InvalidBitmap)),
        Err(CaptureError::InvalidBitmap)
    );
}

#[test]
fn a_capture_that_is_no_bitmap_is_refused() {
    let short = RawCapture {
        bytes: bytes(47),
        width: 4,
        height: 3,
    };
    assert_eq!(capture(unit(), Ok(short)), Err(CaptureError::InvalidBitmap));
    let empty = RawCapture {
        bytes: Vec::new(),
        width: 0,
        height: 0,
    };
    assert_eq!(capture(unit(), Ok(empty)), Err(CaptureError::InvalidBitmap));
    let flat = RawCapture {
        bytes: Vec::new(),
        width: 7,
        height: 0,
    };
    assert_eq!(capture(unit(), Ok(flat)), Err(CaptureError::InvalidBitmap));
}
