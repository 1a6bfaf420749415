use camscan::capture::{
    capture_image, is_image_content_type, prepare_capture, prepare_save_at, timestamp_name, LocalTimestamp,
};
use camscan::decimal::{decimal_string, digit_count, padded_decimal_string};
use camscan::frame::{CapturedImage, FrameStore};
use camscan::AppError;

fn encoded(width: u32, height: u32, format: image::ImageFormat) -> Vec<u8> {
    let img = image::DynamicImage::ImageRgb8(image::RgbImage::from_pixel(width, height, image::Rgb([90, 60, 30])));
    let mut buf = Vec::new();
    img.write_to(&mut std::io::Cursor::new(&mut buf), format).unwrap();
    buf
}

fn at(year: i32) -> LocalTimestamp {
    LocalTimestamp { year, month: 3, day: 5, hour: 7, minute: 8, second: 9 }
}

#[test]
fn content_type_prefix() {
    assert!(is_image_content_type("image/jpeg"));
    assert!(is_image_content_type("image/"));
    assert!(!is_image_content_type("text/html"));
    assert!(!is_image_content_type("image"));
    assert!(!is_image_content_type("Image/png"));
    assert!(!is_image_content_type(""));
}

#[test]
fn capture_rejects_html_and_keeps_the_store() {
    let mut store = FrameStore::new();
    store.set(CapturedImage::from_rgb(1, 1, vec![1, 2, 3]).unwrap());
    let r = capture_image(&mut store, 200, Some("text/html".to_string()), &encoded(5, 5, image::ImageFormat::Png));
    match r {
        Err(AppError::InvalidContentType(t)) => assert_eq!(t, "text/html"),
        other => panic!("unexpected {:?}", other),
    }
    let held = store.get().unwrap();
    assert_eq!((held.width, held.height), (1, 1));
    assert_eq!(held.pixels, vec![1, 2, 3]);
}

#[test]
fn capture_reports_server_errors_with_the_body() {
    let mut store = FrameStore::new();
    let r = capture_image(&mut store, 404, Some("text/plain".to_string()), &b"no such camera".to_vec());
    match r {
        Err(AppError::ServerError { status, message }) => {
            assert_eq!(status, 404);
            assert_eq!(message, "no such camera");
        }
        other => panic!("unexpected {:?}", other),
    }
    assert!(store.get().is_none());
}

#[test]
fn capture_reports_undecodable_bodies() {
    let mut store = FrameStore::new();
    let r = capture_image(&mut store, 200, Some("image/jpeg".to_string()), &b"garbage".to_vec());
    assert!(matches!(r, Err(AppError::ImageProcessing(_))));
    assert!(store.get().is_none());
}

#[test]
fn capture_stores_the_decoded_frame() {
    let mut store = FrameStore::new();
    let r = capture_image(&mut store, 200, Some("image/png".to_string()), &encoded(7, 4, image::ImageFormat::Png));
    assert_eq!(r.unwrap(), "Image captured successfully");
    let held = store.get().unwrap();
    assert_eq!((held.width, held.height), (7, 4));
    assert_eq!(&held.pixels[..3], &[90, 60, 30]);
    // a missing content type is accepted
    let img = prepare_capture(200, None, &encoded(2, 3, image::ImageFormat::Jpeg)).unwrap();
    assert_eq!((img.width, img.height), (2, 3));
}

#[test]
fn captured_then_saved_png_has_the_same_size() {
    let mut store = FrameStore::new();
    capture_image(&mut store, 200, Some("image/jpeg".to_string()), &encoded(33, 21, image::ImageFormat::Jpeg)).unwrap();
    let job = prepare_save_at(&store.snapshot(), &at(2024)).unwrap();
    assert_eq!(job.file_name, "2024-03-05-07-08-09.png");
    let back = image::load_from_memory_with_format(&job.png, image::ImageFormat::Png).unwrap();
    assert_eq!((back.width(), back.height()), (33, 21));
}

#[test]
fn saving_without_a_frame_fails() {
    assert!(matches!(prepare_save_at(&None, &at(2024)), Err(AppError::NoImage)));
}

#[test]
fn saved_file_name_follows_the_timestamp() {
    let snapshot = Some(CapturedImage::from_rgb(2, 1, vec![0, 0, 0, 255, 255, 255]).unwrap());
    let ts = LocalTimestamp { year: 2025, month: 11, day: 30, hour: 0, minute: 0, second: 59 };
    let job = prepare_save_at(&snapshot, &ts).unwrap();
    assert_eq!(job.file_name, "2025-11-30-00-00-59.png");
    assert_eq!(&job.png[1..4], b"PNG");
}

#[test]
fn timestamp_names_pad_and_sign_years() {
    assert_eq!(timestamp_name(&at(2024)), "2024-03-05-07-08-09");
    assert_eq!(timestamp_name(&at(987)), "0987-03-05-07-08-09");
    assert_eq!(timestamp_name(&at(0)), "0000-03-05-07-08-09");
    assert_eq!(timestamp_name(&at(-5)), "-0005-03-05-07-08-09");
    assert_eq!(timestamp_name(&at(12345)), "+12345-03-05-07-08-09");
    let ts = LocalTimestamp { year: 1999, month: 12, day: 31, hour: 23, minute: 59, second: 58 };
    assert_eq!(timestamp_name(&ts), "1999-12-31-23-59-58");
}

#[test]
fn decimal_notation() {
    assert_eq!(decimal_string(0), "0");
    assert_eq!(decimal_string(254), "254");
    assert_eq!(decimal_string(u64::MAX), "18446744073709551615");
    assert_eq!(digit_count(u64::MAX), 20);
    assert_eq!(digit_count(9), 1);
    assert_eq!(padded_decimal_string(7, 2), "07");
    assert_eq!(padded_decimal_string(123, 2), "123");
    assert_eq!(padded_decimal_string(5, 0), "5");
}
