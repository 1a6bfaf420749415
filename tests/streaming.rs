use base64::Engine;
use camscan::frame::{CapturedImage, FrameStore};
use camscan::stream::{
    backoff_delay, image_to_base64, processing_time, stop_stream, store_frame, stream_dims, FetchOutcome,
    LoopAction, StreamPacer, BACKOFF_BASE_MS, BACKOFF_CAP_MS,
};
use camscan::{AppError, StreamState};

fn gray(width: u32, height: u32) -> CapturedImage {
    CapturedImage::from_rgb(width, height, vec![128u8; (width * height * 3) as usize]).unwrap()
}

#[test]
fn stop_stream_twice_succeeds_then_fails() {
    let mut state = Some(StreamState::new());
    assert!(stop_stream(&mut state).is_ok());
    assert!(!state.unwrap().running);
    match stop_stream(&mut state) {
        Err(AppError::Stream(m)) => assert_eq!(m, "Stream not running"),
        other => panic!("unexpected {:?}", other),
    }
}

#[test]
fn stop_without_stream_is_an_error() {
    let mut state: Option<StreamState> = None;
    assert!(matches!(stop_stream(&mut state), Err(AppError::Stream(_))));
    assert!(state.is_none());
}

#[test]
fn backoff_doubles_up_to_the_cap() {
    let expected = [100u64, 200, 400, 800, 1000, 1000, 1000];
    for (n, e) in expected.iter().enumerate() {
        assert_eq!(backoff_delay(BACKOFF_BASE_MS, BACKOFF_CAP_MS, n as u32), *e);
    }
    assert_eq!(backoff_delay(100, 1000, u32::MAX), 1000);
    assert_eq!(backoff_delay(0, 1000, 5), 0);
    assert_eq!(backoff_delay(3, u64::MAX, 70), u64::MAX);
    let mut prev = 0;
    for n in 0..80 {
        let d = backoff_delay(7, 50_000, n);
        assert!(d >= prev);
        assert!(d <= 50_000);
        prev = d;
    }
}

#[test]
fn pacing_waits_between_frames() {
    let mut pacer = StreamPacer::new();
    assert_eq!(pacer.decide(false, 1_000), LoopAction::Stop);
    assert_eq!(pacer.decide(true, 1_000), LoopAction::Fetch(1_000));
    pacer.record_success(1_000, 12, "x".to_string());
    assert_eq!(pacer.decide(true, 1_050), LoopAction::Wait(5));
    assert_eq!(pacer.decide(true, 1_099), LoopAction::Wait(5));
    assert_eq!(pacer.decide(true, 1_100), LoopAction::Fetch(1_100));
    // a clock set back does not stall the stream
    assert_eq!(pacer.decide(true, 900), LoopAction::Fetch(900));
    assert_eq!(pacer.poll(false), LoopAction::Stop);
    assert!(matches!(StreamPacer::new().poll(true), LoopAction::Fetch(_)));
}

#[test]
fn failures_grow_the_delay_and_success_resets_it() {
    let mut pacer = StreamPacer::new();
    let mut delays = Vec::new();
    for _ in 0..5 {
        let (u, d) = pacer.record_failure("boom".to_string());
        assert_eq!(u.error.as_deref(), Some("boom"));
        assert_eq!(u.processing_time_ms, 0);
        assert!(u.image_data.is_none());
        delays.push(d);
    }
    assert_eq!(delays, vec![200, 400, 800, 1000, 1000]);
    let u = pacer.record_success(5, 7, "abc".to_string());
    assert!(u.error.is_none());
    assert_eq!(u.processing_time_ms, 7);
    assert_eq!(u.image_data.as_deref(), Some("abc"));
    assert_eq!(pacer.consecutive_errors, 0);
    let (_, d) = pacer.record_failure("again".to_string());
    assert_eq!(d, 200);
}

#[test]
fn fetch_failures_are_reported_with_their_stage() {
    let mut pacer = StreamPacer::new();
    match pacer.accept_fetch(FetchOutcome::RequestFailed("refused".to_string())) {
        Err((u, d)) => {
            assert_eq!(u.error.as_deref(), Some("Failed to fetch image: refused"));
            assert_eq!(d, 200);
        }
        Ok(_) => panic!("fetch failure accepted"),
    }
    match pacer.accept_fetch(FetchOutcome::BodyFailed("reset".to_string())) {
        Err((u, d)) => {
            assert_eq!(u.error.as_deref(), Some("Failed to get image bytes: reset"));
            assert_eq!(d, 400);
        }
        Ok(_) => panic!("body failure accepted"),
    }
    match pacer.accept_fetch(FetchOutcome::Body(b"not an image".to_vec())) {
        Err((u, d)) => {
            assert!(u.error.unwrap().starts_with("Failed to load image: "));
            assert_eq!(d, 800);
        }
        Ok(_) => panic!("garbage decoded"),
    }
    assert_eq!(pacer.consecutive_errors, 3);
}

fn jpeg_bytes(width: u32, height: u32) -> Vec<u8> {
    let img = image::DynamicImage::ImageRgb8(image::RgbImage::from_pixel(width, height, image::Rgb([10, 200, 30])));
    let mut buf = Vec::new();
    img.write_to(&mut std::io::Cursor::new(&mut buf), image::ImageFormat::Jpeg).unwrap();
    buf
}

#[test]
fn decoded_frame_is_published_as_base64_jpeg() {
    let mut pacer = StreamPacer::new();
    let img = match pacer.accept_fetch(FetchOutcome::Body(jpeg_bytes(40, 30))) {
        Ok(img) => img,
        Err((u, _)) => panic!("{:?}", u.error),
    };
    assert_eq!((img.width, img.height), (40, 30));
    assert_eq!(img.pixels.len(), 40 * 30 * 3);
    let mut store = FrameStore::new();
    let _ = store_frame(&mut store, &img, 0);
    let (u, d) = pacer.publish_frame(&img, 0, 17);
    assert!(u.error.is_none());
    assert_eq!(u.processing_time_ms, 17);
    assert_eq!(d, 0);
    assert_eq!(pacer.last_frame_ms, Some(0));
    let data = base64::engine::general_purpose::STANDARD.decode(u.image_data.unwrap()).unwrap();
    let back = image::load_from_memory(&data).unwrap();
    assert_eq!((back.width(), back.height()), (40, 30));
    assert_eq!(store.get().unwrap().width, 40);
}

#[test]
fn stream_copy_is_at_most_800_wide() {
    assert_eq!(stream_dims(1600, 900), (800, 450));
    assert_eq!(stream_dims(1920, 1080), (800, 450));
    assert_eq!(stream_dims(1000, 333), (800, 266));
    assert_eq!(stream_dims(800, 600), (800, 600));
    assert_eq!(stream_dims(640, 480), (640, 480));
    assert_eq!(stream_dims(5000, 1), (800, 1));
}

#[test]
fn wide_frame_is_scaled_before_encoding() {
    let data = image_to_base64(&gray(1000, 500)).unwrap();
    let bytes = base64::engine::general_purpose::STANDARD.decode(data).unwrap();
    let back = image::load_from_memory(&bytes).unwrap();
    assert_eq!((back.width(), back.height()), (800, 400));
    let data = image_to_base64(&gray(16, 8)).unwrap();
    assert_ne!(data, "");
    let bytes = base64::engine::general_purpose::STANDARD.decode(data).unwrap();
    assert_eq!(&bytes[..2], &[0xFF, 0xD8]);
}

#[test]
fn frame_store_holds_whole_frames() {
    let mut store = FrameStore::new();
    assert!(store.get().is_none());
    assert!(store.snapshot().is_none());
    store.set(gray(4, 2));
    let first = store.snapshot().unwrap();
    store.set(CapturedImage::from_rgb(3, 1, vec![1, 2, 3, 4, 5, 6, 7, 8, 9]).unwrap());
    assert_eq!((first.width, first.height, first.pixels.len()), (4, 2, 24));
    let second = store.snapshot().unwrap();
    assert_eq!((second.width, second.height), (3, 1));
    assert_eq!(second.pixels, vec![1, 2, 3, 4, 5, 6, 7, 8, 9]);
}

#[test]
fn pixel_buffer_must_match_the_size() {
    assert!(CapturedImage::from_rgb(2, 2, vec![0; 12]).is_some());
    assert!(CapturedImage::from_rgb(2, 2, vec![0; 11]).is_none());
    assert!(CapturedImage::from_rgb(0, 5, vec![]).is_some());
}

#[test]
fn processing_time_is_the_elapsed_milliseconds() {
    assert_eq!(processing_time(1_000, 1_042), 42);
    assert_eq!(processing_time(1_000, 1_000), 0);
    assert_eq!(processing_time(1_000, 900), 0);
}
