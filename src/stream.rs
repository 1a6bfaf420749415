use vstd::prelude::*;
use vstd::string::*;
use crate::codec::{base64_of, encode_base64, encode_jpeg, jpeg_of, resize_nearest, resized_of, decode_rgb, decoded_of};
use crate::error::AppError;
use crate::frame::{CapturedImage, FrameStore};

verus! {

/// Widest frame sent to the host; wider frames are scaled down.
pub const MAX_STREAM_WIDTH: u32 = 800;

/// JPEG quality of the frames sent to the host.
pub const JPEG_QUALITY: u8 = 80;

/// Target interval between two processed frames (10 frames per second).
pub const FRAME_INTERVAL_MS: u64 = 100;

/// Pause before checking again when the next frame is not due yet.
pub const IDLE_POLL_MS: u64 = 5;

/// First delay after a failed frame.
pub const BACKOFF_BASE_MS: u64 = 100;

/// Longest delay after failed frames.
pub const BACKOFF_CAP_MS: u64 = 1000;

pub open spec fn pow2(n: nat) -> nat
    decreases n,
{
    if n == 0 { 1 } else { 2 * pow2((n - 1) as nat) }
}

/// The delay after `n` consecutive failures: `min(cap, base * 2^n)`.
pub open spec fn backoff_of(base: nat, cap: nat, n: nat) -> nat {
    if base * pow2(n) < cap { base * pow2(n) } else { cap }
}

proof fn lemma_pow2_grows(m: nat, n: nat)
    requires
        m <= n,
    ensures
        1 <= pow2(m) <= pow2(n),
    decreases n,
{
    if n > 0 {
        if m < n {
            lemma_pow2_grows(m, (n - 1) as nat);
        } else {
            lemma_pow2_grows((n - 1) as nat, (n - 1) as nat);
        }
    }
}

/// The backoff delay never shrinks as failures accumulate, and never exceeds the cap.
pub proof fn lemma_backoff_monotone(base: nat, cap: nat, m: nat, n: nat)
    requires
        m <= n,
    ensures
        backoff_of(base, cap, m) <= backoff_of(base, cap, n),
        backoff_of(base, cap, n) <= cap,
{
    lemma_pow2_grows(m, n);
    assert(base * pow2(m) <= base * pow2(n)) by (nonlinear_arith)
        requires pow2(m) <= pow2(n);
}

/// `min(cap, base * 2^n)`, without overflow.
pub fn backoff_delay(base: u64, cap: u64, n: u32) -> (r: u64)
    ensures
        r == backoff_of(base as nat, cap as nat, n as nat),
{
    if base == 0 {
        assert(base * pow2(n as nat) == 0);
        return 0;
    }
    let mut d: u64 = base;
    let mut i: u32 = 0;
    assert(pow2(0) == 1);
    assert(base * pow2(0) == base);
    while i < n && d < cap
        invariant
            0 <= i <= n,
            base >= 1,
            d == base * pow2(i as nat),
        decreases n - i,
    {
        if d > u64::MAX / 2 {
            proof {
                lemma_pow2_grows((i + 1) as nat, n as nat);
                assert(base * pow2((i + 1) as nat) <= base * pow2(n as nat)) by (nonlinear_arith)
                    requires pow2((i + 1) as nat) <= pow2(n as nat);
                assert(base * pow2((i + 1) as nat) == 2 * (base * pow2(i as nat))) by (nonlinear_arith)
                    requires pow2((i + 1) as nat) == 2 * pow2(i as nat);
            }
            return cap;
        }
        proof {
            assert(base * pow2((i + 1) as nat) == 2 * (base * pow2(i as nat))) by (nonlinear_arith)
                requires pow2((i + 1) as nat) == 2 * pow2(i as nat);
        }
        d = d * 2;
        i = i + 1;
    }
    if d < cap {
        d
    } else {
        proof {
            lemma_pow2_grows(i as nat, n as nat);
            assert(base * pow2(i as nat) <= base * pow2(n as nat)) by (nonlinear_arith)
                requires pow2(i as nat) <= pow2(n as nat);
        }
        cap
    }
}

/// Size of the copy sent to the host: frames wider than `MAX_STREAM_WIDTH` are scaled to
/// that width, keeping the aspect ratio (rounded down, at least one row).
pub open spec fn stream_dims_of(width: u32, height: u32) -> (u32, u32) {
    if width > MAX_STREAM_WIDTH {
        let h = (height as int) * (MAX_STREAM_WIDTH as int) / (width as int);
        (MAX_STREAM_WIDTH, if h == 0 { 1u32 } else { h as u32 })
    } else {
        (width, height)
    }
}

/// Size of the copy of a `width` x `height` frame that is sent to the host.
pub fn stream_dims(width: u32, height: u32) -> (r: (u32, u32))
    ensures
        r == stream_dims_of(width, height),
        width > MAX_STREAM_WIDTH ==> r.0 == MAX_STREAM_WIDTH && r.1 > 0,
{
    if width > MAX_STREAM_WIDTH {
        assert(height as int * 800 <= 0xffff_ffff * 800) by (nonlinear_arith)
            requires height <= 0xffff_ffff;
        let h: u64 = height as u64 * MAX_STREAM_WIDTH as u64 / width as u64;
        assert(h <= height) by (nonlinear_arith)
            requires h == (height as int) * 800 / (width as int), width > 800;
        if h == 0 {
            (MAX_STREAM_WIDTH, 1)
        } else {
            (MAX_STREAM_WIDTH, h as u32)
        }
    } else {
        (width, height)
    }
}

/// The pixels of the copy of `img` that is sent to the host.
pub open spec fn stream_pixels_of(img: CapturedImage) -> Seq<u8> {
    let (w, h) = stream_dims_of(img.width, img.height);
    if img.width > MAX_STREAM_WIDTH {
        resized_of(img.width, img.height, img.pixels@, w, h)
    } else {
        img.pixels@
    }
}

/// `prefix` followed by `text`.
fn prefixed(prefix: &str, text: &str) -> (r: String)
    ensures
        r@ == prefix@ + text@,
{
    let mut r = String::from_str(prefix);
    r.append(text);
    r
}

/// The frame as the host receives it: scaled down to at most `MAX_STREAM_WIDTH` wide,
/// JPEG-encoded at `JPEG_QUALITY`, as base64 text.
pub fn image_to_base64(img: &CapturedImage) -> (r: Result<String, AppError>)
    requires
        img.wf(),
    ensures
        ({
            let (w, h) = stream_dims_of(img.width, img.height);
            match jpeg_of(w, h, stream_pixels_of(*img), JPEG_QUALITY) {
                Ok(b) => r matches Ok(s) && s@ == base64_of(b),
                Err(e) => r matches Err(AppError::ImageProcessing(m)) && m@
                    == "Failed to encode image: "@ + e,
            }
        }),
{
    let (w, h) = stream_dims(img.width, img.height);
    let encoded = if img.width > MAX_STREAM_WIDTH {
        let small = resize_nearest(img, w, h);
        encode_jpeg(&small, JPEG_QUALITY)
    } else {
        encode_jpeg(img, JPEG_QUALITY)
    };
    match encoded {
        Ok(bytes) => Ok(encode_base64(&bytes)),
        Err(e) => Err(AppError::ImageProcessing(prefixed("Failed to encode image: ", e.as_str()))),
    }
}

/// The running flag of one stream.
#[derive(Debug, Clone, Copy)]
pub struct StreamState {
    pub running: bool,
}

impl StreamState {
    /// A stream that has just started.
    pub fn new() -> (r: StreamState)
        ensures
            r.running,
    {
        StreamState { running: true }
    }
}

/// Whether a stop request on `state` succeeds: only a running stream can be stopped.
pub open spec fn stop_succeeds(state: Option<StreamState>) -> bool {
    state matches Some(s) && s.running
}

/// The stream state after a stop request: a running stream is marked stopped; otherwise
/// nothing changes.
pub open spec fn after_stop(state: Option<StreamState>) -> Option<StreamState> {
    if stop_succeeds(state) {
        Some(StreamState { running: false })
    } else {
        state
    }
}

/// Stops the stream whose state is `state`: it is marked not running and the loop ends at
/// its next check. Without a running stream nothing changes and a stream error comes back.
pub fn stop_stream(state: &mut Option<StreamState>) -> (r: Result<(), AppError>)
    ensures
        r is Ok <==> stop_succeeds(*old(state)),
        *final(state) == after_stop(*old(state)),
        r matches Err(e) ==> (e matches AppError::Stream(m) && m@ == "Stream not running"@),
{
    match state {
        Some(s) => {
            if s.running {
                s.running = false;
                return Ok(());
            }
        },
        None => {},
    }
    Err(AppError::Stream(String::from_str("Stream not running")))
}

/// Two stop requests in a row on a running stream: the first succeeds, the second fails
/// since no running stream is left.
pub proof fn lemma_stop_twice(state: Option<StreamState>)
    requires
        stop_succeeds(state),
    ensures
        !stop_succeeds(after_stop(state)),
        after_stop(after_stop(state)) == after_stop(state),
{
}

/// The message that one streamed frame sends to the host.
#[derive(Debug)]
pub struct StreamUpdate {
    pub error: Option<String>,
    pub processing_time_ms: u64,
    pub image_data: Option<String>,
}

/// What the streaming loop does next.
#[derive(Debug, Clone, Copy, PartialEq, Eq)]
pub enum LoopAction {
    /// The stream was stopped: end the loop.
    Stop,
    /// The next frame is not due yet: sleep this long and check again.
    Wait(u64),
    /// Fetch a frame now; the iteration started at `frame_start_ms`.
    Fetch(u64),
}

/// How fetching one frame over HTTP went.
pub enum FetchOutcome {
    Body(Vec<u8>),
    RequestFailed(String),
    BodyFailed(String),
}

/// Milliseconds from `start` to `now`, 0 if the clock went back.
pub open spec fn elapsed_of(start: u64, now: u64) -> u64 {
    if now >= start { (now - start) as u64 } else { 0 }
}

/// Whether the next frame is due at `now`: no frame was processed yet, at least
/// `FRAME_INTERVAL_MS` passed since the last one started, or the clock went back.
pub open spec fn frame_due(last_frame_ms: Option<u64>, now: u64) -> bool {
    match last_frame_ms {
        None => true,
        Some(t) => now < t || now - t >= FRAME_INTERVAL_MS,
    }
}

/// Pacing and error backoff of one stream.
pub struct StreamPacer {
    pub consecutive_errors: u32,
    pub last_frame_ms: Option<u64>,
}

/// Milliseconds since the Unix epoch, read from the system clock.
/// Relies on `std::time::SystemTime::now`; a clock set before the epoch reads as 0.
#[verifier::external_body]
fn clock_ms() -> (r: u64) {
    match std::time::SystemTime::now().duration_since(std::time::UNIX_EPOCH) {
        Ok(d) => d.as_millis() as u64,
        Err(_) => 0,
    }
}

impl StreamPacer {
    /// A stream with no frame processed yet and no failure.
    pub fn new() -> (r: StreamPacer)
        ensures
            r.consecutive_errors == 0,
            r.last_frame_ms is None,
    {
        StreamPacer { consecutive_errors: 0, last_frame_ms: None }
    }

    /// The next step at time `now_ms`: stop once the stream is no longer running; wait
    /// while less than `FRAME_INTERVAL_MS` has passed since the last processed frame;
    /// fetch otherwise, also when the clock reads earlier than that frame's start.
    pub fn decide(&self, running: bool, now_ms: u64) -> (r: LoopAction)
        ensures
            !running ==> r == LoopAction::Stop,
            running && !frame_due(self.last_frame_ms, now_ms) ==> r == LoopAction::Wait(
                IDLE_POLL_MS,
            ),
            running && frame_due(self.last_frame_ms, now_ms) ==> r == LoopAction::Fetch(now_ms),
    {
        if !running {
            return LoopAction::Stop;
        }
        match self.last_frame_ms {
            Some(t) => {
                if now_ms >= t && now_ms - t < FRAME_INTERVAL_MS {
                    return LoopAction::Wait(IDLE_POLL_MS);
                }
            },
            None => {},
        }
        LoopAction::Fetch(now_ms)
    }

    /// The next step, at the time the system clock reads now.
    pub fn poll(&self, running: bool) -> (r: LoopAction)
        ensures
            r == LoopAction::Stop <==> !running,
            running && self.last_frame_ms is None ==> r matches LoopAction::Fetch(_),
            r matches LoopAction::Wait(ms) ==> ms == IDLE_POLL_MS,
            r matches LoopAction::Fetch(now) ==> frame_due(self.last_frame_ms, now),
    {
        let now = clock_ms();
        self.decide(running, now)
    }

    /// Records a failed frame: one more consecutive failure, an error update for the host,
    /// and the backoff delay before the next attempt.
    pub fn record_failure(&mut self, message: String) -> (r: (StreamUpdate, u64))
        ensures
            final(self).consecutive_errors == if old(self).consecutive_errors < u32::MAX {
                (old(self).consecutive_errors + 1) as u32
            } else {
                u32::MAX
            },
            final(self).last_frame_ms == old(self).last_frame_ms,
            r.0.error matches Some(m) && m@ == message@,
            r.0.processing_time_ms == 0,
            r.0.image_data is None,
            r.1 == backoff_of(
                BACKOFF_BASE_MS as nat,
                BACKOFF_CAP_MS as nat,
                final(self).consecutive_errors as nat,
            ),
    {
        if self.consecutive_errors < u32::MAX {
            self.consecutive_errors = self.consecutive_errors + 1;
        }
        let delay = backoff_delay(BACKOFF_BASE_MS, BACKOFF_CAP_MS, self.consecutive_errors);
        (StreamUpdate { error: Some(message), processing_time_ms: 0, image_data: None }, delay)
    }

    /// Records a frame sent to the host: the failure count restarts and pacing counts from
    /// this frame's start.
    pub fn record_success(&mut self, frame_start_ms: u64, processing_time_ms: u64, image_data: String)
        -> (r: StreamUpdate)
        ensures
            final(self).consecutive_errors == 0,
            final(self).last_frame_ms == Some(frame_start_ms),
            r.error is None,
            r.processing_time_ms == processing_time_ms,
            r.image_data matches Some(d) && d@ == image_data@,
    {
        self.consecutive_errors = 0;
        self.last_frame_ms = Some(frame_start_ms);
        StreamUpdate { error: None, processing_time_ms, image_data: Some(image_data) }
    }

    /// Decodes a fetched frame. A failed fetch or decode is recorded as a failed frame,
    /// with its update and backoff delay.
    pub fn accept_fetch(&mut self, fetched: FetchOutcome) -> (r: Result<CapturedImage, (StreamUpdate, u64)>)
        ensures
            match fetched {
                FetchOutcome::Body(bytes) => match decoded_of(bytes@) {
                    Ok((w, h, px)) => *final(self) == *old(self) && (r matches Ok(img) && img.wf()
                        && img.width == w && img.height == h && img.pixels@ == px),
                    Err(e) => r matches Err((u, _)) && u.error matches Some(m) && m@
                        == "Failed to load image: "@ + e,
                },
                FetchOutcome::RequestFailed(e) => r matches Err((u, _)) && u.error matches Some(m)
                    && m@ == "Failed to fetch image: "@ + e@,
                FetchOutcome::BodyFailed(e) => r matches Err((u, _)) && u.error matches Some(m)
                    && m@ == "Failed to get image bytes: "@ + e@,
            },
            r matches Err((u, delay)) ==> {
                &&& final(self).consecutive_errors == if old(self).consecutive_errors < u32::MAX {
                    (old(self).consecutive_errors + 1) as u32
                } else {
                    u32::MAX
                }
                &&& final(self).last_frame_ms == old(self).last_frame_ms
                &&& u.processing_time_ms == 0
                &&& u.image_data is None
                &&& delay == backoff_of(
                    BACKOFF_BASE_MS as nat,
                    BACKOFF_CAP_MS as nat,
                    final(self).consecutive_errors as nat,
                )
            },
    {
        match fetched {
            FetchOutcome::Body(bytes) => match decode_rgb(bytes.as_slice()) {
                Ok(img) => Ok(img),
                Err(e) => Err(self.record_failure(prefixed("Failed to load image: ", e.as_str()))),
            },
            FetchOutcome::RequestFailed(e) => Err(
                self.record_failure(prefixed("Failed to fetch image: ", e.as_str())),
            ),
            FetchOutcome::BodyFailed(e) => Err(
                self.record_failure(prefixed("Failed to get image bytes: ", e.as_str())),
            ),
        }
    }

    /// Sends a decoded frame to the host, re-encoded, with the processing time measured
    /// when it was stored (see `store_frame`). A failed encoding is recorded as a failed
    /// frame. Returns the update and the delay before the next attempt.
    pub fn publish_frame(&mut self, img: &CapturedImage, frame_start_ms: u64, processing_time_ms: u64)
        -> (r: (StreamUpdate, u64))
        requires
            img.wf(),
        ensures
            ({
                let (w, h) = stream_dims_of(img.width, img.height);
                match jpeg_of(w, h, stream_pixels_of(*img), JPEG_QUALITY) {
                    Ok(b) => {
                        &&& r.0.error is None
                        &&& r.0.processing_time_ms == processing_time_ms
                        &&& r.0.image_data matches Some(d) && d@ == base64_of(b)
                        &&& r.1 == 0
                        &&& final(self).consecutive_errors == 0
                        &&& final(self).last_frame_ms == Some(frame_start_ms)
                    },
                    Err(e) => {
                        &&& r.0.error matches Some(m) && m@
                            == "Failed to convert image: Image processing error: "@
                            + ("Failed to encode image: "@ + e)
                        &&& r.0.image_data is None
                        &&& r.0.processing_time_ms == 0
                        &&& final(self).consecutive_errors == if old(self).consecutive_errors
                            < u32::MAX {
                            (old(self).consecutive_errors + 1) as u32
                        } else {
                            u32::MAX
                        }
                        &&& final(self).last_frame_ms == old(self).last_frame_ms
                        &&& r.1 == backoff_of(
                            BACKOFF_BASE_MS as nat,
                            BACKOFF_CAP_MS as nat,
                            final(self).consecutive_errors as nat,
                        )
                    },
                }
            }),
    {
        match image_to_base64(img) {
            Ok(data) => (self.record_success(frame_start_ms, processing_time_ms, data), 0),
            Err(AppError::ImageProcessing(m)) => self.record_failure(
                prefixed("Failed to convert image: Image processing error: ", m.as_str()),
            ),
            Err(_) => self.record_failure(String::from_str("Failed to convert image")),
        }
    }
}

/// Milliseconds from `frame_start_ms` to `now_ms`, 0 if the clock went back.
pub fn processing_time(frame_start_ms: u64, now_ms: u64) -> (r: u64)
    ensures
        r == elapsed_of(frame_start_ms, now_ms),
{
    if now_ms >= frame_start_ms {
        now_ms - frame_start_ms
    } else {
        0
    }
}

/// Puts a copy of a freshly decoded frame into the store, before any re-encoding, and
/// returns the processing time from `frame_start_ms` to the clock reading taken right
/// after the write.
pub fn store_frame(store: &mut FrameStore, img: &CapturedImage, frame_start_ms: u64) -> (r: u64)
    requires
        img.wf(),
    ensures
        final(store).slot matches Some(held) && held.wf() && held.width == img.width
            && held.height == img.height && held.pixels@ == img.pixels@,
        exists|now_ms: u64| r == elapsed_of(frame_start_ms, now_ms),
{
    store.set(img.duplicate());
    let now = clock_ms();
    processing_time(frame_start_ms, now)
}

} // verus!
