use vstd::prelude::*;
use vstd::string::*;
use crate::codec::{decode_rgb, decoded_of, encode_png, lossy_text, lossy_text_of, png_of};
use crate::decimal::{decimal_of, decimal_string, padded_decimal_of, padded_decimal_string};
use crate::error::AppError;
use crate::frame::{CapturedImage, FrameStore};

verus! {

/// HTTP statuses 200 to 299.
pub open spec fn is_success_status(status: u16) -> bool {
    200 <= status <= 299
}

/// A media type of the `image/` family.
pub open spec fn is_image_type(content_type: Seq<char>) -> bool {
    content_type.len() >= 6 && content_type.subrange(0, 6) == "image/"@
}

/// `text/html` is not of the image family: a capture whose reply declares it fails with
/// an invalid content type, and the store keeps what it held (see `capture_image`).
pub proof fn lemma_html_is_rejected()
    ensures
        !is_image_type("text/html"@),
{
    reveal_strlit("text/html");
    reveal_strlit("image/");
    assert("text/html"@.subrange(0, 6)[0] != "image/"@[0]);
}

/// Whether `content_type` starts with `image/`.
pub fn is_image_content_type(content_type: &str) -> (r: bool)
    ensures
        r == is_image_type(content_type@),
{
    proof {
        reveal_strlit("image/");
    }
    let prefix = "image/";
    let n = content_type.unicode_len();
    if n < 6 {
        return false;
    }
    let mut i: usize = 0;
    while i < 6
        invariant
            n == content_type@.len(),
            n >= 6,
            prefix@ == "image/"@,
            prefix@.len() == 6,
            0 <= i <= 6,
            forall|k: int| 0 <= k < i ==> content_type@[k] == prefix@[k],
        decreases 6 - i,
    {
        if content_type.get_char(i) != prefix.get_char(i) {
            assert(content_type@.subrange(0, 6)[i as int] != prefix@[i as int]);
            return false;
        }
        i = i + 1;
    }
    assert(content_type@.subrange(0, 6) =~= prefix@);
    true
}

/// The frame that a single HTTP reply carries: the status must be a success (else the
/// body, as text, is the error's message), a declared content type must be an image type,
/// and the body must decode.
pub fn prepare_capture(status: u16, content_type: Option<String>, body: &Vec<u8>) -> (r: Result<
    CapturedImage,
    AppError,
>)
    ensures
        !is_success_status(status) ==> (r matches Err(AppError::ServerError { status: s, message })
            && s == status && message@ == lossy_text_of(body@)),
        is_success_status(status) && (content_type matches Some(ct) && !is_image_type(ct@))
            ==> (r matches Err(AppError::InvalidContentType(t)) && t@ == content_type->Some_0@),
        is_success_status(status) && !(content_type matches Some(ct) && !is_image_type(ct@))
            ==> match decoded_of(body@) {
            Ok((w, h, px)) => r matches Ok(img) && img.wf() && img.width == w && img.height == h
                && img.pixels@ == px,
            Err(e) => r matches Err(AppError::ImageProcessing(m)) && m@ == e,
        },
{
    if !(200 <= status && status <= 299) {
        return Err(AppError::ServerError { status, message: lossy_text(body) });
    }
    match content_type {
        Some(ct) => {
            if !is_image_content_type(ct.as_str()) {
                return Err(AppError::InvalidContentType(ct));
            }
        },
        None => {},
    }
    match decode_rgb(body.as_slice()) {
        Ok(img) => Ok(img),
        Err(e) => Err(AppError::ImageProcessing(e)),
    }
}

/// Puts a captured frame into the store and returns the acknowledgement.
pub fn install_capture(store: &mut FrameStore, img: CapturedImage) -> (r: String)
    ensures
        final(store).slot == Some(img),
        r@ == "Image captured successfully"@,
{
    store.set(img);
    String::from_str("Image captured successfully")
}

/// Captures the frame of one HTTP reply into the store. On any failure the store keeps
/// what it held.
pub fn capture_image(
    store: &mut FrameStore,
    status: u16,
    content_type: Option<String>,
    body: &Vec<u8>,
) -> (r: Result<String, AppError>)
    ensures
        r is Err ==> final(store).slot == old(store).slot,
        !is_success_status(status) ==> (r matches Err(AppError::ServerError { status: s, message })
            && s == status && message@ == lossy_text_of(body@)),
        is_success_status(status) && (content_type matches Some(ct) && !is_image_type(ct@))
            ==> (r matches Err(AppError::InvalidContentType(t)) && t@ == content_type->Some_0@),
        is_success_status(status) && !(content_type matches Some(ct) && !is_image_type(ct@))
            ==> match decoded_of(body@) {
            Ok((w, h, px)) => (r matches Ok(m) && m@ == "Image captured successfully"@) && (
            final(store).slot matches Some(img) && img.wf() && img.width == w && img.height == h
                && img.pixels@ == px),
            Err(e) => r matches Err(AppError::ImageProcessing(m)) && m@ == e,
        },
{
    match prepare_capture(status, content_type, body) {
        Ok(img) => Ok(install_capture(store, img)),
        Err(e) => Err(e),
    }
}

/// A local date and time, to the second.
pub struct LocalTimestamp {
    pub year: i32,
    pub month: u8,
    pub day: u8,
    pub hour: u8,
    pub minute: u8,
    pub second: u8,
}

impl LocalTimestamp {
    pub open spec fn wf(&self) -> bool {
        &&& 1 <= self.month <= 12
        &&& 1 <= self.day <= 31
        &&& self.hour < 24
        &&& self.minute < 60
        &&& self.second < 60
    }
}

/// The year as written in file names: four digits, zero-padded; a sign before years
/// outside 0 to 9999.
pub open spec fn year_text(year: int) -> Seq<char> {
    if 0 <= year <= 9999 {
        padded_decimal_of(year as nat, 4)
    } else if year > 9999 {
        "+"@ + decimal_of(year as nat)
    } else {
        "-"@ + padded_decimal_of((-year) as nat, 4)
    }
}

/// `YYYY-MM-DD-HH-MM-SS`.
pub open spec fn timestamp_text(ts: LocalTimestamp) -> Seq<char> {
    year_text(ts.year as int) + "-"@ + padded_decimal_of(ts.month as nat, 2) + "-"@
        + padded_decimal_of(ts.day as nat, 2) + "-"@ + padded_decimal_of(ts.hour as nat, 2) + "-"@
        + padded_decimal_of(ts.minute as nat, 2) + "-"@ + padded_decimal_of(ts.second as nat, 2)
}

fn year_string(year: i32) -> (r: String)
    ensures
        r@ == year_text(year as int),
{
    if 0 <= year && year <= 9999 {
        padded_decimal_string(year as u64, 4)
    } else if year > 9999 {
        let mut r = String::from_str("+");
        let digits = decimal_string(year as u64);
        r.append(digits.as_str());
        r
    } else {
        let mut r = String::from_str("-");
        let magnitude: i64 = -(year as i64);
        let digits = padded_decimal_string(magnitude as u64, 4);
        r.append(digits.as_str());
        r
    }
}

/// `YYYY-MM-DD-HH-MM-SS` of a local time.
pub fn timestamp_name(ts: &LocalTimestamp) -> (r: String)
    ensures
        r@ == timestamp_text(*ts),
{
    let mut r = year_string(ts.year);
    r.append("-");
    r.append(padded_decimal_string(ts.month as u64, 2).as_str());
    r.append("-");
    r.append(padded_decimal_string(ts.day as u64, 2).as_str());
    r.append("-");
    r.append(padded_decimal_string(ts.hour as u64, 2).as_str());
    r.append("-");
    r.append(padded_decimal_string(ts.minute as u64, 2).as_str());
    r.append("-");
    r.append(padded_decimal_string(ts.second as u64, 2).as_str());
    r
}

/// A still ready to be written: its file name and its PNG bytes.
pub struct SaveJob {
    pub file_name: String,
    pub png: Vec<u8>,
}

/// The file that saving `snapshot` at local time `ts` writes: the frame as PNG, named
/// `YYYY-MM-DD-HH-MM-SS.png`; that name is what a save reports. Fails when no frame was
/// captured.
pub fn prepare_save_at(snapshot: &Option<CapturedImage>, ts: &LocalTimestamp) -> (r: Result<
    SaveJob,
    AppError,
>)
    requires
        snapshot matches Some(img) ==> img.wf(),
    ensures
        snapshot is None ==> r matches Err(AppError::NoImage),
        snapshot matches Some(img) ==> match png_of(img.width, img.height, img.pixels@) {
            Ok(b) => r matches Ok(job) && job.png@ == b && job.file_name@ == timestamp_text(*ts)
                + ".png"@,
            Err(e) => r matches Err(AppError::ImageProcessing(m)) && m@ == e,
        },
{
    match snapshot {
        None => Err(AppError::NoImage),
        Some(img) => match encode_png(img) {
            Ok(png) => {
                let mut file_name = timestamp_name(ts);
                file_name.append(".png");
                Ok(SaveJob { file_name, png })
            },
            Err(e) => Err(AppError::ImageProcessing(e)),
        },
    }
}

} // verus!
