use vstd::prelude::*;

verus! {

/// A decoded picture: `height` rows of `width` pixels, three bytes (red, green, blue) each.
#[derive(Debug)]
pub struct CapturedImage {
    pub width: u32,
    pub height: u32,
    pub pixels: Vec<u8>,
}

impl CapturedImage {
    /// The pixel buffer holds exactly `width * height` RGB pixels.
    pub open spec fn wf(&self) -> bool {
        self.pixels@.len() == 3 * (self.width as int) * (self.height as int)
    }

    /// Builds a picture from its rows of RGB bytes; `None` when the buffer is not
    /// exactly `width * height` pixels.
    pub fn from_rgb(width: u32, height: u32, pixels: Vec<u8>) -> (r: Option<CapturedImage>)
        ensures
            r is Some <==> pixels@.len() == 3 * (width as int) * (height as int),
            r matches Some(img) ==> img.width == width && img.height == height && img.pixels@
                == pixels@,
    {
        assert((width as int) * (height as int) <= 0xffff_ffff * 0xffff_ffff) by (nonlinear_arith)
            requires width <= 0xffff_ffff, height <= 0xffff_ffff;
        let area: u64 = width as u64 * height as u64;
        assert(3 * (width as int) * (height as int) == 3 * (area as int)) by (nonlinear_arith)
            requires area == (width as int) * (height as int);
        let len = pixels.len();
        if area > (usize::MAX / 3) as u64 {
            assert(3 * (area as int) > usize::MAX);
            return None;
        }
        if len == 3 * (area as usize) {
            Some(CapturedImage { width, height, pixels })
        } else {
            None
        }
    }

    /// A copy of the whole picture.
    pub fn duplicate(&self) -> (r: CapturedImage)
        ensures
            r.width == self.width,
            r.height == self.height,
            r.pixels@ == self.pixels@,
    {
        CapturedImage { width: self.width, height: self.height, pixels: self.pixels.clone() }
    }
}

/// The single slot holding the most recent frame, if any.
pub struct FrameStore {
    pub slot: Option<CapturedImage>,
}

impl FrameStore {
    /// An empty store.
    pub fn new() -> (r: FrameStore)
        ensures
            r.slot is None,
    {
        FrameStore { slot: None }
    }

    /// Replaces the held frame, whatever it was, by `img`.
    pub fn set(&mut self, img: CapturedImage)
        ensures
            final(self).slot == Some(img),
            final(self).slot == held_after(old(self).slot, seq![img]),
    {
        self.slot = Some(img);
    }

    /// The held frame, if any.
    pub fn get(&self) -> (r: Option<&CapturedImage>)
        ensures
            r matches Some(img) ==> self.slot == Some(*img),
            r is None <==> self.slot is None,
    {
        match &self.slot {
            Some(img) => Some(img),
            None => None,
        }
    }

    /// A full copy of the held frame, if any: the whole of the frame that the slot held
    /// at the call.
    pub fn snapshot(&self) -> (r: Option<CapturedImage>)
        ensures
            r is None <==> self.slot is None,
            r matches Some(img) ==> {
                let held = self.slot->Some_0;
                &&& img.width == held.width
                &&& img.height == held.height
                &&& img.pixels@ == held.pixels@
            },
    {
        match &self.slot {
            Some(img) => Some(img.duplicate()),
            None => None,
        }
    }
}

/// What a store that held `initial` holds after the whole-frame writes `writes`, made one
/// at a time by `FrameStore::set`.
pub open spec fn held_after(initial: Option<CapturedImage>, writes: Seq<CapturedImage>) -> Option<
    CapturedImage,
> {
    if writes.len() == 0 {
        initial
    } else {
        Some(writes.last())
    }
}

/// Between any two writes, a reader of the store (`get`, `snapshot`) finds either what it
/// held before the first write or one written frame as a whole, never a mix of two. The
/// second clause says that a series of `set` calls, each stating `held_after` of one
/// write, holds `held_after` of the whole series.
pub proof fn lemma_reads_see_whole_frames(
    initial: Option<CapturedImage>,
    writes: Seq<CapturedImage>,
    k: int,
)
    requires
        0 <= k <= writes.len(),
    ensures
        held_after(initial, writes.take(k)) == initial || exists|i: int|
            0 <= i < k && held_after(initial, writes.take(k)) == Some(#[trigger] writes[i]),
        k > 0 ==> held_after(initial, writes.take(k)) == held_after(
            held_after(initial, writes.take(k - 1)),
            seq![writes[k - 1]],
        ),
{
    if k > 0 {
        assert(writes.take(k).last() == writes[k - 1]);
    }
}

} // verus!
