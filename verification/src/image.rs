//! Image capture deduplicator: decides whether a bitmap payload found on the
//! clipboard is a fresh capture or a repeat notification of content already
//! reported.
//!
//! The payload is the raw byte blob of a device-independent bitmap. A cheap
//! fingerprint is drawn from it: the declared pixel width and height, read as
//! little-endian 32-bit integers at their fixed header offsets, and one byte
//! sampled at the midpoint of the payload. A single fingerprint is retained,
//! always the one of the most recently reported (non-duplicate) image; a new
//! payload is judged a duplicate when it repeats the retained fingerprint
//! exactly, or when it comes from the same owner process within a short
//! rapid-update window.

use vstd::prelude::*;

verus! {

/// Payloads of at most this many bytes are rejected as malformed: a bitmap
/// header alone takes more.
pub const MIN_DIB_PAYLOAD: usize = 40;

/// After a fingerprint is recorded, further image notifications from the same
/// owner process within this many milliseconds count as the same logical
/// capture, whatever their content.
pub const RAPID_UPDATE_MS: u64 = 600;

/// Cheap summary of one image-bearing clipboard payload.
#[derive(Clone, Copy, PartialEq, Eq, Structural, Debug)]
pub struct ImgFingerprint {
    /// Pixel width the bitmap header declares.
    pub width: i32,
    /// Pixel height the bitmap header declares.
    pub height: i32,
    /// The byte at the midpoint of the payload.
    pub center_byte: u8,
    /// Process that owned the clipboard when the payload was seen.
    pub pid: u32,
    /// When the payload was seen, in monotonic milliseconds.
    pub time: u64,
}

/// A novel image capture, ready to hand to the downstream sink.
#[derive(Debug)]
pub struct ShotInfo {
    /// Display name of the owning process.
    pub pname: String,
    /// Id of the owning process.
    pub pid: u32,
    /// The full payload bytes.
    pub data: Vec<u8>,
}

/// The unsigned value of four bytes read as a little-endian 32-bit integer.
pub open spec fn le_u32_of(b0: u8, b1: u8, b2: u8, b3: u8) -> u32 {
    (b0 + b1 * 0x100 + b2 * 0x10000 + b3 * 0x1000000) as u32
}

/// The signed value of four bytes read as a little-endian 32-bit integer.
pub open spec fn le_i32_of(b0: u8, b1: u8, b2: u8, b3: u8) -> i32 {
    le_u32_of(b0, b1, b2, b3) as i32
}

/// The signed little-endian 32-bit integer at offset `off` of `bytes`.
pub open spec fn le_i32_at(bytes: Seq<u8>, off: int) -> i32 {
    le_i32_of(bytes[off], bytes[off + 1], bytes[off + 2], bytes[off + 3])
}

/// Read the signed little-endian 32-bit integer at offset `off`, as a bitmap
/// header stores its width and height fields.
pub fn read_le_i32(bytes: &Vec<u8>, off: usize) -> (v: i32)
    requires
        off + 3 < bytes@.len(),
    ensures
        v == le_i32_at(bytes@, off as int),
{
    let n: usize = bytes.len();
    assert(off + 3 < n);
    let w: u32 = bytes[off] as u32 + (bytes[off + 1] as u32) * 0x100 + (bytes[off + 2] as u32)
        * 0x10000 + (bytes[off + 3] as u32) * 0x1000000;
    #[verifier::truncate] (w as i32)
}

/// The fingerprint a payload yields: declared width and height from the fixed
/// header offsets, the byte at the payload's midpoint, and the owner and time
/// of the observation. Meaningful only for payloads longer than
/// `MIN_DIB_PAYLOAD` bytes.
pub open spec fn fingerprint_of(payload: Seq<u8>, pid: u32, now: u64) -> ImgFingerprint {
    ImgFingerprint {
        width: le_i32_at(payload, 4),
        height: le_i32_at(payload, 8),
        center_byte: payload[payload.len() as int / 2],
        pid: pid,
        time: now,
    }
}

/// Re-delivery of literally identical content: owner, width, height and
/// sample byte all repeat the retained fingerprint.
pub open spec fn is_exact_match(last: ImgFingerprint, cur: ImgFingerprint) -> bool {
    &&& last.pid == cur.pid
    &&& last.width == cur.width
    &&& last.height == cur.height
    &&& last.center_byte == cur.center_byte
}

/// Churn from one capturing tool: same owner process, seen less than
/// `RAPID_UPDATE_MS` milliseconds after the retained fingerprint was
/// recorded, whatever the content.
pub open spec fn is_rapid_update(last: ImgFingerprint, cur: ImgFingerprint) -> bool {
    &&& last.pid == cur.pid
    &&& cur.time - last.time < RAPID_UPDATE_MS
}

/// Whether the candidate fingerprint counts as a duplicate of the retained
/// one: either an exact content match or a rapid update. With nothing
/// retained, nothing is a duplicate.
pub open spec fn is_duplicate(last: Option<ImgFingerprint>, cur: ImgFingerprint) -> bool {
    match last {
        Option::None => false,
        Option::Some(l) => is_exact_match(l, cur) || is_rapid_update(l, cur),
    }
}

/// Whether a payload seen with retained state `last` is delivered: it must be
/// long enough to carry a bitmap header and its fingerprint must not count as
/// a duplicate.
pub open spec fn image_step_delivers(
    last: Option<ImgFingerprint>,
    payload: Seq<u8>,
    pid: u32,
    now: u64,
) -> bool {
    payload.len() > MIN_DIB_PAYLOAD && !is_duplicate(last, fingerprint_of(payload, pid, now))
}

/// What one image pass concluded.
#[derive(Debug)]
pub enum ImageOutcome {
    /// The payload is too short to carry a bitmap header; nothing is read
    /// from it and nothing is delivered.
    Undersized,
    /// The payload repeats the retained fingerprint; nothing is delivered and
    /// the retained fingerprint is intentionally kept as it was, so the first
    /// capture of a burst anchors the rapid-update window.
    Duplicate,
    /// The payload is novel: deliver this capture downstream.
    Deliver(ShotInfo),
}

/// Forget the retained fingerprint, whatever it was. Called whenever the
/// clipboard is seen without image content, so a later unrelated image is
/// never compared against a stale fingerprint; calling it again when nothing
/// is retained is a no-op, not an error.
pub fn clear_fingerprint(last: &mut Option<ImgFingerprint>)
    ensures
        *final(last) is None,
{
    *last = Option::None;
}

/// One pass of the deduplicator over a fetched payload.
///
/// `last` is the retained fingerprint slot, `payload` the raw bitmap bytes,
/// `pid` and `pname` the resolved clipboard owner and `now` the monotonic
/// time in milliseconds. An undersized payload changes nothing; a duplicate
/// changes nothing and is filtered; a novel payload becomes the new retained
/// fingerprint and is handed back for delivery with its full bytes.
pub fn process_image_payload(
    last: &mut Option<ImgFingerprint>,
    payload: &Vec<u8>,
    pid: u32,
    pname: &String,
    now: u64,
) -> (out: ImageOutcome)
    ensures
        payload@.len() <= MIN_DIB_PAYLOAD ==> out is Undersized && *final(last) == *old(last),
        payload@.len() > MIN_DIB_PAYLOAD && is_duplicate(
            *old(last),
            fingerprint_of(payload@, pid, now),
        ) ==> out is Duplicate && *final(last) == *old(last),
        image_step_delivers(*old(last), payload@, pid, now) ==> *final(last) == Option::Some(
            fingerprint_of(payload@, pid, now),
        ) && (out matches ImageOutcome::Deliver(shot) && shot.pid == pid && shot.pname@ == pname@
            && shot.data@ == payload@),
        (out is Deliver) == image_step_delivers(*old(last), payload@, pid, now),
{
    if payload.len() <= MIN_DIB_PAYLOAD {
        return ImageOutcome::Undersized;
    }
    let width = read_le_i32(payload, 4);
    let height = read_le_i32(payload, 8);
    let center_byte = payload[payload.len() / 2];
    let cur = ImgFingerprint { width, height, center_byte, pid, time: now };
    assert(cur == fingerprint_of(payload@, pid, now));
    let dup: bool = match *last {
        Option::Some(l) => {
            let exact = l.pid == pid && l.width == width && l.height == height && l.center_byte
                == center_byte;
            let rapid = l.pid == pid && (now < l.time || now - l.time < RAPID_UPDATE_MS);
            exact || rapid
        },
        Option::None => false,
    };
    if dup {
        ImageOutcome::Duplicate
    } else {
        *last = Option::Some(cur);
        let mut data: Vec<u8> = Vec::new();
        let mut i: usize = 0;
        while i < payload.len()
            invariant
                i <= payload@.len(),
                data@ == payload@.subrange(0, i as int),
            decreases payload@.len() - i,
        {
            data.push(payload[i]);
            i = i + 1;
        }
        assert(data@ == payload@);
        ImageOutcome::Deliver(ShotInfo { pname: pname.clone(), pid, data })
    }
}

/// For all image payloads whose owner, width, height and sample byte repeat
/// the retained fingerprint exactly, the deduplicator judges duplicate and
/// does not deliver.
pub proof fn lemma_exact_repeat_is_not_delivered(
    last: ImgFingerprint,
    payload: Seq<u8>,
    pid: u32,
    now: u64,
)
    requires
        pid == last.pid,
        le_i32_at(payload, 4) == last.width,
        le_i32_at(payload, 8) == last.height,
        payload[payload.len() as int / 2] == last.center_byte,
    ensures
        is_duplicate(Option::Some(last), fingerprint_of(payload, pid, now)),
        !image_step_delivers(Option::Some(last), payload, pid, now),
{
}

/// For all image payloads from the same owner process as the retained
/// fingerprint, seen less than `RAPID_UPDATE_MS` milliseconds after it was
/// recorded, the deduplicator judges duplicate and does not deliver, even
/// when width, height and sample byte all differ.
pub proof fn lemma_rapid_update_is_not_delivered(
    last: ImgFingerprint,
    payload: Seq<u8>,
    pid: u32,
    now: u64,
)
    requires
        pid == last.pid,
        now - last.time < RAPID_UPDATE_MS,
    ensures
        is_duplicate(Option::Some(last), fingerprint_of(payload, pid, now)),
        !image_step_delivers(Option::Some(last), payload, pid, now),
{
}

/// For all image payloads no longer than `MIN_DIB_PAYLOAD` bytes, the
/// deduplicator delivers nothing, whatever the retained state.
pub proof fn lemma_undersized_is_not_delivered(
    last: Option<ImgFingerprint>,
    payload: Seq<u8>,
    pid: u32,
    now: u64,
)
    requires
        payload.len() <= MIN_DIB_PAYLOAD,
    ensures
        !image_step_delivers(last, payload, pid, now),
{
}

} // verus!
