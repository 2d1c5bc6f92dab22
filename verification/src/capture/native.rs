//! Computations of the native capture backends on plain values: the size of
//! a desktop output, the name of an output, and the classification of a
//! screen-capture failure.

use vstd::prelude::*;

use crate::capture::error::CaptureError;
use crate::text::owned;

verus! {

/// The length of a side from its two coordinates, negative lengths counting
/// as 0.
pub open spec fn side(low: i32, high: i32) -> u32 {
    if high - low < 0 {
        0
    } else {
        (high - low) as u32
    }
}

/// The pixel size of an output from its desktop rectangle and its rotation
/// (a DXGI rotation code: 2 and 4, a quarter turn either way, swap the sides).
pub fn desktop_size(left: i32, top: i32, right: i32, bottom: i32, rotation: i32) -> (r: (u32, u32))
    requires
        i32::MIN <= right - left <= i32::MAX,
        i32::MIN <= bottom - top <= i32::MAX,
    ensures
        r == if rotation == 2 || rotation == 4 {
            (side(top, bottom), side(left, right))
        } else {
            (side(left, right), side(top, bottom))
        },
{
    let dw = right - left;
    let dh = bottom - top;
    let w: u32 = if dw < 0 {
        0
    } else {
        dw as u32
    };
    let h: u32 = if dh < 0 {
        0
    } else {
        dh as u32
    };
    if rotation == 2 || rotation == 4 {
        (h, w)
    } else {
        (w, h)
    }
}

/// A UTF-16 unit that opens a surrogate pair.
pub open spec fn is_high_surrogate(u: u16) -> bool {
    0xD800 <= u <= 0xDBFF
}

/// A UTF-16 unit that closes a surrogate pair.
pub open spec fn is_low_surrogate(u: u16) -> bool {
    0xDC00 <= u <= 0xDFFF
}

/// Lossy UTF-16 decoding: a unit outside the surrogate range is its own
/// character, a high surrogate followed by a low one is the character of the
/// pair, and every other surrogate unit becomes U+FFFD on its own.
pub open spec fn utf16_lossy_text(units: Seq<u16>) -> Seq<char>
    decreases units.len(),
{
    if units.len() == 0 {
        Seq::empty()
    } else if units.len() >= 2 && is_high_surrogate(units[0]) && is_low_surrogate(units[1]) {
        let c: u32 = (0x10000 + (units[0] - 0xD800) * 0x400 + (units[1] - 0xDC00)) as u32;
        seq![c as char] + utf16_lossy_text(units.skip(2))
    } else if is_high_surrogate(units[0]) || is_low_surrogate(units[0]) {
        seq!['\u{FFFD}'] + utf16_lossy_text(units.skip(1))
    } else {
        seq![(units[0] as u32) as char] + utf16_lossy_text(units.skip(1))
    }
}

/// Calls `String::from_utf16_lossy`; the contract claims that it decodes the
/// units as [`utf16_lossy_text`] states (each unpaired surrogate becomes one
/// U+FFFD).
#[verifier::external_body]
fn utf16_lossy(units: &[u16]) -> (r: String)
    ensures
        r@ == utf16_lossy_text(units@),
{
    String::from_utf16_lossy(units)
}

/// The units before the first NUL (all of them if there is none).
pub open spec fn before_nul(buf: Seq<u16>) -> Seq<u16> {
    if exists|i: int| 0 <= i < buf.len() && buf[i] == 0 {
        buf.take(choose|i: int| 0 <= i < buf.len() && buf[i] == 0 && forall|j: int| 0 <= j < i ==> buf[j] != 0)
    } else {
        buf
    }
}

/// The name held in a NUL-terminated UTF-16 buffer.
pub fn wide_to_string(buf: &[u16]) -> (r: String)
    ensures
        r@ == utf16_lossy_text(before_nul(buf@)),
{
    let mut units: Vec<u16> = Vec::new();
    let mut i: usize = 0;
    while i < buf.len() && buf[i] != 0
        invariant
            i <= buf@.len(),
            units@ == buf@.take(i as int),
            forall|j: int| 0 <= j < i ==> buf@[j] != 0,
        decreases buf@.len() - i,
    {
        units.push(buf[i]);
        i = i + 1;
        assert(units@ =~= buf@.take(i as int));
    }
    proof {
        if i < buf@.len() {
            assert(buf@[i as int] == 0);
            let k = choose|k: int| 0 <= k < buf@.len() && buf@[k] == 0 && forall|j: int| 0 <= j < k ==> buf@[j] != 0;
            if k < i {
                assert(buf@[k] != 0);
            }
            if i < k {
                assert(buf@[i as int] != 0);
            }
            assert(before_nul(buf@) == buf@.take(i as int));
        } else {
            assert(units@ =~= buf@);
            assert(!(exists|x: int| 0 <= x < buf@.len() && buf@[x] == 0));
        }
    }
    utf16_lossy(units.as_slice())
}

/// The lower-case form that `str::to_lowercase` gives of `s`.
pub uninterp spec fn lowercase_text(s: Seq<char>) -> Seq<char>;

/// Calls `str::to_lowercase`; the contract claims that the result depends on
/// the text alone, and names it [`lowercase_text`].
#[verifier::external_body]
fn to_lowercase(s: &str) -> (r: String)
    ensures
        r@ == lowercase_text(s@),
{
    s.to_lowercase()
}

/// `needle` occurs in `hay`.
pub open spec fn occurs_in(hay: Seq<char>, needle: Seq<char>) -> bool {
    exists|i: int| 0 <= i <= hay.len() - needle.len() && #[trigger] hay.subrange(i, i + needle.len()) == needle
}

/// Whether `needle` occurs in `hay`.
pub fn contains_text(hay: &str, needle: &str) -> (r: bool)
    ensures
        r == occurs_in(hay@, needle@),
{
    let n = hay.unicode_len();
    let m = needle.unicode_len();
    if m > n {
        return false;
    }
    let mut i: usize = 0;
    while i <= n - m
        invariant
            n == hay@.len(),
            m == needle@.len(),
            m <= n,
            i <= n - m + 1,
            forall|k: int| 0 <= k < i ==> #[trigger] hay@.subrange(k, k + m) != needle@,
        decreases n - m + 1 - i,
    {
        let mut j: usize = 0;
        let mut same = true;
        while j < m && same
            invariant
                n == hay@.len(),
                m == needle@.len(),
                i + m <= n,
                j <= m,
                same == (forall|t: int| 0 <= t < j ==> hay@[i + t] == needle@[t]),
            decreases m - j,
        {
            if hay.get_char(i + j) != needle.get_char(j) {
                same = false;
            }
            j = j + 1;
        }
        if same {
            assert(hay@.subrange(i as int, i + m) =~= needle@);
            return true;
        }
        proof {
            let t = choose|t: int| 0 <= t < j && hay@[i + t] != needle@[t];
            assert(hay@.subrange(i as int, i + m)[t] != needle@[t]);
        }
        i = i + 1;
    }
    false
}

/// A screen-capture failure that denies permission: its lower-cased text
/// mentions `permission`, `denied` or `not authorized`.
pub open spec fn denies_permission(msg: Seq<char>) -> bool {
    let lower = lowercase_text(msg);
    occurs_in(lower, "permission"@) || occurs_in(lower, "denied"@) || occurs_in(
        lower,
        "not authorized"@,
    )
}

/// Classifies the text of a screen-capture failure: a denied permission, or
/// a native failure carrying the text.
pub fn map_sck(msg: String) -> (r: CaptureError)
    ensures
        denies_permission(msg@) ==> r is PermissionDenied,
        !denies_permission(msg@) ==> r == CaptureError::Native(msg),
{
    let lower = to_lowercase(msg.as_str());
    if contains_text(lower.as_str(), "permission") || contains_text(lower.as_str(), "denied")
        || contains_text(lower.as_str(), "not authorized") {
        CaptureError::PermissionDenied
    } else {
        CaptureError::Native(msg)
    }
}

/// Rows `0..h` of an image whose rows start every `stride` bytes of `src`,
/// each cut to its first `row` bytes and laid end to end.
pub open spec fn packed_rows(src: Seq<u8>, stride: nat, row: nat, h: nat) -> Seq<u8>
    decreases h,
{
    if h == 0 {
        Seq::empty()
    } else {
        packed_rows(src, stride, row, (h - 1) as nat) + src.subrange(
            (h - 1) * stride,
            (h - 1) * stride + row,
        )
    }
}

/// Every one of the `h` rows lies inside `src`.
pub open spec fn rows_fit(len: nat, stride: nat, row: nat, h: nat) -> bool {
    h == 0 || (h - 1) * stride + row <= len
}

/// Bytes per packed row of `width` BGRA pixels (`width * 4`, saturated).
pub open spec fn row_bytes(width: usize) -> nat {
    if width * 4 > usize::MAX {
        usize::MAX as nat
    } else {
        (width * 4) as nat
    }
}

/// Text of the error on a buffer too short for its rows.
pub open spec fn short_buffer_text() -> Seq<char> {
    "pixel buffer shorter than expected stride"@
}

/// A row starting at `y * stride` and `row` long reaches past `len`: then not
/// all of `h > y` rows fit.
proof fn lemma_row_past_end(len: nat, stride: nat, row: nat, y: nat, h: nat)
    requires
        y < h,
        y * stride + row > len,
    ensures
        !rows_fit(len, stride, row, h),
{
    assert(y * stride <= (h - 1) * stride) by (nonlinear_arith)
        requires
            y <= h - 1,
    ;
}

/// Packing lays the rows end to end: `h` rows of `row` bytes, where byte `c`
/// of row `y` is byte `y * stride + c` of the source.
pub proof fn lemma_packed_rows_layout(src: Seq<u8>, stride: nat, row: nat, h: nat)
    requires
        rows_fit(src.len(), stride, row, h),
    ensures
        packed_rows(src, stride, row, h).len() == h * row,
        forall|y: nat, c: nat|
            y < h && c < row ==> #[trigger] packed_rows(src, stride, row, h)[(y * row + c) as int] == src[(y * stride + c) as int],
    decreases h,
{
    if h > 0 {
        let h1 = (h - 1) as nat;
        if h1 > 0 {
            assert((h1 - 1) * stride + row <= (h - 1) * stride + row) by (nonlinear_arith)
                requires
                    h1 - 1 <= h - 1,
            ;
        }
        lemma_packed_rows_layout(src, stride, row, h1);
        let p = packed_rows(src, stride, row, h1);
        let last = src.subrange((h1 * stride) as int, (h1 * stride + row) as int);
        assert(p.len() == h1 * row);
        assert(h * row == h1 * row + row) by (nonlinear_arith)
            requires
                h == h1 + 1,
        ;
        assert forall|y: nat, c: nat| y < h && c < row implies #[trigger] packed_rows(
            src,
            stride,
            row,
            h,
        )[(y * row + c) as int] == src[(y * stride + c) as int] by {
            if y < h1 {
                assert(y * row + c < h1 * row) by (nonlinear_arith)
                    requires
                        y < h1,
                        c < row,
                ;
                assert(packed_rows(src, stride, row, h1)[(y * row + c) as int] == src[(y * stride + c) as int]);
            } else {
                assert(y == h1);
            }
        }
    }
}

/// Copies a BGRA image of `width` x `height` pixels whose rows start every
/// `src_stride` bytes of `src` into a tight buffer (`width * 4` bytes per
/// row); fails when a row reaches past the end of `src`.
pub fn pack_rows(src: &[u8], src_stride: usize, width: usize, height: usize) -> (r: Result<
    Vec<u8>,
    CaptureError,
>)
    requires
        height == 0 || width * 4 * height <= usize::MAX,
    ensures
        r is Ok <==> rows_fit(src@.len(), src_stride as nat, row_bytes(width), height as nat),
        r matches Ok(v) ==> v@ == packed_rows(src@, src_stride as nat, row_bytes(width), height as nat),
        r matches Err(e) ==> (e matches CaptureError::Native(t) && t@ == short_buffer_text()),
{
    let row: usize = if width > usize::MAX / 4 {
        usize::MAX
    } else {
        width * 4
    };
    assert(row == row_bytes(width));
    let ghost stride = src_stride as nat;
    let n = src.len();
    let mut out: Vec<u8> = Vec::new();
    let mut y: usize = 0;
    while y < height
        invariant
            n == src@.len(),
            row == row_bytes(width),
            y <= height,
            out@ == packed_rows(src@, stride, row as nat, y as nat),
            stride == src_stride,
            y > 0 ==> rows_fit(src@.len(), stride, row as nat, y as nat),
        decreases height - y,
    {
        let off = match y.checked_mul(src_stride) {
            Some(o) => o,
            None => {
                proof {
                    lemma_row_past_end(src@.len(), stride, row as nat, y as nat, height as nat);
                }
                return Err(CaptureError::Native(owned("pixel buffer shorter than expected stride")));
            },
        };
        let end = match off.checked_add(row) {
            Some(e) => e,
            None => {
                proof {
                    lemma_row_past_end(src@.len(), stride, row as nat, y as nat, height as nat);
                }
                return Err(CaptureError::Native(owned("pixel buffer shorter than expected stride")));
            },
        };
        if end > n {
            proof {
                lemma_row_past_end(src@.len(), stride, row as nat, y as nat, height as nat);
            }
            return Err(CaptureError::Native(owned("pixel buffer shorter than expected stride")));
        }
        let ghost before = out@;
        let mut x: usize = off;
        while x < end
            invariant
                off <= x <= end <= src@.len(),
                out@ == before + src@.subrange(off as int, x as int),
            decreases end - x,
        {
            out.push(src[x]);
            x = x + 1;
            assert(out@ =~= before + src@.subrange(off as int, x as int));
        }
        y = y + 1;
    }
    Ok(out)
}

/// What acquiring the next desktop frame reported.
#[derive(Debug, Clone, PartialEq, Eq)]
pub enum AcquireResult {
    /// A frame was acquired.
    Acquired,
    /// No new frame before the timeout.
    WaitTimeout,
    /// Access to the desktop duplication was lost.
    AccessLost,
    /// Any other failure, with its description.
    Failed(String),
}

/// What the capturer does after an acquire.
#[derive(Debug)]
pub enum AcquireStep {
    /// No frame this time; `release` says whether the acquired frame must be
    /// released first.
    NoFrame { release: bool },
    /// Copy the frame out.
    Frame,
    /// Fail with this error.
    Fail(CaptureError),
}

/// Classifies an acquire: a timeout is no frame; a lost access or another
/// failure is an error; an acquire without a resource, or one that reports
/// no desktop update (no present time and no accumulated frames), is no frame
/// but must be released.
pub fn acquire_step(
    result: AcquireResult,
    has_resource: bool,
    last_present_time: i64,
    accumulated_frames: u32,
) -> (r: AcquireStep)
    ensures
        result is WaitTimeout ==> r == (AcquireStep::NoFrame { release: false }),
        result is AccessLost ==> r == AcquireStep::Fail(CaptureError::AccessLost),
        result matches AcquireResult::Failed(t) ==> r == AcquireStep::Fail(CaptureError::Native(t)),
        result is Acquired ==> r == if !has_resource || (last_present_time == 0
            && accumulated_frames == 0) {
            AcquireStep::NoFrame { release: true }
        } else {
            AcquireStep::Frame
        },
{
    match result {
        AcquireResult::WaitTimeout => AcquireStep::NoFrame { release: false },
        AcquireResult::AccessLost => AcquireStep::Fail(CaptureError::AccessLost),
        AcquireResult::Failed(t) => AcquireStep::Fail(CaptureError::Native(t)),
        AcquireResult::Acquired => {
            if !has_resource || (last_present_time == 0 && accumulated_frames == 0) {
                AcquireStep::NoFrame { release: true }
            } else {
                AcquireStep::Frame
            }
        },
    }
}

} // verus!
