//! Frame geometry: rectangles, the two frame-border inset rectangles a
//! standard window style produces, and the creation-time reposition request
//! that forces the platform to recompute the frame.

use vstd::prelude::*;

verus! {

/// A rectangle given by its four signed edges, in screen or client
/// coordinates depending on the call site; the two must never be mixed
/// within one computation.
#[derive(Clone, Copy, PartialEq, Eq, Structural, Debug)]
pub struct Rect {
    pub left: i32,
    pub top: i32,
    pub right: i32,
    pub bottom: i32,
}

/// The style bits of a standard overlapped top-level window.
pub const STYLE_OVERLAPPED_WINDOW: u32 = 0x00CF0000;

/// The style bit group that selects a caption bar.
pub const STYLE_CAPTION: u32 = 0x00C00000;

/// Style flags under which the platform's standard frame-adjustment
/// function is queried: the full overlapped style, with or without its
/// caption bits.
pub fn frame_border_style(with_caption: bool) -> (s: u32)
    ensures
        with_caption ==> s == STYLE_OVERLAPPED_WINDOW,
        !with_caption ==> s == STYLE_OVERLAPPED_WINDOW & !STYLE_CAPTION,
        !with_caption ==> s == 0x000F0000u32,
{
    if with_caption {
        STYLE_OVERLAPPED_WINDOW
    } else {
        proof {
            assert(0x00CF0000u32 & !0x00C00000u32 == 0x000F0000u32) by (bit_vector);
        }
        STYLE_OVERLAPPED_WINDOW & !STYLE_CAPTION
    }
}

/// The two frame-border inset rectangles a hit-test works with: `frame` for
/// the resize-only style (no caption) and `caption` for the full style.
/// Each rectangle says how far a standard frame would move each edge of a
/// zero-origin client rectangle, so the top inset of either style is a
/// non-positive value whose magnitude is the band height above the window.
#[derive(Clone, Copy, PartialEq, Eq, Structural, Debug)]
pub struct FrameGeometry {
    pub frame: Rect,
    pub caption: Rect,
}

impl FrameGeometry {
    /// The structural invariant of frame geometry: both top insets extend
    /// upward, and the caption style extends strictly further than the
    /// resize-only style, because a caption adds height.
    pub open spec fn wf(self) -> bool {
        self.caption.top < self.frame.top && self.frame.top <= 0
    }

    /// Pairs the two queried border rectangles, accepting them only when
    /// they satisfy the structural invariant; a platform answer that does
    /// not is rejected so that the caller can degrade to default chrome.
    pub fn new(frame: Rect, caption: Rect) -> (r: Option<FrameGeometry>)
        ensures
            r is Some <==> caption.top < frame.top && frame.top <= 0,
            r is Some ==> r->0 == (FrameGeometry { frame, caption }) && r->0.wf(),
    {
        if caption.top < frame.top && frame.top <= 0 {
            Some(FrameGeometry { frame, caption })
        } else {
            None
        }
    }
}

/// The caption-style frame reaches strictly higher above the window top
/// than the resize-only frame: the caption adds height, so the magnitude
/// of the caption top inset strictly exceeds that of the resize top inset.
pub proof fn lemma_caption_adds_height(g: FrameGeometry)
    requires
        g.wf(),
    ensures
        -g.caption.top > -g.frame.top,
        -g.caption.top > 0,
{
}

/// A request to the platform's window-positioning function: place the
/// window at `(x, y)` with the given size and have the frame recomputed.
#[derive(Clone, Copy, PartialEq, Eq, Structural, Debug)]
pub struct RepositionRequest {
    pub x: i32,
    pub y: i32,
    pub width: i32,
    pub height: i32,
    pub frame_changed: bool,
}

/// Whether the width and height of a rectangle fit the signed word the
/// positioning function takes.
pub open spec fn dims_fit(r: Rect) -> bool {
    &&& i32::MIN <= r.right - r.left <= i32::MAX
    &&& i32::MIN <= r.bottom - r.top <= i32::MAX
}

/// The reposition request issued for a window whose current screen
/// rectangle is `r`: the window's own position and size, with the
/// frame-changed flag set.
pub open spec fn spec_reposition(r: Rect) -> RepositionRequest {
    RepositionRequest {
        x: r.left,
        y: r.top,
        width: (r.right - r.left) as i32,
        height: (r.bottom - r.top) as i32,
        frame_changed: true,
    }
}

/// Whether a reposition request leaves a window whose screen rectangle is
/// `r` exactly where it is: same origin, same extent.
pub open spec fn preserves_rect(req: RepositionRequest, r: Rect) -> bool {
    &&& req.x == r.left
    &&& req.y == r.top
    &&& req.x + req.width == r.right
    &&& req.y + req.height == r.bottom
}

/// The creation-time reposition step: re-apply the window's current
/// position and size unchanged, asking only for the frame to be
/// recomputed.
pub fn reposition_request(r: Rect) -> (req: RepositionRequest)
    requires
        dims_fit(r),
    ensures
        req == spec_reposition(r),
        preserves_rect(req, r),
        req.frame_changed,
{
    let width: i32 = ((r.right as i64) - (r.left as i64)) as i32;
    let height: i32 = ((r.bottom as i64) - (r.top as i64)) as i32;
    RepositionRequest { x: r.left, y: r.top, width, height, frame_changed: true }
}

/// Invoking the creation-time reposition step twice in a row with no
/// intervening geometry change is idempotent: the first request leaves the
/// window rectangle unchanged, so any rectangle `after` it produced equals
/// the original, and the second request repeats the first exactly.
pub proof fn lemma_reposition_idempotent(r: Rect, after: Rect)
    requires
        dims_fit(r),
        preserves_rect(spec_reposition(r), after),
    ensures
        after == r,
        spec_reposition(after) == spec_reposition(r),
        preserves_rect(spec_reposition(after), after),
{
}

} // verus!
