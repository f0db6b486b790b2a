//! The message-interception state machine: for each intercepted native
//! message, decide which side effects to request and whether to answer the
//! message or forward it along the default subclass chain. The caller
//! fetches the platform state fresh for every message, performs the
//! requested actions, and returns the decided result to the message pump.

use vstd::prelude::*;
use crate::geometry::FrameGeometry;
use crate::geometry::Rect;
use crate::geometry::RepositionRequest;
use crate::geometry::dims_fit;
use crate::geometry::reposition_request;
use crate::geometry::spec_reposition;
use crate::hit_test::classify;
use crate::hit_test::get_lparam_point;
use crate::hit_test::region_code;
use crate::hit_test::sign_extended;
use crate::hit_test::spec_classify;
use crate::hit_test::spec_hi_word;
use crate::hit_test::spec_lo_word;
use crate::hit_test::spec_region_code;
use crate::hit_test::spec_substitute;
use crate::hit_test::substitute_nowhere;

verus! {

/// The creation message code.
pub const MSG_CREATE: u32 = 0x0001;

/// The activation message code.
pub const MSG_ACTIVATE: u32 = 0x0006;

/// The frame-size-calculation message code.
pub const MSG_NCCALCSIZE: u32 = 0x0083;

/// The hit-test message code.
pub const MSG_NCHITTEST: u32 = 0x0084;

/// What the compositor's own default window procedure said about a
/// message: whether it claims to have fully handled it, and the result it
/// produced either way.
#[derive(Clone, Copy, PartialEq, Eq, Structural, Debug)]
pub struct DwmResponse {
    pub handled: bool,
    pub result: isize,
}

/// How a message leaves the interceptor: answered with a result, or
/// forwarded unchanged to the next handler in the default subclass chain.
#[derive(Clone, Copy, PartialEq, Eq, Structural, Debug)]
pub enum Decision {
    Forward,
    Answer(isize),
}

/// The margins by which the visual frame is extended into the client area
/// on activation.
#[derive(Clone, Copy, PartialEq, Eq, Structural, Debug)]
pub struct FrameExtension {
    pub left: i32,
    pub top: i32,
    pub right: i32,
    pub bottom: i32,
}

/// Everything the interceptor asks of its caller for one message: the
/// side effects to perform, in this order, and the final decision.
#[derive(Clone, Copy, PartialEq, Eq, Structural, Debug)]
pub struct InterceptOutcome {
    pub reposition: Option<RepositionRequest>,
    pub extend_frame: bool,
    pub adjusted_client: Option<Rect>,
    pub decision: Decision,
}

/// The policy for the composition query: a failed query counts as
/// composition disabled, degrading to ordinary chrome rather than
/// surfacing an error.
pub fn composition_active(query: Option<bool>) -> (active: bool)
    ensures
        active <==> query == Some(true),
{
    match query {
        Some(enabled) => enabled,
        None => false,
    }
}

/// The frame-extension margins requested on activation: a small top inset
/// of a few device pixels, nothing on the other edges, so that the
/// compositor keeps its drop shadow without the destructive negative-inset
/// techniques.
pub fn frame_extension_insets() -> (m: FrameExtension)
    ensures
        m == (FrameExtension { left: 0, top: 2, right: 0, bottom: 0 }),
{
    FrameExtension { left: 0, top: 2, right: 0, bottom: 0 }
}

/// The client rectangle the frame-size calculation proposes, reshaped:
/// the top edge moves up by the caption-height inset, the bottom edge
/// grows by one device pixel, and the sides stay untouched.
pub open spec fn spec_adjusted_client(proposed: Rect, borders: FrameGeometry) -> Rect {
    Rect {
        left: proposed.left,
        top: (proposed.top + borders.caption.top) as i32,
        right: proposed.right,
        bottom: (proposed.bottom + 1) as i32,
    }
}

/// Reshapes the proposed client rectangle for the frame-size-calculation
/// message: the caption-height inset is reclaimed at the top and one
/// device pixel is reserved along the bottom.
pub fn adjust_client_rect(proposed: Rect, borders: FrameGeometry) -> (r: Rect)
    requires
        i32::MIN <= proposed.top + borders.caption.top <= i32::MAX,
        proposed.bottom + 1 <= i32::MAX,
    ensures
        r == spec_adjusted_client(proposed, borders),
        r.left == proposed.left,
        r.right == proposed.right,
        r.top == proposed.top + borders.caption.top,
        r.bottom == proposed.bottom + 1,
{
    Rect {
        left: proposed.left,
        top: proposed.top + borders.caption.top,
        right: proposed.right,
        bottom: proposed.bottom + 1,
    }
}

/// The region code answered for a hit-test message: the classified
/// region with the interior remapped to caption.
pub open spec fn spec_hit_test_answer(
    window: Rect,
    borders: FrameGeometry,
    lparam: u32,
) -> int {
    spec_region_code(
        spec_substitute(
            spec_classify(
                window,
                borders,
                sign_extended(spec_lo_word(lparam)),
                sign_extended(spec_hi_word(lparam)),
            ),
        ),
    ) as int
}

/// The decision taken for a message once composition is known to be
/// enabled, in fixed priority order: the frame-size calculation is
/// answered as handled; a hit-test on which the compositor's own
/// procedure voiced no opinion is answered with the classified region;
/// a message the compositor claims to have fully handled is answered
/// with its result; everything else is forwarded.
pub open spec fn spec_decision(
    msg: u32,
    wparam: usize,
    lparam: u32,
    dwm: DwmResponse,
    window: Rect,
    borders: FrameGeometry,
) -> Decision {
    if msg == MSG_NCCALCSIZE && wparam == 1 {
        Decision::Answer(0)
    } else if msg == MSG_NCHITTEST && dwm.result == 0 {
        Decision::Answer(spec_hit_test_answer(window, borders, lparam) as isize)
    } else if dwm.handled {
        Decision::Answer(dwm.result)
    } else {
        Decision::Forward
    }
}

/// One full interception step. The caller hands in the message, the
/// compositor's own answer to it, and freshly fetched window geometry;
/// the outcome lists the side effects owed for this message and how the
/// message is to be answered. With composition disabled every message is
/// forwarded unchanged and no side effect is requested.
pub fn intercept(
    composition_enabled: bool,
    msg: u32,
    wparam: usize,
    lparam: u32,
    dwm: DwmResponse,
    window: Rect,
    borders: FrameGeometry,
    proposed_client: Rect,
) -> (out: InterceptOutcome)
    requires
        composition_enabled && msg == MSG_CREATE ==> dims_fit(window),
        composition_enabled && msg == MSG_NCCALCSIZE && wparam == 1 ==> {
            &&& i32::MIN <= proposed_client.top + borders.caption.top <= i32::MAX
            &&& proposed_client.bottom + 1 <= i32::MAX
        },
    ensures
        !composition_enabled ==> {
            &&& out.reposition is None
            &&& !out.extend_frame
            &&& out.adjusted_client is None
            &&& out.decision == Decision::Forward
        },
        composition_enabled ==> {
            &&& out.reposition == if msg == MSG_CREATE {
                Some(spec_reposition(window))
            } else {
                None::<RepositionRequest>
            }
            &&& out.extend_frame <==> msg == MSG_ACTIVATE
            &&& out.adjusted_client == if msg == MSG_NCCALCSIZE && wparam == 1 {
                Some(spec_adjusted_client(proposed_client, borders))
            } else {
                None::<Rect>
            }
            &&& out.decision == spec_decision(msg, wparam, lparam, dwm, window, borders)
        },
{
    if !composition_enabled {
        return InterceptOutcome {
            reposition: None,
            extend_frame: false,
            adjusted_client: None,
            decision: Decision::Forward,
        };
    }
    let reposition: Option<RepositionRequest> = if msg == MSG_CREATE {
        Some(reposition_request(window))
    } else {
        None
    };
    let extend_frame: bool = msg == MSG_ACTIVATE;
    let adjusted_client: Option<Rect> = if msg == MSG_NCCALCSIZE && wparam == 1 {
        Some(adjust_client_rect(proposed_client, borders))
    } else {
        None
    };
    let decision: Decision = if msg == MSG_NCCALCSIZE && wparam == 1 {
        Decision::Answer(0)
    } else if msg == MSG_NCHITTEST && dwm.result == 0 {
        let point = get_lparam_point(lparam);
        let region = classify(window, borders, point.0, point.1);
        let answer: u32 = region_code(substitute_nowhere(region));
        Decision::Answer(answer as isize)
    } else if dwm.handled {
        Decision::Answer(dwm.result)
    } else {
        Decision::Forward
    };
    InterceptOutcome { reposition, extend_frame, adjusted_client, decision }
}

} // verus!
