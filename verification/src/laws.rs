//! Laws of the viewer: properties that hold across calls and states,
//! stated over the spec transition functions and proved once for all
//! inputs.

use crate::geom::ZOOM_MIN;
use crate::geom::ZOOM_MAX;
use crate::geom::R2;
use crate::geom::V2;
use crate::img::decoded_image;
use crate::viewer::ImejiView;
use crate::viewer::spec_close;
use crate::viewer::spec_drag;
use crate::viewer::spec_drop;
use crate::viewer::spec_rect_of;
use crate::viewer::spec_scroll;
use vstd::prelude::*;

verus! {

/// One scroll event: the wheel delta, the hovering pointer, and the center
/// of the available area at that frame.
pub struct ScrollEvent {
    pub delta: int,
    pub mouse: Option<V2>,
    pub center: V2,
}

/// The state after a whole sequence of scroll events, applied in order.
pub open spec fn apply_scrolls(v: ImejiView, events: Seq<ScrollEvent>) -> ImejiView
    decreases events.len(),
{
    if events.len() == 0 {
        v
    } else {
        apply_scrolls(
            spec_scroll(v, events[0].delta, events[0].mouse, events[0].center),
            events.drop_first(),
        )
    }
}

/// A single scroll keeps the viewer invariant.
pub proof fn lemma_scroll_preserves_inv(v: ImejiView, delta: int, mouse: Option<V2>, center: V2)
    requires
        v.inv(),
    ensures
        spec_scroll(v, delta, mouse, center).inv(),
{
}

/// However much is scrolled, in however many events, the zoom factor never
/// leaves `[ZOOM_MIN, ZOOM_MAX]`.
pub proof fn lemma_zoom_always_clamped(v: ImejiView, events: Seq<ScrollEvent>)
    requires
        v.inv(),
    ensures
        apply_scrolls(v, events).inv(),
        ZOOM_MIN <= apply_scrolls(v, events).zoom <= ZOOM_MAX,
    decreases events.len(),
{
    if events.len() > 0 {
        lemma_scroll_preserves_inv(v, events[0].delta, events[0].mouse, events[0].center);
        lemma_zoom_always_clamped(
            spec_scroll(v, events[0].delta, events[0].mouse, events[0].center),
            events.drop_first(),
        );
    }
}

/// A scroll that lands the zoom exactly on `ZOOM_MIN` leaves the pan at
/// exactly zero: the image re-centers.
pub proof fn lemma_unit_zoom_recenters(v: ImejiView, delta: int, mouse: Option<V2>, center: V2)
    requires
        v.inv(),
    ensures
        spec_scroll(v, delta, mouse, center).zoom == ZOOM_MIN ==> spec_scroll(
            v,
            delta,
            mouse,
            center,
        ).pan == (V2 { x: 0, y: 0 }),
{
    lemma_scroll_preserves_inv(v, delta, mouse, center);
}

/// Dragging while at unit zoom never moves the displayed rectangle.
pub proof fn lemma_drag_noop_at_unit_zoom(
    v: ImejiView,
    primary_down: bool,
    mouse: Option<V2>,
    area: R2,
)
    requires
        v.inv(),
        v.zoom == ZOOM_MIN,
    ensures
        spec_drag(v, primary_down, mouse).pan == v.pan,
        spec_rect_of(spec_drag(v, primary_down, mouse), area) == spec_rect_of(v, area),
{
}

/// Whatever the prior viewport state, loading an image resets the zoom to
/// `ZOOM_MIN` and the pan to zero.
pub proof fn lemma_load_resets_viewport(v: ImejiView, bytes: Seq<u8>)
    ensures
        decoded_image(bytes) is Some ==> spec_drop(v, Some(bytes)).zoom == ZOOM_MIN
            && spec_drop(v, Some(bytes)).pan == (V2 { x: 0, y: 0 }),
{
}

/// Closing the image clears image and texture and resets zoom and pan,
/// whatever the prior state.
pub proof fn lemma_close_clears(v: ImejiView)
    ensures
        spec_close(v).image is None,
        spec_close(v).texture is None,
        spec_close(v).zoom == ZOOM_MIN,
        spec_close(v).pan == (V2 { x: 0, y: 0 }),
{
}

} // verus!
