//! Viewer state and the per-frame transition.
//!
//! `Imeji` holds the decoded image, the lazily cached texture id, the zoom
//! factor and the pan offset. Each frame the embedding shell gathers the
//! toolkit's input into a `FrameInput` snapshot and calls `update`, which
//! mutates the state exactly as the spec transition functions describe and
//! returns the draw rectangle. All coordinates are milli-pixels; the zoom
//! factor is milli-units in `[ZOOM_MIN, ZOOM_MAX]`.

use crate::geom::PAN_LIMIT;
use crate::geom::COORD_LIMIT;
use crate::geom::RESIZE_GUARD;
use crate::geom::SCALE;
use crate::geom::ZOOM_MAX;
use crate::geom::ZOOM_MIN;
use crate::geom::R2;
use crate::geom::RectM;
use crate::geom::V2;
use crate::geom::Vec2M;
use crate::geom::clamp_i64;
use crate::geom::div_scale;
use crate::geom::div_scale_i64;
use crate::geom::lemma_div_scale_bound;
use crate::geom::lemma_div_stays_bounded;
use crate::geom::lemma_zoom_ratio_bounds;
use crate::geom::min_i64;
use crate::geom::spec_center;
use crate::geom::spec_clamp;
use crate::geom::spec_min;
use crate::img::DecodeError;
use crate::img::PixelImage;
use crate::img::PixelImageView;
use crate::img::decode;
use crate::img::decoded_image;
use vstd::prelude::*;

verus! {

/// A coordinate accepted from the toolkit: within one billion pixels.
pub open spec fn in_coord(p: V2) -> bool {
    &&& -COORD_LIMIT <= p.x <= COORD_LIMIT
    &&& -COORD_LIMIT <= p.y <= COORD_LIMIT
}

/// A rectangle center: within twice the coordinate limit.
pub open spec fn in_coord2(p: V2) -> bool {
    &&& -2 * COORD_LIMIT <= p.x <= 2 * COORD_LIMIT
    &&& -2 * COORD_LIMIT <= p.y <= 2 * COORD_LIMIT
}

/// A well-formed screen rectangle: corners in range and not inverted.
pub open spec fn rect_wf(r: R2) -> bool {
    &&& in_coord(r.min)
    &&& in_coord(r.max)
    &&& r.min.x <= r.max.x
    &&& r.min.y <= r.max.y
}

/// The model of an `Option<Vec2M>`.
pub open spec fn mouse_view(m: Option<Vec2M>) -> Option<V2> {
    match m {
        Some(p) => Some(p@),
        None => None,
    }
}

/// The model of an `Option<PixelImage>`.
pub open spec fn image_view(i: Option<PixelImage>) -> Option<PixelImageView> {
    match i {
        Some(img) => Some(img@),
        None => None,
    }
}

/// The model of an `Option<Vec<u8>>`.
pub open spec fn bytes_view(b: Option<Vec<u8>>) -> Option<Seq<u8>> {
    match b {
        Some(v) => Some(v@),
        None => None,
    }
}

/// Everything the viewer reads from the toolkit in one frame.
pub struct FrameInput {
    /// Raw bytes of the first file dropped this frame, if any.
    pub dropped_bytes: Option<Vec<u8>>,
    /// The close-image shortcut was pressed this frame.
    pub close_requested: bool,
    /// Window client-area size, milli-pixels.
    pub window_size: Vec2M,
    /// Panel area available for the image, milli-pixels.
    pub area: RectM,
    /// Vertical smooth-scroll delta, milli-pixels.
    pub scroll_delta_y: i64,
    /// Pointer hover position, milli-pixels.
    pub mouse_pos: Option<Vec2M>,
    /// The primary pointer button is held.
    pub primary_down: bool,
}

impl FrameInput {
    /// A snapshot the shell may hand to `update`: every coordinate in range.
    pub open spec fn wf(self) -> bool {
        &&& 0 <= self.window_size.x <= COORD_LIMIT
        &&& 0 <= self.window_size.y <= COORD_LIMIT
        &&& rect_wf(self.area@)
        &&& -COORD_LIMIT <= self.scroll_delta_y <= COORD_LIMIT
        &&& (self.mouse_pos matches Some(p) ==> in_coord(p@))
    }
}

/// What one frame hands back to the shell.
pub struct FrameOutput {
    /// The error of a failed decode of this frame's dropped bytes.
    pub decode_error: Option<DecodeError>,
    /// An image is shown but no texture is cached: the shell must upload
    /// the pixel buffer and record the new id with `set_texture`.
    pub needs_texture: bool,
    /// Where to draw the image; `None` shows the drop-target placeholder.
    pub rect: Option<RectM>,
}

/// The mathematical model of the viewer state.
pub struct ImejiView {
    pub image: Option<PixelImageView>,
    pub texture: Option<u64>,
    pub zoom: int,
    pub pan: V2,
    pub is_dragging: bool,
    pub last_mouse_pos: Option<V2>,
    pub last_window_size: Option<V2>,
}

impl ImejiView {
    /// The viewer invariant: zoom clamped, pan saturated, pan centered at
    /// unit zoom, the image buffer sized to its dimensions, and remembered
    /// coordinates in range.
    pub open spec fn inv(self) -> bool {
        &&& ZOOM_MIN <= self.zoom <= ZOOM_MAX
        &&& -PAN_LIMIT <= self.pan.x <= PAN_LIMIT
        &&& -PAN_LIMIT <= self.pan.y <= PAN_LIMIT
        &&& (self.zoom == ZOOM_MIN ==> self.pan == (V2 { x: 0, y: 0 }))
        &&& (self.image matches Some(iv) ==> iv.wf())
        &&& (self.last_mouse_pos matches Some(p) ==> in_coord(p))
        &&& (self.last_window_size matches Some(s) ==> in_coord(s))
    }
}

/// The state of a freshly opened, empty viewer.
pub open spec fn initial_view() -> ImejiView {
    ImejiView {
        image: None,
        texture: None,
        zoom: ZOOM_MIN as int,
        pan: V2 { x: 0, y: 0 },
        is_dragging: false,
        last_mouse_pos: None,
        last_window_size: None,
    }
}

/// The state right after an image loads: everything reset around it.
pub open spec fn loaded_view(iv: PixelImageView) -> ImejiView {
    ImejiView {
        image: Some(iv),
        texture: None,
        zoom: ZOOM_MIN as int,
        pan: V2 { x: 0, y: 0 },
        is_dragging: false,
        last_mouse_pos: None,
        last_window_size: None,
    }
}

/// Loading dropped bytes: a decodable image replaces the state wholesale,
/// anything else leaves it untouched.
pub open spec fn spec_drop(v: ImejiView, dropped: Option<Seq<u8>>) -> ImejiView {
    match dropped {
        Some(bytes) => match decoded_image(bytes) {
            Some(iv) => loaded_view(iv),
            None => v,
        },
        None => v,
    }
}

/// Closing the image: image, texture, zoom and pan reset; drag tracking and
/// the remembered window size stay.
pub open spec fn spec_close(v: ImejiView) -> ImejiView {
    ImejiView {
        image: None,
        texture: None,
        zoom: ZOOM_MIN as int,
        pan: V2 { x: 0, y: 0 },
        is_dragging: v.is_dragging,
        last_mouse_pos: v.last_mouse_pos,
        last_window_size: v.last_window_size,
    }
}

/// The window-resize guard: growth beyond `RESIZE_GUARD` in either
/// dimension resets zoom and pan; the new size is always remembered.
pub open spec fn spec_resize(v: ImejiView, size: V2) -> ImejiView {
    let grown = match v.last_window_size {
        Some(last) => size.x - last.x > RESIZE_GUARD || size.y - last.y > RESIZE_GUARD,
        None => false,
    };
    ImejiView {
        image: v.image,
        texture: v.texture,
        zoom: if grown {
            ZOOM_MIN as int
        } else {
            v.zoom
        },
        pan: if grown {
            V2 { x: 0, y: 0 }
        } else {
            v.pan
        },
        is_dragging: v.is_dragging,
        last_mouse_pos: v.last_mouse_pos,
        last_window_size: Some(size),
    }
}

/// Pan saturation: the offset never leaves `[-PAN_LIMIT, PAN_LIMIT]`.
pub open spec fn clip_pan(p: int) -> int {
    spec_clamp(p, -PAN_LIMIT as int, PAN_LIMIT as int)
}

/// Cursor-anchored zoom. A scroll of `delta` milli-pixels scales the zoom
/// by `1 + delta / 1000000` (in milli-units: `SCALE + delta / SCALE`),
/// clamped to `[ZOOM_MIN, ZOOM_MAX]`. Landing exactly on `ZOOM_MIN`
/// re-centers the pan; otherwise the pan shifts so the image point under
/// the cursor stays fixed. Without an image or a scroll, nothing changes.
pub open spec fn spec_scroll(v: ImejiView, delta: int, mouse: Option<V2>, center: V2) -> ImejiView {
    if v.image is None || delta == 0 {
        v
    } else {
        let factor = SCALE as int + div_scale(delta);
        let z2 = spec_clamp(div_scale(v.zoom * factor), ZOOM_MIN as int, ZOOM_MAX as int);
        if z2 == ZOOM_MIN {
            ImejiView {
                image: v.image,
                texture: v.texture,
                zoom: z2,
                pan: V2 { x: 0, y: 0 },
                is_dragging: v.is_dragging,
                last_mouse_pos: v.last_mouse_pos,
                last_window_size: v.last_window_size,
            }
        } else {
            match mouse {
                Some(m) => {
                    let change = z2 * (SCALE as int) / v.zoom - SCALE as int;
                    ImejiView {
                        image: v.image,
                        texture: v.texture,
                        zoom: z2,
                        pan: V2 {
                            x: clip_pan(v.pan.x - div_scale((m.x - center.x) * change)),
                            y: clip_pan(v.pan.y - div_scale((m.y - center.y) * change)),
                        },
                        is_dragging: v.is_dragging,
                        last_mouse_pos: v.last_mouse_pos,
                        last_window_size: v.last_window_size,
                    }
                },
                None => ImejiView {
                    image: v.image,
                    texture: v.texture,
                    zoom: z2,
                    pan: v.pan,
                    is_dragging: v.is_dragging,
                    last_mouse_pos: v.last_mouse_pos,
                    last_window_size: v.last_window_size,
                },
            }
        }
    }
}

/// Primary-button drag. A drag starts on button-down, moves the pan by the
/// pointer delta only while zoomed in past `ZOOM_MIN`, and ends when the
/// button lifts or the pointer leaves. Without an image, nothing changes.
pub open spec fn spec_drag(v: ImejiView, primary_down: bool, mouse: Option<V2>) -> ImejiView {
    if v.image is None {
        v
    } else if primary_down && mouse is Some {
        let cur = mouse.unwrap();
        if !v.is_dragging {
            ImejiView {
                image: v.image,
                texture: v.texture,
                zoom: v.zoom,
                pan: v.pan,
                is_dragging: true,
                last_mouse_pos: Some(cur),
                last_window_size: v.last_window_size,
            }
        } else {
            match v.last_mouse_pos {
                Some(last) => ImejiView {
                    image: v.image,
                    texture: v.texture,
                    zoom: v.zoom,
                    pan: if v.zoom > ZOOM_MIN {
                        V2 {
                            x: clip_pan(v.pan.x + (cur.x - last.x)),
                            y: clip_pan(v.pan.y + (cur.y - last.y)),
                        }
                    } else {
                        v.pan
                    },
                    is_dragging: v.is_dragging,
                    last_mouse_pos: Some(cur),
                    last_window_size: v.last_window_size,
                },
                None => v,
            }
        }
    } else {
        ImejiView {
            image: v.image,
            texture: v.texture,
            zoom: v.zoom,
            pan: v.pan,
            is_dragging: false,
            last_mouse_pos: None,
            last_window_size: v.last_window_size,
        }
    }
}

/// The viewport transform. The base fit-to-window scale is
/// `min(area_width / image_width, area_height / image_height, 1)` (never
/// upscaling at unit zoom; a zero image dimension counts as unit scale),
/// the display size is the image size times base scale times zoom, and the
/// rectangle is centered in the area then shifted by the pan offset.
pub open spec fn spec_rect(iw: nat, ih: nat, area: R2, zoom: int, pan: V2) -> R2 {
    let aw = area.max.x - area.min.x;
    let ah = area.max.y - area.min.y;
    let sx = if iw == 0 {
        SCALE as int
    } else {
        aw / (iw as int)
    };
    let sy = if ih == 0 {
        SCALE as int
    } else {
        ah / (ih as int)
    };
    let s0 = spec_min(spec_min(sx, sy), SCALE as int);
    let dw = (iw as int) * s0 * zoom / (SCALE as int);
    let dh = (ih as int) * s0 * zoom / (SCALE as int);
    let c = spec_center(area);
    let x0 = c.x - dw / 2 + pan.x;
    let y0 = c.y - dh / 2 + pan.y;
    R2 { min: V2 { x: x0, y: y0 }, max: V2 { x: x0 + dw, y: y0 + dh } }
}

/// The draw rectangle of a viewer state, if an image is shown.
pub open spec fn spec_rect_of(v: ImejiView, area: R2) -> Option<R2> {
    match v.image {
        Some(iv) => Some(spec_rect(iv.width, iv.height, area, v.zoom, v.pan)),
        None => None,
    }
}

/// One whole frame: dropped bytes load first, then the close shortcut,
/// then the resize guard; with an image shown, scroll zoom and drag pan
/// follow.
pub open spec fn spec_update(v: ImejiView, input: FrameInput) -> ImejiView {
    let v1 = spec_drop(v, bytes_view(input.dropped_bytes));
    let v2 = if input.close_requested {
        spec_close(v1)
    } else {
        v1
    };
    let v3 = spec_resize(v2, input.window_size@);
    let v4 = spec_scroll(
        v3,
        input.scroll_delta_y as int,
        mouse_view(input.mouse_pos),
        spec_center(input.area@),
    );
    spec_drag(v4, input.primary_down, mouse_view(input.mouse_pos))
}

/// The viewer: the currently displayed image, the cached texture id, and
/// the viewport state.
pub struct Imeji {
    pub image: Option<PixelImage>,
    pub texture: Option<u64>,
    pub zoom: i64,
    pub pan_offset: Vec2M,
    pub is_dragging: bool,
    pub last_mouse_pos: Option<Vec2M>,
    pub last_window_size: Option<Vec2M>,
}

impl View for Imeji {
    type V = ImejiView;

    open spec fn view(&self) -> ImejiView {
        ImejiView {
            image: image_view(self.image),
            texture: self.texture,
            zoom: self.zoom as int,
            pan: self.pan_offset@,
            is_dragging: self.is_dragging,
            last_mouse_pos: mouse_view(self.last_mouse_pos),
            last_window_size: mouse_view(self.last_window_size),
        }
    }
}

impl Imeji {
    /// An empty viewer: no image, no texture, unit zoom, centered pan.
    pub fn new() -> (v: Imeji)
        ensures
            v@ == initial_view(),
            v@.inv(),
    {
        Imeji {
            image: None,
            texture: None,
            zoom: ZOOM_MIN,
            pan_offset: Vec2M { x: 0, y: 0 },
            is_dragging: false,
            last_mouse_pos: None,
            last_window_size: None,
        }
    }

    /// Decodes `bytes` and, on success, shows the new image with the whole
    /// viewport reset; on failure the viewer is left exactly as it was.
    pub fn load_image(&mut self, bytes: &[u8]) -> (r: Result<(), DecodeError>)
        ensures
            final(self)@ == spec_drop(old(self)@, Some(bytes@)),
            r is Ok <==> decoded_image(bytes@) is Some,
            r is Err ==> final(self)@ == old(self)@,
            old(self)@.inv() ==> final(self)@.inv(),
    {
        match decode(bytes) {
            Ok(img) => {
                self.image = Some(img);
                self.texture = None;
                self.zoom = ZOOM_MIN;
                self.pan_offset = Vec2M { x: 0, y: 0 };
                self.is_dragging = false;
                self.last_mouse_pos = None;
                self.last_window_size = None;
                Ok(())
            },
            Err(e) => Err(e),
        }
    }

    /// Closes the image: clears image and texture, resets zoom and pan.
    pub fn close_image(&mut self)
        ensures
            final(self)@ == spec_close(old(self)@),
            old(self)@.inv() ==> final(self)@.inv(),
    {
        self.image = None;
        self.texture = None;
        self.zoom = ZOOM_MIN;
        self.pan_offset = Vec2M { x: 0, y: 0 };
    }

    /// Records the texture the shell uploaded for the current image.
    pub fn set_texture(&mut self, id: u64)
        ensures
            final(self)@ == (ImejiView { texture: Some(id), ..old(self)@ }),
            old(self)@.inv() ==> final(self)@.inv(),
    {
        self.texture = Some(id);
    }

    /// Applies the window-resize guard for a frame with client size `size`.
    pub fn apply_resize_guard(&mut self, size: Vec2M)
        requires
            old(self)@.inv(),
            in_coord(size@),
        ensures
            final(self)@ == spec_resize(old(self)@, size@),
            final(self)@.inv(),
    {
        if let Some(last) = self.last_window_size {
            if size.x - last.x > RESIZE_GUARD || size.y - last.y > RESIZE_GUARD {
                self.zoom = ZOOM_MIN;
                self.pan_offset = Vec2M { x: 0, y: 0 };
            }
        }
        self.last_window_size = Some(size);
    }

    /// Applies one scroll event: cursor-anchored zoom as `spec_scroll` says.
    pub fn apply_scroll(&mut self, delta: i64, mouse: Option<Vec2M>, center: Vec2M)
        requires
            old(self)@.inv(),
            -COORD_LIMIT <= delta <= COORD_LIMIT,
            (mouse matches Some(p) ==> in_coord(p@)),
            in_coord2(center@),
        ensures
            final(self)@ == spec_scroll(
                old(self)@,
                delta as int,
                mouse_view(mouse),
                center@,
            ),
            final(self)@.inv(),
    {
        if self.image.is_some() && delta != 0 {
            proof {
                lemma_div_scale_bound(delta as int, COORD_LIMIT as int);
            }
            let factor = SCALE + div_scale_i64(delta);
            let old_zoom = self.zoom;
            assert(-10010000000000000 <= old_zoom * factor <= 10010000000000000)
                by (nonlinear_arith)
                requires
                    1000 <= old_zoom <= 10000,
                    -1001000000 <= factor <= 1001000000,
            ;
            proof {
                lemma_div_scale_bound((old_zoom * factor) as int, 10010000000000000);
            }
            let raw = div_scale_i64(old_zoom * factor);
            self.zoom = clamp_i64(raw, ZOOM_MIN, ZOOM_MAX);
            if self.zoom == ZOOM_MIN {
                self.pan_offset = Vec2M { x: 0, y: 0 };
            } else if let Some(m) = mouse {
                proof {
                    lemma_zoom_ratio_bounds(self.zoom as int, old_zoom as int);
                }
                let change = self.zoom * SCALE / old_zoom - SCALE;
                let off_x = m.x - center.x;
                let off_y = m.y - center.y;
                assert(-27000000000000000 <= off_x * change <= 27000000000000000)
                    by (nonlinear_arith)
                    requires
                        -3000000000000 <= off_x <= 3000000000000,
                        -900 <= change <= 9000,
                ;
                assert(-27000000000000000 <= off_y * change <= 27000000000000000)
                    by (nonlinear_arith)
                    requires
                        -3000000000000 <= off_y <= 3000000000000,
                        -900 <= change <= 9000,
                ;
                proof {
                    lemma_div_scale_bound((off_x * change) as int, 27000000000000000);
                    lemma_div_scale_bound((off_y * change) as int, 27000000000000000);
                }
                let adj_x = div_scale_i64(off_x * change);
                let adj_y = div_scale_i64(off_y * change);
                self.pan_offset = Vec2M {
                    x: clamp_i64(self.pan_offset.x - adj_x, -PAN_LIMIT, PAN_LIMIT),
                    y: clamp_i64(self.pan_offset.y - adj_y, -PAN_LIMIT, PAN_LIMIT),
                };
            }
        }
    }

    /// Applies one frame of drag tracking: `spec_drag` on the pointer state.
    pub fn apply_drag(&mut self, primary_down: bool, mouse: Option<Vec2M>)
        requires
            old(self)@.inv(),
            (mouse matches Some(p) ==> in_coord(p@)),
        ensures
            final(self)@ == spec_drag(old(self)@, primary_down, mouse_view(mouse)),
            final(self)@.inv(),
    {
        if self.image.is_some() {
            if primary_down && mouse.is_some() {
                let cur = mouse.unwrap();
                if !self.is_dragging {
                    self.is_dragging = true;
                    self.last_mouse_pos = Some(cur);
                } else if let Some(last) = self.last_mouse_pos {
                    if self.zoom > ZOOM_MIN {
                        self.pan_offset = Vec2M {
                            x: clamp_i64(
                                self.pan_offset.x + (cur.x - last.x),
                                -PAN_LIMIT,
                                PAN_LIMIT,
                            ),
                            y: clamp_i64(
                                self.pan_offset.y + (cur.y - last.y),
                                -PAN_LIMIT,
                                PAN_LIMIT,
                            ),
                        };
                    }
                    self.last_mouse_pos = Some(cur);
                }
            } else {
                self.is_dragging = false;
                self.last_mouse_pos = None;
            }
        }
    }

    /// Runs one whole frame against the input snapshot and hands back the
    /// decode error, the texture request and the draw rectangle.
    pub fn update(&mut self, input: &FrameInput) -> (out: FrameOutput)
        requires
            old(self)@.inv(),
            input.wf(),
        ensures
            final(self)@ == spec_update(old(self)@, *input),
            final(self)@.inv(),
            (out.decode_error is Some <==> (input.dropped_bytes matches Some(b)
                && decoded_image(b@) is None)),
            out.needs_texture == (final(self)@.image is Some && final(self)@.texture is None),
            out.rect is Some <==> final(self)@.image is Some,
            (out.rect matches Some(r) ==> Some(r@) == spec_rect_of(final(self)@, input.area@)),
    {
        let decode_error = match &input.dropped_bytes {
            Some(b) => match self.load_image(b.as_slice()) {
                Ok(()) => None,
                Err(e) => Some(e),
            },
            None => None,
        };
        if input.close_requested {
            self.close_image();
        }
        self.apply_resize_guard(input.window_size);
        let center = rect_center(&input.area);
        self.apply_scroll(input.scroll_delta_y, input.mouse_pos, center);
        self.apply_drag(input.primary_down, input.mouse_pos);
        let needs_texture = self.image.is_some() && self.texture.is_none();
        let rect = match &self.image {
            Some(img) => Some(
                display_rect(img.width, img.height, &input.area, self.zoom, self.pan_offset),
            ),
            None => None,
        };
        FrameOutput { decode_error, needs_texture, rect }
    }
}

/// The center of a screen rectangle.
pub fn rect_center(r: &RectM) -> (c: Vec2M)
    requires
        rect_wf(r@),
    ensures
        c@ == spec_center(r@),
        in_coord2(c@),
{
    let w = r.max.x - r.min.x;
    let h = r.max.y - r.min.y;
    proof {
        lemma_div_stays_bounded(w as int, 2, 2 * COORD_LIMIT as int);
        lemma_div_stays_bounded(h as int, 2, 2 * COORD_LIMIT as int);
    }
    Vec2M { x: r.min.x + w / 2, y: r.min.y + h / 2 }
}

/// Computes the draw rectangle: the `spec_rect` viewport transform on an
/// image of `width` by `height` pixels in `area` at the given zoom and pan.
pub fn display_rect(width: u32, height: u32, area: &RectM, zoom: i64, pan: Vec2M) -> (r: RectM)
    requires
        rect_wf(area@),
        ZOOM_MIN <= zoom <= ZOOM_MAX,
        -PAN_LIMIT <= pan.x <= PAN_LIMIT,
        -PAN_LIMIT <= pan.y <= PAN_LIMIT,
    ensures
        r@ == spec_rect(width as nat, height as nat, area@, zoom as int, pan@),
{
    let aw = area.max.x - area.min.x;
    let ah = area.max.y - area.min.y;
    let iw = width as i64;
    let ih = height as i64;
    let sx = if iw == 0 {
        SCALE
    } else {
        proof {
            lemma_div_stays_bounded(aw as int, iw as int, 2 * COORD_LIMIT as int);
        }
        aw / iw
    };
    let sy = if ih == 0 {
        SCALE
    } else {
        proof {
            lemma_div_stays_bounded(ah as int, ih as int, 2 * COORD_LIMIT as int);
        }
        ah / ih
    };
    let s0 = min_i64(min_i64(sx, sy), SCALE);
    assert(0 <= iw * s0 <= 4294967295000 && 0 <= iw * s0 * zoom <= 42949672950000000)
        by (nonlinear_arith)
        requires
            0 <= iw <= 4294967295,
            0 <= s0 <= 1000,
            1000 <= zoom <= 10000,
    ;
    assert(0 <= ih * s0 <= 4294967295000 && 0 <= ih * s0 * zoom <= 42949672950000000)
        by (nonlinear_arith)
        requires
            0 <= ih <= 4294967295,
            0 <= s0 <= 1000,
            1000 <= zoom <= 10000,
    ;
    proof {
        lemma_div_stays_bounded((iw * s0 * zoom) as int, SCALE as int, 42949672950000000);
        lemma_div_stays_bounded((ih * s0 * zoom) as int, SCALE as int, 42949672950000000);
    }
    let dw = iw * s0 * zoom / SCALE;
    let dh = ih * s0 * zoom / SCALE;
    proof {
        lemma_div_stays_bounded(dw as int, 2, 42949672950000000);
        lemma_div_stays_bounded(dh as int, 2, 42949672950000000);
        lemma_div_stays_bounded(aw as int, 2, 2 * COORD_LIMIT as int);
        lemma_div_stays_bounded(ah as int, 2, 2 * COORD_LIMIT as int);
    }
    let cx = area.min.x + aw / 2;
    let cy = area.min.y + ah / 2;
    let x0 = cx - dw / 2 + pan.x;
    let y0 = cy - dh / 2 + pan.y;
    RectM {
        min: Vec2M { x: x0, y: y0 },
        max: Vec2M { x: x0 + dw, y: y0 + dh },
    }
}

} // verus!
