use crate::fixed::{
    clamp_i64, clamp_spec, div_pos, floor_div_i128, lemma_div_at_least_one, lemma_div_ordered_pos,
    lemma_mul_bound, sat_offset, sat_offset_spec, COORD_LIMIT, FIX_ONE, OFFSET_LIMIT, SCALE_LIMIT,
};
use crate::geometry::{ImageSize, RectFix, Vec2Fix};
use vstd::arithmetic::div_mod::lemma_div_pos_is_pos;
use vstd::math::min;
use vstd::prelude::*;

verus! {

/// The scroll amount that the input source hands over on a frame with
/// no scroll at all: one whole unit. A scroll of exactly this value is
/// treated as "no scroll event", a documented quirk of the input
/// source, so a genuine scroll of exactly one unit is ignored too.
pub const SCROLL_NO_OP: i64 = 1_000_000;

/// The stateful mapping between screen space and image space: a uniform
/// scale followed by a translation away from the centred position.
///
/// `scale` is the image-to-screen magnification in millionths; `offset`
/// is the displacement of the image centre from the container centre,
/// in millionths of a pixel. `min_scale` and `max_scale` bound the
/// interactive zoom; a fit may land outside them. `initialized` becomes
/// true on the first fit and stays true for the transform's lifetime.
#[derive(Clone, Copy, PartialEq, Eq, Structural, Debug)]
pub struct ViewportTransform {
    pub scale: i64,
    pub offset: Vec2Fix,
    pub min_scale: i64,
    pub max_scale: i64,
    pub initialized: bool,
}

impl ViewportTransform {
    /// Well-formedness: the zoom bounds are ordered and representable;
    /// once initialized, the scale is positive and within the global
    /// limit and the offset within its saturation range; before the
    /// first fit, scale and offset are still zero.
    pub open spec fn wf(self) -> bool {
        &&& 1 <= self.min_scale <= self.max_scale <= SCALE_LIMIT
        &&& if self.initialized {
            &&& 1 <= self.scale <= SCALE_LIMIT
            &&& -OFFSET_LIMIT <= self.offset.x <= OFFSET_LIMIT
            &&& -OFFSET_LIMIT <= self.offset.y <= OFFSET_LIMIT
        } else {
            &&& self.scale == 0
            &&& self.offset == Vec2Fix::zero_spec()
        }
    }

    pub fn new(min_scale: i64, max_scale: i64) -> (t: ViewportTransform)
        requires
            1 <= min_scale <= max_scale <= SCALE_LIMIT,
        ensures
            t == spec_new_transform(min_scale, max_scale),
            t.wf(),
            !t.initialized,
    {
        ViewportTransform {
            scale: 0,
            offset: Vec2Fix::zero(),
            min_scale,
            max_scale,
            initialized: false,
        }
    }

    /// Letterbox fit: the largest uniform scale at which the whole
    /// image is visible inside the container, and a zero offset. The
    /// result is deliberately not clamped to the interactive zoom
    /// bounds: "whole image visible" overrides them.
    pub fn fit(&mut self, img: ImageSize, container_size: Vec2Fix)
        requires
            old(self).wf(),
            img.wf(),
            FIX_ONE <= container_size.x <= COORD_LIMIT,
            FIX_ONE <= container_size.y <= COORD_LIMIT,
        ensures
            *final(self) == spec_fit(*old(self), img, container_size),
            final(self).wf(),
            final(self).initialized,
    {
        let sx: i64 = div_pos(container_size.x, img.width as i64);
        let sy: i64 = div_pos(container_size.y, img.height as i64);
        proof {
            lemma_div_at_least_one(container_size.x as int, img.width as int);
            lemma_div_at_least_one(container_size.y as int, img.height as int);
        }
        let s: i64 = if sx <= sy {
            sx
        } else {
            sy
        };
        self.scale = s;
        self.offset = Vec2Fix::zero();
        self.initialized = true;
    }

    /// Double-click reset: restores the letterbox fit.
    pub fn reset(&mut self, img: ImageSize, container_size: Vec2Fix)
        requires
            old(self).wf(),
            img.wf(),
            FIX_ONE <= container_size.x <= COORD_LIMIT,
            FIX_ONE <= container_size.y <= COORD_LIMIT,
        ensures
            *final(self) == spec_fit(*old(self), img, container_size),
            final(self).wf(),
            final(self).initialized,
    {
        self.fit(img, container_size);
    }

    /// Drag-to-pan: the offset accumulates the drag delta. Panning is
    /// unbounded by design; only at the astronomically distant
    /// saturation range does the offset stop growing.
    pub fn pan(&mut self, delta: Vec2Fix)
        requires
            old(self).wf(),
            old(self).initialized,
        ensures
            *final(self) == spec_pan(*old(self), delta),
            final(self).wf(),
    {
        self.offset.x = sat_offset(self.offset.x as i128 + delta.x as i128);
        self.offset.y = sat_offset(self.offset.y as i128 + delta.y as i128);
    }

    /// Zoom anchored at the pointer. If the scroll amount is the no-op
    /// sentinel or the canvas is not hovered, nothing changes. Otherwise
    /// the scale is multiplied by `zoom_factor` (a fixed-point factor
    /// the caller derives from the scroll amount through an exponential
    /// response curve) and clamped into the interactive bounds, and the
    /// offset is corrected so that the image point under the pointer
    /// stays under the pointer.
    ///
    /// The offset measures the image centre's displacement from the
    /// container centre, so the correction is taken from the image
    /// centre; the pointer's relative position inside the image, and
    /// with it the image size, cancel out of the update.
    pub fn zoom_at_point(
        &mut self,
        scroll_delta_y: i64,
        zoom_factor: i64,
        container: RectFix,
        pointer: Option<Vec2Fix>,
        hovered: bool,
    )
        requires
            old(self).wf(),
            old(self).initialized,
            container.wf_container(),
            1 <= zoom_factor <= SCALE_LIMIT,
            pointer matches Some(p) ==> p.wf_coord(),
        ensures
            *final(self) == spec_zoom(
                *old(self),
                scroll_delta_y,
                zoom_factor,
                container,
                pointer,
                hovered,
            ),
            final(self).wf(),
            scroll_delta_y == SCROLL_NO_OP ==> *final(self) == *old(self),
            !hovered ==> *final(self) == *old(self),
            zoom_applies(scroll_delta_y, hovered) ==> final(self).min_scale <= final(self).scale
                <= final(self).max_scale,
    {
        if !(scroll_delta_y != SCROLL_NO_OP && hovered) {
            return ;
        }
        let p: Vec2Fix = match pointer {
            Some(q) => q,
            None => container.center(),
        };
        let s: i64 = self.scale;
        proof {
            lemma_mul_bound(s as int, zoom_factor as int, SCALE_LIMIT as int, SCALE_LIMIT as int);
            assert(1 <= s as int * zoom_factor as int) by (nonlinear_arith)
                requires
                    1 <= s,
                    1 <= zoom_factor,
            ;
        }
        let prod: i128 = (s as i128) * (zoom_factor as i128);
        let ns_raw: i128 = floor_div_i128(prod, FIX_ONE as i128);
        proof {
            lemma_div_pos_is_pos(prod as int, FIX_ONE as int);
            lemma_div_ordered_pos(
                prod as int,
                SCALE_LIMIT as int * SCALE_LIMIT as int,
                FIX_ONE as int,
            );
        }
        let ns: i64 = clamp_i64(ns_raw as i64, self.min_scale, self.max_scale);
        let c: Vec2Fix = container.center();
        let dx: i128 = p.x as i128 - c.x as i128 - self.offset.x as i128;
        let dy: i128 = p.y as i128 - c.y as i128 - self.offset.y as i128;
        proof {
            lemma_mul_bound(dx as int, s as int - ns as int, 2 * OFFSET_LIMIT as int, SCALE_LIMIT as int);
            lemma_mul_bound(dy as int, s as int - ns as int, 2 * OFFSET_LIMIT as int, SCALE_LIMIT as int);
        }
        let numx: i128 = dx * ((s - ns) as i128);
        let numy: i128 = dy * ((s - ns) as i128);
        let qx: i128 = floor_div_i128(numx, s as i128);
        let qy: i128 = floor_div_i128(numy, s as i128);
        self.offset.x = sat_offset(self.offset.x as i128 + qx);
        self.offset.y = sat_offset(self.offset.y as i128 + qy);
        self.scale = ns;
    }

    /// The on-screen rectangle of the image: its size is the image size
    /// under the current scale, and it sits centred in the container,
    /// displaced by the offset.
    pub fn image_rect(&self, container: RectFix, img: ImageSize) -> (r: RectFix)
        requires
            self.wf(),
            self.initialized,
            container.wf_container(),
            img.wf(),
        ensures
            r == spec_image_rect(*self, container, img),
            0 <= r.size.x <= 1_000_000_000_000_000_000,
            0 <= r.size.y <= 1_000_000_000_000_000_000,
            r.min.x + r.size.x < i64::MAX,
            r.min.y + r.size.y < i64::MAX,
    {
        proof {
            lemma_mul_bound(img.width as int, self.scale as int, 1_000_000int, SCALE_LIMIT as int);
            lemma_mul_bound(img.height as int, self.scale as int, 1_000_000int, SCALE_LIMIT as int);
        }
        let w: i64 = (img.width as i64) * self.scale;
        let h: i64 = (img.height as i64) * self.scale;
        let c: Vec2Fix = container.center();
        let hw: i64 = div_pos(w, 2);
        let hh: i64 = div_pos(h, 2);
        RectFix {
            min: Vec2Fix { x: c.x - hw + self.offset.x, y: c.y - hh + self.offset.y },
            size: Vec2Fix { x: w, y: h },
        }
    }
}

/// A freshly created, not yet fitted transform.
pub open spec fn spec_new_transform(min_scale: i64, max_scale: i64) -> ViewportTransform {
    ViewportTransform {
        scale: 0,
        offset: Vec2Fix::zero_spec(),
        min_scale,
        max_scale,
        initialized: false,
    }
}

/// The letterbox fit scale: the smaller of the two per-axis ratios of
/// container size to image size.
pub open spec fn fit_scale_spec(img: ImageSize, container_size: Vec2Fix) -> int {
    min(
        container_size.x as int / img.width as int,
        container_size.y as int / img.height as int,
    )
}

/// State after a fit (or a reset, which is the same operation).
pub open spec fn spec_fit(
    t: ViewportTransform,
    img: ImageSize,
    container_size: Vec2Fix,
) -> ViewportTransform {
    ViewportTransform {
        scale: fit_scale_spec(img, container_size) as i64,
        offset: Vec2Fix::zero_spec(),
        initialized: true,
        ..t
    }
}

/// State after a pan.
pub open spec fn spec_pan(t: ViewportTransform, delta: Vec2Fix) -> ViewportTransform {
    ViewportTransform {
        offset: Vec2Fix {
            x: sat_offset_spec(t.offset.x + delta.x) as i64,
            y: sat_offset_spec(t.offset.y + delta.y) as i64,
        },
        ..t
    }
}

/// A zoom takes effect only when the scroll amount is not the no-op
/// sentinel and the canvas is hovered.
pub open spec fn zoom_applies(scroll_delta_y: i64, hovered: bool) -> bool {
    scroll_delta_y != SCROLL_NO_OP && hovered
}

/// The pointer position a zoom anchors at: the reported position, or
/// the container centre when none is available.
pub open spec fn pointer_or_center(pointer: Option<Vec2Fix>, container: RectFix) -> Vec2Fix {
    match pointer {
        Some(p) => p,
        None => container.center_spec(),
    }
}

/// The scale after an effective zoom: the old scale times the factor,
/// clamped into the interactive bounds.
pub open spec fn new_scale_spec(t: ViewportTransform, zoom_factor: i64) -> int {
    clamp_spec(
        t.scale as int * zoom_factor as int / FIX_ONE as int,
        t.min_scale as int,
        t.max_scale as int,
    )
}

/// One axis of the offset correction that keeps the image point under
/// the pointer fixed: the pointer's displacement from the image centre,
/// scaled by the relative change of scale, rounded down, saturated.
pub open spec fn zoom_offset_spec(off: int, p: int, c: int, s: int, s2: int) -> int {
    sat_offset_spec(off + (p - c - off) * (s - s2) / s)
}

/// State after a zoom-at-point.
pub open spec fn spec_zoom(
    t: ViewportTransform,
    scroll_delta_y: i64,
    zoom_factor: i64,
    container: RectFix,
    pointer: Option<Vec2Fix>,
    hovered: bool,
) -> ViewportTransform {
    if !zoom_applies(scroll_delta_y, hovered) {
        t
    } else {
        let p = pointer_or_center(pointer, container);
        let c = container.center_spec();
        let s2 = new_scale_spec(t, zoom_factor);
        ViewportTransform {
            scale: s2 as i64,
            offset: Vec2Fix {
                x: zoom_offset_spec(t.offset.x as int, p.x as int, c.x as int, t.scale as int, s2)
                    as i64,
                y: zoom_offset_spec(t.offset.y as int, p.y as int, c.y as int, t.scale as int, s2)
                    as i64,
            },
            ..t
        }
    }
}

/// The on-screen image rectangle under a transform.
pub open spec fn spec_image_rect(
    t: ViewportTransform,
    container: RectFix,
    img: ImageSize,
) -> RectFix {
    let w = img.width as int * t.scale as int;
    let h = img.height as int * t.scale as int;
    let c = container.center_spec();
    RectFix {
        min: Vec2Fix {
            x: (c.x as int - w / 2 + t.offset.x as int) as i64,
            y: (c.y as int - h / 2 + t.offset.y as int) as i64,
        },
        size: Vec2Fix { x: w as i64, y: h as i64 },
    }
}

} // verus!
