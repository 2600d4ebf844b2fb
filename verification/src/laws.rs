use crate::fixed::{OFFSET_LIMIT, SCALE_LIMIT};
use crate::geometry::{ImageSize, RectFix, Vec2Fix};
use crate::transform::{
    fit_scale_spec, new_scale_spec, spec_fit, spec_image_rect, spec_zoom, zoom_applies,
    ViewportTransform,
};
use vstd::arithmetic::div_mod::{lemma_fundamental_div_mod, lemma_mod_division_less_than_divisor};
use vstd::prelude::*;

verus! {

/// The pointer lies strictly inside the rectangle.
pub open spec fn strictly_inside(r: RectFix, p: Vec2Fix) -> bool {
    &&& r.min.x < p.x < r.min.x + r.size.x
    &&& r.min.y < p.y < r.min.y + r.size.y
}

/// One axis of the zoom's offset correction stays inside the
/// saturation range, so the update is the exact rational formula.
pub open spec fn zoom_offset_unsaturated(off: int, p: int, c: int, s: int, s2: int) -> bool {
    -OFFSET_LIMIT <= off + (p - c - off) * (s - s2) / s <= OFFSET_LIMIT
}

/// Fitting twice with the same image and container sizes gives the
/// same scale and offset as fitting once: fit is idempotent.
pub proof fn lemma_fit_idempotent(t: ViewportTransform, img: ImageSize, container_size: Vec2Fix)
    ensures
        spec_fit(spec_fit(t, img, container_size), img, container_size) == spec_fit(
            t,
            img,
            container_size,
        ),
{
}

/// A reset performed after any interaction history gives exactly the
/// scale and offset of a fresh fit with the same sizes: reset restores
/// the fit, whatever panning and zooming happened in between.
pub proof fn lemma_reset_restores_fit(
    a: ViewportTransform,
    b: ViewportTransform,
    img: ImageSize,
    container_size: Vec2Fix,
)
    ensures
        spec_fit(a, img, container_size).scale == spec_fit(b, img, container_size).scale,
        spec_fit(a, img, container_size).offset == spec_fit(b, img, container_size).offset,
        spec_fit(a, img, container_size).scale == fit_scale_spec(img, container_size) as i64,
        spec_fit(a, img, container_size).offset == Vec2Fix::zero_spec(),
{
}

/// One frame's zoom input, as handed to the transform.
#[derive(Clone, Copy)]
pub struct ZoomEvent {
    pub scroll_delta_y: i64,
    pub zoom_factor: i64,
    pub container: RectFix,
    pub pointer: Option<Vec2Fix>,
    pub hovered: bool,
}

/// The transform after a sequence of zoom operations.
pub open spec fn apply_zoom_events(t: ViewportTransform, evs: Seq<ZoomEvent>) -> ViewportTransform
    decreases evs.len(),
{
    if evs.len() == 0 {
        t
    } else {
        let prev = apply_zoom_events(t, evs.drop_last());
        let ev = evs.last();
        spec_zoom(prev, ev.scroll_delta_y, ev.zoom_factor, ev.container, ev.pointer, ev.hovered)
    }
}

/// Zoom operations never touch the configured bounds or the
/// initialized flag.
pub proof fn lemma_zoom_events_keep_config(t: ViewportTransform, evs: Seq<ZoomEvent>)
    ensures
        apply_zoom_events(t, evs).min_scale == t.min_scale,
        apply_zoom_events(t, evs).max_scale == t.max_scale,
        apply_zoom_events(t, evs).initialized == t.initialized,
    decreases evs.len(),
{
    if evs.len() > 0 {
        lemma_zoom_events_keep_config(t, evs.drop_last());
    }
}

/// Bounds clamp: after any sequence of zoom operations whose last
/// member takes effect (its scroll is not the no-op sentinel and the
/// canvas is hovered), the scale lies between the configured minimum
/// and maximum. Since every prefix of a sequence of effective zooms
/// ends in an effective zoom, the bounds hold after every call of such
/// a sequence; only a fit or reset may place the scale outside them.
pub proof fn lemma_zoom_sequence_bounds(t: ViewportTransform, evs: Seq<ZoomEvent>)
    requires
        1 <= t.min_scale <= t.max_scale <= SCALE_LIMIT,
        evs.len() > 0,
        zoom_applies(evs.last().scroll_delta_y, evs.last().hovered),
    ensures
        t.min_scale <= apply_zoom_events(t, evs).scale <= t.max_scale,
{
    lemma_zoom_events_keep_config(t, evs.drop_last());
}

/// One axis of the zoom-anchor argument, over the raw fixed-point
/// quantities. Writing `len` for the on-screen image length `w * s`
/// before the zoom and `len2 == w * s2` for the one after, and `num`
/// and `num2` for the pointer's distance from the image's top-left
/// corner before and after, the relative position `num / len` is
/// reproduced by `num2 / len2` within one part in ten thousand,
/// provided the image is at least a tenth of a pixel long on screen at
/// both scales. The slack covers the two floored divisions: the one in
/// the offset correction and the one that centres the image.
proof fn lemma_anchor_axis(p: int, c: int, off: int, w: int, s: int, s2: int)
    requires
        1 <= w,
        1 <= s,
        1 <= s2,
        w * s >= 100_000,
        w * s2 >= 100_000,
    ensures
        ({
            let off2 = off + (p - c - off) * (s - s2) / s;
            let num = p - (c - (w * s) / 2 + off);
            let num2 = p - (c - (w * s2) / 2 + off2);
            -((w * s) * (w * s2)) <= 10_000 * (num2 * (w * s) - num * (w * s2)) <= (w * s) * (w
                * s2)
        }),
{
    let d0 = p - c - off;
    let tnum = d0 * (s - s2);
    let q = tnum / s;
    let r = tnum % s;
    lemma_fundamental_div_mod(tnum, s);
    lemma_mod_division_less_than_divisor(tnum, s);
    let ws = w * s;
    let ws2 = w * s2;
    let h1 = ws / 2;
    let e1 = ws % 2;
    let h2 = ws2 / 2;
    let e2 = ws2 % 2;
    lemma_fundamental_div_mod(ws, 2);
    lemma_mod_division_less_than_divisor(ws, 2);
    lemma_fundamental_div_mod(ws2, 2);
    lemma_mod_division_less_than_divisor(ws2, 2);
    let off2 = off + q;
    let num = p - (c - h1 + off);
    let num2 = p - (c - h2 + off2);
    let ee = num2 * ws - num * ws2;
    let aa = num2 * ws;
    let bb = num * ws2;
    assert(2 * aa == 2 * (d0 * ws) - 2 * (q * ws) + ws2 * ws - e2 * ws) by (nonlinear_arith)
        requires
            num2 == d0 - q + h2,
            ws2 == 2 * h2 + e2,
            aa == num2 * ws,
    ;
    assert(2 * bb == 2 * (d0 * ws2) + ws * ws2 - e1 * ws2) by (nonlinear_arith)
        requires
            num == d0 + h1,
            ws == 2 * h1 + e1,
            bb == num * ws2,
    ;
    assert(2 * (d0 * ws) - 2 * (q * ws) - 2 * (d0 * ws2) == 2 * (w * r)) by (nonlinear_arith)
        requires
            ws == w * s,
            ws2 == w * s2,
            d0 * (s - s2) == s * q + r,
    ;
    assert(e1 * ws2 - e2 * ws == w * (e1 * s2) - w * (e2 * s)) by (nonlinear_arith)
        requires
            ws == w * s,
            ws2 == w * s2,
    ;
    assert(2 * ee == 2 * (w * r) + w * (e1 * s2) - w * (e2 * s));
    let xx = 2 * r + e1 * s2 - e2 * s;
    assert(w * xx == 2 * (w * r) + w * (e1 * s2) - w * (e2 * s)) by (nonlinear_arith)
        requires
            xx == 2 * r + e1 * s2 - e2 * s,
    ;
    assert(-s <= xx <= 2 * s + s2) by (nonlinear_arith)
        requires
            xx == 2 * r + e1 * s2 - e2 * s,
            0 <= r < s,
            0 <= e1 < 2,
            0 <= e2 < 2,
            1 <= s,
            1 <= s2,
    ;
    assert(-(2 * ws + ws2) <= w * xx <= 2 * ws + ws2) by (nonlinear_arith)
        requires
            -s <= xx <= 2 * s + s2,
            1 <= w,
            1 <= s,
            1 <= s2,
            ws == w * s,
            ws2 == w * s2,
    ;
    assert(20_000 * ws + 10_000 * ws2 <= 2 * (ws * ws2)) by (nonlinear_arith)
        requires
            ws >= 100_000,
            ws2 >= 100_000,
    ;
    assert(-(ws * ws2) <= 10_000 * ee <= ws * ws2);
}

/// Zoom-anchor invariant: for a pointer strictly inside the on-screen
/// image rectangle, an effective zoom reproduces the pointer's relative
/// position in the rectangle — the image point under the pointer stays
/// under the pointer. Writing `uv` for `(p - rect.min) / rect.size` per
/// axis, the statement is `|uv2 - uv| <= 1/10_000`, cross-multiplied so
/// that it reads over integers. It needs the image to measure at least
/// a tenth of a pixel on screen at both scales, and the offset
/// correction to stay inside its saturation range.
pub proof fn lemma_zoom_anchor(
    t: ViewportTransform,
    scroll_delta_y: i64,
    zoom_factor: i64,
    container: RectFix,
    img: ImageSize,
    p: Vec2Fix,
)
    requires
        t.wf(),
        t.initialized,
        container.wf_container(),
        img.wf(),
        1 <= zoom_factor <= SCALE_LIMIT,
        zoom_applies(scroll_delta_y, true),
        p.wf_coord(),
        strictly_inside(spec_image_rect(t, container, img), p),
        img.width as int * t.scale as int >= 100_000,
        img.height as int * t.scale as int >= 100_000,
        img.width as int * new_scale_spec(t, zoom_factor) >= 100_000,
        img.height as int * new_scale_spec(t, zoom_factor) >= 100_000,
        zoom_offset_unsaturated(
            t.offset.x as int,
            p.x as int,
            container.center_spec().x as int,
            t.scale as int,
            new_scale_spec(t, zoom_factor),
        ),
        zoom_offset_unsaturated(
            t.offset.y as int,
            p.y as int,
            container.center_spec().y as int,
            t.scale as int,
            new_scale_spec(t, zoom_factor),
        ),
    ensures
        ({
            let t2 = spec_zoom(t, scroll_delta_y, zoom_factor, container, Some(p), true);
            let r1 = spec_image_rect(t, container, img);
            let r2 = spec_image_rect(t2, container, img);
            &&& -(r1.size.x as int * r2.size.x as int) <= 10_000 * ((p.x - r2.min.x) * r1.size.x
                - (p.x - r1.min.x) * r2.size.x) <= r1.size.x as int * r2.size.x as int
            &&& -(r1.size.y as int * r2.size.y as int) <= 10_000 * ((p.y - r2.min.y) * r1.size.y
                - (p.y - r1.min.y) * r2.size.y) <= r1.size.y as int * r2.size.y as int
        }),
{
    let s = t.scale as int;
    let s2 = new_scale_spec(t, zoom_factor);
    let c = container.center_spec();
    let w = img.width as int;
    let h = img.height as int;
    assert(1 <= s2 <= SCALE_LIMIT);
    crate::fixed::lemma_mul_bound(w, s, 1_000_000, SCALE_LIMIT as int);
    crate::fixed::lemma_mul_bound(h, s, 1_000_000, SCALE_LIMIT as int);
    crate::fixed::lemma_mul_bound(w, s2, 1_000_000, SCALE_LIMIT as int);
    crate::fixed::lemma_mul_bound(h, s2, 1_000_000, SCALE_LIMIT as int);
    lemma_anchor_axis(p.x as int, c.x as int, t.offset.x as int, w, s, s2);
    lemma_anchor_axis(p.y as int, c.y as int, t.offset.y as int, h, s, s2);
    let t2 = spec_zoom(t, scroll_delta_y, zoom_factor, container, Some(p), true);
    assert(t2.offset.x as int == t.offset.x as int + (p.x - c.x - t.offset.x) * (s - s2) / s);
    assert(t2.offset.y as int == t.offset.y as int + (p.y - c.y - t.offset.y) * (s - s2) / s);
}

} // verus!
