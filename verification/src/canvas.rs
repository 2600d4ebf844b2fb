use crate::fixed::{floor_div_i128, SCALE_LIMIT};
use crate::geometry::{ImageSize, RectFix, Vec2Fix};
use crate::transform::{
    spec_fit, spec_image_rect, spec_new_transform, spec_pan, spec_zoom, ViewportTransform,
};
use vstd::arithmetic::div_mod::{lemma_div_nonincreasing, lemma_div_pos_is_pos};
use vstd::prelude::*;
use vstd::string::StringExecFns;

verus! {

/// Corner radius of the border stroked around the image, in millionths
/// of a pixel.
pub const BORDER_RADIUS: i64 = 8_000_000;

/// Width of that border stroke, in millionths of a pixel.
pub const BORDER_STROKE: i64 = 2_000_000;

/// The fixed user-facing message shown when a load fails.
pub open spec fn error_message_spec() -> Seq<char> {
    "Error loading image, try another."@
}

/// The placeholder shown while no image has been loaded yet.
pub open spec fn placeholder_message_spec() -> Seq<char> {
    "No image."@
}

pub fn error_message() -> (s: String)
    ensures
        s@ == error_message_spec(),
{
    String::from_str("Error loading image, try another.")
}

pub fn placeholder_message() -> (s: String)
    ensures
        s@ == placeholder_message_spec(),
{
    String::from_str("No image.")
}

/// An image that has been decoded and uploaded: its path (the identity
/// key for load idempotence), an opaque texture handle owned by the
/// rendering backend, and its pixel dimensions.
#[derive(Clone, Debug)]
pub struct LoadedImage {
    pub path: String,
    pub texture: u64,
    pub width: u32,
    pub height: u32,
}

/// The per-frame input state the canvas reacts to, as reported by the
/// windowing layer: hover and pointer, drag, double-click and scroll.
/// `zoom_factor` is the fixed-point zoom step the caller derives from
/// `scroll_delta_y` through an exponential response curve, so that
/// repeated scroll ticks compose multiplicatively.
#[derive(Clone, Copy, Debug)]
pub struct FrameInput {
    pub hovered: bool,
    pub pointer: Option<Vec2Fix>,
    pub dragged: bool,
    pub drag_delta: Vec2Fix,
    pub double_clicked: bool,
    pub scroll_delta_y: i64,
    pub zoom_factor: i64,
}

impl FrameInput {
    pub open spec fn wf(self) -> bool {
        &&& self.pointer matches Some(p) ==> p.wf_coord()
        &&& 1 <= self.zoom_factor <= SCALE_LIMIT
    }
}

/// One drawing instruction handed to the 2D draw-command sink.
#[derive(Clone, Copy, PartialEq, Eq, Structural, Debug)]
pub enum DrawCmd {
    /// The fixed load-error message, drawn alone.
    ErrorText,
    /// The fixed "no image" placeholder, drawn alone.
    Placeholder,
    /// A stroked rounded-rectangle border around the image.
    Border { rect: RectFix, corner_radius: i64, stroke_width: i64 },
    /// The image textured into its on-screen rectangle, sampled over
    /// the full texture-coordinate range.
    Texture { texture: u64, rect: RectFix },
    /// The pixel-coordinate readout beside the pointer.
    Readout { anchor: Vec2Fix, pixel_x: i64, pixel_y: i64 },
}

/// The canvas: at most one loaded image, an error flag that takes
/// display precedence, and the viewport transform. A failed load keeps
/// the previous image in place behind the error message on purpose;
/// that retained-but-hidden state is documented precedence, not an
/// accident.
#[derive(Clone, Debug)]
pub struct ImageCanvas {
    pub image: Option<LoadedImage>,
    pub error: bool,
    pub transform: ViewportTransform,
}

/// The canvas state after a successful decode and upload: the new
/// image replaces any previous one, the error is cleared, and a fresh,
/// not yet fitted transform replaces the old one so the first frame
/// fits the new image.
pub open spec fn spec_load_success(
    cv: ImageCanvas,
    path: String,
    texture: u64,
    width: u32,
    height: u32,
) -> ImageCanvas {
    ImageCanvas {
        image: Some(LoadedImage { path, texture, width, height }),
        error: false,
        transform: spec_new_transform(cv.transform.min_scale, cv.transform.max_scale),
    }
}

/// The canvas state after a failed decode: only the error flag rises;
/// the previous image and transform stay untouched.
pub open spec fn spec_load_failure(cv: ImageCanvas) -> ImageCanvas {
    ImageCanvas { error: true, ..cv }
}

/// Whether a path names a different image than the loaded one, so a
/// load of it must decode; loading the already-loaded path is a no-op.
pub open spec fn spec_is_new_img(cv: ImageCanvas, path: Seq<char>) -> bool {
    !(cv.image matches Some(li) && li.path@ == path)
}

/// The integer pixel coordinate reported by the readout: the pointer's
/// offset into the image rectangle divided by the scale, rounded to
/// the nearest pixel index (half-units round up).
pub open spec fn readout_pixel_spec(p: int, rect_min: int, scale: int) -> int {
    (2 * (p - rect_min) + scale) / (2 * scale)
}

/// The frame pipeline: the transform the canvas holds after a frame,
/// and the draw commands the frame emits. An error frame shows only
/// the error text; an imageless frame only the placeholder. Otherwise
/// the transform is fitted on first use, then panned, zoomed and
/// possibly reset by the frame's input, the image is drawn with its
/// border, and a hovering pointer over the image gets a coordinate
/// readout.
pub open spec fn spec_render(cv: ImageCanvas, container: RectFix, input: FrameInput) -> (
    ImageCanvas,
    Seq<DrawCmd>,
) {
    if cv.error {
        (cv, seq![DrawCmd::ErrorText])
    } else if cv.image is None {
        (cv, seq![DrawCmd::Placeholder])
    } else {
        let li = cv.image.unwrap();
        let img = ImageSize { width: li.width, height: li.height };
        let t0 = cv.transform;
        let t1 = if !t0.initialized {
            spec_fit(t0, img, container.size)
        } else {
            t0
        };
        let t2 = if input.dragged {
            spec_pan(t1, input.drag_delta)
        } else {
            t1
        };
        let t3 = spec_zoom(
            t2,
            input.scroll_delta_y,
            input.zoom_factor,
            container,
            input.pointer,
            input.hovered,
        );
        let t4 = if input.double_clicked {
            spec_fit(t3, img, container.size)
        } else {
            t3
        };
        let rect = spec_image_rect(t4, container, img);
        let cv2 = ImageCanvas { transform: t4, ..cv };
        let base = seq![
            DrawCmd::Border { rect, corner_radius: BORDER_RADIUS, stroke_width: BORDER_STROKE },
            DrawCmd::Texture { texture: li.texture, rect },
        ];
        let cmds = if input.hovered && (input.pointer matches Some(p) && rect.contains_spec(p)) {
            base.push(
                DrawCmd::Readout {
                    anchor: input.pointer.unwrap(),
                    pixel_x: readout_pixel_spec(
                        input.pointer.unwrap().x as int,
                        rect.min.x as int,
                        t4.scale as int,
                    ) as i64,
                    pixel_y: readout_pixel_spec(
                        input.pointer.unwrap().y as int,
                        rect.min.y as int,
                        t4.scale as int,
                    ) as i64,
                },
            )
        } else {
            base
        };
        (cv2, cmds)
    }
}

/// Load idempotence: after a successful load of a path, that very
/// path no longer counts as new, so a second load of the same path
/// returns at once and performs no second decode or upload.
pub proof fn lemma_load_idempotent(
    cv: ImageCanvas,
    path: String,
    texture: u64,
    width: u32,
    height: u32,
)
    ensures
        !spec_is_new_img(spec_load_success(cv, path, texture, width, height), path@),
{
}

impl ImageCanvas {
    /// Well-formedness: the transform is well-formed and any loaded
    /// image has accepted dimensions.
    pub open spec fn wf(self) -> bool {
        &&& self.transform.wf()
        &&& self.image matches Some(li) ==> (ImageSize {
            width: li.width,
            height: li.height,
        }).wf()
    }

    pub fn new(min_scale: i64, max_scale: i64) -> (cv: ImageCanvas)
        requires
            1 <= min_scale <= max_scale <= SCALE_LIMIT,
        ensures
            cv.image is None,
            !cv.error,
            cv.transform == spec_new_transform(min_scale, max_scale),
            cv.wf(),
    {
        ImageCanvas {
            image: None,
            error: false,
            transform: ViewportTransform::new(min_scale, max_scale),
        }
    }

    /// The primary viewer configuration: interactive zoom between one
    /// half and twice the natural size.
    pub fn new_viewer() -> (cv: ImageCanvas)
        ensures
            cv.image is None,
            !cv.error,
            cv.transform == spec_new_transform(500_000i64, 2_000_000i64),
            cv.wf(),
    {
        Self::new(500_000, 2_000_000)
    }

    /// The map-viewer configuration: the same canvas with a wider
    /// zoom-out bound of three tenths.
    pub fn new_map() -> (cv: ImageCanvas)
        ensures
            cv.image is None,
            !cv.error,
            cv.transform == spec_new_transform(300_000i64, 2_000_000i64),
            cv.wf(),
    {
        Self::new(300_000, 2_000_000)
    }

    /// Whether the path names an image other than the loaded one; only
    /// then does a load go on to decode. This check is what makes load
    /// idempotent per path.
    pub fn is_new_img(&self, img_path: &String) -> (r: bool)
        ensures
            r == spec_is_new_img(*self, img_path@),
    {
        match &self.image {
            Some(li) => !(li.path == *img_path),
            None => true,
        }
    }

    /// Records a successful decode and upload: the new image replaces
    /// any previous one, the error is cleared, and a fresh transform
    /// is created so the next frame fits the new image.
    pub fn load_success(&mut self, path: String, texture: u64, width: u32, height: u32)
        requires
            old(self).wf(),
            (ImageSize { width, height }).wf(),
        ensures
            *final(self) == spec_load_success(*old(self), path, texture, width, height),
            final(self).wf(),
    {
        self.image = Some(LoadedImage { path, texture, width, height });
        self.error = false;
        self.transform = ViewportTransform::new(self.transform.min_scale, self.transform.max_scale);
    }

    /// Records a failed decode: the fixed error message takes display
    /// precedence from the next frame on, while the previously loaded
    /// image stays referenced, untouched behind it.
    pub fn load_failure(&mut self)
        requires
            old(self).wf(),
        ensures
            *final(self) == spec_load_failure(*old(self)),
            final(self).wf(),
    {
        self.error = true;
    }

    /// Runs one interaction frame and returns the draw commands; see
    /// `spec_render` for the exact pipeline.
    pub fn render(&mut self, container: RectFix, input: FrameInput) -> (cmds: Vec<DrawCmd>)
        requires
            old(self).wf(),
            container.wf_container(),
            input.wf(),
        ensures
            final(self).wf(),
            *final(self) == spec_render(*old(self), container, input).0,
            cmds@ == spec_render(*old(self), container, input).1,
    {
        let mut cmds: Vec<DrawCmd> = Vec::new();
        if self.error {
            cmds.push(DrawCmd::ErrorText);
            proof {
                assert(cmds@ =~= spec_render(*old(self), container, input).1);
            }
            return cmds;
        }
        if self.image.is_none() {
            cmds.push(DrawCmd::Placeholder);
            proof {
                assert(cmds@ =~= spec_render(*old(self), container, input).1);
            }
            return cmds;
        }
        let (texture, width, height): (u64, u32, u32) = match &self.image {
            Some(li) => (li.texture, li.width, li.height),
            None => (0, 1, 1),
        };
        let img: ImageSize = ImageSize { width, height };
        if !self.transform.initialized {
            self.transform.fit(img, container.size);
        }
        if input.dragged {
            self.transform.pan(input.drag_delta);
        }
        self.transform.zoom_at_point(
            input.scroll_delta_y,
            input.zoom_factor,
            container,
            input.pointer,
            input.hovered,
        );
        if input.double_clicked {
            self.transform.reset(img, container.size);
        }
        let rect: RectFix = self.transform.image_rect(container, img);
        cmds.push(
            DrawCmd::Border { rect, corner_radius: BORDER_RADIUS, stroke_width: BORDER_STROKE },
        );
        cmds.push(DrawCmd::Texture { texture, rect });
        if input.hovered {
            if let Some(p) = input.pointer {
                if rect.contains(p) {
                    let s: i64 = self.transform.scale;
                    let nx: i128 = p.x as i128 - rect.min.x as i128;
                    let ny: i128 = p.y as i128 - rect.min.y as i128;
                    proof {
                        lemma_div_pos_is_pos(2 * nx as int + s as int, 2 * s as int);
                        lemma_div_pos_is_pos(2 * ny as int + s as int, 2 * s as int);
                        lemma_div_nonincreasing(2 * nx as int + s as int, 2 * s as int);
                        lemma_div_nonincreasing(2 * ny as int + s as int, 2 * s as int);
                    }
                    let px: i128 = floor_div_i128(2 * nx + s as i128, 2 * (s as i128));
                    let py: i128 = floor_div_i128(2 * ny + s as i128, 2 * (s as i128));
                    cmds.push(
                        DrawCmd::Readout { anchor: p, pixel_x: px as i64, pixel_y: py as i64 },
                    );
                }
            }
        }
        proof {
            assert(cmds@ =~= spec_render(*old(self), container, input).1);
        }
        cmds
    }
}

} // verus!
