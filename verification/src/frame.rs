use vstd::prelude::*;
use crate::field::{base_plan, base_points, generate_image_driven, generate_procedural};
use crate::field::{image_field, procedural_field, FieldParams, NoisePoint, PROCEDURAL_CONTRAST};
use crate::grid::{lemma_cell_index, LuminanceGrid};
use crate::ramp::{ramp_index, ramp_index_in_bounds, standard_glyphs, GlyphRamp};
use crate::warp::{flow_plan_x, flow_plan_y, flow_plans, resample, resampled, FlowParams};
use crate::warp::{resampled_at_rest, resampled_of_constant};

verus! {

/// `String::push` of the standard library: the character is appended to
/// the end of the string, and nothing else changes.
pub assume_specification[ String::push ](s: &mut String, ch: char)
    ensures
        final(s)@ == old(s)@.push(ch),
;

/// Columns of the synthetic variant.
pub const PROCEDURAL_WIDTH: u32 = 128;

/// Rows of the synthetic variant.
pub const PROCEDURAL_HEIGHT: u32 = 96;

/// The text of a grid: for each row its glyphs, left to right, and a line
/// feed after them.
pub open spec fn frame_text(cells: Seq<u8>, width: nat, height: nat, ramp: Seq<char>) -> Seq<
    char,
> {
    let line: int = width as int + 1;
    Seq::new(
        (line * height) as nat,
        |k: int|
            if k % line == width as int {
                '\n'
            } else {
                ramp[ramp_index(cells[(k / line) * width + k % line], ramp.len())]
            },
    )
}

/// A frame is `height` whole lines: each holds `width` glyphs of the ramp
/// and ends in a line feed.
pub proof fn frame_text_shape(cells: Seq<u8>, width: nat, height: nat, ramp: Seq<char>)
    requires
        ramp.len() > 0,
    ensures
        frame_text(cells, width, height, ramp).len() == (width + 1) * height,
        forall|x: int, y: int|
            0 <= x <= width && 0 <= y < height ==> #[trigger] frame_text(
                cells,
                width,
                height,
                ramp,
            )[y * (width + 1) + x] == (if x == width {
                '\n'
            } else {
                ramp[ramp_index(cells[y * width + x], ramp.len())]
            }),
        forall|x: int, y: int|
            0 <= x < width && 0 <= y < height ==> ramp.contains(
                #[trigger] frame_text(cells, width, height, ramp)[y * (width + 1) + x],
            ),
{
    let text: Seq<char> = frame_text(cells, width, height, ramp);
    assert forall|x: int, y: int| 0 <= x <= width && 0 <= y < height implies #[trigger] text[y * (
        width + 1) + x] == (if x == width {
        '\n'
    } else {
        ramp[ramp_index(cells[y * width + x], ramp.len())]
    }) by {
        lemma_cell_index(x, y, width as int + 1, height as int);
    }
    assert forall|x: int, y: int| 0 <= x < width && 0 <= y < height implies ramp.contains(
        #[trigger] text[y * (width + 1) + x],
    ) by {
        lemma_cell_index(x, y, width as int + 1, height as int);
        ramp_index_in_bounds(cells[y * width + x], ramp.len());
    }
}

/// Where the flow displaces nothing, because it is silent or because it
/// has no amplitude, the text is that of the base field itself.
pub proof fn still_flow_leaves_the_text(
    base: Seq<u8>,
    width: nat,
    height: nat,
    flow_x: Seq<i64>,
    flow_y: Seq<i64>,
    amplitude: int,
    ramp: Seq<char>,
)
    requires
        base.len() == width * height,
        amplitude == 0 || forall|i: int|
            0 <= i < width * height ==> flow_x[i] == 0 && flow_y[i] == 0,
    ensures
        frame_text(resampled(base, width, height, flow_x, flow_y, amplitude), width, height, ramp)
            == frame_text(base, width, height, ramp),
{
    resampled_at_rest(base, width, height, flow_x, flow_y, amplitude);
}

/// A base field of one value is written as `height` lines of `width` times
/// the glyph of that value, whatever the flow.
pub proof fn constant_field_is_one_glyph(
    base: Seq<u8>,
    value: u8,
    width: nat,
    height: nat,
    flow_x: Seq<i64>,
    flow_y: Seq<i64>,
    amplitude: int,
    ramp: Seq<char>,
)
    requires
        ramp.len() > 0,
        base.len() == width * height,
        forall|i: int| 0 <= i < base.len() ==> base[i] == value,
    ensures
        forall|x: int, y: int|
            0 <= x < width && 0 <= y < height ==> #[trigger] frame_text(
                resampled(base, width, height, flow_x, flow_y, amplitude),
                width,
                height,
                ramp,
            )[y * (width + 1) + x] == ramp[ramp_index(value, ramp.len())],
{
    resampled_of_constant(base, value, width, height, flow_x, flow_y, amplitude);
    frame_text_shape(base, width, height, ramp);
    assert forall|x: int, y: int| 0 <= x < width && 0 <= y < height implies #[trigger] frame_text(
        base,
        width,
        height,
        ramp,
    )[y * (width + 1) + x] == ramp[ramp_index(value, ramp.len())] by {
        lemma_cell_index(x, y, width as int, height as int);
    }
}

/// Writes a grid out as text, with the glyphs of `ramp`.
pub fn text_of(grid: &LuminanceGrid, ramp: &GlyphRamp) -> (text: String)
    requires
        grid.wf(),
        ramp.wf(),
    ensures
        text@ == frame_text(grid@, grid.cols(), grid.rows(), ramp@),
{
    let width: u32 = grid.width();
    let height: u32 = grid.height();
    let mut text: String = String::new();
    let mut y: u32 = 0;
    while y < height
        invariant
            grid.wf(),
            ramp.wf(),
            width == grid.cols(),
            height == grid.rows(),
            y <= height,
            text@.len() == y * (width + 1),
            forall|k: int|
                0 <= k < text@.len() ==> text@[k] == frame_text(
                    grid@,
                    width as nat,
                    height as nat,
                    ramp@,
                )[k],
        decreases height - y,
    {
        let mut x: u32 = 0;
        while x < width
            invariant
                grid.wf(),
                ramp.wf(),
                width == grid.cols(),
                height == grid.rows(),
                y < height,
                x <= width,
                text@.len() == y * (width + 1) + x,
                forall|k: int|
                    0 <= k < text@.len() ==> text@[k] == frame_text(
                        grid@,
                        width as nat,
                        height as nat,
                        ramp@,
                    )[k],
            decreases width - x,
        {
            proof {
                lemma_cell_index(x as int, y as int, width + 1, height as int);
            }
            text.push(ramp.to_char(grid.get(x, y)));
            x = x + 1;
        }
        proof {
            lemma_cell_index(width as int, y as int, width + 1, height as int);
            assert((y + 1) * (width + 1) == y * (width + 1) + width + 1) by (nonlinear_arith);
        }
        text.push('\n');
        y = y + 1;
    }
    proof {
        assert(text@.len() == (width + 1) * height) by (nonlinear_arith)
            requires
                text@.len() == y * (width + 1),
                y == height,
        ;
        assert(text@ =~= frame_text(grid@, width as nat, height as nat, ramp@));
    }
    text
}

/// The points at which the noise has to be read for one frame, row by row:
/// for the base field and for the two channels of the flow.
#[derive(Clone, Debug)]
pub struct NoisePlan {
    pub base: Vec<NoisePoint>,
    pub flow_x: Vec<NoisePoint>,
    pub flow_y: Vec<NoisePoint>,
}

/// The noise values of one frame, in millionths, one per cell and row by
/// row: for the base field and for the two channels of the flow.
#[derive(Clone, Debug)]
pub struct NoiseSamples {
    pub base: Vec<i64>,
    pub flow_x: Vec<i64>,
    pub flow_y: Vec<i64>,
}

/// Where the noise has to be read for the frame at the time `t`, in
/// microseconds, on a grid of the given extent.
pub fn plan_frame(field: &FieldParams, flow: &FlowParams, width: u32, height: u32, t: u64) -> (plan:
    NoisePlan)
    ensures
        plan.base@ == base_plan(*field, width, height, t),
        plan.flow_x@ == flow_plan_x(*flow, width, height, t),
        plan.flow_y@ == flow_plan_y(*flow, width, height, t),
{
    let base: Vec<NoisePoint> = base_points(field, width, height, t);
    let channels: (Vec<NoisePoint>, Vec<NoisePoint>) = flow_plans(flow, width, height, t);
    NoisePlan { base, flow_x: channels.0, flow_y: channels.1 }
}

/// Reads a base field through the flow and writes the outcome as text.
pub fn render_field(
    base: &LuminanceGrid,
    amplitude: i64,
    flow_x: &Vec<i64>,
    flow_y: &Vec<i64>,
    ramp: &GlyphRamp,
) -> (r: Option<String>)
    requires
        base.wf(),
        ramp.wf(),
    ensures
        r is Some <==> flow_x@.len() == base@.len() && flow_y@.len() == base@.len(),
        r matches Some(text) ==> text@ == frame_text(
            resampled(base@, base.cols(), base.rows(), flow_x@, flow_y@, amplitude as int),
            base.cols(),
            base.rows(),
            ramp@,
        ),
{
    match resample(base, amplitude, flow_x, flow_y) {
        Some(warped) => Some(text_of(&warped, ramp)),
        None => None,
    }
}

/// The frame of the synthetic variant as a function of its noise values.
pub open spec fn procedural_frame(samples: NoiseSamples) -> Seq<char> {
    frame_text(
        resampled(
            procedural_field(samples.base@, 200_000, 4_000_000),
            128,
            96,
            samples.flow_x@,
            samples.flow_y@,
            5_000_000,
        ),
        128,
        96,
        standard_glyphs(),
    )
}

/// The frame over a source image as a function of its noise values.
pub open spec fn image_frame(gray: LuminanceGrid, samples: NoiseSamples) -> Seq<char> {
    frame_text(
        resampled(
            image_field(gray@, samples.base@, 200_000),
            gray.cols(),
            gray.rows(),
            samples.flow_x@,
            samples.flow_y@,
            2_000_000,
        ),
        gray.cols(),
        gray.rows(),
        standard_glyphs(),
    )
}

/// Renders one frame of the synthetic variant, 128 columns by 96 rows,
/// from the noise values read at the points of its plan.
///
/// There is a frame exactly when each part of `samples` holds one value
/// per cell.
pub fn dither_without_image(samples: &NoiseSamples) -> (r: Option<String>)
    ensures
        r is Some <==> samples.base@.len() == 128 * 96 && samples.flow_x@.len() == 128 * 96
            && samples.flow_y@.len() == 128 * 96,
        r matches Some(text) ==> text@ == procedural_frame(*samples),
{
    let field: FieldParams = FieldParams::procedural();
    let flow: FlowParams = FlowParams::procedural();
    let ramp: GlyphRamp = GlyphRamp::standard();
    match generate_procedural(
        &field,
        PROCEDURAL_CONTRAST,
        PROCEDURAL_WIDTH,
        PROCEDURAL_HEIGHT,
        &samples.base,
    ) {
        Some(base) => render_field(&base, flow.amplitude, &samples.flow_x, &samples.flow_y, &ramp),
        None => None,
    }
}

/// Renders one frame over the source image `gray` from the noise values
/// read at the points of its plan.
///
/// There is a frame exactly when each part of `samples` holds one value
/// per cell of `gray`.
pub fn dither_image(gray: &LuminanceGrid, samples: &NoiseSamples) -> (r: Option<String>)
    requires
        gray.wf(),
    ensures
        r is Some <==> samples.base@.len() == gray@.len() && samples.flow_x@.len() == gray@.len()
            && samples.flow_y@.len() == gray@.len(),
        r matches Some(text) ==> text@ == image_frame(*gray, *samples),
{
    let field: FieldParams = FieldParams::image_driven();
    let flow: FlowParams = FlowParams::image_driven();
    let ramp: GlyphRamp = GlyphRamp::standard();
    match generate_image_driven(&field, gray, &samples.base) {
        Some(base) => render_field(&base, flow.amplitude, &samples.flow_x, &samples.flow_y, &ramp),
        None => None,
    }
}

/// The renderer of the synthetic variant writes the frames of
/// [`dither_without_image`].
pub proof fn procedural_renderer_writes_procedural_frames(
    renderer: FrameRenderer,
    samples: NoiseSamples,
)
    requires
        renderer.variant == (BaseVariant::Procedural { width: 128, height: 96, contrast: 4_000_000 }),
        renderer.field == FieldParams::spec_procedural(),
        renderer.flow == FlowParams::spec_procedural(),
        renderer.ramp@ == standard_glyphs(),
    ensures
        renderer.frame(samples) == procedural_frame(samples),
{
}

/// The renderer over a source image writes the frames of [`dither_image`].
pub proof fn image_renderer_writes_image_frames(
    renderer: FrameRenderer,
    gray: LuminanceGrid,
    samples: NoiseSamples,
)
    requires
        renderer.variant == (BaseVariant::ImageDriven { source: gray }),
        renderer.field == FieldParams::spec_image_driven(),
        renderer.flow == FlowParams::spec_image_driven(),
        renderer.ramp@ == standard_glyphs(),
    ensures
        renderer.frame(samples) == image_frame(gray, samples),
{
}

/// What the base field of a renderer is made from.
pub enum BaseVariant {
    /// Noise alone, on a grid of the given extent, with the given contrast
    /// in millionths.
    Procedural { width: u32, height: u32, contrast: i64 },
    /// Noise laid over a source image, cell by cell.
    ImageDriven { source: LuminanceGrid },
}

/// A renderer of frames: a base field, the flow it is read through, and
/// the ramp its text is written with.
pub struct FrameRenderer {
    pub variant: BaseVariant,
    pub field: FieldParams,
    pub flow: FlowParams,
    pub ramp: GlyphRamp,
}

impl FrameRenderer {
    /// The ramp and, where there is one, the source image are well formed.
    pub open spec fn wf(&self) -> bool {
        &&& self.ramp.wf()
        &&& self.variant matches BaseVariant::ImageDriven { source } ==> source.wf()
    }

    /// Columns of each frame.
    pub open spec fn cols(&self) -> nat {
        match self.variant {
            BaseVariant::Procedural { width, .. } => width as nat,
            BaseVariant::ImageDriven { source } => source.cols(),
        }
    }

    /// Rows of each frame.
    pub open spec fn rows(&self) -> nat {
        match self.variant {
            BaseVariant::Procedural { height, .. } => height as nat,
            BaseVariant::ImageDriven { source } => source.rows(),
        }
    }

    /// The base field under the noise values `noise`, one per cell.
    pub open spec fn base_cells(&self, noise: Seq<i64>) -> Seq<u8> {
        match self.variant {
            BaseVariant::Procedural { contrast, .. } => procedural_field(
                noise,
                self.field.amplitude as int,
                contrast as int,
            ),
            BaseVariant::ImageDriven { source } => image_field(
                source@,
                noise,
                self.field.amplitude as int,
            ),
        }
    }

    /// The text of the frame under the noise values `samples`.
    pub open spec fn frame(&self, samples: NoiseSamples) -> Seq<char> {
        frame_text(
            resampled(
                self.base_cells(samples.base@),
                self.cols(),
                self.rows(),
                samples.flow_x@,
                samples.flow_y@,
                self.flow.amplitude as int,
            ),
            self.cols(),
            self.rows(),
            self.ramp@,
        )
    }

    /// Whether each part of `samples` holds one value per cell.
    pub open spec fn fits(&self, samples: NoiseSamples) -> bool {
        &&& samples.base@.len() == self.cols() * self.rows()
        &&& samples.flow_x@.len() == self.cols() * self.rows()
        &&& samples.flow_y@.len() == self.cols() * self.rows()
    }

    /// The renderer of the synthetic variant: 128 columns by 96 rows.
    pub fn procedural() -> (r: FrameRenderer)
        ensures
            r.wf(),
            r.variant == (BaseVariant::Procedural { width: 128, height: 96, contrast: 4_000_000 }),
            r.field == FieldParams::procedural(),
            r.flow == FlowParams::procedural(),
            r.ramp@ == standard_glyphs(),
    {
        FrameRenderer {
            variant: BaseVariant::Procedural {
                width: PROCEDURAL_WIDTH,
                height: PROCEDURAL_HEIGHT,
                contrast: PROCEDURAL_CONTRAST,
            },
            field: FieldParams::procedural(),
            flow: FlowParams::procedural(),
            ramp: GlyphRamp::standard(),
        }
    }

    /// The renderer over the source image `source`.
    pub fn image_driven(source: LuminanceGrid) -> (r: FrameRenderer)
        requires
            source.wf(),
        ensures
            r.wf(),
            r.variant == (BaseVariant::ImageDriven { source }),
            r.field == FieldParams::image_driven(),
            r.flow == FlowParams::image_driven(),
            r.ramp@ == standard_glyphs(),
    {
        FrameRenderer {
            variant: BaseVariant::ImageDriven { source },
            field: FieldParams::image_driven(),
            flow: FlowParams::image_driven(),
            ramp: GlyphRamp::standard(),
        }
    }

    /// Columns of each frame.
    pub fn width(&self) -> (w: u32)
        ensures
            w == self.cols(),
    {
        match &self.variant {
            BaseVariant::Procedural { width, .. } => *width,
            BaseVariant::ImageDriven { source } => source.width(),
        }
    }

    /// Rows of each frame.
    pub fn height(&self) -> (h: u32)
        ensures
            h == self.rows(),
    {
        match &self.variant {
            BaseVariant::Procedural { height, .. } => *height,
            BaseVariant::ImageDriven { source } => source.height(),
        }
    }

    /// Where the noise has to be read for the frame at the time `t`, in
    /// microseconds.
    pub fn plan(&self, t: u64) -> (plan: NoisePlan)
        ensures
            plan.base@ == base_plan(self.field, self.cols() as u32, self.rows() as u32, t),
            plan.flow_x@ == flow_plan_x(self.flow, self.cols() as u32, self.rows() as u32, t),
            plan.flow_y@ == flow_plan_y(self.flow, self.cols() as u32, self.rows() as u32, t),
    {
        plan_frame(&self.field, &self.flow, self.width(), self.height(), t)
    }

    /// The base field under the given noise values. There is one exactly
    /// when `noise` holds one value per cell.
    pub fn generate(&self, noise: &Vec<i64>) -> (r: Option<LuminanceGrid>)
        requires
            self.wf(),
        ensures
            r is Some <==> noise@.len() == self.cols() * self.rows(),
            r matches Some(g) ==> g.wf() && g.cols() == self.cols() && g.rows() == self.rows()
                && g@ == self.base_cells(noise@),
    {
        match &self.variant {
            BaseVariant::Procedural { width, height, contrast } => generate_procedural(
                &self.field,
                *contrast,
                *width,
                *height,
                noise,
            ),
            BaseVariant::ImageDriven { source } => generate_image_driven(&self.field, source, noise),
        }
    }

    /// Renders the frame under the noise values read at the points of its
    /// plan. There is a frame exactly when each part of `samples` holds
    /// one value per cell.
    pub fn render(&self, samples: &NoiseSamples) -> (r: Option<String>)
        requires
            self.wf(),
        ensures
            r is Some <==> self.fits(*samples),
            r matches Some(text) ==> text@ == self.frame(*samples),
    {
        match self.generate(&samples.base) {
            Some(base) => render_field(
                &base,
                self.flow.amplitude,
                &samples.flow_x,
                &samples.flow_y,
                &self.ramp,
            ),
            None => None,
        }
    }
}

} // verus!
