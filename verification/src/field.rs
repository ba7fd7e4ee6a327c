use vstd::prelude::*;
use crate::fixed::{clamp, floor_div, saturate, saturate_wide, scale_wide, scaled, wide_product};
use crate::fixed::{UNIT, UNIT2, UNIT3};
use crate::grid::{cell_count, lemma_cell_index, LuminanceGrid};
use crate::hash::{hash01, hash01_spec};

verus! {

/// A point of the three-dimensional noise domain, each coordinate in
/// millionths.
#[derive(Clone, Copy, Debug, PartialEq, Eq, Structural)]
pub struct NoisePoint {
    pub x: i64,
    pub y: i64,
    pub z: i64,
}

/// What shapes the noise under the base field, each in millionths.
#[derive(Clone, Copy, Debug, PartialEq, Eq, Structural)]
pub struct FieldParams {
    /// Noise units per cell, along both axes.
    pub scale: i64,
    /// Noise units per second of simulated time.
    pub speed: i64,
    /// Seconds by which the cells are spread out of phase.
    pub phase_span: i64,
    /// Share of full luminance that a noise value of one adds.
    pub amplitude: i64,
}

impl FieldParams {
    /// The field of the synthetic variant: broad, slow, all cells in phase.
    pub open spec fn spec_procedural() -> FieldParams {
        FieldParams {
            scale: 90_000,
            speed: 50_000,
            phase_span: 0,
            amplitude: 200_000,
        }
    }

    /// The field of the synthetic variant: broad, slow, all cells in phase.
    #[verifier::when_used_as_spec(spec_procedural)]
    pub fn procedural() -> (p: FieldParams)
        ensures
            p == Self::spec_procedural(),
    {
        FieldParams { scale: 90_000, speed: 50_000, phase_span: 0, amplitude: 200_000 }
    }

    /// The field laid over a source image: fine and fast, each cell with a
    /// phase of its own.
    pub open spec fn spec_image_driven() -> FieldParams {
        FieldParams {
            scale: 5_000_000,
            speed: 100_000_000,
            phase_span: 10_000_000,
            amplitude: 200_000,
        }
    }

    /// The field laid over a source image: fine and fast, each cell with a
    /// phase of its own.
    #[verifier::when_used_as_spec(spec_image_driven)]
    pub fn image_driven() -> (p: FieldParams)
        ensures
            p == Self::spec_image_driven(),
    {
        FieldParams {
            scale: 5_000_000,
            speed: 100_000_000,
            phase_span: 10_000_000,
            amplitude: 200_000,
        }
    }
}

/// Contrast of the synthetic variant, in millionths.
pub const PROCEDURAL_CONTRAST: i64 = 4_000_000;

/// Seconds, in millionths, by which the cell `(x, y)` runs ahead.
pub open spec fn phase_of(params: FieldParams, x: u32, y: u32) -> int {
    scaled(hash01_spec(x, y), params.phase_span as int)
}

/// Where the noise is read for the cell `(x, y)` of the base field at the
/// time `t`, in microseconds.
pub open spec fn base_point_spec(params: FieldParams, x: u32, y: u32, t: u64) -> NoisePoint {
    NoisePoint {
        x: saturate(x * params.scale),
        y: saturate(y * params.scale),
        z: saturate(scaled(t + phase_of(params, x, y), params.speed as int)),
    }
}

/// The points of a whole base field, row by row.
pub open spec fn base_plan(params: FieldParams, width: u32, height: u32, t: u64) -> Seq<
    NoisePoint,
> {
    Seq::new(
        (width * height) as nat,
        |i: int| base_point_spec(params, (i % width as int) as u32, (i / width as int) as u32, t),
    )
}

/// Luminance of a cell of the synthetic field under the noise value `n`:
/// one half plus `amplitude * n`, kept within `[0, 1]`, spread about one
/// half by `contrast`, kept within `[0, 1]` again, and scaled to `[0, 255]`
/// with rounding to nearest. No intermediate value is rounded.
pub open spec fn procedural_level_spec(n: int, amplitude: int, contrast: int) -> int {
    let half: int = UNIT2 as int / 2;
    let lifted: int = clamp(half + n * amplitude, 0, UNIT2 as int);
    let spread: int = clamp(
        (lifted - half) * contrast + half * (UNIT as int),
        0,
        UNIT3 as int,
    );
    (2 * 255 * spread + UNIT3 as int) / (2 * (UNIT3 as int))
}

/// Luminance of a cell over a source image under the noise value `n`: the
/// source luminance plus `amplitude * n` of full scale, kept within
/// `[0, 255]` and rounded to nearest.
pub open spec fn image_level_spec(source: u8, n: int, amplitude: int) -> int {
    let lifted: int = clamp(
        source as int * (UNIT2 as int) + 255 * (n * amplitude),
        0,
        255 * (UNIT2 as int),
    );
    (2 * lifted + UNIT2 as int) / (2 * (UNIT2 as int))
}

/// The synthetic base field under the noise values `noise`, one per cell.
pub open spec fn procedural_field(noise: Seq<i64>, amplitude: int, contrast: int) -> Seq<u8> {
    Seq::new(
        noise.len(),
        |i: int| procedural_level_spec(noise[i] as int, amplitude, contrast) as u8,
    )
}

/// The base field over the cells `source` under the noise values `noise`,
/// one per cell.
pub open spec fn image_field(source: Seq<u8>, noise: Seq<i64>, amplitude: int) -> Seq<u8> {
    Seq::new(source.len(), |i: int| image_level_spec(source[i], noise[i] as int, amplitude) as u8)
}

/// Both kinds of level are luminance values, whatever the noise holds.
pub proof fn levels_in_range(source: u8, n: int, amplitude: int, contrast: int)
    ensures
        0 <= procedural_level_spec(n, amplitude, contrast) <= 255,
        0 <= image_level_spec(source, n, amplitude) <= 255,
{
    let half: int = UNIT2 as int / 2;
    let lifted: int = clamp(half + n * amplitude, 0, UNIT2 as int);
    let spread: int = clamp(
        (lifted - half) * contrast + half * (UNIT as int),
        0,
        UNIT3 as int,
    );
    assert(0 <= spread <= 1_000_000_000_000_000_000);
    assert(0 <= (2 * 255 * spread + 1_000_000_000_000_000_000) / 2_000_000_000_000_000_000 <= 255)
        by (nonlinear_arith)
        requires
            0 <= spread <= 1_000_000_000_000_000_000,
    ;
}

/// Noise that adds nothing leaves a source luminance as it is.
pub proof fn image_level_of_silence(source: u8, n: int, amplitude: int)
    requires
        n == 0 || amplitude == 0,
    ensures
        image_level_spec(source, n, amplitude) == source,
{
    assert(n * amplitude == 0) by (nonlinear_arith)
        requires
            n == 0 || amplitude == 0,
    ;
    let s: int = source as int;
    assert(UNIT2 as int == 1_000_000_000_000);
    let whole: int = 255_000_000_000_000;
    assert(clamp(s * 1_000_000_000_000 + 255 * 0, 0, whole) == s * 1_000_000_000_000);
    assert((2 * (s * 1_000_000_000_000) + 1_000_000_000_000) / 2_000_000_000_000 == s);
}

/// Under noise that adds nothing, the base field over a source image is
/// the image itself.
pub proof fn image_field_of_silence(source: Seq<u8>, noise: Seq<i64>, amplitude: int)
    requires
        amplitude == 0 || forall|i: int| 0 <= i < source.len() ==> noise[i] == 0,
    ensures
        image_field(source, noise, amplitude) == source,
{
    assert forall|i: int| 0 <= i < source.len() implies image_field(source, noise, amplitude)[i]
        == source[i] by {
        image_level_of_silence(source[i], noise[i] as int, amplitude);
    }
    assert(image_field(source, noise, amplitude) =~= source);
}

/// The point at which the noise is read for one cell of the base field.
pub fn base_point(params: &FieldParams, x: u32, y: u32, t: u64) -> (p: NoisePoint)
    ensures
        p == base_point_spec(*params, x, y, t),
{
    let phase: i128 = floor_div(wide_product(hash01(x, y), params.phase_span), UNIT as i128);
    NoisePoint {
        x: saturate_wide(wide_product(x as i64, params.scale)),
        y: saturate_wide(wide_product(y as i64, params.scale)),
        z: scale_wide(t as i128 + phase, params.speed),
    }
}

/// The points at which the noise is read for a whole base field, row by row.
pub fn base_points(params: &FieldParams, width: u32, height: u32, t: u64) -> (plan: Vec<
    NoisePoint,
>)
    ensures
        plan@ == base_plan(*params, width, height, t),
{
    let mut plan: Vec<NoisePoint> = Vec::new();
    let mut y: u32 = 0;
    while y < height
        invariant
            y <= height,
            plan@.len() == y * width,
            forall|i: int|
                0 <= i < plan@.len() ==> plan@[i] == base_point_spec(
                    *params,
                    (i % width as int) as u32,
                    (i / width as int) as u32,
                    t,
                ),
        decreases height - y,
    {
        let mut x: u32 = 0;
        while x < width
            invariant
                y < height,
                x <= width,
                plan@.len() == y * width + x,
                forall|i: int|
                    0 <= i < plan@.len() ==> plan@[i] == base_point_spec(
                        *params,
                        (i % width as int) as u32,
                        (i / width as int) as u32,
                        t,
                    ),
            decreases width - x,
        {
            proof {
                lemma_cell_index(x as int, y as int, width as int, height as int);
            }
            plan.push(base_point(params, x, y, t));
            x = x + 1;
        }
        proof {
            assert((y + 1) * width == y * width + width) by (nonlinear_arith);
        }
        y = y + 1;
    }
    proof {
        assert(plan@.len() == width * height) by (nonlinear_arith)
            requires
                plan@.len() == y * width,
                y == height,
        ;
        assert(plan@ =~= base_plan(*params, width, height, t));
    }
    plan
}

/// Luminance of one cell of the synthetic field.
pub fn procedural_level(n: i64, amplitude: i64, contrast: i64) -> (v: u8)
    ensures
        v == procedural_level_spec(n as int, amplitude as int, contrast as int),
{
    let half: i128 = UNIT2 / 2;
    let raised: i128 = half + wide_product(n, amplitude);
    let lifted: i128 = if raised < 0 {
        0
    } else if raised > UNIT2 {
        UNIT2
    } else {
        raised
    };
    let offset: i64 = (lifted - half) as i64;
    let turned: i128 = wide_product(offset, contrast) + half * (UNIT as i128);
    let spread: i128 = if turned < 0 {
        0
    } else if turned > UNIT3 {
        UNIT3
    } else {
        turned
    };
    let v: i128 = (2 * 255 * spread + UNIT3) / (2 * UNIT3);
    v as u8
}

/// Luminance of one cell over a source image.
pub fn image_level(source: u8, n: i64, amplitude: i64) -> (v: u8)
    ensures
        v == image_level_spec(source, n as int, amplitude as int),
{
    let push: i128 = wide_product(n, amplitude);
    let bounded: i128 = if push < -UNIT2 {
        -UNIT2
    } else if push > UNIT2 {
        UNIT2
    } else {
        push
    };
    let raised: i128 = (source as i128) * UNIT2 + 255 * bounded;
    let lifted: i128 = if raised < 0 {
        0
    } else if raised > 255 * UNIT2 {
        255 * UNIT2
    } else {
        raised
    };
    let v: i128 = (2 * lifted + UNIT2) / (2 * UNIT2);
    v as u8
}

/// The synthetic base field under the given noise values, one per cell.
pub fn generate_procedural(
    params: &FieldParams,
    contrast: i64,
    width: u32,
    height: u32,
    noise: &Vec<i64>,
) -> (r: Option<LuminanceGrid>)
    ensures
        r is Some <==> noise@.len() == width * height,
        r matches Some(g) ==> {
            &&& g.wf()
            &&& g.cols() == width
            &&& g.rows() == height
            &&& g@ == procedural_field(noise@, params.amplitude as int, contrast as int)
        },
{
    if (noise.len() as u64) != cell_count(width, height) {
        return None;
    }
    let mut cells: Vec<u8> = Vec::new();
    let mut i: usize = 0;
    while i < noise.len()
        invariant
            i <= noise@.len(),
            cells@.len() == i,
            forall|k: int|
                0 <= k < i ==> cells@[k] == procedural_level_spec(
                    noise@[k] as int,
                    params.amplitude as int,
                    contrast as int,
                ),
        decreases noise@.len() - i,
    {
        cells.push(procedural_level(noise[i], params.amplitude, contrast));
        i = i + 1;
    }
    assert(cells@ =~= procedural_field(noise@, params.amplitude as int, contrast as int));
    LuminanceGrid::new(width, height, cells)
}

/// The base field over a source image under the given noise values, one
/// per cell.
pub fn generate_image_driven(params: &FieldParams, source: &LuminanceGrid, noise: &Vec<i64>) -> (r:
    Option<LuminanceGrid>)
    requires
        source.wf(),
    ensures
        r is Some <==> noise@.len() == source@.len(),
        r matches Some(g) ==> {
            &&& g.wf()
            &&& g.cols() == source.cols()
            &&& g.rows() == source.rows()
            &&& g@ == image_field(source@, noise@, params.amplitude as int)
        },
{
    let from: &Vec<u8> = source.cells();
    if noise.len() != from.len() {
        return None;
    }
    let mut cells: Vec<u8> = Vec::new();
    let mut i: usize = 0;
    while i < noise.len()
        invariant
            i <= noise@.len(),
            noise@.len() == from@.len(),
            cells@.len() == i,
            forall|k: int|
                0 <= k < i ==> cells@[k] == image_level_spec(
                    from@[k],
                    noise@[k] as int,
                    params.amplitude as int,
                ),
        decreases noise@.len() - i,
    {
        cells.push(image_level(from[i], noise[i], params.amplitude));
        i = i + 1;
    }
    assert(cells@ =~= image_field(source@, noise@, params.amplitude as int));
    LuminanceGrid::new(source.width(), source.height(), cells)
}

} // verus!
