use vstd::prelude::*;
use crate::field::NoisePoint;
use crate::fixed::{clamp, saturate, saturate_wide, scale_time, scaled, wide_product};
use crate::fixed::UNIT2;
use crate::grid::{lemma_cell_index, lemma_cell_of_index, LuminanceGrid};

verus! {

/// What shapes the flow that displaces the base field, each in millionths.
#[derive(Clone, Copy, Debug, PartialEq, Eq, Structural)]
pub struct FlowParams {
    /// Noise units per cell, along both axes.
    pub freq: i64,
    /// Noise units per second of simulated time.
    pub speed: i64,
    /// Cells by which a noise value of one displaces.
    pub amplitude: i64,
    /// Noise units per second by which the flow drifts along `x`.
    pub drift_x: i64,
    /// Noise units per second by which the flow drifts along `y`.
    pub drift_y: i64,
}

impl FlowParams {
    /// The flow of the synthetic variant: wide, slow and drifting.
    pub open spec fn spec_procedural() -> FlowParams {
        FlowParams {
            freq: 20_000,
            speed: 100_000,
            amplitude: 5_000_000,
            drift_x: 350_000,
            drift_y: 150_000,
        }
    }

    /// The flow of the synthetic variant: wide, slow and drifting.
    #[verifier::when_used_as_spec(spec_procedural)]
    pub fn procedural() -> (p: FlowParams)
        ensures
            p == Self::spec_procedural(),
    {
        FlowParams {
            freq: 20_000,
            speed: 100_000,
            amplitude: 5_000_000,
            drift_x: 350_000,
            drift_y: 150_000,
        }
    }

    /// The flow laid over a source image: tight, quick and in place.
    pub open spec fn spec_image_driven() -> FlowParams {
        FlowParams {
            freq: 135_000,
            speed: 1_500_000,
            amplitude: 2_000_000,
            drift_x: 0,
            drift_y: 0,
        }
    }

    /// The flow laid over a source image: tight, quick and in place.
    #[verifier::when_used_as_spec(spec_image_driven)]
    pub fn image_driven() -> (p: FlowParams)
        ensures
            p == Self::spec_image_driven(),
    {
        FlowParams { freq: 135_000, speed: 1_500_000, amplitude: 2_000_000, drift_x: 0, drift_y: 0 }
    }
}

/// Distance along `x`, in millionths, between the two channels of the flow.
pub const CHANNEL_OFFSET_X: i64 = 19_700_000;

/// Distance along `y`, in millionths, between the two channels of the flow.
pub const CHANNEL_OFFSET_Y: i64 = -31_300_000;

/// Where the noise is read for the displacement along `x` of the cell
/// `(x, y)` at the time `t`, in microseconds.
pub open spec fn flow_point_x_spec(params: FlowParams, x: u32, y: u32, t: u64) -> NoisePoint {
    NoisePoint {
        x: saturate(x * params.freq + scaled(t as int, params.drift_x as int)),
        y: saturate(y * params.freq + scaled(t as int, params.drift_y as int)),
        z: saturate(scaled(t as int, params.speed as int)),
    }
}

/// Where the noise is read for the displacement along `y`: the point of
/// the other channel, moved by the channel offsets.
pub open spec fn flow_point_y_spec(params: FlowParams, x: u32, y: u32, t: u64) -> NoisePoint {
    NoisePoint {
        x: saturate(
            x * params.freq + CHANNEL_OFFSET_X as int + scaled(t as int, params.drift_x as int),
        ),
        y: saturate(
            y * params.freq + CHANNEL_OFFSET_Y as int + scaled(t as int, params.drift_y as int),
        ),
        z: saturate(scaled(t as int, params.speed as int)),
    }
}

/// The points of the channel along `x` for a whole grid, row by row.
pub open spec fn flow_plan_x(params: FlowParams, width: u32, height: u32, t: u64) -> Seq<
    NoisePoint,
> {
    Seq::new(
        (width * height) as nat,
        |i: int|
            flow_point_x_spec(params, (i % width as int) as u32, (i / width as int) as u32, t),
    )
}

/// The points of the channel along `y` for a whole grid, row by row.
pub open spec fn flow_plan_y(params: FlowParams, width: u32, height: u32, t: u64) -> Seq<
    NoisePoint,
> {
    Seq::new(
        (width * height) as nat,
        |i: int|
            flow_point_y_spec(params, (i % width as int) as u32, (i / width as int) as u32, t),
    )
}

/// The coordinate that is read in place of `x` under the displacement
/// `amplitude * d`: their sum, rounded to the nearest cell and kept on the
/// grid, whose cells along this axis are `0` to `extent - 1`.
pub open spec fn warp_coordinate_spec(x: int, d: int, amplitude: int, extent: int) -> int {
    clamp((2 * (x * (UNIT2 as int) + d * amplitude) + UNIT2 as int) / (2 * (UNIT2 as int)), 0, extent - 1)
}

/// No displacement, however large, leads off the grid.
pub proof fn warp_coordinate_in_bounds(x: int, d: int, amplitude: int, extent: int)
    requires
        extent > 0,
    ensures
        0 <= warp_coordinate_spec(x, d, amplitude, extent) < extent,
{
}

/// A cell that is not displaced is read where it lies.
pub proof fn warp_coordinate_at_rest(x: int, d: int, amplitude: int, extent: int)
    requires
        0 <= x < extent,
        d == 0 || amplitude == 0,
    ensures
        warp_coordinate_spec(x, d, amplitude, extent) == x,
{
    assert(d * amplitude == 0) by (nonlinear_arith)
        requires
            d == 0 || amplitude == 0,
    ;
    assert(UNIT2 as int == 1_000_000_000_000);
    assert((2 * (x * 1_000_000_000_000 + 0) + 1_000_000_000_000) / 2_000_000_000_000 == x);
}

/// The base field read through the flow: each cell takes the value of the
/// cell that its displaced position names.
pub open spec fn resampled(
    base: Seq<u8>,
    width: nat,
    height: nat,
    flow_x: Seq<i64>,
    flow_y: Seq<i64>,
    amplitude: int,
) -> Seq<u8> {
    Seq::new(
        width * height,
        |i: int| base[source_index(i, width, height, flow_x, flow_y, amplitude)],
    )
}

/// Place in the base field that the cell at place `i` is read from.
pub open spec fn source_index(
    i: int,
    width: nat,
    height: nat,
    flow_x: Seq<i64>,
    flow_y: Seq<i64>,
    amplitude: int,
) -> int {
    warp_coordinate_spec(i / width as int, flow_y[i] as int, amplitude, height as int) * width
        + warp_coordinate_spec(i % width as int, flow_x[i] as int, amplitude, width as int)
}

/// Whatever the flow holds, every cell is read from a cell of the grid.
pub proof fn resampled_reads_within_grid(
    i: int,
    width: nat,
    height: nat,
    flow_x: Seq<i64>,
    flow_y: Seq<i64>,
    amplitude: int,
)
    requires
        0 <= i < width * height,
    ensures
        0 <= source_index(i, width, height, flow_x, flow_y, amplitude) < width * height,
        0 <= warp_coordinate_spec(i % width as int, flow_x[i] as int, amplitude, width as int)
            < width,
        0 <= warp_coordinate_spec(i / width as int, flow_y[i] as int, amplitude, height as int)
            < height,
{
    lemma_cell_of_index(i, width as int, height as int);
    let x: int = warp_coordinate_spec(i % width as int, flow_x[i] as int, amplitude, width as int);
    let y: int = warp_coordinate_spec(
        i / width as int,
        flow_y[i] as int,
        amplitude,
        height as int,
    );
    warp_coordinate_in_bounds(i % width as int, flow_x[i] as int, amplitude, width as int);
    warp_coordinate_in_bounds(i / width as int, flow_y[i] as int, amplitude, height as int);
    lemma_cell_index(x, y, width as int, height as int);
}

/// A base field of one value is left as it is by every flow.
pub proof fn resampled_of_constant(
    base: Seq<u8>,
    value: u8,
    width: nat,
    height: nat,
    flow_x: Seq<i64>,
    flow_y: Seq<i64>,
    amplitude: int,
)
    requires
        base.len() == width * height,
        forall|i: int| 0 <= i < base.len() ==> base[i] == value,
    ensures
        resampled(base, width, height, flow_x, flow_y, amplitude) == base,
{
    let out: Seq<u8> = resampled(base, width, height, flow_x, flow_y, amplitude);
    assert forall|i: int| 0 <= i < out.len() implies out[i] == base[i] by {
        resampled_reads_within_grid(i, width, height, flow_x, flow_y, amplitude);
    }
    assert(out =~= base);
}

/// A flow that displaces nothing gives the base field back.
pub proof fn resampled_at_rest(
    base: Seq<u8>,
    width: nat,
    height: nat,
    flow_x: Seq<i64>,
    flow_y: Seq<i64>,
    amplitude: int,
)
    requires
        base.len() == width * height,
        amplitude == 0 || forall|i: int|
            0 <= i < width * height ==> flow_x[i] == 0 && flow_y[i] == 0,
    ensures
        resampled(base, width, height, flow_x, flow_y, amplitude) == base,
{
    let out: Seq<u8> = resampled(base, width, height, flow_x, flow_y, amplitude);
    assert forall|i: int| 0 <= i < out.len() implies out[i] == base[i] by {
        lemma_cell_of_index(i, width as int, height as int);
        warp_coordinate_at_rest(i % width as int, flow_x[i] as int, amplitude, width as int);
        warp_coordinate_at_rest(i / width as int, flow_y[i] as int, amplitude, height as int);
    }
    assert(out =~= base);
}

/// The two points at which the noise is read for the displacement of one
/// cell: first along `x`, then along `y`.
pub fn flow_points(params: &FlowParams, x: u32, y: u32, t: u64) -> (p: (NoisePoint, NoisePoint))
    ensures
        p.0 == flow_point_x_spec(*params, x, y, t),
        p.1 == flow_point_y_spec(*params, x, y, t),
{
    let along_x: i128 = wide_product(x as i64, params.freq);
    let along_y: i128 = wide_product(y as i64, params.freq);
    let drift_x: i128 = scale_time(t, params.drift_x);
    let drift_y: i128 = scale_time(t, params.drift_y);
    let z: i64 = saturate_wide(scale_time(t, params.speed));
    (
        NoisePoint { x: saturate_wide(along_x + drift_x), y: saturate_wide(along_y + drift_y), z },
        NoisePoint {
            x: saturate_wide(along_x + CHANNEL_OFFSET_X as i128 + drift_x),
            y: saturate_wide(along_y + CHANNEL_OFFSET_Y as i128 + drift_y),
            z,
        },
    )
}

/// The points at which the noise is read for the displacement of every
/// cell of a grid, row by row: first the channel along `x`, then the one
/// along `y`.
pub fn flow_plans(params: &FlowParams, width: u32, height: u32, t: u64) -> (plans: (
    Vec<NoisePoint>,
    Vec<NoisePoint>,
))
    ensures
        plans.0@ == flow_plan_x(*params, width, height, t),
        plans.1@ == flow_plan_y(*params, width, height, t),
{
    let mut first: Vec<NoisePoint> = Vec::new();
    let mut second: Vec<NoisePoint> = Vec::new();
    let mut y: u32 = 0;
    while y < height
        invariant
            y <= height,
            first@.len() == y * width,
            second@.len() == y * width,
            forall|i: int|
                0 <= i < first@.len() ==> first@[i] == flow_plan_x(*params, width, height, t)[i]
                    && second@[i] == flow_plan_y(*params, width, height, t)[i],
        decreases height - y,
    {
        let mut x: u32 = 0;
        while x < width
            invariant
                y < height,
                x <= width,
                first@.len() == y * width + x,
                second@.len() == y * width + x,
                forall|i: int|
                    0 <= i < first@.len() ==> first@[i] == flow_plan_x(*params, width, height, t)[i]
                        && second@[i] == flow_plan_y(*params, width, height, t)[i],
            decreases width - x,
        {
            proof {
                lemma_cell_index(x as int, y as int, width as int, height as int);
            }
            let points: (NoisePoint, NoisePoint) = flow_points(params, x, y, t);
            first.push(points.0);
            second.push(points.1);
            x = x + 1;
        }
        proof {
            assert((y + 1) * width == y * width + width) by (nonlinear_arith);
        }
        y = y + 1;
    }
    proof {
        assert(first@.len() == width * height) by (nonlinear_arith)
            requires
                first@.len() == y * width,
                y == height,
        ;
        assert(first@ =~= flow_plan_x(*params, width, height, t));
        assert(second@ =~= flow_plan_y(*params, width, height, t));
    }
    (first, second)
}

/// The coordinate that is read in place of `x` under a displacement.
pub fn warp_coordinate(x: u32, d: i64, amplitude: i64, extent: u32) -> (r: u32)
    requires
        extent > 0,
    ensures
        r == warp_coordinate_spec(x as int, d as int, amplitude as int, extent as int),
        r < extent,
{
    let place: i128 = (x as i128) * UNIT2 + wide_product(d, amplitude);
    if place < 0 {
        0
    } else if place >= (extent as i128) * UNIT2 {
        extent - 1
    } else {
        let nearest: i128 = (2 * place + UNIT2) / (2 * UNIT2);
        if nearest >= extent as i128 {
            extent - 1
        } else {
            nearest as u32
        }
    }
}

/// Reads the base field through the flow whose two channels are given, one
/// value per cell each.
pub fn resample(base: &LuminanceGrid, amplitude: i64, flow_x: &Vec<i64>, flow_y: &Vec<i64>) -> (r:
    Option<LuminanceGrid>)
    requires
        base.wf(),
    ensures
        r is Some <==> flow_x@.len() == base@.len() && flow_y@.len() == base@.len(),
        r matches Some(g) ==> {
            &&& g.wf()
            &&& g.cols() == base.cols()
            &&& g.rows() == base.rows()
            &&& g@ == resampled(
                base@,
                base.cols(),
                base.rows(),
                flow_x@,
                flow_y@,
                amplitude as int,
            )
        },
{
    let width: u32 = base.width();
    let height: u32 = base.height();
    let count: usize = base.cells().len();
    if flow_x.len() != count || flow_y.len() != count {
        return None;
    }
    let mut cells: Vec<u8> = Vec::new();
    let mut y: u32 = 0;
    while y < height
        invariant
            base.wf(),
            width == base.cols(),
            height == base.rows(),
            flow_x@.len() == width * height,
            flow_y@.len() == width * height,
            width * height <= usize::MAX,
            y <= height,
            cells@.len() == y * width,
            forall|i: int|
                0 <= i < cells@.len() ==> cells@[i] == resampled(
                    base@,
                    width as nat,
                    height as nat,
                    flow_x@,
                    flow_y@,
                    amplitude as int,
                )[i],
        decreases height - y,
    {
        let mut x: u32 = 0;
        while x < width
            invariant
                base.wf(),
                width == base.cols(),
                height == base.rows(),
                flow_x@.len() == width * height,
                flow_y@.len() == width * height,
                width * height <= usize::MAX,
                y < height,
                x <= width,
                cells@.len() == y * width + x,
                forall|i: int|
                    0 <= i < cells@.len() ==> cells@[i] == resampled(
                        base@,
                        width as nat,
                        height as nat,
                        flow_x@,
                        flow_y@,
                        amplitude as int,
                    )[i],
            decreases width - x,
        {
            proof {
                lemma_cell_index(x as int, y as int, width as int, height as int);
            }
            let i: usize = cells.len();
            let from_x: u32 = warp_coordinate(x, flow_x[i], amplitude, width);
            let from_y: u32 = warp_coordinate(y, flow_y[i], amplitude, height);
            cells.push(base.get(from_x, from_y));
            x = x + 1;
        }
        proof {
            assert((y + 1) * width == y * width + width) by (nonlinear_arith);
        }
        y = y + 1;
    }
    proof {
        assert(cells@.len() == width * height) by (nonlinear_arith)
            requires
                cells@.len() == y * width,
                y == height,
        ;
        assert(cells@ =~= resampled(
            base@,
            width as nat,
            height as nat,
            flow_x@,
            flow_y@,
            amplitude as int,
        ));
    }
    LuminanceGrid::new(width, height, cells)
}

} // verus!
