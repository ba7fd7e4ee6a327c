use vstd::prelude::*;
use crate::fixed::UNIT;
use crate::grid::{cell_count, LuminanceGrid};

verus! {

/// Luminance of a colour with alpha, laid over black: the weighted sum
/// `0.2126 r + 0.7152 g + 0.0722 b`, times `a / 255`, rounded to nearest.
pub open spec fn luma_on_black_spec(r: u8, g: u8, b: u8, a: u8) -> int {
    (2 * ((2126 * r + 7152 * g + 722 * b) * a) + 2_550_000) / 5_100_000
}

/// The luminance of each pixel of an image given as bytes, four per pixel:
/// red, green, blue and alpha.
pub open spec fn gray_cells(rgba: Seq<u8>) -> Seq<u8> {
    Seq::new(
        (rgba.len() / 4) as nat,
        |i: int|
            luma_on_black_spec(rgba[4 * i], rgba[4 * i + 1], rgba[4 * i + 2], rgba[4 * i + 3]) as u8,
    )
}

/// The luminance of a colour is a luminance value; without alpha it is
/// black, and opaque white is full white.
pub proof fn luma_on_black_range(r: u8, g: u8, b: u8, a: u8)
    ensures
        0 <= luma_on_black_spec(r, g, b, a) <= 255,
        luma_on_black_spec(r, g, b, 0) == 0,
        luma_on_black_spec(255, 255, 255, 255) == 255,
        luma_on_black_spec(0, 0, 0, a) == 0,
{
    let weighted: int = 2126 * r + 7152 * g + 722 * b;
    assert(0 <= weighted * a <= 650_250_000) by (nonlinear_arith)
        requires
            0 <= weighted <= 2_550_000,
            0 <= a <= 255,
    ;
    assert(weighted * 0 == 0) by (nonlinear_arith);
    assert(0 * (a as int) == 0) by (nonlinear_arith);
}

/// Luminance of one pixel over black.
pub fn luma_on_black(r: u8, g: u8, b: u8, a: u8) -> (v: u8)
    ensures
        v == luma_on_black_spec(r, g, b, a),
{
    let weighted: u64 = 2126 * (r as u64) + 7152 * (g as u64) + 722 * (b as u64);
    assert(0 <= weighted * a <= 650_250_000) by (nonlinear_arith)
        requires
            0 <= weighted <= 2_550_000,
            0 <= a <= 255,
    ;
    let v: u64 = (2 * (weighted * (a as u64)) + 2_550_000) / 5_100_000;
    v as u8
}

/// Turns an image of `width` by `height` pixels, given as bytes in the
/// order red, green, blue, alpha and row by row, into its luminance over
/// black. There is a grid exactly when there are four bytes per pixel.
pub fn rgba_to_gray_using_alpha(width: u32, height: u32, rgba: &Vec<u8>) -> (r: Option<
    LuminanceGrid,
>)
    ensures
        r is Some <==> rgba@.len() == 4 * (width * height),
        r matches Some(g) ==> g.wf() && g.cols() == width && g.rows() == height && g@
            == gray_cells(rgba@),
{
    let total: usize = rgba.len();
    let count: usize = total / 4;
    if total % 4 != 0 || (count as u64) != cell_count(width, height) {
        return None;
    }
    let mut cells: Vec<u8> = Vec::new();
    let mut i: usize = 0;
    while i < count
        invariant
            i <= count,
            rgba@.len() == total,
            total == 4 * count,
            cells@.len() == i,
            forall|k: int| 0 <= k < i ==> cells@[k] == gray_cells(rgba@)[k],
        decreases count - i,
    {
        let at: usize = 4 * i;
        proof {
            luma_on_black_range(rgba@[4 * i], rgba@[4 * i + 1], rgba@[4 * i + 2], rgba@[4 * i + 3]);
        }
        cells.push(luma_on_black(rgba[at], rgba[at + 1], rgba[at + 2], rgba[at + 3]));
        i = i + 1;
    }
    assert(cells@ =~= gray_cells(rgba@));
    LuminanceGrid::new(width, height, cells)
}

/// An extent after aspect correction by `aspect` millionths: their
/// product, rounded to nearest, and at least one.
pub open spec fn corrected_extent_spec(extent: u32, aspect: u32) -> int {
    let scaled: int = (2 * (extent * aspect) + UNIT as int) / (2 * (UNIT as int));
    if scaled < 1 {
        1
    } else if scaled > u32::MAX {
        u32::MAX as int
    } else {
        scaled
    }
}

/// An extent after reduction by the whole factor `factor`: their quotient,
/// rounded down, and at least one.
pub open spec fn reduced_extent_spec(extent: u32, factor: u32) -> int {
    if extent / factor < 1 {
        1
    } else {
        (extent / factor) as int
    }
}

/// Corrects an extent by an aspect given in millionths.
pub fn corrected_extent(extent: u32, aspect: u32) -> (r: u32)
    ensures
        r == corrected_extent_spec(extent, aspect),
        r >= 1,
{
    assert(0 <= extent as int * aspect as int <= 0xffff_ffff * 0xffff_ffff) by (nonlinear_arith)
        requires
            0 <= extent as int <= 0xffff_ffff,
            0 <= aspect as int <= 0xffff_ffff,
    ;
    let product: u128 = (extent as u128) * (aspect as u128);
    let scaled: u128 = (2 * product + 1_000_000) / 2_000_000;
    if scaled < 1 {
        1
    } else if scaled > u32::MAX as u128 {
        u32::MAX
    } else {
        scaled as u32
    }
}

/// Reduces an extent by a whole factor.
pub fn reduced_extent(extent: u32, factor: u32) -> (r: u32)
    requires
        factor > 0,
    ensures
        r == reduced_extent_spec(extent, factor),
        r >= 1,
{
    let q: u32 = extent / factor;
    if q < 1 {
        1
    } else {
        q
    }
}

/// Greatest extent, along either axis, of an image that is resized here.
pub const MAX_EXTENT: u32 = 65_535;

/// The cells of an image of `width` by `height` cells after resizing to
/// `new_width` by `new_height` with the triangle filter.
pub uninterp spec fn triangle_resized(
    cells: Seq<u8>,
    width: nat,
    height: nat,
    new_width: nat,
    new_height: nat,
) -> Seq<u8>;

/// `image::imageops::resize` with `FilterType::Triangle`, on a
/// single-channel image of 8-bit samples.
///
/// The contract claims that the result is a function of the cells and the
/// four extents, that it holds one cell per column of each new row, and
/// that resizing to the extent the image already has copies it. The extents
/// are bounded so that the filter's weights, computed in single precision,
/// stay exact enough to sum to a positive value.
#[verifier::external_body]
fn resize_triangle(cells: &Vec<u8>, width: u32, height: u32, new_width: u32, new_height: u32) -> (out:
    Vec<u8>)
    requires
        cells@.len() == width * height,
        width <= MAX_EXTENT,
        height <= MAX_EXTENT,
        new_width <= MAX_EXTENT,
        new_height <= MAX_EXTENT,
    ensures
        out@ == triangle_resized(
            cells@,
            width as nat,
            height as nat,
            new_width as nat,
            new_height as nat,
        ),
        out@.len() == new_width * new_height,
        new_width == width && new_height == height ==> out@ == cells@,
{
    let gray = image::GrayImage::from_raw(width, height, cells.clone()).unwrap();
    image::imageops::resize(&gray, new_width, new_height, image::imageops::FilterType::Triangle)
        .into_raw()
}

/// Resizes a grid with the triangle filter. There is a result exactly when
/// no extent, old or new, is above [`MAX_EXTENT`].
pub fn resize_grid(gray: &LuminanceGrid, new_width: u32, new_height: u32) -> (r: Option<
    LuminanceGrid,
>)
    requires
        gray.wf(),
    ensures
        r is Some <==> gray.cols() <= MAX_EXTENT && gray.rows() <= MAX_EXTENT && new_width
            <= MAX_EXTENT && new_height <= MAX_EXTENT,
        r matches Some(g) ==> {
            &&& g.wf()
            &&& g.cols() == new_width
            &&& g.rows() == new_height
            &&& g@ == triangle_resized(
                gray@,
                gray.cols(),
                gray.rows(),
                new_width as nat,
                new_height as nat,
            )
            &&& new_width == gray.cols() && new_height == gray.rows() ==> g@ == gray@
        },
{
    let width: u32 = gray.width();
    let height: u32 = gray.height();
    if width > MAX_EXTENT || height > MAX_EXTENT || new_width > MAX_EXTENT || new_height
        > MAX_EXTENT {
        return None;
    }
    let cells: Vec<u8> = resize_triangle(gray.cells(), width, height, new_width, new_height);
    LuminanceGrid::new(new_width, new_height, cells)
}

/// Prepares a source image for animation: its width is corrected by
/// `aspect` millionths, both extents are reduced by `factor`, and the
/// image is resized to that extent with the triangle filter.
///
/// There is a result exactly when `factor` is not zero and no extent, old
/// or new, is above [`MAX_EXTENT`].
pub fn prepare_source(gray: &LuminanceGrid, aspect: u32, factor: u32) -> (r: Option<LuminanceGrid>)
    requires
        gray.wf(),
    ensures
        r is Some <==> {
            &&& factor > 0
            &&& gray.cols() <= MAX_EXTENT
            &&& gray.rows() <= MAX_EXTENT
            &&& reduced_extent_spec(
                corrected_extent_spec(gray.cols() as u32, aspect) as u32,
                factor,
            ) <= MAX_EXTENT
        },
        r matches Some(g) ==> {
            &&& g.wf()
            &&& g.cols() == reduced_extent_spec(
                corrected_extent_spec(gray.cols() as u32, aspect) as u32,
                factor,
            )
            &&& g.rows() == reduced_extent_spec(gray.rows() as u32, factor)
            &&& g@ == triangle_resized(gray@, gray.cols(), gray.rows(), g.cols(), g.rows())
        },
{
    if factor == 0 {
        return None;
    }
    let new_width: u32 = reduced_extent(corrected_extent(gray.width(), aspect), factor);
    let new_height: u32 = reduced_extent(gray.height(), factor);
    resize_grid(gray, new_width, new_height)
}

} // verus!
