use vstd::prelude::*;

verus! {

/// In a row-major grid of `w` columns and `h` rows, the cell `(x, y)` has
/// its own place before the end.
pub proof fn lemma_cell_index(x: int, y: int, w: int, h: int)
    requires
        0 <= x < w,
        0 <= y < h,
    ensures
        0 <= y * w + x < w * h,
        (y * w + x) / w == y,
        (y * w + x) % w == x,
{
    assert(y * w + w <= h * w && 0 <= y * w && h * w == w * h) by (nonlinear_arith)
        requires
            0 <= y < h,
            0 < w,
    ;
    vstd::arithmetic::div_mod::lemma_fundamental_div_mod_converse(y * w + x, w, y, x);
}

/// Each place `i` of a row-major grid is the place of the cell in column
/// `i % w` of row `i / w`.
pub proof fn lemma_cell_of_index(i: int, w: int, h: int)
    requires
        0 <= i < w * h,
        0 <= h,
        0 <= w,
    ensures
        0 <= i % w < w,
        0 <= i / w < h,
        i == (i / w) * w + i % w,
{
    assert(w > 0) by (nonlinear_arith)
        requires
            0 <= i < w * h,
            0 <= w,
    ;
    vstd::arithmetic::div_mod::lemma_fundamental_div_mod(i, w);
    vstd::arithmetic::div_mod::lemma_mod_bound(i, w);
    let q: int = i / w;
    assert(q * w == w * q) by (nonlinear_arith);
    assert(0 <= q < h) by (nonlinear_arith)
        requires
            0 <= i < w * h,
            i == w * q + i % w,
            0 <= i % w < w,
            0 < w,
    ;
}

/// Number of cells of a grid of the given extent.
pub fn cell_count(width: u32, height: u32) -> (n: u64)
    ensures
        n == width * height,
{
    assert(0 <= width as int * height as int <= 0xffff_ffff * 0xffff_ffff) by (nonlinear_arith)
        requires
            0 <= width as int <= 0xffff_ffff,
            0 <= height as int <= 0xffff_ffff,
    ;
    (width as u64) * (height as u64)
}

/// A rectangle of luminance values in `[0, 255]`, stored row by row.
#[derive(Clone, Debug)]
pub struct LuminanceGrid {
    width: u32,
    height: u32,
    cells: Vec<u8>,
}

impl View for LuminanceGrid {
    type V = Seq<u8>;

    /// The cells, row by row.
    closed spec fn view(&self) -> Seq<u8> {
        self.cells@
    }
}

impl LuminanceGrid {
    /// Number of columns.
    pub closed spec fn cols(&self) -> nat {
        self.width as nat
    }

    /// Number of rows.
    pub closed spec fn rows(&self) -> nat {
        self.height as nat
    }

    /// There is one cell per column of each row.
    pub open spec fn wf(&self) -> bool {
        self@.len() == self.cols() * self.rows()
    }

    /// The cell in column `x` of row `y`.
    pub open spec fn at(&self, x: int, y: int) -> u8 {
        self@[y * self.cols() + x]
    }

    /// A grid of the given extent over `cells`, if there is one cell per
    /// column of each row.
    pub fn new(width: u32, height: u32, cells: Vec<u8>) -> (r: Option<LuminanceGrid>)
        ensures
            r is Some <==> cells@.len() == width * height,
            r matches Some(g) ==> g.wf() && g.cols() == width && g.rows() == height && g@
                == cells@,
    {
        let n: u64 = cell_count(width, height);
        if (cells.len() as u64) == n {
            Some(LuminanceGrid { width, height, cells })
        } else {
            None
        }
    }

    /// A grid in which every cell holds `value`.
    pub fn filled(width: u32, height: u32, value: u8) -> (r: Option<LuminanceGrid>)
        ensures
            r is Some <==> width * height <= usize::MAX,
            r matches Some(g) ==> g.wf() && g.cols() == width && g.rows() == height && (forall|
                i: int,
            | 0 <= i < g@.len() ==> g@[i] == value),
    {
        let n: u64 = cell_count(width, height);
        if n > usize::MAX as u64 {
            return None;
        }
        let mut cells: Vec<u8> = Vec::new();
        let mut i: u64 = 0;
        while i < n
            invariant
                i <= n,
                cells@.len() == i,
                forall|k: int| 0 <= k < i ==> cells@[k] == value,
            decreases n - i,
        {
            cells.push(value);
            i = i + 1;
        }
        Some(LuminanceGrid { width, height, cells })
    }

    /// Number of columns.
    pub fn width(&self) -> (w: u32)
        ensures
            w == self.cols(),
    {
        self.width
    }

    /// Number of rows.
    pub fn height(&self) -> (h: u32)
        ensures
            h == self.rows(),
    {
        self.height
    }

    /// The cell in column `x` of row `y`.
    pub fn get(&self, x: u32, y: u32) -> (v: u8)
        requires
            self.wf(),
            x < self.cols(),
            y < self.rows(),
        ensures
            v == self.at(x as int, y as int),
    {
        let len: usize = self.cells.len();
        proof {
            lemma_cell_index(x as int, y as int, self.width as int, self.height as int);
            assert(0 <= y as int * self.width as int) by (nonlinear_arith);
            assert(len == self.width as int * self.height as int);
        }
        let i: usize = (y as usize) * (self.width as usize) + (x as usize);
        self.cells[i]
    }

    /// The cells, row by row.
    pub fn cells(&self) -> (c: &Vec<u8>)
        ensures
            c@ == self@,
    {
        &self.cells
    }

    /// Gives up the grid for its cells.
    pub fn into_cells(self) -> (c: Vec<u8>)
        ensures
            c@ == self@,
    {
        self.cells
    }
}

} // verus!
