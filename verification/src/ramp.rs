use vstd::prelude::*;

verus! {

/// Position in a ramp of `len` glyphs of the luminance `value`:
/// `value / 255` of the way from the first glyph to the last, rounded down.
pub open spec fn ramp_index(value: u8, len: nat) -> int {
    (value as int * (len - 1)) / 255
}

/// An index is never past the end of the ramp: the quantizer is total.
pub proof fn ramp_index_in_bounds(value: u8, len: nat)
    requires
        len > 0,
    ensures
        0 <= ramp_index(value, len) < len,
{
    let n: int = len - 1;
    assert(0 <= value as int * n <= 255 * n) by (nonlinear_arith)
        requires
            0 <= value as int <= 255,
            0 <= n,
    ;
}

/// A brighter value never maps to an earlier glyph.
pub proof fn ramp_index_monotonic(low: u8, high: u8, len: nat)
    requires
        len > 0,
        low <= high,
    ensures
        ramp_index(low, len) <= ramp_index(high, len),
{
    let n: int = len - 1;
    assert(low as int * n <= high as int * n) by (nonlinear_arith)
        requires
            0 <= low as int <= high as int,
            0 <= n,
    ;
    vstd::arithmetic::div_mod::lemma_div_is_ordered(low as int * n, high as int * n, 255);
}

/// Black maps to the first glyph and full white to the last.
pub proof fn ramp_index_endpoints(len: nat)
    requires
        len > 0,
    ensures
        ramp_index(0u8, len) == 0,
        ramp_index(255u8, len) == len - 1,
{
    let n: int = len - 1;
    assert((255 * n) / 255 == n) by (nonlinear_arith);
}

/// The glyphs of the standard ramp, darkest first.
pub open spec fn standard_glyphs() -> Seq<char> {
    seq!['.', ':', '-', '=', '+', '*', '%', '#']
}

/// An ordered, non-empty sequence of glyphs, darkest first.
#[derive(Clone, Debug)]
pub struct GlyphRamp {
    glyphs: Vec<char>,
}

impl View for GlyphRamp {
    type V = Seq<char>;

    closed spec fn view(&self) -> Seq<char> {
        self.glyphs@
    }
}

impl GlyphRamp {
    /// A ramp holds at least one glyph.
    pub closed spec fn wf(&self) -> bool {
        self.glyphs@.len() > 0
    }

    /// Takes the glyphs as a ramp, darkest first; an empty sequence is no ramp.
    pub fn new(glyphs: Vec<char>) -> (r: Option<GlyphRamp>)
        ensures
            r is Some <==> glyphs@.len() > 0,
            r matches Some(ramp) ==> ramp.wf() && ramp@ == glyphs@,
    {
        if glyphs.len() == 0 {
            None
        } else {
            Some(GlyphRamp { glyphs })
        }
    }

    /// The ramp `.:-=+*%#`.
    pub fn standard() -> (r: GlyphRamp)
        ensures
            r.wf(),
            r@ == standard_glyphs(),
    {
        let mut glyphs: Vec<char> = Vec::new();
        glyphs.push('.');
        glyphs.push(':');
        glyphs.push('-');
        glyphs.push('=');
        glyphs.push('+');
        glyphs.push('*');
        glyphs.push('%');
        glyphs.push('#');
        assert(glyphs@ =~= standard_glyphs());
        GlyphRamp { glyphs }
    }

    /// Number of glyphs.
    pub fn len(&self) -> (n: usize)
        ensures
            n == self@.len(),
    {
        self.glyphs.len()
    }

    /// Position of the glyph for `value`.
    pub fn index_of(&self, value: u8) -> (i: usize)
        requires
            self.wf(),
        ensures
            i == ramp_index(value, self@.len()),
            i < self@.len(),
    {
        let n: usize = self.glyphs.len() - 1;
        let whole: usize = n / 255;
        let rest: usize = n % 255;
        proof {
            ramp_index_in_bounds(value, self@.len());
            assert(whole as int * value as int <= n as int) by (nonlinear_arith)
                requires
                    n as int == 255 * (whole as int) + rest as int,
                    0 <= rest as int,
                    0 <= value as int <= 255,
                    0 <= whole as int,
            ;
            assert(value as int * n as int == 255 * (whole as int * value as int) + rest as int
                * value as int) by (nonlinear_arith)
                requires
                    n as int == 255 * (whole as int) + rest as int,
            ;
            assert(0 <= rest as int * value as int <= 254 * 255) by (nonlinear_arith)
                requires
                    0 <= rest as int <= 254,
                    0 <= value as int <= 255,
            ;
            vstd::arithmetic::div_mod::lemma_fundamental_div_mod(
                rest as int * value as int,
                255,
            );
            vstd::arithmetic::div_mod::lemma_fundamental_div_mod_converse(
                value as int * n as int,
                255,
                whole as int * value as int + (rest as int * value as int) / 255,
                (rest as int * value as int) % 255,
            );
        }
        whole * (value as usize) + (rest * (value as usize)) / 255
    }

    /// The glyph for a luminance in `[0, 255]`.
    pub fn to_char(&self, value: u8) -> (c: char)
        requires
            self.wf(),
        ensures
            c == self@[ramp_index(value, self@.len())],
            self@.contains(c),
    {
        let i: usize = self.index_of(value);
        self.glyphs[i]
    }
}

/// The glyph of the standard ramp for a luminance in `[0, 255]`.
pub fn pixel_to_ascii(value: u8) -> (c: char)
    ensures
        c == standard_glyphs()[ramp_index(value, 8)],
        standard_glyphs().contains(c),
{
    let i: u32 = (value as u32 * 7) / 255;
    let c: char = if i == 0 {
        '.'
    } else if i == 1 {
        ':'
    } else if i == 2 {
        '-'
    } else if i == 3 {
        '='
    } else if i == 4 {
        '+'
    } else if i == 5 {
        '*'
    } else if i == 6 {
        '%'
    } else {
        '#'
    };
    assert(c == standard_glyphs()[i as int]);
    c
}

} // verus!
