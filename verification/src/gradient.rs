use vstd::prelude::*;
use crate::numfmt::dec_seq;
use crate::numfmt::dec_u64;

verus! {

/// Linear interpolation between channel values `a` and `b` at step `i` of
/// `d`, floored.
pub open spec fn lerp_spec(a: int, b: int, i: int, d: int) -> int {
    if b >= a {
        a + (b - a) * i / d
    } else {
        a - (a - b) * i / d
    }
}

/// Interpolation denominator for a fill of `filled` cells: the last cell
/// index, lifted to 1 so a one-cell fill never divides by zero.
pub open spec fn denom_spec(filled: int) -> int {
    if filled <= 1 {
        1
    } else {
        filled - 1
    }
}

/// Truecolor escape code selecting the foreground `(r, g, b)`.
pub open spec fn rgb_code_spec(r: int, g: int, b: int) -> Seq<char> {
    "\x1b[38;2;"@ + dec_seq(r) + ";"@ + dec_seq(g) + ";"@ + dec_seq(b) + "m"@
}

/// Channel value interpolated between `a` and `b` at step `i` of `d`.
pub fn lerp(a: u8, b: u8, i: usize, d: usize) -> (r: u8)
    requires
        1 <= d,
        i <= d,
    ensures
        r == lerp_spec(a as int, b as int, i as int, d as int),
        i == 0 ==> r == a,
        i == d ==> r == b,
{
    proof {
        let span: int = if b >= a { b - a } else { a - b };
        let ii: int = i as int;
        let dd: int = d as int;
        assert(0 <= span * ii / dd <= span) by (nonlinear_arith)
            requires 0 <= span, 0 <= ii <= dd, 1 <= dd;
        assert(span * dd / dd == span) by (nonlinear_arith)
            requires 1 <= dd;
        assert(span * 0 / dd == 0) by (nonlinear_arith)
            requires 1 <= dd;
        assert(span * ii <= 255 * (usize::MAX as int)) by (nonlinear_arith)
            requires 0 <= span <= 255, 0 <= ii <= usize::MAX as int;
    }
    if b >= a {
        let step: u128 = ((b - a) as u128) * (i as u128) / (d as u128);
        a + (step as u8)
    } else {
        let step: u128 = ((a - b) as u128) * (i as u128) / (d as u128);
        a - (step as u8)
    }
}

/// Color of filled cell `i` when `filled` cells are drawn with a gradient
/// from `from` to `to`: each channel is interpolated at `t = i / (filled-1)`,
/// so cell 0 is exactly the start color and the last cell exactly the end.
pub fn cell_color(from: (u8, u8, u8), to: (u8, u8, u8), i: usize, filled: usize) -> (c: (
    u8,
    u8,
    u8,
))
    requires
        i < filled || (i == 0 && filled == 0),
    ensures
        c.0 == lerp_spec(from.0 as int, to.0 as int, i as int, denom_spec(filled as int)),
        c.1 == lerp_spec(from.1 as int, to.1 as int, i as int, denom_spec(filled as int)),
        c.2 == lerp_spec(from.2 as int, to.2 as int, i as int, denom_spec(filled as int)),
        i == 0 ==> c == from,
{
    let d: usize = if filled <= 1 {
        1
    } else {
        filled - 1
    };
    let r = lerp(from.0, to.0, i, d);
    let g = lerp(from.1, to.1, i, d);
    let b = lerp(from.2, to.2, i, d);
    (r, g, b)
}

/// A channel triple widened to mathematical integers.
pub open spec fn triple_spec(c: (u8, u8, u8)) -> (int, int, int) {
    (c.0 as int, c.1 as int, c.2 as int)
}

/// The first `k` cells of a `filled`-cell gradient fill: each cell is its
/// interpolated truecolor code followed by the fill glyph.
pub open spec fn grad_seg_spec(
    f: (int, int, int),
    t: (int, int, int),
    glyph: Seq<char>,
    k: int,
    filled: int,
) -> Seq<char>
    decreases k,
{
    if k <= 0 {
        Seq::empty()
    } else {
        grad_seg_spec(f, t, glyph, k - 1, filled) + rgb_code_spec(
            lerp_spec(f.0, t.0, k - 1, denom_spec(filled)),
            lerp_spec(f.1, t.1, k - 1, denom_spec(filled)),
            lerp_spec(f.2, t.2, k - 1, denom_spec(filled)),
        ) + glyph
    }
}

/// The gradient-colored filled segment: `filled` glyphs, each preceded by
/// the truecolor code interpolated for its cell.
pub fn grad_seg(from: (u8, u8, u8), to: (u8, u8, u8), glyph: &str, filled: usize) -> (s: String)
    ensures
        s@ == grad_seg_spec(triple_spec(from), triple_spec(to), glyph@, filled as int,
            filled as int),
{
    let mut s = String::new();
    let mut i: usize = 0;
    while i < filled
        invariant
            i <= filled,
            s@ == grad_seg_spec(triple_spec(from), triple_spec(to), glyph@, i as int,
                filled as int),
        decreases filled - i,
    {
        let c = cell_color(from, to, i, filled);
        let code = rgb_code(c.0, c.1, c.2);
        s.append(code.as_str());
        s.append(glyph);
        proof {
            assert(s@ =~= grad_seg_spec(triple_spec(from), triple_spec(to), glyph@, i + 1,
                filled as int));
        }
        i = i + 1;
    }
    s
}

/// Truecolor escape code for the foreground `(r, g, b)`.
pub fn rgb_code(r: u8, g: u8, b: u8) -> (s: String)
    ensures
        s@ == rgb_code_spec(r as int, g as int, b as int),
{
    let mut s = String::new();
    s.append("\x1b[38;2;");
    let rs = dec_u64(r as u64);
    s.append(rs.as_str());
    s.append(";");
    let gs = dec_u64(g as u64);
    s.append(gs.as_str());
    s.append(";");
    let bs = dec_u64(b as u64);
    s.append(bs.as_str());
    s.append("m");
    s
}

} // verus!
