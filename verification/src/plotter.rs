//! Track plotter helpers: map-tile URLs and the output file name.

use vstd::prelude::*;
use crate::receiver::camera::{push_decimal, signed_decimal, signed_decimal_string, decimal};

verus! {

/// `s` with every non-overlapping occurrence of `pat`, scanning from the
/// left, replaced by `rep` (as `str::replace`).
pub open spec fn replace_all(s: Seq<char>, pat: Seq<char>, rep: Seq<char>) -> Seq<char>
    decreases s.len(),
{
    if s.len() == 0 {
        Seq::empty()
    } else if pat.len() > 0 && s.len() >= pat.len() && s.take(pat.len() as int) == pat {
        rep + replace_all(s.skip(pat.len() as int), pat, rep)
    } else {
        seq![s[0]] + replace_all(s.drop_first(), pat, rep)
    }
}

/// A placeholder: a key between braces.
pub open spec fn placeholder(key: char) -> Seq<char> {
    seq!['{', key, '}']
}

/// The URL of a map tile: the template with `{z}`, `{x}` and `{y}` replaced,
/// in that order, by the zoom and the tile coordinates in decimal.
pub open spec fn tile_url_text(template: Seq<char>, z: u8, x: i64, y: i64) -> Seq<char> {
    let with_z = replace_all(template, placeholder('z'), decimal(z as nat));
    let with_x = replace_all(with_z, placeholder('x'), signed_decimal(x as int));
    replace_all(with_x, placeholder('y'), signed_decimal(y as int))
}

/// Replaces every `{key}` in `s` by `rep`.
fn replace_placeholder(s: &str, key: char, rep: &str) -> (r: String)
    ensures
        r@ == replace_all(s@, placeholder(key), rep@),
{
    let n = s.unicode_len();
    let mut out = String::new();
    let mut i: usize = 0;
    assert(s@.skip(0) =~= s@);
    assert(out@ + replace_all(s@, placeholder(key), rep@) =~= replace_all(s@, placeholder(key), rep@));
    while i < n
        invariant
            i <= n,
            n == s@.len(),
            out@ + replace_all(s@.skip(i as int), placeholder(key), rep@) == replace_all(s@, placeholder(key), rep@),
        decreases n - i,
    {
        let ghost rest = s@.skip(i as int);
        if n - i >= 3 && s.get_char(i) == '{' && s.get_char(i + 1) == key && s.get_char(i + 2) == '}' {
            assert(rest.take(3) =~= placeholder(key));
            assert(rest.skip(3) =~= s@.skip(i as int + 3));
            let ghost before = out@;
            out.append(rep);
            assert(before + (rep@ + replace_all(rest.skip(3), placeholder(key), rep@))
                =~= out@ + replace_all(s@.skip(i as int + 3), placeholder(key), rep@));
            i += 3;
        } else {
            assert(!(rest.len() >= 3 && rest.take(3) == placeholder(key))) by {
                if rest.len() >= 3 && rest.take(3) == placeholder(key) {
                    assert(rest.take(3)[0] == s@[i as int]);
                    assert(rest.take(3)[1] == s@[i as int + 1]);
                    assert(rest.take(3)[2] == s@[i as int + 2]);
                }
            }
            assert(rest.drop_first() =~= s@.skip(i as int + 1));
            let c = s.substring_char(i, i + 1);
            let ghost before = out@;
            out.append(c);
            assert(c@ =~= seq![rest[0]]);
            assert(before + (seq![rest[0]] + replace_all(rest.drop_first(), placeholder(key), rep@))
                =~= out@ + replace_all(s@.skip(i as int + 1), placeholder(key), rep@));
            i += 1;
        }
    }
    assert(s@.skip(n as int) =~= Seq::<char>::empty());
    assert(out@ + Seq::<char>::empty() =~= out@);
    out
}

/// The URL of the tile at zoom `z` and tile coordinates `(x, y)`.
pub fn tile_url(template: &str, z: u8, x: i64, y: i64) -> (r: String)
    ensures
        r@ == tile_url_text(template@, z, x, y),
{
    let mut zs = String::new();
    push_decimal(&mut zs, z as u128);
    assert(Seq::<char>::empty() + decimal(z as nat) =~= decimal(z as nat));
    let xs = signed_decimal_string(x);
    let ys = signed_decimal_string(y);
    let with_z = replace_placeholder(template, 'z', zs.as_str());
    let with_x = replace_placeholder(with_z.as_str(), 'x', xs.as_str());
    replace_placeholder(with_x.as_str(), 'y', ys.as_str())
}

/// The file stem of a path (`Path::file_stem`, lossily as text; empty when
/// there is none).
pub uninterp spec fn path_file_stem(path: Seq<char>) -> Seq<char>;

/// The parent of a path (`Path::parent`, as text).
pub uninterp spec fn path_parent(path: Seq<char>) -> Option<Seq<char>>;

/// A path joined with a relative name (`Path::join`, as text).
pub uninterp spec fn path_join(base: Seq<char>, name: Seq<char>) -> Seq<char>;

/// `Path::file_stem`, empty when there is none, as text.
#[verifier::external_body]
fn file_stem_of(path: &str) -> (r: String)
    ensures
        r@ == path_file_stem(path@),
{
    std::path::Path::new(path).file_stem().unwrap_or_default().to_string_lossy().into_owned()
}

/// `Path::parent`, as text.
#[verifier::external_body]
fn parent_of(path: &str) -> (r: Option<String>)
    ensures
        r matches Some(p) ==> path_parent(path@) == Some(p@),
        r is None <==> path_parent(path@) is None,
{
    std::path::Path::new(path).parent().map(|p| p.to_string_lossy().into_owned())
}

/// `Path::join`, as text.
#[verifier::external_body]
fn join_path(base: &str, name: &str) -> (r: String)
    ensures
        r@ == path_join(base@, name@),
{
    std::path::Path::new(base).join(name).to_string_lossy().into_owned()
}

/// Where the plot of a track file goes: beside it (or in `.` when the path
/// has no parent), named after its stem with `_track.png` appended.
pub open spec fn output_path_text(input: Seq<char>) -> Seq<char> {
    let parent = match path_parent(input) {
        Some(p) => p,
        None => seq!['.'],
    };
    path_join(parent, path_file_stem(input) + seq!['_', 't', 'r', 'a', 'c', 'k', '.', 'p', 'n', 'g'])
}

/// The output path for a track file.
pub fn output_path_for(input: &str) -> (r: String)
    ensures
        r@ == output_path_text(input@),
{
    let mut name = file_stem_of(input);
    let suffix = "_track.png";
    proof { reveal_strlit("_track.png"); }
    assert(suffix@ =~= seq!['_', 't', 'r', 'a', 'c', 'k', '.', 'p', 'n', 'g']);
    name.append(suffix);
    let parent = match parent_of(input) {
        Some(p) => p,
        None => {
            let dot = ".";
            proof { reveal_strlit("."); }
            assert(dot@ =~= seq!['.']);
            String::from_str(dot)
        },
    };
    let parent_str = parent.as_str();
    let name_str = name.as_str();
    assert(parent_str@ == (match path_parent(input@) { Some(p) => p, None => seq!['.'] }));
    join_path(parent_str, name_str)
}

/// The absolute value of an integer.
pub open spec fn abs_int(v: int) -> int {
    if v < 0 { -v } else { v }
}

/// The step toward `b` from `a` along one axis: +1 or -1.
pub open spec fn step_toward(a: int, b: int) -> int {
    if a < b { 1 } else { -1 }
}

/// The points a Bresenham walk visits from `(x, y)` with error term `err`
/// toward `(x1, y1)`, taking at most `fuel` more steps. Each step doubles the
/// error: at or above `dy` it moves along x (adding `dy`), at or below `dx`
/// along y (adding `dx`).
pub open spec fn line_from(x: int, y: int, err: int, x1: int, y1: int, dx: int, dy: int, sx: int, sy: int, fuel: nat)
    -> Seq<(int, int)>
    decreases fuel,
{
    if fuel == 0 || (x == x1 && y == y1) {
        seq![(x, y)]
    } else {
        let e2 = 2 * err;
        let err1 = if e2 >= dy { err + dy } else { err };
        let nx = if e2 >= dy { x + sx } else { x };
        let err2 = if e2 <= dx { err1 + dx } else { err1 };
        let ny = if e2 <= dx { y + sy } else { y };
        seq![(x, y)] + line_from(nx, ny, err2, x1, y1, dx, dy, sx, sy, (fuel - 1) as nat)
    }
}

/// The points of the line from `a` to `b`, in order (Bresenham, all octants).
pub open spec fn line_points(a: (int, int), b: (int, int)) -> Seq<(int, int)> {
    let dx = abs_int(b.0 - a.0);
    let dy = -abs_int(b.1 - a.1);
    line_from(a.0, a.1, dx + dy, b.0, b.1, dx, dy, step_toward(a.0, b.0), step_toward(a.1, b.1), (dx - dy) as nat)
}

/// The points that fall inside a `width` by `height` image, as pixel
/// coordinates, in order.
pub open spec fn visible(s: Seq<(int, int)>, width: u32, height: u32) -> Seq<(u32, u32)>
    decreases s.len(),
{
    if s.len() == 0 {
        Seq::empty()
    } else {
        (if 0 <= s[0].0 < width && 0 <= s[0].1 < height {
            seq![(s[0].0 as u32, s[0].1 as u32)]
        } else {
            Seq::empty()
        }) + visible(s.drop_first(), width, height)
    }
}

/// Coordinates a line is drawn between: far enough from the limits of `i32`
/// that the doubled error term cannot overflow.
pub open spec fn drawable(v: i32) -> bool {
    -0x1000_0000 < v < 0x1000_0000
}

/// The pixels of the line from `a` to `b` that lie inside a `width` by
/// `height` image, in drawing order.
pub fn line_pixels(a: (i32, i32), b: (i32, i32), width: u32, height: u32) -> (r: Vec<(u32, u32)>)
    requires
        drawable(a.0) && drawable(a.1) && drawable(b.0) && drawable(b.1),
    ensures
        r@ == visible(line_points((a.0 as int, a.1 as int), (b.0 as int, b.1 as int)), width, height),
{
    let (mut x0, mut y0) = a;
    let (x1, y1) = b;
    let dx: i32 = if x1 >= x0 { x1 - x0 } else { x0 - x1 };
    let dy: i32 = if y1 >= y0 { y0 - y1 } else { y1 - y0 };
    let sx: i32 = if x0 < x1 { 1 } else { -1 };
    let sy: i32 = if y0 < y1 { 1 } else { -1 };
    let mut err: i32 = dx + dy;
    let ghost adx: int = dx as int;
    let ghost ady: int = -dy;
    let ghost mut nx: int = 0;
    let ghost mut ny: int = 0;
    let ghost mut fuel: nat = (dx - dy) as nat;
    let ghost whole = line_points((a.0 as int, a.1 as int), (b.0 as int, b.1 as int));
    let mut out: Vec<(u32, u32)> = Vec::new();
    assert(out@ + visible(whole, width, height) =~= visible(whole, width, height));
    loop
        invariant_except_break
            out@ + visible(line_from(x0 as int, y0 as int, err as int, x1 as int, y1 as int, dx as int, dy as int,
                sx as int, sy as int, fuel), width, height) == visible(whole, width, height),
        invariant
            adx == dx && ady == -dy && 0 <= adx < 0x2000_0000 && 0 <= ady < 0x2000_0000,
            0 <= nx <= adx && 0 <= ny <= ady,
            x0 == a.0 + sx * nx && y0 == a.1 + sy * ny,
            x1 == a.0 + sx * adx && y1 == a.1 + sy * ady,
            sx == step_toward(a.0 as int, b.0 as int) && sy == step_toward(a.1 as int, b.1 as int),
            x1 == b.0 && y1 == b.1,
            err == adx * (1 + ny) - ady * (1 + nx),
            -2 * ady <= err <= 2 * adx,
            fuel >= (adx - nx) + (ady - ny),
            whole == line_points((a.0 as int, a.1 as int), (b.0 as int, b.1 as int)),
        ensures
            out@ == visible(whole, width, height),
        decreases fuel,
    {
        let ghost rest = line_from(x0 as int, y0 as int, err as int, x1 as int, y1 as int, dx as int, dy as int,
            sx as int, sy as int, fuel);
        let ghost before = out@;
        if x0 >= 0 && y0 >= 0 && (x0 as u32) < width && (y0 as u32) < height {
            out.push((x0 as u32, y0 as u32));
        }
        if x0 == x1 && y0 == y1 {
            assert(rest == seq![(x0 as int, y0 as int)]);
            assert(rest.drop_first() =~= Seq::<(int, int)>::empty());
            assert(visible(Seq::<(int, int)>::empty(), width, height) == Seq::<(u32, u32)>::empty());
            assert(out@ =~= before + visible(rest, width, height));
            break;
        }
        assert(fuel > 0);
        let e2 = 2 * err;
        proof {
            if nx == adx {
                assert(ny < ady);
                assert(!(2 * err >= -ady)) by (nonlinear_arith)
                    requires
                        err == adx * (1 + ny) - ady * (1 + adx),
                        0 <= ny < ady,
                        0 <= adx;
            }
            if ny == ady {
                assert(nx < adx);
                assert(!(2 * err <= adx)) by (nonlinear_arith)
                    requires
                        err == adx * (1 + ady) - ady * (1 + nx),
                        0 <= nx < adx,
                        0 <= ady;
            }
        }
        let ghost next_fuel: nat = (fuel - 1) as nat;
        let ghost px = x0;
        let ghost py = y0;
        if e2 >= dy {
            proof {
                assert(adx * (1 + ny) - ady * (1 + (nx + 1)) == adx * (1 + ny) - ady * (1 + nx) - ady) by (nonlinear_arith);
                assert(a.0 + sx * (nx + 1) == a.0 + sx * nx + sx) by (nonlinear_arith);
            }
            err = err + dy;
            x0 = x0 + sx;
            proof { nx = nx + 1; }
        }
        if e2 <= dx {
            proof {
                assert(adx * (1 + (ny + 1)) - ady * (1 + nx) == adx * (1 + ny) - ady * (1 + nx) + adx) by (nonlinear_arith);
                assert(a.1 + sy * (ny + 1) == a.1 + sy * ny + sy) by (nonlinear_arith);
            }
            err = err + dx;
            y0 = y0 + sy;
            proof { ny = ny + 1; }
        }
        proof {
            fuel = next_fuel;
            assert(rest[0] == (px as int, py as int));
            let tail = line_from(x0 as int, y0 as int, err as int, x1 as int, y1 as int, dx as int, dy as int,
                sx as int, sy as int, fuel);
            assert(rest == seq![(rest[0].0, rest[0].1)] + tail);
            assert((seq![rest[0]] + tail).drop_first() =~= tail);
            assert(visible(rest, width, height) == visible(seq![rest[0]] + tail, width, height));
            assert(out@ + visible(tail, width, height) =~= before + visible(rest, width, height));
        }
    }
    out
}

/// Whether consecutive points differ by at most one in each coordinate.
pub open spec fn connected(s: Seq<(int, int)>) -> bool {
    forall|i: int| 0 <= i < s.len() - 1 ==> abs_int(#[trigger] s[i + 1].0 - s[i].0) <= 1 && abs_int(s[i + 1].1 - s[i].1) <= 1
}

/// A walk `nx` steps along x and `ny` along y into a line of `adx` by `ady`
/// steps, with the error term Bresenham keeps there, starts where it stands,
/// ends at the far end of the line, and moves to a neighboring point each step.
proof fn lemma_line_from_reaches_end(
    a0: int, a1: int, adx: int, ady: int, sx: int, sy: int, nx: int, ny: int, err: int, fuel: nat,
)
    requires
        adx >= 0 && ady >= 0,
        sx == 1 || sx == -1,
        sy == 1 || sy == -1,
        0 <= nx <= adx && 0 <= ny <= ady,
        err == adx * (1 + ny) - ady * (1 + nx),
        fuel >= (adx - nx) + (ady - ny),
    ensures
        ({
            let s = line_from(a0 + sx * nx, a1 + sy * ny, err, a0 + sx * adx, a1 + sy * ady, adx, -ady, sx, sy, fuel);
            &&& s.len() >= 1
            &&& s[0] == (a0 + sx * nx, a1 + sy * ny)
            &&& s.last() == (a0 + sx * adx, a1 + sy * ady)
            &&& connected(s)
        }),
    decreases fuel,
{
    let x = a0 + sx * nx;
    let y = a1 + sy * ny;
    let x1 = a0 + sx * adx;
    let y1 = a1 + sy * ady;
    assert((x == x1) == (nx == adx)) by (nonlinear_arith)
        requires x == a0 + sx * nx, x1 == a0 + sx * adx, sx == 1 || sx == -1;
    assert((y == y1) == (ny == ady)) by (nonlinear_arith)
        requires y == a1 + sy * ny, y1 == a1 + sy * ady, sy == 1 || sy == -1;
    let s = line_from(x, y, err, x1, y1, adx, -ady, sx, sy, fuel);
    if fuel == 0 || (x == x1 && y == y1) {
        assert(nx == adx && ny == ady);
        assert(s == seq![(x, y)]);
        assert(s.last() == (x1, y1));
        assert(connected(s));
    } else {
        let e2 = 2 * err;
        if nx == adx {
            assert(!(2 * err >= -ady)) by (nonlinear_arith)
                requires err == adx * (1 + ny) - ady * (1 + adx), 0 <= ny < ady, 0 <= adx;
        }
        if ny == ady {
            assert(!(2 * err <= adx)) by (nonlinear_arith)
                requires err == adx * (1 + ady) - ady * (1 + nx), 0 <= nx < adx, 0 <= ady;
        }
        let mx = if e2 >= -ady { nx + 1 } else { nx };
        let my = if e2 <= adx { ny + 1 } else { ny };
        let err1 = if e2 >= -ady { err - ady } else { err };
        let err2 = if e2 <= adx { err1 + adx } else { err1 };
        assert(err2 == adx * (1 + my) - ady * (1 + mx)) by (nonlinear_arith)
            requires
                mx == nx || mx == nx + 1,
                my == ny || my == ny + 1,
                err2 == err + (if mx == nx + 1 { -ady } else { 0 }) + (if my == ny + 1 { adx } else { 0 }),
                err == adx * (1 + ny) - ady * (1 + nx);
        assert(a0 + sx * mx == (if e2 >= -ady { x + sx } else { x })) by (nonlinear_arith)
            requires x == a0 + sx * nx, mx == (if e2 >= -ady { nx + 1 } else { nx });
        assert(a1 + sy * my == (if e2 <= adx { y + sy } else { y })) by (nonlinear_arith)
            requires y == a1 + sy * ny, my == (if e2 <= adx { ny + 1 } else { ny });
        lemma_line_from_reaches_end(a0, a1, adx, ady, sx, sy, mx, my, err2, (fuel - 1) as nat);
        let t = line_from(a0 + sx * mx, a1 + sy * my, err2, x1, y1, adx, -ady, sx, sy, (fuel - 1) as nat);
        assert(s == seq![(x, y)] + t);
        assert forall|i: int| 0 <= i < s.len() - 1 implies
            abs_int(#[trigger] s[i + 1].0 - s[i].0) <= 1 && abs_int(s[i + 1].1 - s[i].1) <= 1 by {
            if i > 0 {
                assert(s[i] == t[i - 1] && s[i + 1] == t[i]);
                let j = i - 1;
                assert(0 <= j < t.len() - 1);
                assert(abs_int(t[j + 1].0 - t[j].0) <= 1 && abs_int(t[j + 1].1 - t[j].1) <= 1);
            } else {
                assert(s[1] == t[0]);
                assert(t[0] == (a0 + sx * mx, a1 + sy * my));
            }
        }
        assert(s.len() == t.len() + 1);
        assert(s.last() == t.last());
        assert(s[0] == (x, y));
        assert(connected(s));
    }
}

/// The line from `a` to `b` starts at `a`, ends at `b`, and every step moves
/// to one of the eight neighboring points.
pub proof fn law_line_joins_endpoints(a: (int, int), b: (int, int))
    ensures
        line_points(a, b).len() >= 1,
        line_points(a, b)[0] == a,
        line_points(a, b).last() == b,
        connected(line_points(a, b)),
{
    let adx = abs_int(b.0 - a.0);
    let ady = abs_int(b.1 - a.1);
    let sx = step_toward(a.0, b.0);
    let sy = step_toward(a.1, b.1);
    assert(a.0 + sx * adx == b.0) by (nonlinear_arith)
        requires adx == abs_int(b.0 - a.0), sx == step_toward(a.0, b.0);
    assert(a.1 + sy * ady == b.1) by (nonlinear_arith)
        requires ady == abs_int(b.1 - a.1), sy == step_toward(a.1, b.1);
    assert(a.0 + sx * 0 == a.0 && a.1 + sy * 0 == a.1) by (nonlinear_arith);
    assert(adx - (-ady) == adx + ady);
    lemma_line_from_reaches_end(a.0, a.1, adx, ady, sx, sy, 0, 0, adx - ady, (adx + ady) as nat);
}

} // verus!
