//! The wireframe lines of the 3MF thumbnail: which pixels a line from one
//! point to another sets (Bresenham's algorithm, all octants).
use vstd::prelude::*;

verus! {

/// What stays fixed while a line is drawn.
pub struct LineParams {
    pub x1: int,
    pub y1: int,
    pub dx: int,
    pub dy: int,
    pub sx: int,
    pub sy: int,
}

/// The absolute value of `a`.
pub open spec fn abs(a: int) -> int {
    if a < 0 {
        -a
    } else {
        a
    }
}

/// The parameters of the line from `(x0, y0)` to `(x1, y1)`.
pub open spec fn line_params(x0: int, y0: int, x1: int, y1: int) -> LineParams {
    LineParams {
        x1,
        y1,
        dx: abs(x1 - x0),
        dy: abs(y1 - y0),
        sx: if x0 < x1 {
            1
        } else {
            -1
        },
        sy: if y0 < y1 {
            1
        } else {
            -1
        },
    }
}

/// One step from the point `(x, y)` with error term `err`: a step in `x`
/// where `2 * err > -dy`, a step in `y` where `2 * err < dx`.
pub open spec fn line_step(p: LineParams, x: int, y: int, err: int) -> (int, int, int) {
    let e2 = 2 * err;
    let (err1, nx) = if e2 > -p.dy {
        (err - p.dy, x + p.sx)
    } else {
        (err, x)
    };
    let (err2, ny) = if e2 < p.dx {
        (err1 + p.dx, y + p.sy)
    } else {
        (err1, y)
    };
    (nx, ny, err2)
}

/// The points visited from `(x, y)` until the end point, taking at most
/// `fuel` points.
pub open spec fn line_points(p: LineParams, x: int, y: int, err: int, fuel: nat) -> Seq<(int, int)>
    decreases fuel,
{
    if fuel == 0 {
        Seq::empty()
    } else if x == p.x1 && y == p.y1 {
        seq![(x, y)]
    } else {
        let (nx, ny, ne) = line_step(p, x, y, err);
        seq![(x, y)] + line_points(p, nx, ny, ne, (fuel - 1) as nat)
    }
}

/// The points of the line from `(x0, y0)` to `(x1, y1)`.
pub open spec fn line(x0: int, y0: int, x1: int, y1: int) -> Seq<(int, int)> {
    let p = line_params(x0, y0, x1, y1);
    line_points(p, x0, y0, p.dx - p.dy, (p.dx + p.dy + 1) as nat)
}

/// Whether `(x, y)` lies in a `width` x `height` image (the sizes taken as
/// `i32`).
pub open spec fn in_image(q: (int, int), width: u32, height: u32) -> bool {
    q.0 >= 0 && q.1 >= 0 && q.0 < (width as i32) as int && q.1 < (height as i32) as int
}

/// The points of `s` that lie in the image, as pixel coordinates.
pub open spec fn visible(s: Seq<(int, int)>, width: u32, height: u32) -> Seq<(u32, u32)>
    decreases s.len(),
{
    if s.len() == 0 {
        Seq::empty()
    } else {
        (if in_image(s[0], width, height) {
            seq![(s[0].0 as u32, s[0].1 as u32)]
        } else {
            Seq::empty()
        }) + visible(s.drop_first(), width, height)
    }
}

/// The state invariant of a line being drawn from `(x0, y0)`: `X` steps
/// taken in `x` and `Y` in `y`, neither past the end, and the error term
/// `dx - dy + Y * dx - X * dy`, within `[-3 dy, 3 dx]` when doubled.
pub open spec fn line_inv(p: LineParams, x0: int, y0: int, x: int, y: int, err: int) -> bool {
    let xs = p.sx * (x - x0);
    let ys = p.sy * (y - y0);
    &&& p.dx >= 0 && p.dy >= 0
    &&& p.sx == 1 || p.sx == -1
    &&& p.sy == 1 || p.sy == -1
    &&& p.x1 == x0 + p.sx * p.dx
    &&& p.y1 == y0 + p.sy * p.dy
    &&& 0 <= xs <= p.dx
    &&& 0 <= ys <= p.dy
    &&& err == p.dx - p.dy + ys * p.dx - xs * p.dy
    &&& -3 * p.dy <= 2 * err <= 3 * p.dx
}

/// What is left to walk.
pub open spec fn line_measure(p: LineParams, x0: int, y0: int, x: int, y: int) -> int {
    (p.dx - p.sx * (x - x0)) + (p.dy - p.sy * (y - y0))
}

/// Neighbouring points differ by at most one in `x` and in `y`.
pub open spec fn adjacent(a: (int, int), b: (int, int)) -> bool {
    abs(b.0 - a.0) <= 1 && abs(b.1 - a.1) <= 1
}

/// Each point of `s` is adjacent to the next.
pub open spec fn steps_by_one(s: Seq<(int, int)>) -> bool
    decreases s.len(),
{
    s.len() <= 1 || (adjacent(s[0], s[1]) && steps_by_one(s.drop_first()))
}

/// A step keeps the invariant and shortens what is left to walk.
proof fn lemma_line_step(p: LineParams, x0: int, y0: int, x: int, y: int, err: int)
    requires
        line_inv(p, x0, y0, x, y, err),
        !(x == p.x1 && y == p.y1),
    ensures
        ({
            let (nx, ny, ne) = line_step(p, x, y, err);
            &&& line_inv(p, x0, y0, nx, ny, ne)
            &&& line_measure(p, x0, y0, nx, ny) < line_measure(p, x0, y0, x, y)
            &&& abs(nx - x) <= 1 && abs(ny - y) <= 1
        }),
{
    let xs = p.sx * (x - x0);
    let ys = p.sy * (y - y0);
    let dx = p.dx;
    let dy = p.dy;
    let e2 = 2 * err;
    let xstep = e2 > -dy;
    let ystep = e2 < dx;
    let (nx, ny, ne) = line_step(p, x, y, err);
    let nxs = p.sx * (nx - x0);
    let nys = p.sy * (ny - y0);
    assert(nxs == xs + (if xstep {
        1int
    } else {
        0
    })) by (nonlinear_arith)
        requires
            p.sx == 1 || p.sx == -1,
            nx == x + (if xstep {
                p.sx
            } else {
                0
            }),
            nxs == p.sx * (nx - x0),
            xs == p.sx * (x - x0),
    ;
    assert(nys == ys + (if ystep {
        1int
    } else {
        0
    })) by (nonlinear_arith)
        requires
            p.sy == 1 || p.sy == -1,
            ny == y + (if ystep {
                p.sy
            } else {
                0
            }),
            nys == p.sy * (ny - y0),
            ys == p.sy * (y - y0),
    ;
    // not at the end: some count is short of its total
    assert(xs < dx || ys < dy) by (nonlinear_arith)
        requires
            p.x1 == x0 + p.sx * dx,
            p.y1 == y0 + p.sy * dy,
            xs == p.sx * (x - x0),
            ys == p.sy * (y - y0),
            p.sx == 1 || p.sx == -1,
            p.sy == 1 || p.sy == -1,
            0 <= xs <= dx,
            0 <= ys <= dy,
            !(x == p.x1 && y == p.y1),
    ;
    if xs == dx {
        assert(err <= -dy) by (nonlinear_arith)
            requires
                err == dx - dy + ys * dx - xs * dy,
                xs == dx,
                ys <= dy - 1,
                dx >= 0,
                dy >= 0,
        ;
    }
    if ys == dy {
        assert(err >= dx) by (nonlinear_arith)
            requires
                err == dx - dy + ys * dx - xs * dy,
                ys == dy,
                xs <= dx - 1,
                dx >= 0,
                dy >= 0,
        ;
    }
    assert(ne == dx - dy + nys * dx - nxs * dy) by (nonlinear_arith)
        requires
            err == dx - dy + ys * dx - xs * dy,
            ne == err - (if xstep {
                dy
            } else {
                0
            }) + (if ystep {
                dx
            } else {
                0
            }),
            nxs == xs + (if xstep {
                1int
            } else {
                0
            }),
            nys == ys + (if ystep {
                1int
            } else {
                0
            }),
    ;
}

/// The points from a state satisfying the invariant, with enough fuel,
/// start at the state's point, end at the end point, and move by one pixel
/// (in `x`, `y` or both) at a time.
proof fn lemma_line_points(p: LineParams, x0: int, y0: int, x: int, y: int, err: int, fuel: nat)
    requires
        line_inv(p, x0, y0, x, y, err),
        fuel > line_measure(p, x0, y0, x, y),
    ensures
        ({
            let s = line_points(p, x, y, err, fuel);
            &&& s.len() >= 1
            &&& s[0] == (x, y)
            &&& s.last() == (p.x1, p.y1)
            &&& steps_by_one(s)
        }),
    decreases fuel,
{
    if !(x == p.x1 && y == p.y1) {
        lemma_line_step(p, x0, y0, x, y, err);
        let (nx, ny, ne) = line_step(p, x, y, err);
        lemma_line_points(p, x0, y0, nx, ny, ne, (fuel - 1) as nat);
        let rest = line_points(p, nx, ny, ne, (fuel - 1) as nat);
        let s = line_points(p, x, y, err, fuel);
        assert(s == seq![(x, y)] + rest);
        assert(s.len() == rest.len() + 1);
        assert(s[0] == (x, y));
        assert(s.last() == rest.last());
        assert(s.drop_first() =~= rest);
        assert(s[1] == rest[0]);
    }
}

/// Law: the line from `(x0, y0)` to `(x1, y1)` starts at the first point,
/// ends at the second, and moves by one pixel (in `x`, `y` or both) at a
/// time.
pub proof fn line_connects_its_ends(x0: int, y0: int, x1: int, y1: int)
    ensures
        ({
            let s = line(x0, y0, x1, y1);
            &&& s.len() >= 1
            &&& s[0] == (x0, y0)
            &&& s.last() == (x1, y1)
            &&& steps_by_one(s)
        }),
{
    let p = line_params(x0, y0, x1, y1);
    assert(line_inv(p, x0, y0, x0, y0, p.dx - p.dy)) by (nonlinear_arith)
        requires
            p == line_params(x0, y0, x1, y1),
    ;
    lemma_line_points(p, x0, y0, x0, y0, p.dx - p.dy, (p.dx + p.dy + 1) as nat);
}

/// A state satisfying the invariant lies between the end points.
proof fn lemma_line_bounds(p: LineParams, x0: int, y0: int, x: int, y: int, err: int)
    requires
        line_inv(p, x0, y0, x, y, err),
    ensures
        x0 <= x <= p.x1 || p.x1 <= x <= x0,
        y0 <= y <= p.y1 || p.y1 <= y <= y0,
{
    let xs = p.sx * (x - x0);
    let ys = p.sy * (y - y0);
    assert(x0 <= x <= p.x1 || p.x1 <= x <= x0) by (nonlinear_arith)
        requires
            p.sx == 1 || p.sx == -1,
            xs == p.sx * (x - x0),
            0 <= xs <= p.dx,
            p.x1 == x0 + p.sx * p.dx,
    ;
    assert(y0 <= y <= p.y1 || p.y1 <= y <= y0) by (nonlinear_arith)
        requires
            p.sy == 1 || p.sy == -1,
            ys == p.sy * (y - y0),
            0 <= ys <= p.dy,
            p.y1 == y0 + p.sy * p.dy,
    ;
}

proof fn lemma_visible_cons(q: (int, int), rest: Seq<(int, int)>, width: u32, height: u32)
    ensures
        visible(seq![q] + rest, width, height) == (if in_image(q, width, height) {
            seq![(q.0 as u32, q.1 as u32)]
        } else {
            Seq::empty()
        }) + visible(rest, width, height),
{
    let s = seq![q] + rest;
    assert(s.drop_first() =~= rest);
    assert(s[0] == q);
}

/// The pixels that drawing the line from `p0` to `p1` sets on a `width` x
/// `height` image, in drawing order: the points of the line that lie in the
/// image. The arithmetic is exact (the error term is kept in 64 bits).
pub fn draw_line(width: u32, height: u32, p0: (i32, i32), p1: (i32, i32)) -> (pixels: Vec<
    (u32, u32),
>)
    ensures
        pixels@ == visible(line(p0.0 as int, p0.1 as int, p1.0 as int, p1.1 as int), width, height),
{
    let x0 = p0.0 as i64;
    let y0 = p0.1 as i64;
    let x1 = p1.0 as i64;
    let y1 = p1.1 as i64;
    let dx: i64 = if x1 < x0 {
        x0 - x1
    } else {
        x1 - x0
    };
    let dy: i64 = if y1 < y0 {
        y0 - y1
    } else {
        y1 - y0
    };
    let sx: i64 = if x0 < x1 {
        1
    } else {
        -1
    };
    let sy: i64 = if y0 < y1 {
        1
    } else {
        -1
    };
    let wi = (#[verifier::truncate] (width as i32)) as i64;
    let hi = (#[verifier::truncate] (height as i32)) as i64;
    let ghost p = line_params(x0 as int, y0 as int, x1 as int, y1 as int);
    let ghost total = visible(line(x0 as int, y0 as int, x1 as int, y1 as int), width, height);
    let mut err: i64 = dx - dy;
    let mut x = x0;
    let mut y = y0;
    let ghost mut fuel: nat = (dx + dy + 1) as nat;
    let mut out: Vec<(u32, u32)> = Vec::new();
    assert(line_inv(p, x0 as int, y0 as int, x as int, y as int, err as int)) by (nonlinear_arith)
        requires
            p == line_params(x0 as int, y0 as int, x1 as int, y1 as int),
            x == x0,
            y == y0,
            err == p.dx - p.dy,
    ;
    assert(out@ + visible(line_points(p, x as int, y as int, err as int, fuel), width, height)
        =~= total);
    loop
        invariant_except_break
            out@ + visible(line_points(p, x as int, y as int, err as int, fuel), width, height)
                == total,
        invariant
            p == line_params(x0 as int, y0 as int, x1 as int, y1 as int),
            dx == p.dx,
            dy == p.dy,
            sx == p.sx,
            sy == p.sy,
            x1 == p.x1,
            y1 == p.y1,
            i32::MIN <= x0 <= i32::MAX,
            i32::MIN <= y0 <= i32::MAX,
            i32::MIN <= x1 <= i32::MAX,
            i32::MIN <= y1 <= i32::MAX,
            wi == (width as i32) as int,
            hi == (height as i32) as int,
            total == visible(line(x0 as int, y0 as int, x1 as int, y1 as int), width, height),
            line_inv(p, x0 as int, y0 as int, x as int, y as int, err as int),
            fuel > line_measure(p, x0 as int, y0 as int, x as int, y as int),
        ensures
            out@ == total,
        decreases line_measure(p, x0 as int, y0 as int, x as int, y as int),
    {
        proof {
            lemma_line_bounds(p, x0 as int, y0 as int, x as int, y as int, err as int);
        }
        let ghost here = line_points(p, x as int, y as int, err as int, fuel);
        let ghost before = out@;
        if x >= 0 && y >= 0 && x < wi && y < hi {
            out.push((x as u32, y as u32));
        }
        if x == x1 && y == y1 {
            proof {
                assert(here == seq![(x as int, y as int)]);
                lemma_visible_cons((x as int, y as int), Seq::empty(), width, height);
                assert(seq![(x as int, y as int)] + Seq::<(int, int)>::empty() =~= here);
                assert(visible(Seq::<(int, int)>::empty(), width, height) =~= Seq::<
                    (u32, u32),
                >::empty());
                assert(out@ =~= total);
            }
            break;
        }
        let ghost (nx, ny, ne) = line_step(p, x as int, y as int, err as int);
        proof {
            lemma_line_step(p, x0 as int, y0 as int, x as int, y as int, err as int);
            lemma_line_bounds(p, x0 as int, y0 as int, nx, ny, ne);
            let rest = line_points(p, nx, ny, ne, (fuel - 1) as nat);
            assert(here == seq![(x as int, y as int)] + rest);
            lemma_visible_cons((x as int, y as int), rest, width, height);
            assert(out@ + visible(rest, width, height) =~= total);
        }
        let e2 = 2 * err;
        if e2 > -dy {
            err = err - dy;
            x = x + sx;
        }
        if e2 < dx {
            err = err + dx;
            y = y + sy;
        }
        proof {
            fuel = (fuel - 1) as nat;
        }
    }
    out
}

} // verus!
