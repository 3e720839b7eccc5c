//! Layout strategies: pure functions from a node's index, the node count, the clock and
//! the canvas size to the node's target position.
use vstd::prelude::*;
use crate::trig::{cos_steps, cosine, lemma_pythagoras, sin_steps, sine, PYTHAGORAS_SLACK, SCALE, TURN};
use crate::utils::str_eq;

verus! {

/// Fixed-point subdivisions of one canvas unit: coordinates count thousandths of a unit.
pub const UNIT: i64 = 1000;

/// Largest orbit radius, in fixed-point coordinates.
pub const ORBIT_RADIUS_CAP: i64 = 200 * UNIT;

/// Every time-dependent angle repeats with this many milliseconds, so layouts read the elapsed
/// time modulo it.
pub const CLOCK_PERIOD_MS: u64 = 256_000;

/// Margin around the grid layout, in fixed-point coordinates.
pub const GRID_MARGIN: i64 = 80 * UNIT;

/// Slow rotation of the orbit, in angle steps per second.
pub const ORBIT_RATE: u64 = 8;

/// Float layout, x axis: angle steps between consecutive nodes.
pub const FLOAT_X_STEP: u64 = 56;

/// Float layout, x axis: angle steps per second.
pub const FLOAT_X_RATE: u64 = 12;

/// Float layout, y axis: angle steps between consecutive nodes.
pub const FLOAT_Y_STEP: u64 = 70;

/// Float layout, y axis: angle steps per second.
pub const FLOAT_Y_RATE: u64 = 8;

/// Wave layout: phase step between consecutive nodes.
pub const WAVE_STEP: u64 = 33;

/// Wave layout: phase steps per second.
pub const WAVE_RATE: u64 = 41;

/// Spiral layout: angle step between consecutive nodes.
pub const SPIRAL_STEP: u64 = 20;

/// Spiral layout: rotation in angle steps per second.
pub const SPIRAL_RATE: u64 = 4;

/// Spiral layout: radius of the first node, in fixed-point coordinates.
pub const SPIRAL_BASE: i64 = 50 * UNIT;

/// Spiral layout: radius added per node, in fixed-point coordinates.
pub const SPIRAL_GROWTH: i64 = 20 * UNIT;

/// The named layout variants.
#[derive(Clone, Copy, Debug, PartialEq, Eq, Structural)]
pub enum LayoutMode {
    Orbit,
    Float,
    Grid,
    Wave,
    Spiral,
}

/// A position in fixed-point canvas coordinates (`UNIT` per canvas unit).
#[derive(Clone, Copy, Debug, PartialEq, Eq, Structural)]
pub struct Point {
    pub x: i64,
    pub y: i64,
}

/// The smaller of two integers.
pub open spec fn min_int(a: int, b: int) -> int {
    if a <= b { a } else { b }
}

/// Orbit radius of a `w` by `h` canvas: three tenths of the shorter side, capped.
pub open spec fn orbit_radius(w: int, h: int) -> int {
    min_int(min_int(w * UNIT, h * UNIT) * 3 / 10, ORBIT_RADIUS_CAP as int)
}

/// `len` times a fixed-point sine or cosine `v`, truncated toward zero.
pub open spec fn scaled(len: int, v: int) -> int {
    if v >= 0 {
        len * v / (SCALE as int)
    } else {
        -(len * (-v) / (SCALE as int))
    }
}

/// Angle of node `i` in a layout that turns `step` steps per node and `rate` steps per second.
pub open spec fn angle_of(i: int, step: int, clock: int, rate: int) -> int {
    (i * step + clock * rate / 1000) % (TURN as int)
}

/// Angle of node `i` of `n` on the orbit: an even share of the turn, plus the slow rotation.
pub open spec fn orbit_angle(i: int, n: int, clock: int) -> int {
    (i * (TURN as int) / n + clock * (ORBIT_RATE as int) / 1000) % (TURN as int)
}

/// Least `c` at or above `from` whose square reaches `n`, stopping at `n` at the latest.
pub open spec fn ceil_sqrt_from(n: int, from: int) -> int
    decreases n - from,
{
    if from >= n || from * from >= n {
        from
    } else {
        ceil_sqrt_from(n, from + 1)
    }
}

/// Columns of the grid layout of `n` nodes: the ceiling of the square root of `n`.
pub open spec fn grid_cols(n: int) -> int {
    ceil_sqrt_from(n, 0)
}

/// Rows of the grid layout of `n` nodes.
pub open spec fn grid_rows(n: int) -> int {
    (n + grid_cols(n) - 1) / grid_cols(n)
}

/// Grid cell of node `i`, as (row, column).
pub open spec fn grid_cell(i: int, n: int) -> (int, int) {
    (i / grid_cols(n), i % grid_cols(n))
}

/// Margin around the grid on a canvas side of fixed-point length `span`: `GRID_MARGIN`, or a
/// quarter of the side when the side is shorter than four margins, so that the grid keeps half
/// of a short side.
pub open spec fn grid_margin(span: int) -> int {
    min_int(GRID_MARGIN as int, span / 4)
}

/// Width of one grid cell for `n` nodes on a canvas `wm` wide.
pub open spec fn grid_cell_width(n: int, wm: int) -> int {
    (wm - 2 * grid_margin(wm)) / grid_cols(n)
}

/// Height of one grid cell for `n` nodes on a canvas `hm` high.
pub open spec fn grid_cell_height(n: int, hm: int) -> int {
    (hm - 2 * grid_margin(hm)) / grid_rows(n)
}

/// Center of the cell of node `i` of `n` in a grid that fills a `wm` by `hm` canvas less its
/// margins.
pub open spec fn grid_center(i: int, n: int, wm: int, hm: int) -> (int, int) {
    let cw = grid_cell_width(n, wm);
    let ch = grid_cell_height(n, hm);
    let (row, col) = grid_cell(i, n);
    (grid_margin(wm) + col * cw + cw / 2, grid_margin(hm) + row * ch + ch / 2)
}

/// Target position of node `i` of `n` under `mode`, at `clock` milliseconds on a `w` by `h` canvas.
pub open spec fn target_of(mode: LayoutMode, i: int, n: int, clock: int, w: int, h: int) -> (int, int) {
    let wm = w * UNIT;
    let hm = h * UNIT;
    let cx = wm / 2;
    let cy = hm / 2;
    let r = orbit_radius(w, h);
    match mode {
        LayoutMode::Orbit => {
            let a = orbit_angle(i, n, clock);
            (cx + scaled(r, cosine(a)), cy + scaled(r, sine(a)))
        },
        LayoutMode::Float => (
            cx + scaled(r, sine(angle_of(i, FLOAT_X_STEP as int, clock, FLOAT_X_RATE as int))),
            cy + scaled(r * 3 / 4, cosine(angle_of(i, FLOAT_Y_STEP as int, clock, FLOAT_Y_RATE as int))),
        ),
        LayoutMode::Grid => grid_center(i, n, wm, hm),
        LayoutMode::Wave => {
            let spacing = wm / n;
            (i * spacing + spacing / 2, cy + scaled(r / 2, sine(angle_of(i, WAVE_STEP as int, clock, WAVE_RATE as int))))
        },
        LayoutMode::Spiral => {
            let a = angle_of(i, SPIRAL_STEP as int, clock, SPIRAL_RATE as int);
            let sr = min_int(SPIRAL_BASE + i * SPIRAL_GROWTH, r);
            (cx + scaled(sr, cosine(a)), cy + scaled(sr, sine(a)))
        },
    }
}

/// Layout named by `name`, if it is one of `orbit`, `float`, `grid`, `wave`, `spiral`.
pub open spec fn mode_named(name: Seq<char>) -> Option<LayoutMode> {
    if name == "orbit"@ {
        Some(LayoutMode::Orbit)
    } else if name == "float"@ {
        Some(LayoutMode::Float)
    } else if name == "grid"@ {
        Some(LayoutMode::Grid)
    } else if name == "wave"@ {
        Some(LayoutMode::Wave)
    } else if name == "spiral"@ {
        Some(LayoutMode::Spiral)
    } else {
        None
    }
}

/// Layout named by `name`; `None` for any other name.
pub fn parse_mode(name: &str) -> (r: Option<LayoutMode>)
    ensures
        r == mode_named(name@),
{
    if str_eq(name, "orbit") {
        Some(LayoutMode::Orbit)
    } else if str_eq(name, "float") {
        Some(LayoutMode::Float)
    } else if str_eq(name, "grid") {
        Some(LayoutMode::Grid)
    } else if str_eq(name, "wave") {
        Some(LayoutMode::Wave)
    } else if str_eq(name, "spiral") {
        Some(LayoutMode::Spiral)
    } else {
        None
    }
}

/// `len` times the fixed-point value `v`, truncated toward zero.
pub(crate) fn scaled_offset(len: i64, v: i64) -> (r: i64)
    requires
        0 <= len <= ORBIT_RADIUS_CAP,
        -SCALE <= v <= SCALE,
    ensures
        r == scaled(len as int, v as int),
        -len <= r <= len,
{
    proof {
        lemma_scaled_bound(len as int, v as int);
    }
    if v >= 0 {
        assert(0 <= len * v <= ORBIT_RADIUS_CAP * SCALE) by (nonlinear_arith)
            requires 0 <= len <= ORBIT_RADIUS_CAP, 0 <= v <= SCALE;
        len * v / SCALE
    } else {
        assert(0 <= len * (-v) <= ORBIT_RADIUS_CAP * SCALE) by (nonlinear_arith)
            requires 0 <= len <= ORBIT_RADIUS_CAP, 0 <= -v <= SCALE;
        -(len * (-v) / SCALE)
    }
}

/// A scaled offset never exceeds the length it scales.
pub proof fn lemma_scaled_bound(len: int, v: int)
    requires
        0 <= len,
        -SCALE <= v <= SCALE,
    ensures
        -len <= scaled(len, v) <= len,
{
    let m = if v >= 0 { v } else { -v };
    assert(0 <= len * m <= len * SCALE) by (nonlinear_arith)
        requires 0 <= len, 0 <= m <= SCALE;
    vstd::arithmetic::div_mod::lemma_div_is_ordered(len * m, len * SCALE, SCALE as int);
    vstd::arithmetic::div_mod::lemma_div_multiples_vanish(len, SCALE as int);
    vstd::arithmetic::div_mod::lemma_div_pos_is_pos(len * m, SCALE as int);
    assert(len * SCALE == SCALE * len) by (nonlinear_arith);
}

/// Reducing the node index and the time term modulo a turn leaves the angle unchanged.
proof fn lemma_angle_reduced(i: int, step: int, t: int)
    requires
        0 <= i,
        0 <= step,
        0 <= t,
    ensures
        ((i % (TURN as int)) * step + t % (TURN as int)) % (TURN as int) == (i * step + t) % (
        TURN as int),
{
    let m = TURN as int;
    vstd::arithmetic::div_mod::lemma_mul_mod_noop_left(i, step, m);
    vstd::arithmetic::div_mod::lemma_add_mod_noop(i * step, t, m);
    vstd::arithmetic::div_mod::lemma_add_mod_noop((i % m) * step, t, m);
    vstd::arithmetic::div_mod::lemma_mod_twice(t, m);
    vstd::arithmetic::div_mod::lemma_mod_twice(i * step, m);
}

/// Angle of node `index` in a layout that turns `step` steps per node and `rate` per second.
pub(crate) fn step_angle(index: usize, step: u64, clock_ms: u64, rate: u64) -> (a: u64)
    requires
        step < TURN,
        rate < TURN,
        clock_ms < CLOCK_PERIOD_MS,
    ensures
        a == angle_of(index as int, step as int, clock_ms as int, rate as int),
        a < TURN,
{
    assert(clock_ms * rate <= CLOCK_PERIOD_MS * TURN) by (nonlinear_arith)
        requires clock_ms < CLOCK_PERIOD_MS, rate < TURN;
    let t = clock_ms * rate / 1000;
    let i = (index as u64) % TURN;
    assert(i * step < TURN * TURN) by (nonlinear_arith)
        requires i < TURN, step < TURN;
    proof {
        lemma_angle_reduced(index as int, step as int, t as int);
    }
    (i * step + t % TURN) % TURN
}

/// Columns of the grid layout of `count` nodes.
pub fn grid_columns(count: usize) -> (c: usize)
    ensures
        c == grid_cols(count as int),
        count > 0 ==> 1 <= c <= count,
        count > 0 ==> c * c >= count && (c - 1) * (c - 1) < count,
        count == 0 ==> c == 0,
        c <= 0x1_0000_0000,
{
    let n = count as u128;
    let mut c: u128 = 0;
    while c < n && c * c < n
        invariant
            c <= n,
            c <= 0x1_0000_0000,
            c * c <= 0x1_0000_0000_0000_0000,
            c == 0 || (c - 1) * (c - 1) < n,
            n == count as int,
            ceil_sqrt_from(n as int, c as int) == ceil_sqrt_from(n as int, 0),
        decreases n - c,
    {
        assert(c < 0x1_0000_0000) by (nonlinear_arith)
            requires c * c < n, n < 0x1_0000_0000_0000_0000;
        c = c + 1;
        assert(c * c <= 0x1_0000_0000_0000_0000) by (nonlinear_arith)
            requires c <= 0x1_0000_0000;
    }
    proof {
        if count > 0 && c == 0 {
            assert(c * c < n);
        }
        if count > 0 && c >= n {
            assert(c * c >= n) by (nonlinear_arith)
                requires c >= n, n >= 1;
        }
    }
    c as usize
}

/// Rows of the grid layout of `count > 0` nodes.
pub fn grid_row_count(count: usize) -> (r: usize)
    requires
        count > 0,
    ensures
        r == grid_rows(count as int),
        1 <= r <= count,
        r <= grid_cols(count as int),
{
    let c = grid_columns(count);
    let n = count as u128;
    let r = (n + c as u128 - 1) / (c as u128);
    proof {
        let (ni, ci) = (n as int, c as int);
        assert(ni + ci - 1 < ci * (ni + 1)) by (nonlinear_arith)
            requires 1 <= ci, 1 <= ni;
        vstd::arithmetic::div_mod::lemma_multiply_divide_lt(ni + ci - 1, ci, ni + 1);
        vstd::arithmetic::div_mod::lemma_div_is_ordered(ci, ni + ci - 1, ci);
        vstd::arithmetic::div_mod::lemma_div_by_self(ci);
        assert(ni + ci - 1 < ci * (ci + 1)) by (nonlinear_arith)
            requires 1 <= ci, ni <= ci * ci;
        vstd::arithmetic::div_mod::lemma_multiply_divide_lt(ni + ci - 1, ci, ci + 1);
    }
    r as usize
}

/// Orbit radius of a `width` by `height` canvas, in fixed-point coordinates.
pub fn orbit_radius_of(width: u32, height: u32) -> (r: i64)
    ensures
        r == orbit_radius(width as int, height as int),
        0 <= r <= ORBIT_RADIUS_CAP,
        2 * r <= width * UNIT,
        2 * r <= height * UNIT,
{
    let wm = width as i64 * UNIT;
    let hm = height as i64 * UNIT;
    let short = if wm <= hm { wm } else { hm };
    let share = short * 3 / 10;
    if share <= ORBIT_RADIUS_CAP {
        share
    } else {
        ORBIT_RADIUS_CAP
    }
}

/// Cell center of node `index` in the grid layout of `count` nodes on a `wm` by `hm` canvas.
fn grid_position(index: usize, count: usize, wm: i64, hm: i64) -> (p: Point)
    requires
        index < count,
        0 <= wm <= 0x1_0000_0000 * UNIT,
        0 <= hm <= 0x1_0000_0000 * UNIT,
    ensures
        (p.x as int, p.y as int) == grid_center(index as int, count as int, wm as int, hm as int),
        0 <= p.x <= wm,
        0 <= p.y <= hm,
{
    let cols = grid_columns(count);
    let rows = grid_row_count(count);
    let row = index / cols;
    let col = index % cols;
    let mx = if wm / 4 < GRID_MARGIN { wm / 4 } else { GRID_MARGIN };
    let my = if hm / 4 < GRID_MARGIN { hm / 4 } else { GRID_MARGIN };
    let cw = (wm - 2 * mx) / (cols as i64);
    let ch = (hm - 2 * my) / (rows as i64);
    proof {
        let (n, c, q) = (count as int, cols as int, rows as int);
        vstd::arithmetic::div_mod::lemma_fundamental_div_mod(n + c - 1, c);
        vstd::arithmetic::div_mod::lemma_mod_bound(n + c - 1, c);
        assert(c * q >= n);
        assert((index as int) < q * c) by (nonlinear_arith)
            requires (index as int) < n, c * q >= n;
        vstd::arithmetic::div_mod::lemma_multiply_divide_lt(index as int, c, q);
        vstd::arithmetic::div_mod::lemma_mod_bound(index as int, c);
        vstd::arithmetic::div_mod::lemma_fundamental_div_mod((wm - 2 * mx) as int, c);
        vstd::arithmetic::div_mod::lemma_mod_bound((wm - 2 * mx) as int, c);
        vstd::arithmetic::div_mod::lemma_fundamental_div_mod((hm - 2 * my) as int, q);
        vstd::arithmetic::div_mod::lemma_mod_bound((hm - 2 * my) as int, q);
        vstd::arithmetic::div_mod::lemma_div_pos_is_pos((wm - 2 * mx) as int, c);
        vstd::arithmetic::div_mod::lemma_div_pos_is_pos((hm - 2 * my) as int, q);
        assert(col * cw + cw <= c * cw) by (nonlinear_arith)
            requires 0 <= col < c, 0 <= cw;
        assert(row * ch + ch <= q * ch) by (nonlinear_arith)
            requires 0 <= row < q, 0 <= ch;
        assert(0 <= col * cw) by (nonlinear_arith)
            requires 0 <= col, 0 <= cw;
        assert(0 <= row * ch) by (nonlinear_arith)
            requires 0 <= row, 0 <= ch;
    }
    let x = mx + (col as i64) * cw + cw / 2;
    let y = my + (row as i64) * ch + ch / 2;
    Point { x, y }
}

/// Target position of node `index` of `count` under `mode`, at `clock_ms` on a
/// `width` by `height` canvas. Every target lies on the canvas.
pub fn target_position(
    mode: LayoutMode,
    index: usize,
    count: usize,
    clock_ms: u64,
    width: u32,
    height: u32,
) -> (p: Point)
    requires
        index < count,
        clock_ms < CLOCK_PERIOD_MS,
        1 <= width,
        1 <= height,
    ensures
        (p.x as int, p.y as int) == target_of(
            mode,
            index as int,
            count as int,
            clock_ms as int,
            width as int,
            height as int,
        ),
        0 <= p.x <= width * UNIT,
        0 <= p.y <= height * UNIT,
{
    let wm = width as i64 * UNIT;
    let hm = height as i64 * UNIT;
    let cx = wm / 2;
    let cy = hm / 2;
    let r = orbit_radius_of(width, height);
    match mode {
        LayoutMode::Orbit => {
            let share = ((index as u128) * (TURN as u128) / (count as u128)) as u64;
            proof {
                vstd::arithmetic::div_mod::lemma_multiply_divide_lt(
                    index * TURN,
                    count as int,
                    TURN as int,
                );
                assert(index * TURN < count * TURN) by (nonlinear_arith)
                    requires index < count;
            }
            assert(clock_ms * ORBIT_RATE <= CLOCK_PERIOD_MS * ORBIT_RATE) by (nonlinear_arith)
                requires clock_ms < CLOCK_PERIOD_MS;
            let a = (share + clock_ms * ORBIT_RATE / 1000) % TURN;
            let dx = scaled_offset(r, cos_steps(a));
            let dy = scaled_offset(r, sin_steps(a));
            Point { x: cx + dx, y: cy + dy }
        },
        LayoutMode::Float => {
            let ax = step_angle(index, FLOAT_X_STEP, clock_ms, FLOAT_X_RATE);
            let ay = step_angle(index, FLOAT_Y_STEP, clock_ms, FLOAT_Y_RATE);
            let dx = scaled_offset(r, sin_steps(ax));
            let dy = scaled_offset(r * 3 / 4, cos_steps(ay));
            Point { x: cx + dx, y: cy + dy }
        },
        LayoutMode::Grid => grid_position(index, count, wm, hm),
        LayoutMode::Wave => {
            let spacing = ((wm as u64) / (count as u64)) as i64;
            proof {
                let (n, sp) = (count as int, spacing as int);
                vstd::arithmetic::div_mod::lemma_fundamental_div_mod(wm as int, n);
                vstd::arithmetic::div_mod::lemma_mod_bound(wm as int, n);
                vstd::arithmetic::div_mod::lemma_div_pos_is_pos(wm as int, n);
                assert(index * sp + sp <= n * sp) by (nonlinear_arith)
                    requires 0 <= index < n, 0 <= sp;
                assert(0 <= index * sp) by (nonlinear_arith)
                    requires 0 <= index, 0 <= sp;
            }
            let x = ((index as u128) * (spacing as u128)) as i64 + spacing / 2;
            let a = step_angle(index, WAVE_STEP, clock_ms, WAVE_RATE);
            let dy = scaled_offset(r / 2, sin_steps(a));
            Point { x, y: cy + dy }
        },
        LayoutMode::Spiral => {
            let a = step_angle(index, SPIRAL_STEP, clock_ms, SPIRAL_RATE);
            let sr = if index < 10_000_000 && SPIRAL_BASE + (index as i64) * SPIRAL_GROWTH <= r {
                SPIRAL_BASE + (index as i64) * SPIRAL_GROWTH
            } else {
                r
            };
            let dx = scaled_offset(sr, cos_steps(a));
            let dy = scaled_offset(sr, sin_steps(a));
            Point { x: cx + dx, y: cy + dy }
        },
    }
}

proof fn lemma_ceil_sqrt_from_at_least(n: int, from: int)
    ensures
        ceil_sqrt_from(n, from) >= from,
    decreases n - from,
{
    if !(from >= n || from * from >= n) {
        lemma_ceil_sqrt_from_at_least(n, from + 1);
    }
}

/// The grid has at least one column, and at least one row, for every node count above zero.
pub proof fn lemma_grid_dims_positive(n: int)
    requires
        n > 0,
    ensures
        grid_cols(n) >= 1,
        grid_rows(n) >= 1,
        grid_cols(n) * grid_rows(n) >= n,
{
    lemma_ceil_sqrt_from_at_least(n, 1);
    let c = grid_cols(n);
    assert(c == ceil_sqrt_from(n, 1));
    vstd::arithmetic::div_mod::lemma_fundamental_div_mod(n + c - 1, c);
    vstd::arithmetic::div_mod::lemma_mod_bound(n + c - 1, c);
    vstd::arithmetic::div_mod::lemma_div_is_ordered(c, n + c - 1, c);
    vstd::arithmetic::div_mod::lemma_div_by_self(c);
}

/// The grid layout never puts two distinct nodes in the same (row, column) cell, and every
/// node's cell lies inside the grid.
pub proof fn lemma_grid_cells_distinct(i: int, j: int, n: int)
    requires
        0 <= i < n,
        0 <= j < n,
        i != j,
    ensures
        grid_cell(i, n) != grid_cell(j, n),
        0 <= grid_cell(i, n).0 < grid_rows(n),
        0 <= grid_cell(i, n).1 < grid_cols(n),
{
    lemma_grid_dims_positive(n);
    let c = grid_cols(n);
    let q = grid_rows(n);
    vstd::arithmetic::div_mod::lemma_fundamental_div_mod(i, c);
    vstd::arithmetic::div_mod::lemma_fundamental_div_mod(j, c);
    vstd::arithmetic::div_mod::lemma_mod_bound(i, c);
    vstd::arithmetic::div_mod::lemma_div_pos_is_pos(i, c);
    assert(i < c * q);
    vstd::arithmetic::div_mod::lemma_multiply_divide_lt(i, c, q);
}

/// Squaring a scaled offset: `SCALE² · scaled(len, v)²` lies between `len² · v² − 2 · len · SCALE²`
/// and `len² · v²`.
pub proof fn lemma_scaled_square(len: int, v: int)
    requires
        0 <= len,
        -SCALE <= v <= SCALE,
    ensures
        SCALE * SCALE * (scaled(len, v) * scaled(len, v)) <= len * len * (v * v),
        SCALE * SCALE * (scaled(len, v) * scaled(len, v)) + 2 * len * SCALE * SCALE >= len * len
            * (v * v),
{
    let s = SCALE as int;
    let m = if v >= 0 { v } else { -v };
    let p = len * m;
    assert(p >= 0) by (nonlinear_arith)
        requires len >= 0, m >= 0, p == len * m;
    let q0 = p / s;
    vstd::arithmetic::div_mod::lemma_fundamental_div_mod(p, s);
    vstd::arithmetic::div_mod::lemma_mod_bound(p, s);
    let a = s * q0;
    assert(a <= p && a > p - s && a >= 0);
    assert(scaled(len, v) * scaled(len, v) == q0 * q0) by (nonlinear_arith)
        requires scaled(len, v) == q0 || scaled(len, v) == -q0;
    assert(v * v == m * m) by (nonlinear_arith)
        requires m == v || m == -v;
    assert(s * s * (q0 * q0) == a * a) by (nonlinear_arith)
        requires a == s * q0;
    assert(len * len * (m * m) == p * p) by (nonlinear_arith)
        requires p == len * m;
    assert(a * a <= p * p) by (nonlinear_arith)
        requires 0 <= a <= p;
    assert(a * a + 2 * p * s >= p * p) by (nonlinear_arith)
        requires 0 <= a <= p, a > p - s, s > 0;
    assert(p * s <= len * s * s) by (nonlinear_arith)
        requires p == len * m, 0 <= m <= s, 0 <= len, s > 0;
}

/// Every orbit target lies at distance close to the orbit radius `r` from the canvas center:
/// with `d²` its squared distance, `SCALE² · d²` lies within `r² · PYTHAGORAS_SLACK` of
/// `SCALE² · r²`, less a rounding term of at most `4 · r · SCALE²`.
pub proof fn lemma_orbit_on_circle(i: int, n: int, clock: int, w: int, h: int)
    requires
        0 <= i < n,
        0 <= clock,
        1 <= w,
        1 <= h,
    ensures
        ({
            let (x, y) = target_of(LayoutMode::Orbit, i, n, clock, w, h);
            let dx = x - w * UNIT / 2;
            let dy = y - h * UNIT / 2;
            let r = orbit_radius(w, h);
            &&& SCALE * SCALE * (dx * dx + dy * dy) <= r * r * (SCALE * SCALE + PYTHAGORAS_SLACK)
            &&& SCALE * SCALE * (dx * dx + dy * dy) + 4 * r * SCALE * SCALE >= r * r * (SCALE
                * SCALE - PYTHAGORAS_SLACK)
        }),
{
    let a = orbit_angle(i, n, clock);
    let r = orbit_radius(w, h);
    let c = cosine(a);
    let sn = sine(a);
    lemma_pythagoras(a);
    assert(r >= 0);
    lemma_scaled_square(r, c);
    lemma_scaled_square(r, sn);
    let s = SCALE as int;
    let qx = scaled(r, c);
    let qy = scaled(r, sn);
    assert(s * s * (qx * qx + qy * qy) == s * s * (qx * qx) + s * s * (qy * qy)) by (nonlinear_arith);
    assert(r * r * (c * c) + r * r * (sn * sn) == r * r * (c * c + sn * sn)) by (nonlinear_arith);
    assert(r * r * (c * c + sn * sn) <= r * r * (s * s + PYTHAGORAS_SLACK)) by (nonlinear_arith)
        requires c * c + sn * sn <= s * s + PYTHAGORAS_SLACK;
    assert(r * r * (c * c + sn * sn) >= r * r * (s * s - PYTHAGORAS_SLACK)) by (nonlinear_arith)
        requires c * c + sn * sn >= s * s - PYTHAGORAS_SLACK;
}

/// Where grid cells have positive size, distinct nodes get distinct target points.
pub proof fn lemma_grid_points_distinct(i: int, j: int, n: int, wm: int, hm: int)
    requires
        0 <= i < n,
        0 <= j < n,
        i != j,
        grid_cell_width(n, wm) >= 1,
        grid_cell_height(n, hm) >= 1,
    ensures
        grid_center(i, n, wm, hm) != grid_center(j, n, wm, hm),
{
    lemma_grid_cells_distinct(i, j, n);
    let cw = grid_cell_width(n, wm);
    let ch = grid_cell_height(n, hm);
    let (ri, ci) = grid_cell(i, n);
    let (rj, cj) = grid_cell(j, n);
    if ci != cj {
        assert(ci * cw != cj * cw) by (nonlinear_arith)
            requires ci != cj, cw >= 1;
    } else {
        assert(ri * ch != rj * ch) by (nonlinear_arith)
            requires ri != rj, ch >= 1;
    }
}

} // verus!
