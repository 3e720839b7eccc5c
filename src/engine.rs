//! The animation controller and hit tester: per-node smoothed positions that follow the
//! active layout, a secondary bob on the y axis, and pointer hit-testing.
use vstd::prelude::*;
use crate::layout::{
    angle_of, lemma_scaled_bound, mode_named, parse_mode, scaled, scaled_offset, step_angle,
    target_of, target_position, LayoutMode, Point, CLOCK_PERIOD_MS, UNIT,
};
use crate::registry::{connected, entry_faulty, valid_entries, Skill, SkillRegistry};
use crate::trig::{
    lemma_pythagoras, lemma_sine_lipschitz, lemma_sine_periodic, sin_steps, sine, SCALE, SINE_STEP_MAX,
    TURN,
};

verus! {

/// Smoothing fraction: each tick closes `1 / SMOOTHING_DEN` of the gap to the target,
/// rounded up so that a gap never stalls.
pub const SMOOTHING_DEN: i64 = 20;

/// Amplitude of the vertical bob added on top of the smoothed position.
pub const BOB_AMPLITUDE: i64 = 10 * UNIT;

/// Bob rate, in angle steps per second.
pub const BOB_RATE: u64 = 81;

/// Bob phase step between consecutive nodes, so that nodes do not bob in lockstep.
pub const BOB_PHASE: u64 = 20;

/// Visual radius of a node of level 0.
pub const BASE_RADIUS: i64 = 8 * UNIT;

/// Visual radius added per level.
pub const RADIUS_PER_LEVEL: i64 = 250;

/// Extra distance around a node's radius that still counts as a hit.
pub const HIT_TOLERANCE: i64 = 10 * UNIT;

/// Largest distance at which any node can be hit: the hovered radius of the highest level,
/// `(BASE_RADIUS + MAX_LEVEL * RADIUS_PER_LEVEL) * 3 / 2`, plus `HIT_TOLERANCE`.
pub const MAX_REACH: i64 = 59_500;

/// Largest fixed-point coordinate of a point on the largest canvas.
pub const MAX_SPAN: i64 = 0xFFFF_FFFF * UNIT;

/// Vertical bob of node `i` at `clock`.
pub open spec fn bob(i: int, clock: int) -> int {
    scaled(BOB_AMPLITUDE as int, sine(angle_of(i, BOB_PHASE as int, clock, BOB_RATE as int)))
}

/// One smoothing step from `c` toward `t` on one axis.
pub open spec fn smooth_axis(c: int, t: int) -> int {
    if t >= c {
        c + (t - c + SMOOTHING_DEN - 1) / (SMOOTHING_DEN as int)
    } else {
        c - (c - t + SMOOTHING_DEN - 1) / (SMOOTHING_DEN as int)
    }
}

/// One smoothing step from `c` toward `t`.
pub open spec fn smooth_point(c: Point, t: Point) -> Point {
    Point { x: smooth_axis(c.x as int, t.x as int) as i64, y: smooth_axis(c.y as int, t.y as int) as i64 }
}

/// Squared distance between two points.
pub open spec fn dist2(a: Point, b: Point) -> int {
    (a.x - b.x) * (a.x - b.x) + (a.y - b.y) * (a.y - b.y)
}

/// Whether both coordinates lie in `0..=MAX_SPAN`.
pub open spec fn in_span(p: Point) -> bool {
    0 <= p.x <= MAX_SPAN && 0 <= p.y <= MAX_SPAN
}

/// The target of node `i` of `n` as a point.
pub open spec fn target_point(mode: LayoutMode, i: int, n: int, clock: int, w: int, h: int) -> Point {
    Point { x: target_of(mode, i, n, clock, w, h).0 as i64, y: target_of(mode, i, n, clock, w, h).1 as i64 }
}

/// Visual radius of a node of `level`; hovered nodes are drawn half again as large.
pub open spec fn visual_radius(level: int, hovered: bool) -> int {
    let r = BASE_RADIUS + level * RADIUS_PER_LEVEL;
    if hovered {
        r * 3 / 2
    } else {
        r
    }
}

/// Whether the pointer at (`px`, `py`) hits node `i`, drawn at its smoothed position plus its bob.
pub open spec fn node_hit(
    s: Seq<Skill>,
    pos: Seq<Point>,
    clock: int,
    hovered: Option<usize>,
    i: int,
    px: int,
    py: int,
) -> bool {
    let dx = px - pos[i].x;
    let dy = py - (pos[i].y + bob(i, clock));
    let reach = visual_radius(s[i].level as int, hovered == Some(i as usize)) + HIT_TOLERANCE;
    dx * dx + dy * dy <= reach * reach
}

/// Whether `r` is the first node, in registration order, that the pointer hits.
pub open spec fn first_hit(
    s: Seq<Skill>,
    pos: Seq<Point>,
    clock: int,
    hovered: Option<usize>,
    px: int,
    py: int,
    r: Option<usize>,
) -> bool {
    match r {
        Some(i) => i < s.len() && node_hit(s, pos, clock, hovered, i as int, px, py) && forall|j: int|
            0 <= j < i ==> !#[trigger] node_hit(s, pos, clock, hovered, j, px, py),
        None => forall|j: int| 0 <= j < s.len() ==> !#[trigger] node_hit(s, pos, clock, hovered, j, px, py),
    }
}

/// Lifecycle of an engine: ready until the first tick, running after it.
#[derive(Clone, Copy, Debug, PartialEq, Eq, Structural)]
pub enum EnginePhase {
    Ready,
    Running,
}

/// What the renderer needs of one node for one frame.
#[derive(Clone, Copy, Debug, PartialEq, Eq, Structural)]
pub struct NodeFrame {
    pub node_id: usize,
    pub x: i64,
    pub y: i64,
    pub radius: i64,
    pub is_hovered: bool,
    pub is_connected_to_hovered: bool,
}

/// The animated layout engine over one registry.
pub struct SkillsEngine {
    registry: SkillRegistry,
    mode: LayoutMode,
    width: u32,
    height: u32,
    clock_ms: u64,
    positions: Vec<Point>,
    targets: Vec<Point>,
    hovered: Option<usize>,
    running: bool,
}

/// The elapsed time after a tick of `dt` milliseconds: the sum, saturating at `u64::MAX`.
pub open spec fn advanced_clock(clock: int, dt: int) -> int {
    if clock + dt > u64::MAX {
        u64::MAX as int
    } else {
        clock + dt
    }
}

/// Where the elapsed time stands in `CLOCK_PERIOD_MS`, a common period of every time-dependent
/// angle: the clock that layouts and the bob read.
pub open spec fn phase_of(clock: int) -> int {
    clock % (CLOCK_PERIOD_MS as int)
}

/// Larger of `v` and 1: the clamp applied to canvas sides.
pub open spec fn at_least_one(v: u32) -> u32 {
    if v == 0 {
        1
    } else {
        v
    }
}

/// Vertical bob of node `index` at `clock_ms`.
fn bob_offset(index: usize, clock_ms: u64) -> (b: i64)
    requires
        clock_ms < CLOCK_PERIOD_MS,
    ensures
        b == bob(index as int, clock_ms as int),
        -BOB_AMPLITUDE <= b <= BOB_AMPLITUDE,
{
    let a = step_angle(index, BOB_PHASE, clock_ms, BOB_RATE);
    scaled_offset(BOB_AMPLITUDE, sin_steps(a))
}

/// One smoothing step on one axis; it never overshoots the target.
fn smooth_value(c: i64, t: i64) -> (r: i64)
    requires
        0 <= c <= MAX_SPAN,
        0 <= t <= MAX_SPAN,
    ensures
        r == smooth_axis(c as int, t as int),
        c <= t ==> c <= r <= t,
        t <= c ==> t <= r <= c,
{
    proof {
        lemma_smooth_axis_between(c as int, t as int);
    }
    if t >= c {
        c + (t - c + SMOOTHING_DEN - 1) / SMOOTHING_DEN
    } else {
        c - (c - t + SMOOTHING_DEN - 1) / SMOOTHING_DEN
    }
}

/// A smoothing step lands between the start and the target, strictly closer to the target
/// whenever the two differ.
pub proof fn lemma_smooth_axis_between(c: int, t: int)
    ensures
        c <= t ==> c <= smooth_axis(c, t) <= t,
        t <= c ==> t <= smooth_axis(c, t) <= c,
        c != t ==> smooth_axis(c, t) != c,
{
    let den = SMOOTHING_DEN as int;
    if c < t {
        let d = t - c;
        vstd::arithmetic::div_mod::lemma_div_is_ordered(den, d + den - 1, den);
        vstd::arithmetic::div_mod::lemma_div_by_self(den);
        vstd::arithmetic::div_mod::lemma_multiply_divide_lt(d + den - 1, den, d + 1);
    } else if t < c {
        let d = c - t;
        vstd::arithmetic::div_mod::lemma_div_is_ordered(den, d + den - 1, den);
        vstd::arithmetic::div_mod::lemma_div_by_self(den);
        vstd::arithmetic::div_mod::lemma_multiply_divide_lt(d + den - 1, den, d + 1);
    }
}

/// Targets of all `n` nodes under `mode`.
fn compute_targets(mode: LayoutMode, n: usize, clock_ms: u64, width: u32, height: u32) -> (v: Vec<Point>)
    requires
        clock_ms < CLOCK_PERIOD_MS,
        1 <= width,
        1 <= height,
    ensures
        v@.len() == n,
        forall|i: int|
            0 <= i < n ==> #[trigger] v@[i] == target_point(mode, i, n as int, clock_ms as int, width as int, height as int)
                && in_span(v@[i]),
{
    let mut v: Vec<Point> = Vec::new();
    let mut i: usize = 0;
    while i < n
        invariant
            i <= n,
            v@.len() == i,
            clock_ms < CLOCK_PERIOD_MS,
            1 <= width,
            1 <= height,
            forall|k: int|
                0 <= k < i ==> #[trigger] v@[k] == target_point(mode, k, n as int, clock_ms as int, width as int, height as int)
                    && in_span(v@[k]),
        decreases n - i,
    {
        let p = target_position(mode, i, n, clock_ms, width, height);
        v.push(p);
        i = i + 1;
    }
    v
}

/// Whether every target is the active layout's position for the node at the engine's clock and
/// canvas size.
pub open spec fn targets_fresh(e: SkillsEngine) -> bool {
    let n = e.entries().len();
    &&& e.targets().len() == n
    &&& forall|i: int|
        0 <= i < n ==> #[trigger] e.targets()[i] == target_point(
            e.layout(),
            i,
            n as int,
            e.cycle_clock(),
            e.width() as int,
            e.height() as int,
        )
}

/// How one tick of `dt` milliseconds relates the engine before and after it: the clock
/// advances by `dt` (saturating), every target is recomputed, and when `dt > 0` every smoothed
/// position takes one smoothing step toward its new target.
pub open spec fn ticked(before: SkillsEngine, after: SkillsEngine, dt: int) -> bool {
    let n = before.entries().len();
    &&& after.entries() == before.entries()
    &&& after.layout() == before.layout()
    &&& after.width() == before.width()
    &&& after.height() == before.height()
    &&& after.hovered() == before.hovered()
    &&& after.clock() == advanced_clock(before.clock(), dt)
    &&& after.running()
    &&& after.smoothed().len() == n
    &&& targets_fresh(after)
    &&& forall|i: int|
        0 <= i < n ==> #[trigger] after.smoothed()[i] == if dt > 0 {
            smooth_point(before.smoothed()[i], after.targets()[i])
        } else {
            before.smoothed()[i]
        }
}

impl SkillsEngine {
    /// The registered nodes.
    pub closed spec fn entries(&self) -> Seq<Skill> {
        self.registry.entries()
    }

    /// The active layout.
    pub closed spec fn layout(&self) -> LayoutMode {
        self.mode
    }

    pub closed spec fn width(&self) -> u32 {
        self.width
    }

    pub closed spec fn height(&self) -> u32 {
        self.height
    }

    /// Elapsed milliseconds, the sum of every tick's `dt` (saturating at `u64::MAX`).
    pub closed spec fn clock(&self) -> int {
        self.clock_ms as int
    }

    /// The elapsed time modulo `CLOCK_PERIOD_MS`.
    pub open spec fn cycle_clock(&self) -> int {
        phase_of(self.clock())
    }

    /// Smoothed positions, by node id.
    pub closed spec fn smoothed(&self) -> Seq<Point> {
        self.positions@
    }

    /// Current targets, by node id.
    pub closed spec fn targets(&self) -> Seq<Point> {
        self.targets@
    }

    /// The hovered node, if any.
    pub closed spec fn hovered(&self) -> Option<usize> {
        self.hovered
    }

    /// Whether the engine has ticked at least once.
    pub closed spec fn running(&self) -> bool {
        self.running
    }

    /// The engine's invariant: one smoothed position and one fresh target per node, all on the
    /// largest canvas, and a canvas of positive size.
    pub closed spec fn wf(&self) -> bool {
        let n = self.registry.entries().len();
        &&& self.positions@.len() == n
        &&& self.targets@.len() == n
        &&& valid_entries(self.registry.entries())
        &&& 1 <= self.width
        &&& 1 <= self.height
        &&& forall|i: int|
            0 <= i < n ==> #[trigger] self.targets@[i] == target_point(
                self.mode,
                i,
                n as int,
                phase_of(self.clock_ms as int),
                self.width as int,
                self.height as int,
            ) && in_span(self.targets@[i])
        &&& forall|i: int| 0 <= i < n ==> #[trigger] in_span(self.positions@[i])
        &&& self.hovered matches Some(h) ==> h < n
    }

    /// Y coordinate at which node `i` is drawn: its smoothed position plus its bob.
    pub open spec fn drawn_y(&self, i: int) -> int {
        self.smoothed()[i].y + bob(i, self.cycle_clock())
    }

    /// Starts an engine over `registry` on a `width` by `height` canvas (each side at least 1),
    /// in the orbit layout, with every node at the canvas center.
    pub fn new(registry: SkillRegistry, width: u32, height: u32) -> (e: SkillsEngine)
        ensures
            e.wf(),
            targets_fresh(e),
            e.smoothed().len() == e.entries().len(),
            e.entries() == registry.entries(),
            e.layout() == LayoutMode::Orbit,
            e.width() == at_least_one(width),
            e.height() == at_least_one(height),
            e.clock() == 0,
            e.hovered() is None,
            !e.running(),
            forall|i: int|
                0 <= i < e.entries().len() ==> #[trigger] e.smoothed()[i] == (Point {
                    x: (at_least_one(width) * UNIT / 2) as i64,
                    y: (at_least_one(height) * UNIT / 2) as i64,
                }),
    {
        let n = registry.len();
        let w = if width == 0 { 1 } else { width };
        let h = if height == 0 { 1 } else { height };
        let center = Point { x: w as i64 * UNIT / 2, y: h as i64 * UNIT / 2 };
        let mut positions: Vec<Point> = Vec::new();
        let mut i: usize = 0;
        while i < n
            invariant
                i <= n,
                positions@.len() == i,
                in_span(center),
                forall|k: int| 0 <= k < i ==> #[trigger] positions@[k] == center,
            decreases n - i,
        {
            positions.push(center);
            i = i + 1;
        }
        let targets = compute_targets(LayoutMode::Orbit, n, 0, w, h);
        SkillsEngine {
            registry,
            mode: LayoutMode::Orbit,
            width: w,
            height: h,
            clock_ms: 0,
            positions,
            targets,
            hovered: None,
            running: false,
        }
    }
}

impl SkillsEngine {
    /// Switches to `mode` and recomputes every target; smoothed positions carry over, so the
    /// nodes glide to the new layout.
    pub fn set_layout(&mut self, mode: LayoutMode)
        requires
            old(self).wf(),
        ensures
            final(self).wf(),
            final(self).smoothed().len() == final(self).entries().len(),
            targets_fresh(*final(self)),
            final(self).layout() == mode,
            final(self).entries() == old(self).entries(),
            final(self).width() == old(self).width(),
            final(self).height() == old(self).height(),
            final(self).clock() == old(self).clock(),
            final(self).smoothed() == old(self).smoothed(),
            final(self).hovered() == old(self).hovered(),
            final(self).running() == old(self).running(),
    {
        let n = self.positions.len();
        self.mode = mode;
        self.targets = compute_targets(mode, n, self.clock_ms % CLOCK_PERIOD_MS, self.width, self.height);
    }

    /// Switches to the layout named `name`; an unknown name keeps the current layout.
    pub fn set_mode(&mut self, name: &str)
        requires
            old(self).wf(),
        ensures
            final(self).wf(),
            final(self).smoothed().len() == final(self).entries().len(),
            targets_fresh(*final(self)),
            final(self).layout() == match mode_named(name@) {
                Some(m) => m,
                None => old(self).layout(),
            },
            final(self).entries() == old(self).entries(),
            final(self).width() == old(self).width(),
            final(self).height() == old(self).height(),
            final(self).clock() == old(self).clock(),
            final(self).smoothed() == old(self).smoothed(),
            final(self).hovered() == old(self).hovered(),
            final(self).running() == old(self).running(),
    {
        match parse_mode(name) {
            Some(m) => self.set_layout(m),
            None => {},
        }
    }

    /// Changes the canvas size, each side clamped to at least 1, and moves every node straight
    /// to its new target.
    pub fn resize(&mut self, width: u32, height: u32)
        requires
            old(self).wf(),
        ensures
            final(self).wf(),
            final(self).smoothed().len() == final(self).entries().len(),
            targets_fresh(*final(self)),
            final(self).width() == at_least_one(width),
            final(self).height() == at_least_one(height),
            final(self).entries() == old(self).entries(),
            final(self).layout() == old(self).layout(),
            final(self).clock() == old(self).clock(),
            final(self).hovered() == old(self).hovered(),
            final(self).running() == old(self).running(),
            final(self).smoothed() == final(self).targets(),
    {
        let n = self.positions.len();
        let w = if width == 0 { 1 } else { width };
        let h = if height == 0 { 1 } else { height };
        self.width = w;
        self.height = h;
        self.targets = compute_targets(self.mode, n, self.clock_ms % CLOCK_PERIOD_MS, w, h);
        self.positions = compute_targets(self.mode, n, self.clock_ms % CLOCK_PERIOD_MS, w, h);
        assert(self.positions@ =~= self.targets@);
    }

    /// Advances the clock by `dt_ms`, recomputes every target, and, when `dt_ms > 0`, moves every
    /// smoothed position one step toward its target. A tick of 0 leaves every position as it is.
    pub fn tick(&mut self, dt_ms: u64)
        requires
            old(self).wf(),
        ensures
            final(self).wf(),
            final(self).smoothed().len() == final(self).entries().len(),
            ticked(*old(self), *final(self), dt_ms as int),
    {
        let n = self.positions.len();
        self.clock_ms = if dt_ms > u64::MAX - self.clock_ms {
            u64::MAX
        } else {
            self.clock_ms + dt_ms
        };
        let targets = compute_targets(self.mode, n, self.clock_ms % CLOCK_PERIOD_MS, self.width, self.height);
        if dt_ms > 0 {
            let mut positions: Vec<Point> = Vec::new();
            let mut i: usize = 0;
            while i < n
                invariant
                    i <= n,
                    n == self.positions@.len(),
                    targets@.len() == n,
                    positions@.len() == i,
                    forall|k: int| 0 <= k < n ==> #[trigger] in_span(self.positions@[k]),
                    forall|k: int| 0 <= k < n ==> #[trigger] in_span(targets@[k]),
                    forall|k: int|
                        0 <= k < i ==> #[trigger] positions@[k] == smooth_point(self.positions@[k], targets@[k])
                            && in_span(positions@[k]),
                decreases n - i,
            {
                let c = self.positions[i];
                let t = targets[i];
                assert(in_span(self.positions@[i as int]) && in_span(targets@[i as int]));
                let p = Point { x: smooth_value(c.x, t.x), y: smooth_value(c.y, t.y) };
                positions.push(p);
                i = i + 1;
            }
            self.positions = positions;
        }
        self.targets = targets;
        self.running = true;
    }

    /// Whether the pointer at (`px`, `py`) hits node `i`.
    fn hits_node(&self, i: usize, px: i64, py: i64) -> (r: bool)
        requires
            self.wf(),
            i < self.entries().len(),
        ensures
            r == node_hit(self.entries(), self.smoothed(), self.cycle_clock(), self.hovered(), i as int, px as int, py as int),
    {
        let p = self.positions[i];
        assert(in_span(self.positions@[i as int]));
        let y = p.y + bob_offset(i, self.clock_ms % CLOCK_PERIOD_MS);
        let skill = self.registry.get(i).unwrap();
        assert(!entry_faulty(self.entries(), i as int));
        let base = BASE_RADIUS + (skill.level as i64) * RADIUS_PER_LEVEL;
        let is_hovered = match self.hovered {
            Some(h) => h == i,
            None => false,
        };
        let radius = if is_hovered { base * 3 / 2 } else { base };
        let reach = (radius + HIT_TOLERANCE) as i128;
        let dx = px as i128 - p.x as i128;
        let dy = py as i128 - y as i128;
        if dx > reach || -dx > reach || dy > reach || -dy > reach {
            assert(dx * dx + dy * dy > reach * reach) by (nonlinear_arith)
                requires reach >= 0, dx > reach || -dx > reach || dy > reach || -dy > reach;
            return false;
        }
        assert(reach <= MAX_REACH);
        assert(0 <= dx * dx <= MAX_REACH * MAX_REACH && 0 <= dy * dy <= MAX_REACH * MAX_REACH && reach * reach <= MAX_REACH * MAX_REACH) by (nonlinear_arith)
            requires -reach <= dx <= reach, -reach <= dy <= reach, 0 <= reach <= MAX_REACH;
        dx * dx + dy * dy <= reach * reach
    }

    /// The first node, in registration order, whose drawn disc (widened by `HIT_TOLERANCE`)
    /// holds the pointer; not necessarily the nearest.
    pub fn hit_test(&self, px: i64, py: i64) -> (r: Option<usize>)
        requires
            self.wf(),
        ensures
            first_hit(self.entries(), self.smoothed(), self.cycle_clock(), self.hovered(), px as int, py as int, r),
    {
        let n = self.positions.len();
        let mut i: usize = 0;
        while i < n
            invariant
                self.wf(),
                n == self.entries().len(),
                i <= n,
                forall|j: int|
                    0 <= j < i ==> !#[trigger] node_hit(
                        self.entries(),
                        self.smoothed(),
                        self.cycle_clock(),
                        self.hovered(),
                        j,
                        px as int,
                        py as int,
                    ),
            decreases n - i,
        {
            if self.hits_node(i, px, py) {
                return Some(i);
            }
            i = i + 1;
        }
        None
    }

    /// Moves the pointer to (`px`, `py`): the hovered node becomes the first node it hits.
    pub fn pointer_move(&mut self, px: i64, py: i64)
        requires
            old(self).wf(),
        ensures
            final(self).wf(),
            final(self).smoothed().len() == final(self).entries().len(),
            first_hit(old(self).entries(), old(self).smoothed(), old(self).cycle_clock(), old(self).hovered(), px as int, py as int, final(self).hovered()),
            final(self).entries() == old(self).entries(),
            final(self).layout() == old(self).layout(),
            final(self).width() == old(self).width(),
            final(self).height() == old(self).height(),
            final(self).clock() == old(self).clock(),
            final(self).smoothed() == old(self).smoothed(),
            final(self).targets() == old(self).targets(),
            final(self).running() == old(self).running(),
    {
        let r = self.hit_test(px, py);
        self.hovered = r;
    }

    /// Forgets the hovered node, as when the pointer leaves the canvas.
    pub fn clear_hover(&mut self)
        requires
            old(self).wf(),
        ensures
            final(self).wf(),
            final(self).smoothed().len() == final(self).entries().len(),
            final(self).hovered() is None,
            final(self).entries() == old(self).entries(),
            final(self).layout() == old(self).layout(),
            final(self).width() == old(self).width(),
            final(self).height() == old(self).height(),
            final(self).clock() == old(self).clock(),
            final(self).smoothed() == old(self).smoothed(),
            final(self).targets() == old(self).targets(),
            final(self).running() == old(self).running(),
    {
        self.hovered = None;
    }

    /// The hovered node, if any.
    pub fn hovered_skill(&self) -> (r: Option<usize>)
        ensures
            r == self.hovered(),
    {
        self.hovered
    }

    /// Ready until the first tick, running after it.
    pub fn phase(&self) -> (r: EnginePhase)
        ensures
            r == (if self.running() { EnginePhase::Running } else { EnginePhase::Ready }),
    {
        if self.running {
            EnginePhase::Running
        } else {
            EnginePhase::Ready
        }
    }

    /// The active layout.
    pub fn mode(&self) -> (r: LayoutMode)
        ensures
            r == self.layout(),
    {
        self.mode
    }

    /// Canvas size as (width, height).
    pub fn canvas_size(&self) -> (r: (u32, u32))
        ensures
            r == (self.width(), self.height()),
    {
        (self.width, self.height)
    }

    /// Elapsed milliseconds: the sum of every tick's `dt`, saturating at `u64::MAX`.
    pub fn clock_ms(&self) -> (r: u64)
        ensures
            r == self.clock(),
    {
        self.clock_ms
    }

    /// The registry the engine animates.
    pub fn registry(&self) -> (r: &SkillRegistry)
        ensures
            r.entries() == self.entries(),
    {
        &self.registry
    }

    /// Number of nodes.
    pub fn node_count(&self) -> (n: usize)
        requires
            self.wf(),
        ensures
            n == self.entries().len(),
    {
        self.positions.len()
    }

    /// Current target of node `i`.
    pub fn target(&self, i: usize) -> (p: Point)
        requires
            self.wf(),
            i < self.entries().len(),
        ensures
            p == self.targets()[i as int],
    {
        self.targets[i]
    }

    /// Smoothed position of node `i`, without its bob.
    pub fn smoothed_position(&self, i: usize) -> (p: Point)
        requires
            self.wf(),
            i < self.entries().len(),
        ensures
            p == self.smoothed()[i as int],
    {
        self.positions[i]
    }

    /// Position at which node `i` is drawn: its smoothed position plus its bob.
    pub fn position(&self, i: usize) -> (p: Point)
        requires
            self.wf(),
            i < self.entries().len(),
        ensures
            p.x == self.smoothed()[i as int].x,
            p.y == self.drawn_y(i as int),
    {
        let c = self.positions[i];
        assert(in_span(self.positions@[i as int]));
        Point { x: c.x, y: c.y + bob_offset(i, self.clock_ms % CLOCK_PERIOD_MS) }
    }

    /// Geometry and state of every node for the renderer, in registration order.
    pub fn frame(&self) -> (v: Vec<NodeFrame>)
        requires
            self.wf(),
        ensures
            v@.len() == self.entries().len(),
            forall|i: int|
                0 <= i < v@.len() ==> #[trigger] v@[i] == (NodeFrame {
                    node_id: i as usize,
                    x: self.smoothed()[i].x,
                    y: self.drawn_y(i) as i64,
                    radius: visual_radius(
                        self.entries()[i].level as int,
                        self.hovered() == Some(i as usize),
                    ) as i64,
                    is_hovered: self.hovered() == Some(i as usize),
                    is_connected_to_hovered: match self.hovered() {
                        Some(h) => connected(self.entries(), h as int, i),
                        None => false,
                    },
                }),
    {
        let n = self.positions.len();
        let mut v: Vec<NodeFrame> = Vec::new();
        let mut i: usize = 0;
        while i < n
            invariant
                self.wf(),
                n == self.entries().len(),
                i <= n,
                v@.len() == i,
                forall|k: int|
                    0 <= k < i ==> #[trigger] v@[k] == (NodeFrame {
                        node_id: k as usize,
                        x: self.smoothed()[k].x,
                        y: self.drawn_y(k) as i64,
                        radius: visual_radius(
                            self.entries()[k].level as int,
                            self.hovered() == Some(k as usize),
                        ) as i64,
                        is_hovered: self.hovered() == Some(k as usize),
                        is_connected_to_hovered: match self.hovered() {
                            Some(h) => connected(self.entries(), h as int, k),
                            None => false,
                        },
                    }),
            decreases n - i,
        {
            let p = self.position(i);
            let skill = self.registry.get(i).unwrap();
            assert(!entry_faulty(self.entries(), i as int));
            let base = BASE_RADIUS + (skill.level as i64) * RADIUS_PER_LEVEL;
            let (is_hovered, linked) = match self.hovered {
                Some(h) => (h == i, self.registry.is_connected(h, i)),
                None => (false, false),
            };
            let radius = if is_hovered { base * 3 / 2 } else { base };
            v.push(NodeFrame { node_id: i, x: p.x, y: p.y, radius, is_hovered, is_connected_to_hovered: linked });
            i = i + 1;
        }
        v
    }
}

/// Absolute value.
pub open spec fn abs_int(v: int) -> int {
    if v >= 0 {
        v
    } else {
        -v
    }
}

/// One smoothing step on one axis never moves away from the target, and strictly closes a
/// nonzero gap.
proof fn lemma_axis_closer(c: int, t: int)
    ensures
        (smooth_axis(c, t) - t) * (smooth_axis(c, t) - t) <= (c - t) * (c - t),
        c != t ==> (smooth_axis(c, t) - t) * (smooth_axis(c, t) - t) < (c - t) * (c - t),
{
    lemma_smooth_axis_between(c, t);
    let m = smooth_axis(c, t);
    if c <= t {
        assert((m - t) * (m - t) <= (c - t) * (c - t)) by (nonlinear_arith)
            requires c <= m <= t;
        if c != t {
            assert((m - t) * (m - t) < (c - t) * (c - t)) by (nonlinear_arith)
                requires c < m <= t;
        }
    } else {
        assert((m - t) * (m - t) <= (c - t) * (c - t)) by (nonlinear_arith)
            requires t <= m <= c;
        assert((m - t) * (m - t) < (c - t) * (c - t)) by (nonlinear_arith)
            requires t <= m < c;
    }
}

/// With its target held fixed, a tick of `dt > 0` brings node `i` strictly closer to its target,
/// unless it is already there, and never farther.
pub proof fn lemma_tick_approaches_target(before: SkillsEngine, after: SkillsEngine, dt: int, i: int)
    requires
        before.wf(),
        ticked(before, after, dt),
        dt > 0,
        0 <= i < before.entries().len(),
        after.targets()[i] == before.targets()[i],
    ensures
        dist2(after.smoothed()[i], after.targets()[i]) <= dist2(before.smoothed()[i], before.targets()[i]),
        before.smoothed()[i] != before.targets()[i] ==> dist2(after.smoothed()[i], after.targets()[i])
            < dist2(before.smoothed()[i], before.targets()[i]),
{
    let c = before.smoothed()[i];
    let t = before.targets()[i];
    assert(in_span(c) && in_span(t));
    lemma_smooth_axis_between(c.x as int, t.x as int);
    lemma_smooth_axis_between(c.y as int, t.y as int);
    lemma_axis_closer(c.x as int, t.x as int);
    lemma_axis_closer(c.y as int, t.y as int);
    let m = after.smoothed()[i];
    assert(m.x == smooth_axis(c.x as int, t.x as int));
    assert(m.y == smooth_axis(c.y as int, t.y as int));
}

/// Whatever happened before the tick (a layout switch included), a tick moves node `i`, on each
/// axis, by at most `1 / SMOOTHING_DEN` of its gap to the new target, rounded up; on the y axis
/// the bob adds at most twice its amplitude.
pub proof fn lemma_tick_step_bounded(before: SkillsEngine, after: SkillsEngine, dt: int, i: int)
    requires
        before.wf(),
        after.wf(),
        ticked(before, after, dt),
        0 <= i < before.entries().len(),
    ensures
        SMOOTHING_DEN * abs_int(after.smoothed()[i].x - before.smoothed()[i].x) <= abs_int(
            after.targets()[i].x - before.smoothed()[i].x,
        ) + SMOOTHING_DEN - 1,
        SMOOTHING_DEN * (abs_int(after.drawn_y(i) - before.drawn_y(i)) - 2 * BOB_AMPLITUDE) <= abs_int(
            after.targets()[i].y - before.smoothed()[i].y,
        ) + SMOOTHING_DEN - 1,
{
    let c = before.smoothed()[i];
    let t = after.targets()[i];
    let den = SMOOTHING_DEN as int;
    assert(in_span(c));
    assert(in_span(t));
    lemma_smooth_axis_between(c.x as int, t.x as int);
    lemma_smooth_axis_between(c.y as int, t.y as int);
    let dx = abs_int(t.x - c.x);
    let dy = abs_int(t.y - c.y);
    vstd::arithmetic::div_mod::lemma_fundamental_div_mod(dx + den - 1, den);
    vstd::arithmetic::div_mod::lemma_mod_bound(dx + den - 1, den);
    vstd::arithmetic::div_mod::lemma_fundamental_div_mod(dy + den - 1, den);
    vstd::arithmetic::div_mod::lemma_mod_bound(dy + den - 1, den);
    lemma_scaled_bound(BOB_AMPLITUDE as int, sine(angle_of(i, BOB_PHASE as int, before.cycle_clock(), BOB_RATE as int)));
    lemma_scaled_bound(BOB_AMPLITUDE as int, sine(angle_of(i, BOB_PHASE as int, after.cycle_clock(), BOB_RATE as int)));
    lemma_pythagoras(angle_of(i, BOB_PHASE as int, before.cycle_clock(), BOB_RATE as int));
    lemma_pythagoras(angle_of(i, BOB_PHASE as int, after.cycle_clock(), BOB_RATE as int));
}

/// A pointer placed exactly where node `i` is drawn hits node `i`, unless an earlier node
/// also covers that point.
pub proof fn lemma_hit_at_drawn_position(e: SkillsEngine, i: int, r: Option<usize>)
    requires
        e.wf(),
        0 <= i < e.entries().len(),
        first_hit(e.entries(), e.smoothed(), e.cycle_clock(), e.hovered(), e.smoothed()[i].x as int, e.drawn_y(i), r),
        forall|j: int|
            0 <= j < i ==> !#[trigger] node_hit(
                e.entries(),
                e.smoothed(),
                e.cycle_clock(),
                e.hovered(),
                j,
                e.smoothed()[i].x as int,
                e.drawn_y(i),
            ),
    ensures
        r == Some(i as usize),
{
    let px = e.smoothed()[i].x as int;
    let py = e.drawn_y(i);
    assert(node_hit(e.entries(), e.smoothed(), e.cycle_clock(), e.hovered(), i, px, py)) by {
        let reach = visual_radius(e.entries()[i].level as int, e.hovered() == Some(i as usize)) + HIT_TOLERANCE;
        assert(0 <= reach * reach) by (nonlinear_arith);
    }
    match r {
        Some(k) => {
            if (k as int) > i {
                assert(!node_hit(e.entries(), e.smoothed(), e.cycle_clock(), e.hovered(), i, px, py));
            }
        },
        None => {
            assert(!node_hit(e.entries(), e.smoothed(), e.cycle_clock(), e.hovered(), i, px, py));
        },
    }
}

/// A pointer farther than `MAX_REACH` on some axis from every drawn node hits nothing.
pub proof fn lemma_far_pointer_misses(e: SkillsEngine, px: int, py: int, r: Option<usize>)
    requires
        e.wf(),
        first_hit(e.entries(), e.smoothed(), e.cycle_clock(), e.hovered(), px, py, r),
        forall|j: int|
            0 <= j < e.entries().len() ==> abs_int(px - e.smoothed()[j].x) > MAX_REACH || abs_int(
                py - #[trigger] e.drawn_y(j),
            ) > MAX_REACH,
    ensures
        r is None,
{
    assert forall|j: int| 0 <= j < e.entries().len() implies !#[trigger] node_hit(
        e.entries(),
        e.smoothed(),
        e.cycle_clock(),
        e.hovered(),
        j,
        px,
        py,
    ) by {
        assert(!entry_faulty(e.entries(), j));
        let dx = px - e.smoothed()[j].x;
        let dy = py - e.drawn_y(j);
        let reach = visual_radius(e.entries()[j].level as int, e.hovered() == Some(j as usize)) + HIT_TOLERANCE;
        assert(0 <= reach <= MAX_REACH);
        assert(dx * dx + dy * dy > reach * reach) by (nonlinear_arith)
            requires 0 <= reach <= MAX_REACH, abs_int(dx) > MAX_REACH || abs_int(dy) > MAX_REACH;
    }
    if let Some(k) = r {
        assert(!node_hit(e.entries(), e.smoothed(), e.cycle_clock(), e.hovered(), k as int, px, py));
    }
}

/// Longest tick, in milliseconds, over which the bob is guaranteed to move by at most its
/// amplitude.
pub const FRAME_MS_MAX: u64 = 400;

/// A scaled offset is within one unit of the exact product: `SCALE · scaled(len, v)` lies
/// strictly within `SCALE` of `len · v`.
proof fn lemma_scaled_near(len: int, v: int)
    requires
        0 <= len,
    ensures
        -SCALE < SCALE * scaled(len, v) - len * v < SCALE,
{
    let s = SCALE as int;
    if v >= 0 {
        assert(len * v >= 0) by (nonlinear_arith)
            requires len >= 0, v >= 0;
        vstd::arithmetic::div_mod::lemma_fundamental_div_mod(len * v, s);
        vstd::arithmetic::div_mod::lemma_mod_bound(len * v, s);
    } else {
        assert(len * (-v) >= 0) by (nonlinear_arith)
            requires len >= 0, v < 0;
        assert(len * (-v) == -(len * v)) by (nonlinear_arith);
        vstd::arithmetic::div_mod::lemma_fundamental_div_mod(len * (-v), s);
        vstd::arithmetic::div_mod::lemma_mod_bound(len * (-v), s);
    }
}

/// The unreduced bob angle of node `i` at `clock`.
spec fn bob_phase(i: int, clock: int) -> int {
    i * BOB_PHASE + clock * BOB_RATE / 1000
}

/// Over a tick of at most `FRAME_MS_MAX` milliseconds, a node's bob moves by at most its
/// amplitude.
proof fn lemma_bob_step(i: int, clock: int, dt: int)
    requires
        0 <= clock,
        0 <= dt <= FRAME_MS_MAX,
    ensures
        abs_int(bob(i, phase_of(clock + dt)) - bob(i, phase_of(clock))) <= BOB_AMPLITUDE,
{
    let p = CLOCK_PERIOD_MS as int;
    vstd::arithmetic::div_mod::lemma_add_mod_noop(clock, dt, p);
    vstd::arithmetic::div_mod::lemma_mod_bound(clock, p);
    vstd::arithmetic::div_mod::lemma_mod_twice(dt, p);
    vstd::arithmetic::div_mod::lemma_small_mod(dt as nat, p as nat);
    lemma_bob_step_reduced(i, phase_of(clock), dt);
}

/// `lemma_bob_step` for a clock already reduced modulo `CLOCK_PERIOD_MS`.
proof fn lemma_bob_step_reduced(i: int, clock: int, dt: int)
    requires
        0 <= clock < CLOCK_PERIOD_MS,
        0 <= dt <= FRAME_MS_MAX,
    ensures
        abs_int(bob(i, (clock + dt) % (CLOCK_PERIOD_MS as int)) - bob(i, clock)) <= BOB_AMPLITUDE,
{
    if dt == 0 {
        vstd::arithmetic::div_mod::lemma_small_mod(clock as nat, CLOCK_PERIOD_MS as nat);
    }
    if dt > 0 {
        let p = CLOCK_PERIOD_MS as int;
        let r = BOB_RATE as int;
        let c2 = (clock + dt) % p;
        let k = (clock + dt) / p;
        vstd::arithmetic::div_mod::lemma_fundamental_div_mod(clock + dt, p);
        vstd::arithmetic::div_mod::lemma_mod_bound(clock + dt, p);
        // the unreduced angles after the tick, with and without the clock's wrap
        assert((clock + dt) * r == c2 * r + (k * r * TURN) * 1000) by (nonlinear_arith)
            requires clock + dt == p * k + c2, p == 256000;
        vstd::arithmetic::div_mod::lemma_hoist_over_denominator(c2 * r, k * r * TURN, 1000);
        let u0 = bob_phase(i, clock);
        let u1 = bob_phase(i, clock + dt);
        assert(bob_phase(i, c2) + (k * r) * TURN == u1) by (nonlinear_arith)
            requires
                c2 * r / 1000 + k * r * TURN == (clock + dt) * r / 1000,
                bob_phase(i, c2) == i * BOB_PHASE + c2 * r / 1000,
                u1 == i * BOB_PHASE + (clock + dt) * r / 1000;
        lemma_sine_periodic(bob_phase(i, c2), k * r);
        // the angle advances by at most dt · rate / 1000 + 1 steps
        vstd::arithmetic::div_mod::lemma_fundamental_div_mod(clock * r, 1000);
        vstd::arithmetic::div_mod::lemma_mod_bound(clock * r, 1000);
        vstd::arithmetic::div_mod::lemma_fundamental_div_mod(dt * r, 1000);
        vstd::arithmetic::div_mod::lemma_mod_bound(dt * r, 1000);
        vstd::arithmetic::div_mod::lemma_fundamental_div_mod((clock + dt) * r, 1000);
        vstd::arithmetic::div_mod::lemma_mod_bound((clock + dt) * r, 1000);
        assert((clock + dt) * r == clock * r + dt * r) by (nonlinear_arith);
        vstd::arithmetic::div_mod::lemma_div_is_ordered(dt * r, FRAME_MS_MAX * r, 1000);
        let d = u1 - u0;
        assert(0 <= d <= 33);
        lemma_sine_lipschitz(u0, d);
        // reducing the angle modulo a turn does not change its sine
        vstd::arithmetic::div_mod::lemma_mod_twice(u0, TURN as int);
        vstd::arithmetic::div_mod::lemma_mod_twice(bob_phase(i, c2), TURN as int);
        assert(sine(angle_of(i, BOB_PHASE as int, clock, r)) == sine(u0));
        assert(sine(angle_of(i, BOB_PHASE as int, c2, r)) == sine(bob_phase(i, c2)));
        let s0 = sine(u0);
        let s1 = sine(u1);
        lemma_scaled_near(BOB_AMPLITUDE as int, s0);
        lemma_scaled_near(BOB_AMPLITUDE as int, s1);
        let b0 = bob(i, clock);
        let b1 = bob(i, c2);
        assert(b0 == scaled(BOB_AMPLITUDE as int, s0));
        assert(b1 == scaled(BOB_AMPLITUDE as int, s1));
        assert(-SINE_STEP_MAX * 33 <= s1 - s0 <= SINE_STEP_MAX * 33);
        assert(SCALE * abs_int(b1 - b0) < BOB_AMPLITUDE * (SINE_STEP_MAX * 33) + 2 * SCALE) by (nonlinear_arith)
            requires
                -SCALE < SCALE * b0 - BOB_AMPLITUDE * s0 < SCALE,
                -SCALE < SCALE * b1 - BOB_AMPLITUDE * s1 < SCALE,
                -SINE_STEP_MAX * 33 <= s1 - s0 <= SINE_STEP_MAX * 33;
    }
}

/// For ticks of at most `FRAME_MS_MAX` milliseconds, a layout switch included, a tick moves
/// node `i` on the y axis by at most `1 / SMOOTHING_DEN` of its gap to the new target, rounded
/// up, plus the bob's amplitude.
pub proof fn lemma_frame_step_bounded(before: SkillsEngine, after: SkillsEngine, dt: int, i: int)
    requires
        before.wf(),
        after.wf(),
        ticked(before, after, dt),
        0 <= dt <= FRAME_MS_MAX,
        0 <= i < before.entries().len(),
    ensures
        SMOOTHING_DEN * abs_int(after.smoothed()[i].x - before.smoothed()[i].x) <= abs_int(
            after.targets()[i].x - before.smoothed()[i].x,
        ) + SMOOTHING_DEN - 1,
        SMOOTHING_DEN * (abs_int(after.drawn_y(i) - before.drawn_y(i)) - BOB_AMPLITUDE) <= abs_int(
            after.targets()[i].y - before.smoothed()[i].y,
        ) + SMOOTHING_DEN - 1,
{
    lemma_tick_step_bounded(before, after, dt, i);
    lemma_bob_step(i, before.clock(), after.clock() - before.clock());
    let c = before.smoothed()[i];
    let t = after.targets()[i];
    let den = SMOOTHING_DEN as int;
    assert(in_span(c) && in_span(t));
    lemma_smooth_axis_between(c.y as int, t.y as int);
    let dy = abs_int(t.y - c.y);
    vstd::arithmetic::div_mod::lemma_fundamental_div_mod(dy + den - 1, den);
    vstd::arithmetic::div_mod::lemma_mod_bound(dy + den - 1, den);
}

} // verus!
