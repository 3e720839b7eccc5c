use personal_website::engine::{EnginePhase, SkillsEngine, BOB_AMPLITUDE, SMOOTHING_DEN};
use personal_website::layout::{
    grid_columns, grid_row_count, orbit_radius_of, parse_mode, target_position, LayoutMode, Point,
};
use personal_website::registry::{RegistryError, Skill, SkillRegistry};
use personal_website::trig::{cos_steps, sin_steps};

fn skill(name: &str, level: u8, connections: &[&str]) -> Skill {
    Skill {
        name: name.to_string(),
        category: "Backend".to_string(),
        color: "#CE422B".to_string(),
        level,
        description: format!("{} description", name),
        connections: connections.iter().map(|c| c.to_string()).collect(),
    }
}

fn registry(n: usize) -> SkillRegistry {
    let skills = (0..n).map(|i| skill(&format!("S{}", i), 50, &[])).collect();
    SkillRegistry::build(skills).unwrap()
}

fn dist2(a: Point, b: Point) -> i128 {
    let dx = (a.x - b.x) as i128;
    let dy = (a.y - b.y) as i128;
    dx * dx + dy * dy
}

#[test]
fn sine_table_landmarks() {
    assert_eq!(sin_steps(0), 0);
    assert_eq!(sin_steps(64), 4096);
    assert_eq!(sin_steps(128), 0);
    assert_eq!(sin_steps(192), -4096);
    assert_eq!(sin_steps(256 + 64), 4096);
    assert_eq!(cos_steps(0), 4096);
    assert_eq!(cos_steps(128), -4096);
    assert_eq!(sin_steps(32), 2896);
}

#[test]
fn grid_of_four_on_400_canvas_lands_on_quadrant_centers() {
    assert_eq!(grid_columns(4), 2);
    assert_eq!(grid_row_count(4), 2);
    let expected = [(140_000, 140_000), (260_000, 140_000), (140_000, 260_000), (260_000, 260_000)];
    for (i, (x, y)) in expected.iter().enumerate() {
        let p = target_position(LayoutMode::Grid, i, 4, 0, 400, 400);
        assert_eq!((p.x, p.y), (*x, *y));
    }
    let mut e = SkillsEngine::new(registry(4), 400, 400);
    e.set_mode("grid");
    e.tick(16);
    for (i, (x, y)) in expected.iter().enumerate() {
        assert_eq!(e.target(i), Point { x: *x, y: *y });
    }
}

#[test]
fn grid_dimensions() {
    assert_eq!(grid_columns(0), 0);
    assert_eq!(grid_columns(1), 1);
    assert_eq!(grid_columns(2), 2);
    assert_eq!(grid_columns(5), 3);
    assert_eq!(grid_columns(9), 3);
    assert_eq!(grid_columns(10), 4);
    assert_eq!(grid_row_count(5), 2);
    assert_eq!(grid_row_count(10), 3);
}

#[test]
fn grid_cells_are_distinct() {
    for n in 1..60usize {
        let cols = grid_columns(n);
        let mut seen = std::collections::HashSet::new();
        for i in 0..n {
            assert!(seen.insert((i / cols, i % cols)));
            let p = target_position(LayoutMode::Grid, i, n, 0, 900, 700);
            assert!(p.x >= 0 && p.x <= 900_000 && p.y >= 0 && p.y <= 700_000);
        }
    }
}

#[test]
fn orbit_targets_lie_on_the_circle() {
    let r = orbit_radius_of(800, 600);
    assert_eq!(r, 180_000);
    assert_eq!(orbit_radius_of(2000, 2000), 200_000);
    for n in 1..20usize {
        for i in 0..n {
            let p = target_position(LayoutMode::Orbit, i, n, 0, 800, 600);
            let dx = (p.x - 400_000) as f64;
            let dy = (p.y - 300_000) as f64;
            let d = (dx * dx + dy * dy).sqrt();
            assert!((d - r as f64).abs() < 0.001 * r as f64, "n={} i={} d={}", n, i, d);
        }
    }
    let first = target_position(LayoutMode::Orbit, 0, 4, 0, 800, 600);
    assert_eq!(first, Point { x: 580_000, y: 300_000 });
}

#[test]
fn layouts_stay_on_canvas() {
    let modes = [LayoutMode::Orbit, LayoutMode::Float, LayoutMode::Grid, LayoutMode::Wave, LayoutMode::Spiral];
    for m in modes.iter() {
        for clock in [0u64, 1234, 99_999, 255_999].iter() {
            for i in 0..12usize {
                let p = target_position(*m, i, 12, *clock, 640, 480);
                assert!(p.x >= 0 && p.x <= 640_000 && p.y >= 0 && p.y <= 480_000);
            }
        }
    }
}

#[test]
fn wave_and_spiral_values() {
    let p = target_position(LayoutMode::Wave, 1, 4, 0, 400, 400);
    assert_eq!(p.x, 150_000);
    let q = target_position(LayoutMode::Spiral, 0, 4, 0, 800, 600);
    assert_eq!(q, Point { x: 450_000, y: 300_000 });
}

#[test]
fn mode_names() {
    assert_eq!(parse_mode("orbit"), Some(LayoutMode::Orbit));
    assert_eq!(parse_mode("float"), Some(LayoutMode::Float));
    assert_eq!(parse_mode("grid"), Some(LayoutMode::Grid));
    assert_eq!(parse_mode("wave"), Some(LayoutMode::Wave));
    assert_eq!(parse_mode("spiral"), Some(LayoutMode::Spiral));
    assert_eq!(parse_mode("Grid"), None);
    assert_eq!(parse_mode(""), None);
}

#[test]
fn unknown_mode_keeps_current_layout() {
    let mut e = SkillsEngine::new(registry(3), 400, 400);
    assert_eq!(e.mode(), LayoutMode::Orbit);
    e.set_mode("wave");
    assert_eq!(e.mode(), LayoutMode::Wave);
    e.set_mode("zigzag");
    assert_eq!(e.mode(), LayoutMode::Wave);
}

#[test]
fn smoothing_strictly_approaches_a_fixed_target() {
    let mut e = SkillsEngine::new(registry(4), 400, 400);
    e.set_mode("grid");
    let mut reached = false;
    for _ in 0..2000 {
        let before: Vec<i128> = (0..4).map(|i| dist2(e.smoothed_position(i), e.target(i))).collect();
        e.tick(16);
        for i in 0..4 {
            let after = dist2(e.smoothed_position(i), e.target(i));
            if before[i] > 0 {
                assert!(after < before[i]);
            } else {
                assert_eq!(after, 0);
            }
        }
        if (0..4).all(|i| e.smoothed_position(i) == e.target(i)) {
            reached = true;
            break;
        }
    }
    assert!(reached);
}

#[test]
fn switching_modes_never_teleports() {
    let mut e = SkillsEngine::new(registry(6), 800, 600);
    for _ in 0..30 {
        e.tick(16);
    }
    e.set_mode("spiral");
    for _ in 0..5 {
        let before: Vec<(Point, Point)> = (0..6).map(|i| (e.smoothed_position(i), e.position(i))).collect();
        e.tick(16);
        for i in 0..6 {
            let (c, drawn) = before[i];
            let t = e.target(i);
            let now = e.position(i);
            let jump_x = (t.x - c.x).abs();
            let jump_y = (t.y - c.y).abs();
            assert!(SMOOTHING_DEN * (now.x - drawn.x).abs() <= jump_x + SMOOTHING_DEN - 1);
            assert!(
                SMOOTHING_DEN * ((now.y - drawn.y).abs() - 2 * BOB_AMPLITUDE)
                    <= jump_y + SMOOTHING_DEN - 1
            );
        }
    }
}

#[test]
fn zero_tick_keeps_positions() {
    let mut e = SkillsEngine::new(registry(5), 500, 500);
    e.tick(40);
    e.tick(40);
    let before: Vec<Point> = (0..5).map(|i| e.position(i)).collect();
    let clock = e.clock_ms();
    e.tick(0);
    e.tick(0);
    let after: Vec<Point> = (0..5).map(|i| e.position(i)).collect();
    assert_eq!(before, after);
    assert_eq!(e.clock_ms(), clock);
}

#[test]
fn clock_accumulates_elapsed_time() {
    let mut e = SkillsEngine::new(registry(1), 500, 500);
    e.tick(255_000);
    assert_eq!(e.clock_ms(), 255_000);
    e.tick(2_000);
    assert_eq!(e.clock_ms(), 257_000);
    e.tick(0);
    assert_eq!(e.clock_ms(), 257_000);
    e.tick(u64::MAX);
    assert_eq!(e.clock_ms(), u64::MAX);
}

#[test]
fn layouts_repeat_with_the_clock_period() {
    let mut a = SkillsEngine::new(registry(5), 640, 480);
    let mut b = SkillsEngine::new(registry(5), 640, 480);
    a.tick(1_234);
    b.tick(1_234 + 256_000);
    for i in 0..5 {
        assert_eq!(a.target(i), b.target(i));
        assert_eq!(a.position(i).y - a.smoothed_position(i).y, b.position(i).y - b.smoothed_position(i).y);
    }
}

#[test]
fn small_canvas_grid_margin_is_a_quarter_side() {
    // 100 units a side: the margin shrinks to 25 units, leaving a 50-unit grid
    let p = target_position(LayoutMode::Grid, 0, 1, 0, 100, 100);
    assert_eq!(p, Point { x: 50_000, y: 50_000 });
    let q = target_position(LayoutMode::Grid, 0, 4, 0, 100, 100);
    assert_eq!(q, Point { x: 37_500, y: 37_500 });
}

#[test]
fn resize_to_zero_is_clamped_and_ticks_stay_finite() {
    let mut e = SkillsEngine::new(registry(4), 400, 400);
    e.resize(0, 0);
    assert_eq!(e.canvas_size(), (1, 1));
    for i in 0..4 {
        assert_eq!(e.smoothed_position(i), e.target(i));
    }
    for mode in ["orbit", "float", "grid", "wave", "spiral"].iter() {
        e.set_mode(mode);
        e.tick(16);
        for i in 0..4 {
            let p = e.position(i);
            let fx = p.x as f64;
            let fy = p.y as f64;
            assert!(fx.is_finite() && fy.is_finite());
            assert!(p.x >= 0 && p.x <= 1000);
            assert!(p.y >= -BOB_AMPLITUDE && p.y <= 1000 + BOB_AMPLITUDE);
        }
    }
}

#[test]
fn engine_phases() {
    let mut e = SkillsEngine::new(registry(2), 0, 300);
    assert_eq!(e.canvas_size(), (1, 300));
    assert_eq!(e.phase(), EnginePhase::Ready);
    assert_eq!(e.smoothed_position(0), Point { x: 500, y: 150_000 });
    e.tick(0);
    assert_eq!(e.phase(), EnginePhase::Running);
}

#[test]
fn hit_test_at_drawn_position_finds_node() {
    let mut e = SkillsEngine::new(registry(4), 400, 400);
    e.set_mode("grid");
    e.resize(400, 400);
    e.tick(16);
    for i in 0..4 {
        let p = e.position(i);
        assert_eq!(e.hit_test(p.x, p.y), Some(i));
    }
}

#[test]
fn hit_test_prefers_first_registered_node() {
    let mut e = SkillsEngine::new(registry(3), 400, 400);
    let p = e.position(2);
    // all nodes start at the center, so the first one wins
    assert_eq!(e.hit_test(p.x, p.y), Some(0));
    e.pointer_move(p.x, p.y);
    assert_eq!(e.hovered_skill(), Some(0));
    e.clear_hover();
    assert_eq!(e.hovered_skill(), None);
}

#[test]
fn hit_test_far_away_finds_nothing() {
    let mut e = SkillsEngine::new(registry(4), 400, 400);
    e.tick(16);
    assert_eq!(e.hit_test(-1_000_000, -1_000_000), None);
    assert_eq!(e.hit_test(i64::MAX, i64::MIN), None);
    e.pointer_move(10_000_000, 10_000_000);
    assert_eq!(e.hovered_skill(), None);
}

#[test]
fn hit_radius_grows_with_level_and_hover() {
    let skills = vec![skill("Low", 0, &[]), skill("High", 100, &[])];
    let mut e = SkillsEngine::new(SkillRegistry::build(skills).unwrap(), 4000, 4000);
    e.set_mode("grid");
    e.resize(4000, 4000);
    let p = e.position(1);
    // level 100: radius 33 units, plus a tolerance of 10
    assert_eq!(e.hit_test(p.x + 43_000, p.y), Some(1));
    assert_eq!(e.hit_test(p.x + 43_001, p.y), None);
    e.pointer_move(p.x, p.y);
    assert_eq!(e.hovered_skill(), Some(1));
    // hovered: radius 49.5 units, plus the tolerance
    assert_eq!(e.hit_test(p.x + 59_500, p.y), Some(1));
    let q = e.position(0);
    assert_eq!(e.hit_test(q.x + 18_000, q.y), Some(0));
    assert_eq!(e.hit_test(q.x + 18_001, q.y), None);
    let frame = e.frame();
    assert_eq!(frame[1].radius, 49_500);
    assert!(frame[1].is_hovered);
    assert_eq!(frame[0].radius, 8_000);
    assert!(!frame[0].is_hovered);
}

#[test]
fn connections_are_symmetric() {
    let skills = vec![
        skill("Rust", 90, &["WebAssembly", "Axum"]),
        skill("WebAssembly", 70, &[]),
        skill("Axum", 60, &["Ghost"]),
    ];
    let reg = SkillRegistry::build(skills).unwrap();
    for a in 0..3 {
        for b in 0..3 {
            assert_eq!(reg.is_connected(a, b), reg.is_connected(b, a));
        }
    }
    assert!(reg.is_connected(1, 0));
    assert!(reg.is_connected(0, 2));
    assert!(!reg.is_connected(1, 2));
    assert!(reg.are_connected("WebAssembly", "Rust"));
    assert!(!reg.are_connected("Axum", "Ghost"));
    assert_eq!(reg.index_of("Axum"), Some(2));
    assert_eq!(reg.index_of("Ghost"), None);
    assert_eq!(reg.get(1).unwrap().name, "WebAssembly");
    assert!(reg.get(3).is_none());
    assert_eq!(reg.len(), 3);
}

#[test]
fn frame_marks_connections_of_hovered_node() {
    let skills = vec![skill("A", 10, &["B"]), skill("B", 10, &[]), skill("C", 10, &[])];
    let mut e = SkillsEngine::new(SkillRegistry::build(skills).unwrap(), 800, 800);
    e.set_mode("grid");
    e.resize(800, 800);
    let p = e.position(1);
    e.pointer_move(p.x, p.y);
    let f = e.frame();
    assert_eq!(f.len(), 3);
    assert!(f[1].is_hovered);
    assert!(f[0].is_connected_to_hovered);
    assert!(!f[2].is_connected_to_hovered);
    assert_eq!(f[2].node_id, 2);
    assert_eq!((f[2].x, f[2].y), (e.position(2).x, e.position(2).y));
}

#[test]
fn duplicate_names_are_refused() {
    let skills = vec![skill("A", 1, &[]), skill("B", 1, &[]), skill("A", 1, &[])];
    match SkillRegistry::build(skills) {
        Err(RegistryError::DuplicateName(n)) => assert_eq!(n, "A"),
        _ => panic!("expected a duplicate name"),
    }
}

#[test]
fn levels_above_100_are_refused() {
    let skills = vec![skill("A", 100, &[]), skill("B", 101, &[])];
    match SkillRegistry::build(skills) {
        Err(RegistryError::LevelOutOfRange(i)) => assert_eq!(i, 1),
        _ => panic!("expected a level error"),
    }
}

#[test]
fn empty_registry_runs() {
    let mut e = SkillsEngine::new(SkillRegistry::build(vec![]).unwrap(), 300, 300);
    e.set_mode("grid");
    e.tick(16);
    assert_eq!(e.node_count(), 0);
    assert!(e.frame().is_empty());
    assert_eq!(e.hit_test(0, 0), None);
}

#[test]
fn float_wave_and_bob_exact_values() {
    let f = target_position(LayoutMode::Float, 0, 3, 0, 800, 600);
    assert_eq!(f, Point { x: 400_000, y: 435_000 });
    let w = target_position(LayoutMode::Wave, 0, 4, 0, 400, 400);
    assert_eq!(w, Point { x: 50_000, y: 200_000 });
    let e = SkillsEngine::new(registry(2), 400, 400);
    assert_eq!(e.position(0), Point { x: 200_000, y: 200_000 });
    assert_eq!(e.position(1), Point { x: 200_000, y: 204_714 });
}

#[test]
fn one_smoothing_step_closes_a_twentieth_of_the_gap() {
    let mut e = SkillsEngine::new(registry(4), 400, 400);
    e.set_mode("grid");
    e.tick(1);
    assert_eq!(e.smoothed_position(0), Point { x: 197_000, y: 197_000 });
    assert_eq!(e.smoothed_position(3), Point { x: 203_000, y: 203_000 });
}

#[test]
fn frame_ticks_move_by_at_most_the_smoothing_step_plus_the_bob() {
    let mut e = SkillsEngine::new(registry(8), 1024, 768);
    for step in 0..200 {
        if step == 50 {
            e.set_mode("wave");
        }
        if step == 120 {
            e.set_mode("float");
        }
        let before: Vec<(Point, Point)> = (0..8).map(|i| (e.smoothed_position(i), e.position(i))).collect();
        e.tick(400);
        for i in 0..8 {
            let (c, drawn) = before[i];
            let t = e.target(i);
            let now = e.position(i);
            let jump_y = (t.y - c.y).abs();
            assert!(
                SMOOTHING_DEN * ((now.y - drawn.y).abs() - BOB_AMPLITUDE) <= jump_y + SMOOTHING_DEN - 1
            );
        }
    }
}
