use snowfall::DrawCommand;
use snowfall::FillColor;
use snowfall::Lcg;
use snowfall::SceneError;
use snowfall::SurfaceDecl;
use snowfall::Universe;

fn attr(s: &str) -> Option<Vec<u8>> {
    Some(s.as_bytes().to_vec())
}

fn build(width: Option<Vec<u8>>, height: Option<Vec<u8>>) -> Result<Universe, SceneError> {
    let mut rng = Lcg::new(11);
    Universe::new(Some(SurfaceDecl { width_attr: width, height_attr: height }), &mut rng)
}

#[test]
fn missing_surface_is_not_found() {
    let mut rng = Lcg::new(11);
    let r = Universe::new(None, &mut rng);
    assert!(matches!(r, Err(SceneError::ResourceNotFound)));
}

#[test]
fn missing_width_attribute_is_invalid() {
    assert!(matches!(build(None, attr("300")), Err(SceneError::InvalidDimensions)));
}

#[test]
fn missing_height_attribute_is_invalid() {
    assert!(matches!(build(attr("400"), None), Err(SceneError::InvalidDimensions)));
}

#[test]
fn non_numeric_width_is_invalid() {
    assert!(matches!(build(attr("12a"), attr("300")), Err(SceneError::InvalidDimensions)));
}

#[test]
fn empty_height_is_invalid() {
    assert!(matches!(build(attr("400"), attr("")), Err(SceneError::InvalidDimensions)));
}

#[test]
fn oversized_width_is_invalid() {
    assert!(matches!(build(attr("4294967296"), attr("300")), Err(SceneError::InvalidDimensions)));
}

#[test]
fn zero_height_is_invalid() {
    assert!(matches!(build(attr("400"), attr("0")), Err(SceneError::InvalidDimensions)));
}

#[test]
fn constructed_scene_reads_declared_bounds() {
    let u = build(attr("400"), attr("300")).unwrap();
    assert_eq!(u.width(), 400);
    assert_eq!(u.height(), 300);
}

#[test]
fn largest_bounds_are_accepted() {
    let u = build(attr("4294967295"), attr("4294967295")).unwrap();
    assert_eq!(u.width(), 4294967295);
    assert_eq!(u.height(), 4294967295);
}

#[test]
fn leading_zeros_parse_as_decimal() {
    let u = build(attr("0400"), attr("007")).unwrap();
    assert_eq!(u.width(), 400);
    assert_eq!(u.height(), 7);
}

#[test]
fn frame_starts_with_background_clear() {
    let mut rng = Lcg::new(13);
    let mut u = build(attr("400"), attr("300")).unwrap();
    let resp = u.tick(&mut rng);
    assert_eq!(resp.len(), 100);
    let cmds = u.take_frame();
    assert_eq!(cmds.len(), 4 + 5 * 100);
    assert_eq!(cmds[0], DrawCommand::BeginPath);
    assert_eq!(cmds[1], DrawCommand::SetFillStyle { color: FillColor::Night });
    assert_eq!(cmds[2], DrawCommand::FillRect { x: 0, y: 0, width: 400_000, height: 300_000 });
    assert_eq!(cmds[3], DrawCommand::Stroke);
    for k in 0..100usize {
        assert_eq!(cmds[4 + 5 * k], DrawCommand::BeginPath);
        assert!(matches!(cmds[4 + 5 * k + 1], DrawCommand::Arc { .. }));
        assert_eq!(cmds[4 + 5 * k + 2], DrawCommand::SetFillStyle { color: FillColor::White });
        assert_eq!(cmds[4 + 5 * k + 3], DrawCommand::Fill);
        assert_eq!(cmds[4 + 5 * k + 4], DrawCommand::Stroke);
    }
    assert_eq!(u.take_frame().len(), 0);
}

#[test]
fn seeded_scenario_golden_trace() {
    let mut rng = Lcg::new(42);
    let d = SurfaceDecl { width_attr: attr("400"), height_attr: attr("300") };
    let mut universe = match Universe::new(Some(d), &mut rng) {
        Ok(u) => u,
        Err(_) => panic!("construction failed"),
    };
    let mut events: Vec<(u64, u64)> = Vec::new();
    for tick in 0..1000u64 {
        let resp = universe.tick(&mut rng);
        universe.take_frame();
        for slot in 0..resp.len() {
            if resp[slot] {
                events.push((tick, slot as u64));
            }
        }
    }
    assert_eq!(events.len(), 155);
    assert_eq!(&events[0..5], &[(35, 15), (37, 26), (52, 28), (57, 79), (80, 82)]);
    assert_eq!(events[events.len() - 1], (999, 74));
    let mut h: u64 = 14695981039346656037;
    for &(t, s) in &events {
        h ^= t * 131 + s;
        h = h.wrapping_mul(1099511628211);
    }
    assert_eq!(h, 1167061650832232025);
}
