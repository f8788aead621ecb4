use snowfall::DrawCommand;
use snowfall::FillColor;
use snowfall::Flake;
use snowfall::Lcg;
use snowfall::RandomSource;
use snowfall::Snow;
use snowfall::Surface;
use snowfall::ThreadRandom;

fn spawn_bounds_ok(f: &Flake) -> bool {
    3 <= f.size
        && f.size < 6
        && 0 <= f.x
        && f.x < 800_000
        && -310_000 <= f.y
        && f.y <= -10_000
        && -500 <= f.x_velocity
        && f.x_velocity < 500
        && 200 <= f.y_velocity
        && f.y_velocity < 1000
}

#[test]
fn spawn_distribution_seeded() {
    let mut rng = Lcg::new(7);
    for _ in 0..10_000usize {
        let f = Flake::new(800, 600, &mut rng);
        assert!(spawn_bounds_ok(&f));
    }
}

#[test]
fn spawn_distribution_host_entropy() {
    let mut rng = ThreadRandom::new();
    let first = Flake::new(800, 600, &mut rng);
    assert!(spawn_bounds_ok(&first));
    let mut all_same = true;
    for _ in 0..10_000usize {
        let f = Flake::new(800, 600, &mut rng);
        assert!(spawn_bounds_ok(&f));
        if f.x != first.x || f.y != first.y || f.x_velocity != first.x_velocity {
            all_same = false;
        }
    }
    assert!(!all_same);
}

#[test]
fn seeded_generator_reproducible() {
    let mut a = Lcg::new(99);
    let mut b = Lcg::new(99);
    for _ in 0..1000usize {
        let x: i64 = a.next_in(-1000, 1000);
        let y: i64 = b.next_in(-1000, 1000);
        assert_eq!(x, y);
        assert!(-1000 <= x && x < 1000);
    }
}

#[test]
fn population_constant() {
    let mut rng = Lcg::new(1);
    let mut snow = Snow::new(400, 300, &mut rng);
    assert_eq!(snow.flakes.len(), 100);
    let mut surface = Surface::new();
    for _ in 0..50usize {
        let resp = snow.tick(&mut surface, &mut rng);
        assert_eq!(resp.len(), 100);
        assert_eq!(snow.flakes.len(), 100);
    }
}

#[test]
fn bottom_margin_forces_respawn() {
    let mut rng = Lcg::new(3);
    let mut snow = Snow::new(400, 300, &mut rng);
    snow.flakes[0].x = 200_000;
    snow.flakes[0].x_velocity = 0;
    snow.flakes[0].y = 309_900;
    snow.flakes[0].y_velocity = 900;
    let mut surface = Surface::new();
    let resp = snow.tick(&mut surface, &mut rng);
    assert!(resp[0]);
    assert!(snow.flakes[0].y < 0);
    assert!(snow.flakes[0].y >= -310_000);
}

#[test]
fn side_margin_forces_respawn() {
    let mut rng = Lcg::new(4);
    let mut snow = Snow::new(400, 300, &mut rng);
    snow.flakes[1].x = -9_990;
    snow.flakes[1].x_velocity = -900;
    snow.flakes[1].y = 100_000;
    snow.flakes[1].y_velocity = 500;
    let mut surface = Surface::new();
    let resp = snow.tick(&mut surface, &mut rng);
    assert!(resp[1]);
    assert!(snow.flakes[1].y < 0);
}

#[test]
fn fall_exact_between_respawns() {
    let mut rng = Lcg::new(5);
    let mut snow = Snow::new(400, 300, &mut rng);
    let mut surface = Surface::new();
    for _ in 0..200usize {
        let before: Vec<Flake> = snow.flakes.clone();
        let resp = snow.tick(&mut surface, &mut rng);
        for i in 0..100usize {
            if resp[i] {
                assert!(snow.flakes[i].y < 0);
            } else {
                assert_eq!(snow.flakes[i].y, before[i].y + before[i].y_velocity);
                assert_eq!(snow.flakes[i].y_velocity, before[i].y_velocity);
                assert_eq!(snow.flakes[i].size, before[i].size);
            }
        }
    }
}

#[test]
fn draw_twice_identical() {
    let f = Flake { x: 12_345, y: 67_890, size: 4, x_velocity: -250, y_velocity: 600 };
    let mut surface = Surface::new();
    f.draw(&mut surface);
    f.draw(&mut surface);
    let cmds = surface.take_commands();
    assert_eq!(cmds.len(), 10);
    assert_eq!(&cmds[0..5], &cmds[5..10]);
    assert_eq!(cmds[0], DrawCommand::BeginPath);
    assert_eq!(cmds[1], DrawCommand::Arc { x: 12_345, y: 67_890, radius: 4_000 });
    assert_eq!(cmds[2], DrawCommand::SetFillStyle { color: FillColor::White });
    assert_eq!(cmds[3], DrawCommand::Fill);
    assert_eq!(cmds[4], DrawCommand::Stroke);
}

#[test]
fn taking_commands_empties_the_recording() {
    let f = Flake { x: 1_000, y: 2_000, size: 3, x_velocity: 0, y_velocity: 200 };
    let mut surface = Surface::new();
    f.draw(&mut surface);
    assert_eq!(surface.take_commands().len(), 5);
    assert_eq!(surface.take_commands().len(), 0);
}
