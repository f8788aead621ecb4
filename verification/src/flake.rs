use crate::draw::DrawCommand;
use crate::draw::FillColor;
use crate::draw::Surface;
use crate::rng::RandomSource;
use vstd::prelude::*;

verus! {

/// Milli-pixel units per pixel: all positions, velocities and radii are
/// carried as integers at this scale.
pub const SUBPIXELS: i64 = 1000;

/// Smallest drawn radius, in pixels (inclusive).
pub const SIZE_MIN: i64 = 3;

/// Largest drawn radius, in pixels (exclusive).
pub const SIZE_MAX: i64 = 6;

/// A fresh flake starts at least this far above the visible top, in units.
pub const SPAWN_OFFSET_MIN: i64 = 10 * 1000;

/// A fresh flake starts less than this far above the visible top, in units.
pub const SPAWN_OFFSET_MAX: i64 = 300 * 1000;

/// Bound on the magnitude of the initial sideways velocity, in units per tick.
pub const DRIFT_MAX: i64 = 500;

/// Bound on the magnitude of the per-tick sideways perturbation, in units
/// per tick.
pub const GUST_MAX: i64 = 50;

/// Least initial downward velocity, in units per tick (inclusive).
pub const FALL_MIN: i64 = 200;

/// Greatest initial downward velocity, in units per tick (exclusive).
pub const FALL_MAX: i64 = 1000;

/// One snow particle. Coordinates grow rightward and downward; the origin is
/// the visible area's top-left corner. All fields are in milli-pixel units,
/// except `size`, the drawn radius in whole pixels.
#[derive(Clone, Copy, Debug)]
pub struct Flake {
    pub x: i64,
    pub y: i64,
    pub size: i32,
    pub x_velocity: i64,
    pub y_velocity: i64,
}

/// Addition on `i64` that clips at the type's bounds instead of wrapping.
pub open spec fn sat_i64(v: int) -> int {
    if v > i64::MAX {
        i64::MAX as int
    } else if v < i64::MIN {
        i64::MIN as int
    } else {
        v
    }
}

/// Adds two `i64` values, clipping at the type's bounds.
fn saturating_add_i64(a: i64, b: i64) -> (r: i64)
    ensures
        r == sat_i64(a + b),
{
    let wide: i128 = (a as i128) + (b as i128);
    if wide > i64::MAX as i128 {
        i64::MAX
    } else if wide < i64::MIN as i128 {
        i64::MIN
    } else {
        wide as i64
    }
}

/// What `Flake::new` promises of a fresh flake against a field `width`
/// pixels wide: radius within its band, the start strictly above the visible
/// top by the staggering offset, sideways velocity near zero, downward
/// velocity positive.
pub open spec fn spawn_ranged(f: Flake, width: u32) -> bool {
    &&& SIZE_MIN <= f.size < SIZE_MAX
    &&& 0 <= f.x < width * SUBPIXELS
    &&& -SPAWN_OFFSET_MAX < f.y <= -SPAWN_OFFSET_MIN
    &&& -DRIFT_MAX <= f.x_velocity < DRIFT_MAX
    &&& FALL_MIN <= f.y_velocity < FALL_MAX
}

/// The part of a fresh flake's state that every later update preserves or
/// re-establishes: the radius band, the downward-velocity band, and a floor
/// under `y` (a flake starts above `-SPAWN_OFFSET_MAX` and only ever falls).
pub open spec fn wf_flake(f: Flake) -> bool {
    &&& SIZE_MIN <= f.size < SIZE_MAX
    &&& FALL_MIN <= f.y_velocity < FALL_MAX
    &&& -SPAWN_OFFSET_MAX < f.y
}

/// The commands that drawing one flake records: a white filled circle of
/// `size` pixels at the flake's position, outline stroked.
pub open spec fn draw_seq(f: Flake) -> Seq<DrawCommand> {
    seq![
        DrawCommand::BeginPath,
        DrawCommand::Arc { x: f.x, y: f.y, radius: ((f.size * SUBPIXELS) as i64) },
        DrawCommand::SetFillStyle { color: FillColor::White },
        DrawCommand::Fill,
        DrawCommand::Stroke,
    ]
}

/// How one tick moves a flake that is not respawned: the radius and the
/// downward velocity are kept, `y` grows by exactly `y_velocity`, the
/// sideways velocity is perturbed by a gust drawn from
/// `-GUST_MAX..GUST_MAX`, and `x` grows by the perturbed sideways velocity.
pub open spec fn advanced_from(pre: Flake, post: Flake) -> bool {
    &&& post.size == pre.size
    &&& post.y_velocity == pre.y_velocity
    &&& post.y == pre.y + pre.y_velocity
    &&& exists|gust: int|
        {
            &&& -GUST_MAX <= gust < GUST_MAX
            &&& post.x_velocity == #[trigger] sat_i64(pre.x_velocity + gust)
            &&& post.x == sat_i64(pre.x + post.x_velocity)
        }
}

/// Law: drawing a flake twice with no step between records two identical
/// runs of commands, one directly after the other: in a recording that
/// continues `s0` with two draws of `f`, the two recorded runs are equal.
pub proof fn lemma_draw_idempotent(f: Flake, s0: Seq<DrawCommand>)
    ensures
        (s0 + draw_seq(f) + draw_seq(f)).subrange(s0.len() as int, s0.len() as int + draw_seq(f).len() as int)
            == (s0 + draw_seq(f) + draw_seq(f)).subrange(
            s0.len() as int + draw_seq(f).len() as int,
            s0.len() as int + 2 * draw_seq(f).len() as int,
        ),
{
    assert((s0 + draw_seq(f) + draw_seq(f)).subrange(
        s0.len() as int,
        s0.len() as int + draw_seq(f).len() as int,
    ) =~= draw_seq(f));
    assert((s0 + draw_seq(f) + draw_seq(f)).subrange(
        s0.len() as int + draw_seq(f).len() as int,
        s0.len() as int + 2 * draw_seq(f).len() as int,
    ) =~= draw_seq(f));
}

impl Flake {
    /// Spawns one flake over a field `width` pixels wide and `height` pixels
    /// tall, with randomized radius, start position and velocity. The height
    /// plays no part in spawning: flakes always start above the visible top.
    pub fn new<R: RandomSource>(width: u32, height: u32, rng: &mut R) -> (f: Flake)
        requires
            width >= 1,
        ensures
            spawn_ranged(f, width),
    {
        let size: i64 = rng.next_in(SIZE_MIN, SIZE_MAX);
        let x: i64 = rng.next_in(0, (width as i64) * SUBPIXELS);
        let offset: i64 = rng.next_in(SPAWN_OFFSET_MIN, SPAWN_OFFSET_MAX);
        let y: i64 = 0 - offset;

        let x_velocity: i64 = rng.next_in(-DRIFT_MAX, DRIFT_MAX);
        let y_velocity: i64 = rng.next_in(FALL_MIN, FALL_MAX);

        Flake { x, y, size: (size as i32), x_velocity, y_velocity }
    }

    /// Records the flake's circle on the surface without touching the
    /// flake's own state; drawing twice records the same commands twice.
    pub fn draw(&self, surface: &mut Surface)
        ensures
            final(surface).commands() == old(surface).commands() + draw_seq(*self),
    {
        surface.record(DrawCommand::BeginPath);
        let radius: i64 = (self.size as i64) * SUBPIXELS;
        surface.record(DrawCommand::Arc { x: self.x, y: self.y, radius });
        surface.record(DrawCommand::SetFillStyle { color: FillColor::White });
        surface.record(DrawCommand::Fill);
        surface.record(DrawCommand::Stroke);
        proof {
            assert(surface.commands() =~= old(surface).commands() + draw_seq(*self));
        }
    }

    /// One simulation step: draw at the current position, then perturb the
    /// sideways velocity by a random gust and advance the position by the
    /// velocity. The downward velocity is never changed after spawning.
    pub fn tick<R: RandomSource>(&mut self, surface: &mut Surface, rng: &mut R)
        requires
            i64::MIN <= old(self).y + old(self).y_velocity <= i64::MAX,
        ensures
            final(surface).commands() == old(surface).commands() + draw_seq(*old(self)),
            advanced_from(*old(self), *final(self)),
    {
        self.draw(surface);
        let gust: i64 = rng.next_in(-GUST_MAX, GUST_MAX);
        self.x_velocity = saturating_add_i64(self.x_velocity, gust);

        self.y = self.y + self.y_velocity;
        self.x = saturating_add_i64(self.x, self.x_velocity);
        proof {
            let g = gust as int;
            assert(self.x_velocity == sat_i64(old(self).x_velocity + g));
            assert(self.x == sat_i64(old(self).x + self.x_velocity as int));
        }
    }
}

} // verus!
