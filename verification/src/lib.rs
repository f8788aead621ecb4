//! An animated snowfall simulation: a fixed population of flakes spawns above
//! the visible area, drifts downward and sideways under simple random motion,
//! and respawns once it leaves the visible bounds.
//!
//! Geometry is carried in milli-pixel integer units (one pixel is 1000
//! units), so positions and velocities are plain integers. Drawing is
//! modelled as a recorded sequence of commands that a host replays onto a
//! real surface.

mod draw;
mod flake;
mod rng;
mod snow;
mod universe;

pub use draw::DrawCommand;
pub use draw::FillColor;
pub use draw::Surface;
pub use flake::advanced_from;
pub use flake::draw_seq;
pub use flake::lemma_draw_idempotent;
pub use flake::sat_i64;
pub use flake::spawn_ranged;
pub use flake::wf_flake;
pub use flake::Flake;
pub use flake::DRIFT_MAX;
pub use flake::FALL_MAX;
pub use flake::FALL_MIN;
pub use flake::GUST_MAX;
pub use flake::SIZE_MAX;
pub use flake::SIZE_MIN;
pub use flake::SPAWN_OFFSET_MAX;
pub use flake::SPAWN_OFFSET_MIN;
pub use flake::SUBPIXELS;
pub use rng::Lcg;
pub use rng::RandomSource;
pub use rng::ThreadRandom;
pub use snow::flat_draws;
pub use snow::lemma_bounds_respawn;
pub use snow::lemma_fall_monotonic;
pub use snow::out_of_bounds;
pub use snow::tick_slot;
pub use snow::tick_slot_via;
pub use snow::Snow;
pub use snow::EDGE_MARGIN;
pub use snow::FLAKE_COUNT;
pub use universe::all_digits;
pub use universe::clear_seq;
pub use universe::dec_value;
pub use universe::is_digit;
pub use universe::parse_dimension;
pub use universe::usable_bounds;
pub use universe::valid_dimension;
pub use universe::SceneError;
pub use universe::SurfaceDecl;
pub use universe::Universe;
