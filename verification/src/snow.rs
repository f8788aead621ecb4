use crate::draw::DrawCommand;
use crate::draw::Surface;
use crate::flake::advanced_from;
use crate::flake::draw_seq;
use crate::flake::spawn_ranged;
use crate::flake::wf_flake;
use crate::flake::Flake;
use crate::flake::SUBPIXELS;
use crate::rng::RandomSource;
use vstd::pervasive::VecAdditionalExecFns;
use vstd::prelude::*;

verus! {

/// The fixed population size: how many flakes a field holds, always.
pub const FLAKE_COUNT: usize = 100;

/// How far, in units, a flake may travel past a visible edge before it is
/// respawned: ten pixels, enough for the largest circle to leave fully.
pub const EDGE_MARGIN: i64 = 10 * 1000;

/// A flake past the respawn margins: more than the margin below the visible
/// bottom, or more than the margin beyond either side. The margin lets a
/// circle of the largest radius leave the visible area fully before its
/// flake disappears.
pub open spec fn out_of_bounds(f: Flake, width: u32, height: u32) -> bool {
    ||| f.y > height * SUBPIXELS + EDGE_MARGIN
    ||| f.x > width * SUBPIXELS + EDGE_MARGIN
    ||| f.x < -EDGE_MARGIN
}

/// One slot's tick, through a given intermediate state: the flake first
/// advances from `pre` to `mid`; it is respawned exactly when `mid` lies
/// past the margins, and then `post` is a fresh spawn, else `post` is `mid`
/// itself.
pub open spec fn tick_slot_via(
    pre: Flake,
    mid: Flake,
    post: Flake,
    respawned: bool,
    width: u32,
    height: u32,
) -> bool {
    &&& advanced_from(pre, mid)
    &&& respawned == out_of_bounds(mid, width, height)
    &&& if respawned {
        spawn_ranged(post, width)
    } else {
        post == mid
    }
}

/// One slot's tick: some advanced state `mid` connects `pre` to `post` as
/// `tick_slot_via` says.
pub open spec fn tick_slot(pre: Flake, post: Flake, respawned: bool, width: u32, height: u32) -> bool {
    exists|mid: Flake| #[trigger] tick_slot_via(pre, mid, post, respawned, width, height)
}

/// The commands that drawing a run of flakes records, in slot order.
pub open spec fn flat_draws(fs: Seq<Flake>) -> Seq<DrawCommand>
    decreases fs.len(),
{
    if fs.len() == 0 {
        Seq::<DrawCommand>::empty()
    } else {
        flat_draws(fs.drop_last()) + draw_seq(fs.last())
    }
}

proof fn lemma_flat_draws_take(fs: Seq<Flake>, n: int)
    requires
        0 <= n < fs.len(),
    ensures
        flat_draws(fs.take(n + 1)) == flat_draws(fs.take(n)) + draw_seq(fs[n]),
{
    assert(fs.take(n + 1).drop_last() =~= fs.take(n));
    assert(fs.take(n + 1).last() == fs[n]);
}

/// The whole particle population over one field.
pub struct Snow {
    pub flakes: Vec<Flake>,
    pub width: u32,
    pub height: u32,
}

impl Snow {
    /// The population invariant: the field is at least one pixel in either
    /// direction, holds exactly `FLAKE_COUNT` flakes, and every flake is
    /// well formed and at most the margin below the visible bottom.
    pub open spec fn wf(self) -> bool {
        &&& self.width >= 1
        &&& self.height >= 1
        &&& self.flakes@.len() == FLAKE_COUNT
        &&& forall|i: int|
            0 <= i < self.flakes@.len() ==> {
                &&& wf_flake(#[trigger] self.flakes@[i])
                &&& self.flakes@[i].y <= self.height * SUBPIXELS + EDGE_MARGIN
            }
    }

    /// Builds a field of exactly `FLAKE_COUNT` freshly spawned flakes over a
    /// `width` by `height` surface.
    pub fn new<R: RandomSource>(width: u32, height: u32, rng: &mut R) -> (s: Snow)
        requires
            width >= 1,
            height >= 1,
        ensures
            s.wf(),
            s.width == width,
            s.height == height,
            forall|i: int| 0 <= i < s.flakes@.len() ==> spawn_ranged(#[trigger] s.flakes@[i], width),
    {
        let mut flakes: Vec<Flake> = Vec::new();
        let mut n: usize = 0;
        while n < FLAKE_COUNT
            invariant
                width >= 1,
                height >= 1,
                n <= FLAKE_COUNT,
                flakes@.len() == n,
                forall|i: int| 0 <= i < n ==> spawn_ranged(#[trigger] flakes@[i], width),
            decreases FLAKE_COUNT - n,
        {
            flakes.push(Flake::new(width, height, rng));
            n = n + 1;
        }
        Snow { flakes, width, height }
    }

    /// One tick over the whole population, slot by slot: each flake is
    /// drawn at its current position, advanced, and respawned in place
    /// exactly when its advanced position lies past the margins. Returns,
    /// per slot, whether that slot respawned.
    pub fn tick<R: RandomSource>(&mut self, surface: &mut Surface, rng: &mut R) -> (respawned: Vec<
        bool,
    >)
        requires
            old(self).wf(),
        ensures
            final(self).wf(),
            final(self).width == old(self).width,
            final(self).height == old(self).height,
            final(self).flakes@.len() == old(self).flakes@.len(),
            respawned@.len() == FLAKE_COUNT,
            forall|i: int|
                0 <= i < FLAKE_COUNT ==> #[trigger] tick_slot(
                    old(self).flakes@[i],
                    final(self).flakes@[i],
                    respawned@[i],
                    old(self).width,
                    old(self).height,
                ),
            final(surface).commands() == old(surface).commands() + flat_draws(old(self).flakes@),
    {
        let ghost orig: Seq<Flake> = self.flakes@;
        let ghost start: Seq<DrawCommand> = surface.commands();
        let mut respawned: Vec<bool> = Vec::new();
        let mut n: usize = 0;
        while n < FLAKE_COUNT
            invariant
                old(self).wf(),
                self.width == old(self).width,
                self.height == old(self).height,
                orig == old(self).flakes@,
                start == old(surface).commands(),
                n <= FLAKE_COUNT,
                self.flakes@.len() == FLAKE_COUNT,
                respawned@.len() == n,
                forall|i: int| n <= i < FLAKE_COUNT ==> self.flakes@[i] == orig[i],
                forall|i: int|
                    0 <= i < n ==> #[trigger] tick_slot(
                        orig[i],
                        self.flakes@[i],
                        respawned@[i],
                        old(self).width,
                        old(self).height,
                    ),
                forall|i: int|
                    0 <= i < n ==> {
                        &&& wf_flake(#[trigger] self.flakes@[i])
                        &&& self.flakes@[i].y <= self.height * SUBPIXELS + EDGE_MARGIN
                    },
                surface.commands() == start + flat_draws(orig.take(n as int)),
            decreases FLAKE_COUNT - n,
        {
            let ghost pre: Flake = self.flakes@[n as int];
            assert(pre == orig[n as int]);
            assert(wf_flake(pre) && pre.y <= self.height * SUBPIXELS + EDGE_MARGIN);

            let mut fl: Flake = self.flakes[n];
            fl.tick(surface, rng);
            let ghost mid: Flake = fl;

            let height_limit: i64 = (self.height as i64) * SUBPIXELS + EDGE_MARGIN;
            let width_limit: i64 = (self.width as i64) * SUBPIXELS + EDGE_MARGIN;
            let gone: bool = fl.y > height_limit || fl.x > width_limit || fl.x < 0 - EDGE_MARGIN;
            assert(gone == out_of_bounds(mid, self.width, self.height));

            if gone {
                fl = Flake::new(self.width, self.height, rng);
            }
            self.flakes.set(n, fl);
            respawned.push(gone);

            proof {
                assert(tick_slot_via(
                    pre,
                    mid,
                    self.flakes@[n as int],
                    gone,
                    old(self).width,
                    old(self).height,
                ));
                lemma_flat_draws_take(orig, n as int);
                assert(surface.commands() =~= start + flat_draws(orig.take(n as int + 1)));
            }
            n = n + 1;
        }
        proof {
            assert(orig.take(FLAKE_COUNT as int) =~= orig);
        }
        respawned
    }
}

/// Law: a flake whose fall this tick would carry it past the bottom margin
/// is respawned rather than flying on, and its replacement starts strictly
/// above the visible top.
pub proof fn lemma_bounds_respawn(pre: Flake, post: Flake, respawned: bool, width: u32, height: u32)
    requires
        tick_slot(pre, post, respawned, width, height),
        pre.y + pre.y_velocity > height * SUBPIXELS + EDGE_MARGIN,
    ensures
        respawned,
        post.y < 0,
{
    let mid = choose|mid: Flake| #[trigger] tick_slot_via(pre, mid, post, respawned, width, height);
    assert(mid.y == pre.y + pre.y_velocity);
    assert(out_of_bounds(mid, width, height));
}

/// Law: a flake not respawned this tick keeps its radius and its downward
/// velocity, and falls by exactly that velocity; with a well-formed flake
/// the fall is a strict descent.
pub proof fn lemma_fall_monotonic(pre: Flake, post: Flake, respawned: bool, width: u32, height: u32)
    requires
        tick_slot(pre, post, respawned, width, height),
        !respawned,
        wf_flake(pre),
    ensures
        post.y == pre.y + pre.y_velocity,
        post.y_velocity == pre.y_velocity,
        post.size == pre.size,
        post.y > pre.y,
{
    let mid = choose|mid: Flake| #[trigger] tick_slot_via(pre, mid, post, respawned, width, height);
    assert(post == mid);
}

} // verus!
