use crate::draw::DrawCommand;
use crate::draw::FillColor;
use crate::draw::Surface;
use crate::flake::SUBPIXELS;
use crate::rng::RandomSource;
use crate::snow::flat_draws;
use crate::snow::tick_slot;
use crate::snow::Snow;
use crate::snow::FLAKE_COUNT;
use vstd::prelude::*;

verus! {

/// Why no Universe could be built.
#[derive(Clone, Copy, PartialEq, Eq, Structural, Debug)]
pub enum SceneError {
    /// No drawing surface answers to the requested identifier.
    ResourceNotFound,
    /// The surface exists but declares no usable width or height.
    InvalidDimensions,
}

/// What the host read off the drawing surface it resolved: the raw bytes of
/// the declared width and height attributes, each absent when the surface
/// does not declare it.
pub struct SurfaceDecl {
    pub width_attr: Option<Vec<u8>>,
    pub height_attr: Option<Vec<u8>>,
}

/// An ASCII decimal digit.
pub open spec fn is_digit(b: u8) -> bool {
    48 <= b <= 57
}

/// Every byte is an ASCII decimal digit.
pub open spec fn all_digits(s: Seq<u8>) -> bool {
    forall|i: int| 0 <= i < s.len() ==> is_digit(#[trigger] s[i])
}

/// The number the digit bytes name in base ten.
pub open spec fn dec_value(s: Seq<u8>) -> int
    decreases s.len(),
{
    if s.len() == 0 {
        0
    } else {
        dec_value(s.drop_last()) * 10 + (s.last() - 48)
    }
}

/// A usable dimension attribute: non-empty, all decimal digits, and naming
/// a value that fits `u32`.
pub open spec fn valid_dimension(s: Seq<u8>) -> bool {
    &&& s.len() > 0
    &&& all_digits(s)
    &&& dec_value(s) <= u32::MAX
}

proof fn lemma_dec_value_nonneg(s: Seq<u8>)
    requires
        all_digits(s),
    ensures
        dec_value(s) >= 0,
    decreases s.len(),
{
    if s.len() > 0 {
        assert(all_digits(s.drop_last())) by {
            assert(forall|i: int|
                0 <= i < s.len() - 1 ==> #[trigger] s.drop_last()[i] == s[i]);
        }
        lemma_dec_value_nonneg(s.drop_last());
    }
}

proof fn lemma_dec_value_prefix(s: Seq<u8>, k: int)
    requires
        0 <= k <= s.len(),
        all_digits(s),
    ensures
        dec_value(s.take(k)) <= dec_value(s),
    decreases s.len() - k,
{
    if k == s.len() {
        assert(s.take(k) =~= s);
    } else {
        lemma_dec_value_prefix(s, k + 1);
        assert(s.take(k + 1).drop_last() =~= s.take(k));
        assert(all_digits(s.take(k))) by {
            assert(forall|i: int| 0 <= i < k ==> #[trigger] s.take(k)[i] == s[i]);
        }
        lemma_dec_value_nonneg(s.take(k));
        assert(dec_value(s.take(k + 1)) == dec_value(s.take(k)) * 10 + (s[k] - 48));
    }
}

/// Reads a base-ten unsigned number from attribute bytes. `None` exactly
/// when the bytes are empty, hold a non-digit, or name a value that does
/// not fit `u32`.
pub fn parse_dimension(s: &Vec<u8>) -> (r: Option<u32>)
    ensures
        match r {
            Some(v) => valid_dimension(s@) && v == dec_value(s@),
            None => !valid_dimension(s@),
        },
{
    if s.len() == 0 {
        return None;
    }
    let mut acc: u64 = 0;
    let mut i: usize = 0;
    while i < s.len()
        invariant
            i <= s@.len(),
            s@.len() > 0,
            all_digits(s@.take(i as int)),
            acc == dec_value(s@.take(i as int)),
            acc <= u32::MAX,
        decreases s@.len() - i,
    {
        let b: u8 = s[i];
        if b < 48 || b > 57 {
            assert(!all_digits(s@)) by {
                assert(!is_digit(s@[i as int]));
            }
            return None;
        }
        proof {
            assert(s@.take(i as int + 1).drop_last() =~= s@.take(i as int));
            assert(forall|j: int|
                0 <= j < i as int + 1 ==> #[trigger] s@.take(i as int + 1)[j] == s@[j]);
        }
        acc = acc * 10 + ((b - 48) as u64);
        if acc > (u32::MAX as u64) {
            proof {
                if all_digits(s@) {
                    lemma_dec_value_prefix(s@, i as int + 1);
                }
            }
            return None;
        }
        i = i + 1;
    }
    proof {
        assert(s@.take(i as int) =~= s@);
    }
    Some(acc as u32)
}

/// The declared attributes name usable bounds: both present, both decimal
/// numbers that fit `u32`, and both at least one pixel.
pub open spec fn usable_bounds(d: SurfaceDecl) -> bool {
    &&& d.width_attr matches Some(w) && valid_dimension(w@) && dec_value(w@) >= 1
    &&& d.height_attr matches Some(h) && valid_dimension(h@) && dec_value(h@) >= 1
}

/// The commands that clearing the whole surface records: the full bounds
/// rectangle filled with the dark background colour.
pub open spec fn clear_seq(width: u32, height: u32) -> Seq<DrawCommand> {
    seq![
        DrawCommand::BeginPath,
        DrawCommand::SetFillStyle { color: FillColor::Night },
        DrawCommand::FillRect {
            x: 0,
            y: 0,
            width: ((width * SUBPIXELS) as i64),
            height: ((height * SUBPIXELS) as i64),
        },
        DrawCommand::Stroke,
    ]
}

/// The renderable world: one drawing surface's pixel bounds, the command
/// stream recorded against it, and one snowfield sized to those bounds.
pub struct Universe {
    pub width: u32,
    pub height: u32,
    pub surface: Surface,
    pub snow: Snow,
}

impl Universe {
    /// A well-formed world: positive bounds, and a well-formed snowfield
    /// sized to exactly those bounds.
    pub open spec fn wf(self) -> bool {
        &&& self.width >= 1
        &&& self.height >= 1
        &&& self.snow.wf()
        &&& self.snow.width == self.width
        &&& self.snow.height == self.height
    }

    /// Builds the world over the surface the host resolved. Resolving the
    /// identifier and reading the attributes is the host's part: `found` is
    /// `None` when no surface answered, else the declared attributes as
    /// read. Construction fails, and no Universe exists, when the surface
    /// was not found or its declared bounds are unusable.
    pub fn new<R: RandomSource>(found: Option<SurfaceDecl>, rng: &mut R) -> (r: Result<
        Universe,
        SceneError,
    >)
        ensures
            match r {
                Ok(u) => {
                    &&& found matches Some(d) && usable_bounds(d)
                    &&& u.wf()
                    &&& found matches Some(d) && u.width == dec_value(d.width_attr->Some_0@)
                    &&& found matches Some(d) && u.height == dec_value(d.height_attr->Some_0@)
                    &&& u.surface.commands() === Seq::<DrawCommand>::empty()
                },
                Err(SceneError::ResourceNotFound) => found is None,
                Err(SceneError::InvalidDimensions) => found matches Some(d) && !usable_bounds(d),
            },
    {
        match found {
            None => Err(SceneError::ResourceNotFound),
            Some(d) => {
                let width_parsed: Option<u32> = match &d.width_attr {
                    Some(w) => parse_dimension(w),
                    None => None,
                };
                let height_parsed: Option<u32> = match &d.height_attr {
                    Some(h) => parse_dimension(h),
                    None => None,
                };
                match (width_parsed, height_parsed) {
                    (Some(width), Some(height)) => {
                        if width >= 1 && height >= 1 {
                            let snow = Snow::new(width, height, rng);
                            Ok(Universe { width, height, surface: Surface::new(), snow })
                        } else {
                            Err(SceneError::InvalidDimensions)
                        }
                    },
                    _ => Err(SceneError::InvalidDimensions),
                }
            },
        }
    }

    /// The surface's declared width, in pixels.
    pub fn width(&self) -> (w: u32)
        ensures
            w == self.width,
    {
        self.width
    }

    /// The surface's declared height, in pixels.
    pub fn height(&self) -> (h: u32)
        ensures
            h == self.height,
    {
        self.height
    }

    /// Clears the surface: fills the whole bounds rectangle with the dark
    /// background colour, so the frame starts from an empty sky.
    fn clear_world(&mut self)
        ensures
            final(self).surface.commands() == old(self).surface.commands() + clear_seq(
                old(self).width,
                old(self).height,
            ),
            final(self).width == old(self).width,
            final(self).height == old(self).height,
            final(self).snow == old(self).snow,
    {
        self.surface.record(DrawCommand::BeginPath);
        self.surface.record(DrawCommand::SetFillStyle { color: FillColor::Night });
        let width_units: i64 = (self.width as i64) * SUBPIXELS;
        let height_units: i64 = (self.height as i64) * SUBPIXELS;
        self.surface.record(
            DrawCommand::FillRect { x: 0, y: 0, width: width_units, height: height_units },
        );
        self.surface.record(DrawCommand::Stroke);
        proof {
            assert(self.surface.commands() =~= old(self).surface.commands() + clear_seq(
                old(self).width,
                old(self).height,
            ));
        }
    }

    /// One frame: clears the surface to the background, then advances,
    /// draws and respawns every flake. Returns, per slot, whether that slot
    /// respawned this frame.
    pub fn tick<R: RandomSource>(&mut self, rng: &mut R) -> (respawned: Vec<bool>)
        requires
            old(self).wf(),
        ensures
            final(self).wf(),
            final(self).width == old(self).width,
            final(self).height == old(self).height,
            final(self).snow.flakes@.len() == old(self).snow.flakes@.len(),
            respawned@.len() == FLAKE_COUNT,
            forall|i: int|
                0 <= i < FLAKE_COUNT ==> #[trigger] tick_slot(
                    old(self).snow.flakes@[i],
                    final(self).snow.flakes@[i],
                    respawned@[i],
                    old(self).width,
                    old(self).height,
                ),
            final(self).surface.commands() == old(self).surface.commands() + clear_seq(
                old(self).width,
                old(self).height,
            ) + flat_draws(old(self).snow.flakes@),
    {
        self.clear_world();
        let respawned = self.snow.tick(&mut self.surface, rng);
        respawned
    }

    /// Hands the frame's recorded commands to the host, oldest first, and
    /// starts the next frame's recording empty.
    pub fn take_frame(&mut self) -> (out: Vec<DrawCommand>)
        ensures
            out@ == old(self).surface.commands(),
            final(self).surface.commands() === Seq::<DrawCommand>::empty(),
            final(self).width == old(self).width,
            final(self).height == old(self).height,
            final(self).snow == old(self).snow,
    {
        self.surface.take_commands()
    }
}

} // verus!
