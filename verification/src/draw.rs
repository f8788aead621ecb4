use vstd::prelude::*;

verus! {

/// A fill colour the simulation paints with.
#[derive(Clone, Copy, PartialEq, Eq, Structural, Debug)]
pub enum FillColor {
    /// The flakes' own colour.
    White,
    /// The dark near-black that the background is cleared with.
    Night,
}

/// One drawing command, recorded against a surface. Coordinates, radii and
/// side lengths are in milli-pixel units.
#[derive(Clone, Copy, PartialEq, Eq, Structural, Debug)]
pub enum DrawCommand {
    /// Starts a fresh path.
    BeginPath,
    /// Adds a full circle of the given radius around `(x, y)` to the path.
    Arc { x: i64, y: i64, radius: i64 },
    /// Selects the colour that later fills paint with.
    SetFillStyle { color: FillColor },
    /// Fills the current path.
    Fill,
    /// Fills the axis-aligned rectangle with corner `(x, y)`.
    FillRect { x: i64, y: i64, width: i64, height: i64 },
    /// Strokes the current path's outline.
    Stroke,
}

/// A recording drawing surface: the simulation appends commands, and each
/// frame the host takes them and replays them onto its real surface.
pub struct Surface {
    commands: Vec<DrawCommand>,
}

impl Surface {
    /// A surface with an empty recording.
    pub fn new() -> (s: Surface)
        ensures
            s.commands() === Seq::<DrawCommand>::empty(),
    {
        Surface { commands: Vec::new() }
    }

    /// The commands recorded so far, oldest first.
    pub closed spec fn commands(self) -> Seq<DrawCommand> {
        self.commands@
    }

    /// Appends one command to the recording.
    pub fn record(&mut self, cmd: DrawCommand)
        ensures
            final(self).commands() == old(self).commands().push(cmd),
    {
        self.commands.push(cmd);
    }

    /// Hands the recording to the host and starts an empty one.
    pub fn take_commands(&mut self) -> (out: Vec<DrawCommand>)
        ensures
            out@ == old(self).commands(),
            final(self).commands() === Seq::<DrawCommand>::empty(),
    {
        let mut out: Vec<DrawCommand> = Vec::new();
        core::mem::swap(&mut out, &mut self.commands);
        out
    }
}

} // verus!
