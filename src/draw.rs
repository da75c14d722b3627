//! Drawing commands that entities emit for the host to replay on a 2D
//! canvas, in order. Coordinates and sizes are in sub-pixels.
use vstd::prelude::*;

verus! {

#[derive(Clone, Copy, Debug, PartialEq, Eq, Structural)]
pub enum Color {
    White,
    Black,
}

#[derive(Clone, Copy, Debug, PartialEq, Eq, Structural)]
pub enum DrawCommand {
    /// Push the canvas's drawing state, fill colour included.
    Save,
    /// Pop the drawing state last pushed; with none pushed, nothing happens.
    Restore,
    /// Set the fill colour used by later rectangles.
    SetFill(Color),
    /// Fill a rectangle with the current fill colour.
    FillRect { x: i64, y: i64, w: i64, h: i64 },
    /// Draw the craft's sprite scaled into a rectangle.
    Sprite { x: i64, y: i64, w: i64, h: i64 },
}

/// The fill side of a canvas's drawing state: the fill colour in force
/// and the saved ones, innermost last. `None` stands for a fill that
/// something else set.
pub struct FillState {
    pub fill: Option<Color>,
    pub saved: Seq<Option<Color>>,
}

/// The fill state after one command.
pub open spec fn replay_step(s: FillState, c: DrawCommand) -> FillState {
    match c {
        DrawCommand::Save => FillState { fill: s.fill, saved: s.saved.push(s.fill) },
        DrawCommand::Restore => if s.saved.len() > 0 {
            FillState { fill: s.saved.last(), saved: s.saved.drop_last() }
        } else {
            s
        },
        DrawCommand::SetFill(col) => FillState { fill: Some(col), saved: s.saved },
        _ => s,
    }
}

/// The fill state after the commands `cmds`, in order.
pub open spec fn replay(s: FillState, cmds: Seq<DrawCommand>) -> FillState
    decreases cmds.len(),
{
    if cmds.len() == 0 {
        s
    } else {
        replay_step(replay(s, cmds.drop_last()), cmds.last())
    }
}

/// Replaying one more command of `cmds` is one more step.
pub proof fn lemma_replay_prefix(s: FillState, cmds: Seq<DrawCommand>, i: int)
    requires
        0 <= i < cmds.len(),
    ensures
        replay(s, cmds.take(i + 1)) == replay_step(replay(s, cmds.take(i)), cmds[i]),
{
    assert(cmds.take(i + 1).drop_last() =~= cmds.take(i));
}

/// Replaying two runs of commands is replaying the first, then the second.
pub proof fn lemma_replay_concat(s: FillState, a: Seq<DrawCommand>, b: Seq<DrawCommand>)
    ensures
        replay(s, a + b) == replay(replay(s, a), b),
    decreases b.len(),
{
    if b.len() == 0 {
        assert(a + b =~= a);
    } else {
        lemma_replay_concat(s, a, b.drop_last());
        assert((a + b).drop_last() =~= a + b.drop_last());
    }
}

} // verus!
