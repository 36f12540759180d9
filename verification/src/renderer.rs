//! The frame renderer: turns a trace into the drawing commands that paint
//! one frame.

use crate::geometry::{CanvasDimensions, PixelPoint};
use vstd::prelude::*;

verus! {

/// Level of each channel of the flat background, a light gray.
pub const BACKGROUND_LEVEL: u8 = 200;

/// Level of each channel of the trace, black.
pub const STROKE_LEVEL: u8 = 0;

/// Width of the trace in device pixels.
pub const STROKE_WIDTH: u32 = 2;

/// An opaque colour by its red, green and blue channels.
#[derive(Clone, Copy, Debug, PartialEq, Eq, Structural)]
pub struct Color {
    pub red: u8,
    pub green: u8,
    pub blue: u8,
}

/// One operation on the drawing surface.
#[derive(Clone, Copy, Debug, PartialEq, Eq, Structural)]
pub enum DrawCommand {
    /// Fill the rectangle from the origin to (`width`, `height`).
    Fill { color: Color, width: u32, height: u32 },
    /// Set the width and the colour of strokes to come.
    SetStroke { width: u32, color: Color },
    /// Start a new, empty path.
    BeginPath,
    /// Start a stretch of the path at a point.
    MoveTo(PixelPoint),
    /// Extend the path by a straight segment to a point.
    LineTo(PixelPoint),
    /// Stroke the path.
    Stroke,
}

/// The colour that clears the surface.
pub open spec fn background_spec() -> Color {
    Color { red: BACKGROUND_LEVEL, green: BACKGROUND_LEVEL, blue: BACKGROUND_LEVEL }
}

/// The colour of the trace.
pub open spec fn stroke_color_spec() -> Color {
    Color { red: STROKE_LEVEL, green: STROKE_LEVEL, blue: STROKE_LEVEL }
}

/// What precedes the path: the whole surface is cleared to the background,
/// then the stroke is set, then a path is begun.
pub open spec fn prologue_spec(dims: CanvasDimensions) -> Seq<DrawCommand> {
    seq![
        DrawCommand::Fill { color: background_spec(), width: dims.width, height: dims.height },
        DrawCommand::SetStroke { width: STROKE_WIDTH, color: stroke_color_spec() },
        DrawCommand::BeginPath,
    ]
}

/// The path through `points`: a move to the first, a segment to each other.
pub open spec fn path_spec(points: Seq<PixelPoint>) -> Seq<DrawCommand> {
    Seq::new(
        points.len(),
        |index: int|
            if index == 0 {
                DrawCommand::MoveTo(points[index])
            } else {
                DrawCommand::LineTo(points[index])
            },
    )
}

/// The commands of one frame, in the order in which they are carried out.
pub open spec fn render_spec(points: Seq<PixelPoint>, dims: CanvasDimensions) -> Seq<DrawCommand> {
    prologue_spec(dims) + path_spec(points) + seq![DrawCommand::Stroke]
}

/// Lists the commands that paint `points` on a surface of size `dims`.
///
/// Nothing of an earlier frame survives: the first command clears the whole
/// surface. The path is stroked once, by the last command.
pub fn render(points: &Vec<PixelPoint>, dims: CanvasDimensions) -> (commands: Vec<DrawCommand>)
    ensures
        commands@ == render_spec(points@, dims),
        commands.len() == points.len() + 4,
{
    let background = Color {
        red: BACKGROUND_LEVEL,
        green: BACKGROUND_LEVEL,
        blue: BACKGROUND_LEVEL,
    };
    let black = Color { red: STROKE_LEVEL, green: STROKE_LEVEL, blue: STROKE_LEVEL };
    let mut commands: Vec<DrawCommand> = Vec::new();
    commands.push(DrawCommand::Fill { color: background, width: dims.width, height: dims.height });
    commands.push(DrawCommand::SetStroke { width: STROKE_WIDTH, color: black });
    commands.push(DrawCommand::BeginPath);
    assert(commands@ =~= prologue_spec(dims));
    let mut index: usize = 0;
    while index < points.len()
        invariant
            index <= points.len(),
            commands@ =~= prologue_spec(dims) + path_spec(points@).take(index as int),
        decreases points.len() - index,
    {
        let point: PixelPoint = points[index];
        if index == 0 {
            commands.push(DrawCommand::MoveTo(point));
        } else {
            commands.push(DrawCommand::LineTo(point));
        }
        index = index + 1;
    }
    assert(path_spec(points@).take(index as int) =~= path_spec(points@));
    commands.push(DrawCommand::Stroke);
    commands
}

} // verus!
