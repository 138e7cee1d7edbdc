//! The screen: where the label and the readout stand, and how a duty is
//! brought onto it.
//!
//! The screen is addressed in pixels from its top-left corner. A fixed label
//! stands in the first text row. The duty readout has a region of its own
//! below it; bringing a new duty onto the screen takes three operations in
//! order: blank the readout region, draw the digits at its top-left corner,
//! and commit the frame. The display itself is driven from outside; this
//! module says what to ask of it, and what a failure of each operation means.

use vstd::prelude::*;
use crate::formatter::{
    format_decimal, formatted, is_readout_text, three_digits_hold_below_1000, READOUT_WIDTH,
};

verus! {

/// The width of one glyph of the monospace font, in pixels.
pub const GLYPH_WIDTH: u32 = 6;

/// The height of one glyph of the monospace font, in pixels.
pub const GLYPH_HEIGHT: u32 = 10;

/// The fixed label in the first text row.
pub const LABEL: &'static str = "Fan Speed:";

/// The number of glyphs in [`LABEL`].
pub const LABEL_GLYPHS: u32 = 10;

/// The largest value that the readout can show.
pub const READOUT_MAX: u32 = 999;

/// A pixel position; `x` grows to the right and `y` downwards.
#[derive(Clone, Copy, Debug, PartialEq, Eq, Structural)]
pub struct Point {
    pub x: i32,
    pub y: i32,
}

/// A rectangle of pixels, given by its top-left corner and its size.
#[derive(Clone, Copy, Debug, PartialEq, Eq, Structural)]
pub struct Region {
    pub top_left: Point,
    pub width: u32,
    pub height: u32,
}

impl Region {
    /// Whether the pixel at (`x`, `y`) lies in the region.
    pub open spec fn contains(self, x: int, y: int) -> bool {
        &&& self.top_left.x <= x < self.top_left.x + self.width
        &&& self.top_left.y <= y < self.top_left.y + self.height
    }

    /// Whether the two regions have no pixel in common.
    pub open spec fn is_disjoint_from(self, other: Region) -> bool {
        forall|x: int, y: int| !(self.contains(x, y) && other.contains(x, y))
    }

    /// Whether every pixel of `other` lies in this region.
    pub open spec fn covers(self, other: Region) -> bool {
        forall|x: int, y: int| other.contains(x, y) ==> self.contains(x, y)
    }
}

/// One operation asked of the display.
#[derive(Clone, Copy, Debug, PartialEq, Eq)]
pub enum DisplayOp {
    /// Fill the region with the colour "off".
    ClearRegion(Region),
    /// Draw `text` in the monospace font, the top-left corner of its first
    /// glyph at `top_left`.
    DrawText { text: [u8; READOUT_WIDTH], top_left: Point },
    /// Commit the frame to the screen.
    Flush,
}

/// The three steps that bring a duty onto the screen, in their order.
#[derive(Clone, Copy, Debug, PartialEq, Eq, Structural)]
pub enum RenderStage {
    /// Blank the readout region.
    Clear,
    /// Draw the digits.
    Draw,
    /// Commit the frame.
    Flush,
}

/// A failure of the display, named after the step that failed.
#[derive(Clone, Copy, Debug, PartialEq, Eq, Structural)]
pub enum DisplayError {
    /// The readout region could not be blanked.
    ClearFailed,
    /// The digits could not be drawn.
    DrawFailed,
    /// The frame could not be committed.
    FlushFailed,
}

impl RenderStage {
    /// The step that follows this one; none after the last.
    pub open spec fn following(self) -> Option<RenderStage> {
        match self {
            RenderStage::Clear => Some(RenderStage::Draw),
            RenderStage::Draw => Some(RenderStage::Flush),
            RenderStage::Flush => None,
        }
    }

    /// The error that a failure of this step amounts to.
    pub open spec fn failure(self) -> DisplayError {
        match self {
            RenderStage::Clear => DisplayError::ClearFailed,
            RenderStage::Draw => DisplayError::DrawFailed,
            RenderStage::Flush => DisplayError::FlushFailed,
        }
    }

    /// The step that follows this one; none after the last.
    pub fn next(self) -> (next: Option<RenderStage>)
        ensures
            next == self.following(),
    {
        match self {
            RenderStage::Clear => Some(RenderStage::Draw),
            RenderStage::Draw => Some(RenderStage::Flush),
            RenderStage::Flush => None,
        }
    }

    /// The error that a failure of this step amounts to.
    pub fn error(self) -> (error: DisplayError)
        ensures
            error == self.failure(),
    {
        match self {
            RenderStage::Clear => DisplayError::ClearFailed,
            RenderStage::Draw => DisplayError::DrawFailed,
            RenderStage::Flush => DisplayError::FlushFailed,
        }
    }
}

/// Whether `op` is what the step `stage` asks of the display in order to
/// show `duty`.
pub open spec fn renders(stage: RenderStage, duty: nat, op: DisplayOp) -> bool {
    match stage {
        RenderStage::Clear => op == DisplayOp::ClearRegion(readout_region()),
        RenderStage::Draw => {
            &&& op matches DisplayOp::DrawText { text, top_left }
            &&& text@ == formatted(duty, READOUT_WIDTH as nat)
            &&& top_left == readout_region().top_left
        },
        RenderStage::Flush => op == DisplayOp::Flush,
    }
}

/// The pixels that `glyphs` glyphs take when drawn from `top_left` with the
/// top of the glyphs as the baseline.
pub open spec fn text_extent_of(top_left: Point, glyphs: nat) -> Region {
    Region { top_left, width: (glyphs * GLYPH_WIDTH) as u32, height: GLYPH_HEIGHT }
}

/// Where the label is drawn: the top-left corner of the screen.
pub open spec fn label_origin_spec() -> Point {
    Point { x: 0, y: 0 }
}

/// The pixels that the label takes.
pub open spec fn label_region_spec() -> Region {
    text_extent_of(label_origin_spec(), LABEL_GLYPHS as nat)
}

/// The region reserved for the readout.
pub open spec fn readout_region_spec() -> Region {
    Region { top_left: Point { x: 0, y: 16 }, width: 50, height: 20 }
}

/// The pixels that `glyphs` glyphs take when drawn from `top_left` with the
/// top of the glyphs as the baseline.
pub fn text_extent(top_left: Point, glyphs: u32) -> (extent: Region)
    requires
        glyphs * GLYPH_WIDTH <= u32::MAX,
    ensures
        extent == text_extent_of(top_left, glyphs as nat),
{
    Region { top_left, width: glyphs * GLYPH_WIDTH, height: GLYPH_HEIGHT }
}

/// Where the label is drawn.
#[verifier::when_used_as_spec(label_origin_spec)]
pub fn label_origin() -> (origin: Point)
    ensures
        origin == label_origin_spec(),
{
    Point { x: 0, y: 0 }
}

/// The pixels that the label takes.
#[verifier::when_used_as_spec(label_region_spec)]
pub fn label_region() -> (region: Region)
    ensures
        region == label_region_spec(),
{
    text_extent(label_origin(), LABEL_GLYPHS)
}

/// The region reserved for the readout.
#[verifier::when_used_as_spec(readout_region_spec)]
pub fn readout_region() -> (region: Region)
    ensures
        region == readout_region_spec(),
{
    Region { top_left: Point { x: 0, y: 16 }, width: 50, height: 20 }
}

/// What the step `stage` asks of the display in order to show `duty`:
/// blank the readout region, draw the digits of `duty` at its top-left
/// corner, or commit the frame.
pub fn render_op(stage: RenderStage, duty: u32) -> (op: DisplayOp)
    requires
        duty <= READOUT_MAX,
    ensures
        renders(stage, duty as nat, op),
        op matches DisplayOp::DrawText { text, .. } ==> is_readout_text(text@),
{
    match stage {
        RenderStage::Clear => DisplayOp::ClearRegion(readout_region()),
        RenderStage::Draw => {
            proof {
                three_digits_hold_below_1000(duty as nat);
            }
            let text = format_decimal::<READOUT_WIDTH>(duty as u64);
            DisplayOp::DrawText { text, top_left: readout_region().top_left }
        },
        RenderStage::Flush => DisplayOp::Flush,
    }
}

/// [`LABEL`] has [`LABEL_GLYPHS`] characters.
pub proof fn label_length()
    ensures
        LABEL@.len() == LABEL_GLYPHS,
{
    reveal_strlit("Fan Speed:");
}

/// The layout keeps the label and the readout apart: the two regions share
/// no pixel, so blanking the readout region never touches the label. The
/// digits of a readout, drawn from the region's top-left corner, stay
/// inside the region, so blanking it removes all of the previous readout.
pub proof fn layout_is_sound()
    ensures
        label_region().is_disjoint_from(readout_region()),
        readout_region().is_disjoint_from(label_region()),
        readout_region().covers(text_extent_of(readout_region().top_left, READOUT_WIDTH as nat)),
{
}

} // verus!
