//! How a shape is drawn: filled, or stroked along its outline, and with
//! which options. The options are handed to the tessellator unread, but for
//! the tolerance and the line width, which the shape operations set.

use vstd::prelude::*;
use crate::scalar::Scalar;

verus! {

/// Bit pattern of `0.1`, the tolerance of both kinds of options by default.
pub const DEFAULT_TOLERANCE_BITS: u32 = 0x3DCC_CCCD;

/// Bit pattern of `1.0`, the line width by default.
pub const DEFAULT_LINE_WIDTH_BITS: u32 = 0x3F80_0000;

/// Bit pattern of `4.0`, the miter limit by default.
pub const DEFAULT_MITER_LIMIT_BITS: u32 = 0x4080_0000;

/// Which points count as inside a path that crosses itself.
#[derive(Clone, Copy, Debug, PartialEq, Eq, Structural)]
pub enum FillRule {
    EvenOdd,
    NonZero,
}

/// The direction in which a fill sweeps over the geometry.
#[derive(Clone, Copy, Debug, PartialEq, Eq, Structural)]
pub enum Orientation {
    Horizontal,
    Vertical,
}

/// The shape of the two ends of a stroked path.
#[derive(Clone, Copy, Debug, PartialEq, Eq, Structural)]
pub enum LineCap {
    Butt,
    Square,
    Round,
}

/// The shape of the corners of a stroked path.
#[derive(Clone, Copy, Debug, PartialEq, Eq, Structural)]
pub enum LineJoin {
    Miter,
    MiterClip,
    Round,
    Bevel,
}

/// Parameters of a fill.
#[derive(Clone, Copy, Debug)]
pub struct FillOptions {
    /// Greatest distance allowed between a curve and the segments that
    /// stand for it.
    pub tolerance: Scalar,
    pub fill_rule: FillRule,
    pub sweep_orientation: Orientation,
    /// Whether the path may cross itself.
    pub handle_intersections: bool,
}

/// Parameters of a stroke.
#[derive(Clone, Copy, Debug)]
pub struct StrokeOptions {
    pub start_cap: LineCap,
    pub end_cap: LineCap,
    pub line_join: LineJoin,
    pub line_width: Scalar,
    pub miter_limit: Scalar,
    /// Greatest distance allowed between a curve and the segments that
    /// stand for it.
    pub tolerance: Scalar,
}

impl FillOptions {
    pub open spec fn default_spec() -> FillOptions {
        FillOptions {
            tolerance: Scalar { bits: DEFAULT_TOLERANCE_BITS },
            fill_rule: FillRule::EvenOdd,
            sweep_orientation: Orientation::Vertical,
            handle_intersections: true,
        }
    }

    /// The same options with the tolerance replaced.
    pub open spec fn with_tolerance_spec(self, tolerance: Scalar) -> FillOptions {
        FillOptions { tolerance, ..self }
    }

    /// Even-odd rule, vertical sweep, self-intersections handled, tolerance `0.1`.
    pub fn new() -> (o: FillOptions)
        ensures
            o == FillOptions::default_spec(),
    {
        FillOptions {
            tolerance: Scalar { bits: DEFAULT_TOLERANCE_BITS },
            fill_rule: FillRule::EvenOdd,
            sweep_orientation: Orientation::Vertical,
            handle_intersections: true,
        }
    }

    #[verifier::when_used_as_spec(with_tolerance_spec)]
    pub fn with_tolerance(self, tolerance: Scalar) -> (o: FillOptions)
        ensures
            o == self.with_tolerance_spec(tolerance),
    {
        FillOptions { tolerance, ..self }
    }
}

impl StrokeOptions {
    pub open spec fn default_spec() -> StrokeOptions {
        StrokeOptions {
            start_cap: LineCap::Butt,
            end_cap: LineCap::Butt,
            line_join: LineJoin::Miter,
            line_width: Scalar { bits: DEFAULT_LINE_WIDTH_BITS },
            miter_limit: Scalar { bits: DEFAULT_MITER_LIMIT_BITS },
            tolerance: Scalar { bits: DEFAULT_TOLERANCE_BITS },
        }
    }

    /// The same options with the tolerance replaced.
    pub open spec fn with_tolerance_spec(self, tolerance: Scalar) -> StrokeOptions {
        StrokeOptions { tolerance, ..self }
    }

    /// The same options with the line width replaced.
    pub open spec fn with_line_width_spec(self, width: Scalar) -> StrokeOptions {
        StrokeOptions { line_width: width, ..self }
    }

    /// Butt caps, miter joins with limit `4.0`, width `1.0`, tolerance `0.1`.
    pub fn new() -> (o: StrokeOptions)
        ensures
            o == StrokeOptions::default_spec(),
    {
        StrokeOptions {
            start_cap: LineCap::Butt,
            end_cap: LineCap::Butt,
            line_join: LineJoin::Miter,
            line_width: Scalar { bits: DEFAULT_LINE_WIDTH_BITS },
            miter_limit: Scalar { bits: DEFAULT_MITER_LIMIT_BITS },
            tolerance: Scalar { bits: DEFAULT_TOLERANCE_BITS },
        }
    }

    #[verifier::when_used_as_spec(with_tolerance_spec)]
    pub fn with_tolerance(self, tolerance: Scalar) -> (o: StrokeOptions)
        ensures
            o == self.with_tolerance_spec(tolerance),
    {
        StrokeOptions { tolerance, ..self }
    }

    #[verifier::when_used_as_spec(with_line_width_spec)]
    pub fn with_line_width(self, width: Scalar) -> (o: StrokeOptions)
        ensures
            o == self.with_line_width_spec(width),
    {
        StrokeOptions { line_width: width, ..self }
    }
}

/// Whether a shape is drawn as its outline or as its interior.
#[derive(Clone, Copy, Debug)]
pub enum DrawMode {
    /// A line of some width along the outline.
    Stroke(StrokeOptions),
    /// The area inside the outline.
    Fill(FillOptions),
}

impl DrawMode {
    pub open spec fn stroke_spec(width: Scalar) -> DrawMode {
        DrawMode::Stroke(StrokeOptions::default_spec().with_line_width_spec(width))
    }

    pub open spec fn fill_spec() -> DrawMode {
        DrawMode::Fill(FillOptions::default_spec())
    }

    /// The same mode with the tolerance of its options replaced.
    pub open spec fn with_tolerance_spec(self, tolerance: Scalar) -> DrawMode {
        match self {
            DrawMode::Stroke(options) => DrawMode::Stroke(options.with_tolerance_spec(tolerance)),
            DrawMode::Fill(options) => DrawMode::Fill(options.with_tolerance_spec(tolerance)),
        }
    }

    /// A stroke of the given width, otherwise by default.
    #[verifier::when_used_as_spec(stroke_spec)]
    pub fn stroke(width: Scalar) -> (mode: DrawMode)
        ensures
            mode == DrawMode::stroke_spec(width),
    {
        DrawMode::Stroke(StrokeOptions::new().with_line_width(width))
    }

    /// A fill by default.
    #[verifier::when_used_as_spec(fill_spec)]
    pub fn fill() -> (mode: DrawMode)
        ensures
            mode == DrawMode::fill_spec(),
    {
        DrawMode::Fill(FillOptions::new())
    }

    #[verifier::when_used_as_spec(with_tolerance_spec)]
    pub fn with_tolerance(self, tolerance: Scalar) -> (mode: DrawMode)
        ensures
            mode == self.with_tolerance_spec(tolerance),
    {
        match self {
            DrawMode::Stroke(options) => DrawMode::Stroke(options.with_tolerance(tolerance)),
            DrawMode::Fill(options) => DrawMode::Fill(options.with_tolerance(tolerance)),
        }
    }
}

} // verus!
