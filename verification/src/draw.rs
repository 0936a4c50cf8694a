//! Drawing, as a record of operations.
//!
//! Nothing here touches a surface. A [`Context`] keeps the operations asked
//! of it, in order; whoever owns the surface carries them out, one call each.

use vstd::prelude::*;
use crate::text::{Color, Font};

verus! {

/// Pango's units in one pixel.
pub const PANGO_SCALE: i32 = 1024;

/// The most pixels whose count of Pango units is still an `i32`.
pub const MAX_LAYOUT_PIXELS: u32 = 2097151;

/// Where the text of a layout stands in the width it was given.
#[derive(Clone, Copy, Debug, PartialEq, Eq, Structural)]
pub enum Alignment {
    Left,
    Center,
}

/// Where a text that does not fit its layout is cut.
#[derive(Clone, Copy, Debug, PartialEq, Eq, Structural)]
pub enum EllipsizeMode {
    /// It is not cut.
    Never,
    /// Its end gives way to an ellipsis.
    End,
}

/// A text as the shaping engine is to set it.
#[derive(Debug, PartialEq)]
pub struct Layout {
    pub text: String,
    pub font: Font,
    pub ellipsize: EllipsizeMode,
    /// The width the text may take, in Pango units; without one the text is
    /// as wide as it comes.
    pub width: Option<i32>,
    /// The height the text may take, in Pango units.
    pub height: Option<i32>,
    pub alignment: Alignment,
}

/// What a [`Layout`] holds.
pub struct LayoutView {
    pub text: Seq<char>,
    pub font: Seq<char>,
    pub ellipsize: EllipsizeMode,
    pub width: Option<int>,
    pub height: Option<int>,
    pub alignment: Alignment,
}

/// An optional machine integer as an optional integer.
pub open spec fn limit_view(limit: Option<i32>) -> Option<int> {
    match limit {
        Some(units) => Some(units as int),
        None => None,
    }
}

impl View for Layout {
    type V = LayoutView;

    open spec fn view(&self) -> LayoutView {
        LayoutView {
            text: self.text@,
            font: self.font@,
            ellipsize: self.ellipsize,
            width: limit_view(self.width),
            height: limit_view(self.height),
            alignment: self.alignment,
        }
    }
}

impl Clone for Layout {
    fn clone(&self) -> (r: Layout)
        ensures
            r == *self,
    {
        Layout {
            text: self.text.clone(),
            font: self.font.clone(),
            ellipsize: self.ellipsize,
            width: self.width,
            height: self.height,
            alignment: self.alignment,
        }
    }
}

/// A length in pixels as Pango units. A length beyond
/// [`MAX_LAYOUT_PIXELS`] counts as that many pixels.
pub open spec fn pango_units(pixels: nat) -> int {
    if pixels > MAX_LAYOUT_PIXELS {
        MAX_LAYOUT_PIXELS * PANGO_SCALE
    } else {
        pixels * PANGO_SCALE
    }
}

/// A length in pixels as Pango units.
pub fn to_pango_units(pixels: u64) -> (r: i32)
    ensures
        r == pango_units(pixels as nat),
{
    if pixels > MAX_LAYOUT_PIXELS as u64 {
        MAX_LAYOUT_PIXELS as i32 * PANGO_SCALE
    } else {
        pixels as i32 * PANGO_SCALE
    }
}

/// One operation on a drawing context.
#[derive(Debug, PartialEq)]
pub enum DrawOp {
    /// Moves the origin by `tx` to the right and by `ty` down.
    Translate { tx: u128, ty: u128 },
    /// Makes `color` the colour of what is drawn next.
    SetSourceRgb { color: Color },
    /// Adds a rectangle to the path.
    Rectangle { x: u64, y: u64, width: u64, height: u64 },
    /// Fills the path and clears it.
    Fill,
    /// Draws a text with its top left corner at the origin.
    ShowLayout { layout: Layout },
}

/// What a [`DrawOp`] holds.
pub enum DrawOpView {
    Translate { tx: nat, ty: nat },
    SetSourceRgb { color: Color },
    Rectangle { x: nat, y: nat, width: nat, height: nat },
    Fill,
    ShowLayout { layout: LayoutView },
}

impl View for DrawOp {
    type V = DrawOpView;

    open spec fn view(&self) -> DrawOpView {
        match *self {
            DrawOp::Translate { tx, ty } => DrawOpView::Translate { tx: tx as nat, ty: ty as nat },
            DrawOp::SetSourceRgb { color } => DrawOpView::SetSourceRgb { color },
            DrawOp::Rectangle { x, y, width, height } => DrawOpView::Rectangle {
                x: x as nat,
                y: y as nat,
                width: width as nat,
                height: height as nat,
            },
            DrawOp::Fill => DrawOpView::Fill,
            DrawOp::ShowLayout { layout } => DrawOpView::ShowLayout { layout: layout@ },
        }
    }
}

impl Clone for DrawOp {
    fn clone(&self) -> (r: DrawOp)
        ensures
            r == *self,
    {
        match self {
            DrawOp::Translate { tx, ty } => DrawOp::Translate { tx: *tx, ty: *ty },
            DrawOp::SetSourceRgb { color } => DrawOp::SetSourceRgb { color: *color },
            DrawOp::Rectangle { x, y, width, height } => DrawOp::Rectangle {
                x: *x,
                y: *y,
                width: *width,
                height: *height,
            },
            DrawOp::Fill => DrawOp::Fill,
            DrawOp::ShowLayout { layout } => DrawOp::ShowLayout { layout: layout.clone() },
        }
    }
}

/// A drawing context that starts at the surface's origin and keeps the
/// operations asked of it.
#[derive(Debug, PartialEq)]
pub struct Context {
    pub ops: Vec<DrawOp>,
}

impl View for Context {
    type V = Seq<DrawOpView>;

    /// The operations asked so far, first to last.
    open spec fn view(&self) -> Seq<DrawOpView> {
        self.ops@.map_values(|op: DrawOp| op@)
    }
}

impl Clone for Context {
    fn clone(&self) -> (r: Context)
        ensures
            r@ == self@,
    {
        let r = Context { ops: self.ops.clone() };
        assert(r.ops@ =~= self.ops@);
        r
    }
}

impl Context {
    /// A context of which nothing was asked yet.
    pub fn new() -> (cr: Context)
        ensures
            cr@ == Seq::<DrawOpView>::empty(),
    {
        Context { ops: Vec::new() }
    }

    /// Records `op` behind the operations asked so far.
    fn record(&mut self, op: DrawOp)
        ensures
            final(self)@ == old(self)@.push(op@),
    {
        self.ops.push(op);
        assert(self@ =~= old(self)@.push(op@));
    }

    pub fn translate(&mut self, tx: u128, ty: u128)
        ensures
            final(self)@ == old(self)@.push(DrawOpView::Translate { tx: tx as nat, ty: ty as nat }),
    {
        self.record(DrawOp::Translate { tx, ty });
    }

    pub fn set_source_rgb(&mut self, color: Color)
        ensures
            final(self)@ == old(self)@.push(DrawOpView::SetSourceRgb { color }),
    {
        self.record(DrawOp::SetSourceRgb { color });
    }

    pub fn rectangle(&mut self, x: u64, y: u64, width: u64, height: u64)
        ensures
            final(self)@ == old(self)@.push(
                DrawOpView::Rectangle {
                    x: x as nat,
                    y: y as nat,
                    width: width as nat,
                    height: height as nat,
                },
            ),
    {
        self.record(DrawOp::Rectangle { x, y, width, height });
    }

    pub fn fill(&mut self)
        ensures
            final(self)@ == old(self)@.push(DrawOpView::Fill),
    {
        self.record(DrawOp::Fill);
    }

    pub fn show_layout(&mut self, layout: Layout)
        ensures
            final(self)@ == old(self)@.push(DrawOpView::ShowLayout { layout: layout@ }),
    {
        self.record(DrawOp::ShowLayout { layout });
    }
}

} // verus!
