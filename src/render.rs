//! The order of a render pass.
//!
//! A pass visits the canvas row by row, top to bottom, and each row left to
//! right; after each row it reports progress, and after the last row it asks
//! the host to paint. [`RenderPass::step`] hands out these actions one at a
//! time; the caller performs each one (evaluating and drawing a pixel,
//! reporting `row / height`, painting) and asks for the next.

use vstd::prelude::*;
use crate::view::{offset_of, pixel_offset, Canvas};

verus! {

/// What the caller does next in a render pass.
#[derive(Clone, Copy, Debug, PartialEq, Eq, Structural)]
pub enum RenderAction {
    /// Evaluate and draw pixel `(x, y)`, whose offsets from the centre
    /// pixel are `(dx, dy)`.
    Pixel { x: u32, y: u32, dx: i64, dy: i64 },
    /// Row `row` of `height` rows is done: report progress `row / height`.
    RowDone { row: u32, height: u32 },
    /// Every row is done: ask the host to present the frame.
    Paint,
    /// The pass is over.
    Finished,
}

/// A render pass over a canvas whose size is fixed for the whole pass.
#[derive(Clone, Copy, Debug, PartialEq, Eq, Structural)]
pub struct RenderPass {
    pub canvas: Canvas,
    /// The row being drawn; `canvas.height` once every row is done.
    pub row: u32,
    /// The next pixel of the current row; `canvas.width` once it is done.
    pub column: u32,
    /// Whether the paint action has been handed out.
    pub painted: bool,
}

impl RenderPass {
    /// The pass is in a reachable state.
    pub open spec fn wf(&self) -> bool {
        &&& self.row <= self.canvas.height
        &&& self.column <= self.canvas.width
        &&& self.row == self.canvas.height ==> self.column == 0
        &&& self.painted ==> self.row == self.canvas.height
    }

    /// Whether the pass has handed out every action but `Finished`.
    pub open spec fn is_done(&self) -> bool {
        self.row == self.canvas.height && self.painted
    }

    /// The number of actions left before `Finished`.
    pub open spec fn remaining(&self) -> nat {
        let rows_left = (self.canvas.height - self.row) as nat;
        let per_row = self.canvas.width as nat + 1;
        let this_row = if self.row < self.canvas.height {
            (self.canvas.width - self.column) as nat + 1
        } else {
            0
        };
        let later_rows = if self.row < self.canvas.height {
            ((rows_left - 1) as nat) * per_row
        } else {
            0
        };
        this_row + later_rows + if self.painted { 0nat } else { 1nat }
    }

    /// A pass at the top-left pixel of the canvas.
    pub fn new(canvas: Canvas) -> (r: RenderPass)
        ensures
            r.wf(),
            r.canvas == canvas,
            r.column == 0,
            r.painted == false,
            r.row == 0,
            r.remaining() == canvas.height as nat * (canvas.width as nat + 1) + 1,
    {
        let r = RenderPass { canvas, row: 0, column: 0, painted: false };
        proof {
            let h = canvas.height as nat;
            let w = canvas.width as nat;
            if h > 0 {
                assert((w + 1) + ((h - 1) as nat) * (w + 1) == h * (w + 1)) by (nonlinear_arith)
                    requires h > 0;
            }
        }
        r
    }

    /// The next action of the pass, and the pass moved past it.
    pub fn step(&mut self) -> (r: RenderAction)
        requires
            old(self).wf(),
        ensures
            final(self).wf(),
            final(self).canvas == old(self).canvas,
            ({
                let s = *old(self);
                let t = *final(self);
                if s.row < s.canvas.height && s.column < s.canvas.width {
                    &&& r == (RenderAction::Pixel {
                        x: s.column,
                        y: s.row,
                        dx: offset_of(s.column as int, s.canvas.width as int) as i64,
                        dy: offset_of(s.row as int, s.canvas.height as int) as i64,
                    })
                    &&& t.row == s.row
                    &&& t.column == s.column + 1
                    &&& t.painted == s.painted
                } else if s.row < s.canvas.height {
                    &&& r == (RenderAction::RowDone { row: s.row, height: s.canvas.height })
                    &&& t.row == s.row + 1
                    &&& t.column == 0
                    &&& t.painted == s.painted
                } else if !s.painted {
                    &&& r == RenderAction::Paint
                    &&& t.row == s.row
                    &&& t.column == s.column
                    &&& t.painted
                } else {
                    &&& r == RenderAction::Finished
                    &&& t == s
                }
            }),
            old(self).is_done() <==> r == RenderAction::Finished,
            !old(self).is_done() ==> final(self).remaining() < old(self).remaining(),
    {
        if self.row < self.canvas.height {
            if self.column < self.canvas.width {
                let x = self.column;
                let y = self.row;
                let dx = pixel_offset(x, self.canvas.width);
                let dy = pixel_offset(y, self.canvas.height);
                self.column = self.column + 1;
                RenderAction::Pixel { x, y, dx, dy }
            } else {
                let row = self.row;
                self.row = self.row + 1;
                self.column = 0;
                proof {
                    let w = self.canvas.width as nat;
                    let left = (self.canvas.height - row) as nat;
                    assert((left - 1) as nat * (w + 1) == if self.row < self.canvas.height {
                        (w + 1) + ((left - 2) as nat) * (w + 1)
                    } else {
                        0
                    }) by (nonlinear_arith)
                        requires left >= 1, self.row == row + 1, left == self.canvas.height - row;
                }
                RenderAction::RowDone { row, height: self.canvas.height }
            }
        } else if !self.painted {
            self.painted = true;
            RenderAction::Paint
        } else {
            RenderAction::Finished
        }
    }
}

} // verus!
