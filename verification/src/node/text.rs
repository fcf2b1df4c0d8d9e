use vstd::prelude::*;

use crate::color::Color;
use crate::rat::Rat;

verus! {

/// A cached text primitive of a node: the string content together with the
/// layout data the rendering layer needs to place it. `base_x`/`base_y` hold
/// the render-time offset the owning node keeps synchronized with its own
/// position, and `x`/`y` the text's local position inside the node.
///
/// `bounds_y` is `None` when the text's height is unconstrained (the title
/// text wraps only horizontally).
pub struct Text {
    pub content: String,
    pub font: Option<String>,
    pub size: Rat,
    pub color: Color,
    pub bounds_x: Rat,
    pub bounds_y: Option<Rat>,
    pub base_x: Rat,
    pub base_y: Rat,
    pub x: Rat,
    pub y: Rat,
}

impl Text {
    /// All rational fields are well formed.
    pub open spec fn wf(self) -> bool {
        &&& self.size.wf()
        &&& self.bounds_x.wf()
        &&& (self.bounds_y matches Some(b) ==> b.wf())
        &&& self.base_x.wf()
        &&& self.base_y.wf()
        &&& self.x.wf()
        &&& self.y.wf()
    }

    /// A text at the origin with the given content and appearance.
    pub fn new(
        content: String,
        font: Option<String>,
        size: Rat,
        color: Color,
        bounds_x: Rat,
        bounds_y: Option<Rat>,
    ) -> (t: Text)
        requires
            size.wf(),
            bounds_x.wf(),
            bounds_y matches Some(b) ==> b.wf(),
        ensures
            t == (Text {
                content,
                font,
                size,
                color,
                bounds_x,
                bounds_y,
                base_x: Rat { num: 0, den: 1 },
                base_y: Rat { num: 0, den: 1 },
                x: Rat { num: 0, den: 1 },
                y: Rat { num: 0, den: 1 },
            }),
            t.wf(),
    {
        Text {
            content,
            font,
            size,
            color,
            bounds_x,
            bounds_y,
            base_x: Rat::from_int(0),
            base_y: Rat::from_int(0),
            x: Rat::from_int(0),
            y: Rat::from_int(0),
        }
    }

    /// Stores the render-time base offset; the owning node keeps it equal to
    /// its base position minus its own position.
    pub fn set_base_position(&mut self, x: Rat, y: Rat)
        ensures
            *final(self) == (Text { base_x: x, base_y: y, ..*old(self) }),
    {
        self.base_x = x;
        self.base_y = y;
    }

    /// Stores the text's local position inside the node.
    pub fn set_position(&mut self, x: Rat, y: Rat)
        ensures
            *final(self) == (Text { x, y, ..*old(self) }),
    {
        self.x = x;
        self.y = y;
    }

    /// Builder form of `set_base_position`.
    pub fn with_base_position(self, x: Rat, y: Rat) -> (t: Text)
        ensures
            t == (Text { base_x: x, base_y: y, ..self }),
    {
        Text { base_x: x, base_y: y, ..self }
    }

    /// Builder form of `set_position`.
    pub fn with_position(self, x: Rat, y: Rat) -> (t: Text)
        ensures
            t == (Text { x, y, ..self }),
    {
        Text { x, y, ..self }
    }
}

} // verus!
