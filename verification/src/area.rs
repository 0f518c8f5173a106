use vstd::prelude::*;

verus! {

/// A rectangle of terminal cells: the drawable surface handed to the shell,
/// and the sub-regions the layout engine cuts it into.
#[derive(Clone, Copy, PartialEq, Eq, Structural, Debug)]
pub struct Area {
    pub x: u16,
    pub y: u16,
    pub width: u16,
    pub height: u16,
}

impl Area {
    /// A rectangle fits the terminal's coordinate space when its right and
    /// bottom edges stay representable.
    pub open spec fn wf(self) -> bool {
        self.x + self.width <= u16::MAX && self.y + self.height <= u16::MAX
    }

    pub fn new(x: u16, y: u16, width: u16, height: u16) -> (r: Area)
        ensures
            r == (Area { x, y, width, height }),
    {
        Area { x, y, width, height }
    }

    /// The empty rectangle at the origin.
    pub fn zero() -> (r: Area)
        ensures
            r == (Area { x: 0u16, y: 0u16, width: 0u16, height: 0u16 }),
    {
        Area { x: 0, y: 0, width: 0, height: 0 }
    }
}

impl Default for Area {
    fn default() -> (r: Area)
        ensures
            r == (Area { x: 0u16, y: 0u16, width: 0u16, height: 0u16 }),
    {
        Area::zero()
    }
}

} // verus!
