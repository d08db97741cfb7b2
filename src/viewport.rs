use vstd::prelude::*;

verus! {

/// The rectangle of the surface that rendering targets.
#[derive(Clone, Copy, Debug, PartialEq, Eq, Structural)]
pub struct Viewport {
    pub x: i32,
    pub y: i32,
    pub w: i32,
    pub h: i32,
}

impl Viewport {
    /// The whole of a `w` by `h` window.
    pub fn for_window(w: i32, h: i32) -> (r: Viewport)
        ensures
            r == (Viewport { x: 0, y: 0, w, h }),
    {
        Viewport { x: 0, y: 0, w, h }
    }

    /// Resizes the viewport, keeping its origin.
    pub fn update_size(&mut self, w: i32, h: i32)
        ensures
            *final(self) == (Viewport { w, h, ..*old(self) }),
    {
        self.w = w;
        self.h = h;
    }
}

/// Which camera movement keys are held.
#[derive(Clone, Copy, Debug, PartialEq, Eq, Structural)]
pub struct WasdMovement {
    pub left: bool,
    pub forward: bool,
    pub backward: bool,
    pub right: bool,
    pub up: bool,
    pub down: bool,
    pub faster: bool,
}

/// The component of a direction along an axis: +1, -1, or 0 when both or
/// neither of its keys are held.
pub open spec fn axis(positive: bool, negative: bool) -> int {
    (if positive { 1int } else { 0int }) - (if negative { 1int } else { 0int })
}

impl WasdMovement {
    /// No key held.
    pub fn new() -> (r: WasdMovement)
        ensures
            r == (WasdMovement {
                left: false,
                forward: false,
                backward: false,
                right: false,
                up: false,
                down: false,
                faster: false,
            }),
    {
        WasdMovement {
            left: false,
            forward: false,
            backward: false,
            right: false,
            up: false,
            down: false,
            faster: false,
        }
    }

    /// Whether any of faster, right, forward, backward, up or down is held.
    pub fn has_movement(&self) -> (r: bool)
        ensures
            r == (self.faster || self.right || self.forward || self.backward || self.up
                || self.down),
    {
        self.faster || self.right || self.forward || self.backward || self.up || self.down
    }

    /// The direction of movement, one unit step per axis: x from right and left,
    /// y from forward and backward, z from up and down.
    pub fn direction(&self) -> (r: (i8, i8, i8))
        ensures
            r.0 == axis(self.right, self.left),
            r.1 == axis(self.forward, self.backward),
            r.2 == axis(self.up, self.down),
    {
        let mut x: i8 = 0;
        if self.right {
            x += 1;
        }
        if self.left {
            x -= 1;
        }
        let mut y: i8 = 0;
        if self.forward {
            y += 1;
        }
        if self.backward {
            y -= 1;
        }
        let mut z: i8 = 0;
        if self.up {
            z += 1;
        }
        if self.down {
            z -= 1;
        }
        (x, y, z)
    }
}

} // verus!
