use vstd::prelude::*;

verus! {

/// Rotation of the cube about the X axis after `i` frames, in hundredths of a degree:
/// -(45 + 0.25 i) degrees.
pub open spec fn angle_x_at(i: int) -> int {
    -(4500 + 25 * i)
}

/// Rotation about the Y axis after `i` frames, in hundredths of a degree:
/// -(45 - 0.5 i) degrees.
pub open spec fn angle_y_at(i: int) -> int {
    -(4500 - 50 * i)
}

/// Rotation about the Z axis after `i` frames, in hundredths of a degree:
/// -(10 + 0.15 i) degrees.
pub open spec fn angle_z_at(i: int) -> int {
    -(1000 + 15 * i)
}

/// The cube's animation state: the number of frames rendered so far.
///
/// The rotation advances by a fixed step per frame, so its speed follows the
/// frame rate rather than wall-clock time.
#[derive(Clone, Copy, Debug, PartialEq, Eq, Structural)]
pub struct Spin {
    pub frame: u32,
}

impl Spin {
    pub fn new() -> (r: Spin)
        ensures
            r.frame == 0,
    {
        Spin { frame: 0 }
    }

    /// Moves on by one frame.
    pub fn advance(&mut self)
        requires
            old(self).frame < u32::MAX,
        ensures
            final(self).frame == old(self).frame + 1,
    {
        self.frame = self.frame + 1;
    }

    /// Rotation about X, in hundredths of a degree.
    pub fn angle_x(&self) -> (r: i64)
        ensures
            r == angle_x_at(self.frame as int),
    {
        -(4500 + 25 * (self.frame as i64))
    }

    /// Rotation about Y, in hundredths of a degree.
    pub fn angle_y(&self) -> (r: i64)
        ensures
            r == angle_y_at(self.frame as int),
    {
        -(4500 - 50 * (self.frame as i64))
    }

    /// Rotation about Z, in hundredths of a degree.
    pub fn angle_z(&self) -> (r: i64)
        ensures
            r == angle_z_at(self.frame as int),
    {
        -(1000 + 15 * (self.frame as i64))
    }
}

} // verus!
