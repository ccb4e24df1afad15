//! The machine description: bed extents and the corner (or center) the
//! firmware homes to.

use vstd::prelude::*;

verus! {

use crate::units::{half_toward_zero, Mm};
use crate::Point2d;

/// A printer: its bed extents and where its home position lies.
#[derive(Debug)]
pub struct Machine {
    pub bed_x: Mm,
    pub bed_y: Mm,
    pub home_pos: HomePos,
}

/// Where on the bed the machine's home position lies.
#[derive(Debug)]
pub enum HomePos {
    BottomLeft,
    BottomRight,
    TopLeft,
    TopRight,
    Center,
}

impl Machine {
    /// The XY point the machine sits at after homing: the named bed corner,
    /// or the bed's center (extents halved, rounded toward zero).
    pub fn home_point(&self) -> (r: Point2d)
        ensures
            match self.home_pos {
                HomePos::BottomLeft => r.x.micros == 0 && r.y.micros == 0,
                HomePos::BottomRight => r.x.micros == self.bed_x.micros && r.y.micros == 0,
                HomePos::TopLeft => r.x.micros == 0 && r.y.micros == self.bed_y.micros,
                HomePos::TopRight => r.x.micros == self.bed_x.micros && r.y.micros
                    == self.bed_y.micros,
                HomePos::Center => r.x.micros == half_toward_zero(self.bed_x.micros as int)
                    && r.y.micros == half_toward_zero(self.bed_y.micros as int),
            },
    {
        match self.home_pos {
            HomePos::BottomLeft => Point2d { x: Mm { micros: 0 }, y: Mm { micros: 0 } },
            HomePos::BottomRight => Point2d { x: self.bed_x, y: Mm { micros: 0 } },
            HomePos::TopLeft => Point2d { x: Mm { micros: 0 }, y: self.bed_y },
            HomePos::TopRight => Point2d { x: self.bed_x, y: self.bed_y },
            HomePos::Center => Point2d { x: self.bed_x.halved(), y: self.bed_y.halved() },
        }
    }
}

} // verus!
