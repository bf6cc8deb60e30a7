//! Pressure plates that hold a barrier open while something rests on them.
use vstd::prelude::*;
use crate::rect_collider::RectCollider;
use crate::units::PX;

verus! {

/// Thickness of a barrier's collider.
pub const GATE_THICKNESS: i64 = 44 * PX;

/// Width of a pressure plate.
pub const PLATE_WIDTH: i64 = 64 * PX;

/// Height of a pressure plate.
pub const PLATE_HEIGHT: i64 = 32 * PX;

/// Largest magnitude of a plate or barrier coordinate or length.
pub const PLATE_LIMIT: i64 = 1_000_000_000;

/// A pressure plate and the barrier it opens.
#[derive(Clone, Copy, Debug, PartialEq, Eq, Structural)]
pub struct PlateController {
    pub plate_collider: RectCollider,
    pub plate_pressed: bool,
    pub gate_x: i64,
    pub gate_y: i64,
    pub gate_length: i64,
    pub gate_vertical: bool,
}

/// Whether a plate or barrier value is in range.
pub open spec fn plate_ok(v: int) -> bool {
    -PLATE_LIMIT <= v && v <= PLATE_LIMIT
}

impl PlateController {
    pub open spec fn wf(&self) -> bool {
        self.plate_collider.wf() && plate_ok(self.gate_x as int) && plate_ok(self.gate_y as int)
            && 0 <= self.gate_length <= PLATE_LIMIT
    }

    /// The collider the closed barrier puts in the way: a vertical bar inset
    /// 6px from the barrier's left, or a horizontal one inset 6px from its top.
    pub open spec fn gate_collider(&self) -> RectCollider {
        if self.gate_vertical {
            RectCollider {
                x: (self.gate_x + 6 * PX) as i64,
                y: self.gate_y,
                width: GATE_THICKNESS,
                height: self.gate_length,
            }
        } else {
            RectCollider {
                x: self.gate_x,
                y: (self.gate_y + 6 * PX) as i64,
                width: self.gate_length,
                height: GATE_THICKNESS,
            }
        }
    }

    /// The collider the barrier puts in the way now: the barrier's while the plate
    /// is released, an empty one at the origin while it is pressed.
    pub open spec fn blocking_collider(&self) -> RectCollider {
        if self.plate_pressed {
            RectCollider { x: 0, y: 0, width: 0, height: 0 }
        } else {
            self.gate_collider()
        }
    }

    /// A released plate whose top is `PLATE_HEIGHT` below `(plate_x,
    /// plate_y)`, and the barrier it opens.
    pub fn new(plate_x: i64, plate_y: i64, gate_x: i64, gate_y: i64, gate_length: i64, gate_vertical: bool) -> (r: PlateController)
        requires
            plate_ok(plate_x as int),
            plate_ok(plate_y as int),
            plate_ok(gate_x as int),
            plate_ok(gate_y as int),
            0 <= gate_length <= PLATE_LIMIT,
        ensures
            r == (PlateController {
                plate_collider: RectCollider {
                    x: plate_x,
                    y: (plate_y + PLATE_HEIGHT) as i64,
                    width: PLATE_WIDTH,
                    height: PLATE_HEIGHT,
                },
                plate_pressed: false,
                gate_x,
                gate_y,
                gate_length,
                gate_vertical,
            }),
            r.wf(),
    {
        PlateController {
            plate_collider: RectCollider::new(plate_x, plate_y + PLATE_HEIGHT, PLATE_WIDTH, PLATE_HEIGHT),
            plate_pressed: false,
            gate_x,
            gate_y,
            gate_length,
            gate_vertical,
        }
    }

    pub fn plate_collider(&self) -> (r: RectCollider)
        ensures
            r == self.plate_collider,
    {
        self.plate_collider
    }

    pub fn plate_pressed(&self) -> (r: bool)
        ensures
            r == self.plate_pressed,
    {
        self.plate_pressed
    }

    pub fn gate_x(&self) -> (r: i64)
        ensures
            r == self.gate_x,
    {
        self.gate_x
    }

    pub fn gate_y(&self) -> (r: i64)
        ensures
            r == self.gate_y,
    {
        self.gate_y
    }

    pub fn gate_length(&self) -> (r: i64)
        ensures
            r == self.gate_length,
    {
        self.gate_length
    }

    pub fn gate_vertical(&self) -> (r: bool)
        ensures
            r == self.gate_vertical,
    {
        self.gate_vertical
    }

    /// The plate is pressed exactly while the box touches it.
    pub fn update_plate(&mut self, box_collider: RectCollider)
        requires
            old(self).wf(),
            box_collider.wf(),
        ensures
            *final(self) == (PlateController {
                plate_pressed: old(self).plate_collider.touches(&box_collider),
                ..*old(self)
            }),
    {
        self.plate_pressed = self.plate_collider.is_touching(&box_collider);
    }

    /// The barrier's collider while the plate is released; an empty collider at
    /// the origin, which touches nothing, while it is pressed.
    pub fn active_gate_collider(&self) -> (r: RectCollider)
        requires
            self.wf(),
        ensures
            r == self.blocking_collider(),
            r.wf(),
    {
        if !self.plate_pressed {
            if self.gate_vertical {
                return RectCollider::new(self.gate_x + 6 * PX, self.gate_y, GATE_THICKNESS, self.gate_length);
            } else {
                return RectCollider::new(self.gate_x, self.gate_y + 6 * PX, self.gate_length, GATE_THICKNESS);
            }
        }
        RectCollider::new(0, 0, 0, 0)
    }
}

} // verus!
