use vstd::prelude::*;

verus! {

/// Largest magnitude a coordinate or size may have, in thousandths of a
/// screen unit. This is a machine limit only: it keeps every vertex
/// computation inside `i64`.
pub const COORD_LIMIT: i64 = 1_000_000_000;

/// The four playable shape variants.
#[derive(Clone, Copy, PartialEq, Eq, Structural, Debug)]
pub enum ShapeKind {
    Rectangle,
    Circle,
    Triangle,
    Diamond,
}

/// A point in screen coordinates, in thousandths of a screen unit.
#[derive(Clone, Copy, PartialEq, Eq, Structural, Debug)]
pub struct Point {
    pub x: i64,
    pub y: i64,
}

/// A shape positioned by its center `(x, y)` with one size parameter:
/// half the height for the rectangle, the radius for the circle, half
/// the total height for the triangle and the diamond. The size is fixed
/// after construction; only the center moves during play.
#[derive(Clone, Copy, PartialEq, Eq, Structural, Debug)]
pub struct Shape {
    pub kind: ShapeKind,
    pub x: i64,
    pub y: i64,
    pub half_extent: i64,
}

impl Shape {
    /// The shape is sized and placed within the machine limits.
    pub open spec fn wf(self) -> bool {
        0 < self.half_extent <= COORD_LIMIT
        && -COORD_LIMIT <= self.x <= COORD_LIMIT
        && -COORD_LIMIT <= self.y <= COORD_LIMIT
    }

    pub fn new(kind: ShapeKind, x: i64, y: i64, half_extent: i64) -> (s: Shape)
        requires
            0 < half_extent <= COORD_LIMIT,
            -COORD_LIMIT <= x <= COORD_LIMIT,
            -COORD_LIMIT <= y <= COORD_LIMIT,
        ensures
            s == (Shape { kind, x, y, half_extent }),
            s.wf(),
    {
        Shape { kind, x, y, half_extent }
    }

    /// The alignment coordinate used for hit testing: the vertical
    /// component of the center.
    pub fn alignment_y(&self) -> (y: i64)
        ensures
            y == self.y,
    {
        self.y
    }

    /// The render-ready outline of the shape, as ordered vertices in a
    /// consistent (clockwise) winding. The circle has no polygonal
    /// outline: it is rendered from its center and radius directly, so
    /// its outline is empty.
    pub open spec fn spec_outline(self) -> Seq<Point> {
        match self.kind {
            ShapeKind::Rectangle => seq![
                Point { x: (self.x - self.half_extent) as i64, y: (self.y - self.half_extent) as i64 },
                Point { x: (self.x + self.half_extent) as i64, y: (self.y - self.half_extent) as i64 },
                Point { x: (self.x + self.half_extent) as i64, y: (self.y + self.half_extent) as i64 },
                Point { x: (self.x - self.half_extent) as i64, y: (self.y + self.half_extent) as i64 },
            ],
            ShapeKind::Circle => seq![],
            ShapeKind::Triangle => seq![
                Point { x: self.x, y: (self.y - self.half_extent) as i64 },
                Point { x: (self.x - self.half_extent) as i64, y: (self.y + self.half_extent) as i64 },
                Point { x: (self.x + self.half_extent) as i64, y: (self.y + self.half_extent) as i64 },
            ],
            ShapeKind::Diamond => seq![
                Point { x: self.x, y: (self.y - self.half_extent) as i64 },
                Point { x: (self.x - self.half_extent) as i64, y: self.y },
                Point { x: self.x, y: (self.y + self.half_extent) as i64 },
                Point { x: (self.x + self.half_extent) as i64, y: self.y },
            ],
        }
    }

    /// Produce the outline vertices: the triangle stands apex up with
    /// its base below the center, the diamond is a rotated square with
    /// top/left/bottom/right vertices, the rectangle gives its four
    /// corners, the circle gives no vertices.
    pub fn outline(&self) -> (v: Vec<Point>)
        requires
            self.wf(),
        ensures
            v@ == self.spec_outline(),
    {
        let mut v: Vec<Point> = Vec::new();
        match self.kind {
            ShapeKind::Rectangle => {
                v.push(Point { x: self.x - self.half_extent, y: self.y - self.half_extent });
                v.push(Point { x: self.x + self.half_extent, y: self.y - self.half_extent });
                v.push(Point { x: self.x + self.half_extent, y: self.y + self.half_extent });
                v.push(Point { x: self.x - self.half_extent, y: self.y + self.half_extent });
            }
            ShapeKind::Circle => {}
            ShapeKind::Triangle => {
                v.push(Point { x: self.x, y: self.y - self.half_extent });
                v.push(Point { x: self.x - self.half_extent, y: self.y + self.half_extent });
                v.push(Point { x: self.x + self.half_extent, y: self.y + self.half_extent });
            }
            ShapeKind::Diamond => {
                v.push(Point { x: self.x, y: self.y - self.half_extent });
                v.push(Point { x: self.x - self.half_extent, y: self.y });
                v.push(Point { x: self.x, y: self.y + self.half_extent });
                v.push(Point { x: self.x + self.half_extent, y: self.y });
            }
        }
        assert(v@ =~= self.spec_outline());
        v
    }
}

} // verus!
