use vstd::prelude::*;

verus! {

/// Fixed-point scale: coordinates, texture coordinates, opacities and factors are
/// stored as multiples of `1 / ONE` (16.16 fixed point).
pub const ONE: i32 = 65536;

/// Largest magnitude accepted for a coordinate that is later added to another one.
pub const MAX_COORD: i32 = 0x1fff_ffff;

/// The product of two fixed-point values, rounded toward zero.
pub open spec fn fx_mul(a: int, b: int) -> int {
    let p = a * b;
    if p >= 0 {
        p / (ONE as int)
    } else {
        -((-p) / (ONE as int))
    }
}

pub open spec fn in_coord_range(v: int) -> bool {
    -(MAX_COORD as int) <= v <= MAX_COORD as int
}

/// 2D point in fixed-point units
#[derive(Debug, Default, Clone, Copy, PartialEq, Eq, Structural)]
pub struct Point {
    pub x: i32,
    pub y: i32,
}

impl Point {
    pub fn new(x: i32, y: i32) -> (r: Point)
        ensures
            r.x == x && r.y == y,
    {
        Point { x, y }
    }

    /// The point at whole pixel coordinates `(x, y)`.
    pub fn from_px(x: i16, y: i16) -> (r: Point)
        ensures
            r.x == x * ONE && r.y == y * ONE,
    {
        Point { x: x as i32 * ONE, y: y as i32 * ONE }
    }

    pub open spec fn in_range(self) -> bool {
        in_coord_range(self.x as int) && in_coord_range(self.y as int)
    }
}

/// Rectangle
#[derive(Debug, Clone, Copy, PartialEq, Eq, Structural)]
pub struct Rect {
    pub pos: Point,
    pub size: Point,
}

impl Rect {
    pub fn new(pos: Point, size: Point) -> (r: Rect)
        ensures
            r.pos == pos && r.size == size,
    {
        Rect { pos, size }
    }

    pub fn new_xywh(x: i32, y: i32, width: i32, height: i32) -> (r: Rect)
        ensures
            r.pos == (Point { x, y }) && r.size == (Point { x: width, y: height }),
    {
        Rect { pos: Point::new(x, y), size: Point::new(width, height) }
    }

    /// Whether `point` lies in the rectangle, edges included
    pub open spec fn contains_spec(&self, point: Point) -> bool {
        &&& point.x >= self.pos.x
        &&& point.y >= self.pos.y
        &&& point.x <= self.pos.x + self.size.x
        &&& point.y <= self.pos.y + self.size.y
    }

    /// Returns whether the rect overlaps with `point`
    pub fn contains(&self, point: &Point) -> (r: bool)
        ensures
            r == self.contains_spec(*point),
    {
        let right = self.pos.x as i64 + self.size.x as i64;
        let bottom = self.pos.y as i64 + self.size.y as i64;
        point.x >= self.pos.x && point.y >= self.pos.y && point.x as i64 <= right && point.y as i64
            <= bottom
    }
}

/// Integer cell of a grid (frame indices, frame counts)
#[derive(Debug, Default, Clone, Copy, PartialEq, Eq, Structural)]
pub struct Cell {
    pub x: i32,
    pub y: i32,
}

impl Cell {
    pub fn new(x: i32, y: i32) -> (r: Cell)
        ensures
            r.x == x && r.y == y,
    {
        Cell { x, y }
    }
}

/// Per-axis flags
#[derive(Debug, Default, Clone, Copy, PartialEq, Eq, Structural)]
pub struct Flip {
    pub x: bool,
    pub y: bool,
}

/// RGBA color, one byte per channel
#[derive(Debug, Default, Clone, Copy, PartialEq, Eq, Structural)]
pub struct Color {
    pub red: u8,
    pub green: u8,
    pub blue: u8,
    pub alpha: u8,
}

pub open spec fn opaque_color(red: u8, green: u8, blue: u8) -> Color {
    Color { red, green, blue, alpha: 255 }
}

pub open spec fn transparent_color() -> Color {
    Color { red: 0, green: 0, blue: 0, alpha: 0 }
}

impl Color {
    pub fn white() -> (r: Color)
        ensures
            r == opaque_color(255, 255, 255),
    {
        Color::new(255, 255, 255)
    }

    pub fn black() -> (r: Color)
        ensures
            r == opaque_color(0, 0, 0),
    {
        Color::new(0, 0, 0)
    }

    pub fn transparent() -> (r: Color)
        ensures
            r == transparent_color(),
    {
        Color { red: 0, green: 0, blue: 0, alpha: 0 }
    }

    /// Opaque color
    pub fn new(red: u8, green: u8, blue: u8) -> (r: Color)
        ensures
            r == opaque_color(red, green, blue),
    {
        Color { red, green, blue, alpha: 255 }
    }

    /// Opaque color from `0xRRGGBB`
    pub fn hex(hex: u32) -> (r: Color)
        ensures
            r == opaque_color(
                ((hex / 0x10000) % 256) as u8,
                ((hex / 0x100) % 256) as u8,
                (hex % 256) as u8,
            ),
    {
        let red = ((hex & 0xFF0000) >> 16u32) as u8;
        let green = ((hex & 0x00FF00) >> 8u32) as u8;
        let blue = (hex & 0x0000FF) as u8;
        assert(red == ((hex / 0x10000) % 256) as u8) by (bit_vector)
            requires
                red == ((hex & 0xFF0000) >> 16u32) as u8,
        ;
        assert(green == ((hex / 0x100) % 256) as u8) by (bit_vector)
            requires
                green == ((hex & 0x00FF00) >> 8u32) as u8,
        ;
        assert(blue == (hex % 256) as u8) by (bit_vector)
            requires
                blue == (hex & 0x0000FF) as u8,
        ;
        Color::new(red, green, blue)
    }

    /// Opaque gray of the given level
    pub fn gray(value: u8) -> (r: Color)
        ensures
            r == opaque_color(value, value, value),
    {
        Color::new(value, value, value)
    }

    /// The same color with another alpha
    pub fn alpha(self, alpha: u8) -> (r: Color)
        ensures
            r == (Color { alpha, ..self }),
    {
        Color { alpha, ..self }
    }
}

/// Fixed-point product of two non-negative values
pub fn fx_mul_nonneg(a: i32, f: i32) -> (r: i32)
    requires
        0 <= a,
        0 <= f,
        fx_mul(a as int, f as int) <= MAX_COORD,
    ensures
        r == fx_mul(a as int, f as int),
        0 <= r <= MAX_COORD,
{
    proof {
        assert(0 <= (a as int) * (f as int) <= 0x7fff_ffff * 0x7fff_ffff) by (nonlinear_arith)
            requires
                0 <= a <= 0x7fff_ffff,
                0 <= f <= 0x7fff_ffff,
        ;
    }
    let p = (a as i64) * (f as i64);
    (p / (ONE as i64)) as i32
}

} // verus!
