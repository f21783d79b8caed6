use vstd::prelude::*;

verus! {

/// A rectangle record with unsigned integer dimensions.
///
/// Overflow policy: `area` and `peri` compute in `u32` and require that the
/// exact result fits; inputs whose result would not fit are outside their
/// contracts, so no wrap-around or saturation ever happens silently.
pub struct Rect {
    pub len: u32,
    pub breadth: u32,
}

impl Rect {
    /// The area, `len * breadth`, as an exact integer.
    pub open spec fn spec_area(&self) -> int {
        self.len * self.breadth
    }

    /// The perimeter, `2 * (len + breadth)`, as an exact integer.
    pub open spec fn spec_peri(&self) -> int {
        2 * (self.len + self.breadth)
    }

    /// Area of the rectangle, `len * breadth`.
    pub fn area(&self) -> (r: u32)
        requires
            self.spec_area() <= u32::MAX,
        ensures
            r == self.spec_area(),
    {
        self.len * self.breadth
    }

    /// Perimeter of the rectangle, `2 * (len + breadth)`.
    pub fn peri(&self) -> (r: u32)
        requires
            self.spec_peri() <= u32::MAX,
        ensures
            r == self.spec_peri(),
    {
        2 * (self.len + self.breadth)
    }
}

/// Fixed-point scale of a dimension: a dimension `d` stands for `d / 100` units.
pub const DIM_SCALE: i128 = 100;

/// Fixed-point scale of an area: an area `a` stands for `a / 1_000_000` square units.
pub const AREA_SCALE: i128 = 1_000_000;

/// Numerator of the circle constant `K = 3.14 = CIRCLE_K_HUNDREDTHS / 100`.
pub const CIRCLE_K_HUNDREDTHS: i128 = 314;

/// A closed set of plane shapes. Dimensions are fixed-point numbers in
/// hundredths of a unit (`Rect(200, 400)` is a 2.00 by 4.00 rectangle), so that
/// the circle constant 3.14 and every area are represented exactly.
/// Zero and negative dimensions are accepted.
pub enum Shape {
    Rect(i32, i32),
    Circle(i32),
}

/// The area of `s` in millionths of a square unit: for a rectangle of sides
/// `w / 100` and `h / 100` that is `100 * w * h`; for a circle of radius `r / 100`
/// it is `3.14 * (r / 100)^2`, that is `314 * r * r`.
pub open spec fn shape_area(s: Shape) -> int {
    match s {
        Shape::Rect(w, h) => DIM_SCALE * (w * h),
        Shape::Circle(r) => CIRCLE_K_HUNDREDTHS * (r * r),
    }
}

/// Area of a shape, in millionths of a square unit. Every shape has an area:
/// there is no error case, and the match covers every variant.
pub fn calc_area(shape: Shape) -> (r: i128)
    ensures
        r == shape_area(shape),
        shape matches Shape::Rect(w, h) ==> r == 100 * (w * h),
        shape matches Shape::Circle(c) ==> r == 314 * (c * c),
{
    match shape {
        Shape::Rect(a, b) => {
            let a = a as i128;
            let b = b as i128;
            assert(-0x8000_0000 <= a <= 0x7fff_ffff && -0x8000_0000 <= b <= 0x7fff_ffff);
            assert(-0x4000_0000_0000_0000 <= a * b <= 0x4000_0000_0000_0000) by (nonlinear_arith)
                requires
                    -0x8000_0000 <= a <= 0x7fff_ffff,
                    -0x8000_0000 <= b <= 0x7fff_ffff,
            ;
            DIM_SCALE * (a * b)
        },
        Shape::Circle(c) => {
            let c = c as i128;
            assert(0 <= c * c <= 0x4000_0000_0000_0000) by (nonlinear_arith)
                requires
                    -0x8000_0000 <= c <= 0x7fff_ffff,
            ;
            CIRCLE_K_HUNDREDTHS * (c * c)
        },
    }
}

/// Every operation here is pure: invoked again on the same inputs it yields the
/// same output, for shapes and for rectangle records alike.
pub proof fn lemma_operations_are_pure(s1: Shape, s2: Shape, q1: Rect, q2: Rect)
    requires
        s1 == s2,
        q1 == q2,
    ensures
        shape_area(s1) == shape_area(s2),
        q1.spec_area() == q2.spec_area(),
        q1.spec_peri() == q2.spec_peri(),
{
}

} // verus!
