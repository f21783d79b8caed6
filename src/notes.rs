use vstd::prelude::*;
use vstd::string::StringExecFns;
use vstd::utf8::encode_utf8;

verus! {

/// Length in bytes of the UTF-8 encoding of `s`.
pub fn calculate_length(s: &String) -> (r: usize)
    ensures
        r == encode_utf8(s@).len() as usize,
{
    s.as_str().len()
}

/// Appends `"!"` to `s`.
pub fn change(s: &mut String)
    ensures
        final(s)@ == old(s)@ + seq!['!'],
{
    proof {
        reveal_strlit("!");
    }
    s.append("!");
}

/// Sum of two `i32`; the sum must fit in an `i32`.
pub fn add(x: i32, y: i32) -> (r: i32)
    requires
        i32::MIN <= x + y <= i32::MAX,
    ensures
        r == x + y,
{
    x + y
}

/// The same sum as `add`, written with an explicit `return`.
pub fn add_verbose(a: i32, b: i32) -> (r: i32)
    requires
        i32::MIN <= a + b <= i32::MAX,
    ensures
        r == a + b,
{
    return a + b;
}

/// A function that returns the unit value.
pub fn unit_function() {
}

/// A point of the integer plane.
#[derive(Debug, Clone, PartialEq, Eq, Structural)]
pub struct Point {
    pub x: i32,
    pub y: i32,
}

/// Absolute value over the integers.
pub open spec fn abs(v: int) -> int {
    if v < 0 { -v } else { v }
}

impl Point {
    /// Manhattan distance of the point from the origin, `|x| + |y|`.
    pub open spec fn spec_manhattan_len(&self) -> int {
        abs(self.x as int) + abs(self.y as int)
    }

    /// The point `(x, y)`.
    pub fn new(x: i32, y: i32) -> (r: Self)
        ensures
            r.x == x,
            r.y == y,
    {
        Self { x, y }
    }

    /// `|x| + |y|`; the result must fit in an `i32`.
    pub fn manhattan_len(&self) -> (r: i32)
        requires
            self.spec_manhattan_len() <= i32::MAX,
        ensures
            r == self.spec_manhattan_len(),
    {
        let ax: i32 = if self.x < 0 { -self.x } else { self.x };
        let ay: i32 = if self.y < 0 { -self.y } else { self.y };
        ax + ay
    }

    /// Moves the point by `(dx, dy)`; the new coordinates must fit in an `i32`.
    pub fn translate(&mut self, dx: i32, dy: i32)
        requires
            i32::MIN <= old(self).x + dx <= i32::MAX,
            i32::MIN <= old(self).y + dy <= i32::MAX,
        ensures
            final(self).x == old(self).x + dx,
            final(self).y == old(self).y + dy,
    {
        self.x = self.x + dx;
        self.y = self.y + dy;
    }
}

/// Binds, mutates and shadows a few locals; every value is pinned down.
pub fn variables_and_mutability() -> (r: (i32, i32, usize, u32))
    ensures
        r == (11i32, 6i32, 3usize, 100_000u32),
{
    let x: i32 = 10;
    let mut y: i32 = 5;
    y = 6;
    let x: i32 = x + 1;
    let spaces = "   ";
    proof {
        reveal_strlit("   ");
        vstd::utf8::is_ascii_chars_encode_utf8(spaces@);
    }
    let spaces: usize = spaces.len();
    let max_points: u32 = 100_000;
    (x, y, spaces, max_points)
}

/// A block is an expression whose value is its last expression.
pub fn statements_vs_expressions() -> (r: i32)
    ensures
        r == 5,
{
    let value: i32 = {
        let a: i32 = 2;
        let b: i32 = 3;
        a + b
    };
    value
}

} // verus!
