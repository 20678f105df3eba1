use vstd::prelude::*;

verus! {

/// The quotient `a / b` rounded toward zero, which is what Rust's `/` computes on
/// signed integers (spec-level `/` is Euclidean; on non-negative operands the two agree).
pub open spec fn div_toward_zero(a: int, b: int) -> int
    recommends
        b != 0,
{
    if a == 0 {
        0
    } else if a > 0 && b > 0 {
        a / b
    } else if a < 0 && b < 0 {
        (-a) / (-b)
    } else if a < 0 {
        -((-a) / b)
    } else {
        -(a / (-b))
    }
}

/// Signed division that rounds toward zero, as Rust's `/` does.
fn quotient(a: i32, b: i32) -> (q: i32)
    requires
        b != 0,
        !(a == i32::MIN && b == -1),
    ensures
        q == div_toward_zero(a as int, b as int),
{
    match a.checked_div(b) {
        Some(q) => q,
        None => {
            assert(false) by (nonlinear_arith)
                requires
                    b != 0,
                    !(a == i32::MIN && b == -1),
                    a.checked_div(b) is None,
            ;
            0
        },
    }
}

/// Size of a screen in pixels, as the system metrics report it.
#[derive(Debug, Clone, Copy)]
pub struct Screen {
    pub width: i32,
    pub height: i32,
}

/// Helpers for screen coordinates.
pub struct ScreenUtil;

impl ScreenUtil {
    /// Maps the point `(x, y)` of a `src_width` by `src_height` screen onto a
    /// `dest_width` by `dest_height` screen: each coordinate is multiplied by the
    /// destination size and divided by the source size, rounding toward zero.
    pub fn scale_coordinates(
        x: i32,
        y: i32,
        src_width: i32,
        src_height: i32,
        dest_width: i32,
        dest_height: i32,
    ) -> (res: (i32, i32))
        requires
            src_width != 0,
            src_height != 0,
            i32::MIN <= x * dest_width <= i32::MAX,
            i32::MIN <= y * dest_height <= i32::MAX,
            !(x * dest_width == i32::MIN && src_width == -1),
            !(y * dest_height == i32::MIN && src_height == -1),
        ensures
            res.0 == div_toward_zero(x * dest_width, src_width as int),
            res.1 == div_toward_zero(y * dest_height, src_height as int),
    {
        let scaled_x = quotient(x * dest_width, src_width);
        let scaled_y = quotient(y * dest_height, src_height);
        (scaled_x, scaled_y)
    }
}

/// Scaling between two screens of the same size leaves a point where it is.
pub proof fn scaling_to_same_size_is_identity(x: i32, y: i32, width: i32, height: i32)
    requires
        width != 0,
        height != 0,
    ensures
        div_toward_zero(x * width, width as int) == x,
        div_toward_zero(y * height, height as int) == y,
{
    assert(div_toward_zero(x * width, width as int) == x) by (nonlinear_arith)
        requires
            width != 0,
    {
    }
    assert(div_toward_zero(y * height, height as int) == y) by (nonlinear_arith)
        requires
            height != 0,
    {
    }
}

} // verus!
