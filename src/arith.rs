use crate::counter::STEP;
use vstd::prelude::*;

verus! {

/// Reduces an integer into the range `-128..=127`, modulo 256.
pub open spec fn wrap_i8(x: int) -> int {
    (x + 128) % 256 - 128
}

/// Integer division rounded toward zero, as Rust's `/` computes it.
pub open spec fn trunc_div(x: int, y: int) -> int {
    if x >= 0 && y > 0 {
        x / y
    } else if x < 0 && y < 0 {
        (-x) / (-y)
    } else if x < 0 {
        -((-x) / y)
    } else {
        -(x / (-y))
    }
}

/// `i8::wrapping_add`, as vstd specifies it, is the reduction of the sum.
pub proof fn lemma_wrapping_add(x: i8, y: i8)
    ensures
        x.wrapping_add(y) as int == wrap_i8(x + y),
{
}

/// `i8::wrapping_sub`, as vstd specifies it, is the reduction of the difference.
pub proof fn lemma_wrapping_sub(x: i8, y: i8)
    ensures
        x.wrapping_sub(y) as int == wrap_i8(x - y),
{
}

/// `i8::wrapping_mul`, as vstd specifies it, is the reduction of the product.
pub proof fn lemma_wrapping_mul(x: i8, y: i8)
    ensures
        x.wrapping_mul(y) as int == wrap_i8(x * y),
{
    let p = x * y;
    assert(-16384 <= p <= 16384) by (nonlinear_arith)
        requires
            -128 <= x <= 127,
            -128 <= y <= 127,
            p == x * y,
    ;
}

/// One increment and then one decrement gives back the value one started
/// from, wraparound included.
pub proof fn increment_then_decrement_restores(v: i8)
    ensures
        wrap_i8(wrap_i8(v + STEP) - STEP) == v,
{
}

/// One decrement and then one increment gives back the value one started
/// from, wraparound included.
pub proof fn decrement_then_increment_restores(v: i8)
    ensures
        wrap_i8(wrap_i8(v - STEP) + STEP) == v,
{
}

} // verus!
