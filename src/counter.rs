use vstd::prelude::*;

verus! {

/// One interaction with the counter widget.
#[derive(Clone, Copy, Debug, PartialEq, Eq, Structural)]
pub enum CounterOp {
    Clear,
    Decrement,
    Increment,
}

/// The value after applying `op` to `v`, over the integers.
pub open spec fn op_result(v: int, op: CounterOp) -> int {
    match op {
        CounterOp::Clear => 0,
        CounterOp::Decrement => v - 1,
        CounterOp::Increment => v + 1,
    }
}

/// Whether applying `op` to `v` stays within `i32`.
pub open spec fn op_fits(v: i32, op: CounterOp) -> bool {
    i32::MIN <= op_result(v as int, op) <= i32::MAX
}

/// Applies one counter interaction to the current value.
pub fn apply_counter_op(value: i32, op: CounterOp) -> (r: i32)
    requires
        op_fits(value, op),
    ensures
        r == op_result(value as int, op),
{
    match op {
        CounterOp::Clear => 0,
        CounterOp::Decrement => value - 1,
        CounterOp::Increment => value + 1,
    }
}

} // verus!
