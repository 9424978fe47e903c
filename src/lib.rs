//! Integer-order Bessel functions of single-precision arguments: the
//! bit-level classification, order reduction, strategy selection and sign
//! bookkeeping of the order-n evaluators `J(n, x)` and `Y(n, x)`, taken on
//! IEEE-754 bit patterns. The binary32 arithmetic of the recurrences and the
//! order-0 and order-1 primitives are left to the caller.

pub mod ieee;
pub mod jn;
pub mod laws;
pub mod order;
pub mod yn;
