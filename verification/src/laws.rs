//! What the operations of the library are for, stated of their calls.
//!
//! Each law speaks of the values that calls take and give back. `call_ensures(f, arguments,
//! result)` says that `result` can come of a call of `f` with `arguments`.

pub mod block;
pub mod end;
pub mod machine;
pub mod values;
