//! A verified expression-language builtin that converts a timestamp value
//! into an integer Unix-epoch count in a caller-selectable unit (seconds,
//! milliseconds or nanoseconds), together with the minimal plugin plumbing
//! it needs: a builtin descriptor with compile-time argument validation, a
//! runtime expression node with lazy evaluation, and static type inference
//! (value kind and fallibility) over expression nodes.

pub mod expression;
pub mod function;
pub mod kind;
pub mod state;
pub mod timestamp;
pub mod to_unix_timestamp;
pub mod value;
