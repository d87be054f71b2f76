//! Typed value exchange for stackful asymmetric coroutines.
//!
//! A coroutine engine switches stacks and knows nothing of types. This
//! library holds what sits on top of such an engine: the exchange slot through
//! which a resume value, a yielded value and a return value cross the switch,
//! the decisions that a handle takes around every switch, and the messages
//! under which the engine's result codes are reported.
//!
//! - `status` and `error` mirror what the engine reports: the status of a
//!   coroutine and the result of a request.
//! - `result` is what a resume hands to its caller.
//! - `slot` is the exchange slot with the two halves of a resume on the
//!   handle's side and yield and return on the routine's side.
//! - `protocol` composes these into whole resumes and proves what holds of
//!   every sequence of them.
pub mod error;
pub mod protocol;
pub mod result;
pub mod slot;
pub mod status;
