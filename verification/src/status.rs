//! The status of a coroutine, as the engine reports it.
use vstd::prelude::*;

verus! {

/// Where a coroutine stands. The engine is asked for it before every resume.
#[derive(Clone, Copy, Debug, PartialEq, Eq, Hash, Structural)]
pub enum CoroutineStatus {
    /// It has returned or was destroyed: resuming it gives no result.
    Dead,
    /// It is active but not on top: it has itself resumed another coroutine
    /// and waits for that one to hand control back.
    Normal,
    /// It is executing right now: resuming it is a usage error.
    Running,
    /// It waits to be resumed, at a yield or before its first run.
    Suspended,
}

} // verus!
