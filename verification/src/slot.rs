//! The exchange slot: the cells through which typed values cross a context
//! switch, and the decisions a handle takes on either side of the switch.
//!
//! One resume is two calls with the switch between them. `begin_resume` looks
//! at the status the engine reports, decides whether there is anything to run
//! and, if so, leaves the pushed value in the slot. The caller then switches
//! into the coroutine. The routine, on its own stack, calls `yield_` or, when
//! it has run to its end, `return_`, and switches back. `finish_resume` takes
//! the engine's answer to the switch and reports what the routine left.
use vstd::prelude::*;
use crate::error::EngineResult;
use crate::error::message_of;
use crate::result::CoroutineResult;
use crate::status::CoroutineStatus;

verus! {

/// The message under which a resume of a running coroutine is refused.
pub const RESUME_ON_RUNNING: &'static str = "resume on running coroutine";

/// What `begin_resume` asks of its caller.
#[must_use]
#[derive(Debug)]
pub enum ResumeStep<YIELD, RET> {
    /// The pushed value is in the slot: switch into the coroutine, then hand
    /// the engine's answer to `finish_resume`.
    SwitchIn,
    /// There is nothing to run: the resume ends here, with this result.
    Done(Option<CoroutineResult<YIELD, RET>>),
}

/// What a slot holds, as a mathematical value.
pub struct SlotState<VALUE, YIELD, RET, DATA> {
    /// The value pushed by the latest resume, until the routine takes it.
    pub incoming: Option<VALUE>,
    /// The value the routine yielded, until the resume in progress takes it.
    pub outgoing_yield: Option<YIELD>,
    /// The value the routine returned, until the resume in progress takes it.
    pub outgoing_return: Option<RET>,
    /// Whether a return value has been handed to the caller.
    pub completed: bool,
    /// The caller's payload.
    pub payload: DATA,
}

impl<VALUE, YIELD, RET, DATA> SlotState<VALUE, YIELD, RET, DATA> {
    /// The slot of a coroutine that has never run: every cell empty.
    pub open spec fn fresh(payload: DATA) -> Self {
        SlotState {
            incoming: None,
            outgoing_yield: None,
            outgoing_return: None,
            completed: false,
            payload,
        }
    }

    /// How many of the three cells hold a value.
    pub open spec fn populated(self) -> nat {
        let a: nat = if self.incoming is Some { 1 } else { 0 };
        let b: nat = if self.outgoing_yield is Some { 1 } else { 0 };
        let c: nat = if self.outgoing_return is Some { 1 } else { 0 };
        a + b + c
    }

    /// The routine has left a value for the caller.
    pub open spec fn has_output(self) -> bool {
        self.outgoing_yield is Some || self.outgoing_return is Some
    }

    /// The first half of a resume. A dead coroutine gives no result, a running
    /// one is refused, one whose return value was already handed out gives no
    /// result either; in all three the slot stays as it is and the pushed
    /// value is dropped. Otherwise the value goes into `incoming`.
    pub open spec fn begin_resume(self, status: CoroutineStatus, value: VALUE) -> (
        Self,
        ResumeStep<YIELD, RET>,
    ) {
        if status == CoroutineStatus::Dead {
            (self, ResumeStep::Done(None))
        } else if status == CoroutineStatus::Running {
            (self, ResumeStep::Done(Some(CoroutineResult::Error(RESUME_ON_RUNNING))))
        } else if self.completed {
            (self, ResumeStep::Done(None))
        } else {
            (SlotState { incoming: Some(value), ..self }, ResumeStep::SwitchIn)
        }
    }

    /// The second half of a resume. A failed switch is reported under its
    /// message and leaves the slot as it is. After a successful one a yielded
    /// value is taken first; without one the return value is taken and the
    /// slot is marked completed.
    pub open spec fn finish_resume(self, outcome: EngineResult) -> (
        Self,
        Option<CoroutineResult<YIELD, RET>>,
    ) {
        if outcome != EngineResult::Success {
            (self, Some(CoroutineResult::Error(message_of(outcome))))
        } else if self.outgoing_yield is Some {
            (
                SlotState { outgoing_yield: None, ..self },
                Some(CoroutineResult::Yield(self.outgoing_yield->0)),
            )
        } else {
            (
                SlotState { outgoing_return: None, completed: true, ..self },
                Some(CoroutineResult::Return(self.outgoing_return->0)),
            )
        }
    }

    /// The routine yields: it takes the pushed value out of `incoming` and
    /// leaves its own in `outgoing_yield`.
    pub open spec fn yield_(self, yield_value: YIELD) -> (Self, VALUE) {
        (
            SlotState { incoming: None, outgoing_yield: Some(yield_value), ..self },
            self.incoming->0,
        )
    }

    /// The routine has run to its end: the pushed value is discarded and the
    /// return value left in `outgoing_return`.
    pub open spec fn return_(self, ret: RET) -> Self {
        SlotState { incoming: None, outgoing_return: Some(ret), ..self }
    }
}

/// The cells of one coroutine together with the caller's payload. The handle
/// and the running routine both work on it, never at the same time.
pub struct ExchangeSlot<VALUE, YIELD, RET, DATA> {
    incoming: Option<VALUE>,
    outgoing_yield: Option<YIELD>,
    outgoing_return: Option<RET>,
    completed: bool,
    payload: DATA,
}

impl<VALUE, YIELD, RET, DATA> View for ExchangeSlot<VALUE, YIELD, RET, DATA> {
    type V = SlotState<VALUE, YIELD, RET, DATA>;

    closed spec fn view(&self) -> Self::V {
        SlotState {
            incoming: self.incoming,
            outgoing_yield: self.outgoing_yield,
            outgoing_return: self.outgoing_return,
            completed: self.completed,
            payload: self.payload,
        }
    }
}

impl<VALUE, YIELD, RET, DATA> ExchangeSlot<VALUE, YIELD, RET, DATA> {
    /// The slot of a new coroutine around the caller's payload.
    pub fn new(user_data: DATA) -> (slot: Self)
        ensures
            slot@ == SlotState::<VALUE, YIELD, RET, DATA>::fresh(user_data),
    {
        ExchangeSlot {
            incoming: None,
            outgoing_yield: None,
            outgoing_return: None,
            completed: false,
            payload: user_data,
        }
    }

    /// The caller's payload.
    pub fn user_data(&self) -> (data: &DATA)
        ensures
            *data == self@.payload,
    {
        &self.payload
    }

    /// Whether a pushed value waits for the routine.
    pub fn has_incoming(&self) -> (b: bool)
        ensures
            b == (self@.incoming is Some),
    {
        self.incoming.is_some()
    }

    /// Whether the routine has left a yielded or a returned value.
    pub fn has_output(&self) -> (b: bool)
        ensures
            b == self@.has_output(),
    {
        self.outgoing_yield.is_some() || self.outgoing_return.is_some()
    }

    /// Whether the return value has been handed to the caller.
    pub fn is_completed(&self) -> (b: bool)
        ensures
            b == self@.completed,
    {
        self.completed
    }

    /// The first half of a resume, before the switch: decides from the status
    /// the engine reports whether the coroutine is to be entered, and if so
    /// pushes `value`.
    pub fn begin_resume(&mut self, status: CoroutineStatus, value: VALUE) -> (step: ResumeStep<
        YIELD,
        RET,
    >)
        ensures
            (final(self)@, step) == old(self)@.begin_resume(status, value),
    {
        match status {
            CoroutineStatus::Dead => ResumeStep::Done(None),
            CoroutineStatus::Running => ResumeStep::Done(
                Some(CoroutineResult::Error(RESUME_ON_RUNNING)),
            ),
            _ => {
                if self.completed {
                    ResumeStep::Done(None)
                } else {
                    self.incoming = Some(value);
                    ResumeStep::SwitchIn
                }
            },
        }
    }

    /// The second half of a resume, after the switch: reports what the engine
    /// and the routine left.
    pub fn finish_resume(&mut self, outcome: EngineResult) -> (result: Option<
        CoroutineResult<YIELD, RET>,
    >)
        requires
            outcome == EngineResult::Success ==> old(self)@.has_output(),
        ensures
            (final(self)@, result) == old(self)@.finish_resume(outcome),
    {
        match outcome.into_result() {
            Err(message) => Some(CoroutineResult::Error(message)),
            Ok(()) => {
                if self.outgoing_yield.is_none() {
                    let value = self.outgoing_return.take();
                    self.completed = true;
                    Some(CoroutineResult::Return(value.unwrap()))
                } else {
                    let value = self.outgoing_yield.take();
                    Some(CoroutineResult::Yield(value.unwrap()))
                }
            },
        }
    }

    /// Called by the routine to suspend itself: takes the value that the
    /// resume in progress pushed and leaves `yield_value` for it. The caller
    /// then switches out.
    pub fn yield_(&mut self, yield_value: YIELD) -> (value: VALUE)
        requires
            old(self)@.incoming is Some,
        ensures
            (final(self)@, value) == old(self)@.yield_(yield_value),
    {
        let value = self.incoming.take();
        self.outgoing_yield = Some(yield_value);
        value.unwrap()
    }

    /// Called once, when the routine has run to its end: discards the value
    /// that the resume in progress pushed and leaves `ret` for it. The caller
    /// then switches out for the last time.
    pub fn return_(&mut self, ret: RET)
        ensures
            final(self)@ == old(self)@.return_(ret),
    {
        let _value = self.incoming.take();
        self.outgoing_return = Some(ret);
    }
}

} // verus!
