//! The exchange protocol over whole resumes, and what holds of it.
//!
//! A resume, seen from the caller, is one `Round`: the status the engine
//! reports, the value pushed, the engine's answer to the switch and what the
//! routine does if control reaches it. `resume_round` composes the slot's
//! transitions in the order in which a handle and a routine perform them. The
//! proof functions below state what follows for every slot and every sequence
//! of rounds.
use vstd::prelude::*;
use crate::error::EngineResult;
use crate::error::message_of;
use crate::result::CoroutineResult;
use crate::slot::RESUME_ON_RUNNING;
use crate::slot::ResumeStep;
use crate::slot::SlotState;
use crate::status::CoroutineStatus;

verus! {

/// What a routine does when it hands control back.
pub enum RoutineAction<YIELD, RET> {
    /// It suspends itself with this value.
    Yield(YIELD),
    /// It has run to its end with this value.
    Return(RET),
}

/// One resume and everything that decides how it goes.
pub struct Round<VALUE, YIELD, RET> {
    /// The status the engine reports before the switch.
    pub status: CoroutineStatus,
    /// The value the caller pushes.
    pub value: VALUE,
    /// The engine's answer to the switch, if it is asked for one.
    pub outcome: EngineResult,
    /// What the routine does, if the engine switches into it.
    pub action: RoutineAction<YIELD, RET>,
}

/// The slot after the routine has acted on it.
pub open spec fn routine_step<VALUE, YIELD, RET, DATA>(
    slot: SlotState<VALUE, YIELD, RET, DATA>,
    action: RoutineAction<YIELD, RET>,
) -> SlotState<VALUE, YIELD, RET, DATA> {
    match action {
        RoutineAction::Yield(y) => slot.yield_(y).0,
        RoutineAction::Return(r) => slot.return_(r),
    }
}

/// The value the routine takes out of the slot in a round, if control
/// reaches it.
pub open spec fn received<VALUE, YIELD, RET, DATA>(
    slot: SlotState<VALUE, YIELD, RET, DATA>,
    round: Round<VALUE, YIELD, RET>,
) -> Option<VALUE> {
    let (pushed, step) = slot.begin_resume(round.status, round.value);
    if step is SwitchIn && round.outcome == EngineResult::Success {
        pushed.incoming
    } else {
        None
    }
}

/// One whole resume: the slot it leaves and the result the caller sees. The
/// routine acts only where the handle asks for the switch and the engine
/// performs it.
pub open spec fn resume_round<VALUE, YIELD, RET, DATA>(
    slot: SlotState<VALUE, YIELD, RET, DATA>,
    round: Round<VALUE, YIELD, RET>,
) -> (SlotState<VALUE, YIELD, RET, DATA>, Option<CoroutineResult<YIELD, RET>>) {
    let (pushed, step) = slot.begin_resume(round.status, round.value);
    match step {
        ResumeStep::Done(result) => (pushed, result),
        ResumeStep::SwitchIn => if round.outcome == EngineResult::Success {
            routine_step(pushed, round.action).finish_resume(EngineResult::Success)
        } else {
            pushed.finish_resume(round.outcome)
        },
    }
}

/// The slot after the first `n` of `rounds`.
pub open spec fn slot_after<VALUE, YIELD, RET, DATA>(
    slot: SlotState<VALUE, YIELD, RET, DATA>,
    rounds: Seq<Round<VALUE, YIELD, RET>>,
    n: nat,
) -> SlotState<VALUE, YIELD, RET, DATA>
    decreases n,
{
    if n == 0 {
        slot
    } else {
        resume_round(slot_after(slot, rounds, (n - 1) as nat), rounds[n - 1]).0
    }
}

/// What the caller sees of round `i`.
pub open spec fn result_at<VALUE, YIELD, RET, DATA>(
    slot: SlotState<VALUE, YIELD, RET, DATA>,
    rounds: Seq<Round<VALUE, YIELD, RET>>,
    i: int,
) -> Option<CoroutineResult<YIELD, RET>> {
    resume_round(slot_after(slot, rounds, i as nat), rounds[i]).1
}

/// A result that hands no value of the routine to the caller: none at all, or
/// an error.
pub open spec fn carries_no_value<YIELD, RET>(result: Option<CoroutineResult<YIELD, RET>>) -> bool {
    result is None || result matches Some(CoroutineResult::Error(_))
}

/// Value fidelity. Where a resume enters a coroutine whose slot holds nothing
/// for the caller, the routine takes out exactly the value that this resume
/// pushed, and the caller is handed exactly what the routine yielded or
/// returned; a return also marks the slot completed. Afterwards every cell is
/// empty again.
pub proof fn lemma_value_fidelity<VALUE, YIELD, RET, DATA>(
    slot: SlotState<VALUE, YIELD, RET, DATA>,
    round: Round<VALUE, YIELD, RET>,
)
    requires
        !slot.has_output(),
        !slot.completed,
        round.status != CoroutineStatus::Dead,
        round.status != CoroutineStatus::Running,
        round.outcome == EngineResult::Success,
    ensures
        received(slot, round) == Some(round.value),
        round.action matches RoutineAction::Yield(y) ==> resume_round(slot, round).1 == Some(
            CoroutineResult::<YIELD, RET>::Yield(y),
        ) && !resume_round(slot, round).0.completed,
        round.action matches RoutineAction::Return(r) ==> resume_round(slot, round).1 == Some(
            CoroutineResult::<YIELD, RET>::Return(r),
        ) && resume_round(slot, round).0.completed,
        resume_round(slot, round).0.populated() == 0,
        resume_round(slot, round).0.payload == slot.payload,
{
}

/// A switch that the engine refuses is reported as an error and leaves in the
/// slot nothing but the pushed value, which the next resume replaces.
pub proof fn lemma_failed_switch<VALUE, YIELD, RET, DATA>(
    slot: SlotState<VALUE, YIELD, RET, DATA>,
    round: Round<VALUE, YIELD, RET>,
)
    requires
        !slot.completed,
        round.status != CoroutineStatus::Dead,
        round.status != CoroutineStatus::Running,
        round.outcome != EngineResult::Success,
    ensures
        resume_round(slot, round).1 == Some(
            CoroutineResult::<YIELD, RET>::Error(message_of(round.outcome)),
        ),
        resume_round(slot, round).0 == (SlotState { incoming: Some(round.value), ..slot }),
        received(slot, round) is None,
{
}

/// The reentrancy guard. A resume of a coroutine that the engine reports as
/// running is refused with an error: the slot is not touched and the routine
/// is not entered.
pub proof fn lemma_reentrancy_guard<VALUE, YIELD, RET, DATA>(
    slot: SlotState<VALUE, YIELD, RET, DATA>,
    round: Round<VALUE, YIELD, RET>,
)
    requires
        round.status == CoroutineStatus::Running,
    ensures
        resume_round(slot, round) == (
            slot,
            Some(CoroutineResult::<YIELD, RET>::Error(RESUME_ON_RUNNING)),
        ),
        received(slot, round) is None,
{
}

/// Inside a round, too, a value sits in one cell at a time: after the push it
/// is the pushed value alone, and once the routine has acted it is the value
/// the routine left alone.
pub proof fn lemma_one_cell_during_a_round<VALUE, YIELD, RET, DATA>(
    slot: SlotState<VALUE, YIELD, RET, DATA>,
    round: Round<VALUE, YIELD, RET>,
)
    requires
        !slot.has_output(),
        slot.begin_resume(round.status, round.value).1 is SwitchIn,
    ensures
        slot.begin_resume(round.status, round.value).0.populated() == 1,
        slot.begin_resume(round.status, round.value).0.incoming == Some(round.value),
        routine_step(
            slot.begin_resume(round.status, round.value).0,
            round.action,
        ).populated() == 1,
        routine_step(slot.begin_resume(round.status, round.value).0, round.action).has_output(),
{
}

/// At most one cell is populated whenever the caller can look. A slot that
/// holds nothing for the caller before a sequence of rounds holds nothing for
/// it after any number of them, and at most the pushed value of a refused
/// switch.
pub proof fn lemma_quiescent_between_rounds<VALUE, YIELD, RET, DATA>(
    slot: SlotState<VALUE, YIELD, RET, DATA>,
    rounds: Seq<Round<VALUE, YIELD, RET>>,
    n: nat,
)
    requires
        !slot.has_output(),
        n <= rounds.len(),
    ensures
        !slot_after(slot, rounds, n).has_output(),
        slot_after(slot, rounds, n).populated() <= 1,
        slot_after(slot, rounds, n).payload == slot.payload,
    decreases n,
{
    if n > 0 {
        lemma_quiescent_between_rounds(slot, rounds, (n - 1) as nat);
    }
}

/// The completed flag is set by nothing but a resume that takes a return
/// value, and no operation on the slot resets it.
pub proof fn lemma_completed_never_resets<VALUE, YIELD, RET, DATA>(
    slot: SlotState<VALUE, YIELD, RET, DATA>,
    status: CoroutineStatus,
    value: VALUE,
    outcome: EngineResult,
    yield_value: YIELD,
    ret: RET,
)
    ensures
        slot.begin_resume(status, value).0.completed == slot.completed,
        slot.yield_(yield_value).0.completed == slot.completed,
        slot.return_(ret).completed == slot.completed,
        slot.completed ==> slot.finish_resume(outcome).0.completed,
        slot.finish_resume(outcome).0.completed && !slot.completed ==> slot.finish_resume(
            outcome,
        ).1 matches Some(CoroutineResult::Return(_)),
{
}

/// Completion is final. No sequence of rounds changes a completed slot, none
/// of them hands the caller a value, and none enters the routine again.
pub proof fn lemma_completed_is_final<VALUE, YIELD, RET, DATA>(
    slot: SlotState<VALUE, YIELD, RET, DATA>,
    rounds: Seq<Round<VALUE, YIELD, RET>>,
    n: nat,
)
    requires
        slot.completed,
        n <= rounds.len(),
    ensures
        slot_after(slot, rounds, n) == slot,
        n < rounds.len() ==> carries_no_value(result_at(slot, rounds, n as int)),
        n < rounds.len() ==> received(slot, rounds[n as int]) is None,
    decreases n,
{
    if n > 0 {
        lemma_completed_is_final(slot, rounds, (n - 1) as nat);
    }
}

/// The completed flag never goes back: once set after `a` rounds it is set
/// after every `b >= a` of them.
pub proof fn lemma_completed_is_monotonic<VALUE, YIELD, RET, DATA>(
    slot: SlotState<VALUE, YIELD, RET, DATA>,
    rounds: Seq<Round<VALUE, YIELD, RET>>,
    a: nat,
    b: nat,
)
    requires
        a <= b <= rounds.len(),
        slot_after(slot, rounds, a).completed,
    ensures
        slot_after(slot, rounds, b).completed,
    decreases b,
{
    if a < b {
        lemma_completed_is_monotonic(slot, rounds, a, (b - 1) as nat);
    }
}

/// Single completion. Whatever the slot, the statuses, the values and the
/// routine: once a round has handed the caller a return value, no later round
/// hands it a yielded or a returned value again.
pub proof fn lemma_single_completion<VALUE, YIELD, RET, DATA>(
    slot: SlotState<VALUE, YIELD, RET, DATA>,
    rounds: Seq<Round<VALUE, YIELD, RET>>,
    i: int,
    j: int,
)
    requires
        0 <= i < j < rounds.len(),
        result_at(slot, rounds, i) matches Some(CoroutineResult::Return(_)),
    ensures
        carries_no_value(result_at(slot, rounds, j)),
{
    assert(slot_after(slot, rounds, (i + 1) as nat).completed);
    lemma_completed_is_monotonic(slot, rounds, (i + 1) as nat, j as nat);
}

/// The action of a routine that yields the values of `yields` in turn and
/// then returns `ret`, when control reaches it for the `i`-th time.
pub open spec fn scripted_action<YIELD, RET>(yields: Seq<YIELD>, ret: RET, i: int) -> RoutineAction<
    YIELD,
    RET,
> {
    if i < yields.len() {
        RoutineAction::Yield(yields[i])
    } else {
        RoutineAction::Return(ret)
    }
}

/// `rounds` resumes a routine that yields `yields` and returns `ret`, on an
/// engine that keeps its word: up to the round in which the routine returns it
/// reports the coroutine as suspended and performs the switch; after that it
/// never reports it as running.
pub open spec fn follows_script<VALUE, YIELD, RET>(
    rounds: Seq<Round<VALUE, YIELD, RET>>,
    yields: Seq<YIELD>,
    ret: RET,
) -> bool {
    forall|k: int|
        0 <= k < rounds.len() ==> if k <= yields.len() {
            &&& (#[trigger] rounds[k]).status == CoroutineStatus::Suspended
            &&& rounds[k].outcome == EngineResult::Success
            &&& rounds[k].action == scripted_action(yields, ret, k)
        } else {
            rounds[k].status != CoroutineStatus::Running
        }
}

/// What the caller is to see of round `i` of such a routine.
pub open spec fn scripted_result<YIELD, RET>(yields: Seq<YIELD>, ret: RET, i: int) -> Option<
    CoroutineResult<YIELD, RET>,
> {
    if i < yields.len() {
        Some(CoroutineResult::Yield(yields[i]))
    } else if i == yields.len() {
        Some(CoroutineResult::Return(ret))
    } else {
        None
    }
}

/// Between the rounds of a scripted routine every cell of the slot is empty;
/// the slot is completed from the round after the return on.
pub proof fn lemma_slot_between_scripted_rounds<VALUE, YIELD, RET, DATA>(
    payload: DATA,
    yields: Seq<YIELD>,
    ret: RET,
    rounds: Seq<Round<VALUE, YIELD, RET>>,
    n: nat,
)
    requires
        follows_script(rounds, yields, ret),
        n <= rounds.len(),
    ensures
        slot_after(SlotState::<VALUE, YIELD, RET, DATA>::fresh(payload), rounds, n) == (SlotState {
            completed: n > yields.len(),
            ..SlotState::<VALUE, YIELD, RET, DATA>::fresh(payload)
        }),
    decreases n,
{
    if n > 0 {
        lemma_slot_between_scripted_rounds::<VALUE, YIELD, RET, DATA>(
            payload,
            yields,
            ret,
            rounds,
            (n - 1) as nat,
        );
        assert(rounds[n - 1].status != CoroutineStatus::Running);
    }
}

/// The round trip. A new coroutine whose routine yields the values of
/// `yields` in turn and then returns `ret` hands its caller, resume by resume,
/// exactly those yielded values, then the return value once, then nothing; and
/// in each round that enters it, the routine takes out the value that this
/// very resume pushed.
pub proof fn lemma_round_trip<VALUE, YIELD, RET, DATA>(
    payload: DATA,
    yields: Seq<YIELD>,
    ret: RET,
    rounds: Seq<Round<VALUE, YIELD, RET>>,
    i: int,
)
    requires
        follows_script(rounds, yields, ret),
        0 <= i < rounds.len(),
    ensures
        result_at(SlotState::<VALUE, YIELD, RET, DATA>::fresh(payload), rounds, i)
            == scripted_result(yields, ret, i),
        i <= yields.len() ==> received(
            slot_after(SlotState::<VALUE, YIELD, RET, DATA>::fresh(payload), rounds, i as nat),
            rounds[i],
        ) == Some(rounds[i].value),
{
    lemma_slot_between_scripted_rounds::<VALUE, YIELD, RET, DATA>(
        payload,
        yields,
        ret,
        rounds,
        i as nat,
    );
    assert(rounds[i].status != CoroutineStatus::Running);
}

} // verus!
