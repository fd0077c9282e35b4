use vstd::prelude::*;

use crate::session::{PhaseModel, SessionModel};

verus! {

/// A result that comes back after the session was moved on, by `advance` or
/// by `retry`, leaves the session exactly as that move left it, whether the
/// result is a score or a failure.
pub proof fn lemma_guarded_commit<S>(
    s: SessionModel<S>,
    next: Seq<char>,
    ticket: u64,
    score: S,
    explanation: Seq<char>,
)
    requires
        s.wf(),
    ensures
        ({
            let a = s.submitted().advanced(next);
            a.committed(ticket, score, explanation) == a && a.failed(ticket) == a
        }),
        ({
            let a = s.submitted().retried();
            a.committed(ticket, score, explanation) == a && a.failed(ticket) == a
        }),
{
}

/// Once the session has moved on and a new explanation was submitted, the
/// result of the earlier task is still dropped: only the latest task counts.
pub proof fn lemma_superseded_task_stays_stale<S>(
    s: SessionModel<S>,
    next: Seq<char>,
    score: S,
    explanation: Seq<char>,
)
    requires
        s.wf(),
        s.phase is Input,
    ensures
        ({
            let first = s.next_ticket;
            let a = s.submitted().advanced(next).submitted();
            a.committed(first, score, explanation) == a && a.failed(first) == a
        }),
        ({
            let first = s.next_ticket;
            let a = s.submitted().retried().submitted();
            a.committed(first, score, explanation) == a && a.failed(first) == a
        }),
{
}

/// A result that comes back while its own task is still awaited is shown:
/// submitting from composing and then completing with the ticket that the
/// submission issued leaves the score and explanation on the same prompt.
pub proof fn lemma_awaited_result_committed<S>(s: SessionModel<S>, score: S, explanation: Seq<char>)
    requires
        s.wf(),
        s.phase is Input,
    ensures
        ({
            let r = s.submitted().committed(s.next_ticket, score, explanation);
            &&& r.phase == (PhaseModel::Reviewed { score, explanation })
            &&& r.prompt == s.prompt
        }),
{
}

/// `retry` keeps the prompt and `advance` replaces it; both leave an empty
/// explanation being composed, from any phase.
pub proof fn lemma_retry_keeps_prompt_advance_replaces<S>(s: SessionModel<S>, next: Seq<char>)
    ensures
        s.retried().prompt == s.prompt,
        s.retried().phase == (PhaseModel::<S>::Input { buffer: Seq::empty() }),
        s.advanced(next).prompt == next,
        s.advanced(next).phase == (PhaseModel::<S>::Input { buffer: Seq::empty() }),
{
}

/// A second submission right after the first changes nothing, and the
/// session is then no longer composing, so `submit` hands back no task.
pub proof fn lemma_single_live_task<S>(s: SessionModel<S>)
    requires
        s.wf(),
    ensures
        s.submitted().submitted() == s.submitted(),
        s.submitted().phase !is Input,
{
}

/// Outside composing, typing, erasing and clearing change nothing.
pub proof fn lemma_input_closed<S>(s: SessionModel<S>, c: char)
    requires
        s.phase !is Input,
    ensures
        s.typed(c) == s,
        s.erased() == s,
        s.cleared() == s,
{
}

/// Erasing from an empty explanation leaves it empty.
pub proof fn lemma_erase_on_empty<S>(s: SessionModel<S>)
    requires
        s.phase == (PhaseModel::<S>::Input { buffer: Seq::empty() }),
    ensures
        s.erased() == s,
{
}

} // verus!
