use vstd::prelude::*;

verus! {

/// Relies on `String::push`: the character is added at the end.
#[verifier::external_body]
fn push_char(s: &mut String, c: char)
    ensures
        final(s)@ == old(s)@.push(c),
{
    s.push(c)
}

/// Relies on `String::pop`: the last character is removed and returned,
/// and an empty string is left as it is.
#[verifier::external_body]
fn pop_char(s: &mut String) -> (r: Option<char>)
    ensures
        old(s)@.len() == 0 ==> r is None && final(s)@ == old(s)@,
        old(s)@.len() > 0 ==> r == Some(old(s)@.last()) && final(s)@ == old(s)@.drop_last(),
{
    s.pop()
}

/// The phase a session is in. Only the active variant holds data.
pub enum SessionPhase<S> {
    /// The user is composing an explanation of the current prompt.
    Input { buffer: String },
    /// A scoring task was launched for `submitted` against `prompt`; the
    /// task carries `ticket`, and only its result can be committed.
    Scoring { prompt: String, submitted: String, ticket: u64 },
    /// A scoring task finished and its result was committed.
    Reviewed { score: S, explanation: String },
}

/// The mathematical model of a phase.
pub enum PhaseModel<S> {
    Input { buffer: Seq<char> },
    Scoring { prompt: Seq<char>, submitted: Seq<char>, ticket: u64 },
    Reviewed { score: S, explanation: Seq<char> },
}

impl<S> View for SessionPhase<S> {
    type V = PhaseModel<S>;

    open spec fn view(&self) -> PhaseModel<S> {
        match self {
            SessionPhase::Input { buffer } => PhaseModel::Input { buffer: buffer@ },
            SessionPhase::Scoring { prompt, submitted, ticket } => PhaseModel::Scoring {
                prompt: prompt@,
                submitted: submitted@,
                ticket: *ticket,
            },
            SessionPhase::Reviewed { score, explanation } => PhaseModel::Reviewed {
                score: *score,
                explanation: explanation@,
            },
        }
    }
}

/// What the session shows: its phase and the word being explained.
pub struct SessionState<S> {
    pub phase: SessionPhase<S>,
    pub current_prompt: String,
}

/// The mathematical model of a whole session.
pub struct SessionModel<S> {
    pub phase: PhaseModel<S>,
    pub prompt: Seq<char>,
    /// The ticket that the next submission will carry.
    pub next_ticket: u64,
}

/// The ticket that follows `t`; after the largest one the count starts again.
pub open spec fn following(t: u64) -> u64 {
    if t == u64::MAX {
        0
    } else {
        (t + 1) as u64
    }
}

impl<S> SessionModel<S> {
    /// A scoring phase always belongs to the current prompt.
    pub open spec fn wf(self) -> bool {
        self.phase matches PhaseModel::Scoring { prompt, .. } ==> prompt == self.prompt
    }

    /// A new session composing an explanation of `prompt`.
    pub open spec fn started(prompt: Seq<char>) -> Self {
        SessionModel { phase: PhaseModel::Input { buffer: Seq::empty() }, prompt, next_ticket: 0 }
    }

    /// The same session in `phase`.
    pub open spec fn with_phase(self, phase: PhaseModel<S>) -> Self {
        SessionModel { phase, ..self }
    }

    /// A character typed by the user: kept only while composing.
    pub open spec fn typed(self, c: char) -> Self {
        match self.phase {
            PhaseModel::Input { buffer } => self.with_phase(PhaseModel::Input { buffer: buffer.push(c) }),
            _ => self,
        }
    }

    /// The last character removed, while composing and where there is one.
    pub open spec fn erased(self) -> Self {
        match self.phase {
            PhaseModel::Input { buffer } => if buffer.len() > 0 {
                self.with_phase(PhaseModel::Input { buffer: buffer.drop_last() })
            } else {
                self
            },
            _ => self,
        }
    }

    /// The explanation emptied, while composing.
    pub open spec fn cleared(self) -> Self {
        match self.phase {
            PhaseModel::Input { .. } => self.with_phase(PhaseModel::Input { buffer: Seq::empty() }),
            _ => self,
        }
    }

    /// The explanation handed off for scoring, while composing.
    pub open spec fn submitted(self) -> Self {
        match self.phase {
            PhaseModel::Input { buffer } => SessionModel {
                phase: PhaseModel::Scoring {
                    prompt: self.prompt,
                    submitted: buffer,
                    ticket: self.next_ticket,
                },
                prompt: self.prompt,
                next_ticket: following(self.next_ticket),
            },
            _ => self,
        }
    }

    /// A fresh start on the prompt `next`, from any phase.
    pub open spec fn advanced(self, next: Seq<char>) -> Self {
        SessionModel { phase: PhaseModel::Input { buffer: Seq::empty() }, prompt: next, ..self }
    }

    /// A fresh start on the same prompt, from any phase.
    pub open spec fn retried(self) -> Self {
        self.with_phase(PhaseModel::Input { buffer: Seq::empty() })
    }

    /// Whether a result that carries `ticket` is still awaited.
    pub open spec fn awaits(self, ticket: u64) -> bool {
        self.phase matches PhaseModel::Scoring { ticket: t, .. } && t == ticket
    }

    /// A successful result of the task with `ticket`: committed only while
    /// that task is awaited, discarded otherwise.
    pub open spec fn committed(self, ticket: u64, score: S, explanation: Seq<char>) -> Self {
        if self.awaits(ticket) {
            self.with_phase(PhaseModel::Reviewed { score, explanation })
        } else {
            self
        }
    }

    /// A failure of the task with `ticket`: while that task is awaited the
    /// session goes back to composing, with the submitted text restored;
    /// otherwise it is discarded.
    pub open spec fn failed(self, ticket: u64) -> Self {
        match self.phase {
            PhaseModel::Scoring { submitted, ticket: t, .. } => if t == ticket {
                self.with_phase(PhaseModel::Input { buffer: submitted })
            } else {
                self
            },
            _ => self,
        }
    }
}

/// Which phase a session is in, without its data.
#[derive(Clone, Copy, Debug, PartialEq, Eq, Structural)]
pub enum PhaseTag {
    Input,
    Scoring,
    Reviewed,
}

/// The tag of a phase model.
pub open spec fn tag_of<S>(phase: PhaseModel<S>) -> PhaseTag {
    match phase {
        PhaseModel::Input { .. } => PhaseTag::Input,
        PhaseModel::Scoring { .. } => PhaseTag::Scoring,
        PhaseModel::Reviewed { .. } => PhaseTag::Reviewed,
    }
}

impl<S> SessionPhase<S> {
    /// Whether the user may edit the explanation.
    pub fn is_input(&self) -> (r: bool)
        ensures
            r == (self@ is Input),
    {
        match self {
            SessionPhase::Input { .. } => true,
            _ => false,
        }
    }

    pub fn tag(&self) -> (r: PhaseTag)
        ensures
            r == tag_of(self@),
    {
        match self {
            SessionPhase::Input { .. } => PhaseTag::Input,
            SessionPhase::Scoring { .. } => PhaseTag::Scoring,
            SessionPhase::Reviewed { .. } => PhaseTag::Reviewed,
        }
    }
}

/// A user action that the session handles; quitting is left to the caller.
pub enum Action {
    CharTyped(char),
    Backspace,
    ClearInput,
    Submit,
    /// Move on to the given prompt.
    Next(String),
    Retry,
}

/// The unit of work launched on submission: a copy of what is scored, and
/// the ticket under which its result comes back.
pub struct ScoringTask {
    pub ticket: u64,
    pub prompt: String,
    pub submitted: String,
}

/// What became of a scoring result handed back to the session.
#[derive(Clone, Copy, Debug, PartialEq, Eq, Structural)]
pub enum Completion {
    /// The result was awaited and is now shown.
    Committed,
    /// The task was awaited and failed; the session is composing again.
    Reverted,
    /// The session had moved on; the result was dropped.
    Discarded,
}

/// The controller that owns a session and performs every transition.
pub struct SessionController<S> {
    state: SessionState<S>,
    next_ticket: u64,
}

impl<S> View for SessionController<S> {
    type V = SessionModel<S>;

    closed spec fn view(&self) -> SessionModel<S> {
        SessionModel {
            phase: self.state.phase@,
            prompt: self.state.current_prompt@,
            next_ticket: self.next_ticket,
        }
    }
}

impl<S> SessionController<S> {
    /// A session composing an explanation of `prompt`, with an empty buffer.
    pub fn start(prompt: String) -> (r: Self)
        ensures
            r@ == SessionModel::<S>::started(prompt@),
            r@.wf(),
    {
        SessionController {
            state: SessionState { phase: SessionPhase::Input { buffer: String::new() }, current_prompt: prompt },
            next_ticket: 0,
        }
    }

    /// Adds `c` to the explanation; ignored unless composing.
    pub fn append(&mut self, c: char)
        requires
            old(self)@.wf(),
        ensures
            final(self)@ == old(self)@.typed(c),
            final(self)@.wf(),
    {
        match &mut self.state.phase {
            SessionPhase::Input { buffer } => push_char(buffer, c),
            _ => {},
        }
    }

    /// Removes the last character of the explanation, if any; ignored unless
    /// composing.
    pub fn erase_last(&mut self)
        requires
            old(self)@.wf(),
        ensures
            final(self)@ == old(self)@.erased(),
            final(self)@.wf(),
    {
        match &mut self.state.phase {
            SessionPhase::Input { buffer } => {
                let _ = pop_char(buffer);
            },
            _ => {},
        }
    }

    /// Empties the explanation; ignored unless composing.
    pub fn clear_input(&mut self)
        requires
            old(self)@.wf(),
        ensures
            final(self)@ == old(self)@.cleared(),
            final(self)@.wf(),
    {
        match &mut self.state.phase {
            SessionPhase::Input { buffer } => {
                *buffer = String::new();
            },
            _ => {},
        }
    }

    /// Hands the explanation off for scoring. While composing, the session
    /// starts waiting and the task to launch is returned; in any other phase
    /// nothing changes and no task is returned.
    pub fn submit(&mut self) -> (r: Option<ScoringTask>)
        requires
            old(self)@.wf(),
        ensures
            final(self)@ == old(self)@.submitted(),
            final(self)@.wf(),
            r is Some <==> old(self)@.phase is Input,
            r matches Some(task) ==> {
                &&& old(self)@.phase matches PhaseModel::Input { buffer } && task.submitted@ == buffer
                &&& task.prompt@ == old(self)@.prompt
                &&& task.ticket == old(self)@.next_ticket
                &&& final(self)@.awaits(task.ticket)
            },
    {
        let submitted = match &self.state.phase {
            SessionPhase::Input { buffer } => buffer.clone(),
            _ => {
                return None;
            },
        };
        let ticket = self.next_ticket;
        self.next_ticket = if ticket == u64::MAX {
            0
        } else {
            ticket + 1
        };
        self.state.phase = SessionPhase::Scoring {
            prompt: self.state.current_prompt.clone(),
            submitted: submitted.clone(),
            ticket,
        };
        Some(ScoringTask { ticket, prompt: self.state.current_prompt.clone(), submitted })
    }

    /// Hands back the result of the task launched with `ticket`. It is applied
    /// only while that task is still awaited: a score and an explanation are
    /// then shown, and a failure returns the session to composing with the
    /// submitted text. Otherwise the result is dropped and nothing changes.
    pub fn complete<E>(&mut self, ticket: u64, result: Result<(S, String), E>) -> (r: Completion)
        requires
            old(self)@.wf(),
        ensures
            match result {
                Ok((score, explanation)) => final(self)@ == old(self)@.committed(ticket, score, explanation@),
                Err(_) => final(self)@ == old(self)@.failed(ticket),
            },
            final(self)@.wf(),
            r == (if !old(self)@.awaits(ticket) {
                Completion::Discarded
            } else if result is Ok {
                Completion::Committed
            } else {
                Completion::Reverted
            }),
    {
        let submitted = match &self.state.phase {
            SessionPhase::Scoring { submitted, ticket: t, .. } => {
                if *t != ticket {
                    return Completion::Discarded;
                }
                submitted.clone()
            },
            _ => {
                return Completion::Discarded;
            },
        };
        match result {
            Ok((score, explanation)) => {
                self.state.phase = SessionPhase::Reviewed { score, explanation };
                Completion::Committed
            },
            Err(_) => {
                self.state.phase = SessionPhase::Input { buffer: submitted };
                Completion::Reverted
            },
        }
    }

    /// Starts over on the prompt `next_prompt` with an empty explanation, from
    /// any phase; a result still on its way will be dropped.
    pub fn advance(&mut self, next_prompt: String)
        requires
            old(self)@.wf(),
        ensures
            final(self)@ == old(self)@.advanced(next_prompt@),
            final(self)@.wf(),
    {
        self.state.phase = SessionPhase::Input { buffer: String::new() };
        self.state.current_prompt = next_prompt;
    }

    /// Starts over on the same prompt with an empty explanation, from any
    /// phase; a result still on its way will be dropped.
    pub fn retry(&mut self)
        requires
            old(self)@.wf(),
        ensures
            final(self)@ == old(self)@.retried(),
            final(self)@.wf(),
    {
        self.state.phase = SessionPhase::Input { buffer: String::new() };
    }

    /// Performs `action`; only a submission can hand back a task to launch.
    pub fn dispatch(&mut self, action: Action) -> (r: Option<ScoringTask>)
        requires
            old(self)@.wf(),
        ensures
            final(self)@.wf(),
            match action {
                Action::CharTyped(c) => final(self)@ == old(self)@.typed(c),
                Action::Backspace => final(self)@ == old(self)@.erased(),
                Action::ClearInput => final(self)@ == old(self)@.cleared(),
                Action::Submit => final(self)@ == old(self)@.submitted(),
                Action::Next(p) => final(self)@ == old(self)@.advanced(p@),
                Action::Retry => final(self)@ == old(self)@.retried(),
            },
            r is Some <==> (action is Submit && old(self)@.phase is Input),
            r matches Some(task) ==> {
                &&& old(self)@.phase matches PhaseModel::Input { buffer } && task.submitted@ == buffer
                &&& task.prompt@ == old(self)@.prompt
                &&& task.ticket == old(self)@.next_ticket
            },
    {
        match action {
            Action::CharTyped(c) => {
                self.append(c);
                None
            },
            Action::Backspace => {
                self.erase_last();
                None
            },
            Action::ClearInput => {
                self.clear_input();
                None
            },
            Action::Submit => self.submit(),
            Action::Next(p) => {
                self.advance(p);
                None
            },
            Action::Retry => {
                self.retry();
                None
            },
        }
    }

    /// The session as it stands, for display.
    pub fn state(&self) -> (r: &SessionState<S>)
        ensures
            r.phase@ == self@.phase,
            r.current_prompt@ == self@.prompt,
    {
        &self.state
    }

    pub fn phase_tag(&self) -> (r: PhaseTag)
        ensures
            r == tag_of(self@.phase),
    {
        self.state.phase.tag()
    }

    /// The word being explained.
    pub fn prompt(&self) -> (r: &str)
        ensures
            r@ == self@.prompt,
    {
        self.state.current_prompt.as_str()
    }

    /// The explanation being composed; empty outside composing.
    pub fn buffer(&self) -> (r: &str)
        ensures
            r@ == (match self@.phase {
                PhaseModel::Input { buffer } => buffer,
                _ => Seq::empty(),
            }),
    {
        match &self.state.phase {
            SessionPhase::Input { buffer } => buffer.as_str(),
            _ => {
                proof {
                    reveal_strlit("");
                }
                ""
            },
        }
    }

    /// The committed score, once a result is shown.
    pub fn score(&self) -> (r: Option<&S>)
        ensures
            match self@.phase {
                PhaseModel::Reviewed { score, .. } => r == Some(&score),
                _ => r is None,
            },
    {
        match &self.state.phase {
            SessionPhase::Reviewed { score, .. } => Some(score),
            _ => None,
        }
    }

    /// The committed explanation, once a result is shown; empty otherwise.
    pub fn explanation(&self) -> (r: &str)
        ensures
            r@ == (match self@.phase {
                PhaseModel::Reviewed { explanation, .. } => explanation,
                _ => Seq::empty(),
            }),
    {
        match &self.state.phase {
            SessionPhase::Reviewed { explanation, .. } => explanation.as_str(),
            _ => {
                proof {
                    reveal_strlit("");
                }
                ""
            },
        }
    }
}

} // verus!
