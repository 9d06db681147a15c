//! The orchestrator: it runs the analyzers in their fixed order, looks for a
//! cancellation before each one, gathers the reasons, and scores a password
//! whose evaluation ran to its end.

use crate::blacklist::BlacklistStore;
use crate::evaluation::EvaluationView;
use crate::evaluation::PasswordEvaluation;
use crate::score::score_password;
use crate::score::score_value;
use crate::secret::expose;
use crate::secret::Password;
use crate::sections::blacklist::blacklist_outcome;
use crate::sections::blacklist_section;
use crate::sections::character_variety_section;
use crate::sections::length::length_outcome;
use crate::sections::length_section;
use crate::sections::outcome_of;
use crate::sections::pattern::pattern_outcome;
use crate::sections::pattern_analysis_section;
use crate::sections::variety::variety_outcome;
use crate::sections::SectionOutcome;
use crate::sections::SectionResult;
use crate::text::lemma_texts_push;
use crate::text::texts;
use tokio_util::sync::CancellationToken;
use vstd::prelude::*;

verus! {

/// `tokio_util::sync::CancellationToken`, which is only ever asked whether
/// it has been cancelled.
#[verifier::external_type_specification]
#[verifier::external_body]
pub struct ExCancellationToken(CancellationToken);

/// Asks the token with `CancellationToken::is_cancelled`, which looks at the
/// token's flag under the token's own lock. Whoever holds a clone of the token
/// may cancel at any moment, so nothing is promised of the answer.
#[verifier::external_body]
fn cancellation_requested(token: &CancellationToken) -> (cancelled: bool) {
    token.is_cancelled()
}

/// The number of analyzers.
pub const SECTION_COUNT: usize = 4;

/// The analyzers.
#[derive(Clone, Copy, Debug, PartialEq, Eq)]
pub enum Section {
    /// Is the password in the blacklist?
    Blacklist,
    /// Is the password long enough?
    Length,
    /// Does the password hold all character classes?
    Variety,
    /// Does the password show a repetition or a sequence?
    Pattern,
}

/// The analyzer that runs at `position`: blacklist, length, variety, pattern.
pub open spec fn section_at(position: int) -> Section {
    if position == 0 {
        Section::Blacklist
    } else if position == 1 {
        Section::Length
    } else if position == 2 {
        Section::Variety
    } else {
        Section::Pattern
    }
}

/// What an analyzer comes to on a password.
pub open spec fn section_outcome(
    section: Section,
    text: Seq<char>,
    entries: Option<Set<Seq<char>>>,
) -> SectionOutcome {
    match section {
        Section::Blacklist => blacklist_outcome(text, entries),
        Section::Length => length_outcome(text),
        Section::Variety => variety_outcome(text),
        Section::Pattern => pattern_outcome(text),
    }
}

impl Section {
    /// The analyzer that runs at `position`, if there is one.
    pub fn at(position: usize) -> (section: Option<Section>)
        ensures
            section == if position < SECTION_COUNT {
                Some(section_at(position as int))
            } else {
                None
            },
    {
        if position == 0 {
            Some(Section::Blacklist)
        } else if position == 1 {
            Some(Section::Length)
        } else if position == 2 {
            Some(Section::Variety)
        } else if position == 3 {
            Some(Section::Pattern)
        } else {
            None
        }
    }

    /// Runs the analyzer on a password.
    pub fn analyze(self, password: &Password, store: &BlacklistStore) -> (result: SectionResult)
        ensures
            outcome_of(result) == section_outcome(self, password@, store@),
    {
        match self {
            Section::Blacklist => blacklist_section(password, store),
            Section::Length => length_section(password),
            Section::Variety => character_variety_section(password),
            Section::Pattern => pattern_analysis_section(password),
        }
    }
}

/// Where an evaluation stands.
#[derive(Clone, Copy, Debug, PartialEq, Eq)]
pub enum EvaluationState {
    /// Analyzers are still to run.
    Running,
    /// All analyzers have run.
    Completed,
    /// A cancellation was seen before an analyzer.
    Cancelled,
    /// An analyzer could not complete.
    Faulted,
}

/// The reason that marks a cancelled evaluation.
pub open spec fn cancelled_reason() -> Seq<char> {
    "Evaluation cancelled"@
}

/// The reason that marks an evaluation in which an analyzer could not
/// complete.
pub open spec fn error_reason() -> Seq<char> {
    "Error"@
}

/// An evaluation under way: its state, how many analyzers have run, and the
/// reasons so far.
pub struct Progress {
    pub state: EvaluationState,
    pub done: nat,
    pub reasons: Seq<Seq<char>>,
}

impl Progress {
    /// While running, analyzers are left; once completed, none is.
    pub open spec fn wf(self) -> bool {
        &&& self.done <= SECTION_COUNT
        &&& self.state is Running ==> self.done < SECTION_COUNT
        &&& self.state is Completed ==> self.done == SECTION_COUNT
    }
}

/// The start: running, no analyzer run, no reason.
pub open spec fn initial() -> Progress {
    Progress { state: EvaluationState::Running, done: 0, reasons: Seq::empty() }
}

/// One more analyzer has run and left `reasons`: the evaluation is completed
/// if it was the last one.
pub open spec fn advanced(progress: Progress, reasons: Seq<Seq<char>>) -> Progress {
    Progress {
        state: if progress.done + 1 == SECTION_COUNT {
            EvaluationState::Completed
        } else {
            EvaluationState::Running
        },
        done: progress.done + 1,
        reasons,
    }
}

/// A cancellation ends a running evaluation and appends its marker; any other
/// evaluation stays as it is.
pub open spec fn after_cancellation(progress: Progress) -> Progress {
    if progress.state is Running {
        Progress {
            state: EvaluationState::Cancelled,
            done: progress.done,
            reasons: progress.reasons.push(cancelled_reason()),
        }
    } else {
        progress
    }
}

/// The outcome of the next analyzer moves a running evaluation on: a pass
/// adds nothing, a failure adds its reason, and an analyzer that could not
/// complete ends the evaluation and appends the error marker. Any other
/// evaluation stays as it is.
pub open spec fn after_outcome(progress: Progress, outcome: SectionOutcome) -> Progress {
    if progress.state is Running {
        match outcome {
            SectionOutcome::Passed => advanced(progress, progress.reasons),
            SectionOutcome::Failed(reason) => advanced(progress, progress.reasons.push(reason)),
            SectionOutcome::Fatal => Progress {
                state: EvaluationState::Faulted,
                done: progress.done,
                reasons: progress.reasons.push(error_reason()),
            },
        }
    } else {
        progress
    }
}

/// One step: a cancellation seen before the next analyzer ends the
/// evaluation, else the analyzer runs.
pub open spec fn after_step(
    progress: Progress,
    cancelled: bool,
    text: Seq<char>,
    entries: Option<Set<Seq<char>>>,
) -> Progress {
    if cancelled {
        after_cancellation(progress)
    } else {
        after_outcome(progress, section_outcome(section_at(progress.done as int), text, entries))
    }
}

/// What an evaluation returns in the end: its reasons, and a score only if it
/// is completed.
pub open spec fn evaluation_of(progress: Progress, text: Seq<char>) -> EvaluationView {
    EvaluationView {
        score: if progress.state is Completed {
            Some(score_value(text, progress.reasons.len()))
        } else {
            None
        },
        reasons: progress.reasons,
    }
}

/// The reasons that the first `count` analyzers give, in their order.
pub open spec fn reasons_after(
    text: Seq<char>,
    entries: Option<Set<Seq<char>>>,
    count: nat,
) -> Seq<Seq<char>>
    decreases count,
{
    if count == 0 {
        Seq::empty()
    } else {
        let before = reasons_after(text, entries, (count - 1) as nat);
        match section_outcome(section_at(count - 1), text, entries) {
            SectionOutcome::Failed(reason) => before.push(reason),
            _ => before,
        }
    }
}

/// The evaluation in which all analyzers ran: their reasons, and the score
/// of the password against them.
pub open spec fn completed_evaluation(
    text: Seq<char>,
    entries: Option<Set<Seq<char>>>,
) -> EvaluationView {
    let reasons = reasons_after(text, entries, SECTION_COUNT as nat);
    EvaluationView { score: Some(score_value(text, reasons.len())), reasons }
}

/// The evaluation that was cancelled after `count` analyzers: their reasons,
/// then the marker, and no score.
pub open spec fn cancelled_evaluation(
    text: Seq<char>,
    entries: Option<Set<Seq<char>>>,
    count: nat,
) -> EvaluationView {
    EvaluationView {
        score: None,
        reasons: reasons_after(text, entries, count).push(cancelled_reason()),
    }
}

/// The state machine behind an evaluation. It starts running, takes one step
/// for each analyzer, and ends completed, cancelled or faulted.
///
/// Each step is told whether a cancellation was seen, so a caller with its
/// own way of learning of one can drive the steps itself.
pub struct Orchestrator {
    state: EvaluationState,
    done: usize,
    reasons: Vec<String>,
}

impl View for Orchestrator {
    type V = Progress;

    closed spec fn view(&self) -> Progress {
        Progress { state: self.state, done: self.done as nat, reasons: texts(self.reasons@) }
    }
}

impl Orchestrator {
    #[verifier::type_invariant]
    spec fn consistent(self) -> bool {
        self@.wf()
    }

    /// An evaluation at its start.
    pub fn new() -> (run: Orchestrator)
        ensures
            run@ == initial(),
    {
        let run = Orchestrator { state: EvaluationState::Running, done: 0, reasons: Vec::new() };
        assert(run@.reasons =~= Seq::empty());
        run
    }

    /// Where the evaluation stands.
    pub fn state(&self) -> (state: EvaluationState)
        ensures
            state == self@.state,
            self@.wf(),
    {
        proof {
            use_type_invariant(self);
        }
        self.state
    }

    /// Whether analyzers are still to run.
    pub fn is_running(&self) -> (running: bool)
        ensures
            running == (self@.state is Running),
            self@.wf(),
    {
        proof {
            use_type_invariant(self);
        }
        match self.state {
            EvaluationState::Running => true,
            _ => false,
        }
    }

    /// The analyzer that a step would run next, if the evaluation is running.
    pub fn next_section(&self) -> (section: Option<Section>)
        ensures
            section == if self@.state is Running {
                Some(section_at(self@.done as int))
            } else {
                None
            },
    {
        proof {
            use_type_invariant(self);
        }
        match self.state {
            EvaluationState::Running => Section::at(self.done),
            _ => None,
        }
    }

    /// Ends a running evaluation as cancelled.
    pub fn cancel(self) -> (next: Orchestrator)
        ensures
            next@ == after_cancellation(self@),
    {
        proof {
            use_type_invariant(&self);
        }
        let Orchestrator { state, done, mut reasons } = self;
        match state {
            EvaluationState::Running => {
                let marker = "Evaluation cancelled".to_owned();
                proof {
                    lemma_texts_push(reasons@, marker);
                }
                reasons.push(marker);
                Orchestrator { state: EvaluationState::Cancelled, done, reasons }
            },
            _ => Orchestrator { state, done, reasons },
        }
    }

    /// Takes in what the next analyzer returned.
    pub fn record(self, outcome: SectionResult) -> (next: Orchestrator)
        ensures
            next@ == after_outcome(self@, outcome_of(outcome)),
    {
        proof {
            use_type_invariant(&self);
        }
        let Orchestrator { state, done, mut reasons } = self;
        match state {
            EvaluationState::Running => {},
            _ => {
                return Orchestrator { state, done, reasons };
            },
        }
        match outcome {
            Ok(found) => {
                match found {
                    Some(reason) => {
                        proof {
                            lemma_texts_push(reasons@, reason);
                        }
                        reasons.push(reason);
                    },
                    None => {},
                }
                let state = if done + 1 == SECTION_COUNT {
                    EvaluationState::Completed
                } else {
                    EvaluationState::Running
                };
                Orchestrator { state, done: done + 1, reasons }
            },
            Err(_) => {
                let marker = "Error".to_owned();
                proof {
                    lemma_texts_push(reasons@, marker);
                }
                reasons.push(marker);
                Orchestrator { state: EvaluationState::Faulted, done, reasons }
            },
        }
    }

    /// Takes one step: ends the evaluation if a cancellation was seen, else
    /// runs the next analyzer and takes in what it returns.
    pub fn step(self, password: &Password, store: &BlacklistStore, cancelled: bool) -> (next:
        Orchestrator)
        ensures
            next@ == after_step(self@, cancelled, password@, store@),
    {
        if cancelled {
            self.cancel()
        } else {
            match self.next_section() {
                Some(section) => {
                    let outcome = section.analyze(password, store);
                    self.record(outcome)
                },
                None => self,
            }
        }
    }

    /// Ends the evaluation: the reasons, and the score of the password if all
    /// analyzers have run.
    pub fn finish(self, password: &Password) -> (evaluation: PasswordEvaluation)
        ensures
            evaluation@ == evaluation_of(self@, password@),
    {
        let score = match self.state {
            EvaluationState::Completed => Some(score_password(expose(password), &self.reasons)),
            _ => None,
        };
        PasswordEvaluation { score, reasons: self.reasons }
    }
}

/// Evaluates the strength of a password.
///
/// The analyzers run in their order against the password and the blacklist.
/// With a token, a cancellation is looked for before each analyzer; once one
/// is seen the evaluation ends without a score, its last reason the marker
/// of the cancellation. Without a token, or if none is seen, all analyzers
/// run and the password is scored against their reasons.
pub fn evaluate_password_strength(
    password: &Password,
    store: &BlacklistStore,
    token: Option<CancellationToken>,
) -> (evaluation: PasswordEvaluation)
    ensures
        token is None ==> evaluation@ == completed_evaluation(password@, store@),
        evaluation@ == completed_evaluation(password@, store@) || exists|count: nat|
            count < SECTION_COUNT && evaluation@ == #[trigger] cancelled_evaluation(
                password@,
                store@,
                count,
            ),
{
    let mut run = Orchestrator::new();
    while run.is_running()
        invariant
            run@.wf(),
            !(run@.state is Faulted),
            run@.state is Cancelled ==> token is Some && run@.done < SECTION_COUNT,
            run@.reasons == if run@.state is Cancelled {
                reasons_after(password@, store@, run@.done).push(cancelled_reason())
            } else {
                reasons_after(password@, store@, run@.done)
            },
        decreases
                if run@.state is Running {
                    SECTION_COUNT + 1 - run@.done
                } else {
                    0
                },
    {
        let cancelled = match &token {
            Some(token) => cancellation_requested(token),
            None => false,
        };
        run = run.step(password, store, cancelled);
    }
    let evaluation = run.finish(password);
    proof {
        if run@.state is Cancelled {
            assert(evaluation@ == cancelled_evaluation(password@, store@, run@.done));
        }
    }
    evaluation
}

} // verus!
