//! Laws of the library: what holds of every password, every blacklist and
//! every evaluation, proved from the definitions that the contracts use.

use crate::blacklist::blacklist_entries;
use crate::blacklist::entry_of;
use crate::blacklist::init_result;
use crate::blacklist::init_state;
use crate::blacklist::is_line;
use crate::blacklist::is_member;
use crate::blacklist::BlacklistSource;
use crate::evaluator::after_cancellation;
use crate::evaluator::after_outcome;
use crate::evaluator::after_step;
use crate::evaluator::cancelled_evaluation;
use crate::evaluator::cancelled_reason;
use crate::evaluator::completed_evaluation;
use crate::evaluator::error_reason;
use crate::evaluator::evaluation_of;
use crate::evaluator::initial;
use crate::evaluator::reasons_after;
use crate::evaluator::Progress;
use crate::profile::has_digit;
use crate::profile::has_lowercase;
use crate::profile::has_special;
use crate::profile::has_uppercase;
use crate::score::bonus;
use crate::score::penalty;
use crate::score::score_value;
use crate::score::strength_of;
use crate::score::tier_rank;
use crate::score::PasswordStrength;
use crate::sections::blacklist::blacklisted_reason;
use crate::sections::length::length_outcome;
use crate::sections::pattern::has_repetition;
use crate::sections::pattern::has_sequence;
use crate::sections::pattern::pattern_outcome;
use crate::sections::variety::variety_outcome;
use crate::sections::SectionOutcome;
use crate::text::lowercase;
use crate::text::trim;
use vstd::prelude::*;

verus! {

/// The reasons of the analyzers begin with the blacklist's whenever the
/// password is blacklisted.
pub proof fn lemma_first_reason_of_blacklisted(
    text: Seq<char>,
    entries: Option<Set<Seq<char>>>,
    count: nat,
)
    requires
        is_member(entries, text),
        1 <= count,
    ensures
        reasons_after(text, entries, count).len() >= 1,
        reasons_after(text, entries, count)[0] == blacklisted_reason(),
    decreases count,
{
    if count == 1 {
        assert(reasons_after(text, entries, 0).len() == 0);
    } else {
        lemma_first_reason_of_blacklisted(text, entries, (count - 1) as nat);
    }
}

/// Whenever the blacklist holds a password, the evaluation in which all
/// analyzers ran names the blacklist among its reasons, and so does every
/// evaluation that was cancelled after the first analyzer.
pub proof fn lemma_blacklisted_password_is_reported(
    text: Seq<char>,
    entries: Option<Set<Seq<char>>>,
    count: nat,
)
    requires
        is_member(entries, text),
        1 <= count,
    ensures
        completed_evaluation(text, entries).reasons.contains(blacklisted_reason()),
        cancelled_evaluation(text, entries, count).reasons.contains(blacklisted_reason()),
{
    lemma_first_reason_of_blacklisted(text, entries, 4);
    lemma_first_reason_of_blacklisted(text, entries, count);
    assert(cancelled_evaluation(text, entries, count).reasons[0] == blacklisted_reason());
}

/// A blacklisted password is weak whenever its bonuses stay less than 50
/// above the penalty for its deficiencies. (A long and varied password can
/// earn more than that, and is then not weak although it is blacklisted.)
pub proof fn lemma_blacklisted_password_is_weak(text: Seq<char>, entries: Option<Set<Seq<char>>>)
    requires
        is_member(entries, text),
        bonus(text) - penalty(completed_evaluation(text, entries).reasons.len()) < 50,
    ensures
        completed_evaluation(text, entries).strength() == PasswordStrength::WEAK,
{
}

/// A blacklisted password pays for at least one deficiency: with bonuses
/// below 60 it is weak.
pub proof fn lemma_blacklisted_password_with_low_bonus_is_weak(
    text: Seq<char>,
    entries: Option<Set<Seq<char>>>,
)
    requires
        is_member(entries, text),
        bonus(text) < 60,
    ensures
        completed_evaluation(text, entries).strength() == PasswordStrength::WEAK,
{
    lemma_first_reason_of_blacklisted(text, entries, 4);
}

/// A password of at least eight characters that holds all four character
/// classes and shows no repetition and no sequence passes the length, the
/// variety and the pattern analyzer, so that the only reason it can be given
/// is the blacklist's.
pub proof fn lemma_well_formed_password_passes(text: Seq<char>, entries: Option<Set<Seq<char>>>)
    requires
        text.len() >= 8,
        has_uppercase(text),
        has_lowercase(text),
        has_digit(text),
        has_special(text),
        !has_repetition(text),
        !has_sequence(text),
    ensures
        length_outcome(text) == SectionOutcome::Passed,
        variety_outcome(text) == SectionOutcome::Passed,
        pattern_outcome(text) == SectionOutcome::Passed,
        completed_evaluation(text, entries).reasons == if is_member(entries, text) {
            seq![blacklisted_reason()]
        } else {
            Seq::<Seq<char>>::empty()
        },
{
    reveal_with_fuel(reasons_after, 5);
    assert(completed_evaluation(text, entries).reasons =~= if is_member(entries, text) {
        seq![blacklisted_reason()]
    } else {
        Seq::<Seq<char>>::empty()
    });
}

/// Every password that stands on a line of the loaded text is blacklisted
/// as it stands there, without the whitespace around it, unless its lower
/// case form is empty.
pub proof fn lemma_listed_password_is_member(text: Seq<char>, start: int, end: int)
    requires
        is_line(text, start, end),
        entry_of(text.subrange(start, end)).len() > 0,
    ensures
        is_member(Some(blacklist_entries(text)), trim(text.subrange(start, end))),
{
}

/// Membership goes by the lower case form alone: two passwords with the same
/// lower case form are both blacklisted or both not.
pub proof fn lemma_membership_ignores_case(
    entries: Option<Set<Seq<char>>>,
    one: Seq<char>,
    other: Seq<char>,
)
    requires
        lowercase(one) == lowercase(other),
    ensures
        is_member(entries, one) == is_member(entries, other),
{
}

/// Initialization is idempotent: after one that succeeded, any further one
/// reports the same count and leaves the store as it is, whatever path and
/// source it is given. The source is not looked at, so the file may be gone.
pub proof fn lemma_init_is_idempotent(
    before: Option<Set<Seq<char>>>,
    path: Seq<char>,
    source: BlacklistSource,
    later_path: Seq<char>,
    later_source: BlacklistSource,
)
    requires
        init_result(before, path, source) is Ok,
    ensures
        init_state(before, source) is Some,
        init_result(init_state(before, source), later_path, later_source) == init_result(
            before,
            path,
            source,
        ),
        init_state(init_state(before, source), later_source) == init_state(before, source),
{
}

/// A loaded store is never changed by an initialization, and a failed
/// initialization leaves an empty store empty.
pub proof fn lemma_init_keeps_loaded_store(
    before: Option<Set<Seq<char>>>,
    path: Seq<char>,
    source: BlacklistSource,
)
    ensures
        before is Some ==> init_state(before, source) == before,
        init_result(before, path, source) is Err ==> init_state(before, source) is None,
        init_result(before, path, source) is Ok <==> init_state(before, source) is Some,
{
}

/// The bonuses of every password lie between 0 and 105, so that only the
/// clamp keeps the best passwords at 100.
pub proof fn lemma_bonus_is_bounded(text: Seq<char>)
    ensures
        0 <= bonus(text) <= 105,
{
}

/// The score of every password lies between 0 and 100, whatever its length
/// and however many deficiencies it has.
pub proof fn lemma_score_is_bounded(text: Seq<char>, reasons: nat)
    ensures
        0 <= score_value(text, reasons) <= 100,
{
}

/// Every evaluation has either no score or one between 0 and 100.
pub proof fn lemma_evaluation_score_is_bounded(progress: Progress, text: Seq<char>)
    ensures
        match evaluation_of(progress, text).score {
            Some(score) => 0 <= score <= 100,
            None => true,
        },
{
}

/// A cancellation seen before the first analyzer leaves the marker of the
/// cancellation as the only reason, no score, and the tier `NotEvaluated`.
pub proof fn lemma_cancelled_before_first_section(
    text: Seq<char>,
    entries: Option<Set<Seq<char>>>,
)
    ensures
        after_step(initial(), true, text, entries).state is Cancelled,
        evaluation_of(after_step(initial(), true, text, entries), text) == cancelled_evaluation(
            text,
            entries,
            0,
        ),
        cancelled_evaluation(text, entries, 0).reasons == seq![cancelled_reason()],
        cancelled_evaluation(text, entries, 0).score is None,
        cancelled_evaluation(text, entries, 0).strength() == PasswordStrength::NotEvaluated,
{
}

/// A cancelled evaluation, wherever it was cancelled, has a reason, no score,
/// and the tier `NotEvaluated`; its last reason is the marker.
pub proof fn lemma_cancelled_evaluation_has_no_score(
    text: Seq<char>,
    entries: Option<Set<Seq<char>>>,
    count: nat,
)
    ensures
        cancelled_evaluation(text, entries, count).reasons.len() >= 1,
        cancelled_evaluation(text, entries, count).reasons.last() == cancelled_reason(),
        cancelled_evaluation(text, entries, count).score is None,
        cancelled_evaluation(text, entries, count).strength() == PasswordStrength::NotEvaluated,
{
}

/// A password without a score is not evaluated, which is no tier of a score:
/// a password with a score is never `NotEvaluated`, and one without is never
/// weak.
pub proof fn lemma_not_evaluated_means_no_score(score: Option<int>)
    ensures
        strength_of(score) == PasswordStrength::NotEvaluated <==> score is None,
        score is Some ==> (strength_of(score) == PasswordStrength::WEAK <==> score->0 < 50),
{
}

/// The tiers follow the scores: of two scores, the higher never falls into a
/// weaker tier, and every score falls into a tier above `NotEvaluated`.
pub proof fn lemma_strength_grows_with_score(lower: int, higher: int)
    requires
        lower <= higher,
    ensures
        tier_rank(strength_of(Some(lower))) <= tier_rank(strength_of(Some(higher))),
        tier_rank(strength_of(None)) < tier_rank(strength_of(Some(lower))),
{
}

/// The evaluation in which all analyzers ran is weak exactly if the bonuses
/// of the password stay less than 50 above the penalty for its deficiencies.
pub proof fn lemma_weak_exactly_below_fifty(text: Seq<char>, entries: Option<Set<Seq<char>>>)
    ensures
        completed_evaluation(text, entries).strength() == PasswordStrength::WEAK <==> bonus(text)
            - penalty(completed_evaluation(text, entries).reasons.len()) < 50,
{
}

/// The states of an evaluation: a step keeps a well-formed evaluation
/// well-formed, leaves an ended one as it is, and ends a running one or moves
/// it on by one analyzer. Reasons are only ever added at the end.
pub proof fn lemma_step_moves_forward(
    progress: Progress,
    cancelled: bool,
    text: Seq<char>,
    entries: Option<Set<Seq<char>>>,
)
    requires
        progress.wf(),
    ensures
        after_step(progress, cancelled, text, entries).wf(),
        !(progress.state is Running) ==> after_step(progress, cancelled, text, entries)
            == progress,
        progress.state is Running ==> {
            let next = after_step(progress, cancelled, text, entries);
            if cancelled {
                next.state is Cancelled && next.done == progress.done
            } else {
                (next.state is Running || next.state is Completed) && next.done == progress.done
                    + 1
            }
        },
        progress.reasons.is_prefix_of(after_step(progress, cancelled, text, entries).reasons),
{
}

/// An analyzer that could not complete ends the evaluation as faulted, with
/// the error marker as its last reason and without a score.
pub proof fn lemma_fatal_outcome_faults(progress: Progress, text: Seq<char>)
    requires
        progress.state is Running,
    ensures
        after_outcome(progress, SectionOutcome::Fatal).state is Faulted,
        evaluation_of(after_outcome(progress, SectionOutcome::Fatal), text).score is None,
        after_outcome(progress, SectionOutcome::Fatal).reasons.last()
            == error_reason(),
        after_cancellation(after_outcome(progress, SectionOutcome::Fatal)) == after_outcome(
            progress,
            SectionOutcome::Fatal,
        ),
{
}

/// Four steps without a cancellation complete an evaluation, and what it then
/// returns is the completed evaluation of the password.
pub proof fn lemma_four_steps_complete(text: Seq<char>, entries: Option<Set<Seq<char>>>)
    ensures
        ({
            let first = after_step(initial(), false, text, entries);
            let second = after_step(first, false, text, entries);
            let third = after_step(second, false, text, entries);
            let fourth = after_step(third, false, text, entries);
            &&& fourth.state is Completed
            &&& evaluation_of(fourth, text) == completed_evaluation(text, entries)
        }),
{
    reveal_with_fuel(reasons_after, 5);
}

} // verus!
