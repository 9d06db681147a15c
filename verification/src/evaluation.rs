//! The result of one evaluation: the deficiencies found, and the score where
//! the evaluation ran to its end.

use crate::score::strength_of;
use crate::score::PasswordScore;
use crate::score::PasswordStrength;
use crate::text::texts;
use vstd::prelude::*;

verus! {

/// What one evaluation of a password came to.
#[derive(Clone, Debug)]
pub struct PasswordEvaluation {
    /// The score, absent where the evaluation was cancelled or an analyzer
    /// could not complete.
    pub score: Option<PasswordScore>,
    /// The deficiencies in the order in which the analyzers ran, then the
    /// marker of a cancellation or of an error, if there was one.
    pub reasons: Vec<String>,
}

/// An evaluation as mathematics: the score as an integer, the reasons as
/// sequences of characters.
pub struct EvaluationView {
    pub score: Option<int>,
    pub reasons: Seq<Seq<char>>,
}

impl EvaluationView {
    /// The tier of the evaluation.
    pub open spec fn strength(self) -> PasswordStrength {
        strength_of(self.score)
    }
}

impl View for PasswordEvaluation {
    type V = EvaluationView;

    open spec fn view(&self) -> EvaluationView {
        EvaluationView {
            score: match self.score {
                Some(score) => Some(score@),
                None => None,
            },
            reasons: texts(self.reasons@),
        }
    }
}

impl PasswordEvaluation {
    /// The tier of the password: that of its score, or `NotEvaluated` where
    /// there is no score.
    pub fn strength(&self) -> (strength: PasswordStrength)
        ensures
            strength == self@.strength(),
            strength == PasswordStrength::NotEvaluated <==> self.score is None,
    {
        match &self.score {
            Some(score) => score.strength(),
            None => PasswordStrength::NotEvaluated,
        }
    }
}

} // verus!
