use std::collections::HashMap;
use vstd::prelude::*;

verus! {

/// A question to ask about the content supplied in `state`.
///
/// Three question types are supported:
/// - [`Question::Choice`] picks one option from named criteria.
/// - [`Question::Score`] rates on a scale described by ordered criteria.
/// - [`Question::Noul`] answers a true/false question with a probability.
#[allow(inconsistent_fields)]
#[derive(Debug, Clone)]
pub enum Question {
    /// Picks one option from named criteria.
    Choice {
        /// What the model should decide when choosing an option.
        instructions: Option<String>,
        /// Choice names and descriptions of when each applies.
        criteria: HashMap<String, String>,
    },
    /// Rates on a scale described by ordered criteria.
    Score {
        /// What the model should rate.
        instructions: Option<String>,
        /// Ordered descriptions of the score levels (index = score).
        criteria: Vec<String>,
    },
    /// Answers a yes/no question with a probability.
    Noul {
        /// The yes/no question or statement to evaluate.
        instructions: Option<String>,
        /// Criteria clarifying what counts as a yes or no answer.
        criteria: Option<NoulCriteria>,
    },
}

/// Criteria defining what counts as a yes or no answer.
///
/// On the wire the two fields are named `true` and `false`.
#[derive(Debug, Clone)]
pub struct NoulCriteria {
    /// What counts as a yes answer.
    pub when_true: String,
    /// What counts as a no answer.
    pub when_false: String,
}

impl Question {
    /// Create a choice question.
    pub fn choice(instructions: &str, criteria: HashMap<String, String>) -> (q: Self)
        ensures
            q matches Question::Choice { instructions: Some(i), criteria: c } && i@ == instructions@
                && c == criteria,
    {
        Question::Choice { instructions: Some(instructions.to_owned()), criteria }
    }

    /// Create a score question.
    pub fn score(instructions: &str, criteria: Vec<String>) -> (q: Self)
        ensures
            q matches Question::Score { instructions: Some(i), criteria: c } && i@ == instructions@
                && c == criteria,
    {
        Question::Score { instructions: Some(instructions.to_owned()), criteria }
    }

    /// Create a noul (yes/no) question.
    pub fn noul(instructions: &str, criteria: Option<NoulCriteria>) -> (q: Self)
        ensures
            q matches Question::Noul { instructions: Some(i), criteria: c } && i@ == instructions@
                && c == criteria,
    {
        Question::Noul { instructions: Some(instructions.to_owned()), criteria }
    }
}

impl NoulCriteria {
    /// Create noul criteria from true/false descriptions.
    pub fn new(when_true: &str, when_false: &str) -> (c: Self)
        ensures
            c.when_true@ == when_true@,
            c.when_false@ == when_false@,
    {
        NoulCriteria { when_true: when_true.to_owned(), when_false: when_false.to_owned() }
    }
}

} // verus!
