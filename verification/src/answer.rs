use std::collections::HashMap;
use vstd::prelude::*;

verus! {

/// An answer whose type matches the corresponding question.
///
/// The numeric fields (probabilities, confidences, scores) have the type `N`:
/// the library only sorts answers by kind and never computes on these numbers,
/// so it leaves their type to the caller, which decodes them as `f64`.
#[derive(Debug, Clone)]
pub enum Answer<N> {
    /// Answer to a choice question.
    Choice(ChoiceAnswer<N>),
    /// Answer to a score question.
    Score(ScoreAnswer<N>),
    /// Answer to a noul question.
    Noul(NoulAnswer<N>),
}

/// The selected choice, confidence, and probabilities for a choice question.
#[derive(Debug, Clone)]
pub struct ChoiceAnswer<N> {
    /// The name of the choice with the highest probability.
    pub choice: String,
    /// Confidence in the selected choice, from 0 to 1.
    pub confidence: N,
    /// Probability of each choice, keyed by choice name.
    pub probabilities: HashMap<String, N>,
}

/// An expected score with its rubric, confidence, and score-level probabilities.
#[derive(Debug, Clone)]
pub struct ScoreAnswer<N> {
    /// Probability-weighted average of the rubric levels.
    pub score: N,
    /// Confidence in the score, from 0 to 1.
    pub confidence: N,
    /// The requested criteria mapped to their score levels.
    pub legend: HashMap<String, String>,
    /// Probability of each score level.
    pub probabilities: HashMap<String, N>,
}

/// The probability of a yes answer or a true statement.
#[derive(Debug, Clone)]
pub struct NoulAnswer<N> {
    /// Probability of yes/true, from 0 to 1.
    pub noul: N,
}

impl<N> Answer<N> {
    /// Returns the inner [`ChoiceAnswer`] if this is a `Choice` variant.
    pub fn as_choice(&self) -> (r: Option<&ChoiceAnswer<N>>)
        ensures
            match self {
                Answer::Choice(a) => r == Some(a),
                _ => r is None,
            },
    {
        match self {
            Answer::Choice(a) => Some(a),
            _ => None,
        }
    }

    /// Returns the inner [`ScoreAnswer`] if this is a `Score` variant.
    pub fn as_score(&self) -> (r: Option<&ScoreAnswer<N>>)
        ensures
            match self {
                Answer::Score(a) => r == Some(a),
                _ => r is None,
            },
    {
        match self {
            Answer::Score(a) => Some(a),
            _ => None,
        }
    }

    /// Returns the inner [`NoulAnswer`] if this is a `Noul` variant.
    pub fn as_noul(&self) -> (r: Option<&NoulAnswer<N>>)
        ensures
            match self {
                Answer::Noul(a) => r == Some(a),
                _ => r is None,
            },
    {
        match self {
            Answer::Noul(a) => Some(a),
            _ => None,
        }
    }
}

/// Whether no question name occurs twice among `entries`.
pub open spec fn names_distinct<N>(entries: Seq<(String, Answer<N>)>) -> bool {
    forall|i: int, j: int|
        #![trigger entries[i], entries[j]]
        0 <= i < entries.len() && 0 <= j < entries.len() && i != j ==> entries[i].0@ != entries[j].0@
}

/// The position of the entry named `name` among `entries`, where there is one.
pub open spec fn name_position<N>(entries: Seq<(String, Answer<N>)>, name: Seq<char>) -> Option<int> {
    if exists|i: int| #![trigger entries[i]] 0 <= i < entries.len() && entries[i].0@ == name {
        Some(choose|i: int| #![trigger entries[i]] 0 <= i < entries.len() && entries[i].0@ == name)
    } else {
        None
    }
}

/// Answers keyed by question name: each name occurs at most once, and the
/// entries keep the order in which their names were first inserted.
#[derive(Debug)]
pub struct AnswerMap<N> {
    entries: Vec<(String, Answer<N>)>,
}

impl<N> AnswerMap<N> {
    #[verifier::type_invariant]
    spec fn names_unique(self) -> bool {
        names_distinct(self.entries@)
    }

    /// The entries, each a question name with its answer.
    pub closed spec fn entries(&self) -> Seq<(String, Answer<N>)> {
        self.entries@
    }

    /// An empty map.
    pub fn new() -> (m: Self)
        ensures
            m.entries() == Seq::<(String, Answer<N>)>::empty(),
    {
        AnswerMap { entries: Vec::new() }
    }

    /// The number of answers.
    pub fn len(&self) -> (n: usize)
        ensures
            n == self.entries().len(),
    {
        self.entries.len()
    }

    /// The entries, each a question name with its answer; no name occurs twice.
    pub fn as_slice(&self) -> (s: &[(String, Answer<N>)])
        ensures
            s@ == self.entries(),
            names_distinct(self.entries()),
    {
        proof {
            use_type_invariant(self);
        }
        self.entries.as_slice()
    }

    /// Inserts `answer` under `name`. Where `name` is already present, its
    /// answer is replaced in place and the previous answer is returned; else
    /// the entry is appended and `None` is returned.
    pub fn insert(&mut self, name: String, answer: Answer<N>) -> (prev: Option<Answer<N>>)
        ensures
            match name_position(old(self).entries(), name@) {
                Some(i) => final(self).entries() == old(self).entries().update(i, (name, answer))
                    && prev == Some(old(self).entries()[i].1),
                None => final(self).entries() == old(self).entries().push((name, answer))
                    && prev is None,
            },
    {
        proof {
            use_type_invariant(&*self);
        }
        let ghost before = self.entries@;
        let mut entries: Vec<(String, Answer<N>)> = Vec::new();
        std::mem::swap(&mut entries, &mut self.entries);
        assert(entries@ == before);
        let mut i: usize = 0;
        while i < entries.len()
            invariant
                entries@ == before,
                old(self).entries() == before,
                names_distinct(before),
                i <= before.len(),
                forall|j: int| 0 <= j < i ==> #[trigger] before[j].0@ != name@,
            decreases before.len() - i,
        {
            if entries[i].0 == name {
                let mut pair = (name, answer);
                let ghost new_pair = pair;
                entries.set_and_swap(i, &mut pair);
                proof {
                    assert(name_position(before, name@) == Some(i as int)) by {
                        assert(before[i as int].0@ == name@);
                        let k = choose|k: int| #![trigger before[k]] 0 <= k < before.len() && before[k].0@ == name@;
                        if k != i as int {
                            assert(before[k].0@ != before[i as int].0@);
                        }
                    }
                    assert forall|a: int, b: int|
                        #![trigger entries@[a], entries@[b]]
                        0 <= a < entries@.len() && 0 <= b < entries@.len() && a != b implies entries@[a].0@
                        != entries@[b].0@ by {
                        assert(before[a].0@ != before[b].0@);
                    }
                }
                assert(entries@ == before.update(i as int, new_pair));
                assert(pair == before[i as int]);
                self.entries = entries;
                assert(self.entries@ == before.update(i as int, new_pair));
                return Some(pair.1);
            }
            i += 1;
        }
        let ghost new_pair = (name, answer);
        entries.push((name, answer));
        proof {
            assert(name_position(before, name@) is None);
            assert forall|a: int, b: int|
                #![trigger entries@[a], entries@[b]]
                0 <= a < entries@.len() && 0 <= b < entries@.len() && a != b implies entries@[a].0@
                != entries@[b].0@ by {
                if a < before.len() && b < before.len() {
                    assert(before[a].0@ != before[b].0@);
                }
            }
        }
        self.entries = entries;
        None
    }

    /// The answer to the question `name`, where there is one.
    pub fn get(&self, name: &str) -> (r: Option<&Answer<N>>)
        ensures
            match name_position(self.entries(), name@) {
                Some(i) => r matches Some(a) && *a == self.entries()[i].1,
                None => r is None,
            },
    {
        proof {
            use_type_invariant(self);
        }
        let key = name.to_owned();
        let mut i: usize = 0;
        while i < self.entries.len()
            invariant
                names_distinct(self.entries@),
                i <= self.entries@.len(),
                key@ == name@,
                forall|j: int| 0 <= j < i ==> #[trigger] self.entries@[j].0@ != name@,
            decreases self.entries@.len() - i,
        {
            if self.entries[i].0 == key {
                proof {
                    let e = self.entries@;
                    assert(e[i as int].0@ == name@);
                    let k = choose|k: int| #![trigger e[k]] 0 <= k < e.len() && e[k].0@ == name@;
                    if k != i as int {
                        assert(e[k].0@ != e[i as int].0@);
                    }
                }
                return Some(&self.entries[i].1);
            }
            i += 1;
        }
        None
    }
}

impl<N: Clone> Clone for AnswerMap<N> {
    /// A copy with the same question names in the same order, each answer
    /// cloned.
    fn clone(&self) -> (m: Self)
        ensures
            m.entries().len() == self.entries().len(),
            forall|i: int|
                0 <= i < self.entries().len() ==> (#[trigger] m.entries()[i]).0 == self.entries()[i].0
                    && cloned(self.entries()[i].1, m.entries()[i].1),
    {
        proof {
            use_type_invariant(self);
        }
        let mut entries: Vec<(String, Answer<N>)> = Vec::new();
        let mut i: usize = 0;
        while i < self.entries.len()
            invariant
                names_distinct(self.entries@),
                i <= self.entries@.len(),
                entries@.len() == i,
                forall|j: int|
                    0 <= j < i ==> (#[trigger] entries@[j]).0 == self.entries@[j].0 && cloned(
                        self.entries@[j].1,
                        entries@[j].1,
                    ),
            decreases self.entries@.len() - i,
        {
            let name = self.entries[i].0.clone();
            let answer = self.entries[i].1.clone();
            entries.push((name, answer));
            i += 1;
        }
        proof {
            assert forall|a: int, b: int|
                #![trigger entries@[a], entries@[b]]
                0 <= a < entries@.len() && 0 <= b < entries@.len() && a != b implies entries@[a].0@
                != entries@[b].0@ by {
                assert(self.entries@[a].0@ != self.entries@[b].0@);
            }
        }
        AnswerMap { entries }
    }
}

} // verus!
