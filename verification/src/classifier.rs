//! Rewriting the failure of a storage write into the error that a call site
//! declared for the uniqueness constraints that the write violated.

use crate::constraint::{constraints_named, convert_constraint_error, unique_prefix, ConstraintSet};
use crate::error::{Diagnostic, Error, StorageError};
use crate::text::{slice_texts, text_of};
use vstd::prelude::*;

verus! {

/// One entry of a call site's table: the constraints that it expects, and the
/// function that makes the error for their violation out of the cause.
pub struct Stage<F> {
    pub constraints: ConstraintSet,
    pub render: F,
}

/// The constraint sets of the stages, in their order.
pub open spec fn stage_sets<F>(stages: Seq<Stage<F>>) -> Seq<Set<Seq<char>>> {
    stages.map_values(|stage: Stage<F>| stage.constraints@)
}

/// The message of the storage engine that a failure carries. Only a storage
/// failure that the engine itself reported has one.
pub open spec fn engine_message(error: Error) -> Option<Seq<char>> {
    match error {
        Error::Sqlx(cause) => text_of(cause.database_message),
        _ => None,
    }
}

/// The uniqueness constraints that a failure reports as violated, if it is the
/// report of such a violation.
pub open spec fn violated(error: Error) -> Option<Set<Seq<char>>> {
    match engine_message(error) {
        Some(message) => match constraints_named(message) {
            Ok(names) => Some(names),
            Err(_) => None,
        },
        None => None,
    }
}

/// The stage that answers for a failure: the first one whose constraints are
/// exactly those that the failure reports as violated.
pub open spec fn chosen_stage(error: Error, sets: Seq<Set<Seq<char>>>) -> Option<int> {
    match violated(error) {
        Some(names) => sets.index_of_first(names),
        None => None,
    }
}

/// An index that may be absent, as a number.
pub open spec fn place(chosen: Option<usize>) -> Option<int> {
    match chosen {
        Some(i) => Some(i as int),
        None => None,
    }
}

/// A stage answers only for exactly its own constraints: one whose set is a
/// part of the violated constraints, or holds more than they, is passed over,
/// and among the stages with exactly the violated set the first one answers.
pub proof fn lemma_exact_stage_answers(error: Error, sets: Seq<Set<Seq<char>>>)
    ensures
        match chosen_stage(error, sets) {
            Some(i) => 0 <= i < sets.len() && violated(error) == Some(sets[i]) && forall|j: int|
                0 <= j < i ==> violated(error) != Some(#[trigger] sets[j]),
            None => forall|j: int| 0 <= j < sets.len() ==> violated(error) != Some(#[trigger] sets[j]),
        },
{
    if let Some(names) = violated(error) {
        sets.index_of_first_ensures(names);
    }
}

/// The first stage whose constraints are exactly `names`.
pub fn matching_stage<F>(names: &ConstraintSet, stages: &Vec<Stage<F>>) -> (chosen: Option<usize>)
    ensures
        place(chosen) == stage_sets(stages@).index_of_first(names@),
{
    let ghost sets = stage_sets(stages@);
    let mut at: usize = 0;
    while at < stages.len()
        invariant
            at <= stages.len(),
            sets == stage_sets(stages@),
            forall|i: int| 0 <= i < at ==> sets[i] != names@,
        decreases stages.len() - at,
    {
        if stages[at].constraints.same_as(names) {
            proof {
                assert(sets[at as int] == names@);
                sets.index_of_first_ensures(names@);
            }
            return Some(at);
        }
        at += 1;
    }
    proof {
        sets.index_of_first_ensures(names@);
    }
    None
}

/// Whether the storage failure with this cause reports the violation of
/// exactly the constraints `names`.
pub fn reports_violation_of(cause: &StorageError, names: &ConstraintSet) -> (exactly: bool)
    ensures
        exactly == (violated(Error::Sqlx(*cause)) == Some(names@)),
{
    match &cause.database_message {
        Some(message) => match convert_constraint_error(message.as_str()) {
            Ok(found) => found.same_as(names),
            Err(_) => false,
        },
        None => false,
    }
}

/// The stage that answers for the storage failure with this cause, if one does.
pub fn stage_for_cause<F>(cause: &StorageError, stages: &Vec<Stage<F>>) -> (chosen: Option<usize>)
    ensures
        place(chosen) == chosen_stage(Error::Sqlx(*cause), stage_sets(stages@)),
{
    match &cause.database_message {
        Some(message) => match convert_constraint_error(message.as_str()) {
            Ok(names) => matching_stage(&names, stages),
            Err(_) => None,
        },
        None => None,
    }
}

/// The stage that answers for `error`, if one does.
pub fn choose_stage<F>(error: &Error, stages: &Vec<Stage<F>>) -> (chosen: Option<usize>)
    ensures
        place(chosen) == chosen_stage(*error, stage_sets(stages@)),
{
    match error {
        Error::Sqlx(cause) => stage_for_cause(cause, stages),
        _ => None,
    }
}

/// Classifies the outcome of a storage write. A success passes through. So
/// does every failure but the report of a uniqueness violation whose
/// constraints are exactly those of a stage: that one becomes what the first
/// such stage renders from its cause.
pub fn classify<T, F: Fn(&StorageError) -> Error>(
    outcome: Result<T, Error>,
    stages: &Vec<Stage<F>>,
) -> (classified: Result<T, Error>)
    requires
        forall|i: int, cause: StorageError|
            0 <= i < stages.len() ==> #[trigger] call_requires(stages[i].render, (&cause,)),
    ensures
        match outcome {
            Ok(value) => classified == Ok::<T, Error>(value),
            Err(error) => match chosen_stage(error, stage_sets(stages@)) {
                Some(i) => error matches Error::Sqlx(cause) && classified matches Err(rendered)
                    && call_ensures(stages[i].render, (&cause,), rendered),
                None => classified == Err::<T, Error>(error),
            },
        },
{
    match outcome {
        Err(Error::Sqlx(cause)) => match stage_for_cause(&cause, stages) {
            Some(at) => {
                proof {
                    lemma_exact_stage_answers(Error::Sqlx(cause), stage_sets(stages@));
                }
                Err((stages[at].render)(&cause))
            },
            None => Err(Error::Sqlx(cause)),
        },
        other => other,
    }
}

/// Classifies the raw outcome of a storage write. A success passes through.
/// The report of a uniqueness violation whose constraints are exactly those
/// of a stage becomes what the first such stage renders from its cause. Every
/// other failure enters the taxonomy as a storage failure, and only then is
/// its cause reported to the operators, once.
pub fn classify_storage<T, F: Fn(&StorageError) -> Error>(
    outcome: Result<T, StorageError>,
    stages: &Vec<Stage<F>>,
    sink: &mut Vec<Diagnostic>,
) -> (classified: Result<T, Error>)
    requires
        forall|i: int, cause: StorageError|
            0 <= i < stages.len() ==> #[trigger] call_requires(stages[i].render, (&cause,)),
    ensures
        match outcome {
            Ok(value) => classified == Ok::<T, Error>(value) && final(sink)@ == old(sink)@,
            Err(cause) => match chosen_stage(Error::Sqlx(cause), stage_sets(stages@)) {
                Some(i) => classified matches Err(rendered) && call_ensures(
                    stages[i].render,
                    (&cause,),
                    rendered,
                ) && final(sink)@ == old(sink)@,
                None => classified == Err::<T, Error>(Error::Sqlx(cause)) && final(sink)@ == old(
                    sink,
                )@.push(Diagnostic::Storage(cause.detail)),
            },
        },
{
    match outcome {
        Ok(value) => Ok(value),
        Err(cause) => match stage_for_cause(&cause, stages) {
            Some(at) => {
                proof {
                    lemma_exact_stage_answers(Error::Sqlx(cause), stage_sets(stages@));
                }
                Err((stages[at].render)(&cause))
            },
            None => Err(Error::from_storage(cause, sink)),
        },
    }
}

/// Whether `classified` is what one stage makes of `outcome`: the failure that
/// reports the violation of exactly the constraints `names` becomes what `f`
/// renders from its cause, and every other outcome stays as it is.
pub open spec fn rewritten<T, F: FnOnce(&StorageError) -> Error>(
    outcome: Result<T, Error>,
    names: Set<Seq<char>>,
    f: F,
    classified: Result<T, Error>,
) -> bool {
    match outcome {
        Ok(value) => classified == Ok::<T, Error>(value),
        Err(error) => if violated(error) == Some(names) {
            error matches Error::Sqlx(cause) && classified matches Err(rendered) && call_ensures(
                f,
                (&cause,),
                rendered,
            )
        } else {
            classified == Err::<T, Error>(error)
        },
    }
}

/// Classification as a method of the outcome itself, one stage at a call.
pub trait ResultExt<T>: Sized {
    /// The outcome that this value stands for.
    spec fn outcome(self) -> Result<T, Error>;

    /// Turns the report of a uniqueness violation on exactly the constraints
    /// `constraint_names` into the error that `f` renders from its cause. Any
    /// other outcome passes through as it is.
    fn on_unique_constraint_error<F: FnOnce(&StorageError) -> Error>(
        self,
        constraint_names: Vec<&str>,
        f: F,
    ) -> (classified: Result<T, Error>)
        requires
            forall|cause: StorageError| #[trigger] call_requires(f, (&cause,)),
        ensures
            rewritten(self.outcome(), slice_texts(constraint_names@).to_set(), f, classified),
    ;
}

impl<T> ResultExt<T> for Result<T, Error> {
    open spec fn outcome(self) -> Result<T, Error> {
        self
    }

    fn on_unique_constraint_error<F: FnOnce(&StorageError) -> Error>(
        self,
        constraint_names: Vec<&str>,
        f: F,
    ) -> (classified: Result<T, Error>) {
        let expected = ConstraintSet::new(constraint_names);
        match self {
            Err(Error::Sqlx(cause)) => if reports_violation_of(&cause, &expected) {
                Err(f(&cause))
            } else {
                Err(Error::Sqlx(cause))
            },
            other => other,
        }
    }
}

/// A message that does not begin as a uniqueness violation does is answered
/// by no stage, whatever the stages are.
pub proof fn lemma_without_prefix_no_stage(error: Error, sets: Seq<Set<Seq<char>>>)
    requires
        engine_message(error) matches Some(message) && !unique_prefix().is_prefix_of(message),
    ensures
        violated(error) is None,
        chosen_stage(error, sets) is None,
{
}

/// A failure that the storage engine did not itself report is answered by no
/// stage: there is no message to read.
pub proof fn lemma_unreported_failure_no_stage(cause: StorageError, sets: Seq<Set<Seq<char>>>)
    requires
        cause.database_message is None,
    ensures
        chosen_stage(Error::Sqlx(cause), sets) is None,
{
}

/// A failure that is no storage failure is answered by no stage, so to
/// classify what a stage has rendered from a violation leaves it as it is.
pub proof fn lemma_classified_stays(error: Error, sets: Seq<Set<Seq<char>>>)
    requires
        !(error is Sqlx),
    ensures
        chosen_stage(error, sets) is None,
{
}

/// A table of one stage answers exactly for the violation of that stage's
/// constraints: to classify with it is to classify one stage at a call.
pub proof fn lemma_one_stage(error: Error, names: Set<Seq<char>>)
    ensures
        chosen_stage(error, seq![names]) == (if violated(error) == Some(names) {
            Some(0int)
        } else {
            None
        }),
{
    lemma_exact_stage_answers(error, seq![names]);
    assert(seq![names][0] == names);
}

} // verus!
