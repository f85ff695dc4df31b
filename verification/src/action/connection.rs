//! Folding the answers of many instances into one.
//!
//! An instance that cannot be reached, or whose call fails, gives no
//! signal: its outcome is an `Err`, and every strategy passes over it.

use crate::action::ActionError;
use vstd::prelude::*;

verus! {

/// Whether any instance was reached and answered.
pub fn for_each_instance<T>(outcomes: &Vec<Result<T, ActionError>>) -> (any_success: bool)
    ensures
        any_success <==> exists|i: int| 0 <= i < outcomes@.len() && outcomes@[i] is Ok,
{
    let mut any_success = false;
    let mut i: usize = 0;
    while i < outcomes.len()
        invariant
            i <= outcomes.len(),
            any_success <==> exists|j: int| 0 <= j < i && outcomes@[j] is Ok,
        decreases outcomes.len() - i,
    {
        if outcomes[i].is_ok() {
            any_success = true;
        }
        i += 1;
    }
    any_success
}

/// What an operation that was sent to every instance comes to: it
/// succeeded if it did on any instance, and failed as a call otherwise.
pub fn any_success_result(any_success: bool) -> (out: Result<(), ActionError>)
    ensures
        out == (if any_success {
            Ok::<(), ActionError>(())
        } else {
            Err(ActionError::CallFailed)
        }),
{
    if any_success {
        Ok(())
    } else {
        Err(ActionError::CallFailed)
    }
}

/// The values that were present, in the order of the instances.
pub open spec fn present<T>(outcomes: Seq<Result<Option<T>, ActionError>>) -> Seq<T> {
    outcomes.filter_map(
        |o: Result<Option<T>, ActionError>|
            match o {
                Ok(Some(value)) => Some(value),
                _ => None,
            },
    )
}

/// Gathers what the instances returned: failures and absent values are
/// dropped, the rest keeps its order.
pub fn collect_all<T>(outcomes: Vec<Result<Option<T>, ActionError>>) -> (values: Vec<T>)
    ensures
        values@ == present(outcomes@),
{
    let ghost all = outcomes@;
    let mut values: Vec<T> = Vec::new();
    for outcome in it: outcomes.into_iter()
        invariant
            it.seq() == all,
            values@ == present(all.take(it.index() as int)),
    {
        proof {
            all.lemma_filter_map_take_succ(
                |o: Result<Option<T>, ActionError>|
                    match o {
                        Ok(Some(value)) => Some(value),
                        _ => None,
                    },
                it.index() as int,
            );
        }
        match outcome {
            Ok(Some(value)) => {
                values.push(value);
            },
            _ => {},
        }
    }
    proof {
        assert(all.take(all.len() as int) =~= all);
    }
    values
}

/// The state of a fold that may stop before every instance was asked.
pub struct Fold<T> {
    /// What has been accumulated.
    pub acc: T,
    /// Whether the combining function has run at least once.
    pub any_processed: bool,
    /// Whether the combining function has asked to stop.
    pub halted: bool,
}

/// What a fold gives when it ends in `state`: nothing if no instance was
/// processed.
pub open spec fn fold_result<T>(state: Fold<T>) -> Option<T> {
    if state.any_processed {
        Some(state.acc)
    } else {
        None
    }
}

/// One step of a fold: a failed instance leaves the state as it is; an
/// answer is handed to `f` with the accumulator, and the fold halts when
/// `f` says not to continue. A fold that has halted takes nothing in.
pub open spec fn fold_step<T, R, F: Fn(T, &R) -> (T, bool)>(
    f: F,
    before: Fold<T>,
    outcome: Result<R, ActionError>,
    after: Fold<T>,
) -> bool {
    if before.halted {
        after == before
    } else {
        match outcome {
            Err(_) => after == before,
            Ok(answer) => after.any_processed && f.ensures(
                (before.acc, &answer),
                (after.acc, !after.halted),
            ),
        }
    }
}

impl<T> Fold<T> {
    /// A fold that has seen no instance.
    pub fn new(init: T) -> (fold: Self)
        ensures
            fold == (Fold { acc: init, any_processed: false, halted: false }),
    {
        Fold { acc: init, any_processed: false, halted: false }
    }

    /// Whether another instance is to be asked.
    pub fn wants_more(&self) -> (more: bool)
        ensures
            more == !self.halted,
    {
        !self.halted
    }

    /// Takes in the outcome of the next instance.
    pub fn feed<R, F: Fn(T, &R) -> (T, bool)>(self, outcome: &Result<R, ActionError>, f: &F) -> (next:
        Self)
        requires
            forall|acc: T, answer: &R| f.requires((acc, answer)),
        ensures
            fold_step(*f, self, *outcome, next),
    {
        if self.halted {
            return self;
        }
        match outcome {
            Err(_) => self,
            Ok(answer) => {
                let (acc, keep_going) = f(self.acc, answer);
                Fold { acc, any_processed: true, halted: !keep_going }
            },
        }
    }

    /// What the fold gives: nothing if no instance was processed.
    pub fn finish(self) -> (out: Option<T>)
        ensures
            out == fold_result(self),
    {
        if self.any_processed {
            Some(self.acc)
        } else {
            None
        }
    }
}

/// Whether a fold that stands in `state` before `outcomes` can end with
/// `out`: it takes the outcomes one by one until it halts or none is
/// left.
pub open spec fn fold_reaches<T, R, F: Fn(T, &R) -> (T, bool)>(
    f: F,
    outcomes: Seq<Result<R, ActionError>>,
    state: Fold<T>,
    out: Option<T>,
) -> bool
    decreases outcomes.len(),
{
    if state.halted || outcomes.len() == 0 {
        out == fold_result(state)
    } else {
        exists|next: Fold<T>| #[trigger]
            fold_step(f, state, outcomes[0], next) && fold_reaches(
                f,
                outcomes.drop_first(),
                next,
                out,
            )
    }
}

/// Folds the outcomes with `f`, starting from `init`. Failed instances
/// are passed over without calling `f`; the fold stops at the first
/// answer for which `f` returns `false`. The result is `None` if `f` was
/// never called.
pub fn try_fold_instances<T, R, F: Fn(T, &R) -> (T, bool)>(
    outcomes: &Vec<Result<R, ActionError>>,
    init: T,
    f: F,
) -> (out: Option<T>)
    requires
        forall|acc: T, answer: &R| f.requires((acc, answer)),
    ensures
        fold_reaches(f, outcomes@, Fold { acc: init, any_processed: false, halted: false }, out),
{
    let ghost start = Fold { acc: init, any_processed: false, halted: false };
    let mut fold = Fold::new(init);
    let mut i: usize = 0;
    proof {
        assert(outcomes@.skip(0) =~= outcomes@);
    }
    while i < outcomes.len() && fold.wants_more()
        invariant
            i <= outcomes.len(),
            forall|acc: T, answer: &R| f.requires((acc, answer)),
            forall|out: Option<T>| #[trigger]
                fold_reaches(f, outcomes@.skip(i as int), fold, out) ==> fold_reaches(
                    f,
                    outcomes@,
                    start,
                    out,
                ),
        decreases outcomes.len() - i,
    {
        let ghost before = fold;
        fold = fold.feed(&outcomes[i], &f);
        proof {
            let rest = outcomes@.skip(i as int);
            assert(rest.drop_first() =~= outcomes@.skip(i + 1));
            assert forall|out: Option<T>| #[trigger]
                fold_reaches(f, outcomes@.skip(i + 1), fold, out) implies fold_reaches(
                f,
                outcomes@,
                start,
                out,
            ) by {
                assert(fold_step(f, before, rest[0], fold));
                assert(fold_reaches(f, rest, before, out));
            }
        }
        i += 1;
    }
    proof {
        assert(fold_reaches(f, outcomes@.skip(i as int), fold, fold_result(fold)));
    }
    fold.finish()
}

} // verus!
