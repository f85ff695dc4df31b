//! One status for a file from the answers of all instances.
//!
//! The instances are asked in turn, and the asking stops at the first one
//! that reports unsaved changes: from then on the answer to "may the file
//! be overwritten?" cannot change. What was learned up to that point is
//! combined by a logical or of each field. An instance behind that point
//! is never asked, so `is_current` may miss an instance that shows the
//! file; `has_unsaved_changes` misses nothing.

use crate::action::connection::{fold_reaches, fold_step, try_fold_instances, Fold};
use crate::action::{ActionError, BufferStatus};
use vstd::prelude::*;

verus! {

/// The status that says nothing: not shown anywhere, nothing unsaved.
pub open spec fn no_signal() -> BufferStatus {
    BufferStatus { is_current: false, has_unsaved_changes: false }
}

/// Field by field, what either status reports.
pub open spec fn merged(a: BufferStatus, b: BufferStatus) -> BufferStatus {
    BufferStatus {
        is_current: a.is_current || b.is_current,
        has_unsaved_changes: a.has_unsaved_changes || b.has_unsaved_changes,
    }
}

/// Whether an instance answered that the file has unsaved changes.
pub open spec fn reports_unsaved(outcome: Result<BufferStatus, ActionError>) -> bool {
    outcome matches Ok(status) && status.has_unsaved_changes
}

/// Whether an instance answered that the file is in the buffer it shows.
pub open spec fn reports_current(outcome: Result<BufferStatus, ActionError>) -> bool {
    outcome matches Ok(status) && status.is_current
}

/// How many of the outcomes are looked at: all up to and including the
/// first that reports unsaved changes.
pub open spec fn consulted(outcomes: Seq<Result<BufferStatus, ActionError>>) -> nat
    decreases outcomes.len(),
{
    if outcomes.len() == 0 {
        0
    } else if reports_unsaved(outcomes[0]) {
        1
    } else {
        1 + consulted(outcomes.drop_first())
    }
}

/// What every instance together reports: the logical or of each field
/// over the instances that answered.
pub open spec fn union_status(outcomes: Seq<Result<BufferStatus, ActionError>>) -> BufferStatus {
    BufferStatus {
        is_current: exists|i: int| 0 <= i < outcomes.len() && reports_current(outcomes[i]),
        has_unsaved_changes: exists|i: int| 0 <= i < outcomes.len() && reports_unsaved(outcomes[i]),
    }
}

/// The status that the fold arrives at: what the consulted instances
/// together report.
pub open spec fn aggregated(outcomes: Seq<Result<BufferStatus, ActionError>>) -> BufferStatus {
    union_status(outcomes.take(consulted(outcomes) as int))
}

/// Adds one instance's answer to what was accumulated, and says whether
/// to go on: not once unsaved changes are known.
pub fn combine_status(acc: BufferStatus, status: &BufferStatus) -> (next: (BufferStatus, bool))
    ensures
        next.0 == merged(acc, *status),
        next.1 == !next.0.has_unsaved_changes,
{
    let combined = BufferStatus {
        is_current: acc.is_current || status.is_current,
        has_unsaved_changes: acc.has_unsaved_changes || status.has_unsaved_changes,
    };
    (combined, !combined.has_unsaved_changes)
}

/// The status that a finished fold stands for: without any answer, the
/// one that says nothing.
pub fn settle_status(folded: Option<BufferStatus>) -> (status: BufferStatus)
    ensures
        status == (match folded {
            Some(s) => s,
            None => no_signal(),
        }),
{
    match folded {
        Some(s) => s,
        None => BufferStatus { is_current: false, has_unsaved_changes: false },
    }
}

/// The status of a file over all instances, from their outcomes in the
/// order in which the instances were asked.
///
/// Unsaved changes are reported exactly when some instance reports
/// them, whatever the order. As long as none does, every instance is
/// consulted and the file is reported as current exactly when it is
/// current in some instance. Once one does, `is_current` says what was
/// seen up to that instance only.
pub fn aggregate_status(outcomes: &Vec<Result<BufferStatus, ActionError>>) -> (status: BufferStatus)
    ensures
        status == aggregated(outcomes@),
        status.has_unsaved_changes == union_status(outcomes@).has_unsaved_changes,
        status.is_current ==> union_status(outcomes@).is_current,
        !status.has_unsaved_changes ==> consulted(outcomes@) == outcomes@.len() && status
            == union_status(outcomes@),
{
    let init = BufferStatus { is_current: false, has_unsaved_changes: false };
    let folded = try_fold_instances(outcomes, init, combine_status);
    proof {
        lemma_status_fold(
            combine_status,
            outcomes@,
            Fold { acc: init, any_processed: false, halted: false },
            folded,
        );
        law_aggregated_within_union(outcomes@);
    }
    settle_status(folded)
}

/// The number of consulted outcomes is within the sequence, and none
/// before the last consulted one reports unsaved changes.
pub proof fn lemma_consulted(outcomes: Seq<Result<BufferStatus, ActionError>>)
    ensures
        consulted(outcomes) <= outcomes.len(),
        forall|i: int| 0 <= i < consulted(outcomes) - 1 ==> !reports_unsaved(#[trigger] outcomes[i]),
        consulted(outcomes) < outcomes.len() ==> reports_unsaved(
            outcomes[consulted(outcomes) - 1],
        ),
        (exists|i: int| 0 <= i < outcomes.len() && reports_unsaved(outcomes[i])) ==> consulted(
            outcomes,
        ) >= 1 && reports_unsaved(outcomes[consulted(outcomes) - 1]),
    decreases outcomes.len(),
{
    if outcomes.len() > 0 && !reports_unsaved(outcomes[0]) {
        let rest = outcomes.drop_first();
        lemma_consulted(rest);
        assert forall|i: int| 0 <= i < consulted(outcomes) - 1 implies !reports_unsaved(
            #[trigger] outcomes[i],
        ) by {
            if i > 0 {
                assert(outcomes[i] == rest[i - 1]);
            }
        }
        if exists|i: int| 0 <= i < outcomes.len() && reports_unsaved(outcomes[i]) {
            let i = choose|i: int| 0 <= i < outcomes.len() && reports_unsaved(outcomes[i]);
            assert(rest[i - 1] == outcomes[i]);
            assert(rest[consulted(rest) - 1] == outcomes[consulted(outcomes) - 1]);
        }
        if consulted(outcomes) < outcomes.len() {
            assert(rest[consulted(rest) - 1] == outcomes[consulted(outcomes) - 1]);
        }
    }
}

/// What one more outcome in front does to the aggregated status.
pub proof fn lemma_aggregated_cons(
    first: Result<BufferStatus, ActionError>,
    rest: Seq<Result<BufferStatus, ActionError>>,
)
    ensures
        aggregated(seq![first] + rest) == (match first {
            Err(_) => aggregated(rest),
            Ok(status) => if status.has_unsaved_changes {
                status
            } else {
                merged(status, aggregated(rest))
            },
        }),
{
    let whole = seq![first] + rest;
    assert(whole.drop_first() =~= rest);
    assert(whole[0] == first);
    let seen = whole.take(consulted(whole) as int);
    lemma_consulted(rest);
    if reports_unsaved(first) {
        assert(seen =~= seq![first]);
        assert(reports_unsaved(seen[0]));
        assert(union_status(seen).is_current == reports_current(first)) by {
            if union_status(seen).is_current {
                let i = choose|i: int| 0 <= i < seen.len() && reports_current(seen[i]);
                assert(i == 0);
            }
            if reports_current(first) {
                assert(reports_current(seen[0]));
            }
        }
    } else {
        let seen_rest = rest.take(consulted(rest) as int);
        assert(seen =~= seq![first] + seen_rest);
        assert(union_status(seen).is_current == (reports_current(first) || union_status(
            seen_rest,
        ).is_current)) by {
            if union_status(seen).is_current {
                let i = choose|i: int| 0 <= i < seen.len() && reports_current(seen[i]);
                if i > 0 {
                    assert(reports_current(seen_rest[i - 1]));
                }
            }
            if reports_current(first) {
                assert(reports_current(seen[0]));
            }
            if union_status(seen_rest).is_current {
                let i = choose|i: int| 0 <= i < seen_rest.len() && reports_current(seen_rest[i]);
                assert(reports_current(seen[i + 1]));
            }
        }
        assert(union_status(seen).has_unsaved_changes == union_status(
            seen_rest,
        ).has_unsaved_changes) by {
            if union_status(seen).has_unsaved_changes {
                let i = choose|i: int| 0 <= i < seen.len() && reports_unsaved(seen[i]);
                assert(i > 0);
                assert(reports_unsaved(seen_rest[i - 1]));
            }
            if union_status(seen_rest).has_unsaved_changes {
                let i = choose|i: int| 0 <= i < seen_rest.len() && reports_unsaved(seen_rest[i]);
                assert(reports_unsaved(seen[i + 1]));
            }
        }
    }
}

/// Whether `f` combines as `combine_status` does.
pub open spec fn combines_status<F: Fn(BufferStatus, &BufferStatus) -> (BufferStatus, bool)>(
    f: F,
) -> bool {
    forall|acc: BufferStatus, status: &BufferStatus, next: (BufferStatus, bool)| #[trigger]
        f.ensures((acc, status), next) ==> next.0 == merged(acc, *status) && next.1
            == !next.0.has_unsaved_changes
}

/// Every end that a fold with the status combiner can reach from a state
/// without unsaved changes is the accumulator merged with the aggregated
/// status of what is left, and is `None` only if nothing was processed
/// before and no instance answers.
pub proof fn lemma_status_fold<F: Fn(BufferStatus, &BufferStatus) -> (BufferStatus, bool)>(
    f: F,
    outcomes: Seq<Result<BufferStatus, ActionError>>,
    state: Fold<BufferStatus>,
    out: Option<BufferStatus>,
)
    requires
        combines_status(f),
        fold_reaches(f, outcomes, state, out),
        !state.halted,
        !state.acc.has_unsaved_changes,
        !state.any_processed ==> state.acc == no_signal(),
    ensures
        out matches Some(status) ==> status == merged(state.acc, aggregated(outcomes)),
        out is None ==> aggregated(outcomes) == no_signal() && state.acc == no_signal(),
    decreases outcomes.len(),
{
    if outcomes.len() == 0 {
        assert(outcomes.take(0) =~= outcomes);
    } else {
        let rest = outcomes.drop_first();
        assert(outcomes =~= seq![outcomes[0]] + rest);
        lemma_aggregated_cons(outcomes[0], rest);
        let next = choose|next: Fold<BufferStatus>| #[trigger]
            fold_step(f, state, outcomes[0], next) && fold_reaches(f, rest, next, out);
        if !next.halted {
            lemma_status_fold(f, rest, next, out);
        }
    }
}

/// What is reported by an outcome of `a` is reported by an outcome of
/// `b`, if `b` holds the same outcomes.
proof fn lemma_union_carries_over(
    a: Seq<Result<BufferStatus, ActionError>>,
    b: Seq<Result<BufferStatus, ActionError>>,
)
    requires
        a.to_multiset() == b.to_multiset(),
    ensures
        union_status(a).is_current ==> union_status(b).is_current,
        union_status(a).has_unsaved_changes ==> union_status(b).has_unsaved_changes,
{
    a.to_multiset_ensures();
    b.to_multiset_ensures();
    if union_status(a).is_current {
        let i = choose|i: int| 0 <= i < a.len() && reports_current(a[i]);
        assert(a.contains(a[i]));
        assert(a.to_multiset().count(a[i]) > 0);
        assert(b.to_multiset().count(a[i]) > 0);
        assert(b.contains(a[i]));
        let j = choose|j: int| 0 <= j < b.len() && b[j] == a[i];
        assert(reports_current(b[j]));
    }
    if union_status(a).has_unsaved_changes {
        let i = choose|i: int| 0 <= i < a.len() && reports_unsaved(a[i]);
        assert(a.contains(a[i]));
        assert(a.to_multiset().count(a[i]) > 0);
        assert(b.to_multiset().count(a[i]) > 0);
        assert(b.contains(a[i]));
        let j = choose|j: int| 0 <= j < b.len() && b[j] == a[i];
        assert(reports_unsaved(b[j]));
    }
}

/// What all instances together report does not depend on the order in
/// which they are listed.
pub proof fn law_union_is_order_independent(
    a: Seq<Result<BufferStatus, ActionError>>,
    b: Seq<Result<BufferStatus, ActionError>>,
)
    requires
        a.to_multiset() == b.to_multiset(),
    ensures
        union_status(a) == union_status(b),
{
    lemma_union_carries_over(a, b);
    lemma_union_carries_over(b, a);
}

/// The aggregated status against what all instances together report:
/// unsaved changes are reported exactly; a file that is reported as
/// current is current somewhere; and as long as nothing is unsaved, every
/// instance was consulted and the two agree.
pub proof fn law_aggregated_within_union(outcomes: Seq<Result<BufferStatus, ActionError>>)
    ensures
        aggregated(outcomes).has_unsaved_changes == union_status(outcomes).has_unsaved_changes,
        aggregated(outcomes).is_current ==> union_status(outcomes).is_current,
        !aggregated(outcomes).has_unsaved_changes ==> consulted(outcomes) == outcomes.len()
            && aggregated(outcomes) == union_status(outcomes),
{
    lemma_consulted(outcomes);
    let n = consulted(outcomes) as int;
    let seen = outcomes.take(n);
    if union_status(seen).is_current {
        let i = choose|i: int| 0 <= i < seen.len() && reports_current(seen[i]);
        assert(reports_current(outcomes[i]));
    }
    if union_status(seen).has_unsaved_changes {
        let i = choose|i: int| 0 <= i < seen.len() && reports_unsaved(seen[i]);
        assert(reports_unsaved(outcomes[i]));
    }
    if union_status(outcomes).has_unsaved_changes {
        assert(reports_unsaved(seen[n - 1]));
    } else {
        assert(seen =~= outcomes);
    }
}

/// The order in which the instances are asked does not change whether
/// unsaved changes are reported; and when none are, it does not change
/// the aggregated status at all.
pub proof fn law_aggregation_is_order_independent(
    a: Seq<Result<BufferStatus, ActionError>>,
    b: Seq<Result<BufferStatus, ActionError>>,
)
    requires
        a.to_multiset() == b.to_multiset(),
    ensures
        aggregated(a).has_unsaved_changes == aggregated(b).has_unsaved_changes,
        !aggregated(a).has_unsaved_changes ==> aggregated(a) == aggregated(b),
{
    law_union_is_order_independent(a, b);
    law_aggregated_within_union(a);
    law_aggregated_within_union(b);
}

/// Once an instance has reported unsaved changes, no later instance is
/// consulted, and nothing that a later instance would answer changes the
/// aggregated status.
pub proof fn law_nothing_is_consulted_after_unsaved(
    head: Seq<Result<BufferStatus, ActionError>>,
    tail: Seq<Result<BufferStatus, ActionError>>,
)
    requires
        aggregated(head).has_unsaved_changes,
    ensures
        consulted(head + tail) == consulted(head),
        aggregated(head + tail) == aggregated(head),
    decreases head.len(),
{
    if head.len() == 0 {
        assert(head.take(0) =~= head);
    } else {
        let rest = head.drop_first();
        assert(head =~= seq![head[0]] + rest);
        assert((head + tail).drop_first() =~= rest + tail);
        assert(head + tail =~= seq![head[0]] + (rest + tail));
        lemma_aggregated_cons(head[0], rest);
        lemma_aggregated_cons(head[0], rest + tail);
        if !reports_unsaved(head[0]) {
            law_nothing_is_consulted_after_unsaved(rest, tail);
        }
    }
}

/// A fold with the status combiner halts exactly when its accumulator
/// shows unsaved changes.
pub proof fn law_fold_halts_on_unsaved<F: Fn(BufferStatus, &BufferStatus) -> (BufferStatus, bool)>(
    f: F,
    before: Fold<BufferStatus>,
    status: BufferStatus,
    after: Fold<BufferStatus>,
)
    requires
        combines_status(f),
        !before.halted,
        fold_step(f, before, Ok(status), after),
    ensures
        after.acc == merged(before.acc, status),
        after.halted == after.acc.has_unsaved_changes,
{
}

} // verus!
