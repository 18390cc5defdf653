//! What holds of building, refreshing and reloading, for all inputs.

use vstd::prelude::*;
use crate::config::QuerySpec;
use crate::instrument::{label_key, metric_id, no_children, pairs_up};
use crate::metrics::{
    collides, collision_free, fresh_bindings, sample_count, shaped, BindingView, Instrument,
    MetricBuildError,
};
use crate::refresh::{
    apply_rows, refresh_binding, refresh_bindings, row_usable, row_values, scalar_sample,
    OutcomeView, RowView,
};
use crate::reload::{outcome_of, served_after, Rebuild, ReloadOutcome};
use crate::state::{build_fails_with, can_build, spec_names, AppState};

verus! {

/// A build that fails could not have succeeded: the queries from
/// which a metric set can be built are exactly those on which no failure is
/// reported.
pub proof fn lemma_failure_excludes_build(specs: Seq<QuerySpec>, error: MetricBuildError)
    requires
        build_fails_with(specs, error),
    ensures
        !can_build(specs),
{
}

/// A freshly built metric set has one binding per query, in order
/// and of the shape the query asks for. A scalar binding contributes
/// one sample from the start; a vector binding contributes one per child,
/// and has none yet.
pub proof fn lemma_build_covers_queries(specs: Seq<QuerySpec>)
    ensures
        fresh_bindings(specs).len() == specs.len(),
        forall|i: int|
            0 <= i < specs.len() ==> {
                &&& (#[trigger] fresh_bindings(specs)[i]).spec == specs[i]
                &&& shaped(fresh_bindings(specs)[i])
                &&& sample_count(fresh_bindings(specs)[i]) == if specs[i].is_scalar() {
                    1nat
                } else {
                    0nat
                }
            },
{
    assert forall|i: int| 0 <= i < specs.len() implies sample_count(
        #[trigger] fresh_bindings(specs)[i],
    ) == if specs[i].is_scalar() {
        1nat
    } else {
        0nat
    } by {
        assert(no_children().dom() =~= Set::<u64>::empty());
    }
}

/// No metric set can be built from queries of which two share a
/// name.
pub proof fn lemma_shared_name_cannot_build(specs: Seq<QuerySpec>, i: int, j: int)
    requires
        0 <= i < j < specs.len(),
        specs[i].name == specs[j].name,
    ensures
        !can_build(specs),
{
    let names = spec_names(specs);
    assert(metric_id(names[i]) == metric_id(names[j]));
    assert(collides(Set::<u64>::empty(), names, j));
}

/// Queries from which a metric set can be built have pairwise
/// different names.
pub proof fn lemma_buildable_names_differ(specs: Seq<QuerySpec>, i: int, j: int)
    requires
        can_build(specs),
        0 <= i < j < specs.len(),
    ensures
        specs[i].name != specs[j].name,
{
    if specs[i].name == specs[j].name {
        lemma_shared_name_cannot_build(specs, i, j);
    }
}

/// A refresh neither adds nor removes a binding, and leaves every binding
/// its query and its shape: only what the instruments hold changes.
pub proof fn lemma_refresh_keeps_queries(bindings: Seq<BindingView>, outcomes: Seq<OutcomeView>)
    ensures
        refresh_bindings(bindings, outcomes).len() == bindings.len(),
        forall|i: int|
            0 <= i < bindings.len() ==> {
                &&& (#[trigger] refresh_bindings(bindings, outcomes)[i]).spec == bindings[i].spec
                &&& refresh_bindings(bindings, outcomes)[i].instrument is Scalar
                    <==> bindings[i].instrument is Scalar
            },
{
}

/// What a binding holds after a refresh depends on what it held before and
/// on the outcome of its own query, and on nothing else.
pub proof fn lemma_refresh_is_per_binding(
    bindings: Seq<BindingView>,
    outcomes: Seq<OutcomeView>,
    others: Seq<BindingView>,
    other_outcomes: Seq<OutcomeView>,
    i: int,
)
    requires
        0 <= i < bindings.len(),
        0 <= i < others.len(),
        bindings[i] == others[i],
        i < outcomes.len() <==> i < other_outcomes.len(),
        i < outcomes.len() ==> outcomes[i] == other_outcomes[i],
    ensures
        refresh_bindings(bindings, outcomes)[i] == refresh_bindings(others, other_outcomes)[i],
{
}

/// Applying the same outcomes a second time changes nothing.
pub proof fn lemma_refresh_is_idempotent(bindings: Seq<BindingView>, outcomes: Seq<OutcomeView>)
    ensures
        refresh_bindings(refresh_bindings(bindings, outcomes), outcomes) == refresh_bindings(
            bindings,
            outcomes,
        ),
{
    assert(refresh_bindings(refresh_bindings(bindings, outcomes), outcomes) =~= refresh_bindings(
        bindings,
        outcomes,
    ));
}

/// A scalar binding keeps its sample through a refresh that brings it no
/// sample: a failed query, no row, more than one row, or a value that cannot
/// be read.
pub proof fn lemma_scalar_keeps_value_without_sample(b: BindingView, outcome: OutcomeView)
    requires
        b.instrument is Scalar,
        scalar_sample(outcome) is None,
    ensures
        refresh_binding(b, outcome) == b,
{
}

/// A scalar binding whose query returns no rows stays as it was, and every
/// other binding gets what its own outcome gives, whatever this one's was.
pub proof fn lemma_scalar_without_rows_keeps_value(
    bindings: Seq<BindingView>,
    outcomes: Seq<OutcomeView>,
    i: int,
)
    requires
        0 <= i < bindings.len(),
        i < outcomes.len(),
        bindings[i].instrument is Scalar,
        outcomes[i] == OutcomeView::Rows(Seq::<RowView>::empty()),
    ensures
        refresh_bindings(bindings, outcomes).len() == bindings.len(),
        refresh_bindings(bindings, outcomes)[i] == bindings[i],
        forall|j: int|
            0 <= j < bindings.len() && j != i ==> #[trigger] refresh_bindings(bindings, outcomes)[j]
                == if j < outcomes.len() {
                refresh_binding(bindings[j], outcomes[j])
            } else {
                bindings[j]
            },
{
}

/// What a vector binding holds after a refresh does not depend on what it
/// held before: a second refresh wipes out the first.
pub proof fn lemma_vector_refresh_forgets(b: BindingView, first: OutcomeView, second: OutcomeView)
    requires
        b.instrument is Vector,
    ensures
        refresh_binding(refresh_binding(b, first), second) == refresh_binding(b, second),
{
}

/// Every child of a family that was filled from rows stems from a row that
/// could be read: the child is filed under that row's key and carries that
/// row's label values.
pub proof fn lemma_children_come_from_rows(rows: Seq<RowView>, width: nat, key: u64)
    requires
        apply_rows(no_children(), rows, width).contains_key(key),
    ensures
        exists|i: int|
            0 <= i < rows.len() && row_usable(#[trigger] rows[i], width) && label_key(
                row_values(rows[i]),
            ) == key && apply_rows(no_children(), rows, width)[key].0 == row_values(rows[i]),
    decreases rows.len(),
{
    if rows.len() > 0 {
        let before = rows.drop_last();
        let last = rows.last();
        let earlier = apply_rows(no_children(), before, width);
        if row_usable(last, width) && label_key(row_values(last)) == key && !earlier.contains_key(
            key,
        ) {
            assert(rows[rows.len() - 1] == last);
        } else {
            assert(earlier.contains_key(key));
            lemma_children_come_from_rows(before, width, key);
            let i = choose|i: int|
                0 <= i < before.len() && row_usable(#[trigger] before[i], width) && label_key(
                    row_values(before[i]),
                ) == key && earlier[key].0 == row_values(before[i]);
            assert(rows[i] == before[i]);
        }
    }
}

/// The label pairs of a family with a single label are that label with its
/// value, and nothing else.
pub proof fn lemma_one_label_one_pair(
    pairs: Seq<(Seq<char>, Seq<char>)>,
    names: Seq<Seq<char>>,
    values: Seq<Seq<char>>,
)
    requires
        pairs_up(pairs, names, values),
        names.len() == 1,
    ensures
        pairs == seq![(names[0], values[0])],
{
    let p = choose|p: int| 0 <= p < pairs.len() && #[trigger] pairs[p] == (names[0], values[0]);
    assert(pairs =~= seq![(names[0], values[0])]);
}

/// Label values that read the same when they are run together are filed
/// under the same key, and so they share one child.
pub proof fn lemma_values_run_together_share_key(first: Seq<Seq<char>>, second: Seq<Seq<char>>)
    requires
        first.flatten() == second.flatten(),
    ensures
        label_key(first) == label_key(second),
{
}

/// The rows can all be read and no two of them share a key.
pub open spec fn rows_apart(rows: Seq<RowView>, width: nat) -> bool {
    &&& forall|i: int| 0 <= i < rows.len() ==> row_usable(#[trigger] rows[i], width)
    &&& forall|i: int, j: int|
        0 <= i < j < rows.len() ==> label_key(row_values(#[trigger] rows[i])) != label_key(
            row_values(#[trigger] rows[j]),
        )
}

/// Where every row can be read and no two rows share a key, a family that
/// is filled from the rows has exactly one child per row, and the child
/// carries the label values and the sample of its row.
pub proof fn lemma_rows_apart_one_child_each(rows: Seq<RowView>, width: nat)
    requires
        rows_apart(rows, width),
    ensures
        apply_rows(no_children(), rows, width).dom().finite(),
        apply_rows(no_children(), rows, width).dom().len() == rows.len(),
        forall|i: int|
            0 <= i < rows.len() ==> {
                &&& apply_rows(no_children(), rows, width).contains_key(
                    label_key(row_values(#[trigger] rows[i])),
                )
                &&& apply_rows(no_children(), rows, width)[label_key(row_values(rows[i]))] == (
                    row_values(rows[i]),
                    rows[i].value->Some_0,
                )
            },
        forall|key: u64| #[trigger]
            apply_rows(no_children(), rows, width).contains_key(key) ==> exists|i: int|
                0 <= i < rows.len() && label_key(row_values(#[trigger] rows[i])) == key,
    decreases rows.len(),
{
    let after = apply_rows(no_children(), rows, width);
    if rows.len() == 0 {
        assert(after.dom() =~= Set::<u64>::empty());
    } else {
        let before = rows.drop_last();
        let last = rows.last();
        let earlier = apply_rows(no_children(), before, width);
        let last_key = label_key(row_values(last));
        assert forall|i: int| 0 <= i < before.len() implies row_usable(
            #[trigger] before[i],
            width,
        ) by {
            assert(before[i] == rows[i]);
        }
        assert forall|i: int, j: int| 0 <= i < j < before.len() implies label_key(
            row_values(#[trigger] before[i]),
        ) != label_key(row_values(#[trigger] before[j])) by {
            assert(before[i] == rows[i]);
            assert(before[j] == rows[j]);
        }
        lemma_rows_apart_one_child_each(before, width);
        assert(row_usable(rows[rows.len() - 1], width));
        assert(!earlier.contains_key(last_key)) by {
            if earlier.contains_key(last_key) {
                let i = choose|i: int|
                    0 <= i < before.len() && label_key(row_values(#[trigger] before[i]))
                        == last_key;
                assert(before[i] == rows[i]);
                assert(rows[rows.len() - 1] == last);
            }
        }
        assert(after == earlier.insert(last_key, (row_values(last), last.value->Some_0)));
        assert(after.dom() =~= earlier.dom().insert(last_key));
        assert forall|i: int| 0 <= i < rows.len() implies after.contains_key(
            label_key(row_values(#[trigger] rows[i])),
        ) && after[label_key(row_values(rows[i]))] == (row_values(rows[i]), rows[i].value->Some_0) by {
            if i < before.len() {
                assert(before[i] == rows[i]);
                assert(earlier.contains_key(label_key(row_values(before[i]))));
            }
        }
        assert forall|key: u64| #[trigger] after.contains_key(key) implies exists|i: int|
            0 <= i < rows.len() && label_key(row_values(#[trigger] rows[i])) == key by {
            if key == last_key {
                assert(rows[rows.len() - 1] == last);
            } else {
                assert(earlier.contains_key(key));
                let i = choose|i: int|
                    0 <= i < before.len() && label_key(row_values(#[trigger] before[i])) == key;
                assert(before[i] == rows[i]);
            }
        }
    }
}

/// After two refreshes of a vector binding, label values that no readable
/// row of the second result carries are carried by no child: what only the
/// first result held is gone.
pub proof fn lemma_missing_combination_is_absent(
    b: BindingView,
    first: OutcomeView,
    second: Seq<RowView>,
    values: Seq<Seq<char>>,
)
    requires
        b.instrument is Vector,
        forall|i: int|
            0 <= i < second.len() && row_usable(#[trigger] second[i], b.spec.label_columns.len())
                ==> row_values(second[i]) != values,
    ensures
        refresh_binding(refresh_binding(b, first), OutcomeView::Rows(second)).instrument is Vector,
        forall|key: u64|
            #![trigger refresh_binding(refresh_binding(b, first), OutcomeView::Rows(second)).instrument->children[key]]
            refresh_binding(
                refresh_binding(b, first),
                OutcomeView::Rows(second),
            ).instrument->children.contains_key(key) ==> refresh_binding(
                refresh_binding(b, first),
                OutcomeView::Rows(second),
            ).instrument->children[key].0 != values,
{
    let width = b.spec.label_columns.len();
    let after = refresh_binding(refresh_binding(b, first), OutcomeView::Rows(second));
    assert(after.instrument->children == apply_rows(no_children(), second, width));
    assert forall|key: u64| after.instrument->children.contains_key(key) implies (
    #[trigger] after.instrument->children[key]).0 != values by {
        lemma_children_come_from_rows(second, width, key);
    }
}

/// A row that cannot be read is skipped: the rows before and after it are
/// applied as if it had not been there.
pub proof fn lemma_unreadable_row_is_skipped(
    children: Map<u64, (Seq<Seq<char>>, u64)>,
    rows: Seq<RowView>,
    width: nat,
    i: int,
)
    requires
        0 <= i < rows.len(),
        !row_usable(rows[i], width),
    ensures
        apply_rows(children, rows, width) == apply_rows(children, rows.remove(i), width),
    decreases rows.len(),
{
    if i == rows.len() - 1 {
        assert(rows.remove(i) =~= rows.drop_last());
    } else {
        assert(rows.remove(i).drop_last() =~= rows.drop_last().remove(i));
        assert(rows.remove(i).last() == rows.last());
        lemma_unreadable_row_is_skipped(children, rows.drop_last(), width, i);
    }
}

/// A row without a value in the value column cannot be read, whatever its
/// labels are, and so a vector binding takes the other rows of the result
/// as if that row had not been there.
pub proof fn lemma_row_without_value_is_skipped(b: BindingView, rows: Seq<RowView>, i: int)
    requires
        b.instrument is Vector,
        0 <= i < rows.len(),
        rows[i].value is None,
    ensures
        refresh_binding(b, OutcomeView::Rows(rows)) == refresh_binding(
            b,
            OutcomeView::Rows(rows.remove(i)),
        ),
{
    lemma_unreadable_row_is_skipped(no_children(), rows, b.spec.label_columns.len(), i);
}

/// After a rebuild is handed over, the state that is served is either the
/// one that was served before, untouched, or the new one, whole: never
/// parts of both.
pub proof fn lemma_served_state_is_old_or_new(current: AppState, rebuilt: Rebuild)
    ensures
        served_after(current, rebuilt) == current || rebuilt == Rebuild::Ready(
            served_after(current, rebuilt),
        ),
{
}

/// A reload that fails, because the configuration could not be loaded or
/// because no metric set could be built from it, leaves the state that is
/// served as it was.
pub proof fn lemma_failed_reload_keeps_state(current: AppState, rebuilt: Rebuild)
    requires
        outcome_of(rebuilt) != ReloadOutcome::Swapped,
    ensures
        served_after(current, rebuilt) == current,
{
}

} // verus!
