//! What one refresh pass brings: for each binding the outcome of its query,
//! and what that outcome does to the binding's instrument.
//!
//! A scalar binding takes the value of a result of exactly one row and keeps
//! what it had in every other case. A vector binding is emptied on every
//! refresh and then takes the rows that can be read, one child per row.

use vstd::prelude::*;
use crate::instrument::{children_with, no_children};
use crate::metrics::{BindingView, Instrument};

verus! {

/// One row of a query result, as far as a binding reads it: the text found
/// in each label column, in the order of the query, and the bit
/// pattern of the double found in the value column. `None` stands for a
/// column that is missing or does not hold what is asked of it.
#[derive(Debug)]
pub struct Row {
    pub labels: Vec<Option<String>>,
    pub value: Option<u64>,
}

/// The mathematical content of a [`Row`].
pub ghost struct RowView {
    pub labels: Seq<Option<Seq<char>>>,
    pub value: Option<u64>,
}

impl View for Row {
    type V = RowView;

    open spec fn view(&self) -> RowView {
        RowView {
            labels: Seq::new(
                self.labels.len() as nat,
                |i: int|
                    match self.labels[i] {
                        Some(s) => Some(s@),
                        None => None,
                    },
            ),
            value: self.value,
        }
    }
}

/// The outcome of running the query of one binding.
#[derive(Debug)]
pub enum QueryOutcome {
    /// The query could not be executed.
    Failed,
    /// The query returned these rows, in this order.
    Rows(Vec<Row>),
}

/// The mathematical content of a [`QueryOutcome`].
pub ghost enum OutcomeView {
    Failed,
    Rows(Seq<RowView>),
}

/// The views of a list of rows, in order.
pub open spec fn row_views(rows: Seq<Row>) -> Seq<RowView> {
    Seq::new(rows.len(), |i: int| rows[i]@)
}

impl View for QueryOutcome {
    type V = OutcomeView;

    open spec fn view(&self) -> OutcomeView {
        match self {
            QueryOutcome::Failed => OutcomeView::Failed,
            QueryOutcome::Rows(rows) => OutcomeView::Rows(row_views(rows@)),
        }
    }
}

/// The views of a list of outcomes, in order.
pub open spec fn outcome_views(outcomes: Seq<QueryOutcome>) -> Seq<OutcomeView> {
    Seq::new(outcomes.len(), |i: int| outcomes[i]@)
}

/// What one refresh pass brings.
#[derive(Debug)]
pub enum Refresh {
    /// No database client could be had: no query was run.
    NoClient,
    /// The outcome of each binding's query, in the order of the bindings.
    Results(Vec<QueryOutcome>),
}

/// The mathematical content of a [`Refresh`].
pub ghost enum RefreshView {
    NoClient,
    Results(Seq<OutcomeView>),
}

impl View for Refresh {
    type V = RefreshView;

    open spec fn view(&self) -> RefreshView {
        match self {
            Refresh::NoClient => RefreshView::NoClient,
            Refresh::Results(outcomes) => RefreshView::Results(outcome_views(outcomes@)),
        }
    }
}

/// A row can be applied to a family of `width` labels: it has a text for
/// each of them and a value.
pub open spec fn row_usable(row: RowView, width: nat) -> bool {
    &&& row.labels.len() == width
    &&& forall|i: int| 0 <= i < row.labels.len() ==> (#[trigger] row.labels[i]) is Some
    &&& row.value is Some
}

/// The label values of a usable row, in order.
pub open spec fn row_values(row: RowView) -> Seq<Seq<char>> {
    Seq::new(row.labels.len(), |i: int| row.labels[i]->Some_0)
}

/// The children of a family after one more row: a usable row sets the
/// child for its label values, any other row is skipped.
pub open spec fn apply_row(
    children: Map<u64, (Seq<Seq<char>>, u64)>,
    row: RowView,
    width: nat,
) -> Map<u64, (Seq<Seq<char>>, u64)> {
    if row_usable(row, width) {
        children_with(children, row_values(row), row.value->Some_0)
    } else {
        children
    }
}

/// The children of a family after the rows have been applied in order.
pub open spec fn apply_rows(
    children: Map<u64, (Seq<Seq<char>>, u64)>,
    rows: Seq<RowView>,
    width: nat,
) -> Map<u64, (Seq<Seq<char>>, u64)>
    decreases rows.len(),
{
    if rows.len() == 0 {
        children
    } else {
        apply_row(apply_rows(children, rows.drop_last(), width), rows.last(), width)
    }
}

/// The sample that a scalar binding takes from an outcome: the value of the
/// only row, where there is exactly one row and its value can be read.
pub open spec fn scalar_sample(outcome: OutcomeView) -> Option<u64> {
    match outcome {
        OutcomeView::Rows(rows) if rows.len() == 1 => rows[0].value,
        _ => None,
    }
}

/// The children that a vector binding of `width` labels has after an
/// outcome, whatever it had before: none where the query failed, else those
/// that the rows give.
pub open spec fn vector_children(outcome: OutcomeView, width: nat) -> Map<
    u64,
    (Seq<Seq<char>>, u64),
> {
    match outcome {
        OutcomeView::Failed => no_children(),
        OutcomeView::Rows(rows) => apply_rows(no_children(), rows, width),
    }
}

/// A binding after its query's outcome has been applied.
pub open spec fn refresh_binding(b: BindingView, outcome: OutcomeView) -> BindingView {
    match b.instrument {
        Instrument::Scalar { bits } => match scalar_sample(outcome) {
            Some(sample) => BindingView { spec: b.spec, instrument: Instrument::Scalar { bits: sample } },
            None => b,
        },
        Instrument::Vector { .. } => BindingView {
            spec: b.spec,
            instrument: Instrument::Vector {
                children: vector_children(outcome, b.spec.label_columns.len()),
            },
        },
    }
}

/// The bindings after the outcomes have been applied, each to the binding
/// at its own position. A binding for which there is no outcome stays as it
/// is.
pub open spec fn refresh_bindings(
    bindings: Seq<BindingView>,
    outcomes: Seq<OutcomeView>,
) -> Seq<BindingView> {
    Seq::new(
        bindings.len(),
        |i: int|
            if i < outcomes.len() {
                refresh_binding(bindings[i], outcomes[i])
            } else {
                bindings[i]
            },
    )
}

/// The bindings after a refresh pass. Without a database client nothing
/// changes.
pub open spec fn refreshed(bindings: Seq<BindingView>, refresh: RefreshView) -> Seq<BindingView> {
    match refresh {
        RefreshView::NoClient => bindings,
        RefreshView::Results(outcomes) => refresh_bindings(bindings, outcomes),
    }
}

/// The label values of a row, if it has a text for each of `width` labels.
pub fn label_values(row: &Row, width: usize) -> (r: Option<Vec<String>>)
    ensures
        r is Some <==> (row@.labels.len() == width && forall|i: int|
            0 <= i < row@.labels.len() ==> (#[trigger] row@.labels[i]) is Some),
        r matches Some(values) ==> values.len() == width && crate::config::texts(values@)
            == row_values(row@),
{
    if row.labels.len() != width {
        return None;
    }
    let mut values: Vec<String> = Vec::new();
    let mut i: usize = 0;
    while i < row.labels.len()
        invariant
            i <= row.labels.len(),
            values.len() == i,
            forall|j: int| 0 <= j < i ==> (#[trigger] row@.labels[j]) is Some,
            forall|j: int| 0 <= j < i ==> (#[trigger] values[j])@ == row@.labels[j]->Some_0,
        decreases row.labels.len() - i,
    {
        match &row.labels[i] {
            Some(text) => {
                values.push(text.clone());
            },
            None => {
                assert(row@.labels[i as int] is None);
                return None;
            },
        }
        i += 1;
    }
    assert(crate::config::texts(values@) =~= row_values(row@));
    Some(values)
}

} // verus!
