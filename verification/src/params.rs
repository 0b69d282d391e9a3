//! Which model parameters are refused, and which fault is reported first.
//!
//! The initial distribution, each transition row and each emission row must hold
//! three finite, non-negative entries that sum to one. The entries themselves are
//! classified by the caller, which holds the probabilities; this module decides,
//! from those findings, whether the parameters are accepted and, if not, which
//! fault is reported: the initial distribution first, then the transition rows in
//! order, then the emission rows in order; within a row, the first bad entry, and
//! only when every entry is good, a sum that is not one.

use vstd::prelude::*;

verus! {

/// What was found of one entry of a probability row. An entry that is both
/// infinite and negative is classified `Infinite`.
#[derive(Clone, Copy, Debug, PartialEq, Eq, Structural)]
pub enum EntryClass {
    /// A finite, non-negative number.
    Valid,
    /// Not a number.
    NotANumber,
    /// Positive or negative infinity.
    Infinite,
    /// A finite number below zero.
    Negative,
}

/// What was found of one row of three probabilities.
#[derive(Clone, Copy, Debug)]
pub struct RowReport {
    /// The class of each entry, in order.
    pub entries: [EntryClass; 3],
    /// Whether the entries sum to one within the model's tolerance.
    pub sums_to_one: bool,
}

/// The first fault of one row.
#[derive(Clone, Copy, Debug, PartialEq, Eq, Structural)]
pub enum RowFault {
    /// The entry at `index` is not a finite, non-negative number.
    BadEntry { index: usize, class: EntryClass },
    /// Every entry is good, but they do not sum to one.
    BadSum,
}

/// A row of the model's parameters.
#[derive(Clone, Copy, Debug, PartialEq, Eq, Structural)]
pub enum ParamBlock {
    /// The initial state distribution.
    Initial,
    /// Row `row` of the transition matrix.
    Transition { row: usize },
    /// Row `row` of the emission matrix.
    Emission { row: usize },
}

/// The fault reported for a set of parameters: the row and what is wrong with it.
#[derive(Clone, Copy, Debug, PartialEq, Eq, Structural)]
pub struct ParamFault {
    pub block: ParamBlock,
    pub fault: RowFault,
}

/// The first entry of a row that is not valid, with its class.
pub open spec fn first_bad_entry(e: Seq<EntryClass>) -> Option<RowFault> {
    if e[0] != EntryClass::Valid {
        Some(RowFault::BadEntry { index: 0, class: e[0] })
    } else if e[1] != EntryClass::Valid {
        Some(RowFault::BadEntry { index: 1, class: e[1] })
    } else if e[2] != EntryClass::Valid {
        Some(RowFault::BadEntry { index: 2, class: e[2] })
    } else {
        None
    }
}

/// The fault of a row: its first bad entry, else a wrong sum, else none.
pub open spec fn fault_of_row(r: RowReport) -> Option<RowFault> {
    match first_bad_entry(r.entries@) {
        Some(f) => Some(f),
        None => if r.sums_to_one {
            None
        } else {
            Some(RowFault::BadSum)
        },
    }
}

/// A row is accepted: each entry is valid and the entries sum to one.
pub open spec fn row_accepted(r: RowReport) -> bool {
    &&& forall|k: int| 0 <= k < 3 ==> r.entries@[k] == EntryClass::Valid
    &&& r.sums_to_one
}

/// The first of three rows that has a fault, with its index and fault.
pub open spec fn first_faulty_row(rows: Seq<RowReport>) -> Option<(usize, RowFault)> {
    if fault_of_row(rows[0]) is Some {
        Some((0usize, fault_of_row(rows[0])->0))
    } else if fault_of_row(rows[1]) is Some {
        Some((1usize, fault_of_row(rows[1])->0))
    } else if fault_of_row(rows[2]) is Some {
        Some((2usize, fault_of_row(rows[2])->0))
    } else {
        None
    }
}

/// The fault reported for the parameters `(pi, a, b)`, or none if they are accepted.
pub open spec fn parameter_fault(pi: RowReport, a: Seq<RowReport>, b: Seq<RowReport>) -> Option<
    ParamFault,
> {
    if fault_of_row(pi) is Some {
        Some(ParamFault { block: ParamBlock::Initial, fault: fault_of_row(pi)->0 })
    } else {
        match first_faulty_row(a) {
            Some((row, f)) => Some(ParamFault { block: ParamBlock::Transition { row }, fault: f }),
            None => match first_faulty_row(b) {
                Some((row, f)) => Some(ParamFault { block: ParamBlock::Emission { row }, fault: f }),
                None => None,
            },
        }
    }
}

/// `f` describes what is wrong with row `r`: either an entry that is not valid,
/// carried with its own index and class, every earlier entry being valid; or, all
/// entries being valid, a sum that is not one.
pub open spec fn describes_row_fault(r: RowReport, f: RowFault) -> bool {
    match f {
        RowFault::BadEntry { index, class } => {
            &&& index < 3
            &&& class != EntryClass::Valid
            &&& r.entries@[index as int] == class
            &&& forall|k: int| 0 <= k < index ==> r.entries@[k] == EntryClass::Valid
        },
        RowFault::BadSum => {
            &&& forall|k: int| 0 <= k < 3 ==> r.entries@[k] == EntryClass::Valid
            &&& !r.sums_to_one
        },
    }
}

/// `(row, f)` names the first of three rows that is not accepted, and describes
/// its fault.
pub open spec fn names_first_rejected_row(rows: Seq<RowReport>, row: usize, f: RowFault) -> bool {
    &&& row < 3
    &&& !row_accepted(rows[row as int])
    &&& forall|i: int| 0 <= i < row ==> row_accepted(#[trigger] rows[i])
    &&& describes_row_fault(rows[row as int], f)
}

/// `pf` names the first parameter row that is not accepted, in the order: the
/// initial distribution, the transition rows, the emission rows; and describes
/// that row's fault.
pub open spec fn names_first_rejected_parameter(
    pi: RowReport,
    a: Seq<RowReport>,
    b: Seq<RowReport>,
    pf: ParamFault,
) -> bool {
    match pf.block {
        ParamBlock::Initial => !row_accepted(pi) && describes_row_fault(pi, pf.fault),
        ParamBlock::Transition { row } => {
            &&& row_accepted(pi)
            &&& names_first_rejected_row(a, row, pf.fault)
        },
        ParamBlock::Emission { row } => {
            &&& row_accepted(pi)
            &&& forall|i: int| 0 <= i < 3 ==> row_accepted(#[trigger] a[i])
            &&& names_first_rejected_row(b, row, pf.fault)
        },
    }
}

/// The fault of a row is reported exactly when the row is not accepted, and it
/// describes what is wrong with the row.
pub proof fn lemma_row_fault_describes_row(r: RowReport)
    ensures
        fault_of_row(r) is None <==> row_accepted(r),
        fault_of_row(r) matches Some(f) ==> describes_row_fault(r, f),
{
}

/// Of three rows, the first one that is not accepted is the one reported, with an
/// index below 3; none is reported exactly when all are accepted.
pub proof fn lemma_first_faulty_row_is_first_rejected(rows: Seq<RowReport>)
    requires
        rows.len() == 3,
    ensures
        first_faulty_row(rows) is None <==> forall|i: int| 0 <= i < 3 ==> row_accepted(
            #[trigger] rows[i],
        ),
        first_faulty_row(rows) matches Some((row, f)) ==> names_first_rejected_row(rows, row, f),
{
    lemma_row_fault_describes_row(rows[0]);
    lemma_row_fault_describes_row(rows[1]);
    lemma_row_fault_describes_row(rows[2]);
}

/// Parameters are refused exactly when some row is not accepted, and the fault
/// reported names the first such row (initial distribution, then transition rows,
/// then emission rows, each matrix in row order) and what is wrong with it.
pub proof fn lemma_parameter_fault_is_first_rejected(
    pi: RowReport,
    a: Seq<RowReport>,
    b: Seq<RowReport>,
)
    requires
        a.len() == 3,
        b.len() == 3,
    ensures
        parameter_fault(pi, a, b) is None <==> {
            &&& row_accepted(pi)
            &&& forall|i: int| 0 <= i < 3 ==> row_accepted(#[trigger] a[i])
            &&& forall|i: int| 0 <= i < 3 ==> row_accepted(#[trigger] b[i])
        },
        parameter_fault(pi, a, b) matches Some(pf) ==> names_first_rejected_parameter(pi, a, b, pf),
{
    lemma_row_fault_describes_row(pi);
    lemma_first_faulty_row_is_first_rejected(a);
    lemma_first_faulty_row_is_first_rejected(b);
}

/// The first entry of a probability row that is not a finite, non-negative
/// number, or `None` when there is none.
pub fn first_invalid_entry(entries: &[EntryClass; 3]) -> (r: Option<RowFault>)
    ensures
        r == first_bad_entry(entries@),
        r is None <==> forall|k: int| 0 <= k < 3 ==> entries@[k] == EntryClass::Valid,
        r matches Some(f) ==> f matches RowFault::BadEntry { index, class } && index < 3 && class
            != EntryClass::Valid && entries@[index as int] == class && forall|k: int|
            0 <= k < index ==> entries@[k] == EntryClass::Valid,
{
    let mut k: usize = 0;
    while k < 3
        invariant
            k <= 3,
            forall|j: int| 0 <= j < k ==> entries@[j] == EntryClass::Valid,
        decreases 3 - k,
    {
        if entries[k] != EntryClass::Valid {
            return Some(RowFault::BadEntry { index: k, class: entries[k] });
        }
        k = k + 1;
    }
    None
}

/// The fault of one probability row: its first invalid entry, otherwise a sum
/// that is not one, otherwise `None`.
pub fn check_row(row: &RowReport) -> (r: Option<RowFault>)
    ensures
        r == fault_of_row(*row),
        r is None <==> row_accepted(*row),
        r matches Some(f) ==> describes_row_fault(*row, f),
{
    match first_invalid_entry(&row.entries) {
        Some(f) => Some(f),
        None => if row.sums_to_one {
            None
        } else {
            Some(RowFault::BadSum)
        },
    }
}

/// The first of three rows that has a fault, with its index.
fn check_rows(rows: &[RowReport; 3]) -> (r: Option<(usize, RowFault)>)
    ensures
        r == first_faulty_row(rows@),
        r is None <==> forall|i: int| 0 <= i < 3 ==> row_accepted(#[trigger] rows@[i]),
        r matches Some((row, f)) ==> names_first_rejected_row(rows@, row, f),
{
    let mut i: usize = 0;
    while i < 3
        invariant
            i <= 3,
            forall|j: int| 0 <= j < i ==> fault_of_row(#[trigger] rows@[j]) is None,
        decreases 3 - i,
    {
        match check_row(&rows[i]) {
            Some(f) => {
                return Some((i, f));
            },
            None => {},
        }
        i = i + 1;
    }
    None
}

/// Decide whether the parameters of a model are accepted: `pi` is the report on
/// the initial distribution, `a[i]` on transition row `i`, `b[i]` on emission
/// row `i`. Returns the fault to report, or `None` when every row is accepted.
pub fn first_parameter_fault(pi: &RowReport, a: &[RowReport; 3], b: &[RowReport; 3]) -> (r:
    Option<ParamFault>)
    ensures
        r == parameter_fault(*pi, a@, b@),
        r is None <==> {
            &&& row_accepted(*pi)
            &&& forall|i: int| 0 <= i < 3 ==> row_accepted(#[trigger] a@[i])
            &&& forall|i: int| 0 <= i < 3 ==> row_accepted(#[trigger] b@[i])
        },
        r matches Some(pf) ==> names_first_rejected_parameter(*pi, a@, b@, pf),
{
    match check_row(pi) {
        Some(f) => {
            return Some(ParamFault { block: ParamBlock::Initial, fault: f });
        },
        None => {},
    }
    match check_rows(a) {
        Some((row, f)) => {
            return Some(ParamFault { block: ParamBlock::Transition { row }, fault: f });
        },
        None => {},
    }
    match check_rows(b) {
        Some((row, f)) => Some(ParamFault { block: ParamBlock::Emission { row }, fault: f }),
        None => None,
    }
}

} // verus!
