use ternary_hmm::params::{
    check_row, first_invalid_entry, first_parameter_fault, EntryClass, ParamBlock, ParamFault,
    RowFault, RowReport,
};

const GOOD: RowReport = RowReport { entries: [EntryClass::Valid; 3], sums_to_one: true };

fn bad_sum() -> RowReport {
    RowReport { entries: [EntryClass::Valid; 3], sums_to_one: false }
}

fn with_entry(k: usize, class: EntryClass) -> RowReport {
    let mut entries = [EntryClass::Valid; 3];
    entries[k] = class;
    RowReport { entries, sums_to_one: true }
}

#[test]
fn valid_row_is_accepted() {
    assert_eq!(first_invalid_entry(&[EntryClass::Valid; 3]), None);
    assert_eq!(check_row(&GOOD), None);
}

#[test]
fn first_invalid_entry_reports_the_earliest() {
    let e = [EntryClass::Valid, EntryClass::Infinite, EntryClass::NotANumber];
    assert_eq!(
        first_invalid_entry(&e),
        Some(RowFault::BadEntry { index: 1, class: EntryClass::Infinite })
    );
}

#[test]
fn each_entry_class_is_reported() {
    for class in [EntryClass::NotANumber, EntryClass::Infinite, EntryClass::Negative] {
        assert_eq!(
            check_row(&with_entry(2, class)),
            Some(RowFault::BadEntry { index: 2, class })
        );
    }
}

#[test]
fn bad_entry_is_reported_before_bad_sum() {
    let r = RowReport {
        entries: [EntryClass::Negative, EntryClass::Valid, EntryClass::Valid],
        sums_to_one: false,
    };
    assert_eq!(check_row(&r), Some(RowFault::BadEntry { index: 0, class: EntryClass::Negative }));
}

#[test]
fn bad_sum_is_reported() {
    assert_eq!(check_row(&bad_sum()), Some(RowFault::BadSum));
}

#[test]
fn good_parameters_are_accepted() {
    assert_eq!(first_parameter_fault(&GOOD, &[GOOD; 3], &[GOOD; 3]), None);
}

#[test]
fn initial_distribution_is_checked_first() {
    let f = first_parameter_fault(&bad_sum(), &[bad_sum(); 3], &[bad_sum(); 3]);
    assert_eq!(f, Some(ParamFault { block: ParamBlock::Initial, fault: RowFault::BadSum }));
}

#[test]
fn transition_rows_are_checked_before_emission_rows() {
    let a = [GOOD, with_entry(1, EntryClass::Negative), bad_sum()];
    let f = first_parameter_fault(&GOOD, &a, &[bad_sum(); 3]);
    assert_eq!(
        f,
        Some(ParamFault {
            block: ParamBlock::Transition { row: 1 },
            fault: RowFault::BadEntry { index: 1, class: EntryClass::Negative },
        })
    );
}

#[test]
fn emission_rows_are_checked_last() {
    let b = [GOOD, GOOD, with_entry(0, EntryClass::Infinite)];
    let f = first_parameter_fault(&GOOD, &[GOOD; 3], &b);
    assert_eq!(
        f,
        Some(ParamFault {
            block: ParamBlock::Emission { row: 2 },
            fault: RowFault::BadEntry { index: 0, class: EntryClass::Infinite },
        })
    );
}
