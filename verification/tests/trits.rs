use ternary_hmm::{index_to_trit, trit_to_index, validate_ternary, Ternary, STATES};

#[test]
fn trit_to_index_maps_each_trit() {
    assert_eq!(trit_to_index(Ternary::Negative), 0);
    assert_eq!(trit_to_index(Ternary::Neutral), 1);
    assert_eq!(trit_to_index(Ternary::Positive), 2);
}

#[test]
fn index_to_trit_maps_each_index() {
    assert_eq!(index_to_trit(0), Ternary::Negative);
    assert_eq!(index_to_trit(1), Ternary::Neutral);
    assert_eq!(index_to_trit(2), Ternary::Positive);
}

#[test]
fn index_round_trip_on_every_trit() {
    for t in [Ternary::Negative, Ternary::Neutral, Ternary::Positive] {
        assert_eq!(index_to_trit(trit_to_index(t)), t);
    }
    for i in 0..3usize {
        assert_eq!(trit_to_index(index_to_trit(i)), i);
    }
}

#[test]
fn states_are_listed_in_index_order() {
    for (i, s) in STATES.iter().enumerate() {
        assert_eq!(trit_to_index(*s), i);
    }
}

#[test]
fn validate_ternary_accepts_any_sequence() {
    assert_eq!(validate_ternary(&[Ternary::Positive, Ternary::Neutral]), Ok(()));
    assert_eq!(validate_ternary(&[]), Ok(()));
}
