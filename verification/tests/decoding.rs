use ternary_hmm::decode::{first_maximum_index, last_maximum_index, viterbi_backtrack};
use ternary_hmm::Ternary::{Negative, Neutral, Positive};

#[test]
fn last_maximum_takes_the_greatest_key() {
    assert_eq!(last_maximum_index(&[5, 1, 2]), 0);
    assert_eq!(last_maximum_index(&[-3, 7, 2]), 1);
    assert_eq!(last_maximum_index(&[i64::MIN, i64::MIN, 0]), 2);
}

#[test]
fn last_maximum_breaks_ties_to_the_last() {
    assert_eq!(last_maximum_index(&[4, 4, 1]), 1);
    assert_eq!(last_maximum_index(&[2, 2, 2]), 2);
    assert_eq!(last_maximum_index(&[9, 1, 9]), 2);
}

#[test]
fn first_maximum_takes_the_greatest_present_key() {
    assert_eq!(first_maximum_index(&[Some(1), Some(8), Some(3)]), 1);
    assert_eq!(first_maximum_index(&[None, None, Some(-5)]), 2);
    assert_eq!(first_maximum_index(&[Some(-1), None, Some(-2)]), 0);
}

#[test]
fn first_maximum_breaks_ties_to_the_first() {
    assert_eq!(first_maximum_index(&[Some(3), Some(3), Some(3)]), 0);
    assert_eq!(first_maximum_index(&[None, Some(6), Some(6)]), 1);
}

#[test]
fn first_maximum_without_candidates_is_zero() {
    assert_eq!(first_maximum_index(&[None, None, None]), 0);
}

#[test]
fn backtrack_single_step() {
    assert_eq!(viterbi_backtrack(&vec![[0, 0, 0]], 2), vec![Positive]);
}

#[test]
fn backtrack_follows_pointers() {
    // Step 3 ends in state 1; psi[3][1] = 2, psi[2][2] = 0, psi[1][0] = 1.
    let psi = vec![[0, 0, 0], [1, 2, 0], [2, 1, 0], [0, 2, 1]];
    let path = viterbi_backtrack(&psi, 1);
    assert_eq!(path, vec![Neutral, Negative, Positive, Neutral]);
}

#[test]
fn backtrack_path_is_consistent_with_its_pointers() {
    let psi = vec![[0, 0, 0], [2, 2, 2], [0, 1, 2], [1, 1, 0], [2, 0, 1]];
    for last in 0..3usize {
        let path = viterbi_backtrack(&psi, last);
        assert_eq!(path.len(), psi.len());
        let idx: Vec<usize> = path.iter().map(|&s| ternary_hmm::trit_to_index(s)).collect();
        assert_eq!(idx[psi.len() - 1], last);
        for t in 0..psi.len() - 1 {
            assert_eq!(idx[t], psi[t + 1][idx[t + 1]]);
        }
    }
}
