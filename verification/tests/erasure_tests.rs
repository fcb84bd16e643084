use ternary_forgiveness::{EmbeddingVerdict, ErasureDetector};

#[test]
fn too_few_scores_never_embed() {
    let close = vec![true];
    let report = ErasureDetector::classify(&close, &vec![], true);
    assert!(!report.is_embedded);
    assert_eq!(report.recoverable_fragments, 0);
}

#[test]
fn parity_chunks_of_six_are_three_pairs() {
    assert_eq!(ErasureDetector::parity_chunks(6), vec![(0, 2), (2, 4), (4, 6)]);
}

#[test]
fn parity_chunks_keep_a_short_last_chunk() {
    assert_eq!(ErasureDetector::parity_chunks(7), vec![(0, 2), (2, 4), (4, 6), (6, 7)]);
    assert_eq!(ErasureDetector::parity_chunks(5), vec![(0, 1), (1, 2), (2, 3), (3, 4), (4, 5)]);
    assert_eq!(ErasureDetector::parity_chunks(3), vec![(0, 1), (1, 2), (2, 3)]);
}

#[test]
fn classify_counts_close_scores() {
    let close = vec![true, true, true, true, true, true];
    let v = ErasureDetector::classify(&close, &vec![true, true, true], true);
    assert_eq!(v, EmbeddingVerdict { is_embedded: true, recoverable_fragments: 6 });
}

#[test]
fn classify_needs_a_majority() {
    let close = vec![true, true, true, false, false, false];
    let v = ErasureDetector::classify(&close, &vec![true, true, true], true);
    assert_eq!(v, EmbeddingVerdict { is_embedded: false, recoverable_fragments: 3 });
}

#[test]
fn classify_needs_parity_and_redundancy() {
    let close = vec![true, true, true, true];
    let v = ErasureDetector::classify(&close, &vec![true, false, true, true], true);
    assert!(!v.is_embedded);
    assert_eq!(v.recoverable_fragments, 4);
    let w = ErasureDetector::classify(&close, &vec![true, true, true, true], false);
    assert!(!w.is_embedded);
}
