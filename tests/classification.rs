use ctx_binding::classification::{classify, classify_status, native_flag, Classification};

#[test]
fn native_flag_is_true_only_for_one() {
    assert!(native_flag(1));
    assert!(!native_flag(0));
    assert!(!native_flag(2));
    assert!(!native_flag(-1));
}

#[test]
fn classify_covers_all_query_pairs() {
    assert_eq!(classify(true, false), Classification::Lower);
    assert_eq!(classify(false, true), Classification::Upper);
    assert_eq!(classify(false, false), Classification::Unspecified);
    assert_eq!(classify(true, true), Classification::Lower);
}

#[test]
fn classify_status_reads_raw_query_results() {
    assert_eq!(classify_status(1, 0), Classification::Lower);
    assert_eq!(classify_status(0, 1), Classification::Upper);
    assert_eq!(classify_status(0, 0), Classification::Unspecified);
    assert_eq!(classify_status(7, 7), Classification::Unspecified);
}

#[test]
fn classification_is_never_both_lower_and_upper() {
    for lower in [false, true] {
        for upper in [false, true] {
            let c = classify(lower, upper);
            let hits = [Classification::Lower, Classification::Upper, Classification::Unspecified]
                .iter()
                .filter(|k| **k == c)
                .count();
            assert_eq!(hits, 1);
        }
    }
}
