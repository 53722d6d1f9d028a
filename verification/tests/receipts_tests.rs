use params_estimator::receipts::{missing_from_trace, verify_restored_receipts, ReceiptHash};

fn h(n: u64) -> ReceiptHash {
    ReceiptHash { w0: n, w1: n ^ 0xff, w2: 0, w3: n.wrapping_mul(31) }
}

#[test]
fn missing_hashes_are_reported_in_order() {
    let repo = vec![h(1), h(2), h(3), h(4)];
    let trace = vec![h(2), h(4), h(9)];
    assert_eq!(missing_from_trace(&repo, &trace), vec![h(1), h(3)]);
}

#[test]
fn verification_succeeds_when_trace_covers_repo() {
    let repo = vec![h(1), h(2)];
    let trace = vec![h(3), h(2), h(1)];
    assert_eq!(verify_restored_receipts(&repo, &trace), Ok(()));
}

#[test]
fn verification_reports_every_missing_hash() {
    let repo = vec![h(5), h(6)];
    let trace = vec![h(5)];
    assert_eq!(verify_restored_receipts(&repo, &trace), Err(vec![h(6)]));
}

#[test]
fn empty_repo_is_always_verified() {
    let repo: Vec<ReceiptHash> = Vec::new();
    let trace = vec![h(1)];
    assert_eq!(verify_restored_receipts(&repo, &trace), Ok(()));
    assert_eq!(verify_restored_receipts(&repo, &Vec::new()), Ok(()));
}

#[test]
fn duplicate_missing_hashes_are_each_reported() {
    let repo = vec![h(7), h(7)];
    let trace: Vec<ReceiptHash> = Vec::new();
    assert_eq!(missing_from_trace(&repo, &trace), vec![h(7), h(7)]);
}
