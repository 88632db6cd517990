use stateguard_core::domain::errors::DomainError;
use stateguard_core::domain::execution_job::{ExecutionJob, FailureReason, JobStatus};

fn sample_job() -> ExecutionJob {
    ExecutionJob::new(
        "job1".to_string(),
        "contract1".to_string(),
        vec![1, 2, 3],
        1_000_000,
    )
    .unwrap()
}

#[test]
fn test_new_job() {
    let job = ExecutionJob::new(
        "job1".to_string(),
        "contract1".to_string(),
        vec![1, 2, 3],
        1_000_000,
    );
    assert!(job.is_ok());
    let j = job.unwrap();
    assert_eq!(j.status, JobStatus::Pending);
    assert_eq!(j.current_gas_price, 500_000);
}

#[test]
fn test_zero_gas_rejected() {
    let job = ExecutionJob::new(
        "job1".to_string(),
        "contract1".to_string(),
        vec![1, 2, 3],
        0,
    );
    assert!(matches!(job, Err(DomainError::InvalidGasConfiguration { .. })));
}

#[test]
fn test_state_transitions() {
    let mut job = ExecutionJob::new(
        "job1".to_string(),
        "contract1".to_string(),
        vec![1, 2, 3],
        1_000_000,
    )
    .unwrap();

    assert!(job.mark_signing().is_ok());
    assert_eq!(job.status, JobStatus::Signing);

    assert!(job.mark_simulating().is_ok());
    assert_eq!(job.status, JobStatus::Simulating);

    assert!(job.mark_submitted("tx_hash_123".to_string()).is_ok());
    assert_eq!(job.status, JobStatus::Submitted);
    assert_eq!(job.transaction_hash, Some("tx_hash_123".to_string()));

    assert!(job.mark_awaiting_consensus().is_ok());
    assert_eq!(job.status, JobStatus::AwaitingConsensus);

    assert!(job.mark_confirmed().is_ok());
    assert_eq!(job.status, JobStatus::Confirmed);
}

#[test]
fn test_invalid_state_transition() {
    let mut job = ExecutionJob::new(
        "job1".to_string(),
        "contract1".to_string(),
        vec![1, 2, 3],
        1_000_000,
    )
    .unwrap();

    // Try to simulate before signing
    let result = job.mark_simulating();
    assert!(matches!(result, Err(DomainError::InvalidStateTransition { .. })));
}

#[test]
fn test_retry_logic() {
    let mut job = ExecutionJob::new(
        "job1".to_string(),
        "contract1".to_string(),
        vec![1, 2, 3],
        1_000_000,
    )
    .unwrap();

    job.mark_failed(FailureReason::NetworkTimeout);
    assert!(job.can_retry());

    assert!(job.increment_retry().is_ok());
    assert_eq!(job.retries, 1);
    assert_eq!(job.status, JobStatus::Pending);

    // Exhaust retries
    job.mark_failed(FailureReason::NetworkTimeout);
    job.increment_retry().unwrap();
    job.mark_failed(FailureReason::NetworkTimeout);
    job.increment_retry().unwrap();
    job.mark_failed(FailureReason::NetworkTimeout);

    assert!(!job.can_retry());
}

#[test]
fn test_fee_bump() {
    let mut job = ExecutionJob::new(
        "job1".to_string(),
        "contract1".to_string(),
        vec![1, 2, 3],
        1_000_000,
    )
    .unwrap();

    job.current_gas_price = 100_000;
    assert!(job.bump_fee(10).is_ok()); // 10% increase
    assert_eq!(job.current_gas_price, 110_000);
}

#[test]
fn test_fee_bump_exceeds_max() {
    let mut job = ExecutionJob::new(
        "job1".to_string(),
        "contract1".to_string(),
        vec![1, 2, 3],
        1_000_000,
    )
    .unwrap();

    job.current_gas_price = 950_000;
    let result = job.bump_fee(10); // Would exceed max
    assert!(matches!(result, Err(DomainError::InvalidGasConfiguration { .. })));
}

#[test]
fn test_handle_bad_sequence() {
    let mut job = ExecutionJob::new(
        "job1".to_string(),
        "contract1".to_string(),
        vec![1, 2, 3],
        1_000_000,
    )
    .unwrap();

    job.mark_failed(FailureReason::TxBadSeq);
    assert!(job.handle_bad_sequence().is_ok());
    assert_eq!(job.status, JobStatus::Pending);
    assert_eq!(job.retries, 0); // Should not increment retries
}

#[test]
fn test_handle_insufficient_fee() {
    let mut job = ExecutionJob::new(
        "job1".to_string(),
        "contract1".to_string(),
        vec![1, 2, 3],
        1_000_000,
    )
    .unwrap();

    job.current_gas_price = 100_000;
    job.mark_failed(FailureReason::InsufficientFee);

    assert!(job.handle_insufficient_fee(10).is_ok());
    assert_eq!(job.status, JobStatus::Pending);
    assert_eq!(job.current_gas_price, 110_000);
    assert_eq!(job.retries, 1);
}

#[test]
fn new_job_fields() {
    let j = ExecutionJob::new("a".to_string(), "b".to_string(), vec![9], 7).unwrap();
    assert_eq!(j.job_id, "a");
    assert_eq!(j.target_contract_id, "b");
    assert_eq!(j.payload, vec![9]);
    assert_eq!(j.max_gas_price, 7);
    assert_eq!(j.current_gas_price, 3);
    assert_eq!(j.retries, 0);
    assert_eq!(j.max_retries, 3);
    assert_eq!(j.transaction_hash, None);
}

#[test]
fn zero_gas_message() {
    match ExecutionJob::new("a".to_string(), "b".to_string(), vec![], 0) {
        Err(DomainError::InvalidGasConfiguration { reason }) => {
            assert_eq!(reason, "max_gas_price must be greater than zero")
        }
        _ => panic!("expected an invalid gas configuration"),
    }
}

#[test]
fn refused_transition_leaves_job_unchanged() {
    let mut job = sample_job();
    let before = job.clone();
    match job.mark_confirmed() {
        Err(DomainError::InvalidStateTransition { from, to, reason }) => {
            assert_eq!(from, "Pending");
            assert_eq!(to, "Confirmed");
            assert_eq!(reason, "can only confirm from AwaitingConsensus state");
        }
        other => panic!("unexpected {:?}", other),
    }
    assert_eq!(job, before);
}

#[test]
fn every_forward_transition_is_refused_out_of_order() {
    let mut job = sample_job();
    assert!(job.mark_simulating().is_err());
    assert!(job.mark_submitted("h".to_string()).is_err());
    assert!(job.mark_awaiting_consensus().is_err());
    assert!(job.mark_confirmed().is_err());
    assert_eq!(job.transaction_hash, None);
    assert!(job.mark_signing().is_ok());
    assert!(job.mark_signing().is_err());
}

#[test]
fn terminal_states_accept_no_forward_transition() {
    let mut job = sample_job();
    job.mark_signing().unwrap();
    job.mark_simulating().unwrap();
    job.mark_submitted("h".to_string()).unwrap();
    job.mark_awaiting_consensus().unwrap();
    job.mark_confirmed().unwrap();
    assert!(job.is_terminal());
    assert!(job.mark_signing().is_err());
    assert!(job.mark_simulating().is_err());
    assert!(job.mark_submitted("x".to_string()).is_err());
    assert!(job.mark_awaiting_consensus().is_err());
    assert!(job.mark_confirmed().is_err());

    let mut failed = sample_job();
    failed.mark_failed(FailureReason::InvalidContract);
    assert!(failed.is_terminal());
    assert!(failed.mark_signing().is_err());
    assert!(!sample_job().is_terminal());
}

#[test]
fn retry_refused_when_exhausted_with_message() {
    let mut job = sample_job();
    job.retries = 3;
    job.mark_failed(FailureReason::NetworkTimeout);
    let before = job.clone();
    match job.increment_retry() {
        Err(DomainError::InvalidStateTransition { from, to, reason }) => {
            assert_eq!(from, "Failed: Network timeout");
            assert_eq!(to, "Pending (retry)");
            assert_eq!(reason, "max retries (3) exceeded");
        }
        other => panic!("unexpected {:?}", other),
    }
    assert_eq!(job, before);
}

#[test]
fn retry_refused_when_not_failed() {
    let mut job = sample_job();
    assert!(!job.can_retry());
    assert!(matches!(
        job.increment_retry(),
        Err(DomainError::InvalidStateTransition { .. })
    ));
    assert_eq!(job.retries, 0);
}

#[test]
fn retry_clears_transaction_hash() {
    let mut job = sample_job();
    job.mark_signing().unwrap();
    job.mark_simulating().unwrap();
    job.mark_submitted("h".to_string()).unwrap();
    job.mark_failed(FailureReason::NetworkTimeout);
    job.increment_retry().unwrap();
    assert_eq!(job.transaction_hash, None);
    assert_eq!(job.status, JobStatus::Pending);
}

#[test]
fn fee_bump_percent_out_of_range() {
    let mut job = sample_job();
    match job.bump_fee(0) {
        Err(DomainError::InvalidGasConfiguration { reason }) => {
            assert_eq!(reason, "increment_percent must be between 1 and 100, got 0")
        }
        other => panic!("unexpected {:?}", other),
    }
    match job.bump_fee(101) {
        Err(DomainError::InvalidGasConfiguration { reason }) => {
            assert_eq!(reason, "increment_percent must be between 1 and 100, got 101")
        }
        other => panic!("unexpected {:?}", other),
    }
    assert_eq!(job.current_gas_price, 500_000);
}

#[test]
fn fee_bump_exceeding_max_message() {
    let mut job = sample_job();
    job.current_gas_price = 950_000;
    match job.bump_fee(10) {
        Err(DomainError::InvalidGasConfiguration { reason }) => {
            assert_eq!(reason, "fee bump would exceed max_gas_price: 1045000 > 1000000")
        }
        other => panic!("unexpected {:?}", other),
    }
    assert_eq!(job.current_gas_price, 950_000);
}

#[test]
fn fee_bump_rounds_increment_down_and_may_reach_max() {
    let mut job = sample_job();
    job.current_gas_price = 199;
    job.bump_fee(1).unwrap();
    assert_eq!(job.current_gas_price, 200);
    job.current_gas_price = 500_000;
    job.bump_fee(100).unwrap();
    assert_eq!(job.current_gas_price, 1_000_000);
}

#[test]
fn fee_bump_multiplication_overflow() {
    let mut job = sample_job();
    job.max_gas_price = u64::MAX;
    job.current_gas_price = u64::MAX / 2;
    match job.bump_fee(3) {
        Err(DomainError::OverflowDetected { operation }) => {
            assert_eq!(operation, "calculating fee increment")
        }
        other => panic!("unexpected {:?}", other),
    }
    assert_eq!(job.current_gas_price, u64::MAX / 2);
}

#[test]
fn fee_bump_addition_overflow() {
    let mut job = sample_job();
    job.max_gas_price = u64::MAX;
    job.current_gas_price = u64::MAX - 10;
    match job.bump_fee(1) {
        Err(DomainError::OverflowDetected { operation }) => {
            assert_eq!(operation, "adding fee increment")
        }
        other => panic!("unexpected {:?}", other),
    }
}

#[test]
fn bad_sequence_only_from_tx_bad_seq() {
    let mut job = sample_job();
    job.mark_failed(FailureReason::NetworkTimeout);
    match job.handle_bad_sequence() {
        Err(DomainError::InvalidStateTransition { from, to, reason }) => {
            assert_eq!(from, "Failed: Network timeout");
            assert_eq!(to, "Pending (sequence fix)");
            assert_eq!(reason, "can only handle bad sequence from Failed(TxBadSeq) state");
        }
        other => panic!("unexpected {:?}", other),
    }
    assert_eq!(job.status, JobStatus::Failed(FailureReason::NetworkTimeout));
}

#[test]
fn bad_sequence_clears_hash_keeps_retries() {
    let mut job = sample_job();
    job.retries = 2;
    job.transaction_hash = Some("h".to_string());
    job.mark_failed(FailureReason::TxBadSeq);
    job.handle_bad_sequence().unwrap();
    assert_eq!(job.transaction_hash, None);
    assert_eq!(job.retries, 2);
}

#[test]
fn insufficient_fee_only_from_insufficient_fee() {
    let mut job = sample_job();
    match job.handle_insufficient_fee(10) {
        Err(DomainError::InvalidStateTransition { from, to, reason }) => {
            assert_eq!(from, "Pending");
            assert_eq!(to, "Pending (fee bump)");
            assert_eq!(
                reason,
                "can only handle insufficient fee from Failed(InsufficientFee) state"
            );
        }
        other => panic!("unexpected {:?}", other),
    }
    assert_eq!(job.current_gas_price, 500_000);
}

#[test]
fn insufficient_fee_bump_refused_leaves_job_unchanged() {
    let mut job = sample_job();
    job.current_gas_price = 950_000;
    job.mark_failed(FailureReason::InsufficientFee);
    let before = job.clone();
    assert!(matches!(
        job.handle_insufficient_fee(10),
        Err(DomainError::InvalidGasConfiguration { .. })
    ));
    assert_eq!(job, before);
}

#[test]
fn insufficient_fee_without_retries_keeps_bumped_fee() {
    let mut job = sample_job();
    job.current_gas_price = 100_000;
    job.retries = 3;
    job.mark_failed(FailureReason::InsufficientFee);
    match job.handle_insufficient_fee(10) {
        Err(DomainError::InvalidStateTransition { from, to, reason }) => {
            assert_eq!(from, "Failed: Insufficient fee");
            assert_eq!(to, "Pending (retry)");
            assert_eq!(reason, "max retries (3) exceeded");
        }
        other => panic!("unexpected {:?}", other),
    }
    assert_eq!(job.current_gas_price, 110_000);
    assert_eq!(job.retries, 3);
    assert_eq!(job.status, JobStatus::Failed(FailureReason::InsufficientFee));
}

#[test]
fn operations_keep_fee_within_max_and_retries_within_limit() {
    let mut job = sample_job();
    for _ in 0..10 {
        job.mark_failed(FailureReason::InsufficientFee);
        let _ = job.handle_insufficient_fee(50);
        assert!(job.current_gas_price <= job.max_gas_price);
        assert!(job.retries <= job.max_retries);
    }
    assert_eq!(job.retries, 1);
    assert_eq!(job.current_gas_price, 750_000);
}
