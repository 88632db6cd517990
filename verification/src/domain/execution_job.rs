//! An execution job: one transaction that a keeper signs, simulates, submits
//! and waits on, with retries and fee bumps when the network refuses it.
use vstd::prelude::*;

use crate::decimal::{decimal_text, u64_to_decimal};
use crate::domain::errors::{DomainError, DomainResult};

verus! {

/// Specific reasons for job failure
#[derive(Debug, Clone, PartialEq, Eq)]
pub enum FailureReason {
    TxBadSeq,
    InsufficientFee,
    NetworkTimeout,
    SimulationFailed { reason: String },
    InvalidContract,
    Other { description: String },
}

/// Where a job stands in its lifecycle.
#[derive(Debug, Clone, PartialEq, Eq)]
pub enum JobStatus {
    Pending,
    Signing,
    Simulating,
    Submitted,
    AwaitingConsensus,
    Confirmed,
    Failed(FailureReason),
}

/// The human-readable text of a failure reason.
pub open spec fn reason_text(r: FailureReason) -> Seq<char> {
    match r {
        FailureReason::TxBadSeq => "Transaction bad sequence"@,
        FailureReason::InsufficientFee => "Insufficient fee"@,
        FailureReason::NetworkTimeout => "Network timeout"@,
        FailureReason::SimulationFailed { reason } => "Simulation failed: "@ + reason@,
        FailureReason::InvalidContract => "Invalid contract"@,
        FailureReason::Other { description } => description@,
    }
}

/// The human-readable text of a job status.
pub open spec fn status_text(s: JobStatus) -> Seq<char> {
    match s {
        JobStatus::Pending => "Pending"@,
        JobStatus::Signing => "Signing"@,
        JobStatus::Simulating => "Simulating"@,
        JobStatus::Submitted => "Submitted"@,
        JobStatus::AwaitingConsensus => "Awaiting Consensus"@,
        JobStatus::Confirmed => "Confirmed"@,
        JobStatus::Failed(reason) => "Failed: "@ + reason_text(reason),
    }
}

/// The next status on the forward path
/// Pending, Signing, Simulating, Submitted, AwaitingConsensus, Confirmed;
/// `None` where the path has ended (Confirmed) or was left (Failed).
pub open spec fn lifecycle_successor(s: JobStatus) -> Option<JobStatus> {
    match s {
        JobStatus::Pending => Some(JobStatus::Signing),
        JobStatus::Signing => Some(JobStatus::Simulating),
        JobStatus::Simulating => Some(JobStatus::Submitted),
        JobStatus::Submitted => Some(JobStatus::AwaitingConsensus),
        JobStatus::AwaitingConsensus => Some(JobStatus::Confirmed),
        JobStatus::Confirmed => None,
        JobStatus::Failed(_) => None,
    }
}

/// A job in this status is done: confirmed, or failed.
pub open spec fn is_terminal_status(s: JobStatus) -> bool {
    s is Confirmed || s is Failed
}

/// `r` is the error of a refused lifecycle transition with the given texts.
pub open spec fn transition_error(
    r: DomainResult<()>,
    from: Seq<char>,
    to: Seq<char>,
    reason: Seq<char>,
) -> bool {
    match r {
        Err(DomainError::InvalidStateTransition { from: f, to: t, reason: why }) => {
            &&& f@ == from
            &&& t@ == to
            &&& why@ == reason
        },
        _ => false,
    }
}

impl FailureReason {
    /// The human-readable text of this reason (what `Display` prints).
    pub fn to_display_string(&self) -> (s: String)
        ensures
            s@ == reason_text(*self),
    {
        match self {
            FailureReason::TxBadSeq => String::from_str("Transaction bad sequence"),
            FailureReason::InsufficientFee => String::from_str("Insufficient fee"),
            FailureReason::NetworkTimeout => String::from_str("Network timeout"),
            FailureReason::SimulationFailed { reason } => {
                let mut s = String::from_str("Simulation failed: ");
                s.append(reason.as_str());
                s
            },
            FailureReason::InvalidContract => String::from_str("Invalid contract"),
            FailureReason::Other { description } => String::from_str(description.as_str()),
        }
    }
}

impl JobStatus {
    /// The human-readable text of this status (what `Display` prints).
    pub fn to_display_string(&self) -> (s: String)
        ensures
            s@ == status_text(*self),
    {
        match self {
            JobStatus::Pending => String::from_str("Pending"),
            JobStatus::Signing => String::from_str("Signing"),
            JobStatus::Simulating => String::from_str("Simulating"),
            JobStatus::Submitted => String::from_str("Submitted"),
            JobStatus::AwaitingConsensus => String::from_str("Awaiting Consensus"),
            JobStatus::Confirmed => String::from_str("Confirmed"),
            JobStatus::Failed(reason) => {
                let mut s = String::from_str("Failed: ");
                s.append(reason.to_display_string().as_str());
                s
            },
        }
    }
}

#[derive(Debug, Clone, PartialEq, Eq)]
pub struct ExecutionJob {
    pub job_id: String,
    pub target_contract_id: String,
    pub payload: Vec<u8>,
    pub max_gas_price: u64,
    pub current_gas_price: u64,
    pub status: JobStatus,
    pub retries: u32,
    pub max_retries: u32,
    pub transaction_hash: Option<String>,
}

impl ExecutionJob {
    /// What every job built by `new` satisfies and every operation keeps:
    /// a positive gas ceiling, a current bid at or under it, and no more
    /// retries spent than allowed.
    pub open spec fn is_well_formed(self) -> bool {
        &&& self.max_gas_price > 0
        &&& self.current_gas_price <= self.max_gas_price
        &&& self.retries <= self.max_retries
    }

    /// What holds between a job and the job after any one operation: its
    /// identity, payload and limits stay, its retry count and fee bid never go
    /// down, and well-formedness is kept.
    pub open spec fn evolves_to(self, next: ExecutionJob) -> bool {
        &&& next.job_id == self.job_id
        &&& next.target_contract_id == self.target_contract_id
        &&& next.payload@ == self.payload@
        &&& next.max_gas_price == self.max_gas_price
        &&& next.max_retries == self.max_retries
        &&& self.retries <= next.retries
        &&& self.current_gas_price <= next.current_gas_price
        &&& self.is_well_formed() ==> next.is_well_formed()
    }

    /// This job with another status.
    pub open spec fn with_status(self, status: JobStatus) -> ExecutionJob {
        ExecutionJob { status, ..self }
    }

    /// This job with another fee bid.
    pub open spec fn with_fee(self, fee: u64) -> ExecutionJob {
        ExecutionJob { current_gas_price: fee, ..self }
    }

    /// A failed job with retries left may be retried.
    pub open spec fn retry_allowed(self) -> bool {
        self.status is Failed && self.retries < self.max_retries
    }

    /// This job after one retry: one more retry spent, back to Pending, no
    /// transaction hash.
    pub open spec fn retried(self) -> ExecutionJob {
        ExecutionJob {
            retries: (self.retries + 1) as u32,
            status: JobStatus::Pending,
            transaction_hash: None,
            ..self
        }
    }

    /// `r` is the error of a refused retry of this job.
    pub open spec fn retry_error(self, r: DomainResult<()>) -> bool {
        transition_error(
            r,
            status_text(self.status),
            "Pending (retry)"@,
            "max retries ("@ + decimal_text(self.max_retries as nat) + ") exceeded"@,
        )
    }

    /// The bid after raising the current one by `percent` percent, rounding
    /// the increment down.
    pub open spec fn bumped_fee(self, percent: u8) -> int {
        self.current_gas_price + (self.current_gas_price * percent) / 100
    }

    /// A fee bump by `percent` succeeds: the percentage is in 1..=100, the
    /// arithmetic fits in `u64`, and the new bid stays within the ceiling.
    pub open spec fn fee_bump_allowed(self, percent: u8) -> bool {
        &&& 1 <= percent <= 100
        &&& self.current_gas_price * percent <= u64::MAX
        &&& self.bumped_fee(percent) <= self.max_gas_price
    }

    /// `r` is the error with which a fee bump by `percent` is refused.
    pub open spec fn fee_bump_error(self, percent: u8, r: DomainResult<()>) -> bool {
        if percent == 0 || percent > 100 {
            r matches Err(DomainError::InvalidGasConfiguration { reason })
                && reason@ == "increment_percent must be between 1 and 100, got "@ + decimal_text(
                percent as nat,
            )
        } else if self.current_gas_price * percent > u64::MAX {
            r matches Err(DomainError::OverflowDetected { operation })
                && operation@ == "calculating fee increment"@
        } else if self.bumped_fee(percent) > u64::MAX {
            r matches Err(DomainError::OverflowDetected { operation })
                && operation@ == "adding fee increment"@
        } else if self.bumped_fee(percent) > self.max_gas_price {
            r matches Err(DomainError::InvalidGasConfiguration { reason })
                && reason@ == "fee bump would exceed max_gas_price: "@ + decimal_text(
                self.bumped_fee(percent) as nat,
            ) + " > "@ + decimal_text(self.max_gas_price as nat)
        } else {
            false
        }
    }

    /// The error for a transition out of the current status that is not allowed.
    fn invalid_transition(&self, to: &str, reason: &str) -> (r: DomainResult<()>)
        ensures
            transition_error(r, status_text(self.status), to@, reason@),
    {
        Err(
            DomainError::InvalidStateTransition {
                from: self.status.to_display_string(),
                to: String::from_str(to),
                reason: String::from_str(reason),
            },
        )
    }

    /// Creates a Pending job bidding half of `max_gas_price`, with three
    /// retries allowed; refuses a zero gas ceiling.
    pub fn new(job_id: String, target_contract_id: String, payload: Vec<u8>, max_gas_price: u64) -> (r:
        DomainResult<Self>)
        ensures
            max_gas_price == 0 ==> (r matches Err(DomainError::InvalidGasConfiguration { reason })
                && reason@ == "max_gas_price must be greater than zero"@),
            max_gas_price > 0 ==> (r matches Ok(job) && job == (ExecutionJob {
                job_id,
                target_contract_id,
                payload,
                max_gas_price,
                current_gas_price: (max_gas_price / 2) as u64,
                status: JobStatus::Pending,
                retries: 0,
                max_retries: 3,
                transaction_hash: None,
            })),
            r matches Ok(job) ==> job.is_well_formed(),
    {
        if max_gas_price == 0 {
            return Err(
                DomainError::InvalidGasConfiguration {
                    reason: String::from_str("max_gas_price must be greater than zero"),
                },
            );
        }
        Ok(
            ExecutionJob {
                job_id,
                target_contract_id,
                payload,
                max_gas_price,
                current_gas_price: max_gas_price / 2,
                status: JobStatus::Pending,
                retries: 0,
                max_retries: 3,
                transaction_hash: None,
            },
        )
    }

    /// Transition to Signing state
    pub fn mark_signing(&mut self) -> (r: DomainResult<()>)
        ensures
            r is Ok <==> old(self).status is Pending,
            r is Ok <==> lifecycle_successor(old(self).status) == Some(JobStatus::Signing),
            r is Ok ==> *final(self) == old(self).with_status(JobStatus::Signing),
            r is Err ==> *final(self) == *old(self) && transition_error(
                r,
                status_text(old(self).status),
                "Signing"@,
                "can only sign from Pending state"@,
            ),
            old(self).evolves_to(*final(self)),
    {
        match &self.status {
            JobStatus::Pending => {
                self.status = JobStatus::Signing;
                Ok(())
            },
            _ => self.invalid_transition("Signing", "can only sign from Pending state"),
        }
    }

    /// Transition to Simulating state
    pub fn mark_simulating(&mut self) -> (r: DomainResult<()>)
        ensures
            r is Ok <==> old(self).status is Signing,
            r is Ok <==> lifecycle_successor(old(self).status) == Some(JobStatus::Simulating),
            r is Ok ==> *final(self) == old(self).with_status(JobStatus::Simulating),
            r is Err ==> *final(self) == *old(self) && transition_error(
                r,
                status_text(old(self).status),
                "Simulating"@,
                "can only simulate from Signing state"@,
            ),
            old(self).evolves_to(*final(self)),
    {
        match &self.status {
            JobStatus::Signing => {
                self.status = JobStatus::Simulating;
                Ok(())
            },
            _ => self.invalid_transition("Simulating", "can only simulate from Signing state"),
        }
    }

    /// Transition to Submitted state, recording the transaction hash
    pub fn mark_submitted(&mut self, tx_hash: String) -> (r: DomainResult<()>)
        ensures
            r is Ok <==> old(self).status is Simulating,
            r is Ok <==> lifecycle_successor(old(self).status) == Some(JobStatus::Submitted),
            r is Ok ==> *final(self) == (ExecutionJob {
                status: JobStatus::Submitted,
                transaction_hash: Some(tx_hash),
                ..*old(self)
            }),
            r is Err ==> *final(self) == *old(self) && transition_error(
                r,
                status_text(old(self).status),
                "Submitted"@,
                "can only submit from Simulating state"@,
            ),
            old(self).evolves_to(*final(self)),
    {
        match &self.status {
            JobStatus::Simulating => {
                self.status = JobStatus::Submitted;
                self.transaction_hash = Some(tx_hash);
                Ok(())
            },
            _ => self.invalid_transition("Submitted", "can only submit from Simulating state"),
        }
    }

    /// Transition to AwaitingConsensus state
    pub fn mark_awaiting_consensus(&mut self) -> (r: DomainResult<()>)
        ensures
            r is Ok <==> old(self).status is Submitted,
            r is Ok <==> lifecycle_successor(old(self).status) == Some(
                JobStatus::AwaitingConsensus,
            ),
            r is Ok ==> *final(self) == old(self).with_status(JobStatus::AwaitingConsensus),
            r is Err ==> *final(self) == *old(self) && transition_error(
                r,
                status_text(old(self).status),
                "AwaitingConsensus"@,
                "can only await consensus from Submitted state"@,
            ),
            old(self).evolves_to(*final(self)),
    {
        match &self.status {
            JobStatus::Submitted => {
                self.status = JobStatus::AwaitingConsensus;
                Ok(())
            },
            _ => self.invalid_transition(
                "AwaitingConsensus",
                "can only await consensus from Submitted state",
            ),
        }
    }

    /// Transition to Confirmed state
    pub fn mark_confirmed(&mut self) -> (r: DomainResult<()>)
        ensures
            r is Ok <==> old(self).status is AwaitingConsensus,
            r is Ok <==> lifecycle_successor(old(self).status) == Some(JobStatus::Confirmed),
            r is Ok ==> *final(self) == old(self).with_status(JobStatus::Confirmed),
            r is Err ==> *final(self) == *old(self) && transition_error(
                r,
                status_text(old(self).status),
                "Confirmed"@,
                "can only confirm from AwaitingConsensus state"@,
            ),
            old(self).evolves_to(*final(self)),
    {
        match &self.status {
            JobStatus::AwaitingConsensus => {
                self.status = JobStatus::Confirmed;
                Ok(())
            },
            _ => self.invalid_transition(
                "Confirmed",
                "can only confirm from AwaitingConsensus state",
            ),
        }
    }

    /// Transition to Failed state, from any state
    pub fn mark_failed(&mut self, reason: FailureReason)
        ensures
            *final(self) == old(self).with_status(JobStatus::Failed(reason)),
            old(self).evolves_to(*final(self)),
    {
        self.status = JobStatus::Failed(reason);
    }

    /// Check if job can be retried
    pub fn can_retry(&self) -> (r: bool)
        ensures
            r == self.retry_allowed(),
            r == (self.status is Failed && self.retries < self.max_retries),
    {
        match &self.status {
            JobStatus::Failed(_) => self.retries < self.max_retries,
            _ => false,
        }
    }

    /// Increment retry counter and reset to Pending
    pub fn increment_retry(&mut self) -> (r: DomainResult<()>)
        ensures
            r is Ok <==> old(self).retry_allowed(),
            r is Ok ==> old(self).status is Failed && old(self).retries < old(self).max_retries,
            r is Ok ==> *final(self) == old(self).retried(),
            r is Err ==> *final(self) == *old(self) && old(self).retry_error(r),
            old(self).evolves_to(*final(self)),
    {
        if !self.can_retry() {
            let mut reason = String::from_str("max retries (");
            reason.append(u64_to_decimal(self.max_retries as u64).as_str());
            reason.append(") exceeded");
            return self.invalid_transition("Pending (retry)", reason.as_str());
        }
        match self.retries.checked_add(1) {
            Some(next) => {
                self.retries = next;
            },
            None => {
                return Err(
                    DomainError::OverflowDetected {
                        operation: String::from_str("incrementing retry counter"),
                    },
                );
            },
        }
        self.status = JobStatus::Pending;
        self.transaction_hash = None;
        Ok(())
    }

    /// Bump fee by a percentage (for InsufficientFee failures)
    pub fn bump_fee(&mut self, increment_percent: u8) -> (r: DomainResult<()>)
        ensures
            r is Ok <==> old(self).fee_bump_allowed(increment_percent),
            r is Ok ==> *final(self) == old(self).with_fee(
                old(self).bumped_fee(increment_percent) as u64,
            ),
            r is Err ==> *final(self) == *old(self) && old(self).fee_bump_error(
                increment_percent,
                r,
            ),
            old(self).evolves_to(*final(self)),
    {
        if increment_percent == 0 || increment_percent > 100 {
            let mut reason = String::from_str("increment_percent must be between 1 and 100, got ");
            reason.append(u64_to_decimal(increment_percent as u64).as_str());
            return Err(DomainError::InvalidGasConfiguration { reason });
        }
        let increment = match self.current_gas_price.checked_mul(increment_percent as u64) {
            Some(scaled) => scaled / 100,
            None => {
                return Err(
                    DomainError::OverflowDetected {
                        operation: String::from_str("calculating fee increment"),
                    },
                );
            },
        };
        let new_fee = match self.current_gas_price.checked_add(increment) {
            Some(fee) => fee,
            None => {
                return Err(
                    DomainError::OverflowDetected {
                        operation: String::from_str("adding fee increment"),
                    },
                );
            },
        };
        if new_fee > self.max_gas_price {
            let mut reason = String::from_str("fee bump would exceed max_gas_price: ");
            reason.append(u64_to_decimal(new_fee).as_str());
            reason.append(" > ");
            reason.append(u64_to_decimal(self.max_gas_price).as_str());
            return Err(DomainError::InvalidGasConfiguration { reason });
        }
        self.current_gas_price = new_fee;
        Ok(())
    }

    /// Handle TxBadSeq failure - immediate retry after sequence sync, without
    /// spending a retry
    pub fn handle_bad_sequence(&mut self) -> (r: DomainResult<()>)
        ensures
            r is Ok <==> old(self).status == JobStatus::Failed(FailureReason::TxBadSeq),
            r is Ok ==> *final(self) == (ExecutionJob {
                status: JobStatus::Pending,
                transaction_hash: None,
                ..*old(self)
            }),
            r is Err ==> *final(self) == *old(self) && transition_error(
                r,
                status_text(old(self).status),
                "Pending (sequence fix)"@,
                "can only handle bad sequence from Failed(TxBadSeq) state"@,
            ),
            old(self).evolves_to(*final(self)),
    {
        match &self.status {
            JobStatus::Failed(FailureReason::TxBadSeq) => {
                self.status = JobStatus::Pending;
                self.transaction_hash = None;
                Ok(())
            },
            _ => self.invalid_transition(
                "Pending (sequence fix)",
                "can only handle bad sequence from Failed(TxBadSeq) state",
            ),
        }
    }

    /// Handle InsufficientFee failure - bump fee and retry.
    ///
    /// The fee bump comes first: when it succeeds and the retry is then
    /// refused (no retries left), the bumped fee stays and the retry's error
    /// is returned.
    pub fn handle_insufficient_fee(&mut self, bump_percent: u8) -> (r: DomainResult<()>)
        ensures
            old(self).status != JobStatus::Failed(FailureReason::InsufficientFee) ==> *final(self)
                == *old(self) && transition_error(
                r,
                status_text(old(self).status),
                "Pending (fee bump)"@,
                "can only handle insufficient fee from Failed(InsufficientFee) state"@,
            ),
            old(self).status == JobStatus::Failed(FailureReason::InsufficientFee) ==> {
                let bumped = old(self).with_fee(old(self).bumped_fee(bump_percent) as u64);
                &&& !old(self).fee_bump_allowed(bump_percent) ==> *final(self) == *old(self)
                    && old(self).fee_bump_error(bump_percent, r)
                &&& old(self).fee_bump_allowed(bump_percent) && bumped.retry_allowed() ==> r is Ok
                    && *final(self) == bumped.retried()
                &&& old(self).fee_bump_allowed(bump_percent) && !bumped.retry_allowed()
                    ==> *final(self) == bumped && bumped.retry_error(r)
            },
            old(self).evolves_to(*final(self)),
    {
        match &self.status {
            JobStatus::Failed(FailureReason::InsufficientFee) => {
                let bumped = self.bump_fee(bump_percent);
                if bumped.is_err() {
                    return bumped;
                }
                let retried = self.increment_retry();
                if retried.is_err() {
                    return retried;
                }
                Ok(())
            },
            _ => self.invalid_transition(
                "Pending (fee bump)",
                "can only handle insufficient fee from Failed(InsufficientFee) state",
            ),
        }
    }

    /// Check if job is in terminal state
    pub fn is_terminal(&self) -> (r: bool)
        ensures
            r == is_terminal_status(self.status),
            r == (self.status is Confirmed || self.status is Failed),
    {
        match &self.status {
            JobStatus::Confirmed => true,
            JobStatus::Failed(_) => true,
            _ => false,
        }
    }
}

/// Every failed job is terminal, whatever the failure reason, and so is a
/// confirmed one; no forward transition leaves either. Jobs still on the
/// path (Pending through AwaitingConsensus) are not terminal.
pub proof fn lemma_failed_and_confirmed_are_terminal(reason: FailureReason)
    ensures
        is_terminal_status(JobStatus::Failed(reason)),
        lifecycle_successor(JobStatus::Failed(reason)) is None,
        is_terminal_status(JobStatus::Confirmed),
        lifecycle_successor(JobStatus::Confirmed) is None,
        !is_terminal_status(JobStatus::Pending),
        !is_terminal_status(JobStatus::Signing),
        !is_terminal_status(JobStatus::Simulating),
        !is_terminal_status(JobStatus::Submitted),
        !is_terminal_status(JobStatus::AwaitingConsensus),
{
}

/// Each forward status has exactly one predecessor: Signing is entered only
/// from Pending, Simulating only from Signing, Submitted only from
/// Simulating, AwaitingConsensus only from Submitted, and Confirmed only from
/// AwaitingConsensus.
pub proof fn lemma_lifecycle_predecessors(s: JobStatus)
    ensures
        lifecycle_successor(s) == Some(JobStatus::Signing) <==> s == JobStatus::Pending,
        lifecycle_successor(s) == Some(JobStatus::Simulating) <==> s == JobStatus::Signing,
        lifecycle_successor(s) == Some(JobStatus::Submitted) <==> s == JobStatus::Simulating,
        lifecycle_successor(s) == Some(JobStatus::AwaitingConsensus) <==> s
            == JobStatus::Submitted,
        lifecycle_successor(s) == Some(JobStatus::Confirmed) <==> s
            == JobStatus::AwaitingConsensus,
        lifecycle_successor(s) != Some(JobStatus::Pending),
{
}

/// Only a failed job may be retried, and a failed job may be retried exactly
/// while it has retries left; a job that is pending, in flight or confirmed
/// never is.
pub proof fn lemma_only_failed_jobs_retry(job: ExecutionJob)
    ensures
        job.retry_allowed() ==> job.status is Failed,
        job.retry_allowed() ==> job.retries < job.max_retries,
        job.status is Failed && job.retries < job.max_retries ==> job.retry_allowed(),
        !(job.status is Failed) ==> !job.retry_allowed(),
{
}

/// A job is in a terminal state exactly when no forward lifecycle
/// transition (sign, simulate, submit, await consensus, confirm) is open to it.
pub proof fn lemma_terminal_iff_no_forward_transition(s: JobStatus)
    ensures
        is_terminal_status(s) <==> lifecycle_successor(s) is None,
{
}

/// The forward lifecycle never leads back to Pending nor into Failed: only a
/// failure report leaves the path, and only a retry or a sequence fix returns
/// to its start.
pub proof fn lemma_forward_transitions_move_on(s: JobStatus)
    requires
        lifecycle_successor(s) is Some,
    ensures
        !(lifecycle_successor(s).unwrap() is Pending),
        !(lifecycle_successor(s).unwrap() is Failed),
        lifecycle_successor(s).unwrap() != s,
{
}

/// What one operation keeps, any sequence of operations keeps: identity and
/// limits stay, retries and fee bid never go down, well-formedness holds.
pub proof fn lemma_evolves_to_transitive(a: ExecutionJob, b: ExecutionJob, c: ExecutionJob)
    requires
        a.evolves_to(b),
        b.evolves_to(c),
    ensures
        a.evolves_to(c),
{
}

/// A well-formed job whose retries are spent cannot be retried; every retry
/// of a well-formed job spends exactly one of at most `max_retries` retries.
pub proof fn lemma_retries_are_bounded(job: ExecutionJob)
    requires
        job.is_well_formed(),
    ensures
        job.retries == job.max_retries ==> !job.retry_allowed(),
        job.retry_allowed() ==> job.retried().retries == job.retries + 1
            && job.retried().retries <= job.max_retries && job.retried().is_well_formed(),
{
}

} // verus!
