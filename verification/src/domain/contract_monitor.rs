//! A monitored contract entry and the rule that decides when its storage
//! time-to-live must be extended.
use vstd::prelude::*;

verus! {

/// The kind of storage whose time-to-live is tracked.
#[derive(Debug, Clone, PartialEq, Eq)]
pub enum StorageType {
    Persistent,
    Instance,
}

#[derive(Debug, Clone, PartialEq, Eq)]
pub struct ContractMonitor {
    pub contract_id: String,
    pub storage_type: StorageType,
    pub target_threshold: u32,
    pub live_ledger_expiration_bound: u32,
}

impl ContractMonitor {
    /// The ledgers left before the entry expires, as of `current_ledger`;
    /// `None` once the ledger is past the expiration bound.
    pub open spec fn ledgers_left(self, current_ledger: u32) -> Option<u32> {
        if current_ledger <= self.live_ledger_expiration_bound {
            Some((self.live_ledger_expiration_bound - current_ledger) as u32)
        } else {
            None
        }
    }

    /// An extension is due when at most `target_threshold` ledgers are left,
    /// or the entry has already expired: the expiration bound lies no further
    /// than `target_threshold` ledgers ahead of `current_ledger`.
    pub open spec fn extension_due(self, current_ledger: u32) -> bool {
        self.live_ledger_expiration_bound <= current_ledger + self.target_threshold
    }

    pub fn new(
        contract_id: String,
        storage_type: StorageType,
        target_threshold: u32,
        live_ledger_expiration_bound: u32,
    ) -> (m: Self)
        ensures
            m == (ContractMonitor {
                contract_id,
                storage_type,
                target_threshold,
                live_ledger_expiration_bound,
            }),
    {
        ContractMonitor { contract_id, storage_type, target_threshold, live_ledger_expiration_bound }
    }

    pub fn remaining_life(&self, current_ledger: u32) -> (r: Option<u32>)
        ensures
            r == self.ledgers_left(current_ledger),
            current_ledger <= self.live_ledger_expiration_bound ==> r == Some(
                (self.live_ledger_expiration_bound - current_ledger) as u32,
            ),
            current_ledger > self.live_ledger_expiration_bound ==> r is None,
    {
        self.live_ledger_expiration_bound.checked_sub(current_ledger)
    }

    pub fn requires_extension(&self, current_ledger: u32) -> (r: bool)
        ensures
            r == self.extension_due(current_ledger),
            current_ledger <= self.live_ledger_expiration_bound ==> (r <==> self.live_ledger_expiration_bound
                - current_ledger <= self.target_threshold),
            current_ledger > self.live_ledger_expiration_bound ==> r,
    {
        match self.remaining_life(current_ledger) {
            Some(rem) => rem <= self.target_threshold,
            None => true,
        }
    }
}

/// An extension is due exactly when the remaining life is at most the
/// monitor's own threshold, and always once the expiration bound has passed.
pub proof fn lemma_extension_due_iff_within_threshold(m: ContractMonitor, current_ledger: u32)
    ensures
        current_ledger <= m.live_ledger_expiration_bound ==> m.ledgers_left(current_ledger)
            == Some((m.live_ledger_expiration_bound - current_ledger) as u32),
        current_ledger <= m.live_ledger_expiration_bound ==> (m.extension_due(current_ledger)
            <==> m.live_ledger_expiration_bound - current_ledger <= m.target_threshold),
        current_ledger > m.live_ledger_expiration_bound ==> m.ledgers_left(current_ledger) is None
            && m.extension_due(current_ledger),
{
}

/// A monitor becomes due exactly at ledger `bound - threshold`, and not one
/// ledger earlier.
pub proof fn lemma_due_from_bound_minus_threshold(m: ContractMonitor)
    requires
        m.target_threshold < m.live_ledger_expiration_bound,
    ensures
        m.extension_due((m.live_ledger_expiration_bound - m.target_threshold) as u32),
        !m.extension_due((m.live_ledger_expiration_bound - m.target_threshold - 1) as u32),
{
}

/// Raising the threshold (same expiration bound) can only make more ledgers
/// due.
pub proof fn lemma_higher_threshold_due_earlier(
    low: ContractMonitor,
    high: ContractMonitor,
    current_ledger: u32,
)
    requires
        low.live_ledger_expiration_bound == high.live_ledger_expiration_bound,
        low.target_threshold <= high.target_threshold,
        low.extension_due(current_ledger),
    ensures
        high.extension_due(current_ledger),
{
}

/// Once an extension is due, it stays due at every later ledger.
pub proof fn lemma_extension_due_stays_due(m: ContractMonitor, earlier: u32, later: u32)
    requires
        earlier <= later,
        m.extension_due(earlier),
    ensures
        m.extension_due(later),
{
}

/// An entry whose expiration bound has passed always needs an extension.
pub proof fn lemma_expired_needs_extension(m: ContractMonitor, current_ledger: u32)
    requires
        m.ledgers_left(current_ledger) is None,
    ensures
        m.extension_due(current_ledger),
{
}

} // verus!
