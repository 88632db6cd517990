//! The keeper vault: the escrow that pays network fees, and the reserves it
//! must keep for itself and for every contract it protects.
use vstd::prelude::*;

verus! {

#[derive(Debug, Clone, PartialEq, Eq)]
pub struct KeeperVault {
    pub client_account: String,
    pub vault_balance: u64,
    pub min_reserve: u64,
    pub registered_contracts: Vec<RegisteredContract>,
}

#[derive(Debug, Clone, PartialEq, Eq)]
pub struct RegisteredContract {
    pub contract_id: String,
    pub safe_reserve: u64,
    pub assigned_gas_limit: u64,
}

/// The sum of the safe reserves of `contracts`.
pub open spec fn reserves_total(contracts: Seq<RegisteredContract>) -> int
    decreases contracts.len(),
{
    if contracts.len() == 0 {
        0
    } else {
        reserves_total(contracts.drop_last()) + contracts.last().safe_reserve
    }
}

/// The reserves of a prefix never exceed those of the whole sequence.
proof fn lemma_prefix_reserves_le(contracts: Seq<RegisteredContract>, k: int)
    requires
        0 <= k <= contracts.len(),
    ensures
        0 <= reserves_total(contracts.take(k)) <= reserves_total(contracts),
    decreases contracts.len(),
{
    if contracts.len() > 0 {
        if k == contracts.len() {
            assert(contracts.take(k) =~= contracts);
            lemma_prefix_reserves_le(contracts.drop_last(), k - 1);
            assert(contracts.drop_last().take(k - 1) =~= contracts.drop_last());
        } else {
            lemma_prefix_reserves_le(contracts.drop_last(), k);
            assert(contracts.drop_last().take(k) =~= contracts.take(k));
        }
    }
}

impl KeeperVault {
    /// What the vault must hold back: its own minimum reserve plus the safe
    /// reserve of every registered contract.
    pub open spec fn committed_reserves(self) -> int {
        self.min_reserve + reserves_total(self.registered_contracts@)
    }

    /// The vault invariant: Vault Balance >= Min Reserve + Sum(Safe Reserves).
    pub open spec fn is_solvent(self) -> bool {
        self.vault_balance >= self.committed_reserves()
    }

    /// A vault with no registered contracts.
    pub fn new(client_account: String, vault_balance: u64, min_reserve: u64) -> (v: Self)
        ensures
            v.client_account == client_account,
            v.vault_balance == vault_balance,
            v.min_reserve == min_reserve,
            v.registered_contracts@ == Seq::<RegisteredContract>::empty(),
    {
        KeeperVault { client_account, vault_balance, min_reserve, registered_contracts: Vec::new() }
    }

    /// The vault can take on a new contract with `reserve` as its safe
    /// reserve: its balance covers its minimum reserve, every registered
    /// reserve, and the new one.
    pub open spec fn affords(self, reserve: u64) -> bool {
        self.vault_balance >= self.committed_reserves() + reserve
    }

    /// Protects the invariant: Vault Balance >= Min Reserve + Sum(Target Contract Safe Reserves)
    /// once a contract with `contract_safe_reserve` joins. The sum is taken
    /// over the integers: where it exceeds `u64::MAX`, no balance covers it.
    pub fn can_afford_new_contract(&self, contract_safe_reserve: u64) -> (r: bool)
        ensures
            r == self.affords(contract_safe_reserve),
    {
        let mut total: u64 = 0;
        let mut i: usize = 0;
        while i < self.registered_contracts.len()
            invariant
                i <= self.registered_contracts@.len(),
                total == reserves_total(self.registered_contracts@.take(i as int)),
            decreases self.registered_contracts@.len() - i,
        {
            proof {
                let s = self.registered_contracts@;
                assert(s.take(i + 1).drop_last() =~= s.take(i as int));
                lemma_prefix_reserves_le(s, i + 1);
            }
            match total.checked_add(self.registered_contracts[i].safe_reserve) {
                Some(next) => {
                    total = next;
                },
                None => {
                    // Already the registered reserves alone exceed any balance.
                    return false;
                },
            }
            i = i + 1;
        }
        proof {
            assert(self.registered_contracts@.take(i as int) =~= self.registered_contracts@);
        }
        let committed = match self.min_reserve.checked_add(total) {
            Some(sum) => sum,
            None => {
                return false;
            },
        };
        match committed.checked_add(contract_safe_reserve) {
            Some(required) => self.vault_balance >= required,
            None => false,
        }
    }

    /// Registers `contract` if the vault can still cover every reserve with it.
    pub fn register_contract(&mut self, contract: RegisteredContract) -> (r: Result<(), String>)
        ensures
            r is Ok <==> old(self).affords(contract.safe_reserve),
            r is Ok ==> final(self).registered_contracts@ == old(self).registered_contracts@.push(
                contract,
            ) && final(self).client_account == old(self).client_account && final(self).vault_balance
                == old(self).vault_balance && final(self).min_reserve == old(self).min_reserve,
            r matches Err(msg) ==> *final(self) == *old(self) && msg@
                == "Insufficient vault balance to register contract"@,
            r is Ok ==> final(self).committed_reserves() == old(self).committed_reserves()
                + contract.safe_reserve,
            r is Ok ==> final(self).is_solvent(),
            old(self).is_solvent() ==> final(self).is_solvent(),
    {
        if !self.can_afford_new_contract(contract.safe_reserve) {
            return Err(String::from_str("Insufficient vault balance to register contract"));
        }
        self.registered_contracts.push(contract);
        proof {
            assert(self.registered_contracts@.drop_last() =~= old(self).registered_contracts@);
        }
        Ok(())
    }
}

/// The reserves of a list of contracts are the plain sum of their safe
/// reserves: nothing for no contracts, and each added contract adds exactly
/// its own safe reserve.
pub proof fn lemma_reserves_total_is_sum(contracts: Seq<RegisteredContract>, c: RegisteredContract)
    ensures
        reserves_total(Seq::<RegisteredContract>::empty()) == 0,
        reserves_total(contracts.push(c)) == reserves_total(contracts) + c.safe_reserve,
        reserves_total(seq![c]) == c.safe_reserve,
{
    assert(contracts.push(c).drop_last() =~= contracts);
    assert(seq![c].drop_last() =~= Seq::<RegisteredContract>::empty());
}

/// Registering a contract raises what the vault holds back by exactly the
/// contract's safe reserve, so the next affordability check counts it.
pub proof fn lemma_registration_commits_reserve(
    before: KeeperVault,
    after: KeeperVault,
    c: RegisteredContract,
    reserve: u64,
)
    requires
        after.registered_contracts@ == before.registered_contracts@.push(c),
        after.min_reserve == before.min_reserve,
        after.vault_balance == before.vault_balance,
    ensures
        after.committed_reserves() == before.committed_reserves() + c.safe_reserve,
        after.affords(reserve) <==> before.vault_balance >= before.min_reserve + reserves_total(
            before.registered_contracts@,
        ) + c.safe_reserve + reserve,
{
    lemma_reserves_total_is_sum(before.registered_contracts@, c);
}

/// A smaller safe reserve is affordable whenever a larger one is.
pub proof fn lemma_affordability_monotone(vault: KeeperVault, smaller: u64, larger: u64)
    requires
        smaller <= larger,
        vault.affords(larger),
    ensures
        vault.affords(smaller),
{
}

/// A vault that can afford nothing beyond its reserves is exactly a solvent
/// one: affording a zero reserve is the reserve invariant itself.
pub proof fn lemma_affords_zero_is_solvency(vault: KeeperVault)
    ensures
        vault.affords(0) <==> vault.is_solvent(),
{
}

} // verus!
