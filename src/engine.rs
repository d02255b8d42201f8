//! The transaction processor: the sole owner of the account map and of the
//! record of accepted deposits.

use crate::models::{fits, Account, Transaction, TxType};
use std::collections::HashMap;
use vstd::prelude::*;

verus! {

broadcast use vstd::std_specs::hash::group_hash_axioms;

/// What the engine keeps of every accepted deposit, so that later disputes,
/// resolves and chargebacks can refer to its client and amount.
#[derive(Clone, Copy, Debug, PartialEq, Eq, Structural)]
pub struct StoredTx {
    pub client: u16,
    pub amount: i128,
    pub under_dispute: bool,
}

/// The abstract state of an [`Engine`]: accounts by client, deposits by id.
pub struct Ledger {
    pub accounts: Map<u16, Account>,
    pub deposits: Map<u32, StoredTx>,
}

/// New balances that can all be represented, the total included.
pub open spec fn balances_ok(available: int, held: int) -> bool {
    fits(available) && fits(held) && fits(available + held)
}

/// `acc` with its balances replaced and its lock kept.
pub open spec fn with_balances(acc: Account, available: int, held: int) -> Account {
    Account { available: available as i128, held: held as i128, locked: acc.locked }
}

impl Ledger {
    /// Every account's total is representable.
    pub open spec fn wf(self) -> bool {
        forall|c: u16| #[trigger] self.accounts.contains_key(c) ==> self.accounts[c].wf()
    }

    /// The account of `client`, or the empty one if it has none yet.
    pub open spec fn account_or_empty(self, client: u16) -> Account {
        if self.accounts.contains_key(client) {
            self.accounts[client]
        } else {
            Account::empty()
        }
    }

    /// A deposit of `amount` by `client` under id `tx`.
    pub open spec fn deposit(self, client: u16, tx: u32, amount: int) -> Ledger {
        let acc = self.account_or_empty(client);
        if amount <= 0 || self.deposits.contains_key(tx) || acc.locked || !balances_ok(
            acc.available + amount,
            acc.held as int,
        ) {
            self
        } else {
            Ledger {
                accounts: self.accounts.insert(
                    client,
                    with_balances(acc, acc.available + amount, acc.held as int),
                ),
                deposits: self.deposits.insert(
                    tx,
                    StoredTx { client, amount: amount as i128, under_dispute: false },
                ),
            }
        }
    }

    /// A withdrawal of `amount` by `client`.
    pub open spec fn withdraw(self, client: u16, amount: int) -> Ledger {
        if amount <= 0 || !self.accounts.contains_key(client) {
            self
        } else {
            let acc = self.accounts[client];
            if acc.locked || acc.available < amount || !balances_ok(
                acc.available - amount,
                acc.held as int,
            ) {
                self
            } else {
                Ledger {
                    accounts: self.accounts.insert(
                        client,
                        with_balances(acc, acc.available - amount, acc.held as int),
                    ),
                    deposits: self.deposits,
                }
            }
        }
    }

    /// Deposit `tx` exists, belongs to `client`, whose account exists and is not locked.
    pub open spec fn can_reference(self, client: u16, tx: u32) -> bool {
        &&& self.deposits.contains_key(tx)
        &&& self.deposits[tx].client == client
        &&& self.accounts.contains_key(client)
        &&& !self.accounts[client].locked
    }

    /// `client` disputes deposit `tx`: its amount moves from available to held.
    pub open spec fn dispute(self, client: u16, tx: u32) -> Ledger {
        if !self.can_reference(client, tx) || self.deposits[tx].under_dispute {
            self
        } else {
            let acc = self.accounts[client];
            let dep = self.deposits[tx];
            if !balances_ok(acc.available - dep.amount, acc.held + dep.amount) {
                self
            } else {
                Ledger {
                    accounts: self.accounts.insert(
                        client,
                        with_balances(acc, acc.available - dep.amount, acc.held + dep.amount),
                    ),
                    deposits: self.deposits.insert(
                        tx,
                        StoredTx { client: dep.client, amount: dep.amount, under_dispute: true },
                    ),
                }
            }
        }
    }

    /// `client` resolves the dispute on `tx`: its amount moves back from held to available.
    pub open spec fn resolve(self, client: u16, tx: u32) -> Ledger {
        if !self.can_reference(client, tx) || !self.deposits[tx].under_dispute {
            self
        } else {
            let acc = self.accounts[client];
            let dep = self.deposits[tx];
            if !balances_ok(acc.available + dep.amount, acc.held - dep.amount) {
                self
            } else {
                Ledger {
                    accounts: self.accounts.insert(
                        client,
                        with_balances(acc, acc.available + dep.amount, acc.held - dep.amount),
                    ),
                    deposits: self.deposits.insert(
                        tx,
                        StoredTx { client: dep.client, amount: dep.amount, under_dispute: false },
                    ),
                }
            }
        }
    }

    /// `client` charges back the disputed `tx`: its amount leaves held and the
    /// account is locked.
    pub open spec fn chargeback(self, client: u16, tx: u32) -> Ledger {
        if !self.can_reference(client, tx) || !self.deposits[tx].under_dispute {
            self
        } else {
            let acc = self.accounts[client];
            let dep = self.deposits[tx];
            if !balances_ok(acc.available as int, acc.held - dep.amount) {
                self
            } else {
                Ledger {
                    accounts: self.accounts.insert(
                        client,
                        Account {
                            available: acc.available,
                            held: (acc.held - dep.amount) as i128,
                            locked: true,
                        },
                    ),
                    deposits: self.deposits.insert(
                        tx,
                        StoredTx { client: dep.client, amount: dep.amount, under_dispute: false },
                    ),
                }
            }
        }
    }

    /// The ledger after one transaction. A deposit or withdrawal without an
    /// amount changes nothing; the other kinds never read the amount.
    pub open spec fn apply(self, t: Transaction) -> Ledger {
        match t.kind {
            TxType::Deposit => match t.amount {
                Some(a) => self.deposit(t.client, t.tx, a as int),
                None => self,
            },
            TxType::Withdrawal => match t.amount {
                Some(a) => self.withdraw(t.client, a as int),
                None => self,
            },
            TxType::Dispute => self.dispute(t.client, t.tx),
            TxType::Resolve => self.resolve(t.client, t.tx),
            TxType::Chargeback => self.chargeback(t.client, t.tx),
        }
    }
}

/// Applying any transaction keeps every account's total representable, so
/// `available + held == total` can be observed after every step.
pub proof fn lemma_apply_keeps_totals(s: Ledger, t: Transaction)
    requires
        s.wf(),
    ensures
        s.apply(t).wf(),
{
}

/// The ledger after the transactions of `ts`, applied in order.
pub open spec fn apply_all(s: Ledger, ts: Seq<Transaction>) -> Ledger
    decreases ts.len(),
{
    if ts.len() == 0 {
        s
    } else {
        apply_all(s.apply(ts[0]), ts.drop_first())
    }
}

/// Every account's total stays representable through any sequence of
/// transactions, so `available + held == total` holds at every observation.
pub proof fn lemma_apply_all_keeps_totals(s: Ledger, ts: Seq<Transaction>)
    requires
        s.wf(),
    ensures
        apply_all(s, ts).wf(),
    decreases ts.len(),
{
    if ts.len() > 0 {
        lemma_apply_keeps_totals(s, ts[0]);
        lemma_apply_all_keeps_totals(s.apply(ts[0]), ts.drop_first());
    }
}

/// Once locked, an account keeps its balances and its lock through every
/// later sequence of transactions.
pub proof fn lemma_locked_account_frozen_forever(s: Ledger, ts: Seq<Transaction>, c: u16)
    requires
        s.accounts.contains_key(c),
        s.accounts[c].locked,
    ensures
        apply_all(s, ts).accounts.contains_key(c),
        apply_all(s, ts).accounts[c] == s.accounts[c],
    decreases ts.len(),
{
    if ts.len() > 0 {
        lemma_locked_account_frozen(s, ts[0], c);
        lemma_locked_account_frozen_forever(s.apply(ts[0]), ts.drop_first(), c);
    }
}

/// A locked account is never changed, nor unlocked, by any transaction.
pub proof fn lemma_locked_account_frozen(s: Ledger, t: Transaction, c: u16)
    requires
        s.accounts.contains_key(c),
        s.accounts[c].locked,
    ensures
        s.apply(t).accounts.contains_key(c),
        s.apply(t).accounts[c] == s.accounts[c],
{
}

/// A deposit applied a second time under the same id has no further effect,
/// so it raises `available` at most once.
pub proof fn lemma_deposit_once(s: Ledger, t: Transaction)
    requires
        t.kind == TxType::Deposit,
    ensures
        s.apply(t).apply(t) == s.apply(t),
{
}

/// A deposit under an id that an accepted deposit already carries changes
/// nothing, however many transactions came in between.
pub proof fn lemma_known_deposit_id(s: Ledger, t: Transaction)
    requires
        t.kind == TxType::Deposit,
        s.deposits.contains_key(t.tx),
    ensures
        s.apply(t) == s,
{
}

/// Accepted deposits are never forgotten: every transaction keeps the ids of
/// the deposit record.
pub proof fn lemma_deposit_ids_kept(s: Ledger, t: Transaction, id: u32)
    requires
        s.deposits.contains_key(id),
    ensures
        s.apply(t).deposits.contains_key(id),
        s.apply(t).deposits[id].client == s.deposits[id].client,
        s.apply(t).deposits[id].amount == s.deposits[id].amount,
{
}

/// A dispute of an id that no accepted deposit carries changes nothing.
pub proof fn lemma_dispute_unknown_tx(s: Ledger, t: Transaction)
    requires
        t.kind == TxType::Dispute,
        !s.deposits.contains_key(t.tx),
    ensures
        s.apply(t) == s,
{
}

/// A dispute of another client's deposit changes nothing.
pub proof fn lemma_dispute_foreign_client(s: Ledger, t: Transaction)
    requires
        t.kind == TxType::Dispute,
        s.deposits.contains_key(t.tx),
        s.deposits[t.tx].client != t.client,
    ensures
        s.apply(t) == s,
{
}

/// A resolve or a chargeback of a deposit that is not under dispute changes nothing.
pub proof fn lemma_settle_undisputed(s: Ledger, t: Transaction)
    requires
        t.kind == TxType::Resolve || t.kind == TxType::Chargeback,
        !(s.deposits.contains_key(t.tx) && s.deposits[t.tx].under_dispute),
    ensures
        s.apply(t) == s,
{
}

/// A withdrawal of more than the available funds changes nothing.
pub proof fn lemma_overdraft(s: Ledger, t: Transaction, amount: i128)
    requires
        t.kind == TxType::Withdrawal,
        t.amount == Some(amount),
        s.accounts.contains_key(t.client),
        amount > s.accounts[t.client].available,
    ensures
        s.apply(t) == s,
{
}

/// Streaming payments engine. Feed transactions through [`Engine::process`],
/// then read `accounts` for the final report.
pub struct Engine {
    pub accounts: HashMap<u16, Account>,
    pub deposits: HashMap<u32, StoredTx>,
}

impl View for Engine {
    type V = Ledger;

    open spec fn view(&self) -> Ledger {
        Ledger { accounts: self.accounts@, deposits: self.deposits@ }
    }
}

impl Engine {
    /// The engine's invariant.
    pub open spec fn wf(&self) -> bool {
        self@.wf()
    }

    /// A new engine with no accounts and no deposits.
    pub fn new() -> (r: Engine)
        ensures
            r@.accounts == Map::<u16, Account>::empty(),
            r@.deposits == Map::<u32, StoredTx>::empty(),
            r.wf(),
    {
        Engine { accounts: HashMap::new(), deposits: HashMap::new() }
    }

    /// The account of `client`, if it has one.
    pub fn account(&self, client: u16) -> (r: Option<Account>)
        ensures
            r == (if self@.accounts.contains_key(client) {
                Some(self@.accounts[client])
            } else {
                None
            }),
    {
        match self.accounts.get(&client) {
            Some(a) => Some(*a),
            None => None,
        }
    }

    /// Applies one transaction. Transactions that break a rule of the ledger
    /// are dropped without effect.
    pub fn process(&mut self, t: Transaction)
        requires
            old(self).wf(),
        ensures
            final(self)@ == old(self)@.apply(t),
            final(self).wf(),
    {
        match t.kind {
            TxType::Deposit => {
                if let Some(a) = t.amount {
                    self.deposit(t.client, t.tx, a);
                }
            },
            TxType::Withdrawal => {
                if let Some(a) = t.amount {
                    self.withdraw(t.client, a);
                }
            },
            TxType::Dispute => self.dispute(t.client, t.tx),
            TxType::Resolve => self.resolve(t.client, t.tx),
            TxType::Chargeback => self.chargeback(t.client, t.tx),
        }
    }

    fn deposit(&mut self, client: u16, tx: u32, amount: i128)
        requires
            old(self).wf(),
        ensures
            final(self)@ == old(self)@.deposit(client, tx, amount as int),
            final(self).wf(),
    {
        if amount <= 0 || self.deposits.contains_key(&tx) {
            return;
        }
        let acc = match self.accounts.get(&client) {
            Some(a) => *a,
            None => Account::new(),
        };
        if acc.locked {
            return;
        }
        let available = match acc.available.checked_add(amount) {
            Some(v) => v,
            None => return,
        };
        if available.checked_add(acc.held).is_none() {
            return;
        }
        self.accounts.insert(client, Account { available, held: acc.held, locked: acc.locked });
        self.deposits.insert(tx, StoredTx { client, amount, under_dispute: false });
    }

    fn withdraw(&mut self, client: u16, amount: i128)
        requires
            old(self).wf(),
        ensures
            final(self)@ == old(self)@.withdraw(client, amount as int),
            final(self).wf(),
    {
        if amount <= 0 {
            return;
        }
        let acc = match self.accounts.get(&client) {
            Some(a) => *a,
            None => return,
        };
        if acc.locked || acc.available < amount {
            return;
        }
        let available = acc.available - amount;
        if available.checked_add(acc.held).is_none() {
            return;
        }
        self.accounts.insert(client, Account { available, held: acc.held, locked: acc.locked });
    }

    /// The deposit `tx` and the account of `client`, where the deposit
    /// belongs to that client and the account is not locked.
    fn referenced(&self, client: u16, tx: u32) -> (r: Option<(StoredTx, Account)>)
        ensures
            r == (if self@.can_reference(client, tx) {
                Some((self@.deposits[tx], self@.accounts[client]))
            } else {
                None
            }),
    {
        let dep = match self.deposits.get(&tx) {
            Some(d) => *d,
            None => return None,
        };
        if dep.client != client {
            return None;
        }
        let acc = match self.accounts.get(&client) {
            Some(a) => *a,
            None => return None,
        };
        if acc.locked {
            return None;
        }
        Some((dep, acc))
    }

    fn dispute(&mut self, client: u16, tx: u32)
        requires
            old(self).wf(),
        ensures
            final(self)@ == old(self)@.dispute(client, tx),
            final(self).wf(),
    {
        let (dep, acc) = match self.referenced(client, tx) {
            Some(p) => p,
            None => return,
        };
        if dep.under_dispute {
            return;
        }
        let available = match acc.available.checked_sub(dep.amount) {
            Some(v) => v,
            None => return,
        };
        let held = match acc.held.checked_add(dep.amount) {
            Some(v) => v,
            None => return,
        };
        if available.checked_add(held).is_none() {
            return;
        }
        self.accounts.insert(client, Account { available, held, locked: acc.locked });
        self.deposits.insert(
            tx,
            StoredTx { client: dep.client, amount: dep.amount, under_dispute: true },
        );
    }

    fn resolve(&mut self, client: u16, tx: u32)
        requires
            old(self).wf(),
        ensures
            final(self)@ == old(self)@.resolve(client, tx),
            final(self).wf(),
    {
        let (dep, acc) = match self.referenced(client, tx) {
            Some(p) => p,
            None => return,
        };
        if !dep.under_dispute {
            return;
        }
        let available = match acc.available.checked_add(dep.amount) {
            Some(v) => v,
            None => return,
        };
        let held = match acc.held.checked_sub(dep.amount) {
            Some(v) => v,
            None => return,
        };
        if available.checked_add(held).is_none() {
            return;
        }
        self.accounts.insert(client, Account { available, held, locked: acc.locked });
        self.deposits.insert(
            tx,
            StoredTx { client: dep.client, amount: dep.amount, under_dispute: false },
        );
    }

    fn chargeback(&mut self, client: u16, tx: u32)
        requires
            old(self).wf(),
        ensures
            final(self)@ == old(self)@.chargeback(client, tx),
            final(self).wf(),
    {
        let (dep, acc) = match self.referenced(client, tx) {
            Some(p) => p,
            None => return,
        };
        if !dep.under_dispute {
            return;
        }
        let held = match acc.held.checked_sub(dep.amount) {
            Some(v) => v,
            None => return,
        };
        if acc.available.checked_add(held).is_none() {
            return;
        }
        self.accounts.insert(client, Account { available: acc.available, held, locked: true });
        self.deposits.insert(
            tx,
            StoredTx { client: dep.client, amount: dep.amount, under_dispute: false },
        );
    }
}

} // verus!
