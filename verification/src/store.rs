//! The persisted state of the escrow system: three record keyspaces and the
//! audit trail, all keyed by transaction identifier.
//!
//! Agreements, transactions and disputes are different entities and never
//! share a storage slot: each kind lives in a keyspace of its own. The store
//! is seen in specifications as a [`StoreModel`], four maps from identifier
//! to model.

use vstd::prelude::*;

verus! {

use crate::audit::{AuditEntry, AuditEntryModel, AuditLog};
use crate::kv::KvList;
use crate::types::{
    Agreement, AgreementModel, Dispute, DisputeModel, Transaction, TransactionModel,
    TransactionState,
};
use vstd::string::StringExecFns;

/// Ghost model of the whole persisted state.
#[verifier::ext_equal]
pub struct StoreModel {
    pub agreements: Map<Seq<char>, AgreementModel>,
    pub transactions: Map<Seq<char>, TransactionModel>,
    pub disputes: Map<Seq<char>, DisputeModel>,
    pub audit: Map<Seq<char>, Seq<AuditEntryModel>>,
}

/// The state a fresh deployment starts from: nothing stored anywhere.
pub open spec fn empty_store() -> StoreModel {
    StoreModel {
        agreements: Map::empty(),
        transactions: Map::empty(),
        disputes: Map::empty(),
        audit: Map::empty(),
    }
}

/// The audit log of one identifier; empty when nothing was recorded yet.
pub open spec fn audit_of(m: StoreModel, id: Seq<char>) -> Seq<AuditEntryModel> {
    if m.audit.contains_key(id) {
        m.audit[id]
    } else {
        Seq::empty()
    }
}

/// The store after appending one audit entry to `id`'s log.
pub open spec fn append_audit_model(m: StoreModel, id: Seq<char>, action: Seq<char>) -> StoreModel {
    StoreModel {
        audit: m.audit.insert(id, audit_of(m, id).push(AuditEntryModel { transaction_id: id, action })),
        ..m
    }
}

/// The store after moving the stored transaction `id` to `state`. Only
/// meaningful when the transaction exists.
pub open spec fn set_transaction_state_model(
    m: StoreModel,
    id: Seq<char>,
    state: TransactionState,
) -> StoreModel {
    StoreModel {
        transactions: m.transactions.insert(
            id,
            TransactionModel { state, ..m.transactions[id] },
        ),
        ..m
    }
}

/// The store after mirroring a transaction's new state onto its agreement,
/// if the agreement exists. The agreement's state field never moves
/// independently of its transaction.
pub open spec fn mirror_agreement_state_model(
    m: StoreModel,
    id: Seq<char>,
    state: TransactionState,
) -> StoreModel {
    if m.agreements.contains_key(id) {
        StoreModel {
            agreements: m.agreements.insert(id, AgreementModel { state, ..m.agreements[id] }),
            ..m
        }
    } else {
        m
    }
}

/// The persisted state: one keyspace per entity kind plus the audit trail.
pub struct EscrowStore {
    agreements: KvList<Agreement>,
    transactions: KvList<Transaction>,
    disputes: KvList<Dispute>,
    audit: KvList<AuditLog>,
}

impl View for EscrowStore {
    type V = StoreModel;

    closed spec fn view(&self) -> StoreModel {
        StoreModel {
            agreements: self.agreements@,
            transactions: self.transactions@,
            disputes: self.disputes@,
            audit: self.audit@,
        }
    }
}

impl EscrowStore {
    /// Internal well-formedness of the four keyspaces.
    pub closed spec fn wf(&self) -> bool {
        self.agreements.wf() && self.transactions.wf() && self.disputes.wf() && self.audit.wf()
    }

    /// A fresh, empty store.
    pub fn new() -> (r: EscrowStore)
        ensures
            r.wf(),
            r@ == empty_store(),
    {
        let r = EscrowStore {
            agreements: KvList::new(),
            transactions: KvList::new(),
            disputes: KvList::new(),
            audit: KvList::new(),
        };
        proof {
            assert(r@ =~= empty_store());
        }
        r
    }

    /// Whether an agreement is stored under `id`.
    pub fn has_agreement(&self, id: &String) -> (r: bool)
        ensures
            r == self@.agreements.contains_key(id@),
    {
        self.agreements.contains(id)
    }

    /// The agreement stored under `id`, if any.
    pub fn agreement<'a>(&'a self, id: &String) -> (r: Option<&'a Agreement>)
        requires
            self.wf(),
        ensures
            match r {
                Some(a) => self@.agreements.contains_key(id@) && a@ == self@.agreements[id@],
                None => !self@.agreements.contains_key(id@),
            },
    {
        self.agreements.get(id)
    }

    /// The transaction stored under `id`, if any.
    pub fn transaction<'a>(&'a self, id: &String) -> (r: Option<&'a Transaction>)
        requires
            self.wf(),
        ensures
            match r {
                Some(t) => self@.transactions.contains_key(id@) && t@ == self@.transactions[id@],
                None => !self@.transactions.contains_key(id@),
            },
    {
        self.transactions.get(id)
    }

    /// The dispute stored under `id`, if any.
    pub fn dispute<'a>(&'a self, id: &String) -> (r: Option<&'a Dispute>)
        requires
            self.wf(),
        ensures
            match r {
                Some(d) => self@.disputes.contains_key(id@) && d@ == self@.disputes[id@],
                None => !self@.disputes.contains_key(id@),
            },
    {
        self.disputes.get(id)
    }

    /// The audit log stored under `id`, if any.
    pub fn audit_log<'a>(&'a self, id: &String) -> (r: Option<&'a AuditLog>)
        requires
            self.wf(),
        ensures
            match r {
                Some(l) => self@.audit.contains_key(id@) && l@ == self@.audit[id@],
                None => !self@.audit.contains_key(id@),
            },
    {
        self.audit.get(id)
    }

    /// Atomic write of the agreement slot `id`.
    pub fn put_agreement(&mut self, id: &String, a: Agreement)
        requires
            old(self).wf(),
        ensures
            final(self).wf(),
            final(self)@ == (StoreModel {
                agreements: old(self)@.agreements.insert(id@, a@),
                ..old(self)@
            }),
    {
        let ghost target = StoreModel { agreements: old(self)@.agreements.insert(id@, a@), ..old(self)@ };
        self.agreements.put(id.clone(), a);
        proof {
            assert(self@ =~= target);
        }
    }

    /// Atomic write of the transaction slot `id`.
    pub fn put_transaction(&mut self, id: &String, t: Transaction)
        requires
            old(self).wf(),
        ensures
            final(self).wf(),
            final(self)@ == (StoreModel {
                transactions: old(self)@.transactions.insert(id@, t@),
                ..old(self)@
            }),
    {
        let ghost target = StoreModel {
            transactions: old(self)@.transactions.insert(id@, t@),
            ..old(self)@
        };
        self.transactions.put(id.clone(), t);
        proof {
            assert(self@ =~= target);
        }
    }

    /// Atomic write of the dispute slot `id`.
    pub fn put_dispute(&mut self, id: &String, d: Dispute)
        requires
            old(self).wf(),
        ensures
            final(self).wf(),
            final(self)@ == (StoreModel {
                disputes: old(self)@.disputes.insert(id@, d@),
                ..old(self)@
            }),
    {
        let ghost target = StoreModel { disputes: old(self)@.disputes.insert(id@, d@), ..old(self)@ };
        self.disputes.put(id.clone(), d);
        proof {
            assert(self@ =~= target);
        }
    }

    /// Mirrors a transaction's new lifecycle state onto the agreement stored
    /// under the same identifier, when there is one. The agreement's state
    /// field never moves independently of its transaction.
    pub(crate) fn mirror_agreement_state(&mut self, id: &String, state: TransactionState)
        requires
            old(self).wf(),
        ensures
            final(self).wf(),
            final(self)@ == mirror_agreement_state_model(old(self)@, id@, state),
    {
        let updated: Option<Agreement> = match self.agreement(id) {
            None => None,
            Some(a) => Some(
                Agreement {
                    buyer: a.buyer.clone(),
                    seller: a.seller.clone(),
                    amount: a.amount,
                    deadline: a.deadline,
                    state,
                },
            ),
        };
        match updated {
            None => {
                proof {
                    assert(self@ =~= mirror_agreement_state_model(old(self)@, id@, state));
                }
            },
            Some(a) => {
                self.put_agreement(id, a);
                proof {
                    assert(self@ =~= mirror_agreement_state_model(old(self)@, id@, state));
                }
            },
        }
    }

    /// Appends one audit entry to `id`'s log; every other slot is untouched.
    pub fn append_audit(&mut self, id: &String, action: &str)
        requires
            old(self).wf(),
        ensures
            final(self).wf(),
            final(self)@ == append_audit_model(old(self)@, id@, action@),
    {
        let entry = AuditEntry { transaction_id: id.clone(), action: action.to_owned() };
        let mut log: AuditLog = match self.audit.get(id) {
            Some(l) => l.duplicate(),
            None => AuditLog::new(),
        };
        log.push(entry);
        self.audit.put(id.clone(), log);
        proof {
            assert(self@ =~= append_audit_model(old(self)@, id@, action@));
        }
    }
}

} // verus!
