//! Arbitration of contested transactions.

use vstd::prelude::*;

verus! {

use crate::errors::EscrowError;
use crate::store::{
    EscrowStore, StoreModel, append_audit_model, mirror_agreement_state_model,
    set_transaction_state_model,
};
use crate::types::{Dispute, DisputeModel, DisputeState, Transaction, TransactionState};

/// The store and result after `raise_dispute` on the transaction stored
/// under `id`. Succeeds exactly when the stored transaction is in state
/// Deposit, the raiser is one of the agreement's two parties, and no open
/// dispute exists yet; it then stores an Open dispute and moves the
/// transaction to Dispute. Nothing changes on failure.
pub open spec fn raise_dispute_model(m: StoreModel, id: Seq<char>, raiser: Seq<char>) -> (
    StoreModel,
    Result<(), EscrowError>,
) {
    if !m.transactions.contains_key(id) {
        (m, Err(EscrowError::TransactionNotFound))
    } else if m.transactions[id].state != TransactionState::Deposit {
        (m, Err(EscrowError::InvalidTransactionState))
    } else if raiser != m.transactions[id].buyer && raiser != m.transactions[id].seller {
        (m, Err(EscrowError::Unauthorized))
    } else if m.disputes.contains_key(id) && m.disputes[id].state == DisputeState::Open {
        (m, Err(EscrowError::InvalidDisputeState))
    } else {
        (
            append_audit_model(
                mirror_agreement_state_model(
                    set_transaction_state_model(
                        StoreModel {
                            disputes: m.disputes.insert(
                                id,
                                DisputeModel { transaction_id: id, raiser, state: DisputeState::Open },
                            ),
                            ..m
                        },
                        id,
                        TransactionState::Dispute,
                    ),
                    id,
                    TransactionState::Dispute,
                ),
                id,
                "raise_dispute"@,
            ),
            Ok(()),
        )
    }
}

/// The store and result after `resolve_dispute` on the dispute stored under
/// `id`, given the external identity verifier's verdict on the arbitrator's
/// authorization. Succeeds exactly on a stored Open dispute with a positive
/// verdict and a stored transaction; it then marks the dispute Resolved and
/// completes the transaction. Nothing changes on failure.
pub open spec fn resolve_dispute_model(m: StoreModel, id: Seq<char>, auth_ok: bool) -> (
    StoreModel,
    Result<(), EscrowError>,
) {
    if !m.disputes.contains_key(id) {
        (m, Err(EscrowError::DisputeNotFound))
    } else if m.disputes[id].state != DisputeState::Open {
        (m, Err(EscrowError::InvalidDisputeState))
    } else if !auth_ok {
        (m, Err(EscrowError::Unauthorized))
    } else if !m.transactions.contains_key(id) {
        (m, Err(EscrowError::TransactionNotFound))
    } else {
        (
            append_audit_model(
                mirror_agreement_state_model(
                    set_transaction_state_model(
                        StoreModel {
                            disputes: m.disputes.insert(
                                id,
                                DisputeModel { state: DisputeState::Resolved, ..m.disputes[id] },
                            ),
                            ..m
                        },
                        id,
                        TransactionState::Complete,
                    ),
                    id,
                    TransactionState::Complete,
                ),
                id,
                "resolve_dispute"@,
            ),
            Ok(()),
        )
    }
}

/// Module for handling disputes and arbitration.
pub struct DisputeResolutionModule;

impl DisputeResolutionModule {
    /// Raises a dispute against the transaction stored under
    /// `transaction_id`.
    ///
    /// Preconditions are re-validated against freshly-read state: the stored
    /// transaction must be in state Deposit (`InvalidTransactionState`
    /// otherwise, `TransactionNotFound` when nothing is stored), the raiser
    /// must be the buyer or the seller (`Unauthorized` otherwise), and no
    /// open dispute may exist yet (`InvalidDisputeState` otherwise). On
    /// success an Open dispute is stored, the transaction moves to Dispute,
    /// the agreement mirrors it, and one audit entry is appended; on failure
    /// nothing changes.
    pub fn raise_dispute(store: &mut EscrowStore, transaction_id: &String, raiser: String) -> (result:
        Result<(), EscrowError>)
        requires
            old(store).wf(),
        ensures
            final(store).wf(),
            ({
                let (m, r) = raise_dispute_model(old(store)@, transaction_id@, raiser@);
                final(store)@ == m && result == r
            }),
            result is Ok <==> old(store)@.transactions.contains_key(transaction_id@)
                && old(store)@.transactions[transaction_id@].state == TransactionState::Deposit
                && (raiser@ == old(store)@.transactions[transaction_id@].buyer
                || raiser@ == old(store)@.transactions[transaction_id@].seller)
                && !(old(store)@.disputes.contains_key(transaction_id@)
                && old(store)@.disputes[transaction_id@].state == DisputeState::Open),
    {
        let ghost raiser_v = raiser@;
        let updated: Transaction = match store.transaction(transaction_id) {
            None => {
                return Err(EscrowError::TransactionNotFound);
            },
            Some(t) => {
                if t.state != TransactionState::Deposit {
                    return Err(EscrowError::InvalidTransactionState);
                }
                if !(raiser == t.buyer || raiser == t.seller) {
                    return Err(EscrowError::Unauthorized);
                }
                Transaction {
                    id: t.id.clone(),
                    buyer: t.buyer.clone(),
                    seller: t.seller.clone(),
                    amount: t.amount,
                    token: t.token.clone(),
                    state: TransactionState::Dispute,
                }
            },
        };
        let open_already: bool = match store.dispute(transaction_id) {
            None => false,
            Some(d) => d.state == DisputeState::Open,
        };
        if open_already {
            return Err(EscrowError::InvalidDisputeState);
        }
        let dispute = Dispute {
            transaction_id: transaction_id.clone(),
            raiser,
            state: DisputeState::Open,
        };
        store.put_dispute(transaction_id, dispute);
        store.put_transaction(transaction_id, updated);
        store.mirror_agreement_state(transaction_id, TransactionState::Dispute);
        store.append_audit(transaction_id, "raise_dispute");
        proof {
            assert(store@ =~= raise_dispute_model(old(store)@, transaction_id@, raiser_v).0);
        }
        Ok(())
    }

    /// Resolves the dispute stored under `transaction_id` through
    /// arbitration. In the current resolution policy the funds flow to the
    /// seller: the caller performs that transfer with release semantics.
    ///
    /// Preconditions are re-validated against freshly-read state: a dispute
    /// must be stored (`DisputeNotFound` otherwise) and Open
    /// (`InvalidDisputeState` otherwise); `auth_ok` is the external identity
    /// verifier's verdict on `arbitrator`'s authorization of this exact call
    /// (`Unauthorized` when negative); the contested transaction must be
    /// stored (`TransactionNotFound` otherwise). On success the dispute is
    /// marked Resolved, the transaction moves to Complete, the agreement
    /// mirrors it, and one audit entry is appended; on failure nothing
    /// changes.
    #[allow(unused_variables)]
    pub fn resolve_dispute(
        store: &mut EscrowStore,
        transaction_id: &String,
        arbitrator: &String,
        auth_ok: bool,
    ) -> (result: Result<(), EscrowError>)
        requires
            old(store).wf(),
        ensures
            final(store).wf(),
            ({
                let (m, r) = resolve_dispute_model(old(store)@, transaction_id@, auth_ok);
                final(store)@ == m && result == r
            }),
            result is Ok <==> old(store)@.disputes.contains_key(transaction_id@)
                && old(store)@.disputes[transaction_id@].state == DisputeState::Open && auth_ok
                && old(store)@.transactions.contains_key(transaction_id@),
    {
        let resolved: Dispute = match store.dispute(transaction_id) {
            None => {
                return Err(EscrowError::DisputeNotFound);
            },
            Some(d) => {
                if d.state != DisputeState::Open {
                    return Err(EscrowError::InvalidDisputeState);
                }
                if !auth_ok {
                    return Err(EscrowError::Unauthorized);
                }
                Dispute {
                    transaction_id: d.transaction_id.clone(),
                    raiser: d.raiser.clone(),
                    state: DisputeState::Resolved,
                }
            },
        };
        let updated: Transaction = match store.transaction(transaction_id) {
            None => {
                return Err(EscrowError::TransactionNotFound);
            },
            Some(t) => Transaction {
                id: t.id.clone(),
                buyer: t.buyer.clone(),
                seller: t.seller.clone(),
                amount: t.amount,
                token: t.token.clone(),
                state: TransactionState::Complete,
            },
        };
        store.put_dispute(transaction_id, resolved);
        store.put_transaction(transaction_id, updated);
        store.mirror_agreement_state(transaction_id, TransactionState::Complete);
        store.append_audit(transaction_id, "resolve_dispute");
        proof {
            assert(store@ =~= resolve_dispute_model(old(store)@, transaction_id@, auth_ok).0);
        }
        Ok(())
    }
}

} // verus!
