//! Custody of the escrowed funds: deposit and release.
//!
//! The actual value movement is the external transfer primitive's job; the
//! caller performs it and hands its verdict in. The operations here decide
//! legality against freshly-read state, advance the lifecycle, and leave an
//! audit entry — all or nothing.

use vstd::prelude::*;

verus! {

use crate::errors::EscrowError;
use crate::store::{
    EscrowStore, StoreModel, append_audit_model, mirror_agreement_state_model,
    set_transaction_state_model,
};
use crate::types::{Transaction, TransactionState};

/// The store and result after `deposit_funds` on the transaction stored
/// under `id`, given the external collaborators' verdicts: `auth_ok` from
/// the identity verifier (did the buyer authorize this exact call), and
/// `transfer_ok` from the transfer primitive (did the buyer's funds move to
/// custody). Succeeds exactly on a stored Setup transaction with both
/// verdicts positive; nothing changes on failure.
pub open spec fn deposit_funds_model(
    m: StoreModel,
    id: Seq<char>,
    auth_ok: bool,
    transfer_ok: bool,
) -> (StoreModel, Result<(), EscrowError>) {
    if !m.transactions.contains_key(id) {
        (m, Err(EscrowError::TransactionNotFound))
    } else if m.transactions[id].state != TransactionState::Setup {
        (m, Err(EscrowError::InvalidTransactionState))
    } else if !auth_ok {
        (m, Err(EscrowError::Unauthorized))
    } else if !transfer_ok {
        (m, Err(EscrowError::InsufficientFunds))
    } else {
        (
            append_audit_model(
                mirror_agreement_state_model(
                    set_transaction_state_model(m, id, TransactionState::Deposit),
                    id,
                    TransactionState::Deposit,
                ),
                id,
                "deposit_funds"@,
            ),
            Ok(()),
        )
    }
}

/// The store and result after `release_funds` on the transaction stored
/// under `id`. Succeeds exactly on a stored Deposit transaction; nothing
/// changes on failure.
pub open spec fn release_funds_model(m: StoreModel, id: Seq<char>) -> (
    StoreModel,
    Result<(), EscrowError>,
) {
    if !m.transactions.contains_key(id) {
        (m, Err(EscrowError::TransactionNotFound))
    } else if m.transactions[id].state != TransactionState::Deposit {
        (m, Err(EscrowError::InvalidTransactionState))
    } else {
        (
            append_audit_model(
                mirror_agreement_state_model(
                    set_transaction_state_model(m, id, TransactionState::Complete),
                    id,
                    TransactionState::Complete,
                ),
                id,
                "release_funds"@,
            ),
            Ok(()),
        )
    }
}

/// Module for managing funds in escrow.
pub struct FundManagementModule;

impl FundManagementModule {
    /// Deposits funds into escrow for the given transaction.
    ///
    /// Preconditions are re-validated against the freshly-read stored record:
    /// the stored state must be exactly Setup (`InvalidTransactionState`
    /// otherwise, `TransactionNotFound` when nothing is stored). `auth_ok` is
    /// the external identity verifier's verdict on the buyer's authorization
    /// of this exact call (`Unauthorized` when negative); `transfer_ok` is
    /// the external transfer primitive's verdict on moving the amount from
    /// the buyer to custody (`InsufficientFunds` when negative). On success
    /// the transaction moves to Deposit, the agreement mirrors it, and one
    /// audit entry is appended; on failure nothing changes.
    pub fn deposit_funds(
        store: &mut EscrowStore,
        transaction: &Transaction,
        auth_ok: bool,
        transfer_ok: bool,
    ) -> (result: Result<(), EscrowError>)
        requires
            old(store).wf(),
        ensures
            final(store).wf(),
            ({
                let (m, r) = deposit_funds_model(old(store)@, transaction.id@, auth_ok, transfer_ok);
                final(store)@ == m && result == r
            }),
            result is Ok <==> old(store)@.transactions.contains_key(transaction.id@)
                && old(store)@.transactions[transaction.id@].state == TransactionState::Setup
                && auth_ok && transfer_ok,
    {
        let updated: Transaction = match store.transaction(&transaction.id) {
            None => {
                return Err(EscrowError::TransactionNotFound);
            },
            Some(t) => {
                if t.state != TransactionState::Setup {
                    return Err(EscrowError::InvalidTransactionState);
                }
                if !auth_ok {
                    return Err(EscrowError::Unauthorized);
                }
                if !transfer_ok {
                    return Err(EscrowError::InsufficientFunds);
                }
                Transaction {
                    id: t.id.clone(),
                    buyer: t.buyer.clone(),
                    seller: t.seller.clone(),
                    amount: t.amount,
                    token: t.token.clone(),
                    state: TransactionState::Deposit,
                }
            },
        };
        store.put_transaction(&transaction.id, updated);
        store.mirror_agreement_state(&transaction.id, TransactionState::Deposit);
        store.append_audit(&transaction.id, "deposit_funds");
        proof {
            assert(store@ =~= deposit_funds_model(
                old(store)@,
                transaction.id@,
                auth_ok,
                transfer_ok,
            ).0);
        }
        Ok(())
    }

    /// Releases the escrowed funds to the seller upon fulfillment.
    ///
    /// Preconditions are re-validated against the freshly-read stored record:
    /// the stored state must be exactly Deposit (`InvalidTransactionState`
    /// otherwise, `TransactionNotFound` when nothing is stored). The caller
    /// performs the transfer from custody to the seller, which cannot lack
    /// funds. On success the transaction moves to Complete, the agreement
    /// mirrors it, and one audit entry is appended; on failure nothing
    /// changes.
    pub fn release_funds(store: &mut EscrowStore, transaction: &Transaction) -> (result: Result<
        (),
        EscrowError,
    >)
        requires
            old(store).wf(),
        ensures
            final(store).wf(),
            ({
                let (m, r) = release_funds_model(old(store)@, transaction.id@);
                final(store)@ == m && result == r
            }),
            result is Ok <==> old(store)@.transactions.contains_key(transaction.id@)
                && old(store)@.transactions[transaction.id@].state == TransactionState::Deposit,
    {
        let updated: Transaction = match store.transaction(&transaction.id) {
            None => {
                return Err(EscrowError::TransactionNotFound);
            },
            Some(t) => {
                if t.state != TransactionState::Deposit {
                    return Err(EscrowError::InvalidTransactionState);
                }
                Transaction {
                    id: t.id.clone(),
                    buyer: t.buyer.clone(),
                    seller: t.seller.clone(),
                    amount: t.amount,
                    token: t.token.clone(),
                    state: TransactionState::Complete,
                }
            },
        };
        store.put_transaction(&transaction.id, updated);
        store.mirror_agreement_state(&transaction.id, TransactionState::Complete);
        store.append_audit(&transaction.id, "release_funds");
        proof {
            assert(store@ =~= release_funds_model(old(store)@, transaction.id@).0);
        }
        Ok(())
    }
}

} // verus!
