//! A multi-party escrow service: it tracks a buyer's deposit held in custody
//! against a seller's delivery obligation, releases the funds on fulfillment,
//! and arbitrates disputes when the parties disagree.
//!
//! The heart of the library is the transaction lifecycle state machine. Every
//! record lives in one of three keyspaces of an [`store::EscrowStore`]
//! (agreements, transactions, disputes), all keyed by transaction identifier,
//! beside an append-only audit log per identifier. The external collaborators
//! of a deployment (the persistence substrate, the token transfer primitive,
//! the caller-identity verifier, and the clock) are out of scope: their
//! verdicts enter the operations as plain arguments, and every operation is
//! specified and verified for each possible verdict.

use vstd::prelude::*;

pub mod agreement;
pub mod audit;
pub mod dispute_resolution;
pub mod errors;
pub mod fund_management;
pub mod kv;
pub mod laws;
pub mod store;
pub mod types;
pub mod utils;

verus! {

use crate::errors::EscrowError;
use crate::fund_management::{FundManagementModule, deposit_funds_model, release_funds_model};
use crate::store::{EscrowStore, StoreModel, append_audit_model, empty_store};
use crate::types::{Transaction, TransactionState};

/// The store and result after `execute_transaction` on the transaction
/// stored under `id`. Dispatch goes purely by the freshly-read stored state:
/// Setup delegates to the deposit operation; Deposit delegates to the
/// release operation when the fulfillment verdict holds and otherwise waits;
/// Dispute waits (resolution needs an authorized arbitrator's own call);
/// Complete is terminal and fails. Every successful call appends its own
/// audit entry after any delegated operation's entry; a failed delegated
/// operation leaves the store unchanged and its error is passed through.
pub open spec fn execute_transaction_model(
    m: StoreModel,
    id: Seq<char>,
    fulfilled: bool,
    auth_ok: bool,
    transfer_ok: bool,
) -> (StoreModel, Result<(), EscrowError>) {
    if !m.transactions.contains_key(id) {
        (m, Err(EscrowError::TransactionNotFound))
    } else {
        match m.transactions[id].state {
            TransactionState::Setup => {
                let (m2, r) = deposit_funds_model(m, id, auth_ok, transfer_ok);
                if r is Err {
                    (m, r)
                } else {
                    (append_audit_model(m2, id, "execute_transaction"@), Ok(()))
                }
            },
            TransactionState::Deposit => {
                if fulfilled {
                    let (m2, r) = release_funds_model(m, id);
                    if r is Err {
                        (m, r)
                    } else {
                        (append_audit_model(m2, id, "execute_transaction"@), Ok(()))
                    }
                } else {
                    (append_audit_model(m, id, "execute_transaction"@), Ok(()))
                }
            },
            TransactionState::Dispute => (append_audit_model(m, id, "execute_transaction"@), Ok(())),
            TransactionState::Complete => (m, Err(EscrowError::InvalidTransactionState)),
        }
    }
}

/// Main contract struct for the decentralized escrow service.
pub struct DecentralizedEscrowService;

/// Implementation of the main contract.
impl DecentralizedEscrowService {
    /// Initializes the service: a fresh store with nothing in any keyspace.
    pub fn initialize() -> (store: EscrowStore)
        ensures
            store.wf(),
            store@ == empty_store(),
    {
        EscrowStore::new()
    }

    /// Drives the transaction stored under `transaction_id` one step along
    /// its lifecycle, dispatching on its freshly-read state.
    ///
    /// The external collaborators' verdicts are handed in: `fulfilled` from
    /// the fulfillment oracle (the default placeholder policy is
    /// [`Transaction::is_fulfilled`]), and `auth_ok` and `transfer_ok` for a
    /// delegated deposit, as in
    /// [`FundManagementModule::deposit_funds`]. A waiting step (Deposit
    /// without fulfillment, or Dispute, where resolution needs an authorized
    /// arbitrator's own call) succeeds without moving the state. Every
    /// successful call appends an `execute_transaction` audit entry in
    /// addition to any delegated operation's own entry.
    pub fn execute_transaction(
        store: &mut EscrowStore,
        transaction_id: &String,
        fulfilled: bool,
        auth_ok: bool,
        transfer_ok: bool,
    ) -> (result: Result<(), EscrowError>)
        requires
            old(store).wf(),
        ensures
            final(store).wf(),
            ({
                let (m, r) = execute_transaction_model(
                    old(store)@,
                    transaction_id@,
                    fulfilled,
                    auth_ok,
                    transfer_ok,
                );
                final(store)@ == m && result == r
            }),
            result is Ok <==> old(store)@.transactions.contains_key(transaction_id@) && (match old(
                store,
            )@.transactions[transaction_id@].state {
                TransactionState::Setup => auth_ok && transfer_ok,
                TransactionState::Deposit => true,
                TransactionState::Dispute => true,
                TransactionState::Complete => false,
            }),
    {
        let stored: Transaction = match store.transaction(transaction_id) {
            None => {
                return Err(EscrowError::TransactionNotFound);
            },
            Some(t) => Transaction {
                id: transaction_id.clone(),
                buyer: t.buyer.clone(),
                seller: t.seller.clone(),
                amount: t.amount,
                token: t.token.clone(),
                state: t.state,
            },
        };
        match stored.state {
            TransactionState::Setup => {
                match FundManagementModule::deposit_funds(store, &stored, auth_ok, transfer_ok) {
                    Ok(()) => {},
                    Err(e) => {
                        return Err(e);
                    },
                }
            },
            TransactionState::Deposit => {
                if fulfilled {
                    match FundManagementModule::release_funds(store, &stored) {
                        Ok(()) => {},
                        Err(e) => {
                            return Err(e);
                        },
                    }
                }
            },
            TransactionState::Dispute => {},
            TransactionState::Complete => {
                return Err(EscrowError::InvalidTransactionState);
            },
        }
        store.append_audit(transaction_id, "execute_transaction");
        proof {
            assert(store@ =~= execute_transaction_model(
                old(store)@,
                transaction_id@,
                fulfilled,
                auth_ok,
                transfer_ok,
            ).0);
        }
        Ok(())
    }
}

} // verus!
