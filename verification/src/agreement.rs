//! Creation and retrieval of deal terms.

use vstd::prelude::*;

verus! {

use crate::errors::EscrowError;
use crate::store::{EscrowStore, StoreModel};
use crate::types::{Agreement, AgreementModel, Transaction, TransactionModel, TransactionState};

/// The store and result after `create_agreement`. Creation fails when the
/// identifier is taken, when the amount is not positive, or when the deadline
/// is not strictly in the future; otherwise it stores the agreement and its
/// custody transaction, both in state Setup.
pub open spec fn create_agreement_model(
    m: StoreModel,
    id: Seq<char>,
    buyer: Seq<char>,
    seller: Seq<char>,
    amount: int,
    deadline: int,
    token: Seq<char>,
    now: int,
) -> (StoreModel, Result<(), EscrowError>) {
    if m.agreements.contains_key(id) {
        (m, Err(EscrowError::AgreementAlreadyExists))
    } else if amount <= 0 {
        (m, Err(EscrowError::InsufficientFunds))
    } else if deadline <= now {
        (m, Err(EscrowError::DeadlineExceeded))
    } else {
        (
            StoreModel {
                agreements: m.agreements.insert(
                    id,
                    AgreementModel { buyer, seller, amount, deadline, state: TransactionState::Setup },
                ),
                transactions: m.transactions.insert(
                    id,
                    TransactionModel {
                        id,
                        buyer,
                        seller,
                        amount,
                        token,
                        state: TransactionState::Setup,
                    },
                ),
                ..m
            },
            Ok(()),
        )
    }
}

/// The result of `get_agreement`: the stored terms, or `AgreementNotFound`.
pub open spec fn get_agreement_model(m: StoreModel, id: Seq<char>) -> Result<
    AgreementModel,
    EscrowError,
> {
    if m.agreements.contains_key(id) {
        Ok(m.agreements[id])
    } else {
        Err(EscrowError::AgreementNotFound)
    }
}

/// Module for managing transaction agreements.
pub struct AgreementModule;

impl AgreementModule {
    /// Creates a new agreement with the given terms, and the custody
    /// transaction that will track its funds, both in state Setup.
    ///
    /// The identifier must be fresh (`AgreementAlreadyExists` otherwise), the
    /// amount positive (`InsufficientFunds` otherwise), and the deadline
    /// strictly after `now`, the current time as read from the external clock
    /// (`DeadlineExceeded` otherwise). On failure nothing is stored.
    pub fn create_agreement(
        store: &mut EscrowStore,
        transaction_id: String,
        buyer: String,
        seller: String,
        amount: i128,
        deadline: u64,
        token: String,
        now: u64,
    ) -> (result: Result<(), EscrowError>)
        requires
            old(store).wf(),
        ensures
            final(store).wf(),
            ({
                let (m, r) = create_agreement_model(
                    old(store)@,
                    transaction_id@,
                    buyer@,
                    seller@,
                    amount as int,
                    deadline as int,
                    token@,
                    now as int,
                );
                final(store)@ == m && result == r
            }),
            result is Ok <==> !old(store)@.agreements.contains_key(transaction_id@) && amount > 0
                && deadline > now,
    {
        let ghost buyer_v = buyer@;
        let ghost seller_v = seller@;
        let ghost token_v = token@;
        if store.has_agreement(&transaction_id) {
            return Err(EscrowError::AgreementAlreadyExists);
        }
        if amount <= 0 {
            return Err(EscrowError::InsufficientFunds);
        }
        if deadline <= now {
            return Err(EscrowError::DeadlineExceeded);
        }
        let agreement = Agreement {
            buyer: buyer.clone(),
            seller: seller.clone(),
            amount,
            deadline,
            state: TransactionState::Setup,
        };
        let transaction = Transaction {
            id: transaction_id.clone(),
            buyer,
            seller,
            amount,
            token,
            state: TransactionState::Setup,
        };
        store.put_agreement(&transaction_id, agreement);
        store.put_transaction(&transaction_id, transaction);
        proof {
            assert(store@ =~= create_agreement_model(
                old(store)@,
                transaction_id@,
                buyer_v,
                seller_v,
                amount as int,
                deadline as int,
                token_v,
                now as int,
            ).0);
        }
        Ok(())
    }

    /// Retrieves an existing agreement by transaction identifier, as a copy
    /// of the stored terms; fails with `AgreementNotFound` when nothing is
    /// stored under the identifier. Read-only.
    pub fn get_agreement(store: &EscrowStore, transaction_id: &String) -> (result: Result<
        Agreement,
        EscrowError,
    >)
        requires
            store.wf(),
        ensures
            match result {
                Ok(a) => get_agreement_model(store@, transaction_id@) == Ok::<
                    AgreementModel,
                    EscrowError,
                >(a@),
                Err(e) => get_agreement_model(store@, transaction_id@) == Err::<
                    AgreementModel,
                    EscrowError,
                >(e),
            },
    {
        match store.agreement(transaction_id) {
            None => Err(EscrowError::AgreementNotFound),
            Some(a) => Ok(
                Agreement {
                    buyer: a.buyer.clone(),
                    seller: a.seller.clone(),
                    amount: a.amount,
                    deadline: a.deadline,
                    state: a.state,
                },
            ),
        }
    }
}

} // verus!
