//! The entity types of the escrow system and their mathematical models.
//!
//! Identities (buyer, seller, dispute raiser) and identifiers are plain
//! strings; amounts are signed 128-bit integers; time values are unsigned
//! 64-bit integers. Each executable record has a ghost model over `Seq<char>`
//! and `int`, reached through its view.

use vstd::prelude::*;

verus! {

/// Lifecycle state of a transaction. Transitions only move forward:
/// Setup to Deposit, Deposit to Dispute or Complete, Dispute to Complete.
/// Complete is terminal.
#[derive(Clone, Copy, Debug, PartialEq, Eq, Structural)]
pub enum TransactionState {
    Setup,
    Deposit,
    Dispute,
    Complete,
}

/// How far along the lifecycle a state is. The operations never decrease
/// this rank for any stored transaction.
pub open spec fn state_rank(s: TransactionState) -> int {
    match s {
        TransactionState::Setup => 0,
        TransactionState::Deposit => 1,
        TransactionState::Dispute => 2,
        TransactionState::Complete => 3,
    }
}

/// State of a dispute. Open to Resolved is the only transition; Resolved is
/// terminal.
#[derive(Clone, Copy, Debug, PartialEq, Eq, Structural)]
pub enum DisputeState {
    Open,
    Resolved,
}

/// How far along its lifecycle a dispute is.
pub open spec fn dispute_rank(s: DisputeState) -> int {
    match s {
        DisputeState::Open => 0,
        DisputeState::Resolved => 1,
    }
}

/// Immutable deal terms between a buyer and a seller, keyed by transaction
/// identifier. Only the `state` field ever changes after creation, and it
/// always mirrors the owning transaction's state.
#[derive(Debug)]
pub struct Agreement {
    pub buyer: String,
    pub seller: String,
    pub amount: i128,
    pub deadline: u64,
    pub state: TransactionState,
}

/// Ghost model of an [`Agreement`].
pub struct AgreementModel {
    pub buyer: Seq<char>,
    pub seller: Seq<char>,
    pub amount: int,
    pub deadline: int,
    pub state: TransactionState,
}

impl View for Agreement {
    type V = AgreementModel;

    open spec fn view(&self) -> AgreementModel {
        AgreementModel {
            buyer: self.buyer@,
            seller: self.seller@,
            amount: self.amount as int,
            deadline: self.deadline as int,
            state: self.state,
        }
    }
}

/// The mutable custody record of one deal: same identifier as its agreement,
/// stored in a keyspace of its own.
#[derive(Debug)]
pub struct Transaction {
    pub id: String,
    pub buyer: String,
    pub seller: String,
    pub amount: i128,
    pub token: String,
    pub state: TransactionState,
}

/// Ghost model of a [`Transaction`].
pub struct TransactionModel {
    pub id: Seq<char>,
    pub buyer: Seq<char>,
    pub seller: Seq<char>,
    pub amount: int,
    pub token: Seq<char>,
    pub state: TransactionState,
}

impl View for Transaction {
    type V = TransactionModel;

    open spec fn view(&self) -> TransactionModel {
        TransactionModel {
            id: self.id@,
            buyer: self.buyer@,
            seller: self.seller@,
            amount: self.amount as int,
            token: self.token@,
            state: self.state,
        }
    }
}

impl Transaction {
    /// Whether the deal's conditions are judged fulfilled. The real
    /// fulfillment oracle is an external collaborator; this is the default
    /// placeholder policy, which judges every transaction fulfilled.
    pub fn is_fulfilled(&self) -> (r: bool)
        ensures
            r,
    {
        true
    }

    /// Whether this transaction is currently contested.
    pub fn has_dispute(&self) -> (r: bool)
        ensures
            r == (self.state == TransactionState::Dispute),
    {
        self.state == TransactionState::Dispute
    }
}

/// A contested-state record, created when a party challenges fulfillment.
/// Keyed by the identifier of the transaction it contests.
#[derive(Debug)]
pub struct Dispute {
    pub transaction_id: String,
    pub raiser: String,
    pub state: DisputeState,
}

/// Ghost model of a [`Dispute`].
pub struct DisputeModel {
    pub transaction_id: Seq<char>,
    pub raiser: Seq<char>,
    pub state: DisputeState,
}

impl View for Dispute {
    type V = DisputeModel;

    open spec fn view(&self) -> DisputeModel {
        DisputeModel {
            transaction_id: self.transaction_id@,
            raiser: self.raiser@,
            state: self.state,
        }
    }
}

} // verus!
