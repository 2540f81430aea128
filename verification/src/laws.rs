//! The laws of the escrow lifecycle, proved over the model transitions that
//! the operations' contracts are stated with: exactly-once transitions,
//! failure leaving the store untouched, forward-only lifecycle movement,
//! consistency of the three keyspaces, and the append-only ordered audit
//! trail.

use vstd::prelude::*;

verus! {

use crate::agreement::{create_agreement_model, get_agreement_model};
use crate::audit::AuditEntryModel;
use crate::dispute_resolution::{raise_dispute_model, resolve_dispute_model};
use crate::errors::EscrowError;
use crate::execute_transaction_model;
use crate::fund_management::{deposit_funds_model, release_funds_model};
use crate::store::{StoreModel, audit_of, empty_store};
use crate::types::{
    AgreementModel, DisputeState, TransactionState, dispute_rank, state_rank,
};

/// Law: creating an agreement with valid terms under a fresh identifier
/// succeeds; reading it back returns exactly the stored fields, in state
/// Setup; and a second creation under the same identifier fails with
/// `AgreementAlreadyExists`, whatever its arguments.
pub proof fn lemma_create_agreement_once(
    m: StoreModel,
    id: Seq<char>,
    buyer: Seq<char>,
    seller: Seq<char>,
    amount: int,
    deadline: int,
    token: Seq<char>,
    now: int,
    buyer2: Seq<char>,
    seller2: Seq<char>,
    amount2: int,
    deadline2: int,
    token2: Seq<char>,
    now2: int,
)
    requires
        !m.agreements.contains_key(id),
        amount > 0,
        deadline > now,
    ensures
        ({
            let (m2, r) = create_agreement_model(m, id, buyer, seller, amount, deadline, token, now);
            r == Ok::<(), EscrowError>(()) && get_agreement_model(m2, id) == Ok::<
                AgreementModel,
                EscrowError,
            >(AgreementModel { buyer, seller, amount, deadline, state: TransactionState::Setup })
                && create_agreement_model(
                m2,
                id,
                buyer2,
                seller2,
                amount2,
                deadline2,
                token2,
                now2,
            ).1 == Err::<(), EscrowError>(EscrowError::AgreementAlreadyExists)
        }),
{
}

/// Law: a deposit against a stored Setup transaction with positive verdicts
/// succeeds exactly once. It moves the transaction to Deposit, and any
/// further deposit under the same identifier fails with
/// `InvalidTransactionState`, whatever the verdicts: the operation is not
/// idempotent, by design.
pub proof fn lemma_deposit_funds_exactly_once(
    m: StoreModel,
    id: Seq<char>,
    auth_ok2: bool,
    transfer_ok2: bool,
)
    requires
        m.transactions.contains_key(id),
        m.transactions[id].state == TransactionState::Setup,
    ensures
        ({
            let (m2, r) = deposit_funds_model(m, id, true, true);
            r == Ok::<(), EscrowError>(()) && m2.transactions.contains_key(id)
                && m2.transactions[id].state == TransactionState::Deposit && deposit_funds_model(
                m2,
                id,
                auth_ok2,
                transfer_ok2,
            ) == (m2, Err::<(), EscrowError>(EscrowError::InvalidTransactionState))
        }),
{
}

/// Law: a release against a stored Deposit transaction succeeds and moves it
/// to Complete.
pub proof fn lemma_release_funds_on_deposit(m: StoreModel, id: Seq<char>)
    requires
        m.transactions.contains_key(id),
        m.transactions[id].state == TransactionState::Deposit,
    ensures
        ({
            let (m2, r) = release_funds_model(m, id);
            r == Ok::<(), EscrowError>(()) && m2.transactions.contains_key(id)
                && m2.transactions[id].state == TransactionState::Complete
        }),
{
}

/// Law: a release against a stored transaction in state Setup or Complete
/// fails with `InvalidTransactionState` and changes nothing.
pub proof fn lemma_release_funds_rejects_other_states(m: StoreModel, id: Seq<char>)
    requires
        m.transactions.contains_key(id),
        m.transactions[id].state == TransactionState::Setup || m.transactions[id].state
            == TransactionState::Complete,
    ensures
        release_funds_model(m, id) == (m, Err::<(), EscrowError>(EscrowError::InvalidTransactionState)),
{
}

/// Law: raising a dispute against a stored Deposit transaction, by one of
/// the agreement's two parties and with no open dispute yet, succeeds: it
/// stores an Open dispute naming the raiser and moves the transaction to
/// Dispute.
pub proof fn lemma_raise_dispute_on_deposit(m: StoreModel, id: Seq<char>, raiser: Seq<char>)
    requires
        m.transactions.contains_key(id),
        m.transactions[id].state == TransactionState::Deposit,
        raiser == m.transactions[id].buyer || raiser == m.transactions[id].seller,
        !(m.disputes.contains_key(id) && m.disputes[id].state == DisputeState::Open),
    ensures
        ({
            let (m2, r) = raise_dispute_model(m, id, raiser);
            r == Ok::<(), EscrowError>(()) && m2.disputes.contains_key(id)
                && m2.disputes[id].state == DisputeState::Open && m2.disputes[id].raiser == raiser
                && m2.disputes[id].transaction_id == id && m2.transactions[id].state
                == TransactionState::Dispute
        }),
{
}

/// Law: raising a dispute against a stored Setup transaction fails with
/// `InvalidTransactionState` and changes nothing.
pub proof fn lemma_raise_dispute_rejects_setup(m: StoreModel, id: Seq<char>, raiser: Seq<char>)
    requires
        m.transactions.contains_key(id),
        m.transactions[id].state == TransactionState::Setup,
    ensures
        raise_dispute_model(m, id, raiser) == (
            m,
            Err::<(), EscrowError>(EscrowError::InvalidTransactionState),
        ),
{
}

/// Law: resolving a stored Open dispute with a positive authorization
/// verdict succeeds exactly once: the dispute moves to Resolved, the
/// transaction to Complete, and any further resolution under the same
/// identifier fails with `InvalidDisputeState`, whatever the verdict.
pub proof fn lemma_resolve_dispute_exactly_once(m: StoreModel, id: Seq<char>, auth_ok2: bool)
    requires
        m.disputes.contains_key(id),
        m.disputes[id].state == DisputeState::Open,
        m.transactions.contains_key(id),
    ensures
        ({
            let (m2, r) = resolve_dispute_model(m, id, true);
            r == Ok::<(), EscrowError>(()) && m2.disputes[id].state == DisputeState::Resolved
                && m2.transactions[id].state == TransactionState::Complete && resolve_dispute_model(
                m2,
                id,
                auth_ok2,
            ) == (m2, Err::<(), EscrowError>(EscrowError::InvalidDisputeState))
        }),
{
}

/// One call against the store, with the identifier it targets and the
/// external collaborators' verdicts for it.
pub enum EscrowOp {
    CreateAgreement {
        id: Seq<char>,
        buyer: Seq<char>,
        seller: Seq<char>,
        amount: int,
        deadline: int,
        token: Seq<char>,
        now: int,
    },
    DepositFunds { id: Seq<char>, auth_ok: bool, transfer_ok: bool },
    ReleaseFunds { id: Seq<char> },
    RaiseDispute { id: Seq<char>, raiser: Seq<char> },
    ResolveDispute { id: Seq<char>, auth_ok: bool },
    ExecuteTransaction { id: Seq<char>, fulfilled: bool, auth_ok: bool, transfer_ok: bool },
}

/// The identifier an operation targets.
pub open spec fn op_target(op: EscrowOp) -> Seq<char> {
    match op {
        EscrowOp::CreateAgreement { id, .. } => id,
        EscrowOp::DepositFunds { id, .. } => id,
        EscrowOp::ReleaseFunds { id } => id,
        EscrowOp::RaiseDispute { id, .. } => id,
        EscrowOp::ResolveDispute { id, .. } => id,
        EscrowOp::ExecuteTransaction { id, .. } => id,
    }
}

/// The store and result after one operation.
pub open spec fn step(m: StoreModel, op: EscrowOp) -> (StoreModel, Result<(), EscrowError>) {
    match op {
        EscrowOp::CreateAgreement { id, buyer, seller, amount, deadline, token, now } =>
            create_agreement_model(m, id, buyer, seller, amount, deadline, token, now),
        EscrowOp::DepositFunds { id, auth_ok, transfer_ok } => deposit_funds_model(
            m,
            id,
            auth_ok,
            transfer_ok,
        ),
        EscrowOp::ReleaseFunds { id } => release_funds_model(m, id),
        EscrowOp::RaiseDispute { id, raiser } => raise_dispute_model(m, id, raiser),
        EscrowOp::ResolveDispute { id, auth_ok } => resolve_dispute_model(m, id, auth_ok),
        EscrowOp::ExecuteTransaction { id, fulfilled, auth_ok, transfer_ok } =>
            execute_transaction_model(m, id, fulfilled, auth_ok, transfer_ok),
    }
}

/// Law: a failed operation leaves the store exactly as it was — all or
/// nothing.
pub proof fn lemma_failed_step_changes_nothing(m: StoreModel, op: EscrowOp)
    ensures
        step(m, op).1 is Err ==> step(m, op).0 == m,
{
}

/// The action names a successful run of `op` appends to its target's audit
/// log, oldest first. A creation appends none; each single-purpose operation
/// appends its own name; the orchestrator appends the delegated operation's
/// name, when it delegates, and then its own.
pub open spec fn audit_actions(m: StoreModel, op: EscrowOp) -> Seq<Seq<char>> {
    match op {
        EscrowOp::CreateAgreement { .. } => Seq::empty(),
        EscrowOp::DepositFunds { .. } => seq!["deposit_funds"@],
        EscrowOp::ReleaseFunds { .. } => seq!["release_funds"@],
        EscrowOp::RaiseDispute { .. } => seq!["raise_dispute"@],
        EscrowOp::ResolveDispute { .. } => seq!["resolve_dispute"@],
        EscrowOp::ExecuteTransaction { id, fulfilled, .. } => {
            if m.transactions.contains_key(id) && m.transactions[id].state
                == TransactionState::Setup {
                seq!["deposit_funds"@, "execute_transaction"@]
            } else if m.transactions.contains_key(id) && m.transactions[id].state
                == TransactionState::Deposit && fulfilled {
                seq!["release_funds"@, "execute_transaction"@]
            } else {
                seq!["execute_transaction"@]
            }
        },
    }
}

/// The audit entries for a run of actions against one identifier.
pub open spec fn entries_for(id: Seq<char>, actions: Seq<Seq<char>>) -> Seq<AuditEntryModel> {
    actions.map(|i: int, action: Seq<char>| AuditEntryModel { transaction_id: id, action })
}

/// Law: a successful operation appends exactly its audit actions to the log
/// of the identifier it targets, in order, after everything already logged;
/// each appended entry names that identifier and the action; and the log of
/// every other identifier is untouched.
pub proof fn lemma_step_appends_audit(m: StoreModel, op: EscrowOp)
    ensures
        ({
            let (m2, r) = step(m, op);
            r is Ok ==> audit_of(m2, op_target(op)) == audit_of(m, op_target(op)) + entries_for(
                op_target(op),
                audit_actions(m, op),
            ) && (forall|other: Seq<char>|
                other != op_target(op) ==> audit_of(m2, other) == audit_of(m, other))
        }),
{
    let (m2, r) = step(m, op);
    if r is Ok {
        let id = op_target(op);
        let base = audit_of(m, id);
        match op {
            EscrowOp::CreateAgreement { .. } => {
                assert(audit_of(m2, id) =~= base + entries_for(id, audit_actions(m, op)));
            },
            EscrowOp::DepositFunds { .. } => {
                assert(audit_of(m2, id) =~= base + entries_for(id, audit_actions(m, op)));
            },
            EscrowOp::ReleaseFunds { .. } => {
                assert(audit_of(m2, id) =~= base + entries_for(id, audit_actions(m, op)));
            },
            EscrowOp::RaiseDispute { .. } => {
                assert(audit_of(m2, id) =~= base + entries_for(id, audit_actions(m, op)));
            },
            EscrowOp::ResolveDispute { .. } => {
                assert(audit_of(m2, id) =~= base + entries_for(id, audit_actions(m, op)));
            },
            EscrowOp::ExecuteTransaction { .. } => {
                assert(audit_of(m2, id) =~= base + entries_for(id, audit_actions(m, op)));
            },
        }
        assert forall|other: Seq<char>| other != id implies audit_of(m2, other) == audit_of(
            m,
            other,
        ) by {
        }
    }
}

/// A store every API-reachable state satisfies: agreements and transactions
/// exist in lockstep under the same identifiers with mirrored states and
/// self-naming records, and a dispute's state binds its transaction's (Open
/// with Dispute, Resolved with Complete).
pub open spec fn consistent(m: StoreModel) -> bool {
    &&& forall|id: Seq<char>|
        #[trigger] m.agreements.contains_key(id) ==> m.transactions.contains_key(id)
    &&& forall|id: Seq<char>|
        #[trigger] m.transactions.contains_key(id) ==> m.agreements.contains_key(id)
            && m.agreements[id].state == m.transactions[id].state && m.transactions[id].id == id
    &&& forall|id: Seq<char>|
        #[trigger] m.disputes.contains_key(id) ==> m.transactions.contains_key(id)
            && m.disputes[id].transaction_id == id && (m.disputes[id].state == DisputeState::Open
            ==> m.transactions[id].state == TransactionState::Dispute) && (m.disputes[id].state
            == DisputeState::Resolved ==> m.transactions[id].state == TransactionState::Complete)
}

/// Law: a fresh deployment starts consistent.
pub proof fn lemma_empty_store_consistent()
    ensures
        consistent(empty_store()),
{
}

/// Law: every operation preserves consistency, so every API-reachable store
/// is consistent.
pub proof fn lemma_step_preserves_consistent(m: StoreModel, op: EscrowOp)
    requires
        consistent(m),
    ensures
        consistent(step(m, op).0),
{
    let m2 = step(m, op).0;
    match op {
        EscrowOp::CreateAgreement { .. } => {
            assert(consistent(m2));
        },
        EscrowOp::DepositFunds { .. } => {
            assert(consistent(m2));
        },
        EscrowOp::ReleaseFunds { .. } => {
            assert(consistent(m2));
        },
        EscrowOp::RaiseDispute { .. } => {
            assert(consistent(m2));
        },
        EscrowOp::ResolveDispute { .. } => {
            assert(consistent(m2));
        },
        EscrowOp::ExecuteTransaction { .. } => {
            assert(consistent(m2));
        },
    }
}

/// Law: lifecycle movement is forward-only. No stored transaction or dispute
/// is ever removed, a transaction's state rank never decreases (so Complete
/// is terminal and nothing revisits Setup or Deposit), and a dispute only
/// moves from Open to Resolved.
pub proof fn lemma_step_monotonic(m: StoreModel, op: EscrowOp, id: Seq<char>)
    requires
        consistent(m),
    ensures
        ({
            let m2 = step(m, op).0;
            (m.transactions.contains_key(id) ==> m2.transactions.contains_key(id) && state_rank(
                m2.transactions[id].state,
            ) >= state_rank(m.transactions[id].state)) && (m.disputes.contains_key(id)
                ==> m2.disputes.contains_key(id) && dispute_rank(m2.disputes[id].state)
                >= dispute_rank(m.disputes[id].state))
        }),
{
}

/// Law: deal terms are immutable. Once an agreement is stored, no operation
/// ever removes it or changes its buyer, seller, amount or deadline; only
/// its lifecycle-state field moves, mirroring the owning transaction.
pub proof fn lemma_agreement_terms_immutable(m: StoreModel, op: EscrowOp, id: Seq<char>)
    ensures
        ({
            let m2 = step(m, op).0;
            m.agreements.contains_key(id) ==> m2.agreements.contains_key(id)
                && m2.agreements[id].buyer == m.agreements[id].buyer && m2.agreements[id].seller
                == m.agreements[id].seller && m2.agreements[id].amount == m.agreements[id].amount
                && m2.agreements[id].deadline == m.agreements[id].deadline
        }),
{
}

/// The store after a sequence of operations, each applied to the store the
/// one before it left.
pub open spec fn run(m: StoreModel, ops: Seq<EscrowOp>) -> StoreModel
    decreases ops.len(),
{
    if ops.len() == 0 {
        m
    } else {
        run(step(m, ops[0]).0, ops.drop_first())
    }
}

/// Whether every operation of the sequence succeeds when run in order.
pub open spec fn all_succeed(m: StoreModel, ops: Seq<EscrowOp>) -> bool
    decreases ops.len(),
{
    ops.len() == 0 || (step(m, ops[0]).1 is Ok && all_succeed(step(m, ops[0]).0, ops.drop_first()))
}

/// How many audit entries a successful run of the sequence appends: one per
/// single-purpose operation, plus one more for each orchestrated call that
/// delegates.
pub open spec fn audit_count(m: StoreModel, ops: Seq<EscrowOp>) -> nat
    decreases ops.len(),
{
    if ops.len() == 0 {
        0
    } else {
        audit_actions(m, ops[0]).len() + audit_count(step(m, ops[0]).0, ops.drop_first())
    }
}

/// Law: audit log ordering. Over any sequence of successful calls targeting
/// one identifier, that identifier's audit log grows by exactly the calls'
/// entry count, in call order: everything logged before stays in place, and
/// the new entries follow it.
pub proof fn lemma_run_audit_in_order(m: StoreModel, ops: Seq<EscrowOp>, id: Seq<char>)
    requires
        all_succeed(m, ops),
        forall|i: int| 0 <= i < ops.len() ==> op_target(#[trigger] ops[i]) == id,
    ensures
        audit_of(run(m, ops), id).len() == audit_of(m, id).len() + audit_count(m, ops),
        forall|i: int|
            0 <= i < audit_of(m, id).len() ==> audit_of(run(m, ops), id)[i] == audit_of(m, id)[i],
    decreases ops.len(),
{
    if ops.len() > 0 {
        let m1 = step(m, ops[0]).0;
        let tail = ops.drop_first();
        lemma_step_appends_audit(m, ops[0]);
        assert(op_target(ops[0]) == id);
        assert forall|i: int| 0 <= i < tail.len() implies op_target(#[trigger] tail[i]) == id by {
            assert(tail[i] == ops[i + 1]);
        }
        lemma_run_audit_in_order(m1, tail, id);
        assert(audit_of(m1, id).len() == audit_of(m, id).len() + audit_actions(m, ops[0]).len());
        assert(run(m, ops) == run(m1, tail));
        assert forall|i: int| 0 <= i < audit_of(m, id).len() implies audit_of(run(m, ops), id)[i]
            == audit_of(m, id)[i] by {
            assert(audit_of(m1, id)[i] == audit_of(m, id)[i]);
            assert(audit_of(run(m1, tail), id)[i] == audit_of(m1, id)[i]);
        }
    }
}

} // verus!

