//! The append-only audit trail.
//!
//! Every successful state-mutating operation appends one entry to the log of
//! the transaction identifier it touched. Entries are never edited or
//! deleted, and each identifier's log is retrievable on its own, in the order
//! the calls succeeded.

use vstd::prelude::*;

verus! {

use crate::store::{EscrowStore, append_audit_model, audit_of};
use vstd::string::StringExecFns;

/// One immutable record of a state-mutating action: which transaction it
/// touched and what the action was.
#[derive(Debug)]
pub struct AuditEntry {
    pub transaction_id: String,
    pub action: String,
}

/// Ghost model of an [`AuditEntry`].
pub struct AuditEntryModel {
    pub transaction_id: Seq<char>,
    pub action: Seq<char>,
}

impl View for AuditEntry {
    type V = AuditEntryModel;

    open spec fn view(&self) -> AuditEntryModel {
        AuditEntryModel { transaction_id: self.transaction_id@, action: self.action@ }
    }
}

/// The one-line text of an audit entry.
pub open spec fn rendered_entry(transaction_id: Seq<char>, action: Seq<char>) -> Seq<char> {
    "Transaction: "@ + transaction_id + ", Action: "@ + action
}

/// A copy of one entry.
fn clone_entry(e: &AuditEntry) -> (r: AuditEntry)
    ensures
        r@ == e@,
{
    AuditEntry { transaction_id: e.transaction_id.clone(), action: e.action.clone() }
}

impl AuditEntry {
    /// The entry as one line of text, naming the transaction identifier and
    /// the action.
    pub fn render(&self) -> (r: String)
        ensures
            r@ == rendered_entry(self.transaction_id@, self.action@),
    {
        let mut s = "Transaction: ".to_owned();
        s.append(self.transaction_id.as_str());
        s.append(", Action: ");
        s.append(self.action.as_str());
        proof {
            assert(s@ =~= rendered_entry(self.transaction_id@, self.action@));
        }
        s
    }
}

/// The ordered audit log of one transaction identifier, oldest entry first.
#[derive(Debug)]
pub struct AuditLog {
    entries: Vec<AuditEntry>,
}

impl View for AuditLog {
    type V = Seq<AuditEntryModel>;

    closed spec fn view(&self) -> Seq<AuditEntryModel> {
        self.entries@.map(|i: int, e: AuditEntry| e@)
    }
}

impl AuditLog {
    /// The empty log.
    pub fn new() -> (r: AuditLog)
        ensures
            r@ == Seq::<AuditEntryModel>::empty(),
    {
        let r = AuditLog { entries: Vec::new() };
        proof {
            assert(r@ =~= Seq::<AuditEntryModel>::empty());
        }
        r
    }

    /// How many entries the log holds.
    pub fn len(&self) -> (n: usize)
        ensures
            n == self@.len(),
    {
        self.entries.len()
    }

    /// Appends one entry; nothing already logged moves or changes.
    pub fn push(&mut self, e: AuditEntry)
        ensures
            final(self)@ == old(self)@.push(e@),
    {
        let ghost ev = e@;
        self.entries.push(e);
        proof {
            assert(self@ =~= old(self)@.push(ev));
        }
    }

    /// The entries as a vector of copies, oldest first.
    pub fn to_entries(&self) -> (r: Vec<AuditEntry>)
        ensures
            r@.len() == self@.len(),
            forall|i: int| 0 <= i < r@.len() ==> r@[i]@ == self@[i],
    {
        let n = self.entries.len();
        let mut out: Vec<AuditEntry> = Vec::new();
        let mut i: usize = 0;
        while i < n
            invariant
                n == self.entries.len(),
                0 <= i <= n,
                out@.len() == i,
                forall|j: int| 0 <= j < i ==> out@[j]@ == self@[j],
            decreases n - i,
        {
            out.push(clone_entry(&self.entries[i]));
            i = i + 1;
        }
        out
    }

    /// A copy of the whole log.
    pub fn duplicate(&self) -> (r: AuditLog)
        ensures
            r@ == self@,
    {
        let r = AuditLog { entries: self.to_entries() };
        proof {
            assert(r@ =~= self@);
        }
        r
    }
}

/// Module for auditing actions within the escrow service.
pub struct AuditModule;

impl AuditModule {
    /// Records an action taken on a transaction for audit purposes: appends
    /// one entry to that transaction's log and touches nothing else.
    pub fn record_action(store: &mut EscrowStore, transaction_id: &String, action: &str)
        requires
            old(store).wf(),
        ensures
            final(store).wf(),
            final(store)@ == append_audit_model(old(store)@, transaction_id@, action@),
    {
        store.append_audit(transaction_id, action);
    }

    /// Retrieves the audit log of one transaction identifier for inspection,
    /// oldest entry first. An identifier nothing was recorded against has an
    /// empty log.
    pub fn get_audit_logs(store: &EscrowStore, transaction_id: &String) -> (r: Vec<AuditEntry>)
        requires
            store.wf(),
        ensures
            r@.len() == audit_of(store@, transaction_id@).len(),
            forall|i: int| 0 <= i < r@.len() ==> r@[i]@ == audit_of(store@, transaction_id@)[i],
    {
        match store.audit_log(transaction_id) {
            None => Vec::new(),
            Some(log) => log.to_entries(),
        }
    }
}

} // verus!
