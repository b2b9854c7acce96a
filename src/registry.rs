//! The registry of wipe operations in progress: each under its identifier,
//! with the token that cancels it.

use tokio_util::sync::CancellationToken;
use vstd::prelude::*;
use vstd::string::StringExecFns;

use crate::certgen::{format_uuid, uuid_text};
use crate::error::SafeEraseError;

verus! {

#[verifier::external_type_specification]
#[verifier::external_body]
pub struct ExCancellationToken(CancellationToken);

/// Relies on tokio_util::sync::CancellationToken::cancel: trips the token,
/// which every clone of it then reports.
#[verifier::external_body]
fn trip(token: &CancellationToken) {
    token.cancel()
}

/// The operations in progress.
#[derive(Debug)]
pub struct OperationRegistry {
    entries: Vec<(u128, CancellationToken)>,
}

/// The identifiers of a list of entries.
pub open spec fn entry_ids(entries: Seq<(u128, CancellationToken)>) -> Seq<u128> {
    entries.map_values(|e: (u128, CancellationToken)| e.0)
}

impl OperationRegistry {
    /// The identifiers of the operations in progress, in the order they began.
    pub closed spec fn ids(&self) -> Seq<u128> {
        entry_ids(self.entries@)
    }

    /// No identifier is listed twice.
    pub closed spec fn wf(&self) -> bool {
        self.ids().no_duplicates()
    }

    /// An empty registry.
    pub fn new() -> (r: OperationRegistry)
        ensures
            r.wf(),
            r.ids() == Seq::<u128>::empty(),
    {
        let r = OperationRegistry { entries: Vec::new() };
        assert(r.ids() =~= Seq::<u128>::empty());
        r
    }

    fn position(&self, id: u128) -> (r: Option<usize>)
        ensures
            r matches Some(i) ==> i < self.ids().len() && self.ids()[i as int] == id,
            r is None ==> !self.ids().contains(id),
    {
        let mut i: usize = 0;
        while i < self.entries.len()
            invariant
                i <= self.entries@.len(),
                forall|k: int| 0 <= k < i ==> self.entries@[k].0 != id,
            decreases self.entries.len() - i,
        {
            if self.entries[i].0 == id {
                return Some(i);
            }
            i += 1;
        }
        proof {
            if self.ids().contains(id) {
                let k = choose|k: int| 0 <= k < self.ids().len() && self.ids()[k] == id;
                assert(self.entries@[k].0 == id);
            }
        }
        None
    }

    /// Records an operation in progress; false, with nothing changed, where
    /// its identifier is already listed.
    pub fn register(&mut self, id: u128, token: CancellationToken) -> (r: bool)
        requires
            old(self).wf(),
        ensures
            final(self).wf(),
            r == !old(self).ids().contains(id),
            r ==> final(self).ids() == old(self).ids().push(id),
            !r ==> final(self).ids() == old(self).ids(),
    {
        if self.position(id).is_some() {
            return false;
        }
        let ghost before = self.entries@;
        self.entries.push((id, token));
        assert(self.ids() =~= entry_ids(before).push(id));
        true
    }

    /// Forgets an operation; the others stay in their order.
    pub fn remove(&mut self, id: u128)
        requires
            old(self).wf(),
        ensures
            final(self).wf(),
            !final(self).ids().contains(id),
            forall|x: u128| x != id ==> (final(self).ids().contains(x) <==> old(self).ids().contains(x)),
    {
        if let Some(i) = self.position(id) {
            let ghost before = self.ids();
            let _ = self.entries.remove(i);
            proof {
                assert(self.ids() =~= before.remove(i as int));
                assert forall|x: u128| x != id implies (self.ids().contains(x) <==> before.contains(x)) by {
                    if before.contains(x) {
                        let k = choose|k: int| 0 <= k < before.len() && before[k] == x;
                        if k < i {
                            assert(self.ids()[k] == x);
                        } else {
                            assert(k != i);
                            assert(self.ids()[k - 1] == x);
                        }
                    }
                    if self.ids().contains(x) {
                        let k = choose|k: int| 0 <= k < self.ids().len() && self.ids()[k] == x;
                        if k < i {
                            assert(before[k] == x);
                        } else {
                            assert(before[k + 1] == x);
                        }
                    }
                }
                if self.ids().contains(id) {
                    let k = choose|k: int| 0 <= k < self.ids().len() && self.ids()[k] == id;
                    if k < i {
                        assert(before[k] == id);
                    } else {
                        assert(before[k + 1] == id);
                    }
                }
            }
        }
    }

    /// The identifiers of the operations in progress.
    pub fn active_ids(&self) -> (r: Vec<u128>)
        ensures
            r@ == self.ids(),
    {
        let mut r: Vec<u128> = Vec::new();
        let mut i: usize = 0;
        while i < self.entries.len()
            invariant
                i <= self.entries@.len(),
                r@ == entry_ids(self.entries@).subrange(0, i as int),
            decreases self.entries.len() - i,
        {
            r.push(self.entries[i].0);
            i += 1;
            assert(r@ =~= entry_ids(self.entries@).subrange(0, i as int));
        }
        assert(entry_ids(self.entries@).subrange(0, self.entries@.len() as int) =~= self.ids());
        r
    }

    /// Trips the cancellation token of an operation in progress; an unknown
    /// identifier is an Internal error naming it.
    pub fn cancel(&self, id: u128) -> (r: Result<(), SafeEraseError>)
        ensures
            r is Ok <==> self.ids().contains(id),
            r matches Err(e) ==> (e matches SafeEraseError::Internal(m) && m@ == "Operation "@ + uuid_text(id)
                + " not found"@),
    {
        match self.position(id) {
            Some(i) => {
                trip(&self.entries[i].1);
                Ok(())
            },
            None => {
                let mut m = String::from_str("Operation ");
                let t = format_uuid(id);
                m.append(t.as_str());
                m.append(" not found");
                Err(SafeEraseError::Internal(m))
            },
        }
    }
}

} // verus!
