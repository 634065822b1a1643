//! The receipt store: issued receipts by identifier, with each nonce owned by
//! exactly one stored receipt.
use vstd::prelude::*;
use std::collections::HashMap;
use crate::receipt::AccessReceipt;

verus! {

broadcast use vstd::std_specs::hash::group_hash_axioms;

pub struct ReceiptStore {
    by_id: HashMap<u128, AccessReceipt>,
    nonce_owner: HashMap<u128, u128>,
}

impl View for ReceiptStore {
    type V = Map<u128, AccessReceipt>;

    closed spec fn view(&self) -> Map<u128, AccessReceipt> {
        self.by_id@
    }
}

impl ReceiptStore {
    /// The nonces of the stored receipts.
    pub closed spec fn nonces(&self) -> Set<u128> {
        self.nonce_owner@.dom()
    }

    pub closed spec fn wf(&self) -> bool {
        &&& forall|id: u128| #[trigger]
            self.by_id@.contains_key(id) ==> self.by_id@[id].fields().id == id
                && self.nonce_owner@.contains_key(self.by_id@[id].fields().nonce)
                && self.nonce_owner@[self.by_id@[id].fields().nonce] == id
        &&& forall|n: u128| #[trigger]
            self.nonce_owner@.contains_key(n) ==> self.by_id@.contains_key(self.nonce_owner@[n])
                && self.by_id@[self.nonce_owner@[n]].fields().nonce == n
    }

    /// The nonce of every stored receipt is among the store's nonces.
    pub proof fn lemma_stored_nonce(&self, id: u128)
        requires
            self.wf(),
            self@.contains_key(id),
        ensures
            self@[id].fields().id == id,
            self.nonces().contains(self@[id].fields().nonce),
    {
        assert(self.by_id@.contains_key(id));
    }

    /// No two stored receipts share a nonce.
    pub proof fn lemma_nonces_distinct(&self, a: u128, b: u128)
        requires
            self.wf(),
            self@.contains_key(a),
            self@.contains_key(b),
            a != b,
        ensures
            self@[a].fields().nonce != self@[b].fields().nonce,
    {
        assert(self.by_id@.contains_key(a));
        assert(self.by_id@.contains_key(b));
    }

    pub fn new() -> (r: ReceiptStore)
        ensures
            r.wf(),
            r@ == Map::<u128, AccessReceipt>::empty(),
            r.nonces() == Set::<u128>::empty(),
    {
        let r = ReceiptStore { by_id: HashMap::new(), nonce_owner: HashMap::new() };
        assert(r.nonces() =~= Set::<u128>::empty());
        r
    }

    /// Whether a receipt with this identifier is stored.
    pub fn contains(&self, id: u128) -> (r: bool)
        ensures
            r == self@.contains_key(id),
    {
        self.by_id.contains_key(&id)
    }

    /// Whether a stored receipt carries this nonce.
    pub fn nonce_in_use(&self, nonce: u128) -> (r: bool)
        ensures
            r == self.nonces().contains(nonce),
    {
        self.nonce_owner.contains_key(&nonce)
    }

    /// Stores `receipt` unless its identifier or its nonce is already taken;
    /// returns whether it was stored.
    pub fn put(&mut self, receipt: AccessReceipt) -> (r: bool)
        requires
            old(self).wf(),
        ensures
            final(self).wf(),
            r == !(old(self)@.contains_key(receipt.fields().id) || old(self).nonces().contains(
                receipt.fields().nonce,
            )),
            r ==> final(self)@ == old(self)@.insert(receipt.fields().id, receipt)
                && final(self).nonces() == old(self).nonces().insert(receipt.fields().nonce),
            !r ==> final(self)@ == old(self)@ && final(self).nonces() == old(self).nonces(),
    {
        let id = receipt.id();
        let nonce = receipt.nonce();
        if self.by_id.contains_key(&id) || self.nonce_owner.contains_key(&nonce) {
            return false;
        }
        self.nonce_owner.insert(nonce, id);
        self.by_id.insert(id, receipt);
        assert forall|i: u128| #[trigger]
            self.by_id@.contains_key(i) implies self.by_id@[i].fields().id == i
                && self.nonce_owner@.contains_key(self.by_id@[i].fields().nonce)
                && self.nonce_owner@[self.by_id@[i].fields().nonce] == i by {
            if i != id {
                assert(old(self).by_id@.contains_key(i));
            }
        }
        assert forall|n: u128| #[trigger]
            self.nonce_owner@.contains_key(n) implies self.by_id@.contains_key(self.nonce_owner@[n])
                && self.by_id@[self.nonce_owner@[n]].fields().nonce == n by {
            if n != nonce {
                assert(old(self).nonce_owner@.contains_key(n));
                assert(self.nonce_owner@[n] != id);
            }
        }
        true
    }

    /// The receipt stored under `id`, if any.
    pub fn get(&self, id: u128) -> (r: Option<&AccessReceipt>)
        ensures
            match r {
                Some(rc) => self@.contains_key(id) && *rc == self@[id],
                None => !self@.contains_key(id),
            },
    {
        self.by_id.get(&id)
    }

    /// The number of stored receipts.
    pub fn len(&self) -> (r: usize)
        ensures
            r == self@.len(),
    {
        self.by_id.len()
    }
}

} // verus!
