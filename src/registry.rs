use crate::digest::{document_digest, sha256_of};
use crate::model::{
    complete_step, completes, registry_wf, reserve_step, review_step, reviewable, visible,
    Registry,
};
use crate::request::{copy_bytes, opt_bytes, KYCRequest, RequestView, Status};
use vstd::prelude::*;

verus! {

/// The store of requests, keyed by subject, at most one request per subject.
pub struct KycRegistry {
    records: Vec<KYCRequest>,
    model: Ghost<Registry>,
}

impl View for KycRegistry {
    type V = Registry;

    closed spec fn view(&self) -> Registry {
        self.model@
    }
}

impl KycRegistry {
    /// The records hold distinct subjects and agree with the model.
    pub closed spec fn wf(&self) -> bool {
        &&& forall|i: int, j: int|
            0 <= i < j < self.records@.len() ==> #[trigger] self.records@[i].user_id@
                != #[trigger] self.records@[j].user_id@
        &&& forall|i: int|
            0 <= i < self.records@.len() ==> self.model@.contains_key(
                #[trigger] self.records@[i].user_id@,
            ) && self.model@[self.records@[i].user_id@] == self.records@[i]@
        &&& forall|k: Seq<char>|
            #[trigger] self.model@.contains_key(k) ==> exists|i: int|
                0 <= i < self.records@.len() && #[trigger] self.records@[i].user_id@ == k
        &&& registry_wf(self.model@)
    }

    /// An empty registry.
    pub fn new() -> (r: KycRegistry)
        ensures
            r.wf(),
            r@ == Map::<Seq<char>, RequestView>::empty(),
    {
        KycRegistry { records: Vec::new(), model: Ghost(Map::empty()) }
    }

    /// The position of a subject's record, if it has one.
    fn find(&self, user_id: &String) -> (r: Option<usize>)
        requires
            self.wf(),
        ensures
            match r {
                Some(i) => i < self.records@.len() && self.records@[i as int].user_id@ == user_id@
                    && self@.contains_key(user_id@) && self@[user_id@] == self.records@[i as int]@,
                None => !self@.contains_key(user_id@),
            },
    {
        let mut i: usize = 0;
        while i < self.records.len()
            invariant
                self.wf(),
                i <= self.records@.len(),
                forall|j: int| 0 <= j < i ==> self.records@[j].user_id@ != user_id@,
            decreases self.records@.len() - i,
        {
            if self.records[i].user_id == *user_id {
                return Some(i);
            }
            i = i + 1;
        }
        None
    }
    /// Submission, first half: claims the subject and returns the digest of the
    /// document to be signed. Claiming is a single step: a subject that already
    /// has a request, in any state including `Reserved`, is refused with `None`
    /// and the registry is left as it is.
    pub fn reserve_kyc(&mut self, user_id: String, document: &str) -> (r: Option<Vec<u8>>)
        requires
            old(self).wf(),
        ensures
            final(self).wf(),
            final(self)@ == reserve_step(old(self)@, user_id@, document@),
            r is None <==> old(self)@.contains_key(user_id@),
            match r {
                Some(d) => d@ == sha256_of(document@) && d@.len() == 32,
                None => true,
            },
    {
        if self.find(&user_id).is_some() {
            return None;
        }
        let digest = document_digest(document);
        let ghost user = user_id@;
        let ghost old_records = self.records@;
        let record = KYCRequest {
            user_id,
            document_digest: copy_bytes(&digest),
            signature: None,
            status: Status::Reserved,
        };
        self.records.push(record);
        self.model = Ghost(self.model@.insert(user, record@));
        proof {
            let n = old_records.len() as int;
            assert(self.records@[n].user_id@ == user);
            assert forall|k: Seq<char>| #[trigger] self.model@.contains_key(k) implies exists|i: int|
                0 <= i < self.records@.len() && #[trigger] self.records@[i].user_id@ == k by {
                if k != user {
                    let i = choose|i: int| 0 <= i < old_records.len() && #[trigger] old_records[i].user_id@ == k;
                    assert(self.records@[i] == old_records[i]);
                }
            }
        }
        Some(digest)
    }

    /// Submission, second half: hands in the outcome of signing the digest.
    /// With a signature, a `Reserved` request becomes `Pending` and keeps it,
    /// and the result is `true`. Without one (signing failed) the reservation is
    /// released, so that the subject can submit again, and the result is `false`.
    /// A subject whose request is not `Reserved` is left as it is.
    pub fn complete_kyc(&mut self, user_id: String, signature: Option<Vec<u8>>) -> (r: bool)
        requires
            old(self).wf(),
        ensures
            final(self).wf(),
            final(self)@ == complete_step(old(self)@, user_id@, opt_bytes(signature)),
            r == completes(old(self)@, user_id@, opt_bytes(signature)),
    {
        let found = self.find(&user_id);
        let i = match found {
            Some(i) => i,
            None => return false,
        };
        if self.records[i].status != Status::Reserved {
            return false;
        }
        let ghost user = user_id@;
        let ghost old_records = self.records@;
        match signature {
            Some(sig) => {
                let record = KYCRequest {
                    user_id,
                    document_digest: copy_bytes(&self.records[i].document_digest),
                    signature: Some(sig),
                    status: Status::Pending,
                };
                self.records.set(i, record);
                self.model = Ghost(self.model@.insert(user, record@));
                proof {
                    assert forall|k: Seq<char>| #[trigger] self.model@.contains_key(k) implies exists|j: int|
                        0 <= j < self.records@.len() && #[trigger] self.records@[j].user_id@ == k by {
                        let j = choose|j: int| 0 <= j < old_records.len() && #[trigger] old_records[j].user_id@ == k;
                        assert(self.records@[j].user_id@ == k);
                    }
                }
                true
            },
            None => {
                self.records.remove(i);
                self.model = Ghost(self.model@.remove(user));
                proof {
                    assert forall|k: Seq<char>| #[trigger] self.model@.contains_key(k) implies exists|j: int|
                        0 <= j < self.records@.len() && #[trigger] self.records@[j].user_id@ == k by {
                        let j = choose|j: int| 0 <= j < old_records.len() && #[trigger] old_records[j].user_id@ == k;
                        if j < i {
                            assert(self.records@[j] == old_records[j]);
                        } else {
                            assert(j != i);
                            assert(self.records@[j - 1] == old_records[j]);
                        }
                    }
                    assert forall|a: int, b: int| 0 <= a < b < self.records@.len() implies
                        #[trigger] self.records@[a].user_id@ != #[trigger] self.records@[b].user_id@ by {
                        let a0 = if a < i { a } else { a + 1 };
                        let b0 = if b < i { b } else { b + 1 };
                        assert(self.records@[a] == old_records[a0]);
                        assert(self.records@[b] == old_records[b0]);
                    }
                    assert forall|a: int| 0 <= a < self.records@.len() implies self.model@.contains_key(
                        #[trigger] self.records@[a].user_id@) && self.model@[self.records@[a].user_id@]
                        == self.records@[a]@ by {
                        let a0 = if a < i { a } else { a + 1 };
                        assert(self.records@[a] == old_records[a0]);
                        assert(old_records[a0].user_id@ != user);
                    }
                }
                false
            },
        }
    }
    /// The subject's request, or `None` where it has none or its submission is
    /// still in flight (`Reserved`). Reads only.
    pub fn get_kyc_status(&self, user_id: String) -> (r: Option<KYCRequest>)
        requires
            self.wf(),
        ensures
            match r {
                Some(q) => visible(self@, user_id@) == Some(q@) && q.user_id@ == user_id@,
                None => visible(self@, user_id@) is None,
            },
    {
        match self.find(&user_id) {
            Some(i) => {
                if self.records[i].status == Status::Reserved {
                    None
                } else {
                    Some(self.records[i].snapshot())
                }
            },
            None => None,
        }
    }

    /// Moves a `Pending` request to `outcome`; `false`, with nothing changed,
    /// where the subject has no request or its request is not `Pending`.
    fn review(&mut self, user_id: String, outcome: Status) -> (r: bool)
        requires
            old(self).wf(),
            outcome != Status::Reserved,
        ensures
            final(self).wf(),
            final(self)@ == review_step(old(self)@, user_id@, outcome),
            r == reviewable(old(self)@, user_id@),
    {
        let i = match self.find(&user_id) {
            Some(i) => i,
            None => return false,
        };
        if self.records[i].status != Status::Pending {
            return false;
        }
        let ghost user = user_id@;
        let ghost old_records = self.records@;
        let signature = match &self.records[i].signature {
            Some(s) => Some(copy_bytes(s)),
            None => None,
        };
        let record = KYCRequest {
            user_id,
            document_digest: copy_bytes(&self.records[i].document_digest),
            signature,
            status: outcome,
        };
        self.records.set(i, record);
        self.model = Ghost(self.model@.insert(user, record@));
        proof {
            assert forall|k: Seq<char>| #[trigger] self.model@.contains_key(k) implies exists|j: int|
                0 <= j < self.records@.len() && #[trigger] self.records@[j].user_id@ == k by {
                let j = choose|j: int| 0 <= j < old_records.len() && #[trigger] old_records[j].user_id@ == k;
                assert(self.records@[j].user_id@ == k);
            }
        }
        true
    }

    /// Approves a `Pending` request. `false`, with nothing changed, where the
    /// subject has no request, or it is `Reserved`, `Approved` or `Rejected`.
    pub fn approve_kyc(&mut self, user_id: String) -> (r: bool)
        requires
            old(self).wf(),
        ensures
            final(self).wf(),
            final(self)@ == review_step(old(self)@, user_id@, Status::Approved),
            r == reviewable(old(self)@, user_id@),
    {
        self.review(user_id, Status::Approved)
    }

    /// Rejects a `Pending` request. `false`, with nothing changed, where the
    /// subject has no request, or it is `Reserved`, `Approved` or `Rejected`.
    pub fn reject_kyc(&mut self, user_id: String) -> (r: bool)
        requires
            old(self).wf(),
        ensures
            final(self).wf(),
            final(self)@ == review_step(old(self)@, user_id@, Status::Rejected),
            r == reviewable(old(self)@, user_id@),
    {
        self.review(user_id, Status::Rejected)
    }
    /// Every request of a well-formed registry is signed exactly when it has
    /// left `Reserved`.
    pub proof fn lemma_signature_rule(&self)
        requires
            self.wf(),
        ensures
            registry_wf(self@),
    {
    }
}

} // verus!
