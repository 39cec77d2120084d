use vstd::prelude::*;

verus! {

/// Where a request stands in its lifecycle.
#[derive(Clone, Copy, Debug, PartialEq, Eq, Structural)]
pub enum Status {
    /// The subject is claimed; the document digest is being signed.
    Reserved,
    /// Signed and waiting for review.
    Pending,
    /// Accepted by an operator (terminal).
    Approved,
    /// Refused by an operator (terminal).
    Rejected,
}

/// What a request holds, as mathematical values.
pub struct RequestView {
    pub digest: Seq<u8>,
    pub signature: Option<Seq<u8>>,
    pub status: Status,
}

/// The bytes of an optional byte vector.
pub open spec fn opt_bytes(o: Option<Vec<u8>>) -> Option<Seq<u8>> {
    match o {
        Some(v) => Some(v@),
        None => None,
    }
}

/// A fresh vector holding the same bytes.
pub fn copy_bytes(bytes: &Vec<u8>) -> (r: Vec<u8>)
    ensures
        r@ == bytes@,
{
    let mut r: Vec<u8> = Vec::new();
    let mut i: usize = 0;
    while i < bytes.len()
        invariant
            i <= bytes@.len(),
            r@ == bytes@.subrange(0, i as int),
        decreases bytes@.len() - i,
    {
        r.push(bytes[i]);
        i = i + 1;
    }
    assert(r@ =~= bytes@);
    r
}

/// A request of one subject.
#[derive(Debug)]
pub struct KYCRequest {
    pub user_id: String,
    pub document_digest: Vec<u8>,
    pub signature: Option<Vec<u8>>,
    pub status: Status,
}

impl KYCRequest {
    pub open spec fn view(&self) -> RequestView {
        RequestView {
            digest: self.document_digest@,
            signature: opt_bytes(self.signature),
            status: self.status,
        }
    }

    /// A copy of this request.
    pub fn snapshot(&self) -> (r: KYCRequest)
        ensures
            r.user_id@ == self.user_id@,
            r@ == self@,
    {
        let signature = match &self.signature {
            Some(s) => Some(copy_bytes(s)),
            None => None,
        };
        KYCRequest {
            user_id: self.user_id.clone(),
            document_digest: copy_bytes(&self.document_digest),
            signature,
            status: self.status,
        }
    }
}

} // verus!
