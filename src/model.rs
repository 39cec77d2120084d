use crate::digest::sha256_of;
use crate::request::{RequestView, Status};
use vstd::prelude::*;

verus! {

/// The registry as a map from subject to request.
pub type Registry = Map<Seq<char>, RequestView>;

/// A signature is present exactly when the request has left `Reserved`.
pub open spec fn signed_iff_past_reserved(r: RequestView) -> bool {
    r.signature is Some <==> r.status != Status::Reserved
}

/// Every request of the registry keeps the signature rule.
pub open spec fn registry_wf(m: Registry) -> bool {
    forall|k: Seq<char>| #[trigger] m.contains_key(k) ==> signed_iff_past_reserved(m[k])
}

/// The placeholder stored when a subject is reserved for a document.
pub open spec fn reserved_request(document: Seq<char>) -> RequestView {
    RequestView { digest: sha256_of(document), signature: None, status: Status::Reserved }
}

/// Check-and-reserve: a subject without a request gets a `Reserved` one;
/// a subject with a request in any state leaves the registry as it is.
pub open spec fn reserve_step(m: Registry, user: Seq<char>, document: Seq<char>) -> Registry {
    if m.contains_key(user) {
        m
    } else {
        m.insert(user, reserved_request(document))
    }
}

/// Whether completing a submission with this signing outcome finalizes it.
pub open spec fn completes(m: Registry, user: Seq<char>, signature: Option<Seq<u8>>) -> bool {
    m.contains_key(user) && m[user].status == Status::Reserved && signature is Some
}

/// Finishing a reserved submission: a signature moves it to `Pending`;
/// a failed signing removes the reservation. Anything else is left as it is.
pub open spec fn complete_step(m: Registry, user: Seq<char>, signature: Option<Seq<u8>>) -> Registry {
    if m.contains_key(user) && m[user].status == Status::Reserved {
        match signature {
            Some(s) => m.insert(
                user,
                RequestView { digest: m[user].digest, signature: Some(s), status: Status::Pending },
            ),
            None => m.remove(user),
        }
    } else {
        m
    }
}

/// Whether a subject's request can be reviewed: it exists and is `Pending`.
pub open spec fn reviewable(m: Registry, user: Seq<char>) -> bool {
    m.contains_key(user) && m[user].status == Status::Pending
}

/// Review: a `Pending` request moves to `outcome`; anything else is left as it is.
pub open spec fn review_step(m: Registry, user: Seq<char>, outcome: Status) -> Registry {
    if reviewable(m, user) {
        m.insert(user, RequestView { digest: m[user].digest, signature: m[user].signature, status: outcome })
    } else {
        m
    }
}

/// What a query shows of a subject: its request, unless there is none or it is
/// only `Reserved` (an in-flight submission is not yet a request).
pub open spec fn visible(m: Registry, user: Seq<char>) -> Option<RequestView> {
    if m.contains_key(user) && m[user].status != Status::Reserved {
        Some(m[user])
    } else {
        None
    }
}

} // verus!
