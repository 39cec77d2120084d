use crate::digest::sha256_of;
use crate::model::{
    complete_step, completes, registry_wf, reserve_step, reserved_request, review_step,
    reviewable, Registry,
};
use crate::request::{RequestView, Status};
use vstd::prelude::*;

verus! {

/// A submission that is reserved and then signed leaves exactly one request
/// for the subject, `Pending`, holding the digest of the submitted document and
/// the signature; no other subject's request changes.
pub proof fn lemma_submit_records_pending(
    m: Registry,
    user: Seq<char>,
    document: Seq<char>,
    signature: Seq<u8>,
)
    requires
        !m.contains_key(user),
    ensures
        completes(reserve_step(m, user, document), user, Some(signature)),
        complete_step(reserve_step(m, user, document), user, Some(signature)) == m.insert(
            user,
            RequestView {
                digest: sha256_of(document),
                signature: Some(signature),
                status: Status::Pending,
            },
        ),
{
    let mid = reserve_step(m, user, document);
    assert(mid[user] == reserved_request(document));
    assert(mid.insert(
        user,
        RequestView { digest: sha256_of(document), signature: Some(signature), status: Status::Pending },
    ) =~= m.insert(
        user,
        RequestView { digest: sha256_of(document), signature: Some(signature), status: Status::Pending },
    ));
}

/// The digest is a function of the document: the same document, submitted by
/// any subject into any registry, is reserved under the same digest.
pub proof fn lemma_digest_deterministic(
    m1: Registry,
    m2: Registry,
    user1: Seq<char>,
    user2: Seq<char>,
    document: Seq<char>,
)
    requires
        !m1.contains_key(user1),
        !m2.contains_key(user2),
    ensures
        reserve_step(m1, user1, document)[user1].digest == reserve_step(
            m2,
            user2,
            document,
        )[user2].digest,
{
}

/// Review keeps the digest and the signature of a request, and the subjects of
/// the registry.
pub proof fn lemma_review_keeps_request(m: Registry, user: Seq<char>, outcome: Status)
    requires
        m.contains_key(user),
    ensures
        review_step(m, user, outcome).dom() == m.dom(),
        review_step(m, user, outcome)[user].digest == m[user].digest,
        review_step(m, user, outcome)[user].signature == m[user].signature,
{
    assert(review_step(m, user, outcome).dom() =~= m.dom());
}

/// A second submission for a subject whose first one went through is refused
/// at the reservation and leaves the registry, the first request included, as
/// it was.
pub proof fn lemma_second_submit_refused(
    m: Registry,
    user: Seq<char>,
    first: Seq<char>,
    signature: Seq<u8>,
    second: Seq<char>,
)
    requires
        !m.contains_key(user),
    ensures
        ({
            let after = complete_step(reserve_step(m, user, first), user, Some(signature));
            after.contains_key(user) && reserve_step(after, user, second) == after
        }),
{
    lemma_submit_records_pending(m, user, first, signature);
}

/// Two submissions for one subject whose signing steps overlap: once the first
/// holds the reservation the second is refused at once, changing nothing, and
/// only the first can reach `Pending`. Completing again after the first has
/// gone through, with any outcome, is refused and changes nothing.
pub proof fn lemma_concurrent_submits_one_wins(
    m: Registry,
    user: Seq<char>,
    first: Seq<char>,
    second: Seq<char>,
    signature: Seq<u8>,
    other: Option<Seq<u8>>,
)
    requires
        !m.contains_key(user),
    ensures
        ({
            let mid = reserve_step(m, user, first);
            let done = complete_step(mid, user, Some(signature));
            &&& mid.contains_key(user)
            &&& reserve_step(mid, user, second) == mid
            &&& done[user].status == Status::Pending
            &&& done[user].digest == sha256_of(first)
            &&& !completes(done, user, other)
            &&& complete_step(done, user, other) == done
        }),
{
    lemma_submit_records_pending(m, user, first, signature);
}

/// A submission whose signing fails leaves the registry as it was before, so
/// that the subject can submit again, and that submission can go through.
pub proof fn lemma_failed_signing_releases(
    m: Registry,
    user: Seq<char>,
    document: Seq<char>,
    retry: Seq<char>,
    signature: Seq<u8>,
)
    requires
        !m.contains_key(user),
    ensures
        ({
            let released = complete_step(reserve_step(m, user, document), user, None);
            &&& !completes(reserve_step(m, user, document), user, None)
            &&& released == m
            &&& !released.contains_key(user)
            &&& completes(reserve_step(released, user, retry), user, Some(signature))
        }),
{
    assert(reserve_step(m, user, document).remove(user) =~= m);
    lemma_submit_records_pending(m, user, retry, signature);
}

/// Approving or rejecting a subject without a request, or with one that is
/// `Reserved`, `Approved` or `Rejected`, is refused and changes nothing.
pub proof fn lemma_review_refused(m: Registry, user: Seq<char>, outcome: Status)
    requires
        !m.contains_key(user) || m[user].status != Status::Pending,
    ensures
        !reviewable(m, user),
        review_step(m, user, outcome) == m,
{
}

/// Every step keeps the rule that a request is signed exactly when it has left
/// `Reserved`.
pub proof fn lemma_steps_keep_signature_rule(
    m: Registry,
    user: Seq<char>,
    document: Seq<char>,
    signature: Option<Seq<u8>>,
    outcome: Status,
)
    requires
        registry_wf(m),
        outcome != Status::Reserved,
    ensures
        registry_wf(reserve_step(m, user, document)),
        registry_wf(complete_step(m, user, signature)),
        registry_wf(review_step(m, user, outcome)),
{
}

/// `Approved` and `Rejected` are terminal: every step leaves such a request,
/// and the registry, as it is.
pub proof fn lemma_terminal_is_final(
    m: Registry,
    user: Seq<char>,
    document: Seq<char>,
    signature: Option<Seq<u8>>,
    outcome: Status,
)
    requires
        m.contains_key(user),
        m[user].status == Status::Approved || m[user].status == Status::Rejected,
    ensures
        reserve_step(m, user, document) == m,
        complete_step(m, user, signature) == m,
        review_step(m, user, outcome) == m,
{
}

} // verus!
