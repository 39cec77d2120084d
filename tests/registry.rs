use kyc_backend::digest::document_digest;
use kyc_backend::registry::KycRegistry;
use kyc_backend::request::Status;

fn hex(bytes: &[u8]) -> String {
    bytes.iter().map(|b| format!("{:02x}", b)).collect()
}

fn submit(reg: &mut KycRegistry, user: &str, document: &str, signature: Option<Vec<u8>>) -> bool {
    match reg.reserve_kyc(user.to_string(), document) {
        Some(_) => reg.complete_kyc(user.to_string(), signature),
        None => false,
    }
}

#[test]
fn end_to_end_scenario() {
    let mut reg = KycRegistry::new();
    assert!(submit(&mut reg, "alice", "doc1", Some(vec![7, 8, 9])));
    let q = reg.get_kyc_status("alice".to_string()).unwrap();
    assert_eq!(q.status, Status::Pending);
    assert_eq!(q.user_id, "alice");
    assert!(reg.approve_kyc("alice".to_string()));
    assert_eq!(reg.get_kyc_status("alice".to_string()).unwrap().status, Status::Approved);
    assert!(!reg.reject_kyc("alice".to_string()));
    assert_eq!(reg.get_kyc_status("alice".to_string()).unwrap().status, Status::Approved);
    assert!(!submit(&mut reg, "alice", "doc2", Some(vec![1])));
    assert_eq!(reg.get_kyc_status("alice".to_string()).unwrap().status, Status::Approved);
}

#[test]
fn submitted_request_is_pending_with_digest_and_signature() {
    let mut reg = KycRegistry::new();
    let digest = reg.reserve_kyc("bob".to_string(), "abc").unwrap();
    assert_eq!(
        hex(&digest),
        "ba7816bf8f01cfea414140de5dae2223b00361a396177a9cb410ff61f20015ad"
    );
    assert!(reg.complete_kyc("bob".to_string(), Some(vec![42, 43])));
    let q = reg.get_kyc_status("bob".to_string()).unwrap();
    assert_eq!(q.status, Status::Pending);
    assert_eq!(q.document_digest, digest);
    assert_eq!(q.signature, Some(vec![42, 43]));
}

#[test]
fn digest_is_sha256_of_document() {
    assert_eq!(
        hex(&document_digest("")),
        "e3b0c44298fc1c149afbf4c8996fb92427ae41e4649b934ca495991b7852b855"
    );
    assert_eq!(document_digest("doc1"), document_digest("doc1"));
    assert_ne!(document_digest("doc1"), document_digest("doc2"));
    assert_eq!(document_digest("doc1").len(), 32);
}

#[test]
fn same_document_same_digest_across_subjects() {
    let mut reg = KycRegistry::new();
    let a = reg.reserve_kyc("alice".to_string(), "doc1").unwrap();
    let b = reg.reserve_kyc("bob".to_string(), "doc1").unwrap();
    assert_eq!(a, b);
}

#[test]
fn second_submit_is_refused_and_first_kept() {
    let mut reg = KycRegistry::new();
    assert!(submit(&mut reg, "carol", "doc1", Some(vec![1, 2])));
    let before = reg.get_kyc_status("carol".to_string()).unwrap();
    assert!(reg.reserve_kyc("carol".to_string(), "doc2").is_none());
    let after = reg.get_kyc_status("carol".to_string()).unwrap();
    assert_eq!(after.status, Status::Pending);
    assert_eq!(after.document_digest, before.document_digest);
    assert_eq!(after.signature, before.signature);
}

#[test]
fn concurrent_submits_only_one_reserves() {
    let mut reg = KycRegistry::new();
    let first = reg.reserve_kyc("dave".to_string(), "doc1");
    let second = reg.reserve_kyc("dave".to_string(), "doc2");
    assert!(first.is_some());
    assert!(second.is_none());
    assert!(reg.get_kyc_status("dave".to_string()).is_none());
    assert!(reg.complete_kyc("dave".to_string(), Some(vec![5])));
    assert!(!reg.complete_kyc("dave".to_string(), Some(vec![6])));
    let q = reg.get_kyc_status("dave".to_string()).unwrap();
    assert_eq!(q.status, Status::Pending);
    assert_eq!(q.signature, Some(vec![5]));
    assert_eq!(q.document_digest, document_digest("doc1"));
}

#[test]
fn failed_signing_releases_reservation() {
    let mut reg = KycRegistry::new();
    assert!(reg.reserve_kyc("erin".to_string(), "doc1").is_some());
    assert!(!reg.complete_kyc("erin".to_string(), None));
    assert!(reg.get_kyc_status("erin".to_string()).is_none());
    assert!(submit(&mut reg, "erin", "doc2", Some(vec![9])));
    let q = reg.get_kyc_status("erin".to_string()).unwrap();
    assert_eq!(q.status, Status::Pending);
    assert_eq!(q.document_digest, document_digest("doc2"));
}

#[test]
fn review_of_unknown_subject_is_refused() {
    let mut reg = KycRegistry::new();
    assert!(!reg.approve_kyc("frank".to_string()));
    assert!(!reg.reject_kyc("frank".to_string()));
    assert!(reg.get_kyc_status("frank".to_string()).is_none());
}

#[test]
fn review_of_reserved_request_is_refused() {
    let mut reg = KycRegistry::new();
    assert!(reg.reserve_kyc("gina".to_string(), "doc1").is_some());
    assert!(!reg.approve_kyc("gina".to_string()));
    assert!(!reg.reject_kyc("gina".to_string()));
    assert!(reg.complete_kyc("gina".to_string(), Some(vec![3])));
    assert_eq!(reg.get_kyc_status("gina".to_string()).unwrap().status, Status::Pending);
}

#[test]
fn review_of_terminal_request_is_refused() {
    let mut reg = KycRegistry::new();
    assert!(submit(&mut reg, "hank", "doc1", Some(vec![4])));
    assert!(reg.reject_kyc("hank".to_string()));
    assert!(!reg.approve_kyc("hank".to_string()));
    assert!(!reg.reject_kyc("hank".to_string()));
    assert_eq!(reg.get_kyc_status("hank".to_string()).unwrap().status, Status::Rejected);
}

#[test]
fn complete_without_reservation_is_refused() {
    let mut reg = KycRegistry::new();
    assert!(!reg.complete_kyc("ivy".to_string(), Some(vec![1])));
    assert!(!reg.complete_kyc("ivy".to_string(), None));
    assert!(reg.get_kyc_status("ivy".to_string()).is_none());
}

#[test]
fn subjects_are_independent() {
    let mut reg = KycRegistry::new();
    assert!(submit(&mut reg, "alice", "doc1", Some(vec![1])));
    assert!(submit(&mut reg, "bob", "doc1", Some(vec![2])));
    assert!(reg.approve_kyc("alice".to_string()));
    assert_eq!(reg.get_kyc_status("bob".to_string()).unwrap().status, Status::Pending);
    assert!(reg.reject_kyc("bob".to_string()));
    assert_eq!(reg.get_kyc_status("alice".to_string()).unwrap().status, Status::Approved);
    assert_eq!(reg.get_kyc_status("bob".to_string()).unwrap().status, Status::Rejected);
}
