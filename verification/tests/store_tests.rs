use prover_service::{Error, JobStore, Status};

const J1: u128 = 0x1111_2222_3333_4444;
const J2: u128 = 0x5555_6666_7777_8888;

#[test]
fn lifecycle_advances_through_the_three_statuses() {
    let mut store = JobStore::new();
    store.create(J1);
    assert_eq!(store.get_status(J1), Some(Status::Pending));
    assert_eq!(store.mark_witness_generated(J1), Ok(()));
    assert_eq!(store.get_status(J1), Some(Status::WitnessGenerated));
    assert_eq!(store.mark_proof_generated(J1), Ok(()));
    assert_eq!(store.get_status(J1), Some(Status::ProofGenerated));
    assert_eq!(store.get_failure_reason(J1), None);
}

#[test]
fn unknown_job_has_no_status() {
    let store = JobStore::new();
    assert_eq!(store.get_status(J1), None);
    assert!(!store.contains(J1));
}

#[test]
fn witness_mark_needs_a_pending_job() {
    let mut store = JobStore::new();
    assert_eq!(store.mark_witness_generated(J1), Err(Error::PersistenceError));
    store.create(J1);
    assert_eq!(store.mark_witness_generated(J1), Ok(()));
    assert_eq!(store.mark_witness_generated(J1), Err(Error::PersistenceError));
}

#[test]
fn proof_cannot_be_marked_before_witness() {
    let mut store = JobStore::new();
    store.create(J1);
    assert_eq!(store.mark_proof_generated(J1), Err(Error::PersistenceError));
    assert_eq!(store.get_status(J1), Some(Status::Pending));
}

#[test]
fn mark_failed_records_the_reason() {
    let mut store = JobStore::new();
    store.create(J1);
    store.mark_failed(J1, "disk full".to_owned());
    assert_eq!(store.get_status(J1), Some(Status::Failed));
    assert_eq!(store.get_failure_reason(J1), Some("disk full".to_owned()));
}

#[test]
fn mark_failed_twice_keeps_the_first_reason() {
    let mut store = JobStore::new();
    store.create(J1);
    store.mark_failed(J1, "first reason".to_owned());
    store.mark_failed(J1, "second reason".to_owned());
    assert_eq!(store.get_status(J1), Some(Status::Failed));
    assert_eq!(store.get_failure_reason(J1), Some("first reason".to_owned()));
}

#[test]
fn mark_failed_leaves_a_finished_job_alone() {
    let mut store = JobStore::new();
    store.create(J1);
    assert_eq!(store.mark_witness_generated(J1), Ok(()));
    assert_eq!(store.mark_proof_generated(J1), Ok(()));
    store.mark_failed(J1, "too late".to_owned());
    assert_eq!(store.get_status(J1), Some(Status::ProofGenerated));
    assert_eq!(store.get_failure_reason(J1), None);
}

#[test]
fn mark_failed_on_an_unknown_job_is_harmless() {
    let mut store = JobStore::new();
    store.mark_failed(J1, "never created".to_owned());
    assert_eq!(store.get_status(J1), None);
}

#[test]
fn failure_is_reachable_from_witness_generated() {
    let mut store = JobStore::new();
    store.create(J2);
    assert_eq!(store.mark_witness_generated(J2), Ok(()));
    store.mark_failed(J2, "prover crashed".to_owned());
    assert_eq!(store.get_status(J2), Some(Status::Failed));
    assert_eq!(store.mark_proof_generated(J2), Err(Error::PersistenceError));
    assert_eq!(store.get_status(J2), Some(Status::Failed));
}

#[test]
fn jobs_are_independent() {
    let mut store = JobStore::new();
    store.create(J1);
    store.create(J2);
    store.mark_failed(J1, "bad input".to_owned());
    assert_eq!(store.get_status(J1), Some(Status::Failed));
    assert_eq!(store.get_status(J2), Some(Status::Pending));
}

#[test]
fn status_codes_are_stable() {
    let p: i32 = Status::Pending.into();
    let w: i32 = Status::WitnessGenerated.into();
    let g: i32 = Status::ProofGenerated.into();
    let f: i32 = Status::Failed.into();
    assert_eq!((p, w, g, f), (0, 1, 2, 3));
}
