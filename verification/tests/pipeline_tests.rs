use prover_service::{get_tmp_folder_path, CircuitMap, Error, Pipeline, Status};

const J1: u128 = 0xaaaa_bbbb_cccc_dddd;
const J2: u128 = 0x0123_4567_89ab_cdef;

fn pipeline_with_foo() -> Pipeline {
    let mut circuits = CircuitMap::new();
    circuits.insert("foo".to_owned(), "/keys/foo/foo.zkey".to_owned());
    Pipeline::new(circuits, 10)
}

#[test]
fn successful_job_ends_proof_generated_with_workspace_gone() {
    let mut p = pipeline_with_foo();

    assert_eq!(p.enqueue_job(J1, "foo".to_owned()), Ok(()));
    assert_eq!(p.get_status(J1), Some(Status::Pending));

    let prep = p.take_prep_unit().unwrap();
    assert_eq!(prep.id, J1);
    assert_eq!(prep.circuit_name, "foo");

    p.on_prepare_success(J1, prep.circuit_name);
    assert!(p.has_workspace(J1));

    let witness = p.take_witness_unit().unwrap();
    assert_eq!(witness.id, J1);

    p.on_witness_success(J1, witness.circuit_name);
    assert_eq!(p.get_status(J1), Some(Status::WitnessGenerated));

    let proof = p.take_proof_unit().unwrap();
    assert_eq!(proof.id, J1);
    assert_eq!(proof.zkey_path, "/keys/foo/foo.zkey");

    p.on_proof_success(J1);
    assert_eq!(p.get_status(J1), Some(Status::ProofGenerated));
    assert!(!p.has_workspace(J1));
    assert_eq!(p.get_failure_reason(J1), None);
}

#[test]
fn witness_failure_ends_failed_with_no_proof_unit() {
    let mut p = pipeline_with_foo();

    assert_eq!(p.enqueue_job(J2, "foo".to_owned()), Ok(()));
    let prep = p.take_prep_unit().unwrap();
    p.on_prepare_success(J2, prep.circuit_name);
    assert!(p.has_workspace(J2));

    let witness = p.take_witness_unit().unwrap();
    assert_eq!(witness.id, J2);

    p.cleanup(J2, "malformed circuit input".to_owned());

    assert_eq!(p.get_status(J2), Some(Status::Failed));
    let reason = p.get_failure_reason(J2).unwrap();
    assert!(!reason.is_empty());
    assert_eq!(reason, "malformed circuit input");
    assert!(!p.has_workspace(J2));
    assert!(p.take_proof_unit().is_none());
}

#[test]
fn duplicate_submission_is_rejected() {
    let mut p = pipeline_with_foo();
    assert_eq!(p.enqueue_job(J1, "foo".to_owned()), Ok(()));
    assert_eq!(p.enqueue_job(J1, "foo".to_owned()), Err(Error::ValidationError));
    assert_eq!(p.get_status(J1), Some(Status::Pending));
}

#[test]
fn unknown_circuit_is_fatal_for_the_job_alone() {
    let mut p = pipeline_with_foo();
    assert_eq!(p.enqueue_job(J1, "bar".to_owned()), Ok(()));
    assert_eq!(p.enqueue_job(J2, "foo".to_owned()), Ok(()));
    let prep = p.take_prep_unit().unwrap();
    p.on_prepare_success(J1, prep.circuit_name);
    let witness = p.take_witness_unit().unwrap();
    p.on_witness_success(J1, witness.circuit_name);

    assert_eq!(p.get_status(J1), Some(Status::Failed));
    assert_eq!(p.get_failure_reason(J1), Some("unknown circuit".to_owned()));
    assert!(!p.has_workspace(J1));
    assert!(p.take_proof_unit().is_none());
    assert_eq!(p.get_status(J2), Some(Status::Pending));
}

#[test]
fn out_of_order_proof_success_cleans_the_job_up() {
    let mut p = pipeline_with_foo();
    assert_eq!(p.enqueue_job(J1, "foo".to_owned()), Ok(()));
    p.on_proof_success(J1);
    assert_eq!(p.get_status(J1), Some(Status::Failed));
    assert_eq!(p.get_failure_reason(J1), Some("status update failed".to_owned()));
}

#[test]
fn cleanup_keeps_the_first_reason() {
    let mut p = pipeline_with_foo();
    assert_eq!(p.enqueue_job(J1, "foo".to_owned()), Ok(()));
    p.cleanup(J1, "first failure".to_owned());
    p.cleanup(J1, "second failure".to_owned());
    assert_eq!(p.get_failure_reason(J1), Some("first failure".to_owned()));
}

#[test]
fn prepare_failure_leaves_no_workspace() {
    let mut p = pipeline_with_foo();
    assert_eq!(p.enqueue_job(J1, "foo".to_owned()), Ok(()));
    let prep = p.take_prep_unit().unwrap();
    assert_eq!(prep.id, J1);
    p.cleanup(J1, "could not materialize input files".to_owned());
    assert_eq!(p.get_status(J1), Some(Status::Failed));
    assert!(!p.has_workspace(J1));
    assert!(p.take_witness_unit().is_none());
}

#[test]
fn empty_queues_hand_out_nothing() {
    let mut p = pipeline_with_foo();
    assert!(p.take_prep_unit().is_none());
    assert!(p.take_witness_unit().is_none());
    assert!(p.take_proof_unit().is_none());
}

#[test]
fn queue_room_is_reported() {
    let mut circuits = CircuitMap::new();
    circuits.insert("foo".to_owned(), "/keys/foo/foo.zkey".to_owned());
    let mut p = Pipeline::new(circuits, 2);
    assert!(p.prep_has_room());
    assert_eq!(p.enqueue_job(1, "foo".to_owned()), Ok(()));
    assert_eq!(p.enqueue_job(2, "foo".to_owned()), Ok(()));
    assert!(!p.prep_has_room());
    assert!(p.witness_has_room());
    assert!(p.proof_has_room());
    assert!(p.take_prep_unit().is_some());
    assert!(p.prep_has_room());
}

#[test]
fn units_come_out_in_submission_order() {
    let mut p = pipeline_with_foo();
    assert_eq!(p.enqueue_job(1, "foo".to_owned()), Ok(()));
    assert_eq!(p.enqueue_job(2, "foo".to_owned()), Ok(()));
    assert_eq!(p.enqueue_job(3, "foo".to_owned()), Ok(()));
    assert_eq!(p.take_prep_unit().unwrap().id, 1);
    assert_eq!(p.take_prep_unit().unwrap().id, 2);
    assert_eq!(p.take_prep_unit().unwrap().id, 3);
    assert!(p.take_prep_unit().is_none());
}

#[test]
fn workspace_path_has_the_fixed_prefix() {
    let id = uuid::Uuid::from_u128(J1).to_string();
    let path = get_tmp_folder_path(&id);
    assert_eq!(path, format!("./tmp_{}", id));
}

#[test]
fn circuit_map_lookup() {
    let mut circuits = CircuitMap::new();
    circuits.insert("foo".to_owned(), "/keys/foo/foo.zkey".to_owned());
    circuits.insert("bar".to_owned(), "/keys/bar/bar.zkey".to_owned());
    assert!(circuits.contains(&"foo".to_owned()));
    assert!(!circuits.contains(&"baz".to_owned()));
    assert_eq!(circuits.get(&"bar".to_owned()), Some("/keys/bar/bar.zkey".to_owned()));
    assert_eq!(circuits.get(&"baz".to_owned()), None);
}
