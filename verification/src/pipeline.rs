use vstd::prelude::*;

use crate::circuits::CircuitMap;
use crate::errors::Error;
use crate::queue::BoundedQueue;
use crate::status::Status;
use crate::store::{
    mark_failed_spec, mark_proof_spec, mark_witness_spec, pending_view, JobStore, JobView,
};

verus! {

/// The unit a file-preparation worker takes: the job and the circuit its
/// request named.
pub struct PrepUnit {
    pub id: u128,
    pub circuit_name: String,
}

/// The unit a witness-generation worker takes: the job and its circuit.
pub struct WitnessUnit {
    pub id: u128,
    pub circuit_name: String,
}

/// The unit the proof-generation loop takes: the job and the key-file path
/// its circuit resolved to.
pub struct ProofUnit {
    pub id: u128,
    pub zkey_path: String,
}

proof fn lemma_contains_push(s: Seq<u128>, x: u128, w: u128)
    ensures
        s.push(x).contains(w) <==> (s.contains(w) || w == x),
{
    if s.contains(w) {
        let j = choose|j: int| 0 <= j < s.len() && s[j] == w;
        assert(s.push(x)[j] == w);
    }
    if w == x {
        assert(s.push(x)[s.len() as int] == w);
    }
    if s.push(x).contains(w) {
        let j = choose|j: int| 0 <= j < s.push(x).len() && s.push(x)[j] == w;
        if j < s.len() {
            assert(s[j] == w);
        }
    }
}

fn ws_contains(v: &Vec<u128>, id: u128) -> (b: bool)
    ensures
        b == v@.contains(id),
{
    let n = v.len();
    let mut i: usize = 0;
    while i < n
        invariant
            i <= n,
            n == v@.len(),
            forall|j: int| 0 <= j < i ==> v@[j] != id,
        decreases n - i,
    {
        if v[i] == id {
            assert(v@[i as int] == id);
            return true;
        }
        i = i + 1;
    }
    assert(!v@.contains(id));
    false
}

fn ws_add(v: &mut Vec<u128>, id: u128)
    ensures
        forall|w: u128| final(v)@.contains(w) == (old(v)@.contains(w) || w == id),
{
    if !ws_contains(v, id) {
        let ghost pre = v@;
        v.push(id);
        proof {
            assert forall|w: u128| final(v)@.contains(w) == (old(v)@.contains(w) || w == id) by {
                lemma_contains_push(pre, id, w);
            }
        }
    }
}

fn ws_remove(v: &mut Vec<u128>, id: u128)
    ensures
        forall|w: u128| final(v)@.contains(w) == (old(v)@.contains(w) && w != id),
{
    let mut out: Vec<u128> = Vec::new();
    let n = v.len();
    let mut i: usize = 0;
    while i < n
        invariant
            i <= n,
            n == v@.len(),
            v@ == old(v)@,
            forall|w: u128| out@.contains(w) == (v@.take(i as int).contains(w) && w != id),
        decreases n - i,
    {
        let item = v[i];
        proof {
            assert(v@.take(i + 1) =~= v@.take(i as int).push(v@[i as int]));
        }
        if item != id {
            let ghost pre = out@;
            out.push(item);
            proof {
                assert forall|w: u128|
                    out@.contains(w) == (v@.take(i + 1).contains(w) && w != id) by {
                    lemma_contains_push(pre, item, w);
                    lemma_contains_push(v@.take(i as int), v@[i as int], w);
                }
            }
        } else {
            proof {
                assert forall|w: u128|
                    out@.contains(w) == (v@.take(i + 1).contains(w) && w != id) by {
                    lemma_contains_push(v@.take(i as int), v@[i as int], w);
                }
            }
        }
        i = i + 1;
    }
    proof {
        assert(v@.take(n as int) =~= v@);
    }
    *v = out;
}

/// The orchestrator: owns the job store, the read-only circuit map, the three
/// bounded stage queues, and the set of job workspaces currently on disk
/// (tracked here so that the terminal cleanup contract is checkable; the
/// caller mirrors every workspace change on the file system).
///
/// The stage workers themselves do outside work (files, processes, hardware),
/// so the caller runs them and reports each outcome back through the
/// `on_*` methods; every decision the pipeline makes about a job lives here.
pub struct Pipeline {
    store: JobStore,
    circuits: CircuitMap,
    prep_queue: BoundedQueue<PrepUnit>,
    witness_queue: BoundedQueue<WitnessUnit>,
    proof_queue: BoundedQueue<ProofUnit>,
    workspaces: Vec<u128>,
}

impl Pipeline {
    /// The job store's contents.
    pub closed spec fn jobs(&self) -> Map<u128, JobView> {
        self.store@
    }

    /// The circuit-to-key-file mapping.
    pub closed spec fn circuits(&self) -> Map<Seq<char>, Seq<char>> {
        self.circuits@
    }

    /// The queued file-preparation units, oldest first.
    pub closed spec fn prep_units(&self) -> Seq<PrepUnit> {
        self.prep_queue@
    }

    /// The queued witness-generation units, oldest first.
    pub closed spec fn witness_units(&self) -> Seq<WitnessUnit> {
        self.witness_queue@
    }

    /// The queued proof-generation units, oldest first.
    pub closed spec fn proof_units(&self) -> Seq<ProofUnit> {
        self.proof_queue@
    }

    /// Whether this job's workspace directory currently exists.
    pub closed spec fn has_workspace_spec(&self, id: u128) -> bool {
        self.workspaces@.contains(id)
    }

    /// The three queue capacities.
    pub closed spec fn caps(&self) -> (nat, nat, nat) {
        (self.prep_queue.cap(), self.witness_queue.cap(), self.proof_queue.cap())
    }

    /// Room for one more file-preparation unit.
    pub open spec fn prep_room(&self) -> bool {
        self.prep_units().len() < self.caps().0
    }

    /// Room for one more witness-generation unit.
    pub open spec fn witness_room(&self) -> bool {
        self.witness_units().len() < self.caps().1
    }

    /// Room for one more proof-generation unit.
    pub open spec fn proof_room(&self) -> bool {
        self.proof_units().len() < self.caps().2
    }

    /// Internal consistency of the store, the circuit map and the queues.
    pub closed spec fn inv(&self) -> bool {
        &&& self.store.inv()
        &&& self.circuits.inv()
        &&& self.prep_queue.inv()
        &&& self.witness_queue.inv()
        &&& self.proof_queue.inv()
    }

    /// Everything a step leaves alone unless its contract says otherwise.
    pub open spec fn same_circuits_and_caps(&self, other: &Pipeline) -> bool {
        self.circuits() == other.circuits() && self.caps() == other.caps()
    }

    /// A fresh pipeline around a circuit map, with empty queues of the given
    /// capacity and no jobs.
    pub fn new(circuits: CircuitMap, queue_capacity: usize) -> (p: Pipeline)
        requires
            circuits.inv(),
            queue_capacity >= 1,
        ensures
            p.inv(),
            p.jobs() == Map::<u128, JobView>::empty(),
            p.circuits() == circuits@,
            p.prep_units() == Seq::<PrepUnit>::empty(),
            p.witness_units() == Seq::<WitnessUnit>::empty(),
            p.proof_units() == Seq::<ProofUnit>::empty(),
            forall|id: u128| !p.has_workspace_spec(id),
            p.caps() == (queue_capacity as nat, queue_capacity as nat, queue_capacity as nat),
    {
        let p = Pipeline {
            store: JobStore::new(),
            circuits,
            prep_queue: BoundedQueue::new(queue_capacity),
            witness_queue: BoundedQueue::new(queue_capacity),
            proof_queue: BoundedQueue::new(queue_capacity),
            workspaces: Vec::new(),
        };
        p
    }

    /// Room checks for the caller, which must wait for room before it
    /// reports a success that enqueues the next stage's unit.
    pub fn prep_has_room(&self) -> (b: bool)
        ensures
            b == self.prep_room(),
    {
        self.prep_queue.has_room()
    }

    /// Room for one more witness-generation unit.
    pub fn witness_has_room(&self) -> (b: bool)
        ensures
            b == self.witness_room(),
    {
        self.witness_queue.has_room()
    }

    /// Room for one more proof-generation unit.
    pub fn proof_has_room(&self) -> (b: bool)
        ensures
            b == self.proof_room(),
    {
        self.proof_queue.has_room()
    }

    /// Intake: records a new job as `Pending` and queues its
    /// file-preparation unit. A job id that was already submitted is rejected
    /// with `ValidationError` and nothing changes.
    pub fn enqueue_job(&mut self, id: u128, circuit_name: String) -> (r: Result<(), Error>)
        requires
            old(self).inv(),
            old(self).prep_room(),
        ensures
            final(self).inv(),
            final(self).same_circuits_and_caps(old(self)),
            final(self).witness_units() == old(self).witness_units(),
            final(self).proof_units() == old(self).proof_units(),
            forall|w: u128| final(self).has_workspace_spec(w) == old(self).has_workspace_spec(w),
            old(self).jobs().dom().contains(id) ==> r == Err::<(), Error>(Error::ValidationError)
                && final(self).jobs() == old(self).jobs() && final(self).prep_units() == old(self).prep_units(),
            !old(self).jobs().dom().contains(id) ==> r is Ok && final(self).jobs() == old(self).jobs().insert(id, pending_view()) && final(self).prep_units() == old(self).prep_units().push(PrepUnit { id, circuit_name }),
    {
        if self.store.contains(id) {
            return Err(Error::ValidationError);
        }
        self.store.create(id);
        self.prep_queue.push(PrepUnit { id, circuit_name });
        Ok(())
    }

    /// Hands the oldest queued file-preparation unit to a worker.
    pub fn take_prep_unit(&mut self) -> (r: Option<PrepUnit>)
        requires
            old(self).inv(),
        ensures
            final(self).inv(),
            final(self).same_circuits_and_caps(old(self)),
            final(self).jobs() == old(self).jobs(),
            final(self).witness_units() == old(self).witness_units(),
            final(self).proof_units() == old(self).proof_units(),
            forall|w: u128| final(self).has_workspace_spec(w) == old(self).has_workspace_spec(w),
            match r {
                Some(unit) => old(self).prep_units().len() > 0 && unit == old(self).prep_units()[0]
                    && final(self).prep_units() == old(self).prep_units().remove(0),
                None => old(self).prep_units().len() == 0 && final(self).prep_units() == old(self).prep_units(),
            },
    {
        self.prep_queue.pop()
    }

    /// Hands the oldest queued witness-generation unit to a worker.
    pub fn take_witness_unit(&mut self) -> (r: Option<WitnessUnit>)
        requires
            old(self).inv(),
        ensures
            final(self).inv(),
            final(self).same_circuits_and_caps(old(self)),
            final(self).jobs() == old(self).jobs(),
            final(self).prep_units() == old(self).prep_units(),
            final(self).proof_units() == old(self).proof_units(),
            forall|w: u128| final(self).has_workspace_spec(w) == old(self).has_workspace_spec(w),
            match r {
                Some(unit) => old(self).witness_units().len() > 0 && unit == old(self).witness_units()[0] && final(self).witness_units() == old(self).witness_units().remove(0),
                None => old(self).witness_units().len() == 0 && final(self).witness_units() == old(self).witness_units(),
            },
    {
        self.witness_queue.pop()
    }

    /// Hands the oldest queued proof-generation unit to the proving loop.
    pub fn take_proof_unit(&mut self) -> (r: Option<ProofUnit>)
        requires
            old(self).inv(),
        ensures
            final(self).inv(),
            final(self).same_circuits_and_caps(old(self)),
            final(self).jobs() == old(self).jobs(),
            final(self).prep_units() == old(self).prep_units(),
            final(self).witness_units() == old(self).witness_units(),
            forall|w: u128| final(self).has_workspace_spec(w) == old(self).has_workspace_spec(w),
            match r {
                Some(unit) => old(self).proof_units().len() > 0 && unit == old(self).proof_units()[0] && final(self).proof_units() == old(self).proof_units().remove(
                    0,
                ),
                None => old(self).proof_units().len() == 0 && final(self).proof_units() == old(self).proof_units(),
            },
    {
        self.proof_queue.pop()
    }

    /// A file-preparation worker succeeded: the job's workspace now exists
    /// and its witness-generation unit is queued.
    pub fn on_prepare_success(&mut self, id: u128, circuit_name: String)
        requires
            old(self).inv(),
            old(self).witness_room(),
        ensures
            final(self).inv(),
            final(self).same_circuits_and_caps(old(self)),
            final(self).jobs() == old(self).jobs(),
            final(self).prep_units() == old(self).prep_units(),
            final(self).proof_units() == old(self).proof_units(),
            final(self).witness_units() == old(self).witness_units().push(
                WitnessUnit { id, circuit_name },
            ),
            forall|w: u128|
                final(self).has_workspace_spec(w) == (old(self).has_workspace_spec(w) || w == id),
    {
        ws_add(&mut self.workspaces, id);
        self.witness_queue.push(WitnessUnit { id, circuit_name });
    }

    /// A witness-generation worker succeeded: the job is marked
    /// `WitnessGenerated`, its circuit is resolved to a key file, and its
    /// proof-generation unit is queued. An unknown circuit name, or a job
    /// that is not `Pending` in the store, is fatal for this job alone: it is
    /// cleaned up with the matching reason.
    pub fn on_witness_success(&mut self, id: u128, circuit_name: String)
        requires
            old(self).inv(),
            old(self).proof_room(),
        ensures
            final(self).inv(),
            final(self).same_circuits_and_caps(old(self)),
            final(self).prep_units() == old(self).prep_units(),
            final(self).witness_units() == old(self).witness_units(),
            !old(self).circuits().dom().contains(circuit_name@) ==> final(self).jobs()
                == mark_failed_spec(old(self).jobs(), id, "unknown circuit"@) && final(self).proof_units() == old(self).proof_units() && (forall|w: u128|
                final(self).has_workspace_spec(w) == (old(self).has_workspace_spec(w) && w != id)),
            old(self).circuits().dom().contains(circuit_name@) && !(old(self).jobs().dom().contains(id) && old(self).jobs()[id].status == Status::Pending) ==> final(self).jobs() == mark_failed_spec(old(self).jobs(), id, "status update failed"@) && final(self).proof_units() == old(self).proof_units() && (forall|w: u128|
                final(self).has_workspace_spec(w) == (old(self).has_workspace_spec(w) && w != id)),
            old(self).circuits().dom().contains(circuit_name@) && old(self).jobs().dom().contains(
                id,
            ) && old(self).jobs()[id].status == Status::Pending ==> final(self).jobs()
                == mark_witness_spec(old(self).jobs(), id) && final(self).proof_units().len() == old(self).proof_units().len() + 1 && final(self).proof_units().drop_last() == old(self).proof_units() && final(self).proof_units().last().id == id && final(self).proof_units().last().zkey_path@ == old(self).circuits()[circuit_name@] && (forall|
                w: u128,
            |
                final(self).has_workspace_spec(w) == old(self).has_workspace_spec(w)),
    {
        let path = match self.circuits.get(&circuit_name) {
            Some(path) => path,
            None => {
                self.cleanup(id, "unknown circuit".to_owned());
                return ;
            },
        };
        match self.store.mark_witness_generated(id) {
            Ok(_) => {
                let unit = ProofUnit { id, zkey_path: path };
                self.proof_queue.push(unit);
                proof {
                    assert(final(self).proof_units().drop_last() =~= old(self).proof_units());
                }
            },
            Err(_) => {
                self.cleanup(id, "status update failed".to_owned());
            },
        }
    }

    /// The proving loop succeeded: the job is marked `ProofGenerated` and its
    /// workspace is deleted. A job that is not `WitnessGenerated` in the
    /// store is cleaned up with the matching reason instead; the workspace is
    /// deleted either way.
    pub fn on_proof_success(&mut self, id: u128)
        requires
            old(self).inv(),
        ensures
            final(self).inv(),
            final(self).same_circuits_and_caps(old(self)),
            final(self).prep_units() == old(self).prep_units(),
            final(self).witness_units() == old(self).witness_units(),
            final(self).proof_units() == old(self).proof_units(),
            forall|w: u128|
                final(self).has_workspace_spec(w) == (old(self).has_workspace_spec(w) && w != id),
            old(self).jobs().dom().contains(id) && old(self).jobs()[id].status
                == Status::WitnessGenerated ==> final(self).jobs() == mark_proof_spec(
                old(self).jobs(),
                id,
            ),
            !(old(self).jobs().dom().contains(id) && old(self).jobs()[id].status
                == Status::WitnessGenerated) ==> final(self).jobs() == mark_failed_spec(
                old(self).jobs(),
                id,
                "status update failed"@,
            ),
    {
        match self.store.mark_proof_generated(id) {
            Ok(_) => {
                ws_remove(&mut self.workspaces, id);
            },
            Err(_) => {
                self.cleanup(id, "status update failed".to_owned());
            },
        }
    }

    /// The uniform failure path: marks the job `Failed` with the given reason
    /// (best-effort: a terminal or unknown job is left as it is) and deletes
    /// the job's workspace. Safe to call any number of times.
    pub fn cleanup(&mut self, id: u128, reason: String)
        requires
            old(self).inv(),
        ensures
            final(self).inv(),
            final(self).same_circuits_and_caps(old(self)),
            final(self).prep_units() == old(self).prep_units(),
            final(self).witness_units() == old(self).witness_units(),
            final(self).proof_units() == old(self).proof_units(),
            final(self).jobs() == mark_failed_spec(old(self).jobs(), id, reason@),
            forall|w: u128|
                final(self).has_workspace_spec(w) == (old(self).has_workspace_spec(w) && w != id),
    {
        self.store.mark_failed(id, reason);
        ws_remove(&mut self.workspaces, id);
    }

    /// The job's current status, if the job exists.
    pub fn get_status(&self, id: u128) -> (r: Option<Status>)
        requires
            self.inv(),
        ensures
            match r {
                Some(status) => self.jobs().dom().contains(id) && status == self.jobs()[id].status,
                None => !self.jobs().dom().contains(id),
            },
    {
        self.store.get_status(id)
    }

    /// The job's recorded failure reason, if the job exists and has failed.
    pub fn get_failure_reason(&self, id: u128) -> (r: Option<String>)
        requires
            self.inv(),
        ensures
            match r {
                Some(reason) => self.jobs().dom().contains(id) && self.jobs()[id].reason == Some(
                    reason@,
                ),
                None => !self.jobs().dom().contains(id) || self.jobs()[id].reason is None,
            },
    {
        self.store.get_failure_reason(id)
    }

    /// Every job this pipeline has driven carries a well-formed status
    /// history: it starts at `Pending`, each step is an allowed transition,
    /// it ends at the job's current status, and a failure reason is recorded
    /// exactly when the job failed.
    pub proof fn lemma_job_histories(&self)
        requires
            self.inv(),
        ensures
            forall|id: u128| #[trigger]
                self.jobs().dom().contains(id) ==> crate::store::wf_history(
                    self.jobs()[id].history,
                ) && self.jobs()[id].history.last() == self.jobs()[id].status && (
                self.jobs()[id].status == Status::Failed <==> self.jobs()[id].reason is Some),
    {
        self.store.lemma_views_wf();
    }

    /// Whether this job's workspace directory currently exists.
    pub fn has_workspace(&self, id: u128) -> (b: bool)
        ensures
            b == self.has_workspace_spec(id),
    {
        ws_contains(&self.workspaces, id)
    }
}

} // verus!
