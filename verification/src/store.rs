use vstd::prelude::*;

use crate::errors::Error;
use crate::status::Status;

verus! {

/// Abstract view of one job's record: its status, its failure reason (present
/// exactly when the job failed), and the full sequence of statuses it has
/// been given, in order.
#[verifier::ext_equal]
pub struct JobView {
    pub status: Status,
    pub reason: Option<Seq<char>>,
    pub history: Seq<Status>,
}

/// One stored job.
struct JobEntry {
    id: u128,
    status: Status,
    reason: Option<String>,
    history: Ghost<Seq<Status>>,
}

/// The job status store: the durable state machine that every pipeline stage
/// reads and advances. Viewed as a map from job id to `JobView`.
pub struct JobStore {
    entries: Vec<JobEntry>,
}

/// A status transition the state machine allows: `Pending` advances to
/// `WitnessGenerated`, `WitnessGenerated` to `ProofGenerated`, and any
/// non-terminal status may fall to `Failed`.
pub open spec fn step_ok(from: Status, to: Status) -> bool {
    ||| (from == Status::Pending && to == Status::WitnessGenerated)
    ||| (from == Status::WitnessGenerated && to == Status::ProofGenerated)
    ||| (!from.is_terminal() && to == Status::Failed)
}

/// A well-formed status history: it starts at `Pending` and every later
/// status follows its predecessor by an allowed transition.
pub open spec fn wf_history(h: Seq<Status>) -> bool {
    &&& h.len() >= 1
    &&& h[0] == Status::Pending
    &&& forall|i: int| 0 <= i < h.len() - 1 ==> step_ok(#[trigger] h[i], h[i + 1])
}

/// The view of a fresh job: `Pending`, no reason, a one-status history.
pub open spec fn pending_view() -> JobView {
    JobView { status: Status::Pending, reason: None, history: seq![Status::Pending] }
}

/// How `mark_witness_generated` changes the store: a job that is `Pending`
/// advances to `WitnessGenerated`; any other store is left unchanged.
pub open spec fn mark_witness_spec(m: Map<u128, JobView>, id: u128) -> Map<u128, JobView> {
    if m.dom().contains(id) && m[id].status == Status::Pending {
        m.insert(
            id,
            JobView {
                status: Status::WitnessGenerated,
                reason: None,
                history: m[id].history.push(Status::WitnessGenerated),
            },
        )
    } else {
        m
    }
}

/// How `mark_proof_generated` changes the store: a job that is
/// `WitnessGenerated` advances to `ProofGenerated`; any other store is left
/// unchanged.
pub open spec fn mark_proof_spec(m: Map<u128, JobView>, id: u128) -> Map<u128, JobView> {
    if m.dom().contains(id) && m[id].status == Status::WitnessGenerated {
        m.insert(
            id,
            JobView {
                status: Status::ProofGenerated,
                reason: None,
                history: m[id].history.push(Status::ProofGenerated),
            },
        )
    } else {
        m
    }
}

/// How `mark_failed` changes the store: a job in a non-terminal status falls
/// to `Failed` and the given reason is recorded; a job already terminal, or
/// absent, is left untouched, so in particular the first recorded reason is
/// never overwritten.
pub open spec fn mark_failed_spec(m: Map<u128, JobView>, id: u128, reason: Seq<char>) -> Map<
    u128,
    JobView,
> {
    if m.dom().contains(id) && !m[id].status.is_terminal() {
        m.insert(
            id,
            JobView {
                status: Status::Failed,
                reason: Some(reason),
                history: m[id].history.push(Status::Failed),
            },
        )
    } else {
        m
    }
}

spec fn entry_view(e: JobEntry) -> JobView {
    JobView {
        status: e.status,
        reason: match e.reason {
            Some(s) => Some(s@),
            None => None,
        },
        history: e.history@,
    }
}

spec fn entry_inv(e: JobEntry) -> bool {
    &&& wf_history(e.history@)
    &&& e.history@.last() == e.status
    &&& (e.status == Status::Failed <==> e.reason is Some)
}

spec fn unique_ids(s: Seq<JobEntry>) -> bool {
    forall|i: int, j: int| 0 <= i < j < s.len() ==> (#[trigger] s[i]).id != (#[trigger] s[j]).id
}

spec fn map_of(s: Seq<JobEntry>) -> Map<u128, JobView>
    decreases s.len(),
{
    if s.len() == 0 {
        Map::empty()
    } else {
        map_of(s.drop_last()).insert(s.last().id, entry_view(s.last()))
    }
}

proof fn lemma_map_of_contains(s: Seq<JobEntry>, id: u128)
    ensures
        map_of(s).dom().contains(id) <==> exists|i: int| 0 <= i < s.len() && (#[trigger] s[i]).id
            == id,
    decreases s.len(),
{
    if s.len() > 0 {
        lemma_map_of_contains(s.drop_last(), id);
        if s.last().id == id {
            assert(s[s.len() - 1].id == id);
        } else if map_of(s).dom().contains(id) {
            let i = choose|i: int| 0 <= i < s.drop_last().len() && (#[trigger] s.drop_last()[i]).id
                == id;
            assert(s[i].id == id);
        } else {
            assert forall|i: int| 0 <= i < s.len() implies (#[trigger] s[i]).id != id by {
                if i < s.len() - 1 {
                    assert(s.drop_last()[i].id != id);
                }
            }
        }
    }
}

proof fn lemma_map_of_index(s: Seq<JobEntry>, i: int)
    requires
        unique_ids(s),
        0 <= i < s.len(),
    ensures
        map_of(s).dom().contains(s[i].id),
        map_of(s)[s[i].id] == entry_view(s[i]),
    decreases s.len(),
{
    if i == s.len() - 1 {
        assert(s[i] == s.last());
    } else {
        assert(forall|j: int, k: int|
            0 <= j < k < s.drop_last().len() ==> (#[trigger] s.drop_last().index(j)).id != (#[trigger] s.drop_last().index(k)).id);
        lemma_map_of_index(s.drop_last(), i);
        assert(s.drop_last()[i] == s[i]);
        assert(s[i].id != s.last().id);
    }
}

proof fn lemma_map_of_update(s: Seq<JobEntry>, i: int, e: JobEntry)
    requires
        unique_ids(s),
        0 <= i < s.len(),
        e.id == s[i].id,
    ensures
        map_of(s.update(i, e)) =~= map_of(s).insert(e.id, entry_view(e)),
    decreases s.len(),
{
    let t = s.update(i, e);
    if i == s.len() - 1 {
        assert(t.drop_last() =~= s.drop_last());
        assert(t.last() == e);
    } else {
        assert(forall|j: int, k: int|
            0 <= j < k < s.drop_last().len() ==> (#[trigger] s.drop_last().index(j)).id != (#[trigger] s.drop_last().index(k)).id);
        lemma_map_of_update(s.drop_last(), i, e);
        assert(t.drop_last() =~= s.drop_last().update(i, e));
        assert(t.last() == s.last());
        assert(e.id != s.last().id);
    }
}

impl View for JobStore {
    type V = Map<u128, JobView>;

    closed spec fn view(&self) -> Map<u128, JobView> {
        map_of(self.entries@)
    }
}

impl JobStore {
    /// Internal consistency: job ids are unique and every record carries a
    /// well-formed history that ends at its current status, with a failure
    /// reason exactly when the status is `Failed`.
    pub closed spec fn inv(&self) -> bool {
        &&& unique_ids(self.entries@)
        &&& forall|i: int| 0 <= i < self.entries@.len() ==> entry_inv(#[trigger] self.entries@[i])
    }

    /// An empty store.
    pub fn new() -> (store: JobStore)
        ensures
            store.inv(),
            store@ == Map::<u128, JobView>::empty(),
    {
        JobStore { entries: Vec::new() }
    }

    fn find_index(&self, id: u128) -> (r: Option<usize>)
        requires
            self.inv(),
        ensures
            match r {
                Some(i) => i < self.entries@.len() && self.entries@[i as int].id == id
                    && self@.dom().contains(id) && self@[id] == entry_view(
                    self.entries@[i as int],
                ),
                None => !self@.dom().contains(id),
            },
    {
        let n = self.entries.len();
        let mut i: usize = 0;
        while i < n
            invariant
                self.inv(),
                i <= n,
                n == self.entries@.len(),
                forall|j: int| 0 <= j < i ==> (#[trigger] self.entries@[j]).id != id,
            decreases n - i,
        {
            if self.entries[i].id == id {
                proof {
                    lemma_map_of_index(self.entries@, i as int);
                }
                return Some(i);
            }
            i = i + 1;
        }
        proof {
            lemma_map_of_contains(self.entries@, id);
        }
        None
    }

    /// Whether a job with this id has been created.
    pub fn contains(&self, id: u128) -> (b: bool)
        requires
            self.inv(),
        ensures
            b == self@.dom().contains(id),
    {
        self.find_index(id).is_some()
    }

    /// The job's current status, if the job exists.
    pub fn get_status(&self, id: u128) -> (r: Option<Status>)
        requires
            self.inv(),
        ensures
            match r {
                Some(status) => self@.dom().contains(id) && status == self@[id].status,
                None => !self@.dom().contains(id),
            },
    {
        match self.find_index(id) {
            Some(i) => Some(self.entries[i].status),
            None => None,
        }
    }

    /// The job's recorded failure reason, if the job exists and has failed.
    pub fn get_failure_reason(&self, id: u128) -> (r: Option<String>)
        requires
            self.inv(),
        ensures
            match r {
                Some(reason) => self@.dom().contains(id) && self@[id].reason == Some(reason@),
                None => !self@.dom().contains(id) || self@[id].reason is None,
            },
    {
        match self.find_index(id) {
            Some(i) => match &self.entries[i].reason {
                Some(reason) => Some(reason.clone()),
                None => None,
            },
            None => None,
        }
    }

    /// Creates the job with status `Pending`. The id must not have been
    /// created before.
    pub fn create(&mut self, id: u128)
        requires
            old(self).inv(),
            !old(self)@.dom().contains(id),
        ensures
            final(self).inv(),
            final(self)@ == old(self)@.insert(id, pending_view()),
    {
        proof {
            lemma_map_of_contains(self.entries@, id);
        }
        let ghost h0: Seq<Status> = seq![Status::Pending];
        let entry = JobEntry { id, status: Status::Pending, reason: None, history: Ghost(h0) };
        let ghost pre = self.entries@;
        self.entries.push(entry);
        proof {
            assert(self.entries@.drop_last() =~= pre);
            assert(entry_view(entry) =~= pending_view());
            assert(final(self)@ =~= old(self)@.insert(id, pending_view()));
        }
    }

    /// Advances a `Pending` job to `WitnessGenerated`; reports
    /// `PersistenceError` (and changes nothing) when the job is missing or
    /// not `Pending`.
    pub fn mark_witness_generated(&mut self, id: u128) -> (r: Result<(), Error>)
        requires
            old(self).inv(),
        ensures
            final(self).inv(),
            final(self)@ == mark_witness_spec(old(self)@, id),
            r is Ok <==> old(self)@.dom().contains(id) && old(self)@[id].status == Status::Pending,
            r is Err ==> r->Err_0 == Error::PersistenceError,
    {
        match self.find_index(id) {
            Some(i) => {
                if matches!(self.entries[i].status, Status::Pending) {
                    let ghost h = self.entries@[i as int].history@;
                    let entry = JobEntry {
                        id,
                        status: Status::WitnessGenerated,
                        reason: None,
                        history: Ghost(h.push(Status::WitnessGenerated)),
                    };
                    proof {
                        lemma_map_of_update(self.entries@, i as int, entry);
                    }
                    self.entries[i] = entry;
                    proof {
                        assert(entry_view(entry) =~= JobView {
                            status: Status::WitnessGenerated,
                            reason: None,
                            history: old(self)@[id].history.push(Status::WitnessGenerated),
                        });
                        assert(final(self)@ =~= mark_witness_spec(old(self)@, id));
                    }
                    Ok(())
                } else {
                    Err(Error::PersistenceError)
                }
            },
            None => Err(Error::PersistenceError),
        }
    }

    /// Advances a `WitnessGenerated` job to `ProofGenerated`; reports
    /// `PersistenceError` (and changes nothing) when the job is missing or
    /// not `WitnessGenerated`.
    pub fn mark_proof_generated(&mut self, id: u128) -> (r: Result<(), Error>)
        requires
            old(self).inv(),
        ensures
            final(self).inv(),
            final(self)@ == mark_proof_spec(old(self)@, id),
            r is Ok <==> old(self)@.dom().contains(id) && old(self)@[id].status
                == Status::WitnessGenerated,
            r is Err ==> r->Err_0 == Error::PersistenceError,
    {
        match self.find_index(id) {
            Some(i) => {
                if matches!(self.entries[i].status, Status::WitnessGenerated) {
                    let ghost h = self.entries@[i as int].history@;
                    let entry = JobEntry {
                        id,
                        status: Status::ProofGenerated,
                        reason: None,
                        history: Ghost(h.push(Status::ProofGenerated)),
                    };
                    proof {
                        lemma_map_of_update(self.entries@, i as int, entry);
                    }
                    self.entries[i] = entry;
                    proof {
                        assert(entry_view(entry) =~= JobView {
                            status: Status::ProofGenerated,
                            reason: None,
                            history: old(self)@[id].history.push(Status::ProofGenerated),
                        });
                        assert(final(self)@ =~= mark_proof_spec(old(self)@, id));
                    }
                    Ok(())
                } else {
                    Err(Error::PersistenceError)
                }
            },
            None => Err(Error::PersistenceError),
        }
    }

    /// Drops a non-terminal job to `Failed`, recording the reason. Safe to
    /// call any number of times and for unknown ids: a terminal or missing
    /// job is left untouched, so the first recorded reason stays.
    pub fn mark_failed(&mut self, id: u128, reason: String)
        requires
            old(self).inv(),
        ensures
            final(self).inv(),
            final(self)@ == mark_failed_spec(old(self)@, id, reason@),
    {
        match self.find_index(id) {
            Some(i) => {
                let terminal = matches!(
                    self.entries[i].status,
                    Status::ProofGenerated | Status::Failed
                );
                if !terminal {
                    let ghost h = self.entries@[i as int].history@;
                    let entry = JobEntry {
                        id,
                        status: Status::Failed,
                        reason: Some(reason),
                        history: Ghost(h.push(Status::Failed)),
                    };
                    proof {
                        lemma_map_of_update(self.entries@, i as int, entry);
                    }
                    self.entries[i] = entry;
                    proof {
                        assert(entry_view(entry) =~= JobView {
                            status: Status::Failed,
                            reason: Some(reason@),
                            history: old(self)@[id].history.push(Status::Failed),
                        });
                        assert(final(self)@ =~= mark_failed_spec(old(self)@, id, reason@));
                    }
                }
            },
            None => {},
        }
    }

    /// Every job the store holds carries a well-formed history that ends at
    /// its current status, and a failure reason exactly when it failed.
    pub proof fn lemma_views_wf(&self)
        requires
            self.inv(),
        ensures
            forall|id: u128| #[trigger]
                self@.dom().contains(id) ==> wf_history(self@[id].history) && self@[id].history.last()
                    == self@[id].status && (self@[id].status == Status::Failed <==> self@[id].reason
                    is Some),
    {
        assert forall|id: u128| #[trigger] self@.dom().contains(id) implies wf_history(
            self@[id].history,
        ) && self@[id].history.last() == self@[id].status && (self@[id].status == Status::Failed
            <==> self@[id].reason is Some) by {
            lemma_map_of_contains(self.entries@, id);
            let i = choose|i: int| 0 <= i < self.entries@.len() && (#[trigger] self.entries@[i]).id
                == id;
            lemma_map_of_index(self.entries@, i);
        }
    }
}

/// A well-formed history is a prefix of the full success path `Pending,
/// WitnessGenerated, ProofGenerated`, or ends in `Failed`; and it never
/// contains `ProofGenerated` without containing `WitnessGenerated` earlier.
pub proof fn lemma_history_shape(h: Seq<Status>)
    requires
        wf_history(h),
    ensures
        h.last() == Status::Failed || h =~= seq![
            Status::Pending,
            Status::WitnessGenerated,
            Status::ProofGenerated,
        ].take(h.len() as int),
        forall|j: int| 0 <= j < h.len() && h[j] == Status::ProofGenerated ==> exists|i: int|
            0 <= i < j && h[i] == Status::WitnessGenerated,
{
    lemma_history_cases(h);
    if h =~= seq![Status::Pending, Status::WitnessGenerated, Status::ProofGenerated] {
        assert forall|j: int| 0 <= j < h.len() && h[j] == Status::ProofGenerated implies exists|
            i: int,
        | 0 <= i < j && h[i] == Status::WitnessGenerated by {
            assert(j == 2);
            assert(h[1] == Status::WitnessGenerated);
        }
    }
}

/// The complete list of histories the state machine can produce.
pub proof fn lemma_history_cases(h: Seq<Status>)
    requires
        wf_history(h),
    ensures
        ({
            ||| h =~= seq![Status::Pending]
            ||| h =~= seq![Status::Pending, Status::Failed]
            ||| h =~= seq![Status::Pending, Status::WitnessGenerated]
            ||| h =~= seq![Status::Pending, Status::WitnessGenerated, Status::Failed]
            ||| h =~= seq![Status::Pending, Status::WitnessGenerated, Status::ProofGenerated]
        }),
    decreases h.len(),
{
    if h.len() == 1 {
        assert(h =~= seq![Status::Pending]);
    } else {
        let p = h.drop_last();
        assert(wf_history(p)) by {
            assert(forall|i: int| 0 <= i < p.len() - 1 ==> step_ok(#[trigger] p[i], p[i + 1])) by {
                assert(forall|i: int|
                    0 <= i < p.len() - 1 ==> (#[trigger] p[i]) == h[i] && p[i + 1] == h[i + 1]);
            }
        }
        lemma_history_cases(p);
        assert(step_ok(h[h.len() - 2], h.last()));
        assert(h =~= p.push(h.last()));
    }
}

/// Marking a job failed a second time changes nothing: the reason recorded
/// first stays authoritative, whatever the second reason is.
pub proof fn lemma_mark_failed_first_reason_wins(
    m: Map<u128, JobView>,
    id: u128,
    first: Seq<char>,
    second: Seq<char>,
)
    ensures
        mark_failed_spec(mark_failed_spec(m, id, first), id, second) == mark_failed_spec(
            m,
            id,
            first,
        ),
{
    let m1 = mark_failed_spec(m, id, first);
    if m.dom().contains(id) && !m[id].status.is_terminal() {
        assert(m1[id].status == Status::Failed);
        assert(mark_failed_spec(m1, id, second) =~= m1);
    } else {
        assert(m1 =~= m);
        assert(mark_failed_spec(m1, id, second) =~= m1);
    }
}

} // verus!
