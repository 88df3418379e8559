use vstd::prelude::*;

verus! {

/// Lifecycle status of a job.
///
/// A job progresses monotonically `Pending -> WitnessGenerated ->
/// ProofGenerated`; `Failed` is an absorbing state reachable from any
/// non-terminal status.
#[derive(Clone, Copy, Debug, PartialEq, Eq, Structural)]
pub enum Status {
    Pending,
    WitnessGenerated,
    ProofGenerated,
    Failed,
}

impl Status {
    /// True of the two terminal statuses, which no transition leaves.
    pub open spec fn is_terminal(self) -> bool {
        self == Status::ProofGenerated || self == Status::Failed
    }
}

impl From<Status> for i32 {
    fn from(s: Status) -> (r: i32) {
        match s {
            Status::Pending => 0,
            Status::WitnessGenerated => 1,
            Status::ProofGenerated => 2,
            Status::Failed => 3,
        }
    }
}

impl vstd::std_specs::convert::FromSpecImpl<Status> for i32 {
    open spec fn obeys_from_spec() -> bool {
        true
    }

    open spec fn from_spec(s: Status) -> i32 {
        match s {
            Status::Pending => 0,
            Status::WitnessGenerated => 1,
            Status::ProofGenerated => 2,
            Status::Failed => 3,
        }
    }
}

} // verus!
