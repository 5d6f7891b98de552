//! The supervisor's state and its decisions on start and stop.
use vstd::prelude::*;
use crate::identity::IdentityRecord;

verus! {

/// The port the companion is expected to listen on, on the loopback
/// interface. It is only a hint that some instance is already running.
pub const LISTEN_PORT: u16 = 8000;

/// Why `start` launched nothing.
#[derive(Clone, Copy, PartialEq, Eq, Structural, Debug)]
pub enum StartError {
    /// None of the candidate locations holds the executable.
    BackendMissing,
    /// The operating system refused to create the process.
    SpawnFailed,
}

/// What `start` does once it knows whether an instance runs and where the
/// executable lies.
#[derive(Clone, Copy, PartialEq, Eq, Structural, Debug)]
pub enum StartStep {
    /// An instance runs already: nothing is launched.
    AlreadyRunning,
    /// Launch the executable found at this candidate.
    Spawn { candidate: usize },
}

/// Problems met while stopping, reported but never fatal.
#[derive(Clone, Copy, PartialEq, Eq, Structural, Debug)]
pub enum StopIssue {
    /// Not even the forced kill could be delivered.
    TerminationFailed,
    /// Something still listens on the port after termination.
    PortStillBound,
}

/// The outcome of the check for a running instance.
#[derive(Clone, Copy, PartialEq, Eq, Structural, Debug)]
pub struct Assessment {
    /// Some instance is running: the port is taken, or the recorded process
    /// is alive.
    pub running: bool,
    /// The record is malformed or names a dead process and must be removed.
    pub remove_record: bool,
}

/// What `stop` does besides forgetting its own child.
#[derive(Clone, Copy, PartialEq, Eq, Structural, Debug)]
pub struct StopPlan {
    /// The child this supervisor launched, to be terminated.
    pub child: Option<u32>,
    /// A live process named by the record, from an earlier run, to be
    /// terminated as well.
    pub recorded: Option<u32>,
    /// Whether the record is to be removed.
    pub remove_record: bool,
}

pub open spec fn assessment(port_in_use: bool, record: IdentityRecord, recorded_alive: bool) -> Assessment {
    Assessment {
        running: port_in_use || (record is Pid && recorded_alive),
        remove_record: record is Malformed || (record is Pid && !recorded_alive),
    }
}

pub open spec fn start_plan(child: Option<u32>, already_running: bool, found: Option<usize>) -> Result<StartStep, StartError> {
    if child is Some || already_running {
        Ok(StartStep::AlreadyRunning)
    } else {
        match found {
            None => Err(StartError::BackendMissing),
            Some(i) => Ok(StartStep::Spawn { candidate: i }),
        }
    }
}

pub open spec fn stop_plan(child: Option<u32>, record: IdentityRecord, recorded_alive: bool) -> StopPlan {
    StopPlan {
        child,
        recorded: match record {
            IdentityRecord::Pid(p) => if recorded_alive && child != Some(p) {
                Some(p)
            } else {
                None
            },
            _ => None,
        },
        remove_record: record.is_present(),
    }
}

/// The record as it stands after a stop that followed `plan`.
pub open spec fn record_after_stop(record: IdentityRecord, plan: StopPlan) -> IdentityRecord {
    if plan.remove_record {
        IdentityRecord::Missing
    } else {
        record
    }
}

/// Decides whether an instance is running, from whether the port is taken,
/// what the record holds and whether the process it names is alive
/// (`recorded_alive` is not looked at unless the record names a process).
/// A record that is malformed or names a dead process is removed, whatever
/// the port says.
pub fn assess_instance(port_in_use: bool, record: IdentityRecord, recorded_alive: bool) -> (r: Assessment)
    ensures
        r == assessment(port_in_use, record, recorded_alive),
        !port_in_use && record is Pid && !recorded_alive ==> !r.running && r.remove_record,
        !port_in_use && record is Malformed ==> !r.running && r.remove_record,
{
    match record {
        IdentityRecord::Missing => Assessment { running: port_in_use, remove_record: false },
        IdentityRecord::Malformed => Assessment { running: port_in_use, remove_record: true },
        IdentityRecord::Pid(_) => Assessment {
            running: port_in_use || recorded_alive,
            remove_record: !recorded_alive,
        },
    }
}

/// Owns at most one launched companion process, known by its process id.
pub struct Supervisor {
    child: Option<u32>,
}

impl View for Supervisor {
    type V = Option<u32>;

    closed spec fn view(&self) -> Option<u32> {
        self.child
    }
}

impl Supervisor {
    /// A supervisor that owns no process.
    pub fn new() -> (r: Supervisor)
        ensures
            r@ is None,
    {
        Supervisor { child: None }
    }

    /// Whether this supervisor owns a launched process.
    pub fn is_running(&self) -> (r: bool)
        ensures
            r == self@ is Some,
    {
        self.child.is_some()
    }

    /// The process id of the owned process.
    pub fn child_pid(&self) -> (r: Option<u32>)
        ensures
            r == self@,
    {
        self.child
    }

    /// Decides what `start` does: nothing when this supervisor owns a process
    /// or another instance runs (`already_running`), else launch the first
    /// present candidate (`found`), or report that there is none.
    pub fn plan_start(&self, already_running: bool, found: Option<usize>) -> (r: Result<StartStep, StartError>)
        ensures
            r == start_plan(self@, already_running, found),
            already_running ==> r == Ok::<StartStep, StartError>(StartStep::AlreadyRunning),
            self@ is None && !already_running && found is None ==> r == Err::<StartStep, StartError>(StartError::BackendMissing),
    {
        if self.child.is_some() || already_running {
            Ok(StartStep::AlreadyRunning)
        } else {
            match found {
                None => Err(StartError::BackendMissing),
                Some(i) => Ok(StartStep::Spawn { candidate: i }),
            }
        }
    }

    /// Takes the outcome of a launch: the new process's id, or `None` when
    /// the operating system refused. A launched process becomes the owned
    /// one, and its id is to be written to the record.
    pub fn finish_start(&mut self, spawned: Option<u32>) -> (r: Result<u32, StartError>)
        requires
            old(self)@ is None,
        ensures
            match spawned {
                Some(p) => r == Ok::<u32, StartError>(p) && final(self)@ == Some(p),
                None => r == Err::<u32, StartError>(StartError::SpawnFailed) && final(self)@ is None,
            },
    {
        match spawned {
            Some(p) => {
                self.child = Some(p);
                Ok(p)
            },
            None => Err(StartError::SpawnFailed),
        }
    }

    /// Decides what `stop` does and forgets the owned process, whatever
    /// becomes of its termination. Besides the owned process, a live process
    /// named by the record is terminated too (unless it is the owned one),
    /// and any record is removed.
    pub fn begin_stop(&mut self, record: IdentityRecord, recorded_alive: bool) -> (r: StopPlan)
        ensures
            final(self)@ is None,
            r == stop_plan(old(self)@, record, recorded_alive),
    {
        let child = self.child;
        self.child = None;
        let recorded = match record {
            IdentityRecord::Pid(p) => {
                let same = match child {
                    Some(c) => c == p,
                    None => false,
                };
                if recorded_alive && !same {
                    Some(p)
                } else {
                    None
                }
            },
            _ => None,
        };
        let remove_record = match record {
            IdentityRecord::Missing => false,
            _ => true,
        };
        StopPlan { child, recorded, remove_record }
    }
}

/// The problems to report once `stop` is over: a forced kill that could not
/// be delivered, then a port that is still taken.
pub fn stop_issues(kill_failed: bool, port_still_bound: bool) -> (r: Vec<StopIssue>)
    ensures
        r@ == if kill_failed { seq![StopIssue::TerminationFailed] } else { Seq::empty() } + if port_still_bound {
            seq![StopIssue::PortStillBound]
        } else {
            Seq::empty()
        },
{
    let mut r: Vec<StopIssue> = Vec::new();
    if kill_failed {
        r.push(StopIssue::TerminationFailed);
    }
    if port_still_bound {
        r.push(StopIssue::PortStillBound);
    }
    proof {
        assert(r@ =~= if kill_failed { seq![StopIssue::TerminationFailed] } else { Seq::empty() } + if port_still_bound {
            seq![StopIssue::PortStillBound]
        } else {
            Seq::empty()
        });
    }
    r
}

/// Stopping twice in a row is harmless: after either stop no process is
/// owned and no record is left, and the second stop terminates nothing.
pub proof fn lemma_stop_idempotent(
    child: Option<u32>,
    record: IdentityRecord,
    recorded_alive: bool,
    recorded_alive_again: bool,
)
    ensures
        ({
            let first = stop_plan(child, record, recorded_alive);
            let left = record_after_stop(record, first);
            let second = stop_plan(None, left, recorded_alive_again);
            &&& left is Missing
            &&& record_after_stop(left, second) is Missing
            &&& second == (StopPlan { child: None, recorded: None, remove_record: false })
        }),
{
}

/// No duplicate launch: whenever the check for a running instance says one
/// runs, `start` launches nothing, whatever the supervisor owns and whatever
/// candidate is found.
pub proof fn lemma_no_duplicate_start(
    child: Option<u32>,
    port_in_use: bool,
    record: IdentityRecord,
    recorded_alive: bool,
    found: Option<usize>,
)
    requires
        assessment(port_in_use, record, recorded_alive).running,
    ensures
        !(start_plan(child, assessment(port_in_use, record, recorded_alive).running, found) is Ok
            && start_plan(child, assessment(port_in_use, record, recorded_alive).running, found)->Ok_0 is Spawn),
{
}

} // verus!
