use vstd::prelude::*;
use vstd::hash_map::StringHashMap;

verus! {

/// Diagnostics recorded for a failed job that reported none.
pub const NO_DIAGNOSTICS: &'static str = "Build failed without producing any output";

/// A point in time: whole seconds since the Unix epoch and the nanoseconds past that second.
#[derive(Clone, Copy, Debug, PartialEq, Eq)]
pub struct Timestamp {
    pub secs: i64,
    pub nanos: u32,
}

/// Relies on `chrono::Utc::now`: the current time, taken apart with
/// `timestamp` and `timestamp_subsec_nanos`. Nothing is promised of its value.
#[verifier::external_body]
fn now() -> (r: Timestamp) {
    let t = chrono::Utc::now();
    Timestamp { secs: t.timestamp(), nanos: t.timestamp_subsec_nanos() }
}

/// State of a build job. `Building` is the only state a poller sees before the
/// job ends; `Success` and `Failed` are terminal.
#[derive(Clone, Copy, Debug, PartialEq, Eq, Structural)]
pub enum BuildStatus {
    Queued,
    Building,
    Success,
    Failed,
}

impl BuildStatus {
    pub open spec fn is_terminal(self) -> bool {
        self == BuildStatus::Success || self == BuildStatus::Failed
    }

    /// The status as clients read it, in lower case.
    pub fn as_str(&self) -> (r: &'static str)
        ensures
            r@ == status_name(*self),
    {
        match self {
            BuildStatus::Queued => "queued",
            BuildStatus::Building => "building",
            BuildStatus::Success => "success",
            BuildStatus::Failed => "failed",
        }
    }
}

pub open spec fn status_name(s: BuildStatus) -> Seq<char> {
    match s {
        BuildStatus::Queued => "queued"@,
        BuildStatus::Building => "building"@,
        BuildStatus::Success => "success"@,
        BuildStatus::Failed => "failed"@,
    }
}

/// What the registry holds of one job.
#[derive(Clone, Debug)]
pub struct BuildInfo {
    pub uuid: String,
    pub program_name: String,
    pub status: BuildStatus,
    /// Diagnostics of the toolchain run; absent while the job builds.
    pub stderr: Option<String>,
    pub started_at: Timestamp,
    /// Absent while the job builds.
    pub completed_at: Option<Timestamp>,
}

impl BuildInfo {
    /// A copy of this record.
    pub fn snapshot(&self) -> (r: BuildInfo)
        ensures
            r == *self,
    {
        let stderr = match &self.stderr {
            Some(s) => Some(s.clone()),
            None => None,
        };
        BuildInfo {
            uuid: self.uuid.clone(),
            program_name: self.program_name.clone(),
            status: self.status,
            stderr,
            started_at: self.started_at,
            completed_at: self.completed_at,
        }
    }
}

/// The record of a job stored under key `k` is consistent: it carries its own
/// key, diagnostics and completion time exactly when it has ended, and a failed
/// job's diagnostics are never empty.
pub open spec fn entry_ok(k: Seq<char>, info: BuildInfo) -> bool {
    &&& info.uuid@ == k
    &&& match info.status {
        BuildStatus::Queued => info.stderr is None && info.completed_at is None,
        BuildStatus::Building => info.stderr is None && info.completed_at is None,
        BuildStatus::Success => info.stderr is Some && info.completed_at is Some,
        BuildStatus::Failed => info.stderr is Some && info.stderr->0@.len() > 0
            && info.completed_at is Some,
    }
}

/// A freshly registered job.
pub open spec fn fresh_entry(info: BuildInfo, uuid: Seq<char>, program_name: Seq<char>) -> bool {
    &&& info.uuid@ == uuid
    &&& info.program_name@ == program_name
    &&& info.status == BuildStatus::Building
    &&& info.stderr is None
    &&& info.completed_at is None
}

/// Diagnostics stored for a run that reported `d`.
pub open spec fn recorded_diagnostics(d: Seq<char>, success: bool) -> Seq<char> {
    if !success && d.len() == 0 {
        NO_DIAGNOSTICS@
    } else {
        d
    }
}

/// `info` is `before` brought to its end.
pub open spec fn completed_entry(
    info: BuildInfo,
    before: BuildInfo,
    diagnostics: Seq<char>,
    program_name: Seq<char>,
    success: bool,
) -> bool {
    &&& info.uuid == before.uuid
    &&& info.started_at == before.started_at
    &&& info.program_name@ == program_name
    &&& info.status == (if success { BuildStatus::Success } else { BuildStatus::Failed })
    &&& info.stderr is Some
    &&& info.stderr->0@ == recorded_diagnostics(diagnostics, success)
    &&& info.completed_at is Some
}

/// `after` is `before` once job `uuid` has been ended: a job still `Building`
/// gets its verdict, anything else is left as it was.
pub open spec fn completion(
    before: Map<Seq<char>, BuildInfo>,
    after: Map<Seq<char>, BuildInfo>,
    uuid: Seq<char>,
    diagnostics: Seq<char>,
    program_name: Seq<char>,
    success: bool,
) -> bool {
    if before.contains_key(uuid) && before[uuid].status == BuildStatus::Building {
        &&& after == before.insert(uuid, after[uuid])
        &&& completed_entry(after[uuid], before[uuid], diagnostics, program_name, success)
    } else {
        after == before
    }
}

/// Registry of build jobs, keyed by job identifier.
pub struct BuildTracker {
    builds: StringHashMap<BuildInfo>,
}

impl View for BuildTracker {
    type V = Map<Seq<char>, BuildInfo>;

    closed spec fn view(&self) -> Map<Seq<char>, BuildInfo> {
        self.builds@
    }
}

impl BuildTracker {
    /// Every stored record is consistent with its key.
    pub open spec fn wf(&self) -> bool {
        forall|k: Seq<char>| #[trigger] self@.contains_key(k) ==> entry_ok(k, self@[k])
    }

    /// An empty registry.
    pub fn new() -> (r: BuildTracker)
        ensures
            r@ == Map::<Seq<char>, BuildInfo>::empty(),
            r.wf(),
    {
        BuildTracker { builds: StringHashMap::new() }
    }

    /// Registers job `uuid` as `Building`, started at `now`. A job registered
    /// earlier under the same identifier is replaced.
    pub fn start_build_at(&mut self, uuid: String, program_name: String, now: Timestamp)
        requires
            old(self).wf(),
        ensures
            final(self).wf(),
            final(self)@ == old(self)@.insert(uuid@, final(self)@[uuid@]),
            fresh_entry(final(self)@[uuid@], uuid@, program_name@),
            final(self)@[uuid@].started_at == now,
    {
        let key = uuid.clone();
        let info = BuildInfo {
            uuid,
            program_name,
            status: BuildStatus::Building,
            stderr: None,
            started_at: now,
            completed_at: None,
        };
        self.builds.insert(key, info);
        assert forall|k: Seq<char>| #[trigger] self@.contains_key(k) implies entry_ok(k, self@[k]) by {
            if k != key@ {
                assert(old(self)@.contains_key(k));
            }
        }
    }

    /// Registers job `uuid` as `Building`, started now.
    pub fn start_build(&mut self, uuid: String, program_name: String)
        requires
            old(self).wf(),
        ensures
            final(self).wf(),
            final(self)@ == old(self)@.insert(uuid@, final(self)@[uuid@]),
            fresh_entry(final(self)@[uuid@], uuid@, program_name@),
    {
        let t = now();
        self.start_build_at(uuid, program_name, t);
    }

    /// Ends job `uuid` at `now` with the run's diagnostics and final program
    /// name. Only a job that is still `Building` changes: an unknown job or
    /// one that has already ended is left as it is.
    pub fn complete_build_at(
        &mut self,
        uuid: &str,
        stderr: String,
        program_name: String,
        success: bool,
        now: Timestamp,
    )
        requires
            old(self).wf(),
        ensures
            final(self).wf(),
            completion(old(self)@, final(self)@, uuid@, stderr@, program_name@, success),
            old(self)@.contains_key(uuid@) && old(self)@[uuid@].status == BuildStatus::Building
                ==> final(self)@[uuid@].completed_at == Some(now),
    {
        let current = self.builds.get(uuid);
        match current {
            Some(info) => {
                if info.status != BuildStatus::Building {
                    return;
                }
                let mut updated = info.snapshot();
                let diagnostics = if !success && stderr.as_str().unicode_len() == 0 {
                    String::from_str(NO_DIAGNOSTICS)
                } else {
                    stderr
                };
                proof {
                    reveal_strlit("Build failed without producing any output");
                }
                updated.status = if success { BuildStatus::Success } else { BuildStatus::Failed };
                updated.stderr = Some(diagnostics);
                updated.program_name = program_name;
                updated.completed_at = Some(now);
                let key = updated.uuid.clone();
                self.builds.insert(key, updated);
            },
            None => {},
        }
    }

    /// Ends job `uuid` now; see `complete_build_at`.
    pub fn complete_build(&mut self, uuid: &str, stderr: String, program_name: String, success: bool)
        requires
            old(self).wf(),
        ensures
            final(self).wf(),
            completion(old(self)@, final(self)@, uuid@, stderr@, program_name@, success),
    {
        let t = now();
        self.complete_build_at(uuid, stderr, program_name, success, t);
    }

    /// A snapshot of job `uuid`, or `None` for an identifier never registered.
    pub fn get_build(&self, uuid: &str) -> (r: Option<BuildInfo>)
        ensures
            r == (if self@.contains_key(uuid@) { Some(self@[uuid@]) } else { None::<BuildInfo> }),
    {
        match self.builds.get(uuid) {
            Some(info) => Some(info.snapshot()),
            None => None,
        }
    }
}

/// No transition leaves a terminal state: once a job has succeeded or failed,
/// ending it again changes nothing in the registry.
pub proof fn lemma_terminal_state_is_final(
    before: Map<Seq<char>, BuildInfo>,
    after: Map<Seq<char>, BuildInfo>,
    uuid: Seq<char>,
    diagnostics: Seq<char>,
    program_name: Seq<char>,
    success: bool,
)
    requires
        before.contains_key(uuid),
        before[uuid].status.is_terminal(),
        completion(before, after, uuid, diagnostics, program_name, success),
    ensures
        after == before,
        after[uuid].status == before[uuid].status,
{
}

/// Ending a job that is still building makes it terminal, and a failed job
/// keeps diagnostics that are not empty.
pub proof fn lemma_completion_is_terminal(
    before: Map<Seq<char>, BuildInfo>,
    after: Map<Seq<char>, BuildInfo>,
    uuid: Seq<char>,
    diagnostics: Seq<char>,
    program_name: Seq<char>,
    success: bool,
)
    requires
        before.contains_key(uuid),
        before[uuid].status == BuildStatus::Building,
        completion(before, after, uuid, diagnostics, program_name, success),
    ensures
        after.contains_key(uuid),
        after[uuid].status.is_terminal(),
        after[uuid].status == BuildStatus::Failed ==> after[uuid].stderr->0@.len() > 0,
        after[uuid].completed_at is Some,
{
    reveal_strlit("Build failed without producing any output");
}

} // verus!
