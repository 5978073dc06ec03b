use vstd::prelude::*;
use crate::toolchain::{BuildMarkers, RunOutcome, RunResult, classify_run, outcome_of};
use crate::tracker::{BuildStatus, BuildTracker, completion, fresh_entry};
use crate::workspace::{
    Files, InvalidInput, StagePlan, plan_of, plan_staging, refusal_of, sanitize_program_name,
    sanitized_name, valid_file_set,
};

verus! {

/// Whether `uuid::Uuid::try_parse` reads `s` as a UUID.
pub uninterp spec fn uuid_parses(s: Seq<char>) -> bool;

/// Relies on `uuid::Uuid::try_parse`: whether `s` is a UUID in one of the
/// textual forms that the `uuid` crate reads.
#[verifier::external_body]
fn parses_as_uuid(s: &str) -> (r: bool)
    ensures
        r == uuid_parses(s@),
{
    uuid::Uuid::try_parse(s).is_ok()
}

/// Relies on `uuid::Uuid::new_v4` and the `Display` of `Uuid`: a random
/// identifier in hyphenated form, a form that `Uuid::try_parse` reads.
#[verifier::external_body]
fn new_job_id() -> (r: String)
    ensures
        uuid_parses(r@),
{
    uuid::Uuid::new_v4().to_string()
}

/// Why a build request was refused. A refused request registers no job.
#[derive(Debug)]
pub enum SubmitError {
    /// The client supplied a job identifier that is not a UUID.
    InvalidJobId { job_id: String },
    /// The source file set breaks a limit.
    InvalidInput(InvalidInput),
}

/// An admitted build request: its job identifier and what to stage.
pub struct Submission {
    pub job_id: String,
    pub plan: StagePlan,
}

/// Whether the client's identifier, if any, may be used.
pub open spec fn job_id_ok(job_id: Option<String>) -> bool {
    match job_id {
        Some(id) => uuid_parses(id@),
        None => true,
    }
}

/// Admits a build request: checks the identifier and the file set, picks a
/// fresh identifier if none was given, lays out the staging and registers the
/// job as `Building` before any work starts. A refused request changes nothing.
pub fn submit_build(
    tracker: &mut BuildTracker,
    job_id: Option<String>,
    program_name: String,
    files: &Files,
) -> (r: Result<Submission, SubmitError>)
    requires
        old(tracker).wf(),
    ensures
        final(tracker).wf(),
        r is Ok <==> job_id_ok(job_id) && valid_file_set(files@),
        r matches Ok(s) ==> {
            &&& uuid_parses(s.job_id@)
            &&& (job_id matches Some(id) ==> s.job_id@ == id@)
            &&& plan_of(s.plan, s.job_id@, program_name@, files@)
            &&& final(tracker)@ == old(tracker)@.insert(s.job_id@, final(tracker)@[s.job_id@])
            &&& fresh_entry(final(tracker)@[s.job_id@], s.job_id@, program_name@)
        },
        r matches Err(e) ==> {
            &&& final(tracker)@ == old(tracker)@
            &&& match e {
                SubmitError::InvalidJobId { job_id: bad } => job_id == Some(bad) && !uuid_parses(bad@),
                SubmitError::InvalidInput(i) => job_id_ok(job_id) && refusal_of(files@, i),
            }
        },
{
    let id = match job_id {
        Some(id) => {
            if !parses_as_uuid(id.as_str()) {
                return Err(SubmitError::InvalidJobId { job_id: id });
            }
            id
        },
        None => new_job_id(),
    };
    let plan = match plan_staging(id.as_str(), program_name.as_str(), files) {
        Ok(plan) => plan,
        Err(e) => {
            return Err(SubmitError::InvalidInput(e));
        },
    };
    tracker.start_build(id.clone(), program_name);
    Ok(Submission { job_id: id, plan })
}

/// The program name recorded when a job ends: the sanitized name once the
/// toolchain ran, the submitted one otherwise.
pub open spec fn final_program_name(result: RunResult, program_name: Seq<char>) -> Seq<char> {
    match result {
        RunResult::Exited { .. } => sanitized_name(program_name),
        _ => program_name,
    }
}

/// Ends job `job_id` with the verdict on its run. `notes` is what was gathered
/// before the run, kept for a failed one.
pub fn finish_build(
    tracker: &mut BuildTracker,
    job_id: &str,
    program_name: &str,
    result: RunResult,
    markers: &BuildMarkers,
    notes: &str,
) -> (o: RunOutcome)
    requires
        old(tracker).wf(),
    ensures
        final(tracker).wf(),
        outcome_of(result, *markers, notes@, o),
        completion(
            old(tracker)@,
            final(tracker)@,
            job_id@,
            o.diagnostics@,
            final_program_name(result, program_name@),
            o.success,
        ),
{
    let name = match &result {
        RunResult::Exited { .. } => sanitize_program_name(program_name),
        _ => String::from_str(program_name),
    };
    let o = classify_run(result, markers, notes);
    tracker.complete_build(job_id, o.diagnostics.clone(), name, o.success);
    o
}

/// A job that was just admitted is visible to a status query at once, as
/// `Building`.
pub proof fn lemma_submitted_job_is_building(
    before: Map<Seq<char>, crate::tracker::BuildInfo>,
    after: Map<Seq<char>, crate::tracker::BuildInfo>,
    job_id: Seq<char>,
    program_name: Seq<char>,
)
    requires
        after == before.insert(job_id, after[job_id]),
        fresh_entry(after[job_id], job_id, program_name),
    ensures
        after.contains_key(job_id),
        after[job_id].status == BuildStatus::Building,
        after[job_id].completed_at is None,
{
}

} // verus!
