use vstd::prelude::*;
use crate::text::{seq_contains, str_contains};

verus! {

/// Diagnostics recorded for a run stopped at its deadline.
pub const TIMEOUT_DIAGNOSTIC: &'static str = "Build timed out; the toolchain was stopped";

/// Prefix of the diagnostics recorded when the toolchain could not be run.
pub const ABORT_PREFIX: &'static str = "Build failed: ";

/// The program the build runs.
pub const BUILD_PROGRAM: &'static str = "cargo-build-sbf";

/// Text in the toolchain's output that decides whether it built the program.
pub struct BuildMarkers {
    /// Must appear: the toolchain reports that it finished.
    pub finished: String,
    /// Must appear: the profile it finished.
    pub profile: String,
    /// Must not appear: a crate failed to compile.
    pub failure: String,
}

impl BuildMarkers {
    /// The markers of the Solana BPF toolchain.
    pub fn standard() -> (r: BuildMarkers)
        ensures
            r.finished@ == "Finished"@,
            r.profile@ == "release"@,
            r.failure@ == "error: could not compile"@,
    {
        BuildMarkers {
            finished: String::from_str("Finished"),
            profile: String::from_str("release"),
            failure: String::from_str("error: could not compile"),
        }
    }
}

/// A run whose output `d` holds the finish and profile markers and no compile
/// error built the program, whatever its exit status: the toolchain reports
/// warnings through the same channel as errors.
pub open spec fn build_succeeded(d: Seq<char>, m: BuildMarkers) -> bool {
    &&& seq_contains(d, m.finished@)
    &&& seq_contains(d, m.profile@)
    &&& !seq_contains(d, m.failure@)
}

/// How a toolchain run ended, as the runner saw it.
pub enum RunResult {
    /// The toolchain ran to its end; its two streams, line by line.
    Exited { exit_success: bool, stdout: String, stderr: String },
    /// The workspace could not be staged or the toolchain could not be started.
    Aborted { reason: String },
    /// The deadline passed and the toolchain was stopped.
    TimedOut,
}

/// The verdict on a run: the diagnostics to record and whether it built.
pub struct RunOutcome {
    pub diagnostics: String,
    pub success: bool,
}

/// Diagnostics and verdict owed to `result`; `notes` is what was gathered
/// before the run, added to the diagnostics of a failed run that exited
/// unsuccessfully.
pub open spec fn outcome_of(result: RunResult, m: BuildMarkers, notes: Seq<char>, o: RunOutcome) -> bool {
    match result {
        RunResult::Exited { exit_success, stdout, stderr } => {
            let d = stdout@ + stderr@;
            &&& o.success == build_succeeded(d, m)
            &&& o.diagnostics@ == (if !o.success && !exit_success { d + notes } else { d })
        },
        RunResult::Aborted { reason } => !o.success && o.diagnostics@ == ABORT_PREFIX@ + reason@,
        RunResult::TimedOut => !o.success && o.diagnostics@ == TIMEOUT_DIAGNOSTIC@,
    }
}

/// Whether the run's combined output `d` shows a successful build.
pub fn succeeded(d: &str, m: &BuildMarkers) -> (r: bool)
    ensures
        r == build_succeeded(d@, *m),
{
    str_contains(d, m.finished.as_str()) && str_contains(d, m.profile.as_str())
        && !str_contains(d, m.failure.as_str())
}

/// Decides how a run ended: both streams make up its diagnostics, stdout
/// first, and the markers decide success.
pub fn classify_run(result: RunResult, m: &BuildMarkers, notes: &str) -> (r: RunOutcome)
    ensures
        outcome_of(result, *m, notes@, r),
{
    match result {
        RunResult::Exited { exit_success, stdout, stderr } => {
            let mut d = stdout.clone();
            d.append(stderr.as_str());
            let success = succeeded(d.as_str(), m);
            if !success && !exit_success {
                d.append(notes);
            }
            RunOutcome { diagnostics: d, success }
        },
        RunResult::Aborted { reason } => {
            let mut d = String::from_str(ABORT_PREFIX);
            d.append(reason.as_str());
            RunOutcome { diagnostics: d, success: false }
        },
        RunResult::TimedOut => RunOutcome { diagnostics: String::from_str(TIMEOUT_DIAGNOSTIC), success: false },
    }
}

/// Adds one line of a stream, with its line end, to what was gathered of it.
pub fn push_line(acc: &mut String, line: &str)
    ensures
        final(acc)@ == old(acc)@ + line@ + "\n"@,
{
    acc.append(line);
    acc.append("\n");
}

/// Whether the installed cargo needs the lockfile bump flag.
pub fn needs_lockfile_bump(cargo_version: &str) -> (r: bool)
    ensures
        r == seq_contains(cargo_version@, "1.75"@),
{
    str_contains(cargo_version, "1.75")
}

/// The views of a list of strings.
pub open spec fn views(v: Seq<String>) -> Seq<Seq<char>> {
    v.map_values(|s: String| s@)
}

/// Arguments of the build command.
pub open spec fn build_args_spec(manifest_path: Seq<char>, deploy_dir: Seq<char>, lockfile_bump: bool) -> Seq<Seq<char>> {
    seq!["build-sbf"@, "--manifest-path"@, manifest_path, "--sbf-out-dir"@, deploy_dir]
        + (if lockfile_bump { seq!["--"@, "-Znext-lockfile-bump"@] } else { Seq::empty() })
}

/// Arguments of the build command: the job's manifest and output directory.
pub fn build_args(manifest_path: &str, deploy_dir: &str, lockfile_bump: bool) -> (r: Vec<String>)
    ensures
        views(r@) == build_args_spec(manifest_path@, deploy_dir@, lockfile_bump),
{
    let mut v: Vec<String> = Vec::new();
    v.push(String::from_str("build-sbf"));
    v.push(String::from_str("--manifest-path"));
    v.push(String::from_str(manifest_path));
    v.push(String::from_str("--sbf-out-dir"));
    v.push(String::from_str(deploy_dir));
    if lockfile_bump {
        v.push(String::from_str("--"));
        v.push(String::from_str("-Znext-lockfile-bump"));
    }
    assert(views(v@) =~= build_args_spec(manifest_path@, deploy_dir@, lockfile_bump));
    v
}

/// An environment variable of the build command.
pub struct EnvVar {
    pub name: String,
    pub value: String,
}

/// Environment of the build command: the shared output directory, and
/// incremental builds with many codegen units.
pub open spec fn build_env_spec(shared_target: Seq<char>) -> Seq<(Seq<char>, Seq<char>)> {
    seq![
        ("CARGO_TARGET_DIR"@, shared_target),
        ("CARGO_BUILD_INCREMENTAL"@, "true"@),
        ("CARGO_PROFILE_RELEASE_INCREMENTAL"@, "true"@),
        ("CARGO_PROFILE_RELEASE_CODEGEN_UNITS"@, "256"@),
        ("RUST_LOG"@, "debug"@),
        ("RUST_BACKTRACE"@, "1"@),
        ("CARGO_PROFILE_RELEASE_BUILD_OVERRIDE_DEBUG"@, "false"@),
        ("CARGO_DEP_BYTEMUCK_DERIVE_VERSION"@, "1.5.0"@),
    ]
}

fn env_var(name: &str, value: &str) -> (r: EnvVar)
    ensures
        r.name@ == name@,
        r.value@ == value@,
{
    EnvVar { name: String::from_str(name), value: String::from_str(value) }
}

/// Environment of the build command.
pub fn build_env(shared_target: &str) -> (r: Vec<EnvVar>)
    ensures
        r@.map_values(|e: EnvVar| (e.name@, e.value@)) == build_env_spec(shared_target@),
{
    let mut v: Vec<EnvVar> = Vec::new();
    v.push(env_var("CARGO_TARGET_DIR", shared_target));
    v.push(env_var("CARGO_BUILD_INCREMENTAL", "true"));
    v.push(env_var("CARGO_PROFILE_RELEASE_INCREMENTAL", "true"));
    v.push(env_var("CARGO_PROFILE_RELEASE_CODEGEN_UNITS", "256"));
    v.push(env_var("RUST_LOG", "debug"));
    v.push(env_var("RUST_BACKTRACE", "1"));
    v.push(env_var("CARGO_PROFILE_RELEASE_BUILD_OVERRIDE_DEBUG", "false"));
    v.push(env_var("CARGO_DEP_BYTEMUCK_DERIVE_VERSION", "1.5.0"));
    assert(v@.map_values(|e: EnvVar| (e.name@, e.value@)) =~= build_env_spec(shared_target@));
    v
}

/// Notes on the dependency tree gathered before a run, from the output of the
/// inverse-dependency query; its error stream is added where it said anything.
pub fn dependency_report(out: &str, err: &str) -> (r: String)
    ensures
        r@ == "\n--- cargo tree -i getrandom ---\n"@ + out@ + (if err@.len() > 0 {
            "\n[stderr from cargo tree]\n"@ + err@
        } else {
            Seq::<char>::empty()
        }),
{
    let mut r = String::from_str("\n--- cargo tree -i getrandom ---\n");
    r.append(out);
    if err.unicode_len() > 0 {
        r.append("\n[stderr from cargo tree]\n");
        r.append(err);
    }
    r
}

/// Notes recorded when the inverse-dependency query could not be run.
pub fn dependency_report_failed(reason: &str) -> (r: String)
    ensures
        r@ == "\n--- cargo tree -i getrandom failed ---\n"@ + "Failed to run cargo tree: "@ + reason@,
{
    let mut r = String::from_str("\n--- cargo tree -i getrandom failed ---\n");
    r.append("Failed to run cargo tree: ");
    r.append(reason);
    r
}

} // verus!
