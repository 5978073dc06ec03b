use vstd::prelude::*;
use crate::workspace::{
    artifact_path, binary_file_name, binary_file_name_of, deploy_dir, job_dir, sanitized_name,
};

verus! {

/// Key of a job's binary in the remote store: `binaries/{job_id}/{name}.so`.
pub open spec fn remote_object_key(job_id: Seq<char>, program_name: Seq<char>) -> Seq<char> {
    "binaries/"@ + job_id + "/"@ + binary_file_name(program_name)
}

/// Where the binary for `program_name` lies under another job's directory `dir`.
pub open spec fn peer_artifact_path(dir: Seq<char>, program_name: Seq<char>) -> Seq<char> {
    dir + "/target/deploy"@ + "/"@ + binary_file_name(program_name)
}

/// Key under which a job's binary is published to, and fetched from, the remote store.
pub fn remote_object_key_of(job_id: &str, program_name: &str) -> (r: String)
    ensures
        r@ == remote_object_key(job_id@, program_name@),
{
    let mut s = String::from_str("binaries/");
    s.append(job_id);
    s.append("/");
    let f = binary_file_name_of(program_name);
    s.append(f.as_str());
    s
}

/// Where to look for the binary of `program_name` under the job directory `dir`.
pub fn peer_artifact_path_of(dir: &str, program_name: &str) -> (r: String)
    ensures
        r@ == peer_artifact_path(dir@, program_name@),
{
    let mut s = String::from_str(dir);
    s.append("/target/deploy");
    s.append("/");
    let f = binary_file_name_of(program_name);
    s.append(f.as_str());
    s
}

/// The places an artifact is looked for, in the order they are tried.
#[derive(Clone, Copy, Debug, PartialEq, Eq, Structural)]
pub enum Tier {
    /// The requesting job's own output directory.
    Exact,
    /// The output directories of all other jobs.
    Peers,
    /// The remote object store.
    Remote,
}

/// The next step of a lookup.
#[derive(Debug)]
pub enum Lookup {
    /// Look in this tier and report what was found.
    Try(Tier),
    /// The artifact, as the tier that had it handed it over.
    Found(Vec<u8>),
    /// No tier had it: the program is not built.
    NotBuilt,
}

/// The tier tried after `t` missed; none after the last, and the remote store
/// only where it is enabled.
pub open spec fn tier_after(t: Tier, remote_enabled: bool) -> Option<Tier> {
    match t {
        Tier::Exact => Some(Tier::Peers),
        Tier::Peers => if remote_enabled { Some(Tier::Remote) } else { None },
        Tier::Remote => None,
    }
}

/// The step after tier `tier` answered `found`.
pub open spec fn lookup_after(tier: Tier, found: Option<Vec<u8>>, remote_enabled: bool) -> Lookup {
    match found {
        Some(bytes) => Lookup::Found(bytes),
        None => match tier_after(tier, remote_enabled) {
            Some(t) => Lookup::Try(t),
            None => Lookup::NotBuilt,
        },
    }
}

/// The first step of every lookup: the requesting job's own directory.
pub fn first_lookup() -> (r: Lookup)
    ensures
        r == Lookup::Try(Tier::Exact),
{
    Lookup::Try(Tier::Exact)
}

/// Decides the next step once tier `tier` has answered: stop at the first
/// tier that has the artifact, else go on in order, and report it not built
/// when none is left.
pub fn after_lookup(tier: Tier, found: Option<Vec<u8>>, remote_enabled: bool) -> (r: Lookup)
    ensures
        r == lookup_after(tier, found, remote_enabled),
{
    match found {
        Some(bytes) => Lookup::Found(bytes),
        None => match tier {
            Tier::Exact => Lookup::Try(Tier::Peers),
            Tier::Peers => if remote_enabled {
                Lookup::Try(Tier::Remote)
            } else {
                Lookup::NotBuilt
            },
            Tier::Remote => Lookup::NotBuilt,
        },
    }
}

/// Whether a finished build's binary is pushed to the remote store: only
/// after a success, when the binary is there and the store is enabled.
pub fn should_publish(success: bool, binary_present: bool, remote_enabled: bool) -> (r: bool)
    ensures
        r == (success && binary_present && remote_enabled),
{
    success && binary_present && remote_enabled
}

/// Sanitizing a program name twice changes nothing more than once.
pub proof fn lemma_sanitize_idempotent(name: Seq<char>)
    ensures
        sanitized_name(sanitized_name(name)) == sanitized_name(name),
{
    assert(sanitized_name(sanitized_name(name)) =~= sanitized_name(name));
}

/// A sanitized name holds only alphanumeric characters and `_`, and is as long
/// as the name it came from.
pub proof fn lemma_sanitized_is_identifier(name: Seq<char>)
    ensures
        sanitized_name(name).len() == name.len(),
        forall|i: int| 0 <= i < name.len() ==> {
            let c = #[trigger] sanitized_name(name)[i];
            crate::workspace::char_alphanumeric(c) || c == '_'
        },
{
}

/// The artifact of a job can be found again under the identifier and program
/// name it was submitted with, and under the sanitized name the job records
/// when it ends: the place the build leaves its binary is the first place a
/// lookup reads, the peer scan reads the same place for that job's directory,
/// and the key it is published under is the key the remote tier reads.
pub proof fn lemma_artifact_round_trip(job_id: Seq<char>, program_name: Seq<char>)
    ensures
        artifact_path(job_id, sanitized_name(program_name)) == artifact_path(job_id, program_name),
        peer_artifact_path(job_dir(job_id), program_name) == artifact_path(job_id, program_name),
        remote_object_key(job_id, sanitized_name(program_name)) == remote_object_key(job_id, program_name),
        artifact_path(job_id, program_name) == deploy_dir(job_id) + "/"@ + binary_file_name(program_name),
{
    lemma_sanitize_idempotent(program_name);
    assert(peer_artifact_path(job_dir(job_id), program_name) =~= artifact_path(job_id, program_name));
}

/// Repeated lookups of one artifact return the same bytes whichever tier
/// serves them: a lookup hands back exactly what the tier that had it
/// returned, and tiers are tried in one fixed order.
pub proof fn lemma_lookup_returns_tier_bytes(tier: Tier, bytes: Vec<u8>, remote_enabled: bool)
    ensures
        lookup_after(tier, Some(bytes), remote_enabled) == Lookup::Found(bytes),
        lookup_after(Tier::Exact, None, remote_enabled) == Lookup::Try(Tier::Peers),
        lookup_after(Tier::Peers, None, true) == Lookup::Try(Tier::Remote),
        lookup_after(Tier::Peers, None, false) == Lookup::NotBuilt,
        lookup_after(Tier::Remote, None, remote_enabled) == Lookup::NotBuilt,
{
}

} // verus!
