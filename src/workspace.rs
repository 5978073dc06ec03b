use vstd::prelude::*;
use crate::text::{chars_of, replace_all, replace_all_chars, string_from_chars};

verus! {

/// Most files that one build request may carry.
pub const MAX_FILE_AMOUNT: usize = 64;

/// Longest accepted source path, in characters.
pub const MAX_PATH_LENGTH: usize = 128;

/// Root under which every job's workspace lives.
pub const PROGRAMS_DIR: &'static str = "programs";

/// Text of the generated build manifest before the program name.
pub const MANIFEST_HEAD: &'static str = "[package]\nname = \"";

/// Text of the generated build manifest after the program name: crate type
/// and a fixed, version-pinned dependency set.
pub const MANIFEST_TAIL: &'static str = "\"\nversion = \"0.1.0\"\nedition = \"2021\"\n\n[lib]\ncrate-type = [\"cdylib\"]\n\n[dependencies]\narch_program = \"0.5.13\"\napl-associated-token-account = \"0.5.13\"\napl-token = \"0.5.13\"\napl-token-metadata = \"0.5.13\"\n\n# Core serialization/encoding\nborsh = \"^1.5.3\"\nbase64 = { version = \"=0.22.1\", default-features = false, features = [\"alloc\"] }\nhex = { version = \"=0.4.3\", default-features = false }\nsha256 = { version = \"=1.5.0\", default-features = false }\n\n# Error handling\nthiserror = \"^1.0.57\"\n\n# Serialization\nserde = { version = \"^1.0.216\", features = [\"derive\"], default-features = false }\n\n# Memory casting utilities\nbytemuck = { version = \"^1.20.0\", features = [\"derive\"] }\n\n[profile.release]\noverflow-checks = true\nincremental = true\ncodegen-units = 256\nopt-level = 1\nlto = false\ndebug = false\n\n[profile.release.build-override]\nopt-level = 1\nincremental = true\ncodegen-units = 256\n";

/// One submitted source file: where it goes under the job's workspace, and what it holds.
pub struct SourceFile {
    pub path: String,
    pub content: String,
}

/// The source file set of one build request, in submission order.
pub type Files = Vec<SourceFile>;

/// ASCII letter, digit or underscore.
pub open spec fn is_word_char(c: char) -> bool {
    ||| ('a' as u32) <= (c as u32) <= ('z' as u32)
    ||| ('A' as u32) <= (c as u32) <= ('Z' as u32)
    ||| ('0' as u32) <= (c as u32) <= ('9' as u32)
    ||| c == '_'
}

/// A character allowed between the source root and the extension.
pub open spec fn is_source_body_char(c: char) -> bool {
    is_word_char(c) || c == '/' || c == '-'
}

/// The fixed source root every path starts with.
pub open spec fn source_root() -> Seq<char> {
    seq!['/', 's', 'r', 'c', '/']
}

/// The single extension every path ends with.
pub open spec fn source_ext() -> Seq<char> {
    seq!['.', 'r', 's']
}

/// `/src/`, then at least one of letters, digits, `_`, `/`, `-`, then `.rs`.
pub open spec fn matches_source_pattern(p: Seq<char>) -> bool {
    &&& p.len() >= 9
    &&& p.subrange(0, 5) == source_root()
    &&& p.subrange(p.len() - 3, p.len() as int) == source_ext()
    &&& forall|i: int| 5 <= i < p.len() - 3 ==> is_source_body_char(#[trigger] p[i])
}

/// Whether `c` appears twice in a row in `p`.
pub open spec fn has_double(p: Seq<char>, c: char) -> bool {
    exists|i: int| 0 <= i && i + 1 < p.len() && p[i] == c && #[trigger] p[i + 1] == c
}

/// A path that a build request may write: it matches the source pattern, is
/// not too long, and holds neither a parent step `..` nor an empty segment `//`.
pub open spec fn allowed_path(p: Seq<char>) -> bool {
    &&& matches_source_pattern(p)
    &&& p.len() <= MAX_PATH_LENGTH
    &&& !has_double(p, '.')
    &&& !has_double(p, '/')
}

/// A source file set that is admitted: not too many files, each path allowed.
pub open spec fn valid_file_set(files: Seq<SourceFile>) -> bool {
    &&& files.len() <= MAX_FILE_AMOUNT
    &&& forall|i: int| 0 <= i < files.len() ==> allowed_path(#[trigger] files[i].path@)
}

/// Index of the first file whose path is not allowed.
pub open spec fn first_bad_path(files: Seq<SourceFile>, k: int) -> bool {
    &&& 0 <= k < files.len()
    &&& !allowed_path(files[k].path@)
    &&& forall|i: int| 0 <= i < k ==> allowed_path(#[trigger] files[i].path@)
}

/// Why a build request was refused before anything was written.
#[derive(Debug, Clone, PartialEq, Eq)]
pub enum InvalidInput {
    /// More files than `MAX_FILE_AMOUNT`; `count` is how many were sent.
    TooManyFiles { count: usize },
    /// The first path that is not allowed.
    InvalidPath { path: String },
}

/// `e` is the refusal owed to `files`: too many files, else the first bad path.
pub open spec fn refusal_of(files: Seq<SourceFile>, e: InvalidInput) -> bool {
    match e {
        InvalidInput::TooManyFiles { count } => files.len() > MAX_FILE_AMOUNT && count == files.len(),
        InvalidInput::InvalidPath { path } => files.len() <= MAX_FILE_AMOUNT && exists|k: int|
            first_bad_path(files, k) && path@ == #[trigger] files[k].path@,
    }
}

fn is_word_char_exec(c: char) -> (r: bool)
    ensures
        r == is_word_char(c),
{
    let u = c as u32;
    (97 <= u && u <= 122) || (65 <= u && u <= 90) || (48 <= u && u <= 57) || c == '_'
}

/// Whether `path` may be written by a build request.
pub fn is_allowed_path(path: &str) -> (r: bool)
    ensures
        r == allowed_path(path@),
{
    let p = chars_of(path);
    let n = p.len();
    if n > MAX_PATH_LENGTH || n < 9 {
        return false;
    }
    if !(p[0] == '/' && p[1] == 's' && p[2] == 'r' && p[3] == 'c' && p[4] == '/') {
        assert(p@.subrange(0, 5) != source_root()) by {
            if p@.subrange(0, 5) == source_root() {
                assert(p@[0] == p@.subrange(0, 5)[0]);
                assert(p@[1] == p@.subrange(0, 5)[1]);
                assert(p@[2] == p@.subrange(0, 5)[2]);
                assert(p@[3] == p@.subrange(0, 5)[3]);
                assert(p@[4] == p@.subrange(0, 5)[4]);
            }
        }
        return false;
    }
    assert(p@.subrange(0, 5) =~= source_root());
    if !(p[n - 3] == '.' && p[n - 2] == 'r' && p[n - 1] == 's') {
        assert(p@.subrange(n - 3, n as int) != source_ext()) by {
            if p@.subrange(n - 3, n as int) == source_ext() {
                assert(p@[n - 3] == p@.subrange(n - 3, n as int)[0]);
                assert(p@[n - 2] == p@.subrange(n - 3, n as int)[1]);
                assert(p@[n - 1] == p@.subrange(n - 3, n as int)[2]);
            }
        }
        return false;
    }
    assert(p@.subrange(n - 3, n as int) =~= source_ext());
    let mut i: usize = 5;
    while i < n - 3
        invariant
            p@ == path@,
            n == p@.len(),
            9 <= n <= MAX_PATH_LENGTH,
            5 <= i <= n - 3,
            forall|j: int| 5 <= j < i ==> is_source_body_char(#[trigger] p@[j]),
        decreases n - 3 - i,
    {
        let c = p[i];
        if !(is_word_char_exec(c) || c == '/' || c == '-') {
            return false;
        }
        i = i + 1;
    }
    let mut k: usize = 0;
    while k + 1 < n
        invariant
            p@ == path@,
            n == p@.len(),
            9 <= n <= MAX_PATH_LENGTH,
            k < n,
            forall|j: int| 0 <= j < k ==> !((p@[j] == '.' || p@[j] == '/') && #[trigger] p@[j + 1] == p@[j]),
        decreases n - k,
    {
        if (p[k] == '.' || p[k] == '/') && p[k + 1] == p[k] {
            assert(p@[k as int] == p@[k + 1]);
            return false;
        }
        k = k + 1;
    }
    assert(!has_double(p@, '.'));
    assert(!has_double(p@, '/'));
    true
}

/// Checks the file count and every path of a build request, before anything
/// is written; on refusal it names the limit or the first offending path.
pub fn validate_files(files: &Files) -> (r: Result<(), InvalidInput>)
    ensures
        r is Ok <==> valid_file_set(files@),
        r matches Err(e) ==> refusal_of(files@, e),
{
    if files.len() > MAX_FILE_AMOUNT {
        return Err(InvalidInput::TooManyFiles { count: files.len() });
    }
    let mut i: usize = 0;
    while i < files.len()
        invariant
            files@.len() <= MAX_FILE_AMOUNT,
            i <= files@.len(),
            forall|j: int| 0 <= j < i ==> allowed_path(#[trigger] files@[j].path@),
        decreases files@.len() - i,
    {
        if !is_allowed_path(files[i].path.as_str()) {
            let path = files[i].path.clone();
            assert(first_bad_path(files@, i as int));
            return Err(InvalidInput::InvalidPath { path });
        }
        i = i + 1;
    }
    Ok(())
}

/// What `char::is_alphanumeric` says of `c`.
pub uninterp spec fn char_alphanumeric(c: char) -> bool;

/// Relies on `char::is_alphanumeric`: whether `c` is alphabetic or numeric in
/// Unicode; among ASCII characters exactly the letters and digits are.
#[verifier::external_body]
fn is_alphanumeric(c: char) -> (r: bool)
    ensures
        r == char_alphanumeric(c),
        (c as u32) < 128 ==> (r == (is_word_char(c) && c != '_')),
{
    c.is_alphanumeric()
}

/// The program name with every character that is not alphanumeric replaced by `_`.
pub open spec fn sanitized_name(name: Seq<char>) -> Seq<char> {
    name.map_values(|c: char| if char_alphanumeric(c) { c } else { '_' })
}

/// Maps every non-alphanumeric character of `name` to `_`, which makes it a
/// safe identifier and file name.
pub fn sanitize_program_name(name: &str) -> (r: String)
    ensures
        r@ == sanitized_name(name@),
{
    let cs = chars_of(name);
    let mut out: Vec<char> = Vec::new();
    let mut i: usize = 0;
    while i < cs.len()
        invariant
            cs@ == name@,
            i <= cs@.len(),
            out@ == sanitized_name(name@).take(i as int),
        decreases cs@.len() - i,
    {
        let c = cs[i];
        let d = if is_alphanumeric(c) { c } else { '_' };
        proof {
            assert(sanitized_name(name@).take(i as int).push(d) =~= sanitized_name(name@).take(i + 1));
        }
        out.push(d);
        i = i + 1;
    }
    assert(out@ =~= sanitized_name(name@));
    string_from_chars(&out)
}

/// The build manifest for a program whose sanitized name is `safe_name`.
pub open spec fn manifest_text(safe_name: Seq<char>) -> Seq<char> {
    MANIFEST_HEAD@ + safe_name + MANIFEST_TAIL@
}

/// Renders the build manifest around an already sanitized program name.
pub fn cargo_manifest(safe_name: &str) -> (r: String)
    ensures
        r@ == manifest_text(safe_name@),
{
    let mut m = String::from_str(MANIFEST_HEAD);
    m.append(safe_name);
    m.append(MANIFEST_TAIL);
    m
}

/// `a` followed by `b`, as a new string.
fn joined(a: &str, b: &str) -> (r: String)
    ensures
        r@ == a@ + b@,
{
    let mut s = String::from_str(a);
    s.append(b);
    s
}

/// The job's own directory: `programs/{job_id}`.
pub open spec fn job_dir(job_id: Seq<char>) -> Seq<char> {
    PROGRAMS_DIR@ + "/"@ + job_id
}

/// The directory that the toolchain writes the job's binary to.
pub open spec fn deploy_dir(job_id: Seq<char>) -> Seq<char> {
    job_dir(job_id) + "/target/deploy"@
}

/// File name of the binary built for a program of that (raw) name.
pub open spec fn binary_file_name(program_name: Seq<char>) -> Seq<char> {
    sanitized_name(program_name) + ".so"@
}

/// Where the binary of job `job_id` for `program_name` lies on local disk.
pub open spec fn artifact_path(job_id: Seq<char>, program_name: Seq<char>) -> Seq<char> {
    deploy_dir(job_id) + "/"@ + binary_file_name(program_name)
}

/// The shared output directory that all builds reuse intermediate state from.
pub open spec fn shared_target_dir() -> Seq<char> {
    PROGRAMS_DIR@ + "/target"@
}

/// The job's own directory.
pub fn job_dir_of(job_id: &str) -> (r: String)
    ensures
        r@ == job_dir(job_id@),
{
    let mut s = joined(PROGRAMS_DIR, "/");
    s.append(job_id);
    s
}

/// The directory that receives the job's binary.
pub fn deploy_dir_of(job_id: &str) -> (r: String)
    ensures
        r@ == deploy_dir(job_id@),
{
    let mut s = job_dir_of(job_id);
    s.append("/target/deploy");
    s
}

/// File name of the binary built for `program_name`.
pub fn binary_file_name_of(program_name: &str) -> (r: String)
    ensures
        r@ == binary_file_name(program_name@),
{
    let mut s = sanitize_program_name(program_name);
    s.append(".so");
    s
}

/// Path of the binary that a successful build of `program_name` in job
/// `job_id` leaves on local disk.
pub fn artifact_path_of(job_id: &str, program_name: &str) -> (r: String)
    ensures
        r@ == artifact_path(job_id@, program_name@),
{
    let mut s = deploy_dir_of(job_id);
    s.append("/");
    let f = binary_file_name_of(program_name);
    s.append(f.as_str());
    s
}

/// The shared output directory.
pub fn shared_target_dir_of() -> (r: String)
    ensures
        r@ == shared_target_dir(),
{
    joined(PROGRAMS_DIR, "/target")
}

/// One file to write: its target path and its content.
pub struct FileWrite {
    pub target: String,
    pub content: String,
}

/// Everything that staging a job writes, computed before anything is written.
pub struct StagePlan {
    /// `programs/{job_id}`
    pub program_dir: String,
    /// `programs/{job_id}/src`
    pub source_dir: String,
    /// `programs/{job_id}/target/deploy`
    pub deploy_dir: String,
    /// `programs/{job_id}/Cargo.toml`
    pub manifest_path: String,
    /// Content of the build manifest.
    pub manifest: String,
    /// The sanitized program name.
    pub program_name: String,
    /// Where the built binary will appear.
    pub artifact_path: String,
    /// The shared output directory.
    pub shared_target: String,
    /// The source files, each under the job's directory, in submission order.
    pub writes: Vec<FileWrite>,
}

/// `plan` stages `files` for job `job_id` and program `program_name`.
pub open spec fn plan_of(plan: StagePlan, job_id: Seq<char>, program_name: Seq<char>, files: Seq<SourceFile>) -> bool {
    &&& plan.program_dir@ == job_dir(job_id)
    &&& plan.source_dir@ == job_dir(job_id) + "/src"@
    &&& plan.deploy_dir@ == deploy_dir(job_id)
    &&& plan.manifest_path@ == job_dir(job_id) + "/Cargo.toml"@
    &&& plan.manifest@ == manifest_text(sanitized_name(program_name))
    &&& plan.program_name@ == sanitized_name(program_name)
    &&& plan.artifact_path@ == artifact_path(job_id, program_name)
    &&& plan.shared_target@ == shared_target_dir()
    &&& plan.writes@.len() == files.len()
    &&& forall|i: int| 0 <= i < files.len() ==> {
        &&& (#[trigger] plan.writes@[i]).target@ == job_dir(job_id) + files[i].path@
        &&& plan.writes@[i].content@ == files[i].content@
    }
}

/// Validates a build request and, if it is admitted, lays out what staging it
/// writes. Nothing is to be written for a refused request.
pub fn plan_staging(job_id: &str, program_name: &str, files: &Files) -> (r: Result<StagePlan, InvalidInput>)
    ensures
        r is Ok <==> valid_file_set(files@),
        r matches Ok(plan) ==> plan_of(plan, job_id@, program_name@, files@),
        r matches Err(e) ==> refusal_of(files@, e),
{
    match validate_files(files) {
        Err(e) => {
            return Err(e);
        }
        Ok(()) => {},
    }
    let program_dir = job_dir_of(job_id);
    let mut writes: Vec<FileWrite> = Vec::new();
    let mut i: usize = 0;
    while i < files.len()
        invariant
            program_dir@ == job_dir(job_id@),
            i <= files@.len(),
            writes@.len() == i,
            forall|j: int| 0 <= j < i ==> {
                &&& (#[trigger] writes@[j]).target@ == job_dir(job_id@) + files@[j].path@
                &&& writes@[j].content@ == files@[j].content@
            },
        decreases files@.len() - i,
    {
        let target = joined(program_dir.as_str(), files[i].path.as_str());
        let content = files[i].content.clone();
        writes.push(FileWrite { target, content });
        i = i + 1;
    }
    let safe = sanitize_program_name(program_name);
    let manifest = cargo_manifest(safe.as_str());
    let plan = StagePlan {
        program_dir: job_dir_of(job_id),
        source_dir: joined(program_dir.as_str(), "/src"),
        deploy_dir: deploy_dir_of(job_id),
        manifest_path: joined(program_dir.as_str(), "/Cargo.toml"),
        manifest,
        program_name: safe,
        artifact_path: artifact_path_of(job_id, program_name),
        shared_target: shared_target_dir_of(),
        writes,
    };
    Ok(plan)
}

/// An admitted request writes each file under its own job's source
/// directory, and no written path steps to a parent or holds an empty segment,
/// so nothing is written outside the workspace.
pub proof fn lemma_writes_stay_in_source_dir(
    plan: StagePlan,
    job_id: Seq<char>,
    program_name: Seq<char>,
    files: Seq<SourceFile>,
)
    requires
        valid_file_set(files),
        plan_of(plan, job_id, program_name, files),
    ensures
        forall|i: int| 0 <= i < plan.writes@.len() ==> {
            let t = (#[trigger] plan.writes@[i]).target@;
            let root = job_dir(job_id) + source_root();
            &&& t.len() <= job_dir(job_id).len() + MAX_PATH_LENGTH
            &&& t.subrange(0, root.len() as int) == root
            &&& !has_double(t.subrange(job_dir(job_id).len() as int, t.len() as int), '.')
            &&& !has_double(t.subrange(job_dir(job_id).len() as int, t.len() as int), '/')
        },
{
    assert forall|i: int| 0 <= i < plan.writes@.len() implies {
        let t = (#[trigger] plan.writes@[i]).target@;
        let root = job_dir(job_id) + source_root();
        &&& t.len() <= job_dir(job_id).len() + MAX_PATH_LENGTH
        &&& t.subrange(0, root.len() as int) == root
        &&& !has_double(t.subrange(job_dir(job_id).len() as int, t.len() as int), '.')
        &&& !has_double(t.subrange(job_dir(job_id).len() as int, t.len() as int), '/')
    } by {
        let jd = job_dir(job_id);
        let p = files[i].path@;
        let t = plan.writes@[i].target@;
        assert(allowed_path(p));
        assert(t == jd + p);
        assert(t.subrange(jd.len() as int, t.len() as int) =~= p);
        assert(t.subrange(0, (jd + source_root()).len() as int) =~= jd + p.subrange(0, 5));
    }
}

/// A request with exactly the largest number of files, all with allowed
/// paths, is admitted; one with a file more is refused for its file count.
pub proof fn lemma_file_count_boundary(files: Seq<SourceFile>)
    requires
        forall|i: int| 0 <= i < files.len() ==> allowed_path(#[trigger] files[i].path@),
    ensures
        files.len() == MAX_FILE_AMOUNT ==> valid_file_set(files),
        files.len() == MAX_FILE_AMOUNT + 1 ==> !valid_file_set(files) && (forall|e: InvalidInput|
            refusal_of(files, e) ==> e == InvalidInput::TooManyFiles { count: (MAX_FILE_AMOUNT + 1) as usize }),
{
}

/// Lock-file entry of the derive crate version that breaks the toolchain.
pub const LOCKED_DERIVE: &'static str = "name = \"bytemuck_derive\"\nversion = \"1.9.2\"";

/// Lock-file entry it is pinned back to.
pub const PINNED_DERIVE: &'static str = "name = \"bytemuck_derive\"\nversion = \"1.5.0\"";

/// What to do with a lock file that a job's directory already holds.
pub enum LockFix {
    /// Write this content in its place.
    Rewrite(String),
    /// Remove the file, so that the toolchain resolves afresh.
    Remove,
}

/// The fix owed to a lock file with `content`: pin the derive crate back where
/// it appears, else remove the file.
pub open spec fn lock_fix_of(content: Seq<char>, fix: LockFix) -> bool {
    let pinned = replace_all(content, LOCKED_DERIVE@, PINNED_DERIVE@);
    match fix {
        LockFix::Rewrite(t) => pinned != content && t@ == pinned,
        LockFix::Remove => pinned == content,
    }
}

/// Decides what to do with an existing lock file.
pub fn plan_lock_fix(content: &str) -> (r: LockFix)
    ensures
        lock_fix_of(content@, r),
{
    proof {
        reveal_strlit("name = \"bytemuck_derive\"\nversion = \"1.9.2\"");
    }
    let c = chars_of(content);
    let from = chars_of(LOCKED_DERIVE);
    let to = chars_of(PINNED_DERIVE);
    let pinned = replace_all_chars(&c, &from, &to);
    let text = string_from_chars(&pinned);
    let original = String::from_str(content);
    if text == original {
        LockFix::Remove
    } else {
        LockFix::Rewrite(text)
    }
}

} // verus!
