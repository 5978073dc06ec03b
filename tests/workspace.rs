use build_server::workspace::{plan_lock_fix, LockFix};
use build_server::workspace::{
    artifact_path_of, cargo_manifest, is_allowed_path, plan_staging, sanitize_program_name, validate_files,
    InvalidInput, SourceFile, MANIFEST_HEAD, MANIFEST_TAIL, MAX_FILE_AMOUNT, MAX_PATH_LENGTH,
};

fn file(path: &str) -> SourceFile {
    SourceFile { path: path.to_string(), content: "pub fn f() {}".to_string() }
}

#[test]
fn source_paths_under_src_are_allowed() {
    assert!(is_allowed_path("/src/lib.rs"));
    assert!(is_allowed_path("/src/a/b_c-d/e1.rs"));
    assert!(is_allowed_path("/src/x.rs"));
}

#[test]
fn parent_traversal_is_refused() {
    assert!(!is_allowed_path("/src/../etc/passwd"));
    assert!(!is_allowed_path("/src/../lib.rs"));
    assert!(!is_allowed_path("/src/a/..rs"));
}

#[test]
fn paths_outside_the_pattern_are_refused() {
    assert!(!is_allowed_path("/src//lib.rs"));
    assert!(!is_allowed_path("src/lib.rs"));
    assert!(!is_allowed_path("/lib.rs"));
    assert!(!is_allowed_path("/src/.rs"));
    assert!(!is_allowed_path("/src/lib.txt"));
    assert!(!is_allowed_path("/src/a.b.rs"));
    assert!(!is_allowed_path("/src/a b.rs"));
    assert!(!is_allowed_path("/src/é.rs"));
    assert!(!is_allowed_path(""));
}

#[test]
fn path_length_bound_is_inclusive() {
    let longest = format!("/src/{}.rs", "a".repeat(MAX_PATH_LENGTH - 8));
    assert_eq!(longest.len(), MAX_PATH_LENGTH);
    assert!(is_allowed_path(&longest));
    let too_long = format!("/src/{}.rs", "a".repeat(MAX_PATH_LENGTH - 7));
    assert!(!is_allowed_path(&too_long));
}

#[test]
fn exactly_the_maximum_file_count_is_admitted() {
    let files: Vec<SourceFile> = (0..MAX_FILE_AMOUNT).map(|i| file(&format!("/src/m{}.rs", i))).collect();
    assert_eq!(validate_files(&files), Ok(()));
}

#[test]
fn one_file_over_the_maximum_is_refused() {
    let files: Vec<SourceFile> = (0..MAX_FILE_AMOUNT + 1).map(|i| file(&format!("/src/m{}.rs", i))).collect();
    assert_eq!(validate_files(&files), Err(InvalidInput::TooManyFiles { count: MAX_FILE_AMOUNT + 1 }));
}

#[test]
fn refusal_names_the_first_bad_path() {
    let files = vec![file("/src/lib.rs"), file("/src/../etc/passwd"), file("/src//x.rs")];
    assert_eq!(
        validate_files(&files),
        Err(InvalidInput::InvalidPath { path: "/src/../etc/passwd".to_string() })
    );
    assert_eq!(validate_files(&Vec::new()), Ok(()));
}

#[test]
fn program_names_are_sanitized() {
    assert_eq!(sanitize_program_name("hello"), "hello");
    assert_eq!(sanitize_program_name("my-prog v2!"), "my_prog_v2_");
    assert_eq!(sanitize_program_name("a_b"), "a_b");
    assert_eq!(sanitize_program_name("héllo"), "héllo");
    assert_eq!(sanitize_program_name(""), "");
    let once = sanitize_program_name("x/y..z");
    assert_eq!(once, "x_y__z");
    assert_eq!(sanitize_program_name(&once), once);
}

#[test]
fn manifest_embeds_the_sanitized_name() {
    let m = cargo_manifest("my_prog");
    assert!(m.starts_with("[package]\nname = \"my_prog\"\nversion = \"0.1.0\""));
    assert_eq!(m, format!("{}my_prog{}", MANIFEST_HEAD, MANIFEST_TAIL));
    assert!(m.contains("crate-type = [\"cdylib\"]"));
    assert!(m.contains("arch_program = \"0.5.13\""));
}

#[test]
fn staging_plan_places_everything_under_the_job_directory() {
    let files = vec![file("/src/lib.rs"), file("/src/state/mod.rs")];
    let plan = plan_staging("1b4e28ba-2fa1-11d2-883f-0016d3cca427", "my prog", &files).unwrap();
    let dir = "programs/1b4e28ba-2fa1-11d2-883f-0016d3cca427";
    assert_eq!(plan.program_dir, dir);
    assert_eq!(plan.source_dir, format!("{}/src", dir));
    assert_eq!(plan.deploy_dir, format!("{}/target/deploy", dir));
    assert_eq!(plan.manifest_path, format!("{}/Cargo.toml", dir));
    assert_eq!(plan.program_name, "my_prog");
    assert_eq!(plan.manifest, cargo_manifest("my_prog"));
    assert_eq!(plan.artifact_path, format!("{}/target/deploy/my_prog.so", dir));
    assert_eq!(plan.shared_target, "programs/target");
    assert_eq!(plan.writes.len(), 2);
    assert_eq!(plan.writes[0].target, format!("{}/src/lib.rs", dir));
    assert_eq!(plan.writes[1].target, format!("{}/src/state/mod.rs", dir));
    assert_eq!(plan.writes[1].content, "pub fn f() {}");
    assert_eq!(artifact_path_of("j", "my prog"), "programs/j/target/deploy/my_prog.so");
}

#[test]
fn staging_plan_is_refused_for_a_bad_file_set() {
    let files = vec![file("/src/../etc/passwd")];
    assert!(plan_staging("j", "p", &files).is_err());
}

#[test]
fn lock_file_with_the_broken_derive_version_is_pinned_back() {
    let content = "[[package]]\nname = \"bytemuck_derive\"\nversion = \"1.9.2\"\nsource = \"x\"\n";
    match plan_lock_fix(content) {
        LockFix::Rewrite(t) => {
            assert_eq!(t, "[[package]]\nname = \"bytemuck_derive\"\nversion = \"1.5.0\"\nsource = \"x\"\n")
        }
        LockFix::Remove => panic!("expected a rewrite"),
    }
}

#[test]
fn lock_file_without_the_broken_version_is_removed() {
    let content = "[[package]]\nname = \"bytemuck_derive\"\nversion = \"1.5.0\"\n";
    assert!(matches!(plan_lock_fix(content), LockFix::Remove));
    assert!(matches!(plan_lock_fix(""), LockFix::Remove));
}
