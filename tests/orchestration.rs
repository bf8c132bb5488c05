use gpgrt_src::{
    join_all, join_path, resolve, rerun_if_changed_line, to_decimal, Build, BuildError,
    BuildOptions, Error, FsOp, OptionKind, SourceEntry, Step, Toggle, Workspace,
};

fn strings(v: &[&str]) -> Vec<String> {
    v.iter().map(|s| s.to_string()).collect()
}

fn entry(rel: &[&str], is_dir: bool) -> SourceEntry {
    SourceEntry { rel: strings(rel), is_dir }
}

#[test]
fn configure_args_static_only() {
    let o = BuildOptions::static_only();
    assert_eq!(
        o.configure_args("/tmp/x"),
        strings(&["--enable-static", "--disable-shared", "--disable-doc", "--prefix=/tmp/x"])
    );
}

#[test]
fn configure_args_unspecified_emit_no_flag() {
    let o = BuildOptions::new();
    assert_eq!(o.configure_args("/opt/p"), strings(&["--prefix=/opt/p"]));
    let mut o = BuildOptions::new();
    o.set(OptionKind::Shared, Toggle::Enabled);
    let args = o.configure_args("/opt/p");
    assert_eq!(args, strings(&["--enable-shared", "--prefix=/opt/p"]));
    assert!(!args.iter().any(|a| a.ends_with("-static") || a.ends_with("-doc")));
}

#[test]
fn configure_args_flag_counts() {
    let mut o = BuildOptions::new();
    o.set(OptionKind::Doc, Toggle::Disabled);
    o.set(OptionKind::Static, Toggle::Enabled);
    let args = o.configure_args("/p");
    let count = |x: &str| args.iter().filter(|a| a.as_str() == x).count();
    assert_eq!(count("--enable-static"), 1);
    assert_eq!(count("--disable-static"), 0);
    assert_eq!(count("--disable-doc"), 1);
    assert_eq!(count("--enable-doc"), 0);
    assert_eq!(count("--enable-shared"), 0);
    assert_eq!(count("--disable-shared"), 0);
    assert_eq!(args, strings(&["--enable-static", "--disable-doc", "--prefix=/p"]));
}

#[test]
fn resolve_joins_literal_segments() {
    let d = resolve("/tmp/x", &strings(&["gpg-error"]));
    assert_eq!(d.install_dir, "/tmp/x");
    assert_eq!(d.include_dir, "/tmp/x/include");
    assert_eq!(d.lib_dir, "/tmp/x/lib");
    assert_eq!(d.bin_dir, "/tmp/x/bin");
    assert_eq!(d.libs, strings(&["gpg-error"]));
    let d = resolve("/does/not/exist/", &strings(&["gpg-error"]));
    assert_eq!(d.include_dir, "/does/not/exist/include");
    assert_eq!(d.bin_dir, "/does/not/exist/bin");
}

#[test]
fn metadata_four_lines() {
    let d = resolve("/tmp/x", &strings(&["gpg-error"]));
    assert_eq!(
        d.cargo_metadata(),
        strings(&[
            "cargo:rustc-link-search=native=/tmp/x/lib",
            "cargo:rustc-link-lib=static=gpg-error",
            "cargo:include=/tmp/x/include",
            "cargo:lib=/tmp/x/lib",
        ])
    );
}

#[test]
fn metadata_keeps_library_order() {
    let d = resolve("/i", &strings(&["b", "a"]));
    let lines = d.cargo_metadata();
    assert_eq!(lines.len(), 5);
    assert_eq!(lines[1], "cargo:rustc-link-lib=static=b");
    assert_eq!(lines[2], "cargo:rustc-link-lib=static=a");
}

#[test]
fn join_path_cases() {
    assert_eq!(join_path("/a", "b"), "/a/b");
    assert_eq!(join_path("/a/", "b"), "/a/b");
    assert_eq!(join_path("", "b"), "b");
    assert_eq!(join_all("/a", &strings(&["b", "c"])), "/a/b/c");
    assert_eq!(join_all("/a", &strings(&[])), "/a");
}

#[test]
fn workspace_layout() {
    let ws = Workspace::new(Some("/out"), "gpgrt").unwrap();
    assert_eq!(ws.output_root, "/out");
    assert_eq!(ws.build_dir, "/out/build");
    assert_eq!(ws.install_dir, "/out/install");
    assert_eq!(ws.src_dir, "/out/build/gpgrt");
    assert!(Workspace::new(None, "gpgrt").is_none());
    assert!(Workspace::new(Some(""), "gpgrt").is_none());
}

#[test]
fn vcs_directories_skipped_at_any_depth() {
    assert!(entry(&[".git"], true).is_skipped());
    assert!(entry(&[".git", "config"], false).is_skipped());
    assert!(entry(&["src", ".git", "HEAD"], false).is_skipped());
    assert!(entry(&["a", "b", ".git"], true).is_skipped());
    assert!(!entry(&["a", ".git"], false).is_skipped());
    assert!(!entry(&["src", "init.c"], false).is_skipped());
    assert!(!entry(&[".github"], true).is_skipped());
}

#[test]
fn prepare_plan_copies_tree_and_clears_first() {
    let ws = Workspace::new(Some("/out"), "gpgrt").unwrap();
    let entries = vec![
        entry(&["src"], true),
        entry(&["src", "init.c"], false),
        entry(&[".git"], true),
        entry(&[".git", "HEAD"], false),
        entry(&["README"], false),
    ];
    let plan = ws.prepare_plan("/vendor/gpgrt", &entries);
    let shown: Vec<String> = plan.iter().map(|op| format!("{:?}", op)).collect();
    let expected = vec![
        FsOp::RemoveTree("/out/build".to_string()),
        FsOp::RemoveTree("/out/install".to_string()),
        FsOp::CreateDir("/out/build".to_string()),
        FsOp::CreateDir("/out/install".to_string()),
        FsOp::CreateDir("/out/build/gpgrt".to_string()),
        FsOp::CreateDir("/out/build/gpgrt/src".to_string()),
        FsOp::CopyFile(
            "/vendor/gpgrt/src/init.c".to_string(),
            "/out/build/gpgrt/src/init.c".to_string(),
        ),
        FsOp::CopyFile("/vendor/gpgrt/README".to_string(), "/out/build/gpgrt/README".to_string()),
    ];
    let expected: Vec<String> = expected.iter().map(|op| format!("{:?}", op)).collect();
    assert_eq!(shown, expected);
    let again: Vec<String> =
        ws.prepare_plan("/vendor/gpgrt", &entries).iter().map(|op| format!("{:?}", op)).collect();
    assert_eq!(again, shown);
}

#[test]
fn prepare_plan_without_vcs_directory() {
    let ws = Workspace::new(Some("/o"), "s").unwrap();
    let plan = ws.prepare_plan("/v", &vec![entry(&["f"], false)]);
    assert_eq!(plan.len(), 6);
}

#[test]
fn build_new_requires_output_root() {
    assert!(matches!(Build::new(None), Err(BuildError::Configuration)));
    assert!(matches!(Build::new(Some("")), Err(BuildError::Configuration)));
    let b = Build::new(Some("/out")).unwrap();
    assert_eq!(b.workspace.src_dir, "/out/build/gpgrt");
    assert_eq!(b.install_dir, "/out/install");
}

#[test]
fn pipeline_runs_steps_in_order() {
    let mut b = Build::new(Some("/out")).unwrap();
    let mut seen = Vec::new();
    while let Some(inv) = b.next_invocation() {
        assert_eq!(inv.cwd, "/out/build/gpgrt");
        seen.push((inv.step, inv.command_line()));
        assert!(b.record(0).is_ok());
    }
    assert_eq!(
        seen,
        vec![
            (Step::Generate, "./autogen.sh".to_string()),
            (
                Step::Configure,
                "./configure --enable-static --disable-shared --disable-doc --prefix=/out/install"
                    .to_string()
            ),
            (Step::Compile, "make all".to_string()),
            (Step::Install, "make install".to_string()),
        ]
    );
    let d = b.install().unwrap();
    assert_eq!(d.lib_dir, "/out/install/lib");
    assert_eq!(d.libs, strings(&["gpg-error"]));
}

#[test]
fn pipeline_with_test_step() {
    let mut b = Build::new(Some("/out")).unwrap();
    assert!(b.check());
    let mut steps = Vec::new();
    while let Some(inv) = b.next_invocation() {
        steps.push(inv.step);
        b.record(0).unwrap();
    }
    assert_eq!(
        steps,
        vec![Step::Generate, Step::Configure, Step::Compile, Step::Test, Step::Install]
    );
    assert!(b.install().is_some());
}

#[test]
fn pipeline_stops_on_failure() {
    let mut b = Build::new(Some("/out")).unwrap();
    b.record(0).unwrap();
    b.record(0).unwrap();
    assert!(b.install().is_none());
    match b.record(2) {
        Err(BuildError::ExternalTool { invocation, status }) => {
            assert_eq!(status, 2);
            assert_eq!(invocation.step, Step::Compile);
            assert_eq!(invocation.command_line(), "make all");
            assert_eq!(invocation.cwd, "/out/build/gpgrt");
        },
        other => panic!("unexpected {:?}", other),
    }
    assert!(b.next_invocation().is_none());
    assert!(b.install().is_none());
    assert!(!b.check());
}

#[test]
fn relocated_source_and_install_dirs() {
    let mut b = Build::new(Some("/out")).unwrap();
    b.src_dir("/elsewhere/src");
    b.install_dir("/prefix");
    let inv = b.next_invocation().unwrap();
    assert_eq!(inv.cwd, "/elsewhere/src");
    b.record(0).unwrap();
    let inv = b.next_invocation().unwrap();
    assert_eq!(inv.args.last().unwrap(), "--prefix=/prefix");
}

#[test]
fn rerun_directive() {
    assert_eq!(rerun_if_changed_line("/v/gpgrt"), "cargo:rerun-if-changed=/v/gpgrt");
}

#[test]
fn error_codes() {
    assert!(!Error::from_raw(0).is_error());
    assert!(Error::from_raw(55).is_error());
    assert_eq!(Error::from_raw(55).code(), 55);
    assert_eq!(
        Error::from_raw(55).describe("Unspecified source", "Invalid value"),
        "gpg returned with an error code of 55: Unspecified source/Invalid value"
    );
}

#[test]
fn decimal_notation() {
    assert_eq!(to_decimal(0), "0");
    assert_eq!(to_decimal(7), "7");
    assert_eq!(to_decimal(1234), "1234");
    assert_eq!(to_decimal(u32::MAX), "4294967295");
}
