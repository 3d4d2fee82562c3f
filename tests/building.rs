use crit::command::CommandOutput;
use crit::error::CritError;
use crit::pattern::Pattern;
use crit::run::{run, RunSettings};
use crit::target_build::{BuildAction, BuildEvent, TargetConfig};
use crit::targets::Target;

fn config(apps: &[&str]) -> TargetConfig {
    TargetConfig {
        target: "x86_64-unknown-linux-gnu".to_string(),
        cross_dir: ".crit/cross".to_string(),
        bin_dir: ".crit/bin".to_string(),
        cross_args: vec!["--locked".to_string()],
        applications: apps.iter().map(|a| a.to_string()).collect(),
    }
}

fn ok_output() -> Option<CommandOutput> {
    Some(CommandOutput { success: true, stdout: Vec::new(), stderr: Vec::new() })
}

fn probe_path(a: &BuildAction) -> String {
    match a {
        BuildAction::Probe(p) => p.clone(),
        other => panic!("expected a probe, got {:?}", other),
    }
}

#[test]
fn driver_runs_with_scratch_dir_target_release_and_passthrough() {
    let (_, first) = config(&["crit"]).build();
    match first {
        BuildAction::RunDriver(args) => assert_eq!(
            args,
            vec![
                "build",
                "--target-dir",
                ".crit/cross/x86_64-unknown-linux-gnu",
                "--target",
                "x86_64-unknown-linux-gnu",
                "-r",
                "--locked"
            ]
        ),
        other => panic!("expected the driver, got {:?}", other),
    }
}

#[test]
fn every_present_variant_is_copied_with_its_extension() {
    let (mut b, _) = config(&["crit"]).build();
    let mut a = b.step(BuildEvent::DriverExited(ok_output()));
    match &a {
        BuildAction::CreateDir(d) => assert_eq!(d, ".crit/bin/x86_64-unknown-linux-gnu"),
        other => panic!("expected a directory, got {:?}", other),
    }
    a = b.step(BuildEvent::DirCreated(Ok(())));
    let mut probes: Vec<String> = Vec::new();
    let mut copies: Vec<(String, String)> = Vec::new();
    loop {
        match a {
            BuildAction::Probe(p) => {
                let present = p.ends_with("/release/crit") || p.ends_with("/release/crit.js");
                probes.push(p);
                a = b.step(BuildEvent::Probed(present));
            }
            BuildAction::Copy(s, d) => {
                copies.push((s, d));
                a = b.step(BuildEvent::Copied(Ok(())));
            }
            BuildAction::Finish(r) => {
                assert_eq!(r, Ok(()));
                break;
            }
            other => panic!("unexpected {:?}", other),
        }
    }
    let root = ".crit/cross/x86_64-unknown-linux-gnu/x86_64-unknown-linux-gnu";
    assert_eq!(
        probes,
        vec![
            format!("{}/debug/crit", root),
            format!("{}/release/crit", root),
            format!("{}/debug/crit.exe", root),
            format!("{}/release/crit.exe", root),
            format!("{}/debug/crit.js", root),
            format!("{}/release/crit.js", root),
            format!("{}/debug/crit.wasm", root),
            format!("{}/release/crit.wasm", root),
        ]
    );
    assert_eq!(
        copies,
        vec![
            (format!("{}/release/crit", root), ".crit/bin/x86_64-unknown-linux-gnu/crit".to_string()),
            (format!("{}/release/crit.js", root), ".crit/bin/x86_64-unknown-linux-gnu/crit.js".to_string()),
        ]
    );
}

#[test]
fn driver_failure_carries_its_diagnostic_and_copies_nothing() {
    let (mut b, _) = config(&["crit"]).build();
    let out = CommandOutput {
        success: false,
        stdout: b"some progress".to_vec(),
        stderr: b"error: linker not found\n".to_vec(),
    };
    match b.step(BuildEvent::DriverExited(Some(out))) {
        BuildAction::Finish(r) => assert_eq!(r, Err(CritError::Build("error: linker not found\n".to_string()))),
        other => panic!("expected the end, got {:?}", other),
    }
    assert!(!b.accepts(&BuildEvent::Probed(true)));
}

#[test]
fn driver_that_cannot_start() {
    let (mut b, _) = config(&["crit"]).build();
    match b.step(BuildEvent::DriverExited(None)) {
        BuildAction::Finish(r) => assert_eq!(r, Err(CritError::ToolInvocation)),
        other => panic!("expected the end, got {:?}", other),
    }
}

#[test]
fn copy_failure_fails_the_target() {
    let (mut b, _) = config(&["crit"]).build();
    b.step(BuildEvent::DriverExited(ok_output()));
    b.step(BuildEvent::DirCreated(Ok(())));
    b.step(BuildEvent::Probed(true));
    match b.step(BuildEvent::Copied(Err("permission denied".to_string()))) {
        BuildAction::Finish(r) => assert_eq!(r, Err(CritError::Copy("permission denied".to_string()))),
        other => panic!("expected the end, got {:?}", other),
    }
}

#[test]
fn no_applications_means_nothing_to_collect() {
    let (mut b, _) = config(&[]).build();
    match b.step(BuildEvent::DriverExited(ok_output())) {
        BuildAction::Finish(r) => assert_eq!(r, Ok(())),
        other => panic!("expected the end, got {:?}", other),
    }
}

#[test]
fn second_application_gets_its_own_probes() {
    let (mut b, _) = config(&["a", "b"]).build();
    b.step(BuildEvent::DriverExited(ok_output()));
    let mut a = b.step(BuildEvent::DirCreated(Ok(())));
    for _ in 0..7 {
        a = b.step(BuildEvent::Probed(false));
    }
    assert!(probe_path(&a).ends_with("/release/a.wasm"));
    a = b.step(BuildEvent::Probed(false));
    assert!(matches!(a, BuildAction::CreateDir(_)));
    a = b.step(BuildEvent::DirCreated(Ok(())));
    assert!(probe_path(&a).ends_with("/debug/b"));
}

fn settings(banner: &str) -> RunSettings {
    RunSettings {
        feature_exclusion: Pattern::new("letmeout").unwrap(),
        artifact_root: ".crit".to_string(),
        banner: banner.to_string(),
        extra_args: Vec::new(),
    }
}

fn target(triple: &str, enabled: bool) -> Target {
    Target { triple: triple.to_string(), enabled }
}

#[test]
fn run_without_enabled_targets_fails_first() {
    let ts = vec![target("wasm32-unknown-unknown", false)];
    let (r, a) = run(&ts, settings(""));
    match a {
        BuildAction::Finish(res) => assert_eq!(res, Err(CritError::NoTargetsEnabled)),
        other => panic!("expected the end, got {:?}", other),
    }
    assert!(!r.accepts(&BuildEvent::ManifestRead(None)));
    let (_, a) = run(&Vec::new(), settings(""));
    assert!(matches!(a, BuildAction::Finish(Err(CritError::NoTargetsEnabled))));
}

#[test]
fn run_propagates_manifest_errors() {
    let ts = vec![target("x86_64-unknown-linux-gnu", true)];
    let (mut r, a) = run(&ts, settings(""));
    assert!(matches!(a, BuildAction::ReadManifest));
    let a = r.step(BuildEvent::ManifestRead(None));
    assert!(matches!(a, BuildAction::Finish(Err(CritError::ManifestRead))));
    let (mut r, _) = run(&ts, settings(""));
    let a = r.step(BuildEvent::ManifestRead(Some("[package]\n".to_string())));
    assert!(matches!(a, BuildAction::Finish(Err(CritError::MissingBinarySection))));
}

#[test]
fn run_builds_only_enabled_targets_in_order() {
    let ts = vec![
        target("aarch64-unknown-linux-gnu", true),
        target("wasm32-unknown-unknown", false),
        target("x86_64-unknown-linux-gnu", true),
    ];
    let (mut r, _) = run(&ts, settings("v1"));
    let mut a = r.step(BuildEvent::ManifestRead(Some("[[bin]]\nname = \"crit\"\n".to_string())));
    let mut driven: Vec<String> = Vec::new();
    let mut dirs: Vec<String> = Vec::new();
    loop {
        a = match a {
            BuildAction::RunDriver(args) => {
                driven.push(args[4].clone());
                r.step(BuildEvent::DriverExited(ok_output()))
            }
            BuildAction::CreateDir(d) => {
                dirs.push(d);
                r.step(BuildEvent::DirCreated(Ok(())))
            }
            BuildAction::Probe(_) => r.step(BuildEvent::Probed(false)),
            BuildAction::Finish(res) => {
                assert_eq!(res, Ok(()));
                break;
            }
            other => panic!("unexpected {:?}", other),
        };
    }
    assert_eq!(driven, vec!["aarch64-unknown-linux-gnu", "x86_64-unknown-linux-gnu"]);
    assert_eq!(
        dirs,
        vec![".crit/bin/v1/aarch64-unknown-linux-gnu", ".crit/bin/v1/x86_64-unknown-linux-gnu"]
    );
}

#[test]
fn run_stops_at_the_first_failed_target() {
    let ts = vec![target("a-b-c", true), target("d-e-f", true)];
    let (mut r, _) = run(&ts, settings(""));
    r.step(BuildEvent::ManifestRead(Some("[[bin]]\nname = \"crit\"\n".to_string())));
    let out = CommandOutput { success: false, stdout: Vec::new(), stderr: b"boom".to_vec() };
    let a = r.step(BuildEvent::DriverExited(Some(out)));
    match a {
        BuildAction::Finish(res) => assert_eq!(res, Err(CritError::Build("boom".to_string()))),
        other => panic!("expected the end, got {:?}", other),
    }
    assert!(!r.accepts(&BuildEvent::DriverExited(None)));
}

#[test]
fn example_listing_builds_only_the_native_target() {
    let p = crit::defaults::default_target_exclusion_pattern().unwrap();
    let out = CommandOutput {
        success: true,
        stdout: b"x86_64-unknown-linux-gnu\nwasm32-unknown-unknown\n".to_vec(),
        stderr: Vec::new(),
    };
    let ts = crit::targets::discover(&p, &Some(out)).unwrap();
    let (mut r, _) = run(&ts, settings(""));
    let mut a = r.step(BuildEvent::ManifestRead(Some("[[bin]]\nname = \"crit\"\n".to_string())));
    let mut driven: Vec<String> = Vec::new();
    loop {
        a = match a {
            BuildAction::RunDriver(args) => {
                driven.push(args[4].clone());
                r.step(BuildEvent::DriverExited(ok_output()))
            }
            BuildAction::CreateDir(_) => r.step(BuildEvent::DirCreated(Ok(()))),
            BuildAction::Probe(_) => r.step(BuildEvent::Probed(false)),
            BuildAction::Finish(res) => {
                assert_eq!(res, Ok(()));
                break;
            }
            other => panic!("unexpected {:?}", other),
        };
    }
    assert_eq!(driven, vec!["x86_64-unknown-linux-gnu"]);
}
