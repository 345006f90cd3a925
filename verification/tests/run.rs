use apt_vulns_xyz::artifact::BuildDir;
use apt_vulns_xyz::cli::{Args, Subcommand};
use apt_vulns_xyz::config::{Build, Checksum, Config, Meta};
use apt_vulns_xyz::coordinator::{plan_phase, plan_run, Action, Flags, Phase};
use apt_vulns_xyz::listing::{list_entry, sort_names};

const ABC: &str = "sha256:ba7816bf8f01cfea414140de5dae2223b00361a396177a9cb410ff61f20015ad";

fn trace(skip_fetch: bool, skip_extract: bool, skip_build: bool) -> Vec<Phase> {
    let flags = Flags { skip_fetch, skip_extract, skip_build };
    let mut phases = Vec::new();
    let mut phase = Phase::first(&flags);
    while phase != Phase::Done {
        phases.push(phase);
        assert!(phases.len() <= 6);
        phase = phase.next(&flags);
    }
    assert_eq!(phase.next(&flags), Phase::Done);
    phases
}

#[test]
fn a_full_run_goes_through_every_phase() {
    assert_eq!(
        trace(false, false, false),
        [
            Phase::Fetching,
            Phase::Locking,
            Phase::Extracting,
            Phase::Patching,
            Phase::Building,
            Phase::Verifying
        ]
    );
}

#[test]
fn a_run_with_everything_skipped_still_locks_and_verifies() {
    assert_eq!(trace(true, true, true), [Phase::Locking, Phase::Verifying]);
}

#[test]
fn each_flag_leaves_out_its_phases() {
    assert_eq!(
        trace(true, false, false),
        [Phase::Locking, Phase::Extracting, Phase::Patching, Phase::Building, Phase::Verifying]
    );
    assert_eq!(
        trace(false, true, false),
        [Phase::Fetching, Phase::Locking, Phase::Building, Phase::Verifying]
    );
    assert_eq!(
        trace(false, false, true),
        [Phase::Fetching, Phase::Locking, Phase::Extracting, Phase::Patching, Phase::Verifying]
    );
    assert_eq!(trace(false, true, true), [Phase::Fetching, Phase::Locking, Phase::Verifying]);
    assert_eq!(
        trace(true, false, true),
        [Phase::Locking, Phase::Extracting, Phase::Patching, Phase::Verifying]
    );
    assert_eq!(trace(true, true, false), [Phase::Locking, Phase::Building, Phase::Verifying]);
}

#[test]
fn every_run_locks_before_it_changes_the_build_directory() {
    for bits in 0..8u8 {
        let phases = trace(bits & 1 != 0, bits & 2 != 0, bits & 4 != 0);
        let lock = phases.iter().position(|p| *p == Phase::Locking).unwrap();
        let verify = phases.iter().position(|p| *p == Phase::Verifying).unwrap();
        assert_eq!(verify, phases.len() - 1);
        for (i, p) in phases.iter().enumerate() {
            if matches!(p, Phase::Extracting | Phase::Patching | Phase::Building) {
                assert!(lock < i && i < verify);
            }
        }
    }
}

#[test]
fn log_filter_by_verbosity() {
    let args = |verbose| Args { verbose, subcommand: Subcommand::List };
    assert_eq!(args(0).log_filter(), "apt_vulns_xyz=info");
    assert_eq!(args(1).log_filter(), "apt_vulns_xyz=debug");
    assert_eq!(args(2).log_filter(), "debug");
    assert_eq!(args(255).log_filter(), "debug");
}

#[test]
fn names_are_sorted_by_code_point() {
    let names = vec!["baz", "bar", "Zed", "ba", "é", "bar", "a-b", "a"];
    let sorted = sort_names(names.iter().map(|n| n.to_string()).collect());
    assert_eq!(sorted, ["Zed", "a", "a-b", "ba", "bar", "bar", "baz", "é"]);
    assert!(sort_names(Vec::new()).is_empty());
}

fn package(rules: &[(&str, &str)]) -> Config {
    Config {
        meta: Meta {
            repo: "https://example.com/pkg.git".to_string(),
            version: "0.3.1".to_string(),
            suffix: "+b1".to_string(),
            checkout: None,
            patches: Vec::new(),
        },
        checksums: rules
            .iter()
            .map(|(p, c)| Checksum { path: p.to_string(), checksum: c.to_string() })
            .collect(),
        build: Build { cmd: "make".to_string() },
    }
}

#[test]
fn scenario_list_of_bar_and_baz() {
    let bar = package(&[]);
    let baz = package(&[("out/baz.deb", ABC)]);
    let mut baz_dir = BuildDir::new();
    baz_dir.insert("out/baz.deb".to_string(), b"abc".to_vec());
    let names = sort_names(vec!["baz".to_string(), "bar".to_string()]);
    assert_eq!(names, ["bar", "baz"]);
    let entries: Vec<_> = names
        .iter()
        .map(|name| {
            if name == "bar" {
                list_entry(name, &bar, &BuildDir::new())
            } else {
                list_entry(name, &baz, &baz_dir)
            }
        })
        .collect();
    assert_eq!(entries[0].name, "bar");
    assert!(!entries[0].built);
    assert_eq!(entries[0].marker(), "");
    assert_eq!(entries[1].name, "baz");
    assert!(entries[1].built);
    assert_eq!(entries[1].marker(), "[built]");
    assert_eq!(entries[1].version, "0.3.1");
    assert_eq!(entries[1].suffix, "+b1");
    assert_eq!(entries[1].repo, "https://example.com/pkg.git");
}

#[test]
fn list_entry_of_a_package_that_fails_verification() {
    let config = package(&[("out/baz.deb", ABC)]);
    let mut dir = BuildDir::new();
    dir.insert("out/baz.deb".to_string(), b"other".to_vec());
    let entry = list_entry("baz", &config, &dir);
    assert!(!entry.built);
    assert_eq!(entry.marker(), "");
}

fn sample() -> Config {
    Config {
        meta: Meta {
            repo: "https://example.com/foo.git".to_string(),
            version: "1.2.0".to_string(),
            suffix: "-1".to_string(),
            checkout: Some("main".to_string()),
            patches: vec!["a.patch".to_string(), "b.patch".to_string()],
        },
        checksums: Vec::new(),
        build: Build { cmd: "make deb".to_string() },
    }
}

fn show(action: &Action) -> String {
    match action {
        Action::Run(c) => format!("run {} {}", c.program, c.args.join(" ")),
        Action::CreateDir(p) => format!("mkdir {}", p),
        Action::Lock(p) => format!("lock {}", p),
        Action::RemoveDir(p) => format!("rmdir {}", p),
        Action::Unpack { command, into } => {
            format!("unpack {} {} into {}", command.program, command.args.join(" "), into)
        }
        Action::Verify => "verify".to_string(),
    }
}

fn shown(actions: &[Action]) -> Vec<String> {
    actions.iter().map(show).collect()
}

#[test]
fn a_full_run_of_a_new_package() {
    let mut config = sample();
    let flags = Flags { skip_fetch: false, skip_extract: false, skip_build: false };
    let actions = plan_run(&flags, "foo", &mut config, false);
    assert_eq!(
        shown(&actions),
        [
            "run git init --bare -qb main sources/foo",
            "run git -C sources/foo remote add origin https://example.com/foo.git",
            "run git -C sources/foo fetch origin",
            "mkdir build/foo",
            "lock build/",
            "rmdir build/foo",
            "unpack git -C sources/foo -c core.abbrev=no archive --format tar main into build/foo",
            "run patch --forward --strip=1 -i ../../pkgs/foo/a.patch",
            "run patch --forward --strip=1 -i ../../pkgs/foo/b.patch",
            "run repro-env build --env DEB_VERSION=1.2.0-1 -f ../../pkgs/foo/repro-env.lock -- sh -c make deb",
            "verify",
        ]
    );
    assert_eq!(config.meta.checkout, None);
    assert_eq!(config.meta.patches, ["a.patch", "b.patch"]);
}

#[test]
fn a_run_with_everything_skipped_plans_lock_and_verification() {
    let mut config = sample();
    let flags = Flags { skip_fetch: true, skip_extract: true, skip_build: true };
    let actions = plan_run(&flags, "foo", &mut config, true);
    assert_eq!(shown(&actions), ["mkdir build/foo", "lock build/", "verify"]);
    assert_eq!(config.meta.checkout.as_deref(), Some("main"));
}

#[test]
fn a_run_without_extraction_keeps_the_checkout_and_builds() {
    let mut config = sample();
    let flags = Flags { skip_fetch: false, skip_extract: true, skip_build: false };
    let actions = plan_run(&flags, "foo", &mut config, true);
    assert_eq!(
        shown(&actions),
        [
            "run git -C sources/foo fetch origin",
            "mkdir build/foo",
            "lock build/",
            "run repro-env build --env DEB_VERSION=1.2.0-1 -f ../../pkgs/foo/repro-env.lock -- sh -c make deb",
            "verify",
        ]
    );
    assert_eq!(config.meta.checkout.as_deref(), Some("main"));
}

#[test]
fn every_planned_run_locks_before_it_touches_the_build_directory() {
    for bits in 0..16u8 {
        let mut config = sample();
        let flags =
            Flags { skip_fetch: bits & 1 != 0, skip_extract: bits & 2 != 0, skip_build: bits & 4 != 0 };
        let actions = plan_run(&flags, "foo", &mut config, bits & 8 != 0);
        let lock = actions.iter().position(|a| matches!(a, Action::Lock(_))).unwrap();
        assert_eq!(actions.iter().filter(|a| matches!(a, Action::Lock(_))).count(), 1);
        assert!(matches!(actions.last(), Some(Action::Verify)));
        for (i, action) in actions.iter().enumerate() {
            let touches = match action {
                Action::RemoveDir(_) | Action::Unpack { .. } => true,
                Action::Run(c) => c.dir.is_some(),
                _ => false,
            };
            if touches {
                assert!(lock < i);
            }
        }
    }
}

#[test]
fn the_actions_of_each_phase() {
    let mut config = sample();
    assert_eq!(
        shown(&plan_phase(Phase::Fetching, "foo", &mut config, true)),
        ["run git -C sources/foo fetch origin"]
    );
    assert_eq!(
        shown(&plan_phase(Phase::Locking, "foo", &mut config, true)),
        ["mkdir build/foo", "lock build/"]
    );
    assert_eq!(
        shown(&plan_phase(Phase::Patching, "foo", &mut config, true)),
        [
            "run patch --forward --strip=1 -i ../../pkgs/foo/a.patch",
            "run patch --forward --strip=1 -i ../../pkgs/foo/b.patch"
        ]
    );
    assert_eq!(shown(&plan_phase(Phase::Verifying, "foo", &mut config, true)), ["verify"]);
    assert!(plan_phase(Phase::Done, "foo", &mut config, true).is_empty());
    assert_eq!(config.meta.checkout.as_deref(), Some("main"));
    assert_eq!(
        shown(&plan_phase(Phase::Extracting, "foo", &mut config, true)),
        [
            "rmdir build/foo",
            "unpack git -C sources/foo -c core.abbrev=no archive --format tar main into build/foo"
        ]
    );
    assert_eq!(config.meta.checkout, None);
    assert_eq!(
        shown(&plan_phase(Phase::Extracting, "foo", &mut config, true))[1],
        "unpack git -C sources/foo -c core.abbrev=no archive --format tar v1.2.0 into build/foo"
    );
    assert!(Phase::Locking.is_run(&Flags { skip_fetch: true, skip_extract: true, skip_build: true }));
    assert!(!Phase::Patching.is_run(&Flags { skip_fetch: false, skip_extract: true, skip_build: false }));
    assert_eq!(Phase::Patching.following(), Phase::Building);
    assert_eq!(Phase::Done.following(), Phase::Done);
}
