use apt_vulns_xyz::artifact::BuildDir;
use apt_vulns_xyz::command::Command;
use apt_vulns_xyz::config::{Build, Checksum, Config, Meta};
use apt_vulns_xyz::error::RunError;
use apt_vulns_xyz::publish::{include_package, publish, sync};

const EMPTY: &str = "sha256:e3b0c44298fc1c149afbf4c8996fb92427ae41e4649b934ca495991b7852b855";
const ABC: &str = "sha256:ba7816bf8f01cfea414140de5dae2223b00361a396177a9cb410ff61f20015ad";

fn package(rules: &[(&str, &str)]) -> Config {
    Config {
        meta: Meta {
            repo: "r".to_string(),
            version: "1".to_string(),
            suffix: String::new(),
            checkout: None,
            patches: Vec::new(),
        },
        checksums: rules
            .iter()
            .map(|(p, c)| Checksum { path: p.to_string(), checksum: c.to_string() })
            .collect(),
        build: Build { cmd: "make".to_string() },
    }
}

fn line(command: &Command) -> Vec<&str> {
    let mut line = vec![command.program.as_str()];
    line.extend(command.args.iter().map(|a| a.as_str()));
    line
}

#[test]
fn include_of_a_built_package() {
    let config = package(&[("out/foo.deb", ABC), ("out/foo-dbg.deb", EMPTY)]);
    let mut dir = BuildDir::new();
    dir.insert("out/foo.deb".to_string(), b"abc".to_vec());
    dir.insert("out/foo-dbg.deb".to_string(), Vec::new());
    let plan = include_package("stable", "foo", &config, &dir, false).unwrap();
    assert!(plan.execute);
    assert_eq!(plan.commands.len(), 2);
    assert_eq!(line(&plan.commands[0]), ["reprepro", "includedeb", "stable", "build/foo/out/foo.deb"]);
    assert_eq!(
        line(&plan.commands[1]),
        ["reprepro", "includedeb", "stable", "build/foo/out/foo-dbg.deb"]
    );
    for c in &plan.commands {
        assert_eq!(c.dir, None);
        assert_eq!(c.check.as_deref(), Some("reprepro"));
    }
}

#[test]
fn include_in_a_dry_run_runs_nothing() {
    let config = package(&[("out/foo.deb", ABC)]);
    let mut dir = BuildDir::new();
    dir.insert("out/foo.deb".to_string(), b"abc".to_vec());
    let plan = include_package("stable", "foo", &config, &dir, true).unwrap();
    assert!(!plan.execute);
    assert_eq!(plan.commands.len(), 1);
    assert_eq!(line(&plan.commands[0]), ["reprepro", "includedeb", "stable", "build/foo/out/foo.deb"]);
}

#[test]
fn include_of_an_unbuilt_package_is_refused() {
    let config = package(&[("out/foo.deb", ABC), ("out/foo.changes", EMPTY)]);
    let mut dir = BuildDir::new();
    dir.insert("out/foo.deb".to_string(), b"abc".to_vec());
    for dry_run in [false, true] {
        match include_package("stable", "foo", &config, &dir, dry_run) {
            Err(RunError::Precondition) => {}
            other => panic!("unexpected {:?}", other),
        }
    }
}

#[test]
fn include_of_a_mismatching_package_is_refused() {
    let config = package(&[("out/foo.deb", ABC)]);
    let mut dir = BuildDir::new();
    dir.insert("out/foo.deb".to_string(), b"other".to_vec());
    assert!(matches!(
        include_package("stable", "foo", &config, &dir, false),
        Err(RunError::Precondition)
    ));
}

#[test]
fn include_of_a_package_without_rules_is_refused() {
    let config = package(&[]);
    assert!(matches!(
        include_package("stable", "foo", &config, &BuildDir::new(), false),
        Err(RunError::Precondition)
    ));
}

#[test]
fn publish_runs_five_syncs_in_order() {
    let commands = publish(false, "apt:/var/www/html/");
    let lines: Vec<Vec<&str>> = commands.iter().map(line).collect();
    assert_eq!(
        lines,
        vec![
            vec!["rsync", "-avhPi", "--", "pool/", "apt:/var/www/html//pool"],
            vec!["rsync", "-avhPi", "--delete", "--", "dists/", "apt:/var/www/html//dists"],
            vec!["rsync", "-avhPi", "--delete", "--", "pool/", "apt:/var/www/html//pool"],
            vec!["rsync", "-avhPi", "--", "index.html", "apt:/var/www/html//"],
            vec!["rsync", "-avhPi", "--", "kpcyrd.pgp", "apt:/var/www/html//"],
        ]
    );
    for c in &commands {
        assert_eq!(c.dir, None);
        assert_eq!(c.check.as_deref(), Some("rsync"));
    }
}

#[test]
fn publish_in_a_dry_run_tells_the_tool_so() {
    let commands = publish(true, "host:/srv");
    let lines: Vec<Vec<&str>> = commands.iter().map(line).collect();
    assert_eq!(
        lines,
        vec![
            vec!["rsync", "-avhPicn", "--", "pool/", "host:/srv/pool"],
            vec!["rsync", "-avhPicn", "--delete", "--", "dists/", "host:/srv/dists"],
            vec!["rsync", "-avhPicn", "--delete", "--", "pool/", "host:/srv/pool"],
            vec!["rsync", "-avhPicn", "--", "index.html", "host:/srv/"],
            vec!["rsync", "-avhPicn", "--", "kpcyrd.pgp", "host:/srv/"],
        ]
    );
}

#[test]
fn sync_of_one_path() {
    assert_eq!(line(&sync(false, true, "a/", "t", "a")), ["rsync", "-avhPi", "--delete", "--", "a/", "t/a"]);
    assert_eq!(line(&sync(true, false, "a/", "t", "")), ["rsync", "-avhPicn", "--", "a/", "t/"]);
}
