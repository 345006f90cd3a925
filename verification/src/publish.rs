//! Publishing: handing the artifacts of a built package to the repository
//! manager, and mirroring the repository tree to a remote host.

use crate::artifact::BuildDir;
use crate::command::{build_path, build_path_of, commands_of, Command, CommandView};
use crate::text::{join, text};
use crate::config::{ChecksumView, Config, ConfigView};
use crate::error::{RunError, RunErrorView};
use crate::status::BuildStatus;
use vstd::prelude::*;

verus! {

/// `reprepro includedeb <distribution> build/<name>/<path>`.
pub open spec fn includedeb_command(
    distribution: Seq<char>,
    name: Seq<char>,
    path: Seq<char>,
) -> CommandView {
    CommandView {
        program: "reprepro"@,
        args: seq!["includedeb"@, distribution, build_path_of(name) + "/"@ + path],
        dir: None,
        check: Some("reprepro"@),
    }
}

/// One `includedeb` command for the artifact of each rule, in the order of
/// the rules.
pub open spec fn includedeb_commands(
    distribution: Seq<char>,
    name: Seq<char>,
    rules: Seq<ChecksumView>,
) -> Seq<CommandView> {
    Seq::new(rules.len(), |i: int| includedeb_command(distribution, name, rules[i].path))
}

/// The commands that add a package to a distribution, and whether they are
/// to be run or only shown.
#[derive(Debug)]
pub struct Inclusion {
    /// The commands, in order; each must succeed before the next is run.
    pub commands: Vec<Command>,
    /// `false` in a dry run: the commands are shown and none is run.
    pub execute: bool,
}

/// What [`include_package`] returns for a package with the given status.
pub open spec fn inclusion_of(
    distribution: Seq<char>,
    name: Seq<char>,
    config: ConfigView,
    status: BuildStatus,
    dry_run: bool,
) -> Result<(Seq<CommandView>, bool), RunErrorView> {
    if status == BuildStatus::Built {
        Ok((includedeb_commands(distribution, name, config.checksums), !dry_run))
    } else {
        Err(RunErrorView::Precondition)
    }
}

/// The view of the result of [`include_package`].
pub open spec fn inclusion_view(result: Result<Inclusion, RunError>) -> Result<
    (Seq<CommandView>, bool),
    RunErrorView,
> {
    match result {
        Ok(plan) => Ok((commands_of(plan.commands@), plan.execute)),
        Err(e) => Err(e@),
    }
}

/// Plans the addition of the artifacts of the package `name` to
/// `distribution`. The package must be built: with any other status of its
/// build directory this is a precondition error and there is no command.
pub fn include_package(
    distribution: &str,
    name: &str,
    config: &Config,
    dir: &BuildDir,
    dry_run: bool,
) -> (result: Result<Inclusion, RunError>)
    ensures
        inclusion_view(result) == inclusion_of(
            distribution@,
            name@,
            config@,
            config@.status(dir@),
            dry_run,
        ),
{
    if !config.build_status(dir).is_built() {
        return Err(RunError::Precondition);
    }
    let mut commands: Vec<Command> = Vec::new();
    let mut i: usize = 0;
    while i < config.checksums.len()
        invariant
            i <= config.checksums.len(),
            commands@.len() == i,
            forall|j: int|
                0 <= j < i ==> (#[trigger] commands@[j])@ == includedeb_command(
                    distribution@,
                    name@,
                    config.checksums@[j]@.path,
                ),
        decreases config.checksums.len() - i,
    {
        let base = build_path(name);
        let prefix = join(base.as_str(), "/");
        let command = Command {
            program: text("reprepro"),
            args: vec![
                text("includedeb"),
                text(distribution),
                join(prefix.as_str(), config.checksums[i].path.as_str()),
            ],
            dir: None,
            check: Some(text("reprepro")),
        };
        assert(command@.args =~= includedeb_command(
            distribution@,
            name@,
            config.checksums@[i as int]@.path,
        ).args);
        commands.push(command);
        i = i + 1;
    }
    assert(commands_of(commands@) =~= includedeb_commands(
        distribution@,
        name@,
        config@.checksums,
    ));
    Ok(Inclusion { commands, execute: !dry_run })
}

/// The flags of every sync command: in a dry run the tool is told to
/// transfer nothing.
pub open spec fn sync_flags(dry_run: bool) -> Seq<char> {
    if dry_run {
        "-avhPicn"@
    } else {
        "-avhPi"@
    }
}

/// `rsync <flags> [--delete] -- <source> <target>/<destination>`.
pub open spec fn sync_command(
    dry_run: bool,
    delete: bool,
    source: Seq<char>,
    target: Seq<char>,
    destination: Seq<char>,
) -> CommandView {
    let remote = target + "/"@ + destination;
    CommandView {
        program: "rsync"@,
        args: if delete {
            seq![sync_flags(dry_run), "--delete"@, "--"@, source, remote]
        } else {
            seq![sync_flags(dry_run), "--"@, source, remote]
        },
        dir: None,
        check: Some("rsync"@),
    }
}

/// The five sync commands that mirror the repository to `target`: the pool
/// without deletion, the index tree with deletion, the pool again with
/// deletion, the index page and the signing key.
pub open spec fn publish_commands(dry_run: bool, target: Seq<char>) -> Seq<CommandView> {
    seq![
        sync_command(dry_run, false, "pool/"@, target, "pool"@),
        sync_command(dry_run, true, "dists/"@, target, "dists"@),
        sync_command(dry_run, true, "pool/"@, target, "pool"@),
        sync_command(dry_run, false, "index.html"@, target, ""@),
        sync_command(dry_run, false, "kpcyrd.pgp"@, target, ""@),
    ]
}

/// One sync command.
pub fn sync(dry_run: bool, delete: bool, source: &str, target: &str, destination: &str) -> (command:
    Command)
    ensures
        command@ == sync_command(dry_run, delete, source@, target@, destination@),
{
    let flags = if dry_run {
        text("-avhPicn")
    } else {
        text("-avhPi")
    };
    let base = join(target, "/");
    let remote = join(base.as_str(), destination);
    let args = if delete {
        vec![flags, text("--delete"), text("--"), text(source), remote]
    } else {
        vec![flags, text("--"), text(source), remote]
    };
    let command = Command { program: text("rsync"), args, dir: None, check: Some(text("rsync")) };
    assert(command@.args =~= sync_command(dry_run, delete, source@, target@, destination@).args);
    command
}

/// The commands that mirror the repository to `target`, in order; each must
/// succeed before the next is run.
pub fn publish(dry_run: bool, target: &str) -> (commands: Vec<Command>)
    ensures
        commands_of(commands@) == publish_commands(dry_run, target@),
{
    let commands = vec![
        sync(dry_run, false, "pool/", target, "pool"),
        sync(dry_run, true, "dists/", target, "dists"),
        sync(dry_run, true, "pool/", target, "pool"),
        sync(dry_run, false, "index.html", target, ""),
        sync(dry_run, false, "kpcyrd.pgp", target, ""),
    ];
    assert(commands_of(commands@) =~= publish_commands(dry_run, target@));
    commands
}

} // verus!
