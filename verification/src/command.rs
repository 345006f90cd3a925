//! The command lines handed to the external tools, as plain values: nothing
//! here runs a program.

use crate::config::{Config, ConfigView, MetaView};
use crate::text::{join, optional_text, text, texts};
use crate::error::{status_to_err, unit_result_view, RunError, RunErrorView};
use vstd::prelude::*;

verus! {

/// One invocation of an external tool.
#[derive(Debug)]
pub struct Command {
    /// The program to run.
    pub program: String,
    /// Its arguments, in order.
    pub args: Vec<String>,
    /// The directory to run it in, relative to the working root; `None` for
    /// the working root itself.
    pub dir: Option<String>,
    /// The label under which an unsuccessful exit is reported as an error;
    /// `None` where the exit status is not looked at.
    pub check: Option<String>,
}

/// The mathematical value of a [`Command`].
pub ghost struct CommandView {
    pub program: Seq<char>,
    pub args: Seq<Seq<char>>,
    pub dir: Option<Seq<char>>,
    pub check: Option<Seq<char>>,
}

impl View for Command {
    type V = CommandView;

    open spec fn view(&self) -> CommandView {
        CommandView {
            program: self.program@,
            args: texts(self.args@),
            dir: optional_text(self.dir),
            check: optional_text(self.check),
        }
    }
}

/// The views of a sequence of commands.
pub open spec fn commands_of(commands: Seq<Command>) -> Seq<CommandView> {
    Seq::new(commands.len(), |i: int| commands[i]@)
}

/// The bare mirror of a package's source repository.
pub open spec fn mirror_path_of(name: Seq<char>) -> Seq<char> {
    "sources/"@ + name
}

/// The build directory of a package.
pub open spec fn build_path_of(name: Seq<char>) -> Seq<char> {
    "build/"@ + name
}

/// The definition file of a package.
pub open spec fn definition_path_of(name: Seq<char>) -> Seq<char> {
    "pkgs/"@ + name + "/build.toml"@
}

/// A file beside the definition of a package, as seen from its build
/// directory.
pub open spec fn package_file_of(name: Seq<char>, file: Seq<char>) -> Seq<char> {
    "../../pkgs/"@ + name + "/"@ + file
}

/// `git init --bare -qb main <mirror>`.
pub open spec fn init_command(mirror: Seq<char>) -> CommandView {
    CommandView {
        program: "git"@,
        args: seq!["init"@, "--bare"@, "-qb"@, "main"@, mirror],
        dir: None,
        check: Some("git"@),
    }
}

/// `git -C <mirror> remote add origin <repo>`.
pub open spec fn remote_add_command(mirror: Seq<char>, repo: Seq<char>) -> CommandView {
    CommandView {
        program: "git"@,
        args: seq!["-C"@, mirror, "remote"@, "add"@, "origin"@, repo],
        dir: None,
        check: Some("git"@),
    }
}

/// `git -C <mirror> fetch origin`.
pub open spec fn fetch_command(mirror: Seq<char>) -> CommandView {
    CommandView {
        program: "git"@,
        args: seq!["-C"@, mirror, "fetch"@, "origin"@],
        dir: None,
        check: Some("git"@),
    }
}

/// The commands that bring the mirror of a package up to date: where there
/// is no mirror yet it is created and its remote registered; then all refs are
/// fetched.
pub open spec fn fetch_commands(name: Seq<char>, repo: Seq<char>, mirror_exists: bool) -> Seq<
    CommandView,
> {
    let mirror = mirror_path_of(name);
    if mirror_exists {
        seq![fetch_command(mirror)]
    } else {
        seq![init_command(mirror), remote_add_command(mirror, repo), fetch_command(mirror)]
    }
}

/// Where the mirror exists, the fetch step neither creates it nor registers
/// its remote again: it is the one fetch command, however often it is planned.
pub proof fn existing_mirror_is_only_fetched(name: Seq<char>, repo: Seq<char>)
    ensures
        fetch_commands(name, repo, true) == seq![fetch_command(mirror_path_of(name))],
{
}

/// `git -C <mirror> -c core.abbrev=no archive --format tar <checkout>`: the
/// tree of `checkout` as a tar stream on the tool's standard output.
pub open spec fn archive_command(name: Seq<char>, checkout: Seq<char>) -> CommandView {
    CommandView {
        program: "git"@,
        args: seq![
            "-C"@,
            mirror_path_of(name),
            "-c"@,
            "core.abbrev=no"@,
            "archive"@,
            "--format"@,
            "tar"@,
            checkout,
        ],
        dir: None,
        check: Some("git-archive"@),
    }
}

/// `patch --forward --strip=1 -i ../../pkgs/<name>/<patch>`, run in the build
/// directory. Its exit status is not looked at.
pub open spec fn patch_command(name: Seq<char>, patch: Seq<char>) -> CommandView {
    CommandView {
        program: "patch"@,
        args: seq!["--forward"@, "--strip=1"@, "-i"@, package_file_of(name, patch)],
        dir: Some(build_path_of(name)),
        check: None,
    }
}

/// One patch command for each patch, in the declared order.
pub open spec fn patch_commands_of(name: Seq<char>, patches: Seq<Seq<char>>) -> Seq<CommandView> {
    Seq::new(patches.len(), |i: int| patch_command(name, patches[i]))
}

/// `repro-env build --env DEB_VERSION=<version><suffix> -f
/// ../../pkgs/<name>/repro-env.lock -- sh -c <cmd>`, run in the build
/// directory. Its exit status is not looked at.
pub open spec fn build_command_of(name: Seq<char>, config: ConfigView) -> CommandView {
    CommandView {
        program: "repro-env"@,
        args: seq![
            "build"@,
            "--env"@,
            "DEB_VERSION="@ + config.meta.full_version(),
            "-f"@,
            package_file_of(name, "repro-env.lock"@),
            "--"@,
            "sh"@,
            "-c"@,
            config.cmd,
        ],
        dir: Some(build_path_of(name)),
        check: None,
    }
}

/// The path of the bare mirror of the package `name`.
pub fn mirror_path(name: &str) -> (path: String)
    ensures
        path@ == mirror_path_of(name@),
{
    join("sources/", name)
}

/// The path of the build directory of the package `name`.
pub fn build_path(name: &str) -> (path: String)
    ensures
        path@ == build_path_of(name@),
{
    join("build/", name)
}

/// The path of the definition file of the package `name`.
pub fn definition_path(name: &str) -> (path: String)
    ensures
        path@ == definition_path_of(name@),
{
    let head = join("pkgs/", name);
    join(head.as_str(), "/build.toml")
}

/// The path, as seen from the build directory of the package `name`, of a
/// file that lies beside its definition.
pub fn package_file(name: &str, file: &str) -> (path: String)
    ensures
        path@ == package_file_of(name@, file@),
{
    let head = join("../../pkgs/", name);
    let dir = join(head.as_str(), "/");
    join(dir.as_str(), file)
}

impl Command {
    /// Turns the exit status of this command into a result: an unsuccessful
    /// exit is an error exactly where the command is checked.
    pub fn conclude(&self, success: bool) -> (result: Result<(), RunError>)
        ensures
            unit_result_view(result) == match self@.check {
                Some(label) if !success => Err::<(), RunErrorView>(RunErrorView::Tool(label)),
                _ => Ok::<(), RunErrorView>(()),
            },
    {
        match &self.check {
            Some(label) => status_to_err(label.as_str(), success),
            None => Ok(()),
        }
    }
}

/// The commands of the fetch step for the package `name`, given whether its
/// mirror exists already. Each must succeed before the next is run.
pub fn prepare_source(name: &str, config: &Config, mirror_exists: bool) -> (commands: Vec<Command>)
    ensures
        commands_of(commands@) == fetch_commands(name@, config@.meta.repo, mirror_exists),
{
    let mut commands: Vec<Command> = Vec::new();
    if !mirror_exists {
        let init = Command {
            program: text("git"),
            args: vec![text("init"), text("--bare"), text("-qb"), text("main"), mirror_path(name)],
            dir: None,
            check: Some(text("git")),
        };
        assert(init@.args =~= init_command(mirror_path_of(name@)).args);
        commands.push(init);
        let remote = Command {
            program: text("git"),
            args: vec![
                text("-C"),
                mirror_path(name),
                text("remote"),
                text("add"),
                text("origin"),
                config.meta.repo.clone(),
            ],
            dir: None,
            check: Some(text("git")),
        };
        assert(remote@.args =~= remote_add_command(mirror_path_of(name@), config@.meta.repo).args);
        commands.push(remote);
    }
    let fetch = Command {
        program: text("git"),
        args: vec![text("-C"), mirror_path(name), text("fetch"), text("origin")],
        dir: None,
        check: Some(text("git")),
    };
    assert(fetch@.args =~= fetch_command(mirror_path_of(name@)).args);
    commands.push(fetch);
    assert(commands_of(commands@) =~= fetch_commands(name@, config@.meta.repo, mirror_exists));
    commands
}

/// The command of the extract step for the package `name`: it writes the tree
/// of the checkout ref as a tar stream, to be unpacked into the (empty) build
/// directory. The explicit checkout ref of the definition is used up: it is
/// absent afterwards, and nothing else changes.
pub fn extract_source(name: &str, config: &mut Config) -> (command: Command)
    ensures
        command@ == archive_command(name@, old(config)@.meta.checkout_ref()),
        final(config)@ == (ConfigView {
            meta: MetaView { checkout: None, ..old(config)@.meta },
            ..old(config)@
        }),
{
    let checkout = match config.meta.checkout.take() {
        Some(checkout) => checkout,
        None => join("v", config.meta.version.as_str()),
    };
    let command = Command {
        program: text("git"),
        args: vec![
            text("-C"),
            mirror_path(name),
            text("-c"),
            text("core.abbrev=no"),
            text("archive"),
            text("--format"),
            text("tar"),
            checkout,
        ],
        dir: None,
        check: Some(text("git-archive")),
    };
    assert(command@.args =~= archive_command(name@, old(config)@.meta.checkout_ref()).args);
    command
}

/// The commands that apply the patches of the package `name`, in the declared
/// order, each in the build directory.
pub fn patch_commands(name: &str, config: &Config) -> (commands: Vec<Command>)
    ensures
        commands_of(commands@) == patch_commands_of(name@, config@.meta.patches),
{
    let mut commands: Vec<Command> = Vec::new();
    let mut i: usize = 0;
    while i < config.meta.patches.len()
        invariant
            i <= config.meta.patches.len(),
            commands@.len() == i,
            forall|j: int|
                0 <= j < i ==> (#[trigger] commands@[j])@ == patch_command(
                    name@,
                    config.meta.patches@[j]@,
                ),
        decreases config.meta.patches.len() - i,
    {
        let command = Command {
            program: text("patch"),
            args: vec![
                text("--forward"),
                text("--strip=1"),
                text("-i"),
                package_file(name, config.meta.patches[i].as_str()),
            ],
            dir: Some(build_path(name)),
            check: None,
        };
        assert(command@.args =~= patch_command(name@, config.meta.patches@[i as int]@).args);
        commands.push(command);
        i = i + 1;
    }
    assert(commands_of(commands@) =~= patch_commands_of(name@, config@.meta.patches));
    commands
}

/// The command of the build step for the package `name`.
pub fn build_command(name: &str, config: &Config) -> (command: Command)
    ensures
        command@ == build_command_of(name@, config@),
{
    let version = join(config.meta.version.as_str(), config.meta.suffix.as_str());
    let command = Command {
        program: text("repro-env"),
        args: vec![
            text("build"),
            text("--env"),
            join("DEB_VERSION=", version.as_str()),
            text("-f"),
            package_file(name, "repro-env.lock"),
            text("--"),
            text("sh"),
            text("-c"),
            config.build.cmd.clone(),
        ],
        dir: Some(build_path(name)),
        check: None,
    };
    assert(command@.args =~= build_command_of(name@, config@).args);
    command
}

} // verus!
