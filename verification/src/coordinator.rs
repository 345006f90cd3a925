//! The phases of a build run and the order in which they are gone through.

use crate::command::{
    archive_command, build_command, build_command_of, build_path, build_path_of, commands_of,
    extract_source, fetch_commands, patch_commands, patch_commands_of, prepare_source, Command,
    CommandView,
};
use crate::config::{Config, ConfigView, MetaView};
use crate::text::text;
use vstd::prelude::*;

verus! {

/// A phase of a build run, in the order of the declaration.
#[derive(Clone, Copy, Debug, PartialEq, Eq, Structural)]
pub enum Phase {
    /// The mirror of the source repository is brought up to date.
    Fetching,
    /// The build directory is created and the lock on the build root taken.
    Locking,
    /// The build directory is removed and the checkout ref extracted into it.
    Extracting,
    /// The patches are applied.
    Patching,
    /// The build tool is run.
    Building,
    /// The artifacts are verified against the checksum rules.
    Verifying,
    /// Nothing is left to do.
    Done,
}

/// The phases that the caller asked to leave out.
#[derive(Clone, Copy, Debug)]
pub struct Flags {
    pub skip_fetch: bool,
    /// Leaves out extracting and patching.
    pub skip_extract: bool,
    pub skip_build: bool,
}

impl Phase {
    /// The position of the phase in the order of a run.
    pub open spec fn rank(self) -> nat {
        match self {
            Phase::Fetching => 0,
            Phase::Locking => 1,
            Phase::Extracting => 2,
            Phase::Patching => 3,
            Phase::Building => 4,
            Phase::Verifying => 5,
            Phase::Done => 6,
        }
    }

    /// Whether a run with these flags goes through the phase. Locking and
    /// verifying cannot be left out.
    pub open spec fn runs(self, flags: Flags) -> bool {
        match self {
            Phase::Fetching => !flags.skip_fetch,
            Phase::Extracting | Phase::Patching => !flags.skip_extract,
            Phase::Building => !flags.skip_build,
            Phase::Locking | Phase::Verifying | Phase::Done => true,
        }
    }

    /// Whether the phase changes the build directory.
    pub open spec fn destructive(self) -> bool {
        self == Phase::Extracting || self == Phase::Patching || self == Phase::Building
    }

    /// The phase that follows in the order, whether it runs or not.
    pub open spec fn successor(self) -> Phase {
        match self {
            Phase::Fetching => Phase::Locking,
            Phase::Locking => Phase::Extracting,
            Phase::Extracting => Phase::Patching,
            Phase::Patching => Phase::Building,
            Phase::Building => Phase::Verifying,
            Phase::Verifying | Phase::Done => Phase::Done,
        }
    }

    /// The first phase, from this one on, that a run with these flags goes
    /// through.
    pub open spec fn skip_to_running(self, flags: Flags) -> Phase
        decreases 6 - self.rank(),
    {
        if self.runs(flags) {
            self
        } else {
            self.successor().skip_to_running(flags)
        }
    }

    /// The phase a run starts in.
    pub open spec fn spec_first(flags: Flags) -> Phase {
        Phase::Fetching.skip_to_running(flags)
    }

    /// The phase that a run enters when this one is completed.
    pub open spec fn spec_next(self, flags: Flags) -> Phase {
        self.successor().skip_to_running(flags)
    }

    /// Whether a run with these flags goes through the phase.
    pub fn is_run(self, flags: &Flags) -> (runs: bool)
        ensures
            runs == self.runs(*flags),
    {
        match self {
            Phase::Fetching => !flags.skip_fetch,
            Phase::Extracting | Phase::Patching => !flags.skip_extract,
            Phase::Building => !flags.skip_build,
            Phase::Locking | Phase::Verifying | Phase::Done => true,
        }
    }

    /// The phase that follows in the order, whether it runs or not.
    pub fn following(self) -> (phase: Phase)
        ensures
            phase == self.successor(),
    {
        match self {
            Phase::Fetching => Phase::Locking,
            Phase::Locking => Phase::Extracting,
            Phase::Extracting => Phase::Patching,
            Phase::Patching => Phase::Building,
            Phase::Building => Phase::Verifying,
            Phase::Verifying | Phase::Done => Phase::Done,
        }
    }

    /// The phase a run starts in.
    pub fn first(flags: &Flags) -> (phase: Phase)
        ensures
            phase == Phase::spec_first(*flags),
    {
        proof {
            next_by_cases(Phase::Done, *flags);
        }
        if flags.skip_fetch {
            Phase::Locking
        } else {
            Phase::Fetching
        }
    }

    /// The phase that a run enters when this one is completed. A phase that
    /// fails is not completed: the run ends there with its error.
    pub fn next(self, flags: &Flags) -> (phase: Phase)
        ensures
            phase == self.spec_next(*flags),
    {
        proof {
            next_by_cases(self, *flags);
        }
        match self {
            Phase::Fetching => Phase::Locking,
            Phase::Locking => if !flags.skip_extract {
                Phase::Extracting
            } else if !flags.skip_build {
                Phase::Building
            } else {
                Phase::Verifying
            },
            Phase::Extracting => if !flags.skip_extract {
                Phase::Patching
            } else if !flags.skip_build {
                Phase::Building
            } else {
                Phase::Verifying
            },
            Phase::Patching => if !flags.skip_build {
                Phase::Building
            } else {
                Phase::Verifying
            },
            Phase::Building => Phase::Verifying,
            Phase::Verifying | Phase::Done => Phase::Done,
        }
    }
}

/// One thing that a build run does to the world.
#[derive(Debug)]
pub enum Action {
    /// Run the command and wait for it to end.
    Run(Command),
    /// Create the directory, and its parents, where they do not exist.
    CreateDir(String),
    /// Take the exclusive lock on the directory, waiting for as long as
    /// another run holds it, and keep it until this run ends.
    Lock(String),
    /// Remove the directory with everything in it.
    RemoveDir(String),
    /// Run the command and unpack the tar stream that it writes into the
    /// directory `into`.
    Unpack { command: Command, into: String },
    /// Read the artifacts that the rules name and verify them.
    Verify,
}

/// The mathematical value of an [`Action`].
pub ghost enum ActionView {
    Run(CommandView),
    CreateDir(Seq<char>),
    Lock(Seq<char>),
    RemoveDir(Seq<char>),
    Unpack { command: CommandView, into: Seq<char> },
    Verify,
}

impl View for Action {
    type V = ActionView;

    open spec fn view(&self) -> ActionView {
        match self {
            Action::Run(command) => ActionView::Run(command@),
            Action::CreateDir(path) => ActionView::CreateDir(path@),
            Action::Lock(path) => ActionView::Lock(path@),
            Action::RemoveDir(path) => ActionView::RemoveDir(path@),
            Action::Unpack { command, into } => ActionView::Unpack {
                command: command@,
                into: into@,
            },
            Action::Verify => ActionView::Verify,
        }
    }
}

/// The views of a sequence of actions.
pub open spec fn actions_view(actions: Seq<Action>) -> Seq<ActionView> {
    Seq::new(actions.len(), |i: int| actions[i]@)
}

/// The build root: the directory that holds every build directory, and the
/// one that is locked.
pub open spec fn build_root() -> Seq<char> {
    "build/"@
}

/// Running each command of a sequence, in order.
pub open spec fn run_each(commands: Seq<CommandView>) -> Seq<ActionView> {
    Seq::new(commands.len(), |i: int| ActionView::Run(commands[i]))
}

/// What a run does in a phase, for the package `name` with the definition
/// `config`, in order. `mirror_exists` says whether the mirror of the source
/// repository is there, and is looked at in the fetching phase only.
pub open spec fn actions_of(
    phase: Phase,
    name: Seq<char>,
    config: ConfigView,
    mirror_exists: bool,
) -> Seq<ActionView> {
    match phase {
        Phase::Fetching => run_each(fetch_commands(name, config.meta.repo, mirror_exists)),
        Phase::Locking => seq![
            ActionView::CreateDir(build_path_of(name)),
            ActionView::Lock(build_root()),
        ],
        Phase::Extracting => seq![
            ActionView::RemoveDir(build_path_of(name)),
            ActionView::Unpack {
                command: archive_command(name, config.meta.checkout_ref()),
                into: build_path_of(name),
            },
        ],
        Phase::Patching => run_each(patch_commands_of(name, config.meta.patches)),
        Phase::Building => seq![ActionView::Run(build_command_of(name, config))],
        Phase::Verifying => seq![ActionView::Verify],
        Phase::Done => Seq::empty(),
    }
}

/// The definition after a phase: extracting uses up the explicit checkout
/// ref, and no other phase changes anything.
pub open spec fn config_after(phase: Phase, config: ConfigView) -> ConfigView {
    if phase == Phase::Extracting {
        ConfigView { meta: MetaView { checkout: None, ..config.meta }, ..config }
    } else {
        config
    }
}

/// One `Run` action for each command, in order.
fn run_all(commands: Vec<Command>) -> (actions: Vec<Action>)
    ensures
        actions_view(actions@) == run_each(commands_of(commands@)),
{
    let ghost all = commands_of(commands@);
    let mut rest = commands;
    let mut actions: Vec<Action> = Vec::new();
    while rest.len() > 0
        invariant
            actions@.len() + rest@.len() == all.len(),
            forall|j: int|
                0 <= j < actions@.len() ==> (#[trigger] actions@[j])@ == ActionView::Run(all[j]),
            forall|j: int|
                0 <= j < rest@.len() ==> (#[trigger] rest@[j])@ == all[actions@.len() + j],
        decreases rest@.len(),
    {
        let command = rest.remove(0);
        actions.push(Action::Run(command));
    }
    assert(actions_view(actions@) =~= run_each(all));
    actions
}

/// What a run does in `phase`, in order. Each action must succeed before
/// the next is taken, except that the exit status of a command counts only
/// where the command is checked.
pub fn plan_phase(phase: Phase, name: &str, config: &mut Config, mirror_exists: bool) -> (actions:
    Vec<Action>)
    ensures
        actions_view(actions@) == actions_of(phase, name@, old(config)@, mirror_exists),
        final(config)@ == config_after(phase, old(config)@),
{
    match phase {
        Phase::Fetching => run_all(prepare_source(name, config, mirror_exists)),
        Phase::Locking => {
            let actions = vec![Action::CreateDir(build_path(name)), Action::Lock(text("build/"))];
            assert(actions_view(actions@) =~= actions_of(
                phase,
                name@,
                old(config)@,
                mirror_exists,
            ));
            actions
        },
        Phase::Extracting => {
            let command = extract_source(name, config);
            let actions = vec![
                Action::RemoveDir(build_path(name)),
                Action::Unpack { command, into: build_path(name) },
            ];
            assert(actions_view(actions@) =~= actions_of(
                phase,
                name@,
                old(config)@,
                mirror_exists,
            ));
            actions
        },
        Phase::Patching => run_all(patch_commands(name, config)),
        Phase::Building => {
            let actions = vec![Action::Run(build_command(name, config))];
            assert(actions_view(actions@) =~= actions_of(
                phase,
                name@,
                old(config)@,
                mirror_exists,
            ));
            actions
        },
        Phase::Verifying => {
            let actions = vec![Action::Verify];
            assert(actions_view(actions@) =~= actions_of(
                phase,
                name@,
                old(config)@,
                mirror_exists,
            ));
            actions
        },
        Phase::Done => {
            let actions: Vec<Action> = Vec::new();
            assert(actions_view(actions@) =~= actions_of(
                phase,
                name@,
                old(config)@,
                mirror_exists,
            ));
            actions
        },
    }
}

/// What a run does from `phase` on: the actions of every phase that the
/// flags do not leave out, in the order of the phases, each phase working on
/// the definition as the phases before it left it.
pub open spec fn run_from(
    phase: Phase,
    flags: Flags,
    name: Seq<char>,
    config: ConfigView,
    mirror_exists: bool,
) -> Seq<ActionView>
    decreases 6 - phase.rank(),
{
    if phase == Phase::Done {
        Seq::empty()
    } else if phase.runs(flags) {
        actions_of(phase, name, config, mirror_exists) + run_from(
            phase.successor(),
            flags,
            name,
            config_after(phase, config),
            mirror_exists,
        )
    } else {
        run_from(phase.successor(), flags, name, config, mirror_exists)
    }
}

/// The definition after every phase from `phase` on.
pub open spec fn config_after_run_from(phase: Phase, flags: Flags, config: ConfigView) -> ConfigView
    decreases 6 - phase.rank(),
{
    if phase == Phase::Done {
        config
    } else if phase.runs(flags) {
        config_after_run_from(phase.successor(), flags, config_after(phase, config))
    } else {
        config_after_run_from(phase.successor(), flags, config)
    }
}

/// Everything that a build run does, in order.
pub open spec fn run_actions(
    flags: Flags,
    name: Seq<char>,
    config: ConfigView,
    mirror_exists: bool,
) -> Seq<ActionView> {
    run_from(Phase::Fetching, flags, name, config, mirror_exists)
}

/// Plans a whole build run of the package `name`: the actions of every
/// phase that the flags do not leave out, in order. Each action must succeed
/// before the next is taken, except that the exit status of a command counts
/// only where the command is checked; the run fails with the first error.
pub fn plan_run(flags: &Flags, name: &str, config: &mut Config, mirror_exists: bool) -> (actions:
    Vec<Action>)
    ensures
        actions_view(actions@) == run_actions(*flags, name@, old(config)@, mirror_exists),
        final(config)@ == config_after_run_from(Phase::Fetching, *flags, old(config)@),
{
    let mut actions: Vec<Action> = Vec::new();
    let mut phase = Phase::Fetching;
    let ghost start = config@;
    assert(actions_view(actions@) + run_from(phase, *flags, name@, config@, mirror_exists)
        =~= run_actions(*flags, name@, config@, mirror_exists));
    while phase != Phase::Done
        invariant
            actions_view(actions@) + run_from(phase, *flags, name@, config@, mirror_exists)
                == run_actions(*flags, name@, start, mirror_exists),
            config_after_run_from(phase, *flags, config@) == config_after_run_from(
                Phase::Fetching,
                *flags,
                start,
            ),
        decreases 6 - phase.rank(),
    {
        if phase.is_run(flags) {
            let ghost before = actions_view(actions@);
            let ghost here = config@;
            let mut more = plan_phase(phase, name, config, mirror_exists);
            let ghost added = actions_view(more@);
            actions.append(&mut more);
            proof {
                assert(actions_view(actions@) =~= before + added);
                let rest = run_from(
                    phase.successor(),
                    *flags,
                    name@,
                    config_after(phase, here),
                    mirror_exists,
                );
                assert((before + added) + rest =~= before + (added + rest));
            }
        }
        phase = phase.following();
    }
    proof {
        assert(actions_view(actions@) + Seq::<ActionView>::empty() =~= actions_view(actions@));
    }
    actions
}

/// Whatever the flags, a run first fetches, unless that is left out, then
/// creates the build directory and takes the lock on the build root, and only
/// then does what changes the build directory; and it ends by verifying the
/// artifacts.
pub proof fn run_locks_first_and_verifies_last(
    flags: Flags,
    name: Seq<char>,
    config: ConfigView,
    mirror_exists: bool,
)
    ensures
        run_actions(flags, name, config, mirror_exists) == (if flags.skip_fetch {
            Seq::<ActionView>::empty()
        } else {
            run_each(fetch_commands(name, config.meta.repo, mirror_exists))
        }) + seq![ActionView::CreateDir(build_path_of(name)), ActionView::Lock(build_root())]
            + run_from(Phase::Extracting, flags, name, config, mirror_exists),
        run_from(Phase::Extracting, flags, name, config, mirror_exists).len() > 0,
        run_from(Phase::Extracting, flags, name, config, mirror_exists).last()
            == ActionView::Verify,
        forall|i: int|
            0 <= i < run_from(Phase::Extracting, flags, name, config, mirror_exists).len() ==> !(
            #[trigger] run_from(Phase::Extracting, flags, name, config, mirror_exists)[i]
                is Lock),
{
    reveal_with_fuel(run_from, 8);
    let after = run_from(Phase::Extracting, flags, name, config, mirror_exists);
    let lock = seq![ActionView::CreateDir(build_path_of(name)), ActionView::Lock(build_root())];
    let fetch = run_each(fetch_commands(name, config.meta.repo, mirror_exists));
    assert(actions_of(Phase::Locking, name, config, mirror_exists) == lock);
    assert(run_from(Phase::Locking, flags, name, config, mirror_exists) == lock + after);
    if flags.skip_fetch {
        assert(Seq::<ActionView>::empty() + lock + after =~= lock + after);
    } else {
        assert(fetch + (lock + after) =~= fetch + lock + after);
    }
    let verify = seq![ActionView::Verify];
    assert(run_from(Phase::Verifying, flags, name, config, mirror_exists) =~= verify);
    let later = ConfigView { meta: MetaView { checkout: None, ..config.meta }, ..config };
    let build = seq![ActionView::Run(build_command_of(name, later))];
    let build_kept = seq![ActionView::Run(build_command_of(name, config))];
    let patch = run_each(patch_commands_of(name, later.meta.patches));
    let extract = actions_of(Phase::Extracting, name, config, mirror_exists);
    if flags.skip_extract {
        if flags.skip_build {
            assert(after =~= verify);
        } else {
            assert(after =~= build_kept + verify);
        }
    } else {
        if flags.skip_build {
            assert(after =~= extract + (patch + verify));
        } else {
            assert(after =~= extract + (patch + (build + verify)));
        }
    }
}

/// The phase that a run is in after `steps` completed phases.
pub open spec fn phase_after(flags: Flags, steps: nat) -> Phase
    decreases steps,
{
    if steps == 0 {
        Phase::spec_first(flags)
    } else {
        phase_after(flags, (steps - 1) as nat).spec_next(flags)
    }
}

/// The first phase and the phase after each phase, written out.
proof fn next_by_cases(phase: Phase, flags: Flags)
    ensures
        Phase::spec_first(flags) == if flags.skip_fetch {
            Phase::Locking
        } else {
            Phase::Fetching
        },
        phase.spec_next(flags) == match phase {
            Phase::Fetching => Phase::Locking,
            Phase::Locking => if !flags.skip_extract {
                Phase::Extracting
            } else if !flags.skip_build {
                Phase::Building
            } else {
                Phase::Verifying
            },
            Phase::Extracting => if !flags.skip_extract {
                Phase::Patching
            } else if !flags.skip_build {
                Phase::Building
            } else {
                Phase::Verifying
            },
            Phase::Patching => if !flags.skip_build {
                Phase::Building
            } else {
                Phase::Verifying
            },
            Phase::Building => Phase::Verifying,
            Phase::Verifying | Phase::Done => Phase::Done,
        },
{
    reveal_with_fuel(Phase::skip_to_running, 7);
}

/// A run goes forward: the phase entered after one that is not the last
/// comes later in the order, and it is one that the flags do not leave out.
pub proof fn next_goes_forward(phase: Phase, flags: Flags)
    ensures
        phase != Phase::Done ==> phase.spec_next(flags).rank() > phase.rank(),
        phase.spec_next(flags).runs(flags),
        Phase::spec_first(flags).runs(flags),
{
    next_by_cases(phase, flags);
}

/// A run leaves out nothing but what the flags say: every phase between one
/// phase of the run and the next, and every phase before the first, is one
/// that the flags leave out.
pub proof fn next_skips_only_what_is_left_out(phase: Phase, between: Phase, flags: Flags)
    ensures
        phase.rank() < between.rank() < phase.spec_next(flags).rank() ==> !between.runs(flags),
        between.rank() < Phase::spec_first(flags).rank() ==> !between.runs(flags),
{
    next_by_cases(phase, flags);
}

/// The phase after `steps` completed phases runs, and from the second
/// argument on it is later in the order than the phase before it, or done.
proof fn phases_of_a_run(flags: Flags, steps: nat)
    ensures
        phase_after(flags, steps).runs(flags),
        phase_after(flags, steps).rank() >= if steps <= 5 {
            steps
        } else {
            6
        },
    decreases steps,
{
    if steps == 0 {
        next_by_cases(Phase::Done, flags);
    } else {
        let before = phase_after(flags, (steps - 1) as nat);
        phases_of_a_run(flags, (steps - 1) as nat);
        next_by_cases(before, flags);
    }
}

/// A phase that runs is reached after some number of completed phases.
proof fn running_phase_is_reached(flags: Flags, phase: Phase, steps: nat)
    requires
        phase.runs(flags),
        steps <= 6,
        phase_after(flags, steps).rank() <= phase.rank(),
    ensures
        exists|n: nat| n <= 6 && #[trigger] phase_after(flags, n) == phase,
    decreases 6 - steps,
{
    let here = phase_after(flags, steps);
    phases_of_a_run(flags, steps);
    if here == phase {
    } else {
        assert(here.rank() < phase.rank());
        assert(steps < 6);
        next_by_cases(here, flags);
        next_skips_only_what_is_left_out(here, phase, flags);
        assert(phase_after(flags, steps + 1) == here.spec_next(flags));
        running_phase_is_reached(flags, phase, steps + 1);
    }
}

/// Whatever the flags, a run goes through exactly the phases that they do
/// not leave out, and is done after at most six completed phases.
pub proof fn run_goes_through_what_runs(flags: Flags, phase: Phase)
    ensures
        phase.runs(flags) <==> exists|steps: nat|
            steps <= 6 && #[trigger] phase_after(flags, steps) == phase,
        phase_after(flags, 6) == Phase::Done,
{
    phases_of_a_run(flags, 6);
    if phase.runs(flags) {
        next_skips_only_what_is_left_out(Phase::Done, phase, flags);
        running_phase_is_reached(flags, phase, 0);
    }
    if exists|steps: nat| steps <= 6 && #[trigger] phase_after(flags, steps) == phase {
        let steps = choose|steps: nat| steps <= 6 && #[trigger] phase_after(flags, steps) == phase;
        phases_of_a_run(flags, steps);
    }
}

/// Whatever the flags, a run takes the lock and verifies the artifacts, and
/// it holds the lock before any phase that changes the build directory: the
/// locking phase comes before each of them in the order.
pub proof fn lock_and_verification_always_run(flags: Flags, phase: Phase)
    ensures
        Phase::Locking.runs(flags),
        Phase::Verifying.runs(flags),
        phase.destructive() ==> Phase::Locking.rank() < phase.rank() < Phase::Verifying.rank(),
{
}

} // verus!
