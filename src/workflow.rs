use vstd::prelude::*;
use crate::platform::{Platform, release_mode, is_release_build};

verus! {

/// The subcommand being carried out.
#[derive(Clone, Copy, Debug, PartialEq, Eq, Structural)]
pub enum Command {
    /// Create the run directory and make the companion tree present and fresh.
    Init,
    /// Set up if needed, build, stage the artifacts and launch the server.
    Run,
    /// Delete the run directory.
    Clean,
}

/// What the invocation asked for.
#[derive(Clone, Copy, Debug, PartialEq, Eq, Structural)]
pub struct Options {
    pub command: Command,
    /// Delete and re-clone the companion tree even where it is present.
    pub force: bool,
    /// Do not build the local project.
    pub skip_self_build: bool,
}

/// A piece of outside work that the workflow asks its driver to perform.
#[derive(Clone, Copy, Debug, PartialEq, Eq, Structural)]
pub enum Action {
    /// Create the run directory and its parents (idempotent).
    CreateRunDir,
    /// Report whether the companion directory exists.
    CheckCompanion,
    /// Recursively delete the companion directory.
    RemoveCompanion,
    /// Clone the companion repository into the project root.
    CloneCompanion,
    /// Pull the latest changes into the companion tree.
    PullCompanion,
    /// Build the local project, in release mode where `release` holds.
    BuildSelf { release: bool },
    /// Build the companion server (debug).
    BuildServer,
    /// Copy the server binary into the run directory if it was built.
    StageServerBinary,
    /// Read the local manifest and report whether it names the project.
    ReadManifest,
    /// Copy the plugin library into the run directory's plugin folder if it
    /// was built.
    StagePlugin,
    /// Launch the staged server with inherited I/O and wait for it.
    Launch,
    /// Report whether the run directory exists.
    CheckRunDir,
    /// Recursively delete the run directory.
    RemoveRunDir,
    /// Tell the user of a condition that does not stop the workflow.
    Warn(Warning),
    /// The workflow is over.
    Finish(Outcome),
}

/// What the driver reports back after performing an action.
#[derive(Clone, Copy, Debug, PartialEq, Eq, Structural)]
pub enum Event {
    /// The action succeeded (a subprocess exited with status zero).
    Done,
    /// The action failed: an I/O error, or a subprocess that ran and exited
    /// non-zero.
    Failed,
    /// The subprocess of the action could not be started at all.
    NotStarted,
    /// A checked path, or the artifact to be copied, exists or not.
    Present(bool),
    /// The manifest was read; whether it names the project.
    Manifest(bool),
    /// The launched server terminated, successfully or not.
    Exited(bool),
}

/// A condition that is reported and then passed over.
#[derive(Clone, Copy, Debug, PartialEq, Eq, Structural)]
pub enum Warning {
    /// The pull failed; the existing companion tree is kept.
    PullFailed,
    /// The plugin library was not found; the server runs without it.
    PluginMissing,
}

/// The stage at which the workflow was aborted.
#[derive(Clone, Copy, Debug, PartialEq, Eq, Structural)]
pub enum Failure {
    CreateRunDir,
    CheckCompanion,
    RemoveCompanion,
    Clone,
    Pull,
    BuildSelf,
    BuildServer,
    StageServerBinary,
    ReadManifest,
    StagePlugin,
    ServerMissing,
    Launch,
    CheckRunDir,
    RemoveRunDir,
}

/// How the workflow ended.
#[derive(Clone, Copy, Debug, PartialEq, Eq, Structural)]
pub enum Outcome {
    /// Every stage completed (`init`, `clean`).
    Completed,
    /// The server was launched and has stopped, successfully or not; the
    /// workflow itself succeeded either way.
    ServerStopped(bool),
    /// A workflow-fatal failure.
    Failed(Failure),
}

/// Where the workflow stands: the action it last asked for.
#[derive(Clone, Copy, Debug, PartialEq, Eq, Structural)]
pub enum Stage {
    CheckingRunDir,
    RemovingRunDir,
    CreatingRunDir,
    CheckingCompanion,
    RemovingCompanion,
    Cloning,
    Pulling,
    PullWarned,
    BuildingSelf,
    BuildingServer,
    StagingServer,
    ReadingManifest,
    StagingPlugin,
    PluginWarned,
    Launching,
    Finished(Outcome),
}

/// The workflow of one invocation, driven one action at a time.
#[derive(Clone, Copy, Debug, PartialEq, Eq, Structural)]
pub struct Workflow {
    pub options: Options,
    pub platform: Platform,
    pub stage: Stage,
}

/// How many stages at most are left before the workflow finishes.
pub open spec fn remaining(s: Stage) -> nat {
    match s {
        Stage::CheckingRunDir => 15,
        Stage::RemovingRunDir => 14,
        Stage::CreatingRunDir => 13,
        Stage::CheckingCompanion => 12,
        Stage::RemovingCompanion => 11,
        Stage::Cloning => 10,
        Stage::Pulling => 9,
        Stage::PullWarned => 8,
        Stage::BuildingSelf => 7,
        Stage::BuildingServer => 6,
        Stage::StagingServer => 5,
        Stage::ReadingManifest => 4,
        Stage::StagingPlugin => 3,
        Stage::PluginWarned => 2,
        Stage::Launching => 1,
        Stage::Finished(_) => 0,
    }
}

/// The action that a workflow asks for at its current stage.
pub open spec fn action_of(w: Workflow) -> Action {
    match w.stage {
        Stage::CheckingRunDir => Action::CheckRunDir,
        Stage::RemovingRunDir => Action::RemoveRunDir,
        Stage::CreatingRunDir => Action::CreateRunDir,
        Stage::CheckingCompanion => Action::CheckCompanion,
        Stage::RemovingCompanion => Action::RemoveCompanion,
        Stage::Cloning => Action::CloneCompanion,
        Stage::Pulling => Action::PullCompanion,
        Stage::PullWarned => Action::Warn(Warning::PullFailed),
        Stage::BuildingSelf => Action::BuildSelf { release: release_mode(w.platform) },
        Stage::BuildingServer => Action::BuildServer,
        Stage::StagingServer => Action::StageServerBinary,
        Stage::ReadingManifest => Action::ReadManifest,
        Stage::StagingPlugin => Action::StagePlugin,
        Stage::PluginWarned => Action::Warn(Warning::PluginMissing),
        Stage::Launching => Action::Launch,
        Stage::Finished(outcome) => Action::Finish(outcome),
    }
}

pub open spec fn at(w: Workflow, stage: Stage) -> Workflow {
    Workflow { stage, ..w }
}

pub open spec fn fail(w: Workflow, failure: Failure) -> Workflow {
    at(w, Stage::Finished(Outcome::Failed(failure)))
}

/// Where the workflow goes once the companion tree is ready: `run` goes on
/// to build (the local project first, unless skipped); the others are done.
pub open spec fn after_setup(w: Workflow) -> Workflow {
    match w.options.command {
        Command::Run => if w.options.skip_self_build {
            at(w, Stage::BuildingServer)
        } else {
            at(w, Stage::BuildingSelf)
        },
        _ => at(w, Stage::Finished(Outcome::Completed)),
    }
}

/// How `run` ends once the driver reports `e` for the launch: the server's
/// own exit status is reported, never escalated; a missing binary or a
/// failed spawn or wait is fatal.
pub open spec fn launch_outcome(e: Event) -> Outcome {
    match e {
        Event::Exited(ok) => Outcome::ServerStopped(ok),
        Event::Present(false) => Outcome::Failed(Failure::ServerMissing),
        _ => Outcome::Failed(Failure::Launch),
    }
}

fn exec_launch_outcome(e: Event) -> (r: Outcome)
    ensures
        r == launch_outcome(e),
{
    match e {
        Event::Exited(ok) => Outcome::ServerStopped(ok),
        Event::Present(false) => Outcome::Failed(Failure::ServerMissing),
        _ => Outcome::Failed(Failure::Launch),
    }
}

/// The workflow as it begins: `clean` checks for the run directory, the
/// others create it.
pub open spec fn start_spec(options: Options, platform: Platform) -> Workflow {
    Workflow {
        options,
        platform,
        stage: match options.command {
            Command::Clean => Stage::CheckingRunDir,
            _ => Stage::CreatingRunDir,
        },
    }
}

/// The workflow's decision once the driver reports `e` for the action of
/// the current stage.
pub open spec fn next(w: Workflow, e: Event) -> Workflow {
    match w.stage {
        Stage::CheckingRunDir => match e {
            Event::Present(true) => at(w, Stage::RemovingRunDir),
            Event::Present(false) => at(w, Stage::Finished(Outcome::Completed)),
            _ => fail(w, Failure::CheckRunDir),
        },
        Stage::RemovingRunDir => match e {
            Event::Done => at(w, Stage::Finished(Outcome::Completed)),
            _ => fail(w, Failure::RemoveRunDir),
        },
        Stage::CreatingRunDir => match e {
            Event::Done => at(w, Stage::CheckingCompanion),
            _ => fail(w, Failure::CreateRunDir),
        },
        Stage::CheckingCompanion => match e {
            Event::Present(true) => if w.options.force {
                at(w, Stage::RemovingCompanion)
            } else if w.options.command == Command::Init {
                at(w, Stage::Pulling)
            } else {
                after_setup(w)
            },
            Event::Present(false) => at(w, Stage::Cloning),
            _ => fail(w, Failure::CheckCompanion),
        },
        Stage::RemovingCompanion => match e {
            Event::Done => at(w, Stage::Cloning),
            _ => fail(w, Failure::RemoveCompanion),
        },
        Stage::Cloning => match e {
            Event::Done => after_setup(w),
            _ => fail(w, Failure::Clone),
        },
        Stage::Pulling => match e {
            Event::Done => after_setup(w),
            Event::Failed => at(w, Stage::PullWarned),
            _ => fail(w, Failure::Pull),
        },
        Stage::PullWarned => after_setup(w),
        Stage::BuildingSelf => match e {
            Event::Done => at(w, Stage::BuildingServer),
            _ => fail(w, Failure::BuildSelf),
        },
        Stage::BuildingServer => match e {
            Event::Done => at(w, Stage::StagingServer),
            _ => fail(w, Failure::BuildServer),
        },
        Stage::StagingServer => match e {
            Event::Done | Event::Present(false) => at(w, Stage::ReadingManifest),
            _ => fail(w, Failure::StageServerBinary),
        },
        Stage::ReadingManifest => match e {
            Event::Manifest(true) => at(w, Stage::StagingPlugin),
            Event::Manifest(false) => at(w, Stage::Launching),
            _ => fail(w, Failure::ReadManifest),
        },
        Stage::StagingPlugin => match e {
            Event::Done => at(w, Stage::Launching),
            Event::Present(false) => at(w, Stage::PluginWarned),
            _ => fail(w, Failure::StagePlugin),
        },
        Stage::PluginWarned => at(w, Stage::Launching),
        Stage::Launching => at(w, Stage::Finished(launch_outcome(e))),
        Stage::Finished(_) => w,
    }
}

/// The actions that workflow `w` issues, its current one first, when the
/// outside world answers each action `x` with `env(x)`, up to and including
/// its `Finish`. No action is issued twice in one run, so a function of the
/// action loses nothing over a list of answers.
#[verifier::opaque]
pub open spec fn trace(w: Workflow, env: spec_fn(Action) -> Event) -> Seq<Action>
    decreases remaining(w.stage),
{
    if w.stage is Finished {
        seq![action_of(w)]
    } else {
        seq![action_of(w)] + trace(next(w, env(action_of(w))), env)
    }
}

/// The actions of a whole invocation.
pub open spec fn run_of(options: Options, platform: Platform, env: spec_fn(Action) -> Event) -> Seq<
    Action,
> {
    trace(start_spec(options, platform), env)
}

/// `a` stands in `t` exactly once.
pub open spec fn occurs_once(t: Seq<Action>, a: Action) -> bool {
    exists|i: int|
        0 <= i < t.len() && t[i] == a && forall|j: int| 0 <= j < t.len() && j != i ==> t[j] != a
}

/// A trace is its first action followed by the trace of the next stage.
proof fn lemma_trace_step(w: Workflow, env: spec_fn(Action) -> Event)
    ensures
        trace(w, env).len() >= 1,
        trace(w, env)[0] == action_of(w),
        !(w.stage is Finished) ==> trace(w, env) == seq![action_of(w)] + trace(
            next(w, env(action_of(w))),
            env,
        ),
        w.stage is Finished ==> trace(w, env) == seq![action_of(w)],
{
    reveal_with_fuel(trace, 1);
}

/// What a trace holds: its first action and what the trace of the next
/// stage holds.
proof fn lemma_trace_contains(w: Workflow, env: spec_fn(Action) -> Event)
    ensures
        trace(w, env).contains(action_of(w)),
        !(w.stage is Finished) ==> forall|x: Action|
            trace(w, env).contains(x) <==> (x == action_of(w) || trace(
                next(w, env(action_of(w))),
                env,
            ).contains(x)),
        w.stage is Finished ==> forall|x: Action| trace(w, env).contains(x) ==> x == action_of(w),
{
    lemma_trace_step(w, env);
    let t = trace(w, env);
    assert(t[0] == action_of(w));
    if !(w.stage is Finished) {
        let t2 = trace(next(w, env(action_of(w))), env);
        assert forall|x: Action| t.contains(x) <==> (x == action_of(w) || t2.contains(x)) by {
            if t2.contains(x) {
                let i = choose|i: int| 0 <= i < t2.len() && t2[i] == x;
                assert(t[i + 1] == x);
            }
            if t.contains(x) && x != action_of(w) {
                let i = choose|i: int| 0 <= i < t.len() && t[i] == x;
                assert(t2[i - 1] == x);
            }
        }
    }
}

/// `init` without `force` on a companion tree that is present never deletes
/// the tree, and pulls it exactly once. A pull that ran and failed is only
/// warned of; one that could not be started aborts.
#[verifier::rlimit(60)]
pub proof fn lemma_init_keeps_present_tree(
    skip_self_build: bool,
    platform: Platform,
    env: spec_fn(Action) -> Event,
)
    requires
        env(Action::CreateRunDir) == Event::Done,
        env(Action::CheckCompanion) == Event::Present(true),
    ensures
        ({
            let t = run_of(
                Options { command: Command::Init, force: false, skip_self_build },
                platform,
                env,
            );
            &&& !t.contains(Action::RemoveCompanion)
            &&& occurs_once(t, Action::PullCompanion)
            &&& env(Action::PullCompanion) == Event::Failed ==> t.last() == Action::Finish(
                Outcome::Completed,
            )
            &&& env(Action::PullCompanion) == Event::NotStarted ==> t.last() == Action::Finish(
                Outcome::Failed(Failure::Pull),
            )
        }),
{
    let options = Options { command: Command::Init, force: false, skip_self_build };
    let w0 = start_spec(options, platform);
    let w1 = next(w0, env(action_of(w0)));
    let w2 = next(w1, env(action_of(w1)));
    let w3 = next(w2, env(action_of(w2)));
    assert(w1.stage == Stage::CheckingCompanion);
    assert(w2.stage == Stage::Pulling);
    lemma_trace_step(w0, env);
    lemma_trace_step(w1, env);
    lemma_trace_step(w2, env);
    lemma_trace_step(w3, env);
    let t = run_of(options, platform, env);
    let done = Action::Finish(Outcome::Completed);
    if env(Action::PullCompanion) == Event::Done {
        assert(w3.stage == Stage::Finished(Outcome::Completed));
        assert(t =~= seq![Action::CreateRunDir, Action::CheckCompanion, Action::PullCompanion, done]);
    } else if env(Action::PullCompanion) != Event::Failed {
        assert(w3.stage == Stage::Finished(Outcome::Failed(Failure::Pull)));
        assert(t =~= seq![
            Action::CreateRunDir,
            Action::CheckCompanion,
            Action::PullCompanion,
            Action::Finish(Outcome::Failed(Failure::Pull)),
        ]);
    } else {
        let w4 = next(w3, env(action_of(w3)));
        assert(w3.stage == Stage::PullWarned);
        assert(w4.stage == Stage::Finished(Outcome::Completed));
        lemma_trace_step(w4, env);
        assert(t =~= seq![
            Action::CreateRunDir,
            Action::CheckCompanion,
            Action::PullCompanion,
            Action::Warn(Warning::PullFailed),
            done,
        ]);
    }
    assert(t[2] == Action::PullCompanion);
}

/// With `force`, `init` and `run` delete a companion tree that is present,
/// and clone a fresh one right after; an absent one is cloned at once.
pub proof fn lemma_force_reclones(
    command: Command,
    skip_self_build: bool,
    platform: Platform,
    env: spec_fn(Action) -> Event,
)
    requires
        command != Command::Clean,
        env(Action::CreateRunDir) == Event::Done,
        env(Action::CheckCompanion) is Present,
    ensures
        ({
            let t = run_of(Options { command, force: true, skip_self_build }, platform, env);
            &&& env(Action::CheckCompanion) == Event::Present(true) ==> {
                &&& t.len() > 3
                &&& t[2] == Action::RemoveCompanion
                &&& env(Action::RemoveCompanion) == Event::Done ==> t[3] == Action::CloneCompanion
            }
            &&& env(Action::CheckCompanion) == Event::Present(false) ==> {
                &&& t.len() > 2
                &&& t[2] == Action::CloneCompanion
            }
        }),
{
    let options = Options { command, force: true, skip_self_build };
    let w0 = start_spec(options, platform);
    let w1 = next(w0, env(action_of(w0)));
    let w2 = next(w1, env(action_of(w1)));
    let w3 = next(w2, env(action_of(w2)));
    lemma_trace_step(w0, env);
    lemma_trace_step(w1, env);
    lemma_trace_step(w2, env);
    lemma_trace_step(w3, env);
}

/// `clean` never fails where the run directory is absent, nor where it is
/// removed; so a second `clean`, which finds the directory that the first
/// removed gone, succeeds too and deletes nothing.
pub proof fn lemma_clean_twice(
    force: bool,
    skip_self_build: bool,
    platform: Platform,
    first: spec_fn(Action) -> Event,
    second: spec_fn(Action) -> Event,
)
    requires
        first(Action::CheckRunDir) is Present,
        first(Action::RemoveRunDir) == Event::Done,
        second(Action::CheckRunDir) == Event::Present(false),
    ensures
        ({
            let options = Options { command: Command::Clean, force, skip_self_build };
            let t1 = run_of(options, platform, first);
            let t2 = run_of(options, platform, second);
            &&& t1.last() == Action::Finish(Outcome::Completed)
            &&& t2 == seq![Action::CheckRunDir, Action::Finish(Outcome::Completed)]
        }),
{
    let options = Options { command: Command::Clean, force, skip_self_build };
    let w0 = start_spec(options, platform);
    let w1 = next(w0, first(action_of(w0)));
    let w2 = next(w1, first(action_of(w1)));
    lemma_trace_step(w0, first);
    lemma_trace_step(w1, first);
    lemma_trace_step(w2, first);
    let v1 = next(w0, second(action_of(w0)));
    lemma_trace_step(w0, second);
    lemma_trace_step(v1, second);
    assert(run_of(options, platform, second) =~= seq![
        Action::CheckRunDir,
        Action::Finish(Outcome::Completed),
    ]);
}

/// The actions of `run` that follow a successful local build.
pub open spec fn after_self_build(a: Action) -> bool {
    ||| a == Action::BuildServer
    ||| a == Action::StageServerBinary
    ||| a == Action::ReadManifest
    ||| a == Action::StagePlugin
    ||| a == Action::Launch
}

proof fn lemma_failed_build_stops(w: Workflow, env: spec_fn(Action) -> Event)
    requires
        w.options.command == Command::Run,
        !w.options.skip_self_build,
        env(Action::BuildSelf { release: release_mode(w.platform) }) != Event::Done,
        remaining(w.stage) >= 7 || w.stage is Finished,
    ensures
        forall|x: Action| trace(w, env).contains(x) ==> !after_self_build(x),
    decreases remaining(w.stage),
{
    lemma_trace_contains(w, env);
    if !(w.stage is Finished) {
        lemma_failed_build_stops(next(w, env(action_of(w))), env);
    }
}

/// Where the local build fails, `run` aborts there: the companion server is
/// not built, and nothing is staged or launched.
pub proof fn lemma_self_build_failure_aborts(
    force: bool,
    platform: Platform,
    env: spec_fn(Action) -> Event,
)
    requires
        env(Action::BuildSelf { release: release_mode(platform) }) != Event::Done,
    ensures
        ({
            let t = run_of(
                Options { command: Command::Run, force, skip_self_build: false },
                platform,
                env,
            );
            &&& !t.contains(Action::BuildServer)
            &&& !t.contains(Action::StageServerBinary)
            &&& !t.contains(Action::StagePlugin)
            &&& !t.contains(Action::Launch)
        }),
{
    let options = Options { command: Command::Run, force, skip_self_build: false };
    lemma_failed_build_stops(start_spec(options, platform), env);
    assert(after_self_build(Action::BuildServer));
    assert(after_self_build(Action::StageServerBinary));
    assert(after_self_build(Action::StagePlugin));
    assert(after_self_build(Action::Launch));
}

/// The answers under which every stage of `run` up to the plugin succeeds,
/// and the plugin library is missing.
pub open spec fn plugin_missing_world(w: Workflow, env: spec_fn(Action) -> Event) -> bool {
    &&& env(Action::CreateRunDir) == Event::Done
    &&& env(Action::CheckCompanion) is Present
    &&& env(Action::RemoveCompanion) == Event::Done
    &&& env(Action::CloneCompanion) == Event::Done
    &&& !w.options.skip_self_build ==> env(Action::BuildSelf { release: release_mode(w.platform) })
        == Event::Done
    &&& env(Action::BuildServer) == Event::Done
    &&& env(Action::StageServerBinary) == Event::Done
    &&& env(Action::ReadManifest) == Event::Manifest(true)
    &&& env(Action::StagePlugin) == Event::Present(false)
}

proof fn lemma_reaches_launch(w: Workflow, env: spec_fn(Action) -> Event)
    requires
        w.options.command == Command::Run,
        plugin_missing_world(w, env),
        1 <= remaining(w.stage) <= 13,
        w.stage != Stage::Pulling,
        w.stage != Stage::PullWarned,
        w.options.skip_self_build ==> w.stage != Stage::BuildingSelf,
    ensures
        trace(w, env).contains(Action::Launch),
        remaining(w.stage) >= 5 ==> trace(w, env).contains(Action::StageServerBinary),
        remaining(w.stage) >= 2 ==> trace(w, env).contains(Action::Warn(Warning::PluginMissing)),
    decreases remaining(w.stage),
{
    lemma_trace_contains(w, env);
    if w.stage != Stage::Launching {
        lemma_reaches_launch(next(w, env(action_of(w))), env);
    }
}

/// Where only the plugin library is missing after the builds, `run` still
/// stages the server binary, warns, and launches the server.
pub proof fn lemma_missing_plugin_still_launches(
    force: bool,
    skip_self_build: bool,
    platform: Platform,
    env: spec_fn(Action) -> Event,
)
    requires
        plugin_missing_world(start_spec(Options { command: Command::Run, force, skip_self_build }, platform), env),
    ensures
        ({
            let t = run_of(Options { command: Command::Run, force, skip_self_build }, platform, env);
            &&& t.contains(Action::StageServerBinary)
            &&& t.contains(Action::Warn(Warning::PluginMissing))
            &&& t.contains(Action::Launch)
        }),
{
    lemma_reaches_launch(start_spec(Options { command: Command::Run, force, skip_self_build }, platform), env);
}

/// On a clean directory, `init` clones the companion tree once and stops;
/// a `run` that skips the local build then clones nothing, never builds the
/// local project, builds the server once, stages its binary, and launches
/// it, ending with the launch's outcome (the server's own exit status once
/// it has run).
#[verifier::rlimit(100)]
pub proof fn lemma_init_then_run(
    platform: Platform,
    init_env: spec_fn(Action) -> Event,
    run_env: spec_fn(Action) -> Event,
)
    requires
        init_env(Action::CreateRunDir) == Event::Done,
        init_env(Action::CheckCompanion) == Event::Present(false),
        init_env(Action::CloneCompanion) == Event::Done,
        run_env(Action::CreateRunDir) == Event::Done,
        run_env(Action::CheckCompanion) == Event::Present(true),
        run_env(Action::BuildServer) == Event::Done,
        run_env(Action::StageServerBinary) == Event::Done,
        run_env(Action::ReadManifest) is Manifest,
        run_env(Action::StagePlugin) == Event::Done || run_env(Action::StagePlugin)
            == Event::Present(false),
    ensures
        run_of(Options { command: Command::Init, force: false, skip_self_build: false }, platform, init_env)
            == seq![
            Action::CreateRunDir,
            Action::CheckCompanion,
            Action::CloneCompanion,
            Action::Finish(Outcome::Completed),
        ],
        ({
            let t = run_of(
                Options { command: Command::Run, force: false, skip_self_build: true },
                platform,
                run_env,
            );
            &&& !t.contains(Action::CloneCompanion)
            &&& !t.contains(Action::RemoveCompanion)
            &&& forall|release: bool| !t.contains(Action::BuildSelf { release })
            &&& occurs_once(t, Action::BuildServer)
            &&& t.contains(Action::StageServerBinary)
            &&& t.len() >= 2
            &&& t[t.len() - 2] == Action::Launch
            &&& t.last() == Action::Finish(launch_outcome(run_env(Action::Launch)))
        }),
{
    let init = Options { command: Command::Init, force: false, skip_self_build: false };
    let v0 = start_spec(init, platform);
    let v1 = next(v0, init_env(action_of(v0)));
    let v2 = next(v1, init_env(action_of(v1)));
    let v3 = next(v2, init_env(action_of(v2)));
    assert(v1.stage == Stage::CheckingCompanion);
    assert(v2.stage == Stage::Cloning);
    assert(v3.stage == Stage::Finished(Outcome::Completed));
    lemma_trace_step(v0, init_env);
    lemma_trace_step(v1, init_env);
    lemma_trace_step(v2, init_env);
    lemma_trace_step(v3, init_env);
    assert(run_of(init, platform, init_env) =~= seq![
        Action::CreateRunDir,
        Action::CheckCompanion,
        Action::CloneCompanion,
        Action::Finish(Outcome::Completed),
    ]);

    let run = Options { command: Command::Run, force: false, skip_self_build: true };
    let env = run_env;
    let stopped = Action::Finish(launch_outcome(run_env(Action::Launch)));
    let w0 = start_spec(run, platform);
    let w1 = next(w0, env(action_of(w0)));
    let w2 = next(w1, env(action_of(w1)));
    let w3 = next(w2, env(action_of(w2)));
    let w4 = next(w3, env(action_of(w3)));
    let w5 = next(w4, env(action_of(w4)));
    let w6 = next(w5, env(action_of(w5)));
    let w7 = next(w6, env(action_of(w6)));
    assert(w1.stage == Stage::CheckingCompanion);
    assert(w2.stage == Stage::BuildingServer);
    assert(w3.stage == Stage::StagingServer);
    assert(w4.stage == Stage::ReadingManifest);
    lemma_trace_step(w0, env);
    lemma_trace_step(w1, env);
    lemma_trace_step(w2, env);
    lemma_trace_step(w3, env);
    lemma_trace_step(w4, env);
    lemma_trace_step(w5, env);
    lemma_trace_step(w6, env);
    let t = run_of(run, platform, env);
    let head = seq![
        Action::CreateRunDir,
        Action::CheckCompanion,
        Action::BuildServer,
        Action::StageServerBinary,
        Action::ReadManifest,
    ];
    if env(Action::ReadManifest) == Event::Manifest(false) {
        assert(w5.stage == Stage::Launching);
        assert(t =~= head + seq![Action::Launch, stopped]);
    } else if env(Action::StagePlugin) == Event::Done {
        assert(w5.stage == Stage::StagingPlugin);
        assert(w6.stage == Stage::Launching);
        lemma_trace_step(w7, env);
        assert(t =~= head + seq![Action::StagePlugin, Action::Launch, stopped]);
    } else {
        let w8 = next(w7, env(action_of(w7)));
        assert(w5.stage == Stage::StagingPlugin);
        assert(w6.stage == Stage::PluginWarned);
        assert(w7.stage == Stage::Launching);
        lemma_trace_step(w7, env);
        lemma_trace_step(w8, env);
        assert(t =~= head + seq![
            Action::StagePlugin,
            Action::Warn(Warning::PluginMissing),
            Action::Launch,
            stopped,
        ]);
    }
    assert(t[2] == Action::BuildServer);
    assert(t[3] == Action::StageServerBinary);
}

impl Workflow {
    /// The action that this workflow asks for at its current stage.
    pub fn action(&self) -> (r: Action)
        ensures
            r == action_of(*self),
    {
        match self.stage {
            Stage::CheckingRunDir => Action::CheckRunDir,
            Stage::RemovingRunDir => Action::RemoveRunDir,
            Stage::CreatingRunDir => Action::CreateRunDir,
            Stage::CheckingCompanion => Action::CheckCompanion,
            Stage::RemovingCompanion => Action::RemoveCompanion,
            Stage::Cloning => Action::CloneCompanion,
            Stage::Pulling => Action::PullCompanion,
            Stage::PullWarned => Action::Warn(Warning::PullFailed),
            Stage::BuildingSelf => Action::BuildSelf { release: is_release_build(self.platform) },
            Stage::BuildingServer => Action::BuildServer,
            Stage::StagingServer => Action::StageServerBinary,
            Stage::ReadingManifest => Action::ReadManifest,
            Stage::StagingPlugin => Action::StagePlugin,
            Stage::PluginWarned => Action::Warn(Warning::PluginMissing),
            Stage::Launching => Action::Launch,
            Stage::Finished(outcome) => Action::Finish(outcome),
        }
    }

    fn fail(&mut self, failure: Failure)
        ensures
            *final(self) == fail(*old(self), failure),
    {
        self.stage = Stage::Finished(Outcome::Failed(failure));
    }

    fn after_setup(&mut self)
        ensures
            *final(self) == after_setup(*old(self)),
    {
        self.stage = match self.options.command {
            Command::Run => if self.options.skip_self_build {
                Stage::BuildingServer
            } else {
                Stage::BuildingSelf
            },
            _ => Stage::Finished(Outcome::Completed),
        };
    }

    /// Begins the workflow that `options` ask for on `platform`; its first
    /// action is `action()`.
    pub fn start(options: Options, platform: Platform) -> (r: Workflow)
        ensures
            r == start_spec(options, platform),
    {
        let stage = match options.command {
            Command::Clean => Stage::CheckingRunDir,
            _ => Stage::CreatingRunDir,
        };
        Workflow { options, platform, stage }
    }

    /// Advances the workflow on the driver's report `e` of the current
    /// action, and returns the next action. Once finished, the workflow stays
    /// where it is and repeats its outcome.
    pub fn step(&mut self, e: Event) -> (r: Action)
        ensures
            *final(self) == next(*old(self), e),
            r == action_of(*final(self)),
    {
        match self.stage {
            Stage::CheckingRunDir => match e {
                Event::Present(true) => self.stage = Stage::RemovingRunDir,
                Event::Present(false) => self.stage = Stage::Finished(Outcome::Completed),
                _ => self.fail(Failure::CheckRunDir),
            },
            Stage::RemovingRunDir => match e {
                Event::Done => self.stage = Stage::Finished(Outcome::Completed),
                _ => self.fail(Failure::RemoveRunDir),
            },
            Stage::CreatingRunDir => match e {
                Event::Done => self.stage = Stage::CheckingCompanion,
                _ => self.fail(Failure::CreateRunDir),
            },
            Stage::CheckingCompanion => match e {
                Event::Present(true) => if self.options.force {
                    self.stage = Stage::RemovingCompanion;
                } else if self.options.command == Command::Init {
                    self.stage = Stage::Pulling;
                } else {
                    self.after_setup();
                },
                Event::Present(false) => self.stage = Stage::Cloning,
                _ => self.fail(Failure::CheckCompanion),
            },
            Stage::RemovingCompanion => match e {
                Event::Done => self.stage = Stage::Cloning,
                _ => self.fail(Failure::RemoveCompanion),
            },
            Stage::Cloning => match e {
                Event::Done => self.after_setup(),
                _ => self.fail(Failure::Clone),
            },
            Stage::Pulling => match e {
                Event::Done => self.after_setup(),
                Event::Failed => self.stage = Stage::PullWarned,
                _ => self.fail(Failure::Pull),
            },
            Stage::PullWarned => self.after_setup(),
            Stage::BuildingSelf => match e {
                Event::Done => self.stage = Stage::BuildingServer,
                _ => self.fail(Failure::BuildSelf),
            },
            Stage::BuildingServer => match e {
                Event::Done => self.stage = Stage::StagingServer,
                _ => self.fail(Failure::BuildServer),
            },
            Stage::StagingServer => match e {
                Event::Done | Event::Present(false) => self.stage = Stage::ReadingManifest,
                _ => self.fail(Failure::StageServerBinary),
            },
            Stage::ReadingManifest => match e {
                Event::Manifest(true) => self.stage = Stage::StagingPlugin,
                Event::Manifest(false) => self.stage = Stage::Launching,
                _ => self.fail(Failure::ReadManifest),
            },
            Stage::StagingPlugin => match e {
                Event::Done => self.stage = Stage::Launching,
                Event::Present(false) => self.stage = Stage::PluginWarned,
                _ => self.fail(Failure::StagePlugin),
            },
            Stage::PluginWarned => self.stage = Stage::Launching,
            Stage::Launching => self.stage = Stage::Finished(exec_launch_outcome(e)),
            Stage::Finished(_) => {},
        }
        self.action()
    }

    /// Whether the workflow is over.
    pub fn is_finished(&self) -> (r: bool)
        ensures
            r == (self.stage is Finished),
    {
        match self.stage {
            Stage::Finished(_) => true,
            _ => false,
        }
    }
}

} // verus!
