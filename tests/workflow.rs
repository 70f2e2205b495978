use pumpkin_runner::platform::Platform;
use pumpkin_runner::workflow::{
    Action, Command, Event, Failure, Options, Outcome, Warning, Workflow,
};

/// Runs a workflow to its end, answering each action with `answer`.
fn drive(options: Options, platform: Platform, answer: &dyn Fn(Action) -> Event) -> Vec<Action> {
    let mut w = Workflow::start(options, platform);
    let mut actions = vec![w.action()];
    while !w.is_finished() {
        let a = w.step(answer(*actions.last().unwrap()));
        actions.push(a);
        assert!(actions.len() < 32);
    }
    actions
}

fn opts(command: Command, force: bool, skip_self_build: bool) -> Options {
    Options { command, force, skip_self_build }
}

/// A world where everything succeeds and every path exists.
fn happy(a: Action) -> Event {
    match a {
        Action::CheckCompanion | Action::CheckRunDir => Event::Present(true),
        Action::ReadManifest => Event::Manifest(true),
        Action::Launch => Event::Exited(true),
        _ => Event::Done,
    }
}

#[test]
fn init_on_present_tree_pulls_once() {
    let t = drive(opts(Command::Init, false, false), Platform::OtherUnix, &happy);
    assert_eq!(
        t,
        vec![
            Action::CreateRunDir,
            Action::CheckCompanion,
            Action::PullCompanion,
            Action::Finish(Outcome::Completed)
        ]
    );
}

#[test]
fn failed_pull_only_warns() {
    let answer = |a: Action| match a {
        Action::PullCompanion => Event::Failed,
        _ => happy(a),
    };
    let t = drive(opts(Command::Init, false, false), Platform::OtherUnix, &answer);
    assert_eq!(t[3], Action::Warn(Warning::PullFailed));
    assert_eq!(t.last(), Some(&Action::Finish(Outcome::Completed)));
    assert!(!t.contains(&Action::RemoveCompanion));
}

#[test]
fn pull_that_cannot_start_aborts() {
    let answer = |a: Action| match a {
        Action::PullCompanion => Event::NotStarted,
        _ => happy(a),
    };
    let t = drive(opts(Command::Init, false, false), Platform::OtherUnix, &answer);
    assert_eq!(
        t,
        vec![
            Action::CreateRunDir,
            Action::CheckCompanion,
            Action::PullCompanion,
            Action::Finish(Outcome::Failed(Failure::Pull))
        ]
    );
}

#[test]
fn force_deletes_then_clones() {
    for command in [Command::Init, Command::Run] {
        let t = drive(opts(command, true, false), Platform::OtherUnix, &happy);
        assert_eq!(t[2], Action::RemoveCompanion);
        assert_eq!(t[3], Action::CloneCompanion);
        assert!(!t.contains(&Action::PullCompanion));
    }
    let absent = |a: Action| match a {
        Action::CheckCompanion => Event::Present(false),
        _ => happy(a),
    };
    let t = drive(opts(Command::Init, true, false), Platform::OtherUnix, &absent);
    assert_eq!(t[2], Action::CloneCompanion);
    assert!(!t.contains(&Action::RemoveCompanion));
}

#[test]
fn clean_twice_never_errors() {
    let t1 = drive(opts(Command::Clean, false, false), Platform::OtherUnix, &happy);
    assert_eq!(
        t1,
        vec![Action::CheckRunDir, Action::RemoveRunDir, Action::Finish(Outcome::Completed)]
    );
    let gone = |a: Action| match a {
        Action::CheckRunDir => Event::Present(false),
        _ => Event::Failed,
    };
    let t2 = drive(opts(Command::Clean, false, false), Platform::OtherUnix, &gone);
    assert_eq!(t2, vec![Action::CheckRunDir, Action::Finish(Outcome::Completed)]);
}

#[test]
fn failed_local_build_aborts_before_server_build() {
    let answer = |a: Action| match a {
        Action::BuildSelf { .. } => Event::Failed,
        _ => happy(a),
    };
    let t = drive(opts(Command::Run, false, false), Platform::OtherUnix, &answer);
    assert_eq!(
        t,
        vec![
            Action::CreateRunDir,
            Action::CheckCompanion,
            Action::BuildSelf { release: false },
            Action::Finish(Outcome::Failed(Failure::BuildSelf))
        ]
    );
}

#[test]
fn windows_builds_local_project_in_release() {
    let t = drive(opts(Command::Run, false, false), Platform::Windows, &happy);
    assert_eq!(t[2], Action::BuildSelf { release: true });
}

#[test]
fn missing_plugin_still_launches() {
    let answer = |a: Action| match a {
        Action::StagePlugin => Event::Present(false),
        _ => happy(a),
    };
    let t = drive(opts(Command::Run, false, false), Platform::OtherUnix, &answer);
    assert_eq!(
        t,
        vec![
            Action::CreateRunDir,
            Action::CheckCompanion,
            Action::BuildSelf { release: false },
            Action::BuildServer,
            Action::StageServerBinary,
            Action::ReadManifest,
            Action::StagePlugin,
            Action::Warn(Warning::PluginMissing),
            Action::Launch,
            Action::Finish(Outcome::ServerStopped(true))
        ]
    );
}

#[test]
fn init_then_run_skipping_self_build() {
    let clean_dir = |a: Action| match a {
        Action::CheckCompanion => Event::Present(false),
        _ => happy(a),
    };
    let t1 = drive(opts(Command::Init, false, false), Platform::OtherUnix, &clean_dir);
    assert_eq!(
        t1,
        vec![
            Action::CreateRunDir,
            Action::CheckCompanion,
            Action::CloneCompanion,
            Action::Finish(Outcome::Completed)
        ]
    );
    let no_manifest = |a: Action| match a {
        Action::ReadManifest => Event::Manifest(false),
        Action::Launch => Event::Exited(false),
        _ => happy(a),
    };
    let t2 = drive(opts(Command::Run, false, true), Platform::OtherUnix, &no_manifest);
    assert_eq!(
        t2,
        vec![
            Action::CreateRunDir,
            Action::CheckCompanion,
            Action::BuildServer,
            Action::StageServerBinary,
            Action::ReadManifest,
            Action::Launch,
            Action::Finish(Outcome::ServerStopped(false))
        ]
    );
}

#[test]
fn missing_server_binary_is_skipped_at_staging_but_fatal_at_launch() {
    let answer = |a: Action| match a {
        Action::StageServerBinary | Action::Launch => Event::Present(false),
        _ => happy(a),
    };
    let t = drive(opts(Command::Run, false, true), Platform::OtherUnix, &answer);
    assert!(t.contains(&Action::ReadManifest));
    assert_eq!(t.last(), Some(&Action::Finish(Outcome::Failed(Failure::ServerMissing))));
}

#[test]
fn each_fatal_stage_names_itself() {
    let cases = [
        (Command::Run, false, Action::CreateRunDir, Failure::CreateRunDir),
        (Command::Run, false, Action::CheckCompanion, Failure::CheckCompanion),
        (Command::Run, true, Action::RemoveCompanion, Failure::RemoveCompanion),
        (Command::Run, true, Action::CloneCompanion, Failure::Clone),
        (Command::Run, false, Action::BuildServer, Failure::BuildServer),
        (Command::Run, false, Action::StageServerBinary, Failure::StageServerBinary),
        (Command::Run, false, Action::ReadManifest, Failure::ReadManifest),
        (Command::Run, false, Action::StagePlugin, Failure::StagePlugin),
        (Command::Run, false, Action::Launch, Failure::Launch),
        (Command::Clean, false, Action::CheckRunDir, Failure::CheckRunDir),
        (Command::Clean, false, Action::RemoveRunDir, Failure::RemoveRunDir),
    ];
    for (command, force, failing, failure) in cases {
        let answer = move |a: Action| if a == failing { Event::Failed } else { happy(a) };
        let t = drive(opts(command, force, false), Platform::OtherUnix, &answer);
        assert_eq!(t.last(), Some(&Action::Finish(Outcome::Failed(failure))));
    }
}

#[test]
fn run_on_present_tree_skips_setup() {
    let t = drive(opts(Command::Run, false, true), Platform::MacOs, &happy);
    assert!(!t.contains(&Action::PullCompanion));
    assert!(!t.contains(&Action::CloneCompanion));
    assert_eq!(t[2], Action::BuildServer);
}

#[test]
fn finished_workflow_repeats_its_outcome() {
    let mut w = Workflow::start(opts(Command::Clean, false, false), Platform::OtherUnix);
    assert_eq!(w.step(Event::Present(false)), Action::Finish(Outcome::Completed));
    assert_eq!(w.step(Event::Failed), Action::Finish(Outcome::Completed));
    assert!(w.is_finished());
}
