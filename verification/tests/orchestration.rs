use next_scaffold::config::{Language, PackageManager, ProjectConfig};
use next_scaffold::dirs::{dir_in_entries, DirEntryInfo};
use next_scaffold::orchestrator::{
    planned_flow_actions, planned_flow_phase, Action, Env, Phase,
};
use next_scaffold::runner::{output_status, run_command_line, RunOutcome};

fn config(pm: PackageManager, use_vscode: bool) -> ProjectConfig {
    ProjectConfig {
        dir: String::from("/work"),
        use_vscode,
        use_eslint: true,
        lang: Language::Js,
        app_name: String::from("demo"),
        use_tailwind: true,
        use_current_dir: true,
        package_manager: pm,
    }
}

fn env_all_good() -> Env {
    Env {
        node_present: true,
        yarn_present: true,
        install_ok: true,
        generator_ok: true,
        editor_ok: true,
    }
}

#[test]
fn npm_never_triggers_an_install() {
    let c = config(PackageManager::Npm, false);
    let mut env = env_all_good();
    assert_eq!(planned_flow_actions(&c, env), vec![Action::Generate]);
    env.yarn_present = false;
    assert!(!planned_flow_actions(&c, env).contains(&Action::Install));
}

#[test]
fn absent_yarn_is_installed_before_building() {
    let c = config(PackageManager::Yarn, false);
    let mut env = env_all_good();
    env.yarn_present = false;
    let acts = planned_flow_actions(&c, env);
    assert_eq!(acts, vec![Action::Install, Action::Generate]);
}

#[test]
fn present_yarn_is_not_reinstalled() {
    let c = config(PackageManager::Yarn, false);
    let acts = planned_flow_actions(&c, env_all_good());
    assert_eq!(acts, vec![Action::Generate]);
}

#[test]
fn missing_runtime_short_circuits_everything() {
    let c = config(PackageManager::Yarn, true);
    let mut env = env_all_good();
    env.node_present = false;
    env.yarn_present = false;
    assert!(planned_flow_actions(&c, env).is_empty());
    assert_eq!(planned_flow_phase(&c, env), Phase::Idle);
}

#[test]
fn editor_failure_still_reaches_done() {
    let c = config(PackageManager::Npm, true);
    let mut env = env_all_good();
    env.editor_ok = false;
    let acts = planned_flow_actions(&c, env);
    assert_eq!(acts, vec![Action::Generate, Action::Edit]);
    assert_eq!(planned_flow_phase(&c, env), Phase::Done);
}

#[test]
fn generator_failure_fails_the_run_and_skips_the_editor() {
    let c = config(PackageManager::Npm, true);
    let mut env = env_all_good();
    env.generator_ok = false;
    let acts = planned_flow_actions(&c, env);
    assert_eq!(acts, vec![Action::Generate]);
    assert_eq!(planned_flow_phase(&c, env), Phase::Failed);
}

#[test]
fn install_failure_is_not_fatal() {
    let c = config(PackageManager::Yarn, false);
    let mut env = env_all_good();
    env.yarn_present = false;
    env.install_ok = false;
    assert_eq!(planned_flow_phase(&c, env), Phase::Done);
    assert_eq!(
        planned_flow_actions(&c, env),
        vec![Action::Install, Action::Generate]
    );
}

#[test]
fn only_a_zero_exit_counts_as_success() {
    assert!(output_status(&RunOutcome::Exited(0)));
    assert!(!output_status(&RunOutcome::Exited(1)));
    assert!(!output_status(&RunOutcome::Exited(127)));
    assert!(!output_status(&RunOutcome::NoExitCode));
    assert!(!output_status(&RunOutcome::SpawnFailed));
}

#[test]
fn shell_runner_reports_the_exit_status() {
    let ok = run_command_line("exit 0");
    assert!(output_status(&ok));
    let bad = run_command_line("exit 3");
    assert_eq!(bad, RunOutcome::Exited(3));
    assert!(!output_status(&bad));
}

#[test]
fn directory_scan_finds_only_directories_of_that_name() {
    let entries = vec![
        DirEntryInfo { name: String::from("src"), is_dir: true },
        DirEntryInfo { name: String::from("notes"), is_dir: false },
    ];
    assert!(dir_in_entries(&entries, "src"));
    assert!(!dir_in_entries(&entries, "notes"));
    assert!(!dir_in_entries(&entries, "missing"));
    assert!(!dir_in_entries(&vec![], "src"));
}
