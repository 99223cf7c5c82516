use vstd::prelude::*;
use crate::config::{PackageManager, ProjectConfig};
use crate::messages::{
    build_failed_message, building_message, editor_missing_message, editor_url_message,
    runtime_missing_message, spawn_failed_message,
};
use crate::runner::{
    handle_yarn_installation, has_nodejs, open_with_vs_code, output_status, print_line,
    run_command_line, RunOutcome,
};

verus! {

/// The states of the project-creation sequence. `Idle` is where a run that
/// never starts (missing JS runtime) stays; `Failed` is reached only from a
/// failed generator invocation; an editor failure is advisory and still
/// ends in `Done`.
#[derive(Clone, Copy, PartialEq, Eq, Structural, Debug)]
pub enum Phase {
    Idle,
    PreparingPackageManager,
    Building,
    OpeningEditor,
    Done,
    Failed,
}

/// The external commands the orchestrator can ask the shell to run, in the
/// order a run performs them.
#[derive(Clone, Copy, PartialEq, Eq, Structural, Debug)]
pub enum Action {
    /// The global install of the missing package manager.
    Install,
    /// The project-generator invocation.
    Generate,
    /// The editor launch.
    Edit,
}

/// Everything the host decides during a run: which probes succeed and how
/// each invoked command ends. The orchestrator is a pure function of the
/// configuration and of this record.
#[derive(Clone, Copy, PartialEq, Eq, Structural, Debug)]
pub struct Env {
    pub node_present: bool,
    pub yarn_present: bool,
    pub install_ok: bool,
    pub generator_ok: bool,
    pub editor_ok: bool,
}

/// The install step runs exactly when the second package manager was chosen
/// and the probe reports it absent.
pub open spec fn spec_needs_install(c: ProjectConfig, env: Env) -> bool {
    c.package_manager == PackageManager::Yarn && !env.yarn_present
}

/// The ordered external commands one orchestrator run invokes: possibly the
/// install, always the generator, and the editor only after a successful
/// build when the editor was requested. A failed install does not stop the
/// run.
pub open spec fn spec_run_actions(c: ProjectConfig, env: Env) -> Seq<Action> {
    (if spec_needs_install(c, env) {
        seq![Action::Install]
    } else {
        Seq::empty()
    }) + seq![Action::Generate] + (if env.generator_ok && c.use_vscode {
        seq![Action::Edit]
    } else {
        Seq::empty()
    })
}

/// The terminal phase of a run that was started: `Failed` exactly when the
/// generator failed; an editor failure still ends in `Done`.
pub open spec fn spec_run_phase(c: ProjectConfig, env: Env) -> Phase {
    if env.generator_ok {
        Phase::Done
    } else {
        Phase::Failed
    }
}

/// The commands of the whole flow, prerequisite gate included: with the JS
/// runtime absent the orchestrator is never started and nothing runs.
pub open spec fn spec_flow_actions(c: ProjectConfig, env: Env) -> Seq<Action> {
    if env.node_present {
        spec_run_actions(c, env)
    } else {
        Seq::empty()
    }
}

/// The terminal phase of the whole flow: `Idle` when the runtime gate
/// stopped it before the orchestrator ran.
pub open spec fn spec_flow_phase(c: ProjectConfig, env: Env) -> Phase {
    if env.node_present {
        spec_run_phase(c, env)
    } else {
        Phase::Idle
    }
}

/// With the first package manager selected, no run ever invokes the install
/// command, whatever the host reports.
pub proof fn lemma_npm_never_installs(c: ProjectConfig, env: Env)
    requires
        c.package_manager == PackageManager::Npm,
    ensures
        !spec_flow_actions(c, env).contains(Action::Install),
{
    let acts = spec_flow_actions(c, env);
    assert(!spec_needs_install(c, env));
    if env.node_present {
        if env.generator_ok && c.use_vscode {
            assert(acts =~= seq![Action::Generate, Action::Edit]);
        } else {
            assert(acts =~= seq![Action::Generate]);
        }
    }
    if acts.contains(Action::Install) {
        let k = choose|k: int| 0 <= k < acts.len() && acts[k] == Action::Install;
        assert(false);
    }
}

/// With the second package manager selected and the probe reporting it
/// absent, the run invokes the install command, and does so before the
/// generator.
pub proof fn lemma_yarn_absent_installs_first(c: ProjectConfig, env: Env)
    requires
        c.package_manager == PackageManager::Yarn,
        !env.yarn_present,
        env.node_present,
    ensures
        spec_flow_actions(c, env).len() >= 2,
        spec_flow_actions(c, env)[0] == Action::Install,
        spec_flow_actions(c, env)[1] == Action::Generate,
{
    assert(spec_needs_install(c, env));
}

/// When the JS-runtime probe reports absent, the flow is short-circuited:
/// no command at all — in particular neither the generator nor the editor —
/// is ever invoked, and the orchestrator is never entered.
pub proof fn lemma_runtime_absent_short_circuits(c: ProjectConfig, env: Env)
    requires
        !env.node_present,
    ensures
        spec_flow_actions(c, env) =~= Seq::<Action>::empty(),
        !spec_flow_actions(c, env).contains(Action::Generate),
        !spec_flow_actions(c, env).contains(Action::Edit),
        spec_flow_phase(c, env) == Phase::Idle,
{
}

/// An editor-launch failure is advisory: with the editor requested and the
/// generator successful, the flow still reaches `Done` even when the editor
/// command fails (after printing its remediation).
pub proof fn lemma_editor_failure_still_done(c: ProjectConfig, env: Env)
    requires
        env.node_present,
        env.generator_ok,
        c.use_vscode,
        !env.editor_ok,
    ensures
        spec_flow_phase(c, env) == Phase::Done,
        spec_flow_actions(c, env).contains(Action::Edit),
{
    let acts = spec_flow_actions(c, env);
    assert(acts[acts.len() - 1] == Action::Edit);
}

/// A failed package-manager install does not change where the flow ends:
/// the terminal phase is the same as if the install had succeeded.
pub proof fn lemma_install_failure_nonfatal(c: ProjectConfig, env: Env)
    ensures
        spec_flow_phase(c, env) == spec_flow_phase(
            c,
            (Env { install_ok: true, ..env }),
        ),
        spec_flow_actions(c, env) == spec_flow_actions(
            c,
            (Env { install_ok: true, ..env }),
        ),
{
}

/// The commands a run would invoke under the given host behaviour, in
/// order; the executable mirror of `spec_flow_actions`.
pub fn planned_flow_actions(c: &ProjectConfig, env: Env) -> (r: Vec<Action>)
    ensures
        r@ == spec_flow_actions(*c, env),
{
    let mut r: Vec<Action> = Vec::new();
    if env.node_present {
        if c.package_manager == PackageManager::Yarn && !env.yarn_present {
            r.push(Action::Install);
        }
        r.push(Action::Generate);
        if env.generator_ok && c.use_vscode {
            r.push(Action::Edit);
        }
    }
    proof {
        assert(r@ =~= spec_flow_actions(*c, env));
    }
    r
}

/// The phase a run would end in under the given host behaviour; the
/// executable mirror of `spec_flow_phase`.
pub fn planned_flow_phase(c: &ProjectConfig, env: Env) -> (r: Phase)
    ensures
        r == spec_flow_phase(*c, env),
{
    if !env.node_present {
        Phase::Idle
    } else if env.generator_ok {
        Phase::Done
    } else {
        Phase::Failed
    }
}

/// What one real run of the orchestrator did: the commands it invoked, in
/// order, and the phase it ended in.
pub struct RunReport {
    pub actions: Vec<Action>,
    pub phase: Phase,
}

/// Drives a started run of the project-creation sequence: installs the
/// missing package manager when needed, invokes the generator, and launches
/// the editor when asked. Whatever the host did, the report matches the
/// state machine under some host behaviour.
pub fn create(c: &ProjectConfig) -> (r: RunReport)
    requires
        c.wf(),
    ensures
        exists|env: Env|
            env.node_present && r.actions@ == spec_run_actions(*c, env) && r.phase
                == spec_run_phase(*c, env),
{
    let mut actions: Vec<Action> = Vec::new();
    let mut yarn_present: bool = true;
    let mut install_ok: bool = true;
    if c.package_manager == PackageManager::Yarn {
        let prep = handle_yarn_installation();
        yarn_present = prep.yarn_present;
        install_ok = prep.install_ok;
        if prep.install_attempted {
            actions.push(Action::Install);
        }
        print_line(building_message());
    }
    let cmd = c.generator_command();
    let outcome = run_command_line(cmd.as_str());
    let generator_ok = output_status(&outcome);
    actions.push(Action::Generate);
    if !generator_ok {
        if outcome == RunOutcome::SpawnFailed {
            print_line(spawn_failed_message());
        } else {
            print_line(build_failed_message());
        }
        let r = RunReport { actions, phase: Phase::Failed };
        proof {
            let env = Env {
                node_present: true,
                yarn_present,
                install_ok,
                generator_ok: false,
                editor_ok: true,
            };
            assert(r.actions@ =~= spec_run_actions(*c, env));
            assert(r.phase == spec_run_phase(*c, env));
        }
        return r;
    }
    let mut editor_ok: bool = true;
    if c.use_vscode {
        editor_ok = open_with_vs_code();
        actions.push(Action::Edit);
        if !editor_ok {
            print_line(editor_missing_message());
            print_line(editor_url_message());
        }
    }
    let r = RunReport { actions, phase: Phase::Done };
    proof {
        let env = Env {
            node_present: true,
            yarn_present,
            install_ok,
            generator_ok: true,
            editor_ok,
        };
        assert(r.actions@ =~= spec_run_actions(*c, env));
        assert(r.phase == spec_run_phase(*c, env));
    }
    r
}

/// What the whole flow did, prerequisite gate included.
pub struct FlowReport {
    pub runtime_present: bool,
    pub actions: Vec<Action>,
    pub phase: Phase,
}

/// The whole flow from a finalized configuration: probes for the JS
/// runtime, stops with the remediation message when it is absent, and runs
/// the orchestrator otherwise. The report matches the flow machine under
/// some host behaviour.
pub fn launch(c: &ProjectConfig) -> (r: FlowReport)
    requires
        c.wf(),
    ensures
        exists|env: Env|
            r.runtime_present == env.node_present && r.actions@ == spec_flow_actions(*c, env)
                && r.phase == spec_flow_phase(*c, env),
{
    let node = has_nodejs();
    if !node {
        print_line(runtime_missing_message());
        let r = FlowReport { runtime_present: false, actions: Vec::new(), phase: Phase::Idle };
        proof {
            let env = Env {
                node_present: false,
                yarn_present: true,
                install_ok: true,
                generator_ok: true,
                editor_ok: true,
            };
            assert(r.actions@ =~= spec_flow_actions(*c, env));
        }
        return r;
    }
    let rep = create(c);
    let r = FlowReport { runtime_present: true, actions: rep.actions, phase: rep.phase };
    proof {
        let env0 = choose|env: Env|
            env.node_present && rep.actions@ == spec_run_actions(*c, env) && rep.phase
                == spec_run_phase(*c, env);
        assert(r.actions@ == spec_flow_actions(*c, env0));
        assert(r.phase == spec_flow_phase(*c, env0));
    }
    r
}

} // verus!
