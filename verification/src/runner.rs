use vstd::prelude::*;
use execute::Execute;
use std::io::Write;

verus! {

/// How a subprocess handed to the host shell ended. A spawn failure — the
/// interpreter itself could not be started — is kept distinct from a
/// non-zero exit, as callers treat the two differently.
#[derive(Clone, Copy, PartialEq, Eq, Structural, Debug)]
pub enum RunOutcome {
    /// The process ran to completion with this exit code.
    Exited(i32),
    /// The process was terminated without an exit code (by a signal).
    NoExitCode,
    /// The process could not be spawned at all.
    SpawnFailed,
}

/// An outcome counts as success exactly when the process exited with code
/// zero.
pub open spec fn spec_succeeded(o: RunOutcome) -> bool {
    match o {
        RunOutcome::Exited(code) => code == 0,
        _ => false,
    }
}

/// Reports whether an outcome is a success: a normal exit with status zero.
pub fn output_status(output: &RunOutcome) -> (r: bool)
    ensures
        r == spec_succeeded(*output),
{
    match output {
        RunOutcome::Exited(code) => *code == 0,
        _ => false,
    }
}

/// Relies on execute::shell, which builds a command that the platform's
/// command interpreter runs, and on execute::Execute::execute_output, which
/// spawns it with the standard streams inherited and waits for it. What
/// comes back depends on the host, so nothing is promised of the outcome.
#[verifier::external_body]
fn shell_run(cmd: &str) -> (r: RunOutcome) {
    let mut command = execute::shell(cmd);
    match command.execute_output() {
        Ok(out) => match out.status.code() {
            Some(code) => RunOutcome::Exited(code),
            None => RunOutcome::NoExitCode,
        },
        Err(_) => RunOutcome::SpawnFailed,
    }
}

/// Relies on std::io::stdout: writes one line of diagnostic text to the
/// standard output stream.
#[verifier::external_body]
pub(crate) fn print_line(s: &str) {
    let _ = writeln!(std::io::stdout(), "{}", s);
}

/// Probes for the JS runtime by running its version query through the
/// shell. The result depends on the host, so nothing more is promised.
pub fn has_nodejs() -> (r: bool) {
    let out = shell_run("node -v");
    output_status(&out)
}

/// Probes for the yarn package manager by running its version query through
/// the shell. The result depends on the host, so nothing more is promised.
pub fn has_yarn() -> (r: bool) {
    let out = shell_run("yarn --version");
    output_status(&out)
}

/// Attempts a global install of yarn through npm; reports whether the
/// install command succeeded.
pub fn install_yarn() -> (r: bool) {
    let out = shell_run("npm install --global yarn");
    output_status(&out)
}

/// Launches the editor on the current directory; reports whether the launch
/// command succeeded.
pub fn open_with_vs_code() -> (r: bool) {
    let out = shell_run("code .");
    output_status(&out)
}

/// Runs one already-built command line through the shell and reports how it
/// ended; the orchestrator uses this for the generator invocation.
pub fn run_command_line(cmd: &str) -> (r: RunOutcome) {
    shell_run(cmd)
}

/// What the package-manager preparation step did: what the presence probe
/// reported, whether an install was attempted, and whether the flow may
/// count the package manager as usable afterwards (an attempted install
/// that failed is reported but, by design, does not stop the flow).
pub struct YarnPreparation {
    pub yarn_present: bool,
    pub install_attempted: bool,
    pub install_ok: bool,
}

/// Checks for yarn and, when the probe reports it absent, attempts a global
/// install, reporting progress on standard output. An install is attempted
/// exactly when the probe fails; when yarn is already present the step is a
/// no-op and the install flag stays true. Whether an attempted install
/// succeeds is the host's to decide, so nothing is promised of that.
pub fn handle_yarn_installation() -> (r: YarnPreparation)
    ensures
        r.install_attempted <==> !r.yarn_present,
        r.yarn_present ==> r.install_ok,
{
    let present = has_yarn();
    let mut install_ok = true;
    if !present {
        print_line("Yarn package manager could not be found. Installing yarn...");
        install_ok = install_yarn();
        if install_ok {
            print_line("Installed yarn correctly!");
        } else {
            print_line("There was a problem installing yarn..");
        }
    }
    YarnPreparation { yarn_present: present, install_attempted: !present, install_ok }
}

} // verus!
