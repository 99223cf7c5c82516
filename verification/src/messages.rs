use vstd::prelude::*;
use vstd::string::*;

verus! {

/// The remediation shown when the JS runtime is missing; the flow stops
/// after printing it.
pub fn runtime_missing_message() -> (r: &'static str)
    ensures
        r@ == "Error: Please install the latest version of Nodejs. https://nodejs.org/en/"@,
{
    "Error: Please install the latest version of Nodejs. https://nodejs.org/en/"
}

/// Announces the generator invocation.
pub fn building_message() -> (r: &'static str)
    ensures
        r@ == "Building NextJs project..."@,
{
    "Building NextJs project..."
}

/// Shown when the generator exits with a non-zero status.
pub fn build_failed_message() -> (r: &'static str)
    ensures
        r@ == "Error: Something went wrong"@,
{
    "Error: Something went wrong"
}

/// Shown when a subprocess could not even be spawned; kept distinct from a
/// non-zero exit.
pub fn spawn_failed_message() -> (r: &'static str)
    ensures
        r@ == "Error: the command interpreter could not be started"@,
{
    "Error: the command interpreter could not be started"
}

/// The first line of the remediation shown when the editor launch fails.
pub fn editor_missing_message() -> (r: &'static str)
    ensures
        r@ == "Could not find a copy of Visual Studio Code. Please, install it."@,
{
    "Could not find a copy of Visual Studio Code. Please, install it."
}

/// The download link printed under the editor remediation.
pub fn editor_url_message() -> (r: &'static str)
    ensures
        r@ == "https://code.visualstudio.com/"@,
{
    "https://code.visualstudio.com/"
}

/// The diagnostic for a project-kind identifier the tool does not know.
pub fn unknown_kind_message(kind: &str) -> (r: String)
    ensures
        r@ == "ERROR: Project "@ + kind@ + " doesn't exist."@,
{
    let mut r = String::from_str("ERROR: Project ");
    r.append(kind);
    r.append(" doesn't exist.");
    proof {
        assert(r@ =~= "ERROR: Project "@ + kind@ + " doesn't exist."@);
    }
    r
}

/// The re-prompt shown when the entered target directory does not resolve
/// to an existing, absolute path.
pub fn invalid_directory_message() -> (r: &'static str)
    ensures
        r@ == "The directory must be an existing, absolute path."@,
{
    "The directory must be an existing, absolute path."
}

/// The prompt asking for the application name.
pub fn name_prompt_message() -> (r: &'static str)
    ensures
        r@ == "Application Name:"@,
{
    "Application Name:"
}

/// The re-prompt shown while the application name trims to nothing.
pub fn name_reprompt_message() -> (r: &'static str)
    ensures
        r@ == "Please name your Application:"@,
{
    "Please name your Application:"
}

} // verus!
