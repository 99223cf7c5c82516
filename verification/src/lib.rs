//! An interactive scaffolding tool's verified core: a prompt-driven
//! configuration builder, the construction of the project-generator command
//! line, and the orchestration of the external commands the flow invokes —
//! package-manager install, generator, editor — with pass/fail gating.
//! Terminal prompts and the shell itself live outside; the library holds the
//! decisions and proves the properties the flow is meant to keep.

use vstd::prelude::*;

pub mod builder;
pub mod command;
pub mod config;
pub mod dirs;
pub mod messages;
pub mod runner;
pub mod options;
pub mod orchestrator;
pub mod text;

verus! {

/// A project kind that the tool knows how to scaffold.
#[derive(Clone, Copy, PartialEq, Eq, Structural, Debug)]
pub enum ProjectKind {
    NextApp,
}

pub open spec fn spec_parse_project_kind(s: Seq<char>) -> Option<ProjectKind> {
    if s == "next_app"@ {
        Some(ProjectKind::NextApp)
    } else {
        None
    }
}

/// Recognizes the single supported project kind identifier.
pub fn parse_project_kind(s: &str) -> (r: Option<ProjectKind>)
    ensures
        r == spec_parse_project_kind(s@),
{
    let owned = s.to_owned();
    let known = String::from_str("next_app");
    if owned == known {
        Some(ProjectKind::NextApp)
    } else {
        None
    }
}

} // verus!
