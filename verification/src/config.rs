use vstd::prelude::*;
use crate::text::is_trimmed;

verus! {

/// The two supported language variants of the generated project.
#[derive(Clone, Copy, PartialEq, Eq, Structural, Debug)]
pub enum Language {
    Js,
    Ts,
}

/// The two supported package managers.
#[derive(Clone, Copy, PartialEq, Eq, Structural, Debug)]
pub enum PackageManager {
    Npm,
    Yarn,
}

/// A yes/no answer, resolved once at the prompt boundary.
#[derive(Clone, Copy, PartialEq, Eq, Structural, Debug)]
pub enum Choice {
    Yes,
    No,
}

/// The finalized set of user-selected options, produced by the builder once
/// every prompt has been answered and consumed read-only by the orchestrator.
pub struct ProjectConfig {
    /// Target directory for the generated project.
    pub dir: String,
    /// Launch the editor after a successful build.
    pub use_vscode: bool,
    /// Pass the positive lint flag to the generator.
    pub use_eslint: bool,
    /// Language variant handed to the generator.
    pub lang: Language,
    /// Project name embedded in the generator command line.
    pub app_name: String,
    /// Add the styling framework.
    pub use_tailwind: bool,
    /// Scaffold into the current working directory.
    pub use_current_dir: bool,
    /// Package manager the generator is told to use.
    pub package_manager: PackageManager,
}

impl ProjectConfig {
    /// A finalized configuration carries a non-empty project name with no
    /// whitespace margins; the builder establishes this before handing the
    /// value to the orchestrator.
    pub open spec fn wf(&self) -> bool {
        &&& self.app_name@.len() > 0
        &&& is_trimmed(self.app_name@)
    }
}

} // verus!
