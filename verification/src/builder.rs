use vstd::prelude::*;
use crate::config::{Choice, Language, PackageManager, ProjectConfig};
use crate::options::{
    lemma_pair_catalog_contains, parse_choice, parse_language, parse_package_manager,
    spec_language_labels, spec_package_manager_labels, spec_parse_choice, spec_parse_language,
    spec_parse_package_manager, spec_yes_no_labels,
};
use crate::text::{all_whitespace, is_trimmed, trim_witness, trimmed_of};

verus! {

/// The strictly ordered steps of the interactive configuration builder.
/// The first six are single-choice prompts; the last two read free text.
#[derive(Clone, Copy, PartialEq, Eq, Structural, Debug)]
pub enum Step {
    PackageManager,
    Language,
    Styling,
    CurrentDir,
    Editor,
    Linter,
    ProjectName,
    Directory,
    Ready,
}

pub open spec fn spec_step_is_select(step: Step) -> bool {
    match step {
        Step::PackageManager => true,
        Step::Language => true,
        Step::Styling => true,
        Step::CurrentDir => true,
        Step::Editor => true,
        Step::Linter => true,
        _ => false,
    }
}

/// The step that follows an accepted selection.
pub open spec fn spec_next_select_step(step: Step) -> Step {
    match step {
        Step::PackageManager => Step::Language,
        Step::Language => Step::Styling,
        Step::Styling => Step::CurrentDir,
        Step::CurrentDir => Step::Editor,
        Step::Editor => Step::Linter,
        Step::Linter => Step::ProjectName,
        _ => step,
    }
}

/// The ordered option catalog of a select step; free-text steps have none.
pub open spec fn spec_catalog(step: Step) -> Seq<Seq<char>> {
    match step {
        Step::PackageManager => spec_package_manager_labels(),
        Step::Language => spec_language_labels(),
        Step::Styling => spec_yes_no_labels(),
        Step::CurrentDir => spec_yes_no_labels(),
        Step::Editor => spec_yes_no_labels(),
        Step::Linter => spec_yes_no_labels(),
        _ => Seq::empty(),
    }
}

/// Whether a select step accepts a label: exactly when the label resolves to
/// one of the step's listed options.
pub open spec fn spec_select_accepts(step: Step, l: Seq<char>) -> bool {
    match step {
        Step::PackageManager => spec_parse_package_manager(l) is Some,
        Step::Language => spec_parse_language(l) is Some,
        Step::Styling => spec_parse_choice(l) is Some,
        Step::CurrentDir => spec_parse_choice(l) is Some,
        Step::Editor => spec_parse_choice(l) is Some,
        Step::Linter => spec_parse_choice(l) is Some,
        _ => false,
    }
}

/// Each select prompt accepts a label exactly when it stands in the prompt's
/// option catalog: anything else leaves the builder where it was, to prompt
/// again.
pub proof fn lemma_select_accepts_only_catalog(step: Step, l: Seq<char>)
    ensures
        spec_select_accepts(step, l) <==> spec_catalog(step).contains(l),
{
    match step {
        Step::PackageManager => {
            lemma_pair_catalog_contains(spec_catalog(step), "NPM"@, "Yarn"@, l);
        },
        Step::Language => {
            lemma_pair_catalog_contains(spec_catalog(step), "JS"@, "TS"@, l);
        },
        Step::Styling | Step::CurrentDir | Step::Editor | Step::Linter => {
            lemma_pair_catalog_contains(spec_catalog(step), "Yes"@, "No"@, l);
        },
        _ => {
            assert(spec_catalog(step).len() == 0);
        },
    }
}

/// A draft configuration being filled in by the prompt sequence, one step at
/// a time. Only a draft that has reached `Ready` can be finished into a
/// `ProjectConfig`.
pub struct Builder {
    pub step: Step,
    pub dir: String,
    pub use_vscode: bool,
    pub use_eslint: bool,
    pub lang: Language,
    pub app_name: String,
    pub use_tailwind: bool,
    pub use_current_dir: bool,
    pub package_manager: PackageManager,
}

impl Builder {
    /// The draft's invariant: once the project-name step has been passed,
    /// the stored name is non-empty and trimmed, and the extra directory
    /// step is only ever entered when the current directory was declined.
    pub open spec fn wf(&self) -> bool {
        &&& (self.step == Step::Ready || self.step == Step::Directory) ==> (
            self.app_name@.len() > 0 && is_trimmed(self.app_name@)
        )
        &&& self.step == Step::Directory ==> !self.use_current_dir
    }

    /// A fresh draft holding the documented defaults, positioned at the
    /// first prompt; `cwd` is the caller's current working directory, the
    /// default target.
    pub fn new(cwd: String) -> (r: Builder)
        ensures
            r.step == Step::PackageManager,
            r.dir == cwd,
            r.use_vscode == false,
            r.use_eslint == false,
            r.lang == Language::Js,
            r.app_name@.len() == 0,
            r.use_tailwind == true,
            r.use_current_dir == true,
            r.package_manager == PackageManager::Npm,
            r.wf(),
    {
        Builder {
            step: Step::PackageManager,
            dir: cwd,
            use_vscode: false,
            use_eslint: false,
            lang: Language::Js,
            app_name: String::new(),
            use_tailwind: true,
            use_current_dir: true,
            package_manager: PackageManager::Npm,
        }
    }

    /// Feeds the answer of the current single-choice prompt to the draft.
    /// A label outside the step's catalog is rejected and changes nothing,
    /// so the caller prompts again; an accepted label sets the step's field
    /// and moves to the next step.
    pub fn apply_selection(&mut self, label: &str) -> (accepted: bool)
        requires
            old(self).wf(),
            spec_step_is_select(old(self).step),
        ensures
            accepted <==> spec_select_accepts(old(self).step, label@),
            accepted <==> spec_catalog(old(self).step).contains(label@),
            !accepted ==> *final(self) == *old(self),
            accepted ==> final(self).step == spec_next_select_step(old(self).step),
            final(self).app_name == old(self).app_name,
            final(self).dir == old(self).dir,
            (accepted && old(self).step == Step::PackageManager) ==> spec_parse_package_manager(
                label@,
            ) == Some(final(self).package_manager),
            !(accepted && old(self).step == Step::PackageManager) ==> final(self).package_manager
                == old(self).package_manager,
            (accepted && old(self).step == Step::Language) ==> spec_parse_language(label@) == Some(
                final(self).lang,
            ),
            !(accepted && old(self).step == Step::Language) ==> final(self).lang == old(self).lang,
            (accepted && old(self).step == Step::Styling) ==> final(self).use_tailwind == (label@
                == "Yes"@),
            !(accepted && old(self).step == Step::Styling) ==> final(self).use_tailwind == old(
                self,
            ).use_tailwind,
            (accepted && old(self).step == Step::CurrentDir) ==> final(self).use_current_dir == (
            label@ == "Yes"@),
            !(accepted && old(self).step == Step::CurrentDir) ==> final(self).use_current_dir
                == old(self).use_current_dir,
            (accepted && old(self).step == Step::Editor) ==> final(self).use_vscode == (label@
                == "Yes"@),
            !(accepted && old(self).step == Step::Editor) ==> final(self).use_vscode == old(
                self,
            ).use_vscode,
            (accepted && old(self).step == Step::Linter) ==> final(self).use_eslint == (label@
                == "Yes"@),
            !(accepted && old(self).step == Step::Linter) ==> final(self).use_eslint == old(
                self,
            ).use_eslint,
            final(self).wf(),
    {
        proof {
            lemma_select_accepts_only_catalog(old(self).step, label@);
        }
        match self.step {
            Step::PackageManager => {
                match parse_package_manager(label) {
                    Some(pm) => {
                        self.package_manager = pm;
                        self.step = Step::Language;
                        true
                    },
                    None => false,
                }
            },
            Step::Language => {
                match parse_language(label) {
                    Some(lang) => {
                        self.lang = lang;
                        self.step = Step::Styling;
                        true
                    },
                    None => false,
                }
            },
            Step::Styling => {
                match parse_choice(label) {
                    Some(c) => {
                        self.use_tailwind = (c == Choice::Yes);
                        self.step = Step::CurrentDir;
                        true
                    },
                    None => false,
                }
            },
            Step::CurrentDir => {
                match parse_choice(label) {
                    Some(c) => {
                        self.use_current_dir = (c == Choice::Yes);
                        self.step = Step::Editor;
                        true
                    },
                    None => false,
                }
            },
            Step::Editor => {
                match parse_choice(label) {
                    Some(c) => {
                        self.use_vscode = (c == Choice::Yes);
                        self.step = Step::Linter;
                        true
                    },
                    None => false,
                }
            },
            Step::Linter => {
                match parse_choice(label) {
                    Some(c) => {
                        self.use_eslint = (c == Choice::Yes);
                        self.step = Step::ProjectName;
                        true
                    },
                    None => false,
                }
            },
            _ => false,
        }
    }

    /// Feeds one line of project-name input to the draft. A line that trims
    /// to nothing is rejected and changes nothing, so the caller prompts
    /// again; otherwise the trimmed name is stored and the draft moves on,
    /// to the directory prompt when the current directory was declined and
    /// straight to `Ready` otherwise.
    pub fn apply_project_name(&mut self, line: &str) -> (accepted: bool)
        requires
            old(self).wf(),
            old(self).step == Step::ProjectName,
        ensures
            accepted <==> !all_whitespace(line@),
            !accepted ==> *final(self) == *old(self),
            accepted ==> final(self).app_name@.len() > 0 && is_trimmed(final(self).app_name@),
            accepted ==> exists|i: int, j: int|
                trim_witness(line@, final(self).app_name@, i, j),
            accepted ==> final(self).step == (if old(self).use_current_dir {
                Step::Ready
            } else {
                Step::Directory
            }),
            final(self).dir == old(self).dir,
            final(self).lang == old(self).lang,
            final(self).package_manager == old(self).package_manager,
            final(self).use_vscode == old(self).use_vscode,
            final(self).use_eslint == old(self).use_eslint,
            final(self).use_tailwind == old(self).use_tailwind,
            final(self).use_current_dir == old(self).use_current_dir,
            final(self).wf(),
    {
        let trimmed = trimmed_of(line);
        if trimmed.as_str().is_empty() {
            false
        } else {
            self.app_name = trimmed;
            self.step = if self.use_current_dir {
                Step::Ready
            } else {
                Step::Directory
            };
            true
        }
    }

    /// Feeds the free-text target-directory line to the draft, together
    /// with the caller's judgement of it: `dir_valid` reports whether the
    /// host resolved the trimmed line to an existing, absolute directory —
    /// a fact only the caller's filesystem probe can establish. A line
    /// that trims to nothing, or one the probe rejected, changes nothing,
    /// so the caller prompts again; otherwise the trimmed path is stored
    /// and the draft becomes `Ready`. The stored target is therefore
    /// always either the working directory the draft started from or a
    /// path the probe vouched for.
    pub fn apply_directory(&mut self, line: &str, dir_valid: bool) -> (accepted: bool)
        requires
            old(self).wf(),
            old(self).step == Step::Directory,
        ensures
            accepted <==> (dir_valid && !all_whitespace(line@)),
            !accepted ==> *final(self) == *old(self),
            accepted ==> final(self).step == Step::Ready,
            accepted ==> final(self).dir@.len() > 0,
            accepted ==> exists|i: int, j: int| trim_witness(line@, final(self).dir@, i, j),
            final(self).app_name == old(self).app_name,
            final(self).lang == old(self).lang,
            final(self).package_manager == old(self).package_manager,
            final(self).use_vscode == old(self).use_vscode,
            final(self).use_eslint == old(self).use_eslint,
            final(self).use_tailwind == old(self).use_tailwind,
            final(self).use_current_dir == old(self).use_current_dir,
            final(self).wf(),
    {
        let trimmed = trimmed_of(line);
        if !dir_valid || trimmed.as_str().is_empty() {
            return false;
        }
        self.dir = trimmed;
        self.step = Step::Ready;
        proof {
            let (i, j) = choose|i: int, j: int| trim_witness(line@, trimmed@, i, j);
            assert(self.dir@ == trimmed@);
            assert(trim_witness(line@, self.dir@, i, j));
        }
        true
    }

    /// Seals a fully answered draft into the finalized configuration the
    /// orchestrator consumes. Only a `Ready` draft can be finished, so the
    /// result always satisfies `ProjectConfig::wf`.
    pub fn finish(&self) -> (c: ProjectConfig)
        requires
            self.wf(),
            self.step == Step::Ready,
        ensures
            c.wf(),
            c.dir == self.dir,
            c.app_name == self.app_name,
            c.lang == self.lang,
            c.package_manager == self.package_manager,
            c.use_vscode == self.use_vscode,
            c.use_eslint == self.use_eslint,
            c.use_tailwind == self.use_tailwind,
            c.use_current_dir == self.use_current_dir,
    {
        ProjectConfig {
            dir: self.dir.clone(),
            use_vscode: self.use_vscode,
            use_eslint: self.use_eslint,
            lang: self.lang,
            app_name: self.app_name.clone(),
            use_tailwind: self.use_tailwind,
            use_current_dir: self.use_current_dir,
            package_manager: self.package_manager,
        }
    }
}

/// An empty or whitespace-only project name never reaches the orchestrator:
/// any draft that has become `Ready` — the only state `finish` accepts —
/// carries a name that is non-empty even after trimming.
pub proof fn lemma_ready_name_nonempty(b: Builder)
    requires
        b.wf(),
        b.step == Step::Ready,
    ensures
        b.app_name@.len() > 0,
        is_trimmed(b.app_name@),
        !all_whitespace(b.app_name@),
{
    assert(!crate::text::is_space_char(b.app_name@[0]));
}

} // verus!
