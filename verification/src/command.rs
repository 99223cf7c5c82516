use vstd::prelude::*;
use vstd::string::*;
use crate::config::{Language, PackageManager, ProjectConfig};

verus! {

/// The name the generator knows the package manager by.
pub open spec fn spec_pm_name(pm: PackageManager) -> Seq<char> {
    match pm {
        PackageManager::Npm => "npm"@,
        PackageManager::Yarn => "yarn"@,
    }
}

/// The package-manager flag of the generator command line.
pub open spec fn spec_pm_flag(pm: PackageManager) -> Seq<char> {
    "--use-"@ + spec_pm_name(pm)
}

/// The lint flag: positive when linting was chosen, negative otherwise.
pub open spec fn spec_lint_flag(use_eslint: bool) -> Seq<char> {
    if use_eslint {
        "--eslint"@
    } else {
        "--no-eslint"@
    }
}

/// The language flag of the generator command line.
pub open spec fn spec_lang_flag(lang: Language) -> Seq<char> {
    match lang {
        Language::Js => "--js"@,
        Language::Ts => "--ts"@,
    }
}

pub open spec fn is_pm_flag(t: Seq<char>) -> bool {
    t == spec_pm_flag(PackageManager::Npm) || t == spec_pm_flag(PackageManager::Yarn)
}

pub open spec fn is_lint_flag(t: Seq<char>) -> bool {
    t == spec_lint_flag(true) || t == spec_lint_flag(false)
}

/// The generator command line as an ordered list of shell words: the runner
/// invocation, the generator package, the project name, then one flag each
/// for the package manager, linting and the language.
pub open spec fn spec_command_tokens(c: ProjectConfig) -> Seq<Seq<char>> {
    seq![
        "npx"@,
        "create-next-app@latest"@,
        c.app_name@,
        spec_pm_flag(c.package_manager),
        spec_lint_flag(c.use_eslint),
        spec_lang_flag(c.lang),
    ]
}

/// The full command line: the six words joined by single blanks.
pub open spec fn spec_command_line(c: ProjectConfig) -> Seq<char> {
    "npx"@ + " "@ + "create-next-app@latest"@ + " "@ + c.app_name@ + " "@ + spec_pm_flag(
        c.package_manager,
    ) + " "@ + spec_lint_flag(c.use_eslint) + " "@ + spec_lang_flag(c.lang)
}

/// Words joined by single blanks.
pub open spec fn spec_join_words(ts: Seq<Seq<char>>) -> Seq<char>
    decreases ts.len(),
{
    if ts.len() == 0 {
        Seq::empty()
    } else if ts.len() == 1 {
        ts[0]
    } else {
        ts[0] + " "@ + spec_join_words(ts.drop_first())
    }
}

/// The command line handed to the shell is exactly the token list joined by
/// blanks, so what is proved of the tokens speaks of the line that runs.
pub proof fn lemma_command_line_is_joined_tokens(c: ProjectConfig)
    ensures
        spec_command_line(c) == spec_join_words(spec_command_tokens(c)),
{
    let ts = spec_command_tokens(c);
    let t1 = "create-next-app@latest"@;
    let t2 = c.app_name@;
    let t3 = spec_pm_flag(c.package_manager);
    let t4 = spec_lint_flag(c.use_eslint);
    let t5 = spec_lang_flag(c.lang);
    let s5 = seq![t5];
    let s4 = seq![t4, t5];
    let s3 = seq![t3, t4, t5];
    let s2 = seq![t2, t3, t4, t5];
    let s1 = seq![t1, t2, t3, t4, t5];
    assert(ts.drop_first() =~= s1);
    assert(s1.drop_first() =~= s2);
    assert(s2.drop_first() =~= s3);
    assert(s3.drop_first() =~= s4);
    assert(s4.drop_first() =~= s5);
    assert(spec_join_words(s5) == t5);
    assert(spec_join_words(s4) == t4 + " "@ + t5);
    assert(spec_join_words(s3) == t3 + " "@ + (t4 + " "@ + t5));
    assert(spec_join_words(s2) == t2 + " "@ + (t3 + " "@ + (t4 + " "@ + t5)));
    assert(spec_join_words(s1) == t1 + " "@ + (t2 + " "@ + (t3 + " "@ + (t4 + " "@ + t5))));
    assert(spec_join_words(ts) == "npx"@ + " "@ + (t1 + " "@ + (t2 + " "@ + (t3 + " "@ + (t4
        + " "@ + t5)))));
    assert(spec_command_line(c) =~= spec_join_words(ts));
}

impl ProjectConfig {
    /// The lint flag this configuration asks of the generator.
    pub fn should_lint(&self) -> (r: &'static str)
        ensures
            r@ == spec_lint_flag(self.use_eslint),
    {
        if self.use_eslint {
            "--eslint"
        } else {
            "--no-eslint"
        }
    }

    /// The package-manager name this configuration hands to the generator.
    pub fn pm_name(&self) -> (r: &'static str)
        ensures
            r@ == spec_pm_name(self.package_manager),
    {
        match self.package_manager {
            PackageManager::Npm => "npm",
            PackageManager::Yarn => "yarn",
        }
    }

    /// The language flag this configuration hands to the generator.
    pub fn lang_flag(&self) -> (r: &'static str)
        ensures
            r@ == spec_lang_flag(self.lang),
    {
        match self.lang {
            Language::Js => "--js",
            Language::Ts => "--ts",
        }
    }

    /// Builds the single command line handed to the shell to invoke the
    /// project generator.
    pub fn generator_command(&self) -> (r: String)
        ensures
            r@ == spec_command_line(*self),
    {
        let mut r = String::from_str("npx");
        r.append(" ");
        r.append("create-next-app@latest");
        r.append(" ");
        r.append(self.app_name.as_str());
        r.append(" ");
        r.append("--use-");
        r.append(self.pm_name());
        r.append(" ");
        r.append(self.should_lint());
        r.append(" ");
        r.append(self.lang_flag());
        proof {
            assert(r@ =~= spec_command_line(*self));
        }
        r
    }
}

/// No two of the fixed command words are equal, so a flag can occur in the
/// token list only at its own position.
proof fn lemma_fixed_tokens_distinct()
    ensures
        !is_pm_flag("npx"@),
        !is_pm_flag("create-next-app@latest"@),
        !is_pm_flag(spec_lint_flag(true)),
        !is_pm_flag(spec_lint_flag(false)),
        !is_pm_flag(spec_lang_flag(Language::Js)),
        !is_pm_flag(spec_lang_flag(Language::Ts)),
        !is_lint_flag("npx"@),
        !is_lint_flag("create-next-app@latest"@),
        !is_lint_flag(spec_pm_flag(PackageManager::Npm)),
        !is_lint_flag(spec_pm_flag(PackageManager::Yarn)),
        !is_lint_flag(spec_lang_flag(Language::Js)),
        !is_lint_flag(spec_lang_flag(Language::Ts)),
        spec_lint_flag(true) != spec_lint_flag(false),
        spec_pm_flag(PackageManager::Npm) != spec_pm_flag(PackageManager::Yarn),
{
    reveal_strlit("npx");
    reveal_strlit("create-next-app@latest");
    reveal_strlit("--use-");
    reveal_strlit("npm");
    reveal_strlit("yarn");
    reveal_strlit("--eslint");
    reveal_strlit("--no-eslint");
    reveal_strlit("--js");
    reveal_strlit("--ts");
    assert("npx"@.len() == 3);
    assert("create-next-app@latest"@.len() == 22);
    assert(spec_pm_flag(PackageManager::Npm).len() == 9);
    assert(spec_pm_flag(PackageManager::Yarn).len() == 10);
    assert(spec_lint_flag(true).len() == 8);
    assert(spec_lint_flag(false).len() == 11);
    assert(spec_lang_flag(Language::Js).len() == 4);
    assert(spec_lang_flag(Language::Ts).len() == 4);
}

/// The generator command line holds exactly one package-manager flag and
/// exactly one lint flag, each the one the configuration asks for; the lint
/// flag is the positive one exactly when linting was chosen. The project
/// name is assumed not to spell a flag itself.
pub proof fn lemma_command_flags_exclusive(c: ProjectConfig)
    requires
        !is_pm_flag(c.app_name@),
        !is_lint_flag(c.app_name@),
    ensures
        spec_command_tokens(c).len() == 6,
        spec_command_tokens(c)[3] == spec_pm_flag(c.package_manager),
        is_pm_flag(spec_command_tokens(c)[3]),
        forall|k: int|
            0 <= k < spec_command_tokens(c).len() && k != 3 ==> !is_pm_flag(
                spec_command_tokens(c)[k],
            ),
        spec_command_tokens(c)[4] == spec_lint_flag(c.use_eslint),
        is_lint_flag(spec_command_tokens(c)[4]),
        c.use_eslint <==> spec_command_tokens(c)[4] == spec_lint_flag(true),
        forall|k: int|
            0 <= k < spec_command_tokens(c).len() && k != 4 ==> !is_lint_flag(
                spec_command_tokens(c)[k],
            ),
{
    lemma_fixed_tokens_distinct();
    let ts = spec_command_tokens(c);
    assert(ts[0] == "npx"@);
    assert(ts[1] == "create-next-app@latest"@);
    assert(ts[2] == c.app_name@);
    assert(ts[3] == spec_pm_flag(c.package_manager));
    assert(ts[4] == spec_lint_flag(c.use_eslint));
    assert(ts[5] == spec_lang_flag(c.lang));
    if c.use_eslint {
        assert(ts[4] == spec_lint_flag(true));
    } else {
        assert(spec_lint_flag(true) != spec_lint_flag(false));
    }
}

} // verus!
