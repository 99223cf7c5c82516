use next_scaffold::builder::Builder;
use next_scaffold::config::{Language, PackageManager, ProjectConfig};
use next_scaffold::orchestrator::{planned_flow_actions, Action, Env};
use next_scaffold::messages::{
    build_failed_message, building_message, editor_missing_message, editor_url_message,
    invalid_directory_message, runtime_missing_message, unknown_kind_message,
};

fn config(name: &str, pm: PackageManager, lang: Language, lint: bool) -> ProjectConfig {
    ProjectConfig {
        dir: String::from("/work"),
        use_vscode: false,
        use_eslint: lint,
        lang,
        app_name: String::from(name),
        use_tailwind: true,
        use_current_dir: true,
        package_manager: pm,
    }
}

#[test]
fn scenario_defaults_build_the_documented_command_line() {
    // kind = next_app, runtime present, first package manager, styling yes,
    // current dir yes, editor no, lint yes, name "demo".
    let mut b = Builder::new(String::from("/work"));
    assert!(b.apply_selection("NPM"));
    assert!(b.apply_selection("JS"));
    assert!(b.apply_selection("Yes"));
    assert!(b.apply_selection("Yes"));
    assert!(b.apply_selection("No"));
    assert!(b.apply_selection("Yes"));
    assert!(b.apply_project_name("demo\n"));
    let c = b.finish();
    assert!(!c.use_vscode);
    let cmd = c.generator_command();
    assert_eq!(cmd, "npx create-next-app@latest demo --use-npm --eslint --js");
    let env = Env {
        node_present: true,
        yarn_present: true,
        install_ok: true,
        generator_ok: true,
        editor_ok: true,
    };
    // With the runtime present, only the generator runs: no install for the
    // first package manager and no editor invocation.
    assert_eq!(planned_flow_actions(&c, env), vec![Action::Generate]);
}

#[test]
fn command_line_reflects_every_choice() {
    let c = config("site", PackageManager::Yarn, Language::Ts, false);
    assert_eq!(
        c.generator_command(),
        "npx create-next-app@latest site --use-yarn --no-eslint --ts"
    );
}

#[test]
fn lint_flag_follows_the_choice() {
    let with_lint = config("a", PackageManager::Npm, Language::Js, true);
    let without_lint = config("a", PackageManager::Npm, Language::Js, false);
    assert_eq!(with_lint.should_lint(), "--eslint");
    assert_eq!(without_lint.should_lint(), "--no-eslint");
}

#[test]
fn command_line_has_exactly_one_flag_of_each_kind() {
    let c = config("demo", PackageManager::Npm, Language::Js, true);
    let cmd = c.generator_command();
    let words: Vec<&str> = cmd.split(' ').collect();
    let pm_flags = words.iter().filter(|w| **w == "--use-npm" || **w == "--use-yarn").count();
    let lint_flags = words.iter().filter(|w| **w == "--eslint" || **w == "--no-eslint").count();
    assert_eq!(pm_flags, 1);
    assert_eq!(lint_flags, 1);
    assert_eq!(words[3], "--use-npm");
    assert_eq!(words[4], "--eslint");
}

#[test]
fn diagnostics_carry_their_remediation_links() {
    assert_eq!(
        runtime_missing_message(),
        "Error: Please install the latest version of Nodejs. https://nodejs.org/en/"
    );
    assert_eq!(
        editor_missing_message(),
        "Could not find a copy of Visual Studio Code. Please, install it."
    );
    assert_eq!(editor_url_message(), "https://code.visualstudio.com/");
    assert_eq!(building_message(), "Building NextJs project...");
    assert_eq!(build_failed_message(), "Error: Something went wrong");
    assert_eq!(
        invalid_directory_message(),
        "The directory must be an existing, absolute path."
    );
}

#[test]
fn unknown_kind_is_named_in_its_diagnostic() {
    assert_eq!(
        unknown_kind_message("unknown"),
        "ERROR: Project unknown doesn't exist."
    );
}
