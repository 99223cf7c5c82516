use next_scaffold::builder::{Builder, Step};
use next_scaffold::config::{Choice, Language, PackageManager};
use next_scaffold::options::{
    language_options, package_manager_options, parse_choice, parse_language,
    parse_package_manager, yes_no_options,
};
use next_scaffold::parse_project_kind;
use next_scaffold::ProjectKind;
use next_scaffold::text::trimmed_of;

#[test]
fn package_manager_catalog_is_fixed() {
    let opts = package_manager_options();
    assert_eq!(opts.len(), 2);
    assert_eq!(opts[0], "NPM");
    assert_eq!(opts[1], "Yarn");
}

#[test]
fn language_catalog_is_fixed() {
    let opts = language_options();
    assert_eq!(opts.len(), 2);
    assert_eq!(opts[0], "JS");
    assert_eq!(opts[1], "TS");
}

#[test]
fn yes_no_catalog_is_fixed() {
    let opts = yes_no_options();
    assert_eq!(opts.len(), 2);
    assert_eq!(opts[0], "Yes");
    assert_eq!(opts[1], "No");
}

#[test]
fn parsers_accept_only_listed_labels() {
    assert_eq!(parse_package_manager("NPM"), Some(PackageManager::Npm));
    assert_eq!(parse_package_manager("Yarn"), Some(PackageManager::Yarn));
    assert_eq!(parse_package_manager("npm"), None);
    assert_eq!(parse_package_manager(""), None);
    assert_eq!(parse_language("JS"), Some(Language::Js));
    assert_eq!(parse_language("TS"), Some(Language::Ts));
    assert_eq!(parse_language("Rust"), None);
    assert_eq!(parse_choice("Yes"), Some(Choice::Yes));
    assert_eq!(parse_choice("No"), Some(Choice::No));
    assert_eq!(parse_choice("False"), None);
    assert_eq!(parse_choice("no"), None);
}

#[test]
fn builder_starts_with_defaults() {
    let b = Builder::new(String::from("/work"));
    assert_eq!(b.step, Step::PackageManager);
    assert_eq!(b.dir, "/work");
    assert!(!b.use_vscode);
    assert!(!b.use_eslint);
    assert_eq!(b.lang, Language::Js);
    assert_eq!(b.app_name, "");
    assert!(b.use_tailwind);
    assert!(b.use_current_dir);
    assert_eq!(b.package_manager, PackageManager::Npm);
}

#[test]
fn builder_rejects_unlisted_labels_and_stays_put() {
    let mut b = Builder::new(String::from("/work"));
    assert!(!b.apply_selection("npm"));
    assert!(!b.apply_selection("Maybe"));
    assert_eq!(b.step, Step::PackageManager);
    assert!(b.apply_selection("Yarn"));
    assert_eq!(b.step, Step::Language);
    assert!(!b.apply_selection("Yarn"));
    assert_eq!(b.step, Step::Language);
    assert!(b.apply_selection("TS"));
    assert_eq!(b.step, Step::Styling);
    assert!(!b.apply_selection("False"));
    assert!(b.apply_selection("No"));
    assert!(!b.use_tailwind);
}

#[test]
fn builder_requires_nonempty_project_name() {
    let mut b = Builder::new(String::from("/work"));
    assert!(b.apply_selection("NPM"));
    assert!(b.apply_selection("JS"));
    assert!(b.apply_selection("Yes"));
    assert!(b.apply_selection("Yes"));
    assert!(b.apply_selection("No"));
    assert!(b.apply_selection("Yes"));
    assert_eq!(b.step, Step::ProjectName);
    assert!(!b.apply_project_name(""));
    assert!(!b.apply_project_name("\n"));
    assert!(!b.apply_project_name("   \t\r\n"));
    assert_eq!(b.step, Step::ProjectName);
    assert!(b.apply_project_name("demo\n"));
    assert_eq!(b.app_name, "demo");
    assert_eq!(b.step, Step::Ready);
    let c = b.finish();
    assert_eq!(c.app_name, "demo");
    assert!(!c.app_name.is_empty());
}

#[test]
fn builder_asks_for_directory_when_current_declined() {
    let mut b = Builder::new(String::from("/work"));
    assert!(b.apply_selection("NPM"));
    assert!(b.apply_selection("JS"));
    assert!(b.apply_selection("Yes"));
    assert!(b.apply_selection("No"));
    assert!(b.apply_selection("No"));
    assert!(b.apply_selection("No"));
    assert!(b.apply_project_name("demo\n"));
    assert_eq!(b.step, Step::Directory);
    // A path the host probe rejected, or a blank line, changes nothing.
    assert!(!b.apply_directory("/tmp/apps\n", false));
    assert!(!b.apply_directory("  \n", true));
    assert_eq!(b.step, Step::Directory);
    assert_eq!(b.dir, "/work");
    assert!(b.apply_directory("/tmp/apps\n", true));
    assert_eq!(b.step, Step::Ready);
    let c = b.finish();
    assert_eq!(c.dir, "/tmp/apps");
    assert!(!c.use_current_dir);
}

#[test]
fn trimming_strips_whitespace_margins() {
    assert_eq!(trimmed_of("demo\n"), "demo");
    assert_eq!(trimmed_of("  a b \t"), "a b");
    assert_eq!(trimmed_of(""), "");
    assert_eq!(trimmed_of(" \r\n\t "), "");
    assert_eq!(trimmed_of("x"), "x");
}

#[test]
fn only_the_known_project_kind_is_recognized() {
    assert_eq!(parse_project_kind("next_app"), Some(ProjectKind::NextApp));
    assert_eq!(parse_project_kind("unknown"), None);
    assert_eq!(parse_project_kind(""), None);
    assert_eq!(parse_project_kind("Next_App"), None);
}
