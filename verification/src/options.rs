use vstd::prelude::*;
use vstd::string::*;
use crate::config::{Choice, Language, PackageManager};
use crate::text::str_eq;

verus! {

/// The ordered labels of the package-manager prompt.
pub open spec fn spec_package_manager_labels() -> Seq<Seq<char>> {
    seq!["NPM"@, "Yarn"@]
}

/// The ordered labels of the language prompt.
pub open spec fn spec_language_labels() -> Seq<Seq<char>> {
    seq!["JS"@, "TS"@]
}

/// The ordered labels of every yes/no prompt.
pub open spec fn spec_yes_no_labels() -> Seq<Seq<char>> {
    seq!["Yes"@, "No"@]
}

/// The option catalog shown for the package-manager prompt.
pub fn package_manager_options() -> (r: Vec<String>)
    ensures
        r@.len() == 2,
        r@[0]@ == "NPM"@,
        r@[1]@ == "Yarn"@,
{
    let mut v: Vec<String> = Vec::new();
    v.push(String::from_str("NPM"));
    v.push(String::from_str("Yarn"));
    v
}

/// The option catalog shown for the language prompt.
pub fn language_options() -> (r: Vec<String>)
    ensures
        r@.len() == 2,
        r@[0]@ == "JS"@,
        r@[1]@ == "TS"@,
{
    let mut v: Vec<String> = Vec::new();
    v.push(String::from_str("JS"));
    v.push(String::from_str("TS"));
    v
}

/// The option catalog shown for each yes/no prompt.
pub fn yes_no_options() -> (r: Vec<String>)
    ensures
        r@.len() == 2,
        r@[0]@ == "Yes"@,
        r@[1]@ == "No"@,
{
    let mut v: Vec<String> = Vec::new();
    v.push(String::from_str("Yes"));
    v.push(String::from_str("No"));
    v
}

pub open spec fn spec_parse_package_manager(l: Seq<char>) -> Option<PackageManager> {
    if l == "NPM"@ {
        Some(PackageManager::Npm)
    } else if l == "Yarn"@ {
        Some(PackageManager::Yarn)
    } else {
        None
    }
}

/// Resolves a package-manager label; only the listed labels are accepted.
pub fn parse_package_manager(label: &str) -> (r: Option<PackageManager>)
    ensures
        r == spec_parse_package_manager(label@),
{
    if str_eq(label, "NPM") {
        Some(PackageManager::Npm)
    } else if str_eq(label, "Yarn") {
        Some(PackageManager::Yarn)
    } else {
        None
    }
}

pub open spec fn spec_parse_language(l: Seq<char>) -> Option<Language> {
    if l == "JS"@ {
        Some(Language::Js)
    } else if l == "TS"@ {
        Some(Language::Ts)
    } else {
        None
    }
}

/// Resolves a language label; only the listed labels are accepted.
pub fn parse_language(label: &str) -> (r: Option<Language>)
    ensures
        r == spec_parse_language(label@),
{
    if str_eq(label, "JS") {
        Some(Language::Js)
    } else if str_eq(label, "TS") {
        Some(Language::Ts)
    } else {
        None
    }
}

pub open spec fn spec_parse_choice(l: Seq<char>) -> Option<Choice> {
    if l == "Yes"@ {
        Some(Choice::Yes)
    } else if l == "No"@ {
        Some(Choice::No)
    } else {
        None
    }
}

/// Resolves a yes/no label; only the listed labels are accepted.
pub fn parse_choice(label: &str) -> (r: Option<Choice>)
    ensures
        r == spec_parse_choice(label@),
{
    if str_eq(label, "Yes") {
        Some(Choice::Yes)
    } else if str_eq(label, "No") {
        Some(Choice::No)
    } else {
        None
    }
}

/// Membership in a two-label catalog is exactly equality with one of the two
/// labels; this ties each parser's acceptance to its catalog.
pub proof fn lemma_pair_catalog_contains(s: Seq<Seq<char>>, a: Seq<char>, b: Seq<char>, l: Seq<char>)
    requires
        s =~= seq![a, b],
    ensures
        s.contains(l) <==> (l == a || l == b),
{
    if l == a {
        assert(s[0] == l);
        assert(s.contains(l));
    } else if l == b {
        assert(s[1] == l);
        assert(s.contains(l));
    }
    if s.contains(l) {
        let k = choose|k: int| 0 <= k < s.len() && s[k] == l;
        assert(k == 0 || k == 1);
    }
}

} // verus!
