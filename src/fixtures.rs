//! Texts that scenarios write or expect: issue links, search paths,
//! environment files and option reports.
use vstd::prelude::*;
use crate::assertion::texts;
use crate::text::{decimal, push_decimal};

verus! {

pub open spec fn issue_link_spec(issue: nat) -> Seq<char> {
    "https://github.com/pantsbuild/scie-pants/issues/"@ + decimal(issue)
}

/// The web address of the launcher's issue with the given number.
pub fn issue_link(issue: usize) -> (r: String)
    ensures
        r@ == issue_link_spec(issue as nat),
{
    let mut out = String::from_str("https://github.com/pantsbuild/scie-pants/issues/");
    push_decimal(&mut out, issue as u64);
    out
}

pub open spec fn bin_name_report(name: Seq<char>) -> Seq<char> {
    "current value: "@ + name + " (from env var PANTS_BIN_NAME)"@
}

/// The line that an options listing prints when the binary name came from
/// the environment.
pub fn bin_name_expectation(name: &str) -> (r: String)
    ensures
        r@ == bin_name_report(name@),
{
    let mut out = String::from_str("current value: ");
    out.append(name);
    out.append(" (from env var PANTS_BIN_NAME)");
    out
}

pub open spec fn search_path_spec(first: Seq<char>, existing: Option<Seq<char>>, sep: Seq<char>) -> Seq<char> {
    match existing {
        Some(rest) => first + sep + rest,
        None => first,
    }
}

/// A program search path that looks in `first` before the existing path, if
/// there is one.
pub fn prepend_search_path(first: &str, existing: Option<&str>, sep: &str) -> (r: String)
    ensures
        r@ == search_path_spec(
            first@,
            match existing {
                Some(e) => Some(e@),
                None => None,
            },
            sep@,
        ),
{
    let mut out = String::from_str(first);
    if let Some(rest) = existing {
        out.append(sep);
        out.append(rest);
    }
    out
}

pub open spec fn config_override_env_spec(config_path: Seq<char>) -> Seq<char> {
    "\nexport PANTS_TOML="@ + config_path + "\nexport PANTS_CONFIG_FILES=${PANTS_TOML}\n"@
}

/// An environment file that points both the launcher and the build tool at
/// one configuration file, the second export going through the first.
pub fn config_override_env(config_path: &str) -> (r: String)
    ensures
        r@ == config_override_env_spec(config_path@),
{
    let mut out = String::from_str("\nexport PANTS_TOML=");
    out.append(config_path);
    out.append("\nexport PANTS_CONFIG_FILES=${PANTS_TOML}\n");
    out
}

pub open spec fn version_config_spec(version: Seq<char>) -> Seq<char> {
    "\n[GLOBAL]\npants_version = \""@ + version + "\"\n"@
}

/// A configuration file that pins the build tool's version.
pub fn version_config(version: &str) -> (r: String)
    ensures
        r@ == version_config_spec(version@),
{
    let mut out = String::from_str("\n[GLOBAL]\npants_version = \"");
    out.append(version);
    out.append("\"\n");
    out
}

/// A persisted source fixture is reused exactly when both its checkout and
/// its virtual environment are present; nothing checks their freshness.
pub fn fixture_is_cached(checkout_present: bool, venv_present: bool) -> (r: bool)
    ensures
        r == (checkout_present && venv_present),
{
    checkout_present && venv_present
}

pub open spec fn tools_goals_spec(check_only: bool) -> Seq<Seq<char>> {
    let checks = seq!["lint"@, "check"@, "test"@, "package"@, "::"@];
    if check_only {
        checks
    } else {
        seq!["fmt"@] + checks
    }
}

/// The goals run over the tools codebase: formatting first unless only
/// checking, then lint, check, test and package over every target.
pub fn tools_goals(check_only: bool) -> (r: Vec<String>)
    ensures
        texts(r@) == tools_goals_spec(check_only),
{
    let mut v: Vec<String> = Vec::new();
    if !check_only {
        v.push(String::from_str("fmt"));
    }
    v.push(String::from_str("lint"));
    v.push(String::from_str("check"));
    v.push(String::from_str("test"));
    v.push(String::from_str("package"));
    v.push(String::from_str("::"));
    assert(texts(v@) =~= tools_goals_spec(check_only));
    v
}

} // verus!
