//! Manifest text inspection: the declared default-run binary and the
//! presence of the profiling profile, read from manifest text.

use vstd::prelude::*;

verus! {

/// Names the default-run binary that manifest text declares: the result of
/// parsing the text as a package manifest and reading the package's
/// `default-run` key, a function of the text alone. `None` when the text
/// does not parse, has no package table, or has no such key.
pub uninterp spec fn default_run_of(content: Seq<char>) -> Option<Seq<char>>;

/// Relies on `cargo_toml::Manifest::from_str` and the manifest's
/// `package.default_run` field.
#[verifier::external_body]
pub(crate) fn manifest_default_run(content: &str) -> (r: Option<String>)
    ensures
        r matches Some(s) ==> default_run_of(content@) matches Some(v) && s@ == v,
        r is None ==> default_run_of(content@) is None,
{
    match cargo_toml::Manifest::from_str(content) {
        Ok(m) => m.package.and_then(|p| p.default_run),
        Err(_) => None,
    }
}

/// Names what the toml parse shows of the profiling profile in manifest
/// text, a function of the text alone: `None` when the text is not valid
/// TOML, else whether a `profile` table with a `samply` entry is present.
pub uninterp spec fn samply_profile_of(content: Seq<char>) -> Option<bool>;

/// Relies on `toml::Table`'s `FromStr` parse, `toml::map::Map::get` and
/// `toml::Value::as_table`.
#[verifier::external_body]
pub(crate) fn manifest_samply_profile(content: &str) -> (r: Result<bool, String>)
    ensures
        r matches Ok(b) ==> samply_profile_of(content@) matches Some(v) && b == v,
        r is Err ==> samply_profile_of(content@) is None,
{
    match <toml::Table as core::str::FromStr>::from_str(content) {
        Ok(t) => Ok(
            t.get("profile").and_then(|p| p.as_table()).and_then(|p| p.get("samply")).is_some(),
        ),
        Err(e) => Err(e.to_string()),
    }
}

/// Reads manifest text and reports whether it declares the profiling
/// profile, or that it could not be parsed.
pub fn has_samply_profile(content: &str) -> (r: Result<bool, crate::error::Error>)
    ensures
        samply_profile_of(content@) matches Some(b) ==> (r matches Ok(rb) && rb == b),
        samply_profile_of(content@) is None ==> (r matches Err(e) && e matches
            crate::error::Error::Toml { message: _ }),
{
    match manifest_samply_profile(content) {
        Ok(b) => Ok(b),
        Err(m) => Err(crate::error::Error::Toml { message: m }),
    }
}

} // verus!
