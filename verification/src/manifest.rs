//! Reading the package name out of a project manifest.
//!
//! The manifest is TOML. Parsing it is left to the `toml` crate; which keys
//! are looked up, and what their absence means, is decided here.

use vstd::prelude::*;
use vstd::string::*;
use crate::error::{ErrorKind, PipelineError};
use crate::path::{join, join_spec, Platform};

verus! {

/// A parsed TOML value of the `toml` crate. Nothing of its inside is known
/// to the proofs but what the functions below say.
#[verifier::external_type_specification]
#[verifier::external_body]
pub struct ExTomlValue(toml::Value);

/// What `str::parse::<toml::Value>` makes of `text`: the document, or `None`
/// where the text is not TOML.
pub uninterp spec fn document_of(text: Seq<char>) -> Option<toml::Value>;

/// What `toml::Value::get` finds under the string key `key`: the entry of a
/// table that has one of that name.
pub uninterp spec fn entry_of(item: toml::Value, key: Seq<char>) -> Option<toml::Value>;

/// What `toml::Value::as_str` returns: the string that `item` is, if it is
/// one.
pub uninterp spec fn text_of(item: toml::Value) -> Option<Seq<char>>;

/// What `toml::Value::as_bool` returns: the boolean that `item` is, if it is
/// one.
pub uninterp spec fn flag_of(item: toml::Value) -> Option<bool>;

/// Calls `str::parse::<toml::Value>`, the crate's `FromStr` for `Value`.
/// Trusted: the result is the crate's reading of the text, and `None` stands
/// for every parse error.
#[verifier::external_body]
pub(crate) fn parse_document(text: &str) -> (doc: Option<toml::Value>)
    ensures
        doc == document_of(text@),
{
    text.parse::<toml::Value>().ok()
}

/// Calls `toml::Value::get` with a string key. Trusted: the result is the
/// entry of that name where the value is a table holding it, and `None`
/// otherwise.
#[verifier::external_body]
pub(crate) fn entry<'a>(item: &'a toml::Value, key: &str) -> (found: Option<&'a toml::Value>)
    ensures
        match found {
            Some(v) => entry_of(*item, key@) == Some(*v),
            None => entry_of(*item, key@) is None,
        },
{
    item.get(key)
}

/// Calls `toml::Value::as_str`. Trusted: the result is the string held by a
/// string value, and `None` for a value of any other type.
#[verifier::external_body]
pub(crate) fn text<'a>(item: &'a toml::Value) -> (s: Option<&'a str>)
    ensures
        match s {
            Some(t) => text_of(*item) == Some(t@),
            None => text_of(*item) is None,
        },
{
    item.as_str()
}

/// Calls `toml::Value::as_bool`. Trusted: the result is the boolean held by a
/// boolean value, and `None` for a value of any other type.
#[verifier::external_body]
pub(crate) fn flag(item: &toml::Value) -> (b: Option<bool>)
    ensures
        b == flag_of(*item),
{
    item.as_bool()
}

/// The package name that a parsed manifest declares: the string under `name`
/// in the table under `package`.
pub open spec fn package_in_spec(doc: toml::Value) -> Option<Seq<char>> {
    match entry_of(doc, "package"@) {
        Some(package) => match entry_of(package, "name"@) {
            Some(name) => text_of(name),
            None => None,
        },
        None => None,
    }
}

/// The package name that a manifest's text declares, if it parses and
/// declares one.
pub open spec fn package_name_spec(manifest: Seq<char>) -> Option<Seq<char>> {
    match document_of(manifest) {
        Some(doc) => package_in_spec(doc),
        None => None,
    }
}

/// Compares a returned string with the sequence a contract names.
pub open spec fn same_text(got: Option<String>, want: Option<Seq<char>>) -> bool {
    match got {
        Some(s) => want == Some(s@),
        None => want is None,
    }
}

/// Looks the package name up in a parsed manifest. It is there exactly when
/// `package` is a table whose `name` is a string.
pub fn package_in(doc: &toml::Value) -> (name: Option<String>)
    ensures
        same_text(name, package_in_spec(*doc)),
{
    match entry(doc, "package") {
        Some(package) => match entry(package, "name") {
            Some(name) => match text(name) {
                Some(t) => Some(String::from_str(t)),
                None => None,
            },
            None => None,
        },
        None => None,
    }
}

/// Parses a manifest and returns the package name it declares.
pub fn package_name(manifest: &str) -> (name: Option<String>)
    ensures
        same_text(name, package_name_spec(manifest@)),
{
    match parse_document(manifest) {
        Some(doc) => package_in(&doc),
        None => None,
    }
}

/// Where the manifest of the project at `project_path` lies.
pub open spec fn manifest_path_spec(project_path: Seq<char>, platform: Platform) -> Seq<char> {
    join_spec(project_path, "Cargo.toml"@, platform)
}

/// The path of the manifest of the project at `project_path`.
pub fn manifest_path(project_path: &str, platform: Platform) -> (out: String)
    ensures
        out@ == manifest_path_spec(project_path@, platform),
{
    join(project_path, "Cargo.toml", platform)
}

/// What reading the manifest of a project comes to. `manifest` is the text
/// of the file at the manifest's path, or `None` where it could not be read.
///
/// Without the text the result is `ManifestRead`; with a text that declares
/// no package name, `ManifestParse`; both name the manifest's path.
/// Otherwise it is the declared name.
pub fn read_package_name(project_path: &str, manifest: Option<&str>, platform: Platform) -> (r:
    Result<String, PipelineError>)
    ensures
        match manifest {
            None => r is Err && r->Err_0.is(
                ErrorKind::ManifestRead,
                manifest_path_spec(project_path@, platform),
            ),
            Some(text) => match package_name_spec(text@) {
                None => r is Err && r->Err_0.is(
                    ErrorKind::ManifestParse,
                    manifest_path_spec(project_path@, platform),
                ),
                Some(package) => r is Ok && r->Ok_0@ == package,
            },
        },
{
    let path = manifest_path(project_path, platform);
    match manifest {
        None => Err(PipelineError::new(ErrorKind::ManifestRead, path.as_str())),
        Some(text) => match package_name(text) {
            None => Err(PipelineError::new(ErrorKind::ManifestParse, path.as_str())),
            Some(package) => Ok(package),
        },
    }
}

} // verus!
