//! The optional settings of a run, as a TOML document gives them.

use vstd::prelude::*;
use vstd::string::*;
use crate::manifest::{document_of, entry, entry_of, flag, flag_of, parse_document, same_text, text,
    text_of};

verus! {

/// Settings that stand in for the answers a user would otherwise give.
/// Each may be absent.
#[derive(Clone, Debug, PartialEq, Eq)]
pub struct Config {
    pub project_path: Option<String>,
    pub build_type: Option<String>,
    pub install_dir: Option<String>,
    pub vendor: Option<bool>,
}

impl Default for Config {
    fn default() -> (c: Config)
        ensures
            c.project_path is None,
            c.build_type is None,
            c.install_dir is None,
            c.vendor is None,
    {
        Config { project_path: None, build_type: None, install_dir: None, vendor: None }
    }
}

/// Whether the entry `key` of `doc` can be read as an optional string: it is
/// absent, or it is a string.
pub open spec fn text_entry_ok(doc: toml::Value, key: Seq<char>) -> bool {
    match entry_of(doc, key) {
        Some(v) => text_of(v) is Some,
        None => true,
    }
}

/// The optional string under `key`.
pub open spec fn text_entry_spec(doc: toml::Value, key: Seq<char>) -> Option<Seq<char>> {
    match entry_of(doc, key) {
        Some(v) => text_of(v),
        None => None,
    }
}

/// Whether the entry `key` of `doc` can be read as an optional boolean.
pub open spec fn flag_entry_ok(doc: toml::Value, key: Seq<char>) -> bool {
    match entry_of(doc, key) {
        Some(v) => flag_of(v) is Some,
        None => true,
    }
}

/// The optional boolean under `key`.
pub open spec fn flag_entry_spec(doc: toml::Value, key: Seq<char>) -> Option<bool> {
    match entry_of(doc, key) {
        Some(v) => flag_of(v),
        None => None,
    }
}

/// Whether `doc` is a well-formed configuration: every known key is absent
/// or of its type. Other keys are not looked at.
pub open spec fn config_ok(doc: toml::Value) -> bool {
    &&& text_entry_ok(doc, "project_path"@)
    &&& text_entry_ok(doc, "build_type"@)
    &&& text_entry_ok(doc, "install_dir"@)
    &&& flag_entry_ok(doc, "vendor"@)
}

/// Reads the optional string under `key`. The outer `None` is an entry of
/// another type.
fn text_entry(doc: &toml::Value, key: &str) -> (r: Option<Option<String>>)
    ensures
        r is Some <==> text_entry_ok(*doc, key@),
        r is Some ==> same_text(r->Some_0, text_entry_spec(*doc, key@)),
{
    match entry(doc, key) {
        None => Some(None),
        Some(v) => match text(v) {
            Some(t) => Some(Some(String::from_str(t))),
            None => None,
        },
    }
}

/// Reads the optional boolean under `key`. The outer `None` is an entry of
/// another type.
fn flag_entry(doc: &toml::Value, key: &str) -> (r: Option<Option<bool>>)
    ensures
        r is Some <==> flag_entry_ok(*doc, key@),
        r is Some ==> r->Some_0 == flag_entry_spec(*doc, key@),
{
    match entry(doc, key) {
        None => Some(None),
        Some(v) => match flag(v) {
            Some(b) => Some(Some(b)),
            None => None,
        },
    }
}

impl Config {
    /// Whether this configuration holds what `doc` gives.
    pub open spec fn reads(self, doc: toml::Value) -> bool {
        &&& same_text(self.project_path, text_entry_spec(doc, "project_path"@))
        &&& same_text(self.build_type, text_entry_spec(doc, "build_type"@))
        &&& same_text(self.install_dir, text_entry_spec(doc, "install_dir"@))
        &&& self.vendor == flag_entry_spec(doc, "vendor"@)
    }

    /// Reads a configuration out of a parsed document: `Some` exactly when
    /// the document is a well-formed configuration.
    pub fn from_document(doc: &toml::Value) -> (r: Option<Config>)
        ensures
            r is Some <==> config_ok(*doc),
            r is Some ==> r->Some_0.reads(*doc),
    {
        let project_path = match text_entry(doc, "project_path") {
            Some(v) => v,
            None => { return None; },
        };
        let build_type = match text_entry(doc, "build_type") {
            Some(v) => v,
            None => { return None; },
        };
        let install_dir = match text_entry(doc, "install_dir") {
            Some(v) => v,
            None => { return None; },
        };
        let vendor = match flag_entry(doc, "vendor") {
            Some(v) => v,
            None => { return None; },
        };
        Some(Config { project_path, build_type, install_dir, vendor })
    }

    /// Parses the text of a configuration file: `Some` exactly when the text
    /// is TOML and a well-formed configuration.
    pub fn from_text(contents: &str) -> (r: Option<Config>)
        ensures
            r is Some <==> document_of(contents@) is Some && config_ok(
                document_of(contents@)->Some_0,
            ),
            r is Some ==> r->Some_0.reads(document_of(contents@)->Some_0),
    {
        match parse_document(contents) {
            Some(doc) => Config::from_document(&doc),
            None => None,
        }
    }
}

} // verus!
