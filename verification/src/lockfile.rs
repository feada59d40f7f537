//! The nixpkgs revision that a flake lockfile pins.
//!
//! A lockfile is a JSON document of which one place is read: the string at
//! `nodes.nixpkgs.locked.rev`. The document is parsed and searched by
//! `serde_json`; what is done with the answers is decided here.

use crate::defaults::REVISION_POINTER;
use crate::error::{is_outcome, Error, ErrorView};
use vstd::prelude::*;

verus! {

/// Lets `serde_json::Value` stand in signatures. Nothing inside a value is
/// seen here: what it holds is told by [`json_entries`].
#[verifier::external_type_specification]
#[verifier::external_body]
pub struct ExJsonValue(serde_json::Value);

/// What a JSON value holds, seen through JSON pointers: the domain is the
/// set of pointers that resolve in the value; each is mapped to the text of
/// the string that it finds, or to `None` where it finds something else.
pub uninterp spec fn json_entries(value: serde_json::Value) -> Map<Seq<char>, Option<Seq<char>>>;

/// What `serde_json` makes of a text: the entries of the document that it
/// parses to, or the message of the error that the parser reports.
pub uninterp spec fn json_parse(text: Seq<char>) -> Result<
    Map<Seq<char>, Option<Seq<char>>>,
    Seq<char>,
>;

/// The text of a value that is a string, `None` for any other value. The
/// empty pointer stands for the value itself.
pub open spec fn json_text(value: serde_json::Value) -> Option<Seq<char>> {
    json_entries(value)[Seq::empty()]
}

/// Calls `serde_json::from_str` for a `Value`. Trusted: the outcome is the
/// one that `json_parse` names for the text, with the error turned into its
/// message.
#[verifier::external_body]
fn parse_json(text: &str) -> (parsed: Result<serde_json::Value, String>)
    ensures
        match parsed {
            Ok(document) => json_parse(text@) == Ok::<
                Map<Seq<char>, Option<Seq<char>>>,
                Seq<char>,
            >(json_entries(document)),
            Err(message) => json_parse(text@) == Err::<
                Map<Seq<char>, Option<Seq<char>>>,
                Seq<char>,
            >(message@),
        },
{
    match serde_json::from_str::<serde_json::Value>(text) {
        Ok(document) => Ok(document),
        Err(error) => Err(error.to_string()),
    }
}

/// Calls `serde_json::Value::pointer`. Trusted: a value comes back exactly
/// for the pointers among the entries of `document`, and it is the value
/// that the entry describes.
#[verifier::external_body]
fn json_pointer<'a>(document: &'a serde_json::Value, pointer: &str) -> (found: Option<
    &'a serde_json::Value,
>)
    ensures
        found is Some <==> json_entries(*document).contains_key(pointer@),
        found matches Some(value) ==> json_text(*value) == json_entries(*document)[pointer@],
{
    document.pointer(pointer)
}

/// Calls `serde_json::Value::as_str`. Trusted: the result is the text of
/// `value` where it is a string, and `None` where it is not.
#[verifier::external_body]
fn json_as_str<'a>(value: &'a serde_json::Value) -> (text: Option<&'a str>)
    ensures
        match text {
            Some(text) => json_text(*value) == Some(text@),
            None => json_text(*value) is None,
        },
{
    value.as_str()
}

/// The revision that a document with these entries pins, or the failure
/// that a lockfile at `path` with these entries ends in.
pub open spec fn revision_in(
    path: Seq<char>,
    entries: Map<Seq<char>, Option<Seq<char>>>,
) -> Result<Seq<char>, ErrorView> {
    if !entries.contains_key(REVISION_POINTER@) {
        Err(ErrorView::LockfileFieldMissing(path))
    } else {
        match entries[REVISION_POINTER@] {
            Some(revision) => Ok(revision),
            None => Err(ErrorView::LockfileFieldNotString(path)),
        }
    }
}

/// The revision that a lockfile at `path` with contents `text` pins, or the
/// failure that it ends in.
pub open spec fn revision_of(path: Seq<char>, text: Seq<char>) -> Result<Seq<char>, ErrorView> {
    match json_parse(text) {
        Ok(entries) => revision_in(path, entries),
        Err(message) => Err(ErrorView::LockfileParseError(message)),
    }
}

/// The revision that the lockfile at `path` pins, or the failure that it
/// ends in, where reading the file gave `contents`: its text, or what the
/// read reported.
pub open spec fn revision_read(path: Seq<char>, contents: Result<String, String>) -> Result<
    Seq<char>,
    ErrorView,
> {
    match contents {
        Ok(text) => revision_of(path, text@),
        Err(detail) => Err(ErrorView::LockfileReadError(detail@)),
    }
}

/// Takes the nixpkgs revision out of a parsed lockfile. `flake_lockfile_path`
/// is where the document came from; it is named in the failures.
///
/// The revision is the string at `nodes.nixpkgs.locked.rev`, as it stands.
/// No other part of the document matters.
pub fn nixpkgs_revision_in(
    flake_lockfile_path: &str,
    document: &serde_json::Value,
) -> (result: Result<String, Error>)
    ensures
        is_outcome(result, revision_in(flake_lockfile_path@, json_entries(*document))),
{
    match json_pointer(document, REVISION_POINTER) {
        None => Err(Error::LockfileFieldMissing(flake_lockfile_path.to_owned())),
        Some(value) => match json_as_str(value) {
            None => Err(Error::LockfileFieldNotString(flake_lockfile_path.to_owned())),
            Some(revision) => Ok(revision.to_owned()),
        },
    }
}

/// Takes the nixpkgs revision out of the text of a lockfile.
/// `flake_lockfile_path` is where the text came from; it is named in the
/// failures.
pub fn nixpkgs_revision(
    flake_lockfile_path: &str,
    flake_lockfile_text: &str,
) -> (result: Result<String, Error>)
    ensures
        is_outcome(result, revision_of(flake_lockfile_path@, flake_lockfile_text@)),
{
    match parse_json(flake_lockfile_text) {
        Err(message) => Err(Error::LockfileParseError(message)),
        Ok(document) => nixpkgs_revision_in(flake_lockfile_path, &document),
    }
}

/// Takes the nixpkgs revision out of what reading the lockfile at
/// `flake_lockfile_path` gave: its text, or what the read reported.
///
/// A file that could not be read is `LockfileReadError`, text that is no
/// JSON is `LockfileParseError`, a document without the place of the
/// revision is `LockfileFieldMissing`, and one with something other than a
/// string there is `LockfileFieldNotString`. Otherwise the string comes
/// back as it stands in the file.
pub fn read_nixpkgs_revision(
    flake_lockfile_path: &str,
    contents: Result<String, String>,
) -> (result: Result<String, Error>)
    ensures
        is_outcome(result, revision_read(flake_lockfile_path@, contents)),
{
    match contents {
        Err(detail) => Err(Error::LockfileReadError(detail)),
        Ok(text) => nixpkgs_revision(flake_lockfile_path, text.as_str()),
    }
}

} // verus!
