//! Where the lockfile is: from an override, or from the configuration file.
//!
//! The caller looks for the configuration file and reads it. What it found
//! comes in as a [`ConfigLookup`]; the text is parsed by `toml`, the lockfile
//! path is expanded by `shellexpand`, and what follows from their answers is
//! decided here.

use crate::cli::Override;
use crate::defaults::LOCKFILE_KEY;
use crate::error::{is_outcome, Error, ErrorView};
use vstd::prelude::*;
use vstd::string::StringExecFns;

verus! {

/// The configuration of a run.
#[derive(Debug, Clone, PartialEq, Eq)]
pub struct Config {
    /// Path of the flake lockfile. It may begin with `~` and may hold
    /// `$VARIABLE`s, which are expanded before the file is read.
    pub flake_lockfile: String,
}

/// Which file, if any, the caller has to look at before the configuration
/// can be resolved.
#[derive(Debug, Clone, PartialEq, Eq)]
pub enum ConfigRequest {
    /// None: the lockfile was named on the command line.
    Nothing,
    /// The file at this path, named on the command line.
    File(String),
    /// The file named [`crate::defaults::CONFIG_FILENAME`] in the standard
    /// configuration directories.
    Discover,
}

/// What the caller found when it looked for the configuration file.
#[derive(Debug, Clone, PartialEq, Eq)]
pub enum ConfigLookup {
    /// No file: the path named is no regular file, or the search in the
    /// standard directories found nothing.
    Absent,
    /// There is a file, but it could not be read. Holds what the read
    /// reported.
    Unreadable(String),
    /// The text of the file.
    Text(String),
}

/// Lets `toml::Value` stand in signatures. Nothing inside a value is seen
/// here: what it holds is told by [`toml_entries`].
#[verifier::external_type_specification]
#[verifier::external_body]
pub struct ExTomlValue(toml::Value);

/// What a TOML value holds, seen through paths of keys: the domain is the
/// set of paths that lead from the value through tables to a value, the
/// empty path among them; each is mapped to the text of the string that it
/// leads to, or to `None` where it leads to anything else.
pub uninterp spec fn toml_entries(value: toml::Value) -> Map<Seq<Seq<char>>, Option<Seq<char>>>;

/// What `toml` makes of the text of a document: the entries of the table
/// that it parses to, or the message of the error that the parser reports.
pub uninterp spec fn toml_parse(text: Seq<char>) -> Result<
    Map<Seq<Seq<char>>, Option<Seq<char>>>,
    Seq<char>,
>;

/// The text of a value that is a string, `None` for any other value. The
/// empty path stands for the value itself.
pub open spec fn toml_text(value: toml::Value) -> Option<Seq<char>> {
    toml_entries(value)[Seq::empty()]
}

/// Calls `toml::from_str` for a `toml::Value`. Trusted: the outcome is the
/// one that `toml_parse` names for the text, with the error turned into its
/// message.
#[verifier::external_body]
fn parse_toml(text: &str) -> (parsed: Result<toml::Value, String>)
    ensures
        match parsed {
            Ok(document) => toml_parse(text@) == Ok::<
                Map<Seq<Seq<char>>, Option<Seq<char>>>,
                Seq<char>,
            >(toml_entries(document)),
            Err(message) => toml_parse(text@) == Err::<
                Map<Seq<Seq<char>>, Option<Seq<char>>>,
                Seq<char>,
            >(message@),
        },
{
    match toml::from_str::<toml::Value>(text) {
        Ok(document) => Ok(document),
        Err(error) => Err(error.to_string()),
    }
}

/// Calls `toml::Value::get` with a key. Trusted: a value comes back exactly
/// where the path of this one key is among the entries of `value`, and it is
/// the value that the entry describes.
#[verifier::external_body]
fn toml_get<'a>(value: &'a toml::Value, key: &str) -> (found: Option<&'a toml::Value>)
    ensures
        found is Some <==> toml_entries(*value).contains_key(seq![key@]),
        found matches Some(inner) ==> toml_text(*inner) == toml_entries(*value)[seq![key@]],
{
    value.get(key)
}

/// Calls `toml::Value::as_str`. Trusted: the result is the text of `value`
/// where it is a string, and `None` where it is not.
#[verifier::external_body]
fn toml_as_str<'a>(value: &'a toml::Value) -> (text: Option<&'a str>)
    ensures
        match text {
            Some(text) => toml_text(*value) == Some(text@),
            None => toml_text(*value) is None,
        },
{
    value.as_str()
}

/// Whether expanding `path` may give `expansion`.
///
/// Variables come in with a `$` only. So a path without one comes back as
/// it is or, where it begins with `~`, with a home directory in place of
/// the `~`. What a path with a `$` becomes depends on the variables of the
/// process, and nothing is said of it.
pub open spec fn may_expand_to(path: Seq<char>, expansion: Seq<char>) -> bool {
    !path.contains('$') ==> {
        ||| expansion == path
        ||| path.len() > 0 && path[0] == '~' && path.skip(1).is_suffix_of(expansion)
    }
}

/// A path that holds no `$` and does not begin with `~` expands to itself,
/// whatever the environment of the process holds.
pub proof fn lemma_plain_path_expands_to_itself(path: Seq<char>, expansion: Seq<char>)
    requires
        may_expand_to(path, expansion),
        !path.contains('$'),
        path.len() > 0 ==> path[0] != '~',
    ensures
        expansion == path,
{
}

/// Calls `shellexpand::full`, which replaces a leading `~` by the home
/// directory and `$VARIABLE`s by their values in the environment of the
/// process. Trusted: the result is one that [`may_expand_to`] admits, and
/// only a path with a `$` can fail. An error is turned into its message.
#[verifier::external_body]
fn shell_expand(path: &str) -> (expanded: Result<String, String>)
    ensures
        match expanded {
            Ok(expansion) => may_expand_to(path@, expansion@),
            Err(_) => path@.contains('$'),
        },
{
    match shellexpand::full(path) {
        Ok(expanded) => Ok(expanded.into_owned()),
        Err(error) => Err(error.to_string()),
    }
}

/// The lockfile path that a configuration with these entries names, or the
/// failure that it ends in.
pub open spec fn lockfile_in(entries: Map<Seq<Seq<char>>, Option<Seq<char>>>) -> Result<
    Seq<char>,
    ErrorView,
> {
    if !entries.contains_key(seq![LOCKFILE_KEY@]) {
        Err(ErrorView::ConfigParseError("missing field `flake_lockfile`"@))
    } else {
        match entries[seq![LOCKFILE_KEY@]] {
            Some(path) => Ok(path),
            None => Err(
                ErrorView::ConfigParseError(
                    "invalid type for `flake_lockfile`: expected a string"@,
                ),
            ),
        }
    }
}

/// The lockfile path that a configuration file with this text names, or the
/// failure that it ends in.
pub open spec fn lockfile_of(text: Seq<char>) -> Result<Seq<char>, ErrorView> {
    match toml_parse(text) {
        Ok(entries) => lockfile_in(entries),
        Err(message) => Err(ErrorView::ConfigParseError(message)),
    }
}

/// The lockfile path that the configuration file names, or the failure that
/// reading it ends in. `config_file_path` is the path named on the command
/// line, if one was.
///
/// A file that is absent is `ConfigFileMissing` where its path was named
/// and `ConfigNotFound` where it was searched for; one that cannot be read
/// or does not name a lockfile is `ConfigParseError`.
pub open spec fn lockfile_read(
    config_file_path: Option<String>,
    found: ConfigLookup,
) -> Result<Seq<char>, ErrorView> {
    match found {
        ConfigLookup::Absent => match config_file_path {
            Some(path) => Err(ErrorView::ConfigFileMissing(path@)),
            None => Err(ErrorView::ConfigNotFound),
        },
        ConfigLookup::Unreadable(detail) => Err(ErrorView::ConfigParseError(detail@)),
        ConfigLookup::Text(text) => lockfile_of(text@),
    }
}

/// The lockfile path of a run, unexpanded, or the failure that resolving
/// the configuration ends in.
///
/// A lockfile named on the command line wins, and the configuration file
/// plays no part. Otherwise the configuration file decides, the one named
/// on the command line before the one in the standard place.
pub open spec fn resolved_lockfile(
    override_: Option<Override>,
    found: ConfigLookup,
) -> Result<Seq<char>, ErrorView> {
    match override_ {
        None => lockfile_read(None, found),
        Some(Override::ConfigFile(path)) => lockfile_read(Some(path), found),
        Some(Override::FlakeLockfile(path)) => Ok(path@),
    }
}

/// Whether `result` is a configuration with the lockfile path `expected`,
/// or the failure `expected`.
pub open spec fn is_config(
    result: Result<Config, Error>,
    expected: Result<Seq<char>, ErrorView>,
) -> bool {
    match result {
        Ok(config) => expected == Ok::<Seq<char>, ErrorView>(config.flake_lockfile@),
        Err(error) => expected == Err::<Seq<char>, ErrorView>(error@),
    }
}

/// The file that has to be looked at for this override: none where the
/// lockfile is named, the file named where one is, and else the one in the
/// standard place.
pub open spec fn request_for(override_: Option<Override>) -> ConfigRequest {
    match override_ {
        Some(Override::FlakeLockfile(_)) => ConfigRequest::Nothing,
        Some(Override::ConfigFile(path)) => ConfigRequest::File(path),
        None => ConfigRequest::Discover,
    }
}

/// Says which file has to be looked at before [`get_config`] can be called
/// with this override.
pub fn config_request(override_: &Option<Override>) -> (request: ConfigRequest)
    ensures
        request == request_for(*override_),
{
    match override_ {
        Some(Override::FlakeLockfile(_)) => ConfigRequest::Nothing,
        Some(Override::ConfigFile(path)) => ConfigRequest::File(path.clone()),
        None => ConfigRequest::Discover,
    }
}

/// Reads the configuration out of a parsed configuration file: the string
/// under `flake_lockfile`. Other keys are of no account.
pub fn config_in(document: &toml::Value) -> (result: Result<Config, Error>)
    ensures
        is_config(result, lockfile_in(toml_entries(*document))),
{
    match toml_get(document, LOCKFILE_KEY) {
        None => Err(Error::ConfigParseError(String::from_str("missing field `flake_lockfile`"))),
        Some(value) => match toml_as_str(value) {
            None => Err(
                Error::ConfigParseError(
                    String::from_str("invalid type for `flake_lockfile`: expected a string"),
                ),
            ),
            Some(path) => Ok(Config { flake_lockfile: path.to_owned() }),
        },
    }
}

/// Reads the configuration out of the text of a configuration file.
pub fn parse_config(text: &str) -> (result: Result<Config, Error>)
    ensures
        is_config(result, lockfile_of(text@)),
{
    match parse_toml(text) {
        Err(message) => Err(Error::ConfigParseError(message)),
        Ok(document) => config_in(&document),
    }
}

/// Reads the configuration out of what was found of the configuration
/// file. `config_file_path` is the path named on the command line, if one
/// was; it tells a file that is missing from one that was not found.
pub fn read_config(
    config_file_path: Option<String>,
    found: ConfigLookup,
) -> (result: Result<Config, Error>)
    ensures
        is_config(result, lockfile_read(config_file_path, found)),
{
    match found {
        ConfigLookup::Absent => match config_file_path {
            Some(path) => Err(Error::ConfigFileMissing(path)),
            None => Err(Error::ConfigNotFound),
        },
        ConfigLookup::Unreadable(detail) => Err(Error::ConfigParseError(detail)),
        ConfigLookup::Text(text) => parse_config(text.as_str()),
    }
}

/// Resolves the configuration of a run from the override of the command
/// line and from what was found of the configuration file.
///
/// `found` answers the request that [`config_request`] makes for
/// `override_`; where that request is `Nothing`, `found` is not looked at.
pub fn get_config(
    override_: Option<Override>,
    found: ConfigLookup,
) -> (result: Result<Config, Error>)
    ensures
        is_config(result, resolved_lockfile(override_, found)),
{
    match override_ {
        None => read_config(None, found),
        Some(Override::ConfigFile(config_file_path)) => read_config(Some(config_file_path), found),
        Some(Override::FlakeLockfile(flake_lockfile)) => Ok(Config { flake_lockfile }),
    }
}

/// What an expansion that came back as `expansion` means for the run: the
/// expanded path, or `PathExpansionError` with the message of the expansion.
pub open spec fn expansion_outcome(expansion: Result<String, String>) -> Result<
    Seq<char>,
    ErrorView,
> {
    match expansion {
        Ok(path) => Ok(path@),
        Err(detail) => Err(ErrorView::PathExpansionError(detail@)),
    }
}

/// Turns the answer of an expansion into the path to read or the failure of
/// the run.
pub fn expanded_path(expansion: Result<String, String>) -> (result: Result<String, Error>)
    ensures
        is_outcome(result, expansion_outcome(expansion)),
{
    match expansion {
        Ok(path) => Ok(path),
        Err(detail) => Err(Error::PathExpansionError(detail)),
    }
}

impl Config {
    /// Expands the lockfile path into the path of the file to read: a
    /// leading `~` becomes the home directory and `$VARIABLE`s become their
    /// values.
    ///
    /// The outcome depends on the environment of the process. Whatever that
    /// holds, the path returned is one that [`may_expand_to`] admits, and
    /// the only failure is a `PathExpansionError`, for a path with a `$`.
    pub fn expand_flake_lockfile_path(&self) -> (result: Result<String, Error>)
        ensures
            match result {
                Ok(expansion) => may_expand_to(self.flake_lockfile@, expansion@),
                Err(error) => error@ is PathExpansionError && self.flake_lockfile@.contains('$'),
            },
    {
        expanded_path(shell_expand(self.flake_lockfile.as_str()))
    }
}

} // verus!
