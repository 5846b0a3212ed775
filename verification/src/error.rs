//! The discriminated errors a resolution can end in, and their exact
//! single-line messages.

use vstd::prelude::*;
use vstd::string::{StrSliceExecFns, StringExecFns};

verus! {

/// Why a resolution failed. Every variant carries the path or value its
/// message echoes: `PathNotFound` the literal caller-supplied path,
/// the directory and file variants the canonicalized absolute path.
#[derive(Debug, Clone, PartialEq, Eq)]
pub enum ConfigError {
    /// The caller-supplied path is not on disk; carries it verbatim.
    PathNotFound(String),
    /// A directory was searched and holds no `wasmcloud.toml`; carries the
    /// canonicalized directory.
    NoManifestInDirectory(String),
    /// The file's bytes are not a well-formed manifest; carries the
    /// canonicalized file path.
    InvalidFormat(String),
    /// A required field is absent (or, for `name`, empty): the field, then
    /// the canonicalized file path.
    MissingField(String, String),
    /// The `version` field does not parse as a semantic version: the
    /// offending value, then the canonicalized file path.
    InvalidVersion(String, String),
    /// No `language` discriminator; carries the canonicalized file path.
    MissingLanguage(String),
    /// A `language` discriminator outside the known set; carries the value.
    UnsupportedLanguage(String),
    /// No archetype section where an actor manifest was expected.
    MissingActorConfig(String),
    /// No archetype section where a provider manifest was expected.
    MissingProviderConfig(String),
    /// No archetype section where an interface manifest was expected.
    MissingInterfaceConfig(String),
    /// More than one archetype section; carries the canonicalized file path.
    MultipleArchetypes(String),
}

pub enum ErrorView {
    PathNotFound(Seq<char>),
    NoManifestInDirectory(Seq<char>),
    InvalidFormat(Seq<char>),
    MissingField(Seq<char>, Seq<char>),
    InvalidVersion(Seq<char>, Seq<char>),
    MissingLanguage(Seq<char>),
    UnsupportedLanguage(Seq<char>),
    MissingActorConfig(Seq<char>),
    MissingProviderConfig(Seq<char>),
    MissingInterfaceConfig(Seq<char>),
    MultipleArchetypes(Seq<char>),
}

impl View for ConfigError {
    type V = ErrorView;

    open spec fn view(&self) -> ErrorView {
        match self {
            ConfigError::PathNotFound(p) => ErrorView::PathNotFound(p@),
            ConfigError::NoManifestInDirectory(d) => ErrorView::NoManifestInDirectory(d@),
            ConfigError::InvalidFormat(p) => ErrorView::InvalidFormat(p@),
            ConfigError::MissingField(f, p) => ErrorView::MissingField(f@, p@),
            ConfigError::InvalidVersion(v, p) => ErrorView::InvalidVersion(v@, p@),
            ConfigError::MissingLanguage(p) => ErrorView::MissingLanguage(p@),
            ConfigError::UnsupportedLanguage(l) => ErrorView::UnsupportedLanguage(l@),
            ConfigError::MissingActorConfig(p) => ErrorView::MissingActorConfig(p@),
            ConfigError::MissingProviderConfig(p) => ErrorView::MissingProviderConfig(p@),
            ConfigError::MissingInterfaceConfig(p) => ErrorView::MissingInterfaceConfig(p@),
            ConfigError::MultipleArchetypes(p) => ErrorView::MultipleArchetypes(p@),
        }
    }
}

/// The exact one-line message of each error.
pub open spec fn spec_render(e: ErrorView) -> Seq<char> {
    match e {
        ErrorView::PathNotFound(p) => "Path "@ + p + " does not exist"@,
        ErrorView::NoManifestInDirectory(d) => "No wasmcloud.toml file found in "@ + d,
        ErrorView::InvalidFormat(p) => "Invalid config file: "@ + p,
        ErrorView::MissingField(f, p) => "Missing "@ + f + " in "@ + p,
        ErrorView::InvalidVersion(v, p) => "Invalid version "@ + v + " in "@ + p,
        ErrorView::MissingLanguage(p) => "Missing language in "@ + p,
        ErrorView::UnsupportedLanguage(l) => "Unsupported language: "@ + l,
        ErrorView::MissingActorConfig(p) => "Missing actor config in "@ + p,
        ErrorView::MissingProviderConfig(p) => "Missing provider config in "@ + p,
        ErrorView::MissingInterfaceConfig(p) => "Missing interface config in "@ + p,
        ErrorView::MultipleArchetypes(p) => "Multiple archetype sections in "@ + p,
    }
}

fn concat2(a: &str, b: &str) -> (r: String)
    ensures
        r@ == a@ + b@,
{
    let mut r = a.to_owned();
    r.append(b);
    r
}

fn concat3(a: &str, b: &str, c: &str) -> (r: String)
    ensures
        r@ == a@ + b@ + c@,
{
    let mut r = a.to_owned();
    r.append(b);
    r.append(c);
    r
}

fn concat4(a: &str, b: &str, c: &str, d: &str) -> (r: String)
    ensures
        r@ == a@ + b@ + c@ + d@,
{
    let mut r = a.to_owned();
    r.append(b);
    r.append(c);
    r.append(d);
    r
}

impl ConfigError {
    /// The single-line human message of this error, of the exact stable
    /// shape downstream output matches on.
    pub fn render(&self) -> (r: String)
        ensures
            r@ == spec_render(self@),
    {
        match self {
            ConfigError::PathNotFound(p) => concat3("Path ", p.as_str(), " does not exist"),
            ConfigError::NoManifestInDirectory(d) => concat2(
                "No wasmcloud.toml file found in ",
                d.as_str(),
            ),
            ConfigError::InvalidFormat(p) => concat2("Invalid config file: ", p.as_str()),
            ConfigError::MissingField(f, p) => concat4("Missing ", f.as_str(), " in ", p.as_str()),
            ConfigError::InvalidVersion(v, p) => concat4(
                "Invalid version ",
                v.as_str(),
                " in ",
                p.as_str(),
            ),
            ConfigError::MissingLanguage(p) => concat2("Missing language in ", p.as_str()),
            ConfigError::UnsupportedLanguage(l) => concat2("Unsupported language: ", l.as_str()),
            ConfigError::MissingActorConfig(p) => concat2("Missing actor config in ", p.as_str()),
            ConfigError::MissingProviderConfig(p) => concat2(
                "Missing provider config in ",
                p.as_str(),
            ),
            ConfigError::MissingInterfaceConfig(p) => concat2(
                "Missing interface config in ",
                p.as_str(),
            ),
            ConfigError::MultipleArchetypes(p) => concat2(
                "Multiple archetype sections in ",
                p.as_str(),
            ),
        }
    }
}

} // verus!
