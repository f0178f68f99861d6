//! The configuration record, the error taxonomy, and the decoding of a
//! document's text into one or the other.

use vstd::prelude::*;
use vstd::string::StringSliceAdditionalSpecFns;
use vstd::utf8::encode_utf8;
use crate::render::{diags_chars, render_diags};
use crate::scan::{
    diag_seq_views,
    toml_api_key,
    toml_api_key_of,
    toml_syntax_diags,
    toml_syntax_errors,
    KeyLookup,
    KeyView,
};

verus! {

/// The decoded configuration: the one value the document must carry.
#[derive(Debug)]
pub struct Config {
    pub api_key: String,
}

/// Declares `std::io::Error` so that a failed read can be carried
/// through unchanged; nothing inside it is relied on.
#[verifier::external_type_specification]
#[verifier::external_body]
pub struct ExIoError(std::io::Error);

/// Why a configuration could not be produced: the file could not be
/// read, or its text could not be understood.
#[derive(Debug)]
pub enum ConfigParseError {
    Io(std::io::Error),
    ParseError(String),
}

impl From<std::io::Error> for ConfigParseError {
    fn from(err: std::io::Error) -> (r: ConfigParseError) {
        ConfigParseError::Io(err)
    }
}

impl vstd::std_specs::convert::FromSpecImpl<std::io::Error> for ConfigParseError {
    open spec fn obeys_from_spec() -> bool {
        true
    }

    open spec fn from_spec(t: std::io::Error) -> ConfigParseError {
        ConfigParseError::Io(t)
    }
}

impl ConfigParseError {
    /// Builds the syntax-failure value for a list of parser
    /// diagnostics against the text they were found in: every entry
    /// rendered with its location, joined by a comma with no space.
    pub fn from_toml_errors(source: &[u8], diags: &Vec<crate::scan::Diag>) -> (r: ConfigParseError)
        ensures
            r matches ConfigParseError::ParseError(m) && m@ == diags_chars(
                source@,
                diag_seq_views(diags@),
            ),
    {
        ConfigParseError::ParseError(render_diags(source, diags))
    }
}

/// The content of a finished parse, with everything incidental (such
/// as the identity of an I/O error value) stripped away: either the
/// key that was decoded or the message of the syntax failure.
pub enum Outcome {
    Success(Seq<char>),
    Failure(Seq<char>),
}

/// What parsing a document's text must come to: the aggregated syntax
/// message when the parser reports any diagnostic; otherwise the text
/// bound to `api_key` when it is a string; otherwise a failure whose
/// message aggregates the parser's residual diagnostics — there are
/// none, so it is empty.
pub open spec fn text_outcome(text: Seq<char>) -> Outcome {
    let diags = toml_syntax_diags(text);
    if diags.len() > 0 {
        Outcome::Failure(diags_chars(encode_utf8(text), diags))
    } else {
        match toml_api_key_of(text) {
            KeyView::Text(k) => Outcome::Success(k),
            _ => Outcome::Failure(Seq::empty()),
        }
    }
}

/// The content of a parse result: `None` for an I/O failure, whose
/// wrapped error is not content, and the decoded key or the syntax
/// message otherwise.
pub open spec fn result_outcome(r: Result<Config, ConfigParseError>) -> Option<Outcome> {
    match r {
        Ok(c) => Some(Outcome::Success(c.api_key@)),
        Err(ConfigParseError::ParseError(m)) => Some(Outcome::Failure(m@)),
        Err(ConfigParseError::Io(_)) => None,
    }
}

impl Config {
    /// Parses the text of a configuration document: a purely
    /// in-memory operation, whose result is pinned, entry for entry,
    /// by [`text_outcome`].
    pub fn parse_text(contents: &str) -> (r: Result<Config, ConfigParseError>)
        ensures
            result_outcome(r) == Some(text_outcome(contents@)),
    {
        let diags = toml_syntax_errors(contents);
        if diags.len() > 0 {
            return Err(ConfigParseError::from_toml_errors(contents.as_bytes(), &diags));
        }
        match toml_api_key(contents) {
            KeyLookup::Text(k) => Ok(Config { api_key: k }),
            KeyLookup::Missing => Err(ConfigParseError::ParseError(String::new())),
            KeyLookup::NotText => Err(ConfigParseError::ParseError(String::new())),
        }
    }

    /// Finishes a parse from the outcome of reading the file: a read
    /// failure is wrapped as an I/O failure, carrying the original
    /// error untouched and never reported as a syntax failure; text
    /// that was read is parsed as a document.
    pub fn from_read(read: Result<String, std::io::Error>) -> (r: Result<Config, ConfigParseError>)
        ensures
            (match read {
                Ok(text) => result_outcome(r) == Some(text_outcome(text@)),
                Err(e) => r matches Err(ConfigParseError::Io(e2)) && e2 == e,
            }),
    {
        match read {
            Ok(text) => Self::parse_text(text.as_str()),
            Err(e) => Err(ConfigParseError::from(e)),
        }
    }
}

/// A text that was read is never reported as an I/O failure: only the
/// read itself can produce one.
pub proof fn lemma_text_never_io_failure(r: Result<Config, ConfigParseError>, text: Seq<char>)
    requires
        result_outcome(r) == Some(text_outcome(text)),
    ensures
        !(r matches Err(ConfigParseError::Io(_))),
{
}

/// Parsing is stateless and deterministic in the text: two parses of
/// the same unchanged text are equal in content — the same decoded
/// key, or the same failure message.
pub proof fn lemma_parse_text_deterministic(
    text: Seq<char>,
    r1: Result<Config, ConfigParseError>,
    r2: Result<Config, ConfigParseError>,
)
    requires
        result_outcome(r1) == Some(text_outcome(text)),
        result_outcome(r2) == Some(text_outcome(text)),
    ensures
        result_outcome(r1) == result_outcome(r2),
{
}

} // verus!
