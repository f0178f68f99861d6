//! The document scan: what the TOML parser reports about a text.
//!
//! The parser itself lives in the `toml` crate; the two functions that
//! call it are trusted, and everything they report is reduced to plain
//! values of this crate. Both results are functions of the input text
//! alone, so each is given a name that the rest of the crate's
//! contracts build on.

use vstd::prelude::*;

verus! {

/// One syntax diagnostic: the byte span of the offending input, where
/// the parser recorded one, and a human-readable description.
pub struct Diag {
    pub span: Option<(usize, usize)>,
    pub desc: String,
}

/// The mathematical content of a [`Diag`].
pub struct DiagView {
    pub span: Option<(int, int)>,
    pub desc: Seq<char>,
}

impl View for Diag {
    type V = DiagView;

    open spec fn view(&self) -> DiagView {
        DiagView {
            span: match self.span {
                Some(p) => Some((p.0 as int, p.1 as int)),
                None => None,
            },
            desc: self.desc@,
        }
    }
}

/// What the top level of a parsed document binds `api_key` to: nothing,
/// a value of some other type, or a text value.
pub enum KeyLookup {
    Missing,
    NotText,
    Text(String),
}

/// The mathematical content of a [`KeyLookup`].
pub enum KeyView {
    Missing,
    NotText,
    Text(Seq<char>),
}

impl View for KeyLookup {
    type V = KeyView;

    open spec fn view(&self) -> KeyView {
        match self {
            KeyLookup::Missing => KeyView::Missing,
            KeyLookup::NotText => KeyView::NotText,
            KeyLookup::Text(s) => KeyView::Text(s@),
        }
    }
}

/// The syntax diagnostics that the TOML parser reports for a text, in
/// the order it discovers them; empty exactly when the text is a
/// well-formed document.
pub uninterp spec fn toml_syntax_diags(text: Seq<char>) -> Seq<DiagView>;

/// What the top level of the document parsed from a text binds
/// `api_key` to.
pub uninterp spec fn toml_api_key_of(text: Seq<char>) -> KeyView;

/// Relies on `toml::de::DeTable::parse_recoverable`: it scans the whole
/// document rather than stopping at the first mistake, hands back every
/// syntax error it found, with its byte span and message, in the order
/// of discovery, and its result depends on the input text alone.
#[verifier::external_body]
pub(crate) fn toml_syntax_errors(contents: &str) -> (r: Vec<Diag>)
    ensures
        diag_seq_views(r@) == toml_syntax_diags(contents@),
{
    let (_, errors) = toml::de::DeTable::parse_recoverable(contents);
    errors
        .iter()
        .map(|e| Diag {
            span: e.span().map(|s| (s.start, s.end)),
            desc: e.message().to_owned(),
        })
        .collect()
}

/// Relies on `toml::de::DeTable::parse_recoverable`, `toml::map::Map::get`
/// and `toml::de::DeValue::as_str`: the value that the recovered
/// document's top level binds `api_key` to is a function of the input
/// text alone, and `as_str` tells a TOML string apart from every other
/// kind of value.
#[verifier::external_body]
pub(crate) fn toml_api_key(contents: &str) -> (r: KeyLookup)
    ensures
        r@ == toml_api_key_of(contents@),
{
    let (root, _) = toml::de::DeTable::parse_recoverable(contents);
    match root.get_ref().get("api_key") {
        None => KeyLookup::Missing,
        Some(v) => match v.get_ref().as_str() {
            Some(s) => KeyLookup::Text(s.to_owned()),
            None => KeyLookup::NotText,
        },
    }
}

/// The views of a sequence of diagnostics.
pub open spec fn diag_seq_views(ds: Seq<Diag>) -> Seq<DiagView> {
    ds.map_values(|d: Diag| d@)
}

} // verus!
