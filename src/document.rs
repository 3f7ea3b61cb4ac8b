//! The section/key-value text format, read through the `ini` crate.
//!
//! A parsed document is opaque here; what the logic reads of it is named by
//! spec functions: the named sections of a document, each a map from key to
//! its first value, and the outcome of parsing a text.

use ini::{Ini, Properties};
use vstd::prelude::*;

verus! {

#[verifier::external_type_specification]
#[verifier::external_body]
pub struct ExIni(Ini);

#[verifier::external_type_specification]
#[verifier::external_body]
pub struct ExProperties(Properties);

/// The named sections of a parsed document: for each section name, the
/// section whose name came first in the text, as a map from each of its keys
/// to the first value given for that key.
pub uninterp spec fn sections_of(doc: Ini) -> Map<Seq<char>, Map<Seq<char>, Seq<char>>>;

/// What a section holds: each key, with the first value given for it.
pub uninterp spec fn entries_of(props: Properties) -> Map<Seq<char>, Seq<char>>;

/// The outcome of parsing a text with the default options: the named sections
/// of the document, or the text of the syntax error.
pub uninterp spec fn parsed_text(text: Seq<char>) -> Result<
    Map<Seq<char>, Map<Seq<char>, Seq<char>>>,
    Seq<char>,
>;

/// Relies on `Ini::load_from_str`, and on `ParseError`'s `Display` for the
/// text of an error. The outcome depends on the text alone.
#[verifier::external_body]
pub(crate) fn parse_document(text: &str) -> (r: Result<Ini, String>)
    ensures
        r is Ok <==> parsed_text(text@) is Ok,
        r is Ok ==> sections_of(r->Ok_0) == parsed_text(text@)->Ok_0,
        r is Err ==> r->Err_0@ == parsed_text(text@)->Err_0,
{
    match Ini::load_from_str(text) {
        Ok(doc) => Ok(doc),
        Err(e) => Err(format!("{}", e)),
    }
}

/// Relies on `Ini::section`: the first section of the given name, if any.
#[verifier::external_body]
pub(crate) fn find_section<'a>(doc: &'a Ini, name: &str) -> (r: Option<&'a Properties>)
    ensures
        r is Some <==> sections_of(*doc).contains_key(name@),
        r is Some ==> entries_of(*r->Some_0) == sections_of(*doc)[name@],
{
    doc.section(Some(name))
}

/// Relies on `Properties::get`: the first value given for the key, if any.
#[verifier::external_body]
pub(crate) fn find_value<'a>(props: &'a Properties, key: &str) -> (r: Option<&'a str>)
    ensures
        r is Some <==> entries_of(*props).contains_key(key@),
        r is Some ==> r->Some_0@ == entries_of(*props)[key@],
{
    props.get(key)
}

} // verus!
