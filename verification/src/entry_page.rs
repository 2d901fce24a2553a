//! What the entry views show and accept: titles and authors as listed, the
//! type row of other kinds, the citation key check, the e-print field and
//! the BibTeX of a new empty entry.
use vstd::prelude::*;
use vstd::string::StringExecFns;

use crate::bib::{has_key, Bib};
use crate::entry::Entry;
use crate::entry_type::EntryType;
use crate::format::{texer, texer_spec};
use crate::text::{lowercase, str_eq, to_lowercase};

verus! {

/// A text as listed: converted from LaTeX, or the placeholder in italics
/// when there is nothing to show.
pub open spec fn pretty_text_spec(text: Seq<char>, placeholder: Seq<char>) -> Seq<char> {
    let t = texer_spec(text);
    if t.len() == 0 {
        "<i>"@ + placeholder + "</i>"@
    } else {
        t
    }
}

/// A text as listed, with `placeholder` shown when it is empty.
pub fn pretty_text(text: &str, placeholder: &str) -> (res: String)
    ensures
        res@ == pretty_text_spec(text@, placeholder@),
{
    let t = texer(text);
    if t.as_str().is_empty() {
        let mut out = String::from_str("<i>");
        out.append(placeholder);
        out.append("</i>");
        out
    } else {
        t
    }
}

/// The authors as listed, with the message id "Author not set" as the
/// placeholder; a front end that shows translations calls `pretty_text` with
/// the translated placeholder.
pub fn pretty_author(author: &str) -> (res: String)
    ensures
        res@ == pretty_text_spec(author@, "Author not set"@),
{
    pretty_text(author, "Author not set")
}

/// The title as listed, with the message id "Title not set" as the
/// placeholder; a front end that shows translations calls `pretty_text` with
/// the translated placeholder.
pub fn pretty_title(title: &str) -> (res: String)
    ensures
        res@ == pretty_text_spec(title@, "Title not set"@),
{
    pretty_text(title, "Title not set")
}

/// Whether an entry may take a new citation key: when no entry has it, or
/// when it is the entry's own key.
pub fn key_change_allowed(bib: &Bib, old_key: &str, new_key: &str) -> (res: bool)
    requires
        bib.wf(),
    ensures
        res == (!has_key(bib@.entries, new_key@) || old_key@ == new_key@),
{
    !bib.key_exists(new_key) || str_eq(old_key, new_key)
}

/// Whether the row of the written type is shown for an entry, and its
/// text: shown for kind `Other` only, holding the written type or "other".
pub fn other_entry_type_row(entry: &Entry) -> (res: (bool, String))
    ensures
        res.0 == (entry@.entry_type == EntryType::Other),
        !res.0 ==> res.1@ == Seq::<char>::empty(),
        res.0 ==> res.1@ == match entry@.other_entry_type {
            Some(s) => s,
            None => "other"@,
        },
{
    let visible = entry.entry_type() == EntryType::Other;
    let text = if !visible {
        String::new()
    } else {
        match entry.other_entry_type() {
            Some(s) => s,
            None => String::from_str("other"),
        }
    };
    (visible, text)
}

/// Whether a field is the e-print field, whose row gets a link button.
pub fn is_eprint_field(key: &str) -> (res: bool)
    ensures
        res == (lowercase(key@) == "eprint"@),
{
    let lower = to_lowercase(key);
    str_eq(lower.as_str(), "eprint")
}

/// The BibTeX of a new entry of the kind numbered `type_index` with the
/// given citation key and no tags.
pub fn new_entry_bibtex(citation_key: &str, type_index: i32) -> (res: String)
    ensures
        res@ == "@"@ + EntryType::from_index(type_index as int).name() + "{"@ + citation_key@
            + ",}"@,
{
    let type_ = EntryType::from_i32(type_index).to_string();
    let mut out = String::from_str("@");
    out.append(type_.as_str());
    out.append("{");
    out.append(citation_key);
    out.append(",}");
    out
}

} // verus!
