//! Helpers of the citation manager: labels of fields, citation keys, PDF
//! file names, search and resolver links, DOI clean-up and the list of
//! recent files.
use vstd::prelude::*;
use vstd::string::StringExecFns;

use crate::entry::{is_property_tag, matches_model, Entry};
use crate::bibtex::text_entries;
use crate::entry::serialize_spec;
use crate::entry::EntryView;
use crate::entry::tag_or_empty;
use crate::entry_type::EntryType;
use crate::bib::property_tag;
use crate::error::Error;
use crate::format::{format_authors, format_authors_spec};
use crate::text::{
    chars_to_string, contains_seq, contains_str, has_prefix, lowercase, starts_with_str, str_chars,
    str_eq, str_replace, replace_str, to_lowercase,
};

verus! {

/// The label shown for each extra field, as looked up in the message
/// catalogue; `None` for a name that is no extra field.
pub open spec fn field_label(key: Seq<char>) -> Option<Seq<char>> {
    if key == "author"@ {
        Some("Author"@)
    } else if key == "year"@ {
        Some("Year"@)
    } else if key == "title"@ {
        Some("Title"@)
    } else if key == "volume"@ {
        Some("Volume"@)
    } else if key == "number"@ {
        Some("Number"@)
    } else if key == "pages"@ {
        Some("Pages"@)
    } else if key == "publisher"@ {
        Some("Publisher"@)
    } else if key == "journal"@ {
        Some("Journal"@)
    } else if key == "address"@ {
        Some("Address"@)
    } else if key == "howpublished"@ {
        Some("How Published"@)
    } else if key == "note"@ {
        Some("Note"@)
    } else if key == "booktitle"@ {
        Some("Book Title"@)
    } else if key == "series"@ {
        Some("Series"@)
    } else if key == "archiveprefix"@ {
        Some("Archive Prefix"@)
    } else if key == "eprint"@ {
        Some("ePrint"@)
    } else if key == "primaryclass"@ {
        Some("Primary Class"@)
    } else if key == "month"@ {
        Some("Month"@)
    } else if key == "editor"@ {
        Some("Editor"@)
    } else if key == "organization"@ {
        Some("Organization"@)
    } else if key == "school"@ {
        Some("School"@)
    } else if key == "institution"@ {
        Some("Institution"@)
    } else if key == "issn"@ {
        Some("ISSN"@)
    } else if key == "isbn"@ {
        Some("ISBN"@)
    } else if key == "url"@ {
        Some("url"@)
    } else {
        None
    }
}

/// Whether the label of a field is shown as it is, in every language.
pub open spec fn label_is_fixed(key: Seq<char>) -> bool {
    key == "issn"@ || key == "isbn"@ || key == "url"@
}

fn field_label_exec(key: &str) -> (res: Option<&'static str>)
    ensures
        res matches Some(l) ==> field_label(key@) == Some(l@),
        res is None ==> field_label(key@) is None,
{
    if str_eq(key, "author") {
        Some("Author")
    } else if str_eq(key, "year") {
        Some("Year")
    } else if str_eq(key, "title") {
        Some("Title")
    } else if str_eq(key, "volume") {
        Some("Volume")
    } else if str_eq(key, "number") {
        Some("Number")
    } else if str_eq(key, "pages") {
        Some("Pages")
    } else if str_eq(key, "publisher") {
        Some("Publisher")
    } else if str_eq(key, "journal") {
        Some("Journal")
    } else if str_eq(key, "address") {
        Some("Address")
    } else if str_eq(key, "howpublished") {
        Some("How Published")
    } else if str_eq(key, "note") {
        Some("Note")
    } else if str_eq(key, "booktitle") {
        Some("Book Title")
    } else if str_eq(key, "series") {
        Some("Series")
    } else if str_eq(key, "archiveprefix") {
        Some("Archive Prefix")
    } else if str_eq(key, "eprint") {
        Some("ePrint")
    } else if str_eq(key, "primaryclass") {
        Some("Primary Class")
    } else if str_eq(key, "month") {
        Some("Month")
    } else if str_eq(key, "editor") {
        Some("Editor")
    } else if str_eq(key, "organization") {
        Some("Organization")
    } else if str_eq(key, "school") {
        Some("School")
    } else if str_eq(key, "institution") {
        Some("Institution")
    } else if str_eq(key, "issn") {
        Some("ISSN")
    } else if str_eq(key, "isbn") {
        Some("ISBN")
    } else if str_eq(key, "url") {
        Some("url")
    } else {
        None
    }
}

/// The message id of the label of an extra field: its English label, which
/// the front end looks up in the message catalogue, except the labels of
/// "issn", "isbn" and "url", which are the same in every language. Only
/// extra fields have a label.
pub fn translated_key(key: &str) -> (res: String)
    requires
        field_label(key@) is Some,
    ensures
        res@ == field_label(key@)->0,
{
    let label = match field_label_exec(key) {
        Some(l) => l,
        None => "",
    };
    String::from_str(label)
}

/// Whether the label of an extra field is shown as it is in every language.
pub fn label_is_fixed_exec(key: &str) -> (res: bool)
    ensures
        res == label_is_fixed(key@),
{
    str_eq(key, "issn") || str_eq(key, "isbn") || str_eq(key, "url")
}

/// A non-empty word of lower-case ASCII letters.
pub open spec fn is_lower_word(w: Seq<char>) -> bool {
    w.len() > 0 && forall|k: int| 0 <= k < w.len() ==> 'a' <= #[trigger] w[k] <= 'z'
}

/// The names that the entry page shows apart from the extra fields.
pub open spec fn is_main_field(f: Seq<char>) -> bool {
    f == "author"@ || f == "title"@ || f == "year"@ || f == "doi"@ || f == "abstract"@
        || f == "notes"@
}

/// One of the names of the extra fields.
pub open spec fn is_extra_field(f: Seq<char>) -> bool {
    f == "journal"@
        || f == "volume"@
        || f == "number"@
        || f == "pages"@
        || f == "month"@
        || f == "note"@
        || f == "issn"@
        || f == "eprint"@
        || f == "publisher"@
        || f == "address"@
        || f == "editor"@
        || f == "isbn"@
        || f == "howpublished"@
        || f == "booktitle"@
        || f == "series"@
        || f == "url"@
        || f == "archiveprefix"@
        || f == "primaryclass"@
        || f == "organization"@
        || f == "school"@
        || f == "institution"@
}

proof fn lemma_extra_field(f: Seq<char>)
    requires
        is_extra_field(f),
    ensures
        is_lower_word(f),
        field_label(f) is Some,
        is_property_tag(f),
        !is_main_field(f),
{
    reveal_strlit("author");
    reveal_strlit("title");
    reveal_strlit("year");
    reveal_strlit("doi");
    reveal_strlit("abstract");
    reveal_strlit("notes");
    if f == "journal"@ {
        reveal_strlit("journal");
        assert(f =~= seq!['j', 'o', 'u', 'r', 'n', 'a', 'l']);
    }
    if f == "volume"@ {
        reveal_strlit("volume");
        assert(f =~= seq!['v', 'o', 'l', 'u', 'm', 'e']);
    }
    if f == "number"@ {
        reveal_strlit("number");
        assert(f =~= seq!['n', 'u', 'm', 'b', 'e', 'r']);
    }
    if f == "pages"@ {
        reveal_strlit("pages");
        assert(f =~= seq!['p', 'a', 'g', 'e', 's']);
    }
    if f == "month"@ {
        reveal_strlit("month");
        assert(f =~= seq!['m', 'o', 'n', 't', 'h']);
    }
    if f == "note"@ {
        reveal_strlit("note");
        assert(f =~= seq!['n', 'o', 't', 'e']);
    }
    if f == "issn"@ {
        reveal_strlit("issn");
        assert(f =~= seq!['i', 's', 's', 'n']);
    }
    if f == "eprint"@ {
        reveal_strlit("eprint");
        assert(f =~= seq!['e', 'p', 'r', 'i', 'n', 't']);
    }
    if f == "publisher"@ {
        reveal_strlit("publisher");
        assert(f =~= seq!['p', 'u', 'b', 'l', 'i', 's', 'h', 'e', 'r']);
    }
    if f == "address"@ {
        reveal_strlit("address");
        assert(f =~= seq!['a', 'd', 'd', 'r', 'e', 's', 's']);
    }
    if f == "editor"@ {
        reveal_strlit("editor");
        assert(f =~= seq!['e', 'd', 'i', 't', 'o', 'r']);
    }
    if f == "isbn"@ {
        reveal_strlit("isbn");
        assert(f =~= seq!['i', 's', 'b', 'n']);
    }
    if f == "howpublished"@ {
        reveal_strlit("howpublished");
        assert(f =~= seq!['h', 'o', 'w', 'p', 'u', 'b', 'l', 'i', 's', 'h', 'e', 'd']);
    }
    if f == "booktitle"@ {
        reveal_strlit("booktitle");
        assert(f =~= seq!['b', 'o', 'o', 'k', 't', 'i', 't', 'l', 'e']);
    }
    if f == "series"@ {
        reveal_strlit("series");
        assert(f =~= seq!['s', 'e', 'r', 'i', 'e', 's']);
    }
    if f == "url"@ {
        reveal_strlit("url");
        assert(f =~= seq!['u', 'r', 'l']);
    }
    if f == "archiveprefix"@ {
        reveal_strlit("archiveprefix");
        assert(f =~= seq!['a', 'r', 'c', 'h', 'i', 'v', 'e', 'p', 'r', 'e', 'f', 'i', 'x']);
    }
    if f == "primaryclass"@ {
        reveal_strlit("primaryclass");
        assert(f =~= seq!['p', 'r', 'i', 'm', 'a', 'r', 'y', 'c', 'l', 'a', 's', 's']);
    }
    if f == "organization"@ {
        reveal_strlit("organization");
        assert(f =~= seq!['o', 'r', 'g', 'a', 'n', 'i', 'z', 'a', 't', 'i', 'o', 'n']);
    }
    if f == "school"@ {
        reveal_strlit("school");
        assert(f =~= seq!['s', 'c', 'h', 'o', 'o', 'l']);
    }
    if f == "institution"@ {
        reveal_strlit("institution");
        assert(f =~= seq!['i', 'n', 's', 't', 'i', 't', 'u', 't', 'i', 'o', 'n']);
    }
}

/// Every string the entry page shows and edits is a property of the entry,
/// so setting it to a new value is reported as a change: author, title,
/// year, doi and notes, every extra field, and the abstract through the
/// property `x-abstract`, which sets the tag `abstract`.
pub proof fn lemma_shown_fields_are_properties(f: Seq<char>)
    requires
        (is_main_field(f) && f != "abstract"@) || is_extra_field(f),
    ensures
        is_property_tag(f),
        is_property_tag("x-abstract"@),
        property_tag("x-abstract"@) == "abstract"@,
{
    if is_extra_field(f) {
        lemma_extra_field(f);
    }
}

/// The extra fields of every kind of entry: no name occurs twice, and each
/// is a word of lower-case ASCII letters with a label and a string property
/// of the entry, and is none of the names shown apart.
#[verifier::spinoff_prover]
#[verifier::rlimit(50)]
pub proof fn lemma_field_names(t: EntryType)
    ensures
        forall|i: int, j: int|
            0 <= i < j < t.field_names().len() ==> t.field_names()[i] != t.field_names()[j],
        forall|i: int|
            0 <= i < t.field_names().len() ==> {
                let f = #[trigger] t.field_names()[i];
                &&& is_lower_word(f)
                &&& field_label(f) is Some
                &&& is_property_tag(f)
                &&& !is_main_field(f)
            },
{
    let names = t.field_names();
    assert forall|i: int| 0 <= i < names.len() implies is_extra_field(#[trigger] names[i]) by {}
    assert forall|i: int| 0 <= i < names.len() implies {
        let f = #[trigger] names[i];
        &&& is_lower_word(f)
        &&& field_label(f) is Some
        &&& is_property_tag(f)
        &&& !is_main_field(f)
    } by {
        lemma_extra_field(names[i]);
    }
    reveal_strlit("journal");
    reveal_strlit("volume");
    reveal_strlit("number");
    reveal_strlit("pages");
    reveal_strlit("month");
    reveal_strlit("note");
    reveal_strlit("issn");
    reveal_strlit("eprint");
    reveal_strlit("publisher");
    reveal_strlit("address");
    reveal_strlit("editor");
    reveal_strlit("isbn");
    reveal_strlit("howpublished");
    reveal_strlit("booktitle");
    reveal_strlit("series");
    reveal_strlit("url");
    reveal_strlit("archiveprefix");
    reveal_strlit("primaryclass");
    reveal_strlit("organization");
    reveal_strlit("school");
    reveal_strlit("institution");
    assert forall|i: int, j: int| 0 <= i < j < names.len() implies names[i] != names[j] by {
        if names[i] == names[j] {
            assert(names[i].len() == names[j].len());
            assert(names[i][0] == names[j][0]);
            assert(names[i][1] == names[j][1]);
        }
    }
}

/// The text before the first space or comma (all of `s` when there is
/// none).
pub open spec fn first_name_part(s: Seq<char>) -> Seq<char>
    decreases s.len(),
{
    if s.len() == 0 {
        s
    } else if s[0] == ' ' || s[0] == ',' {
        seq![]
    } else {
        seq![s[0]] + first_name_part(s.skip(1))
    }
}

/// The citation key made from an entry's authors, year and title: the
/// first author's name before any space or comma, in lower case, then the
/// year, then the first six characters of the title.
pub open spec fn generate_key_spec(authors: Seq<char>, year: Seq<char>, title: Seq<char>) -> Seq<
    char,
> {
    lowercase(first_name_part(authors)) + year + title.take(
        if title.len() < 6 {
            title.len() as int
        } else {
            6
        },
    )
}

/// The first author's name ends at the first space or comma: a prefix free
/// of both is the name when the text ends there or a space or comma follows.
pub proof fn lemma_first_name_part(p: Seq<char>, rest: Seq<char>)
    requires
        forall|i: int| 0 <= i < p.len() ==> #[trigger] p[i] != ' ' && p[i] != ',',
        rest.len() == 0 || rest[0] == ' ' || rest[0] == ',',
    ensures
        first_name_part(p + rest) == p,
    decreases p.len(),
{
    if p.len() == 0 {
        assert(p + rest =~= rest);
    } else {
        assert((p + rest).skip(1) =~= p.skip(1) + rest);
        lemma_first_name_part(p.skip(1), rest);
        assert(seq![p[0]] + p.skip(1) =~= p);
    }
}

/// A citation key starts with the first author's name up to the first space
/// or comma, in lower case, followed by the year and at most six characters
/// of the title; authors without a space or comma are taken whole.
pub proof fn lemma_generate_key_parts(
    name: Seq<char>,
    sep: char,
    rest: Seq<char>,
    year: Seq<char>,
    title: Seq<char>,
)
    requires
        forall|i: int| 0 <= i < name.len() ==> #[trigger] name[i] != ' ' && name[i] != ',',
    ensures
        (sep == ' ' || sep == ',') ==> generate_key_spec(name + seq![sep] + rest, year, title)
            == lowercase(name) + year + title.take(
            if title.len() < 6 {
                title.len() as int
            } else {
                6
            },
        ),
        generate_key_spec(name, year, title) == lowercase(name) + year + title.take(
            if title.len() < 6 {
                title.len() as int
            } else {
                6
            },
        ),
{
    if sep == ' ' || sep == ',' {
        assert(name + seq![sep] + rest =~= name + (seq![sep] + rest));
        lemma_first_name_part(name, seq![sep] + rest);
    }
    assert(name + Seq::<char>::empty() =~= name);
    lemma_first_name_part(name, Seq::<char>::empty());
}

/// The citation key made from authors, year and title.
pub fn generate_key(authors: &str, year: &str, title: &str) -> (res: String)
    ensures
        res@ == generate_key_spec(authors@, year@, title@),
{
    let av = str_chars(authors);
    let mut first: Vec<char> = Vec::new();
    let mut i: usize = 0;
    proof {
        assert(av@.skip(0) =~= av@);
        assert(first@ + first_name_part(av@.skip(0)) =~= first_name_part(av@));
    }
    while i < av.len() && av[i] != ' ' && av[i] != ','
        invariant
            i <= av.len(),
            av@ == authors@,
            first@ + first_name_part(av@.skip(i as int)) == first_name_part(av@),
        decreases av.len() - i,
    {
        let ghost before = first@;
        first.push(av[i]);
        proof {
            assert(av@.skip(i as int).skip(1) =~= av@.skip(i + 1));
            assert(av@.skip(i as int)[0] == av@[i as int]);
            assert(before + (seq![av@[i as int]] + first_name_part(av@.skip(i + 1)))
                =~= first@ + first_name_part(av@.skip(i + 1)));
        }
        i = i + 1;
    }
    proof {
        if i == av.len() {
            assert(av@.skip(i as int) =~= Seq::<char>::empty());
        }
        assert(first@ + Seq::<char>::empty() =~= first@);
    }
    let first = chars_to_string(&first);
    let mut key = to_lowercase(first.as_str());
    key.append(year);
    let tv = str_chars(title);
    let n: usize = if tv.len() < 6 {
        tv.len()
    } else {
        6
    };
    let mut j: usize = 0;
    let ghost start = key@;
    while j < n
        invariant
            j <= n <= tv.len(),
            tv@ == title@,
            key@ == start + tv@.take(j as int),
        decreases n - j,
    {
        key.push(tv[j]);
        proof {
            assert(tv@.take(j + 1) =~= tv@.take(j as int).push(tv@[j as int]));
        }
        j = j + 1;
    }
    key
}

/// The characters that a citation key may not hold.
pub open spec fn is_unsafe_key_char(c: char) -> bool {
    c == ' ' || c == '{' || c == '}' || c == '(' || c == ')' || c == ',' || c == '"' || c == '\''
        || c == '=' || c == '#' || c == '%' || c == '\\'
}

/// The citation key with every unsafe character replaced by `_`.
pub open spec fn sanitize_key_spec(key: Seq<char>) -> Seq<char> {
    key.map_values(
        |c: char|
            if is_unsafe_key_char(c) {
                '_'
            } else {
                c
            },
    )
}

/// The citation key with every character that BibTeX does not allow in a
/// key replaced by `_`.
pub fn sanitize_key(key: &str) -> (res: String)
    ensures
        res@ == sanitize_key_spec(key@),
{
    let kv = str_chars(key);
    let mut out = String::new();
    let mut i: usize = 0;
    while i < kv.len()
        invariant
            i <= kv.len(),
            kv@ == key@,
            out@ == sanitize_key_spec(kv@.take(i as int)),
        decreases kv.len() - i,
    {
        let c = kv[i];
        let unsafe_char = c == ' ' || c == '{' || c == '}' || c == '(' || c == ')' || c == ','
            || c == '"' || c == '\'' || c == '=' || c == '#' || c == '%' || c == '\\';
        if unsafe_char {
            out.push('_');
        } else {
            out.push(c);
        }
        proof {
            assert(sanitize_key_spec(kv@.take(i + 1)) =~= sanitize_key_spec(kv@.take(i as int)).push(
                out@.last(),
            ));
        }
        i = i + 1;
    }
    proof {
        assert(kv@.take(i as int) =~= kv@);
    }
    out
}

/// A sanitized key holds no unsafe character, and sanitizing it again
/// changes nothing.
pub proof fn lemma_sanitize_key(key: Seq<char>)
    ensures
        sanitize_key_spec(key).len() == key.len(),
        forall|i: int|
            0 <= i < key.len() ==> !is_unsafe_key_char(#[trigger] sanitize_key_spec(key)[i]),
        sanitize_key_spec(sanitize_key_spec(key)) == sanitize_key_spec(key),
{
    assert(sanitize_key_spec(sanitize_key_spec(key)) =~= sanitize_key_spec(key));
}

/// Characters that `sanitize_filename` removes on every platform.
pub open spec fn is_illegal_filename_char(c: char) -> bool {
    ||| c == '/'
    ||| c == '?'
    ||| c == '<'
    ||| c == '>'
    ||| c == '\\'
    ||| c == ':'
    ||| c == '*'
    ||| c == '|'
    ||| c == '"'
    ||| ('\u{0}' <= c <= '\u{1f}')
    ||| ('\u{80}' <= c <= '\u{9f}')
}

/// `a` is `b` with some of its characters left out (none, or all).
pub open spec fn is_subsequence(a: Seq<char>, b: Seq<char>) -> bool
    decreases b.len(),
{
    if a.len() == 0 {
        true
    } else if b.len() == 0 {
        false
    } else if a.last() == b.last() {
        is_subsequence(a.drop_last(), b.drop_last())
    } else {
        is_subsequence(a, b.drop_last())
    }
}

/// The first `k` characters of `name` hold no '.', and the name ends or
/// has a '.' right after them: the part before the first dot has length `k`.
pub open spec fn stem_has_len(name: Seq<char>, k: int) -> bool {
    &&& 0 <= k <= name.len()
    &&& forall|i: int| 0 <= i < k ==> name[i] != '.'
    &&& (k == name.len() || name[k] == '.')
}

/// A name that may read as a Windows device name (`con`, `prn`, `aux`,
/// `nul`, `com0`..`com9`, `lpt0`..`lpt9`, in any case, with or without an
/// extension): the part before its first dot has three or four characters
/// and starts with one of their first letters.
pub open spec fn may_name_device(name: Seq<char>) -> bool {
    &&& name.len() > 0
    &&& (name[0] == 'c' || name[0] == 'C' || name[0] == 'p' || name[0] == 'P' || name[0] == 'a'
        || name[0] == 'A' || name[0] == 'n' || name[0] == 'N' || name[0] == 'l' || name[0] == 'L')
    &&& (stem_has_len(name, 3) || stem_has_len(name, 4))
}

/// A file name that `sanitize_filename` leaves as it is on every platform:
/// it holds none of the removed characters, is not made of dots alone, fits
/// in 255 bytes of UTF-8, does not end in a dot or a space, and cannot read
/// as a Windows device name.
pub open spec fn is_clean_filename(name: Seq<char>) -> bool {
    &&& forall|i: int| 0 <= i < name.len() ==> !is_illegal_filename_char(#[trigger] name[i])
    &&& exists|i: int| 0 <= i < name.len() && #[trigger] name[i] != '.'
    &&& vstd::utf8::encode_utf8(name).len() <= 255
    &&& name.last() != '.'
    &&& name.last() != ' '
    &&& !may_name_device(name)
}

/// Calls `sanitize_filename::sanitize` with its default options. Every step
/// of it deletes: the path, wildcard, quote and control characters, a name
/// made of dots alone, everything past 255 bytes, and on Windows only a
/// device name and trailing dots and spaces. So the result is the name with
/// some characters left out, holds no character removed everywhere, has at
/// most 255 bytes, so at most 255 characters, and equals a name that none of
/// the steps touches. Which characters go when the name is not clean depends
/// on the platform, and is left unsaid.
#[verifier::external_body]
fn sanitize_filename(name: &str) -> (res: String)
    ensures
        is_subsequence(res@, name@),
        forall|i: int| 0 <= i < res@.len() ==> !is_illegal_filename_char(#[trigger] res@[i]),
        res@.len() <= 255,
        is_clean_filename(name@) ==> res@ == name@,
{
    sanitize_filename::sanitize(name)
}

/// The file name of an entry's PDF: the citation key with ".pdf",
/// sanitized for the file system.
pub fn pdf_filename(citation_key: &str) -> (res: String)
    ensures
        forall|i: int| 0 <= i < res@.len() ==> !is_illegal_filename_char(#[trigger] res@[i]),
        res@.len() <= 255,
        is_subsequence(res@, citation_key@ + ".pdf"@),
        is_clean_filename(citation_key@ + ".pdf"@) ==> res@ == citation_key@ + ".pdf"@,
{
    let mut name = String::from_str(citation_key);
    name.append(".pdf");
    sanitize_filename(name.as_str())
}

/// Name for what `url::Url::parse` gives for a text: `None` when the text is
/// no valid URL, else the URL's serialization.
pub uninterp spec fn url_parse(input: Seq<char>) -> Option<Seq<char>>;

/// Calls `url::Url::parse` and converts the URL to its serialization; the
/// result is named `url_parse`.
#[verifier::external_body]
fn parse_url(input: &str) -> (res: Result<String, url::ParseError>)
    ensures
        res is Ok <==> url_parse(input@) is Some,
        res matches Ok(s) ==> url_parse(input@) == Some(s@),
{
    url::Url::parse(input).map(|u| u.as_str().to_string())
}

/// The parsed URL, or `Error::Url`.
pub fn to_url(input: &str) -> (res: Result<String, Error>)
    ensures
        res is Ok <==> url_parse(input@) is Some,
        res matches Ok(s) ==> url_parse(input@) == Some(s@),
        res matches Err(e) ==> e is Url,
{
    match parse_url(input) {
        Ok(s) => Ok(s),
        Err(e) => Err(Error::Url(e)),
    }
}

/// The Google Scholar search address for an entry, before parsing.
pub open spec fn scholar_address(author: Seq<char>, title: Seq<char>) -> Seq<char> {
    "https://scholar.google.com/scholar?q="@ + format_authors_spec(author) + " "@ + title
        + "&scisbd=0&num=10&start=0&safe=active&filter=1&as_vis=1"@
}

/// The Google Scholar search for the authors and title.
pub fn build_google_schoolar_url(author: &str, title: &str) -> (res: Result<String, Error>)
    ensures
        res is Ok <==> url_parse(scholar_address(author@, title@)) is Some,
        res matches Ok(s) ==> url_parse(scholar_address(author@, title@)) == Some(s@),
{
    let authors = format_authors(author);
    let mut address = String::from_str("https://scholar.google.com/scholar?q=");
    address.append(authors.as_str());
    address.append(" ");
    address.append(title);
    address.append("&scisbd=0&num=10&start=0&safe=active&filter=1&as_vis=1");
    to_url(address.as_str())
}

/// The first part of the arXiv advanced search address.
pub const ARXIV_SEARCH_START: &'static str =
    "https://arxiv.org/search/advanced?advanced=&terms-0-operator=AND&terms-0-term=";

/// The part of the arXiv search address between the title and the authors.
pub const ARXIV_SEARCH_MIDDLE: &'static str =
    "&terms-0-field=title&terms-1-operator=OR&terms-1-term=";

/// The rest of the arXiv search address.
pub const ARXIV_SEARCH_END: &'static str = "&terms-1-field=author&date-filter_by=all_dates&date-year=&date-from_date=&date-to_date=&date-date_type=submitted_date&classification-physics_archives=all&classification-include_cross_list=include&abstracts=show&size=25&order=-announced_date_first";

/// The arXiv search address for an entry, before parsing.
pub open spec fn arxiv_address(author: Seq<char>, title: Seq<char>) -> Seq<char> {
    ARXIV_SEARCH_START@ + title + ARXIV_SEARCH_MIDDLE@ + format_authors_spec(author)
        + ARXIV_SEARCH_END@
}

/// The arXiv search for the title or the authors.
pub fn build_arxiv_url(author: &str, title: &str) -> (res: Result<String, Error>)
    ensures
        res is Ok <==> url_parse(arxiv_address(author@, title@)) is Some,
        res matches Ok(s) ==> url_parse(arxiv_address(author@, title@)) == Some(s@),
{
    let authors = format_authors(author);
    let mut address = String::from_str(ARXIV_SEARCH_START);
    address.append(title);
    address.append(ARXIV_SEARCH_MIDDLE);
    address.append(authors.as_str());
    address.append(ARXIV_SEARCH_END);
    to_url(address.as_str())
}

/// Whether the text already names a web address.
pub open spec fn names_web_address(s: Seq<char>) -> bool {
    contains_seq(s, "https://"@) || contains_seq(s, "http://"@)
}

/// The address of an arXiv identifier, before parsing: the text itself
/// when it is a web address, else the arXiv abstract page of the
/// identifier stripped of "arxiv.org/abs/" and "arxiv.org/".
pub open spec fn eprint_address(s: Seq<char>) -> Seq<char> {
    if names_web_address(s) {
        s
    } else {
        "https://arxiv.org/abs/"@ + str_replace(
            str_replace(s, "arxiv.org/abs/"@, ""@),
            "arxiv.org/"@,
            ""@,
        )
    }
}

/// The link of an e-print: an error for an empty text, else the parsed
/// address.
pub fn eprint_url(url: &str) -> (res: Result<String, Error>)
    ensures
        url@.len() == 0 ==> (res matches Err(e) && e is EmptyString),
        url@.len() > 0 ==> (res is Ok <==> url_parse(eprint_address(url@)) is Some),
        url@.len() > 0 ==> (res matches Ok(s) ==> url_parse(eprint_address(url@)) == Some(s@)),
{
    if url.is_empty() {
        return Err(Error::EmptyString);
    }
    if contains_str(url, "https://") || contains_str(url, "http://") {
        to_url(url)
    } else {
        let stripped = replace_str(url, "arxiv.org/abs/", "");
        let stripped = replace_str(stripped.as_str(), "arxiv.org/", "");
        let mut address = String::from_str("https://arxiv.org/abs/");
        address.append(stripped.as_str());
        to_url(address.as_str())
    }
}

/// The address of a DOI, before parsing: the text itself when it is a web
/// address, else the doi.org resolver of the DOI stripped of "doi.org/".
pub open spec fn doi_address(s: Seq<char>) -> Seq<char> {
    if names_web_address(s) {
        s
    } else {
        "https://doi.org/"@ + str_replace(s, "doi.org/"@, ""@)
    }
}

/// The resolver link of a DOI: an error for an empty text, else the parsed
/// address.
pub fn doi_url(url: &str) -> (res: Result<String, Error>)
    ensures
        url@.len() == 0 ==> (res matches Err(e) && e is EmptyString),
        url@.len() > 0 ==> (res is Ok <==> url_parse(doi_address(url@)) is Some),
        url@.len() > 0 ==> (res matches Ok(s) ==> url_parse(doi_address(url@)) == Some(s@)),
{
    if url.is_empty() {
        return Err(Error::EmptyString);
    }
    if contains_str(url, "https://") || contains_str(url, "http://") {
        to_url(url)
    } else {
        let stripped = replace_str(url, "doi.org/", "");
        let mut address = String::from_str("https://doi.org/");
        address.append(stripped.as_str());
        to_url(address.as_str())
    }
}

/// A DOI as the resolver service takes it: without "https://", "http://"
/// and "doi.org/".
pub open spec fn doi_query_spec(doi: Seq<char>) -> Seq<char> {
    str_replace(str_replace(str_replace(doi, "https://"@, ""@), "http://"@, ""@), "doi.org/"@, ""@)
}

/// A DOI stripped of the scheme and resolver host.
pub fn doi_query(doi: &str) -> (res: String)
    ensures
        res@ == doi_query_spec(doi@),
{
    let s = replace_str(doi, "https://", "");
    let s = replace_str(s.as_str(), "http://", "");
    replace_str(s.as_str(), "doi.org/", "")
}

/// The entry fetched for a DOI given a citation key of its own: the key
/// made from its authors, year and title, sanitized.
pub open spec fn rekeyed_key(e: EntryView) -> Seq<char> {
    sanitize_key_spec(
        generate_key_spec(
            tag_or_empty(e.tags, "author"@),
            tag_or_empty(e.tags, "year"@),
            tag_or_empty(e.tags, "title"@),
        ),
    )
}

/// The first entry of a BibTeX text with its citation key replaced by one
/// made from its authors, year and title, written back as BibTeX.
pub fn rekey_bibtex(data: &str) -> (res: Result<String, Error>)
    ensures
        res is Ok <==> (text_entries(data@) matches Some(v) && v.len() > 0),
        res matches Ok(s) ==> exists|e: EntryView|
            matches_model(e, text_entries(data@)->0[0]) && s@ == serialize_spec(
                EntryView { citation_key: rekeyed_key(e), ..e },
            ),
{
    let mut entry = Entry::from_bibtex(data)?;
    let ghost parsed = entry@;
    let author = entry.author();
    let year = entry.year();
    let title = entry.title();
    let key = generate_key(author.as_str(), year.as_str(), title.as_str());
    let key = sanitize_key(key.as_str());
    entry.set_citation_key(key.as_str());
    let res = entry.serialize();
    proof {
        assert(entry@ == (EntryView { citation_key: rekeyed_key(parsed), ..parsed }));
    }
    Ok(res)
}

/// The recent files without `path`.
pub open spec fn without_path(files: Seq<Seq<char>>, path: Seq<char>) -> Seq<Seq<char>> {
    files.filter(|f: Seq<char>| f != path)
}

/// The list of recent files with every occurrence of `path` removed.
pub fn remove_recent_file(files: &Vec<String>, path: &str) -> (res: Vec<String>)
    ensures
        res@.map_values(|s: String| s@) == without_path(files@.map_values(|s: String| s@), path@),
{
    let ghost fv = files@.map_values(|s: String| s@);
    let mut res: Vec<String> = Vec::new();
    let mut i: usize = 0;
    while i < files.len()
        invariant
            i <= files.len(),
            fv == files@.map_values(|s: String| s@),
            res@.map_values(|s: String| s@) == without_path(fv.take(i as int), path@),
        decreases files.len() - i,
    {
        let ghost old_res = res@;
        proof {
            assert(fv.take(i + 1).drop_last() =~= fv.take(i as int));
            reveal_with_fuel(Seq::<_>::filter, 1);
        }
        if !str_eq(files[i].as_str(), path) {
            let f = files[i].clone();
            res.push(f);
            proof {
                assert(res@.map_values(|s: String| s@) =~= old_res.map_values(|s: String| s@).push(
                    f@,
                ));
            }
        }
        i = i + 1;
    }
    proof {
        assert(fv.take(i as int) =~= fv);
    }
    res
}

/// The recent files with `path` appended when it is not already there.
pub open spec fn with_recent_file(files: Seq<Seq<char>>, path: Seq<char>) -> Seq<Seq<char>> {
    if files.contains(path) {
        files
    } else {
        files.push(path)
    }
}

/// The list of recent files with `path` appended when it is not already in
/// the list.
pub fn add_recent_file(files: &Vec<String>, path: &str) -> (res: Vec<String>)
    ensures
        res@.map_values(|s: String| s@) == with_recent_file(
            files@.map_values(|s: String| s@),
            path@,
        ),
{
    let ghost fv = files@.map_values(|s: String| s@);
    let mut res: Vec<String> = Vec::new();
    let mut found = false;
    let mut i: usize = 0;
    while i < files.len()
        invariant
            i <= files.len(),
            fv == files@.map_values(|s: String| s@),
            res@.map_values(|s: String| s@) == fv.take(i as int),
            found == fv.take(i as int).contains(path@),
        decreases files.len() - i,
    {
        let ghost old_res = res@;
        if str_eq(files[i].as_str(), path) {
            found = true;
        }
        let f = files[i].clone();
        res.push(f);
        proof {
            assert(fv.take(i + 1) =~= fv.take(i as int).push(fv[i as int]));
            assert(res@.map_values(|s: String| s@) =~= old_res.map_values(|s: String| s@).push(
                f@,
            ));
            if fv.take(i + 1).contains(path@) {
                let k = choose|k: int| 0 <= k < i + 1 && #[trigger] fv.take(i + 1)[k] == path@;
                if k < i {
                    assert(fv.take(i as int)[k] == path@);
                }
            }
            if found {
                if fv[i as int] == path@ {
                    assert(fv.take(i + 1)[i as int] == path@);
                } else {
                    let k = choose|k: int| 0 <= k < i && #[trigger] fv.take(i as int)[k] == path@;
                    assert(fv.take(i + 1)[k] == path@);
                }
            }
        }
        i = i + 1;
    }
    proof {
        assert(fv.take(i as int) =~= fv);
    }
    if !found {
        let ghost old_res = res@;
        let p = String::from_str(path);
        res.push(p);
        proof {
            assert(res@.map_values(|s: String| s@) =~= old_res.map_values(|s: String| s@).push(p@));
        }
    }
    res
}

/// After removing a path the list no longer holds it; after appending a
/// path the list holds it.
pub proof fn lemma_recent_files(files: Seq<Seq<char>>, path: Seq<char>)
    ensures
        !without_path(files, path).contains(path),
        files.push(path).contains(path),
{
    let w = without_path(files, path);
    if w.contains(path) {
        let k = choose|k: int| 0 <= k < w.len() && w[k] == path;
        files.lemma_filter_pred(|f: Seq<char>| f != path, k);
    }
    assert(files.push(path)[files.len() as int] == path);
}

/// The subtitle of a recent file's row: its path, except for paths under
/// "/run/user" (files handed in through a portal).
pub fn recent_file_subtitle(path: &str) -> (res: Option<String>)
    ensures
        has_prefix(path@, "/run/user"@) ==> res is None,
        !has_prefix(path@, "/run/user"@) ==> (res matches Some(s) && s@ == path@),
{
    if starts_with_str(path, "/run/user") {
        None
    } else {
        Some(String::from_str(path))
    }
}

/// The action that opens a recent file.
pub fn open_action_name(path: &str) -> (res: String)
    ensures
        res@ == "win.open::"@ + path@,
{
    let mut action = String::from_str("win.open::");
    action.append(path);
    action
}

/// The bibliography folder as shown to the user: the home folder written
/// as "~", or the usual place when there is no documents folder.
pub open spec fn display_path_spec(path: Option<Seq<char>>, home: Seq<char>) -> Seq<char> {
    match path {
        Some(p) => str_replace(p, home, "~"@),
        None => "~/Documents/Bibliography"@,
    }
}

/// The bibliography folder as shown to the user.
pub fn bibliography_path_string(path: Option<&str>, home: &str) -> (res: String)
    ensures
        res@ == display_path_spec(
            match path {
                Some(p) => Some(p@),
                None => None,
            },
            home@,
        ),
{
    match path {
        Some(p) => replace_str(p, home, "~"),
        None => String::from_str("~/Documents/Bibliography"),
    }
}

} // verus!
