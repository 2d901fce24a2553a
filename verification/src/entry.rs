//! A bibliography entry: citation key, kind and tags; its citation in a
//! template and its BibTeX form.
use vstd::prelude::*;
use vstd::string::StringExecFns;

use crate::bibtex::{cyclic_strings, read_bibtex, text_entries, RawBibliography};
use crate::entry_type::EntryType;
use crate::error::Error;
use crate::format::{
    clear_citation, clear_citation_spec, clear_latex, clear_markdown, clear_non_markdown,
    format_authors, format_authors_spec, format_latex, format_latex_spec, format_plain,
    format_plain_spec, texer, texer_spec, Format, EMPTY_LATEX, EMPTY_MARKDOWN, EMPTY_NON_MARKDOWN,
};
use crate::regex_ops::{regex_find_all, regex_split, rejoin, rewrite};
use crate::tags::{
    distinct_keys, find_index, lemma_find_index_lookup, lemma_set_keeps_distinct, lemma_tag_absent,
    lemma_tag_at, lookup, set_tag, tag_map, tag_view,
};
use crate::text::{
    chars_to_string, join_with, lowercase, replace_all, replace_chars, str_chars, str_eq,
    to_lowercase,
};

verus! {

/// An entry as plain values.
pub struct EntryView {
    pub citation_key: Seq<char>,
    pub entry_type: EntryType,
    /// The type as written, for a kind that has no variant of its own.
    pub other_entry_type: Option<Seq<char>>,
    /// The tags in order, each name at most once.
    pub tags: Seq<(Seq<char>, Seq<char>)>,
}

/// A bibliography entry.
#[derive(Debug)]
pub struct Entry {
    citation_key: String,
    entry_type: EntryType,
    other_entry_type: Option<String>,
    tags: Vec<(String, String)>,
}

impl View for Entry {
    type V = EntryView;

    closed spec fn view(&self) -> EntryView {
        EntryView {
            citation_key: self.citation_key@,
            entry_type: self.entry_type,
            other_entry_type: match self.other_entry_type {
                Some(s) => Some(s@),
                None => None,
            },
            tags: tag_view(self.tags@),
        }
    }
}

/// The text that a search of the entry list looks in: author, title, year
/// and citation key, separated by single spaces.
pub open spec fn search_text_spec(e: EntryView) -> Seq<char> {
    tag_or_empty(e.tags, "author"@) + " "@ + tag_or_empty(e.tags, "title"@) + " "@ + tag_or_empty(
        e.tags,
        "year"@,
    ) + " "@ + e.citation_key
}

/// The value of the tag named `key`, or nothing.
pub open spec fn tag_or_empty(tags: Seq<(Seq<char>, Seq<char>)>, key: Seq<char>) -> Seq<char> {
    match lookup(tags, key) {
        Some(v) => v,
        None => seq![],
    }
}

/// The tag names that are string properties of an entry: setting one of
/// them to a new value is reported as a change.
pub open spec fn is_property_tag(tag: Seq<char>) -> bool {
    ||| tag == "notes"@
    ||| tag == "author"@
    ||| tag == "year"@
    ||| tag == "title"@
    ||| tag == "volume"@
    ||| tag == "number"@
    ||| tag == "pages"@
    ||| tag == "publisher"@
    ||| tag == "journal"@
    ||| tag == "address"@
    ||| tag == "howpublished"@
    ||| tag == "note"@
    ||| tag == "booktitle"@
    ||| tag == "series"@
    ||| tag == "archiveprefix"@
    ||| tag == "eprint"@
    ||| tag == "primaryclass"@
    ||| tag == "month"@
    ||| tag == "editor"@
    ||| tag == "organization"@
    ||| tag == "school"@
    ||| tag == "institution"@
    ||| tag == "doi"@
    ||| tag == "url"@
    ||| tag == "issn"@
    ||| tag == "isbn"@
    ||| tag == "citation-key"@
    ||| tag == "other-entry-type"@
    ||| tag == "x-abstract"@
}

fn is_property_tag_exec(tag: &str) -> (res: bool)
    ensures
        res == is_property_tag(tag@),
{
    str_eq(tag, "notes") || str_eq(tag, "author") || str_eq(tag, "year") || str_eq(tag, "title")
        || str_eq(tag, "volume") || str_eq(tag, "number") || str_eq(tag, "pages") || str_eq(
        tag,
        "publisher",
    ) || str_eq(tag, "journal") || str_eq(tag, "address") || str_eq(tag, "howpublished")
        || str_eq(tag, "note") || str_eq(tag, "booktitle") || str_eq(tag, "series") || str_eq(
        tag,
        "archiveprefix",
    ) || str_eq(tag, "eprint") || str_eq(tag, "primaryclass") || str_eq(tag, "month") || str_eq(
        tag,
        "editor",
    ) || str_eq(tag, "organization") || str_eq(tag, "school") || str_eq(tag, "institution")
        || str_eq(tag, "doi") || str_eq(tag, "url") || str_eq(tag, "issn") || str_eq(tag, "isbn")
        || str_eq(tag, "citation-key") || str_eq(tag, "other-entry-type") || str_eq(
        tag,
        "x-abstract",
    )
}

/// The entry made from a parsed bibliography entry: its citation key, its
/// kind read from the type, the type as written when the kind is `Other`,
/// and its tags.
pub open spec fn matches_model(e: EntryView, m: (Seq<char>, Seq<char>, Map<Seq<char>, Seq<char>>)) -> bool {
    let kind = EntryType::from_lowercase_name(lowercase(m.0));
    &&& e.citation_key == m.1
    &&& e.entry_type == kind
    &&& e.other_entry_type == (if kind == EntryType::Other {
        Some(m.0)
    } else {
        None
    })
    &&& tag_map(e.tags) == m.2
    &&& distinct_keys(e.tags)
}

/// Placeholders in citation templates: `%NAME%` with an upper-case name.
pub const TAG_PATTERN: &'static str = r"%(?P<tag>[A-Z]+)%";

/// The tag name that a placeholder match stands for: the text between the
/// percent signs, in lower case.
pub open spec fn placeholder_tag(m: Seq<char>) -> Seq<char> {
    lowercase(
        if m.len() >= 2 {
            m.subrange(1, m.len() - 1)
        } else {
            m
        },
    )
}

/// What a placeholder becomes: the value of its tag (nothing for a missing
/// tag), with the title converted from LaTeX unless the format is LaTeX.
pub open spec fn placeholder_value(e: EntryView, m: Seq<char>, format: Format) -> Seq<char> {
    let tag = placeholder_tag(m);
    let value = tag_or_empty(e.tags, tag);
    if format != Format::LaTeX && tag == "title"@ {
        texer_spec(value)
    } else {
        value
    }
}

/// `s` with every placeholder replaced by its value.
pub open spec fn substitute_tags(e: EntryView, s: Seq<char>, format: Format) -> Seq<char> {
    match (regex_split(TAG_PATTERN@, s), regex_find_all(TAG_PATTERN@, s)) {
        (Some(gaps), Some(found)) => rejoin(
            gaps,
            found.map_values(|m: Seq<char>| placeholder_value(e, m, format)),
        ),
        _ => s,
    }
}

/// The author list as it goes into a citation: converted from LaTeX unless
/// the format is LaTeX, then written out as a list.
pub open spec fn citation_authors(e: EntryView, format: Format) -> Seq<char> {
    let name = tag_or_empty(e.tags, "author"@);
    format_authors_spec(
        if format == Format::LaTeX {
            name
        } else {
            texer_spec(name)
        },
    )
}

/// The citation of entry `e` from the template `citation` in `format`: the
/// template's markup rendered for the format, `%AUTHOR%` replaced by the
/// author list, every other placeholder by its tag, and the result cleaned
/// of empty markup and of the traces of missing fields.
pub open spec fn format_citation_spec(e: EntryView, citation: Seq<char>, format: Format) -> Seq<char> {
    let marked = match format {
        Format::Plain => format_plain_spec(citation),
        Format::Markdown => citation,
        Format::LaTeX => format_latex_spec(citation, e.citation_key),
    };
    let with_author = replace_all(marked, "%AUTHOR%"@, citation_authors(e, format));
    let filled = substitute_tags(e, with_author, format);
    match format {
        Format::Markdown => clear_citation_spec(rewrite(EMPTY_MARKDOWN@, filled, ""@)),
        Format::LaTeX => clear_citation_spec(
            rewrite(EMPTY_NON_MARKDOWN@, rewrite(EMPTY_LATEX@, filled, ""@), ""@),
        ),
        Format::Plain => clear_citation_spec(rewrite(EMPTY_NON_MARKDOWN@, filled, ""@)),
    }
}

/// The type written in the BibTeX form of an entry.
pub open spec fn serialized_type(e: EntryView) -> Seq<char> {
    if e.entry_type == EntryType::Other {
        match e.other_entry_type {
            Some(s) => s,
            None => "other"@,
        }
    } else {
        e.entry_type.name()
    }
}

/// The line of one tag in the BibTeX form.
pub open spec fn tag_line(t: (Seq<char>, Seq<char>)) -> Seq<char> {
    "    "@ + t.0 + " = {"@ + t.1 + "},"@
}

/// The BibTeX form of an entry: `@type{key,`, one line per tag, and `}`.
pub open spec fn serialize_spec(e: EntryView) -> Seq<char> {
    "@"@ + serialized_type(e) + "{"@ + e.citation_key + ",\n"@ + join_with(
        e.tags.map_values(|t: (Seq<char>, Seq<char>)| tag_line(t)),
        "\n"@,
    ) + "\n}"@
}

fn clone_tags(tags: &Vec<(String, String)>) -> (res: Vec<(String, String)>)
    ensures
        tag_view(res@) == tag_view(tags@),
{
    let mut res: Vec<(String, String)> = Vec::new();
    let mut i: usize = 0;
    while i < tags.len()
        invariant
            i <= tags.len(),
            tag_view(res@) == tag_view(tags@.take(i as int)),
        decreases tags.len() - i,
    {
        let k = tags[i].0.clone();
        let v = tags[i].1.clone();
        let ghost old_res = res@;
        res.push((k, v));
        proof {
            assert(tags@.take(i + 1) =~= tags@.take(i as int).push(tags@[i as int]));
            assert(tag_view(res@) =~= tag_view(old_res).push((k@, v@)));
            assert(tag_view(tags@.take(i + 1)) =~= tag_view(tags@.take(i as int)).push(
                (tags@[i as int].0@, tags@[i as int].1@),
            ));
        }
        i = i + 1;
    }
    proof {
        assert(tags@.take(i as int) =~= tags@);
    }
    res
}

impl Clone for Entry {
    fn clone(&self) -> (res: Self)
        ensures
            res@ == self@,
    {
        Entry {
            citation_key: self.citation_key.clone(),
            entry_type: self.entry_type,
            other_entry_type: match &self.other_entry_type {
                Some(s) => Some(s.clone()),
                None => None,
            },
            tags: clone_tags(&self.tags),
        }
    }
}

impl Entry {
    /// Each tag name occurs at most once.
    pub open spec fn wf(&self) -> bool {
        distinct_keys(self@.tags)
    }

    /// An entry with an empty citation key, of kind `Other`, without tags.
    pub fn default() -> (res: Entry)
        ensures
            res@.citation_key == Seq::<char>::empty(),
            res@.entry_type == EntryType::Other,
            res@.other_entry_type is None,
            res@.tags == Seq::<(Seq<char>, Seq<char>)>::empty(),
            res.wf(),
    {
        let res = Entry {
            citation_key: String::new(),
            entry_type: EntryType::Other,
            other_entry_type: None,
            tags: Vec::new(),
        };
        proof {
            assert(tag_view(res.tags@) =~= Seq::<(Seq<char>, Seq<char>)>::empty());
        }
        res
    }

    /// An entry with the given citation key and kind, without tags.
    pub fn new(citation_key: &str, type_: EntryType) -> (res: Entry)
        ensures
            res@.citation_key == citation_key@,
            res@.entry_type == type_,
            res@.other_entry_type is None,
            res@.tags == Seq::<(Seq<char>, Seq<char>)>::empty(),
            res.wf(),
    {
        let res = Entry {
            citation_key: String::from_str(citation_key),
            entry_type: type_,
            other_entry_type: None,
            tags: Vec::new(),
        };
        proof {
            assert(tag_view(res.tags@) =~= Seq::<(Seq<char>, Seq<char>)>::empty());
        }
        res
    }

    /// The entry made from a parsed bibliography entry.
    pub fn from_bibliography(bib: &RawBibliography) -> (res: Entry)
        requires
            distinct_keys(bib.tag_pairs()),
        ensures
            res@.citation_key == bib.citation_key@,
            res@.tags == bib.tag_pairs(),
            matches_model(res@, bib.model()),
            res.wf(),
    {
        let entry_type = EntryType::from_name(bib.entry_type.as_str());
        let other_entry_type = if entry_type == EntryType::Other {
            Some(bib.entry_type.clone())
        } else {
            None
        };
        let tags = clone_tags(&bib.tags);
        Entry { citation_key: bib.citation_key.clone(), entry_type, other_entry_type, tags }
    }

    /// The first entry of a BibTeX text, as `read_bibtex` reads it.
    pub fn from_bibtex(data: &str) -> (res: Result<Entry, Error>)
        ensures
            res is Ok <==> (text_entries(data@) matches Some(v) && v.len() > 0),
            res matches Ok(e) ==> matches_model(e@, text_entries(data@)->0[0]) && e.wf(),
            res matches Err(err) ==> ((err is Bibtex || err is CyclicStrings) <==> text_entries(
                data@,
            ) is None),
            res matches Err(err) ==> (err is CyclicStrings <==> cyclic_strings(data@)),
            res matches Err(err) ==> (err is Bibtex || err is CyclicStrings || err is InvalidBibtex),
    {
        match read_bibtex(data) {
            Err(e) => Err(e),
            Ok(v) => {
                if v.len() > 0 {
                    let e = Entry::from_bibliography(&v[0]);
                    Ok(e)
                } else {
                    Err(Error::InvalidBibtex)
                }
            },
        }
    }

    /// The text that a search of the entry list looks in: the author, the
    /// title, the year and the citation key, with a space between each.
    pub fn search_text(&self) -> (res: String)
        ensures
            res@ == search_text_spec(self@),
    {
        let mut res = self.author();
        res.append(" ");
        let title = self.title();
        res.append(title.as_str());
        res.append(" ");
        let year = self.year();
        res.append(year.as_str());
        res.append(" ");
        res.append(self.citation_key.as_str());
        proof {
            reveal_strlit(" ");
        }
        res
    }

    /// The citation key.
    pub fn citation_key(&self) -> (res: String)
        ensures
            res@ == self@.citation_key,
    {
        self.citation_key.clone()
    }

    /// The kind of the entry.
    pub fn entry_type(&self) -> (res: EntryType)
        ensures
            res == self@.entry_type,
    {
        self.entry_type
    }

    /// The type as written, for a kind without a variant of its own.
    pub fn other_entry_type(&self) -> (res: Option<String>)
        ensures
            res matches Some(s) ==> self@.other_entry_type == Some(s@),
            res is None ==> self@.other_entry_type is None,
    {
        match &self.other_entry_type {
            Some(s) => Some(s.clone()),
            None => None,
        }
    }

    /// The value of the tag named `tag`.
    pub fn find_tag(&self, tag: &str) -> (res: Option<String>)
        ensures
            res matches Some(s) ==> lookup(self@.tags, tag@) == Some(s@),
            res is None ==> lookup(self@.tags, tag@) is None,
    {
        let found = find_index(&self.tags, tag);
        proof {
            lemma_find_index_lookup(self.tags@, tag@, found);
        }
        match found {
            Some(i) => Some(self.tags[i].1.clone()),
            None => None,
        }
    }

    /// The value of the tag named `tag`, or the empty string.
    pub fn get(&self, tag: &str) -> (res: String)
        ensures
            res@ == tag_or_empty(self@.tags, tag@),
    {
        match self.find_tag(tag) {
            Some(s) => s,
            None => String::new(),
        }
    }

    /// The authors.
    pub fn author(&self) -> (res: String)
        ensures
            res@ == tag_or_empty(self@.tags, "author"@),
    {
        self.get("author")
    }

    /// The title.
    pub fn title(&self) -> (res: String)
        ensures
            res@ == tag_or_empty(self@.tags, "title"@),
    {
        self.get("title")
    }

    /// The year.
    pub fn year(&self) -> (res: String)
        ensures
            res@ == tag_or_empty(self@.tags, "year"@),
    {
        self.get("year")
    }

    /// The abstract.
    pub fn x_abstract(&self) -> (res: String)
        ensures
            res@ == tag_or_empty(self@.tags, "abstract"@),
    {
        self.get("abstract")
    }

    /// The notes.
    pub fn notes(&self) -> (res: String)
        ensures
            res@ == tag_or_empty(self@.tags, "notes"@),
    {
        self.get("notes")
    }

    /// The DOI.
    pub fn doi(&self) -> (res: String)
        ensures
            res@ == tag_or_empty(self@.tags, "doi"@),
    {
        self.get("doi")
    }

    /// All tags, in order.
    pub fn tags(&self) -> (res: Vec<(String, String)>)
        ensures
            tag_view(res@) == self@.tags,
    {
        clone_tags(&self.tags)
    }

    /// Sets the tag named `tag` to `value` and returns its previous value.
    pub fn insert_tag(&mut self, tag: &str, value: &str) -> (res: Option<String>)
        requires
            old(self).wf(),
        ensures
            final(self)@.tags == set_tag(old(self)@.tags, tag@, value@),
            final(self)@.citation_key == old(self)@.citation_key,
            final(self)@.entry_type == old(self)@.entry_type,
            final(self)@.other_entry_type == old(self)@.other_entry_type,
            res matches Some(s) ==> lookup(old(self)@.tags, tag@) == Some(s@),
            res is None ==> lookup(old(self)@.tags, tag@) is None,
            final(self).wf(),
    {
        let found = find_index(&self.tags, tag);
        let ghost tv = tag_view(self.tags@);
        proof {
            lemma_find_index_lookup(self.tags@, tag@, found);
            lemma_set_keeps_distinct(tv, tag@, value@);
        }
        match found {
            Some(i) => {
                let key = String::from_str(tag);
                let new_value = String::from_str(value);
                let old_value = self.tags[i].1.clone();
                self.tags.set(i, (key, new_value));
                proof {
                    lemma_tag_at(tv, tag@, i as int, value@);
                    assert(tag_view(self.tags@) =~= tv.update(i as int, (tag@, value@)));
                }
                Some(old_value)
            },
            None => {
                let key = String::from_str(tag);
                let new_value = String::from_str(value);
                self.tags.push((key, new_value));
                proof {
                    lemma_tag_absent(tv, tag@, value@);
                    assert(tag_view(self.tags@) =~= tv.push((tag@, value@)));
                }
                None
            },
        }
    }

    /// Sets the tag named `tag` to `value`; reports a change when the value
    /// is new and the tag is one of the entry's string properties.
    pub fn set(&mut self, tag: &str, value: &str) -> (changed: bool)
        requires
            old(self).wf(),
        ensures
            final(self)@.tags == set_tag(old(self)@.tags, tag@, value@),
            final(self)@.citation_key == old(self)@.citation_key,
            final(self)@.entry_type == old(self)@.entry_type,
            final(self)@.other_entry_type == old(self)@.other_entry_type,
            changed == (lookup(old(self)@.tags, tag@) != Some(value@) && is_property_tag(tag@)),
            final(self).wf(),
    {
        let old_value = self.insert_tag(tag, value);
        let same = match &old_value {
            Some(s) => str_eq(s.as_str(), value),
            None => false,
        };
        !same && is_property_tag_exec(tag)
    }

    /// Sets the abstract; reports a change when the value is new.
    pub fn set_abstract(&mut self, value: &str) -> (changed: bool)
        requires
            old(self).wf(),
        ensures
            final(self)@.tags == set_tag(old(self)@.tags, "abstract"@, value@),
            final(self)@.citation_key == old(self)@.citation_key,
            final(self)@.entry_type == old(self)@.entry_type,
            final(self)@.other_entry_type == old(self)@.other_entry_type,
            changed == (lookup(old(self)@.tags, "abstract"@) != Some(value@)),
            final(self).wf(),
    {
        let old_value = self.insert_tag("abstract", value);
        match &old_value {
            Some(s) => !str_eq(s.as_str(), value),
            None => true,
        }
    }

    /// Sets the kind; reports a change when it is new.
    pub fn set_entry_type(&mut self, entry_type: EntryType) -> (changed: bool)
        ensures
            final(self)@ == (EntryView { entry_type, ..old(self)@ }),
            changed == (entry_type != old(self)@.entry_type),
    {
        let changed = entry_type != self.entry_type;
        self.entry_type = entry_type;
        changed
    }

    /// Sets the citation key; reports a change when it is new.
    pub fn set_citation_key(&mut self, citation_key: &str) -> (changed: bool)
        ensures
            final(self)@ == (EntryView { citation_key: citation_key@, ..old(self)@ }),
            changed == (citation_key@ != old(self)@.citation_key),
    {
        let changed = !str_eq(self.citation_key.as_str(), citation_key);
        self.citation_key = String::from_str(citation_key);
        changed
    }

    /// Sets the type as written, for a kind without a variant of its own.
    pub fn set_other_entry_type(&mut self, other_type: &str)
        ensures
            final(self)@ == (EntryView { other_entry_type: Some(other_type@), ..old(self)@ }),
    {
        self.other_entry_type = Some(String::from_str(other_type));
    }

    /// The extra fields of the entry's kind.
    pub fn fields(&self) -> (res: Vec<String>)
        ensures
            res@.map_values(|s: String| s@) == self@.entry_type.field_names(),
    {
        self.entry_type.fields()
    }

    /// What the placeholder match `m` becomes in a citation of the entry (see
    /// `placeholder_value`).
    pub fn placeholder_text(&self, m: &str, format: Format) -> (res: String)
        ensures
            res@ == placeholder_value(self@, m@, format),
    {
        let chars = str_chars(m);
        let inner = if chars.len() >= 2 {
            let mut inner: Vec<char> = Vec::new();
            let mut i: usize = 1;
            while i < chars.len() - 1
                invariant
                    chars.len() >= 2,
                    1 <= i <= chars.len() - 1,
                    inner@ == chars@.subrange(1, i as int),
                decreases chars.len() - 1 - i,
            {
                inner.push(chars[i]);
                proof {
                    assert(chars@.subrange(1, i + 1) =~= chars@.subrange(1, i as int).push(
                        chars@[i as int],
                    ));
                }
                i = i + 1;
            }
            inner
        } else {
            chars
        };
        let inner = chars_to_string(&inner);
        let tag = to_lowercase(inner.as_str());
        let value = self.get(tag.as_str());
        let is_title = str_eq(tag.as_str(), "title");
        if format != Format::LaTeX && is_title {
            texer(value.as_str())
        } else {
            value
        }
    }

    fn substitute_tags_exec(&self, s: &str, format: Format) -> (res: String)
        ensures
            res@ == substitute_tags(self@, s@, format),
    {
        match substitute_placeholders(TAG_PATTERN, self, s, format) {
            Some(r) => r,
            None => s.to_owned(),
        }
    }

    /// The citation of the entry from the template `citation` in `format`
    /// (see `format_citation_spec`).
    pub fn format_citation(&self, citation: &str, format: Format) -> (res: String)
        ensures
            res@ == format_citation_spec(self@, citation@, format),
    {
        let marked = match format {
            Format::Plain => format_plain(citation),
            Format::Markdown => citation.to_owned(),
            Format::LaTeX => format_latex(citation, self.citation_key.as_str()),
        };
        let name = self.author();
        let p_name = match format {
            Format::LaTeX => name,
            _ => texer(name.as_str()),
        };
        let authors = format_authors(p_name.as_str());
        let marked_chars = str_chars(marked.as_str());
        let placeholder = str_chars("%AUTHOR%");
        let author_chars = str_chars(authors.as_str());
        proof {
            reveal_strlit("%AUTHOR%");
        }
        let with_author = replace_chars(&marked_chars, &placeholder, &author_chars);
        let with_author = chars_to_string(&with_author);
        let filled = self.substitute_tags_exec(with_author.as_str(), format);
        match format {
            Format::Markdown => {
                let cleared = clear_markdown(filled.as_str());
                clear_citation(cleared.as_str())
            },
            Format::LaTeX => {
                let cleared = clear_latex(filled.as_str());
                let cleared = clear_non_markdown(cleared.as_str());
                clear_citation(cleared.as_str())
            },
            Format::Plain => {
                let cleared = clear_non_markdown(filled.as_str());
                clear_citation(cleared.as_str())
            },
        }
    }

    /// The BibTeX form of the entry (see `serialize_spec`).
    pub fn serialize(&self) -> (res: String)
        ensures
            res@ == serialize_spec(self@),
    {
        let type_ = match self.entry_type {
            EntryType::Other => match &self.other_entry_type {
                Some(s) => s.clone(),
                None => String::from_str("other"),
            },
            t => t.to_string(),
        };
        let mut entry = String::from_str("@");
        entry.append(type_.as_str());
        entry.append("{");
        entry.append(self.citation_key.as_str());
        entry.append(",\n");
        let ghost lines = self@.tags.map_values(|t: (Seq<char>, Seq<char>)| tag_line(t));
        let ghost start = entry@;
        let mut i: usize = 0;
        while i < self.tags.len()
            invariant
                i <= self.tags.len(),
                lines == self@.tags.map_values(|t: (Seq<char>, Seq<char>)| tag_line(t)),
                self@.tags == tag_view(self.tags@),
                entry@ == start + join_with(lines.take(i as int), "\n"@),
            decreases self.tags.len() - i,
        {
            let ghost before = entry@;
            if i > 0 {
                entry.append("\n");
            }
            entry.append("    ");
            entry.append(self.tags[i].0.as_str());
            entry.append(" = {");
            entry.append(self.tags[i].1.as_str());
            entry.append("},");
            proof {
                assert(lines.take(i + 1).drop_last() =~= lines.take(i as int));
                assert(lines[i as int] == tag_line(self@.tags[i as int]));
                if i == 0 {
                    assert(entry@ =~= start + lines.take(1)[0]);
                } else {
                    assert(entry@ =~= start + (join_with(lines.take(i as int), "\n"@) + "\n"@
                        + lines[i as int]));
                }
            }
            i = i + 1;
        }
        proof {
            assert(lines.take(i as int) =~= lines);
        }
        entry.append("\n}");
        entry
    }
}

/// Calls `regex::Regex::new` and `Regex::replace_all` with a closure that
/// hands each match to `Entry::placeholder_text`. `replace_all` copies the
/// text between successive matches and puts the closure's text in place of
/// each match: the pieces that `Regex::split` gives (named `regex_split`)
/// with the replaced matches that `Regex::find_iter` gives (named
/// `regex_find_all`) between them. `None` when the pattern does not compile.
#[verifier::external_body]
fn substitute_placeholders(pattern: &str, entry: &Entry, haystack: &str, format: Format) -> (res:
    Option<String>)
    ensures
        res is Some <==> (regex_split(pattern@, haystack@) is Some && regex_find_all(
            pattern@,
            haystack@,
        ) is Some),
        res matches Some(s) ==> s@ == rejoin(
            regex_split(pattern@, haystack@).unwrap(),
            regex_find_all(pattern@, haystack@).unwrap().map_values(
                |m: Seq<char>| placeholder_value(entry@, m, format),
            ),
        ),
{
    regex::Regex::new(pattern).ok().map(
        |re| re.replace_all(haystack, |c: &regex::Captures| entry.placeholder_text(&c[0], format)).into_owned(),
    )
}

} // verus!
