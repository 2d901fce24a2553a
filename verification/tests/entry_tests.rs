use citations::bib::Bib;
use citations::entry::Entry;
use citations::entry_type::EntryType;
use citations::format::Format;

const BIBFILE_DATA: &str = r#"
    @misc {my_citation_key,
        AUTHOR= "Some Author",
        title = "Some Title",
        year = "2020",
        volume = "5",
    }
"#;

#[test]
fn format() {
    let mut bib = Bib::default();
    bib.parse(BIBFILE_DATA).unwrap();

    let entry = bib.item(0).unwrap();

    let format = r#"%AUTHOR%: "%TITLE%" (%YEAR%)"#;
    let expected = r#"Some Author: "Some Title" (2020)"#;
    assert_eq!(entry.format_citation(format, Format::Plain), expected);

    let format = r#"%AUTHOR%: "_%TITLE%_" (**%VOLUME%**) (%YEAR%)"#;
    let expected_plain = r#"Some Author: "Some Title" (5) (2020)"#;
    let expected_markdown = r#"Some Author: "_Some Title_" (**5**) (2020)"#;
    let expected_latex =
        r#"\bibitem{my_citation_key} Some Author: "\emph{Some Title}" (\textbf{5}) (2020)"#;
    assert_eq!(entry.format_citation(format, Format::Plain), expected_plain);
    assert_eq!(
        entry.format_citation(format, Format::Markdown),
        expected_markdown
    );
    assert_eq!(entry.format_citation(format, Format::LaTeX), expected_latex);

    let format = r#"%AUTHOR%, %TITLE%, %VOLUME%, %JOURNAL%, %YEAR%"#;
    let expected = r#"Some Author, Some Title, 5, 2020"#;
    assert_eq!(entry.format_citation(format, Format::Plain), expected);

    let format = r#"%AUTHOR%, %TITLE%, %VOLUME%, "%JOURNAL%", %YEAR%"#;
    let expected = r#"Some Author, Some Title, 5, 2020"#;
    assert_eq!(entry.format_citation(format, Format::Plain), expected);

    let format = r#"%AUTHOR%, %TITLE%, %VOLUME%, (%JOURNAL%), "%FAKE%", %YEAR%"#;
    let expected = r#"Some Author, Some Title, 5, 2020"#;
    assert_eq!(entry.format_citation(format, Format::Plain), expected);

    let format = r#"%AUTHOR%, "%TITLE%", %VOLUME% {%JOURNAL%}, '%FAKE%',%YEAR%"#;
    let expected = r#"Some Author, "Some Title", 5, 2020"#;
    assert_eq!(entry.format_citation(format, Format::Plain), expected);

    let format = r#"%AUTHOR%, "*%TITLE%*", %VOLUME% *%JOURNAL%*, '%FAKE%',%YEAR%"#;
    let expected = r#"\bibitem{my_citation_key} Some Author, "\emph{Some Title}", 5, 2020"#;
    assert_eq!(entry.format_citation(format, Format::LaTeX), expected);

    let format = r#"%AUTHOR%, "*%TITLE%*", %VOLUME% (*%JOURNAL%*), '%FAKE%',%YEAR%"#;
    let expected = r#"\bibitem{my_citation_key} Some Author, "\emph{Some Title}", 5, 2020"#;
    assert_eq!(entry.format_citation(format, Format::LaTeX), expected);
}

const LIB_BIBFILE_DATA: &str = "@preamble{
        \"A bibtex preamble\" # \" another test\"
    }

    @Comment{
        Here is a comment.
    }

    Another comment!

    @string ( name= \"Charles Vandevoorde\")
    @string (github = \"https://github.com/charlesvdv\")

    @misc {my_citation_key,
        AUTHOR= name,
        title = \"nom-bibtex\",
        note = \"Github: \" # github
    }
";

#[test]
fn test() {
    let mut bib = Bib::default();
    bib.parse(LIB_BIBFILE_DATA).unwrap();

    let entry = bib.item(0).unwrap();
    assert_eq!(entry.author(), "Charles Vandevoorde");
}

#[test]
fn entry_from_bibtex_reads_type_key_and_tags() {
    let entry = Entry::from_bibtex("@Article{k1, title = {T}, Journal = {J}}").unwrap();
    assert_eq!(entry.citation_key(), "k1");
    assert_eq!(entry.entry_type(), EntryType::Article);
    assert_eq!(entry.other_entry_type(), None);
    assert_eq!(entry.find_tag("journal"), Some("J".to_string()));
    assert_eq!(entry.title(), "T");
    assert_eq!(entry.year(), "");

    let other = Entry::from_bibtex("@thesis{k2, title = {T}}").unwrap();
    assert_eq!(other.entry_type(), EntryType::Other);
    assert_eq!(other.other_entry_type(), Some("thesis".to_string()));
    assert!(other.serialize().starts_with("@thesis{k2,\n"));
}

#[test]
fn entry_from_bibtex_errors() {
    let err = Entry::from_bibtex("").unwrap_err();
    assert_eq!(err.message(), "Invalid BibTeX data");
    let err = Entry::from_bibtex("@misc{k, title = {unclosed").unwrap_err();
    assert!(matches!(err, citations::error::Error::Bibtex(_)));
}

#[test]
fn set_then_find_tag() {
    let mut entry = Entry::new("key", EntryType::Book);
    assert!(entry.set("title", "A"));
    assert!(!entry.set("title", "A"));
    assert!(entry.set("title", "B"));
    assert_eq!(entry.find_tag("title"), Some("B".to_string()));
    assert_eq!(entry.find_tag("author"), None);
    assert!(!entry.set("custom", "x"));
    assert_eq!(entry.get("custom"), "x");
    assert_eq!(entry.insert_tag("custom", "y"), Some("x".to_string()));
    assert!(entry.set_abstract("abs"));
    assert_eq!(entry.x_abstract(), "abs");
    assert_eq!(entry.tags().len(), 3);
}

#[test]
fn entry_setters_report_changes() {
    let mut entry = Entry::new("key", EntryType::Book);
    assert!(!entry.set_entry_type(EntryType::Book));
    assert!(entry.set_entry_type(EntryType::Misc));
    assert!(!entry.set_citation_key("key"));
    assert!(entry.set_citation_key("other"));
    assert_eq!(entry.citation_key(), "other");
    entry.set_other_entry_type("thesis");
    assert_eq!(entry.other_entry_type(), Some("thesis".to_string()));
    assert_eq!(entry.fields(), vec!["howpublished", "note", "eprint"]);
}

#[test]
fn serialize_entry() {
    let mut entry = Entry::new("key", EntryType::Article);
    entry.set("title", "T");
    entry.set("year", "2020");
    assert_eq!(
        entry.serialize(),
        "@article{key,\n    title = {T},\n    year = {2020},\n}"
    );
    let empty = Entry::new("k", EntryType::Other);
    assert_eq!(empty.serialize(), "@other{k,\n\n}");
}

#[test]
fn format_citation_converts_latex_author_and_title() {
    let mut entry = Entry::new("k", EntryType::Article);
    entry.set("author", r#"M\"uller and Smith"#);
    entry.set("title", r"{\o}l");
    assert_eq!(
        entry.format_citation("%AUTHOR%: %TITLE%.", Format::Plain),
        "Mu\u{308}ller, and Smith: \u{f8}l."
    );
    assert_eq!(
        entry.format_citation("%AUTHOR%: %TITLE%.", Format::LaTeX),
        r#"\bibitem{k} M\"uller, and Smith: {\o}l."#
    );
}

#[test]
fn entry_clone_is_equal() {
    let mut entry = Entry::new("key", EntryType::Book);
    entry.set("title", "A");
    let copy = entry.clone();
    assert_eq!(copy.serialize(), entry.serialize());
}

#[test]
fn search_text_joins_author_title_year_and_key() {
    let mut entry = Entry::new("doe2020", EntryType::Book);
    entry.set("author", "Doe");
    entry.set("title", "Title");
    entry.set("year", "2020");
    assert_eq!(entry.search_text(), "Doe Title 2020 doe2020");
    let bare = Entry::new("k", EntryType::Misc);
    assert_eq!(bare.search_text(), "   k");
}
