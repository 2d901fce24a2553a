use citations::format::{
    clear_citation, clear_latex, clear_markdown, format_authors, format_latex, format_plain,
    push_math, push_non_space, texer, Format,
};

#[test]
fn test_clear_citation() {
    assert_eq!(clear_citation("some,  text  2"), "some, text 2");

    assert_eq!(clear_citation("some, , , text"), "some, text");
    assert_eq!(clear_citation("some, ,  , ,  , text"), "some, text");
    assert_eq!(clear_citation("some, .  . ,  . text"), "some, text");
    assert_eq!(clear_citation("some. .  . ,  . , text"), "some. text");
    assert_eq!(clear_citation("some..,., ,, . , text"), "some. text");

    assert_eq!(clear_citation("some, no. , text"), "some, text");
    assert_eq!(clear_citation("some. No. . text"), "some. text");
    assert_eq!(clear_citation("some. no. , text"), "some. text");
    assert_eq!(clear_citation("some. vol. , text"), "some. text");
    assert_eq!(clear_citation("some. Vol. , text"), "some. text");

    assert_eq!(clear_citation("some. {} , text"), "some. text");
    assert_eq!(clear_citation("some. () , text"), "some. text");

    assert_eq!(clear_citation("some., ,"), "some.");
    assert_eq!(clear_citation(" , .some., ,"), "some.");

    assert_eq!(clear_citation(r#""""#), "");
    assert_eq!(clear_citation(r#"some, , "" , ,  , text"#), "some, text");
    assert_eq!(
        clear_citation(r#""some", , "" , ,  , text"#),
        r#""some", text"#
    );
}

#[test]
fn test_format_authors() {
    assert_eq!(format_authors("x and y"), "x, and y");
    assert_eq!(format_authors("x and y and z"), "x, y, and z");
    assert_eq!(format_authors("x & y"), "x, and y");
    assert_eq!(format_authors("x AND y"), "x, and y");
    assert_eq!(format_authors("x and y and z"), "x, y, and z");
}

#[test]
fn test_clear_latex() {
    assert_eq!(clear_latex(r"\textbf{}"), "");
    assert_eq!(clear_latex(r"\emph{}"), "");
}

#[test]
fn test_clear_markdown() {
    assert_eq!(
        clear_markdown(r"asdas asd _asd_ *asd* ** asdasd **asd** **** __"),
        "asdas asd _asd_ *asd* asdasd **asd** "
    );
}

#[test]
fn test_texer() {
    assert_eq!(texer(r"\'u"), "u\u{301}");
    assert_eq!(texer(r"\c{c}"), "c\u{0327}");
    assert_eq!(texer(r"\v{c}"), "c\u{30C}");
    assert_eq!(texer(r"{\o}a"), "\u{f8}a");
    assert_eq!(texer(r"{\o}"), "\u{f8}");
    assert_eq!(texer(r#"{\"o}"#), "o\u{308}");
    assert_eq!(texer(r"a {some}"), "a some");
    assert_eq!(texer(r"a {\some}"), "a some");
    assert_eq!(texer(r"a {$some$}"), "a some");
    assert_eq!(texer(r"a  b"), r"a b");
    assert_eq!(texer(r"$a  b$"), r"a b");
    assert_eq!(
        texer(
            r"
                  "
        ),
        " "
    );
    assert_eq!(texer(r"{a  b}"), r"a b");
    assert_eq!(texer(r"a {$so\ ^\ast asda \me$}"), r"a so\ ^\ast asda \me");
}

#[test]
fn texer_keeps_plain_text() {
    assert_eq!(texer("Some plain title"), "Some plain title");
    assert_eq!(texer(""), "");
}

#[test]
fn texer_returns_input_when_nothing_is_produced() {
    assert_eq!(texer("$$"), "$$");
    assert_eq!(texer("}"), "}");
    assert_eq!(texer("{}"), "}");
}

#[test]
fn texer_accents_and_letters() {
    assert_eq!(texer(r"\`a"), "a\u{300}");
    assert_eq!(texer(r"\~n"), "n\u{303}");
    assert_eq!(texer(r"\^e"), "e\u{302}");
    assert_eq!(texer(r"\=o"), "o\u{304}");
    assert_eq!(texer(r"\u{g}"), "g\u{306}");
    assert_eq!(texer(r"\k{a}"), "a\u{328}");
    assert_eq!(texer(r"{\O}"), "\u{d8}");
    assert_eq!(texer(r"{\l}"), "\u{142}");
    assert_eq!(texer(r"{\L}"), "\u{141}");
    assert_eq!(texer(r"\c x"), "c x");
    assert_eq!(texer(r"\%"), "%");
    assert_eq!(texer("a\\"), "a\\");
    assert_eq!(texer("{\\'ox"), "o\u{301}");
}

#[test]
fn format_authors_single_author_unchanged() {
    assert_eq!(format_authors("Lamport, Leslie"), "Lamport, Leslie");
    assert_eq!(format_authors(""), "");
}

#[test]
fn push_non_space_collapses_blanks() {
    let mut s = String::from("a");
    push_non_space(&mut s, ' ');
    push_non_space(&mut s, '\t');
    push_non_space(&mut s, '\n');
    push_non_space(&mut s, 'b');
    assert_eq!(s, "a b");
}

#[test]
fn push_math_stops_at_dollar() {
    let chars: Vec<char> = "x  y$z".chars().collect();
    let mut out = String::new();
    let end = push_math(&chars, 0, &mut out);
    assert_eq!(out, "x y");
    assert_eq!(end, 5);
    let chars: Vec<char> = "ab".chars().collect();
    let mut out = String::new();
    assert_eq!(push_math(&chars, 0, &mut out), 2);
    assert_eq!(out, "ab");
}

#[test]
fn plain_and_latex_markup() {
    assert_eq!(format_plain("*Title* and **Bold** and _x_"), "Title and Bold and _x_");
    assert_eq!(format_plain("_emph_ text"), "emph text");
    assert_eq!(
        format_latex("**Bold** *It*", "key"),
        r"\bibitem{key} \textbf{Bold} \emph{It}"
    );
}

#[test]
fn format_numbers_and_names() {
    assert_eq!(Format::from_i32(0), Format::Plain);
    assert_eq!(Format::from_i32(1), Format::Markdown);
    assert_eq!(Format::from_i32(2), Format::LaTeX);
    assert_eq!(Format::from_i32(7), Format::Plain);
    for f in [Format::Plain, Format::Markdown, Format::LaTeX] {
        assert_eq!(Format::from_i32(f.to_i32()), f);
    }
    assert_eq!(Format::from_string("Markdown".to_string()), Format::Markdown);
    assert_eq!(Format::from_string("Latex".to_string()), Format::LaTeX);
    assert_eq!(Format::from_string("LaTeX".to_string()), Format::Plain);
    assert_eq!(Format::LaTeX.to_string(), "LaTeX");
    assert_eq!(Format::Markdown.to_translatable_string(), "Markdown");
    assert_eq!(Format::default(), Format::Plain);
}

#[test]
fn texer_without_backslash_keeps_single_spaces() {
    let out = texer("a  \t{b}\n\n $c \t d$  e");
    assert_eq!(out, "a b c d e");
    assert!(!out.contains("  ") && !out.contains('\t') && !out.contains('\n'));
}
