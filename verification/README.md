# citations

A verified library for managing a BibTeX bibliography: entries and their
kinds, the bibliography as an ordered list of entries, citations written
from templates in plain text, Markdown or LaTeX, and the decisions of the
citation manager around them (selection in the entry list, adding, deleting
and restoring entries, saving, search and resolver links, citation keys for
entries fetched by DOI, the list of recent files).

The functions in `src/` are checked by Verus against their contracts. Calls into
`regex`, `nom-bibtex`, `url` and `sanitize-filename` go through small trusted
wrappers whose contracts name or bound what those crates return.

BibTeX text is read through `bibtex::read_bibtex`: a text that does not end in
an ASCII character other than `{` or `"` gets a newline after it before it is
parsed, and a text whose `@string` abbreviations are defined in terms of one
another in a cycle is refused with `Error::CyclicStrings`, since the parser
would expand those without end; chains without a cycle are expanded.

Labels and placeholders come out of the library as message ids; the front end
looks them up in the message catalogue with `gettext-rs`.

Layout:

- `src/text.rs` — characters of strings, replacing, splitting, joining, case
  and white space.
- `src/regex_ops.rs` — the regular-expression operations used for
  formatting.
- `src/entry_type.rs`, `src/format.rs`, `src/citation.rs` — kinds of entries,
  output formats and LaTeX conversion, citation styles.
- `src/tags.rs`, `src/entry.rs`, `src/bibtex.rs`, `src/bib.rs` — entries,
  their tags, BibTeX parsing and the bibliography.
- `src/selection.rs`, `src/window.rs`, `src/entry_page.rs`, `src/utils.rs` —
  selection and navigation, window state, what the entry views show, and
  helpers for keys, links, PDF names and recent files.
- `app/main.rs` — a command-line front end that does the file and network
  work (reading and writing `.bib` files, resolving DOIs, downloading PDFs).
- `tests/` — tests of the library.
