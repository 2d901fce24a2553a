//! A bibliography library: BibTeX entries and bibliographies, citation
//! formatting, and the decisions of the citation manager built on them.
pub mod text;
pub mod entry_type;
pub mod format;
pub mod regex_ops;
pub mod tags;
pub mod error;
pub mod bibtex;
pub mod entry;
pub mod bib;
pub mod utils;
pub mod citation;
pub mod selection;
pub mod window;
pub mod entry_page;
