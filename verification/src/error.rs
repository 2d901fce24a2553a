//! The errors of the library.
use vstd::prelude::*;
use vstd::string::StringExecFns;

verus! {

/// `nom_bibtex`'s parse error, carried through unopened.
#[verifier::external_type_specification]
#[verifier::external_body]
pub struct ExBibtexError(nom_bibtex::error::BibtexError);

/// `url`'s parse error, carried through unopened.
#[verifier::external_type_specification]
#[verifier::external_body]
pub struct ExUrlParseError(url::ParseError);

/// Why an operation of the library failed.
#[derive(Debug)]
pub enum Error {
    /// The BibTeX text could not be parsed.
    Bibtex(nom_bibtex::error::BibtexError),
    /// The BibTeX text's string abbreviations are defined in terms of one
    /// another in a cycle, which the parser would expand without end.
    CyclicStrings,
    /// The BibTeX text holds no entry.
    InvalidBibtex,
    /// The bibliography holds more entries than positions can number.
    TooManyEntries,
    /// A link was asked for an empty string.
    EmptyString,
    /// The text is not a valid URL.
    Url(url::ParseError),
    /// No entry is selected.
    NoEntrySelected,
}

impl Error {
    /// A short description of the error.
    pub fn message(&self) -> (res: String)
        ensures
            self is Bibtex ==> res@ == "Could not parse the BibTeX data"@,
            self is CyclicStrings ==> res@ == "Cyclic string abbreviations are not supported"@,
            self is InvalidBibtex ==> res@ == "Invalid BibTeX data"@,
            self is TooManyEntries ==> res@ == "Too many entries"@,
            self is EmptyString ==> res@ == "String is empty"@,
            self is Url ==> res@ == "Invalid URL"@,
            self is NoEntrySelected ==> res@ == "No entry selected"@,
    {
        match self {
            Error::Bibtex(_) => String::from_str("Could not parse the BibTeX data"),
            Error::CyclicStrings => String::from_str(
                "Cyclic string abbreviations are not supported",
            ),
            Error::InvalidBibtex => String::from_str("Invalid BibTeX data"),
            Error::TooManyEntries => String::from_str("Too many entries"),
            Error::EmptyString => String::from_str("String is empty"),
            Error::Url(_) => String::from_str("Invalid URL"),
            Error::NoEntrySelected => String::from_str("No entry selected"),
        }
    }
}

} // verus!
