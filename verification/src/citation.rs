//! Citation styles: the template of each style for articles and for books.
use vstd::prelude::*;
use vstd::string::StringExecFns;

use crate::entry_type::EntryType;

verus! {

/// The Ams template for articles.
pub const AMS_ARTICLE_TEMPLATE: &'static str = r#"%AUTHOR%, *%TITLE%*, %JOURNAL% **%VOLUME%** (%YEAR%), no. %NUMBER%, %PAGES%."#;

/// The Mla template for articles.
pub const MLA_ARTICLE_TEMPLATE: &'static str = r#"%AUTHOR%. "%TITLE%". *%JOURNAL%* %VOLUME%.%NUMBER% (%YEAR%): %PAGES%."#;

/// The Apa template for articles.
pub const APA_ARTICLE_TEMPLATE: &'static str = r#"%AUTHOR%. (%YEAR%). %TITLE%. *%JOURNAL%*, *%VOLUME%*(%NUMBER%), %PAGES%."#;

/// The Chicago template for articles.
pub const CHICAGO_ARTICLE_TEMPLATE: &'static str = r#"%AUTHOR%. "%TITLE%". *%JOURNAL%* %VOLUME%, no. %NUMBER% (%YEAR%): %PAGES%."#;

/// The Harvard template for articles.
pub const HARVARD_ARTICLE_TEMPLATE: &'static str = r#"%AUTHOR%, %YEAR%. %TITLE%. *%JOURNAL%*, *%VOLUME%*(%NUMBER%), pp.%PAGES%."#;

/// The Vancouver template for articles.
pub const VANCOUVER_ARTICLE_TEMPLATE: &'static str = r#"%AUTHOR%. %TITLE%. %JOURNAL%. %YEAR% %MONTH% %DAY%; %VOLUME%(%NUMBER%):%PAGES%."#;

/// The Ams template for books.
pub const AMS_BOOK_TEMPLATE: &'static str = r#"%AUTHOR%, *%TITLE%*, %PUBLISHER%, %CITY%, %YEAR%."#;

/// The Mla template for books.
pub const MLA_BOOK_TEMPLATE: &'static str = r#"%AUTHOR%. *%TITLE%*. Vol. %VOLUME%. %PUBLISHER%."#;

/// The Apa template for books.
pub const APA_BOOK_TEMPLATE: &'static str = r#"%AUTHOR%. (%YEAR%). *%TITLE%*. (Vol. %VOLUME%). %PUBLISHER%."#;

/// The Chicago template for books.
pub const CHICAGO_BOOK_TEMPLATE: &'static str = r#"%AUTHOR%. *%TITLE%*. Vol. %VOLUME%. %PUBLISHER%, %YEAR%."#;

/// The Harvard template for books.
pub const HARVARD_BOOK_TEMPLATE: &'static str = r#"%AUTHOR%, %YEAR%. *%TITLE%* (Vol. %VOLUME%). %PUBLISHER%."#;

/// The Vancouver template for books.
pub const VANCOUVER_BOOK_TEMPLATE: &'static str = r#"%AUTHOR%: %TITLE%. %PUBLISHER%; %YEAR% %MONTH% %DAY%."#;

/// A citation style.
#[derive(Debug, Clone, Copy, PartialEq, Eq, Structural)]
pub enum Template {
    Mla,
    Ams,
    Apa,
    Chicago,
    Harvard,
    Vancouver,
    Custom,
}

impl Default for Template {
    fn default() -> (res: Self)
        ensures
            res == Template::Mla,
    {
        Template::Mla
    }
}

impl Template {
    /// The number of the style.
    pub open spec fn index(self) -> int {
        match self {
            Template::Mla => 0,
            Template::Ams => 1,
            Template::Apa => 2,
            Template::Chicago => 3,
            Template::Harvard => 4,
            Template::Vancouver => 5,
            Template::Custom => 6,
        }
    }

    /// The style with number `i`; the default style for a number out of
    /// range.
    pub open spec fn from_index(i: int) -> Template {
        if i == 1 {
            Template::Ams
        } else if i == 2 {
            Template::Apa
        } else if i == 3 {
            Template::Chicago
        } else if i == 4 {
            Template::Harvard
        } else if i == 5 {
            Template::Vancouver
        } else if i == 6 {
            Template::Custom
        } else {
            Template::Mla
        }
    }

    /// The number of the style.
    pub fn to_i32(self) -> (res: i32)
        ensures
            res == self.index(),
    {
        match self {
            Template::Mla => 0,
            Template::Ams => 1,
            Template::Apa => 2,
            Template::Chicago => 3,
            Template::Harvard => 4,
            Template::Vancouver => 5,
            Template::Custom => 6,
        }
    }

    /// The style with number `i`; the default style for any other number.
    pub fn from_i32(i: i32) -> (res: Template)
        ensures
            res == Template::from_index(i as int),
    {
        match i {
            1 => Template::Ams,
            2 => Template::Apa,
            3 => Template::Chicago,
            4 => Template::Harvard,
            5 => Template::Vancouver,
            6 => Template::Custom,
            _ => Template::Mla,
        }
    }

    /// The name of the style as the message id under which it is shown: the
    /// abbreviations MLA, AMS and APA, which stay as they are in every
    /// language, and the English names of the others, which the front end
    /// looks up in the message catalogue.
    pub open spec fn label(self) -> Seq<char> {
        match self {
            Template::Mla => "MLA"@,
            Template::Ams => "AMS"@,
            Template::Apa => "APA"@,
            Template::Chicago => "Chicago"@,
            Template::Harvard => "Harvard"@,
            Template::Vancouver => "Vancouver"@,
            Template::Custom => "Custom"@,
        }
    }

    /// The style's name is the same in every language.
    pub open spec fn label_is_fixed(self) -> bool {
        self == Template::Mla || self == Template::Ams || self == Template::Apa
    }

    /// The message id of the name of the style (see `label`).
    pub fn to_translatable_string(self) -> (res: String)
        ensures
            res@ == self.label(),
    {
        match self {
            Template::Mla => String::from_str("MLA"),
            Template::Ams => String::from_str("AMS"),
            Template::Apa => String::from_str("APA"),
            Template::Chicago => String::from_str("Chicago"),
            Template::Harvard => String::from_str("Harvard"),
            Template::Vancouver => String::from_str("Vancouver"),
            Template::Custom => String::from_str("Custom"),
        }
    }

    /// The message id of the style's name in the style menu, where the
    /// custom style reads "Custom" followed by an ellipsis.
    pub fn menu_name(self) -> (res: String)
        ensures
            self == Template::Custom ==> res@ == "Custom\u{2026}"@,
            self != Template::Custom ==> res@ == self.label(),
    {
        if self == Template::Custom {
            String::from_str("Custom\u{2026}")
        } else {
            self.to_translatable_string()
        }
    }
}

/// Numbering a style and reading the number back gives the style again.
pub proof fn lemma_template_index_round_trip(t: Template)
    ensures
        Template::from_index(t.index()) == t,
{
}

/// Whether the citation of the selected entry uses the book templates; with
/// no entry selected it does not.
pub open spec fn use_book_format_spec(entry_type: Option<EntryType>) -> bool {
    match entry_type {
        Some(t) => t.spec_uses_book_format(),
        None => false,
    }
}

/// Whether the citation of the selected entry uses the book templates.
pub fn use_book_format(entry_type: Option<EntryType>) -> (res: bool)
    ensures
        res == use_book_format_spec(entry_type),
{
    match entry_type {
        Some(t) => t.uses_book_format(),
        None => false,
    }
}

/// The template of a style: the custom text for the custom style, else the
/// style's book or article template.
pub open spec fn template_spec(kind: Template, use_book: bool, custom: Seq<char>) -> Seq<char> {
    match kind {
        Template::Custom => custom,
        Template::Mla => if use_book {
            MLA_BOOK_TEMPLATE@
        } else {
            MLA_ARTICLE_TEMPLATE@
        },
        Template::Ams => if use_book {
            AMS_BOOK_TEMPLATE@
        } else {
            AMS_ARTICLE_TEMPLATE@
        },
        Template::Apa => if use_book {
            APA_BOOK_TEMPLATE@
        } else {
            APA_ARTICLE_TEMPLATE@
        },
        Template::Chicago => if use_book {
            CHICAGO_BOOK_TEMPLATE@
        } else {
            CHICAGO_ARTICLE_TEMPLATE@
        },
        Template::Harvard => if use_book {
            HARVARD_BOOK_TEMPLATE@
        } else {
            HARVARD_ARTICLE_TEMPLATE@
        },
        Template::Vancouver => if use_book {
            VANCOUVER_BOOK_TEMPLATE@
        } else {
            VANCOUVER_ARTICLE_TEMPLATE@
        },
    }
}

/// Each style takes its book template for books and its article template
/// otherwise; the custom style takes the custom text either way.
pub proof fn lemma_style_templates(custom: Seq<char>, use_book: bool)
    ensures
        template_spec(Template::Mla, true, custom) == MLA_BOOK_TEMPLATE@,
        template_spec(Template::Mla, false, custom) == MLA_ARTICLE_TEMPLATE@,
        template_spec(Template::Ams, true, custom) == AMS_BOOK_TEMPLATE@,
        template_spec(Template::Ams, false, custom) == AMS_ARTICLE_TEMPLATE@,
        template_spec(Template::Apa, true, custom) == APA_BOOK_TEMPLATE@,
        template_spec(Template::Apa, false, custom) == APA_ARTICLE_TEMPLATE@,
        template_spec(Template::Chicago, true, custom) == CHICAGO_BOOK_TEMPLATE@,
        template_spec(Template::Chicago, false, custom) == CHICAGO_ARTICLE_TEMPLATE@,
        template_spec(Template::Harvard, true, custom) == HARVARD_BOOK_TEMPLATE@,
        template_spec(Template::Harvard, false, custom) == HARVARD_ARTICLE_TEMPLATE@,
        template_spec(Template::Vancouver, true, custom) == VANCOUVER_BOOK_TEMPLATE@,
        template_spec(Template::Vancouver, false, custom) == VANCOUVER_ARTICLE_TEMPLATE@,
        template_spec(Template::Custom, use_book, custom) == custom,
{
}

/// The template of a style for an entry that does or does not use the book
/// templates; `custom` is the text of the custom template.
pub fn template(kind: Template, use_book: bool, custom: &str) -> (res: String)
    ensures
        res@ == template_spec(kind, use_book, custom@),
{
    match kind {
        Template::Custom => String::from_str(custom),
        Template::Mla => String::from_str(
            if use_book {
                MLA_BOOK_TEMPLATE
            } else {
                MLA_ARTICLE_TEMPLATE
            },
        ),
        Template::Ams => String::from_str(
            if use_book {
                AMS_BOOK_TEMPLATE
            } else {
                AMS_ARTICLE_TEMPLATE
            },
        ),
        Template::Apa => String::from_str(
            if use_book {
                APA_BOOK_TEMPLATE
            } else {
                APA_ARTICLE_TEMPLATE
            },
        ),
        Template::Chicago => String::from_str(
            if use_book {
                CHICAGO_BOOK_TEMPLATE
            } else {
                CHICAGO_ARTICLE_TEMPLATE
            },
        ),
        Template::Harvard => String::from_str(
            if use_book {
                HARVARD_BOOK_TEMPLATE
            } else {
                HARVARD_ARTICLE_TEMPLATE
            },
        ),
        Template::Vancouver => String::from_str(
            if use_book {
                VANCOUVER_BOOK_TEMPLATE
            } else {
                VANCOUVER_ARTICLE_TEMPLATE
            },
        ),
    }
}

} // verus!
