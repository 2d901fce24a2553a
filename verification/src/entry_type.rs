//! The kinds of BibTeX entries, with their names, their extra fields and
//! the conversions between them and integers and strings.
use vstd::prelude::*;
use vstd::string::StringExecFns;

use crate::text::{ascii_lower, lowercase, str_eq, to_lowercase};
use vstd::utf8::is_ascii_chars;

verus! {

/// The kind of a bibliography entry. `Other` stands for every kind that has
/// no variant of its own.
#[derive(Debug, Clone, Copy, PartialEq, Eq, Structural)]
pub enum EntryType {
    Other,
    Article,
    Book,
    Misc,
    InProceedings,
    Unpublished,
    Online,
    Booklet,
    Conference,
    InBook,
    InCollection,
    Manual,
    MasterThesis,
    PhdThesis,
    Proceedings,
    TechReport,
}

impl Default for EntryType {
    fn default() -> (res: Self)
        ensures
            res == EntryType::Other,
    {
        EntryType::Other
    }
}

impl EntryType {
    /// The number of the kind, as the enumeration counts them.
    pub open spec fn index(self) -> int {
        match self {
            EntryType::Other => 0,
            EntryType::Article => 1,
            EntryType::Book => 2,
            EntryType::Misc => 3,
            EntryType::InProceedings => 4,
            EntryType::Unpublished => 5,
            EntryType::Online => 6,
            EntryType::Booklet => 7,
            EntryType::Conference => 8,
            EntryType::InBook => 9,
            EntryType::InCollection => 10,
            EntryType::Manual => 11,
            EntryType::MasterThesis => 12,
            EntryType::PhdThesis => 13,
            EntryType::Proceedings => 14,
            EntryType::TechReport => 15,
        }
    }

    /// The kind with number `i`; `Other` for a number out of range.
    pub open spec fn from_index(i: int) -> EntryType {
        if i == 1 {
            EntryType::Article
        } else if i == 2 {
            EntryType::Book
        } else if i == 3 {
            EntryType::Misc
        } else if i == 4 {
            EntryType::InProceedings
        } else if i == 5 {
            EntryType::Unpublished
        } else if i == 6 {
            EntryType::Online
        } else if i == 7 {
            EntryType::Booklet
        } else if i == 8 {
            EntryType::Conference
        } else if i == 9 {
            EntryType::InBook
        } else if i == 10 {
            EntryType::InCollection
        } else if i == 11 {
            EntryType::Manual
        } else if i == 12 {
            EntryType::MasterThesis
        } else if i == 13 {
            EntryType::PhdThesis
        } else if i == 14 {
            EntryType::Proceedings
        } else if i == 15 {
            EntryType::TechReport
        } else {
            EntryType::Other
        }
    }

    /// The BibTeX name of the kind, in lower case.
    pub open spec fn name(self) -> Seq<char> {
        match self {
            EntryType::Other => "other"@,
            EntryType::Article => "article"@,
            EntryType::Book => "book"@,
            EntryType::Misc => "misc"@,
            EntryType::InProceedings => "inproceedings"@,
            EntryType::Unpublished => "unpublished"@,
            EntryType::Online => "online"@,
            EntryType::Booklet => "booklet"@,
            EntryType::Conference => "conference"@,
            EntryType::InBook => "inbook"@,
            EntryType::InCollection => "incollection"@,
            EntryType::Manual => "manual"@,
            EntryType::MasterThesis => "masterthesis"@,
            EntryType::PhdThesis => "phdthesis"@,
            EntryType::Proceedings => "proceedings"@,
            EntryType::TechReport => "techreport"@,
        }
    }

    /// The kind whose name is `l`, compared exactly; `Other` when none is.
    pub open spec fn from_lowercase_name(l: Seq<char>) -> EntryType {
        if l == "article"@ {
            EntryType::Article
        } else if l == "book"@ {
            EntryType::Book
        } else if l == "misc"@ {
            EntryType::Misc
        } else if l == "inproceedings"@ {
            EntryType::InProceedings
        } else if l == "unpublished"@ {
            EntryType::Unpublished
        } else if l == "online"@ {
            EntryType::Online
        } else if l == "booklet"@ {
            EntryType::Booklet
        } else if l == "conference"@ {
            EntryType::Conference
        } else if l == "inbook"@ {
            EntryType::InBook
        } else if l == "incollection"@ {
            EntryType::InCollection
        } else if l == "manual"@ {
            EntryType::Manual
        } else if l == "masterthesis"@ {
            EntryType::MasterThesis
        } else if l == "phdthesis"@ {
            EntryType::PhdThesis
        } else if l == "proceedings"@ {
            EntryType::Proceedings
        } else if l == "techreport"@ {
            EntryType::TechReport
        } else {
            EntryType::Other
        }
    }

    /// Whether entries of this kind carry an abstract rather than notes.
    pub open spec fn spec_uses_abstract(self) -> bool {
        match self {
            EntryType::Other => false,
            EntryType::Article => true,
            EntryType::Book => false,
            EntryType::Misc => false,
            EntryType::InProceedings => true,
            EntryType::Unpublished => true,
            EntryType::Online => true,
            EntryType::Booklet => false,
            EntryType::Conference => false,
            EntryType::InBook => false,
            EntryType::InCollection => true,
            EntryType::Manual => false,
            EntryType::MasterThesis => true,
            EntryType::PhdThesis => true,
            EntryType::Proceedings => true,
            EntryType::TechReport => false,
        }
    }

    /// Whether citations of this kind use the book templates.
    pub open spec fn spec_uses_book_format(self) -> bool {
        match self {
            EntryType::Other => false,
            EntryType::Article => false,
            EntryType::Book => true,
            EntryType::Misc => false,
            EntryType::InProceedings => true,
            EntryType::Unpublished => false,
            EntryType::Online => false,
            EntryType::Booklet => true,
            EntryType::Conference => false,
            EntryType::InBook => true,
            EntryType::InCollection => true,
            EntryType::Manual => false,
            EntryType::MasterThesis => false,
            EntryType::PhdThesis => false,
            EntryType::Proceedings => false,
            EntryType::TechReport => false,
        }
    }

    /// The extra fields that entries of this kind show, in order.
    pub open spec fn field_names(self) -> Seq<Seq<char>> {
        match self {
            EntryType::Other => seq![],
            EntryType::Article => seq!["journal"@, "volume"@, "number"@, "pages"@, "month"@, "note"@, "issn"@, "eprint"@],
            EntryType::Book => seq!["publisher"@, "address"@, "editor"@, "volume"@, "number"@, "pages"@, "month"@, "note"@, "isbn"@, "eprint"@],
            EntryType::Misc => seq!["howpublished"@, "note"@, "eprint"@],
            EntryType::InProceedings => seq!["booktitle"@, "series"@, "pages"@, "publisher"@, "address"@, "volume"@, "number"@, "isbn"@],
            EntryType::Unpublished => seq![],
            EntryType::Online => seq!["url"@, "archiveprefix"@, "eprint"@, "primaryclass"@],
            EntryType::Booklet => seq!["howpublished"@, "month"@],
            EntryType::Conference => seq!["booktitle"@, "series"@, "pages"@, "publisher"@, "address"@],
            EntryType::InBook => seq!["booktitle"@, "address"@, "pages"@],
            EntryType::InCollection => seq!["editor"@, "booktitle"@, "publisher"@, "address"@, "pages"@],
            EntryType::Manual => seq!["organization"@, "address"@],
            EntryType::MasterThesis => seq!["school"@, "address"@, "month"@],
            EntryType::PhdThesis => seq!["school"@, "month"@, "address"@],
            EntryType::Proceedings => seq!["editor"@, "series"@, "volume"@, "publisher"@, "address"@],
            EntryType::TechReport => seq!["institution"@, "address"@, "number"@, "month"@],
        }
    }

    /// The label of the kind in English, as looked up in the message
    /// catalogue.
    pub open spec fn label(self) -> Seq<char> {
        match self {
            EntryType::Other => "Other"@,
            EntryType::Article => "Article"@,
            EntryType::Book => "Book"@,
            EntryType::Misc => "Misc"@,
            EntryType::InProceedings => "In Proceedings"@,
            EntryType::Unpublished => "Unpublished"@,
            EntryType::Online => "Online"@,
            EntryType::Booklet => "Booklet"@,
            EntryType::Conference => "Conference"@,
            EntryType::InBook => "In Book"@,
            EntryType::InCollection => "In Collection"@,
            EntryType::Manual => "Manual"@,
            EntryType::MasterThesis => "Master's Thesis"@,
            EntryType::PhdThesis => "PhD Thesis"@,
            EntryType::Proceedings => "Proceedings"@,
            EntryType::TechReport => "Tech Report"@,
        }
    }

    /// The number of the kind.
    pub fn to_i32(self) -> (res: i32)
        ensures
            res == self.index(),
    {
        match self {
            EntryType::Other => 0,
            EntryType::Article => 1,
            EntryType::Book => 2,
            EntryType::Misc => 3,
            EntryType::InProceedings => 4,
            EntryType::Unpublished => 5,
            EntryType::Online => 6,
            EntryType::Booklet => 7,
            EntryType::Conference => 8,
            EntryType::InBook => 9,
            EntryType::InCollection => 10,
            EntryType::Manual => 11,
            EntryType::MasterThesis => 12,
            EntryType::PhdThesis => 13,
            EntryType::Proceedings => 14,
            EntryType::TechReport => 15,
        }
    }

    /// The kind with number `i`; `Other` for any number out of range.
    pub fn from_i32(i: i32) -> (res: EntryType)
        ensures
            res == EntryType::from_index(i as int),
    {
        match i {
            1 => EntryType::Article,
            2 => EntryType::Book,
            3 => EntryType::Misc,
            4 => EntryType::InProceedings,
            5 => EntryType::Unpublished,
            6 => EntryType::Online,
            7 => EntryType::Booklet,
            8 => EntryType::Conference,
            9 => EntryType::InBook,
            10 => EntryType::InCollection,
            11 => EntryType::Manual,
            12 => EntryType::MasterThesis,
            13 => EntryType::PhdThesis,
            14 => EntryType::Proceedings,
            15 => EntryType::TechReport,
            _ => EntryType::Other,
        }
    }

    /// The kind named by `s`, compared after lowering its case; `Other` when
    /// no kind has that name.
    pub fn from_name(s: &str) -> (res: EntryType)
        ensures
            res == EntryType::from_lowercase_name(lowercase(s@)),
            is_ascii_chars(s@) ==> res == EntryType::from_lowercase_name(
                s@.map_values(|c: char| ascii_lower(c)),
            ),
    {
        let l = to_lowercase(s);
        let l = l.as_str();
        if str_eq(l, "article") {
            return EntryType::Article;
        }
        if str_eq(l, "book") {
            return EntryType::Book;
        }
        if str_eq(l, "misc") {
            return EntryType::Misc;
        }
        if str_eq(l, "inproceedings") {
            return EntryType::InProceedings;
        }
        if str_eq(l, "unpublished") {
            return EntryType::Unpublished;
        }
        if str_eq(l, "online") {
            return EntryType::Online;
        }
        if str_eq(l, "booklet") {
            return EntryType::Booklet;
        }
        if str_eq(l, "conference") {
            return EntryType::Conference;
        }
        if str_eq(l, "inbook") {
            return EntryType::InBook;
        }
        if str_eq(l, "incollection") {
            return EntryType::InCollection;
        }
        if str_eq(l, "manual") {
            return EntryType::Manual;
        }
        if str_eq(l, "masterthesis") {
            return EntryType::MasterThesis;
        }
        if str_eq(l, "phdthesis") {
            return EntryType::PhdThesis;
        }
        if str_eq(l, "proceedings") {
            return EntryType::Proceedings;
        }
        if str_eq(l, "techreport") {
            return EntryType::TechReport;
        }
        EntryType::Other
    }

    /// The BibTeX name of the kind.
    pub fn to_string(&self) -> (res: String)
        ensures
            res@ == self.name(),
    {
        match self {
            EntryType::Other => String::from_str("other"),
            EntryType::Article => String::from_str("article"),
            EntryType::Book => String::from_str("book"),
            EntryType::Misc => String::from_str("misc"),
            EntryType::InProceedings => String::from_str("inproceedings"),
            EntryType::Unpublished => String::from_str("unpublished"),
            EntryType::Online => String::from_str("online"),
            EntryType::Booklet => String::from_str("booklet"),
            EntryType::Conference => String::from_str("conference"),
            EntryType::InBook => String::from_str("inbook"),
            EntryType::InCollection => String::from_str("incollection"),
            EntryType::Manual => String::from_str("manual"),
            EntryType::MasterThesis => String::from_str("masterthesis"),
            EntryType::PhdThesis => String::from_str("phdthesis"),
            EntryType::Proceedings => String::from_str("proceedings"),
            EntryType::TechReport => String::from_str("techreport"),
        }
    }

    /// The label of the kind in English.
    pub fn label_str(&self) -> (res: &'static str)
        ensures
            res@ == self.label(),
    {
        match self {
            EntryType::Other => "Other",
            EntryType::Article => "Article",
            EntryType::Book => "Book",
            EntryType::Misc => "Misc",
            EntryType::InProceedings => "In Proceedings",
            EntryType::Unpublished => "Unpublished",
            EntryType::Online => "Online",
            EntryType::Booklet => "Booklet",
            EntryType::Conference => "Conference",
            EntryType::InBook => "In Book",
            EntryType::InCollection => "In Collection",
            EntryType::Manual => "Manual",
            EntryType::MasterThesis => "Master's Thesis",
            EntryType::PhdThesis => "PhD Thesis",
            EntryType::Proceedings => "Proceedings",
            EntryType::TechReport => "Tech Report",
        }
    }

    /// The message id of the kind's label: its English label, which the
    /// front end looks up in the message catalogue.
    pub fn to_translatable_string(self) -> (res: String)
        ensures
            res@ == self.label(),
    {
        String::from_str(self.label_str())
    }

    /// Whether entries of this kind carry an abstract (rather than notes).
    pub fn uses_abstract(&self) -> (res: bool)
        ensures
            res == self.spec_uses_abstract(),
    {
        match self {
            EntryType::Other => false,
            EntryType::Article => true,
            EntryType::Book => false,
            EntryType::Misc => false,
            EntryType::InProceedings => true,
            EntryType::Unpublished => true,
            EntryType::Online => true,
            EntryType::Booklet => false,
            EntryType::Conference => false,
            EntryType::InBook => false,
            EntryType::InCollection => true,
            EntryType::Manual => false,
            EntryType::MasterThesis => true,
            EntryType::PhdThesis => true,
            EntryType::Proceedings => true,
            EntryType::TechReport => false,
        }
    }

    /// Whether citations of entries of this kind use the book templates.
    pub fn uses_book_format(&self) -> (res: bool)
        ensures
            res == self.spec_uses_book_format(),
    {
        match self {
            EntryType::Other => false,
            EntryType::Article => false,
            EntryType::Book => true,
            EntryType::Misc => false,
            EntryType::InProceedings => true,
            EntryType::Unpublished => false,
            EntryType::Online => false,
            EntryType::Booklet => true,
            EntryType::Conference => false,
            EntryType::InBook => true,
            EntryType::InCollection => true,
            EntryType::Manual => false,
            EntryType::MasterThesis => false,
            EntryType::PhdThesis => false,
            EntryType::Proceedings => false,
            EntryType::TechReport => false,
        }
    }

    /// The extra fields that entries of this kind show, in order.
    pub fn fields(&self) -> (res: Vec<String>)
        ensures
            res@.map_values(|s: String| s@) == self.field_names(),
    {
        let names: Vec<&str> = match self {
            EntryType::Other => vec![],
            EntryType::Article => vec!["journal", "volume", "number", "pages", "month", "note", "issn", "eprint"],
            EntryType::Book => vec!["publisher", "address", "editor", "volume", "number", "pages", "month", "note", "isbn", "eprint"],
            EntryType::Misc => vec!["howpublished", "note", "eprint"],
            EntryType::InProceedings => vec!["booktitle", "series", "pages", "publisher", "address", "volume", "number", "isbn"],
            EntryType::Unpublished => vec![],
            EntryType::Online => vec!["url", "archiveprefix", "eprint", "primaryclass"],
            EntryType::Booklet => vec!["howpublished", "month"],
            EntryType::Conference => vec!["booktitle", "series", "pages", "publisher", "address"],
            EntryType::InBook => vec!["booktitle", "address", "pages"],
            EntryType::InCollection => vec!["editor", "booktitle", "publisher", "address", "pages"],
            EntryType::Manual => vec!["organization", "address"],
            EntryType::MasterThesis => vec!["school", "address", "month"],
            EntryType::PhdThesis => vec!["school", "month", "address"],
            EntryType::Proceedings => vec!["editor", "series", "volume", "publisher", "address"],
            EntryType::TechReport => vec!["institution", "address", "number", "month"],
        };
        let mut res: Vec<String> = Vec::new();
        let mut i: usize = 0;
        while i < names.len()
            invariant
                i <= names.len(),
                res@.map_values(|s: String| s@) == names@.take(i as int).map_values(|s: &str| s@),
            decreases names.len() - i,
        {
            let ghost old_res = res@;
            let item = String::from_str(names[i]);
            res.push(item);
            proof {
                assert(res@.map_values(|s: String| s@) =~= old_res.map_values(|s: String| s@).push(item@));
                assert(names@.take(i + 1) =~= names@.take(i as int).push(names@[i as int]));
                assert(res@.map_values(|s: String| s@) =~= names@.take(i + 1).map_values(|s: &str| s@));
            }
            i = i + 1;
        }
        proof {
            assert(names@.take(i as int) =~= names@);
            assert(names@.map_values(|s: &str| s@) =~= self.field_names());
        }
        res
    }
}

/// Numbering a kind and reading the number back gives the kind again.
pub proof fn lemma_index_round_trip(t: EntryType)
    ensures
        EntryType::from_index(t.index()) == t,
        0 <= t.index() < 16,
{
}

/// The name of every kind is written in lower-case ASCII letters, and
/// reading the name of a kind back gives that kind.
pub proof fn lemma_name_round_trip(t: EntryType)
    ensures
        is_ascii_chars(t.name()),
        t.name().map_values(|c: char| ascii_lower(c)) == t.name(),
        EntryType::from_lowercase_name(t.name()) == t,
{
        reveal_strlit("other");
        reveal_strlit("article");
        reveal_strlit("book");
        reveal_strlit("misc");
        reveal_strlit("inproceedings");
        reveal_strlit("unpublished");
        reveal_strlit("online");
        reveal_strlit("booklet");
        reveal_strlit("conference");
        reveal_strlit("inbook");
        reveal_strlit("incollection");
        reveal_strlit("manual");
        reveal_strlit("masterthesis");
        reveal_strlit("phdthesis");
        reveal_strlit("proceedings");
        reveal_strlit("techreport");
    assert(t.name().map_values(|c: char| ascii_lower(c)) =~= t.name());
    match t {
        EntryType::Other => {
            assert("other"@.len() != "article"@.len());
            assert("other"@.len() != "book"@.len());
            assert("other"@.len() != "misc"@.len());
            assert("other"@.len() != "inproceedings"@.len());
            assert("other"@.len() != "unpublished"@.len());
            assert("other"@.len() != "online"@.len());
            assert("other"@.len() != "booklet"@.len());
            assert("other"@.len() != "conference"@.len());
            assert("other"@.len() != "inbook"@.len());
            assert("other"@.len() != "incollection"@.len());
            assert("other"@.len() != "manual"@.len());
            assert("other"@.len() != "masterthesis"@.len());
            assert("other"@.len() != "phdthesis"@.len());
            assert("other"@.len() != "proceedings"@.len());
            assert("other"@.len() != "techreport"@.len());
        },
        EntryType::Article => {

        },
        EntryType::Book => {
            assert("book"@.len() != "article"@.len());
        },
        EntryType::Misc => {
            assert("misc"@.len() != "article"@.len());
            assert("misc"@[0] != "book"@[0]);
        },
        EntryType::InProceedings => {
            assert("inproceedings"@.len() != "article"@.len());
            assert("inproceedings"@.len() != "book"@.len());
            assert("inproceedings"@.len() != "misc"@.len());
        },
        EntryType::Unpublished => {
            assert("unpublished"@.len() != "article"@.len());
            assert("unpublished"@.len() != "book"@.len());
            assert("unpublished"@.len() != "misc"@.len());
            assert("unpublished"@.len() != "inproceedings"@.len());
        },
        EntryType::Online => {
            assert("online"@.len() != "article"@.len());
            assert("online"@.len() != "book"@.len());
            assert("online"@.len() != "misc"@.len());
            assert("online"@.len() != "inproceedings"@.len());
            assert("online"@.len() != "unpublished"@.len());
        },
        EntryType::Booklet => {
            assert("booklet"@[0] != "article"@[0]);
            assert("booklet"@.len() != "book"@.len());
            assert("booklet"@.len() != "misc"@.len());
            assert("booklet"@.len() != "inproceedings"@.len());
            assert("booklet"@.len() != "unpublished"@.len());
            assert("booklet"@.len() != "online"@.len());
        },
        EntryType::Conference => {
            assert("conference"@.len() != "article"@.len());
            assert("conference"@.len() != "book"@.len());
            assert("conference"@.len() != "misc"@.len());
            assert("conference"@.len() != "inproceedings"@.len());
            assert("conference"@.len() != "unpublished"@.len());
            assert("conference"@.len() != "online"@.len());
            assert("conference"@.len() != "booklet"@.len());
        },
        EntryType::InBook => {
            assert("inbook"@.len() != "article"@.len());
            assert("inbook"@.len() != "book"@.len());
            assert("inbook"@.len() != "misc"@.len());
            assert("inbook"@.len() != "inproceedings"@.len());
            assert("inbook"@.len() != "unpublished"@.len());
            assert("inbook"@[0] != "online"@[0]);
            assert("inbook"@.len() != "booklet"@.len());
            assert("inbook"@.len() != "conference"@.len());
        },
        EntryType::InCollection => {
            assert("incollection"@.len() != "article"@.len());
            assert("incollection"@.len() != "book"@.len());
            assert("incollection"@.len() != "misc"@.len());
            assert("incollection"@.len() != "inproceedings"@.len());
            assert("incollection"@.len() != "unpublished"@.len());
            assert("incollection"@.len() != "online"@.len());
            assert("incollection"@.len() != "booklet"@.len());
            assert("incollection"@.len() != "conference"@.len());
            assert("incollection"@.len() != "inbook"@.len());
        },
        EntryType::Manual => {
            assert("manual"@.len() != "article"@.len());
            assert("manual"@.len() != "book"@.len());
            assert("manual"@.len() != "misc"@.len());
            assert("manual"@.len() != "inproceedings"@.len());
            assert("manual"@.len() != "unpublished"@.len());
            assert("manual"@[0] != "online"@[0]);
            assert("manual"@.len() != "booklet"@.len());
            assert("manual"@.len() != "conference"@.len());
            assert("manual"@[0] != "inbook"@[0]);
            assert("manual"@.len() != "incollection"@.len());
        },
        EntryType::MasterThesis => {
            assert("masterthesis"@.len() != "article"@.len());
            assert("masterthesis"@.len() != "book"@.len());
            assert("masterthesis"@.len() != "misc"@.len());
            assert("masterthesis"@.len() != "inproceedings"@.len());
            assert("masterthesis"@.len() != "unpublished"@.len());
            assert("masterthesis"@.len() != "online"@.len());
            assert("masterthesis"@.len() != "booklet"@.len());
            assert("masterthesis"@.len() != "conference"@.len());
            assert("masterthesis"@.len() != "inbook"@.len());
            assert("masterthesis"@[0] != "incollection"@[0]);
            assert("masterthesis"@.len() != "manual"@.len());
        },
        EntryType::PhdThesis => {
            assert("phdthesis"@.len() != "article"@.len());
            assert("phdthesis"@.len() != "book"@.len());
            assert("phdthesis"@.len() != "misc"@.len());
            assert("phdthesis"@.len() != "inproceedings"@.len());
            assert("phdthesis"@.len() != "unpublished"@.len());
            assert("phdthesis"@.len() != "online"@.len());
            assert("phdthesis"@.len() != "booklet"@.len());
            assert("phdthesis"@.len() != "conference"@.len());
            assert("phdthesis"@.len() != "inbook"@.len());
            assert("phdthesis"@.len() != "incollection"@.len());
            assert("phdthesis"@.len() != "manual"@.len());
            assert("phdthesis"@.len() != "masterthesis"@.len());
        },
        EntryType::Proceedings => {
            assert("proceedings"@.len() != "article"@.len());
            assert("proceedings"@.len() != "book"@.len());
            assert("proceedings"@.len() != "misc"@.len());
            assert("proceedings"@.len() != "inproceedings"@.len());
            assert("proceedings"@[0] != "unpublished"@[0]);
            assert("proceedings"@.len() != "online"@.len());
            assert("proceedings"@.len() != "booklet"@.len());
            assert("proceedings"@.len() != "conference"@.len());
            assert("proceedings"@.len() != "inbook"@.len());
            assert("proceedings"@.len() != "incollection"@.len());
            assert("proceedings"@.len() != "manual"@.len());
            assert("proceedings"@.len() != "masterthesis"@.len());
            assert("proceedings"@.len() != "phdthesis"@.len());
        },
        EntryType::TechReport => {
            assert("techreport"@.len() != "article"@.len());
            assert("techreport"@.len() != "book"@.len());
            assert("techreport"@.len() != "misc"@.len());
            assert("techreport"@.len() != "inproceedings"@.len());
            assert("techreport"@.len() != "unpublished"@.len());
            assert("techreport"@.len() != "online"@.len());
            assert("techreport"@.len() != "booklet"@.len());
            assert("techreport"@[0] != "conference"@[0]);
            assert("techreport"@.len() != "inbook"@.len());
            assert("techreport"@.len() != "incollection"@.len());
            assert("techreport"@.len() != "manual"@.len());
            assert("techreport"@.len() != "masterthesis"@.len());
            assert("techreport"@.len() != "phdthesis"@.len());
            assert("techreport"@.len() != "proceedings"@.len());
        },
    }
}

/// The ASCII upper case of one character.
pub open spec fn ascii_upper(c: char) -> char {
    if 'a' <= c <= 'z' {
        ((c as u32) - 32) as char
    } else {
        c
    }
}

/// The name of every kind, written in upper or lower case, reads back as
/// that kind, and every number and every lower-case text that names no kind
/// with a variant of its own reads as `Other`.
pub proof fn lemma_name_any_case(t: EntryType, i: int, l: Seq<char>)
    ensures
        is_ascii_chars(t.name().map_values(|c: char| ascii_upper(c))),
        EntryType::from_lowercase_name(
            t.name().map_values(|c: char| ascii_upper(c)).map_values(|c: char| ascii_lower(c)),
        ) == t,
        !(1 <= i <= 15) ==> EntryType::from_index(i) == EntryType::Other,
        (forall|u: EntryType| u != EntryType::Other ==> #[trigger] u.name() != l)
            ==> EntryType::from_lowercase_name(l) == EntryType::Other,
{
    lemma_name_round_trip(t);
    let n = t.name();
    let up = n.map_values(|c: char| ascii_upper(c));
    assert forall|k: int| 0 <= k < up.len() implies '\0' <= #[trigger] up[k] <= '\u{7f}' by {
        assert(n.map_values(|c: char| ascii_lower(c))[k] == n[k]);
        assert('\0' <= n[k] <= '\u{7f}');
        if 'a' <= n[k] <= 'z' {
            assert((n[k] as u32) - 32 < 0x80);
        }
    }
    let low = up.map_values(|c: char| ascii_lower(c));
    assert(low =~= n) by {
        assert forall|k: int| 0 <= k < n.len() implies #[trigger] low[k] == n[k] by {
            assert(n.map_values(|c: char| ascii_lower(c))[k] == n[k]);
            if 'a' <= n[k] <= 'z' {
                assert(ascii_lower(ascii_upper(n[k])) == n[k]);
            }
        }
    }
    if forall|u: EntryType| u != EntryType::Other ==> #[trigger] u.name() != l {
        assert(EntryType::Article.name() != l);
        assert(EntryType::Book.name() != l);
        assert(EntryType::Misc.name() != l);
        assert(EntryType::InProceedings.name() != l);
        assert(EntryType::Unpublished.name() != l);
        assert(EntryType::Online.name() != l);
        assert(EntryType::Booklet.name() != l);
        assert(EntryType::Conference.name() != l);
        assert(EntryType::InBook.name() != l);
        assert(EntryType::InCollection.name() != l);
        assert(EntryType::Manual.name() != l);
        assert(EntryType::MasterThesis.name() != l);
        assert(EntryType::PhdThesis.name() != l);
        assert(EntryType::Proceedings.name() != l);
        assert(EntryType::TechReport.name() != l);
    }
}

/// The BibTeX name of every kind, and the kind that each name reads as.
pub proof fn lemma_kind_names()
    ensures
        EntryType::Other.name() == "other"@,
        EntryType::from_lowercase_name("other"@) == EntryType::Other,
        EntryType::Article.name() == "article"@,
        EntryType::from_lowercase_name("article"@) == EntryType::Article,
        EntryType::Book.name() == "book"@,
        EntryType::from_lowercase_name("book"@) == EntryType::Book,
        EntryType::Misc.name() == "misc"@,
        EntryType::from_lowercase_name("misc"@) == EntryType::Misc,
        EntryType::InProceedings.name() == "inproceedings"@,
        EntryType::from_lowercase_name("inproceedings"@) == EntryType::InProceedings,
        EntryType::Unpublished.name() == "unpublished"@,
        EntryType::from_lowercase_name("unpublished"@) == EntryType::Unpublished,
        EntryType::Online.name() == "online"@,
        EntryType::from_lowercase_name("online"@) == EntryType::Online,
        EntryType::Booklet.name() == "booklet"@,
        EntryType::from_lowercase_name("booklet"@) == EntryType::Booklet,
        EntryType::Conference.name() == "conference"@,
        EntryType::from_lowercase_name("conference"@) == EntryType::Conference,
        EntryType::InBook.name() == "inbook"@,
        EntryType::from_lowercase_name("inbook"@) == EntryType::InBook,
        EntryType::InCollection.name() == "incollection"@,
        EntryType::from_lowercase_name("incollection"@) == EntryType::InCollection,
        EntryType::Manual.name() == "manual"@,
        EntryType::from_lowercase_name("manual"@) == EntryType::Manual,
        EntryType::MasterThesis.name() == "masterthesis"@,
        EntryType::from_lowercase_name("masterthesis"@) == EntryType::MasterThesis,
        EntryType::PhdThesis.name() == "phdthesis"@,
        EntryType::from_lowercase_name("phdthesis"@) == EntryType::PhdThesis,
        EntryType::Proceedings.name() == "proceedings"@,
        EntryType::from_lowercase_name("proceedings"@) == EntryType::Proceedings,
        EntryType::TechReport.name() == "techreport"@,
        EntryType::from_lowercase_name("techreport"@) == EntryType::TechReport,
{
    lemma_name_round_trip(EntryType::Other);
    lemma_name_round_trip(EntryType::Article);
    lemma_name_round_trip(EntryType::Book);
    lemma_name_round_trip(EntryType::Misc);
    lemma_name_round_trip(EntryType::InProceedings);
    lemma_name_round_trip(EntryType::Unpublished);
    lemma_name_round_trip(EntryType::Online);
    lemma_name_round_trip(EntryType::Booklet);
    lemma_name_round_trip(EntryType::Conference);
    lemma_name_round_trip(EntryType::InBook);
    lemma_name_round_trip(EntryType::InCollection);
    lemma_name_round_trip(EntryType::Manual);
    lemma_name_round_trip(EntryType::MasterThesis);
    lemma_name_round_trip(EntryType::PhdThesis);
    lemma_name_round_trip(EntryType::Proceedings);
    lemma_name_round_trip(EntryType::TechReport);
}

} // verus!
