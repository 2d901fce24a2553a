//! BibTeX text parsed by `nom_bibtex` into plain entries.
use vstd::prelude::*;
use vstd::string::StringExecFns;

use nom_bibtex::model::StringValueType;

use crate::error::Error;
use crate::tags::{distinct_keys, tag_map};
use crate::text::{str_chars, str_eq};

verus! {

/// One entry of a BibTeX file as the parser gives it: its type as written,
/// its citation key and its tags (lower-case names with their values, each
/// name once, in no particular order).
#[derive(Debug)]
pub struct RawBibliography {
    pub entry_type: String,
    pub citation_key: String,
    pub tags: Vec<(String, String)>,
}

impl RawBibliography {
    /// The tags as pairs of character sequences.
    pub open spec fn tag_pairs(&self) -> Seq<(Seq<char>, Seq<char>)> {
        self.tags@.map_values(|t: (String, String)| (t.0@, t.1@))
    }

    /// The entry as plain values: type, citation key and the map of tags.
    pub open spec fn model(&self) -> (Seq<char>, Seq<char>, Map<Seq<char>, Seq<char>>) {
        (self.entry_type@, self.citation_key@, tag_map(self.tag_pairs()))
    }
}

/// Name for what `nom_bibtex::Bibtex::parse` gives for a text: `None` when
/// the text does not parse, else its bibliography entries in the order of
/// the text, each as its type, its citation key and the map of its tags
/// (with `@string` abbreviations expanded).
pub uninterp spec fn bibtex_entries(data: Seq<char>) -> Option<
    Seq<(Seq<char>, Seq<char>, Map<Seq<char>, Seq<char>>)>,
>;

/// The text ends in an ASCII character other than `{` and `"`. The parser
/// cuts a value that opens with `{` or `"` just before its last character
/// when nothing closes it; a text that ends so keeps that cut on a character
/// boundary and after the opening character.
pub open spec fn ends_safely(d: Seq<char>) -> bool {
    &&& d.len() > 0
    &&& d.last() <= '\u{7f}'
    &&& d.last() != '{'
    &&& d.last() != '"'
}

/// The text that is handed to the parser: the text itself when it ends
/// safely, else the text with a newline after it.
pub open spec fn bibtex_input(d: Seq<char>) -> Seq<char> {
    if ends_safely(d) {
        d
    } else {
        d.push('\n')
    }
}

/// A `@string` definition as plain values: the abbreviation's name and its
/// value piece by piece, each piece a literal text (`false`) or the name of
/// an abbreviation (`true`).
pub open spec fn definition_view(d: Option<(String, Vec<(bool, String)>)>) -> Option<
    (Seq<char>, Seq<(bool, Seq<char>)>),
> {
    match d {
        Some(p) => Some((p.0@, p.1@.map_values(|q: (bool, String)| (q.0, q.1@)))),
        None => None,
    }
}

/// Name for what `nom_bibtex::Bibtex::raw_parse` gives for a text: `None`
/// when the text does not parse, else one item per entry of the text, in
/// order, which is the definition for a `@string` entry and `None` for any
/// other entry.
pub uninterp spec fn bibtex_raw_entries(data: Seq<char>) -> Option<
    Seq<Option<(Seq<char>, Seq<(bool, Seq<char>)>)>>,
>;

/// The first definition of the abbreviation `name` at or after entry
/// `start`, or -1 when there is none.
pub open spec fn first_definition_from(
    ds: Seq<Option<(Seq<char>, Seq<(bool, Seq<char>)>)>>,
    name: Seq<char>,
    start: int,
) -> int
    decreases ds.len() - start,
{
    if start < 0 || start >= ds.len() {
        -1
    } else if ds[start] is Some && ds[start].unwrap().0 == name {
        start
    } else {
        first_definition_from(ds, name, start + 1)
    }
}

/// The first definition of the abbreviation `name`, or -1: the one that the
/// expansion of abbreviations uses.
pub open spec fn first_definition(
    ds: Seq<Option<(Seq<char>, Seq<(bool, Seq<char>)>)>>,
    name: Seq<char>,
) -> int {
    first_definition_from(ds, name, 0)
}

/// Definition `i` uses definition `j`: a piece of its value names an
/// abbreviation whose first definition is `j`.
pub open spec fn uses_definition(
    ds: Seq<Option<(Seq<char>, Seq<(bool, Seq<char>)>)>>,
    i: int,
    j: int,
) -> bool {
    &&& 0 <= i < ds.len()
    &&& 0 <= j < ds.len()
    &&& ds[i] is Some
    &&& exists|k: int|
        0 <= k < ds[i].unwrap().1.len() && #[trigger] ds[i].unwrap().1[k].0 && first_definition(
            ds,
            ds[i].unwrap().1[k].1,
        ) == j
}

/// `r` ranks the definitions: every definition has a higher rank than each
/// definition it uses.
pub open spec fn ranks_definitions(
    ds: Seq<Option<(Seq<char>, Seq<(bool, Seq<char>)>)>>,
    r: Seq<nat>,
) -> bool {
    &&& r.len() == ds.len()
    &&& forall|i: int, j: int| #[trigger] uses_definition(ds, i, j) ==> r[j] < r[i]
}

/// No definition uses itself, directly or through others: the definitions
/// can be ranked.
pub open spec fn definitions_acyclic(ds: Seq<Option<(Seq<char>, Seq<(bool, Seq<char>)>)>>) -> bool {
    exists|r: Seq<nat>| ranks_definitions(ds, r)
}

/// The text parses as entries and its `@string` definitions use one another
/// in a cycle.
pub open spec fn cyclic_strings(d: Seq<char>) -> bool {
    bibtex_raw_entries(bibtex_input(d)) matches Some(ds) && !definitions_acyclic(ds)
}

/// The bibliography entries that the library reads from a text: none when
/// its string definitions are cyclic, else what the parser gives for the
/// text handed to it.
pub open spec fn text_entries(d: Seq<char>) -> Option<
    Seq<(Seq<char>, Seq<char>, Map<Seq<char>, Seq<char>>)>,
> {
    if cyclic_strings(d) {
        None
    } else {
        bibtex_entries(bibtex_input(d))
    }
}

/// Calls `nom_bibtex::Bibtex::raw_parse`, which runs the parser alone, and
/// keeps of each entry its `@string` definition, if it is one; the result is
/// named `bibtex_raw_entries`. `Bibtex::parse` begins with this same call
/// and gives up when it fails, which is the last clause. The parser panics
/// on some texts that do not end safely, which `requires` rules out.
#[verifier::external_body]
fn raw_parse_bibtex(data: &str) -> (res: Result<
    Vec<Option<(String, Vec<(bool, String)>)>>,
    nom_bibtex::error::BibtexError,
>)
    requires
        ends_safely(data@),
    ensures
        res is Ok <==> bibtex_raw_entries(data@) is Some,
        res matches Ok(v) ==> bibtex_raw_entries(data@) == Some(
            v@.map_values(|d: Option<(String, Vec<(bool, String)>)>| definition_view(d)),
        ),
        res is Err ==> bibtex_entries(data@) is None,
{
    nom_bibtex::Bibtex::raw_parse(data).map(|es| es.into_iter().map(|e| match e {
        nom_bibtex::Entry::Variable(kv) => Some((kv.key, kv.value.into_iter().map(|p| match p {
            StringValueType::Str(s) => (false, s),
            StringValueType::Abbreviation(s) => (true, s),
        }).collect())),
        nom_bibtex::Entry::Preamble(_) => None,
        nom_bibtex::Entry::Comment(_) => None,
        nom_bibtex::Entry::Bibliography(..) => None,
    }).collect())
}

/// Calls `nom_bibtex::Bibtex::parse` and converts its bibliographies into
/// plain entries; the result is named `bibtex_entries`. The tags come from a
/// `HashMap`, so each name occurs once, in an order that is not claimed.
/// The call panics or recurses without end on some texts, which `requires`
/// rules out: a text that does not end safely can make the parser cut a
/// string outside a character boundary, and definitions that use one another
/// in a cycle make the expansion of abbreviations endless. The expansion of a
/// definition goes on only into the first definitions of the abbreviations it
/// names, which rank lower, so with a ranking it ends.
#[verifier::external_body]
pub(crate) fn parse_bibtex(data: &str) -> (res: Result<Vec<RawBibliography>, nom_bibtex::error::BibtexError>)
    requires
        ends_safely(data@),
        bibtex_raw_entries(data@) matches Some(ds) ==> definitions_acyclic(ds),
    ensures
        res is Ok <==> bibtex_entries(data@) is Some,
        res matches Ok(v) ==> bibtex_entries(data@) == Some(
            v@.map_values(|b: RawBibliography| b.model()),
        ),
        res matches Ok(v) ==> forall|i: int|
            0 <= i < v.len() ==> distinct_keys(#[trigger] v@[i].tag_pairs()),
{
    nom_bibtex::Bibtex::parse(data).map(|bib| bib.bibliographies().iter().map(|b| RawBibliography {
        entry_type: b.entry_type().to_string(),
        citation_key: b.citation_key().to_string(),
        tags: b.tags().iter().map(|(k, v)| (k.clone(), v.clone())).collect(),
    }).collect())
}

/// Where the first definition of `name` at or after `start` is, then that
/// position is within the list and defines `name`.
proof fn lemma_first_definition(
    ds: Seq<Option<(Seq<char>, Seq<(bool, Seq<char>)>)>>,
    name: Seq<char>,
    start: int,
)
    requires
        0 <= start,
    ensures
        first_definition_from(ds, name, start) == -1 || ({
            let j = first_definition_from(ds, name, start);
            &&& start <= j < ds.len()
            &&& ds[j] is Some
            &&& ds[j].unwrap().0 == name
        }),
    decreases ds.len() - start,
{
    if start < ds.len() && !(ds[start] is Some && ds[start].unwrap().0 == name) {
        lemma_first_definition(ds, name, start + 1);
    }
}

/// The position of the first definition of `name`.
fn first_definition_exec(ds: &Vec<Option<(String, Vec<(bool, String)>)>>, name: &String) -> (res:
    Option<usize>)
    ensures
        ({
            let dv = ds@.map_values(
                |d: Option<(String, Vec<(bool, String)>)>| definition_view(d),
            );
            match res {
                Some(j) => first_definition(dv, name@) == j,
                None => first_definition(dv, name@) == -1,
            }
        }),
{
    let ghost dv = ds@.map_values(|d: Option<(String, Vec<(bool, String)>)>| definition_view(d));
    let mut j: usize = 0;
    while j < ds.len()
        invariant
            j <= ds.len(),
            dv == ds@.map_values(|d: Option<(String, Vec<(bool, String)>)>| definition_view(d)),
            first_definition(dv, name@) == first_definition_from(dv, name@, j as int),
        decreases ds.len() - j,
    {
        match &ds[j] {
            Some(d) => {
                if str_eq(d.0.as_str(), name.as_str()) {
                    return Some(j);
                }
            },
            None => {},
        }
        j = j + 1;
    }
    None
}

/// Every definition that definition `i` uses has a rank below `round`.
pub open spec fn uses_ranked_before(
    ds: Seq<Option<(Seq<char>, Seq<(bool, Seq<char>)>)>>,
    rank: Seq<Option<u64>>,
    i: int,
    round: u64,
) -> bool {
    forall|j: int|
        #[trigger] uses_definition(ds, i, j) ==> (rank[j] is Some && rank[j].unwrap() < round)
}

fn all_uses_ranked_before(
    ds: &Vec<Option<(String, Vec<(bool, String)>)>>,
    rank: &Vec<Option<u64>>,
    i: usize,
    round: u64,
) -> (res: bool)
    requires
        i < ds.len(),
        rank.len() == ds.len(),
    ensures
        res == uses_ranked_before(
            ds@.map_values(|d: Option<(String, Vec<(bool, String)>)>| definition_view(d)),
            rank@,
            i as int,
            round,
        ),
{
    let ghost dv = ds@.map_values(|d: Option<(String, Vec<(bool, String)>)>| definition_view(d));
    match &ds[i] {
        None => {
            assert(dv[i as int] is None);
            true
        },
        Some(d) => {
            let ghost pieces = dv[i as int].unwrap().1;
            assert(pieces == d.1@.map_values(|q: (bool, String)| (q.0, q.1@)));
            let mut k: usize = 0;
            while k < d.1.len()
                invariant
                    i < ds.len(),
                    rank.len() == ds.len(),
                    ds@[i as int] == Some(*d),
                    dv == ds@.map_values(
                        |d: Option<(String, Vec<(bool, String)>)>| definition_view(d),
                    ),
                    pieces == dv[i as int].unwrap().1,
                    pieces == d.1@.map_values(|q: (bool, String)| (q.0, q.1@)),
                    k <= d.1.len(),
                    forall|m: int|
                        0 <= m < k && #[trigger] pieces[m].0 && 0 <= first_definition(
                            dv,
                            pieces[m].1,
                        ) < dv.len() ==> ({
                            let j = first_definition(dv, pieces[m].1);
                            rank@[j] is Some && rank@[j].unwrap() < round
                        }),
                decreases d.1.len() - k,
            {
                if d.1[k].0 {
                    let found = first_definition_exec(ds, &d.1[k].1);
                    proof {
                        lemma_first_definition(dv, d.1@[k as int].1@, 0);
                        assert(pieces[k as int] == (d.1@[k as int].0, d.1@[k as int].1@));
                    }
                    match found {
                        Some(j) => {
                            let ok = match rank[j] {
                                Some(v) => v < round,
                                None => false,
                            };
                            if !ok {
                                assert(pieces[k as int].0 && first_definition(
                                    dv,
                                    pieces[k as int].1,
                                ) == j);
                                assert(uses_definition(dv, i as int, j as int));
                                return false;
                            }
                        },
                        None => {},
                    }
                }
                k = k + 1;
            }
            proof {
                assert forall|j: int| #[trigger]
                    uses_definition(dv, i as int, j) implies (rank@[j] is Some && rank@[j].unwrap()
                    < round) by {
                    let m = choose|m: int|
                        0 <= m < dv[i as int].unwrap().1.len() && #[trigger] dv[i as int].unwrap().1[m].0
                            && first_definition(dv, dv[i as int].unwrap().1[m].1) == j;
                    assert(pieces[m].0);
                }
            }
            true
        },
    }
}

/// The number of entries not ranked yet.
pub open spec fn count_unranked(rank: Seq<Option<u64>>) -> nat
    decreases rank.len(),
{
    if rank.len() == 0 {
        0
    } else {
        count_unranked(rank.drop_last()) + if rank.last() is None {
            1nat
        } else {
            0nat
        }
    }
}

proof fn lemma_count_unranked_bound(rank: Seq<Option<u64>>)
    ensures
        count_unranked(rank) <= rank.len(),
    decreases rank.len(),
{
    if rank.len() > 0 {
        lemma_count_unranked_bound(rank.drop_last());
    }
}

proof fn lemma_count_unranked_update(rank: Seq<Option<u64>>, i: int, v: u64)
    requires
        0 <= i < rank.len(),
        rank[i] is None,
    ensures
        count_unranked(rank.update(i, Some(v))) + 1 == count_unranked(rank),
    decreases rank.len(),
{
    let u = rank.update(i, Some(v));
    if i == rank.len() - 1 {
        assert(u.drop_last() =~= rank.drop_last());
    } else {
        assert(u.drop_last() =~= rank.drop_last().update(i, Some(v)));
        lemma_count_unranked_update(rank.drop_last(), i, v);
    }
}

proof fn lemma_count_unranked_zero(rank: Seq<Option<u64>>, i: int)
    requires
        0 <= i < rank.len(),
        rank[i] is None,
    ensures
        count_unranked(rank) > 0,
    decreases rank.len(),
{
    if i < rank.len() - 1 {
        lemma_count_unranked_zero(rank.drop_last(), i);
    }
}

/// When every unranked definition uses another unranked one, no ranking
/// gives the unranked definition `i` a rank of at most `bound`.
proof fn lemma_no_descent(
    ds: Seq<Option<(Seq<char>, Seq<(bool, Seq<char>)>)>>,
    rank: Seq<Option<u64>>,
    r: Seq<nat>,
    i: int,
    bound: nat,
)
    requires
        r.len() == ds.len(),
        rank.len() == ds.len(),
        0 <= i < ds.len(),
        rank[i] is None,
        r[i] <= bound,
        forall|a: int|
            0 <= a < ds.len() && #[trigger] rank[a] is None ==> exists|j: int|
                uses_definition(ds, a, j) && rank[j] is None,
    ensures
        !ranks_definitions(ds, r),
    decreases bound,
{
    if ranks_definitions(ds, r) {
        assert(rank[i] is None);
        let j = choose|j: int| uses_definition(ds, i, j) && rank[j] is None;
        assert(r[j] < r[i]);
        if bound > 0 {
            lemma_no_descent(ds, rank, r, j, (bound - 1) as nat);
        }
    }
}

/// Whether the definitions can be ranked. Ranks are given round by round: a
/// definition gets the round's number once every definition it uses has a
/// rank from an earlier round; when a round gives no rank, the definitions
/// left each use one of themselves, so none of them can be ranked.
fn definitions_acyclic_exec(ds: &Vec<Option<(String, Vec<(bool, String)>)>>) -> (res: bool)
    ensures
        res == definitions_acyclic(
            ds@.map_values(|d: Option<(String, Vec<(bool, String)>)>| definition_view(d)),
        ),
{
    let ghost dv = ds@.map_values(|d: Option<(String, Vec<(bool, String)>)>| definition_view(d));
    let n = ds.len();
    let mut rank: Vec<Option<u64>> = Vec::new();
    let mut f: usize = 0;
    while f < n
        invariant
            f <= n,
            rank.len() == f,
            forall|a: int| 0 <= a < f ==> rank@[a] is None,
        decreases n - f,
    {
        rank.push(None);
        f = f + 1;
    }
    proof {
        assert(forall|a: int, j: int| #[trigger] uses_definition(dv, a, j) ==> rank@[a] is None);
        lemma_count_unranked_bound(rank@);
    }
    let mut round: u64 = 0;
    let mut go = true;
    while go
        invariant
            n == ds.len(),
            rank.len() == n,
            dv == ds@.map_values(|d: Option<(String, Vec<(bool, String)>)>| definition_view(d)),
            round + count_unranked(rank@) <= n,
            forall|a: int| 0 <= a < n && #[trigger] rank@[a] is Some ==> rank@[a].unwrap() < round,
            forall|a: int, j: int|
                #[trigger] uses_definition(dv, a, j) && rank@[a] is Some ==> (rank@[j] is Some
                    && rank@[j].unwrap() < rank@[a].unwrap()),
            !go ==> forall|a: int|
                0 <= a < n && #[trigger] rank@[a] is None ==> exists|j: int|
                    uses_definition(dv, a, j) && rank@[j] is None,
        decreases count_unranked(rank@) + if go {
            1nat
        } else {
            0nat
        },
    {
        let ghost start_count = count_unranked(rank@);
        let mut changed = false;
        let mut i: usize = 0;
        while i < n
            invariant
                n == ds.len(),
                rank.len() == n,
                dv == ds@.map_values(
                    |d: Option<(String, Vec<(bool, String)>)>| definition_view(d),
                ),
                round + start_count <= n,
                count_unranked(rank@) <= start_count,
                changed ==> count_unranked(rank@) < start_count,
                !changed ==> count_unranked(rank@) == start_count,
                i <= n,
                forall|a: int| 0 <= a < n && #[trigger] rank@[a] is Some ==> rank@[a].unwrap() <= round,
                !changed ==> forall|a: int|
                    0 <= a < n && #[trigger] rank@[a] is Some ==> rank@[a].unwrap() < round,
                forall|a: int, j: int|
                    #[trigger] uses_definition(dv, a, j) && rank@[a] is Some ==> (rank@[j] is Some
                        && rank@[j].unwrap() < rank@[a].unwrap()),
                !changed ==> forall|a: int|
                    0 <= a < i && #[trigger] rank@[a] is None ==> exists|j: int|
                        uses_definition(dv, a, j) && rank@[j] is None,
            decreases n - i,
        {
            if rank[i].is_none() {
                if all_uses_ranked_before(ds, &rank, i, round) {
                    proof {
                        lemma_count_unranked_update(rank@, i as int, round);
                    }
                    let ghost before = rank@;
                    rank.set(i, Some(round));
                    proof {
                        assert forall|a: int, j: int|
                            #[trigger] uses_definition(dv, a, j) && rank@[a] is Some implies (
                            rank@[j] is Some && rank@[j].unwrap() < rank@[a].unwrap()) by {
                            if a == i {
                                assert(uses_ranked_before(dv, before, i as int, round));
                            } else {
                                assert(before[a] is Some);
                            }
                        }
                    }
                    changed = true;
                } else {
                    proof {
                        if !changed {
                            let j = choose|j: int|
                                #[trigger] uses_definition(dv, i as int, j) && !(rank@[j] is Some
                                    && rank@[j].unwrap() < round);
                            assert(rank@[j] is None);
                        }
                    }
                }
            }
            i = i + 1;
        }
        if changed {
            proof {
                lemma_count_unranked_bound(rank@);
            }
            round = round + 1;
        } else {
            go = false;
        }
    }
    let mut all = true;
    let mut a: usize = 0;
    while a < n
        invariant
            n == ds.len(),
            rank.len() == n,
            a <= n,
            all == forall|b: int| 0 <= b < a ==> #[trigger] rank@[b] is Some,
        decreases n - a,
    {
        if rank[a].is_none() {
            all = false;
        }
        a = a + 1;
    }
    proof {
        if all {
            let r = Seq::new(n as nat, |b: int| rank@[b].unwrap() as nat);
            assert(ranks_definitions(dv, r));
        } else {
            let b = choose|b: int| 0 <= b < n && !(#[trigger] rank@[b] is Some);
            if definitions_acyclic(dv) {
                let r = choose|r: Seq<nat>| ranks_definitions(dv, r);
                lemma_no_descent(dv, rank@, r, b, r[b]);
            }
        }
    }
    all
}

/// Reads the bibliography entries of a BibTeX text. A text that does not end
/// safely is handed to the parser with a newline after it. A text whose
/// string definitions use one another in a cycle is refused before the
/// abbreviations are expanded; any other text gives what the parser gives.
pub fn read_bibtex(data: &str) -> (res: Result<Vec<RawBibliography>, Error>)
    ensures
        res is Ok <==> text_entries(data@) is Some,
        res matches Ok(v) ==> text_entries(data@) == Some(
            v@.map_values(|b: RawBibliography| b.model()),
        ),
        res matches Ok(v) ==> forall|i: int|
            0 <= i < v.len() ==> distinct_keys(#[trigger] v@[i].tag_pairs()),
        res matches Err(e) ==> (e is CyclicStrings <==> cyclic_strings(data@)),
        res matches Err(e) ==> (e is Bibtex || e is CyclicStrings),
{
    let chars = str_chars(data);
    let n = chars.len();
    let safe = n > 0 && chars[n - 1] <= '\u{7f}' && chars[n - 1] != '{' && chars[n - 1] != '"';
    let mut text = String::from_str(data);
    if !safe {
        text.push('\n');
    }
    assert(text@ == bibtex_input(data@));
    let defs = match raw_parse_bibtex(text.as_str()) {
        Ok(defs) => defs,
        Err(e) => {
            return Err(Error::Bibtex(e));
        },
    };
    if !definitions_acyclic_exec(&defs) {
        return Err(Error::CyclicStrings);
    }
    match parse_bibtex(text.as_str()) {
        Ok(v) => Ok(v),
        Err(e) => Err(Error::Bibtex(e)),
    }
}

} // verus!
