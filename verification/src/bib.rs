//! A bibliography: the ordered list of its entries and whether it was
//! modified since it was last saved.
use vstd::prelude::*;
use vstd::string::StringExecFns;

use crate::bibtex::{cyclic_strings, read_bibtex, text_entries};
use crate::entry::{matches_model, serialize_spec, Entry, EntryView};
use crate::entry_type::EntryType;
use crate::error::Error;
use crate::tags::{distinct_keys, set_tag, tag_map};
use crate::text::{join_with, str_eq};

verus! {

/// The tag that an entry's property or tag name sets: the tag `abstract` for
/// the property `x-abstract`, else the tag of that name.
pub open spec fn property_tag(name: Seq<char>) -> Seq<char> {
    if name == "x-abstract"@ {
        "abstract"@
    } else {
        name
    }
}


/// A bibliography as plain values.
pub struct BibView {
    pub entries: Seq<EntryView>,
    pub modified: bool,
}

/// A bibliography.
#[derive(Debug)]
pub struct Bib {
    entries: Vec<Entry>,
    modified: bool,
}

impl View for Bib {
    type V = BibView;

    closed spec fn view(&self) -> BibView {
        BibView { entries: self.entries@.map_values(|e: Entry| e@), modified: self.modified }
    }
}

/// The index of the first entry with citation key `key`.
pub open spec fn first_with_key(entries: Seq<EntryView>, key: Seq<char>, p: int) -> bool {
    &&& 0 <= p < entries.len()
    &&& entries[p].citation_key == key
    &&& forall|j: int| 0 <= j < p ==> entries[j].citation_key != key
}

/// Whether some entry has citation key `key`.
pub open spec fn has_key(entries: Seq<EntryView>, key: Seq<char>) -> bool {
    exists|i: int| 0 <= i < entries.len() && #[trigger] entries[i].citation_key == key
}

/// `s` with `e` inserted at `pos`, or appended when `pos` is past the end.
pub open spec fn insert_clamped(s: Seq<EntryView>, pos: int, e: EntryView) -> Seq<EntryView> {
    s.insert(
        if pos < s.len() {
            pos
        } else {
            s.len() as int
        },
        e,
    )
}

/// The BibTeX text of a bibliography: its entries one after the other,
/// separated by an empty line.
pub open spec fn serialize_bib(entries: Seq<EntryView>) -> Seq<char> {
    join_with(entries.map_values(|e: EntryView| serialize_spec(e)), "\n\n"@)
}

impl Bib {
    /// Positions fit in a `u32` and each entry names each tag at most once.
    pub open spec fn wf(&self) -> bool {
        &&& self@.entries.len() <= u32::MAX
        &&& forall|i: int|
            0 <= i < self@.entries.len() ==> distinct_keys(#[trigger] self@.entries[i].tags)
    }

    proof fn lemma_entry_wf(&self, i: int)
        requires
            self.wf(),
            0 <= i < self.entries.len(),
        ensures
            self.entries@[i].wf(),
            self@.entries[i] == self.entries@[i]@,
    {
    }

    /// An empty, unmodified bibliography.
    pub fn default() -> (res: Bib)
        ensures
            res@.entries == Seq::<EntryView>::empty(),
            !res@.modified,
            res.wf(),
    {
        let res = Bib { entries: Vec::new(), modified: false };
        proof {
            assert(res@.entries =~= Seq::<EntryView>::empty());
        }
        res
    }

    /// Replaces the entries by those of a BibTeX text. On success the entries
    /// are the text's bibliography entries in order (see `read_bibtex`); when
    /// the text does not parse, defines string abbreviations in a cycle, or holds
    /// more entries than positions can number, nothing changes. Whether the bibliography counts as modified is unchanged.
    pub fn parse(&mut self, data: &str) -> (res: Result<(), Error>)
        requires
            old(self).wf(),
        ensures
            final(self).wf(),
            final(self)@.modified == old(self)@.modified,
            res is Ok <==> (text_entries(data@) matches Some(v) && v.len() <= u32::MAX),
            res matches Err(e) ==> ((e is Bibtex || e is CyclicStrings) <==> text_entries(
                data@,
            ) is None),
            res matches Err(e) ==> (e is CyclicStrings <==> cyclic_strings(data@)),
            res matches Err(e) ==> (e is Bibtex || e is CyclicStrings || e is TooManyEntries),
            res is Err ==> final(self)@ == old(self)@,
            res is Ok ==> ({
                let v = text_entries(data@)->0;
                &&& final(self)@.entries.len() == v.len()
                &&& forall|i: int|
                    0 <= i < v.len() ==> matches_model(#[trigger] final(self)@.entries[i], v[i])
            }),
    {
        let raw = match read_bibtex(data) {
            Ok(raw) => raw,
            Err(e) => {
                return Err(e);
            },
        };
        if raw.len() > 0xffff_ffff {
            return Err(Error::TooManyEntries);
        }
        let ghost models = raw@.map_values(|b: crate::bibtex::RawBibliography| b.model());
        let mut entries: Vec<Entry> = Vec::new();
        let mut i: usize = 0;
        while i < raw.len()
            invariant
                i <= raw.len(),
                raw.len() <= u32::MAX,
                models == raw@.map_values(|b: crate::bibtex::RawBibliography| b.model()),
                forall|k: int| 0 <= k < raw.len() ==> distinct_keys(#[trigger] raw@[k].tag_pairs()),
                entries.len() == i,
                forall|k: int|
                    0 <= k < i ==> matches_model(#[trigger] entries@[k]@, models[k])
                        && entries@[k].wf(),
            decreases raw.len() - i,
        {
            let e = Entry::from_bibliography(&raw[i]);
            entries.push(e);
            i = i + 1;
        }
        self.entries = entries;
        proof {
            assert forall|k: int| 0 <= k < self@.entries.len() implies distinct_keys(
                #[trigger] self@.entries[k].tags,
            ) by {
                assert(self@.entries[k] == self.entries@[k]@);
            }
            assert forall|k: int| 0 <= k < models.len() implies matches_model(
                #[trigger] self@.entries[k],
                models[k],
            ) by {
                assert(self@.entries[k] == self.entries@[k]@);
            }
        }
        Ok(())
    }

    /// The BibTeX text of the bibliography.
    pub fn serialize(&self) -> (res: String)
        ensures
            res@ == serialize_bib(self@.entries),
    {
        let ghost texts = self@.entries.map_values(|e: EntryView| serialize_spec(e));
        let mut out = String::new();
        let mut i: usize = 0;
        while i < self.entries.len()
            invariant
                i <= self.entries.len(),
                texts == self@.entries.map_values(|e: EntryView| serialize_spec(e)),
                self@.entries == self.entries@.map_values(|e: Entry| e@),
                out@ == join_with(texts.take(i as int), "\n\n"@),
            decreases self.entries.len() - i,
        {
            let ghost before = out@;
            if i > 0 {
                out.append("\n\n");
            }
            let text = self.entries[i].serialize();
            out.append(text.as_str());
            proof {
                assert(texts.take(i + 1).drop_last() =~= texts.take(i as int));
                assert(texts[i as int] == text@);
                if i == 0 {
                    assert(out@ =~= texts.take(1)[0]);
                } else {
                    assert(out@ =~= before + "\n\n"@ + texts[i as int]);
                }
            }
            i = i + 1;
        }
        proof {
            assert(texts.take(i as int) =~= texts);
        }
        out
    }

    /// The number of entries.
    pub fn n_items(&self) -> (res: u32)
        requires
            self.wf(),
        ensures
            res == self@.entries.len(),
    {
        self.entries.len() as u32
    }

    /// The entry at `position`, if there is one.
    pub fn item(&self, position: u32) -> (res: Option<Entry>)
        ensures
            res matches Some(e) ==> position < self@.entries.len() && e@ == self@.entries[position as int],
            res is None ==> position >= self@.entries.len(),
    {
        if (position as usize) < self.entries.len() {
            Some(self.entries[position as usize].clone())
        } else {
            None
        }
    }

    /// Whether the bibliography was modified since it was last saved.
    pub fn modified(&self) -> (res: bool)
        ensures
            res == self@.modified,
    {
        self.modified
    }

    /// Marks the bibliography as modified or not; reports whether that
    /// changed.
    pub fn set_modified(&mut self, modified: bool) -> (changed: bool)
        ensures
            final(self)@ == (BibView { modified, ..old(self)@ }),
            changed == (modified != old(self)@.modified),
    {
        let changed = modified != self.modified;
        self.modified = modified;
        changed
    }

    /// Appends an entry and returns its position; the bibliography is then
    /// modified.
    pub fn add_entry(&mut self, entry: Entry) -> (pos: u32)
        requires
            old(self).wf(),
            old(self)@.entries.len() < u32::MAX,
            entry.wf(),
        ensures
            final(self).wf(),
            pos == old(self)@.entries.len(),
            final(self)@.entries == old(self)@.entries.push(entry@),
            final(self)@.modified,
    {
        let pos = self.entries.len() as u32;
        let ghost e = entry@;
        self.entries.push(entry);
        self.modified = true;
        proof {
            assert(self@.entries =~= old(self)@.entries.push(e));
        }
        pos
    }

    /// Inserts an entry at `pos`, or appends it when `pos` is past the end;
    /// the bibliography is then modified.
    pub fn add_entry_at_pos(&mut self, entry: Entry, pos: u32)
        requires
            old(self).wf(),
            old(self)@.entries.len() < u32::MAX,
            entry.wf(),
        ensures
            final(self).wf(),
            final(self)@.entries == insert_clamped(old(self)@.entries, pos as int, entry@),
            final(self)@.modified,
    {
        let len = self.entries.len();
        let at: usize = if (pos as usize) < len {
            pos as usize
        } else {
            len
        };
        let ghost e = entry@;
        self.entries.insert(at, entry);
        self.modified = true;
        proof {
            assert(self@.entries =~= old(self)@.entries.insert(at as int, e));
        }
    }

    /// The position of the first entry with citation key `key`.
    pub fn position_of_key(&self, key: &str) -> (res: Option<u32>)
        requires
            self.wf(),
        ensures
            res matches Some(p) ==> first_with_key(self@.entries, key@, p as int),
            res is None ==> !has_key(self@.entries, key@),
    {
        let mut i: usize = 0;
        while i < self.entries.len()
            invariant
                i <= self.entries.len(),
                self.entries.len() <= u32::MAX,
                self@.entries == self.entries@.map_values(|e: Entry| e@),
                forall|j: int| 0 <= j < i ==> self@.entries[j].citation_key != key@,
            decreases self.entries.len() - i,
        {
            let k = self.entries[i].citation_key();
            if str_eq(k.as_str(), key) {
                return Some(i as u32);
            }
            i = i + 1;
        }
        None
    }

    /// Removes the first entry with citation key `key`, if any; the
    /// bibliography is then modified either way.
    pub fn remove_entry(&mut self, citation_key: &str)
        requires
            old(self).wf(),
        ensures
            final(self).wf(),
            final(self)@.modified,
            !has_key(old(self)@.entries, citation_key@) ==> final(self)@.entries == old(
                self,
            )@.entries,
            forall|p: int|
                first_with_key(old(self)@.entries, citation_key@, p) ==> final(self)@.entries
                    == old(self)@.entries.remove(p),
    {
        match self.position_of_key(citation_key) {
            Some(p) => {
                self.entries.remove(p as usize);
                proof {
                    assert(self@.entries =~= old(self)@.entries.remove(p as int));
                    assert forall|q: int|
                        first_with_key(old(self)@.entries, citation_key@, q) implies q == p by {
                        if q < p {
                        } else if q > p {
                        }
                    }
                }
            },
            None => {},
        }
        self.modified = true;
    }

    /// Removes the entry at `pos`; the bibliography is then modified.
    pub fn remove_pos(&mut self, pos: u32)
        requires
            old(self).wf(),
            pos < old(self)@.entries.len(),
        ensures
            final(self).wf(),
            final(self)@.entries == old(self)@.entries.remove(pos as int),
            final(self)@.modified,
    {
        self.entries.remove(pos as usize);
        self.modified = true;
        proof {
            assert(self@.entries =~= old(self)@.entries.remove(pos as int));
        }
    }

    /// The position of the first entry with the citation key of `entry`.
    pub fn find_pos(&self, entry: &Entry) -> (res: Option<u32>)
        requires
            self.wf(),
        ensures
            res matches Some(p) ==> first_with_key(self@.entries, entry@.citation_key, p as int),
            res is None ==> !has_key(self@.entries, entry@.citation_key),
    {
        let key = entry.citation_key();
        self.position_of_key(key.as_str())
    }

    /// Whether some entry has citation key `citation_key`.
    pub fn key_exists(&self, citation_key: &str) -> (res: bool)
        requires
            self.wf(),
        ensures
            res == has_key(self@.entries, citation_key@),
    {
        self.position_of_key(citation_key).is_some()
    }

    /// Sets a tag of the entry at `pos`, named as the entry's property or tag
    /// is named; the property `x-abstract` stands for the tag `abstract`. The
    /// bibliography becomes modified when the entry reports a change.
    pub fn set_tag(&mut self, pos: u32, tag: &str, value: &str) -> (changed: bool)
        requires
            old(self).wf(),
            pos < old(self)@.entries.len(),
        ensures
            final(self).wf(),
            final(self)@.entries == old(self)@.entries.update(
                pos as int,
                EntryView {
                    tags: set_tag(old(self)@.entries[pos as int].tags, property_tag(tag@), value@),
                    ..old(self)@.entries[pos as int]
                },
            ),
            changed == (crate::tags::lookup(old(self)@.entries[pos as int].tags, property_tag(tag@))
                != Some(value@) && crate::entry::is_property_tag(tag@)),
            final(self)@.modified == (old(self)@.modified || changed),
    {
        let p = pos as usize;
        proof {
            self.lemma_entry_wf(p as int);
        }
        let mut e = self.entries[p].clone();
        let changed = if str_eq(tag, "x-abstract") {
            proof {
                reveal_strlit("x-abstract");
                reveal_strlit("abstract");
            }
            e.set_abstract(value)
        } else {
            e.set(tag, value)
        };
        let ghost ev = e@;
        self.entries.set(p, e);
        if changed {
            self.modified = true;
        }
        proof {
            assert(self@.entries =~= old(self)@.entries.update(p as int, ev));
        }
        changed
    }

    /// Sets the citation key of the entry at `pos`; the bibliography becomes
    /// modified when the key is new.
    pub fn set_citation_key(&mut self, pos: u32, citation_key: &str) -> (changed: bool)
        requires
            old(self).wf(),
            pos < old(self)@.entries.len(),
        ensures
            final(self).wf(),
            final(self)@.entries == old(self)@.entries.update(
                pos as int,
                EntryView { citation_key: citation_key@, ..old(self)@.entries[pos as int] },
            ),
            changed == (citation_key@ != old(self)@.entries[pos as int].citation_key),
            final(self)@.modified == (old(self)@.modified || changed),
    {
        let p = pos as usize;
        let mut e = self.entries[p].clone();
        let changed = e.set_citation_key(citation_key);
        let ghost ev = e@;
        self.entries.set(p, e);
        if changed {
            self.modified = true;
        }
        proof {
            assert(self@.entries =~= old(self)@.entries.update(p as int, ev));
        }
        changed
    }

    /// Sets the kind of the entry at `pos`; the bibliography becomes modified
    /// when the kind is new.
    pub fn set_entry_type(&mut self, pos: u32, entry_type: EntryType) -> (changed: bool)
        requires
            old(self).wf(),
            pos < old(self)@.entries.len(),
        ensures
            final(self).wf(),
            final(self)@.entries == old(self)@.entries.update(
                pos as int,
                EntryView { entry_type, ..old(self)@.entries[pos as int] },
            ),
            changed == (entry_type != old(self)@.entries[pos as int].entry_type),
            final(self)@.modified == (old(self)@.modified || changed),
    {
        let p = pos as usize;
        let mut e = self.entries[p].clone();
        let changed = e.set_entry_type(entry_type);
        let ghost ev = e@;
        self.entries.set(p, e);
        if changed {
            self.modified = true;
        }
        proof {
            assert(self@.entries =~= old(self)@.entries.update(p as int, ev));
        }
        changed
    }

    /// Sets the type as written of the entry at `pos`. This is no reported
    /// change: the bibliography's modified flag stays as it was.
    pub fn set_other_entry_type(&mut self, pos: u32, other_type: &str)
        requires
            old(self).wf(),
            pos < old(self)@.entries.len(),
        ensures
            final(self).wf(),
            final(self)@.entries == old(self)@.entries.update(
                pos as int,
                EntryView { other_entry_type: Some(other_type@), ..old(self)@.entries[pos as int] },
            ),
            final(self)@.modified == old(self)@.modified,
    {
        let p = pos as usize;
        let mut e = self.entries[p].clone();
        e.set_other_entry_type(other_type);
        let ghost ev = e@;
        self.entries.set(p, e);
        proof {
            assert(self@.entries =~= old(self)@.entries.update(p as int, ev));
        }
    }
}

/// Deleting the entry at a position and inserting it again at that position
/// gives back the entries as they were.
pub proof fn lemma_remove_then_insert(entries: Seq<EntryView>, pos: int)
    requires
        0 <= pos < entries.len(),
    ensures
        insert_clamped(entries.remove(pos), pos, entries[pos]) == entries,
{
    assert(entries.remove(pos).insert(pos, entries[pos]) =~= entries);
}

/// An entry appended under a citation key that no entry had is the one
/// found under that key, at the old number of entries.
pub proof fn lemma_added_entry_is_found(entries: Seq<EntryView>, e: EntryView)
    requires
        !has_key(entries, e.citation_key),
    ensures
        first_with_key(entries.push(e), e.citation_key, entries.len() as int),
        has_key(entries.push(e), e.citation_key),
{
    let s = entries.push(e);
    assert(s[entries.len() as int] == e);
    assert forall|j: int| 0 <= j < entries.len() implies s[j].citation_key != e.citation_key by {
        assert(s[j] == entries[j]);
    }
}

/// With citation keys that are all different, removing the entry of a key
/// leaves no entry with that key.
pub proof fn lemma_remove_unique_key(entries: Seq<EntryView>, key: Seq<char>, p: int)
    requires
        forall|i: int, j: int|
            0 <= i < j < entries.len() ==> entries[i].citation_key != entries[j].citation_key,
        first_with_key(entries, key, p),
    ensures
        !has_key(entries.remove(p), key),
{
    let r = entries.remove(p);
    assert forall|i: int| 0 <= i < r.len() implies r[i].citation_key != key by {
        if i < p {
            assert(r[i] == entries[i]);
        } else {
            assert(r[i] == entries[i + 1]);
        }
    }
}

/// Reading the first entry of a text agrees with reading the whole text into
/// a bibliography: `Entry::from_bibtex` succeeds exactly when `Bib::parse`
/// does and gives at least one entry (for texts whose entries positions can
/// number), and the entry it gives has the citation key, the kind and the
/// tags of the bibliography's first entry.
pub proof fn lemma_first_entry_agrees(d: Seq<char>, e: EntryView, first: EntryView)
    requires
        text_entries(d) matches Some(v) ==> v.len() <= u32::MAX,
    ensures
        (text_entries(d) matches Some(v) && v.len() > 0) <==> ((text_entries(d) matches Some(v)
            && v.len() <= u32::MAX) && text_entries(d)->0.len() > 0),
        (text_entries(d) matches Some(v) && v.len() > 0 && matches_model(e, v[0])
            && matches_model(first, v[0])) ==> (e.citation_key == first.citation_key
            && e.entry_type == first.entry_type && e.other_entry_type == first.other_entry_type
            && tag_map(e.tags) == tag_map(first.tags)),
{
}

} // verus!
