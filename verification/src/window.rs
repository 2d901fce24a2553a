//! The state of a bibliography window and its decisions: opening a file,
//! adding, deleting and restoring entries, saving, searching the web for an
//! entry and whether closing needs to ask about unsaved changes.
use vstd::prelude::*;

use crate::bib::{first_with_key, has_key, insert_clamped, serialize_bib, Bib};
use crate::bibtex::text_entries;
use crate::entry::{matches_model, tag_or_empty, Entry, EntryView};
use crate::error::Error;
use crate::format::{texer, texer_spec};
use crate::utils::{add_recent_file, with_recent_file, arxiv_address, build_arxiv_url, build_google_schoolar_url, scholar_address, url_parse};

verus! {

/// What adding a new entry came to.
#[derive(Debug, Clone, Copy, PartialEq, Eq, Structural)]
pub enum NewEntryOutcome {
    /// The entry was added at this position.
    Added(u32),
    /// An entry with the same citation key exists; nothing was added.
    KeyExists,
}

/// The state of a bibliography window.
#[derive(Debug)]
pub struct Window {
    /// The open bibliography, once a file is open.
    pub bib: Option<Bib>,
    /// The last deleted entry and where it was, while it can be restored.
    pub undo_entry: Option<(Entry, u32)>,
    /// Whether the window closes without asking about unsaved changes.
    pub force_close: bool,
}

impl Window {
    /// The open bibliography is well formed.
    pub open spec fn wf(&self) -> bool {
        self.bib matches Some(b) ==> b.wf()
    }

    /// A window with no file open.
    pub fn new() -> (res: Window)
        ensures
            res.bib is None,
            res.undo_entry is None,
            !res.force_close,
            !res.file_actions_enabled(),
            res.wf(),
    {
        Window { bib: None, undo_entry: None, force_close: false }
    }

    /// The actions on an open bibliography (new entry, save, delete entry)
    /// are enabled: exactly when a file is open.
    pub open spec fn file_actions_enabled(&self) -> bool {
        self.bib is Some
    }

    /// Whether the actions on an open bibliography are enabled.
    pub fn actions_enabled(&self) -> (res: bool)
        ensures
            res == self.file_actions_enabled(),
    {
        self.bib.is_some()
    }

    /// Opens the BibTeX text of a file in a window that has none open yet,
    /// given the list of recent files and the file's path, when it has one.
    /// On success the bibliography holds the text's entries and is
    /// unmodified, the actions on it are enabled, and the result is the new
    /// list of recent files: the path appended when it is not already there.
    /// On failure nothing is open and the list is not to change.
    pub fn open(&mut self, data: &str, recent_files: &Vec<String>, path: Option<&str>) -> (res:
        Result<Vec<String>, Error>)
        requires
            old(self).bib is None,
        ensures
            final(self).wf(),
            final(self).undo_entry == old(self).undo_entry,
            final(self).force_close == old(self).force_close,
            res is Ok <==> (text_entries(data@) matches Some(v) && v.len() <= u32::MAX),
            res is Err ==> final(self).bib is None && !final(self).file_actions_enabled(),
            res is Ok ==> (final(self).bib matches Some(b) && !b@.modified && ({
                let v = text_entries(data@)->0;
                &&& b@.entries.len() == v.len()
                &&& forall|i: int|
                    0 <= i < v.len() ==> matches_model(#[trigger] b@.entries[i], v[i])
            })),
            res is Ok ==> final(self).file_actions_enabled(),
            res matches Ok(files) ==> files@.map_values(|s: String| s@) == match path {
                Some(p) => with_recent_file(recent_files@.map_values(|s: String| s@), p@),
                None => recent_files@.map_values(|s: String| s@),
            },
    {
        let mut bib = Bib::default();
        match bib.parse(data) {
            Ok(()) => {
                self.bib = Some(bib);
                let files = match path {
                    Some(p) => add_recent_file(recent_files, p),
                    None => recent_files.clone(),
                };
                Ok(files)
            },
            Err(e) => Err(e),
        }
    }

    /// Adds the first entry of a BibTeX text, unless its citation key is
    /// taken.
    pub fn new_entry(&mut self, data: &str) -> (res: Result<NewEntryOutcome, Error>)
        requires
            old(self).wf(),
            old(self).bib matches Some(b) && b@.entries.len() < u32::MAX,
        ensures
            final(self).wf(),
            final(self).bib is Some,
            final(self).undo_entry == old(self).undo_entry,
            final(self).force_close == old(self).force_close,
            res is Ok <==> (text_entries(data@) matches Some(v) && v.len() > 0),
            ({
                let b0 = old(self).bib->0@;
                let b1 = final(self).bib->0@;
                match res {
                    Ok(NewEntryOutcome::Added(pos)) => exists|e: EntryView|
                        matches_model(e, text_entries(data@)->0[0]) && !has_key(
                            b0.entries,
                            e.citation_key,
                        ) && pos == b0.entries.len() && b1.entries == b0.entries.push(e)
                            && b1.modified,
                    Ok(NewEntryOutcome::KeyExists) => exists|e: EntryView|
                        matches_model(e, text_entries(data@)->0[0]) && has_key(
                            b0.entries,
                            e.citation_key,
                        ) && b1 == b0,
                    Err(_) => b1 == b0,
                }
            }),
    {
        let entry = Entry::from_bibtex(data)?;
        let citation_key = entry.citation_key();
        let mut bib = self.bib.take().unwrap();
        let outcome = if bib.key_exists(citation_key.as_str()) {
            NewEntryOutcome::KeyExists
        } else {
            let pos = bib.add_entry(entry);
            NewEntryOutcome::Added(pos)
        };
        self.bib = Some(bib);
        Ok(outcome)
    }

    /// Deletes the entry with the citation key of `entry` and keeps `entry`
    /// and its position for a restore; gives the position, or nothing when
    /// no entry has that key.
    pub fn delete_entry(&mut self, entry: &Entry) -> (res: Option<u32>)
        requires
            old(self).wf(),
            old(self).bib is Some,
            entry.wf(),
        ensures
            final(self).wf(),
            final(self).bib is Some,
            final(self).force_close == old(self).force_close,
            ({
                let b0 = old(self).bib->0@;
                let b1 = final(self).bib->0@;
                match res {
                    Some(pos) => {
                        &&& first_with_key(b0.entries, entry@.citation_key, pos as int)
                        &&& b1.entries == b0.entries.remove(pos as int)
                        &&& b1.modified
                        &&& final(self).undo_entry matches Some(u) && u.0@ == entry@ && u.1
                            == pos && u.0.wf()
                    },
                    None => {
                        &&& !has_key(b0.entries, entry@.citation_key)
                        &&& b1 == b0
                        &&& final(self).undo_entry == old(self).undo_entry
                    },
                }
            }),
    {
        let mut bib = self.bib.take().unwrap();
        let res = match bib.find_pos(entry) {
            Some(pos) => {
                self.undo_entry = Some((entry.clone(), pos));
                bib.remove_pos(pos);
                Some(pos)
            },
            None => None,
        };
        self.bib = Some(bib);
        res
    }

    /// Puts the last deleted entry back where it was; nothing happens when
    /// there is none to restore.
    pub fn undo_delete(&mut self)
        requires
            old(self).wf(),
            old(self).bib matches Some(b) && b@.entries.len() < u32::MAX,
            old(self).undo_entry matches Some(u) ==> u.0.wf(),
        ensures
            final(self).wf(),
            final(self).bib is Some,
            final(self).undo_entry is None,
            final(self).force_close == old(self).force_close,
            old(self).undo_entry matches Some(u) ==> final(self).bib->0@.entries == insert_clamped(
                old(self).bib->0@.entries,
                u.1 as int,
                u.0@,
            ) && final(self).bib->0@.modified,
            old(self).undo_entry is None ==> final(self).bib == old(self).bib,
    {
        if let Some((entry, pos)) = self.undo_entry.take() {
            let mut bib = self.bib.take().unwrap();
            bib.add_entry_at_pos(entry, pos);
            self.bib = Some(bib);
        }
    }

    /// The restore is no longer offered.
    pub fn dismiss_undo(&mut self)
        ensures
            final(self).bib == old(self).bib,
            final(self).undo_entry is None,
            final(self).force_close == old(self).force_close,
    {
        self.undo_entry = None;
    }

    /// Whether closing the window must first ask about unsaved changes.
    pub fn close_request(&self) -> (ask: bool)
        ensures
            ask == (self.bib matches Some(b) && b@.modified && !self.force_close),
    {
        match &self.bib {
            Some(bib) => bib.modified() && !self.force_close,
            None => false,
        }
    }

    /// The window closes without asking.
    pub fn force_close(&mut self)
        ensures
            final(self).bib == old(self).bib,
            final(self).undo_entry == old(self).undo_entry,
            final(self).force_close,
    {
        self.force_close = true;
    }

    /// The text to write when saving.
    pub fn save(&self) -> (res: String)
        requires
            self.bib is Some,
        ensures
            res@ == serialize_bib(self.bib->0@.entries),
    {
        match &self.bib {
            Some(bib) => bib.serialize(),
            None => String::new(),
        }
    }

    /// The bibliography was written; it is no longer modified.
    pub fn mark_saved(&mut self)
        requires
            old(self).bib is Some,
        ensures
            final(self).bib is Some,
            final(self).bib->0@.entries == old(self).bib->0@.entries,
            !final(self).bib->0@.modified,
            final(self).wf() == old(self).wf(),
            final(self).undo_entry == old(self).undo_entry,
            final(self).force_close == old(self).force_close,
    {
        let mut bib = self.bib.take().unwrap();
        bib.set_modified(false);
        self.bib = Some(bib);
    }

    /// The Google Scholar search for the selected entry, its authors and
    /// title converted from LaTeX.
    pub fn search_google_schoolar_entry(&self, entry: Option<&Entry>) -> (res: Result<String, Error>)
        ensures
            entry is None ==> (res matches Err(e) && e is NoEntrySelected),
            entry matches Some(e) ==> ({
                let address = scholar_address(
                    texer_spec(tag_or_empty(e@.tags, "author"@)),
                    texer_spec(tag_or_empty(e@.tags, "title"@)),
                );
                &&& (res is Ok <==> url_parse(address) is Some)
                &&& (res matches Ok(s) ==> url_parse(address) == Some(s@))
            }),
    {
        let entry = match entry {
            Some(e) => e,
            None => {
                return Err(Error::NoEntrySelected);
            },
        };
        let author = entry.author();
        let title = entry.title();
        let p_author = texer(author.as_str());
        let p_title = texer(title.as_str());
        build_google_schoolar_url(p_author.as_str(), p_title.as_str())
    }

    /// The arXiv search for the selected entry, its authors and title
    /// converted from LaTeX.
    pub fn search_arxiv_entry(&self, entry: Option<&Entry>) -> (res: Result<String, Error>)
        ensures
            entry is None ==> (res matches Err(e) && e is NoEntrySelected),
            entry matches Some(e) ==> ({
                let address = arxiv_address(
                    texer_spec(tag_or_empty(e@.tags, "author"@)),
                    texer_spec(tag_or_empty(e@.tags, "title"@)),
                );
                &&& (res is Ok <==> url_parse(address) is Some)
                &&& (res matches Ok(s) ==> url_parse(address) == Some(s@))
            }),
    {
        let entry = match entry {
            Some(e) => e,
            None => {
                return Err(Error::NoEntrySelected);
            },
        };
        let author = entry.author();
        let title = entry.title();
        let p_author = texer(author.as_str());
        let p_title = texer(title.as_str());
        build_arxiv_url(p_author.as_str(), p_title.as_str())
    }
}

/// Deleting the entry at a position and then restoring it gives back the
/// entries as they were: `deleted` and `restored` are the entries as
/// `delete_entry` and `undo_delete` leave them.
pub proof fn lemma_delete_then_undo(
    entries: Seq<EntryView>,
    pos: int,
    deleted: Seq<EntryView>,
    restored: Seq<EntryView>,
)
    requires
        0 <= pos < entries.len(),
        deleted == entries.remove(pos),
        restored == insert_clamped(deleted, pos, entries[pos]),
    ensures
        restored == entries,
{
    crate::bib::lemma_remove_then_insert(entries, pos);
}

} // verus!
