//! The single selection of the entry list: which item is selected, where
//! it is in the list, whether the selection is shown, and how it follows
//! the list as items are added and removed. Items are known by an
//! identifier.
use vstd::prelude::*;

verus! {

/// The position that stands for "no position".
pub const INVALID_LIST_POSITION: u32 = 0xffff_ffff;

/// The selection of a list whose items are known by identifiers.
#[derive(Debug)]
pub struct Selection {
    /// The selected item.
    pub item: Option<u64>,
    /// Where the selected item is, or `INVALID_LIST_POSITION`.
    pub item_position: u32,
    /// Whether the selection is hidden.
    pub hide_selection: bool,
}

/// The first position in `start..end` holding `item`, or
/// `INVALID_LIST_POSITION`; positions past the end of the list hold
/// nothing.
pub open spec fn find_position(model: Seq<u64>, item: u64, start: int, end: int) -> int
    decreases end - start,
{
    if start >= end {
        INVALID_LIST_POSITION as int
    } else if start < model.len() && model[start] == item {
        start
    } else {
        find_position(model, item, start + 1, end)
    }
}

proof fn lemma_find_position(model: Seq<u64>, item: u64, start: int, end: int)
    requires
        0 <= start,
        end <= INVALID_LIST_POSITION,
    ensures
        find_position(model, item, start, end) == INVALID_LIST_POSITION as int || (start
            <= find_position(model, item, start, end) < end && find_position(
            model,
            item,
            start,
            end,
        ) < model.len() && model[find_position(model, item, start, end)] == item),
    decreases end - start,
{
    if start < end && !(start < model.len() && model[start] == item) {
        lemma_find_position(model, item, start + 1, end);
    }
}

/// Where the selected item is after `removed` items at `position` were
/// replaced by `added` items: unchanged before the change, searched among
/// the added items when it was among the removed ones (or was nowhere),
/// shifted after the change.
pub open spec fn moved_position(
    item_position: int,
    item: u64,
    model: Seq<u64>,
    position: int,
    removed: int,
    added: int,
) -> int {
    if item_position == INVALID_LIST_POSITION as int {
        find_position(model, item, position, position + added)
    } else if item_position < position {
        item_position
    } else if item_position < position + removed {
        find_position(model, item, position, position + added)
    } else if item_position + added >= removed {
        item_position + added - removed
    } else {
        0
    }
}

/// The selection tracks its item in `model`: when there is a position,
/// that is where the item is.
pub open spec fn tracks(item: Option<u64>, item_position: int, model: Seq<u64>) -> bool {
    item_position != INVALID_LIST_POSITION as int ==> (0 <= item_position < model.len() && (
    item matches Some(x) && model[item_position] == x))
}

/// The range of positions whose selected state changes when the selection
/// moves from `old_position` to `position`.
pub open spec fn changed_range(old_position: int, position: int) -> (int, int) {
    if old_position == INVALID_LIST_POSITION as int {
        (position, 1)
    } else if position == INVALID_LIST_POSITION as int {
        (old_position, 1)
    } else if position < old_position {
        (position, old_position - position + 1)
    } else {
        (old_position, position - old_position + 1)
    }
}

fn find_item_position(model: &Vec<u64>, item: u64, start_pos: u32, end_pos: u32) -> (res: u32)
    ensures
        res == find_position(model@, item, start_pos as int, end_pos as int),
{
    let mut pos = start_pos;
    while pos < end_pos
        invariant
            start_pos <= pos <= end_pos || (start_pos > end_pos && pos == start_pos),
            find_position(model@, item, pos as int, end_pos as int) == find_position(
                model@,
                item,
                start_pos as int,
                end_pos as int,
            ),
        decreases end_pos - pos,
    {
        if (pos as usize) < model.len() && model[pos as usize] == item {
            return pos;
        }
        pos = pos + 1;
    }
    INVALID_LIST_POSITION
}

impl Selection {
    /// No item selected, selection shown.
    pub fn new() -> (res: Selection)
        ensures
            res.item is None,
            res.item_position == INVALID_LIST_POSITION,
            !res.hide_selection,
    {
        Selection { item: None, item_position: INVALID_LIST_POSITION, hide_selection: false }
    }

    /// Whether the item at `position` is shown as selected.
    pub open spec fn spec_is_selected(&self, position: u32) -> bool {
        !self.hide_selection && self.item_position != INVALID_LIST_POSITION && position
            == self.item_position
    }

    /// Whether the item at `position` is shown as selected.
    pub fn is_selected(&self, position: u32) -> (res: bool)
        ensures
            res == self.spec_is_selected(position),
    {
        let item_position = self.item_position;
        if self.hide_selection || item_position == INVALID_LIST_POSITION {
            return false;
        }
        position == item_position
    }

    /// The selected position, if it is shown.
    pub fn selection_in_range(&self) -> (res: Option<u32>)
        ensures
            res matches Some(p) ==> p == self.item_position && !self.hide_selection
                && p != INVALID_LIST_POSITION,
            res is None ==> self.hide_selection || self.item_position == INVALID_LIST_POSITION,
    {
        if !self.hide_selection && self.item_position != INVALID_LIST_POSITION {
            Some(self.item_position)
        } else {
            None
        }
    }

    /// The position of the selected item.
    pub fn selected_item_pos(&self) -> (res: u32)
        ensures
            res == self.item_position,
    {
        self.item_position
    }

    /// The selected item.
    pub fn selected_item(&self) -> (res: Option<u64>)
        ensures
            res == self.item,
    {
        self.item
    }

    /// Whether the selection is hidden.
    pub fn hide_selection(&self) -> (res: bool)
        ensures
            res == self.hide_selection,
    {
        self.hide_selection
    }

    /// Follows the list `model` after `removed` items at `position` were
    /// replaced by `added` items (see `moved_position`).
    pub fn model_items_changed(&mut self, model: &Vec<u64>, position: u32, removed: u32, added: u32)
        requires
            model.len() <= u32::MAX,
            position + added <= model.len(),
            model.len() + removed <= INVALID_LIST_POSITION,
            old(self).item is Some ==> (old(self).item_position == INVALID_LIST_POSITION || old(
                self,
            ).item_position < model.len() - added + removed),
        ensures
            final(self).item == old(self).item,
            final(self).hide_selection == old(self).hide_selection,
            old(self).item is None ==> final(self).item_position == old(self).item_position,
            old(self).item matches Some(x) ==> final(self).item_position == moved_position(
                old(self).item_position as int,
                x,
                model@,
                position as int,
                removed as int,
                added as int,
            ),
    {
        let item_position = self.item_position;
        if let Some(selected_item) = self.item {
            if item_position == INVALID_LIST_POSITION {
                self.item_position = find_item_position(
                    model,
                    selected_item,
                    position,
                    position + added,
                );
            } else if item_position < position {
            } else if (item_position as u64) < (position as u64) + (removed as u64) {
                self.item_position = find_item_position(
                    model,
                    selected_item,
                    position,
                    position + added,
                );
            } else if item_position + added >= removed {
                self.item_position = item_position + added - removed;
            } else {
                self.item_position = 0;
            }
        }
    }

    /// Selects `item` at `position`; gives the range of positions whose
    /// selected state changes, when the selection is shown.
    pub fn set_selected_item_internal(&mut self, item: Option<u64>, position: u32) -> (res: Option<
        (u32, u32),
    >)
        ensures
            final(self).item == item,
            final(self).item_position == position,
            final(self).hide_selection == old(self).hide_selection,
            old(self).hide_selection ==> res is None,
            !old(self).hide_selection ==> (res matches Some(r) && (r.0 as int, r.1 as int)
                == changed_range(old(self).item_position as int, position as int)),
    {
        self.item = item;
        let old_position = self.item_position;
        self.item_position = position;
        if !self.hide_selection {
            if old_position == INVALID_LIST_POSITION {
                Some((position, 1))
            } else if position == INVALID_LIST_POSITION {
                Some((old_position, 1))
            } else if position < old_position {
                Some((position, old_position - position + 1))
            } else {
                Some((old_position, position - old_position + 1))
            }
        } else {
            None
        }
    }

    /// Selects `selected_item`, found in `model` (or nothing); nothing
    /// happens when it is already the selected item.
    pub fn set_selected_item(&mut self, model: &Vec<u64>, selected_item: Option<u64>) -> (res:
        Option<(u32, u32)>)
        requires
            model.len() <= u32::MAX,
        ensures
            selected_item == old(self).item ==> *final(self) == *old(self) && res is None,
            selected_item != old(self).item ==> {
                &&& final(self).item == selected_item
                &&& final(self).hide_selection == old(self).hide_selection
                &&& final(self).item_position == match selected_item {
                    Some(x) => find_position(model@, x, 0, model.len() as int),
                    None => INVALID_LIST_POSITION as int,
                }
            },
    {
        if selected_item != self.item {
            let position = match selected_item {
                Some(i) => find_item_position(model, i, 0, model.len() as u32),
                None => INVALID_LIST_POSITION,
            };
            self.set_selected_item_internal(selected_item, position)
        } else {
            None
        }
    }

    /// Selects whatever is at `position` in `model` (nothing past the end).
    pub fn set_selected_position(&mut self, model: &Vec<u64>, position: u32) -> (res: Option<
        (u32, u32),
    >)
        ensures
            final(self).item == (if (position as int) < model.len() {
                Some(model@[position as int])
            } else {
                None::<u64>
            }),
            final(self).item_position == position,
            final(self).hide_selection == old(self).hide_selection,
    {
        let item = if (position as usize) < model.len() {
            Some(model[position as usize])
        } else {
            None
        };
        self.set_selected_item_internal(item, position)
    }

    /// Shows or hides the selection; gives whether that changed and the
    /// position whose shown state changed.
    pub fn set_hide_selection(&mut self, hide_selection: bool) -> (res: (bool, Option<u32>))
        ensures
            final(self).hide_selection == hide_selection,
            final(self).item == old(self).item,
            final(self).item_position == old(self).item_position,
            res.0 == (hide_selection != old(self).hide_selection),
            res.1 == (if res.0 && old(self).item_position != INVALID_LIST_POSITION {
                Some(old(self).item_position)
            } else {
                None::<u32>
            }),
    {
        if hide_selection != self.hide_selection {
            self.hide_selection = hide_selection;
            let item_position = self.item_position;
            if item_position != INVALID_LIST_POSITION {
                (true, Some(item_position))
            } else {
                (true, None)
            }
        } else {
            (false, None)
        }
    }
}

/// A selection that tracks its item keeps tracking it through any change of
/// the list, at the position that `model_items_changed` gives it: the
/// position moved as `moved_position` says for a selected item, and left as
/// it is when nothing is selected. `new_model` is `old_model` with `removed`
/// items at `position` replaced by `added` items.
pub proof fn lemma_items_changed_tracks(
    old_model: Seq<u64>,
    new_model: Seq<u64>,
    item: Option<u64>,
    item_position: int,
    position: int,
    removed: int,
    added: int,
)
    requires
        0 <= position,
        0 <= removed,
        0 <= added,
        position + removed <= old_model.len(),
        new_model.len() == old_model.len() - removed + added,
        new_model.len() <= INVALID_LIST_POSITION,
        forall|i: int| 0 <= i < position ==> new_model[i] == old_model[i],
        forall|i: int|
            position + removed <= i < old_model.len() ==> new_model[i - removed + added]
                == old_model[i],
        tracks(item, item_position, old_model),
    ensures
        tracks(
            item,
            match item {
                Some(x) => moved_position(item_position, x, new_model, position, removed, added),
                None => item_position,
            },
            new_model,
        ),
{
    if let Some(x) = item {
        lemma_find_position(new_model, x, position, position + added);
    }
}

/// Selecting a position of the list selects the item there, which the
/// selection then tracks, and shows exactly that position as selected.
pub proof fn lemma_select_position(sel: Selection, model: Seq<u64>, position: u32, q: u32)
    requires
        (position as int) < model.len(),
        position != INVALID_LIST_POSITION,
        sel.item == Some(model[position as int]),
        sel.item_position == position,
        !sel.hide_selection,
    ensures
        tracks(sel.item, sel.item_position as int, model),
        sel.spec_is_selected(q) <==> q == position,
{
}

/// The position that moving down the list selects: the first item when
/// nothing is selected, else the next item if there is one.
pub open spec fn next_position(pos: u32, n_items: u32) -> Option<u32> {
    if pos == INVALID_LIST_POSITION && n_items > 0 {
        Some(0)
    } else if pos != INVALID_LIST_POSITION && pos + 1 < n_items {
        Some((pos + 1) as u32)
    } else {
        None
    }
}

/// The position that moving up the list selects: the last item when
/// nothing is selected, else the previous item if there is one. With
/// nothing selected in an empty list this is the position before the
/// "no position" value, as the position arithmetic gives it.
pub open spec fn previous_position(pos: u32, n_items: u32) -> Option<u32> {
    if pos == INVALID_LIST_POSITION && n_items > 0 {
        Some((n_items - 1) as u32)
    } else if pos > 0 {
        Some((pos - 1) as u32)
    } else {
        None
    }
}

/// The entry list: a list of entries with a single selection.
#[derive(Debug)]
pub struct EntryList {
    pub selection: Selection,
}

impl EntryList {
    /// A list with nothing selected.
    pub fn new() -> (res: EntryList)
        ensures
            res.selection.item is None,
            res.selection.item_position == INVALID_LIST_POSITION,
            !res.selection.hide_selection,
    {
        EntryList { selection: Selection::new() }
    }

    /// Shows the selection and selects `pos`; gives the position to scroll
    /// to.
    pub fn set_selected(&mut self, model: &Vec<u64>, pos: u32) -> (res: u32)
        ensures
            !final(self).selection.hide_selection,
            final(self).selection.item_position == pos,
            final(self).selection.item == (if (pos as int) < model.len() {
                Some(model@[pos as int])
            } else {
                None::<u64>
            }),
            res == pos,
    {
        self.selection.set_hide_selection(false);
        self.selection.set_selected_position(model, pos);
        pos
    }

    /// Hides the selection.
    pub fn hide_selection(&mut self)
        ensures
            final(self).selection == (Selection { hide_selection: true, ..old(self).selection }),
    {
        self.selection.set_hide_selection(true);
    }

    /// Shows the selection.
    pub fn show_selection(&mut self)
        ensures
            final(self).selection == (Selection { hide_selection: false, ..old(self).selection }),
    {
        self.selection.set_hide_selection(false);
    }

    /// Selects nothing.
    pub fn unselect(&mut self, model: &Vec<u64>)
        requires
            model.len() <= u32::MAX,
        ensures
            final(self).selection.item is None,
            final(self).selection.hide_selection == old(self).selection.hide_selection,
            old(self).selection.item is Some ==> final(self).selection.item_position
                == INVALID_LIST_POSITION,
            old(self).selection.item is None ==> final(self).selection == old(self).selection,
    {
        self.selection.set_selected_item(model, None);
    }

    /// Moves the selection down the list (see `next_position`); gives the
    /// position to scroll to.
    pub fn navigate_next(&mut self, model: &Vec<u64>) -> (res: Option<u32>)
        requires
            model.len() <= u32::MAX,
        ensures
            res == next_position(old(self).selection.item_position, model.len() as u32),
            res matches Some(p) ==> final(self).selection.item_position == p,
            res matches Some(p) ==> final(self).selection.item == (if (p as int) < model.len() {
                Some(model@[p as int])
            } else {
                None::<u64>
            }),
            res is Some ==> final(self).selection.hide_selection == old(
                self,
            ).selection.hide_selection,
            res is None ==> final(self).selection == old(self).selection,
    {
        let n_items = model.len() as u32;
        let pos = self.selection.selected_item_pos();
        if pos == INVALID_LIST_POSITION && n_items > 0 {
            self.selection.set_selected_position(model, 0);
            return Some(0);
        }
        if pos != INVALID_LIST_POSITION && pos + 1 < n_items {
            self.selection.set_selected_position(model, pos + 1);
            return Some(pos + 1);
        }
        None
    }

    /// Moves the selection up the list (see `previous_position`); gives
    /// the position to scroll to.
    pub fn navigate_previous(&mut self, model: &Vec<u64>) -> (res: Option<u32>)
        requires
            model.len() <= u32::MAX,
        ensures
            res == previous_position(old(self).selection.item_position, model.len() as u32),
            res matches Some(p) ==> final(self).selection.item_position == p,
            res matches Some(p) ==> final(self).selection.item == (if (p as int) < model.len() {
                Some(model@[p as int])
            } else {
                None::<u64>
            }),
            res is Some ==> final(self).selection.hide_selection == old(
                self,
            ).selection.hide_selection,
            res is None ==> final(self).selection == old(self).selection,
    {
        let n_items = model.len() as u32;
        let pos = self.selection.selected_item_pos();
        if pos == INVALID_LIST_POSITION && n_items > 0 {
            self.selection.set_selected_position(model, n_items - 1);
            return Some(n_items - 1);
        }
        if pos > 0 {
            self.selection.set_selected_position(model, pos - 1);
            return Some(pos - 1);
        }
        None
    }
}

/// Moving down and then up the list comes back to where the selection was.
pub proof fn lemma_next_then_previous(pos: u32, n_items: u32)
    requires
        pos != INVALID_LIST_POSITION,
        next_position(pos, n_items) is Some,
    ensures
        previous_position(next_position(pos, n_items)->0, n_items) == Some(pos),
{
}

} // verus!
