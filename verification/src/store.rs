//! The record store: the entries in the order of their identifiers, and the
//! last identifier that was handed out.

use crate::error::{ErrorView, StorageOp, TodoError};
use crate::item::{item_views, row_views, ItemView, RowView, StoredRow, TodoItem};
use crate::text::{decimal, decimal_string, is_blank, trim, trimmed};
use vstd::prelude::*;
use vstd::string::*;

verus! {

/// Whether the identifiers grow strictly along `items`.
pub open spec fn ascending(items: Seq<ItemView>) -> bool {
    forall|i: int, j: int|
        0 <= i < j < items.len() ==> (#[trigger] items[i]).id < (#[trigger] items[j]).id
}

/// The store as mathematical values.
pub struct StoreView {
    /// The entries, in the order in which they are listed.
    pub items: Seq<ItemView>,
    /// The largest identifier handed out so far; 0 before the first.
    pub last_id: int,
}

impl StoreView {
    /// The store before anything was added.
    pub open spec fn fresh() -> StoreView {
        StoreView { items: Seq::empty(), last_id: 0 }
    }

    /// Identifiers grow along the list, none is above `last_id`, and no text
    /// is empty.
    pub open spec fn wf(self) -> bool {
        &&& ascending(self.items)
        &&& forall|i: int|
            0 <= i < self.items.len() ==> (#[trigger] self.items[i]).id <= self.last_id
        &&& forall|i: int| 0 <= i < self.items.len() ==> (#[trigger] self.items[i]).text.len() > 0
    }

    /// Whether an entry has the identifier `id`.
    pub open spec fn has_id(self, id: int) -> bool {
        exists|i: int| 0 <= i < self.items.len() && (#[trigger] self.items[i]).id == id
    }

    /// The store with a new pending entry for `text` at its end, under the
    /// next identifier.
    pub open spec fn inserted(self, text: Seq<char>) -> StoreView {
        StoreView {
            items: self.items.push(ItemView { id: self.last_id + 1, text, done: false }),
            last_id: self.last_id + 1,
        }
    }

    /// The store with the flag of entry `id` set to `done`.
    pub open spec fn marked(self, id: int, done: bool) -> StoreView {
        StoreView {
            items: self.items.map_values(
                |item: ItemView|
                    if item.id == id {
                        ItemView { done, ..item }
                    } else {
                        item
                    },
            ),
            last_id: self.last_id,
        }
    }

    /// Whether an entry has the identifier `id` and the flag `done`.
    pub open spec fn has_flag(self, id: int, done: bool) -> bool {
        exists|i: int|
            0 <= i < self.items.len() && (#[trigger] self.items[i]).id == id && self.items[i].done
                == done
    }

    /// The store without entry `id`.
    pub open spec fn removed(self, id: int) -> StoreView {
        StoreView {
            items: self.items.filter(|item: ItemView| item.id != id),
            last_id: self.last_id,
        }
    }

    /// The store without any entry. The identifiers handed out so far stay
    /// used.
    pub open spec fn cleared(self) -> StoreView {
        StoreView { items: Seq::empty(), last_id: self.last_id }
    }
}

/// One operation on the store.
pub enum Operation {
    /// Add an entry with this text.
    Insert { text: Seq<char> },
    /// Set the flag of an entry.
    SetDone { id: int, value: bool },
    /// Remove an entry.
    Delete { id: int },
    /// Remove every entry.
    DeleteAll,
}

/// Whether the store `s` takes an insertion of `text`: the text is not blank
/// and an identifier is left.
pub open spec fn accepts(s: StoreView, text: Seq<char>) -> bool {
    !is_blank(text) && s.last_id < i32::MAX
}

/// The store after `op`. An operation that is refused leaves the store as it
/// is.
pub open spec fn step(s: StoreView, op: Operation) -> StoreView {
    match op {
        Operation::Insert { text } => if accepts(s, text) {
            s.inserted(trimmed(text))
        } else {
            s
        },
        Operation::SetDone { id, value } => if s.has_id(id) {
            s.marked(id, value)
        } else {
            s
        },
        Operation::Delete { id } => if s.has_id(id) {
            s.removed(id)
        } else {
            s
        },
        Operation::DeleteAll => s.cleared(),
    }
}

impl StoreView {
    /// After the flag of an entry was set, the entry has it.
    pub proof fn lemma_marked_has_flag(self, id: int, done: bool)
        requires
            self.has_id(id),
        ensures
            self.marked(id, done).has_flag(id, done),
    {
        let k = choose|k: int| 0 <= k < self.items.len() && (#[trigger] self.items[k]).id == id;
        assert(self.marked(id, done).items[k].id == id);
    }

    /// After an entry was removed, no entry has its identifier.
    pub proof fn lemma_removed_lacks_id(self, id: int)
        ensures
            !self.removed(id).has_id(id),
    {
        let keep = |item: ItemView| item.id != id;
        let rest = self.items.filter(keep);
        assert forall|i: int| 0 <= i < rest.len() implies (#[trigger] rest[i]).id != id by {
            self.items.lemma_filter_pred(keep, i);
        }
    }
}

/// Row `k` can follow the rows before it: its text is not empty and its
/// identifier is larger than that of row `k - 1`.
pub open spec fn row_fits(rows: Seq<RowView>, k: int) -> bool {
    &&& rows[k].item.len() > 0
    &&& k > 0 ==> rows[k - 1].id < rows[k].id
}

/// The store that `rows` and the stored `sequence` stand for: one entry per
/// row, and as last identifier the larger of `sequence` and the identifier of
/// the last row.
pub open spec fn loaded(rows: Seq<RowView>, sequence: int) -> StoreView {
    StoreView {
        items: rows.map_values(|row: RowView| row.item()),
        last_id: if rows.len() > 0 && rows.last().id > sequence {
            rows.last().id
        } else {
            sequence
        },
    }
}

/// The detail of the error for a row that does not fit.
pub open spec fn misfit_detail(id: int) -> Seq<char> {
    "invalid record "@ + decimal(id)
}

/// The detail of the error for an insertion when every identifier is used.
pub open spec fn exhausted_detail() -> Seq<char> {
    "no identifier is left"@
}

/// A filter that every element passes keeps the sequence.
pub proof fn lemma_filter_keeps_all<A>(s: Seq<A>, pred: spec_fn(A) -> bool)
    requires
        forall|i: int| 0 <= i < s.len() ==> pred(#[trigger] s[i]),
    ensures
        s.filter(pred) == s,
    decreases s.len(),
{
    reveal(Seq::filter);
    if s.len() > 0 {
        lemma_filter_keeps_all(s.drop_last(), pred);
    }
}

/// A filter that only the element at `k` fails removes that element.
pub proof fn lemma_filter_drops_one<A>(s: Seq<A>, pred: spec_fn(A) -> bool, k: int)
    requires
        0 <= k < s.len(),
        forall|i: int| 0 <= i < s.len() ==> (pred(#[trigger] s[i]) <==> i != k),
    ensures
        s.filter(pred) == s.remove(k),
    decreases s.len(),
{
    reveal(Seq::filter);
    let front = s.drop_last();
    if k == s.len() - 1 {
        lemma_filter_keeps_all(front, pred);
    } else {
        lemma_filter_drops_one(front, pred, k);
    }
}

/// The record store.
pub struct Store {
    items: Vec<TodoItem>,
    last_id: i32,
}

impl View for Store {
    type V = StoreView;

    closed spec fn view(&self) -> StoreView {
        StoreView { items: item_views(self.items@), last_id: self.last_id as int }
    }
}

impl Store {
    /// The invariant of the store.
    pub open spec fn wf(&self) -> bool {
        self@.wf()
    }

    /// A store without entries, from which no identifier was handed out yet.
    pub fn new() -> (store: Store)
        ensures
            store@ == StoreView::fresh(),
            store.wf(),
    {
        let store = Store { items: Vec::new(), last_id: 0 };
        assert(store@.items =~= Seq::empty());
        store
    }

    /// Builds the store from the rows of the table, in the order in which
    /// they were read, and from the stored sequence number. Fails at the first
    /// row that does not fit.
    pub fn from_rows(rows: Vec<StoredRow>, sequence: i32) -> (result: Result<Store, TodoError>)
        ensures
            match result {
                Ok(store) => {
                    &&& forall|k: int| 0 <= k < rows.len() ==> row_fits(row_views(rows@), k)
                    &&& store@ == loaded(row_views(rows@), sequence as int)
                    &&& store.wf()
                },
                Err(error) => exists|k: int|
                    {
                        &&& 0 <= k < rows.len()
                        &&& forall|j: int| 0 <= j < k ==> row_fits(row_views(rows@), j)
                        &&& !#[trigger] row_fits(row_views(rows@), k)
                        &&& error@ == (ErrorView::Storage {
                            op: StorageOp::Load,
                            detail: misfit_detail(rows[k].id as int),
                        })
                    },
            },
    {
        let ghost views = row_views(rows@);
        let mut items: Vec<TodoItem> = Vec::new();
        let mut last_id: i32 = sequence;
        let mut k: usize = 0;
        while k < rows.len()
            invariant
                views == row_views(rows@),
                k <= rows.len(),
                items.len() == k,
                forall|j: int| 0 <= j < k ==> row_fits(views, j),
                forall|j: int| 0 <= j < k ==> (#[trigger] items[j])@ == views[j].item(),
                last_id == if k > 0 && views[k - 1].id > sequence {
                    views[k - 1].id
                } else {
                    sequence as int
                },
            decreases rows.len() - k,
        {
            let row = &rows[k];
            let empty = row.item.as_str().is_empty();
            let misplaced = k > 0 && rows[k - 1].id >= row.id;
            if empty || misplaced {
                let mut detail = String::from_str("invalid record ");
                detail.append(decimal_string(row.id).as_str());
                assert(!row_fits(views, k as int));
                return Err(TodoError::Storage { op: StorageOp::Load, detail });
            }
            items.push(TodoItem { id: row.id, text: row.item.clone(), done: row.done == 1 });
            if row.id > last_id {
                last_id = row.id;
            }
            k = k + 1;
        }
        let store = Store { items, last_id };
        proof {
            let target = loaded(views, sequence as int);
            assert(store@.items =~= target.items);
            lemma_rows_ascend(views);
            assert forall|i: int| 0 <= i < target.items.len() implies (
            #[trigger] target.items[i]).id <= target.last_id && target.items[i].text.len() > 0 by {
                assert(row_fits(views, i));
            }
        }
        Ok(store)
    }

    /// Every entry, in the order of the identifiers.
    pub fn list_all(&self) -> (items: Vec<TodoItem>)
        ensures
            item_views(items@) == self@.items,
            self.wf() ==> ascending(item_views(items@)),
    {
        let mut items: Vec<TodoItem> = Vec::new();
        let mut k: usize = 0;
        while k < self.items.len()
            invariant
                k <= self.items.len(),
                items.len() == k,
                forall|j: int| 0 <= j < k ==> (#[trigger] items[j])@ == self.items[j]@,
            decreases self.items.len() - k,
        {
            items.push(self.items[k].clone());
            k = k + 1;
        }
        assert(item_views(items@) =~= self@.items);
        items
    }

    /// The number of entries.
    pub fn len(&self) -> (n: usize)
        ensures
            n == self@.items.len(),
    {
        self.items.len()
    }

    /// The largest identifier handed out so far.
    pub fn last_id(&self) -> (id: i32)
        ensures
            id == self@.last_id,
    {
        self.last_id
    }

    /// Adds a pending entry for the trimmed `text` and returns its
    /// identifier, which is one above the last. Blank text is rejected, and
    /// so is an insertion when the identifiers are used up; neither changes
    /// the store.
    pub fn insert(&mut self, text: &str) -> (result: Result<i32, TodoError>)
        requires
            old(self).wf(),
        ensures
            final(self).wf(),
            final(self)@ == step(old(self)@, Operation::Insert { text: text@ }),
            accepts(old(self)@, text@) ==> result is Ok,
            match result {
                Ok(id) => {
                    &&& !is_blank(text@)
                    &&& id == old(self)@.last_id + 1
                    &&& final(self)@ == old(self)@.inserted(trimmed(text@))
                },
                Err(error) => {
                    &&& final(self)@ == old(self)@
                    &&& error@ == if is_blank(text@) {
                        ErrorView::Validation
                    } else {
                        ErrorView::Storage { op: StorageOp::Insert, detail: exhausted_detail() }
                    }
                },
            },
    {
        let kept = trim(text);
        if kept.is_empty() {
            return Err(TodoError::Validation);
        }
        if self.last_id == i32::MAX {
            let detail = String::from_str("no identifier is left");
            return Err(TodoError::Storage { op: StorageOp::Insert, detail });
        }
        let id: i32 = self.last_id + 1;
        self.items.push(TodoItem { id, text: String::from_str(kept), done: false });
        self.last_id = id;
        assert(final(self)@.items =~= old(self)@.inserted(trimmed(text@)).items);
        Ok(id)
    }

    /// Where the entry `id` stands in the list, if there is one.
    fn position(&self, id: i32) -> (found: Option<usize>)
        ensures
            match found {
                Some(k) => k < self.items.len() && self.items[k as int].id == id,
                None => !self@.has_id(id as int),
            },
    {
        let mut k: usize = 0;
        while k < self.items.len()
            invariant
                k <= self.items.len(),
                forall|j: int| 0 <= j < k ==> (#[trigger] self.items[j]).id != id,
            decreases self.items.len() - k,
        {
            if self.items[k].id == id {
                return Some(k);
            }
            k = k + 1;
        }
        None
    }

    /// Sets the flag of entry `id` to `value`. Where no entry has that
    /// identifier the store stays as it is.
    pub fn set_done(&mut self, id: i32, value: bool) -> (result: Result<(), TodoError>)
        requires
            old(self).wf(),
        ensures
            final(self).wf(),
            final(self)@ == step(old(self)@, Operation::SetDone { id: id as int, value }),
            old(self)@.has_id(id as int) ==> result is Ok && final(self)@ == old(self)@.marked(
                id as int,
                value,
            ),
            !old(self)@.has_id(id as int) ==> result == Err::<(), TodoError>(
                TodoError::NotFound { id },
            ) && final(self)@ == old(self)@,
    {
        match self.position(id) {
            Some(k) => {
                let text = self.items[k].text.clone();
                self.items.set(k, TodoItem { id, text, done: value });
                proof {
                    let before = old(self)@;
                    let after = final(self)@;
                    assert(before.items[k as int] == old(self).items[k as int]@);
                    assert(after.items =~= before.marked(id as int, value).items);
                }
                Ok(())
            },
            None => Err(TodoError::NotFound { id }),
        }
    }

    /// Removes entry `id`. Where no entry has that identifier the store stays
    /// as it is.
    pub fn delete(&mut self, id: i32) -> (result: Result<(), TodoError>)
        requires
            old(self).wf(),
        ensures
            final(self).wf(),
            final(self)@ == step(old(self)@, Operation::Delete { id: id as int }),
            old(self)@.has_id(id as int) ==> result is Ok && final(self)@ == old(self)@.removed(
                id as int,
            ),
            !old(self)@.has_id(id as int) ==> result == Err::<(), TodoError>(
                TodoError::NotFound { id },
            ) && final(self)@ == old(self)@,
    {
        match self.position(id) {
            Some(k) => {
                self.items.remove(k);
                proof {
                    let before = old(self)@;
                    let after = final(self)@;
                    let keep = |item: ItemView| item.id != id as int;
                    assert(before.items[k as int] == old(self).items[k as int]@);
                    lemma_filter_drops_one(before.items, keep, k as int);
                    assert(after.items =~= before.items.remove(k as int));
                }
                Ok(())
            },
            None => Err(TodoError::NotFound { id }),
        }
    }

    /// Removes every entry. The identifiers handed out so far stay used.
    pub fn delete_all(&mut self)
        ensures
            final(self)@ == old(self)@.cleared(),
            final(self)@ == step(old(self)@, Operation::DeleteAll),
            final(self).wf(),
    {
        self.items.clear();
        assert(final(self)@.items =~= Seq::empty());
    }
}

/// Rows that each fit after the one before have identifiers that grow along
/// the whole sequence.
pub proof fn lemma_rows_ascend(rows: Seq<RowView>)
    requires
        forall|k: int| 0 <= k < rows.len() ==> row_fits(rows, k),
    ensures
        forall|i: int, j: int| 0 <= i < j < rows.len() ==> (#[trigger] rows[i]).id < (
        #[trigger] rows[j]).id,
    decreases rows.len(),
{
    if rows.len() > 0 {
        let front = rows.drop_last();
        assert forall|k: int| 0 <= k < front.len() implies row_fits(front, k) by {
            assert(row_fits(rows, k));
        }
        lemma_rows_ascend(front);
        assert forall|i: int, j: int| 0 <= i < j < rows.len() implies (#[trigger] rows[i]).id < (
        #[trigger] rows[j]).id by {
            if j == rows.len() - 1 {
                assert(row_fits(rows, j));
                if i < j - 1 {
                    assert(front[i].id < front[j - 1].id);
                }
            } else {
                assert(front[i].id < front[j].id);
            }
        }
    }
}

} // verus!
