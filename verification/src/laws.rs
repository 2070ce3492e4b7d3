//! What holds of the store over any run of operations, stated over the same
//! spec functions as the contracts of the operations.

use crate::console::{item_line, listing_lines};
use crate::item::ItemView;
use crate::store::{
    accepts, lemma_filter_drops_one, lemma_filter_keeps_all, step, Operation, StoreView,
};
use crate::text::{decimal, is_blank, lemma_trimmed_is_window, trimmed};
use vstd::prelude::*;

verus! {

/// The store after the operations `ops`, carried out in order.
pub open spec fn run(s: StoreView, ops: Seq<Operation>) -> StoreView
    decreases ops.len(),
{
    if ops.len() == 0 {
        s
    } else {
        step(run(s, ops.drop_last()), ops.last())
    }
}

/// The identifiers that the insertions among `ops` hand out, in order.
pub open spec fn issued(s: StoreView, ops: Seq<Operation>) -> Seq<int>
    decreases ops.len(),
{
    if ops.len() == 0 {
        Seq::empty()
    } else {
        let before = run(s, ops.drop_last());
        let earlier = issued(s, ops.drop_last());
        match ops.last() {
            Operation::Insert { text } => if accepts(before, text) {
                earlier.push(before.last_id + 1)
            } else {
                earlier
            },
            _ => earlier,
        }
    }
}

/// Every operation keeps the invariant of the store and never lowers the last
/// identifier.
pub proof fn lemma_step_keeps_invariant(s: StoreView, op: Operation)
    requires
        s.wf(),
    ensures
        step(s, op).wf(),
        step(s, op).last_id >= s.last_id,
{
    match op {
        Operation::Insert { text } => {
            if accepts(s, text) {
                lemma_trimmed_is_window(text);
            }
        },
        Operation::SetDone { id, value } => {},
        Operation::Delete { id } => {
            if s.has_id(id) {
                lemma_removed_keeps_order(s, id);
            }
        },
        Operation::DeleteAll => {},
    }
}

/// Removing an entry keeps the others in their order.
proof fn lemma_removed_keeps_order(s: StoreView, id: int)
    requires
        s.wf(),
        s.has_id(id),
    ensures
        s.removed(id).wf(),
{
    let k = choose|k: int| 0 <= k < s.items.len() && (#[trigger] s.items[k]).id == id;
    let keep = |item: ItemView| item.id != id;
    lemma_filter_drops_one(s.items, keep, k);
    let rest = s.items.remove(k);
    assert forall|i: int| 0 <= i < rest.len() implies #[trigger] rest[i] == s.items[if i < k {
        i
    } else {
        i + 1
    }] by {}
}

/// An entry that was added is listed last, as pending, with the trimmed text
/// and under an identifier that no entry had before; the listing shows it so.
pub proof fn lemma_added_item_is_listed_pending(s: StoreView, text: Seq<char>)
    requires
        s.wf(),
        !is_blank(text),
    ensures
        ({
            let added = s.inserted(trimmed(text));
            let item = ItemView { id: s.last_id + 1, text: trimmed(text), done: false };
            &&& added.wf()
            &&& !s.has_id(item.id)
            &&& added.has_id(item.id)
            &&& added.items.last() == item
            &&& added.items.drop_last() == s.items
            &&& listing_lines(added.items).last() == decimal(item.id) + ": "@ + trimmed(text)
                + " [Pending]"@
        }),
{
    let added = s.inserted(trimmed(text));
    let item = ItemView { id: s.last_id + 1, text: trimmed(text), done: false };
    let lines = listing_lines(added.items);
    assert(lines.last() == item_line(item));
    assert(" ["@ + "Pending"@ + "]"@ =~= " [Pending]"@) by {
        reveal_strlit(" [");
        reveal_strlit("Pending");
        reveal_strlit("]");
        reveal_strlit(" [Pending]");
    }
    assert(item_line(item) =~= decimal(item.id) + ": "@ + trimmed(text) + (" ["@ + "Pending"@
        + "]"@));
}

/// Over any run of operations the store keeps its invariant, and the
/// identifiers that are handed out grow strictly: each is above the last
/// identifier of the store at the start, and so above every identifier that
/// was in use before, whether its entry is still there or was removed.
pub proof fn lemma_identifiers_are_never_reused(s: StoreView, ops: Seq<Operation>)
    requires
        s.wf(),
    ensures
        run(s, ops).wf(),
        run(s, ops).last_id >= s.last_id,
        forall|i: int| 0 <= i < issued(s, ops).len() ==> s.last_id < #[trigger] issued(s, ops)[i]
            <= run(s, ops).last_id,
        forall|i: int, j: int|
            0 <= i < j < issued(s, ops).len() ==> #[trigger] issued(s, ops)[i] < #[trigger] issued(
                s,
                ops,
            )[j],
    decreases ops.len(),
{
    if ops.len() > 0 {
        let before = run(s, ops.drop_last());
        let earlier = issued(s, ops.drop_last());
        let all = issued(s, ops);
        lemma_identifiers_are_never_reused(s, ops.drop_last());
        lemma_step_keeps_invariant(before, ops.last());
        assert(all == earlier || all == earlier.push(before.last_id + 1));
        assert forall|i: int| 0 <= i < all.len() implies s.last_id < #[trigger] all[i] <= run(
            s,
            ops,
        ).last_id by {
            if i < earlier.len() {
                assert(all[i] == earlier[i]);
            }
        }
        assert forall|i: int, j: int| 0 <= i < j < all.len() implies #[trigger] all[i]
            < #[trigger] all[j] by {
            assert(all[i] == earlier[i]);
            if j < earlier.len() {
                assert(all[j] == earlier[j]);
            }
        }
    }
}

/// Setting a flag or removing an entry under an identifier that no entry has
/// leaves the store as it is.
pub proof fn lemma_missing_identifier_changes_nothing(s: StoreView, id: int, value: bool)
    requires
        !s.has_id(id),
    ensures
        s.marked(id, value) == s,
        s.removed(id) == s,
        step(s, Operation::SetDone { id, value }) == s,
        step(s, Operation::Delete { id }) == s,
{
    assert(s.marked(id, value).items =~= s.items);
    lemma_filter_keeps_all(s.items, |item: ItemView| item.id != id);
}

/// Adding blank text leaves the store as it is.
pub proof fn lemma_blank_text_changes_nothing(s: StoreView, text: Seq<char>)
    requires
        is_blank(text),
    ensures
        step(s, Operation::Insert { text }) == s,
{
}

/// Removing every entry a second time changes nothing, and neither does
/// removing every entry of a store that has none.
pub proof fn lemma_clearing_again_changes_nothing(s: StoreView)
    ensures
        s.cleared().cleared() == s.cleared(),
        s.items.len() == 0 ==> s.cleared() == s,
{
    if s.items.len() == 0 {
        assert(s.items =~= Seq::empty());
    }
}

/// A store without entries lists as the one notice: so does a fresh store,
/// and so does any store after every entry was removed.
pub proof fn lemma_empty_store_lists_nothing(s: StoreView)
    ensures
        listing_lines(StoreView::fresh().items) == seq!["No todo items found."@],
        listing_lines(s.cleared().items) == seq!["No todo items found."@],
        step(s, Operation::DeleteAll).items.len() == 0,
{
}

} // verus!
