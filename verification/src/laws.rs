//! Laws of the store's operations, stated over the store's view and
//! proved once for all contents. Each speaks in the same terms as the
//! operations' own contracts: `push` for insert, `update` at the first
//! matching index for replace, `remove_id` for delete, and
//! `is_first_match` for what a lookup answers.

use vstd::prelude::*;

use crate::book::Book;
use crate::store::{contains_id, is_first_match, remove_id};

verus! {

/// The contents of a store after records are inserted one by one,
/// starting from `s`.
pub open spec fn insert_all(s: Seq<Book>, bs: Seq<Book>) -> Seq<Book>
    decreases bs.len(),
{
    if bs.len() == 0 {
        s
    } else {
        insert_all(s.push(bs.first()), bs.drop_first())
    }
}

/// After a record whose id is not yet stored is inserted, a lookup of
/// that id finds exactly the inserted record.
pub proof fn lemma_create_then_get(s: Seq<Book>, b: Book)
    requires
        !contains_id(s, b.id),
    ensures
        is_first_match(s.push(b), b.id, s.len() as int),
        s.push(b)[s.len() as int] == b,
{
    assert forall|j: int| 0 <= j < s.len() implies s.push(b)[j].id != b.id by {
        assert(s.push(b)[j] == s[j]);
    }
}

/// Deleting an id that no stored record carries leaves the store's
/// contents unchanged.
pub proof fn lemma_delete_absent(s: Seq<Book>, id: u128)
    requires
        !contains_id(s, id),
    ensures
        remove_id(s, id) == s,
    decreases s.len(),
{
    reveal(Seq::filter);
    if s.len() == 0 {
        assert(remove_id(s, id) =~= s);
    } else {
        assert forall|j: int| 0 <= j < s.drop_last().len() implies s.drop_last()[j].id != id by {
            assert(s[j].id != id);
        }
        lemma_delete_absent(s.drop_last(), id);
        assert(s.last().id != id);
        assert(remove_id(s, id) =~= s.drop_last().push(s.last()));
        assert(s.drop_last().push(s.last()) =~= s);
    }
}

/// After a delete, no stored record carries the deleted id: deleting
/// it again finds nothing.
pub proof fn lemma_delete_then_delete(s: Seq<Book>, id: u128)
    ensures
        !contains_id(remove_id(s, id), id),
{
    broadcast use vstd::seq_lib::group_filter_ensures;

    assert forall|i: int| 0 <= i < remove_id(s, id).len() implies remove_id(s, id)[i].id != id by {
        assert(remove_id(s, id) == s.filter(|b: Book| b.id != id));
    }
}

/// After a replace whose payload keeps the looked-up id, a lookup of
/// that id finds exactly the replacement, with no trace of the prior
/// fields.
pub proof fn lemma_replace_then_get(s: Seq<Book>, id: u128, b: Book, i: int)
    requires
        is_first_match(s, id, i),
        b.id == id,
    ensures
        is_first_match(s.update(i, b), id, i),
        s.update(i, b)[i] == b,
{
}

/// Inserting records with pairwise distinct ids into an empty store
/// yields exactly those records, in order, and a lookup of each id
/// finds the record inserted under it.
pub proof fn lemma_list_after_creates(bs: Seq<Book>)
    requires
        forall|i: int, j: int| 0 <= i < j < bs.len() ==> bs[i].id != bs[j].id,
    ensures
        insert_all(Seq::<Book>::empty(), bs) == bs,
        forall|i: int| 0 <= i < bs.len() ==> is_first_match(bs, bs[i].id, i),
{
    lemma_insert_all_appends(Seq::<Book>::empty(), bs);
    assert(Seq::<Book>::empty() + bs =~= bs);
    assert forall|i: int| 0 <= i < bs.len() implies is_first_match(bs, bs[i].id, i) by {
        assert forall|j: int| 0 <= j < i implies bs[j].id != bs[i].id by {}
    }
}

/// Inserting records one by one appends them in order.
proof fn lemma_insert_all_appends(s: Seq<Book>, bs: Seq<Book>)
    ensures
        insert_all(s, bs) == s + bs,
    decreases bs.len(),
{
    if bs.len() == 0 {
        assert(s + bs =~= s);
    } else {
        lemma_insert_all_appends(s.push(bs.first()), bs.drop_first());
        assert(s.push(bs.first()) + bs.drop_first() =~= s + bs);
    }
}

} // verus!
