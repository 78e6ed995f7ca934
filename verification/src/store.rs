//! The record store: an ordered collection of book records, looked up
//! by id, mutated only through the five operations below. Each
//! operation's contract is stated over the store's view, a sequence of
//! records in insertion order.

use vstd::pervasive::VecAdditionalExecFns;
use vstd::prelude::*;

use crate::book::Book;

verus! {

/// True when some record in `s` carries the id `id`.
pub open spec fn contains_id(s: Seq<Book>, id: u128) -> bool {
    exists|i: int| 0 <= i < s.len() && s[i].id == id
}

/// True when `i` is the index of the first record in `s` whose id is
/// `id`: the index is in range, the record there matches, and no
/// earlier record does.
pub open spec fn is_first_match(s: Seq<Book>, id: u128, i: int) -> bool {
    &&& 0 <= i < s.len()
    &&& s[i].id == id
    &&& forall|j: int| 0 <= j < i ==> s[j].id != id
}

/// The sequence `s` with every record whose id is `id` removed, the
/// rest kept in order.
pub open spec fn remove_id(s: Seq<Book>, id: u128) -> Seq<Book> {
    s.filter(|b: Book| b.id != id)
}

/// The authoritative collection of book records. Its view is the
/// sequence of stored records in insertion order; at most one record
/// per id is intended, though `insert` itself does not enforce it (a
/// caller-supplied duplicate id makes both copies coexist).
pub struct Store {
    books: Vec<Book>,
}

impl View for Store {
    type V = Seq<Book>;

    closed spec fn view(&self) -> Seq<Book> {
        self.books@
    }
}

impl Store {
    /// Creates an empty store.
    pub fn new() -> (s: Store)
        ensures
            s@ == Seq::<Book>::empty(),
    {
        Store { books: Vec::new() }
    }

    /// Returns a copy of every stored record, in insertion order.
    /// Never fails.
    pub fn list(&self) -> (r: Vec<Book>)
        ensures
            r@ == self@,
    {
        let mut out: Vec<Book> = Vec::new();
        let n = self.books.len();
        let mut i: usize = 0;
        while i < n
            invariant
                n == self.books.len(),
                i <= n,
                out@ == self.books@.take(i as int),
            decreases n - i,
        {
            out.push(self.books[i].clone());
            proof {
                assert(out@ =~= self.books@.take(i + 1));
            }
            i = i + 1;
        }
        proof {
            assert(self.books@.take(n as int) =~= self.books@);
        }
        out
    }

    /// Returns the index of the first record carrying `id`, or `None`
    /// when no record does.
    fn find_index(&self, id: u128) -> (r: Option<usize>)
        ensures
            match r {
                Some(i) => is_first_match(self@, id, i as int),
                None => !contains_id(self@, id),
            },
    {
        let n = self.books.len();
        let mut i: usize = 0;
        while i < n
            invariant
                n == self.books.len(),
                i <= n,
                forall|j: int| 0 <= j < i ==> self.books@[j].id != id,
            decreases n - i,
        {
            if self.books[i].id == id {
                return Some(i);
            }
            i = i + 1;
        }
        None
    }

    /// Returns a copy of the first record carrying `id`, or `None`
    /// when no record does.
    pub fn get(&self, id: u128) -> (r: Option<Book>)
        ensures
            match r {
                Some(b) => exists|i: int| is_first_match(self@, id, i) && b == self@[i],
                None => !contains_id(self@, id),
            },
    {
        match self.find_index(id) {
            Some(i) => Some(self.books[i].clone()),
            None => None,
        }
    }

    /// Appends `book` to the collection unconditionally; no id
    /// collision check is made. Always succeeds.
    pub fn insert(&mut self, book: Book)
        ensures
            final(self)@ == old(self)@.push(book),
    {
        self.books.push(book);
    }

    /// Overwrites every field of the first record carrying `id` with
    /// `new_book`'s fields (the stored id becomes `new_book.id`, which
    /// may differ from `id`). Returns whether a record carrying `id`
    /// was found; when none is, the store is unchanged.
    pub fn replace(&mut self, id: u128, new_book: Book) -> (found: bool)
        ensures
            found == contains_id(old(self)@, id),
            !found ==> final(self)@ == old(self)@,
            found ==> exists|i: int|
                is_first_match(old(self)@, id, i) && final(self)@ == old(self)@.update(
                    i,
                    new_book,
                ),
    {
        match self.find_index(id) {
            Some(i) => {
                self.books.set(i, new_book);
                true
            },
            None => false,
        }
    }

    /// Removes every record carrying `id`, keeping the rest in order.
    /// Returns whether any record carrying `id` was found; when none
    /// is, the store is unchanged.
    pub fn delete(&mut self, id: u128) -> (found: bool)
        ensures
            found == contains_id(old(self)@, id),
            final(self)@ == remove_id(old(self)@, id),
    {
        let mut kept: Vec<Book> = Vec::new();
        let mut found: bool = false;
        let n = self.books.len();
        let mut i: usize = 0;
        while i < n
            invariant
                self.books@ == old(self).books@,
                n == self.books.len(),
                i <= n,
                kept@ == remove_id(self.books@.take(i as int), id),
                found == contains_id(self.books@.take(i as int), id),
            decreases n - i,
        {
            let ghost prefix = self.books@.take(i as int);
            let b = &self.books[i];
            if b.id == id {
                found = true;
            } else {
                kept.push(b.clone());
            }
            proof {
                let next = self.books@.take(i + 1);
                assert(next =~= prefix.push(self.books@[i as int]));
                lemma_remove_id_push(prefix, self.books@[i as int], id);
                if self.books@[i as int].id == id {
                    assert(next[i as int].id == id);
                } else {
                    if contains_id(prefix, id) {
                        let k = choose|k: int| 0 <= k < prefix.len() && prefix[k].id == id;
                        assert(next[k].id == id);
                    }
                    if contains_id(next, id) {
                        let k = choose|k: int| 0 <= k < next.len() && next[k].id == id;
                        assert(k < i + 1);
                        if k < i {
                            assert(prefix[k].id == id);
                        }
                    }
                }
            }
            i = i + 1;
        }
        proof {
            assert(self.books@.take(n as int) =~= self.books@);
        }
        self.books = kept;
        found
    }
}

/// Removing an id from a sequence extended by one record keeps the
/// record exactly when its id differs.
proof fn lemma_remove_id_push(s: Seq<Book>, b: Book, id: u128)
    ensures
        remove_id(s.push(b), id) == if b.id != id {
            remove_id(s, id).push(b)
        } else {
            remove_id(s, id)
        },
{
    reveal(Seq::filter);
    assert(s.push(b).drop_last() =~= s);
}

} // verus!
