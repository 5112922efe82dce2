use vstd::prelude::*;

use crate::book::Book;
use crate::store::{
    contains_id, first_index, is_first_match, is_seed, lemma_first_index_found, removed, replaced,
};

verus! {

/// The catalogue after `creates` are appended one by one to `start`, each
/// step being what `BookStore::append` does.
pub open spec fn after_creates(start: Seq<Book>, creates: Seq<Book>) -> Seq<Book>
    decreases creates.len(),
{
    if creates.len() == 0 {
        start
    } else {
        after_creates(start, creates.drop_last()).push(creates.last())
    }
}

/// The catalogue after `BookStore::remove(id)` is called `n` times on `s`.
pub open spec fn after_removes(s: Seq<Book>, id: u32, n: nat) -> Seq<Book>
    decreases n,
{
    if n == 0 {
        s
    } else {
        removed(after_removes(s, id, (n - 1) as nat), id)
    }
}

/// Any run of creates yields the starting entries followed by the created
/// books in the order they were created.
pub proof fn law_creates_append_in_order(start: Seq<Book>, creates: Seq<Book>)
    ensures
        after_creates(start, creates) == start + creates,
    decreases creates.len(),
{
    if creates.len() > 0 {
        law_creates_append_in_order(start, creates.drop_last());
        assert(start + creates =~= (start + creates.drop_last()).push(creates.last()));
    }
}

/// Started from the opening catalogue, any run of creates lists the three
/// opening books first and then the created books in creation order.
pub proof fn law_seeded_creates(start: Seq<Book>, creates: Seq<Book>)
    requires
        is_seed(start),
    ensures
        is_seed(after_creates(start, creates).subrange(0, 3)),
        after_creates(start, creates).subrange(3, after_creates(start, creates).len() as int)
            == creates,
{
    law_creates_append_in_order(start, creates);
    assert((start + creates).subrange(0, 3) =~= start);
    assert((start + creates).subrange(3, (start + creates).len() as int) =~= creates);
}

/// Creating a book whose `id` is already taken keeps the earlier entry and
/// adds the new one last, so two entries share that `id`.
pub proof fn law_create_duplicate_id(s: Seq<Book>, book: Book)
    requires
        contains_id(s, book.id),
    ensures
        s.push(book).len() == s.len() + 1,
        s.push(book).subrange(0, s.len() as int) == s,
        s.push(book).last() == book,
        exists|i: int, j: int|
            0 <= i < j < s.push(book).len() && #[trigger] s.push(book)[i].id == book.id
                && #[trigger] s.push(book)[j].id == book.id,
{
    let t = s.push(book);
    let i = choose|i: int| 0 <= i < s.len() && #[trigger] s[i].id == book.id;
    assert(t[i].id == book.id && t[s.len() as int].id == book.id);
    assert(t.subrange(0, s.len() as int) =~= s);
}

/// Replacing an `id` that is present overwrites exactly the first entry that
/// carries it with the given book, whatever that book's own `id`; length and
/// every other entry stay as they were.
pub proof fn law_replace_present(s: Seq<Book>, id: u32, book: Book)
    requires
        contains_id(s, id),
    ensures
        is_first_match(s, id, first_index(s, id)),
        replaced(s, id, book).len() == s.len(),
        replaced(s, id, book)[first_index(s, id)] == book,
        forall|j: int|
            0 <= j < s.len() && j != first_index(s, id) ==> #[trigger] replaced(s, id, book)[j]
                == s[j],
{
    lemma_first_index_found(s, id);
}

/// Replacing an `id` that no entry carries changes nothing.
pub proof fn law_replace_absent(s: Seq<Book>, id: u32, book: Book)
    requires
        !contains_id(s, id),
    ensures
        replaced(s, id, book) == s,
{
}

/// Removing an `id` that is present takes out exactly the first entry that
/// carries it: one entry fewer, and the others in their former order.
pub proof fn law_remove_present(s: Seq<Book>, id: u32)
    requires
        contains_id(s, id),
    ensures
        is_first_match(s, id, first_index(s, id)),
        removed(s, id).len() == s.len() - 1,
        removed(s, id) == s.subrange(0, first_index(s, id)) + s.subrange(
            first_index(s, id) + 1,
            s.len() as int,
        ),
{
    lemma_first_index_found(s, id);
    let i = first_index(s, id);
    assert(s.remove(i) =~= s.subrange(0, i) + s.subrange(i + 1, s.len() as int));
}

/// Removing an `id` that no entry carries changes nothing.
pub proof fn law_remove_absent(s: Seq<Book>, id: u32)
    requires
        !contains_id(s, id),
    ensures
        removed(s, id) == s,
{
}

/// Once a removal finds nothing, repeating it any number of times changes
/// nothing and finds nothing each time.
pub proof fn law_failed_remove_idempotent(s: Seq<Book>, id: u32, n: nat)
    requires
        !contains_id(s, id),
    ensures
        after_removes(s, id, n) == s,
        !contains_id(after_removes(s, id, n), id),
    decreases n,
{
    if n > 0 {
        law_failed_remove_idempotent(s, id, (n - 1) as nat);
    }
}

} // verus!
