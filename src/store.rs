use vstd::prelude::*;

use crate::book::Book;

verus! {

/// Whether some entry of `s` carries `id`.
pub open spec fn contains_id(s: Seq<Book>, id: u32) -> bool {
    exists|i: int| 0 <= i < s.len() && #[trigger] s[i].id == id
}

/// Whether `i` is the position of the first entry of `s` that carries `id`.
pub open spec fn is_first_match(s: Seq<Book>, id: u32, i: int) -> bool {
    &&& 0 <= i < s.len()
    &&& s[i].id == id
    &&& forall|j: int| 0 <= j < i ==> #[trigger] s[j].id != id
}

/// The position of the first entry of `s` that carries `id`; meaningful only
/// where `contains_id(s, id)`.
pub open spec fn first_index(s: Seq<Book>, id: u32) -> int {
    choose|i: int| is_first_match(s, id, i)
}

/// `s` after the first entry that carries `id` is overwritten by `book`;
/// `s` itself where no entry carries `id`.
pub open spec fn replaced(s: Seq<Book>, id: u32, book: Book) -> Seq<Book> {
    if contains_id(s, id) {
        s.update(first_index(s, id), book)
    } else {
        s
    }
}

/// `s` without its first entry that carries `id`; `s` itself where no entry
/// carries `id`.
pub open spec fn removed(s: Seq<Book>, id: u32) -> Seq<Book> {
    if contains_id(s, id) {
        s.remove(first_index(s, id))
    } else {
        s
    }
}

/// Whether `s` is the opening catalogue: "The Hobbit" by J.R.R. Tolkien
/// (id 1), "To Kill a Mockingbird" by Harper Lee (id 2) and "1984" by George
/// Orwell (id 3), in that order.
pub open spec fn is_seed(s: Seq<Book>) -> bool {
    &&& s.len() == 3
    &&& s[0].id == 1 && s[0].title@ == "The Hobbit"@ && s[0].author@ == "J.R.R. Tolkien"@
    &&& s[1].id == 2 && s[1].title@ == "To Kill a Mockingbird"@ && s[1].author@ == "Harper Lee"@
    &&& s[2].id == 3 && s[2].title@ == "1984"@ && s[2].author@ == "George Orwell"@
}

/// The first match of `id` is the only one, so `first_index` names it.
pub proof fn lemma_first_index_is(s: Seq<Book>, id: u32, i: int)
    requires
        is_first_match(s, id, i),
    ensures
        first_index(s, id) == i,
{
    let k = first_index(s, id);
    assert(is_first_match(s, id, k));
    if k < i {
        assert(s[k].id != id);
    } else if k > i {
        assert(s[i].id != id);
    }
}

/// Where some entry carries `id`, `first_index` is the first such position.
pub proof fn lemma_first_index_found(s: Seq<Book>, id: u32)
    requires
        contains_id(s, id),
    ensures
        is_first_match(s, id, first_index(s, id)),
{
    let k = choose|k: int| 0 <= k < s.len() && #[trigger] s[k].id == id;
    lemma_first_match_below(s, id, k);
}

/// A match at `k` has a first match at or before it.
proof fn lemma_first_match_below(s: Seq<Book>, id: u32, k: int)
    requires
        0 <= k < s.len(),
        s[k].id == id,
    ensures
        is_first_match(s, id, first_index(s, id)),
    decreases k,
{
    if exists|j: int| 0 <= j < k && #[trigger] s[j].id == id {
        let j = choose|j: int| 0 <= j < k && #[trigger] s[j].id == id;
        lemma_first_match_below(s, id, j);
    } else {
        assert(is_first_match(s, id, k));
    }
}

/// The catalogue: books in the order they were added. Several entries may
/// carry the same `id`; lookups act on the first of them.
pub struct BookStore {
    books: Vec<Book>,
}

impl View for BookStore {
    type V = Seq<Book>;

    closed spec fn view(&self) -> Seq<Book> {
        self.books@
    }
}

impl BookStore {
    /// An empty catalogue.
    pub fn new() -> (r: BookStore)
        ensures
            r@ == Seq::<Book>::empty(),
    {
        BookStore { books: Vec::new() }
    }

    /// The catalogue as it stands when the service starts.
    pub fn seeded() -> (r: BookStore)
        ensures
            is_seed(r@),
    {
        let mut books: Vec<Book> = Vec::new();
        books.push(Book::new(1, "The Hobbit".to_owned(), "J.R.R. Tolkien".to_owned()));
        books.push(Book::new(2, "To Kill a Mockingbird".to_owned(), "Harper Lee".to_owned()));
        books.push(Book::new(3, "1984".to_owned(), "George Orwell".to_owned()));
        proof {
            reveal_strlit("The Hobbit");
            reveal_strlit("J.R.R. Tolkien");
            reveal_strlit("To Kill a Mockingbird");
            reveal_strlit("Harper Lee");
            reveal_strlit("1984");
            reveal_strlit("George Orwell");
        }
        BookStore { books }
    }

    /// A copy of every entry, in catalogue order.
    pub fn list(&self) -> (r: Vec<Book>)
        ensures
            r@ == self@,
    {
        let mut out: Vec<Book> = Vec::new();
        let mut i: usize = 0;
        while i < self.books.len()
            invariant
                i <= self.books@.len(),
                out@ == self.books@.subrange(0, i as int),
            decreases self.books@.len() - i,
        {
            out.push(self.books[i].duplicate());
            i = i + 1;
        }
        out
    }

    /// Adds `book` after every entry, whatever its `id`.
    pub fn append(&mut self, book: Book)
        ensures
            final(self)@ == old(self)@.push(book),
    {
        self.books.push(book);
    }

    /// The position of the first entry that carries `id`, scanning from the
    /// front.
    pub fn position(&self, id: u32) -> (r: Option<usize>)
        ensures
            match r {
                Some(i) => is_first_match(self@, id, i as int),
                None => !contains_id(self@, id),
            },
    {
        let mut i: usize = 0;
        while i < self.books.len()
            invariant
                i <= self.books@.len(),
                forall|j: int| 0 <= j < i ==> #[trigger] self.books@[j].id != id,
            decreases self.books@.len() - i,
        {
            if self.books[i].id == id {
                return Some(i);
            }
            i = i + 1;
        }
        None
    }

    /// Overwrites the first entry that carries `id` with `book`, `id` field
    /// included, and reports whether there was one.
    pub fn replace(&mut self, id: u32, book: Book) -> (r: bool)
        ensures
            r == contains_id(old(self)@, id),
            final(self)@ == replaced(old(self)@, id, book),
    {
        match self.position(id) {
            Some(i) => {
                proof {
                    lemma_first_index_is(self@, id, i as int);
                }
                self.books.set(i, book);
                true
            },
            None => false,
        }
    }

    /// Takes out the first entry that carries `id`, moving the later ones
    /// forward, and reports whether there was one.
    pub fn remove(&mut self, id: u32) -> (r: bool)
        ensures
            r == contains_id(old(self)@, id),
            final(self)@ == removed(old(self)@, id),
    {
        match self.position(id) {
            Some(i) => {
                proof {
                    lemma_first_index_is(self@, id, i as int);
                }
                self.books.remove(i);
                true
            },
            None => false,
        }
    }
}

} // verus!
