use vstd::prelude::*;

verus! {

/// A catalogue entry. The `id` is chosen by the caller and is the key that
/// lookups go by; nothing makes it unique.
#[derive(Clone, Debug, PartialEq, Eq)]
pub struct Book {
    pub id: u32,
    pub title: String,
    pub author: String,
}

impl Book {
    pub fn new(id: u32, title: String, author: String) -> (r: Book)
        ensures
            r.id == id,
            r.title == title,
            r.author == author,
    {
        Book { id, title, author }
    }

    /// A copy of this book, field for field.
    pub fn duplicate(&self) -> (r: Book)
        ensures
            r == *self,
    {
        Book { id: self.id, title: self.title.clone(), author: self.author.clone() }
    }
}

} // verus!
