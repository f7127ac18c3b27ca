//! The criteria that the user types into the two search forms.

use vstd::prelude::*;

verus! {

/// Criteria of a book search: an ISBN, words of the title and of the
/// author, an owner's number.
pub struct BookSearchForm {
    pub isbn: Option<i64>,
    pub title: String,
    pub author: String,
    pub owner_id: Option<i64>,
}

impl Default for BookSearchForm {
    fn default() -> (f: Self)
        ensures
            f.isbn is None,
            f.title@ == Seq::<char>::empty(),
            f.author@ == Seq::<char>::empty(),
            f.owner_id is None,
    {
        BookSearchForm { isbn: None, title: String::new(), author: String::new(), owner_id: None }
    }
}

/// Criteria of an owner search: first name, last name, mail address.
pub struct OwnerSearchForm {
    pub name: String,
    pub lastname: String,
    pub mail: String,
}

impl Default for OwnerSearchForm {
    fn default() -> (f: Self)
        ensures
            f.name@ == Seq::<char>::empty(),
            f.lastname@ == Seq::<char>::empty(),
            f.mail@ == Seq::<char>::empty(),
    {
        OwnerSearchForm { name: String::new(), lastname: String::new(), mail: String::new() }
    }
}

} // verus!
