//! The first screen that showed one book.

use vstd::prelude::*;
use crate::app::Book;
use crate::text::owned;

verus! {

pub struct BookDetailsApp {
    pub book: Book,
    pub token: String,
}

impl BookDetailsApp {
    pub fn new(book: Book, token: String) -> (a: Self)
        ensures
            a.book == book,
            a.token == token,
    {
        BookDetailsApp { book, token }
    }

    /// The borrow date shown: the date, or "N/A" when the book is not lent.
    pub fn borrow_date_text(&self) -> (s: String)
        ensures
            s@ == match self.book.borrow_date {
                Some(d) => d@,
                None => "N/A"@,
            },
    {
        match &self.book.borrow_date {
            Some(d) => d.clone(),
            None => owned("N/A"),
        }
    }
}

} // verus!
