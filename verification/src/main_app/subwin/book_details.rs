//! The window that shows one book and lends it out or takes it back.

use vstd::prelude::*;
use crate::main_app::models::Book;
use crate::main_app::search_panel::has_token_headers;
use crate::requests::{ApiCall, HttpMethod, token_headers};
use crate::requests::structs::{BorrowBookRequest, MessResponse, ReturnBookRequest};
use crate::text::{is_blank, join, str_is_blank};

verus! {

pub struct BookDetailsPanel {
    pub open: bool,
    pub book: Option<Book>,
    /// The mail address typed for the next loan.
    pub borrower_mail: String,
    pub status: String,
    pub status_error: bool,
    pub loading: bool,
    /// A loan or a return was sent and its reply has not been handled yet.
    pub awaiting: bool,
}

/// The book once the server has accepted the pending loan or return: an
/// available book becomes lent to `mail`; a lent book becomes available
/// with no borrower.
pub open spec fn after_success(b: Book, mail: String) -> Book {
    if b.available {
        Book { available: false, borrower_mail: Some(mail), ..b }
    } else {
        Book { available: true, borrower_mail: None, ..b }
    }
}

impl BookDetailsPanel {
    /// A closed window showing no book.
    pub fn new() -> (p: Self)
        ensures
            !p.open,
            p.book is None,
            p.borrower_mail@ == Seq::<char>::empty(),
            p.status@ == Seq::<char>::empty(),
            !p.status_error,
            !p.loading,
            !p.awaiting,
    {
        BookDetailsPanel {
            open: false,
            book: None,
            borrower_mail: String::new(),
            status: String::new(),
            status_error: false,
            loading: false,
            awaiting: false,
        }
    }

    /// Opens the window on `book`, with an empty borrower field and no
    /// status.
    pub fn open_for(&mut self, book: Book)
        ensures
            final(self).open,
            final(self).book == Some(book),
            final(self).borrower_mail@ == Seq::<char>::empty(),
            final(self).status@ == Seq::<char>::empty(),
            !final(self).status_error,
            final(self).loading == old(self).loading,
            final(self).awaiting == old(self).awaiting,
    {
        self.book = Some(book);
        self.open = true;
        self.borrower_mail = String::new();
        self.status = String::new();
        self.status_error = false;
    }

    /// Handles the reply to the pending loan or return, if one was awaited
    /// and came. On success the book shown changes as `after_success` says
    /// (and the borrower field is emptied when the book comes back), and
    /// the server's message is shown; on failure the error is shown.
    pub fn poll(&mut self, msg: Option<Result<MessResponse, String>>)
        ensures
            final(self).open == old(self).open,
            (old(self).awaiting && msg is Some) ==> {
                &&& !final(self).loading
                &&& !final(self).awaiting
                &&& match msg.unwrap() {
                    Ok(m) => {
                        &&& final(self).status == m.message
                        &&& !final(self).status_error
                        &&& match old(self).book {
                            Some(b) => {
                                &&& final(self).book == Some(
                                    after_success(b, old(self).borrower_mail),
                                )
                                &&& final(self).borrower_mail@ == if b.available {
                                    old(self).borrower_mail@
                                } else {
                                    Seq::<char>::empty()
                                }
                            },
                            None => {
                                &&& final(self).book is None
                                &&& final(self).borrower_mail == old(self).borrower_mail
                            },
                        }
                    },
                    Err(e) => {
                        &&& final(self).status@ == "Error: "@ + e@
                        &&& final(self).status_error
                        &&& final(self).book == old(self).book
                        &&& final(self).borrower_mail == old(self).borrower_mail
                    },
                }
            },
            !(old(self).awaiting && msg is Some) ==> *final(self) == *old(self),
    {
        if self.awaiting {
            if let Some(result) = msg {
                self.loading = false;
                match result {
                    Ok(message) => {
                        match self.book.take() {
                            Some(mut book) => {
                                if book.available {
                                    book.available = false;
                                    book.borrower_mail = Some(self.borrower_mail.clone());
                                } else {
                                    book.available = true;
                                    book.borrower_mail = None;
                                    self.borrower_mail = String::new();
                                }
                                self.book = Some(book);
                            },
                            None => {},
                        }
                        self.status = message.message;
                        self.status_error = false;
                    },
                    Err(e) => {
                        self.status = join("Error: ", e.as_str());
                        self.status_error = true;
                    },
                }
                self.awaiting = false;
            }
        }
    }

    /// Lends the book shown to the mail address typed; nothing is sent when
    /// no book is shown or the address is blank.
    pub fn borrow(&mut self, token: String) -> (call: Option<ApiCall<BorrowBookRequest>>)
        ensures
            (old(self).book is None || is_blank(old(self).borrower_mail@)) ==> call is None
                && *final(self) == *old(self),
            old(self).book matches Some(b) ==> !is_blank(old(self).borrower_mail@) ==> {
                &&& call matches Some(c)
                &&& c.method == HttpMethod::Post
                &&& c.endpoint@ == "book/borrow"@
                &&& c.body == Some(
                    BorrowBookRequest { isbn: b.isbn, borrower_mail: old(self).borrower_mail },
                )
                &&& has_token_headers(c.headers@, token)
                &&& *final(self) == (BookDetailsPanel {
                    loading: true,
                    awaiting: true,
                    status: final(self).status,
                    ..*old(self)
                })
                &&& final(self).status@ == "Loading..."@
            },
    {
        let isbn = match &self.book {
            Some(book) => book.isbn,
            None => {
                return None;
            },
        };
        if str_is_blank(self.borrower_mail.as_str()) {
            return None;
        }
        self.loading = true;
        self.status = String::from_str("Loading...");
        self.awaiting = true;
        Some(
            ApiCall {
                method: HttpMethod::Post,
                endpoint: String::from_str("book/borrow"),
                body: Some(BorrowBookRequest { isbn, borrower_mail: self.borrower_mail.clone() }),
                headers: token_headers(token),
            },
        )
    }

    /// Records that the book shown came back; nothing is sent when no book
    /// is shown.
    pub fn return_book(&mut self, token: String) -> (call: Option<ApiCall<ReturnBookRequest>>)
        ensures
            old(self).book is None ==> call is None && *final(self) == *old(self),
            old(self).book matches Some(b) ==> {
                &&& call matches Some(c)
                &&& c.method == HttpMethod::Post
                &&& c.endpoint@ == "book/return"@
                &&& c.body == Some(ReturnBookRequest { isbn: b.isbn })
                &&& has_token_headers(c.headers@, token)
                &&& *final(self) == (BookDetailsPanel {
                    loading: true,
                    awaiting: true,
                    status: final(self).status,
                    ..*old(self)
                })
                &&& final(self).status@ == "Loading..."@
            },
    {
        let isbn = match &self.book {
            Some(book) => book.isbn,
            None => {
                return None;
            },
        };
        self.loading = true;
        self.status = String::from_str("Loading...");
        self.awaiting = true;
        Some(
            ApiCall {
                method: HttpMethod::Post,
                endpoint: String::from_str("book/return"),
                body: Some(ReturnBookRequest { isbn }),
                headers: token_headers(token),
            },
        )
    }

    /// The book the window shows this frame, if it is open; an open window
    /// with no book closes.
    pub fn shown_book(&mut self) -> (r: Option<Book>)
        ensures
            !old(self).open ==> r is None && *final(self) == *old(self),
            (old(self).open && old(self).book is None) ==> r is None && !final(self).open
                && final(self).book is None,
            (old(self).open && old(self).book is Some) ==> r == old(self).book && *final(self)
                == *old(self),
            final(self).book == old(self).book,
            final(self).borrower_mail == old(self).borrower_mail,
            final(self).status == old(self).status,
            final(self).status_error == old(self).status_error,
            final(self).loading == old(self).loading,
            final(self).awaiting == old(self).awaiting,
    {
        if !self.open {
            return None;
        }
        match &self.book {
            Some(book) => Some(book.clone()),
            None => {
                self.open = false;
                None
            },
        }
    }

    /// Whether the "Borrow" button is enabled: an address is typed and
    /// nothing is loading.
    pub fn borrow_enabled(&self) -> (b: bool)
        ensures
            b == (!is_blank(self.borrower_mail@) && !self.loading),
    {
        !str_is_blank(self.borrower_mail.as_str()) && !self.loading
    }

    /// Whether the "Return" button is enabled: nothing is loading.
    pub fn return_enabled(&self) -> (b: bool)
        ensures
            b == !self.loading,
    {
        !self.loading
    }
}

/// A loan that the server accepts makes the book unavailable, lent to the
/// address that was typed; a return that it accepts afterwards makes the
/// book available again, with no borrower, and otherwise as it was.
pub proof fn lemma_borrow_then_return(b: Book, mail: String, other: String)
    requires
        b.available,
    ensures
        !after_success(b, mail).available,
        after_success(b, mail).borrower_mail == Some(mail),
        after_success(after_success(b, mail), other) == (Book {
            available: true,
            borrower_mail: None,
            ..b
        }),
{
}

/// Every accepted loan or return flips the book's availability and keeps
/// everything else about the book but its borrower.
pub proof fn lemma_success_flips_availability(b: Book, mail: String)
    ensures
        after_success(b, mail).available == !b.available,
        after_success(b, mail).isbn == b.isbn,
        after_success(b, mail).title == b.title,
        after_success(b, mail).author == b.author,
        after_success(b, mail).owner_id == b.owner_id,
        after_success(b, mail).condition == b.condition,
        after_success(b, mail).borrow_date == b.borrow_date,
{
}

} // verus!
