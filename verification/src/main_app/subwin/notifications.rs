//! The window that lists the books whose loan is overdue.

use vstd::prelude::*;
use crate::main_app::models::{Book, BookRow, book_of_row, books_of_rows};
use crate::main_app::search_panel::has_token_headers;
use crate::requests::{ApiCall, HttpMethod, token_headers};
use crate::requests::structs::LateBooksResponse;
use crate::text::{decimal, decimal_string, join};

verus! {

pub struct NotificationsPanel {
    pub open: bool,
    pub books: Vec<Book>,
    pub status: String,
    pub status_error: bool,
    pub loading: bool,
    /// A request was sent and its reply has not been handled yet.
    pub awaiting: bool,
}

/// What the window shows.
#[derive(Clone, Copy, PartialEq, Eq, Structural, Debug)]
pub enum NotificationView {
    /// The status line, as an error.
    Error,
    /// One line per overdue book.
    List,
    /// The status line.
    Status,
}

impl NotificationsPanel {
    /// The call that lists the overdue books.
    pub open spec fn is_fetch_call(call: ApiCall<()>, token: String) -> bool {
        &&& call.method == HttpMethod::Post
        &&& call.endpoint@ == "book/late-borrowed"@
        &&& call.body is None
        &&& has_token_headers(call.headers@, token)
    }

    /// A closed window, and the call that asks for the overdue books.
    pub fn new(token: String) -> (r: (Self, ApiCall<()>))
        ensures
            !r.0.open,
            r.0.books@.len() == 0,
            r.0.status@ == "Loading notifications..."@,
            !r.0.status_error,
            r.0.loading,
            r.0.awaiting,
            Self::is_fetch_call(r.1, token),
    {
        let mut panel = NotificationsPanel {
            open: false,
            books: Vec::new(),
            status: String::new(),
            status_error: false,
            loading: false,
            awaiting: false,
        };
        let call = panel.fetch(token);
        (panel, call)
    }

    /// Handles the list of overdue books, if it was awaited and came.
    pub fn poll(&mut self, msg: Option<Result<LateBooksResponse, String>>)
        ensures
            final(self).open == old(self).open,
            (old(self).awaiting && msg is Some) ==> {
                &&& !final(self).loading
                &&& !final(self).awaiting
                &&& match msg.unwrap() {
                    Ok(resp) => {
                        &&& final(self).books@ == resp.late_books@.map_values(
                            |r: BookRow| book_of_row(r),
                        )
                        &&& final(self).status@ == if resp.late_books@.len() == 0 {
                            "No late books"@
                        } else {
                            "Loaded"@
                        }
                        &&& !final(self).status_error
                    },
                    Err(e) => {
                        &&& final(self).books == old(self).books
                        &&& final(self).status@ == "Error: "@ + e@
                        &&& final(self).status_error
                    },
                }
            },
            !(old(self).awaiting && msg is Some) ==> *final(self) == *old(self),
    {
        if self.awaiting {
            if let Some(result) = msg {
                self.loading = false;
                match result {
                    Ok(resp) => {
                        self.books = books_of_rows(resp.late_books);
                        if self.books.len() == 0 {
                            self.status = String::from_str("No late books");
                        } else {
                            self.status = String::from_str("Loaded");
                        }
                        self.status_error = false;
                    },
                    Err(e) => {
                        self.status = join("Error: ", e.as_str());
                        self.status_error = true;
                    },
                }
                self.awaiting = false;
            }
        }
    }

    /// Asks again for the overdue books.
    pub fn fetch(&mut self, token: String) -> (call: ApiCall<()>)
        ensures
            Self::is_fetch_call(call, token),
            final(self).loading,
            final(self).awaiting,
            final(self).status@ == "Loading notifications..."@,
            final(self).open == old(self).open,
            final(self).books == old(self).books,
            final(self).status_error == old(self).status_error,
    {
        self.loading = true;
        self.status = String::from_str("Loading notifications...");
        self.awaiting = true;
        ApiCall {
            method: HttpMethod::Post,
            endpoint: String::from_str("book/late-borrowed"),
            body: None,
            headers: token_headers(token),
        }
    }

    /// What the window shows: the error if the last request failed, the
    /// list when it holds more than one book, else the status line.
    pub fn view(&self) -> (v: NotificationView)
        ensures
            v == if self.status_error {
                NotificationView::Error
            } else if self.books@.len() > 1 {
                NotificationView::List
            } else {
                NotificationView::Status
            },
    {
        if self.status_error {
            NotificationView::Error
        } else if self.books.len() > 1 {
            NotificationView::List
        } else {
            NotificationView::Status
        }
    }

    /// The bell button: the bell alone when no book is overdue, else the
    /// bell and the number of overdue books in brackets.
    pub fn badge(&self) -> (s: String)
        ensures
            s@ == if self.books@.len() == 0 {
                "🔔"@
            } else {
                "🔔("@ + decimal(self.books@.len()) + ")"@
            },
    {
        if self.books.len() == 0 {
            String::from_str("🔔")
        } else {
            let mut s = join("🔔(", decimal_string(self.books.len() as u64).as_str());
            s.append(")");
            s
        }
    }
}

} // verus!
