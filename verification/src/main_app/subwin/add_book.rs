//! The window that records a new book.

use vstd::prelude::*;
use crate::main_app::search_panel::has_token_headers;
use crate::requests::{ApiCall, HttpMethod, token_headers};
use crate::requests::structs::{AddBookRequest, AddBookResponse};
use crate::text::{is_blank, join, str_is_blank};

verus! {

/// What the user typed into the window; numbers are absent until typed.
pub struct Fields {
    pub isbn: Option<i64>,
    pub title: String,
    pub author: String,
    pub owner_id: Option<i64>,
    pub condition: Option<i8>,
}

impl Clone for Fields {
    fn clone(&self) -> (r: Self)
        ensures
            r == *self,
    {
        Fields {
            isbn: self.isbn,
            title: self.title.clone(),
            author: self.author.clone(),
            owner_id: self.owner_id,
            condition: self.condition,
        }
    }
}

pub struct AddBookPanel {
    pub open: bool,
    pub fields: Fields,
    pub status: String,
    pub status_error: bool,
    pub loading: bool,
    /// A request was sent and its reply has not been handled yet.
    pub awaiting: bool,
}

/// The request that the fields make, or the message that names the first
/// missing field: the ISBN, the owner, the condition, the title, the
/// author, in that order. A title or author made only of spaces is
/// missing.
pub open spec fn cast_result(f: Fields) -> Result<AddBookRequest, Seq<char>> {
    if f.isbn is None {
        Err("Missing isbn"@)
    } else if f.owner_id is None {
        Err("Missing owner id"@)
    } else if f.condition is None {
        Err("Missing condition"@)
    } else if is_blank(f.title@) {
        Err("Missing title"@)
    } else if is_blank(f.author@) {
        Err("Missing author"@)
    } else {
        Ok(
            AddBookRequest {
                isbn: f.isbn.unwrap(),
                title: f.title,
                author: f.author,
                owner_id: f.owner_id.unwrap(),
                condition: f.condition.unwrap(),
            },
        )
    }
}

impl AddBookPanel {
    /// A closed window with empty fields.
    pub fn new() -> (p: Self)
        ensures
            !p.open,
            p.fields.isbn is None,
            p.fields.title@ == Seq::<char>::empty(),
            p.fields.author@ == Seq::<char>::empty(),
            p.fields.owner_id is None,
            p.fields.condition is None,
            p.status@ == Seq::<char>::empty(),
            !p.status_error,
            !p.loading,
            !p.awaiting,
    {
        AddBookPanel {
            open: false,
            fields: Fields {
                isbn: None,
                title: String::new(),
                author: String::new(),
                owner_id: None,
                condition: None,
            },
            status: String::new(),
            status_error: false,
            loading: false,
            awaiting: false,
        }
    }

    /// Handles the reply to the last request, if one was awaited and came:
    /// the server's message, or the error.
    pub fn poll(&mut self, msg: Option<Result<AddBookResponse, String>>)
        ensures
            final(self).open == old(self).open,
            final(self).fields == old(self).fields,
            (old(self).awaiting && msg is Some) ==> {
                &&& !final(self).loading
                &&& !final(self).awaiting
                &&& match msg.unwrap() {
                    Ok(m) => final(self).status == m.message && !final(self).status_error,
                    Err(e) => final(self).status@ == "Error: "@ + e@ && final(self).status_error,
                }
            },
            !(old(self).awaiting && msg is Some) ==> *final(self) == *old(self),
    {
        if self.awaiting {
            if let Some(result) = msg {
                self.loading = false;
                match result {
                    Ok(message) => {
                        self.status = message.message;
                        self.status_error = false;
                    },
                    Err(e) => {
                        self.status = join("Error: ", e.as_str());
                        self.status_error = true;
                    },
                }
                self.awaiting = false;
            }
        }
    }

    /// The request the fields make; when a field is missing, the status
    /// names it as an error and nothing is returned.
    pub fn cast_fields(&mut self) -> (r: Option<AddBookRequest>)
        ensures
            match cast_result(old(self).fields) {
                Ok(req) => r == Some(req) && *final(self) == *old(self),
                Err(m) => {
                    &&& r is None
                    &&& final(self).status@ == m
                    &&& final(self).status_error
                    &&& final(self).open == old(self).open
                    &&& final(self).fields == old(self).fields
                    &&& final(self).loading == old(self).loading
                    &&& final(self).awaiting == old(self).awaiting
                },
            },
    {
        let isbn = match self.fields.isbn {
            Some(isbn) => isbn,
            None => {
                self.status_error = true;
                self.status = String::from_str("Missing isbn");
                return None;
            },
        };
        let owner_id = match self.fields.owner_id {
            Some(id) => id,
            None => {
                self.status_error = true;
                self.status = String::from_str("Missing owner id");
                return None;
            },
        };
        let condition = match self.fields.condition {
            Some(condition) => condition,
            None => {
                self.status_error = true;
                self.status = String::from_str("Missing condition");
                return None;
            },
        };
        let title = if !str_is_blank(self.fields.title.as_str()) {
            self.fields.title.clone()
        } else {
            self.status_error = true;
            self.status = String::from_str("Missing title");
            return None;
        };
        let author = if !str_is_blank(self.fields.author.as_str()) {
            self.fields.author.clone()
        } else {
            self.status_error = true;
            self.status = String::from_str("Missing author");
            return None;
        };
        Some(AddBookRequest { isbn, title, author, owner_id, condition })
    }

    /// The "Add" button: sends the new book when every field is filled.
    pub fn fetch(&mut self, token: String) -> (call: Option<ApiCall<AddBookRequest>>)
        ensures
            match cast_result(old(self).fields) {
                Ok(req) => {
                    &&& call matches Some(c)
                    &&& c.method == HttpMethod::Post
                    &&& c.endpoint@ == "book/create"@
                    &&& c.body == Some(req)
                    &&& has_token_headers(c.headers@, token)
                    &&& final(self).loading
                    &&& final(self).awaiting
                    &&& final(self).status@ == "Loading..."@
                    &&& final(self).status_error == old(self).status_error
                    &&& final(self).open == old(self).open
                    &&& final(self).fields == old(self).fields
                },
                Err(m) => {
                    &&& call is None
                    &&& final(self).status@ == m
                    &&& final(self).status_error
                    &&& final(self).open == old(self).open
                    &&& final(self).fields == old(self).fields
                    &&& final(self).loading == old(self).loading
                    &&& final(self).awaiting == old(self).awaiting
                },
            },
    {
        let body = match self.cast_fields() {
            Some(body) => body,
            None => {
                return None;
            },
        };
        self.loading = true;
        self.status = String::from_str("Loading...");
        self.awaiting = true;
        Some(
            ApiCall {
                method: HttpMethod::Post,
                endpoint: String::from_str("book/create"),
                body: Some(body),
                headers: token_headers(token),
            },
        )
    }
}

/// A book is refused exactly when a field is missing; otherwise the
/// request carries every field as typed: the title as title, the author
/// as author, and the ISBN, owner and condition numbers.
pub proof fn lemma_cast_keeps_fields(f: Fields)
    ensures
        cast_result(f) is Ok <==> (f.isbn is Some && f.owner_id is Some && f.condition is Some
            && !is_blank(f.title@) && !is_blank(f.author@)),
        cast_result(f) matches Ok(r) ==> {
            &&& Some(r.isbn) == f.isbn
            &&& r.title == f.title
            &&& r.author == f.author
            &&& Some(r.owner_id) == f.owner_id
            &&& Some(r.condition) == f.condition
        },
{
}

} // verus!
