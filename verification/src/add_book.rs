//! The first screen that records a new book, with text fields only.

use vstd::prelude::*;
use crate::requests::{HttpMethod, UrlCall, bearer_headers, has_bearer_headers};
use crate::text::{join, parse_i32, parse_i32_spec};

verus! {

/// A new book as this screen sends it.
pub struct AddBookRequest {
    pub isbn: String,
    pub title: String,
    pub author: String,
    pub owner_id: i32,
    pub condition: String,
}

/// What the screen asks the window around it to do.
pub enum AddBookAction {
    Back,
}

pub struct AddBookApp {
    pub token: String,
    pub isbn: String,
    pub title: String,
    pub author: String,
    pub owner_id: String,
    pub condition: String,
    pub status: String,
    pub loading: bool,
    /// A request was sent and its reply has not come yet.
    pub awaiting: bool,
}

impl AddBookApp {
    /// Empty fields, the condition preset to "good".
    pub fn new(token: String) -> (a: Self)
        ensures
            a.token == token,
            a.isbn@.len() == 0 && a.title@.len() == 0 && a.author@.len() == 0,
            a.owner_id@.len() == 0,
            a.condition@ == "good"@,
            a.status@.len() == 0,
            !a.loading && !a.awaiting,
    {
        AddBookApp {
            token,
            isbn: String::new(),
            title: String::new(),
            author: String::new(),
            owner_id: String::new(),
            condition: String::from_str("good"),
            status: String::new(),
            loading: false,
            awaiting: false,
        }
    }

    /// Handles the server's answer, if one was awaited and came: its text,
    /// or the error.
    pub fn poll(&mut self, msg: Option<Result<String, String>>)
        ensures
            (old(self).awaiting && msg is Some) ==> {
                &&& !final(self).loading
                &&& !final(self).awaiting
                &&& final(self).status@ == match msg.unwrap() {
                    Ok(m) => m@,
                    Err(e) => "Error: "@ + e@,
                }
                &&& *final(self) == (AddBookApp {
                    loading: false,
                    awaiting: false,
                    status: final(self).status,
                    ..*old(self)
                })
            },
            !(old(self).awaiting && msg is Some) ==> *final(self) == *old(self),
    {
        if self.awaiting {
            if let Some(result) = msg {
                self.loading = false;
                match result {
                    Ok(m) => self.status = m,
                    Err(err) => self.status = join("Error: ", err.as_str()),
                }
                self.awaiting = false;
            }
        }
    }

    /// The "Submit" button: unless a request is loading, sends the book;
    /// an owner number that does not parse as an `i32` is sent as 0.
    pub fn submit(&mut self) -> (call: Option<UrlCall<AddBookRequest>>)
        ensures
            old(self).loading ==> call is None && *final(self) == *old(self),
            !old(self).loading ==> {
                &&& *final(self) == (AddBookApp {
                    loading: true,
                    awaiting: true,
                    status: final(self).status,
                    ..*old(self)
                })
                &&& final(self).status@ == "Sending..."@
                &&& call matches Some(c)
                &&& c.method == HttpMethod::Post
                &&& c.url@ == "http://88.175.41.67:8080/add-book"@
                &&& has_bearer_headers(c.headers@, "Authorization"@, old(self).token@)
                &&& c.body == Some(
                    AddBookRequest {
                        isbn: old(self).isbn,
                        title: old(self).title,
                        author: old(self).author,
                        owner_id: match parse_i32_spec(old(self).owner_id@) {
                            Some(v) => v,
                            None => 0,
                        },
                        condition: old(self).condition,
                    },
                )
            },
    {
        if self.loading {
            return None;
        }
        self.loading = true;
        self.status = String::from_str("Sending...");
        self.awaiting = true;
        let owner_id = match parse_i32(self.owner_id.as_str()) {
            Some(v) => v,
            None => 0,
        };
        let req = AddBookRequest {
            isbn: self.isbn.clone(),
            title: self.title.clone(),
            author: self.author.clone(),
            owner_id,
            condition: self.condition.clone(),
        };
        Some(
            UrlCall {
                method: HttpMethod::Post,
                url: String::from_str("http://88.175.41.67:8080/add-book"),
                body: Some(req),
                headers: bearer_headers("Authorization", self.token.as_str()),
            },
        )
    }
}

} // verus!
