//! The first screen that records a new owner.

use vstd::prelude::*;
use crate::requests::{HttpMethod, UrlCall, bearer_headers, has_bearer_headers};
use crate::text::join;

verus! {

/// A new owner as this screen sends it.
pub struct AddOwnerRequest {
    pub name: String,
    pub lastname: String,
    pub mail: String,
}

/// What the screen asks the window around it to do.
pub enum AddOwnerAction {
    Back,
}

pub struct AddOwnerApp {
    pub token: String,
    pub name: String,
    pub lastname: String,
    pub mail: String,
    pub status: String,
    pub loading: bool,
    /// A request was sent and its reply has not come yet.
    pub awaiting: bool,
}

impl AddOwnerApp {
    /// Empty fields.
    pub fn new(token: String) -> (a: Self)
        ensures
            a.token == token,
            a.name@.len() == 0 && a.lastname@.len() == 0 && a.mail@.len() == 0,
            a.status@.len() == 0,
            !a.loading && !a.awaiting,
    {
        AddOwnerApp {
            token,
            name: String::new(),
            lastname: String::new(),
            mail: String::new(),
            status: String::new(),
            loading: false,
            awaiting: false,
        }
    }

    /// Handles the server's answer, if one was awaited and came: its text,
    /// or the error.
    pub fn poll(&mut self, msg: Option<Result<String, String>>)
        ensures
            (old(self).awaiting && msg is Some) ==> {
                &&& final(self).status@ == match msg.unwrap() {
                    Ok(m) => m@,
                    Err(e) => "Error: "@ + e@,
                }
                &&& *final(self) == (AddOwnerApp {
                    loading: false,
                    awaiting: false,
                    status: final(self).status,
                    ..*old(self)
                })
            },
            !(old(self).awaiting && msg is Some) ==> *final(self) == *old(self),
    {
        if self.awaiting {
            if let Some(result) = msg {
                self.loading = false;
                match result {
                    Ok(m) => self.status = m,
                    Err(err) => self.status = join("Error: ", err.as_str()),
                }
                self.awaiting = false;
            }
        }
    }

    /// The "Submit" button: unless a request is loading, sends the owner.
    pub fn submit(&mut self) -> (call: Option<UrlCall<AddOwnerRequest>>)
        ensures
            old(self).loading ==> call is None && *final(self) == *old(self),
            !old(self).loading ==> {
                &&& *final(self) == (AddOwnerApp {
                    loading: true,
                    awaiting: true,
                    status: final(self).status,
                    ..*old(self)
                })
                &&& final(self).status@ == "Sending..."@
                &&& call matches Some(c)
                &&& c.method == HttpMethod::Post
                &&& c.url@ == "http://88.175.41.67:8080/add-owner"@
                &&& has_bearer_headers(c.headers@, "Authorization"@, old(self).token@)
                &&& c.body == Some(
                    AddOwnerRequest {
                        name: old(self).name,
                        lastname: old(self).lastname,
                        mail: old(self).mail,
                    },
                )
            },
    {
        if self.loading {
            return None;
        }
        self.loading = true;
        self.status = String::from_str("Sending...");
        self.awaiting = true;
        let req = AddOwnerRequest {
            name: self.name.clone(),
            lastname: self.lastname.clone(),
            mail: self.mail.clone(),
        };
        Some(
            UrlCall {
                method: HttpMethod::Post,
                url: String::from_str("http://88.175.41.67:8080/add-owner"),
                body: Some(req),
                headers: bearer_headers("Authorization", self.token.as_str()),
            },
        )
    }
}

} // verus!
