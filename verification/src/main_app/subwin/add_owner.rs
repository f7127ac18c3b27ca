//! The window that records a new owner.

use vstd::prelude::*;
use crate::main_app::search_panel::has_token_headers;
use crate::requests::{ApiCall, HttpMethod, token_headers};
use crate::requests::structs::{AddOwnerRequest, AddOwnerResponse};
use crate::text::join;

verus! {

pub struct AddOwnerPanel {
    pub open: bool,
    pub fields: AddOwnerRequest,
    pub status: String,
    pub status_error: bool,
    pub loading: bool,
    /// A request was sent and its reply has not been handled yet.
    pub awaiting: bool,
}

impl AddOwnerPanel {
    /// A closed window with empty fields.
    pub fn new() -> (p: Self)
        ensures
            !p.open,
            p.fields.name@ == Seq::<char>::empty(),
            p.fields.lastname@ == Seq::<char>::empty(),
            p.fields.mail@ == Seq::<char>::empty(),
            p.status@ == Seq::<char>::empty(),
            !p.status_error,
            !p.loading,
            !p.awaiting,
    {
        AddOwnerPanel {
            open: false,
            fields: AddOwnerRequest {
                name: String::new(),
                lastname: String::new(),
                mail: String::new(),
            },
            status: String::new(),
            status_error: false,
            loading: false,
            awaiting: false,
        }
    }

    /// Handles the reply to the last request, if one was awaited and came:
    /// the server's message, or the error.
    pub fn poll(&mut self, msg: Option<Result<AddOwnerResponse, String>>)
        ensures
            final(self).open == old(self).open,
            final(self).fields == old(self).fields,
            (old(self).awaiting && msg is Some) ==> {
                &&& !final(self).loading
                &&& !final(self).awaiting
                &&& match msg.unwrap() {
                    Ok(m) => final(self).status == m.message && !final(self).status_error,
                    Err(e) => final(self).status@ == "Error: "@ + e@ && final(self).status_error,
                }
            },
            !(old(self).awaiting && msg is Some) ==> *final(self) == *old(self),
    {
        if self.awaiting {
            if let Some(result) = msg {
                self.loading = false;
                match result {
                    Ok(message) => {
                        self.status = message.message;
                        self.status_error = false;
                    },
                    Err(e) => {
                        self.status = join("Error: ", e.as_str());
                        self.status_error = true;
                    },
                }
                self.awaiting = false;
            }
        }
    }

    /// The request the fields make: the fields as they are.
    pub fn cast_fields(&mut self) -> (r: Option<AddOwnerRequest>)
        ensures
            r == Some(old(self).fields),
            *final(self) == *old(self),
    {
        Some(self.fields.clone())
    }

    /// The "Add" button: sends the new owner.
    pub fn fetch(&mut self, token: String) -> (call: ApiCall<AddOwnerRequest>)
        ensures
            call.method == HttpMethod::Post,
            call.endpoint@ == "owner/create"@,
            call.body == Some(old(self).fields),
            has_token_headers(call.headers@, token),
            final(self).loading,
            final(self).awaiting,
            final(self).status@ == "Loading..."@,
            final(self).status_error == old(self).status_error,
            final(self).open == old(self).open,
            final(self).fields == old(self).fields,
    {
        let body = self.cast_fields().unwrap();
        self.loading = true;
        self.status = String::from_str("Loading...");
        self.awaiting = true;
        ApiCall {
            method: HttpMethod::Post,
            endpoint: String::from_str("owner/create"),
            body: Some(body),
            headers: token_headers(token),
        }
    }
}

} // verus!
