//! The screen where an administrator creates a user account.

use vstd::prelude::*;
use crate::requests::{HttpMethod, UrlCall, bearer_headers, has_bearer_headers};
use crate::text::join;

verus! {

/// The two levels of rights of a user account.
#[derive(Clone, Copy, PartialEq, Eq, Structural, Debug)]
pub enum AdminLevel {
    User,
    Admin,
}

impl AdminLevel {
    /// The name of the level on the server.
    pub open spec fn as_str_spec(self) -> Seq<char> {
        match self {
            AdminLevel::User => "user"@,
            AdminLevel::Admin => "admin"@,
        }
    }

    /// The name of the level shown to the user.
    pub open spec fn label_spec(self) -> Seq<char> {
        match self {
            AdminLevel::User => "User"@,
            AdminLevel::Admin => "Admin"@,
        }
    }

    pub fn as_str(&self) -> (s: &'static str)
        ensures
            s@ == self.as_str_spec(),
    {
        match self {
            AdminLevel::User => "user",
            AdminLevel::Admin => "admin",
        }
    }

    pub fn label(&self) -> (s: &'static str)
        ensures
            s@ == self.label_spec(),
    {
        match self {
            AdminLevel::User => "User",
            AdminLevel::Admin => "Admin",
        }
    }
}

/// The account change this screen sends.
pub struct AddUserRequest {
    pub username: String,
    pub password: String,
    pub user_level: String,
}

/// What the screen asks the window around it to do.
pub enum AddUserAction {
    Back,
}

pub struct AddUserApp {
    pub token: String,
    pub username: String,
    pub password: String,
    pub admin_level: AdminLevel,
    pub status: String,
    pub loading: bool,
    /// A request was sent and its reply has not come yet.
    pub awaiting: bool,
}

impl AddUserApp {
    /// Empty fields, the level preset to a plain user.
    pub fn new(token: String) -> (a: Self)
        ensures
            a.token == token,
            a.username@.len() == 0,
            a.password@.len() == 0,
            a.admin_level == AdminLevel::User,
            a.status@.len() == 0,
            !a.loading && !a.awaiting,
    {
        AddUserApp {
            token,
            username: String::new(),
            password: String::new(),
            admin_level: AdminLevel::User,
            status: String::new(),
            loading: false,
            awaiting: false,
        }
    }

    /// Handles the server's answer, if one was awaited and came: its text,
    /// or the error.
    pub fn poll(&mut self, msg: Option<Result<String, String>>)
        ensures
            (old(self).awaiting && msg is Some) ==> {
                &&& final(self).status@ == match msg.unwrap() {
                    Ok(m) => m@,
                    Err(e) => "Error: "@ + e@,
                }
                &&& *final(self) == (AddUserApp {
                    loading: false,
                    awaiting: false,
                    status: final(self).status,
                    ..*old(self)
                })
            },
            !(old(self).awaiting && msg is Some) ==> *final(self) == *old(self),
    {
        if self.awaiting {
            if let Some(result) = msg {
                self.loading = false;
                match result {
                    Ok(m) => self.status = m,
                    Err(err) => self.status = join("Error: ", err.as_str()),
                }
                self.awaiting = false;
            }
        }
    }

    /// The "Submit" button: unless a request is loading, sends the change
    /// with the level's server name.
    pub fn submit(&mut self) -> (call: Option<UrlCall<AddUserRequest>>)
        ensures
            old(self).loading ==> call is None && *final(self) == *old(self),
            !old(self).loading ==> {
                &&& *final(self) == (AddUserApp {
                    loading: true,
                    awaiting: true,
                    status: final(self).status,
                    ..*old(self)
                })
                &&& final(self).status@ == "Sending..."@
                &&& call matches Some(c)
                &&& c.method == HttpMethod::Post
                &&& c.url@ == "http://88.175.41.67:8080/create-user"@
                &&& has_bearer_headers(c.headers@, "Authorization"@, old(self).token@)
                &&& c.body matches Some(b)
                &&& b.username == old(self).username
                &&& b.password == old(self).password
                &&& b.user_level@ == old(self).admin_level.as_str_spec()
            },
    {
        if self.loading {
            return None;
        }
        self.loading = true;
        self.status = String::from_str("Sending...");
        self.awaiting = true;
        let req = AddUserRequest {
            username: self.username.clone(),
            password: self.password.clone(),
            user_level: String::from_str(self.admin_level.as_str()),
        };
        Some(
            UrlCall {
                method: HttpMethod::Post,
                url: String::from_str("http://88.175.41.67:8080/create-user"),
                body: Some(req),
                headers: bearer_headers("Authorization", self.token.as_str()),
            },
        )
    }
}

/// The server names of the levels: "admin" for an administrator, "user"
/// for a plain user; the two differ, so each level reaches the server as
/// itself.
pub proof fn lemma_level_names(a: AdminLevel, b: AdminLevel)
    ensures
        AdminLevel::Admin.as_str_spec() == "admin"@,
        AdminLevel::User.as_str_spec() == "user"@,
        a != b ==> a.as_str_spec() != b.as_str_spec(),
{
    reveal_strlit("admin");
    reveal_strlit("user");
    assert("admin"@[0] != "user"@[0]);
}

} // verus!
