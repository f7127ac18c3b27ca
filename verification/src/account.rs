//! The account screen: who is logged in, and the ways to the
//! administration screens.

use vstd::prelude::*;
use crate::requests::{HttpMethod, LegacyReply, UrlCall, bearer_headers, has_bearer_headers, legacy_result, legacy_result_spec};
use crate::text::{join, owned};

verus! {

/// The user as the server describes them.
pub struct UserInfo {
    pub username: String,
    pub user_role: i32,
}

/// The server's reply about the user.
pub struct UserResponse {
    pub user: UserInfo,
}

/// The name shown for a role number: 1 is an administrator, 0 a user.
pub open spec fn role_name(role: i32) -> Seq<char> {
    if role == 1 {
        "Admin"@
    } else if role == 0 {
        "User"@
    } else {
        "Unknown"@
    }
}

pub fn role_to_string(role: i32) -> (s: &'static str)
    ensures
        s@ == role_name(role),
{
    match role {
        1 => "Admin",
        0 => "User",
        _ => "Unknown",
    }
}

/// What the reply about the user turns into: the user name and the name
/// of their role, or a message.
pub fn user_info_result(reply: LegacyReply<UserResponse>) -> (r: Result<(String, String), String>)
    ensures
        match (r, legacy_result_spec(reply)) {
            (Ok(a), Ok(b)) => a.0 == b.user.username && a.1@ == role_name(b.user.user_role),
            (Err(a), Err(b)) => a@ == b,
            _ => false,
        },
{
    match legacy_result(reply) {
        Ok(data) => {
            let level = owned(role_to_string(data.user.user_role));
            Ok((data.user.username, level))
        },
        Err(e) => Err(e),
    }
}

/// What the screen asks the window around it to do.
pub enum AccountAction {
    Back,
    OpenAddBook,
    OpenAddOwner,
    OpenAddUser,
    OpenUserPrivilege,
}

pub struct AccountApp {
    pub token: String,
    pub username: String,
    pub user_level: String,
    pub loading: bool,
    pub status: String,
    /// The user was asked for and the answer has not come yet.
    pub awaiting: bool,
}

impl AccountApp {
    /// The screen before the user is known: it starts loading.
    pub fn new(token: String) -> (a: Self)
        ensures
            a.token == token,
            a.username@.len() == 0,
            a.user_level@.len() == 0,
            a.loading,
            a.status@.len() == 0,
            !a.awaiting,
    {
        AccountApp {
            token,
            username: String::new(),
            user_level: String::new(),
            loading: true,
            status: String::new(),
            awaiting: false,
        }
    }

    /// Whether the user must be asked for this frame: it is loading and
    /// nothing was asked yet.
    pub fn needs_fetch(&self) -> (b: bool)
        ensures
            b == (self.loading && !self.awaiting),
    {
        self.loading && !self.awaiting
    }

    /// Asks the server who is logged in.
    pub fn fetch_user_info(&mut self) -> (call: UrlCall<()>)
        ensures
            *final(self) == (AccountApp {
                loading: true,
                awaiting: true,
                status: final(self).status,
                ..*old(self)
            }),
            final(self).status@ == "Loading user info..."@,
            call.method == HttpMethod::Get,
            call.url@ == "http://88.175.41.67:8080/get-user-infos"@,
            has_bearer_headers(call.headers@, "Authorization"@, old(self).token@),
            call.body is None,
    {
        self.loading = true;
        self.status = String::from_str("Loading user info...");
        self.awaiting = true;
        UrlCall {
            method: HttpMethod::Get,
            url: String::from_str("http://88.175.41.67:8080/get-user-infos"),
            body: None,
            headers: bearer_headers("Authorization", self.token.as_str()),
        }
    }

    /// Handles the answer about the user, if one was awaited and came.
    pub fn poll(&mut self, msg: Option<Result<(String, String), String>>)
        ensures
            (old(self).awaiting && msg is Some) ==> {
                &&& !final(self).loading
                &&& !final(self).awaiting
                &&& final(self).token == old(self).token
                &&& match msg.unwrap() {
                    Ok((name, level)) => {
                        &&& final(self).username == name
                        &&& final(self).user_level == level
                        &&& final(self).status == old(self).status
                    },
                    Err(e) => {
                        &&& final(self).username == old(self).username
                        &&& final(self).user_level == old(self).user_level
                        &&& final(self).status@ == "Error: "@ + e@
                    },
                }
            },
            !(old(self).awaiting && msg is Some) ==> *final(self) == *old(self),
    {
        if self.awaiting {
            if let Some(result) = msg {
                self.loading = false;
                match result {
                    Ok((username, level)) => {
                        self.username = username;
                        self.user_level = level;
                    },
                    Err(err) => {
                        self.status = join("Error: ", err.as_str());
                    },
                }
                self.awaiting = false;
            }
        }
    }

    /// The greeting line: a waiting message while loading, else
    /// "Hi <user>, <level>".
    pub fn greeting(&self) -> (s: String)
        ensures
            s@ == if self.loading {
                "⏳ Loading user info..."@
            } else {
                "Hi "@ + self.username@ + ", "@ + self.user_level@
            },
    {
        if self.loading {
            String::from_str("⏳ Loading user info...")
        } else {
            let mut s = join("Hi ", self.username.as_str());
            s.append(", ");
            s.append(self.user_level.as_str());
            s
        }
    }
}

} // verus!
