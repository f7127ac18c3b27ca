//! The login screen: opening a session, or creating an account with the
//! administrator key.

use vstd::prelude::*;
use crate::constants::{ENDPOINT_CREATE_USER, ENDPOINT_LOGIN, HEADER_ADMIN_KEY};
use crate::requests::{ApiCall, HttpMethod};
use crate::requests::structs::{CreateUserRequest, CreateUserResponse, LoginRequest, LoginResponse, UserBody};
use crate::text::join;
use crate::theme::Theme;

verus! {

/// What the screen is for.
#[derive(Clone, Copy, PartialEq, Eq, Structural, Debug)]
pub enum Mode {
    Login,
    CreateAccount,
}

/// A call the screen sends.
pub enum LoginCall {
    Login(ApiCall<LoginRequest>),
    CreateAccount(ApiCall<CreateUserRequest>),
}

pub struct LoginApp {
    pub username: String,
    pub password: String,
    pub admin_key: String,
    pub theme: Theme,
    pub mode: Mode,
    pub status: String,
    pub status_error: bool,
    pub loading: bool,
    /// A login was sent and its reply has not been handled yet.
    pub awaiting_login: bool,
    /// An account creation was sent and its reply has not been handled yet.
    pub awaiting_create: bool,
    /// The session token once a login succeeded, until it is taken.
    pub token: Option<String>,
}

impl LoginApp {
    /// An empty login screen in the given theme.
    pub fn new(theme: Theme) -> (a: Self)
        ensures
            a.username@ == Seq::<char>::empty(),
            a.password@ == Seq::<char>::empty(),
            a.admin_key@ == Seq::<char>::empty(),
            a.theme == theme,
            a.mode == Mode::Login,
            a.status@ == Seq::<char>::empty(),
            !a.status_error,
            !a.loading,
            !a.awaiting_login,
            !a.awaiting_create,
            a.token is None,
    {
        LoginApp {
            username: String::new(),
            password: String::new(),
            admin_key: String::new(),
            theme,
            mode: Mode::Login,
            status: String::new(),
            status_error: false,
            loading: false,
            awaiting_login: false,
            awaiting_create: false,
            token: None,
        }
    }

    /// Handles the replies that came since the last frame. A successful
    /// login keeps the token until the screen hands it over; a successful
    /// account creation goes back to the login mode.
    pub fn poll(
        &mut self,
        login_msg: Option<Result<LoginResponse, String>>,
        create_msg: Option<Result<CreateUserResponse, String>>,
    )
        ensures
            final(self).username == old(self).username,
            final(self).password == old(self).password,
            final(self).admin_key == old(self).admin_key,
            final(self).theme == old(self).theme,
            ({
                let login_done = old(self).awaiting_login && login_msg is Some;
                let create_done = old(self).awaiting_create && create_msg is Some;
                &&& final(self).awaiting_login == (old(self).awaiting_login && !login_done)
                &&& final(self).awaiting_create == (old(self).awaiting_create && !create_done)
                &&& final(self).loading == (old(self).loading && !login_done && !create_done)
                &&& final(self).token == if login_done && login_msg.unwrap() is Ok {
                    Some(login_msg.unwrap()->Ok_0.token)
                } else {
                    old(self).token
                }
                &&& final(self).mode == if create_done && create_msg.unwrap() is Ok {
                    Mode::Login
                } else {
                    old(self).mode
                }
                &&& final(self).status_error == if create_done {
                    create_msg.unwrap() is Err
                } else if login_done {
                    login_msg.unwrap() is Err
                } else {
                    old(self).status_error
                }
                &&& (!login_done && !create_done) ==> final(self).status == old(self).status
                &&& create_done ==> final(self).status@ == match create_msg.unwrap() {
                    Ok(_) => "Account created, you can log in now."@,
                    Err(e) => "Error: "@ + e@,
                }
                &&& (login_done && !create_done) ==> final(self).status@ == match login_msg.unwrap() {
                    Ok(_) => "Login successful!"@,
                    Err(e) => "Error: "@ + e@,
                }
            }),
    {
        if self.awaiting_login {
            if let Some(result) = login_msg {
                self.loading = false;
                match result {
                    Ok(resp) => {
                        self.status = String::from_str("Login successful!");
                        self.token = Some(resp.token);
                        self.status_error = false;
                    },
                    Err(err) => {
                        self.status = join("Error: ", err.as_str());
                        self.status_error = true;
                    },
                }
                self.awaiting_login = false;
            }
        }
        if self.awaiting_create {
            if let Some(result) = create_msg {
                self.loading = false;
                match result {
                    Ok(_) => {
                        self.status = String::from_str("Account created, you can log in now.");
                        self.mode = Mode::Login;
                        self.status_error = false;
                    },
                    Err(err) => {
                        self.status = join("Error: ", err.as_str());
                        self.status_error = true;
                    },
                }
                self.awaiting_create = false;
            }
        }
    }

    /// The heading of the card.
    pub fn title(&self) -> (s: &'static str)
        ensures
            s@ == match self.mode {
                Mode::Login => "Login"@,
                Mode::CreateAccount => "Create Account"@,
            },
    {
        match self.mode {
            Mode::Login => "Login",
            Mode::CreateAccount => "Create Account",
        }
    }

    /// The label of the main button.
    pub fn action_label(&self) -> (s: &'static str)
        ensures
            s@ == match self.mode {
                Mode::Login => "Login"@,
                Mode::CreateAccount => "Create"@,
            },
    {
        match self.mode {
            Mode::Login => "Login",
            Mode::CreateAccount => "Create",
        }
    }

    /// The label of the link that switches mode.
    pub fn mode_link_label(&self) -> (s: &'static str)
        ensures
            s@ == match self.mode {
                Mode::Login => "No account yet? Create one"@,
                Mode::CreateAccount => "Back to login"@,
            },
    {
        match self.mode {
            Mode::Login => "No account yet? Create one",
            Mode::CreateAccount => "Back to login",
        }
    }

    /// Whether the administrator key field is shown.
    pub fn shows_admin_key(&self) -> (b: bool)
        ensures
            b == (self.mode == Mode::CreateAccount),
    {
        self.mode == Mode::CreateAccount
    }

    /// The main button: unless a call is loading, sends the login (with
    /// the user name and password) or the account creation (with the
    /// administrator key as a header).
    pub fn submit(&mut self) -> (call: Option<LoginCall>)
        ensures
            old(self).loading ==> call is None && *final(self) == *old(self),
            !old(self).loading ==> {
                &&& final(self).loading
                &&& !final(self).status_error
                &&& final(self).username == old(self).username
                &&& final(self).password == old(self).password
                &&& final(self).admin_key == old(self).admin_key
                &&& final(self).theme == old(self).theme
                &&& final(self).mode == old(self).mode
                &&& final(self).token == old(self).token
                &&& match old(self).mode {
                    Mode::Login => {
                        &&& final(self).status@ == "Logging in..."@
                        &&& final(self).awaiting_login
                        &&& final(self).awaiting_create == old(self).awaiting_create
                        &&& call matches Some(LoginCall::Login(c))
                        &&& c.method == HttpMethod::Post
                        &&& c.endpoint@ == ENDPOINT_LOGIN@
                        &&& c.body == Some(
                            UserBody { username: old(self).username, password: old(self).password },
                        )
                        &&& c.headers@.len() == 0
                    },
                    Mode::CreateAccount => {
                        &&& final(self).status@ == "Creating account..."@
                        &&& final(self).awaiting_create
                        &&& final(self).awaiting_login == old(self).awaiting_login
                        &&& call matches Some(LoginCall::CreateAccount(c))
                        &&& c.method == HttpMethod::Post
                        &&& c.endpoint@ == ENDPOINT_CREATE_USER@
                        &&& c.body == Some(
                            UserBody { username: old(self).username, password: old(self).password },
                        )
                        &&& c.headers@.len() == 1
                        &&& c.headers@[0].0@ == HEADER_ADMIN_KEY@
                        &&& c.headers@[0].1 == old(self).admin_key
                    },
                }
            },
    {
        if self.loading {
            return None;
        }
        self.loading = true;
        self.status_error = false;
        match self.mode {
            Mode::Login => {
                self.status = String::from_str("Logging in...");
                self.awaiting_login = true;
                Some(
                    LoginCall::Login(
                        ApiCall {
                            method: HttpMethod::Post,
                            endpoint: String::from_str(ENDPOINT_LOGIN),
                            body: Some(
                                UserBody {
                                    username: self.username.clone(),
                                    password: self.password.clone(),
                                },
                            ),
                            headers: Vec::new(),
                        },
                    ),
                )
            },
            Mode::CreateAccount => {
                self.status = String::from_str("Creating account...");
                self.awaiting_create = true;
                let mut headers: Vec<(String, String)> = Vec::new();
                headers.push((String::from_str(HEADER_ADMIN_KEY), self.admin_key.clone()));
                Some(
                    LoginCall::CreateAccount(
                        ApiCall {
                            method: HttpMethod::Post,
                            endpoint: String::from_str(ENDPOINT_CREATE_USER),
                            body: Some(
                                UserBody {
                                    username: self.username.clone(),
                                    password: self.password.clone(),
                                },
                            ),
                            headers,
                        },
                    ),
                )
            },
        }
    }

    /// The link that switches between logging in and creating an account;
    /// it clears the status line.
    pub fn toggle_mode(&mut self)
        ensures
            final(self).mode == match old(self).mode {
                Mode::Login => Mode::CreateAccount,
                Mode::CreateAccount => Mode::Login,
            },
            final(self).status@ == Seq::<char>::empty(),
            *final(self) == (LoginApp {
                mode: final(self).mode,
                status: final(self).status,
                ..*old(self)
            }),
    {
        self.mode = match self.mode {
            Mode::Login => Mode::CreateAccount,
            Mode::CreateAccount => Mode::Login,
        };
        self.status = String::new();
    }

    /// Switches the colour theme of the screen.
    pub fn toggle_theme(&mut self)
        ensures
            *final(self) == (LoginApp { theme: old(self).theme.toggled(), ..*old(self) }),
    {
        self.theme.toggle();
    }

    /// Hands over the session token once, after a successful login: the
    /// screen then forgets it.
    pub fn take_token(&mut self) -> (t: Option<String>)
        ensures
            t == old(self).token,
            *final(self) == without_token(*old(self)),
    {
        self.token.take()
    }
}

/// The screen once its token has been handed over.
pub open spec fn without_token(a: LoginApp) -> LoginApp {
    LoginApp { token: None, ..a }
}

/// A token is handed over at most once: once taken, asking again gives
/// nothing, and taking it changes nothing else on the screen.
pub proof fn lemma_token_handed_over_once(a: LoginApp)
    ensures
        without_token(a).token is None,
        without_token(without_token(a)) == without_token(a),
        without_token(a).username == a.username && without_token(a).mode == a.mode,
{
}

} // verus!
