//! The first main window of the client: one screen that searches books or
//! owners and lists the overdue books, talking to fixed server addresses.

use vstd::prelude::*;
use crate::requests::{HttpMethod, LegacyReply, UrlCall, bearer_headers, has_bearer_headers, legacy_result};
use crate::text::{decimal, decimal_string, join, parse_i32, parse_i32_spec};

verus! {

/// Which search the screen shows.
#[derive(Clone, Copy, PartialEq, Eq, Structural, Debug)]
pub enum SearchMode {
    Books,
    Owners,
}

/// What the screen asks the window around it to do.
pub enum MainAction {
    OpenAccount,
    OpenBookDetails(Book),
}

/// A book as the first server version sent it.
pub struct Book {
    pub isbn: String,
    pub title: String,
    pub author: String,
    pub owner_id: i32,
    pub available: i32,
    pub condition: i32,
    pub borrow_date: Option<String>,
}

impl Clone for Book {
    fn clone(&self) -> (r: Self)
        ensures
            r == *self,
    {
        Book {
            isbn: self.isbn.clone(),
            title: self.title.clone(),
            author: self.author.clone(),
            owner_id: self.owner_id,
            available: self.available,
            condition: self.condition,
            borrow_date: crate::main_app::models::clone_opt_string(&self.borrow_date),
        }
    }
}

/// An owner as the first server version sent it.
pub struct Owner {
    pub id: i32,
    pub name: String,
    pub lastname: String,
    pub mail: String,
}

/// The criteria of a book search typed on this screen.
pub struct BookSearchRequest {
    pub isbn: Option<String>,
    pub title: Option<String>,
    pub author: Option<String>,
    pub owner_id: Option<i32>,
}

/// The criteria of the refresh button's book search.
pub struct BookFetchRequest {
    pub isbn: Option<String>,
    pub title: Option<String>,
    pub author: Option<String>,
    pub owner_id: Option<String>,
}

/// The criteria of an owner search typed on this screen.
pub struct OwnerSearchRequest {
    pub mail: Option<String>,
    pub name: Option<String>,
    pub lastname: Option<String>,
}

/// A criterion typed on this screen: absent when the field is empty.
pub open spec fn typed(s: String) -> Option<String> {
    if s@.len() == 0 {
        None
    } else {
        Some(s)
    }
}

fn typed_of(s: &String) -> (r: Option<String>)
    ensures
        r == typed(*s),
{
    if s.as_str().unicode_len() == 0 {
        None
    } else {
        Some(s.clone())
    }
}

/// What came back for a book search on this screen: it could not be sent,
/// the status was not a success (with the reply's text), the body could
/// not be read, or the body's text with its two decodings, as a list of
/// books and as an object with a `books` list.
pub enum BookSearchReply {
    NotSent(String),
    ErrorStatus(String),
    BodyUnreadable(String),
    Body { text: String, as_list: Result<Vec<Book>, String>, as_wrapped: Result<Vec<Book>, String> },
}

/// The result of a book search: the list decoding if it worked, else the
/// wrapped one, else a message with both decoding errors and the body.
pub open spec fn book_search_result_spec(reply: BookSearchReply) -> Result<Seq<Book>, Seq<char>> {
    match reply {
        BookSearchReply::NotSent(e) => Err("Request failed: "@ + e@),
        BookSearchReply::ErrorStatus(t) => Err("Error response: "@ + t@),
        BookSearchReply::BodyUnreadable(e) => Err("Failed to read body: "@ + e@),
        BookSearchReply::Body { text, as_list, as_wrapped } => match as_list {
            Ok(books) => Ok(books@),
            Err(e1) => match as_wrapped {
                Ok(books) => Ok(books@),
                Err(e2) => Err(
                    "Parse error (array): "@ + e1@ + " | (wrapped): "@ + e2@ + " | body: "@ + text@,
                ),
            },
        },
    }
}

pub fn book_search_result(reply: BookSearchReply) -> (r: Result<Vec<Book>, String>)
    ensures
        match (r, book_search_result_spec(reply)) {
            (Ok(a), Ok(b)) => a@ == b,
            (Err(a), Err(b)) => a@ == b,
            _ => false,
        },
{
    match reply {
        BookSearchReply::NotSent(e) => Err(join("Request failed: ", e.as_str())),
        BookSearchReply::ErrorStatus(t) => Err(join("Error response: ", t.as_str())),
        BookSearchReply::BodyUnreadable(e) => Err(join("Failed to read body: ", e.as_str())),
        BookSearchReply::Body { text, as_list, as_wrapped } => match as_list {
            Ok(books) => Ok(books),
            Err(e1) => match as_wrapped {
                Ok(books) => Ok(books),
                Err(e2) => {
                    let mut m = join("Parse error (array): ", e1.as_str());
                    m.append(" | (wrapped): ");
                    m.append(e2.as_str());
                    m.append(" | body: ");
                    m.append(text.as_str());
                    Err(m)
                },
            },
        },
    }
}

/// The result of the refresh button's search: like `legacy_result`, but a
/// status that is not a success gives the reply's text alone.
pub fn book_fetch_result(reply: LegacyReply<Vec<Book>>) -> (r: Result<Vec<Book>, String>)
    ensures
        match reply {
            LegacyReply::ErrorStatus(t) => r matches Err(m) && m == t,
            _ => match (r, crate::requests::legacy_result_spec(reply)) {
                (Ok(a), Ok(b)) => a == b,
                (Err(a), Err(b)) => a@ == b,
                _ => false,
            },
        },
{
    match reply {
        LegacyReply::ErrorStatus(t) => Err(t),
        _ => legacy_result(reply),
    }
}

pub struct MainApp {
    pub token: String,
    pub books: Vec<Book>,
    pub owners: Vec<Owner>,
    pub loading: bool,
    pub status: String,
    /// A book search was sent and its result has not come yet.
    pub awaiting_books: bool,
    /// An owner search was sent and its result has not come yet.
    pub awaiting_owners: bool,
    pub search_mode: SearchMode,
    pub search_title: String,
    pub search_author: String,
    pub search_isbn: String,
    pub search_owner_id: String,
    pub search_mail: String,
    pub search_name: String,
    pub search_lastname: String,
    pub late_books: Vec<Book>,
    /// The overdue books were asked for; no reply is ever read.
    pub awaiting_late_books: bool,
    pub show_notifications: bool,
    pub selected_book: Option<Book>,
}

impl MainApp {
    /// An empty screen in book mode.
    pub fn new(token: String) -> (a: Self)
        ensures
            a.token == token,
            a.books@.len() == 0,
            a.owners@.len() == 0,
            !a.loading,
            a.status@.len() == 0,
            !a.awaiting_books && !a.awaiting_owners && !a.awaiting_late_books,
            a.search_mode == SearchMode::Books,
            a.search_title@.len() == 0 && a.search_author@.len() == 0,
            a.search_isbn@.len() == 0 && a.search_owner_id@.len() == 0,
            a.search_mail@.len() == 0 && a.search_name@.len() == 0,
            a.search_lastname@.len() == 0,
            a.late_books@.len() == 0,
            !a.show_notifications,
            a.selected_book is None,
    {
        MainApp {
            token,
            books: Vec::new(),
            owners: Vec::new(),
            loading: false,
            status: String::new(),
            awaiting_books: false,
            awaiting_owners: false,
            search_mode: SearchMode::Books,
            search_title: String::new(),
            search_author: String::new(),
            search_isbn: String::new(),
            search_owner_id: String::new(),
            search_mail: String::new(),
            search_name: String::new(),
            search_lastname: String::new(),
            late_books: Vec::new(),
            awaiting_late_books: false,
            show_notifications: false,
            selected_book: None,
        }
    }

    /// Handles the search results that came since the last frame.
    pub fn poll(
        &mut self,
        books_msg: Option<Result<Vec<Book>, String>>,
        owners_msg: Option<Result<Vec<Owner>, String>>,
    )
        ensures
            ({
                let books_done = old(self).awaiting_books && books_msg is Some;
                let owners_done = old(self).awaiting_owners && owners_msg is Some;
                &&& final(self).awaiting_books == (old(self).awaiting_books && !books_done)
                &&& final(self).awaiting_owners == (old(self).awaiting_owners && !owners_done)
                &&& final(self).loading == (old(self).loading && !books_done && !owners_done)
                &&& final(self).books@ == if books_done && books_msg.unwrap() is Ok {
                    books_msg.unwrap()->Ok_0@
                } else {
                    old(self).books@
                }
                &&& final(self).owners@ == if owners_done && owners_msg.unwrap() is Ok {
                    owners_msg.unwrap()->Ok_0@
                } else {
                    old(self).owners@
                }
                &&& owners_done ==> final(self).status@ == match owners_msg.unwrap() {
                    Ok(_) => "Loaded owners!"@,
                    Err(e) => "Error: "@ + e@,
                }
                &&& (books_done && !owners_done) ==> final(self).status@ == match books_msg.unwrap() {
                    Ok(_) => "Loaded books!"@,
                    Err(e) => "Error: "@ + e@,
                }
                &&& (!books_done && !owners_done) ==> final(self).status == old(self).status
            }),
            *final(self) == (MainApp {
                loading: final(self).loading,
                awaiting_books: final(self).awaiting_books,
                awaiting_owners: final(self).awaiting_owners,
                books: final(self).books,
                owners: final(self).owners,
                status: final(self).status,
                ..*old(self)
            }),
    {
        if self.awaiting_books {
            if let Some(result) = books_msg {
                self.loading = false;
                match result {
                    Ok(books) => {
                        self.books = books;
                        self.status = String::from_str("Loaded books!");
                    },
                    Err(err) => {
                        self.status = join("Error: ", err.as_str());
                    },
                }
                self.awaiting_books = false;
            }
        }
        if self.awaiting_owners {
            if let Some(result) = owners_msg {
                self.loading = false;
                match result {
                    Ok(owners) => {
                        self.owners = owners;
                        self.status = String::from_str("Loaded owners!");
                    },
                    Err(err) => {
                        self.status = join("Error: ", err.as_str());
                    },
                }
                self.awaiting_owners = false;
            }
        }
    }

    /// Searches books with the typed criteria; the owner number is read
    /// as an `i32` and left out when it does not parse.
    pub fn search_books(&mut self) -> (call: UrlCall<BookSearchRequest>)
        ensures
            *final(self) == (MainApp {
                loading: true,
                awaiting_books: true,
                status: final(self).status,
                ..*old(self)
            }),
            final(self).status@ == "Searching..."@,
            call.method == HttpMethod::Post,
            call.url@ == "http://88.175.41.67:8080/search-books"@,
            has_bearer_headers(call.headers@, "authorization"@, old(self).token@),
            call.body == Some(
                BookSearchRequest {
                    isbn: typed(old(self).search_isbn),
                    title: typed(old(self).search_title),
                    author: typed(old(self).search_author),
                    owner_id: parse_i32_spec(old(self).search_owner_id@),
                },
            ),
    {
        self.loading = true;
        self.status = String::from_str("Searching...");
        self.awaiting_books = true;
        let req = BookSearchRequest {
            isbn: typed_of(&self.search_isbn),
            title: typed_of(&self.search_title),
            author: typed_of(&self.search_author),
            owner_id: parse_i32(self.search_owner_id.as_str()),
        };
        UrlCall {
            method: HttpMethod::Post,
            url: String::from_str("http://88.175.41.67:8080/search-books"),
            body: Some(req),
            headers: bearer_headers("authorization", self.token.as_str()),
        }
    }

    /// Searches owners with the typed criteria.
    pub fn search_owners(&mut self) -> (call: UrlCall<OwnerSearchRequest>)
        ensures
            *final(self) == (MainApp {
                loading: true,
                awaiting_owners: true,
                status: final(self).status,
                ..*old(self)
            }),
            final(self).status@ == "Searching owners..."@,
            call.method == HttpMethod::Post,
            call.url@ == "http://88.175.41.67:8080/search-owners"@,
            has_bearer_headers(call.headers@, "Authorization"@, old(self).token@),
            call.body == Some(
                OwnerSearchRequest {
                    mail: typed(old(self).search_mail),
                    name: typed(old(self).search_name),
                    lastname: typed(old(self).search_lastname),
                },
            ),
    {
        self.loading = true;
        self.status = String::from_str("Searching owners...");
        self.awaiting_owners = true;
        let req = OwnerSearchRequest {
            mail: typed_of(&self.search_mail),
            name: typed_of(&self.search_name),
            lastname: typed_of(&self.search_lastname),
        };
        UrlCall {
            method: HttpMethod::Post,
            url: String::from_str("http://88.175.41.67:8080/search-owners"),
            body: Some(req),
            headers: bearer_headers("Authorization", self.token.as_str()),
        }
    }

    /// Searches books with the given criteria.
    pub fn fetch_books(
        &mut self,
        isbn: Option<String>,
        title: Option<String>,
        author: Option<String>,
        owner_id: Option<String>,
    ) -> (call: UrlCall<BookFetchRequest>)
        ensures
            *final(self) == (MainApp {
                loading: true,
                awaiting_books: true,
                status: final(self).status,
                ..*old(self)
            }),
            final(self).status@ == "Loading, please wait."@,
            call.method == HttpMethod::Post,
            call.url@ == "http://88.175.41.67:8080/search-books"@,
            has_bearer_headers(call.headers@, "Authorization"@, old(self).token@),
            call.body == Some(BookFetchRequest { isbn, title, author, owner_id }),
    {
        self.loading = true;
        self.status = String::from_str("Loading, please wait.");
        self.awaiting_books = true;
        UrlCall {
            method: HttpMethod::Post,
            url: String::from_str("http://88.175.41.67:8080/search-books"),
            body: Some(BookFetchRequest { isbn, title, author, owner_id }),
            headers: bearer_headers("Authorization", self.token.as_str()),
        }
    }

    /// Asks for the overdue books.
    pub fn fetch_late_books(&mut self) -> (call: UrlCall<()>)
        ensures
            *final(self) == (MainApp {
                loading: true,
                awaiting_late_books: true,
                status: final(self).status,
                ..*old(self)
            }),
            final(self).status@ == "Loading notifications..."@,
            call.method == HttpMethod::Post,
            call.url@ == "http://88.175.41.67:8080/late-borrowed-books"@,
            has_bearer_headers(call.headers@, "Authorization"@, old(self).token@),
            call.body is None,
    {
        self.loading = true;
        self.status = String::from_str("Loading notifications...");
        self.awaiting_late_books = true;
        UrlCall {
            method: HttpMethod::Post,
            url: String::from_str("http://88.175.41.67:8080/late-borrowed-books"),
            body: None,
            headers: bearer_headers("Authorization", self.token.as_str()),
        }
    }

    /// The refresh button: reloads every book unless a search is loading.
    pub fn refresh_clicked(&mut self) -> (call: Option<UrlCall<BookFetchRequest>>)
        ensures
            old(self).loading ==> call is None && *final(self) == *old(self),
            !old(self).loading ==> (call matches Some(c) && c.body == Some(
                BookFetchRequest { isbn: None, title: None, author: None, owner_id: None },
            ) && c.url@ == "http://88.175.41.67:8080/search-books"@ && has_bearer_headers(
                c.headers@,
                "Authorization"@,
                old(self).token@,
            ) && *final(self) == (MainApp {
                loading: true,
                awaiting_books: true,
                status: final(self).status,
                ..*old(self)
            }) && final(self).status@ == "Loading, please wait."@),
    {
        if !self.loading {
            Some(self.fetch_books(None, None, None, None))
        } else {
            None
        }
    }

    /// The "Search Books" button: searches books unless a search is
    /// loading.
    pub fn search_books_clicked(&mut self) -> (call: Option<UrlCall<BookSearchRequest>>)
        ensures
            old(self).loading ==> call is None && *final(self) == *old(self),
            !old(self).loading ==> (call matches Some(c) && c.method == HttpMethod::Post
                && c.url@ == "http://88.175.41.67:8080/search-books"@ && has_bearer_headers(
                c.headers@,
                "authorization"@,
                old(self).token@,
            ) && c.body == Some(
                BookSearchRequest {
                    isbn: typed(old(self).search_isbn),
                    title: typed(old(self).search_title),
                    author: typed(old(self).search_author),
                    owner_id: parse_i32_spec(old(self).search_owner_id@),
                },
            )),
            !old(self).loading ==> *final(self) == (MainApp {
                loading: true,
                awaiting_books: true,
                status: final(self).status,
                ..*old(self)
            }),
            !old(self).loading ==> final(self).status@ == "Searching..."@,
    {
        if !self.loading {
            Some(self.search_books())
        } else {
            None
        }
    }

    /// The "Search Owners" button: searches owners unless a search is
    /// loading.
    pub fn search_owners_clicked(&mut self) -> (call: Option<UrlCall<OwnerSearchRequest>>)
        ensures
            old(self).loading ==> call is None && *final(self) == *old(self),
            !old(self).loading ==> (call matches Some(c) && c.method == HttpMethod::Post
                && c.url@ == "http://88.175.41.67:8080/search-owners"@ && has_bearer_headers(
                c.headers@,
                "Authorization"@,
                old(self).token@,
            ) && c.body == Some(
                OwnerSearchRequest {
                    mail: typed(old(self).search_mail),
                    name: typed(old(self).search_name),
                    lastname: typed(old(self).search_lastname),
                },
            )),
            !old(self).loading ==> *final(self) == (MainApp {
                loading: true,
                awaiting_owners: true,
                status: final(self).status,
                ..*old(self)
            }),
            !old(self).loading ==> final(self).status@ == "Searching owners..."@,
    {
        if !self.loading {
            Some(self.search_owners())
        } else {
            None
        }
    }

    /// The bell button: asks for the overdue books and shows or hides
    /// their window.
    pub fn bell_clicked(&mut self) -> (call: UrlCall<()>)
        ensures
            *final(self) == (MainApp {
                loading: true,
                awaiting_late_books: true,
                show_notifications: !old(self).show_notifications,
                status: final(self).status,
                ..*old(self)
            }),
            final(self).status@ == "Loading notifications..."@,
            call.method == HttpMethod::Post,
            call.url@ == "http://88.175.41.67:8080/late-borrowed-books"@,
            has_bearer_headers(call.headers@, "Authorization"@, old(self).token@),
            call.body is None,
    {
        let call = self.fetch_late_books();
        self.show_notifications = !self.show_notifications;
        call
    }

    /// The label of the bell button.
    pub fn notif_label(&self) -> (s: String)
        ensures
            s@ == if self.late_books@.len() == 0 {
                "🔔"@
            } else {
                "🔔 ("@ + decimal(self.late_books@.len()) + ")"@
            },
    {
        if self.late_books.len() == 0 {
            String::from_str("🔔")
        } else {
            let mut s = join("🔔 (", decimal_string(self.late_books.len() as u64).as_str());
            s.append(")");
            s
        }
    }
}

} // verus!
