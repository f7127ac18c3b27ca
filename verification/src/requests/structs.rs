//! The bodies of the requests sent to the library server and of its replies.

use vstd::prelude::*;
use crate::main_app::models::{BookRow, Owner};

verus! {

/// A user name and a password, sent to open a session or to create an
/// account.
pub struct UserBody {
    pub username: String,
    pub password: String,
}

/// A reply that carries only a message for the user.
pub struct MessResponse {
    pub message: String,
}

pub type LoginRequest = UserBody;

/// The reply to a successful login: the session token.
pub struct LoginResponse {
    pub token: String,
}

pub type CreateUserRequest = UserBody;

pub type CreateUserResponse = MessResponse;

/// The criteria of a book search; a missing criterion matches every book.
pub struct BookSearchRequest {
    pub isbn: Option<i64>,
    pub title: Option<String>,
    pub author: Option<String>,
    pub owner_id: Option<i64>,
}

impl Default for BookSearchRequest {
    fn default() -> (r: Self)
        ensures
            r.isbn is None && r.title is None && r.author is None && r.owner_id is None,
    {
        BookSearchRequest { isbn: None, title: None, author: None, owner_id: None }
    }
}

/// The reply to a book search.
pub struct BooksResponse {
    pub books: Vec<BookRow>,
}

/// The criteria of an owner search; a missing criterion matches every owner.
pub struct OwnerSearchRequest {
    pub name: Option<String>,
    pub lastname: Option<String>,
    pub mail: Option<String>,
}

impl Default for OwnerSearchRequest {
    fn default() -> (r: Self)
        ensures
            r.name is None && r.lastname is None && r.mail is None,
    {
        OwnerSearchRequest { name: None, lastname: None, mail: None }
    }
}

/// The reply to an owner search.
pub struct OwnersResponse {
    pub owners: Vec<Owner>,
}

/// The reply listing the books whose loan is overdue.
pub struct LateBooksResponse {
    pub late_books: Vec<BookRow>,
}

/// A new book to record.
pub struct AddBookRequest {
    pub isbn: i64,
    pub title: String,
    pub author: String,
    pub owner_id: i64,
    pub condition: i8,
}

impl Clone for AddBookRequest {
    fn clone(&self) -> (r: Self)
        ensures
            r == *self,
    {
        AddBookRequest {
            isbn: self.isbn,
            title: self.title.clone(),
            author: self.author.clone(),
            owner_id: self.owner_id,
            condition: self.condition,
        }
    }
}

pub type AddBookResponse = MessResponse;

/// A new owner to record.
pub struct AddOwnerRequest {
    pub name: String,
    pub lastname: String,
    pub mail: String,
}

impl Clone for AddOwnerRequest {
    fn clone(&self) -> (r: Self)
        ensures
            r == *self,
    {
        AddOwnerRequest {
            name: self.name.clone(),
            lastname: self.lastname.clone(),
            mail: self.mail.clone(),
        }
    }
}

pub type AddOwnerResponse = MessResponse;

/// A slice of the whole catalogue, from position `begin` up to `end`.
#[derive(Clone, Copy)]
pub struct SampleBookRequest {
    pub begin: i64,
    pub end: i64,
}

/// The number of items the server holds.
pub struct CountResponse {
    pub count: i64,
}

/// Lends the book `isbn` to the borrower with that mail address.
pub struct BorrowBookRequest {
    pub isbn: i64,
    pub borrower_mail: String,
}

impl Clone for BorrowBookRequest {
    fn clone(&self) -> (r: Self)
        ensures
            r == *self,
    {
        BorrowBookRequest { isbn: self.isbn, borrower_mail: self.borrower_mail.clone() }
    }
}

/// Records that the book `isbn` came back.
#[derive(Clone, Copy)]
pub struct ReturnBookRequest {
    pub isbn: i64,
}

} // verus!
