//! Client-side logic of the Library Manager desktop application: the
//! data model of books and owners, the search forms and their paging, the
//! sub-windows that add, borrow and return books, the login screen, the
//! colour themes, and the shaping of HTTP calls to the library server.
//!
//! Everything here is plain computation on values. The window toolkit, the
//! network and the JSON encoding live in the application around it.


pub mod main_app;
pub mod constants;
pub mod requests;
pub mod text;
pub mod theme;
pub mod utils;
pub mod login;
pub mod app;
pub mod add_book;
pub mod add_owner;
pub mod add_user;
pub mod user_privilege;
pub mod account;
pub mod book_details;
