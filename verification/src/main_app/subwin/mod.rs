//! The windows that open over the main window.

pub mod add_book;
pub mod add_owner;


pub mod book_details;
pub mod notifications;
