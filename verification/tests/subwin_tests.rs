use library_manager::constants::HEADER_TOKEN;
use library_manager::main_app::models::{Book, BookRow};
use library_manager::main_app::subwin::add_book::AddBookPanel;
use library_manager::main_app::subwin::add_owner::AddOwnerPanel;
use library_manager::main_app::subwin::book_details::BookDetailsPanel;
use library_manager::main_app::subwin::notifications::{NotificationView, NotificationsPanel};
use library_manager::requests::structs::{LateBooksResponse, MessResponse};

fn book(available: bool) -> Book {
    Book {
        isbn: 978,
        title: "Dune".into(),
        author: "Herbert".into(),
        owner_id: 2,
        available,
        condition: 1,
        borrow_date: None,
        borrower_mail: if available { None } else { Some("old@x".into()) },
    }
}

fn row(isbn: i64) -> BookRow {
    BookRow {
        isbn,
        title: "T".into(),
        author: "A".into(),
        owner_id: 1,
        available: 0,
        condition: 0,
        borrow_date: Some("2024-01-01".into()),
        borrower_mail: Some("x@y".into()),
    }
}

#[test]
fn add_book_names_first_missing_field() {
    let mut p = AddBookPanel::new();
    assert!(p.fetch("t".into()).is_none());
    assert_eq!(p.status, "Missing isbn");
    assert!(p.status_error);
    p.fields.isbn = Some(1);
    assert!(p.cast_fields().is_none());
    assert_eq!(p.status, "Missing owner id");
    p.fields.owner_id = Some(2);
    assert!(p.cast_fields().is_none());
    assert_eq!(p.status, "Missing condition");
    p.fields.condition = Some(3);
    p.fields.title = "   ".into();
    assert!(p.cast_fields().is_none());
    assert_eq!(p.status, "Missing title");
    p.fields.title = "Dune".into();
    assert!(p.cast_fields().is_none());
    assert_eq!(p.status, "Missing author");
    assert!(!p.loading);
}

#[test]
fn add_book_sends_when_complete() {
    let mut p = AddBookPanel::new();
    p.fields.isbn = Some(1);
    p.fields.owner_id = Some(2);
    p.fields.condition = Some(-1);
    p.fields.title = "Dune".into();
    p.fields.author = "Herbert".into();
    let call = p.fetch("tok".into()).unwrap();
    assert_eq!(call.endpoint, "book/create");
    assert_eq!(call.headers, vec![(HEADER_TOKEN.to_string(), "tok".to_string())]);
    let body = call.body.unwrap();
    assert_eq!((body.isbn, body.owner_id, body.condition), (1, 2, -1));
    assert_eq!(body.title, "Dune");
    assert!(p.loading && p.awaiting);
    assert_eq!(p.status, "Loading...");
    p.poll(Some(Ok(MessResponse { message: "Book added".into() })));
    assert_eq!(p.status, "Book added");
    assert!(!p.loading && !p.status_error);
    p.poll(Some(Err("late".into())));
    assert_eq!(p.status, "Book added");
}

#[test]
fn add_owner_sends_fields_as_typed() {
    let mut p = AddOwnerPanel::new();
    p.fields.name = "Ada".into();
    p.fields.mail = "ada@x".into();
    let call = p.fetch("tok".into());
    assert_eq!(call.endpoint, "owner/create");
    let body = call.body.unwrap();
    assert_eq!(body.name, "Ada");
    assert_eq!(body.lastname, "");
    p.poll(Some(Err("conflict".into())));
    assert_eq!(p.status, "Error: conflict");
    assert!(p.status_error);
}

#[test]
fn borrow_then_return_cycle() {
    let mut p = BookDetailsPanel::new();
    p.open_for(book(true));
    assert!(p.borrow("t".into()).is_none(), "blank mail sends nothing");
    assert!(!p.borrow_enabled());
    p.borrower_mail = "reader@x".into();
    assert!(p.borrow_enabled());
    let call = p.borrow("t".into()).unwrap();
    assert_eq!(call.endpoint, "book/borrow");
    let body = call.body.unwrap();
    assert_eq!((body.isbn, body.borrower_mail.as_str()), (978, "reader@x"));
    assert!(!p.borrow_enabled() && !p.return_enabled());
    p.poll(Some(Ok(MessResponse { message: "Borrowed".into() })));
    let b = p.book.clone().unwrap();
    assert!(!b.available);
    assert_eq!(b.borrower_mail.as_deref(), Some("reader@x"));
    assert_eq!(p.status, "Borrowed");

    let call = p.return_book("t".into()).unwrap();
    assert_eq!(call.endpoint, "book/return");
    assert_eq!(call.body.unwrap().isbn, 978);
    p.poll(Some(Ok(MessResponse { message: "Returned".into() })));
    let b = p.book.clone().unwrap();
    assert!(b.available);
    assert_eq!(b.borrower_mail, None);
    assert_eq!(p.borrower_mail, "");
}

#[test]
fn failed_loan_keeps_book() {
    let mut p = BookDetailsPanel::new();
    p.open_for(book(false));
    p.return_book("t".into()).unwrap();
    p.poll(Some(Err("refused".into())));
    assert!(!p.book.clone().unwrap().available);
    assert_eq!(p.status, "Error: refused");
    assert!(p.status_error);
}

#[test]
fn details_without_book() {
    let mut p = BookDetailsPanel::new();
    assert!(p.shown_book().is_none());
    assert!(p.return_book("t".into()).is_none());
    p.open = true;
    assert!(p.shown_book().is_none());
    assert!(!p.open);
    p.open_for(book(true));
    assert_eq!(p.shown_book().unwrap().isbn, 978);
}

#[test]
fn notifications_badge_and_view() {
    let (mut p, call) = NotificationsPanel::new("tok".into());
    assert_eq!(call.endpoint, "book/late-borrowed");
    assert_eq!(p.status, "Loading notifications...");
    assert_eq!(p.badge(), "🔔");
    p.poll(Some(Ok(LateBooksResponse { late_books: vec![] })));
    assert_eq!(p.status, "No late books");
    assert_eq!(p.view(), NotificationView::Status);
    p.fetch("tok".into());
    p.poll(Some(Ok(LateBooksResponse { late_books: vec![row(1)] })));
    assert_eq!(p.status, "Loaded");
    assert_eq!(p.badge(), "🔔(1)");
    assert_eq!(p.view(), NotificationView::Status);
    assert!(!p.books[0].available);
    p.fetch("tok".into());
    p.poll(Some(Ok(LateBooksResponse { late_books: vec![row(1), row(2), row(3)] })));
    assert_eq!(p.badge(), "🔔(3)");
    assert_eq!(p.view(), NotificationView::List);
    p.fetch("tok".into());
    p.poll(Some(Err("down".into())));
    assert_eq!(p.view(), NotificationView::Error);
    assert_eq!(p.books.len(), 3);
}
