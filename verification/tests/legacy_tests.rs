use library_manager::account::{role_to_string, user_info_result, AccountApp, UserInfo, UserResponse};
use library_manager::add_book::AddBookApp;
use library_manager::add_owner::AddOwnerApp;
use library_manager::add_user::{AddUserApp, AdminLevel};
use library_manager::app::{book_fetch_result, book_search_result, Book, BookSearchReply, MainApp};
use library_manager::book_details::BookDetailsApp;
use library_manager::requests::LegacyReply;
use library_manager::user_privilege::{AdminLevel as Level, UserPrivilegeApp};

fn old_book(isbn: &str) -> Book {
    Book {
        isbn: isbn.into(),
        title: "T".into(),
        author: "A".into(),
        owner_id: 1,
        available: 1,
        condition: 0,
        borrow_date: None,
    }
}

#[test]
fn old_search_builds_criteria() {
    let mut app = MainApp::new("tok".into());
    app.search_title = "Dune".into();
    app.search_owner_id = "12".into();
    let call = app.search_books();
    assert_eq!(call.url, "http://88.175.41.67:8080/search-books");
    assert_eq!(call.headers, vec![("authorization".to_string(), "Bearer tok".to_string())]);
    let b = call.body.unwrap();
    assert_eq!(b.title.as_deref(), Some("Dune"));
    assert_eq!(b.isbn, None);
    assert_eq!(b.owner_id, Some(12));
    assert_eq!(app.status, "Searching...");
    app.search_owner_id = "twelve".into();
    assert_eq!(app.search_books().body.unwrap().owner_id, None);
}

#[test]
fn old_search_result_falls_back_to_wrapped() {
    let r = book_search_result(BookSearchReply::Body {
        text: "{}".into(),
        as_list: Err("e1".into()),
        as_wrapped: Ok(vec![old_book("1")]),
    });
    assert_eq!(r.unwrap().len(), 1);
    let r = book_search_result(BookSearchReply::Body {
        text: "junk".into(),
        as_list: Err("e1".into()),
        as_wrapped: Err("e2".into()),
    });
    assert_eq!(r.err().unwrap(), "Parse error (array): e1 | (wrapped): e2 | body: junk");
    let r = book_search_result(BookSearchReply::ErrorStatus("nope".into()));
    assert_eq!(r.err().unwrap(), "Error response: nope");
    let r = book_fetch_result(LegacyReply::ErrorStatus("nope".into()));
    assert_eq!(r.err().unwrap(), "nope");
    let r = book_fetch_result(LegacyReply::Decoded(Err("bad".into())));
    assert_eq!(r.err().unwrap(), "Parse error: bad");
}

#[test]
fn old_main_poll_and_bell() {
    let mut app = MainApp::new("tok".into());
    assert_eq!(app.notif_label(), "🔔");
    app.late_books = vec![old_book("1"), old_book("2")];
    assert_eq!(app.notif_label(), "🔔 (2)");
    let call = app.bell_clicked();
    assert_eq!(call.url, "http://88.175.41.67:8080/late-borrowed-books");
    assert!(app.show_notifications);
    let call = app.refresh_clicked();
    assert!(call.is_none(), "loading blocks the refresh");
    app.loading = false;
    let call = app.refresh_clicked().unwrap();
    assert_eq!(app.status, "Loading, please wait.");
    assert!(call.body.unwrap().title.is_none());
    app.poll(Some(Ok(vec![old_book("9")])), None);
    assert_eq!(app.status, "Loaded books!");
    assert_eq!(app.books[0].isbn, "9");
    app.search_owners();
    app.poll(None, Some(Err("x".into())));
    assert_eq!(app.status, "Error: x");
}

#[test]
fn account_screen() {
    assert_eq!(role_to_string(1), "Admin");
    assert_eq!(role_to_string(0), "User");
    assert_eq!(role_to_string(7), "Unknown");
    let mut a = AccountApp::new("tok".into());
    assert!(a.needs_fetch());
    let call = a.fetch_user_info();
    assert_eq!(call.url, "http://88.175.41.67:8080/get-user-infos");
    assert!(!a.needs_fetch());
    assert_eq!(a.greeting(), "⏳ Loading user info...");
    let r = user_info_result(LegacyReply::Decoded(Ok(UserResponse {
        user: UserInfo { username: "ada".into(), user_role: 1 },
    })));
    a.poll(Some(r));
    assert_eq!(a.greeting(), "Hi ada, Admin");
    assert_eq!(
        user_info_result(LegacyReply::NotSent("down".into())).err().unwrap(),
        "Request failed: down"
    );
}

#[test]
fn old_add_screens() {
    let mut b = AddBookApp::new("tok".into());
    assert_eq!(b.condition, "good");
    b.owner_id = "abc".into();
    let call = b.submit().unwrap();
    assert_eq!(call.body.unwrap().owner_id, 0);
    assert!(b.submit().is_none());
    b.poll(Some(Ok("added".into())));
    assert_eq!(b.status, "added");
    b.owner_id = "-3".into();
    assert_eq!(b.submit().unwrap().body.unwrap().owner_id, -3);

    let mut o = AddOwnerApp::new("tok".into());
    o.name = "Ada".into();
    let call = o.submit().unwrap();
    assert_eq!(call.url, "http://88.175.41.67:8080/add-owner");
    o.poll(Some(Err("no".into())));
    assert_eq!(o.status, "Error: no");

    let mut u = AddUserApp::new("tok".into());
    u.admin_level = AdminLevel::Admin;
    assert_eq!(AdminLevel::Admin.label(), "Admin");
    let call = u.submit().unwrap();
    assert_eq!(call.url, "http://88.175.41.67:8080/create-user");
    assert_eq!(call.body.unwrap().user_level, "admin");

    let mut p = UserPrivilegeApp::new("tok".into());
    assert_eq!(Level::User.as_str(), "user");
    let call = p.submit().unwrap();
    assert_eq!(call.url, "http://88.175.41.67:8080/change-user-level");
    assert_eq!(call.body.unwrap().user_level, "user");
}

#[test]
fn old_book_details() {
    let d = BookDetailsApp::new(old_book("1"), "tok".into());
    assert_eq!(d.borrow_date_text(), "N/A");
    let mut b = old_book("2");
    b.borrow_date = Some("2024-05-01".into());
    assert_eq!(BookDetailsApp::new(b, "t".into()).borrow_date_text(), "2024-05-01");
}

#[test]
fn old_search_buttons_wait_for_loading() {
    let mut app = MainApp::new("tok".into());
    app.search_mail = "ada@x".into();
    let call = app.search_owners_clicked().unwrap();
    assert_eq!(call.url, "http://88.175.41.67:8080/search-owners");
    assert_eq!(call.body.unwrap().mail.as_deref(), Some("ada@x"));
    assert_eq!(app.status, "Searching owners...");
    assert!(app.search_books_clicked().is_none());
    assert!(app.search_owners_clicked().is_none());
    app.poll(None, Some(Ok(vec![])));
    assert_eq!(app.status, "Loaded owners!");
    let call = app.search_books_clicked().unwrap();
    assert_eq!(call.url, "http://88.175.41.67:8080/search-books");
    assert_eq!(app.status, "Searching...");
}
