use library_manager::constants::{ENDPOINT_CREATE_USER, ENDPOINT_LOGIN, HEADER_ADMIN_KEY};
use library_manager::login::{LoginApp, LoginCall, Mode};
use library_manager::main_app::forms::search_form::SearchForm;
use library_manager::main_app::models::BookRow;
use library_manager::main_app::search_panel::SearchCall;
use library_manager::main_app::{MainApp, MainCall, SearchMode};
use library_manager::requests::structs::{BooksResponse, LoginResponse, MessResponse};
use library_manager::theme::palette::Rgb;
use library_manager::theme::Theme;

#[test]
fn theme_toggles_back_and_forth() {
    let mut t = Theme::default();
    assert_eq!(t, Theme::DarkPurple);
    assert_eq!(t.toggle_label(), "Light");
    assert_eq!(t.palette().accent, Rgb { r: 110, g: 50, b: 180 });
    t.toggle();
    assert_eq!(t, Theme::LightBeige);
    assert_eq!(t.toggle_label(), "Dark");
    assert_eq!(t.palette().bg_top, Rgb { r: 240, g: 200, b: 150 });
    assert_ne!(t.palette(), Theme::DarkPurple.palette());
    t.toggle();
    assert_eq!(t, Theme::DarkPurple);
}

#[test]
fn login_hands_token_over_once() {
    let mut a = LoginApp::new(Theme::DarkPurple);
    a.username = "ada".into();
    a.password = "pw".into();
    assert_eq!(a.title(), "Login");
    assert_eq!(a.action_label(), "Login");
    match a.submit() {
        Some(LoginCall::Login(c)) => {
            assert_eq!(c.endpoint, ENDPOINT_LOGIN);
            let b = c.body.unwrap();
            assert_eq!((b.username.as_str(), b.password.as_str()), ("ada", "pw"));
            assert!(c.headers.is_empty());
        }
        _ => panic!("expected a login call"),
    }
    assert_eq!(a.status, "Logging in...");
    assert!(a.submit().is_none(), "no second call while loading");
    assert_eq!(a.take_token(), None);
    a.poll(Some(Ok(LoginResponse { token: "T0K".into() })), None);
    assert_eq!(a.status, "Login successful!");
    assert!(!a.loading);
    assert_eq!(a.take_token(), Some("T0K".to_string()));
    assert_eq!(a.take_token(), None);
}

#[test]
fn login_failure_shows_error() {
    let mut a = LoginApp::new(Theme::LightBeige);
    a.submit();
    a.poll(Some(Err("Invalid credentials".into())), None);
    assert_eq!(a.status, "Error: Invalid credentials");
    assert!(a.status_error);
    assert_eq!(a.take_token(), None);
}

#[test]
fn account_creation_returns_to_login() {
    let mut a = LoginApp::new(Theme::DarkPurple);
    a.status = "old".into();
    a.toggle_mode();
    assert_eq!(a.mode, Mode::CreateAccount);
    assert_eq!(a.status, "");
    assert_eq!(a.title(), "Create Account");
    assert_eq!(a.mode_link_label(), "Back to login");
    assert!(a.shows_admin_key());
    a.admin_key = "KEY".into();
    match a.submit() {
        Some(LoginCall::CreateAccount(c)) => {
            assert_eq!(c.endpoint, ENDPOINT_CREATE_USER);
            assert_eq!(c.headers, vec![(HEADER_ADMIN_KEY.to_string(), "KEY".to_string())]);
        }
        _ => panic!("expected an account creation"),
    }
    assert_eq!(a.status, "Creating account...");
    a.poll(None, Some(Ok(MessResponse { message: "created".into() })));
    assert_eq!(a.mode, Mode::Login);
    assert_eq!(a.status, "Account created, you can log in now.");
    a.toggle_mode();
    a.toggle_mode();
    assert_eq!(a.mode, Mode::Login);
}

#[test]
fn main_window_start_and_refresh() {
    let (mut app, calls) = MainApp::new("tok".into(), Theme::DarkPurple);
    assert_eq!(calls.len(), 5);
    assert!(matches!(calls[0], MainCall::BookCount(_)));
    assert!(matches!(calls[1], MainCall::BookSearch(SearchCall::Sample(_))));
    assert!(matches!(calls[2], MainCall::OwnerCount(_)));
    assert!(matches!(calls[3], MainCall::OwnerSearch(SearchCall::Sample(_))));
    assert!(matches!(calls[4], MainCall::LateBooks(_)));
    assert_eq!(app.search_mode, SearchMode::Books);

    app.books_panel.form.title = "Dune".into();
    let calls = app.refresh_clicked();
    assert_eq!(calls.len(), 2);
    assert!(matches!(calls[0], MainCall::LateBooks(_)));
    assert!(matches!(calls[1], MainCall::BookSearch(SearchCall::Sample(_))));
    assert!(app.books_panel.form.check_all_empty());

    app.search_mode = SearchMode::Owners;
    app.add_clicked();
    assert!(app.add_owner_panel.open && !app.add_book_panel.open);
    app.open_notifications();
    assert!(app.notif_panel.open);
    app.toggle_theme();
    assert_eq!(app.theme, Theme::LightBeige);
}

#[test]
fn main_window_opens_book() {
    let (mut app, _) = MainApp::new("tok".into(), Theme::DarkPurple);
    let row = BookRow {
        isbn: 5,
        title: "T".into(),
        author: "A".into(),
        owner_id: 1,
        available: 1,
        condition: 2,
        borrow_date: None,
        borrower_mail: None,
    };
    app.books_panel.poll(Some(Ok(BooksResponse { books: vec![row] })), None);
    app.open_book(0);
    assert!(app.book_details_panel.open);
    assert_eq!(app.book_details_panel.book.as_ref().unwrap().isbn, 5);
}
