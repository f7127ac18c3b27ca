use library_manager::constants::{HEADER_TOKEN, ITEMS_PER_PAGE};
use library_manager::main_app::forms::forms_struct::{BookSearchForm, OwnerSearchForm};
use library_manager::main_app::forms::search_form::SearchForm;
use library_manager::main_app::models::{BookRow, Owner};
use library_manager::main_app::search_panel::{total_pages_for, SearchCall, SearchPanel};
use library_manager::requests::structs::{BooksResponse, CountResponse, OwnersResponse};
use library_manager::requests::HttpMethod;

fn book_row(isbn: i64) -> BookRow {
    BookRow {
        isbn,
        title: "T".into(),
        author: "A".into(),
        owner_id: 1,
        available: 1,
        condition: 0,
        borrow_date: None,
        borrower_mail: None,
    }
}

fn sample_range(call: &SearchCall<impl Sized>) -> (i64, i64) {
    match call {
        SearchCall::Sample(c) => {
            let b = c.body.unwrap();
            (b.begin, b.end)
        }
        SearchCall::Filtered(_) => panic!("expected a sample call"),
    }
}

#[test]
fn new_panel_counts_then_loads_first_page() {
    let (panel, count, search) = SearchPanel::<BookSearchForm>::new("tok".into());
    assert_eq!(count.method, HttpMethod::Post);
    assert_eq!(count.endpoint, "book/count");
    assert!(count.body.is_none());
    assert_eq!(count.headers, vec![(HEADER_TOKEN.to_string(), "tok".to_string())]);
    match &search {
        SearchCall::Sample(c) => assert_eq!(c.endpoint, "book/sample"),
        _ => panic!(),
    }
    assert_eq!(sample_range(&search), (0, ITEMS_PER_PAGE));
    assert!(panel.loading && panel.awaiting_items && panel.awaiting_count);
    assert_eq!(panel.status, "Loading...");
    assert_eq!(panel.page(), 0);
    assert_eq!(panel.total_pages(), 1);
}

#[test]
fn page_counts() {
    assert_eq!(total_pages_for(0), 1);
    assert_eq!(total_pages_for(-5), 1);
    assert_eq!(total_pages_for(1), 1);
    assert_eq!(total_pages_for(10), 1);
    assert_eq!(total_pages_for(11), 2);
    assert_eq!(total_pages_for(25), 3);
    assert_eq!(total_pages_for(30), 3);
    assert_eq!(total_pages_for(31), 4);
    assert_eq!(total_pages_for(i64::MAX - 9), (i64::MAX - 9 + 9) / 10);
}

#[test]
fn count_reply_sets_pages_and_paging_clamps() {
    let (mut panel, _, _) = SearchPanel::<BookSearchForm>::new("tok".into());
    panel.poll(None, Some(Ok(CountResponse { count: 25 })));
    assert_eq!(panel.total_pages(), 3);
    assert!(!panel.awaiting_count);
    assert!(!panel.has_prev());
    assert!(panel.has_next());
    assert_eq!(panel.page_label(), "Page 1 / 3");

    let call = panel.go_to_page(2);
    assert_eq!(panel.page(), 2);
    assert_eq!(sample_range(&call), (20, 30));
    assert!(panel.has_prev());
    assert!(!panel.has_next());
    assert_eq!(panel.page_label(), "Page 3 / 3");

    panel.go_to_page(99);
    assert_eq!(panel.page(), 2);
    panel.go_to_page(-4);
    assert_eq!(panel.page(), 0);
}

#[test]
fn count_reply_after_it_was_handled_is_ignored() {
    let (mut panel, _, _) = SearchPanel::<BookSearchForm>::new("tok".into());
    panel.poll(None, Some(Err("boom".into())));
    assert_eq!(panel.total_pages(), 1);
    assert!(!panel.awaiting_count);
    panel.poll(None, Some(Ok(CountResponse { count: 100 })));
    assert_eq!(panel.total_pages(), 1);
}

#[test]
fn shrinking_count_leaves_page_until_moved() {
    let (mut panel, _, _) = SearchPanel::<BookSearchForm>::new("tok".into());
    panel.poll(None, Some(Ok(CountResponse { count: 50 })));
    panel.go_to_page(4);
    let c = panel.fetch_count();
    assert_eq!(c.endpoint, "book/count");
    panel.poll(None, Some(Ok(CountResponse { count: 5 })));
    assert_eq!(panel.total_pages(), 1);
    assert_eq!(panel.page(), 4);
    panel.go_to_page(panel.page() - 1);
    assert_eq!(panel.page(), 0);
}

#[test]
fn search_replies_replace_or_keep_items() {
    let (mut panel, _, _) = SearchPanel::<BookSearchForm>::new("tok".into());
    panel.poll(Some(Ok(BooksResponse { books: vec![book_row(1), book_row(2)] })), None);
    assert_eq!(panel.items.len(), 2);
    assert_eq!(panel.status, "Loaded!");
    assert!(!panel.status_error && !panel.loading && !panel.awaiting_items);

    panel.search();
    panel.poll(Some(Err("timeout".into())), None);
    assert_eq!(panel.items.len(), 2);
    assert_eq!(panel.status, "Error: timeout");
    assert!(panel.status_error);

    // Nothing is awaited any more: a stray reply changes nothing.
    panel.poll(Some(Ok(BooksResponse { books: vec![] })), None);
    assert_eq!(panel.items.len(), 2);
}

#[test]
fn filled_form_searches_by_criteria() {
    let (mut panel, _, _) = SearchPanel::<BookSearchForm>::new("tok".into());
    panel.poll(Some(Ok(BooksResponse { books: vec![] })), None);
    panel.form.title = "  Dune ".into();
    panel.form.author = "   ".into();
    panel.form.owner_id = Some(4);
    assert!(!panel.shows_pagination());
    match panel.search_clicked().unwrap() {
        SearchCall::Filtered(c) => {
            assert_eq!(c.endpoint, "book/search");
            let b = c.body.unwrap();
            assert_eq!(b.title.as_deref(), Some("  Dune "));
            assert_eq!(b.author, None);
            assert_eq!(b.isbn, None);
            assert_eq!(b.owner_id, Some(4));
        }
        _ => panic!("expected a filtered search"),
    }
    // A search is loading: the button does nothing.
    assert!(panel.search_clicked().is_none());
}

#[test]
fn book_form_clear_and_blank() {
    let mut f = BookSearchForm::blank();
    assert!(f.check_all_empty());
    f.isbn = Some(5);
    f.title = "x".into();
    assert!(!f.check_all_empty());
    f.clear();
    assert!(f.check_all_empty());
    let r = f.to_request();
    assert!(r.isbn.is_none() && r.title.is_none() && r.author.is_none() && r.owner_id.is_none());
    let mut g = BookSearchForm::default();
    g.title = " \t ".into();
    assert!(g.check_all_empty());
}

#[test]
fn owner_panel_uses_owner_endpoints() {
    let (mut panel, count, search) = SearchPanel::<OwnerSearchForm>::new("t".into());
    assert_eq!(count.endpoint, "owner/count");
    match search {
        SearchCall::Sample(c) => assert_eq!(c.endpoint, "owner/sample"),
        _ => panic!(),
    }
    let owner = Owner { id: 1, name: "Ada".into(), lastname: "L".into(), mail: "ada@x".into() };
    panel.poll(Some(Ok(OwnersResponse { owners: vec![owner] })), None);
    assert_eq!(panel.items[0].name, "Ada");
    panel.form.mail = "ada@x".into();
    match panel.search() {
        SearchCall::Filtered(c) => {
            assert_eq!(c.endpoint, "owner/search");
            let b = c.body.unwrap();
            assert_eq!(b.mail.as_deref(), Some("ada@x"));
            assert!(b.name.is_none() && b.lastname.is_none());
        }
        _ => panic!(),
    }
}

#[test]
fn search_button_keeps_the_rest_of_the_panel() {
    let (mut panel, _, _) = SearchPanel::<BookSearchForm>::new("tok".into());
    panel.poll(
        Some(Ok(BooksResponse { books: vec![book_row(1)] })),
        Some(Ok(CountResponse { count: 40 })),
    );
    panel.go_to_page(2);
    panel.poll(Some(Err("x".into())), None);
    assert!(panel.status_error);
    panel.search_clicked().unwrap();
    assert_eq!(panel.status, "Loading...");
    assert_eq!(panel.items.len(), 1);
    assert_eq!(panel.page(), 2);
    assert_eq!(panel.total_pages(), 4);
    assert!(panel.status_error);
    assert!(!panel.awaiting_count);
}
