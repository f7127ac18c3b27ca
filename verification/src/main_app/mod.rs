//! The main window: the book and owner search panels, the overdue-books
//! window, the windows that add books and owners, and the book window.

pub mod models;
pub mod forms;
pub mod search_panel;
pub mod subwin;

use vstd::prelude::*;
use forms::forms_struct::{BookSearchForm, OwnerSearchForm};
use forms::search_form::SearchForm;
use search_panel::{SearchCall, SearchPanel};
use subwin::add_book::AddBookPanel;
use subwin::add_owner::AddOwnerPanel;
use subwin::book_details::BookDetailsPanel;
use subwin::notifications::NotificationsPanel;
use crate::requests::ApiCall;
use crate::requests::structs::{
    AddBookRequest, AddOwnerRequest, BookSearchRequest, BorrowBookRequest, OwnerSearchRequest,
    ReturnBookRequest,
};
use crate::theme::Theme;

verus! {

/// Which panel the main window shows.
#[derive(Clone, Copy, PartialEq, Eq, Structural, Debug)]
pub enum SearchMode {
    Books,
    Owners,
}

/// A call the main window sends, tagged with the part of the window whose
/// reply it is.
pub enum MainCall {
    BookCount(ApiCall<()>),
    BookSearch(SearchCall<BookSearchRequest>),
    OwnerCount(ApiCall<()>),
    OwnerSearch(SearchCall<OwnerSearchRequest>),
    LateBooks(ApiCall<()>),
    AddBook(ApiCall<AddBookRequest>),
    AddOwner(ApiCall<AddOwnerRequest>),
    Borrow(ApiCall<BorrowBookRequest>),
    Return(ApiCall<ReturnBookRequest>),
}

pub struct MainApp {
    pub books_panel: SearchPanel<BookSearchForm>,
    pub owners_panel: SearchPanel<OwnerSearchForm>,
    pub search_mode: SearchMode,
    pub notif_panel: NotificationsPanel,
    pub add_book_panel: AddBookPanel,
    pub add_owner_panel: AddOwnerPanel,
    pub book_details_panel: BookDetailsPanel,
    pub token: String,
    pub theme: Theme,
}

impl MainApp {
    pub open spec fn wf(&self) -> bool {
        self.books_panel.wf() && self.owners_panel.wf()
    }

    /// The main window right after login, and the calls it starts with:
    /// the book count and first page, the owner count and first page, and
    /// the overdue books, in that order.
    pub fn new(token: String, theme: Theme) -> (r: (Self, Vec<MainCall>))
        ensures
            r.0.wf(),
            r.0.search_mode == SearchMode::Books,
            r.0.token == token,
            r.0.theme == theme,
            r.0.books_panel.form.all_empty(),
            r.0.owners_panel.form.all_empty(),
            r.0.books_panel.token == token,
            r.0.owners_panel.token == token,
            r.0.books_panel.items@.len() == 0,
            r.0.owners_panel.items@.len() == 0,
            r.0.books_panel.status@ == "Loading..."@ && r.0.owners_panel.status@ == "Loading..."@,
            !r.0.books_panel.status_error && !r.0.owners_panel.status_error,
            r.0.books_panel.loading && r.0.owners_panel.loading,
            r.0.books_panel.awaiting_items && r.0.books_panel.awaiting_count,
            r.0.owners_panel.awaiting_items && r.0.owners_panel.awaiting_count,
            r.0.books_panel.page == 0 && r.0.books_panel.total_pages == 1,
            r.0.owners_panel.page == 0 && r.0.owners_panel.total_pages == 1,
            !r.0.notif_panel.open,
            r.0.notif_panel.books@.len() == 0,
            r.0.notif_panel.status@ == "Loading notifications..."@,
            !r.0.notif_panel.status_error,
            r.0.notif_panel.loading && r.0.notif_panel.awaiting,
            !r.0.add_book_panel.open,
            r.0.add_book_panel.fields.isbn is None,
            r.0.add_book_panel.fields.title@ == Seq::<char>::empty(),
            r.0.add_book_panel.fields.author@ == Seq::<char>::empty(),
            r.0.add_book_panel.fields.owner_id is None,
            r.0.add_book_panel.fields.condition is None,
            r.0.add_book_panel.status@ == Seq::<char>::empty(),
            !r.0.add_book_panel.status_error,
            !r.0.add_book_panel.loading && !r.0.add_book_panel.awaiting,
            !r.0.add_owner_panel.open,
            r.0.add_owner_panel.fields.name@ == Seq::<char>::empty(),
            r.0.add_owner_panel.fields.lastname@ == Seq::<char>::empty(),
            r.0.add_owner_panel.fields.mail@ == Seq::<char>::empty(),
            r.0.add_owner_panel.status@ == Seq::<char>::empty(),
            !r.0.add_owner_panel.status_error,
            !r.0.add_owner_panel.loading && !r.0.add_owner_panel.awaiting,
            !r.0.book_details_panel.open,
            r.0.book_details_panel.book is None,
            r.0.book_details_panel.borrower_mail@ == Seq::<char>::empty(),
            r.0.book_details_panel.status@ == Seq::<char>::empty(),
            !r.0.book_details_panel.status_error,
            !r.0.book_details_panel.loading && !r.0.book_details_panel.awaiting,
            r.1@.len() == 5,
            r.1@[0] matches MainCall::BookCount(c) && SearchPanel::<BookSearchForm>::is_count_call(
                c,
                token,
            ),
            r.1@[1] matches MainCall::BookSearch(c) && SearchPanel::<
                BookSearchForm,
            >::is_search_call(r.0.books_panel, c),
            r.1@[2] matches MainCall::OwnerCount(c) && SearchPanel::<
                OwnerSearchForm,
            >::is_count_call(c, token),
            r.1@[3] matches MainCall::OwnerSearch(c) && SearchPanel::<
                OwnerSearchForm,
            >::is_search_call(r.0.owners_panel, c),
            r.1@[4] matches MainCall::LateBooks(c) && NotificationsPanel::is_fetch_call(c, token),
    {
        let (books_panel, book_count, book_search) = SearchPanel::<BookSearchForm>::new(
            token.clone(),
        );
        let (owners_panel, owner_count, owner_search) = SearchPanel::<OwnerSearchForm>::new(
            token.clone(),
        );
        let (notif_panel, late) = NotificationsPanel::new(token.clone());
        let mut calls: Vec<MainCall> = Vec::new();
        calls.push(MainCall::BookCount(book_count));
        calls.push(MainCall::BookSearch(book_search));
        calls.push(MainCall::OwnerCount(owner_count));
        calls.push(MainCall::OwnerSearch(owner_search));
        calls.push(MainCall::LateBooks(late));
        let app = MainApp {
            books_panel,
            owners_panel,
            search_mode: SearchMode::Books,
            notif_panel,
            add_book_panel: AddBookPanel::new(),
            add_owner_panel: AddOwnerPanel::new(),
            book_details_panel: BookDetailsPanel::new(),
            token,
            theme,
        };
        (app, calls)
    }

    /// The refresh button: asks again for the overdue books, then empties
    /// the form of the panel shown and searches with it (so the first
    /// page of the whole catalogue comes back).
    pub fn refresh_clicked(&mut self) -> (calls: Vec<MainCall>)
        requires
            old(self).wf(),
        ensures
            final(self).wf(),
            final(self).search_mode == old(self).search_mode,
            calls@.len() == 2,
            calls@[0] matches MainCall::LateBooks(c) && NotificationsPanel::is_fetch_call(
                c,
                old(self).token,
            ),
            final(self).notif_panel == (NotificationsPanel {
                loading: true,
                awaiting: true,
                status: final(self).notif_panel.status,
                ..old(self).notif_panel
            }),
            final(self).notif_panel.status@ == "Loading notifications..."@,
            final(self).add_book_panel == old(self).add_book_panel,
            final(self).add_owner_panel == old(self).add_owner_panel,
            final(self).book_details_panel == old(self).book_details_panel,
            final(self).token == old(self).token,
            final(self).theme == old(self).theme,
            old(self).search_mode == SearchMode::Books ==> {
                &&& final(self).books_panel.form.isbn is None
                &&& final(self).books_panel.form.title@ == Seq::<char>::empty()
                &&& final(self).books_panel.form.author@ == Seq::<char>::empty()
                &&& final(self).books_panel.form.owner_id is None
                &&& final(self).books_panel == (SearchPanel {
                    form: final(self).books_panel.form,
                    loading: true,
                    awaiting_items: true,
                    status: final(self).books_panel.status,
                    ..old(self).books_panel
                })
                &&& final(self).books_panel.status@ == "Loading..."@
                &&& final(self).owners_panel == old(self).owners_panel
                &&& calls@[1] matches MainCall::BookSearch(c) && SearchPanel::<
                    BookSearchForm,
                >::is_search_call(
                    (SearchPanel { form: final(self).books_panel.form, ..old(self).books_panel }),
                    c,
                )
            },
            old(self).search_mode == SearchMode::Owners ==> {
                &&& final(self).owners_panel.form.name@ == Seq::<char>::empty()
                &&& final(self).owners_panel.form.lastname@ == Seq::<char>::empty()
                &&& final(self).owners_panel.form.mail@ == Seq::<char>::empty()
                &&& final(self).owners_panel == (SearchPanel {
                    form: final(self).owners_panel.form,
                    loading: true,
                    awaiting_items: true,
                    status: final(self).owners_panel.status,
                    ..old(self).owners_panel
                })
                &&& final(self).owners_panel.status@ == "Loading..."@
                &&& final(self).books_panel == old(self).books_panel
                &&& calls@[1] matches MainCall::OwnerSearch(c) && SearchPanel::<
                    OwnerSearchForm,
                >::is_search_call(
                    (SearchPanel { form: final(self).owners_panel.form, ..old(self).owners_panel }),
                    c,
                )
            },
    {
        let mut calls: Vec<MainCall> = Vec::new();
        calls.push(MainCall::LateBooks(self.notif_panel.fetch(self.token.clone())));
        match self.search_mode {
            SearchMode::Books => {
                self.books_panel.form.clear();
                calls.push(MainCall::BookSearch(self.books_panel.search()));
            },
            SearchMode::Owners => {
                self.owners_panel.form.clear();
                calls.push(MainCall::OwnerSearch(self.owners_panel.search()));
            },
        }
        calls
    }

    /// The "+" button: opens the window that adds an item of the kind
    /// shown.
    pub fn add_clicked(&mut self)
        ensures
            old(self).search_mode == SearchMode::Books ==> *final(self) == (MainApp {
                add_book_panel: AddBookPanel { open: true, ..old(self).add_book_panel },
                ..*old(self)
            }),
            old(self).search_mode == SearchMode::Owners ==> *final(self) == (MainApp {
                add_owner_panel: AddOwnerPanel { open: true, ..old(self).add_owner_panel },
                ..*old(self)
            }),
    {
        match self.search_mode {
            SearchMode::Books => {
                self.add_book_panel.open = true;
            },
            SearchMode::Owners => {
                self.add_owner_panel.open = true;
            },
        }
    }

    /// The bell button: opens the overdue-books window.
    pub fn open_notifications(&mut self)
        ensures
            *final(self) == (MainApp {
                notif_panel: NotificationsPanel { open: true, ..old(self).notif_panel },
                ..*old(self)
            }),
    {
        self.notif_panel.open = true;
    }

    /// The "View" button of the `i`-th book found: opens the book window on
    /// that book.
    pub fn open_book(&mut self, i: usize)
        requires
            i < old(self).books_panel.items@.len(),
        ensures
            final(self).book_details_panel.open,
            final(self).book_details_panel.book == Some(old(self).books_panel.items@[i as int]),
            final(self).book_details_panel.borrower_mail@ == Seq::<char>::empty(),
            final(self).book_details_panel.status@ == Seq::<char>::empty(),
            !final(self).book_details_panel.status_error,
            final(self).book_details_panel.loading == old(self).book_details_panel.loading,
            final(self).book_details_panel.awaiting == old(self).book_details_panel.awaiting,
            final(self).notif_panel == old(self).notif_panel,
            final(self).add_book_panel == old(self).add_book_panel,
            final(self).add_owner_panel == old(self).add_owner_panel,
            final(self).theme == old(self).theme,
            final(self).books_panel == old(self).books_panel,
            final(self).owners_panel == old(self).owners_panel,
            final(self).search_mode == old(self).search_mode,
            final(self).token == old(self).token,
    {
        let book = self.books_panel.items[i].clone();
        self.book_details_panel.open_for(book);
    }

    /// The theme switch.
    pub fn toggle_theme(&mut self)
        ensures
            *final(self) == (MainApp { theme: old(self).theme.toggled(), ..*old(self) }),
    {
        self.theme.toggle();
    }
}

} // verus!
