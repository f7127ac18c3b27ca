//! The book and owner search forms.

pub mod search_form;
pub mod forms_struct;

use vstd::prelude::*;
use search_form::SearchForm;
use forms_struct::{BookSearchForm, OwnerSearchForm};
use crate::main_app::models::{Book, BookRow, Owner, book_of_row, books_of_rows};
use crate::requests::structs::{BookSearchRequest, BooksResponse, OwnerSearchRequest, OwnersResponse};
use crate::text::{is_blank, str_is_blank};

verus! {

/// A typed criterion: absent when the text is blank, else the text as it
/// was typed.
pub open spec fn criterion(s: String) -> Option<String> {
    if is_blank(s@) {
        None
    } else {
        Some(s)
    }
}

fn criterion_of(s: &String) -> (r: Option<String>)
    ensures
        r == criterion(*s),
{
    if !str_is_blank(s.as_str()) {
        Some(s.clone())
    } else {
        None
    }
}

impl SearchForm for BookSearchForm {
    type Item = Book;

    type Request = BookSearchRequest;

    type Response = BooksResponse;

    open spec fn all_empty(&self) -> bool {
        &&& self.isbn is None
        &&& is_blank(self.title@)
        &&& is_blank(self.author@)
        &&& self.owner_id is None
    }

    open spec fn request_spec(&self) -> BookSearchRequest {
        BookSearchRequest {
            isbn: self.isbn,
            title: criterion(self.title),
            author: criterion(self.author),
            owner_id: self.owner_id,
        }
    }

    open spec fn items_spec(resp: BooksResponse) -> Seq<Book> {
        resp.books@.map_values(|r: BookRow| book_of_row(r))
    }

    open spec fn endpoint_spec() -> Seq<char> {
        "book/search"@
    }

    open spec fn endpoint_sample_spec() -> Seq<char> {
        "book/sample"@
    }

    open spec fn endpoint_count_spec() -> Seq<char> {
        "book/count"@
    }

    fn blank() -> (f: Self)
        ensures
            f.isbn is None,
            f.title@ == Seq::<char>::empty(),
            f.author@ == Seq::<char>::empty(),
            f.owner_id is None,
    {
        BookSearchForm { isbn: None, title: String::new(), author: String::new(), owner_id: None }
    }

    fn endpoint() -> (s: &'static str) {
        "book/search"
    }

    fn endpoint_sample() -> (s: &'static str) {
        "book/sample"
    }

    fn endpoint_count() -> (s: &'static str) {
        "book/count"
    }

    fn to_request(&self) -> (r: BookSearchRequest)
        ensures
            r.isbn == self.isbn,
            r.owner_id == self.owner_id,
            r.title is None <==> is_blank(self.title@),
            r.title matches Some(t) ==> t == self.title,
            r.author is None <==> is_blank(self.author@),
            r.author matches Some(a) ==> a == self.author,
    {
        BookSearchRequest {
            isbn: self.isbn,
            title: criterion_of(&self.title),
            author: criterion_of(&self.author),
            owner_id: self.owner_id,
        }
    }

    fn unwrap_response(resp: BooksResponse) -> (v: Vec<Book>) {
        books_of_rows(resp.books)
    }

    fn clear(&mut self)
        ensures
            final(self).isbn is None,
            final(self).title@ == Seq::<char>::empty(),
            final(self).author@ == Seq::<char>::empty(),
            final(self).owner_id is None,
    {
        self.isbn = None;
        self.title = String::new();
        self.author = String::new();
        self.owner_id = None;
    }

    fn check_all_empty(&self) -> (b: bool) {
        self.isbn.is_none() && str_is_blank(self.title.as_str()) && str_is_blank(
            self.author.as_str(),
        ) && self.owner_id.is_none()
    }
}

impl SearchForm for OwnerSearchForm {
    type Item = Owner;

    type Request = OwnerSearchRequest;

    type Response = OwnersResponse;

    open spec fn all_empty(&self) -> bool {
        &&& is_blank(self.name@)
        &&& is_blank(self.lastname@)
        &&& is_blank(self.mail@)
    }

    open spec fn request_spec(&self) -> OwnerSearchRequest {
        OwnerSearchRequest {
            name: criterion(self.name),
            lastname: criterion(self.lastname),
            mail: criterion(self.mail),
        }
    }

    open spec fn items_spec(resp: OwnersResponse) -> Seq<Owner> {
        resp.owners@
    }

    open spec fn endpoint_spec() -> Seq<char> {
        "owner/search"@
    }

    open spec fn endpoint_sample_spec() -> Seq<char> {
        "owner/sample"@
    }

    open spec fn endpoint_count_spec() -> Seq<char> {
        "owner/count"@
    }

    fn blank() -> (f: Self)
        ensures
            f.name@ == Seq::<char>::empty(),
            f.lastname@ == Seq::<char>::empty(),
            f.mail@ == Seq::<char>::empty(),
    {
        OwnerSearchForm { name: String::new(), lastname: String::new(), mail: String::new() }
    }

    fn endpoint() -> (s: &'static str) {
        "owner/search"
    }

    fn endpoint_sample() -> (s: &'static str) {
        "owner/sample"
    }

    fn endpoint_count() -> (s: &'static str) {
        "owner/count"
    }

    fn to_request(&self) -> (r: OwnerSearchRequest)
        ensures
            r.name is None <==> is_blank(self.name@),
            r.name matches Some(n) ==> n == self.name,
            r.lastname is None <==> is_blank(self.lastname@),
            r.lastname matches Some(n) ==> n == self.lastname,
            r.mail is None <==> is_blank(self.mail@),
            r.mail matches Some(m) ==> m == self.mail,
    {
        OwnerSearchRequest {
            name: criterion_of(&self.name),
            lastname: criterion_of(&self.lastname),
            mail: criterion_of(&self.mail),
        }
    }

    fn unwrap_response(resp: OwnersResponse) -> (v: Vec<Owner>) {
        resp.owners
    }

    fn clear(&mut self)
        ensures
            final(self).name@ == Seq::<char>::empty(),
            final(self).lastname@ == Seq::<char>::empty(),
            final(self).mail@ == Seq::<char>::empty(),
    {
        self.name = String::new();
        self.lastname = String::new();
        self.mail = String::new();
    }

    fn check_all_empty(&self) -> (b: bool) {
        str_is_blank(self.name.as_str()) && str_is_blank(self.lastname.as_str()) && str_is_blank(
            self.mail.as_str(),
        )
    }
}

/// A book form is blank exactly when the request it makes has no
/// criterion at all.
pub proof fn lemma_book_form_blank_iff_no_criterion(f: BookSearchForm)
    ensures
        f.all_empty() <==> {
            let r = f.request_spec();
            r.isbn is None && r.title is None && r.author is None && r.owner_id is None
        },
{
}

/// An owner form is blank exactly when the request it makes has no
/// criterion at all.
pub proof fn lemma_owner_form_blank_iff_no_criterion(f: OwnerSearchForm)
    ensures
        f.all_empty() <==> {
            let r = f.request_spec();
            r.name is None && r.lastname is None && r.mail is None
        },
{
}

/// Each criterion of a book request comes from the form's field of the
/// same name: the ISBN and owner number as typed, the title and author as
/// typed unless blank, and then absent.
pub proof fn lemma_book_request_fields(f: BookSearchForm)
    ensures
        f.request_spec().isbn == f.isbn,
        f.request_spec().owner_id == f.owner_id,
        f.request_spec().title is None <==> is_blank(f.title@),
        f.request_spec().title matches Some(t) ==> t == f.title,
        f.request_spec().author is None <==> is_blank(f.author@),
        f.request_spec().author matches Some(a) ==> a == f.author,
{
}

/// A book form with any criterion typed is not blank: an ISBN, an owner
/// number, or a title or author that is not only spaces.
pub proof fn lemma_book_form_typed_not_blank(f: BookSearchForm)
    ensures
        f.isbn is Some ==> !f.all_empty(),
        f.owner_id is Some ==> !f.all_empty(),
        !is_blank(f.title@) ==> !f.all_empty(),
        !is_blank(f.author@) ==> !f.all_empty(),
        (f.isbn is None && f.owner_id is None && is_blank(f.title@) && is_blank(f.author@))
            ==> f.all_empty(),
{
}

/// Each criterion of an owner request comes from the form's field of the
/// same name, as typed unless blank, and then absent.
pub proof fn lemma_owner_request_fields(f: OwnerSearchForm)
    ensures
        f.request_spec().name is None <==> is_blank(f.name@),
        f.request_spec().name matches Some(n) ==> n == f.name,
        f.request_spec().lastname is None <==> is_blank(f.lastname@),
        f.request_spec().lastname matches Some(n) ==> n == f.lastname,
        f.request_spec().mail is None <==> is_blank(f.mail@),
        f.request_spec().mail matches Some(m) ==> m == f.mail,
{
}

} // verus!
