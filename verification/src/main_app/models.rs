//! Books, owners and the condition grades of a book.

use vstd::prelude::*;
use vstd::std_specs::convert::FromSpecImpl;
use vstd::std_specs::convert::TryFromSpecImpl;

verus! {

/// A book as the screens show it.
pub struct Book {
    pub isbn: i64,
    pub title: String,
    pub author: String,
    pub owner_id: i64,
    pub available: bool,
    pub condition: i8,
    pub borrow_date: Option<String>,
    pub borrower_mail: Option<String>,
}

/// A copy of an optional text, equal to the original.
pub fn clone_opt_string(s: &Option<String>) -> (r: Option<String>)
    ensures
        r == *s,
{
    match s {
        Some(t) => Some(t.clone()),
        None => None,
    }
}

impl Clone for Book {
    fn clone(&self) -> (r: Self)
        ensures
            r == *self,
    {
        Book {
            isbn: self.isbn,
            title: self.title.clone(),
            author: self.author.clone(),
            owner_id: self.owner_id,
            available: self.available,
            condition: self.condition,
            borrow_date: clone_opt_string(&self.borrow_date),
            borrower_mail: clone_opt_string(&self.borrower_mail),
        }
    }
}

/// A book as the server sends it: availability is a number, 0 meaning
/// borrowed.
pub struct BookRow {
    pub isbn: i64,
    pub title: String,
    pub author: String,
    pub owner_id: i64,
    pub available: i8,
    pub condition: i8,
    pub borrow_date: Option<String>,
    pub borrower_mail: Option<String>,
}

/// The book a server row describes: every field is kept, and the book is
/// available exactly when the row's availability is not 0.
pub open spec fn book_of_row(row: BookRow) -> Book {
    Book {
        isbn: row.isbn,
        title: row.title,
        author: row.author,
        owner_id: row.owner_id,
        available: row.available != 0,
        condition: row.condition,
        borrow_date: row.borrow_date,
        borrower_mail: row.borrower_mail,
    }
}

impl From<BookRow> for Book {
    fn from(row: BookRow) -> (r: Book) {
        Book {
            isbn: row.isbn,
            title: row.title,
            author: row.author,
            owner_id: row.owner_id,
            available: row.available != 0,
            condition: row.condition,
            borrow_date: row.borrow_date,
            borrower_mail: row.borrower_mail,
        }
    }
}

impl FromSpecImpl<BookRow> for Book {
    open spec fn obeys_from_spec() -> bool {
        true
    }

    open spec fn from_spec(v: BookRow) -> Book {
        book_of_row(v)
    }
}

/// Converts every server row into a book, in order.
pub fn books_of_rows(rows: Vec<BookRow>) -> (books: Vec<Book>)
    ensures
        books@ == rows@.map_values(|r: BookRow| book_of_row(r)),
        books@.len() == rows@.len(),
        forall|i: int|
            #![trigger books@[i]]
            0 <= i < rows@.len() ==> {
                &&& books@[i].isbn == rows@[i].isbn
                &&& books@[i].title == rows@[i].title
                &&& books@[i].author == rows@[i].author
                &&& books@[i].owner_id == rows@[i].owner_id
                &&& books@[i].available == (rows@[i].available != 0)
                &&& books@[i].condition == rows@[i].condition
                &&& books@[i].borrow_date == rows@[i].borrow_date
                &&& books@[i].borrower_mail == rows@[i].borrower_mail
            },
{
    let ghost all = rows@;
    let mut books: Vec<Book> = Vec::new();
    let mut rows = rows;
    while rows.len() > 0
        invariant
            rows@.len() <= all.len(),
            rows@ =~= all.skip(all.len() - rows@.len()),
            books@ =~= all.take(all.len() - rows@.len()).map_values(|r: BookRow| book_of_row(r)),
        decreases rows@.len(),
    {
        let ghost k = all.len() - rows@.len();
        let row = rows.remove(0);
        assert(row == all[k]);
        books.push(Book::from(row));
        assert(all.take(k + 1) =~= all.take(k).push(all[k]));
    }
    assert(all.take(all.len() as int) =~= all);
    books
}

/// An owner of books.
pub struct Owner {
    pub id: i64,
    pub name: String,
    pub lastname: String,
    pub mail: String,
}

impl Clone for Owner {
    fn clone(&self) -> (r: Self)
        ensures
            r == *self,
    {
        Owner {
            id: self.id,
            name: self.name.clone(),
            lastname: self.lastname.clone(),
            mail: self.mail.clone(),
        }
    }
}

/// The condition grade of a book, from worst to best.
#[derive(Clone, Copy, PartialEq, Eq, Structural, Debug)]
pub enum Condition {
    Bad,
    Acceptable,
    Good,
    Excellent,
    New,
}

impl Condition {
    /// The number that stands for the grade on the server: -1 to 3.
    pub open spec fn code(self) -> i8 {
        match self {
            Condition::Bad => -1i8,
            Condition::Acceptable => 0i8,
            Condition::Good => 1i8,
            Condition::Excellent => 2i8,
            Condition::New => 3i8,
        }
    }

    /// The grade that `v` stands for, if any.
    pub open spec fn of_code(v: i8) -> Option<Condition> {
        if v == -1 {
            Some(Condition::Bad)
        } else if v == 0 {
            Some(Condition::Acceptable)
        } else if v == 1 {
            Some(Condition::Good)
        } else if v == 2 {
            Some(Condition::Excellent)
        } else if v == 3 {
            Some(Condition::New)
        } else {
            None
        }
    }

    /// The name of the grade shown to the user.
    pub open spec fn label_spec(self) -> Seq<char> {
        match self {
            Condition::Bad => "Bad"@,
            Condition::Acceptable => "Acceptable"@,
            Condition::Good => "Good"@,
            Condition::Excellent => "Excellent"@,
            Condition::New => "New"@,
        }
    }

    /// Every grade, from worst to best.
    pub fn all() -> (a: [Condition; 5])
        ensures
            a@ == seq![
                Condition::Bad,
                Condition::Acceptable,
                Condition::Good,
                Condition::Excellent,
                Condition::New,
            ],
    {
        [Condition::Bad, Condition::Acceptable, Condition::Good, Condition::Excellent, Condition::New]
    }

    pub fn label(&self) -> (s: &'static str)
        ensures
            s@ == self.label_spec(),
    {
        match self {
            Condition::Bad => "Bad",
            Condition::Acceptable => "Acceptable",
            Condition::Good => "Good",
            Condition::Excellent => "Excellent",
            Condition::New => "New",
        }
    }

    /// The server number of the grade.
    pub fn to_code(&self) -> (v: i8)
        ensures
            v == self.code(),
    {
        match self {
            Condition::Bad => -1,
            Condition::Acceptable => 0,
            Condition::Good => 1,
            Condition::Excellent => 2,
            Condition::New => 3,
        }
    }

    /// The grade whose server number is `v`; searches the grades in order,
    /// as the conversion from `i8` does.
    pub fn from_code(v: i8) -> (c: Option<Condition>)
        ensures
            c == Condition::of_code(v),
    {
        let all = Condition::all();
        let mut i: usize = 0;
        while i < 5
            invariant
                all@ == seq![
                    Condition::Bad,
                    Condition::Acceptable,
                    Condition::Good,
                    Condition::Excellent,
                    Condition::New,
                ],
                0 <= i <= 5,
                forall|j: int| 0 <= j < i ==> (#[trigger] all@[j]).code() != v,
            decreases 5 - i,
        {
            if all[i].to_code() == v {
                return Some(all[i]);
            }
            i = i + 1;
        }
        assert(all@[0].code() != v && all@[1].code() != v && all@[2].code() != v);
        assert(all@[3].code() != v && all@[4].code() != v);
        None
    }

    /// The name shown for a server number: the grade's name, or `Unknown`
    /// when no grade has that number.
    pub fn label_of_code(v: i8) -> (s: &'static str)
        ensures
            s@ == match Condition::of_code(v) {
                Some(c) => c.label_spec(),
                None => "Unknown"@,
            },
    {
        match Condition::from_code(v) {
            Some(c) => c.label(),
            None => "Unknown",
        }
    }
}

impl TryFrom<i8> for Condition {
    type Error = ();

    fn try_from(v: i8) -> (r: Result<Condition, ()>) {
        match Condition::from_code(v) {
            Some(c) => Ok(c),
            None => Err(()),
        }
    }
}

impl TryFromSpecImpl<i8> for Condition {
    open spec fn obeys_try_from_spec() -> bool {
        true
    }

    open spec fn try_from_spec(v: i8) -> Result<Condition, ()> {
        match Condition::of_code(v) {
            Some(c) => Ok(c),
            None => Err(()),
        }
    }
}

impl From<Condition> for i8 {
    fn from(c: Condition) -> (r: i8) {
        c.to_code()
    }
}

impl FromSpecImpl<Condition> for i8 {
    open spec fn obeys_from_spec() -> bool {
        true
    }

    open spec fn from_spec(v: Condition) -> i8 {
        v.code()
    }
}

/// Reading a grade back from its server number gives the same grade.
pub proof fn lemma_condition_code_roundtrip(c: Condition)
    ensures
        Condition::of_code(c.code()) == Some(c),
{
}

/// A server number stands for a grade exactly when it lies between -1 and
/// 3, and then the grade's number is that number.
pub proof fn lemma_condition_codes(v: i8)
    ensures
        Condition::of_code(v) is Some <==> -1 <= v <= 3,
        Condition::of_code(v) matches Some(c) ==> c.code() == v,
{
}

/// Converting a server row keeps every field as it is, the title as the
/// title and the author as the author; only availability is derived: the
/// book is available exactly when the row's number is not 0.
pub proof fn lemma_row_conversion_keeps_fields(row: BookRow)
    ensures
        book_of_row(row).isbn == row.isbn,
        book_of_row(row).title == row.title,
        book_of_row(row).author == row.author,
        book_of_row(row).owner_id == row.owner_id,
        book_of_row(row).available <==> row.available != 0,
        book_of_row(row).condition == row.condition,
        book_of_row(row).borrow_date == row.borrow_date,
        book_of_row(row).borrower_mail == row.borrower_mail,
{
}

} // verus!
