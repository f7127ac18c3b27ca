use library_manager::main_app::models::{books_of_rows, Book, BookRow, Condition};
use library_manager::utils::{condition_field_choice, condition_field_text, int_field_start, int_field_value};

fn row(isbn: i64, available: i8) -> BookRow {
    BookRow {
        isbn,
        title: format!("Title {isbn}"),
        author: "Author".to_string(),
        owner_id: 3,
        available,
        condition: 1,
        borrow_date: None,
        borrower_mail: Some("a@b.c".to_string()),
    }
}

#[test]
fn condition_codes_roundtrip() {
    for c in Condition::all() {
        let v = i8::from(c);
        assert_eq!(Condition::try_from(v), Ok(c));
    }
    assert_eq!(i8::from(Condition::Bad), -1);
    assert_eq!(i8::from(Condition::New), 3);
    assert_eq!(Condition::try_from(4), Err(()));
    assert_eq!(Condition::try_from(-2), Err(()));
}

#[test]
fn condition_labels() {
    assert_eq!(Condition::Excellent.label(), "Excellent");
    assert_eq!(Condition::label_of_code(0), "Acceptable");
    assert_eq!(Condition::label_of_code(9), "Unknown");
}

#[test]
fn book_from_row_reads_availability() {
    let b = Book::from(row(10, 0));
    assert!(!b.available);
    assert_eq!(b.isbn, 10);
    assert_eq!(b.borrower_mail.as_deref(), Some("a@b.c"));
    assert!(Book::from(row(11, 2)).available);
    assert!(Book::from(row(12, -1)).available);
}

#[test]
fn rows_convert_in_order() {
    let books = books_of_rows(vec![row(1, 1), row(2, 0), row(3, 1)]);
    let isbns: Vec<i64> = books.iter().map(|b| b.isbn).collect();
    assert_eq!(isbns, vec![1, 2, 3]);
    assert!(!books[1].available);
    assert!(books_of_rows(vec![]).is_empty());
}

#[test]
fn int_field_zero_means_absent() {
    assert_eq!(int_field_value(0), None);
    assert_eq!(int_field_value(-4), Some(-4));
    assert_eq!(int_field_start(None), 0);
    assert_eq!(int_field_start(Some(9)), 9);
    assert_eq!(int_field_value(int_field_start(Some(0))), None);
    assert_eq!(int_field_value(int_field_start(Some(5))), Some(5));
}

#[test]
fn condition_picker_text() {
    assert_eq!(condition_field_text(None), "None");
    assert_eq!(condition_field_text(Some(2)), "Excellent");
    assert_eq!(condition_field_text(Some(9)), "None");
    assert_eq!(condition_field_choice(Condition::Good), Some(1));
}
