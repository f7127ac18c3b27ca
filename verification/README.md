# library_manager

The desktop client of a small library management service: users log in,
search the catalogue of books and owners page by page, record new books and
owners, lend books out and take them back, and see which loans are overdue.

- `src/` is the client's logic, written in Verus and verified: the data model
  (`main_app/models`), the search forms and the paging search panel
  (`main_app/forms`, `main_app/search_panel`), the sub-windows
  (`main_app/subwin`), the main window (`main_app`), the login screen
  (`login`), the colour themes (`theme`), the shape of every HTTP call and
  the meaning of its reply (`requests`), and text helpers (`text`). The
  first-generation screens (`app`, `account`, `add_book`, `add_owner`,
  `add_user`, `user_privilege`, `book_details`) are kept beside them.
- Every screen is a state machine: a method decides what to send and returns
  the call as a value; the window code sends it and later hands the reply
  back to the screen's `poll`.
- `app/` is the program around it: the egui windows, the JSON forms of the
  bodies (serde), and the transport (reqwest on a tokio runtime, one thread
  per call, results through channels).
- `tests/` exercises the library on concrete values.
