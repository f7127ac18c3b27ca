//! A search panel: a form, the results of the last search, a status line
//! and paging through the whole catalogue when the form is blank.

use vstd::prelude::*;
use crate::constants::{HEADER_TOKEN, ITEMS_PER_PAGE};
use crate::main_app::forms::search_form::SearchForm;
use crate::requests::{ApiCall, HttpMethod, token_headers};
use crate::requests::structs::{CountResponse, SampleBookRequest};
use crate::text::{decimal, decimal_string, join};

verus! {

/// The largest number of pages the panel keeps count of: with more, the
/// position of the last item would not fit in an `i64`.
pub open spec fn max_pages() -> int {
    (i64::MAX as int) / (ITEMS_PER_PAGE as int)
}

/// The number of pages that `count` items fill: `count / ITEMS_PER_PAGE`
/// rounded up, and at least one page.
pub open spec fn pages_for(count: int) -> int {
    if count <= 0 {
        1
    } else {
        (count + ITEMS_PER_PAGE - 1) / (ITEMS_PER_PAGE as int)
    }
}

/// `v` brought into the range `lo..=hi` (which must not be empty).
pub open spec fn clamp(v: int, lo: int, hi: int) -> int {
    if v < lo {
        lo
    } else if v > hi {
        hi
    } else {
        v
    }
}

/// The headers of an authenticated call: the token header alone.
pub open spec fn has_token_headers(h: Seq<(String, String)>, token: String) -> bool {
    h.len() == 1 && h[0].0@ == HEADER_TOKEN@ && h[0].1 == token
}

/// A search, as the panel sends it: a slice of the whole catalogue when the
/// form is blank, else the form's criteria.
pub enum SearchCall<R> {
    Sample(ApiCall<SampleBookRequest>),
    Filtered(ApiCall<R>),
}

pub struct SearchPanel<F: SearchForm> {
    pub form: F,
    pub items: Vec<F::Item>,
    pub status: String,
    pub status_error: bool,
    pub loading: bool,
    /// A search was sent and its reply has not been handled yet.
    pub awaiting_items: bool,
    /// A count was sent and its reply has not been handled yet.
    pub awaiting_count: bool,
    /// The session token sent with every call.
    pub token: String,
    /// The page shown, counted from 0.
    pub page: i64,
    /// The number of pages of the catalogue, as last counted.
    pub total_pages: i64,
}

impl<F: SearchForm> SearchPanel<F> {
    /// The page shown (from 0) stays below `max_pages()`, and the number of
    /// pages is between 1 and `max_pages()`.
    pub open spec fn wf(&self) -> bool {
        &&& 0 <= self.page < max_pages()
        &&& 1 <= self.total_pages <= max_pages()
    }

    pub open spec fn page_spec(&self) -> int {
        self.page as int
    }

    pub open spec fn total_pages_spec(&self) -> int {
        self.total_pages as int
    }

    pub open spec fn token_spec(&self) -> String {
        self.token
    }

    /// The call that counts the catalogue.
    pub open spec fn is_count_call(call: ApiCall<()>, token: String) -> bool {
        &&& call.method == HttpMethod::Post
        &&& call.endpoint@ == F::endpoint_count_spec()
        &&& call.body is None
        &&& has_token_headers(call.headers@, token)
    }

    /// The search that the panel `p` sends: the current page of the
    /// catalogue when its form is blank, else the form's request.
    pub open spec fn is_search_call(p: Self, call: SearchCall<F::Request>) -> bool {
        if p.form.all_empty() {
            &&& call matches SearchCall::Sample(c)
            &&& c.method == HttpMethod::Post
            &&& c.endpoint@ == F::endpoint_sample_spec()
            &&& c.body matches Some(b)
            &&& b.begin == p.page_spec() * ITEMS_PER_PAGE
            &&& b.end == p.page_spec() * ITEMS_PER_PAGE + ITEMS_PER_PAGE
            &&& has_token_headers(c.headers@, p.token_spec())
        } else {
            &&& call matches SearchCall::Filtered(c)
            &&& c.method == HttpMethod::Post
            &&& c.endpoint@ == F::endpoint_spec()
            &&& c.body == Some(p.form.request_spec())
            &&& has_token_headers(c.headers@, p.token_spec())
        }
    }

    /// A new panel with a blank form, and the two calls it starts with: the
    /// count of the catalogue, then the first page.
    pub fn new(token: String) -> (r: (Self, ApiCall<()>, SearchCall<F::Request>))
        ensures
            r.0.wf(),
            r.0.form.all_empty(),
            r.0.items@.len() == 0,
            r.0.status@ == "Loading..."@,
            !r.0.status_error,
            r.0.loading,
            r.0.awaiting_items,
            r.0.awaiting_count,
            r.0.token_spec() == token,
            r.0.page_spec() == 0,
            r.0.total_pages_spec() == 1,
            Self::is_count_call(r.1, token),
            Self::is_search_call(r.0, r.2),
    {
        let mut panel = SearchPanel {
            form: F::blank(),
            items: Vec::new(),
            status: String::from_str("Loading..."),
            status_error: false,
            loading: false,
            awaiting_items: false,
            awaiting_count: false,
            token,
            page: 0,
            total_pages: 1,
        };
        let count = panel.fetch_count();
        let search = panel.search();
        (panel, count, search)
    }

    /// Asks for the size of the catalogue.
    pub fn fetch_count(&mut self) -> (call: ApiCall<()>)
        requires
            old(self).wf(),
        ensures
            final(self).wf(),
            final(self).awaiting_count,
            Self::is_count_call(call, old(self).token_spec()),
            final(self).form == old(self).form,
            final(self).items == old(self).items,
            final(self).status == old(self).status,
            final(self).status_error == old(self).status_error,
            final(self).loading == old(self).loading,
            final(self).awaiting_items == old(self).awaiting_items,
            final(self).token_spec() == old(self).token_spec(),
            final(self).page_spec() == old(self).page_spec(),
            final(self).total_pages_spec() == old(self).total_pages_spec(),
    {
        self.awaiting_count = true;
        ApiCall {
            method: HttpMethod::Post,
            endpoint: String::from_str(F::endpoint_count()),
            body: None,
            headers: token_headers(self.token.clone()),
        }
    }

    /// Handles what came back since the last frame: the reply to the
    /// search, if one was awaited and came, and the reply to the count,
    /// likewise. A successful search replaces the items; a failed one keeps
    /// them and shows the error. A successful count sets the number of
    /// pages; a failed one changes nothing but that it is no longer
    /// awaited. The page shown is left as it is.
    pub fn poll(
        &mut self,
        items_msg: Option<Result<F::Response, String>>,
        count_msg: Option<Result<CountResponse, String>>,
    )
        requires
            old(self).wf(),
            count_msg matches Some(Ok(c)) ==> c.count <= i64::MAX - (ITEMS_PER_PAGE - 1),
        ensures
            final(self).wf(),
            final(self).form == old(self).form,
            final(self).token_spec() == old(self).token_spec(),
            final(self).page_spec() == old(self).page_spec(),
            (old(self).awaiting_items && items_msg is Some) ==> {
                &&& !final(self).loading
                &&& !final(self).awaiting_items
                &&& match items_msg.unwrap() {
                    Ok(resp) => {
                        &&& final(self).items@ == F::items_spec(resp)
                        &&& final(self).status@ == "Loaded!"@
                        &&& !final(self).status_error
                    },
                    Err(e) => {
                        &&& final(self).items == old(self).items
                        &&& final(self).status@ == "Error: "@ + e@
                        &&& final(self).status_error
                    },
                }
            },
            !(old(self).awaiting_items && items_msg is Some) ==> {
                &&& final(self).loading == old(self).loading
                &&& final(self).awaiting_items == old(self).awaiting_items
                &&& final(self).items == old(self).items
                &&& final(self).status == old(self).status
                &&& final(self).status_error == old(self).status_error
            },
            (old(self).awaiting_count && count_msg is Some) ==> {
                &&& !final(self).awaiting_count
                &&& final(self).total_pages_spec() == match count_msg.unwrap() {
                    Ok(c) => pages_for(c.count as int),
                    Err(_) => old(self).total_pages_spec(),
                }
            },
            !(old(self).awaiting_count && count_msg is Some) ==> {
                &&& final(self).awaiting_count == old(self).awaiting_count
                &&& final(self).total_pages_spec() == old(self).total_pages_spec()
            },
    {
        if self.awaiting_items {
            if let Some(result) = items_msg {
                self.loading = false;
                match result {
                    Ok(resp) => {
                        self.items = F::unwrap_response(resp);
                        self.status = String::from_str("Loaded!");
                        self.status_error = false;
                    },
                    Err(e) => {
                        self.status = join("Error: ", e.as_str());
                        self.status_error = true;
                    },
                }
                self.awaiting_items = false;
            }
        }
        if self.awaiting_count {
            if let Some(result) = count_msg {
                if let Ok(resp) = result {
                    self.total_pages = total_pages_for(resp.count);
                }
                self.awaiting_count = false;
            }
        }
    }

    /// Sends the search for what the form holds: the current page of the
    /// catalogue when the form is blank, else the form's criteria.
    pub fn search(&mut self) -> (call: SearchCall<F::Request>)
        requires
            old(self).wf(),
        ensures
            final(self).wf(),
            final(self).loading,
            final(self).awaiting_items,
            final(self).status@ == "Loading..."@,
            Self::is_search_call(*old(self), call),
            final(self).form == old(self).form,
            final(self).items == old(self).items,
            final(self).status_error == old(self).status_error,
            final(self).awaiting_count == old(self).awaiting_count,
            final(self).token_spec() == old(self).token_spec(),
            final(self).page_spec() == old(self).page_spec(),
            final(self).total_pages_spec() == old(self).total_pages_spec(),
    {
        self.loading = true;
        self.status = String::from_str("Loading...");
        self.awaiting_items = true;
        if self.form.check_all_empty() {
            assert(self.page * ITEMS_PER_PAGE + ITEMS_PER_PAGE <= i64::MAX) by (nonlinear_arith)
                requires
                    0 <= self.page < max_pages(),
            ;
            let begin = self.page * ITEMS_PER_PAGE;
            let end = begin + ITEMS_PER_PAGE;
            SearchCall::Sample(
                ApiCall {
                    method: HttpMethod::Post,
                    endpoint: String::from_str(F::endpoint_sample()),
                    body: Some(SampleBookRequest { begin, end }),
                    headers: token_headers(self.token.clone()),
                },
            )
        } else {
            SearchCall::Filtered(
                ApiCall {
                    method: HttpMethod::Post,
                    endpoint: String::from_str(F::endpoint()),
                    body: Some(self.form.to_request()),
                    headers: token_headers(self.token.clone()),
                },
            )
        }
    }

    /// Moves to `page`, brought into the range of existing pages, and
    /// searches again.
    pub fn go_to_page(&mut self, page: i64) -> (call: SearchCall<F::Request>)
        requires
            old(self).wf(),
        ensures
            final(self).wf(),
            final(self).page_spec() == clamp(page as int, 0, old(self).total_pages_spec() - 1),
            0 <= final(self).page_spec() < final(self).total_pages_spec(),
            final(self).total_pages_spec() == old(self).total_pages_spec(),
            final(self).loading,
            final(self).awaiting_items,
            final(self).status@ == "Loading..."@,
            final(self).form == old(self).form,
            final(self).items == old(self).items,
            final(self).token_spec() == old(self).token_spec(),
            final(self).status_error == old(self).status_error,
            final(self).awaiting_count == old(self).awaiting_count,
            Self::is_search_call(
                (SearchPanel { page: final(self).page_spec() as i64, ..*old(self) }),
                call,
            ),
    {
        let last = self.total_pages - 1;
        self.page = if page < 0 {
            0
        } else if page > last {
            last
        } else {
            page
        };
        self.search()
    }

    /// The page shown, counted from 0.
    pub fn page(&self) -> (p: i64)
        ensures
            p == self.page_spec(),
    {
        self.page
    }

    /// The number of pages of the catalogue.
    pub fn total_pages(&self) -> (t: i64)
        ensures
            t == self.total_pages_spec(),
    {
        self.total_pages
    }

    /// Whether the "previous page" button is enabled.
    pub fn has_prev(&self) -> (b: bool)
        ensures
            b == (self.page_spec() > 0),
    {
        self.page > 0
    }

    /// Whether the "next page" button is enabled.
    pub fn has_next(&self) -> (b: bool)
        requires
            self.wf(),
        ensures
            b == (self.page_spec() + 1 < self.total_pages_spec()),
    {
        self.page + 1 < self.total_pages
    }

    /// The text "Page p / n" under the results, pages counted from 1.
    pub fn page_label(&self) -> (s: String)
        requires
            self.wf(),
        ensures
            s@ == "Page "@ + decimal((self.page_spec() + 1) as nat) + " / "@ + decimal(
                self.total_pages_spec() as nat,
            ),
    {
        let mut s = join("Page ", decimal_string((self.page + 1) as u64).as_str());
        s.append(" / ");
        s.append(decimal_string(self.total_pages as u64).as_str());
        s
    }

    /// The "Search" button: searches unless a search is already loading.
    pub fn search_clicked(&mut self) -> (call: Option<SearchCall<F::Request>>)
        requires
            old(self).wf(),
        ensures
            final(self).wf(),
            old(self).loading ==> call is None && *final(self) == *old(self),
            !old(self).loading ==> (call matches Some(c) && Self::is_search_call(*old(self), c)),
            !old(self).loading ==> *final(self) == (SearchPanel {
                loading: true,
                awaiting_items: true,
                status: final(self).status,
                ..*old(self)
            }),
            !old(self).loading ==> final(self).status@ == "Loading..."@,
    {
        if !self.loading {
            Some(self.search())
        } else {
            None
        }
    }

    /// Whether paging is shown: only when the form is blank.
    pub fn shows_pagination(&self) -> (b: bool)
        ensures
            b == self.form.all_empty(),
    {
        self.form.check_all_empty()
    }
}

/// The number of pages for a count of items, as the panel computes it.
pub fn total_pages_for(count: i64) -> (t: i64)
    requires
        count <= i64::MAX - (ITEMS_PER_PAGE - 1),
    ensures
        t == pages_for(count as int),
        1 <= t <= max_pages(),
{
    if count <= 0 {
        1
    } else {
        (count + (ITEMS_PER_PAGE - 1)) / ITEMS_PER_PAGE
    }
}

/// The pages are just enough for the items: at least one page, every item
/// has a place, and the last page is not empty.
pub proof fn lemma_pages_cover_count(count: int)
    ensures
        pages_for(count) >= 1,
        count > 0 ==> (pages_for(count) - 1) * ITEMS_PER_PAGE < count <= pages_for(count)
            * ITEMS_PER_PAGE,
{
    if count > 0 {
        let p = pages_for(count);
        assert((p - 1) * 10 < count <= p * 10 && p >= 1) by (nonlinear_arith)
            requires
                count > 0,
                p == (count + 9) / 10,
        ;
    }
}

/// Going to any page lands on an existing page: the requested one if it
/// exists, else the nearest end.
pub proof fn lemma_go_to_page_in_range(page: int, total: int)
    requires
        total >= 1,
    ensures
        0 <= clamp(page, 0, total - 1) < total,
        0 <= page < total ==> clamp(page, 0, total - 1) == page,
{
}

/// A page of the catalogue is a window of exactly `ITEMS_PER_PAGE`
/// positions that starts at a multiple of `ITEMS_PER_PAGE`, and its bounds
/// fit in an `i64`, for every panel that keeps its invariant.
pub proof fn lemma_sample_window<F: SearchForm>(p: SearchPanel<F>, call: SearchCall<F::Request>)
    requires
        p.wf(),
        p.form.all_empty(),
        SearchPanel::<F>::is_search_call(p, call),
    ensures
        call matches SearchCall::Sample(c) && c.body matches Some(b) && {
            &&& b.end - b.begin == ITEMS_PER_PAGE
            &&& b.begin % ITEMS_PER_PAGE == 0
            &&& 0 <= b.begin
            &&& b.end <= i64::MAX
        },
{
    let p_int = p.page as int;
    assert(p_int * 10 + 10 <= i64::MAX && (p_int * 10) % 10 == 0 && p_int * 10 >= 0)
        by (nonlinear_arith)
        requires
            0 <= p_int < max_pages(),
    ;
}

} // verus!
