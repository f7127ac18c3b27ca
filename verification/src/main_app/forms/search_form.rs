//! What a search form offers to the search panel that shows it.

use vstd::prelude::*;

verus! {

/// A form of search criteria for one kind of item. The panel that shows it
/// asks it whether it is blank (then a page of the whole catalogue is shown
/// instead of a search), turns it into a request, and turns the server's
/// reply into the list of items.
pub trait SearchForm: Sized {
    /// One search result.
    type Item;

    /// The body of a search request.
    type Request;

    /// The body of the server's reply to a search.
    type Response;

    /// Every criterion is left blank.
    spec fn all_empty(&self) -> bool;

    /// The request that the form's criteria make.
    spec fn request_spec(&self) -> Self::Request;

    /// The items that a reply lists, in order.
    spec fn items_spec(resp: Self::Response) -> Seq<Self::Item>;

    spec fn endpoint_spec() -> Seq<char>;

    spec fn endpoint_sample_spec() -> Seq<char>;

    spec fn endpoint_count_spec() -> Seq<char>;

    /// A form with every criterion blank.
    fn blank() -> (f: Self)
        ensures
            f.all_empty(),
    ;

    /// The endpoint that searches by criteria.
    fn endpoint() -> (s: &'static str)
        ensures
            s@ == Self::endpoint_spec(),
    ;

    /// The endpoint that lists a slice of the whole catalogue.
    fn endpoint_sample() -> (s: &'static str)
        ensures
            s@ == Self::endpoint_sample_spec(),
    ;

    /// The endpoint that counts the whole catalogue.
    fn endpoint_count() -> (s: &'static str)
        ensures
            s@ == Self::endpoint_count_spec(),
    ;

    fn to_request(&self) -> (r: Self::Request)
        ensures
            r == self.request_spec(),
    ;

    fn unwrap_response(resp: Self::Response) -> (v: Vec<Self::Item>)
        ensures
            v@ == Self::items_spec(resp),
    ;

    fn clear(&mut self)
        ensures
            final(self).all_empty(),
    ;

    fn check_all_empty(&self) -> (b: bool)
        ensures
            b == self.all_empty(),
    ;
}

} // verus!
