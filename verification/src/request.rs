//! The two requests of a lookup, and what counts as their answer.
//!
//! The search request goes to the multi-type search endpoint with the term
//! percent-encoded into its query; the detail request goes to the endpoint
//! named by the chosen entry's media type and id. Both carry the same two
//! headers. Sending is left to the caller.

use vstd::prelude::*;
use vstd::string::*;
use crate::encode::{percent_encode, percent_encoded};
use crate::model::{item_views, DetailsView, Item, ItemView, Items};
use crate::normalize::{entries_of, labels_of};
use crate::number::{decimal, decimal_digits};

verus! {

/// A GET request: where it goes, and its `Accept` and `Authorization`
/// headers.
#[derive(Debug)]
pub struct Request {
    pub url: String,
    pub accept: String,
    pub authorization: String,
}

/// What a [`Request`] holds, as plain values.
pub struct RequestView {
    pub url: Seq<char>,
    pub accept: Seq<char>,
    pub authorization: Seq<char>,
}

impl View for Request {
    type V = RequestView;

    open spec fn view(&self) -> RequestView {
        RequestView { url: self.url@, accept: self.accept@, authorization: self.authorization@ }
    }
}

/// The address of a search for `term`: first page, adult content left out,
/// English, and the term percent-encoded.
pub open spec fn search_url(term: Seq<char>) -> Seq<char> {
    "https://api.themoviedb.org/3/search/multi"@
        + "?page=1&include_adult=false&language=en-US&query="@ + percent_encoded(term)
}

/// The address of the details of entry `id` of the given media type.
pub open spec fn detail_url(id: u32, media_type: Seq<char>) -> Seq<char> {
    "https://api.themoviedb.org/3/"@ + media_type + "/"@ + decimal_digits(id as nat)
        + "?language=en-US"@
}

/// The request for `url` on behalf of the holder of `token`: JSON is asked
/// for, and the token is sent as a bearer token.
pub open spec fn authorized(url: Seq<char>, token: Seq<char>) -> RequestView {
    RequestView { url, accept: "application/json"@, authorization: "Bearer "@ + token }
}

fn authorize(url: String, token: &str) -> (request: Request)
    ensures
        request@ == authorized(url@, token@),
{
    let mut authorization = String::from_str("Bearer ");
    authorization.append(token);
    Request { url, accept: String::from_str("application/json"), authorization }
}

/// The request that searches for `term`. Any term is taken, the empty one
/// too.
pub fn search_request(term: &str, token: &str) -> (request: Request)
    ensures
        request@ == authorized(search_url(term@), token@),
{
    let mut url = String::from_str("https://api.themoviedb.org/3/search/multi");
    url.append("?page=1&include_adult=false&language=en-US&query=");
    url.append(percent_encode(term).as_str());
    authorize(url, token)
}

/// The request for the details of entry `id` of the given media type. The
/// media type goes into the address as it is.
pub fn detail_request(id: u32, media_type: &str, token: &str) -> (request: Request)
    ensures
        request@ == authorized(detail_url(id, media_type@), token@),
{
    let mut url = String::from_str("https://api.themoviedb.org/3/");
    url.append(media_type);
    url.append("/");
    url.append(decimal(id).as_str());
    url.append("?language=en-US");
    authorize(url, token)
}

/// The hits that a search response stands for: those it lists, or none
/// where the request failed or its body could not be read.
pub open spec fn hits_of(response: Option<Seq<ItemView>>) -> Seq<ItemView> {
    match response {
        Some(hits) => hits,
        None => Seq::empty(),
    }
}

/// The view of a search response that may have failed.
pub open spec fn response_view(response: Option<Items>) -> Option<Seq<ItemView>> {
    match response {
        Some(items) => Some(items@),
        None => None,
    }
}

/// Takes the hits out of a search response; a failed request counts as a
/// response without hits.
pub fn received_hits(response: Option<Items>) -> (hits: Vec<Item>)
    ensures
        item_views(hits@) == hits_of(response_view(response)),
{
    match response {
        Some(items) => items.results,
        None => Vec::new(),
    }
}

/// A search that failed offers nothing for selection.
pub proof fn lemma_failed_search_lists_nothing()
    ensures
        hits_of(None) == Seq::<ItemView>::empty(),
        labels_of(hits_of(None)) == Seq::<Seq<char>>::empty(),
        entries_of(hits_of(None)) == Seq::<DetailsView>::empty(),
{
}

} // verus!
