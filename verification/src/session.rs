//! The course of one lookup: ask for a term, search, let the user choose,
//! fetch the details of the choice, show them.
//!
//! The library decides; the caller does what it is told and reports back.
//! [`step`] takes the stage that the lookup is in and what has just
//! happened, and gives the next stage and what to do next.

use vstd::prelude::*;
use crate::model::{details_views, Details, DetailsView, ItemDetails, ItemDetailsView, ItemView, Items};
use crate::normalize::{entries_of, labels_of, normalize, Listing};
use crate::present::{
    detail_view, lemma_failed_detail_shows_summary, page, present, summary, Rendering,
    RenderingView,
};
use crate::request::{
    authorized, detail_request, detail_url, hits_of, lemma_failed_search_lists_nothing,
    received_hits, response_view, search_request, search_url, Request, RequestView,
};
use crate::text::{texts, upper_cased};
use crate::layout::laid_out;

verus! {

/// Where a lookup stands.
#[derive(Debug)]
pub enum Stage {
    /// The user is asked for a search term.
    Asking,
    /// The search request is under way.
    Searching,
    /// The user chooses among these entries.
    Choosing(Vec<Details>),
    /// The detail request for this entry is under way.
    Fetching(Details),
    /// The lookup is over.
    Done,
}

/// What has just happened.
#[derive(Debug)]
pub enum Event {
    /// The user entered this search term.
    Term(String),
    /// The search request ended: with this response, or in failure.
    Hits(Option<Items>),
    /// The user chose the entry at this position, counted from 0.
    Choice(usize),
    /// The detail request ended: with this response, or in failure.
    Detail(Option<ItemDetails>),
}

/// What to do next.
#[derive(Debug)]
pub enum Action {
    /// Send this request and report how it ended.
    Fetch(Request),
    /// Offer these labels for selection and report the choice.
    Select(Vec<String>),
    /// Show these lines; if a count is missing, fail after showing them.
    Show(Rendering),
    /// Fail: nothing was on offer at the chosen position.
    NoSuchChoice,
    /// Nothing: the event does not belong to the stage, which stays.
    Refuse,
}

/// What a [`Stage`] holds, as plain values.
pub enum StageView {
    Asking,
    Searching,
    Choosing(Seq<DetailsView>),
    Fetching(DetailsView),
    Done,
}

/// What an [`Event`] holds, as plain values.
pub enum EventView {
    Term(Seq<char>),
    Hits(Option<Seq<ItemView>>),
    Choice(int),
    Detail(Option<ItemDetailsView>),
}

/// What an [`Action`] holds, as plain values.
pub enum ActionView {
    Fetch(RequestView),
    Select(Seq<Seq<char>>),
    Show(RenderingView),
    NoSuchChoice,
    Refuse,
}

impl View for Stage {
    type V = StageView;

    open spec fn view(&self) -> StageView {
        match self {
            Stage::Asking => StageView::Asking,
            Stage::Searching => StageView::Searching,
            Stage::Choosing(entries) => StageView::Choosing(details_views(entries@)),
            Stage::Fetching(entry) => StageView::Fetching(entry@),
            Stage::Done => StageView::Done,
        }
    }
}

impl View for Event {
    type V = EventView;

    open spec fn view(&self) -> EventView {
        match self {
            Event::Term(term) => EventView::Term(term@),
            Event::Hits(response) => EventView::Hits(response_view(*response)),
            Event::Choice(position) => EventView::Choice(*position as int),
            Event::Detail(detail) => EventView::Detail(detail_view(*detail)),
        }
    }
}

impl View for Action {
    type V = ActionView;

    open spec fn view(&self) -> ActionView {
        match self {
            Action::Fetch(request) => ActionView::Fetch(request@),
            Action::Select(labels) => ActionView::Select(texts(labels@)),
            Action::Show(shown) => ActionView::Show(shown@),
            Action::NoSuchChoice => ActionView::NoSuchChoice,
            Action::Refuse => ActionView::Refuse,
        }
    }
}

/// Whether `overview` can be what a step shows of the entry's overview:
/// lines that lay it out, where the step shows the entry; anything
/// elsewhere, where no overview is shown.
pub open spec fn lays_out(stage: StageView, event: EventView, overview: Seq<Seq<char>>) -> bool {
    match (stage, event) {
        (StageView::Fetching(entry), EventView::Detail(_)) => laid_out(overview, entry.overview),
        _ => true,
    }
}

/// The next stage and the next action, for a lookup on behalf of the holder
/// of `token`, given the lines in which the overview is laid out.
///
/// A term starts the search. The search's hits, none if it failed, become
/// the entries on offer. A choice among them starts the detail request for
/// the chosen entry; a choice beyond them ends the lookup in failure. The
/// detail response, if any, is shown with the entry, which ends the lookup.
/// Any other event is refused.
pub open spec fn advance(
    stage: StageView,
    event: EventView,
    token: Seq<char>,
    overview: Seq<Seq<char>>,
) -> (StageView, ActionView) {
    match (stage, event) {
        (StageView::Asking, EventView::Term(term)) => (
            StageView::Searching,
            ActionView::Fetch(authorized(search_url(term), token)),
        ),
        (StageView::Searching, EventView::Hits(response)) => (
            StageView::Choosing(entries_of(hits_of(response))),
            ActionView::Select(labels_of(hits_of(response))),
        ),
        (StageView::Choosing(entries), EventView::Choice(position)) => {
            if 0 <= position < entries.len() {
                let entry = entries[position];
                (
                    StageView::Fetching(entry),
                    ActionView::Fetch(authorized(detail_url(entry.id, entry.media_type), token)),
                )
            } else {
                (StageView::Done, ActionView::NoSuchChoice)
            }
        },
        (StageView::Fetching(entry), EventView::Detail(detail)) => (
            StageView::Done,
            ActionView::Show(page(entry, upper_cased(entry.original_language), overview, detail)),
        ),
        _ => (stage, ActionView::Refuse),
    }
}

/// Takes a lookup one step further. Everything about the step is fixed but
/// the lines in which an overview is laid out: of those, that they lay it
/// out.
pub fn step(stage: Stage, event: Event, token: &str) -> (next: (Stage, Action))
    ensures
        exists|overview: Seq<Seq<char>>|
            #[trigger] lays_out(stage@, event@, overview) && (next.0@, next.1@) == advance(
                stage@,
                event@,
                token@,
                overview,
            ),
{
    let ghost before = stage@;
    let ghost happened = event@;
    let ghost mut overview = Seq::<Seq<char>>::empty();
    let next = match (stage, event) {
        (Stage::Asking, Event::Term(term)) => (
            Stage::Searching,
            Action::Fetch(search_request(term.as_str(), token)),
        ),
        (Stage::Searching, Event::Hits(response)) => {
            let hits = received_hits(response);
            let Listing { labels, entries } = normalize(&hits);
            (Stage::Choosing(entries), Action::Select(labels))
        },
        (Stage::Choosing(mut entries), Event::Choice(position)) => {
            if position < entries.len() {
                let entry = entries.remove(position);
                let request = detail_request(entry.id, entry.media_type.as_str(), token);
                (Stage::Fetching(entry), Action::Fetch(request))
            } else {
                (Stage::Done, Action::NoSuchChoice)
            }
        },
        (Stage::Fetching(entry), Event::Detail(detail)) => {
            let shown = present(&entry, &detail);
            proof {
                overview = choose|overview: Seq<Seq<char>>|
                    #[trigger] laid_out(overview, entry@.overview) && shown@ == page(
                        entry@,
                        upper_cased(entry@.original_language),
                        overview,
                        detail_view(detail),
                    );
            }
            (Stage::Done, Action::Show(shown))
        },
        (stage, _) => (stage, Action::Refuse),
    };
    assert(lays_out(before, happened, overview) && (next.0@, next.1@) == advance(
        before,
        happened,
        token@,
        overview,
    ));
    next
}

/// Requests go out in order: the search request answers a term, the detail
/// request answers a choice, and nothing else sends a request.
pub proof fn lemma_requests_in_order(
    stage: StageView,
    event: EventView,
    token: Seq<char>,
    overview: Seq<Seq<char>>,
)
    ensures
        advance(stage, event, token, overview).1 is Fetch ==> {
            ||| stage is Asking && event is Term && advance(stage, event, token, overview).0
                is Searching
            ||| stage is Choosing && event is Choice && advance(stage, event, token, overview).0
                is Fetching
        },
        stage is Done ==> advance(stage, event, token, overview) == (stage, ActionView::Refuse),
{
}

/// Failures of either request are absorbed: after a failed search nothing is
/// on offer, and after a failed detail request the summary is shown alone
/// and nothing is reported missing. Neither ends the lookup out of turn.
pub proof fn lemma_failed_requests_are_absorbed(
    entry: DetailsView,
    token: Seq<char>,
    overview: Seq<Seq<char>>,
)
    ensures
        advance(StageView::Searching, EventView::Hits(None), token, overview) == (
            StageView::Choosing(Seq::empty()),
            ActionView::Select(Seq::empty()),
        ),
        advance(StageView::Fetching(entry), EventView::Detail(None), token, overview) == (
            StageView::Done,
            ActionView::Show(
                RenderingView {
                    lines: summary(entry, upper_cased(entry.original_language), overview),
                    missing: None,
                },
            ),
        ),
{
    lemma_failed_search_lists_nothing();
    lemma_failed_detail_shows_summary(entry, upper_cased(entry.original_language), overview);
}

} // verus!
