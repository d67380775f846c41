//! The records that travel through a lookup: raw search hits, the entries
//! made from them for display, and the fields of a detail response.

use vstd::prelude::*;

verus! {

/// The characters of an optional string.
pub open spec fn opt_text(text: Option<String>) -> Option<Seq<char>> {
    match text {
        Some(s) => Some(s@),
        None => None,
    }
}

/// The characters of an optional string, none at all where it is absent.
pub open spec fn text_or_empty(text: Option<Seq<char>>) -> Seq<char> {
    match text {
        Some(s) => s,
        None => Seq::empty(),
    }
}

/// One result of the multi-type search. Movies, TV shows and people share
/// the record, so every field but `id` may be missing.
#[derive(Debug)]
pub struct Item {
    pub id: u32,
    pub original_name: Option<String>,
    pub original_title: Option<String>,
    pub release_date: Option<String>,
    pub first_air_date: Option<String>,
    pub original_language: Option<String>,
    pub overview: Option<String>,
    pub media_type: Option<String>,
}

/// What an [`Item`] holds, as plain values.
pub struct ItemView {
    pub id: u32,
    pub original_name: Option<Seq<char>>,
    pub original_title: Option<Seq<char>>,
    pub release_date: Option<Seq<char>>,
    pub first_air_date: Option<Seq<char>>,
    pub original_language: Option<Seq<char>>,
    pub overview: Option<Seq<char>>,
    pub media_type: Option<Seq<char>>,
}

impl View for Item {
    type V = ItemView;

    open spec fn view(&self) -> ItemView {
        ItemView {
            id: self.id,
            original_name: opt_text(self.original_name),
            original_title: opt_text(self.original_title),
            release_date: opt_text(self.release_date),
            first_air_date: opt_text(self.first_air_date),
            original_language: opt_text(self.original_language),
            overview: opt_text(self.overview),
            media_type: opt_text(self.media_type),
        }
    }
}

impl Item {
    /// A search hit with the given fields.
    pub fn new(
        original_name: Option<String>,
        original_title: Option<String>,
        release_date: Option<String>,
        first_air_date: Option<String>,
        original_language: Option<String>,
        overview: Option<String>,
        media_type: Option<String>,
        id: u32,
    ) -> (item: Self)
        ensures
            item@ == (ItemView {
                id,
                original_name: opt_text(original_name),
                original_title: opt_text(original_title),
                release_date: opt_text(release_date),
                first_air_date: opt_text(first_air_date),
                original_language: opt_text(original_language),
                overview: opt_text(overview),
                media_type: opt_text(media_type),
            }),
    {
        Self {
            original_name,
            original_title,
            release_date,
            first_air_date,
            original_language,
            overview,
            media_type,
            id,
        }
    }
}

/// The body of a search response: its hits, in the order they were sent.
#[derive(Debug)]
pub struct Items {
    pub results: Vec<Item>,
}

/// The views of a run of hits, in the same order.
pub open spec fn item_views(items: Seq<Item>) -> Seq<ItemView> {
    items.map_values(|item: Item| item@)
}

impl View for Items {
    type V = Seq<ItemView>;

    open spec fn view(&self) -> Seq<ItemView> {
        item_views(self.results@)
    }
}

/// A displayable entry made from a search hit. Fields that the hit lacked
/// are empty strings.
#[derive(Debug)]
pub struct Details {
    pub id: u32,
    pub overview: String,
    pub original_language: String,
    pub title: String,
    pub media_type: String,
}

/// What a [`Details`] holds, as plain values.
pub struct DetailsView {
    pub id: u32,
    pub overview: Seq<char>,
    pub original_language: Seq<char>,
    pub title: Seq<char>,
    pub media_type: Seq<char>,
}

impl View for Details {
    type V = DetailsView;

    open spec fn view(&self) -> DetailsView {
        DetailsView {
            id: self.id,
            overview: self.overview@,
            original_language: self.original_language@,
            title: self.title@,
            media_type: self.media_type@,
        }
    }
}

/// The views of a run of entries, in the same order.
pub open spec fn details_views(entries: Seq<Details>) -> Seq<DetailsView> {
    entries.map_values(|entry: Details| entry@)
}

/// The fields of a detail response. A TV show carries season and episode
/// counts, a movie its runtime; what does not apply is absent.
#[derive(Debug)]
pub struct ItemDetails {
    pub number_of_episodes: Option<u32>,
    pub number_of_seasons: Option<u32>,
    pub tagline: Option<String>,
    pub runtime: Option<u32>,
}

/// What an [`ItemDetails`] holds, as plain values.
pub struct ItemDetailsView {
    pub number_of_episodes: Option<u32>,
    pub number_of_seasons: Option<u32>,
    pub tagline: Option<Seq<char>>,
    pub runtime: Option<u32>,
}

impl View for ItemDetails {
    type V = ItemDetailsView;

    open spec fn view(&self) -> ItemDetailsView {
        ItemDetailsView {
            number_of_episodes: self.number_of_episodes,
            number_of_seasons: self.number_of_seasons,
            tagline: opt_text(self.tagline),
            runtime: self.runtime,
        }
    }
}

impl ItemDetails {
    /// A detail record with the given fields.
    pub fn new(
        number_of_episodes: Option<u32>,
        number_of_seasons: Option<u32>,
        tagline: Option<String>,
        runtime: Option<u32>,
    ) -> (details: Self)
        ensures
            details@ == (ItemDetailsView {
                number_of_episodes,
                number_of_seasons,
                tagline: opt_text(tagline),
                runtime,
            }),
    {
        Self { number_of_episodes, number_of_seasons, tagline, runtime }
    }
}

} // verus!
