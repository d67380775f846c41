//! From search hits to the entries that are offered for selection.
//!
//! A hit with a name gives an entry titled by the name; a hit with a title
//! gives an entry titled by the title. The two are looked at independently:
//! a hit with both gives two entries, name first, and a hit with neither
//! gives none.

use vstd::prelude::*;
use vstd::string::*;
use crate::model::{details_views, item_views, opt_text, text_or_empty, Details, DetailsView, Item, ItemView};
use crate::text::{or_empty, reads, texts};

verus! {

/// The media type of a hit, empty where it has none.
pub open spec fn kind_of(hit: ItemView) -> Seq<char> {
    text_or_empty(hit.media_type)
}

/// Whether the hit stands for a person.
pub open spec fn is_person(hit: ItemView) -> bool {
    hit.media_type == Some("person"@)
}

/// The label of a hit's name entry: name and media type, and for anything
/// but a person the date of first airing.
pub open spec fn name_label(hit: ItemView) -> Seq<char> {
    let head = text_or_empty(hit.original_name) + " - "@ + kind_of(hit);
    if is_person(hit) {
        head
    } else {
        head + " - released: "@ + text_or_empty(hit.first_air_date)
    }
}

/// The label of a hit's title entry: title, media type and release date.
pub open spec fn title_label(hit: ItemView) -> Seq<char> {
    text_or_empty(hit.original_title) + " - "@ + kind_of(hit) + " - released: "@ + text_or_empty(
        hit.release_date,
    )
}

/// The entry that a hit gives under `title`; missing fields become empty.
pub open spec fn entry_titled(hit: ItemView, title: Seq<char>) -> DetailsView {
    DetailsView {
        id: hit.id,
        overview: text_or_empty(hit.overview),
        original_language: text_or_empty(hit.original_language),
        title,
        media_type: kind_of(hit),
    }
}

/// The labels that one hit contributes.
pub open spec fn hit_labels(hit: ItemView) -> Seq<Seq<char>> {
    let by_name = if hit.original_name is Some {
        seq![name_label(hit)]
    } else {
        Seq::empty()
    };
    let by_title = if hit.original_title is Some {
        seq![title_label(hit)]
    } else {
        Seq::empty()
    };
    by_name + by_title
}

/// The entries that one hit contributes, in step with its labels.
pub open spec fn hit_entries(hit: ItemView) -> Seq<DetailsView> {
    let by_name = if hit.original_name is Some {
        seq![entry_titled(hit, text_or_empty(hit.original_name))]
    } else {
        Seq::empty()
    };
    let by_title = if hit.original_title is Some {
        seq![entry_titled(hit, text_or_empty(hit.original_title))]
    } else {
        Seq::empty()
    };
    by_name + by_title
}

/// The labels of a run of hits, in response order.
pub open spec fn labels_of(hits: Seq<ItemView>) -> Seq<Seq<char>> {
    hits.flat_map(|hit: ItemView| hit_labels(hit))
}

/// The entries of a run of hits, in response order.
pub open spec fn entries_of(hits: Seq<ItemView>) -> Seq<DetailsView> {
    hits.flat_map(|hit: ItemView| hit_entries(hit))
}

/// What is offered for selection: a label for each entry, and the entries.
#[derive(Debug)]
pub struct Listing {
    pub labels: Vec<String>,
    pub entries: Vec<Details>,
}

/// What a [`Listing`] holds, as plain values.
pub struct ListingView {
    pub labels: Seq<Seq<char>>,
    pub entries: Seq<DetailsView>,
}

impl View for Listing {
    type V = ListingView;

    open spec fn view(&self) -> ListingView {
        ListingView { labels: texts(self.labels@), entries: details_views(self.entries@) }
    }
}

fn label_by_name(hit: &Item) -> (label: String)
    ensures
        label@ == name_label(hit@),
{
    let mut label = or_empty(&hit.original_name);
    label.append(" - ");
    label.append(or_empty(&hit.media_type).as_str());
    if !reads(&hit.media_type, "person") {
        label.append(" - released: ");
        label.append(or_empty(&hit.first_air_date).as_str());
    }
    label
}

fn label_by_title(hit: &Item) -> (label: String)
    ensures
        label@ == title_label(hit@),
{
    let mut label = or_empty(&hit.original_title);
    label.append(" - ");
    label.append(or_empty(&hit.media_type).as_str());
    label.append(" - released: ");
    label.append(or_empty(&hit.release_date).as_str());
    label
}

fn entry_under(hit: &Item, title: &Option<String>) -> (entry: Details)
    ensures
        entry@ == entry_titled(hit@, text_or_empty(opt_text(*title))),
{
    Details {
        id: hit.id,
        overview: or_empty(&hit.overview),
        original_language: or_empty(&hit.original_language),
        title: or_empty(title),
        media_type: or_empty(&hit.media_type),
    }
}

/// Builds the selection list from the hits of a search response, in
/// response order.
pub fn normalize(hits: &Vec<Item>) -> (listing: Listing)
    ensures
        listing@.labels == labels_of(item_views(hits@)),
        listing@.entries == entries_of(item_views(hits@)),
        listing@.labels.len() == listing@.entries.len(),
{
    let mut labels: Vec<String> = Vec::new();
    let mut entries: Vec<Details> = Vec::new();
    let ghost views = item_views(hits@);
    let mut i: usize = 0;
    while i < hits.len()
        invariant
            i <= hits.len(),
            views == item_views(hits@),
            texts(labels@) == labels_of(views.take(i as int)),
            details_views(entries@) == entries_of(views.take(i as int)),
            labels@.len() == entries@.len(),
        decreases hits.len() - i,
    {
        let hit = &hits[i];
        if hit.original_name.is_some() {
            labels.push(label_by_name(hit));
            entries.push(entry_under(hit, &hit.original_name));
        }
        if hit.original_title.is_some() {
            labels.push(label_by_title(hit));
            entries.push(entry_under(hit, &hit.original_title));
        }
        proof {
            views.lemma_flat_map_take_append(|hit: ItemView| hit_labels(hit), i as int);
            views.lemma_flat_map_take_append(|hit: ItemView| hit_entries(hit), i as int);
        }
        i += 1;
    }
    assert(views.take(hits.len() as int) =~= views);
    Listing { labels, entries }
}

/// A person's name entry is labelled with the name and the word `person`,
/// and with nothing after it. It is the hit's first label, and its only one
/// unless the hit has a title as well.
pub proof fn lemma_person_label(hit: ItemView)
    requires
        hit.original_name is Some,
        hit.media_type == Some("person"@),
    ensures
        hit_labels(hit)[0] == hit.original_name->0 + " - person"@,
        hit.original_title is None ==> hit_labels(hit) == seq![
            hit.original_name->0 + " - person"@,
        ],
{
    reveal_strlit(" - ");
    reveal_strlit("person");
    reveal_strlit(" - person");
    if hit.original_title is None {
        assert(hit_labels(hit) =~= seq![name_label(hit)]);
    }
}

/// The name entry of anything but a person is labelled with the name, the
/// media type and the date of first airing; what is missing of the last two
/// is left empty. It is the hit's first label.
pub proof fn lemma_named_label(hit: ItemView)
    requires
        hit.original_name is Some,
        hit.media_type != Some("person"@),
    ensures
        hit_labels(hit)[0] == hit.original_name->0 + " - "@ + text_or_empty(hit.media_type)
            + " - released: "@ + text_or_empty(hit.first_air_date),
{
}

/// A title entry is labelled with the title, the media type and the release
/// date, whether or not the hit has a name too. It is the hit's last label.
pub proof fn lemma_titled_label(hit: ItemView)
    requires
        hit.original_title is Some,
    ensures
        hit_labels(hit).last() == hit.original_title->0 + " - "@ + text_or_empty(hit.media_type)
            + " - released: "@ + text_or_empty(hit.release_date),
        hit_entries(hit).last().title == hit.original_title->0,
{
}

/// A hit with neither name nor title contributes nothing: the list is the
/// same with it as without it.
pub proof fn lemma_bare_hit_adds_nothing(hits: Seq<ItemView>, hit: ItemView)
    requires
        hit.original_name is None,
        hit.original_title is None,
    ensures
        hit_labels(hit) == Seq::<Seq<char>>::empty(),
        hit_entries(hit) == Seq::<DetailsView>::empty(),
        labels_of(hits.push(hit)) == labels_of(hits),
        entries_of(hits.push(hit)) == entries_of(hits),
{
    hits.lemma_flat_map_push(|hit: ItemView| hit_labels(hit), hit);
    hits.lemma_flat_map_push(|hit: ItemView| hit_entries(hit), hit);
}

/// Whether a label begins with the entry's title and media type, set apart
/// by ` - `.
pub open spec fn names_entry(label: Seq<char>, entry: DetailsView) -> bool {
    let head = entry.title + " - "@ + entry.media_type;
    head.len() <= label.len() && label.subrange(0, head.len() as int) == head
}

/// What one hit contributes goes in pairs: each label names the entry in
/// the same place, and the entry carries the hit's id.
pub proof fn lemma_hit_labels_name_entries(hit: ItemView)
    ensures
        hit_labels(hit).len() == hit_entries(hit).len(),
        forall|j: int|
            0 <= j < hit_labels(hit).len() ==> names_entry(
                #[trigger] hit_labels(hit)[j],
                hit_entries(hit)[j],
            ) && hit_entries(hit)[j].id == hit.id,
{
    let kind = kind_of(hit);
    if hit.original_name is Some {
        let head = hit.original_name->0 + " - "@ + kind;
        assert(name_label(hit).subrange(0, head.len() as int) =~= head);
    }
    if hit.original_title is Some {
        let head = hit.original_title->0 + " - "@ + kind;
        assert(title_label(hit).subrange(0, head.len() as int) =~= head);
    }
}

/// Labels and entries go in pairs through the whole list: there are as many
/// of the one as of the other, and each label names the entry in the same
/// place. So the position of a chosen label is the position of its entry.
pub proof fn lemma_labels_name_entries(hits: Seq<ItemView>)
    ensures
        labels_of(hits).len() == entries_of(hits).len(),
        forall|i: int|
            0 <= i < labels_of(hits).len() ==> names_entry(
                #[trigger] labels_of(hits)[i],
                entries_of(hits)[i],
            ),
    decreases hits.len(),
{
    if hits.len() > 0 {
        let front = hits.drop_last();
        let hit = hits.last();
        lemma_labels_name_entries(front);
        lemma_hit_labels_name_entries(hit);
        front.lemma_flat_map_push(|hit: ItemView| hit_labels(hit), hit);
        front.lemma_flat_map_push(|hit: ItemView| hit_entries(hit), hit);
        assert(front.push(hit) =~= hits);
    }
}

} // verus!
