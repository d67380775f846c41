use tmdb_search::model::{Details, Item};
use tmdb_search::normalize::normalize;

fn text(s: &str) -> Option<String> {
    Some(s.to_string())
}

fn fields(entry: &Details) -> (u32, &str, &str, &str, &str) {
    (
        entry.id,
        entry.title.as_str(),
        entry.overview.as_str(),
        entry.original_language.as_str(),
        entry.media_type.as_str(),
    )
}

#[test]
fn person_label_has_name_and_kind_only() {
    let hit = Item::new(text("Ada Lovelace"), None, None, text("1815-12-10"), None, None, text("person"), 3);
    let listing = normalize(&vec![hit]);
    assert_eq!(listing.labels, vec!["Ada Lovelace - person".to_string()]);
    assert_eq!(listing.entries.len(), 1);
    assert_eq!(fields(&listing.entries[0]), (3, "Ada Lovelace", "", "", "person"));
}

#[test]
fn named_hit_label_carries_first_air_date() {
    let hit = Item::new(text("Show"), None, text("1999-01-01"), text("2019-05-05"), text("en"), text("About it."), text("tv"), 7);
    let listing = normalize(&vec![hit]);
    assert_eq!(listing.labels, vec!["Show - tv - released: 2019-05-05".to_string()]);
    assert_eq!(fields(&listing.entries[0]), (7, "Show", "About it.", "en", "tv"));
}

#[test]
fn named_hit_without_date_ends_after_released() {
    let hit = Item::new(text("Show"), None, None, None, None, None, text("tv"), 7);
    let listing = normalize(&vec![hit]);
    assert_eq!(listing.labels, vec!["Show - tv - released: ".to_string()]);
}

#[test]
fn named_hit_without_media_type_is_no_person() {
    let hit = Item::new(text("Show"), None, None, text("2019-05-05"), None, None, None, 7);
    let listing = normalize(&vec![hit]);
    assert_eq!(listing.labels, vec!["Show -  - released: 2019-05-05".to_string()]);
    assert_eq!(fields(&listing.entries[0]), (7, "Show", "", "", ""));
}

#[test]
fn titled_hit_label_carries_release_date() {
    let hit = Item::new(None, text("Example"), text("2020-01-01"), text("1999-01-01"), text("en"), text("Plot."), text("movie"), 42);
    let listing = normalize(&vec![hit]);
    assert_eq!(listing.labels, vec!["Example - movie - released: 2020-01-01".to_string()]);
    assert_eq!(fields(&listing.entries[0]), (42, "Example", "Plot.", "en", "movie"));
}

#[test]
fn titled_person_still_gets_release_suffix() {
    let hit = Item::new(None, text("Example"), None, None, None, None, text("person"), 1);
    let listing = normalize(&vec![hit]);
    assert_eq!(listing.labels, vec!["Example - person - released: ".to_string()]);
}

#[test]
fn hit_with_name_and_title_gives_two_entries_name_first() {
    let hit = Item::new(text("Name"), text("Title"), text("2020-01-01"), text("2019-05-05"), text("fr"), text("Both."), text("tv"), 9);
    let listing = normalize(&vec![hit]);
    assert_eq!(
        listing.labels,
        vec![
            "Name - tv - released: 2019-05-05".to_string(),
            "Title - tv - released: 2020-01-01".to_string(),
        ]
    );
    assert_eq!(listing.entries.len(), 2);
    assert_eq!(fields(&listing.entries[0]), (9, "Name", "Both.", "fr", "tv"));
    assert_eq!(fields(&listing.entries[1]), (9, "Title", "Both.", "fr", "tv"));
}

#[test]
fn person_with_title_gives_two_labels() {
    let hit = Item::new(text("A"), text("B"), None, None, None, None, text("person"), 5);
    let listing = normalize(&vec![hit]);
    assert_eq!(
        listing.labels,
        vec!["A - person".to_string(), "B - person - released: ".to_string()]
    );
}

#[test]
fn hit_without_name_and_title_gives_nothing() {
    let hit = Item::new(None, None, text("2020-01-01"), text("2019-05-05"), text("en"), text("Lost."), text("movie"), 11);
    let listing = normalize(&vec![hit]);
    assert!(listing.labels.is_empty());
    assert!(listing.entries.is_empty());
}

#[test]
fn no_hits_give_an_empty_listing() {
    let listing = normalize(&Vec::new());
    assert!(listing.labels.is_empty());
    assert!(listing.entries.is_empty());
}

#[test]
fn listing_keeps_response_order_and_skips_bare_hits() {
    let hits = vec![
        Item::new(None, text("First"), text("2001-01-01"), None, None, None, text("movie"), 1),
        Item::new(None, None, None, None, None, None, text("movie"), 2),
        Item::new(text("Second"), None, None, None, None, None, text("person"), 3),
        Item::new(text("Third"), None, None, text("2003-03-03"), None, None, text("tv"), 4),
    ];
    let listing = normalize(&hits);
    assert_eq!(
        listing.labels,
        vec![
            "First - movie - released: 2001-01-01".to_string(),
            "Second - person".to_string(),
            "Third - tv - released: 2003-03-03".to_string(),
        ]
    );
    let ids: Vec<u32> = listing.entries.iter().map(|entry| entry.id).collect();
    assert_eq!(ids, vec![1, 3, 4]);
    assert_eq!(listing.labels.len(), listing.entries.len());
}

#[test]
fn item_new_keeps_every_field() {
    let hit = Item::new(text("n"), text("t"), text("r"), text("f"), text("l"), text("o"), text("m"), 77);
    assert_eq!(hit.id, 77);
    assert_eq!(hit.original_name.as_deref(), Some("n"));
    assert_eq!(hit.original_title.as_deref(), Some("t"));
    assert_eq!(hit.release_date.as_deref(), Some("r"));
    assert_eq!(hit.first_air_date.as_deref(), Some("f"));
    assert_eq!(hit.original_language.as_deref(), Some("l"));
    assert_eq!(hit.overview.as_deref(), Some("o"));
    assert_eq!(hit.media_type.as_deref(), Some("m"));
}
