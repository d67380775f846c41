use tmdb_search::model::{Details, ItemDetails};
use tmdb_search::present::{present, render, render_section, render_summary, Line, Missing};
use tmdb_search::layout::overview_lines;
use tmdb_search::wrap::is_breakable;

fn entry(id: u32, title: &str, language: &str, overview: &str, media_type: &str) -> Details {
    Details {
        id,
        overview: overview.to_string(),
        original_language: language.to_string(),
        title: title.to_string(),
        media_type: media_type.to_string(),
    }
}

fn parts(lines: &Vec<Line>) -> Vec<(String, String, String)> {
    lines
        .iter()
        .map(|line| (line.lead.clone(), line.accent.clone(), line.rest.clone()))
        .collect()
}

fn part(lead: &str, accent: &str, rest: &str) -> (String, String, String) {
    (lead.to_string(), accent.to_string(), rest.to_string())
}

fn read(lines: &Vec<Line>) -> Vec<String> {
    lines.iter().map(|line| line.text()).collect()
}

#[test]
fn summary_is_title_language_and_overview() {
    let e = entry(42, "Example", "en", "unused here", "movie");
    let overview = vec!["  first line".to_string(), "  second line".to_string()];
    let lines = render_summary(&e, "EN", &overview);
    assert_eq!(
        parts(&lines),
        vec![
            part("", "", ""),
            part("  ", "Title:", ""),
            part("", "", ""),
            part("", "", "  Example"),
            part("", "", ""),
            part("  ", "Original language:", " EN"),
            part("", "", ""),
            part("  ", "Overview:", ""),
            part("", "", ""),
            part("", "", "  first line"),
            part("", "", "  second line"),
            part("", "", ""),
        ]
    );
}

#[test]
fn summary_of_an_empty_overview_has_no_overview_lines() {
    let e = entry(1, "", "", "", "");
    let lines = render_summary(&e, "", &Vec::new());
    assert_eq!(
        read(&lines),
        vec!["", "  Title:", "", "  ", "", "  Original language: ", "", "  Overview:", "", ""]
    );
}

#[test]
fn line_text_joins_the_three_parts() {
    let line = Line { lead: "  ".to_string(), accent: "Name:".to_string(), rest: " value".to_string() };
    assert_eq!(line.text(), "  Name: value");
}

#[test]
fn movie_section_shows_tagline_runtime_and_page() {
    let e = entry(42, "Example", "en", "", "movie");
    let detail = Some(ItemDetails::new(None, None, Some("A tagline".to_string()), Some(120)));
    let after = render_section(&e, &detail);
    assert_eq!(after.missing, None);
    assert_eq!(
        parts(&after.lines),
        vec![
            part("  ", "Tagline:", ""),
            part("", "", ""),
            part("", "", "  A tagline"),
            part("", "", ""),
            part("  ", "Runtime:", ""),
            part("", "", ""),
            part("", "", "  120 mins."),
            part("", "", ""),
            part("  ", "For more details, visit:", ""),
            part("", "", ""),
            part("", "", "  https://www.themoviedb.org/movie/42"),
            part("", "", ""),
        ]
    );
}

#[test]
fn movie_section_defaults_runtime_and_tagline() {
    let e = entry(5, "Example", "en", "", "movie");
    let detail = Some(ItemDetails::new(Some(10), Some(2), None, None));
    let after = render_section(&e, &detail);
    assert_eq!(after.missing, None);
    let text = read(&after.lines);
    assert_eq!(text[2], "  ");
    assert_eq!(text[6], "  0 mins.");
    assert_eq!(text[10], "  https://www.themoviedb.org/movie/5");
}

#[test]
fn any_media_type_but_tv_is_shown_as_a_movie() {
    let e = entry(8, "Someone", "en", "", "person");
    let detail = Some(ItemDetails::new(None, None, None, None));
    let after = render_section(&e, &detail);
    assert_eq!(after.missing, None);
    assert_eq!(after.lines.len(), 12);
    assert_eq!(read(&after.lines)[10], "  https://www.themoviedb.org/movie/8");
}

#[test]
fn tv_section_shows_counts_tagline_and_page() {
    let e = entry(7, "Show", "en", "", "tv");
    let detail = Some(ItemDetails::new(Some(24), Some(3), Some("Watch it".to_string()), Some(50)));
    let after = render_section(&e, &detail);
    assert_eq!(after.missing, None);
    assert_eq!(
        parts(&after.lines),
        vec![
            part("  ", "Number of seasons:", " 3"),
            part("", "", ""),
            part("  ", "Number of episodes:", " 24"),
            part("", "", ""),
            part("", "  Tagline:", ""),
            part("", "", ""),
            part("", "", "  Watch it"),
            part("", "", ""),
            part("", "  For more details, visit:", ""),
            part("", "", ""),
            part("", "", "  https://www.themoviedb.org/tv/7"),
            part("", "", ""),
        ]
    );
}

#[test]
fn tv_section_without_seasons_reports_them_missing() {
    let e = entry(7, "Show", "en", "", "tv");
    let detail = Some(ItemDetails::new(Some(24), None, None, None));
    let after = render_section(&e, &detail);
    assert_eq!(after.missing, Some(Missing::Seasons));
    assert!(after.lines.is_empty());
}

#[test]
fn tv_section_without_episodes_stops_after_seasons() {
    let e = entry(7, "Show", "en", "", "tv");
    let detail = Some(ItemDetails::new(None, Some(3), None, None));
    let after = render_section(&e, &detail);
    assert_eq!(after.missing, Some(Missing::Episodes));
    assert_eq!(read(&after.lines), vec!["  Number of seasons: 3", ""]);
}

#[test]
fn no_detail_response_gives_no_section() {
    let tv = entry(7, "Show", "en", "", "tv");
    let after = render_section(&tv, &None);
    assert_eq!(after.missing, None);
    assert!(after.lines.is_empty());
    let movie = entry(42, "Example", "en", "", "movie");
    let after = render_section(&movie, &None);
    assert_eq!(after.missing, None);
    assert!(after.lines.is_empty());
}

#[test]
fn page_is_summary_followed_by_section() {
    let e = entry(42, "Example", "en", "", "movie");
    let overview = vec!["  plot".to_string()];
    let detail = Some(ItemDetails::new(None, None, Some("A tagline".to_string()), Some(120)));
    let shown = render(&e, "EN", &overview, &detail);
    let mut expected = parts(&render_summary(&e, "EN", &overview));
    expected.extend(parts(&render_section(&e, &detail).lines));
    assert_eq!(parts(&shown.lines), expected);
    assert_eq!(shown.lines.len(), 11 + 12);
    assert_eq!(shown.missing, None);
}

#[test]
fn failed_detail_still_shows_the_summary() {
    let e = entry(7, "Show", "en", "A short overview.", "tv");
    let shown = present(&e, &None);
    assert_eq!(shown.missing, None);
    assert_eq!(
        read(&shown.lines),
        vec![
            "",
            "  Title:",
            "",
            "  Show",
            "",
            "  Original language: EN",
            "",
            "  Overview:",
            "",
            "  A short overview.",
            "",
        ]
    );
}

#[test]
fn language_is_shown_in_upper_case() {
    let e = entry(1, "T", "pt-br", "", "movie");
    let shown = present(&e, &None);
    assert_eq!(read(&shown.lines)[5], "  Original language: PT-BR");
    let e = entry(1, "T", "straße", "", "movie");
    let shown = present(&e, &None);
    assert_eq!(read(&shown.lines)[5], "  Original language: STRASSE");
}

#[test]
fn missing_count_is_reported_after_the_summary() {
    let e = entry(7, "Show", "en", "Plot.", "tv");
    let detail = Some(ItemDetails::new(None, Some(3), None, None));
    let shown = present(&e, &detail);
    assert_eq!(shown.missing, Some(Missing::Episodes));
    let text = read(&shown.lines);
    assert_eq!(text.len(), 11 + 2);
    assert_eq!(text[9], "  Plot.");
    assert_eq!(text[11], "  Number of seasons: 3");
}

#[test]
fn long_overview_is_wrapped_behind_the_indent() {
    let overview = "Welcome to The Rust Programming Language, an introductory \
        book about Rust. The Rust programming language helps you write faster, \
        more reliable software. High-level ergonomics and low-level control are \
        often at odds in programming language design; Rust challenges that \
        conflict.";
    let lines = overview_lines(overview);
    assert_eq!(
        lines,
        vec![
            "  Welcome to The Rust Programming Language, an introductory book about Rust. The",
            "  Rust programming language helps you write faster, more reliable software.",
            "  High-level ergonomics and low-level control are often at odds in programming",
            "  language design; Rust challenges that conflict.",
        ]
    );
    for line in &lines {
        assert!(line.chars().count() <= 80);
        assert!(line.starts_with("  "));
    }
    let words: Vec<&str> = lines.iter().map(|line| &line[2..]).collect();
    assert_eq!(words.join(" "), overview);
}

#[test]
fn short_overview_is_one_indented_line() {
    assert_eq!(overview_lines("A short overview."), vec!["  A short overview."]);
}

#[test]
fn empty_overview_is_one_line_of_indent() {
    assert_eq!(overview_lines(""), vec!["  "]);
}

#[test]
fn overview_with_line_breaks_keeps_them() {
    assert_eq!(overview_lines("a\n\nb"), vec!["  a", "  ", "  b"]);
}

#[test]
fn long_word_is_cut_at_the_width() {
    let word = "x".repeat(100);
    let lines = overview_lines(&word);
    assert_eq!(lines, vec![format!("  {}", "x".repeat(78)), format!("  {}", "x".repeat(22))]);
}

#[test]
fn wide_characters_count_two_columns() {
    let text = "\u{3042}".repeat(50);
    let lines = overview_lines(&text);
    assert_eq!(
        lines,
        vec![format!("  {}", "\u{3042}".repeat(39)), format!("  {}", "\u{3042}".repeat(11))]
    );
}

#[test]
fn overview_with_an_unassigned_wide_code_point_is_filled_into_lines() {
    let words = "word ".repeat(30);
    let text = format!("{}\u{3FFFD}", words);
    assert!(!is_breakable(&text));
    let lines = overview_lines(&text);
    let half = vec!["word"; 15].join(" ");
    assert_eq!(lines, vec![format!("  {}", half), format!("  {}", half)]);
}

#[test]
fn overview_with_rare_ideographs_is_wrapped() {
    let text = format!("\u{20BB7}{}", "a ".repeat(45));
    assert_eq!(text.chars().count(), 91);
    assert!(is_breakable(&text));
    let lines = overview_lines(&text);
    assert_eq!(
        lines,
        vec![format!("  \u{20BB7}{}a", "a ".repeat(37)), format!("  {}a", "a ".repeat(6))]
    );
}

#[test]
fn breakable_leaves_out_unassigned_wide_code_points() {
    assert!(is_breakable(""));
    assert!(is_breakable("plain text, with punctuation — and dashes…"));
    assert!(is_breakable("\u{F8FF}\u{FB00}\u{1FFFF}\u{40000}\u{10FFFF}\u{4E00}\u{3042}"));
    assert!(is_breakable("\u{F900}\u{FA6D}\u{20000}\u{20BB7}\u{3400}\u{9FFF}"));
    assert!(is_breakable("zero width outside the wide blocks \u{200D}\u{0}\t"));
    assert!(!is_breakable("\u{FA6E}"));
    assert!(!is_breakable("\u{FAFF}"));
    assert!(!is_breakable("\u{2A6E0}"));
    assert!(!is_breakable("\u{3FFFD}"));
    assert!(!is_breakable("\u{3FFFF}"));
    assert!(!is_breakable("ok until here \u{FADA}"));
    assert!(!is_breakable("\u{2FFFD} then fine"));
}
