//! What is shown of the chosen entry.
//!
//! The summary (title, language, overview) comes from the entry alone. The
//! section after it comes from the detail response and depends on the media
//! type: a TV show lists seasons and episodes, anything else is shown as a
//! movie. Without a detail response there is no such section.

use vstd::prelude::*;
use vstd::string::*;
use crate::model::{text_or_empty, Details, DetailsView, ItemDetails, ItemDetailsView};
use crate::number::{decimal, decimal_digits};
use crate::text::{or_empty, texts, to_upper, upper_cased};
use crate::layout::{indent, laid_out, overview_lines};

verus! {

/// One line of output in three parts, printed one after another; only the
/// middle part, `accent`, is highlighted.
#[derive(Debug)]
pub struct Line {
    pub lead: String,
    pub accent: String,
    pub rest: String,
}

/// What a [`Line`] holds, as plain values.
pub struct LineView {
    pub lead: Seq<char>,
    pub accent: Seq<char>,
    pub rest: Seq<char>,
}

impl View for Line {
    type V = LineView;

    open spec fn view(&self) -> LineView {
        LineView { lead: self.lead@, accent: self.accent@, rest: self.rest@ }
    }
}

impl LineView {
    /// The line as it reads without highlighting.
    pub open spec fn text(self) -> Seq<char> {
        self.lead + self.accent + self.rest
    }
}

/// The views of a run of lines, in the same order.
pub open spec fn line_views(lines: Seq<Line>) -> Seq<LineView> {
    lines.map_values(|line: Line| line@)
}

/// An empty line.
pub open spec fn blank() -> LineView {
    LineView { lead: Seq::empty(), accent: Seq::empty(), rest: Seq::empty() }
}

/// An indented, highlighted heading.
pub open spec fn heading(name: Seq<char>) -> LineView {
    LineView { lead: indent(), accent: name, rest: Seq::empty() }
}

/// A heading highlighted together with its indent.
pub open spec fn wide_heading(name: Seq<char>) -> LineView {
    LineView { lead: Seq::empty(), accent: indent() + name, rest: Seq::empty() }
}

/// An indented, highlighted name, a space, and the value.
pub open spec fn field(name: Seq<char>, value: Seq<char>) -> LineView {
    LineView { lead: indent(), accent: name, rest: " "@ + value }
}

/// A line of text as it is.
pub open spec fn verbatim(text: Seq<char>) -> LineView {
    LineView { lead: Seq::empty(), accent: Seq::empty(), rest: text }
}

/// Lines of text as they are.
pub open spec fn verbatim_lines(texts: Seq<Seq<char>>) -> Seq<LineView> {
    texts.map_values(|text: Seq<char>| verbatim(text))
}

/// An indented line of text.
pub open spec fn plain(text: Seq<char>) -> LineView {
    verbatim(indent() + text)
}

/// How a summary begins: the title, the language in upper case, and the
/// heading of the overview.
pub open spec fn summary_head(entry: DetailsView, language: Seq<char>) -> Seq<LineView> {
    seq![
        blank(),
        heading("Title:"@),
        blank(),
        plain(entry.title),
        blank(),
        field("Original language:"@, language),
        blank(),
        heading("Overview:"@),
        blank(),
    ]
}

/// The summary of an entry, given its language in upper case and its
/// overview as lines.
pub open spec fn summary(entry: DetailsView, language: Seq<char>, overview: Seq<Seq<char>>) -> Seq<
    LineView,
> {
    summary_head(entry, language) + verbatim_lines(overview) + seq![blank()]
}

/// The address of an entry's page, under `tv` or `movie`.
pub open spec fn page_url(segment: Seq<char>, id: u32) -> Seq<char> {
    "https://www.themoviedb.org/"@ + segment + "/"@ + decimal_digits(id as nat)
}

/// How a TV section begins: the number of seasons.
pub open spec fn seasons_part(seasons: u32) -> Seq<LineView> {
    seq![field("Number of seasons:"@, decimal_digits(seasons as nat)), blank()]
}

/// The section of a TV show.
pub open spec fn tv_section(id: u32, seasons: u32, episodes: u32, tagline: Seq<char>) -> Seq<
    LineView,
> {
    seasons_part(seasons) + seq![
        field("Number of episodes:"@, decimal_digits(episodes as nat)),
        blank(),
        wide_heading("Tagline:"@),
        blank(),
        plain(tagline),
        blank(),
        wide_heading("For more details, visit:"@),
        blank(),
        plain(page_url("tv"@, id)),
        blank(),
    ]
}

/// The section of a movie, with its runtime in minutes.
pub open spec fn movie_section(id: u32, tagline: Seq<char>, runtime: u32) -> Seq<LineView> {
    seq![
        heading("Tagline:"@),
        blank(),
        plain(tagline),
        blank(),
        heading("Runtime:"@),
        blank(),
        plain(decimal_digits(runtime as nat) + " mins."@),
        blank(),
        heading("For more details, visit:"@),
        blank(),
        plain(page_url("movie"@, id)),
        blank(),
    ]
}

/// A count that a TV show's detail response has to carry.
#[derive(Debug, Clone, Copy, PartialEq, Eq, Structural)]
pub enum Missing {
    Seasons,
    Episodes,
}

/// Lines to show, and the count that was found missing while writing them,
/// if any: the lines then end where the count would have stood.
#[derive(Debug)]
pub struct Rendering {
    pub lines: Vec<Line>,
    pub missing: Option<Missing>,
}

/// What a [`Rendering`] holds, as plain values.
pub struct RenderingView {
    pub lines: Seq<LineView>,
    pub missing: Option<Missing>,
}

impl View for Rendering {
    type V = RenderingView;

    open spec fn view(&self) -> RenderingView {
        RenderingView { lines: line_views(self.lines@), missing: self.missing }
    }
}

/// The view of a detail response that may be absent.
pub open spec fn detail_view(detail: Option<ItemDetails>) -> Option<ItemDetailsView> {
    match detail {
        Some(d) => Some(d@),
        None => None,
    }
}

/// Whether an entry is shown as a TV show.
pub open spec fn is_tv(entry: DetailsView) -> bool {
    entry.media_type == "tv"@
}

/// The section for an entry and its detail response. A TV show needs both
/// counts: the section stops at the first that is missing. Any other media
/// type is shown as a movie, a missing runtime as 0. No response, no section.
pub open spec fn section(entry: DetailsView, detail: Option<ItemDetailsView>) -> RenderingView {
    match detail {
        None => RenderingView { lines: Seq::empty(), missing: None },
        Some(d) => {
            let tagline = text_or_empty(d.tagline);
            if is_tv(entry) {
                match (d.number_of_seasons, d.number_of_episodes) {
                    (None, _) => RenderingView {
                        lines: Seq::empty(),
                        missing: Some(Missing::Seasons),
                    },
                    (Some(seasons), None) => RenderingView {
                        lines: seasons_part(seasons),
                        missing: Some(Missing::Episodes),
                    },
                    (Some(seasons), Some(episodes)) => RenderingView {
                        lines: tv_section(entry.id, seasons, episodes, tagline),
                        missing: None,
                    },
                }
            } else {
                let runtime = match d.runtime {
                    Some(minutes) => minutes,
                    None => 0u32,
                };
                RenderingView { lines: movie_section(entry.id, tagline, runtime), missing: None }
            }
        },
    }
}

/// Everything that is shown of an entry: its summary, then its section.
pub open spec fn page(
    entry: DetailsView,
    language: Seq<char>,
    overview: Seq<Seq<char>>,
    detail: Option<ItemDetailsView>,
) -> RenderingView {
    let after = section(entry, detail);
    RenderingView { lines: summary(entry, language, overview) + after.lines, missing: after.missing }
}

impl Line {
    /// The line as it reads without highlighting.
    pub fn text(&self) -> (text: String)
        ensures
            text@ == self@.text(),
    {
        let mut text = self.lead.clone();
        text.append(self.accent.as_str());
        text.append(self.rest.as_str());
        text
    }
}

fn blank_line() -> (line: Line)
    ensures
        line@ == blank(),
{
    Line { lead: String::new(), accent: String::new(), rest: String::new() }
}

fn heading_line(name: &str) -> (line: Line)
    ensures
        line@ == heading(name@),
{
    Line { lead: String::from_str("  "), accent: String::from_str(name), rest: String::new() }
}

fn wide_heading_line(name: &str) -> (line: Line)
    ensures
        line@ == wide_heading(name@),
{
    let mut accent = String::from_str("  ");
    accent.append(name);
    Line { lead: String::new(), accent, rest: String::new() }
}

fn field_line(name: &str, value: &str) -> (line: Line)
    ensures
        line@ == field(name@, value@),
{
    let mut rest = String::from_str(" ");
    rest.append(value);
    Line { lead: String::from_str("  "), accent: String::from_str(name), rest }
}

fn verbatim_line(text: &str) -> (line: Line)
    ensures
        line@ == verbatim(text@),
{
    Line { lead: String::new(), accent: String::new(), rest: String::from_str(text) }
}

fn plain_line(text: &str) -> (line: Line)
    ensures
        line@ == plain(text@),
{
    let mut rest = String::from_str("  ");
    rest.append(text);
    Line { lead: String::new(), accent: String::new(), rest }
}

fn page_address(segment: &str, id: u32) -> (url: String)
    ensures
        url@ == page_url(segment@, id),
{
    let mut url = String::from_str("https://www.themoviedb.org/");
    url.append(segment);
    url.append("/");
    url.append(decimal(id).as_str());
    url
}

/// Writes the summary of an entry from its language in upper case and its
/// overview in lines.
pub fn render_summary(entry: &Details, language: &str, overview: &Vec<String>) -> (lines: Vec<Line>)
    ensures
        line_views(lines@) == summary(entry@, language@, texts(overview@)),
{
    let mut lines: Vec<Line> = Vec::new();
    lines.push(blank_line());
    lines.push(heading_line("Title:"));
    lines.push(blank_line());
    lines.push(plain_line(entry.title.as_str()));
    lines.push(blank_line());
    lines.push(field_line("Original language:", language));
    lines.push(blank_line());
    lines.push(heading_line("Overview:"));
    lines.push(blank_line());
    let ghost head = summary_head(entry@, language@);
    let mut i: usize = 0;
    while i < overview.len()
        invariant
            i <= overview.len(),
            line_views(lines@) == head + verbatim_lines(texts(overview@).take(i as int)),
        decreases overview.len() - i,
    {
        let ghost before = line_views(lines@);
        lines.push(verbatim_line(overview[i].as_str()));
        assert(line_views(lines@) =~= before.push(verbatim(overview[i as int]@)));
        i += 1;
    }
    assert(texts(overview@).take(overview.len() as int) =~= texts(overview@));
    lines.push(blank_line());
    lines
}

/// Writes the section that follows the summary.
pub fn render_section(entry: &Details, detail: &Option<ItemDetails>) -> (after: Rendering)
    ensures
        after@ == section(entry@, detail_view(*detail)),
{
    let mut lines: Vec<Line> = Vec::new();
    let mut missing: Option<Missing> = None;
    match detail {
        None => {},
        Some(d) => {
            let tagline = or_empty(&d.tagline);
            if entry.media_type == String::from_str("tv") {
                match d.number_of_seasons {
                    None => {
                        missing = Some(Missing::Seasons);
                    },
                    Some(seasons) => {
                        lines.push(field_line("Number of seasons:", decimal(seasons).as_str()));
                        lines.push(blank_line());
                        match d.number_of_episodes {
                            None => {
                                missing = Some(Missing::Episodes);
                            },
                            Some(episodes) => {
                                lines.push(
                                    field_line("Number of episodes:", decimal(episodes).as_str()),
                                );
                                lines.push(blank_line());
                                lines.push(wide_heading_line("Tagline:"));
                                lines.push(blank_line());
                                lines.push(plain_line(tagline.as_str()));
                                lines.push(blank_line());
                                lines.push(wide_heading_line("For more details, visit:"));
                                lines.push(blank_line());
                                lines.push(plain_line(page_address("tv", entry.id).as_str()));
                                lines.push(blank_line());
                            },
                        }
                    },
                }
            } else {
                let minutes: u32 = match d.runtime {
                    Some(minutes) => minutes,
                    None => 0,
                };
                let mut runtime = decimal(minutes);
                runtime.append(" mins.");
                lines.push(heading_line("Tagline:"));
                lines.push(blank_line());
                lines.push(plain_line(tagline.as_str()));
                lines.push(blank_line());
                lines.push(heading_line("Runtime:"));
                lines.push(blank_line());
                lines.push(plain_line(runtime.as_str()));
                lines.push(blank_line());
                lines.push(heading_line("For more details, visit:"));
                lines.push(blank_line());
                lines.push(plain_line(page_address("movie", entry.id).as_str()));
                lines.push(blank_line());
            }
        },
    }
    let after = Rendering { lines, missing };
    assert(after@.lines =~= section(entry@, detail_view(*detail)).lines);
    after
}

/// Writes everything that is shown of an entry, from its language in upper
/// case, its overview in lines and its detail response.
pub fn render(
    entry: &Details,
    language: &str,
    overview: &Vec<String>,
    detail: &Option<ItemDetails>,
) -> (shown: Rendering)
    ensures
        shown@ == page(entry@, language@, texts(overview@), detail_view(*detail)),
{
    let mut lines = render_summary(entry, language, overview);
    let after = render_section(entry, detail);
    let ghost head = line_views(lines@);
    let Rendering { lines: mut tail, missing } = after;
    lines.append(&mut tail);
    let shown = Rendering { lines, missing };
    assert(shown@.lines =~= head + after@.lines);
    shown
}

/// Writes everything that is shown of an entry: the language is put in
/// upper case and the overview laid out in lines, then the page is written.
/// Which lines the overview is laid out in is not fixed, only that they lay
/// it out.
pub fn present(entry: &Details, detail: &Option<ItemDetails>) -> (shown: Rendering)
    ensures
        exists|overview: Seq<Seq<char>>|
            #[trigger] laid_out(overview, entry@.overview) && shown@ == page(
                entry@,
                upper_cased(entry@.original_language),
                overview,
                detail_view(*detail),
            ),
{
    let language = to_upper(entry.original_language.as_str());
    let overview = overview_lines(entry.overview.as_str());
    let shown = render(entry, language.as_str(), &overview, detail);
    assert(laid_out(texts(overview@), entry@.overview));
    shown
}

/// The summary shows the entry's title, the language as given and every
/// line of the overview, whatever the detail response.
pub proof fn lemma_summary_shows_entry(
    entry: DetailsView,
    language: Seq<char>,
    overview: Seq<Seq<char>>,
)
    ensures
        summary(entry, language, overview).len() == overview.len() + 10,
        summary(entry, language, overview)[3] == plain(entry.title),
        summary(entry, language, overview)[5] == field("Original language:"@, language),
        forall|i: int|
            0 <= i < overview.len() ==> #[trigger] summary(entry, language, overview)[9 + i]
                == verbatim(overview[i]),
{
}

/// Without a detail response nothing follows the summary, and nothing is
/// found missing: what is shown is the summary, which comes from the entry
/// alone.
pub proof fn lemma_failed_detail_shows_summary(
    entry: DetailsView,
    language: Seq<char>,
    overview: Seq<Seq<char>>,
)
    ensures
        section(entry, None).lines == Seq::<LineView>::empty(),
        section(entry, None).missing is None,
        page(entry, language, overview, None).lines == summary(entry, language, overview),
        page(entry, language, overview, None).missing is None,
{
}

} // verus!
