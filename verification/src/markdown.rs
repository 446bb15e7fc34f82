//! Markdown as this library needs it: the events of a document, the HTML of
//! a document, and what is read off the events (a page's title, its
//! headers).
//!
//! Parsing and rendering are done by `pulldown-cmark`, and headings in
//! rendered HTML are found by `regex`. What those return is not specified
//! here beyond a name; everything that is computed from it is, the ids that
//! the headings get among it.

use crate::text::{
    char_is_alphanumeric, chars_of, is_alphanumeric, join, join_with, keep_nonempty, lowercase,
    nonempty_of, split_on, split_str, string_of, strings_view, to_lowercase, trim, trim_ws,
};
use pulldown_cmark::{html, Event, Options, Parser, Tag};
use regex::{Captures, Regex};
use vstd::prelude::*;

verus! {

/// No extension: plain CommonMark.
pub const PLAIN_OPTIONS: u32 = 0;

/// The extensions under which pages are read: tables, footnotes,
/// strikethrough and task lists, as bits of `pulldown_cmark::Options`.
pub const PAGE_OPTIONS: u32 = 30;

/// The pattern of a heading without attributes in rendered HTML.
pub const HEADING_PATTERN: &'static str = "<h([1-6])>([^<]+)</h[1-6]>";

/// What this library reads of a markdown event.
#[derive(Debug)]
pub enum MarkdownEvent {
    /// A heading of this level (1 to 6) starts.
    HeadingStart(u8),
    /// A heading of this level ends.
    HeadingEnd(u8),
    /// A run of text.
    Text(String),
    /// Any other event.
    Other,
}

/// [`MarkdownEvent`] over character sequences.
pub enum MarkdownEventView {
    HeadingStart(u8),
    HeadingEnd(u8),
    Text(Seq<char>),
    Other,
}

impl View for MarkdownEvent {
    type V = MarkdownEventView;

    open spec fn view(&self) -> MarkdownEventView {
        match self {
            MarkdownEvent::HeadingStart(level) => MarkdownEventView::HeadingStart(*level),
            MarkdownEvent::HeadingEnd(level) => MarkdownEventView::HeadingEnd(*level),
            MarkdownEvent::Text(text) => MarkdownEventView::Text(text@),
            MarkdownEvent::Other => MarkdownEventView::Other,
        }
    }
}

/// The views of a sequence of events.
pub open spec fn events_view(events: Seq<MarkdownEvent>) -> Seq<MarkdownEventView> {
    events.map_values(|e: MarkdownEvent| e@)
}

/// The events of the document `content` under the extensions `options`.
/// Stands for what iterating `pulldown_cmark::Parser::new_ext` yields.
pub uninterp spec fn markdown_events(content: Seq<char>, options: u32) -> Seq<MarkdownEventView>;

/// The HTML of the document `content` under the extensions `options`.
/// Stands for what `pulldown_cmark::html::push_html` writes for it.
pub uninterp spec fn markdown_html(content: Seq<char>, options: u32) -> Seq<char>;

/// A heading without attributes, as it was found in rendered HTML.
#[derive(Debug)]
pub struct PlainHeading {
    /// The digit of its level.
    pub level: String,
    /// What stands between its tags.
    pub text: String,
}

/// [`PlainHeading`] over character sequences.
pub struct PlainHeadingView {
    pub level: Seq<char>,
    pub text: Seq<char>,
}

impl View for PlainHeading {
    type V = PlainHeadingView;

    open spec fn view(&self) -> PlainHeadingView {
        PlainHeadingView { level: self.level@, text: self.text@ }
    }
}

/// The views of a sequence of headings.
pub open spec fn plain_headings_view(headings: Seq<PlainHeading>) -> Seq<PlainHeadingView> {
    headings.map_values(|h: PlainHeading| h@)
}

/// The headings of `html` that match [`HEADING_PATTERN`], in order, each
/// with what its two groups hold. Stands for what
/// `regex::Regex::captures_iter` yields.
pub uninterp spec fn heading_matches(html: Seq<char>) -> Seq<PlainHeadingView>;

/// What is left of `html` between the matches of [`HEADING_PATTERN`], in
/// order: what precedes the first match, what stands between neighbours, and
/// what follows the last. Stands for what `regex::Regex::split` yields.
pub uninterp spec fn heading_gaps(html: Seq<char>) -> Seq<Seq<char>>;

/// Trusted: `pulldown_cmark::Parser::new_ext`, iterated to its end. The
/// parser is a function of the text and the options alone, and is written
/// to take every text; the panics in its source guard its own bookkeeping
/// (the kinds of the nodes of its tree, spans that it cut itself), and that
/// no text reaches them is taken on trust. Each event is reduced to what
/// this library reads of it: start and end of a heading with the level,
/// text with its characters, anything else without content.
#[verifier::external_body]
pub(crate) fn parse_markdown(content: &str, options: u32) -> (events: Vec<MarkdownEvent>)
    ensures
        events_view(events@) == markdown_events(content@, options),
{
    Parser::new_ext(content, Options::from_bits_truncate(options)).map(
        |event| match event {
            Event::Start(Tag::Heading(level, _, _)) => MarkdownEvent::HeadingStart(level as u8),
            Event::End(Tag::Heading(level, _, _)) => MarkdownEvent::HeadingEnd(level as u8),
            Event::Text(text) => MarkdownEvent::Text(text.to_string()),
            _ => MarkdownEvent::Other,
        },
    ).collect()
}

/// Trusted: `pulldown_cmark::html::push_html` on the events of
/// `pulldown_cmark::Parser::new_ext`, into an empty string. The outcome is a
/// function of the text and the options alone. Writing into a string cannot
/// fail; that the parser takes every text is taken on trust, as for
/// [`parse_markdown`].
#[verifier::external_body]
pub(crate) fn render_html(content: &str, options: u32) -> (out: String)
    ensures
        out@ == markdown_html(content@, options),
{
    let mut out = String::new();
    html::push_html(&mut out, Parser::new_ext(content, Options::from_bits_truncate(options)));
    out
}

/// Trusted: `regex::Regex::captures_iter` with [`HEADING_PATTERN`], which
/// is a valid pattern with two groups that take part in every match. The
/// matches are a function of the text alone; of each, the two groups are
/// copied.
#[verifier::external_body]
pub(crate) fn find_headings(html: &str) -> (found: Vec<PlainHeading>)
    ensures
        plain_headings_view(found@) == heading_matches(html@),
{
    Regex::new(HEADING_PATTERN).unwrap().captures_iter(html).map(
        |found: Captures| PlainHeading { level: found[1].to_string(), text: found[2].to_string() },
    ).collect()
}

/// Trusted: `regex::Regex::split` with [`HEADING_PATTERN`]. The pieces are
/// a function of the text alone; each is copied.
#[verifier::external_body]
pub(crate) fn split_at_headings(html: &str) -> (gaps: Vec<String>)
    ensures
        strings_view(gaps@) == heading_gaps(html@),
{
    Regex::new(HEADING_PATTERN).unwrap().split(html).map(|gap| gap.to_string()).collect()
}

/// `s` with a hyphen in place of every character that is neither a letter
/// nor a number.
pub open spec fn hyphenated(s: Seq<char>) -> Seq<char> {
    s.map_values(
        |c: char|
            if is_alphanumeric(c) {
                c
            } else {
                '-'
            },
    )
}

/// The slug of a heading: its text in lower case, cut into its runs of
/// letters and numbers, and those joined by single hyphens.
pub open spec fn slug_of(text: Seq<char>) -> Seq<char> {
    join_with(nonempty_of(split_on(hyphenated(lowercase(text)), '-')), "-"@)
}

/// Makes the slug of a heading.
pub fn slugify(text: &str) -> (slug: String)
    ensures
        slug@ == slug_of(text@),
{
    let lower = to_lowercase(text);
    let chars = chars_of(lower.as_str());
    let mut hyphened: Vec<char> = Vec::new();
    let mut i: usize = 0;
    while i < chars.len()
        invariant
            i <= chars.len(),
            hyphened@ == hyphenated(chars@.take(i as int)),
        decreases chars.len() - i,
    {
        let c = if char_is_alphanumeric(chars[i]) {
            chars[i]
        } else {
            '-'
        };
        hyphened.push(c);
        i += 1;
        assert(hyphened@ =~= hyphenated(chars@.take(i as int)));
    }
    assert(chars@.take(i as int) == chars@);
    let pieces = split_str(string_of(&hyphened).as_str(), '-');
    join(&keep_nonempty(pieces), "-")
}

/// A heading element with an id: `<hN id="slug">text</hN>`.
pub open spec fn heading_with_id_of(level: Seq<char>, text: Seq<char>) -> Seq<char> {
    "<h"@ + level + " id=\""@ + slug_of(text) + "\">"@ + text + "</h"@ + level + ">"@
}

/// Writes a heading element of the given level and text, with the slug of
/// the text as its id.
pub fn heading_with_id(level: &str, text: &str) -> (element: String)
    ensures
        element@ == heading_with_id_of(level@, text@),
{
    let mut element = "<h".to_owned();
    element.append(level);
    element.append(" id=\"");
    element.append(slugify(text).as_str());
    element.append("\">");
    element.append(text);
    element.append("</h");
    element.append(level);
    element.append(">");
    element
}

/// The first `count` gaps and headings, woven: each gap is followed by the
/// heading that was found behind it, written with the slug of its text as
/// id. Where one of the two lists is shorter, what it lacks is left out.
pub open spec fn woven_upto(
    gaps: Seq<Seq<char>>,
    headings: Seq<PlainHeadingView>,
    count: nat,
) -> Seq<char>
    decreases count,
{
    if count == 0 {
        Seq::<char>::empty()
    } else {
        woven_upto(gaps, headings, (count - 1) as nat) + (if count - 1 < gaps.len() {
            gaps[count - 1]
        } else {
            Seq::<char>::empty()
        }) + (if count - 1 < headings.len() {
            heading_with_id_of(headings[count - 1].level, headings[count - 1].text)
        } else {
            Seq::<char>::empty()
        })
    }
}

/// All gaps and all headings, woven.
pub open spec fn woven(gaps: Seq<Seq<char>>, headings: Seq<PlainHeadingView>) -> Seq<char> {
    woven_upto(
        gaps,
        headings,
        if gaps.len() >= headings.len() {
            gaps.len()
        } else {
            headings.len()
        },
    )
}

/// `html` with an id in every heading that matches [`HEADING_PATTERN`]: the
/// text between the headings as it is, and each heading written anew by
/// [`heading_with_id_of`].
pub open spec fn with_heading_ids(html: Seq<char>) -> Seq<char> {
    woven(heading_gaps(html), heading_matches(html))
}

/// Weaves gaps and headings into one text: first gap, first heading, second
/// gap, second heading, and so on, each heading written with the slug of
/// its text as id.
pub fn weave_headings(gaps: &Vec<String>, headings: &Vec<PlainHeading>) -> (html: String)
    ensures
        html@ == woven(strings_view(gaps@), plain_headings_view(headings@)),
{
    let count = if gaps.len() >= headings.len() {
        gaps.len()
    } else {
        headings.len()
    };
    let mut html = String::new();
    let mut i: usize = 0;
    while i < count
        invariant
            i <= count,
            html@ == woven_upto(
                strings_view(gaps@),
                plain_headings_view(headings@),
                i as nat,
            ),
        decreases count - i,
    {
        let ghost before = html@;
        if i < gaps.len() {
            assert(strings_view(gaps@)[i as int] == gaps[i as int]@);
            html.append(gaps[i].as_str());
        }
        let ghost gapped = html@;
        if i < headings.len() {
            assert(plain_headings_view(headings@)[i as int] == headings[i as int]@);
            html.append(
                heading_with_id(headings[i].level.as_str(), headings[i].text.as_str()).as_str(),
            );
        }
        proof {
            assert(gapped =~= before + (if i < gaps.len() {
                gaps[i as int]@
            } else {
                Seq::<char>::empty()
            }));
            assert(html@ =~= gapped + (if i < headings.len() {
                heading_with_id_of(headings[i as int].level@, headings[i as int].text@)
            } else {
                Seq::<char>::empty()
            }));
        }
        i += 1;
    }
    html
}

/// Gives every plain heading of rendered HTML an id.
pub fn add_header_ids_to_html(html: &str) -> (out: String)
    ensures
        out@ == with_heading_ids(html@),
{
    let gaps = split_at_headings(html);
    let headings = find_headings(html);
    weave_headings(&gaps, &headings)
}

/// The HTML of a page: its markdown rendered, and its plain headings given
/// ids.
pub fn render_page(content: &str) -> (page: String)
    ensures
        page@ == with_heading_ids(markdown_html(content@, PAGE_OPTIONS)),
{
    let rendered = render_html(content, PAGE_OPTIONS);
    add_header_ids_to_html(rendered.as_str())
}

/// The HTML of the homepage: its markdown rendered as it is.
pub fn render_homepage(content: &str) -> (page: String)
    ensures
        page@ == markdown_html(content@, PAGE_OPTIONS),
{
    render_html(content, PAGE_OPTIONS)
}

/// One header of a page, for the table of contents.
#[derive(Debug)]
pub struct HeaderItem {
    pub title: String,
    pub id: String,
    pub level: u8,
}

/// [`HeaderItem`] over character sequences.
pub struct HeaderView {
    pub title: Seq<char>,
    pub id: Seq<char>,
    pub level: u8,
}

impl View for HeaderItem {
    type V = HeaderView;

    open spec fn view(&self) -> HeaderView {
        HeaderView { title: self.title@, id: self.id@, level: self.level }
    }
}

/// The views of a sequence of headers.
pub open spec fn headers_view(headers: Seq<HeaderItem>) -> Seq<HeaderView> {
    headers.map_values(|h: HeaderItem| h@)
}

/// Where a reading of events for headers stands.
pub struct HeaderScan {
    /// Inside a heading.
    pub in_heading: bool,
    /// The level of the heading that was last entered.
    pub level: u8,
    /// The text gathered since the heading was entered.
    pub text: Seq<char>,
    /// The headers completed so far.
    pub headers: Seq<HeaderView>,
}

/// Reads events for headers. A heading's start opens it and forgets the
/// text gathered before; text inside a heading is gathered; a heading's end
/// completes a header if any text was gathered, and closes the heading.
pub open spec fn scan_headers(events: Seq<MarkdownEventView>) -> HeaderScan
    decreases events.len(),
{
    if events.len() == 0 {
        HeaderScan { in_heading: false, level: 1, text: Seq::empty(), headers: Seq::empty() }
    } else {
        let before = scan_headers(events.drop_last());
        match events.last() {
            MarkdownEventView::HeadingStart(level) => HeaderScan {
                in_heading: true,
                level,
                text: Seq::empty(),
                headers: before.headers,
            },
            MarkdownEventView::HeadingEnd(_) => HeaderScan {
                in_heading: false,
                level: before.level,
                text: before.text,
                headers: if before.in_heading && before.text.len() > 0 {
                    before.headers.push(
                        HeaderView {
                            title: before.text,
                            id: slug_of(before.text),
                            level: before.level,
                        },
                    )
                } else {
                    before.headers
                },
            },
            MarkdownEventView::Text(text) => if before.in_heading {
                HeaderScan {
                    in_heading: true,
                    level: before.level,
                    text: before.text + text,
                    headers: before.headers,
                }
            } else {
                before
            },
            MarkdownEventView::Other => before,
        }
    }
}

/// The headers of a document, given its events.
pub open spec fn headers_of(events: Seq<MarkdownEventView>) -> Seq<HeaderView> {
    scan_headers(events).headers
}

/// Reads the headers of a document off its events: for every heading that
/// holds text, its text, the slug of its text, and its level.
pub fn headers_from_events(events: &Vec<MarkdownEvent>) -> (headers: Vec<HeaderItem>)
    ensures
        headers_view(headers@) == headers_of(events_view(events@)),
{
    let mut headers: Vec<HeaderItem> = Vec::new();
    let mut in_heading = false;
    let mut level: u8 = 1;
    let mut text = String::new();
    let mut i: usize = 0;
    assert(events_view(events@).take(0) =~= Seq::<MarkdownEventView>::empty());
    assert(headers_view(headers@) =~= Seq::<HeaderView>::empty());
    while i < events.len()
        invariant
            i <= events.len(),
            scan_headers(events_view(events@).take(i as int)) == (HeaderScan {
                in_heading,
                level,
                text: text@,
                headers: headers_view(headers@),
            }),
        decreases events.len() - i,
    {
        proof {
            let upto = events_view(events@).take(i + 1);
            assert(upto.drop_last() == events_view(events@).take(i as int));
            assert(upto.last() == events[i as int]@);
        }
        match &events[i] {
            MarkdownEvent::HeadingStart(entered) => {
                in_heading = true;
                level = *entered;
                text = String::new();
            },
            MarkdownEvent::HeadingEnd(_) => {
                if in_heading && !text.as_str().is_empty() {
                    let ghost before = headers_view(headers@);
                    let header = HeaderItem {
                        title: text.clone(),
                        id: slugify(text.as_str()),
                        level,
                    };
                    headers.push(header);
                    assert(headers_view(headers@) =~= before.push(header@));
                }
                in_heading = false;
            },
            MarkdownEvent::Text(run) => {
                if in_heading {
                    text.append(run.as_str());
                }
            },
            MarkdownEvent::Other => {},
        }
        i += 1;
    }
    assert(events_view(events@).take(i as int) == events_view(events@));
    headers
}

/// The headers of the markdown document `content`.
pub fn extract_headers_from_markdown(content: &str) -> (headers: Vec<HeaderItem>)
    ensures
        headers_view(headers@) == headers_of(markdown_events(content@, PAGE_OPTIONS)),
{
    let events = parse_markdown(content, PAGE_OPTIONS);
    headers_from_events(&events)
}

/// Where a reading of events for a title stands.
pub struct TitleScan {
    /// The title, once found.
    pub found: Option<Seq<char>>,
    /// Inside a heading of the first level.
    pub in_heading: bool,
    /// The text gathered since that heading was entered.
    pub text: Seq<char>,
}

/// Reads events for a title: the text of the first heading of the first
/// level whose text is not blank, without surrounding white space. Once a
/// title is found, nothing that follows changes it.
pub open spec fn scan_title(events: Seq<MarkdownEventView>) -> TitleScan
    decreases events.len(),
{
    if events.len() == 0 {
        TitleScan { found: None, in_heading: false, text: Seq::empty() }
    } else {
        let before = scan_title(events.drop_last());
        if before.found is Some {
            before
        } else {
            match events.last() {
                MarkdownEventView::HeadingStart(level) => if level == 1 {
                    TitleScan { found: None, in_heading: true, text: Seq::empty() }
                } else {
                    before
                },
                MarkdownEventView::HeadingEnd(level) => if level != 1 {
                    before
                } else if before.in_heading && trim_ws(before.text).len() > 0 {
                    TitleScan {
                        found: Some(trim_ws(before.text)),
                        in_heading: before.in_heading,
                        text: before.text,
                    }
                } else {
                    TitleScan { found: None, in_heading: false, text: before.text }
                },
                MarkdownEventView::Text(text) => if before.in_heading {
                    TitleScan { found: None, in_heading: true, text: before.text + text }
                } else {
                    before
                },
                MarkdownEventView::Other => before,
            }
        }
    }
}

/// The title of a document, given its events.
pub open spec fn title_in(events: Seq<MarkdownEventView>) -> Option<Seq<char>> {
    scan_title(events).found
}

/// Reads the title of a document off its events.
pub fn title_from_events(events: &Vec<MarkdownEvent>) -> (title: Option<String>)
    ensures
        match title {
            Some(title) => title_in(events_view(events@)) == Some(title@),
            None => title_in(events_view(events@)) is None,
        },
{
    let mut in_heading = false;
    let mut text = String::new();
    let mut i: usize = 0;
    assert(events_view(events@).take(0) =~= Seq::<MarkdownEventView>::empty());
    while i < events.len()
        invariant
            i <= events.len(),
            scan_title(events_view(events@).take(i as int)) == (TitleScan {
                found: None,
                in_heading,
                text: text@,
            }),
        decreases events.len() - i,
    {
        proof {
            let upto = events_view(events@).take(i + 1);
            assert(upto.drop_last() == events_view(events@).take(i as int));
            assert(upto.last() == events[i as int]@);
        }
        match &events[i] {
            MarkdownEvent::HeadingStart(level) => {
                if *level == 1 {
                    in_heading = true;
                    text = String::new();
                }
            },
            MarkdownEvent::HeadingEnd(level) => {
                if *level == 1 {
                    if in_heading {
                        let title = trim(text.as_str());
                        if !title.as_str().is_empty() {
                            proof {
                                lemma_title_stays(events_view(events@), i + 1);
                            }
                            return Some(title);
                        }
                    }
                    in_heading = false;
                }
            },
            MarkdownEvent::Text(run) => {
                if in_heading {
                    text.append(run.as_str());
                }
            },
            MarkdownEvent::Other => {},
        }
        i += 1;
    }
    assert(events_view(events@).take(i as int) == events_view(events@));
    None
}

/// A title that was found after some events is the title of the whole
/// document.
proof fn lemma_title_stays(events: Seq<MarkdownEventView>, upto: int)
    requires
        0 <= upto <= events.len(),
        scan_title(events.take(upto)).found is Some,
    ensures
        scan_title(events).found == scan_title(events.take(upto)).found,
    decreases events.len() - upto,
{
    if upto == events.len() {
        assert(events.take(upto) == events);
    } else {
        assert(events.take(upto + 1).drop_last() == events.take(upto));
        lemma_title_stays(events, upto + 1);
    }
}

/// The title of the markdown document `content`, if it has one.
pub fn extract_title_from_markdown(content: &str) -> (title: Option<String>)
    ensures
        match title {
            Some(title) => title_in(markdown_events(content@, PLAIN_OPTIONS)) == Some(title@),
            None => title_in(markdown_events(content@, PLAIN_OPTIONS)) is None,
        },
{
    let events = parse_markdown(content, PLAIN_OPTIONS);
    title_from_events(&events)
}

} // verus!
