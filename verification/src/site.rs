//! The generated page: the site's config, its parts, and how they are put
//! together.

use crate::config_builder::{SocialLinks, SocialView};
use crate::content::{content_of, search_index_of};
use crate::css::{css_of, generate_css};
use crate::javascript::{generate_javascript, javascript_of};
use crate::markdown::{
    extract_headers_from_markdown, headers_of, headers_view, markdown_events, markdown_html,
    render_homepage, slug_of, slugify, HeaderItem, HeaderView, PAGE_OPTIONS,
};
use crate::reorder::reversed;
use crate::sidebar::sidebar_of;
use crate::text::{decimal, decimal_of};
use vstd::hash_map::StringHashMap;
use vstd::prelude::*;

verus! {

/// The opening of the social links.
pub const SOCIAL_OPEN: &'static str = "<div class=\"social-links\">";

/// The closing of the social links.
pub const SOCIAL_CLOSE: &'static str = "</div>";

/// The Instagram link, up to the user name.
pub const INSTAGRAM_OPEN: &'static str = "\n                    <a href=\"https://instagram.com/";

/// The Instagram link, after the user name.
pub const INSTAGRAM_CLOSE: &'static str = r#"" class="social-link" target="_blank" rel="noopener noreferrer" aria-label="Instagram">
                        <svg viewBox="0 0 24 24" fill="none" stroke="currentColor" stroke-width="2" stroke-linecap="round" stroke-linejoin="round">
                            <rect x="2" y="2" width="20" height="20" rx="5" ry="5"/>
                            <path d="m16 11.37A4 4 0 1 1 12.63 8 4 4 0 0 1 16 11.37z"/>
                            <line x1="17.5" y1="6.5" x2="17.51" y2="6.5"/>
                        </svg>
                    </a>"#;

/// The GitHub link, up to the user name.
pub const GITHUB_OPEN: &'static str = "\n                    <a href=\"https://github.com/";

/// The GitHub link, after the user name.
pub const GITHUB_CLOSE: &'static str = r#"" class="social-link" target="_blank" rel="noopener noreferrer" aria-label="GitHub">
                        <svg viewBox="0 0 24 24" fill="none" stroke="currentColor" stroke-width="2" stroke-linecap="round" stroke-linejoin="round">
                            <path d="M9 19c-5 1.5-5-2.5-7-3m14 6v-3.87a3.37 3.37 0 0 0-.94-2.61c3.14-.35 6.44-1.54 6.44-7A5.44 5.44 0 0 0 20 4.77 5.07 5.07 0 0 0 19.91 1S18.73.65 16 2.48a13.38 13.38 0 0 0-7 0C6.27.65 5.09 1 5.09 1A5.07 5.07 0 0 0 5 4.77a5.44 5.44 0 0 0-1.5 3.78c0 5.42 3.3 6.61 6.44 7A3.37 3.37 0 0 0 9 18.13V22"/>
                        </svg>
                    </a>"#;

/// The Mastodon link, up to the profile address.
pub const MASTODON_OPEN: &'static str = "\n                    <a href=\"";

/// The Mastodon link, after the profile address.
pub const MASTODON_CLOSE: &'static str = r#"" class="social-link" target="_blank" rel="noopener noreferrer" aria-label="Mastodon">
                        <svg viewBox="0 0 24 24" fill="currentColor">
                            <path d="M21.327 8.566c0-4.339-2.843-5.61-2.843-5.61-1.433-.658-3.894-.935-6.451-.956h-.063c-2.557.021-5.016.298-6.45.956 0 0-2.843 1.272-2.843 5.61 0 .993-.019 2.181.012 3.441.103 4.243.778 8.425 4.701 9.463 1.809.479 3.362.579 4.612.51 2.268-.126 3.541-.809 3.541-.809l-.075-1.646s-1.621.513-3.441.449c-1.804-.062-3.707-.194-3.999-2.409a4.523 4.523 0 0 1-.04-.621s1.77.433 4.014.536c1.372.063 2.658-.08 3.965-.236 2.506-.299 4.688-1.843 4.962-3.254.434-2.223.398-5.424.398-5.424zm-3.353 5.59h-2.081V9.057c0-1.075-.452-1.62-1.357-1.62-1 0-1.501.647-1.501 1.927v2.791h-2.069V9.364c0-1.28-.501-1.927-1.502-1.927-.905 0-1.357.546-1.357 1.62v5.099H6.026V8.903c0-1.074.273-1.927.823-2.558.566-.631 1.307-.955 2.228-.955 1.065 0 1.872.409 2.405 1.228l.518.869.519-.869c.533-.819 1.34-1.228 2.405-1.228.92 0 1.662.324 2.228.955.549.631.822 1.484.822 2.558v5.253z"/>
                        </svg>
                    </a>"#;

/// The Threads link, up to the user name.
pub const THREADS_OPEN: &'static str = "\n                    <a href=\"https://threads.net/@";

/// The Threads link, after the user name.
pub const THREADS_CLOSE: &'static str = r#"" class="social-link" target="_blank" rel="noopener noreferrer" aria-label="Threads">
                        <svg viewBox="0 0 192 192" fill="currentColor">
                            <path d="M141.537 88.9883C140.71 88.5919 139.87 88.2104 139.019 87.8451C137.537 60.5382 122.616 44.905 97.5619 44.745C97.4484 44.7443 97.3355 44.7443 97.222 44.7443C82.2364 44.7443 69.7731 51.1409 62.102 62.7807L75.881 72.2328C81.6116 63.5383 90.6052 61.6848 97.2286 61.6848C97.3051 61.6848 97.3819 61.6848 97.4576 61.6855C105.707 61.7381 111.932 64.1366 115.961 68.814C118.893 72.2193 120.854 76.925 121.825 82.8638C114.511 81.6207 106.601 81.2385 98.145 81.7233C74.3247 83.0954 59.0111 96.9879 60.0396 116.292C60.5615 126.084 65.4397 134.508 73.775 140.011C80.8224 144.663 89.899 146.938 99.3323 146.423C111.79 145.74 121.563 140.987 128.381 132.296C133.559 125.696 136.834 117.143 138.28 106.366C144.217 109.949 148.617 114.664 151.047 120.332C155.179 129.967 155.42 145.8 142.501 158.708C131.182 170.016 117.576 174.908 97.0135 175.059C74.2042 174.89 56.9538 167.575 45.7381 153.317C35.2355 139.966 29.8077 120.682 29.6052 96C29.8077 71.3178 35.2355 52.0336 45.7381 38.6827C56.9538 24.4249 74.2039 17.11 97.0132 16.9405C119.988 17.1113 137.539 24.4614 149.184 38.788C154.894 45.8136 159.199 54.6488 162.037 64.9503L178.184 60.6422C174.744 47.9622 169.331 37.0357 161.965 27.974C147.036 9.60668 125.202 0.195148 97.0695 0H96.9569C68.8816 0.19447 47.2921 9.6418 32.7883 28.0793C19.8819 44.4864 13.2244 67.3157 13.0007 95.9325L13 96L13.0007 96.0675C13.2244 124.684 19.8819 147.514 32.7883 163.921C47.2921 182.358 68.8816 191.806 96.9569 192H97.0695C122.03 191.827 139.624 185.292 154.118 170.811C173.081 151.866 172.51 128.119 166.26 113.541C161.776 103.087 153.227 94.5962 141.537 88.9883ZM98.4405 129.507C88.0005 130.095 77.1544 125.409 76.6196 115.372C76.2232 107.93 81.9158 99.626 99.0812 98.6368C101.047 98.5234 102.976 98.468 104.871 98.468C111.106 98.468 116.939 99.0737 122.242 100.233C120.264 124.935 108.662 128.946 98.4405 129.507Z"/>
                        </svg>
                    </a>"#;

/// The link to the site's icon.
pub const FAVICON_LINK: &'static str =
    "\n    <link rel=\"shortcut icon\" type=\"image/x-icon\" href=\"favicon.ico\">";

/// Where the Docs link points when the site has no page.
pub const DEFAULT_FIRST_PAGE: &'static str = "introduction/what-is-glowdoc";

/// The complaint about a missing entry file, up to its path.
pub const ENTRY_MISSING_OPEN: &'static str = "Entry file not found: ";

/// The complaint about a missing entry file, after its path.
pub const ENTRY_MISSING_CLOSE: &'static str =
    "\n\nThe entry.md file is required for the homepage content.\nPlease create this file in your docs/ folder with your homepage markdown content.";

/// The page, up to the title in its head.
pub const PAGE_OPEN: &'static str = r#"<!DOCTYPE html>
<html lang="en">
<head>
    <meta charset="UTF-8">
    <meta name="viewport" content="width=device-width, initial-scale=1.0">
    <title>"#;

/// From the title in the head to the description.
pub const PAGE_DESCRIPTION_OPEN: &'static str =
    " - Modern Documentation</title>\n    <meta name=\"description\" content=\"";

/// What follows the description.
pub const PAGE_DESCRIPTION_CLOSE: &'static str = "\">";

/// The opening of the style sheet.
pub const PAGE_STYLE_OPEN: &'static str = "\n    <style>\n";

/// From the style sheet to the title in the header.
pub const PAGE_HEADER_OPEN: &'static str = r##"
    </style>
</head>
<body>
    <header>
        <div class="container">
            <div class="header-content">
                <a href="#" class="logo" onclick="showHomepage()">"##;

/// From the title in the header to the target of the Docs link.
pub const PAGE_DOCS_LINK_OPEN: &'static str = r##"</a>
                <nav class="nav">
                    <button class="mobile-menu-toggle" onclick="toggleSidebar()">
                        <svg width="16" height="16" viewBox="0 0 24 24" fill="none" stroke="currentColor" stroke-width="2">
                            <line x1="3" y1="6" x2="21" y2="6"/>
                            <line x1="3" y1="12" x2="21" y2="12"/>
                            <line x1="3" y1="18" x2="21" y2="18"/>
                        </svg>
                    </button>
                    <a href="#" onclick="showHomepage()">Home</a>
                    <a href="#"##;

/// From the target of the Docs link to the social links.
pub const PAGE_DOCS_LINK_CLOSE: &'static str = r#"">Docs</a>
                    <button class="theme-toggle" onclick="toggleTheme()">
                        <svg width="16" height="16" viewBox="0 0 24 24" fill="none" stroke="currentColor" stroke-width="2">
                            <circle cx="12" cy="12" r="5"/>
                            <path d="M12 1v2M12 21v2M4.22 4.22l1.42 1.42M18.36 18.36l1.42 1.42M1 12h2M21 12h2M4.22 19.78l1.42-1.42M18.36 5.64l1.42-1.42"/>
                        </svg>
                    </button>
                    "#;

/// From the social links to the homepage.
pub const PAGE_HOMEPAGE_OPEN: &'static str = r#"
                </nav>
            </div>
        </div>
    </header>

    <div class="homepage active" id="homepage">
        <div class="homepage-content">
"#;

/// From the homepage to the sidebar.
pub const PAGE_SIDEBAR_OPEN: &'static str = r#"
        </div>
    </div>

    <div class="layout" id="docs-layout">
        <aside class="sidebar" id="sidebar">
            <nav class="sidebar-nav">
"#;

/// From the sidebar to the content.
pub const PAGE_CONTENT_OPEN: &'static str = r#"
            </nav>
        </aside>

        <main class="main-content">
            <div class="content-wrapper">
                <div class="content-area">
"#;

/// From the content to the year in the footer.
pub const PAGE_FOOTER_OPEN: &'static str = r#"
                </div>
                <aside class="table-of-contents" id="table-of-contents">
                    <div class="toc-header">
                        <h3>On this page</h3>
                    </div>
                    <nav class="toc-nav" id="toc-nav">
                        <!-- Table of contents will be populated by JavaScript -->
                    </nav>
                </aside>
            </div>
        </main>
    </div>

    <footer>
        <div class="container">
            <p>&copy; "#;

/// What separates the year from the title in the footer.
pub const PAGE_FOOTER_SPACE: &'static str = " ";

/// From the title in the footer to the search index.
pub const PAGE_SCRIPT_OPEN: &'static str = r#". Built with modern web standards.</p>
        </div>
    </footer>

    <script>
"#;

/// What separates the search index from the script.
pub const PAGE_SCRIPT_LINE: &'static str = "\n";

/// The closing of the page.
pub const PAGE_CLOSE: &'static str = "\n    </script>\n</body>\n</html>";

/// The seconds of a year of 365.25 days.
pub const SECONDS_PER_YEAR: u64 = 31_557_600;

/// A page, or a folder of pages, of the site's navigation.
#[derive(Debug)]
pub struct NavigationItem {
    pub title: String,
    pub id: String,
    pub file: Option<String>,
    pub items: Vec<NavigationItem>,
    pub headers: Option<Vec<HeaderItem>>,
}

/// A section of the site's navigation.
#[derive(Debug)]
pub struct NavigationSection {
    pub title: String,
    pub id: String,
    pub items: Vec<NavigationItem>,
}

/// The site's config.
#[derive(Debug)]
pub struct SiteConfig {
    pub title: String,
    pub description: String,
    pub navigation: Vec<NavigationSection>,
    pub theme: String,
    pub social: SocialLinks,
}

/// [`NavigationItem`] over character sequences.
pub struct NavItemView {
    pub title: Seq<char>,
    pub id: Seq<char>,
    pub file: Option<Seq<char>>,
    pub items: Seq<NavItemView>,
    pub headers: Option<Seq<HeaderView>>,
}

/// [`NavigationSection`] over character sequences.
pub struct NavSectionView {
    pub title: Seq<char>,
    pub id: Seq<char>,
    pub items: Seq<NavItemView>,
}

/// [`SiteConfig`] over character sequences.
pub struct SiteConfigView {
    pub title: Seq<char>,
    pub description: Seq<char>,
    pub navigation: Seq<NavSectionView>,
    pub theme: Seq<char>,
    pub social: SocialView,
}

/// The view of an item: its texts, and the views of what is below it.
pub open spec fn nav_item_view(item: NavigationItem) -> NavItemView
    decreases item,
{
    NavItemView {
        title: item.title@,
        id: item.id@,
        file: match item.file {
            Some(file) => Some(file@),
            None => None,
        },
        items: Seq::new(
            item.items@.len(),
            |i: int|
                if 0 <= i < item.items@.len() {
                    nav_item_view(item.items@[i])
                } else {
                    arbitrary()
                },
        ),
        headers: match item.headers {
            Some(headers) => Some(headers_view(headers@)),
            None => None,
        },
    }
}

impl View for NavigationItem {
    type V = NavItemView;

    open spec fn view(&self) -> NavItemView {
        nav_item_view(*self)
    }
}

/// The views of a sequence of items.
pub open spec fn nav_items_view(items: Seq<NavigationItem>) -> Seq<NavItemView> {
    items.map_values(|item: NavigationItem| item@)
}

/// The view of an item spells out the views of its children.
pub proof fn lemma_nav_item_view(item: NavigationItem)
    ensures
        item@.items == nav_items_view(item.items@),
{
    assert forall|i: int| 0 <= i < item.items@.len() implies #[trigger] item@.items[i]
        == nav_items_view(item.items@)[i] by {
        assert(nav_items_view(item.items@)[i] == item.items@[i]@);
    }
    assert(item@.items =~= nav_items_view(item.items@));
}

impl View for NavigationSection {
    type V = NavSectionView;

    open spec fn view(&self) -> NavSectionView {
        NavSectionView { title: self.title@, id: self.id@, items: nav_items_view(self.items@) }
    }
}

/// The views of a sequence of sections.
pub open spec fn nav_sections_view(sections: Seq<NavigationSection>) -> Seq<NavSectionView> {
    sections.map_values(|section: NavigationSection| section@)
}

impl View for SiteConfig {
    type V = SiteConfigView;

    open spec fn view(&self) -> SiteConfigView {
        SiteConfigView {
            title: self.title@,
            description: self.description@,
            navigation: nav_sections_view(self.navigation@),
            theme: self.theme@,
            social: self.social@,
        }
    }
}

/// The theme of a config that names none.
pub fn default_theme() -> (theme: String)
    ensures
        theme@ == "default"@,
{
    "default".to_owned()
}

/// Why a build failed before anything was written.
#[derive(Clone, Copy, Debug, PartialEq, Eq, Structural)]
pub enum BuildError {
    /// The entry file, which holds the homepage, does not exist.
    EntryMissing,
}

/// Where the parts of a site are found and where the page goes.
#[derive(Debug)]
pub struct GlowDocBuilder {
    pub docs_path: String,
    pub config_path: String,
    pub entry_path: String,
    pub output_path: String,
}

/// The year in which the instant `seconds` after the start of 1970 falls,
/// counting every year as 365.25 days; the largest year that fits where that
/// is too large.
pub open spec fn year_of(seconds: u64) -> int {
    if 1970 + seconds / SECONDS_PER_YEAR <= i32::MAX {
        1970 + (seconds / SECONDS_PER_YEAR) as int
    } else {
        i32::MAX as int
    }
}

/// The numeral of a year.
pub open spec fn year_text(year: i32) -> Seq<char> {
    if year < 0 {
        "-"@ + decimal_of((-year) as nat)
    } else {
        decimal_of(year as nat)
    }
}

/// A link of one kind, where the site has one.
pub open spec fn social_link_of(open: Seq<char>, handle: Option<Seq<char>>, close: Seq<char>) -> Seq<
    char,
> {
    match handle {
        Some(handle) => open + handle + close,
        None => Seq::<char>::empty(),
    }
}

/// The social links of the header: nothing where the site has none, else
/// one link for each that it has, in a fixed order.
pub open spec fn social_links_of(social: SocialView) -> Seq<char> {
    if social.instagram is None && social.github is None && social.mastodon is None
        && social.threads is None {
        Seq::<char>::empty()
    } else {
        SOCIAL_OPEN@ + social_link_of(INSTAGRAM_OPEN@, social.instagram, INSTAGRAM_CLOSE@)
            + social_link_of(GITHUB_OPEN@, social.github, GITHUB_CLOSE@) + social_link_of(
            MASTODON_OPEN@,
            social.mastodon,
            MASTODON_CLOSE@,
        ) + social_link_of(THREADS_OPEN@, social.threads, THREADS_CLOSE@) + SOCIAL_CLOSE@
    }
}

/// Where the Docs link points: to the first item of the first section, or
/// to a fixed place where there is none.
pub open spec fn first_page_of(navigation: Seq<NavSectionView>) -> Seq<char> {
    if navigation.len() > 0 && navigation[0].items.len() > 0 {
        navigation[0].id + "/"@ + navigation[0].items[0].id
    } else {
        DEFAULT_FIRST_PAGE@
    }
}

/// The page, given each of its parts.
pub open spec fn page_of(
    title: Seq<char>,
    description: Seq<char>,
    favicon: Seq<char>,
    css: Seq<char>,
    first_page: Seq<char>,
    social: Seq<char>,
    homepage: Seq<char>,
    sidebar: Seq<char>,
    content: Seq<char>,
    year: Seq<char>,
    search_index: Seq<char>,
    script: Seq<char>,
) -> Seq<char> {
    PAGE_OPEN@ + title + PAGE_DESCRIPTION_OPEN@ + description + PAGE_DESCRIPTION_CLOSE@ + favicon
        + PAGE_STYLE_OPEN@ + css + PAGE_HEADER_OPEN@ + title + PAGE_DOCS_LINK_OPEN@ + first_page
        + PAGE_DOCS_LINK_CLOSE@ + social + PAGE_HOMEPAGE_OPEN@ + homepage + PAGE_SIDEBAR_OPEN@
        + sidebar + PAGE_CONTENT_OPEN@ + content + PAGE_FOOTER_OPEN@ + year + PAGE_FOOTER_SPACE@
        + title + PAGE_SCRIPT_OPEN@ + search_index + PAGE_SCRIPT_LINE@ + script + PAGE_CLOSE@
}

/// The page of a site, given the parts that were generated before.
pub open spec fn html_of(
    config: SiteConfigView,
    sidebar: Seq<char>,
    content: Seq<char>,
    homepage: Seq<char>,
    search_index: Seq<char>,
    enable_hot_reload: bool,
    has_favicon: bool,
    year: i32,
) -> Seq<char> {
    page_of(
        config.title,
        config.description,
        if has_favicon {
            FAVICON_LINK@
        } else {
            Seq::<char>::empty()
        },
        css_of(config.theme),
        first_page_of(config.navigation),
        social_links_of(config.social),
        homepage,
        sidebar,
        content,
        year_text(year),
        search_index,
        javascript_of(enable_hot_reload),
    )
}

/// The headers of the page in `file`, if the file was read and has any.
pub open spec fn headers_in(file: Option<Seq<char>>, sources: Map<Seq<char>, Seq<char>>) -> Option<
    Seq<HeaderView>,
> {
    match file {
        Some(file) => if sources.contains_key(file) && headers_of(
            markdown_events(sources[file], PAGE_OPTIONS),
        ).len() > 0 {
            Some(headers_of(markdown_events(sources[file], PAGE_OPTIONS)))
        } else {
            None
        },
        None => None,
    }
}

/// An item with the headers of its page, and of every page below it. An
/// item whose page could not be read, or has no headers, keeps what it had.
pub open spec fn item_with_headers(item: NavItemView, sources: Map<Seq<char>, Seq<char>>) -> NavItemView
    decreases item,
{
    NavItemView {
        title: item.title,
        id: item.id,
        file: item.file,
        items: Seq::new(
            item.items.len(),
            |i: int|
                if 0 <= i < item.items.len() {
                    item_with_headers(item.items[i], sources)
                } else {
                    arbitrary()
                },
        ),
        headers: match headers_in(item.file, sources) {
            Some(headers) => Some(headers),
            None => item.headers,
        },
    }
}

/// Each item with its headers.
pub open spec fn items_with_headers(
    items: Seq<NavItemView>,
    sources: Map<Seq<char>, Seq<char>>,
) -> Seq<NavItemView> {
    items.map_values(|item: NavItemView| item_with_headers(item, sources))
}

/// A section with the headers of its pages.
pub open spec fn section_with_headers(
    section: NavSectionView,
    sources: Map<Seq<char>, Seq<char>>,
) -> NavSectionView {
    NavSectionView {
        title: section.title,
        id: section.id,
        items: items_with_headers(section.items, sources),
    }
}

/// The navigation with the headers of its pages.
pub open spec fn navigation_with_headers(
    navigation: Seq<NavSectionView>,
    sources: Map<Seq<char>, Seq<char>>,
) -> Seq<NavSectionView> {
    navigation.map_values(|section: NavSectionView| section_with_headers(section, sources))
}

/// The texts of the files that could be read, by the name under which the
/// config names them.
pub struct Sources {
    texts: StringHashMap<String>,
}

impl View for Sources {
    type V = Map<Seq<char>, Seq<char>>;

    closed spec fn view(&self) -> Map<Seq<char>, Seq<char>> {
        self.texts@.map_values(|s: String| s@)
    }
}

impl Sources {
    /// No file at all.
    pub fn new() -> (sources: Self)
        ensures
            sources@ == Map::<Seq<char>, Seq<char>>::empty(),
    {
        let sources = Sources { texts: StringHashMap::new() };
        assert(sources@ =~= Map::<Seq<char>, Seq<char>>::empty());
        sources
    }

    /// Records the text of the file called `name`, in place of any recorded
    /// under that name before.
    pub fn insert(&mut self, name: String, text: String)
        ensures
            final(self)@ == old(self)@.insert(name@, text@),
    {
        assert(self.texts@.insert(name@, text).map_values(|s: String| s@) =~= self.texts@.map_values(
            |s: String| s@,
        ).insert(name@, text@));
        self.texts.insert(name, text);
    }

    /// The text of the file called `name`, if it was recorded.
    pub fn get(&self, name: &str) -> (text: Option<&String>)
        ensures
            match text {
                Some(text) => self@.contains_key(name@) && self@[name@] == text@,
                None => !self@.contains_key(name@),
            },
    {
        self.texts.get(name)
    }
}

/// The whole page of a site: its navigation with headers, its homepage
/// rendered, and sidebar, content and search index generated from the
/// navigation and the files that were read.
pub open spec fn site_of(
    config: SiteConfigView,
    sources: Map<Seq<char>, Seq<char>>,
    entry: Seq<char>,
    has_favicon: bool,
    seconds: u64,
    enable_hot_reload: bool,
) -> Seq<char> {
    let navigation = navigation_with_headers(config.navigation, sources);
    html_of(
        SiteConfigView {
            title: config.title,
            description: config.description,
            navigation,
            theme: config.theme,
            social: config.social,
        },
        sidebar_of(navigation),
        content_of(navigation, sources),
        markdown_html(entry, PAGE_OPTIONS),
        search_index_of(navigation, sources),
        enable_hot_reload,
        has_favicon,
        year_of(seconds) as i32,
    )
}

/// The numeral of `year`.
pub fn year_numeral(year: i32) -> (numeral: String)
    ensures
        numeral@ == year_text(year),
{
    if year < 0 {
        let magnitude: u64 = (-(year as i64)) as u64;
        "-".to_owned().concat(decimal(magnitude).as_str())
    } else {
        decimal(year as u64)
    }
}

impl BuildError {
    /// The error as a message for the user. `entry_path` is where the entry
    /// file was looked for.
    pub fn message(&self, entry_path: &str) -> (text: String)
        ensures
            text@ == ENTRY_MISSING_OPEN@ + entry_path@ + ENTRY_MISSING_CLOSE@,
    {
        ENTRY_MISSING_OPEN.to_owned().concat(entry_path).concat(ENTRY_MISSING_CLOSE)
    }
}

impl GlowDocBuilder {
    /// A builder for the docs folder `docs`, with its config and its entry
    /// file in it, that writes `index.html`.
    pub fn new() -> (builder: Self)
        ensures
            builder.docs_path@ == "docs"@,
            builder.config_path@ == "docs/config.yaml"@,
            builder.entry_path@ == "docs/entry.md"@,
            builder.output_path@ == "index.html"@,
    {
        GlowDocBuilder {
            docs_path: "docs".to_owned(),
            config_path: "docs/config.yaml".to_owned(),
            entry_path: "docs/entry.md".to_owned(),
            output_path: "index.html".to_owned(),
        }
    }

    /// The year in which the instant `seconds` after the start of 1970
    /// falls.
    pub fn get_current_year(&self, seconds: u64) -> (year: i32)
        ensures
            year == year_of(seconds),
    {
        let years = seconds / SECONDS_PER_YEAR;
        if years <= 2147481677 {
            (1970 + years) as i32
        } else {
            i32::MAX
        }
    }

    /// Makes the slug of a heading.
    pub fn slugify(&self, text: &str) -> (slug: String)
        ensures
            slug@ == slug_of(text@),
    {
        slugify(text)
    }

    /// The homepage: the entry file rendered. Without an entry file there
    /// is no homepage, and no build.
    pub fn load_homepage(&self, entry: Option<&str>) -> (homepage: Result<String, BuildError>)
        ensures
            match homepage {
                Ok(html) => entry is Some && html@ == markdown_html(entry->0@, PAGE_OPTIONS),
                Err(e) => entry is None && e == BuildError::EntryMissing,
            },
    {
        match entry {
            Some(content) => Ok(render_homepage(content)),
            None => Err(BuildError::EntryMissing),
        }
    }

    /// Writes the social links of the header.
    pub fn generate_social_links_html(&self, social: &SocialLinks) -> (html: String)
        ensures
            html@ == social_links_of(social@),
    {
        let mut html = String::new();
        if social.instagram.is_some() || social.github.is_some() || social.mastodon.is_some()
            || social.threads.is_some() {
            html.append(SOCIAL_OPEN);
            match &social.instagram {
                Some(handle) => {
                    html.append(INSTAGRAM_OPEN);
                    html.append(handle.as_str());
                    html.append(INSTAGRAM_CLOSE);
                },
                None => {},
            }
            let ghost first = html@;
            assert(first =~= SOCIAL_OPEN@ + social_link_of(
                INSTAGRAM_OPEN@,
                social@.instagram,
                INSTAGRAM_CLOSE@,
            ));
            match &social.github {
                Some(handle) => {
                    html.append(GITHUB_OPEN);
                    html.append(handle.as_str());
                    html.append(GITHUB_CLOSE);
                },
                None => {},
            }
            let ghost second = html@;
            assert(second =~= first + social_link_of(GITHUB_OPEN@, social@.github, GITHUB_CLOSE@));
            match &social.mastodon {
                Some(handle) => {
                    html.append(MASTODON_OPEN);
                    html.append(handle.as_str());
                    html.append(MASTODON_CLOSE);
                },
                None => {},
            }
            let ghost third = html@;
            assert(third =~= second + social_link_of(
                MASTODON_OPEN@,
                social@.mastodon,
                MASTODON_CLOSE@,
            ));
            match &social.threads {
                Some(handle) => {
                    html.append(THREADS_OPEN);
                    html.append(handle.as_str());
                    html.append(THREADS_CLOSE);
                },
                None => {},
            }
            let ghost fourth = html@;
            assert(fourth =~= third + social_link_of(
                THREADS_OPEN@,
                social@.threads,
                THREADS_CLOSE@,
            ));
            html.append(SOCIAL_CLOSE);
        }
        html
    }

    /// Where the Docs link points.
    pub fn first_page_url(&self, navigation: &Vec<NavigationSection>) -> (url: String)
        ensures
            url@ == first_page_of(nav_sections_view(navigation@)),
    {
        if navigation.len() > 0 && navigation[0].items.len() > 0 {
            assert(nav_sections_view(navigation@)[0] == navigation[0]@);
            assert(nav_items_view(navigation[0].items@)[0] == navigation[0].items[0]@);
            navigation[0].id.clone().concat("/").concat(navigation[0].items[0].id.as_str())
        } else {
            DEFAULT_FIRST_PAGE.to_owned()
        }
    }

    /// Puts the page together from its parts.
    pub fn generate_html(
        &self,
        config: &SiteConfig,
        sidebar_html: &str,
        content_html: &str,
        homepage_html: &str,
        search_index: &str,
        enable_hot_reload: bool,
        has_favicon: bool,
        current_year: i32,
    ) -> (html: String)
        ensures
            html@ == html_of(
                config@,
                sidebar_html@,
                content_html@,
                homepage_html@,
                search_index@,
                enable_hot_reload,
                has_favicon,
                current_year,
            ),
    {
        let first_page = self.first_page_url(&config.navigation);
        let social = self.generate_social_links_html(&config.social);
        let css = generate_css(config.theme.as_str());
        let script = generate_javascript(enable_hot_reload);
        let year = year_numeral(current_year);
        let mut html = PAGE_OPEN.to_owned();
        html.append(config.title.as_str());
        html.append(PAGE_DESCRIPTION_OPEN);
        html.append(config.description.as_str());
        html.append(PAGE_DESCRIPTION_CLOSE);
        if has_favicon {
            html.append(FAVICON_LINK);
        }
        let ghost head = html@;
        assert(head =~= PAGE_OPEN@ + config.title@ + PAGE_DESCRIPTION_OPEN@ + config.description@
            + PAGE_DESCRIPTION_CLOSE@ + (if has_favicon {
            FAVICON_LINK@
        } else {
            Seq::<char>::empty()
        }));
        html.append(PAGE_STYLE_OPEN);
        html.append(css.as_str());
        html.append(PAGE_HEADER_OPEN);
        html.append(config.title.as_str());
        html.append(PAGE_DOCS_LINK_OPEN);
        html.append(first_page.as_str());
        html.append(PAGE_DOCS_LINK_CLOSE);
        html.append(social.as_str());
        html.append(PAGE_HOMEPAGE_OPEN);
        html.append(homepage_html);
        html.append(PAGE_SIDEBAR_OPEN);
        html.append(sidebar_html);
        html.append(PAGE_CONTENT_OPEN);
        html.append(content_html);
        html.append(PAGE_FOOTER_OPEN);
        html.append(year.as_str());
        html.append(PAGE_FOOTER_SPACE);
        html.append(config.title.as_str());
        html.append(PAGE_SCRIPT_OPEN);
        html.append(search_index);
        html.append(PAGE_SCRIPT_LINE);
        html.append(script.as_str());
        html.append(PAGE_CLOSE);
        html
    }

    /// Gives an item the headers of its page, and every item below it the
    /// headers of its own. `sources` holds the text of every file that could
    /// be read, by the name under which the config names it.
    pub fn update_item_headers(&self, item: NavigationItem, sources: &Sources) -> (updated:
        NavigationItem)
        ensures
            updated@ == item_with_headers(item@, sources@),
        decreases item,
    {
        let ghost whole = item;
        let NavigationItem { title, id, file, items, headers } = item;
        let found: Option<Vec<HeaderItem>> = match &file {
            Some(name) => match sources.get(name.as_str()) {
                Some(content) => {
                    let headers = extract_headers_from_markdown(content.as_str());
                    if headers.len() > 0 {
                        Some(headers)
                    } else {
                        None
                    }
                },
                None => None,
            },
            None => None,
        };
        let headers = match found {
            Some(headers) => Some(headers),
            None => headers,
        };
        let items = self.update_items_headers(items, sources);
        let updated = NavigationItem { title, id, file, items, headers };
        proof {
            lemma_nav_item_view(whole);
            lemma_nav_item_view(updated);
            assert(updated@.items =~= item_with_headers(whole@, sources@).items);
        }
        updated
    }

    /// Gives each item the headers of its page.
    pub fn update_items_headers(
        &self,
        items: Vec<NavigationItem>,
        sources: &Sources,
    ) -> (updated: Vec<NavigationItem>)
        ensures
            nav_items_view(updated@) == items_with_headers(
                nav_items_view(items@),
                sources@,
            ),
        decreases items,
    {
        let ghost all = items@;
        let ghost count = items.len();
        let mut rest = reversed(items);
        let mut updated: Vec<NavigationItem> = Vec::new();
        while rest.len() > 0
            invariant
                all == items@,
                rest.len() + updated.len() == count,
                all.len() == count,
                forall|j: int| 0 <= j < rest.len() ==> #[trigger] rest[j] == all[count - 1 - j],
                forall|j: int|
                    0 <= j < updated.len() ==> (#[trigger] updated[j])@ == item_with_headers(
                        all[j]@,
                        sources@,
                    ),
            decreases rest.len(),
        {
            let item = rest.pop().unwrap();
            assert(item == items@[updated.len() as int]);
            let item = self.update_item_headers(item, sources);
            updated.push(item);
        }
        assert(nav_items_view(updated@) =~= items_with_headers(
            nav_items_view(all),
            sources@,
        ));
        updated
    }

    /// Gives every page of the navigation its headers.
    pub fn extract_headers_and_update_navigation(
        &self,
        navigation: Vec<NavigationSection>,
        sources: &Sources,
    ) -> (updated: Vec<NavigationSection>)
        ensures
            nav_sections_view(updated@) == navigation_with_headers(
                nav_sections_view(navigation@),
                sources@,
            ),
    {
        let ghost all = navigation@;
        let ghost count = navigation.len();
        let mut rest = reversed(navigation);
        let mut updated: Vec<NavigationSection> = Vec::new();
        while rest.len() > 0
            invariant
                rest.len() + updated.len() == count,
                all.len() == count,
                forall|j: int| 0 <= j < rest.len() ==> #[trigger] rest[j] == all[count - 1 - j],
                forall|j: int|
                    0 <= j < updated.len() ==> (#[trigger] updated[j])@ == section_with_headers(
                        all[j]@,
                        sources@,
                    ),
            decreases rest.len(),
        {
            let NavigationSection { title, id, items } = rest.pop().unwrap();
            let items = self.update_items_headers(items, sources);
            updated.push(NavigationSection { title, id, items });
        }
        assert(nav_sections_view(updated@) =~= navigation_with_headers(
            nav_sections_view(all),
            sources@,
        ));
        updated
    }

    /// Builds the whole page of a site. `sources` holds the text of every
    /// page that could be read, `entry` the text of the entry file if there
    /// is one, `seconds` the time since the start of 1970. Without an entry
    /// file nothing is built.
    pub fn build_with_hot_reload(
        &self,
        config: SiteConfig,
        sources: &Sources,
        entry: Option<&str>,
        has_favicon: bool,
        seconds: u64,
        enable_hot_reload: bool,
    ) -> (built: Result<String, BuildError>)
        ensures
            match built {
                Ok(html) => entry is Some && html@ == site_of(
                    config@,
                    sources@,
                    entry->0@,
                    has_favicon,
                    seconds,
                    enable_hot_reload,
                ),
                Err(e) => entry is None && e == BuildError::EntryMissing,
            },
    {
        let SiteConfig { title, description, navigation, theme, social } = config;
        let navigation = self.extract_headers_and_update_navigation(navigation, sources);
        let homepage = match self.load_homepage(entry) {
            Ok(homepage) => homepage,
            Err(e) => {
                return Err(e);
            },
        };
        let config = SiteConfig { title, description, navigation, theme, social };
        let sidebar = self.generate_sidebar(&config.navigation);
        let (content, search_index) = self.generate_content(&config.navigation, sources);
        let year = self.get_current_year(seconds);
        Ok(
            self.generate_html(
                &config,
                sidebar.as_str(),
                content.as_str(),
                homepage.as_str(),
                search_index.as_str(),
                enable_hot_reload,
                has_favicon,
                year,
            ),
        )
    }

    /// Builds the whole page of a site, without the hot-reload client.
    pub fn build(
        &self,
        config: SiteConfig,
        sources: &Sources,
        entry: Option<&str>,
        has_favicon: bool,
        seconds: u64,
    ) -> (built: Result<String, BuildError>)
        ensures
            match built {
                Ok(html) => entry is Some && html@ == site_of(
                    config@,
                    sources@,
                    entry->0@,
                    has_favicon,
                    seconds,
                    false,
                ),
                Err(e) => entry is None && e == BuildError::EntryMissing,
            },
    {
        self.build_with_hot_reload(config, sources, entry, has_favicon, seconds, false)
    }
}

} // verus!
