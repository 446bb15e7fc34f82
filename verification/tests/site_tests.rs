use glowdoc::config_builder::SocialLinks;
use glowdoc::css::generate_css;
use glowdoc::javascript::generate_javascript;
use glowdoc::markdown::HeaderItem;
use glowdoc::site::{
    default_theme, year_numeral, BuildError, GlowDocBuilder, NavigationItem, NavigationSection,
    SiteConfig, Sources,
};

fn page(title: &str, id: &str, file: &str) -> NavigationItem {
    NavigationItem {
        title: title.to_string(),
        id: id.to_string(),
        file: Some(file.to_string()),
        items: vec![],
        headers: None,
    }
}

fn folder(title: &str, id: &str, items: Vec<NavigationItem>) -> NavigationItem {
    NavigationItem { title: title.to_string(), id: id.to_string(), file: None, items, headers: None }
}

fn section(title: &str, id: &str, items: Vec<NavigationItem>) -> NavigationSection {
    NavigationSection { title: title.to_string(), id: id.to_string(), items }
}

fn no_links() -> SocialLinks {
    SocialLinks { instagram: None, github: None, mastodon: None, threads: None }
}

fn sample_navigation() -> Vec<NavigationSection> {
    vec![
        section(
            "Introduction",
            "introduction",
            vec![
                page("What is \"GlowDoc\"?", "what-is-glowdoc", "introduction/what-is-glowdoc.md"),
                folder(
                    "Deep Dive",
                    "deep-dive",
                    vec![
                        page("Internals", "internals", "introduction/deep-dive/internals.md"),
                        folder("Empty", "empty", vec![]),
                    ],
                ),
            ],
        ),
        section("Guides", "guides", vec![page("Missing", "missing", "guides/missing.md")]),
    ]
}

fn sample_sources() -> Sources {
    let mut sources = Sources::new();
    sources.insert(
        "introduction/what-is-glowdoc.md".to_string(),
        "# What is it?\r\n\nA \"tool\" with a back\\slash.\n\n## Why\n".to_string(),
    );
    sources.insert("introduction/deep-dive/internals.md".to_string(), "plain".to_string());
    sources
}

fn expected_link(indent: &str, path: &str, class: &str, section_id: &str, title: &str) -> String {
    format!("\n{}<li class=\"nav-item\">\n{}    <a href=\"#{}\" class=\"nav-link{}\" data-content-id=\"{}\" data-section-id=\"{}\">{}</a>\n{}</li>", indent, indent, path, class, path, section_id, title, indent)
}

fn expected_folder_open(indent: &str, element_id: &str, title: &str) -> String {
    format!(
        "\n{}<li class=\"nav-item nav-folder\">\n{}    <div class=\"nav-folder-title\" onclick=\"toggleNestedSection('{}')\">\n{}        <span>{}</span>\n{}        <svg class=\"nav-folder-toggle\" width=\"10\" height=\"10\" viewBox=\"0 0 24 24\" fill=\"none\" stroke=\"currentColor\" stroke-width=\"2\">\n{}            <polyline points=\"6 9 12 15 18 9\"></polyline>\n{}        </svg>\n{}    </div>\n{}    <ul class=\"nav-nested-items\" id=\"{}-items\">",
        indent, indent, element_id, indent, title, indent, indent, indent, indent, indent, element_id
    )
}

fn expected_section_head(id: &str, title: &str) -> String {
    format!("\n                <div class=\"nav-section\">\n                    <div class=\"nav-section-title\" onclick=\"toggleSection('{}')\">\n                        <span>{}</span>\n                        <svg class=\"nav-section-toggle\" width=\"12\" height=\"12\" viewBox=\"0 0 24 24\" fill=\"none\" stroke=\"currentColor\" stroke-width=\"2\">\n                            <polyline points=\"6 9 12 15 18 9\"></polyline>\n                        </svg>\n                    </div>\n                    <ul class=\"nav-items\" id=\"{}-items\">", id, title, id)
}

fn expected_sidebar() -> String {
    let top = "    ".repeat(6);
    let nested = "    ".repeat(7);
    let mut html = String::new();
    html.push_str(r#"
                <div class="search-container">
                    <input type="text" id="search-input" class="search-input" placeholder="Search pages..." oninput="performSearch()">
                    <svg class="search-icon" width="16" height="16" viewBox="0 0 24 24" fill="none" stroke="currentColor" stroke-width="2">
                        <circle cx="11" cy="11" r="8"/>
                        <path d="m21 21-4.35-4.35"/>
                    </svg>
                </div>
                <div id="search-results" class="search-results" style="display: none;">
                    <div class="search-results-header">Search Results</div>
                    <div id="search-results-list"></div>
                </div>
                <div id="navigation-container">"#);
    html.push_str(&expected_section_head("introduction", "Introduction"));
    html.push_str(&expected_link(
        &top,
        "introduction/what-is-glowdoc",
        " active",
        "introduction",
        "What is \"GlowDoc\"?",
    ));
    html.push_str(&expected_folder_open(&top, "introduction-deep-dive", "Deep Dive"));
    html.push_str(&expected_link(
        &nested,
        "introduction/deep-dive/internals",
        "",
        "introduction",
        "Internals",
    ));
    html.push_str(&format!("\n{}    </ul>\n{}</li>", top, top));
    html.push_str("\n                    </ul>\n                </div>");
    html.push_str(&expected_section_head("guides", "Guides"));
    html.push_str(&expected_link(&top, "guides/missing", "", "guides", "Missing"));
    html.push_str("\n                    </ul>\n                </div>");
    html.push_str("\n                </div>");
    html
}

#[test]
fn builder_knows_its_paths() {
    let builder = GlowDocBuilder::new();
    assert_eq!(builder.docs_path, "docs");
    assert_eq!(builder.config_path, "docs/config.yaml");
    assert_eq!(builder.entry_path, "docs/entry.md");
    assert_eq!(builder.output_path, "index.html");
    assert_eq!(default_theme(), "default");
}

#[test]
fn year_counts_years_of_365_and_a_quarter_days() {
    let builder = GlowDocBuilder::new();
    assert_eq!(builder.get_current_year(0), 1970);
    assert_eq!(builder.get_current_year(31_557_599), 1970);
    assert_eq!(builder.get_current_year(31_557_600), 1971);
    assert_eq!(builder.get_current_year(1_700_000_000), 2023);
    assert_eq!(builder.get_current_year(2147481677 * 31_557_600), i32::MAX);
    assert_eq!(builder.get_current_year(2147481676 * 31_557_600), i32::MAX - 1);
    assert_eq!(builder.get_current_year(u64::MAX), i32::MAX);
}

#[test]
fn year_numeral_is_decimal() {
    assert_eq!(year_numeral(2024), "2024");
    assert_eq!(year_numeral(0), "0");
    assert_eq!(year_numeral(7), "7");
    assert_eq!(year_numeral(-15), "-15");
    assert_eq!(year_numeral(i32::MIN), i32::MIN.to_string());
    assert_eq!(year_numeral(i32::MAX), i32::MAX.to_string());
}

#[test]
fn sidebar_lists_sections_pages_and_folders() {
    let builder = GlowDocBuilder::new();
    assert_eq!(builder.generate_sidebar(&sample_navigation()), expected_sidebar());
}

#[test]
fn sidebar_of_an_empty_site_is_the_search_box() {
    let builder = GlowDocBuilder::new();
    let sidebar = builder.generate_sidebar(&vec![]);
    assert!(sidebar.starts_with("\n                <div class=\"search-container\">"));
    assert!(sidebar.ends_with("<div id=\"navigation-container\">\n                </div>"));
}

#[test]
fn only_a_leading_page_is_active() {
    let builder = GlowDocBuilder::new();
    let navigation = vec![
        section("A", "a", vec![folder("F", "f", vec![page("P", "p", "a/f/p.md")]), page("Q", "q", "a/q.md")]),
        section("Again", "a", vec![page("R", "r", "a/r.md")]),
    ];
    let sidebar = builder.generate_sidebar(&navigation);
    assert_eq!(sidebar.matches("nav-link active").count(), 1);
    assert!(sidebar.contains("<a href=\"#a/r\" class=\"nav-link active\""));
}

#[test]
fn content_and_search_index_follow_the_navigation() {
    let builder = GlowDocBuilder::new();
    let (content, index) = builder.generate_content(&sample_navigation(), &sample_sources());
    let mut expected_content = String::new();
    expected_content.push_str(&format!(
        "\n            <section class=\"content-section{}\" id=\"{}\">\n                {}\n            </section>",
        " active",
        "introduction/what-is-glowdoc",
        "<h1 id=\"what-is-it\">What is it?</h1>\n<p>A \u{201c}tool\u{201d} with a back\\slash.</p>\n<h2 id=\"why\">Why</h2>\n"
            .replace('\u{201c}', "&quot;")
            .replace('\u{201d}', "&quot;")
    ));
    expected_content.push_str(&format!(
        "\n            <section class=\"content-section{}\" id=\"{}\">\n                {}\n            </section>",
        "", "introduction/deep-dive/internals", "<p>plain</p>\n"
    ));
    expected_content.push_str(&format!(
        "\n            <section class=\"content-section{}\" id=\"{}\">\n                <p>Error loading content: {}</p>\n            </section>",
        "", "guides/missing", "guides/missing.md"
    ));
    assert_eq!(content, expected_content);

    let mut expected_index = String::from("const searchIndex = {\n");
    expected_index.push_str(&format!(
        "    \"{}\": {{\n        \"title\": \"{}\",\n        \"section\": \"{}\",\n        \"content\": \"{}\"\n    }},\n",
        "introduction/what-is-glowdoc",
        "What is \\\"GlowDoc\\\"?",
        "Introduction",
        "# What is it?\\n\\nA \\\"tool\\\" with a back\\\\slash.\\n\\n## Why\\n"
    ));
    expected_index.push_str(&format!(
        "    \"{}\": {{\n        \"title\": \"{}\",\n        \"section\": \"{}\",\n        \"content\": \"{}\"\n    }},\n",
        "introduction/deep-dive/internals", "Internals", "Introduction", "plain"
    ));
    expected_index.push_str(&format!(
        "    \"{}\": {{\n        \"title\": \"{}\",\n        \"section\": \"{}\",\n        \"content\": \"Error loading content\"\n    }},\n",
        "guides/missing", "Missing", "Guides"
    ));
    expected_index.pop();
    expected_index.pop();
    expected_index.push('\n');
    expected_index.push_str("};\n");
    assert_eq!(index, expected_index);
}

#[test]
fn search_index_of_an_empty_site_is_an_empty_object() {
    let builder = GlowDocBuilder::new();
    let (content, index) = builder.generate_content(&vec![], &Sources::new());
    assert_eq!(content, "");
    assert_eq!(index, "const searchIndex = {\n};\n");
}

#[test]
fn social_links_appear_in_a_fixed_order() {
    let builder = GlowDocBuilder::new();
    assert_eq!(builder.generate_social_links_html(&no_links()), "");
    let links = SocialLinks {
        instagram: None,
        github: Some("octo".to_string()),
        mastodon: Some("https://example.social/@me".to_string()),
        threads: None,
    };
    let mut expected = String::from("<div class=\"social-links\">");
    expected.push_str(&format!(r#"
                    <a href="https://github.com/{}" class="social-link" target="_blank" rel="noopener noreferrer" aria-label="GitHub">
                        <svg viewBox="0 0 24 24" fill="none" stroke="currentColor" stroke-width="2" stroke-linecap="round" stroke-linejoin="round">
                            <path d="M9 19c-5 1.5-5-2.5-7-3m14 6v-3.87a3.37 3.37 0 0 0-.94-2.61c3.14-.35 6.44-1.54 6.44-7A5.44 5.44 0 0 0 20 4.77 5.07 5.07 0 0 0 19.91 1S18.73.65 16 2.48a13.38 13.38 0 0 0-7 0C6.27.65 5.09 1 5.09 1A5.07 5.07 0 0 0 5 4.77a5.44 5.44 0 0 0-1.5 3.78c0 5.42 3.3 6.61 6.44 7A3.37 3.37 0 0 0 9 18.13V22"/>
                        </svg>
                    </a>"#, "octo"));
    expected.push_str(&format!(r#"
                    <a href="{}" class="social-link" target="_blank" rel="noopener noreferrer" aria-label="Mastodon">
                        <svg viewBox="0 0 24 24" fill="currentColor">
                            <path d="M21.327 8.566c0-4.339-2.843-5.61-2.843-5.61-1.433-.658-3.894-.935-6.451-.956h-.063c-2.557.021-5.016.298-6.45.956 0 0-2.843 1.272-2.843 5.61 0 .993-.019 2.181.012 3.441.103 4.243.778 8.425 4.701 9.463 1.809.479 3.362.579 4.612.51 2.268-.126 3.541-.809 3.541-.809l-.075-1.646s-1.621.513-3.441.449c-1.804-.062-3.707-.194-3.999-2.409a4.523 4.523 0 0 1-.04-.621s1.77.433 4.014.536c1.372.063 2.658-.08 3.965-.236 2.506-.299 4.688-1.843 4.962-3.254.434-2.223.398-5.424.398-5.424zm-3.353 5.59h-2.081V9.057c0-1.075-.452-1.62-1.357-1.62-1 0-1.501.647-1.501 1.927v2.791h-2.069V9.364c0-1.28-.501-1.927-1.502-1.927-.905 0-1.357.546-1.357 1.62v5.099H6.026V8.903c0-1.074.273-1.927.823-2.558.566-.631 1.307-.955 2.228-.955 1.065 0 1.872.409 2.405 1.228l.518.869.519-.869c.533-.819 1.34-1.228 2.405-1.228.92 0 1.662.324 2.228.955.549.631.822 1.484.822 2.558v5.253z"/>
                        </svg>
                    </a>"#, "https://example.social/@me"));
    expected.push_str("</div>");
    assert_eq!(builder.generate_social_links_html(&links), expected);
    let all = SocialLinks {
        instagram: Some("i".to_string()),
        github: Some("g".to_string()),
        mastodon: Some("m".to_string()),
        threads: Some("t".to_string()),
    };
    let html = builder.generate_social_links_html(&all);
    let at = |needle: &str| html.find(needle).unwrap();
    assert!(at("https://instagram.com/i\"") < at("https://github.com/g\""));
    assert!(at("https://github.com/g\"") < at("<a href=\"m\""));
    assert!(at("<a href=\"m\"") < at("https://threads.net/@t\""));
}

fn sample_config(navigation: Vec<NavigationSection>) -> SiteConfig {
    SiteConfig {
        title: "My Docs".to_string(),
        description: "All about it".to_string(),
        navigation,
        theme: "purple".to_string(),
        social: no_links(),
    }
}

fn expected_page(
    config: &SiteConfig,
    favicon: &str,
    first_page: &str,
    social: &str,
    homepage: &str,
    sidebar: &str,
    content: &str,
    year: i32,
    search_index: &str,
    hot: bool,
) -> String {
    format!(
        "<!DOCTYPE html>
<html lang=\"en\">
<head>
    <meta charset=\"UTF-8\">
    <meta name=\"viewport\" content=\"width=device-width, initial-scale=1.0\">
    <title>{} - Modern Documentation</title>
    <meta name=\"description\" content=\"{}\">{}
    <style>
{}
    </style>
</head>
<body>
    <header>
        <div class=\"container\">
            <div class=\"header-content\">
                <a href=\"#\" class=\"logo\" onclick=\"showHomepage()\">{}</a>
                <nav class=\"nav\">
                    <button class=\"mobile-menu-toggle\" onclick=\"toggleSidebar()\">
                        <svg width=\"16\" height=\"16\" viewBox=\"0 0 24 24\" fill=\"none\" stroke=\"currentColor\" stroke-width=\"2\">
                            <line x1=\"3\" y1=\"6\" x2=\"21\" y2=\"6\"/>
                            <line x1=\"3\" y1=\"12\" x2=\"21\" y2=\"12\"/>
                            <line x1=\"3\" y1=\"18\" x2=\"21\" y2=\"18\"/>
                        </svg>
                    </button>
                    <a href=\"#\" onclick=\"showHomepage()\">Home</a>
                    <a href=\"#{}\">Docs</a>
                    <button class=\"theme-toggle\" onclick=\"toggleTheme()\">
                        <svg width=\"16\" height=\"16\" viewBox=\"0 0 24 24\" fill=\"none\" stroke=\"currentColor\" stroke-width=\"2\">
                            <circle cx=\"12\" cy=\"12\" r=\"5\"/>
                            <path d=\"M12 1v2M12 21v2M4.22 4.22l1.42 1.42M18.36 18.36l1.42 1.42M1 12h2M21 12h2M4.22 19.78l1.42-1.42M18.36 5.64l1.42-1.42\"/>
                        </svg>
                    </button>
                    {}
                </nav>
            </div>
        </div>
    </header>

    <div class=\"homepage active\" id=\"homepage\">
        <div class=\"homepage-content\">
{}
        </div>
    </div>

    <div class=\"layout\" id=\"docs-layout\">
        <aside class=\"sidebar\" id=\"sidebar\">
            <nav class=\"sidebar-nav\">
{}
            </nav>
        </aside>

        <main class=\"main-content\">
            <div class=\"content-wrapper\">
                <div class=\"content-area\">
{}
                </div>
                <aside class=\"table-of-contents\" id=\"table-of-contents\">
                    <div class=\"toc-header\">
                        <h3>On this page</h3>
                    </div>
                    <nav class=\"toc-nav\" id=\"toc-nav\">
                        <!-- Table of contents will be populated by JavaScript -->
                    </nav>
                </aside>
            </div>
        </main>
    </div>

    <footer>
        <div class=\"container\">
            <p>&copy; {} {}. Built with modern web standards.</p>
        </div>
    </footer>

    <script>
{}
{}
    </script>
</body>
</html>",
        config.title,
        config.description,
        favicon,
        generate_css(&config.theme),
        config.title,
        first_page,
        social,
        homepage,
        sidebar,
        content,
        year,
        config.title,
        search_index,
        generate_javascript(hot)
    )
}

#[test]
fn page_is_put_together_from_its_parts() {
    let builder = GlowDocBuilder::new();
    let config = sample_config(sample_navigation());
    let html = builder.generate_html(&config, "SIDEBAR", "CONTENT", "HOME", "INDEX", false, true, 2024);
    let favicon = "\n    <link rel=\"shortcut icon\" type=\"image/x-icon\" href=\"favicon.ico\">";
    assert_eq!(
        html,
        expected_page(
            &config,
            favicon,
            "introduction/what-is-glowdoc",
            "",
            "HOME",
            "SIDEBAR",
            "CONTENT",
            2024,
            "INDEX",
            false
        )
    );
}

#[test]
fn page_without_navigation_links_to_the_default_page() {
    let builder = GlowDocBuilder::new();
    let config = sample_config(vec![]);
    let html = builder.generate_html(&config, "S", "C", "H", "I", true, false, 1999);
    assert_eq!(
        html,
        expected_page(&config, "", "introduction/what-is-glowdoc", "", "H", "S", "C", 1999, "I", true)
    );
    assert!(html.contains("new WebSocket('ws://localhost:8081')"));
    assert_eq!(builder.first_page_url(&vec![section("Empty", "empty", vec![])]), "introduction/what-is-glowdoc");
    assert_eq!(
        builder.first_page_url(&vec![section("S", "s", vec![folder("F", "f", vec![])])]),
        "s/f"
    );
}

#[test]
fn headers_are_read_from_the_pages_that_have_some() {
    let builder = GlowDocBuilder::new();
    let mut kept = page("Kept", "kept", "unreadable.md");
    kept.headers = Some(vec![HeaderItem { title: "Old".to_string(), id: "old".to_string(), level: 2 }]);
    let mut navigation = sample_navigation();
    navigation[1].items.push(kept);
    let updated = builder.extract_headers_and_update_navigation(navigation, &sample_sources());
    let first = &updated[0].items[0];
    let headers = first.headers.as_ref().unwrap();
    assert_eq!(headers.len(), 2);
    assert_eq!((headers[0].title.as_str(), headers[0].id.as_str(), headers[0].level), ("What is it?", "what-is-it", 1));
    assert_eq!((headers[1].title.as_str(), headers[1].id.as_str(), headers[1].level), ("Why", "why", 2));
    assert_eq!(first.title, "What is \"GlowDoc\"?");
    let nested = &updated[0].items[1];
    assert_eq!(nested.id, "deep-dive");
    assert!(nested.headers.is_none());
    assert_eq!(nested.items.len(), 2);
    assert!(nested.items[0].headers.is_none());
    assert_eq!(nested.items[0].file.as_deref(), Some("introduction/deep-dive/internals.md"));
    assert!(updated[1].items[0].headers.is_none());
    assert_eq!(updated[1].items[1].headers.as_ref().unwrap()[0].title, "Old");
    assert_eq!(updated.len(), 2);
}

#[test]
fn build_needs_an_entry_file() {
    let builder = GlowDocBuilder::new();
    let built = builder.build_with_hot_reload(sample_config(sample_navigation()), &sample_sources(), None, false, 0, true);
    assert_eq!(built, Err(BuildError::EntryMissing));
    assert_eq!(
        BuildError::EntryMissing.message("docs/entry.md"),
        "Entry file not found: docs/entry.md\n\nThe entry.md file is required for the homepage content.\nPlease create this file in your docs/ folder with your homepage markdown content."
    );
    assert_eq!(builder.load_homepage(None), Err(BuildError::EntryMissing));
    assert_eq!(builder.load_homepage(Some("*hi*")), Ok("<p><em>hi</em></p>\n".to_string()));
}

#[test]
fn build_generates_the_whole_page() {
    let builder = GlowDocBuilder::new();
    let sources = sample_sources();
    let built = builder
        .build_with_hot_reload(sample_config(sample_navigation()), &sources, Some("# Welcome"), false, 1_700_000_000, true)
        .unwrap();
    let config = sample_config(sample_navigation());
    let (content, index) = builder.generate_content(&config.navigation, &sources);
    let expected = expected_page(
        &config,
        "",
        "introduction/what-is-glowdoc",
        "",
        "<h1>Welcome</h1>\n",
        &expected_sidebar(),
        &content,
        2023,
        &index,
        true,
    );
    assert_eq!(built, expected);
    let plain = builder.build(sample_config(sample_navigation()), &sources, Some("# Welcome"), false, 1_700_000_000).unwrap();
    assert_eq!(plain, expected_page(&config, "", "introduction/what-is-glowdoc", "", "<h1>Welcome</h1>\n", &expected_sidebar(), &content, 2023, &index, false));
}

#[test]
fn sources_keep_the_last_text_under_a_name() {
    let mut sources = Sources::new();
    assert!(sources.get("a").is_none());
    sources.insert("a".to_string(), "one".to_string());
    sources.insert("a".to_string(), "two".to_string());
    assert_eq!(sources.get("a").map(|s| s.as_str()), Some("two"));
}
