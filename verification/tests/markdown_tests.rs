use glowdoc::css::desktop::generate_desktop_css;
use glowdoc::css::mobile::generate_mobile_css;
use glowdoc::css::{generate_css, theme_variables};
use glowdoc::javascript::generate_javascript;
use glowdoc::markdown::{
    add_header_ids_to_html, extract_headers_from_markdown, extract_title_from_markdown,
    headers_from_events, heading_with_id, render_homepage, render_page, slugify,
    title_from_events, weave_headings, MarkdownEvent, PlainHeading,
};
use glowdoc::text::{
    chars_of, contains_string, decimal, join, keep_nonempty, replace_char, split_once, split_str,
    split_trimmed, split_words, string_of, trim, trim_char,
};

fn strings(items: &[&str]) -> Vec<String> {
    items.iter().map(|s| s.to_string()).collect()
}

#[test]
fn slug_joins_runs_of_letters_and_numbers() {
    assert_eq!(slugify("Hello World!"), "hello-world");
    assert_eq!(slugify("  A--B  "), "a-b");
    assert_eq!(slugify("\u{dc}n\u{ef}code \u{c7}a 42"), "\u{fc}n\u{ef}code-\u{e7}a-42");
    assert_eq!(slugify("---"), "");
    assert_eq!(slugify(""), "");
    assert_eq!(slugify("What's New in v2.0?"), "what-s-new-in-v2-0");
}

#[test]
fn heading_gets_the_slug_of_its_text_as_id() {
    assert_eq!(heading_with_id("2", "Hello World"), "<h2 id=\"hello-world\">Hello World</h2>");
    assert_eq!(heading_with_id("1", "A & B"), "<h1 id=\"a-b\">A & B</h1>");
}

#[test]
fn page_is_rendered_and_its_plain_headings_get_ids() {
    assert_eq!(
        render_page("# Hello World\n\ntext\n\n## Second one\n"),
        "<h1 id=\"hello-world\">Hello World</h1>\n<p>text</p>\n<h2 id=\"second-one\">Second one</h2>\n"
    );
    // A heading with markup inside is left as it is.
    assert_eq!(render_page("# Hello *World*"), "<h1>Hello <em>World</em></h1>\n");
    assert_eq!(render_page("no heading"), "<p>no heading</p>\n");
}

#[test]
fn pages_are_read_with_the_extensions() {
    assert_eq!(render_page("~~gone~~"), "<p><del>gone</del></p>\n");
    assert_eq!(render_homepage("~~gone~~"), "<p><del>gone</del></p>\n");
    assert!(render_page("| a | b |\n|---|---|\n| 1 | 2 |\n").contains("<table>"));
    assert!(render_page("- [x] done\n").contains("type=\"checkbox\""));
    assert_eq!(render_homepage("# Home"), "<h1>Home</h1>\n");
}

#[test]
fn headers_are_the_headings_with_text() {
    let headers = extract_headers_from_markdown("# One\n\ntext\n\n## Two `code` words\n\n### \n\n###### Six\n");
    let seen: Vec<(&str, &str, u8)> =
        headers.iter().map(|h| (h.title.as_str(), h.id.as_str(), h.level)).collect();
    assert_eq!(seen, vec![("One", "one", 1), ("Two  words", "two-words", 2), ("Six", "six", 6)]);
    assert!(extract_headers_from_markdown("just text").is_empty());
}

#[test]
fn headers_from_events_follow_the_scan() {
    let events = vec![
        MarkdownEvent::Text("outside".to_string()),
        MarkdownEvent::HeadingStart(2),
        MarkdownEvent::Text("Get".to_string()),
        MarkdownEvent::Other,
        MarkdownEvent::Text("ting Started".to_string()),
        MarkdownEvent::HeadingEnd(2),
        MarkdownEvent::HeadingStart(3),
        MarkdownEvent::HeadingEnd(3),
        MarkdownEvent::Text("after".to_string()),
        MarkdownEvent::HeadingEnd(1),
    ];
    let headers = headers_from_events(&events);
    assert_eq!(headers.len(), 1);
    assert_eq!(headers[0].title, "Getting Started");
    assert_eq!(headers[0].id, "getting-started");
    assert_eq!(headers[0].level, 2);
}

#[test]
fn title_is_the_first_heading_of_the_first_level_with_text() {
    assert_eq!(extract_title_from_markdown("# Title\n\ntext"), Some("Title".to_string()));
    assert_eq!(
        extract_title_from_markdown("intro\n\n## Sub\n\n#  Real Title \n\n# Second"),
        Some("Real Title".to_string())
    );
    assert_eq!(extract_title_from_markdown("## Only a sub heading"), None);
    assert_eq!(extract_title_from_markdown(""), None);
    // Plain CommonMark: no strikethrough, so the tildes are text.
    assert_eq!(extract_title_from_markdown("# ~~x~~"), Some("~~x~~".to_string()));
}

#[test]
fn title_from_events_stops_at_the_first_title() {
    let events = vec![
        MarkdownEvent::HeadingStart(1),
        MarkdownEvent::Text("  ".to_string()),
        MarkdownEvent::HeadingEnd(1),
        MarkdownEvent::HeadingStart(1),
        MarkdownEvent::Text(" First".to_string()),
        MarkdownEvent::HeadingStart(2),
        MarkdownEvent::Text(" and more ".to_string()),
        MarkdownEvent::HeadingEnd(2),
        MarkdownEvent::HeadingEnd(1),
        MarkdownEvent::HeadingStart(1),
        MarkdownEvent::Text("Second".to_string()),
        MarkdownEvent::HeadingEnd(1),
    ];
    assert_eq!(title_from_events(&events), Some("First and more".to_string()));
    assert_eq!(title_from_events(&vec![]), None);
}

#[test]
fn text_helpers_split_trim_and_join() {
    assert_eq!(split_str("a,b,,c", ','), strings(&["a", "b", "", "c"]));
    assert_eq!(split_str("", ','), strings(&[""]));
    assert_eq!(split_str(",", ','), strings(&["", ""]));
    assert_eq!(split_trimmed(" a , b\t,c ", ','), strings(&["a", "b", "c"]));
    assert_eq!(split_once("a=b=c", '='), Some(("a".to_string(), "b=c".to_string())));
    assert_eq!(split_once("=x", '='), Some(("".to_string(), "x".to_string())));
    assert_eq!(split_once("abc", '='), None);
    assert_eq!(trim(" \t x y \n"), "x y");
    assert_eq!(trim("   "), "");
    assert_eq!(trim_char("--a-b--", '-'), "a-b");
    assert_eq!(trim_char("---", '-'), "");
    assert_eq!(join(&strings(&["a", "b", "c"]), ", "), "a, b, c");
    assert_eq!(join(&strings(&["a"]), ", "), "a");
    assert_eq!(join(&strings(&["", ""]), "-"), "-");
    assert_eq!(join(&vec![], ", "), "");
    assert_eq!(keep_nonempty(strings(&["", "a", "", "b", ""])), strings(&["a", "b"]));
    assert_eq!(split_words("  two\twords \n"), strings(&["two", "words"]));
    assert_eq!(split_words(" "), Vec::<String>::new());
    assert_eq!(replace_char("a/b/c", '/', "--"), "a--b--c");
    assert_eq!(replace_char("a\rb", '\r', ""), "ab");
    assert!(contains_string(&strings(&["a", "b"]), "b"));
    assert!(!contains_string(&strings(&["a", "b"]), "c"));
    assert_eq!(string_of(&chars_of("h\u{e9}llo")), "h\u{e9}llo");
    assert_eq!(decimal(0), "0");
    assert_eq!(decimal(1970), "1970");
    assert_eq!(decimal(u64::MAX), u64::MAX.to_string());
}

#[test]
fn style_sheet_is_theme_then_desktop_then_mobile() {
    let desktop = generate_desktop_css();
    let mobile = generate_mobile_css();
    assert!(desktop.starts_with("        * {\n            border-color: hsl(var(--border));"));
    assert!(mobile.starts_with("        @media (max-width: 768px) {"));
    for theme in ["purple", "vibrant", "default", "anything"] {
        let css = generate_css(theme);
        assert_eq!(css, format!("{}\n{}\n{}", theme_variables(theme), desktop, mobile));
    }
    assert!(theme_variables("purple").contains("--background: 310 100% 98%;"));
    assert!(theme_variables("vibrant").contains("--background: 45 100% 92%;"));
    assert_eq!(theme_variables("default"), theme_variables("no such theme"));
    assert_ne!(theme_variables("default"), theme_variables("purple"));
    assert_ne!(theme_variables("vibrant"), theme_variables("purple"));
}

#[test]
fn script_carries_the_reload_client_only_when_enabled() {
    let plain = generate_javascript(false);
    let hot = generate_javascript(true);
    assert!(plain.starts_with("\n        function toggleTheme() {"));
    assert!(plain.ends_with("        });"));
    assert!(!plain.contains("initHotReload"));
    assert!(hot.starts_with("\n        // Hot reload functionality"));
    assert!(hot.contains("if (event.data === 'reload') {"));
    assert!(hot.ends_with(&plain));
    assert_eq!(hot.len() - plain.len(), hot.find("\n        function toggleTheme() {").unwrap());
    assert!(plain.contains("function performSearch()"));
    assert!(plain.contains("function generateTableOfContents(contentElement)"));
    assert!(plain.contains("function loadFromUrl()"));
}

fn plain(level: &str, text: &str) -> PlainHeading {
    PlainHeading { level: level.to_string(), text: text.to_string() }
}

#[test]
fn gaps_and_headings_are_woven_in_turn() {
    let gaps = strings(&["<p>a</p>\n", "\n<p>b</p>\n", ""]);
    let headings = vec![plain("1", "First One"), plain("3", "Second")];
    assert_eq!(
        weave_headings(&gaps, &headings),
        "<p>a</p>\n<h1 id=\"first-one\">First One</h1>\n<p>b</p>\n<h3 id=\"second\">Second</h3>"
    );
    assert_eq!(weave_headings(&strings(&["only text"]), &vec![]), "only text");
    assert_eq!(weave_headings(&vec![], &vec![]), "");
    assert_eq!(weave_headings(&vec![], &vec![plain("2", "X")]), "<h2 id=\"x\">X</h2>");
    assert_eq!(weave_headings(&strings(&["a", "b", "c"]), &vec![plain("2", "X")]), "a<h2 id=\"x\">X</h2>bc");
}

#[test]
fn plain_headings_get_ids_wherever_they_stand() {
    assert_eq!(add_header_ids_to_html(""), "");
    assert_eq!(add_header_ids_to_html("no heading"), "no heading");
    assert_eq!(
        add_header_ids_to_html("<h2>Two Words</h2>"),
        "<h2 id=\"two-words\">Two Words</h2>"
    );
    assert_eq!(
        add_header_ids_to_html("a<h1>One</h1><h2>Two</h2>b<h7>no</h7><h3 class=\"x\">kept</h3><h4>Four</h5>"),
        "a<h1 id=\"one\">One</h1><h2 id=\"two\">Two</h2>b<h7>no</h7><h3 class=\"x\">kept</h3><h4 id=\"four\">Four</h4>"
    );
    for html in ["<h1>A</h1>", "x<h1>A</h1>", "<h1>A</h1>y", "<h1></h1>", "<h1>A<b>c</b></h1>", "<h1>\u{e9}t\u{e9}</h1>\u{1f525}<h2>B</h2>"] {
        let pattern = regex::Regex::new("<h([1-6])>([^<]+)</h[1-6]>").unwrap();
        let expected = pattern
            .replace_all(html, |found: &regex::Captures| heading_with_id(&found[1], &found[2]))
            .to_string();
        assert_eq!(add_header_ids_to_html(html), expected);
    }
}
