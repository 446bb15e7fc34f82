use glowdoc::config_builder::{
    Config, ConfigBuilder, ConfigItem, ConfigOptions, DetectedConfig, DetectedItem,
    DetectedSection, OptionFlag, OptionsError, SocialLinks,
};
use glowdoc::detect::{file_stem, is_markdown_name, path_below, ScannedFile, ScannedFolder};
use glowdoc::interactive::{
    answer_or_default, parse_choice, parse_number, parse_order, Reordering,
};
use glowdoc::listing::name_not_after;
use glowdoc::reorder::{find_name, reorder_by_name, reversed};

fn args(items: &[&str]) -> Vec<String> {
    items.iter().map(|s| s.to_string()).collect()
}

fn parse(items: &[&str]) -> Result<ConfigOptions, OptionsError> {
    ConfigBuilder::parse_options(&args(items))
}

fn item(title: &str, id: &str, filename: &str, file: Option<&str>, items: Vec<DetectedItem>) -> DetectedItem {
    DetectedItem {
        title: title.to_string(),
        id: id.to_string(),
        file: file.map(|f| f.to_string()),
        original_filename: filename.to_string(),
        items,
    }
}

fn page(folder: &str, name: &str) -> DetectedItem {
    item(&name.to_uppercase(), name, &format!("{}.md", name), Some(&format!("{}/{}.md", folder, name)), vec![])
}

fn section(folder: &str, pages: &[&str]) -> DetectedSection {
    DetectedSection {
        title: folder.to_uppercase(),
        id: folder.to_string(),
        original_folder: folder.to_string(),
        items: pages.iter().map(|p| page(folder, p)).collect(),
    }
}

fn detected() -> DetectedConfig {
    DetectedConfig {
        title: "Documentation".to_string(),
        description: "Generated documentation site".to_string(),
        navigation: vec![
            section("advanced", &["plugins", "tuning"]),
            section("drafts", &["todo"]),
            section("intro", &["install", "config", "faq"]),
        ],
    }
}

fn ids(items: &[ConfigItem]) -> Vec<&str> {
    items.iter().map(|i| i.id.as_str()).collect()
}

fn section_ids(config: &Config) -> Vec<&str> {
    config.navigation.iter().map(|s| s.id.as_str()).collect()
}

#[test]
fn empty_command_line_asks_for_nothing() {
    let options = parse(&[]).unwrap();
    assert!(!options.has_options());
    assert_eq!(options.title, None);
    assert_eq!(options.description, None);
    assert_eq!(options.section_order, None);
    assert!(options.section_renames.is_empty());
    assert!(options.page_renames.is_empty());
    assert!(options.page_orders.is_empty());
    assert!(options.exclude_sections.is_empty());
    assert!(options.social.instagram.is_none() && options.social.threads.is_none());
    assert!(!ConfigOptions::default().has_options());
}

#[test]
fn every_option_takes_the_argument_after_it() {
    let options = parse(&[
        "--title", "My Docs",
        "--description", "About it",
        "--section-order", "intro, advanced ,drafts",
        "--rename-section", "intro=Start Here",
        "--rename-page", "intro/install.md=Install = Easy",
        "--page-order", "intro= faq.md ,install.md",
        "--exclude-section", "drafts",
        "--exclude-section", "old",
        "--instagram", "insta",
        "--github", "octo",
        "--mastodon", "https://m.example/@me",
        "--threads", "thr",
    ])
    .unwrap();
    assert!(options.has_options());
    assert_eq!(options.title.as_deref(), Some("My Docs"));
    assert_eq!(options.description.as_deref(), Some("About it"));
    assert_eq!(options.section_order, Some(args(&["intro", "advanced", "drafts"])));
    assert_eq!(options.section_renames.get("intro").map(|s| s.as_str()), Some("Start Here"));
    assert_eq!(options.section_renames.len(), 1);
    assert_eq!(
        options.page_renames.get("intro/install.md").map(|s| s.as_str()),
        Some("Install = Easy")
    );
    assert_eq!(options.page_orders.get("intro"), Some(&args(&["faq.md", "install.md"])));
    assert_eq!(options.exclude_sections, args(&["drafts", "old"]));
    assert_eq!(options.social.instagram.as_deref(), Some("insta"));
    assert_eq!(options.social.github.as_deref(), Some("octo"));
    assert_eq!(options.social.mastodon.as_deref(), Some("https://m.example/@me"));
    assert_eq!(options.social.threads.as_deref(), Some("thr"));
}

#[test]
fn unknown_arguments_are_passed_over_and_later_values_win() {
    let options = parse(&["build", "--title", "One", "--verbose", "--title", "Two", "last"]).unwrap();
    assert_eq!(options.title.as_deref(), Some("Two"));
    // The argument after an option is its value, whatever it looks like.
    let options = parse(&["--title", "--description", "x"]).unwrap();
    assert_eq!(options.title.as_deref(), Some("--description"));
    assert_eq!(options.description, None);
    let options = parse(&["--rename-section", "a=1", "--rename-section", "a=2"]).unwrap();
    assert_eq!(options.section_renames.get("a").map(|s| s.as_str()), Some("2"));
    assert!(parse(&["--github", "x"]).unwrap().has_options());
    assert!(parse(&["--exclude-section", "x"]).unwrap().has_options());
    assert!(!parse(&["x", "y"]).unwrap().has_options());
}

#[test]
fn option_without_a_value_is_an_error() {
    let cases = [
        ("--title", OptionFlag::Title, "--title requires a value"),
        ("--description", OptionFlag::Description, "--description requires a value"),
        ("--section-order", OptionFlag::SectionOrder, "--section-order requires a comma-separated list"),
        ("--rename-section", OptionFlag::RenameSection, "--rename-section requires a value"),
        ("--rename-page", OptionFlag::RenamePage, "--rename-page requires a value"),
        ("--page-order", OptionFlag::PageOrder, "--page-order requires a value"),
        ("--exclude-section", OptionFlag::ExcludeSection, "--exclude-section requires a value"),
        ("--instagram", OptionFlag::Instagram, "--instagram requires a value"),
        ("--github", OptionFlag::Github, "--github requires a value"),
        ("--mastodon", OptionFlag::Mastodon, "--mastodon requires a value"),
        ("--threads", OptionFlag::Threads, "--threads requires a value"),
    ];
    for (flag, name, message) in cases {
        let error = parse(&["--title", "ok", flag]).err().unwrap();
        assert_eq!(error, OptionsError::MissingValue(name));
        assert_eq!(error.message(), message);
    }
}

#[test]
fn value_without_equals_sign_is_an_error() {
    let cases = [
        ("--rename-section", OptionsError::RenameSectionFormat, "--rename-section requires format 'old=new'"),
        ("--rename-page", OptionsError::RenamePageFormat, "--rename-page requires format 'section/file.md=New Title'"),
        ("--page-order", OptionsError::PageOrderFormat, "--page-order requires format 'section=file1.md,file2.md'"),
    ];
    for (flag, expected, message) in cases {
        let error = parse(&[flag, "no equals sign", "--title", "never read"]).err().unwrap();
        assert_eq!(error, expected);
        assert_eq!(error.message(), message);
    }
    let options = parse(&["--rename-section", "=x", "--page-order", "a="]).unwrap();
    assert_eq!(options.section_renames.get("").map(|s| s.as_str()), Some("x"));
    assert_eq!(options.page_orders.get("a"), Some(&args(&[""])));
}

#[test]
fn help_is_asked_for_by_its_flag() {
    assert!(ConfigBuilder::wants_help(&args(&["--title", "x", "--help"])));
    assert!(!ConfigBuilder::wants_help(&args(&["--title", "x", "-help", "help"])));
    assert!(!ConfigBuilder::wants_help(&[]));
    let help = ConfigBuilder::help_text();
    assert!(help.starts_with("GlowDoc Configuration Builder\n============================\n\nUSAGE:\n"));
    assert!(help.contains("    --rename-section <OLD=NEW>         Rename a section\n"));
    assert!(help.contains("Example: --rename-section getting-started=\"Quick Start\"\n"));
    assert!(help.contains("    cargo run init-config \\\n        --title \"My Documentation\" \\\n"));
    assert!(help.ends_with("        --exclude-section drafts\n"));
    assert_eq!(help.lines().count(), 47);
}

#[test]
fn builder_remembers_its_folder() {
    assert_eq!(ConfigBuilder::new("docs").docs_path(), "docs");
    assert_eq!(ConfigBuilder::new("").docs_path(), "");
}

#[test]
fn titles_are_made_of_capitalized_words() {
    let builder = ConfigBuilder::new("docs");
    assert_eq!(builder.format_title("getting-started"), "Getting Started");
    assert_eq!(builder.format_title("hello_world-foo"), "Hello World Foo");
    assert_eq!(builder.format_title("API"), "Api");
    assert_eq!(builder.format_title("  many   spaces-- "), "Many Spaces");
    assert_eq!(builder.format_title(""), "");
    assert_eq!(builder.format_title("\u{df}eta \u{e9}cole"), "SSeta \u{c9}cole");
}

#[test]
fn ids_are_lower_case_words_joined_by_hyphens() {
    let builder = ConfigBuilder::new("docs");
    assert_eq!(builder.generate_id("Getting Started"), "getting-started");
    assert_eq!(builder.generate_id("  Hello, World! "), "hello-world");
    assert_eq!(builder.generate_id("_intro"), "intro");
    assert_eq!(builder.generate_id("a_b c"), "a-b-c");
    assert_eq!(builder.generate_id("a - b"), "a---b");
    assert_eq!(builder.generate_id("\u{c9}cole 42"), "\u{e9}cole-42");
    assert_eq!(builder.generate_id("!!!"), "");
}

#[test]
fn pages_are_counted_through_folders() {
    let builder = ConfigBuilder::new("docs");
    let items = vec![
        page("s", "a"),
        item("Folder", "f", "f", None, vec![page("s", "b"), item("Inner", "i", "i", None, vec![page("s", "c")])]),
        item("Both", "x", "x.md", Some("s/x.md"), vec![page("s", "d")]),
        item("Empty", "e", "e", None, vec![]),
    ];
    assert_eq!(builder.count_pages(&items), 5);
    assert_eq!(builder.count_pages(&vec![]), 0);
}

#[test]
fn detected_items_become_config_items() {
    let builder = ConfigBuilder::new("docs");
    let detected = item(
        "Folder",
        "folder",
        "folder",
        None,
        vec![page("s", "a"), item("Inner", "inner", "inner", None, vec![page("s", "b")])],
    );
    let config = builder.convert_detected_item_to_config(detected);
    assert_eq!(config.title, "Folder");
    assert_eq!(config.id, "folder");
    assert_eq!(config.file, None);
    assert_eq!(ids(&config.items), vec!["a", "inner"]);
    assert_eq!(config.items[0].file.as_deref(), Some("s/a.md"));
    assert_eq!(config.items[0].title, "A");
    assert_eq!(ids(&config.items[1].items), vec!["b"]);
    let many = builder.convert_items(vec![page("s", "x"), page("s", "y"), page("s", "z")]);
    assert_eq!(ids(&many), vec!["x", "y", "z"]);
}

#[test]
fn options_without_wishes_keep_what_was_detected() {
    let builder = ConfigBuilder::new("docs");
    let config = builder.apply_options(detected(), ConfigOptions::default());
    assert_eq!(config.title, "Documentation");
    assert_eq!(config.description, "Generated documentation site");
    assert_eq!(section_ids(&config), vec!["advanced", "drafts", "intro"]);
    assert_eq!(ids(&config.navigation[2].items), vec!["install", "config", "faq"]);
    assert!(config.social.github.is_none());
}

#[test]
fn options_rename_reorder_and_exclude() {
    let builder = ConfigBuilder::new("docs");
    let options = parse(&[
        "--title", "My Docs",
        "--description", "About it",
        "--rename-section", "intro=Start Here!",
        "--rename-section", "nowhere=Ignored",
        "--rename-page", "intro/faq.md=Questions & Answers",
        "--rename-page", "advanced/faq.md=Not there",
        "--page-order", "intro=faq.md,missing.md,install.md,faq.md",
        "--exclude-section", "drafts",
        "--section-order", "intro,drafts,nowhere",
        "--github", "octo",
    ])
    .unwrap();
    let config = builder.apply_options(detected(), options);
    assert_eq!(config.title, "My Docs");
    assert_eq!(config.description, "About it");
    assert_eq!(section_ids(&config), vec!["start-here", "advanced"]);
    let intro = &config.navigation[0];
    assert_eq!(intro.title, "Start Here!");
    assert_eq!(ids(&intro.items), vec!["questions--answers", "install", "config"]);
    assert_eq!(intro.items[0].title, "Questions & Answers");
    assert_eq!(intro.items[0].file.as_deref(), Some("intro/faq.md"));
    assert_eq!(intro.items[1].title, "INSTALL");
    assert_eq!(ids(&config.navigation[1].items), vec!["plugins", "tuning"]);
    assert_eq!(config.navigation[1].title, "ADVANCED");
    assert_eq!(config.social.github.as_deref(), Some("octo"));
}

#[test]
fn reordering_picks_the_first_entry_of_each_name() {
    let names = args(&["a", "b", "a", "c"]);
    assert_eq!(find_name(&names, "a"), 0);
    assert_eq!(find_name(&names, "c"), 3);
    assert_eq!(find_name(&names, "z"), 4);
    let order = args(&["c", "a", "z", "a", "a"]);
    assert_eq!(reorder_by_name(vec![1, 2, 3, 4], names, &order), vec![4, 1, 3, 2]);
    assert_eq!(reorder_by_name(vec![1, 2], args(&["a", "b"]), &vec![]), vec![1, 2]);
    assert_eq!(reversed(vec![1, 2, 3]), vec![3, 2, 1]);
}

fn file(name: &str, content: Option<&str>) -> ScannedFile {
    ScannedFile { name: name.to_string(), content: content.map(|c| c.to_string()) }
}

fn scanned() -> Vec<ScannedFolder> {
    vec![
        ScannedFolder {
            name: "assets".to_string(),
            files: vec![file("logo.png", None), file(".md", Some("# Hidden"))],
            folders: vec![ScannedFolder { name: "empty".to_string(), files: vec![], folders: vec![] }],
        },
        ScannedFolder {
            name: "getting-started".to_string(),
            files: vec![
                file("install.md", Some("Some text\n\n# Installing it \n")),
                file("notes.txt", Some("# Not markdown")),
                file("quick_start.md", None),
            ],
            folders: vec![
                ScannedFolder {
                    name: "deep_dive".to_string(),
                    files: vec![file("part-one.md", Some("no heading"))],
                    folders: vec![ScannedFolder {
                        name: "more".to_string(),
                        files: vec![file("x.y.md", Some("## only a sub heading"))],
                        folders: vec![],
                    }],
                },
                ScannedFolder { name: "images".to_string(), files: vec![file("a.png", None)], folders: vec![] },
            ],
        },
    ]
}

#[test]
fn markdown_files_are_told_by_their_extension() {
    assert!(is_markdown_name("a.md"));
    assert!(is_markdown_name("a.b.md"));
    assert!(is_markdown_name(".hidden.md"));
    assert!(!is_markdown_name(".md"));
    assert!(!is_markdown_name("md"));
    assert!(!is_markdown_name("a.MD"));
    assert!(!is_markdown_name("a.md.txt"));
    assert!(!is_markdown_name("a.mdx"));
    assert_eq!(file_stem("install.md"), "install");
    assert_eq!(file_stem("a.b.md"), "a.b");
    assert_eq!(file_stem("notes.txt"), "notes.txt");
    assert_eq!(file_stem("plain"), "plain");
    assert_eq!(path_below("", "a.md"), "a.md");
    assert_eq!(path_below("x/y", "a.md"), "x/y/a.md");
}

#[test]
fn structure_is_detected_from_the_listing() {
    let builder = ConfigBuilder::new("docs");
    let detected = builder.detect_structure(&scanned());
    assert_eq!(detected.title, "Documentation");
    assert_eq!(detected.description, "Generated documentation site");
    assert_eq!(detected.navigation.len(), 1);
    let section = &detected.navigation[0];
    assert_eq!(section.title, "Getting Started");
    assert_eq!(section.id, "getting-started");
    assert_eq!(section.original_folder, "getting-started");
    assert_eq!(section.items.len(), 3);

    let install = &section.items[0];
    assert_eq!(install.title, "Installing it");
    assert_eq!(install.id, "install");
    assert_eq!(install.file.as_deref(), Some("getting-started/install.md"));
    assert_eq!(install.original_filename, "install.md");
    assert!(install.items.is_empty());

    let quick = &section.items[1];
    assert_eq!(quick.title, "Quick Start");
    assert_eq!(quick.id, "quick-start");
    assert_eq!(quick.file.as_deref(), Some("getting-started/quick_start.md"));

    let deep = &section.items[2];
    assert_eq!(deep.title, "Deep Dive");
    assert_eq!(deep.id, "deep-dive");
    assert_eq!(deep.file, None);
    assert_eq!(deep.original_filename, "deep_dive");
    assert_eq!(deep.items.len(), 2);
    assert_eq!(deep.items[0].title, "Part One");
    assert_eq!(deep.items[0].id, "deep-dive-part-one");
    assert_eq!(deep.items[0].file.as_deref(), Some("getting-started/deep_dive/part-one.md"));
    let more = &deep.items[1];
    assert_eq!(more.title, "More");
    assert_eq!(more.id, "deep-dive-more");
    assert_eq!(more.items[0].title, "X.y");
    assert_eq!(more.items[0].id, "deep-dive-more-xy");
    assert_eq!(more.items[0].file.as_deref(), Some("getting-started/deep_dive/more/x.y.md"));
    assert_eq!(builder.count_pages(&section.items), 4);
}

#[test]
fn config_is_built_from_listing_and_options() {
    let builder = ConfigBuilder::new("docs");
    let options = parse(&["--title", "T", "--page-order", "getting-started=deep_dive"]).unwrap();
    let config = builder.build_config_with_options(&scanned(), options);
    assert_eq!(config.title, "T");
    assert_eq!(section_ids(&config), vec!["getting-started"]);
    assert_eq!(ids(&config.navigation[0].items), vec!["deep-dive", "install", "quick-start"]);
    let section = builder.detect_section(&scanned()[0]);
    assert!(section.items.is_empty());
    assert_eq!(section.title, "Assets");
}

#[test]
fn numerals_are_digits_with_an_optional_plus() {
    assert_eq!(parse_number("0"), Some(0));
    assert_eq!(parse_number("007"), Some(7));
    assert_eq!(parse_number("+12"), Some(12));
    assert_eq!(parse_number("18446744073709551615"), "18446744073709551615".parse::<usize>().ok());
    assert_eq!(parse_number("18446744073709551616"), "18446744073709551616".parse::<usize>().ok());
    assert_eq!(parse_number("99999999999999999999999"), None);
    for bad in ["", "+", "-1", "1 ", " 1", "1a", "++1", "1+", "\u{663}"] {
        assert_eq!(parse_number(bad), None);
        assert!(bad.parse::<usize>().is_err());
    }
}

#[test]
fn answers_are_trimmed_and_checked() {
    assert_eq!(answer_or_default("  My Site \n", "Documentation"), "My Site");
    assert_eq!(answer_or_default(" \n", "Documentation"), "Documentation");
    assert_eq!(parse_choice(" 3\n", 1, 4), Some(3));
    assert_eq!(parse_choice("1", 1, 4), Some(1));
    assert_eq!(parse_choice("4", 1, 4), Some(4));
    assert_eq!(parse_choice("0", 1, 4), None);
    assert_eq!(parse_choice("5", 1, 4), None);
    assert_eq!(parse_choice("two", 1, 4), None);
    assert_eq!(parse_choice("", 1, 4), None);
    assert_eq!(parse_order(" 2 1\t3 \n", 3), Some(vec![1, 0, 2]));
    assert_eq!(parse_order("1 1 1", 3), Some(vec![0, 0, 0]));
    assert_eq!(parse_order("1 2", 3), None);
    assert_eq!(parse_order("1 2 4", 3), None);
    assert_eq!(parse_order("0 1 2", 3), None);
    assert_eq!(parse_order("1 x 2", 3), None);
    assert_eq!(parse_order("", 0), Some(vec![]));
}

#[test]
fn pages_are_renamed_and_reordered_by_answers() {
    let builder = ConfigBuilder::new("docs");
    let mut items = vec![page("s", "a"), page("s", "b"), page("s", "c")];
    assert!(builder.rename_page(&mut items, 1, "Brand New"));
    assert_eq!(items[1].title, "Brand New");
    assert_eq!(items[1].id, "brand-new");
    assert_eq!(items[1].original_filename, "b.md");
    assert!(!builder.rename_page(&mut items, 1, "Brand New"));
    assert!(!builder.rename_page(&mut items, 3, "Nobody"));
    assert_eq!(items[0].title, "A");

    let (items, outcome) = builder.reorder_pages(items, "3 1 1");
    assert_eq!(outcome, Reordering::Reordered);
    assert_eq!(items.iter().map(|i| i.id.as_str()).collect::<Vec<_>>(), vec!["c", "a", "a"]);
    let (items, outcome) = builder.reorder_pages(items, "3 1");
    assert_eq!(outcome, Reordering::Invalid);
    assert_eq!(items.iter().map(|i| i.id.as_str()).collect::<Vec<_>>(), vec!["c", "a", "a"]);
    let (one, outcome) = builder.reorder_pages(vec![page("s", "a")], "1");
    assert_eq!(outcome, Reordering::TooFew);
    assert_eq!(one.len(), 1);
    let copy = builder.duplicate_item(&item("F", "f", "f", None, vec![page("s", "a")]));
    assert_eq!(copy.items[0].file.as_deref(), Some("s/a.md"));
    assert_eq!(copy.title, "F");
}

#[test]
fn sections_are_renamed_reordered_and_removed_by_answers() {
    let builder = ConfigBuilder::new("docs");
    let mut config = detected();
    assert!(builder.rename_section(&mut config, 0, "Expert Mode"));
    assert!(!builder.rename_section(&mut config, 3, "Nobody"));
    assert_eq!(config.navigation[0].title, "Expert Mode");
    assert_eq!(config.navigation[0].id, "expert-mode");
    assert_eq!(config.navigation[0].original_folder, "advanced");
    assert_eq!(builder.reorder_sections(&mut config, "3 2 1"), Reordering::Reordered);
    let folders: Vec<&str> = config.navigation.iter().map(|s| s.original_folder.as_str()).collect();
    assert_eq!(folders, vec!["intro", "drafts", "advanced"]);
    assert_eq!(config.navigation[0].items.len(), 3);
    assert_eq!(builder.reorder_sections(&mut config, "1 2"), Reordering::Invalid);
    let removed = builder.remove_section(&mut config, 1).unwrap();
    assert_eq!(removed.original_folder, "drafts");
    assert!(builder.remove_section(&mut config, 2).is_none());
    assert_eq!(config.navigation.len(), 2);
    assert_eq!(config.title, "Documentation");
    let mut single = DetectedConfig { title: "t".to_string(), description: "d".to_string(), navigation: vec![section("a", &[])] };
    assert_eq!(builder.reorder_sections(&mut single, "1"), Reordering::TooFew);
    let links = SocialLinks { instagram: None, github: None, mastodon: None, threads: None };
    assert!(links.clone().github.is_none());
}

#[test]
fn names_are_ordered_as_strings_are() {
    let names = ["", "a", "A", "ab", "abc", "b", "a-b", "a_b", "Z", "z", "\u{e9}", "e\u{301}", "\u{1f600}", "10", "9"];
    for a in names {
        for b in names {
            assert_eq!(name_not_after(a, b), a <= b);
        }
    }
}

#[test]
fn listing_keeps_files_and_folders_in_order() {
    let mut listing = ScannedFolder::new("docs".to_string());
    for name in ["b.md", "a.md", "c.md", "B.md", "a.md", "10.md", "9.md"] {
        listing.add_file(file(name, Some(name)));
    }
    let files: Vec<&str> = listing.files.iter().map(|f| f.name.as_str()).collect();
    assert_eq!(files, vec!["10.md", "9.md", "B.md", "a.md", "a.md", "b.md", "c.md"]);
    let mut sorted = files.clone();
    sorted.sort();
    assert_eq!(files, sorted);
    for name in ["zeta", "alpha", "mid"] {
        listing.add_folder(ScannedFolder::new(name.to_string()));
    }
    let folders: Vec<&str> = listing.folders.iter().map(|f| f.name.as_str()).collect();
    assert_eq!(folders, vec!["alpha", "mid", "zeta"]);
    assert_eq!(listing.name, "docs");
    assert_eq!(listing.files.len(), 7);
}
