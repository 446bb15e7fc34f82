use glowdoc::config_builder::ConfigBuilder;
use glowdoc::detect::{file_stem, is_markdown_name};
use glowdoc::http::{get_content_type, route, Route};
use glowdoc::interactive::{answer_or_default, parse_number};
use glowdoc::markdown::slugify;
use glowdoc::text::{replace_char, split_str, split_trimmed, split_words, trim, trim_char};

const SAMPLES: [&str; 40] = [
    "",
    " ",
    "a",
    "Getting Started",
    "getting-started",
    "hello_world-foo",
    "  padded  ",
    "\tTabs\tand\nlines\r\n",
    "--leading--and--trailing--",
    "__init__",
    "a.b.c",
    ".hidden",
    ".md",
    "README.md",
    "photo.JPG",
    "archive.tar.GZ",
    "docs/",
    "/docs/a/b.png",
    "///x",
    "no extension",
    "UPPER lower MiXeD",
    "\u{c9}cole \u{e0} la carte",
    "stra\u{df}e",
    "\u{130}stanbul",
    "\u{3a3}\u{3a3}\u{3a3}",
    "\u{3a0}\u{3b1}\u{3c3}",
    "file.\u{212a}ml",
    "x.\u{212a}",
    "\u{1f525} fire emoji",
    "\u{4e2d}\u{6587}-\u{6587}\u{6863}",
    "a\u{a0}b",
    "\u{2003}em space\u{2003}",
    "1,2, 3 ,4",
    ",,",
    "key=value=more",
    "=",
    "What's New in v2.0?",
    "tab\tseparated",
    "q\"uote\\slash",
    "1234567890",
];

#[test]
fn slugs_agree_with_the_standard_library() {
    for text in SAMPLES {
        let expected = text
            .to_lowercase()
            .chars()
            .map(|c| if c.is_alphanumeric() { c } else { '-' })
            .collect::<String>()
            .split('-')
            .filter(|s| !s.is_empty())
            .collect::<Vec<&str>>()
            .join("-");
        assert_eq!(slugify(text), expected);
    }
}

#[test]
fn ids_agree_with_the_standard_library() {
    let builder = ConfigBuilder::new("docs");
    for text in SAMPLES {
        let expected = text
            .to_lowercase()
            .replace(' ', "-")
            .replace('_', "-")
            .chars()
            .filter(|c| c.is_alphanumeric() || *c == '-')
            .collect::<String>()
            .trim_matches('-')
            .to_string();
        assert_eq!(builder.generate_id(text), expected);
    }
}

#[test]
fn titles_agree_with_the_standard_library() {
    let builder = ConfigBuilder::new("docs");
    for text in SAMPLES {
        let expected = text
            .replace('-', " ")
            .replace('_', " ")
            .split_whitespace()
            .map(|word| {
                let mut chars = word.chars();
                match chars.next() {
                    None => String::new(),
                    Some(first) => {
                        first.to_uppercase().collect::<String>() + &chars.as_str().to_lowercase()
                    }
                }
            })
            .collect::<Vec<_>>()
            .join(" ");
        assert_eq!(builder.format_title(text), expected);
    }
}

#[test]
fn content_types_follow_the_extension_in_any_case() {
    let known = [
        "jpg", "jpeg", "png", "gif", "svg", "webp", "ico", "bmp", "tiff", "tif", "html", "htm",
        "css", "js", "mjs", "json", "xml", "txt", "md", "yaml", "yml", "pdf", "doc", "docx",
        "mp3", "wav", "ogg", "m4a", "mp4", "webm", "mov", "avi", "zip", "tar", "gz", "woff",
        "woff2", "ttf", "otf", "eot",
    ];
    let mut paths: Vec<String> = SAMPLES.iter().map(|s| s.to_string()).collect();
    for ext in known {
        paths.push(format!("docs/file.{}", ext));
        paths.push(format!("docs/file.{}", ext.to_uppercase()));
        paths.push(format!("docs/file.{}x", ext));
        paths.push(ext.to_string());
    }
    for path in &paths {
        // A name without a dot has no extension, and so no known type.
        let extension = match path.rfind('.') {
            Some(dot) => path[dot + 1..].to_lowercase(),
            None => String::new(),
        };
        let expected = known.contains(&extension.as_str());
        let got = get_content_type(path);
        assert_eq!(got != "application/octet-stream", expected);
        if expected {
            assert_eq!(got, get_content_type(&format!("x.{}", extension)));
        }
    }
}

#[test]
fn routes_agree_with_the_standard_library() {
    for path in SAMPLES {
        let asset = path.starts_with("/docs/") || path.contains('.');
        match route(path) {
            Route::Artifact => assert!(!asset),
            Route::Asset { file_path } => {
                assert!(asset);
                let clean = path.trim_start_matches('/');
                let expected = if clean.starts_with("docs/") {
                    clean.to_string()
                } else {
                    format!("docs/{}", clean)
                };
                assert_eq!(file_path, expected);
            }
        }
    }
}

#[test]
fn text_helpers_agree_with_the_standard_library() {
    for text in SAMPLES {
        assert_eq!(trim(text), text.trim());
        assert_eq!(trim_char(text, '-'), text.trim_matches('-'));
        assert_eq!(trim_char(text, '/'), text.trim_matches('/'));
        assert_eq!(split_str(text, ','), text.split(',').map(|s| s.to_string()).collect::<Vec<_>>());
        assert_eq!(split_str(text, '-'), text.split('-').map(|s| s.to_string()).collect::<Vec<_>>());
        assert_eq!(
            split_trimmed(text, ','),
            text.split(',').map(|s| s.trim().to_string()).collect::<Vec<_>>()
        );
        assert_eq!(
            split_words(text),
            text.split_whitespace().map(|s| s.to_string()).collect::<Vec<_>>()
        );
        assert_eq!(replace_char(text, '-', " "), text.replace('-', " "));
        assert_eq!(replace_char(text, '"', "\\\""), text.replace('"', "\\\""));
        assert_eq!(replace_char(text, '\r', ""), text.replace('\r', ""));
        assert_eq!(parse_number(text), text.parse::<usize>().ok());
        let trimmed = text.trim();
        let expected = if trimmed.is_empty() { "fallback" } else { trimmed };
        assert_eq!(answer_or_default(text, "fallback"), expected);
    }
}

#[test]
fn file_names_agree_with_the_standard_library() {
    for name in SAMPLES {
        if name.contains('/') || name.is_empty() {
            continue;
        }
        let path = std::path::Path::new(name);
        let expected = path.extension().map_or(false, |ext| ext == "md");
        assert_eq!(is_markdown_name(name), expected);
        assert_eq!(file_stem(name), name.strip_suffix(".md").unwrap_or(name));
    }
}
