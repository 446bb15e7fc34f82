//! The configuration builder: from a scanned docs folder and the options of
//! the command line to the navigation config of a site.

use crate::text::{
    char_is_alphanumeric, char_to_uppercase, chars_of, each_trimmed, is_alphanumeric, join,
    join_with, lemma_strings_view_push, lowercase, push_char, replace_char, replace_each,
    split_on, split_once, split_once_on, split_trimmed, split_words, str_eq, string_of_range,
    strings_view, to_lowercase, trim_char, trim_leading, trim_trailing, uppercase_of, words_of,
};
use vstd::hash_map::StringHashMap;
use vstd::prelude::*;

verus! {

/// A page or a folder as the scan found it.
#[derive(Debug)]
pub struct DetectedItem {
    pub title: String,
    pub id: String,
    pub file: Option<String>,
    pub original_filename: String,
    pub items: Vec<DetectedItem>,
}

/// A top-level folder as the scan found it.
#[derive(Debug)]
pub struct DetectedSection {
    pub title: String,
    pub id: String,
    pub original_folder: String,
    pub items: Vec<DetectedItem>,
}

/// Everything the scan found.
#[derive(Debug)]
pub struct DetectedConfig {
    pub title: String,
    pub description: String,
    pub navigation: Vec<DetectedSection>,
}

/// A page or a folder of the finished config.
#[derive(Debug)]
pub struct ConfigItem {
    pub title: String,
    pub id: String,
    pub file: Option<String>,
    pub items: Vec<ConfigItem>,
}

/// A section of the finished config.
#[derive(Debug)]
pub struct ConfigSection {
    pub title: String,
    pub id: String,
    pub items: Vec<ConfigItem>,
}

/// The finished config.
#[derive(Debug)]
pub struct Config {
    pub title: String,
    pub description: String,
    pub navigation: Vec<ConfigSection>,
    pub social: SocialLinks,
}

/// The site's social-media links.
#[derive(Debug, Clone)]
pub struct SocialLinks {
    pub instagram: Option<String>,
    pub github: Option<String>,
    pub mastodon: Option<String>,
    pub threads: Option<String>,
}

/// What the command line asked for.
pub struct ConfigOptions {
    pub title: Option<String>,
    pub description: Option<String>,
    pub section_order: Option<Vec<String>>,
    /// From a section's folder to its new title.
    pub section_renames: StringHashMap<String>,
    /// From `section/file` to the page's new title.
    pub page_renames: StringHashMap<String>,
    /// From a section's folder to the order of its files.
    pub page_orders: StringHashMap<Vec<String>>,
    pub exclude_sections: Vec<String>,
    pub social: SocialLinks,
}

/// The characters of an optional string.
pub open spec fn text_of(s: Option<String>) -> Option<Seq<char>> {
    match s {
        Some(s) => Some(s@),
        None => None,
    }
}

/// [`SocialLinks`] over character sequences.
pub struct SocialView {
    pub instagram: Option<Seq<char>>,
    pub github: Option<Seq<char>>,
    pub mastodon: Option<Seq<char>>,
    pub threads: Option<Seq<char>>,
}

impl View for SocialLinks {
    type V = SocialView;

    open spec fn view(&self) -> SocialView {
        SocialView {
            instagram: text_of(self.instagram),
            github: text_of(self.github),
            mastodon: text_of(self.mastodon),
            threads: text_of(self.threads),
        }
    }
}

impl Default for SocialLinks {
    fn default() -> (links: Self)
        ensures
            links@ == (SocialView { instagram: None, github: None, mastodon: None, threads: None }),
    {
        SocialLinks { instagram: None, github: None, mastodon: None, threads: None }
    }
}

/// [`ConfigOptions`] over character sequences.
pub struct OptionsView {
    pub title: Option<Seq<char>>,
    pub description: Option<Seq<char>>,
    pub section_order: Option<Seq<Seq<char>>>,
    pub section_renames: Map<Seq<char>, Seq<char>>,
    pub page_renames: Map<Seq<char>, Seq<char>>,
    pub page_orders: Map<Seq<char>, Seq<Seq<char>>>,
    pub exclude_sections: Seq<Seq<char>>,
    pub social: SocialView,
}

impl View for ConfigOptions {
    type V = OptionsView;

    open spec fn view(&self) -> OptionsView {
        OptionsView {
            title: text_of(self.title),
            description: text_of(self.description),
            section_order: match self.section_order {
                Some(order) => Some(strings_view(order@)),
                None => None,
            },
            section_renames: self.section_renames@.map_values(|s: String| s@),
            page_renames: self.page_renames@.map_values(|s: String| s@),
            page_orders: self.page_orders@.map_values(|v: Vec<String>| strings_view(v@)),
            exclude_sections: strings_view(self.exclude_sections@),
            social: self.social@,
        }
    }
}

/// The options of an empty command line.
pub open spec fn no_options() -> OptionsView {
    OptionsView {
        title: None,
        description: None,
        section_order: None,
        section_renames: Map::empty(),
        page_renames: Map::empty(),
        page_orders: Map::empty(),
        exclude_sections: Seq::empty(),
        social: SocialView { instagram: None, github: None, mastodon: None, threads: None },
    }
}

impl Default for ConfigOptions {
    fn default() -> (options: Self)
        ensures
            options@ == no_options(),
    {
        let options = ConfigOptions {
            title: None,
            description: None,
            section_order: None,
            section_renames: StringHashMap::new(),
            page_renames: StringHashMap::new(),
            page_orders: StringHashMap::new(),
            exclude_sections: Vec::new(),
            social: SocialLinks::default(),
        };
        assert(options@.section_renames =~= Map::<Seq<char>, Seq<char>>::empty());
        assert(options@.page_renames =~= Map::<Seq<char>, Seq<char>>::empty());
        assert(options@.page_orders =~= Map::<Seq<char>, Seq<Seq<char>>>::empty());
        assert(options@.exclude_sections =~= Seq::<Seq<char>>::empty());
        options
    }
}

/// The options that take a value.
#[derive(Clone, Copy, Debug, PartialEq, Eq, Structural)]
pub enum OptionFlag {
    Title,
    Description,
    SectionOrder,
    RenameSection,
    RenamePage,
    PageOrder,
    ExcludeSection,
    Instagram,
    Github,
    Mastodon,
    Threads,
}

/// Why a command line was rejected.
#[derive(Clone, Copy, Debug, PartialEq, Eq, Structural)]
pub enum OptionsError {
    /// The option is the last argument: its value is missing.
    MissingValue(OptionFlag),
    /// The value of `--rename-section` holds no `=`.
    RenameSectionFormat,
    /// The value of `--rename-page` holds no `=`.
    RenamePageFormat,
    /// The value of `--page-order` holds no `=`.
    PageOrderFormat,
}

/// The option that an argument names, if any.
pub open spec fn flag_of(arg: Seq<char>) -> Option<OptionFlag> {
    if arg == "--title"@ {
        Some(OptionFlag::Title)
    } else if arg == "--description"@ {
        Some(OptionFlag::Description)
    } else if arg == "--section-order"@ {
        Some(OptionFlag::SectionOrder)
    } else if arg == "--rename-section"@ {
        Some(OptionFlag::RenameSection)
    } else if arg == "--rename-page"@ {
        Some(OptionFlag::RenamePage)
    } else if arg == "--page-order"@ {
        Some(OptionFlag::PageOrder)
    } else if arg == "--exclude-section"@ {
        Some(OptionFlag::ExcludeSection)
    } else if arg == "--instagram"@ {
        Some(OptionFlag::Instagram)
    } else if arg == "--github"@ {
        Some(OptionFlag::Github)
    } else if arg == "--mastodon"@ {
        Some(OptionFlag::Mastodon)
    } else if arg == "--threads"@ {
        Some(OptionFlag::Threads)
    } else {
        None
    }
}

/// A comma-separated list: its pieces, each without surrounding white space.
pub open spec fn list_of(value: Seq<char>) -> Seq<Seq<char>> {
    each_trimmed(split_on(value, ','))
}

/// The options after `flag` was given `value`, or why the value is refused.
/// A later value replaces an earlier one, but for excluded sections, which
/// add up.
pub open spec fn with_value(options: OptionsView, flag: OptionFlag, value: Seq<char>) -> Result<
    OptionsView,
    OptionsError,
> {
    match flag {
        OptionFlag::Title => Ok(OptionsView { title: Some(value), ..options }),
        OptionFlag::Description => Ok(OptionsView { description: Some(value), ..options }),
        OptionFlag::SectionOrder => Ok(
            OptionsView { section_order: Some(list_of(value)), ..options },
        ),
        OptionFlag::RenameSection => match split_once_on(value, '=') {
            Some((folder, title)) => Ok(
                OptionsView {
                    section_renames: options.section_renames.insert(folder, title),
                    ..options
                },
            ),
            None => Err(OptionsError::RenameSectionFormat),
        },
        OptionFlag::RenamePage => match split_once_on(value, '=') {
            Some((page, title)) => Ok(
                OptionsView { page_renames: options.page_renames.insert(page, title), ..options },
            ),
            None => Err(OptionsError::RenamePageFormat),
        },
        OptionFlag::PageOrder => match split_once_on(value, '=') {
            Some((folder, files)) => Ok(
                OptionsView {
                    page_orders: options.page_orders.insert(folder, list_of(files)),
                    ..options
                },
            ),
            None => Err(OptionsError::PageOrderFormat),
        },
        OptionFlag::ExcludeSection => Ok(
            OptionsView { exclude_sections: options.exclude_sections.push(value), ..options },
        ),
        OptionFlag::Instagram => Ok(
            OptionsView {
                social: SocialView { instagram: Some(value), ..options.social },
                ..options
            },
        ),
        OptionFlag::Github => Ok(
            OptionsView { social: SocialView { github: Some(value), ..options.social }, ..options },
        ),
        OptionFlag::Mastodon => Ok(
            OptionsView {
                social: SocialView { mastodon: Some(value), ..options.social },
                ..options
            },
        ),
        OptionFlag::Threads => Ok(
            OptionsView {
                social: SocialView { threads: Some(value), ..options.social },
                ..options
            },
        ),
    }
}

/// The options that the arguments from position `at` on add to `options`.
/// An argument that names no option is passed over; one that names an option
/// takes the argument after it as its value.
pub open spec fn parse_from(args: Seq<Seq<char>>, at: int, options: OptionsView) -> Result<
    OptionsView,
    OptionsError,
>
    decreases args.len() - at,
{
    if at < 0 || at >= args.len() {
        Ok(options)
    } else {
        match flag_of(args[at]) {
            None => parse_from(args, at + 1, options),
            Some(flag) => if at + 1 >= args.len() {
                Err(OptionsError::MissingValue(flag))
            } else {
                match with_value(options, flag, args[at + 1]) {
                    Ok(next) => parse_from(args, at + 2, next),
                    Err(e) => Err(e),
                }
            },
        }
    }
}

/// What a whole command line asks for.
pub open spec fn parsed(args: Seq<Seq<char>>) -> Result<OptionsView, OptionsError> {
    parse_from(args, 0, no_options())
}

/// The text of an error.
pub open spec fn message_of(error: OptionsError) -> Seq<char> {
    match error {
        OptionsError::MissingValue(OptionFlag::Title) => "--title requires a value"@,
        OptionsError::MissingValue(OptionFlag::Description) => "--description requires a value"@,
        OptionsError::MissingValue(OptionFlag::SectionOrder) =>
            "--section-order requires a comma-separated list"@,
        OptionsError::MissingValue(OptionFlag::RenameSection) =>
            "--rename-section requires a value"@,
        OptionsError::MissingValue(OptionFlag::RenamePage) => "--rename-page requires a value"@,
        OptionsError::MissingValue(OptionFlag::PageOrder) => "--page-order requires a value"@,
        OptionsError::MissingValue(OptionFlag::ExcludeSection) =>
            "--exclude-section requires a value"@,
        OptionsError::MissingValue(OptionFlag::Instagram) => "--instagram requires a value"@,
        OptionsError::MissingValue(OptionFlag::Github) => "--github requires a value"@,
        OptionsError::MissingValue(OptionFlag::Mastodon) => "--mastodon requires a value"@,
        OptionsError::MissingValue(OptionFlag::Threads) => "--threads requires a value"@,
        OptionsError::RenameSectionFormat => "--rename-section requires format 'old=new'"@,
        OptionsError::RenamePageFormat =>
            "--rename-page requires format 'section/file.md=New Title'"@,
        OptionsError::PageOrderFormat =>
            "--page-order requires format 'section=file1.md,file2.md'"@,
    }
}

impl OptionsError {
    /// The error as a sentence for the user.
    pub fn message(&self) -> (text: String)
        ensures
            text@ == message_of(*self),
    {
        let text: &'static str = match self {
            OptionsError::MissingValue(OptionFlag::Title) => "--title requires a value",
            OptionsError::MissingValue(OptionFlag::Description) =>
                "--description requires a value",
            OptionsError::MissingValue(OptionFlag::SectionOrder) =>
                "--section-order requires a comma-separated list",
            OptionsError::MissingValue(OptionFlag::RenameSection) =>
                "--rename-section requires a value",
            OptionsError::MissingValue(OptionFlag::RenamePage) => "--rename-page requires a value",
            OptionsError::MissingValue(OptionFlag::PageOrder) => "--page-order requires a value",
            OptionsError::MissingValue(OptionFlag::ExcludeSection) =>
                "--exclude-section requires a value",
            OptionsError::MissingValue(OptionFlag::Instagram) => "--instagram requires a value",
            OptionsError::MissingValue(OptionFlag::Github) => "--github requires a value",
            OptionsError::MissingValue(OptionFlag::Mastodon) => "--mastodon requires a value",
            OptionsError::MissingValue(OptionFlag::Threads) => "--threads requires a value",
            OptionsError::RenameSectionFormat => "--rename-section requires format 'old=new'",
            OptionsError::RenamePageFormat =>
                "--rename-page requires format 'section/file.md=New Title'",
            OptionsError::PageOrderFormat =>
                "--page-order requires format 'section=file1.md,file2.md'",
        };
        text.to_owned()
    }
}

/// The option that `arg` names, if any.
pub fn option_flag(arg: &str) -> (flag: Option<OptionFlag>)
    ensures
        flag == flag_of(arg@),
{
    if str_eq(arg, "--title") {
        Some(OptionFlag::Title)
    } else if str_eq(arg, "--description") {
        Some(OptionFlag::Description)
    } else if str_eq(arg, "--section-order") {
        Some(OptionFlag::SectionOrder)
    } else if str_eq(arg, "--rename-section") {
        Some(OptionFlag::RenameSection)
    } else if str_eq(arg, "--rename-page") {
        Some(OptionFlag::RenamePage)
    } else if str_eq(arg, "--page-order") {
        Some(OptionFlag::PageOrder)
    } else if str_eq(arg, "--exclude-section") {
        Some(OptionFlag::ExcludeSection)
    } else if str_eq(arg, "--instagram") {
        Some(OptionFlag::Instagram)
    } else if str_eq(arg, "--github") {
        Some(OptionFlag::Github)
    } else if str_eq(arg, "--mastodon") {
        Some(OptionFlag::Mastodon)
    } else if str_eq(arg, "--threads") {
        Some(OptionFlag::Threads)
    } else {
        None
    }
}

/// Inserting under a mapped view is inserting the mapped value.
proof fn lemma_insert_mapped<V, W>(m: Map<Seq<char>, V>, key: Seq<char>, value: V, f: spec_fn(V) -> W)
    ensures
        m.insert(key, value).map_values(f) == m.map_values(f).insert(key, f(value)),
{
    assert(m.insert(key, value).map_values(f) =~= m.map_values(f).insert(key, f(value)));
}

impl ConfigOptions {
    /// Gives `flag` the value `value`.
    pub fn set(&mut self, flag: OptionFlag, value: &str) -> (outcome: Result<(), OptionsError>)
        ensures
            match outcome {
                Ok(()) => with_value(old(self)@, flag, value@) == Ok::<OptionsView, OptionsError>(
                    final(self)@,
                ),
                Err(e) => with_value(old(self)@, flag, value@) == Err::<OptionsView, OptionsError>(
                    e,
                ) && final(self)@ == old(self)@,
            },
    {
        match flag {
            OptionFlag::Title => {
                self.title = Some(value.to_owned());
            },
            OptionFlag::Description => {
                self.description = Some(value.to_owned());
            },
            OptionFlag::SectionOrder => {
                self.section_order = Some(split_trimmed(value, ','));
            },
            OptionFlag::RenameSection => match split_once(value, '=') {
                Some((folder, title)) => {
                    proof {
                        lemma_insert_mapped(
                            self.section_renames@,
                            folder@,
                            title,
                            |s: String| s@,
                        );
                    }
                    self.section_renames.insert(folder, title);
                },
                None => {
                    return Err(OptionsError::RenameSectionFormat);
                },
            },
            OptionFlag::RenamePage => match split_once(value, '=') {
                Some((page, title)) => {
                    proof {
                        lemma_insert_mapped(self.page_renames@, page@, title, |s: String| s@);
                    }
                    self.page_renames.insert(page, title);
                },
                None => {
                    return Err(OptionsError::RenamePageFormat);
                },
            },
            OptionFlag::PageOrder => match split_once(value, '=') {
                Some((folder, files)) => {
                    let order = split_trimmed(files.as_str(), ',');
                    proof {
                        lemma_insert_mapped(
                            self.page_orders@,
                            folder@,
                            order,
                            |v: Vec<String>| strings_view(v@),
                        );
                    }
                    self.page_orders.insert(folder, order);
                },
                None => {
                    return Err(OptionsError::PageOrderFormat);
                },
            },
            OptionFlag::ExcludeSection => {
                let section = value.to_owned();
                proof {
                    lemma_strings_view_push(self.exclude_sections@, section);
                }
                self.exclude_sections.push(section);
            },
            OptionFlag::Instagram => {
                self.social.instagram = Some(value.to_owned());
            },
            OptionFlag::Github => {
                self.social.github = Some(value.to_owned());
            },
            OptionFlag::Mastodon => {
                self.social.mastodon = Some(value.to_owned());
            },
            OptionFlag::Threads => {
                self.social.threads = Some(value.to_owned());
            },
        }
        Ok(())
    }

    /// Whether the command line asked for anything at all.
    pub fn has_options(&self) -> (any: bool)
        ensures
            any == (self@.title is Some || self@.description is Some || self@.section_order
                is Some || !self@.section_renames.is_empty() || !self@.page_renames.is_empty()
                || !self@.page_orders.is_empty() || self@.exclude_sections.len() > 0
                || self@.social.instagram is Some || self@.social.github is Some
                || self@.social.mastodon is Some || self@.social.threads is Some),
    {
        proof {
            assert(self@.section_renames.dom() =~= self.section_renames@.dom());
            assert(self@.page_renames.dom() =~= self.page_renames@.dom());
            assert(self@.page_orders.dom() =~= self.page_orders@.dom());
        }
        self.title.is_some() || self.description.is_some() || self.section_order.is_some()
            || !self.section_renames.is_empty() || !self.page_renames.is_empty()
            || !self.page_orders.is_empty() || self.exclude_sections.len() > 0
            || self.social.instagram.is_some() || self.social.github.is_some()
            || self.social.mastodon.is_some() || self.social.threads.is_some()
    }
}

/// What the builder says of itself and of its options.
pub const HELP_TEXT: &'static str = r#"GlowDoc Configuration Builder
============================

USAGE:
    cargo run init-config [OPTIONS]

OPTIONS:
    --title <TITLE>                    Set the site title
    --description <DESC>               Set the site description
    --section-order <ORDER>            Comma-separated list of section folders in order
                                       Example: --section-order introduction,getting-started,advanced

    --rename-section <OLD=NEW>         Rename a section
                                       Example: --rename-section getting-started="Quick Start"

    --rename-page <PATH=TITLE>         Rename a page
                                       Example: --rename-page introduction/quick-start.md="Getting Started"

    --page-order <SECTION=FILES>       Set page order within a section
                                       Example: --page-order getting-started=installation.md,config.md

    --exclude-section <SECTION>        Exclude a section from the config
                                       Example: --exclude-section drafts

    --instagram <USERNAME>             Instagram username
    --github <USERNAME>                GitHub username
    --mastodon <URL>                   Mastodon profile URL
    --threads <USERNAME>               Threads username

    --help                             Show this help message

EXAMPLES:
    # Interactive mode
    cargo run init-config

    # Fully automated
    cargo run init-config \
        --title "My Documentation" \
        --description "Comprehensive guide" \
        --section-order introduction,setup,advanced \
        --rename-section setup="Quick Setup" \
        --page-order setup=install.md,configure.md

    # Auto-detect with some customizations
    cargo run init-config \
        --title "API Docs" \
        --exclude-section drafts
"#;

/// Builds a navigation config for one docs folder.
pub struct ConfigBuilder {
    docs_path: String,
}

impl ConfigBuilder {
    /// The docs folder that this builder works on.
    pub closed spec fn root(&self) -> Seq<char> {
        self.docs_path@
    }

    /// A builder for the docs folder at `docs_path`.
    pub fn new(docs_path: &str) -> (builder: Self)
        ensures
            builder.root() == docs_path@,
    {
        ConfigBuilder { docs_path: docs_path.to_owned() }
    }

    /// The docs folder that this builder works on.
    pub fn docs_path(&self) -> (path: &str)
        ensures
            path@ == self.root(),
    {
        self.docs_path.as_str()
    }

    /// The help for the command line.
    pub fn help_text() -> (text: String)
        ensures
            text@ == HELP_TEXT@,
    {
        HELP_TEXT.to_owned()
    }

    /// Whether the command line asks for help: one of its arguments is
    /// `--help`.
    pub fn wants_help(args: &[String]) -> (yes: bool)
        ensures
            yes == strings_view(args@).contains("--help"@),
    {
        let mut i: usize = 0;
        while i < args.len()
            invariant
                i <= args.len(),
                forall|j: int| 0 <= j < i ==> strings_view(args@)[j] != "--help"@,
            decreases args.len() - i,
        {
            assert(strings_view(args@)[i as int] == args[i as int]@);
            if str_eq(args[i].as_str(), "--help") {
                return true;
            }
            i += 1;
        }
        false
    }

    /// Reads the options of a command line. Arguments that name no option
    /// are passed over. An option that stands last, without a value, and a
    /// value that lacks the `=` that its option asks for, are errors.
    pub fn parse_options(args: &[String]) -> (outcome: Result<ConfigOptions, OptionsError>)
        ensures
            match outcome {
                Ok(options) => parsed(strings_view(args@)) == Ok::<OptionsView, OptionsError>(
                    options@,
                ),
                Err(e) => parsed(strings_view(args@)) == Err::<OptionsView, OptionsError>(e),
            },
    {
        let mut options = ConfigOptions::default();
        let mut i: usize = 0;
        while i < args.len()
            invariant
                parsed(strings_view(args@)) == parse_from(strings_view(args@), i as int, options@),
            decreases args.len() - i,
        {
            assert(strings_view(args@)[i as int] == args[i as int]@);
            match option_flag(args[i].as_str()) {
                None => {
                    i += 1;
                },
                Some(flag) => {
                    if i + 1 >= args.len() {
                        return Err(OptionsError::MissingValue(flag));
                    }
                    assert(strings_view(args@)[i + 1] == args[i + 1]@);
                    match options.set(flag, args[i + 1].as_str()) {
                        Ok(()) => {},
                        Err(e) => {
                            return Err(e);
                        },
                    }
                    i += 2;
                },
            }
        }
        Ok(options)
    }
}

/// A word with its first character in upper case and the rest in lower case.
pub open spec fn capitalized(word: Seq<char>) -> Seq<char> {
    if word.len() == 0 {
        word
    } else {
        uppercase_of(word[0]) + lowercase(word.drop_first())
    }
}

/// The title made from a file or folder name: hyphens and underscores become
/// spaces, and each word is capitalized.
pub open spec fn title_of(name: Seq<char>) -> Seq<char> {
    join_with(
        words_of(replace_each(replace_each(name, '-', " "@), '_', " "@)).map_values(
            |w: Seq<char>| capitalized(w),
        ),
        " "@,
    )
}

/// The characters of `s` that may stand in an id: letters, numbers and
/// hyphens.
pub open spec fn id_chars_of(s: Seq<char>) -> Seq<char>
    decreases s.len(),
{
    if s.len() == 0 {
        Seq::<char>::empty()
    } else if is_alphanumeric(s.last()) || s.last() == '-' {
        id_chars_of(s.drop_last()).push(s.last())
    } else {
        id_chars_of(s.drop_last())
    }
}

/// The id made from a name or a title: in lower case, with spaces and
/// underscores as hyphens, without any other punctuation, and without
/// hyphens at either end.
pub open spec fn id_of(name: Seq<char>) -> Seq<char> {
    trim_trailing(
        trim_leading(
            id_chars_of(replace_each(replace_each(lowercase(name), ' ', "-"@), '_', "-"@)),
            '-',
        ),
        '-',
    )
}

/// A page, or a folder of pages, without what only the scan needs.
pub struct ItemView {
    pub title: Seq<char>,
    pub id: Seq<char>,
    pub file: Option<Seq<char>>,
    pub items: Seq<ItemView>,
}

/// A section of the finished config.
pub struct SectionView {
    pub title: Seq<char>,
    pub id: Seq<char>,
    pub items: Seq<ItemView>,
}

/// The finished config.
pub struct ConfigView {
    pub title: Seq<char>,
    pub description: Seq<char>,
    pub navigation: Seq<SectionView>,
    pub social: SocialView,
}

/// A page or a folder as the scan found it.
pub struct DetectedItemView {
    pub title: Seq<char>,
    pub id: Seq<char>,
    pub file: Option<Seq<char>>,
    pub original_filename: Seq<char>,
    pub items: Seq<DetectedItemView>,
}

/// A top-level folder as the scan found it.
pub struct DetectedSectionView {
    pub title: Seq<char>,
    pub id: Seq<char>,
    pub original_folder: Seq<char>,
    pub items: Seq<DetectedItemView>,
}

/// Everything the scan found.
pub struct DetectedConfigView {
    pub title: Seq<char>,
    pub description: Seq<char>,
    pub navigation: Seq<DetectedSectionView>,
}

/// The view of a detected item: its texts, and the views of what is below it.
pub open spec fn detected_item_view(item: DetectedItem) -> DetectedItemView
    decreases item,
{
    DetectedItemView {
        title: item.title@,
        id: item.id@,
        file: text_of(item.file),
        original_filename: item.original_filename@,
        items: Seq::new(
            item.items@.len(),
            |i: int|
                if 0 <= i < item.items@.len() {
                    detected_item_view(item.items@[i])
                } else {
                    arbitrary()
                },
        ),
    }
}

impl View for DetectedItem {
    type V = DetectedItemView;

    open spec fn view(&self) -> DetectedItemView {
        detected_item_view(*self)
    }
}

/// The views of a sequence of detected items.
pub open spec fn detected_items_view(items: Seq<DetectedItem>) -> Seq<DetectedItemView> {
    items.map_values(|item: DetectedItem| item@)
}

impl View for DetectedSection {
    type V = DetectedSectionView;

    open spec fn view(&self) -> DetectedSectionView {
        DetectedSectionView {
            title: self.title@,
            id: self.id@,
            original_folder: self.original_folder@,
            items: detected_items_view(self.items@),
        }
    }
}

impl View for DetectedConfig {
    type V = DetectedConfigView;

    open spec fn view(&self) -> DetectedConfigView {
        DetectedConfigView {
            title: self.title@,
            description: self.description@,
            navigation: self.navigation@.map_values(|s: DetectedSection| s@),
        }
    }
}

/// The view of a config item: its texts, and the views of what is below it.
pub open spec fn config_item_view(item: ConfigItem) -> ItemView
    decreases item,
{
    ItemView {
        title: item.title@,
        id: item.id@,
        file: text_of(item.file),
        items: Seq::new(
            item.items@.len(),
            |i: int|
                if 0 <= i < item.items@.len() {
                    config_item_view(item.items@[i])
                } else {
                    arbitrary()
                },
        ),
    }
}

impl View for ConfigItem {
    type V = ItemView;

    open spec fn view(&self) -> ItemView {
        config_item_view(*self)
    }
}

/// The views of a sequence of config items.
pub open spec fn items_view(items: Seq<ConfigItem>) -> Seq<ItemView> {
    items.map_values(|item: ConfigItem| item@)
}

impl View for ConfigSection {
    type V = SectionView;

    open spec fn view(&self) -> SectionView {
        SectionView { title: self.title@, id: self.id@, items: items_view(self.items@) }
    }
}

impl View for Config {
    type V = ConfigView;

    open spec fn view(&self) -> ConfigView {
        ConfigView {
            title: self.title@,
            description: self.description@,
            navigation: self.navigation@.map_values(|s: ConfigSection| s@),
            social: self.social@,
        }
    }
}

/// The view of a detected item spells out the views of its children.
pub proof fn lemma_detected_item_view(item: DetectedItem)
    ensures
        item@.items == detected_items_view(item.items@),
{
    assert forall|i: int| 0 <= i < item.items@.len() implies #[trigger] item@.items[i]
        == detected_items_view(item.items@)[i] by {
        assert(detected_items_view(item.items@)[i] == item.items@[i]@);
    }
    assert(item@.items =~= detected_items_view(item.items@));
}

/// The view of a config item spells out the views of its children.
pub proof fn lemma_config_item_view(item: ConfigItem)
    ensures
        item@.items == items_view(item.items@),
{
    assert forall|i: int| 0 <= i < item.items@.len() implies #[trigger] item@.items[i]
        == items_view(item.items@)[i] by {
        assert(items_view(item.items@)[i] == item.items@[i]@);
    }
    assert(item@.items =~= items_view(item.items@));
}

/// How many pages a list of detected items holds, folders descended into.
pub open spec fn pages_in(items: Seq<DetectedItemView>) -> nat
    decreases items,
{
    if items.len() == 0 {
        0
    } else {
        pages_in(items.drop_last()) + pages_of(items.last())
    }
}

/// How many pages one detected item stands for: itself, if it has a file,
/// and the pages below it.
pub open spec fn pages_of(item: DetectedItemView) -> nat
    decreases item,
{
    (if item.file is Some {
        1nat
    } else {
        0nat
    }) + pages_in(item.items)
}

/// A detected item as an item of the finished config.
pub open spec fn converted(item: DetectedItemView) -> ItemView
    decreases item,
{
    ItemView {
        title: item.title,
        id: item.id,
        file: item.file,
        items: Seq::new(
            item.items.len(),
            |i: int|
                if 0 <= i < item.items.len() {
                    converted(item.items[i])
                } else {
                    arbitrary()
                },
        ),
    }
}

/// Each detected item as an item of the finished config.
pub open spec fn all_converted(items: Seq<DetectedItemView>) -> Seq<ItemView> {
    items.map_values(|item: DetectedItemView| converted(item))
}

/// A detected section as a section of the finished config.
pub open spec fn converted_section(section: DetectedSectionView) -> SectionView {
    SectionView { title: section.title, id: section.id, items: all_converted(section.items) }
}

impl ConfigBuilder {
    /// Makes a title from a file or folder name.
    pub fn format_title(&self, input: &str) -> (title: String)
        ensures
            title@ == title_of(input@),
    {
        let spaced = replace_char(replace_char(input, '-', " ").as_str(), '_', " ");
        let words = split_words(spaced.as_str());
        let mut titled: Vec<String> = Vec::new();
        let mut i: usize = 0;
        assert(strings_view(titled@) =~= strings_view(words@).take(0).map_values(
            |w: Seq<char>| capitalized(w),
        ));
        while i < words.len()
            invariant
                i <= words.len(),
                strings_view(titled@) == strings_view(words@).take(i as int).map_values(
                    |w: Seq<char>| capitalized(w),
                ),
            decreases words.len() - i,
        {
            let chars = chars_of(words[i].as_str());
            let word = if chars.len() == 0 {
                String::new()
            } else {
                let rest = string_of_range(&chars, 1, chars.len());
                assert(chars@.subrange(1, chars.len() as int) == chars@.drop_first());
                char_to_uppercase(chars[0]).concat(to_lowercase(rest.as_str()).as_str())
            };
            proof {
                assert(strings_view(words@)[i as int] == words[i as int]@);
                assert(word@ == capitalized(words[i as int]@));
                lemma_strings_view_push(titled@, word);
                assert(strings_view(words@).take(i + 1) == strings_view(words@).take(
                    i as int,
                ).push(words[i as int]@));
                assert(strings_view(words@).take(i + 1).map_values(|w: Seq<char>| capitalized(w))
                    =~= strings_view(words@).take(i as int).map_values(
                    |w: Seq<char>| capitalized(w),
                ).push(capitalized(words[i as int]@)));
            }
            titled.push(word);
            i += 1;
        }
        assert(strings_view(words@).take(i as int) == strings_view(words@));
        join(&titled, " ")
    }

    /// Makes an id from a name or a title.
    pub fn generate_id(&self, input: &str) -> (id: String)
        ensures
            id@ == id_of(input@),
    {
        let lower = to_lowercase(input);
        let hyphened = replace_char(replace_char(lower.as_str(), ' ', "-").as_str(), '_', "-");
        let chars = chars_of(hyphened.as_str());
        let mut kept = String::new();
        let mut i: usize = 0;
        assert(chars@.take(0) =~= Seq::<char>::empty());
        while i < chars.len()
            invariant
                i <= chars.len(),
                kept@ == id_chars_of(chars@.take(i as int)),
            decreases chars.len() - i,
        {
            assert(chars@.take(i + 1).drop_last() == chars@.take(i as int));
            if char_is_alphanumeric(chars[i]) || chars[i] == '-' {
                push_char(&mut kept, chars[i]);
            }
            i += 1;
        }
        assert(chars@.take(i as int) == chars@);
        trim_char(kept.as_str(), '-')
    }

    /// Counts the pages among `items`, folders descended into. The count
    /// stops at the largest number that fits.
    pub fn count_pages(&self, items: &Vec<DetectedItem>) -> (count: usize)
        ensures
            count == if pages_in(detected_items_view(items@)) <= usize::MAX {
                pages_in(detected_items_view(items@))
            } else {
                usize::MAX as nat
            },
        decreases items,
    {
        let mut count: usize = 0;
        let mut i: usize = 0;
        assert(detected_items_view(items@).take(0) =~= Seq::<DetectedItemView>::empty());
        while i < items.len()
            invariant
                i <= items.len(),
                count == if pages_in(detected_items_view(items@).take(i as int)) <= usize::MAX {
                    pages_in(detected_items_view(items@).take(i as int))
                } else {
                    usize::MAX as nat
                },
            decreases items.len() - i,
        {
            let below = self.count_pages(&items[i].items);
            proof {
                let upto = detected_items_view(items@).take(i + 1);
                assert(upto.drop_last() == detected_items_view(items@).take(i as int));
                assert(upto.last() == items[i as int]@);
                lemma_detected_item_view(items[i as int]);
                assert(pages_in(upto) == pages_in(upto.drop_last()) + pages_of(upto.last()));
                assert(pages_of(items[i as int]@) == (if items[i as int].file is Some {
                    1nat
                } else {
                    0nat
                }) + pages_in(detected_items_view(items[i as int].items@)));
            }
            if items[i].file.is_some() {
                count = count.saturating_add(1);
            }
            count = count.saturating_add(below);
            i += 1;
        }
        assert(detected_items_view(items@).take(i as int) == detected_items_view(items@));
        count
    }

    /// Turns a detected item, with all that is below it, into an item of the
    /// finished config.
    pub fn convert_detected_item_to_config(&self, item: DetectedItem) -> (config_item: ConfigItem)
        ensures
            config_item@ == converted(item@),
        decreases item,
    {
        let ghost whole = item;
        let DetectedItem { title, id, file, original_filename: _, items } = item;
        let children = self.convert_items(items);
        let config_item = ConfigItem { title, id, file, items: children };
        proof {
            lemma_detected_item_view(whole);
            lemma_config_item_view(config_item);
            assert(config_item@.items =~= converted(whole@).items);
        }
        config_item
    }

    /// Turns each detected item into an item of the finished config.
    pub fn convert_items(&self, items: Vec<DetectedItem>) -> (config_items: Vec<ConfigItem>)
        ensures
            items_view(config_items@) == all_converted(detected_items_view(items@)),
        decreases items,
    {
        let ghost all = items@;
        let mut rest = items;
        let mut config_items: Vec<ConfigItem> = Vec::new();
        while rest.len() > 0
            invariant
                all == items@,
                rest.len() <= all.len(),
                rest@ == all.take(rest.len() as int),
                items_view(config_items@).len() + rest.len() == all.len(),
                forall|j: int|
                    rest.len() <= j < all.len() ==> #[trigger] items_view(config_items@)[all.len()
                        - 1 - j] == converted(all[j]@),
            decreases rest.len(),
        {
            let ghost done = config_items@;
            let item = rest.pop().unwrap();
            assert(item == items@[rest.len() as int]);
            let config_item = self.convert_detected_item_to_config(item);
            config_items.push(config_item);
            assert forall|j: int| rest.len() <= j < all.len() implies #[trigger] items_view(
                config_items@,
            )[all.len() - 1 - j] == converted(all[j]@) by {
                if j > rest.len() {
                    assert(items_view(config_items@)[all.len() - 1 - j] == items_view(done)[all.len()
                        - 1 - j]);
                }
            }
        }
        let ghost backwards = config_items@;
        let mut forwards: Vec<ConfigItem> = Vec::new();
        while config_items.len() > 0
            invariant
                config_items@ == backwards.take(config_items.len() as int),
                forwards.len() + config_items.len() == backwards.len(),
                forall|j: int|
                    0 <= j < forwards.len() ==> #[trigger] forwards[j] == backwards[backwards.len()
                        - 1 - j],
            decreases config_items.len(),
        {
            let config_item = config_items.pop().unwrap();
            forwards.push(config_item);
        }
        assert(items_view(forwards@) =~= all_converted(detected_items_view(all))) by {
            assert forall|j: int| 0 <= j < all.len() implies items_view(forwards@)[j]
                == all_converted(detected_items_view(all))[j] by {
                assert(forwards[j] == backwards[backwards.len() - 1 - j]);
                assert(items_view(backwards)[all.len() - 1 - j] == converted(all[j]@));
            }
        }
        forwards
    }
}

} // verus!
