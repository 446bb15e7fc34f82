//! The content of the generated page: one section for every page of the
//! navigation, and the index that the search runs on.

use crate::markdown::{markdown_html, render_page, with_heading_ids, PAGE_OPTIONS};
use crate::sidebar::{class_of, path_of, ACTIVE_CLASS, NO_CLASS, PATH_SEPARATOR};
use crate::site::{
    lemma_nav_item_view, nav_items_view, nav_sections_view, GlowDocBuilder, NavItemView,
    NavSectionView, NavigationItem, NavigationSection, Sources,
};
use crate::text::{chars_of, push_char, replace_char, replace_each, str_eq, string_of_range};
use vstd::prelude::*;

verus! {

/// A content section, up to its further class.
pub const CONTENT_OPEN: &'static str = "\n            <section class=\"content-section";

/// From a content section's class to its id.
pub const CONTENT_ID: &'static str = "\" id=\"";

/// From a content section's id to its body.
pub const CONTENT_BODY: &'static str = "\">\n                ";

/// The closing of a content section.
pub const CONTENT_CLOSE: &'static str = "\n            </section>";

/// From a content section's id to the name of the file that could not be read.
pub const CONTENT_ERROR_BODY: &'static str = "\">\n                <p>Error loading content: ";

/// The closing of a content section that reports an error.
pub const CONTENT_ERROR_CLOSE: &'static str = "</p>\n            </section>";

/// The opening of the search index.
pub const SEARCH_OPEN: &'static str = "const searchIndex = {\n";

/// The closing of the search index.
pub const SEARCH_CLOSE: &'static str = "};\n";

/// A search entry, up to its key.
pub const ENTRY_OPEN: &'static str = "    \"";

/// From a search entry's key to its title.
pub const ENTRY_TITLE: &'static str = "\": {\n        \"title\": \"";

/// From a search entry's title to its section.
pub const ENTRY_SECTION: &'static str = "\",\n        \"section\": \"";

/// From a search entry's section to its content.
pub const ENTRY_CONTENT: &'static str = "\",\n        \"content\": \"";

/// The closing of a search entry.
pub const ENTRY_CLOSE: &'static str = "\"\n    },\n";

/// From a search entry's section to its end, where the content could not be read.
pub const ENTRY_ERROR_CLOSE: &'static str =
    "\",\n        \"content\": \"Error loading content\"\n    },\n";

/// `s` with a backslash before every double quote.
pub open spec fn quoted_of(s: Seq<char>) -> Seq<char> {
    replace_each(s, '"', "\\\""@)
}

/// The text of a page as it stands in the search index: backslashes and
/// double quotes escaped, line feeds written as `\n`, carriage returns
/// dropped.
pub open spec fn escaped_of(raw: Seq<char>) -> Seq<char> {
    replace_each(
        replace_each(replace_each(replace_each(raw, '\\', "\\\\"@), '"', "\\\""@), '\n', "\\n"@),
        '\r',
        ""@,
    )
}

/// The content section of a page whose file was read.
pub open spec fn content_section_of(class: Seq<char>, path: Seq<char>, body: Seq<char>) -> Seq<
    char,
> {
    CONTENT_OPEN@ + class + CONTENT_ID@ + path + CONTENT_BODY@ + body + CONTENT_CLOSE@
}

/// The content section of a page whose file could not be read.
pub open spec fn content_error_of(class: Seq<char>, path: Seq<char>, file: Seq<char>) -> Seq<
    char,
> {
    CONTENT_OPEN@ + class + CONTENT_ID@ + path + CONTENT_ERROR_BODY@ + file + CONTENT_ERROR_CLOSE@
}

/// The search entry of a page whose file was read.
pub open spec fn search_entry_of(
    path: Seq<char>,
    title: Seq<char>,
    section_title: Seq<char>,
    raw: Seq<char>,
) -> Seq<char> {
    ENTRY_OPEN@ + path + ENTRY_TITLE@ + quoted_of(title) + ENTRY_SECTION@ + quoted_of(
        section_title,
    ) + ENTRY_CONTENT@ + escaped_of(raw) + ENTRY_CLOSE@
}

/// The search entry of a page whose file could not be read.
pub open spec fn search_error_of(path: Seq<char>, title: Seq<char>, section_title: Seq<char>) -> Seq<
    char,
> {
    ENTRY_OPEN@ + path + ENTRY_TITLE@ + quoted_of(title) + ENTRY_SECTION@ + quoted_of(
        section_title,
    ) + ENTRY_ERROR_CLOSE@
}

/// The content section of an item itself: none for a folder.
pub open spec fn own_content_of(
    item: NavItemView,
    class: Seq<char>,
    prefix: Seq<char>,
    sources: Map<Seq<char>, Seq<char>>,
) -> Seq<char> {
    match item.file {
        Some(file) => if sources.contains_key(file) {
            content_section_of(
                class,
                path_of(prefix, item.id),
                with_heading_ids(markdown_html(sources[file], PAGE_OPTIONS)),
            )
        } else {
            content_error_of(class, path_of(prefix, item.id), file)
        },
        None => Seq::<char>::empty(),
    }
}

/// The search entry of an item itself: none for a folder.
pub open spec fn own_entry_of(
    item: NavItemView,
    section_title: Seq<char>,
    prefix: Seq<char>,
    sources: Map<Seq<char>, Seq<char>>,
) -> Seq<char> {
    match item.file {
        Some(file) => if sources.contains_key(file) {
            search_entry_of(path_of(prefix, item.id), item.title, section_title, sources[file])
        } else {
            search_error_of(path_of(prefix, item.id), item.title, section_title)
        },
        None => Seq::<char>::empty(),
    }
}

/// The content sections of an item and of all that is below it.
pub open spec fn item_content_of(
    item: NavItemView,
    class: Seq<char>,
    prefix: Seq<char>,
    sources: Map<Seq<char>, Seq<char>>,
) -> Seq<char>
    decreases item,
{
    own_content_of(item, class, prefix, sources) + items_content_of(
        item.items,
        path_of(prefix, item.id),
        sources,
    )
}

/// The content sections of the items of a folder, in order.
pub open spec fn items_content_of(
    items: Seq<NavItemView>,
    prefix: Seq<char>,
    sources: Map<Seq<char>, Seq<char>>,
) -> Seq<char>
    decreases items,
{
    if items.len() == 0 {
        Seq::<char>::empty()
    } else {
        items_content_of(items.drop_last(), prefix, sources) + item_content_of(
            items.last(),
            NO_CLASS@,
            prefix,
            sources,
        )
    }
}

/// The search entries of an item and of all that is below it.
pub open spec fn item_entries_of(
    item: NavItemView,
    section_title: Seq<char>,
    prefix: Seq<char>,
    sources: Map<Seq<char>, Seq<char>>,
) -> Seq<char>
    decreases item,
{
    own_entry_of(item, section_title, prefix, sources) + items_entries_of(
        item.items,
        section_title,
        path_of(prefix, item.id),
        sources,
    )
}

/// The search entries of the items of a folder, in order.
pub open spec fn items_entries_of(
    items: Seq<NavItemView>,
    section_title: Seq<char>,
    prefix: Seq<char>,
    sources: Map<Seq<char>, Seq<char>>,
) -> Seq<char>
    decreases items,
{
    if items.len() == 0 {
        Seq::<char>::empty()
    } else {
        items_entries_of(items.drop_last(), section_title, prefix, sources) + item_entries_of(
            items.last(),
            section_title,
            prefix,
            sources,
        )
    }
}

/// The content sections of a section's own items, in order.
pub open spec fn section_content_of(
    items: Seq<NavItemView>,
    section_id: Seq<char>,
    leading: bool,
    sources: Map<Seq<char>, Seq<char>>,
) -> Seq<char>
    decreases items.len(),
{
    if items.len() == 0 {
        Seq::<char>::empty()
    } else {
        section_content_of(items.drop_last(), section_id, leading, sources) + item_content_of(
            items.last(),
            class_of(leading, items.len() - 1, items.last()),
            section_id,
            sources,
        )
    }
}

/// The content sections of the sections, in order. `first_id` is the id of
/// the first section.
pub open spec fn navigation_content_of(
    sections: Seq<NavSectionView>,
    first_id: Seq<char>,
    sources: Map<Seq<char>, Seq<char>>,
) -> Seq<char>
    decreases sections.len(),
{
    if sections.len() == 0 {
        Seq::<char>::empty()
    } else {
        navigation_content_of(sections.drop_last(), first_id, sources) + section_content_of(
            sections.last().items,
            sections.last().id,
            sections.last().id == first_id,
            sources,
        )
    }
}

/// The search entries of the sections, in order.
pub open spec fn navigation_entries_of(
    sections: Seq<NavSectionView>,
    sources: Map<Seq<char>, Seq<char>>,
) -> Seq<char>
    decreases sections.len(),
{
    if sections.len() == 0 {
        Seq::<char>::empty()
    } else {
        navigation_entries_of(sections.drop_last(), sources) + items_entries_of(
            sections.last().items,
            sections.last().title,
            sections.last().id,
            sources,
        )
    }
}

/// The content of a site with this navigation.
pub open spec fn content_of(
    navigation: Seq<NavSectionView>,
    sources: Map<Seq<char>, Seq<char>>,
) -> Seq<char> {
    if navigation.len() == 0 {
        Seq::<char>::empty()
    } else {
        navigation_content_of(navigation, navigation[0].id, sources)
    }
}

/// An index without the separator after its last entry: where `s` ends in a
/// comma and a line feed, only the line feed stays.
pub open spec fn without_last_separator(s: Seq<char>) -> Seq<char> {
    if s.len() >= 2 && s[s.len() - 2] == ',' && s[s.len() - 1] == '\n' {
        s.subrange(0, s.len() - 2).push('\n')
    } else {
        s
    }
}

/// The search index of a site with this navigation.
pub open spec fn search_index_of(
    navigation: Seq<NavSectionView>,
    sources: Map<Seq<char>, Seq<char>>,
) -> Seq<char> {
    without_last_separator(SEARCH_OPEN@ + navigation_entries_of(navigation, sources))
        + SEARCH_CLOSE@
}

/// Escapes the double quotes of `s`.
fn quoted(s: &str) -> (out: String)
    ensures
        out@ == quoted_of(s@),
{
    replace_char(s, '"', "\\\"")
}

/// Escapes the text of a page for the search index.
fn escaped(raw: &str) -> (out: String)
    ensures
        out@ == escaped_of(raw@),
{
    let step = replace_char(raw, '\\', "\\\\");
    let step = replace_char(step.as_str(), '"', "\\\"");
    let step = replace_char(step.as_str(), '\n', "\\n");
    replace_char(step.as_str(), '\r', "")
}

impl GlowDocBuilder {
    /// Writes the content sections and the search entries of one item, with
    /// all that is below it, at the end of `content_html` and of
    /// `search_index`. `sources` holds the text of every file that could be
    /// read, by the name under which the config names it.
    pub fn process_content_item_with_path(
        &self,
        item: &NavigationItem,
        section: &NavigationSection,
        content_html: &mut String,
        search_index: &mut String,
        active_class: &str,
        path_prefix: &str,
        sources: &Sources,
    )
        ensures
            final(content_html)@ == old(content_html)@ + item_content_of(
                item@,
                active_class@,
                path_prefix@,
                sources@,
            ),
            final(search_index)@ == old(search_index)@ + item_entries_of(
                item@,
                section.title@,
                path_prefix@,
                sources@,
            ),
        decreases item,
    {
        let ghost content_before = content_html@;
        let ghost index_before = search_index@;
        let ghost texts = sources@;
        proof {
            lemma_nav_item_view(*item);
        }
        let path = path_prefix.to_owned().concat(PATH_SEPARATOR).concat(item.id.as_str());
        match &item.file {
            Some(file) => {
                match sources.get(file.as_str()) {
                    Some(raw) => {
                        let body = render_page(raw.as_str());
                        content_html.append(CONTENT_OPEN);
                        content_html.append(active_class);
                        content_html.append(CONTENT_ID);
                        content_html.append(path.as_str());
                        content_html.append(CONTENT_BODY);
                        content_html.append(body.as_str());
                        content_html.append(CONTENT_CLOSE);
                        search_index.append(ENTRY_OPEN);
                        search_index.append(path.as_str());
                        search_index.append(ENTRY_TITLE);
                        search_index.append(quoted(item.title.as_str()).as_str());
                        search_index.append(ENTRY_SECTION);
                        search_index.append(quoted(section.title.as_str()).as_str());
                        search_index.append(ENTRY_CONTENT);
                        search_index.append(escaped(raw.as_str()).as_str());
                        search_index.append(ENTRY_CLOSE);
                    },
                    None => {
                        content_html.append(CONTENT_OPEN);
                        content_html.append(active_class);
                        content_html.append(CONTENT_ID);
                        content_html.append(path.as_str());
                        content_html.append(CONTENT_ERROR_BODY);
                        content_html.append(file.as_str());
                        content_html.append(CONTENT_ERROR_CLOSE);
                        search_index.append(ENTRY_OPEN);
                        search_index.append(path.as_str());
                        search_index.append(ENTRY_TITLE);
                        search_index.append(quoted(item.title.as_str()).as_str());
                        search_index.append(ENTRY_SECTION);
                        search_index.append(quoted(section.title.as_str()).as_str());
                        search_index.append(ENTRY_ERROR_CLOSE);
                    },
                }
            },
            None => {},
        }
        let ghost content_own = content_html@;
        let ghost index_own = search_index@;
        assert(content_own =~= content_before + own_content_of(
            item@,
            active_class@,
            path_prefix@,
            texts,
        ));
        assert(index_own =~= index_before + own_entry_of(
            item@,
            section.title@,
            path_prefix@,
            texts,
        ));
        let ghost below = nav_items_view(item.items@);
        let mut i: usize = 0;
        assert(below.take(0) =~= Seq::<NavItemView>::empty());
        assert(content_own + Seq::<char>::empty() =~= content_own);
        assert(index_own + Seq::<char>::empty() =~= index_own);
        while i < item.items.len()
            invariant
                i <= item.items.len(),
                below == nav_items_view(item.items@),
                texts == sources@,
                content_html@ == content_own + items_content_of(below.take(i as int), path@, texts),
                search_index@ == index_own + items_entries_of(
                    below.take(i as int),
                    section.title@,
                    path@,
                    texts,
                ),
            decreases item, item.items.len() - i,
        {
            proof {
                assert(below.take(i + 1).drop_last() == below.take(i as int));
                assert(below.take(i + 1).last() == item.items[i as int]@);
            }
            self.process_content_item_with_path(
                &item.items[i],
                section,
                content_html,
                search_index,
                NO_CLASS,
                path.as_str(),
                sources,
            );
            assert(content_html@ =~= content_own + items_content_of(
                below.take(i + 1),
                path@,
                texts,
            ));
            assert(search_index@ =~= index_own + items_entries_of(
                below.take(i + 1),
                section.title@,
                path@,
                texts,
            ));
            i += 1;
        }
        assert(below.take(i as int) == below);
        assert(content_html@ =~= content_before + item_content_of(
            item@,
            active_class@,
            path_prefix@,
            texts,
        ));
        assert(search_index@ =~= index_before + item_entries_of(
            item@,
            section.title@,
            path_prefix@,
            texts,
        ));
    }

    /// Writes the content sections and the search entries of one of a
    /// section's own items.
    pub fn process_content_item(
        &self,
        item: &NavigationItem,
        section: &NavigationSection,
        content_html: &mut String,
        search_index: &mut String,
        active_class: &str,
        sources: &Sources,
    )
        ensures
            final(content_html)@ == old(content_html)@ + item_content_of(
                item@,
                active_class@,
                section.id@,
                sources@,
            ),
            final(search_index)@ == old(search_index)@ + item_entries_of(
                item@,
                section.title@,
                section.id@,
                sources@,
            ),
    {
        self.process_content_item_with_path(
            item,
            section,
            content_html,
            search_index,
            active_class,
            section.id.as_str(),
            sources,
        )
    }

    /// Writes the content of the site and its search index.
    pub fn generate_content(
        &self,
        navigation: &Vec<NavigationSection>,
        sources: &Sources,
    ) -> (generated: (String, String))
        ensures
            generated.0@ == content_of(nav_sections_view(navigation@), sources@),
            generated.1@ == search_index_of(nav_sections_view(navigation@), sources@),
    {
        let ghost sections = nav_sections_view(navigation@);
        let ghost texts = sources@;
        let mut content_html = String::new();
        let mut search_index = SEARCH_OPEN.to_owned();
        let mut s: usize = 0;
        assert(sections.take(0) =~= Seq::<NavSectionView>::empty());
        assert(search_index@ + Seq::<char>::empty() =~= search_index@);
        while s < navigation.len()
            invariant
                s <= navigation.len(),
                sections == nav_sections_view(navigation@),
                texts == sources@,
                navigation.len() > 0 ==> content_html@ == navigation_content_of(
                    sections.take(s as int),
                    navigation[0].id@,
                    texts,
                ),
                navigation.len() == 0 ==> content_html@ == Seq::<char>::empty(),
                search_index@ == SEARCH_OPEN@ + navigation_entries_of(sections.take(s as int), texts),
            decreases navigation.len() - s,
        {
            let section = &navigation[s];
            let leading = str_eq(navigation[0].id.as_str(), section.id.as_str());
            let ghost content_before = content_html@;
            let ghost index_before = search_index@;
            let ghost own = nav_items_view(section.items@);
            proof {
                assert(sections.take(s + 1).drop_last() == sections.take(s as int));
                assert(sections.take(s + 1).last() == section@);
                assert(sections[0] == navigation[0]@);
            }
            let mut i: usize = 0;
            assert(own.take(0) =~= Seq::<NavItemView>::empty());
            assert(content_before + Seq::<char>::empty() =~= content_before);
            assert(index_before + Seq::<char>::empty() =~= index_before);
            while i < section.items.len()
                invariant
                    i <= section.items.len(),
                    own == nav_items_view(section.items@),
                    texts == sources@,
                    content_html@ == content_before + section_content_of(
                        own.take(i as int),
                        section.id@,
                        leading,
                        texts,
                    ),
                    search_index@ == index_before + items_entries_of(
                        own.take(i as int),
                        section.title@,
                        section.id@,
                        texts,
                    ),
                decreases section.items.len() - i,
            {
                let item = &section.items[i];
                proof {
                    assert(own.take(i + 1).drop_last() == own.take(i as int));
                    assert(own.take(i + 1).last() == item@);
                    lemma_nav_item_view(*item);
                }
                let active_class = if leading && i == 0 && item.file.is_some() {
                    ACTIVE_CLASS
                } else {
                    NO_CLASS
                };
                self.process_content_item(
                    item,
                    section,
                    &mut content_html,
                    &mut search_index,
                    active_class,
                    sources,
                );
                assert(content_html@ =~= content_before + section_content_of(
                    own.take(i + 1),
                    section.id@,
                    leading,
                    texts,
                ));
                assert(search_index@ =~= index_before + items_entries_of(
                    own.take(i + 1),
                    section.title@,
                    section.id@,
                    texts,
                ));
                i += 1;
            }
            assert(own.take(i as int) == own);
            assert(content_html@ =~= navigation_content_of(
                sections.take(s + 1),
                navigation[0].id@,
                texts,
            ));
            assert(search_index@ =~= SEARCH_OPEN@ + navigation_entries_of(
                sections.take(s + 1),
                texts,
            ));
            s += 1;
        }
        assert(sections.take(s as int) == sections);
        proof {
            if navigation.len() > 0 {
                assert(sections[0] == navigation[0]@);
            }
        }
        let chars = chars_of(search_index.as_str());
        let count = chars.len();
        let mut finished = if count >= 2 && chars[count - 2] == ',' && chars[count - 1] == '\n' {
            let mut kept = string_of_range(&chars, 0, count - 2);
            push_char(&mut kept, '\n');
            kept
        } else {
            search_index
        };
        finished.append(SEARCH_CLOSE);
        (content_html, finished)
    }
}

} // verus!
