//! The sidebar of the generated page: a search box and the navigation tree.

use crate::site::{
    lemma_nav_item_view, nav_items_view, nav_sections_view, GlowDocBuilder, NavItemView,
    NavSectionView, NavigationItem, NavigationSection,
};
use crate::text::{replace_char, replace_each, str_eq};
use vstd::prelude::*;

verus! {

/// The search box, and the opening of the navigation container.
pub const SIDEBAR_OPEN: &'static str = r#"
                <div class="search-container">
                    <input type="text" id="search-input" class="search-input" placeholder="Search pages..." oninput="performSearch()">
                    <svg class="search-icon" width="16" height="16" viewBox="0 0 24 24" fill="none" stroke="currentColor" stroke-width="2">
                        <circle cx="11" cy="11" r="8"/>
                        <path d="m21 21-4.35-4.35"/>
                    </svg>
                </div>
                <div id="search-results" class="search-results" style="display: none;">
                    <div class="search-results-header">Search Results</div>
                    <div id="search-results-list"></div>
                </div>
                <div id="navigation-container">"#;

/// The closing of the navigation container.
pub const SIDEBAR_CLOSE: &'static str = "\n                </div>";

/// A section, up to the id in its toggle.
pub const SECTION_OPEN: &'static str =
    "\n                <div class=\"nav-section\">\n                    <div class=\"nav-section-title\" onclick=\"toggleSection('";

/// From the id in a section's toggle to its title.
pub const SECTION_TITLE_OPEN: &'static str = "')\">\n                        <span>";

/// From a section's title to the id of its list.
pub const SECTION_LIST_OPEN: &'static str = r#"</span>
                        <svg class="nav-section-toggle" width="12" height="12" viewBox="0 0 24 24" fill="none" stroke="currentColor" stroke-width="2">
                            <polyline points="6 9 12 15 18 9"></polyline>
                        </svg>
                    </div>
                    <ul class="nav-items" id=""#;

/// What follows the id of a list.
pub const LIST_ID_CLOSE: &'static str = "-items\">";

/// The closing of a section.
pub const SECTION_CLOSE: &'static str = "\n                    </ul>\n                </div>";

/// A line break.
pub const LINE: &'static str = "\n";

/// The opening of a page's list item.
pub const LINK_ITEM_OPEN: &'static str = "<li class=\"nav-item\">\n";

/// A page's link, up to its target.
pub const LINK_HREF: &'static str = "    <a href=\"#";

/// From a link's target to its class.
pub const LINK_CLASS: &'static str = "\" class=\"nav-link";

/// From a link's class to its content id.
pub const LINK_CONTENT_ID: &'static str = "\" data-content-id=\"";

/// From a link's content id to its section id.
pub const LINK_SECTION_ID: &'static str = "\" data-section-id=\"";

/// From a link's section id to its title.
pub const LINK_TITLE_OPEN: &'static str = "\">";

/// What follows a link's title.
pub const LINK_TITLE_CLOSE: &'static str = "</a>\n";

/// The closing of a list item.
pub const ITEM_CLOSE: &'static str = "</li>";

/// The opening of a folder's list item.
pub const FOLDER_ITEM_OPEN: &'static str = "<li class=\"nav-item nav-folder\">\n";

/// A folder's title bar, up to the id in its toggle.
pub const FOLDER_TITLE_OPEN: &'static str =
    "    <div class=\"nav-folder-title\" onclick=\"toggleNestedSection('";

/// What follows the id in a folder's toggle.
pub const FOLDER_TOGGLE_CLOSE: &'static str = "')\">\n";

/// What precedes a folder's title.
pub const FOLDER_NAME_OPEN: &'static str = "        <span>";

/// What follows a folder's title.
pub const FOLDER_NAME_CLOSE: &'static str = "</span>\n";

/// The opening of a folder's icon.
pub const FOLDER_ICON_OPEN: &'static str =
    "        <svg class=\"nav-folder-toggle\" width=\"10\" height=\"10\" viewBox=\"0 0 24 24\" fill=\"none\" stroke=\"currentColor\" stroke-width=\"2\">\n";

/// The shape of a folder's icon.
pub const FOLDER_ICON_SHAPE: &'static str =
    "            <polyline points=\"6 9 12 15 18 9\"></polyline>\n";

/// The closing of a folder's icon.
pub const FOLDER_ICON_CLOSE: &'static str = "        </svg>\n";

/// The closing of a folder's title bar.
pub const FOLDER_TITLE_CLOSE: &'static str = "    </div>\n";

/// A folder's list, up to its id.
pub const FOLDER_LIST_OPEN: &'static str = "    <ul class=\"nav-nested-items\" id=\"";

/// The closing of a folder's list.
pub const FOLDER_LIST_CLOSE: &'static str = "    </ul>\n";

/// The indentation of a section's own items.
pub const TOP_INDENT: &'static str = "                        ";

/// By how much every level of nesting indents further.
pub const INDENT_STEP: &'static str = "    ";

/// The class that marks the page shown first.
pub const ACTIVE_CLASS: &'static str = " active";

/// No further class.
pub const NO_CLASS: &'static str = "";

/// What separates the ids along a path.
pub const PATH_SEPARATOR: &'static str = "/";

/// What stands for the separator where a path is part of an element id.
pub const PATH_HYPHEN: &'static str = "-";

/// The list item of a page.
pub open spec fn page_link_of(
    title: Seq<char>,
    path: Seq<char>,
    section_id: Seq<char>,
    indent: Seq<char>,
    class: Seq<char>,
) -> Seq<char> {
    LINE@ + indent + LINK_ITEM_OPEN@ + indent + LINK_HREF@ + path + LINK_CLASS@ + class
        + LINK_CONTENT_ID@ + path + LINK_SECTION_ID@ + section_id + LINK_TITLE_OPEN@ + title
        + LINK_TITLE_CLOSE@ + indent + ITEM_CLOSE@
}

/// The list item of a folder, up to the items of its list.
pub open spec fn folder_open_of(title: Seq<char>, element_id: Seq<char>, indent: Seq<char>) -> Seq<
    char,
> {
    LINE@ + indent + FOLDER_ITEM_OPEN@ + indent + FOLDER_TITLE_OPEN@ + element_id
        + FOLDER_TOGGLE_CLOSE@ + indent + FOLDER_NAME_OPEN@ + title + FOLDER_NAME_CLOSE@ + indent
        + FOLDER_ICON_OPEN@ + indent + FOLDER_ICON_SHAPE@ + indent + FOLDER_ICON_CLOSE@ + indent
        + FOLDER_TITLE_CLOSE@ + indent + FOLDER_LIST_OPEN@ + element_id + LIST_ID_CLOSE@
}

/// The list item of a folder, after the items of its list.
pub open spec fn folder_close_of(indent: Seq<char>) -> Seq<char> {
    LINE@ + indent + FOLDER_LIST_CLOSE@ + indent + ITEM_CLOSE@
}

/// The path of an item: the path above it, and its id.
pub open spec fn path_of(prefix: Seq<char>, id: Seq<char>) -> Seq<char> {
    prefix + PATH_SEPARATOR@ + id
}

/// What the sidebar shows of one item: a link for a page; for a folder that
/// is not empty, a list of what it holds, one step further in; nothing for
/// an empty folder.
pub open spec fn nav_item_of(
    item: NavItemView,
    section_id: Seq<char>,
    indent: Seq<char>,
    class: Seq<char>,
    prefix: Seq<char>,
) -> Seq<char>
    decreases item,
{
    let path = path_of(prefix, item.id);
    if item.file is Some {
        page_link_of(item.title, path, section_id, indent, class)
    } else if item.items.len() > 0 {
        folder_open_of(item.title, replace_each(path, '/', PATH_HYPHEN@), indent) + nav_items_of(
            item.items,
            section_id,
            indent + INDENT_STEP@,
            path,
        ) + folder_close_of(indent)
    } else {
        Seq::<char>::empty()
    }
}

/// What the sidebar shows of the items of a folder, in order.
pub open spec fn nav_items_of(
    items: Seq<NavItemView>,
    section_id: Seq<char>,
    indent: Seq<char>,
    prefix: Seq<char>,
) -> Seq<char>
    decreases items,
{
    if items.len() == 0 {
        Seq::<char>::empty()
    } else {
        nav_items_of(items.drop_last(), section_id, indent, prefix) + nav_item_of(
            items.last(),
            section_id,
            indent,
            NO_CLASS@,
            prefix,
        )
    }
}

/// The further class of a section's own item: the item that comes first in
/// a section of the first section's id is marked active if it is a page.
pub open spec fn class_of(leading: bool, index: int, item: NavItemView) -> Seq<char> {
    if leading && index == 0 && item.file is Some {
        ACTIVE_CLASS@
    } else {
        NO_CLASS@
    }
}

/// What the sidebar shows of a section's own items, in order.
pub open spec fn section_items_of(
    items: Seq<NavItemView>,
    section_id: Seq<char>,
    leading: bool,
) -> Seq<char>
    decreases items.len(),
{
    if items.len() == 0 {
        Seq::<char>::empty()
    } else {
        section_items_of(items.drop_last(), section_id, leading) + nav_item_of(
            items.last(),
            section_id,
            TOP_INDENT@,
            class_of(leading, items.len() - 1, items.last()),
            section_id,
        )
    }
}

/// What the sidebar shows of one section.
pub open spec fn nav_section_of(section: NavSectionView, leading: bool) -> Seq<char> {
    SECTION_OPEN@ + section.id + SECTION_TITLE_OPEN@ + section.title + SECTION_LIST_OPEN@
        + section.id + LIST_ID_CLOSE@ + section_items_of(section.items, section.id, leading)
        + SECTION_CLOSE@
}

/// What the sidebar shows of the sections, in order. `first_id` is the id of
/// the first section.
pub open spec fn nav_sections_of(sections: Seq<NavSectionView>, first_id: Seq<char>) -> Seq<
    char,
>
    decreases sections.len(),
{
    if sections.len() == 0 {
        Seq::<char>::empty()
    } else {
        nav_sections_of(sections.drop_last(), first_id) + nav_section_of(
            sections.last(),
            sections.last().id == first_id,
        )
    }
}

/// The sidebar of a site with this navigation.
pub open spec fn sidebar_of(navigation: Seq<NavSectionView>) -> Seq<char> {
    SIDEBAR_OPEN@ + (if navigation.len() == 0 {
        Seq::<char>::empty()
    } else {
        nav_sections_of(navigation, navigation[0].id)
    }) + SIDEBAR_CLOSE@
}

impl GlowDocBuilder {
    /// Writes what the sidebar shows of one item, with all that is below
    /// it, at the end of `html`.
    pub fn generate_nav_item_with_path(
        &self,
        html: &mut String,
        item: &NavigationItem,
        section: &NavigationSection,
        indent: &str,
        active_class: &str,
        path_prefix: &str,
    )
        ensures
            final(html)@ == old(html)@ + nav_item_of(
                item@,
                section.id@,
                indent@,
                active_class@,
                path_prefix@,
            ),
        decreases item,
    {
        let ghost before = html@;
        proof {
            lemma_nav_item_view(*item);
        }
        let path = path_prefix.to_owned().concat(PATH_SEPARATOR).concat(item.id.as_str());
        if item.file.is_some() {
            html.append(LINE);
            html.append(indent);
            html.append(LINK_ITEM_OPEN);
            html.append(indent);
            html.append(LINK_HREF);
            html.append(path.as_str());
            html.append(LINK_CLASS);
            html.append(active_class);
            html.append(LINK_CONTENT_ID);
            html.append(path.as_str());
            html.append(LINK_SECTION_ID);
            html.append(section.id.as_str());
            html.append(LINK_TITLE_OPEN);
            html.append(item.title.as_str());
            html.append(LINK_TITLE_CLOSE);
            html.append(indent);
            html.append(ITEM_CLOSE);
            assert(html@ =~= before + page_link_of(
                item.title@,
                path@,
                section.id@,
                indent@,
                active_class@,
            ));
        } else if item.items.len() > 0 {
            let element_id = replace_char(path.as_str(), '/', PATH_HYPHEN);
            html.append(LINE);
            html.append(indent);
            html.append(FOLDER_ITEM_OPEN);
            html.append(indent);
            html.append(FOLDER_TITLE_OPEN);
            html.append(element_id.as_str());
            html.append(FOLDER_TOGGLE_CLOSE);
            html.append(indent);
            html.append(FOLDER_NAME_OPEN);
            html.append(item.title.as_str());
            html.append(FOLDER_NAME_CLOSE);
            html.append(indent);
            html.append(FOLDER_ICON_OPEN);
            html.append(indent);
            html.append(FOLDER_ICON_SHAPE);
            html.append(indent);
            html.append(FOLDER_ICON_CLOSE);
            html.append(indent);
            html.append(FOLDER_TITLE_CLOSE);
            html.append(indent);
            html.append(FOLDER_LIST_OPEN);
            html.append(element_id.as_str());
            html.append(LIST_ID_CLOSE);
            let ghost opened = html@;
            assert(opened =~= before + folder_open_of(item.title@, element_id@, indent@));
            let deeper = indent.to_owned().concat(INDENT_STEP);
            let mut i: usize = 0;
            assert(nav_items_view(item.items@).take(0) =~= Seq::<NavItemView>::empty());
            assert(opened + Seq::<char>::empty() =~= opened);
            while i < item.items.len()
                invariant
                    i <= item.items.len(),
                    html@ == opened + nav_items_of(
                        nav_items_view(item.items@).take(i as int),
                        section.id@,
                        deeper@,
                        path@,
                    ),
                decreases item, item.items.len() - i,
            {
                let ghost so_far = html@;
                proof {
                    assert(nav_items_view(item.items@).take(i + 1).drop_last() == nav_items_view(
                        item.items@,
                    ).take(i as int));
                    assert(nav_items_view(item.items@).take(i + 1).last() == item.items[i as int]@);
                }
                self.generate_nav_item_with_path(
                    html,
                    &item.items[i],
                    section,
                    deeper.as_str(),
                    NO_CLASS,
                    path.as_str(),
                );
                assert(html@ =~= opened + nav_items_of(
                    nav_items_view(item.items@).take(i + 1),
                    section.id@,
                    deeper@,
                    path@,
                ));
                i += 1;
            }
            assert(nav_items_view(item.items@).take(i as int) == nav_items_view(item.items@));
            let ghost listed = html@;
            html.append(LINE);
            html.append(indent);
            html.append(FOLDER_LIST_CLOSE);
            html.append(indent);
            html.append(ITEM_CLOSE);
            assert(html@ =~= listed + folder_close_of(indent@));
            assert(html@ =~= before + nav_item_of(
                item@,
                section.id@,
                indent@,
                active_class@,
                path_prefix@,
            ));
        } else {
            assert(html@ =~= before + Seq::<char>::empty());
        }
    }

    /// Writes what the sidebar shows of one of a section's own items at the
    /// end of `html`.
    pub fn generate_nav_item(
        &self,
        html: &mut String,
        item: &NavigationItem,
        section: &NavigationSection,
        active_class: &str,
    )
        ensures
            final(html)@ == old(html)@ + nav_item_of(
                item@,
                section.id@,
                TOP_INDENT@,
                active_class@,
                section.id@,
            ),
    {
        self.generate_nav_item_with_path(
            html,
            item,
            section,
            TOP_INDENT,
            active_class,
            section.id.as_str(),
        )
    }

    /// Writes what the sidebar shows of one section at the end of `html`.
    /// `leading` says whether the section has the id of the first section.
    pub fn generate_nav_section(
        &self,
        html: &mut String,
        section: &NavigationSection,
        leading: bool,
    )
        ensures
            final(html)@ == old(html)@ + nav_section_of(section@, leading),
    {
        let ghost before = html@;
        html.append(SECTION_OPEN);
        html.append(section.id.as_str());
        html.append(SECTION_TITLE_OPEN);
        html.append(section.title.as_str());
        html.append(SECTION_LIST_OPEN);
        html.append(section.id.as_str());
        html.append(LIST_ID_CLOSE);
        let ghost opened = html@;
        let ghost own = nav_items_view(section.items@);
        let mut i: usize = 0;
        assert(own.take(0) =~= Seq::<NavItemView>::empty());
        assert(opened + Seq::<char>::empty() =~= opened);
        while i < section.items.len()
            invariant
                i <= section.items.len(),
                own == nav_items_view(section.items@),
                html@ == opened + section_items_of(own.take(i as int), section.id@, leading),
            decreases section.items.len() - i,
        {
            let item = &section.items[i];
            proof {
                assert(own.take(i + 1).drop_last() == own.take(i as int));
                assert(own.take(i + 1).last() == item@);
                lemma_nav_item_view(*item);
            }
            let active_class = if leading && i == 0 && item.file.is_some() {
                ACTIVE_CLASS
            } else {
                NO_CLASS
            };
            self.generate_nav_item(html, item, section, active_class);
            assert(html@ =~= opened + section_items_of(own.take(i + 1), section.id@, leading));
            i += 1;
        }
        assert(own.take(i as int) == own);
        html.append(SECTION_CLOSE);
        assert(html@ =~= before + nav_section_of(section@, leading));
    }

    /// Writes the sidebar for a site with this navigation.
    pub fn generate_sidebar(&self, navigation: &Vec<NavigationSection>) -> (sidebar: String)
        ensures
            sidebar@ == sidebar_of(nav_sections_view(navigation@)),
    {
        let mut sidebar = SIDEBAR_OPEN.to_owned();
        let mut s: usize = 0;
        let ghost sections = nav_sections_view(navigation@);
        assert(sections.take(0) =~= Seq::<NavSectionView>::empty());
        assert(sidebar@ + Seq::<char>::empty() =~= sidebar@);
        while s < navigation.len()
            invariant
                s <= navigation.len(),
                sections == nav_sections_view(navigation@),
                navigation.len() > 0 ==> sidebar@ == SIDEBAR_OPEN@ + nav_sections_of(
                    sections.take(s as int),
                    navigation[0].id@,
                ),
                navigation.len() == 0 ==> sidebar@ == SIDEBAR_OPEN@,
            decreases navigation.len() - s,
        {
            let section = &navigation[s];
            let leading = str_eq(navigation[0].id.as_str(), section.id.as_str());
            proof {
                assert(sections.take(s + 1).drop_last() == sections.take(s as int));
                assert(sections.take(s + 1).last() == section@);
                assert(sections[0] == navigation[0]@);
            }
            self.generate_nav_section(&mut sidebar, section, leading);
            assert(sidebar@ =~= SIDEBAR_OPEN@ + nav_sections_of(
                sections.take(s + 1),
                navigation[0].id@,
            ));
            s += 1;
        }
        assert(sections.take(s as int) == sections);
        proof {
            if navigation.len() > 0 {
                assert(sections[0] == navigation[0]@);
            }
        }
        sidebar.append(SIDEBAR_CLOSE);
        sidebar
    }
}

} // verus!
