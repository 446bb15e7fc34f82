//! Applying the options of the command line to what the scan found.

use crate::config_builder::{
    converted_section, detected_items_view, id_of, Config, ConfigBuilder, ConfigOptions,
    ConfigSection, ConfigView, DetectedConfig, DetectedConfigView, DetectedItem,
    DetectedItemView, DetectedSection, DetectedSectionView, OptionsView, SocialView,
};
use crate::detect::{sections_of, ScannedFolder};
use crate::reorder::{lemma_reordered_map, reorder_by_name, reordered, reversed};
use crate::text::{contains_string, strings_view};
use vstd::hash_map::StringHashMap;
use vstd::prelude::*;

verus! {

/// A section under the title that the options give it, if they give it one.
/// The new title also decides the new id.
pub open spec fn section_renamed(
    section: DetectedSectionView,
    renames: Map<Seq<char>, Seq<char>>,
) -> DetectedSectionView {
    if renames.contains_key(section.original_folder) {
        DetectedSectionView {
            title: renames[section.original_folder],
            id: id_of(renames[section.original_folder]),
            ..section
        }
    } else {
        section
    }
}

/// The name by which the options speak of a page: its section's folder, a
/// slash, and its file name.
pub open spec fn page_key(folder: Seq<char>, filename: Seq<char>) -> Seq<char> {
    folder + "/"@ + filename
}

/// A page under the title that the options give it, if they give it one.
pub open spec fn page_renamed(
    item: DetectedItemView,
    folder: Seq<char>,
    renames: Map<Seq<char>, Seq<char>>,
) -> DetectedItemView {
    let key = page_key(folder, item.original_filename);
    if renames.contains_key(key) {
        DetectedItemView { title: renames[key], id: id_of(renames[key]), ..item }
    } else {
        item
    }
}

/// A section with each of its top-level pages renamed as the options ask.
pub open spec fn pages_renamed(
    section: DetectedSectionView,
    renames: Map<Seq<char>, Seq<char>>,
) -> DetectedSectionView {
    DetectedSectionView {
        items: section.items.map_values(
            |item: DetectedItemView| page_renamed(item, section.original_folder, renames),
        ),
        ..section
    }
}

/// The file names of a list of items.
pub open spec fn filenames_of(items: Seq<DetectedItemView>) -> Seq<Seq<char>> {
    items.map_values(|item: DetectedItemView| item.original_filename)
}

/// A section with its top-level pages in the order that the options give
/// for its folder, if they give one.
pub open spec fn pages_reordered(
    section: DetectedSectionView,
    orders: Map<Seq<char>, Seq<Seq<char>>>,
) -> DetectedSectionView {
    if orders.contains_key(section.original_folder) {
        DetectedSectionView {
            items: reordered(
                section.items,
                filenames_of(section.items),
                orders[section.original_folder],
            ),
            ..section
        }
    } else {
        section
    }
}

/// A section after its own title, its pages' titles and its pages' order
/// were set as the options ask.
pub open spec fn section_customized(
    section: DetectedSectionView,
    options: OptionsView,
) -> DetectedSectionView {
    pages_reordered(
        pages_renamed(
            section_renamed(section, options.section_renames),
            options.page_renames,
        ),
        options.page_orders,
    )
}

/// The sections whose folder is not excluded, in order.
pub open spec fn kept_sections(
    sections: Seq<DetectedSectionView>,
    excluded: Seq<Seq<char>>,
) -> Seq<DetectedSectionView>
    decreases sections.len(),
{
    if sections.len() == 0 {
        Seq::<DetectedSectionView>::empty()
    } else if excluded.contains(sections.last().original_folder) {
        kept_sections(sections.drop_last(), excluded)
    } else {
        kept_sections(sections.drop_last(), excluded).push(sections.last())
    }
}

/// The folders of a list of sections.
pub open spec fn folders_of(sections: Seq<DetectedSectionView>) -> Seq<Seq<char>> {
    sections.map_values(|section: DetectedSectionView| section.original_folder)
}

/// The sections in the order that the options give, if they give one.
pub open spec fn sections_reordered(
    sections: Seq<DetectedSectionView>,
    order: Option<Seq<Seq<char>>>,
) -> Seq<DetectedSectionView> {
    match order {
        Some(order) => reordered(sections, folders_of(sections), order),
        None => sections,
    }
}

/// What the scan found, changed as the options ask: title and description
/// replaced where given; every section customized; excluded sections
/// dropped; the remaining sections reordered.
pub open spec fn customized(detected: DetectedConfigView, options: OptionsView) -> DetectedConfigView {
    DetectedConfigView {
        title: match options.title {
            Some(title) => title,
            None => detected.title,
        },
        description: match options.description {
            Some(description) => description,
            None => detected.description,
        },
        navigation: sections_reordered(
            kept_sections(
                detected.navigation.map_values(
                    |section: DetectedSectionView| section_customized(section, options),
                ),
                options.exclude_sections,
            ),
            options.section_order,
        ),
    }
}

/// The finished config of what was detected, with the given links.
pub open spec fn finished(detected: DetectedConfigView, social: SocialView) -> ConfigView {
    ConfigView {
        title: detected.title,
        description: detected.description,
        navigation: detected.navigation.map_values(
            |section: DetectedSectionView| converted_section(section),
        ),
        social,
    }
}

/// The config that the options make of what the scan found.
pub open spec fn config_of(detected: DetectedConfigView, options: OptionsView) -> ConfigView {
    finished(customized(detected, options), options.social)
}

/// The file names of `items`, copied.
fn filenames(items: &Vec<DetectedItem>) -> (names: Vec<String>)
    ensures
        strings_view(names@) == filenames_of(detected_items_view(items@)),
        names.len() == items.len(),
{
    let mut names: Vec<String> = Vec::new();
    let mut i: usize = 0;
    while i < items.len()
        invariant
            i <= items.len(),
            names.len() == i,
            forall|j: int| 0 <= j < i ==> #[trigger] names[j]@ == items[j].original_filename@,
        decreases items.len() - i,
    {
        names.push(items[i].original_filename.clone());
        i += 1;
    }
    assert(strings_view(names@) =~= filenames_of(detected_items_view(items@)));
    names
}

/// The folders of `sections`, copied.
fn folders(sections: &Vec<DetectedSection>) -> (names: Vec<String>)
    ensures
        strings_view(names@) == folders_of(sections@.map_values(|s: DetectedSection| s@)),
        names.len() == sections.len(),
{
    let mut names: Vec<String> = Vec::new();
    let mut i: usize = 0;
    while i < sections.len()
        invariant
            i <= sections.len(),
            names.len() == i,
            forall|j: int| 0 <= j < i ==> #[trigger] names[j]@ == sections[j].original_folder@,
        decreases sections.len() - i,
    {
        names.push(sections[i].original_folder.clone());
        i += 1;
    }
    assert(strings_view(names@) =~= folders_of(sections@.map_values(|s: DetectedSection| s@)));
    names
}

impl ConfigBuilder {
    /// Sets one section's title, its pages' titles and its pages' order as
    /// the options ask.
    fn customize_section(
        &self,
        section: DetectedSection,
        section_renames: &StringHashMap<String>,
        page_renames: &StringHashMap<String>,
        page_orders: &StringHashMap<Vec<String>>,
    ) -> (out: DetectedSection)
        ensures
            out@ == pages_reordered(
                pages_renamed(
                    section_renamed(section@, section_renames@.map_values(|s: String| s@)),
                    page_renames@.map_values(|s: String| s@),
                ),
                page_orders@.map_values(|v: Vec<String>| strings_view(v@)),
            ),
    {
        let ghost renames = page_renames@.map_values(|s: String| s@);
        let ghost folder = section.original_folder@;
        let DetectedSection { title, id, original_folder, items } = section;
        let mut title = title;
        let mut id = id;
        let mut items = items;
        match section_renames.get(original_folder.as_str()) {
            Some(new_name) => {
                title = new_name.clone();
                id = self.generate_id(new_name.as_str());
            },
            None => {},
        }
        let ghost found = items@;
        let mut j: usize = 0;
        while j < items.len()
            invariant
                j <= items.len(),
                items.len() == found.len(),
                folder == original_folder@,
                renames == page_renames@.map_values(|s: String| s@),
                forall|i: int|
                    0 <= i < j ==> (#[trigger] items[i])@ == page_renamed(found[i]@, folder, renames),
                forall|i: int| j <= i < items.len() ==> #[trigger] items[i] == found[i],
            decreases items.len() - j,
        {
            let key = original_folder.clone().concat("/").concat(
                items[j].original_filename.as_str(),
            );
            match page_renames.get(key.as_str()) {
                Some(new_title) => {
                    let new_id = self.generate_id(new_title.as_str());
                    items[j].title = new_title.clone();
                    items[j].id = new_id;
                    assert(items[j as int]@.items =~= found[j as int]@.items);
                },
                None => {},
            }
            j += 1;
        }
        let ghost renamed = items@;
        assert(detected_items_view(renamed) =~= detected_items_view(found).map_values(
            |item: DetectedItemView| page_renamed(item, folder, renames),
        ));
        match page_orders.get(original_folder.as_str()) {
            Some(order) => {
                let names = filenames(&items);
                items = reorder_by_name(items, names, order);
                proof {
                    lemma_reordered_map(
                        renamed,
                        filenames_of(detected_items_view(renamed)),
                        strings_view(order@),
                        |item: DetectedItem| item@,
                    );
                }
            },
            None => {},
        }
        DetectedSection { title, id, original_folder, items }
    }

    /// Drops the sections whose folder is excluded.
    fn drop_excluded(&self, sections: Vec<DetectedSection>, excluded: &Vec<String>) -> (kept: Vec<
        DetectedSection,
    >)
        ensures
            kept@.map_values(|s: DetectedSection| s@) == kept_sections(
                sections@.map_values(|s: DetectedSection| s@),
                strings_view(excluded@),
            ),
    {
        let ghost all = sections@.map_values(|s: DetectedSection| s@);
        let ghost count = sections.len();
        let mut rest = reversed(sections);
        let mut kept: Vec<DetectedSection> = Vec::new();
        assert(all.take(0) =~= Seq::<DetectedSectionView>::empty());
        assert(kept@.map_values(|s: DetectedSection| s@) =~= Seq::<DetectedSectionView>::empty());
        while rest.len() > 0
            invariant
                rest.len() <= count,
                all.len() == count,
                forall|j: int| 0 <= j < rest.len() ==> (#[trigger] rest[j])@ == all[count - 1 - j],
                kept@.map_values(|s: DetectedSection| s@) == kept_sections(
                    all.take(count - rest.len()),
                    strings_view(excluded@),
                ),
            decreases rest.len(),
        {
            let ghost done = count - rest.len();
            let ghost before = kept@.map_values(|s: DetectedSection| s@);
            let section = rest.pop().unwrap();
            proof {
                assert(section@ == all[done]);
                assert(all.take(done + 1).drop_last() == all.take(done));
                assert(all.take(done + 1).last() == all[done]);
            }
            if !contains_string(excluded, section.original_folder.as_str()) {
                kept.push(section);
                assert(kept@.map_values(|s: DetectedSection| s@) =~= before.push(section@));
            }
        }
        assert(all.take(count as int) == all);
        kept
    }

    /// Builds the config of a docs folder without asking anything: detects
    /// the structure in the listing `folders` and applies the options.
    pub fn build_config_with_options(&self, folders: &Vec<ScannedFolder>, options: ConfigOptions) -> (config:
        Config)
        ensures
            config@ == config_of(
                DetectedConfigView {
                    title: "Documentation"@,
                    description: "Generated documentation site"@,
                    navigation: sections_of(folders@),
                },
                options@,
            ),
    {
        let detected = self.detect_structure(folders);
        self.apply_options(detected, options)
    }

    /// Applies the options of the command line to what the scan found, and
    /// gives the finished config.
    pub fn apply_options(&self, detected: DetectedConfig, options: ConfigOptions) -> (config: Config)
        ensures
            config@ == config_of(detected@, options@),
    {
        let ghost wanted = options@;
        let ghost scanned = detected@;
        let ConfigOptions {
            title,
            description,
            section_order,
            section_renames,
            page_renames,
            page_orders,
            exclude_sections,
            social,
        } = options;
        let DetectedConfig { title: found_title, description: found_description, navigation } =
            detected;
        let title = match title {
            Some(title) => title,
            None => found_title,
        };
        let description = match description {
            Some(description) => description,
            None => found_description,
        };
        let ghost count = navigation.len();
        let mut rest = reversed(navigation);
        let mut sections: Vec<DetectedSection> = Vec::new();
        while rest.len() > 0
            invariant
                rest.len() + sections.len() == count,
                scanned.navigation.len() == count,
                wanted.section_renames == section_renames@.map_values(|s: String| s@),
                wanted.page_renames == page_renames@.map_values(|s: String| s@),
                wanted.page_orders == page_orders@.map_values(|v: Vec<String>| strings_view(v@)),
                forall|j: int|
                    0 <= j < rest.len() ==> (#[trigger] rest[j])@ == scanned.navigation[count - 1
                        - j],
                forall|j: int|
                    0 <= j < sections.len() ==> (#[trigger] sections[j])@ == section_customized(
                        scanned.navigation[j],
                        wanted,
                    ),
            decreases rest.len(),
        {
            let section = rest.pop().unwrap();
            let section = self.customize_section(
                section,
                &section_renames,
                &page_renames,
                &page_orders,
            );
            sections.push(section);
        }
        assert(sections@.map_values(|s: DetectedSection| s@) =~= scanned.navigation.map_values(
            |section: DetectedSectionView| section_customized(section, wanted),
        ));
        let sections = self.drop_excluded(sections, &exclude_sections);
        let sections = match section_order {
            Some(order) => {
                let names = folders(&sections);
                proof {
                    lemma_reordered_map(
                        sections@,
                        folders_of(sections@.map_values(|s: DetectedSection| s@)),
                        strings_view(order@),
                        |s: DetectedSection| s@,
                    );
                }
                reorder_by_name(sections, names, &order)
            },
            None => sections,
        };
        assert(sections@.map_values(|s: DetectedSection| s@) == customized(
            scanned,
            wanted,
        ).navigation);
        let ghost final_sections = sections@;
        let ghost final_count = sections.len();
        let mut rest = reversed(sections);
        let mut navigation: Vec<ConfigSection> = Vec::new();
        while rest.len() > 0
            invariant
                rest.len() + navigation.len() == final_count,
                final_sections.len() == final_count,
                forall|j: int|
                    0 <= j < rest.len() ==> #[trigger] rest[j] == final_sections[final_count - 1
                        - j],
                forall|j: int|
                    0 <= j < navigation.len() ==> (#[trigger] navigation[j])@ == converted_section(
                        final_sections[j]@,
                    ),
            decreases rest.len(),
        {
            let DetectedSection { title, id, original_folder: _, items } = rest.pop().unwrap();
            let items = self.convert_items(items);
            navigation.push(ConfigSection { title, id, items });
        }
        assert(navigation@.map_values(|s: ConfigSection| s@) =~= final_sections.map_values(
            |s: DetectedSection| s@,
        ).map_values(|section: DetectedSectionView| converted_section(section)));
        Config { title, description, navigation, social }
    }
}

} // verus!
