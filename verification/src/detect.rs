//! From a listing of the docs folder to the structure of the site.
//!
//! The listing is taken by the embedding program: every folder with its
//! files and folders, by name, and for each file what it holds if it could
//! be read. What is made of the listing is decided here: which files are
//! pages, what they are called, how they nest, and which folders count.

use crate::config_builder::{
    detected_items_view, id_of, lemma_detected_item_view, text_of, title_of, ConfigBuilder,
    DetectedConfig, DetectedItem, DetectedItemView, DetectedSection, DetectedSectionView,
};
use crate::markdown::{extract_title_from_markdown, markdown_events, title_in, PLAIN_OPTIONS};
use crate::text::{
    after_last, chars_of, find_last, last_index_of, replace_char, replace_each, str_eq,
    string_of_range,
};
use vstd::prelude::*;

verus! {

/// A file of the listing.
#[derive(Debug)]
pub struct ScannedFile {
    pub name: String,
    /// What the file holds, where it could be read as text.
    pub content: Option<String>,
}

/// A folder of the listing. The order of its files and folders is the order
/// in which they appear on the site.
#[derive(Debug)]
pub struct ScannedFolder {
    pub name: String,
    pub files: Vec<ScannedFile>,
    pub folders: Vec<ScannedFolder>,
}

/// A file is a page when its name has the extension `md`: its last dot is
/// not its first character, and `md` is all that follows it.
pub open spec fn is_markdown(name: Seq<char>) -> bool {
    last_index_of(name, '.') >= 1 && after_last(name, '.') == "md"@
}

/// A file's name without the ending `.md`, if it has that ending.
pub open spec fn stem_of(name: Seq<char>) -> Seq<char> {
    if last_index_of(name, '.') >= 0 && after_last(name, '.') == "md"@ {
        name.subrange(0, last_index_of(name, '.'))
    } else {
        name
    }
}

/// The path of what is called `name` below the relative path `relative`.
pub open spec fn below(relative: Seq<char>, name: Seq<char>) -> Seq<char> {
    if relative.len() == 0 {
        name
    } else {
        relative + "/"@ + name
    }
}

/// The id of what is called `name` below the relative path `relative`.
pub open spec fn nested_id_of(relative: Seq<char>, name: Seq<char>) -> Seq<char> {
    id_of(replace_each(relative, '/', "_"@) + "_"@ + name)
}

/// The title of a page: the title that its markdown gives it, or else the
/// title made from its file name.
pub open spec fn page_title_of(name: Seq<char>, content: Option<Seq<char>>) -> Seq<char> {
    match content {
        Some(content) => match title_in(markdown_events(content, PLAIN_OPTIONS)) {
            Some(title) => title,
            None => title_of(stem_of(name)),
        },
        None => title_of(stem_of(name)),
    }
}

/// The page that a markdown file stands for.
pub open spec fn file_item_of(
    name: Seq<char>,
    content: Option<Seq<char>>,
    base: Seq<char>,
    relative: Seq<char>,
) -> DetectedItemView {
    DetectedItemView {
        title: page_title_of(name, content),
        id: nested_id_of(relative, stem_of(name)),
        file: Some(base + "/"@ + below(relative, name)),
        original_filename: name,
        items: Seq::empty(),
    }
}

/// The folder item that a folder with these items in it stands for.
pub open spec fn folder_item_of(
    name: Seq<char>,
    relative: Seq<char>,
    items: Seq<DetectedItemView>,
) -> DetectedItemView {
    DetectedItemView {
        title: title_of(name),
        id: nested_id_of(relative, name),
        file: None,
        original_filename: name,
        items,
    }
}

/// The pages among `files`, in order.
pub open spec fn file_items(files: Seq<ScannedFile>, base: Seq<char>, relative: Seq<char>) -> Seq<
    DetectedItemView,
>
    decreases files.len(),
{
    if files.len() == 0 {
        Seq::empty()
    } else if is_markdown(files.last().name@) {
        file_items(files.drop_last(), base, relative).push(
            file_item_of(files.last().name@, text_of(files.last().content), base, relative),
        )
    } else {
        file_items(files.drop_last(), base, relative)
    }
}

/// The folder items of `folders`, in order: one for each folder that holds
/// a page somewhere below it.
pub open spec fn folder_items(
    folders: Seq<ScannedFolder>,
    base: Seq<char>,
    relative: Seq<char>,
) -> Seq<DetectedItemView>
    decreases folders,
{
    if folders.len() == 0 {
        Seq::empty()
    } else {
        let last = folders.last();
        let inside = items_in(last, base, below(relative, last.name@));
        if inside.len() > 0 {
            folder_items(folders.drop_last(), base, relative).push(
                folder_item_of(last.name@, relative, inside),
            )
        } else {
            folder_items(folders.drop_last(), base, relative)
        }
    }
}

/// The items of a folder: its pages, then its folders.
pub open spec fn items_in(folder: ScannedFolder, base: Seq<char>, relative: Seq<char>) -> Seq<
    DetectedItemView,
>
    decreases folder,
{
    file_items(folder.files@, base, relative) + folder_items(folder.folders@, base, relative)
}

/// The section that a top-level folder stands for.
pub open spec fn section_of(folder: ScannedFolder) -> DetectedSectionView {
    DetectedSectionView {
        title: title_of(folder.name@),
        id: id_of(folder.name@),
        original_folder: folder.name@,
        items: items_in(folder, folder.name@, Seq::empty()),
    }
}

/// The sections of the top-level folders that hold a page, in order.
pub open spec fn sections_of(folders: Seq<ScannedFolder>) -> Seq<DetectedSectionView>
    decreases folders.len(),
{
    if folders.len() == 0 {
        Seq::empty()
    } else if section_of(folders.last()).items.len() > 0 {
        sections_of(folders.drop_last()).push(section_of(folders.last()))
    } else {
        sections_of(folders.drop_last())
    }
}

/// Whether a file of this name is a page.
pub fn is_markdown_name(name: &str) -> (yes: bool)
    ensures
        yes == is_markdown(name@),
{
    let chars = chars_of(name);
    match find_last(&chars, '.') {
        Some(dot) => dot >= 1 && str_eq(
            string_of_range(&chars, dot + 1, chars.len()).as_str(),
            "md",
        ),
        None => false,
    }
}

/// A file's name without the ending `.md`.
pub fn file_stem(name: &str) -> (stem: String)
    ensures
        stem@ == stem_of(name@),
{
    let chars = chars_of(name);
    match find_last(&chars, '.') {
        Some(dot) => {
            if str_eq(string_of_range(&chars, dot + 1, chars.len()).as_str(), "md") {
                string_of_range(&chars, 0, dot)
            } else {
                name.to_owned()
            }
        },
        None => name.to_owned(),
    }
}

/// The path of what is called `name` below `relative`.
pub fn path_below(relative: &str, name: &str) -> (path: String)
    ensures
        path@ == below(relative@, name@),
{
    if relative.is_empty() {
        name.to_owned()
    } else {
        relative.to_owned().concat("/").concat(name)
    }
}

impl ConfigBuilder {
    /// The id of what is called `name` below `relative`.
    fn nested_id(&self, relative: &str, name: &str) -> (id: String)
        ensures
            id@ == nested_id_of(relative@, name@),
    {
        let flat = replace_char(relative, '/', "_");
        self.generate_id(flat.concat("_").concat(name).as_str())
    }

    /// The page that the markdown file `filename` stands for. `content` is
    /// what the file holds, where it could be read.
    pub fn detect_file_item(
        &self,
        filename: &str,
        content: Option<&str>,
        base_folder: &str,
        relative_path: &str,
    ) -> (item: DetectedItem)
        ensures
            item@ == file_item_of(
                filename@,
                match content {
                    Some(content) => Some(content@),
                    None => None,
                },
                base_folder@,
                relative_path@,
            ),
    {
        let stem = file_stem(filename);
        let heading = match content {
            Some(content) => extract_title_from_markdown(content),
            None => None,
        };
        let title = match heading {
            Some(title) => title,
            None => self.format_title(stem.as_str()),
        };
        let file = base_folder.to_owned().concat("/").concat(
            path_below(relative_path, filename).as_str(),
        );
        let item = DetectedItem {
            title,
            id: self.nested_id(relative_path, stem.as_str()),
            file: Some(file),
            original_filename: filename.to_owned(),
            items: Vec::new(),
        };
        proof {
            lemma_detected_item_view(item);
            assert(item@.items =~= Seq::<DetectedItemView>::empty());
        }
        item
    }

    /// The items of one folder of the listing: its pages, then a folder item
    /// for each of its folders that holds a page somewhere below it.
    pub fn detect_items_recursive(
        &self,
        folder: &ScannedFolder,
        base_folder: &str,
        relative_path: &str,
    ) -> (items: Vec<DetectedItem>)
        ensures
            detected_items_view(items@) == items_in(*folder, base_folder@, relative_path@),
        decreases folder,
    {
        let mut items: Vec<DetectedItem> = Vec::new();
        let mut i: usize = 0;
        assert(folder.files@.take(0) =~= Seq::<ScannedFile>::empty());
        assert(detected_items_view(items@) =~= Seq::<DetectedItemView>::empty());
        while i < folder.files.len()
            invariant
                i <= folder.files.len(),
                detected_items_view(items@) == file_items(
                    folder.files@.take(i as int),
                    base_folder@,
                    relative_path@,
                ),
            decreases folder.files.len() - i,
        {
            let file = &folder.files[i];
            proof {
                assert(folder.files@.take(i + 1).drop_last() == folder.files@.take(i as int));
                assert(folder.files@.take(i + 1).last() == *file);
            }
            if is_markdown_name(file.name.as_str()) {
                let content: Option<&str> = match &file.content {
                    Some(content) => Some(content.as_str()),
                    None => None,
                };
                let ghost before = detected_items_view(items@);
                let item = self.detect_file_item(
                    file.name.as_str(),
                    content,
                    base_folder,
                    relative_path,
                );
                items.push(item);
                assert(detected_items_view(items@) =~= before.push(item@));
            }
            i += 1;
        }
        assert(folder.files@.take(i as int) == folder.files@);
        let ghost pages = detected_items_view(items@);
        let mut k: usize = 0;
        assert(folder.folders@.take(0) =~= Seq::<ScannedFolder>::empty());
        assert(pages + Seq::<DetectedItemView>::empty() =~= pages);
        while k < folder.folders.len()
            invariant
                k <= folder.folders.len(),
                detected_items_view(items@) == pages + folder_items(
                    folder.folders@.take(k as int),
                    base_folder@,
                    relative_path@,
                ),
            decreases folder, folder.folders.len() - k,
        {
            let nested = &folder.folders[k];
            proof {
                assert(folder.folders@.take(k + 1).drop_last() == folder.folders@.take(k as int));
                assert(folder.folders@.take(k + 1).last() == *nested);
            }
            let nested_path = path_below(relative_path, nested.name.as_str());
            let inside = self.detect_items_recursive(nested, base_folder, nested_path.as_str());
            if inside.len() > 0 {
                let ghost before = detected_items_view(items@);
                let item = DetectedItem {
                    title: self.format_title(nested.name.as_str()),
                    id: self.nested_id(relative_path, nested.name.as_str()),
                    file: None,
                    original_filename: nested.name.clone(),
                    items: inside,
                };
                proof {
                    lemma_detected_item_view(item);
                }
                items.push(item);
                assert(detected_items_view(items@) =~= before.push(item@));
            }
            k += 1;
        }
        assert(folder.folders@.take(k as int) == folder.folders@);
        items
    }

    /// The section that a top-level folder of the listing stands for.
    pub fn detect_section(&self, folder: &ScannedFolder) -> (section: DetectedSection)
        ensures
            section@ == section_of(*folder),
    {
        proof {
            reveal_strlit("");
            assert(""@ =~= Seq::<char>::empty());
        }
        let items = self.detect_items_recursive(folder, folder.name.as_str(), "");
        DetectedSection {
            title: self.format_title(folder.name.as_str()),
            id: self.generate_id(folder.name.as_str()),
            original_folder: folder.name.clone(),
            items,
        }
    }

    /// The structure of the site: a section for every top-level folder of
    /// the listing that holds a page, under a title and a description that
    /// the options may replace.
    pub fn detect_structure(&self, folders: &Vec<ScannedFolder>) -> (detected: DetectedConfig)
        ensures
            detected.title@ == "Documentation"@,
            detected.description@ == "Generated documentation site"@,
            detected@.navigation == sections_of(folders@),
    {
        let mut navigation: Vec<DetectedSection> = Vec::new();
        let mut i: usize = 0;
        assert(folders@.take(0) =~= Seq::<ScannedFolder>::empty());
        assert(navigation@.map_values(|s: DetectedSection| s@) =~= Seq::<
            DetectedSectionView,
        >::empty());
        while i < folders.len()
            invariant
                i <= folders.len(),
                navigation@.map_values(|s: DetectedSection| s@) == sections_of(
                    folders@.take(i as int),
                ),
            decreases folders.len() - i,
        {
            proof {
                assert(folders@.take(i + 1).drop_last() == folders@.take(i as int));
                assert(folders@.take(i + 1).last() == folders[i as int]);
            }
            let section = self.detect_section(&folders[i]);
            if section.items.len() > 0 {
                let ghost before = navigation@.map_values(|s: DetectedSection| s@);
                navigation.push(section);
                assert(navigation@.map_values(|s: DetectedSection| s@) =~= before.push(section@));
            }
            i += 1;
        }
        assert(folders@.take(i as int) == folders@);
        DetectedConfig {
            title: "Documentation".to_owned(),
            description: "Generated documentation site".to_owned(),
            navigation,
        }
    }
}

} // verus!
