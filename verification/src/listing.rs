//! Keeping a listing in alphabetical order.
//!
//! Names are ordered as strings are: character by character, by code point,
//! a name before every longer name that starts with it.

use crate::detect::{ScannedFile, ScannedFolder};
use crate::text::chars_of;
use vstd::prelude::*;

verus! {

/// `a` comes before `b`, or is `b`.
pub open spec fn name_le(a: Seq<char>, b: Seq<char>) -> bool
    decreases a.len(),
{
    if a.len() == 0 {
        true
    } else if b.len() == 0 {
        false
    } else if a[0] != b[0] {
        a[0] < b[0]
    } else {
        name_le(a.drop_first(), b.drop_first())
    }
}

/// The names are in alphabetical order.
pub open spec fn in_order(names: Seq<Seq<char>>) -> bool {
    forall|i: int, j: int| 0 <= i < j < names.len() ==> name_le(names[i], names[j])
}

/// Where `name` goes among `names`: behind the leading names that do not
/// come after it.
pub open spec fn place_of(names: Seq<Seq<char>>, name: Seq<char>) -> int
    decreases names.len(),
{
    if names.len() == 0 || !name_le(names[0], name) {
        0
    } else {
        1 + place_of(names.drop_first(), name)
    }
}

/// The names of a sequence of files.
pub open spec fn file_names(files: Seq<ScannedFile>) -> Seq<Seq<char>> {
    files.map_values(|f: ScannedFile| f.name@)
}

/// The names of a sequence of folders.
pub open spec fn folder_names(folders: Seq<ScannedFolder>) -> Seq<Seq<char>> {
    folders.map_values(|f: ScannedFolder| f.name@)
}

/// Of two names, one does not come after the other.
pub proof fn lemma_name_le_total(a: Seq<char>, b: Seq<char>)
    ensures
        name_le(a, b) || name_le(b, a),
    decreases a.len(),
{
    if a.len() > 0 && b.len() > 0 && a[0] == b[0] {
        lemma_name_le_total(a.drop_first(), b.drop_first());
    }
}

/// The order of names is transitive.
pub proof fn lemma_name_le_transitive(a: Seq<char>, b: Seq<char>, c: Seq<char>)
    requires
        name_le(a, b),
        name_le(b, c),
    ensures
        name_le(a, c),
    decreases a.len(),
{
    if a.len() > 0 && b.len() > 0 && c.len() > 0 && a[0] == b[0] && b[0] == c[0] {
        lemma_name_le_transitive(a.drop_first(), b.drop_first(), c.drop_first());
    }
}

/// The place of a name lies among the names; every name before it does not
/// come after the name, and the name at it, if there is one, does.
pub proof fn lemma_place_of(names: Seq<Seq<char>>, name: Seq<char>)
    ensures
        0 <= place_of(names, name) <= names.len(),
        forall|i: int| 0 <= i < place_of(names, name) ==> name_le(#[trigger] names[i], name),
        place_of(names, name) < names.len() ==> !name_le(names[place_of(names, name)], name),
    decreases names.len(),
{
    if names.len() > 0 && name_le(names[0], name) {
        let rest = names.drop_first();
        lemma_place_of(rest, name);
        let at = place_of(rest, name);
        assert forall|i: int| 0 <= i < at + 1 implies name_le(#[trigger] names[i], name) by {
            if i > 0 {
                assert(rest[i - 1] == names[i]);
            }
        }
        if at < rest.len() {
            assert(rest[at] == names[at + 1]);
        }
    }
}

/// A listing that is in order stays in order when a name is put at its
/// place.
pub proof fn lemma_insert_keeps_order(names: Seq<Seq<char>>, name: Seq<char>)
    requires
        in_order(names),
    ensures
        in_order(names.insert(place_of(names, name), name)),
{
    lemma_place_of(names, name);
    let at = place_of(names, name);
    let after = names.insert(at, name);
    assert forall|i: int, j: int| 0 <= i < j < after.len() implies name_le(after[i], after[j]) by {
        if j < at {
            assert(after[i] == names[i] && after[j] == names[j]);
        } else if j == at {
            assert(after[i] == names[i]);
        } else if i == at {
            // The name at the place comes after the new name, and every
            // later name does not come before that one.
            assert(after[j] == names[j - 1]);
            lemma_name_le_total(names[at], name);
            if j - 1 > at {
                lemma_name_le_transitive(name, names[at], names[j - 1]);
            }
        } else if i < at {
            assert(after[i] == names[i] && after[j] == names[j - 1]);
        } else {
            assert(after[i] == names[i - 1] && after[j] == names[j - 1]);
        }
    }
}

/// Whether `a` comes before `b`, or is `b`.
pub fn name_not_after(a: &str, b: &str) -> (le: bool)
    ensures
        le == name_le(a@, b@),
{
    let first = chars_of(a);
    let second = chars_of(b);
    let mut i: usize = 0;
    assert(first@.skip(0) == first@ && second@.skip(0) == second@);
    while i < first.len() && i < second.len()
        invariant
            i <= first.len(),
            i <= second.len(),
            first@ == a@,
            second@ == b@,
            name_le(first@, second@) == name_le(first@.skip(i as int), second@.skip(i as int)),
        decreases first.len() - i,
    {
        proof {
            assert(first@.skip(i as int)[0] == first[i as int]);
            assert(second@.skip(i as int)[0] == second[i as int]);
            assert(first@.skip(i as int).drop_first() == first@.skip(i + 1));
            assert(second@.skip(i as int).drop_first() == second@.skip(i + 1));
        }
        if first[i] != second[i] {
            return first[i] < second[i];
        }
        i += 1;
    }
    i == first.len()
}

impl ScannedFolder {
    /// A folder that holds nothing yet.
    pub fn new(name: String) -> (folder: Self)
        ensures
            folder.name == name,
            folder.files@.len() == 0,
            folder.folders@.len() == 0,
    {
        ScannedFolder { name, files: Vec::new(), folders: Vec::new() }
    }

    /// Adds a file at its place among the files: behind the leading files
    /// whose names do not come after its own.
    pub fn add_file(&mut self, file: ScannedFile)
        ensures
            final(self).name == old(self).name,
            final(self).folders == old(self).folders,
            final(self).files@ == old(self).files@.insert(
                place_of(file_names(old(self).files@), file.name@),
                file,
            ),
    {
        let ghost names = file_names(self.files@);
        proof {
            lemma_place_of(names, file.name@);
        }
        let mut at: usize = 0;
        assert(names.skip(0) == names);
        while at < self.files.len() && name_not_after(
            self.files[at].name.as_str(),
            file.name.as_str(),
        )
            invariant
                at <= self.files.len(),
                names == file_names(self.files@),
                place_of(names, file.name@) == at + place_of(names.skip(at as int), file.name@),
            decreases self.files.len() - at,
        {
            proof {
                assert(names.skip(at as int)[0] == self.files[at as int].name@);
                assert(names.skip(at as int).drop_first() == names.skip(at + 1));
            }
            at += 1;
        }
        proof {
            if at < self.files.len() {
                assert(names.skip(at as int)[0] == self.files[at as int].name@);
            }
        }
        self.files.insert(at, file);
    }

    /// Adds a folder at its place among the folders: behind the leading
    /// folders whose names do not come after its own.
    pub fn add_folder(&mut self, folder: ScannedFolder)
        ensures
            final(self).name == old(self).name,
            final(self).files == old(self).files,
            final(self).folders@ == old(self).folders@.insert(
                place_of(folder_names(old(self).folders@), folder.name@),
                folder,
            ),
    {
        let ghost names = folder_names(self.folders@);
        proof {
            lemma_place_of(names, folder.name@);
        }
        let mut at: usize = 0;
        assert(names.skip(0) == names);
        while at < self.folders.len() && name_not_after(
            self.folders[at].name.as_str(),
            folder.name.as_str(),
        )
            invariant
                at <= self.folders.len(),
                names == folder_names(self.folders@),
                place_of(names, folder.name@) == at + place_of(names.skip(at as int), folder.name@),
            decreases self.folders.len() - at,
        {
            proof {
                assert(names.skip(at as int)[0] == self.folders[at as int].name@);
                assert(names.skip(at as int).drop_first() == names.skip(at + 1));
            }
            at += 1;
        }
        proof {
            if at < self.folders.len() {
                assert(names.skip(at as int)[0] == self.folders[at as int].name@);
            }
        }
        self.folders.insert(at, folder);
    }
}

/// Adding a file keeps the files of a folder in order.
pub proof fn lemma_files_stay_in_order(files: Seq<ScannedFile>, file: ScannedFile)
    requires
        in_order(file_names(files)),
    ensures
        in_order(file_names(files.insert(place_of(file_names(files), file.name@), file))),
{
    lemma_place_of(file_names(files), file.name@);
    lemma_insert_keeps_order(file_names(files), file.name@);
    assert(file_names(files.insert(place_of(file_names(files), file.name@), file))
        =~= file_names(files).insert(place_of(file_names(files), file.name@), file.name@));
}

/// Adding a folder keeps the folders of a folder in order.
pub proof fn lemma_folders_stay_in_order(folders: Seq<ScannedFolder>, folder: ScannedFolder)
    requires
        in_order(folder_names(folders)),
    ensures
        in_order(
            folder_names(folders.insert(place_of(folder_names(folders), folder.name@), folder)),
        ),
{
    lemma_place_of(folder_names(folders), folder.name@);
    lemma_insert_keeps_order(folder_names(folders), folder.name@);
    assert(folder_names(folders.insert(place_of(folder_names(folders), folder.name@), folder))
        =~= folder_names(folders).insert(
        place_of(folder_names(folders), folder.name@),
        folder.name@,
    ));
}

} // verus!
