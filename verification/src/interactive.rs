//! The answers of the interactive builder: what a line typed by the user
//! means, and what it does to the detected structure.
//!
//! Asking the questions and reading the lines is left to the embedding
//! program.

use crate::config_builder::{
    detected_items_view, id_of, lemma_detected_item_view, ConfigBuilder, DetectedConfig,
    DetectedItem, DetectedItemView, DetectedSection, DetectedSectionView,
};
use crate::text::{chars_of, split_words, str_eq, strings_view, trim, trim_ws, words_of};
use vstd::prelude::*;

verus! {

/// Whether every character of `s` is a decimal digit.
pub open spec fn all_digits(s: Seq<char>) -> bool {
    forall|i: int| 0 <= i < s.len() ==> '0' <= #[trigger] s[i] <= '9'
}

/// The number that the digits of `s` spell.
pub open spec fn digits_value(s: Seq<char>) -> nat
    decreases s.len(),
{
    if s.len() == 0 {
        0
    } else {
        digits_value(s.drop_last()) * 10 + ((s.last() as u8) - ('0' as u8)) as nat
    }
}

/// The digits of a numeral: all of it, but for a plus sign in front.
pub open spec fn digits_of(s: Seq<char>) -> Seq<char> {
    if s.len() > 0 && s[0] == '+' {
        s.drop_first()
    } else {
        s
    }
}

/// The number that `s` spells, if it is a numeral for a number that fits:
/// one or more decimal digits, with or without a plus sign in front.
pub open spec fn number_of(s: Seq<char>) -> Option<usize> {
    if digits_of(s).len() > 0 && all_digits(digits_of(s)) && digits_value(digits_of(s))
        <= usize::MAX {
        Some(digits_value(digits_of(s)) as usize)
    } else {
        None
    }
}

/// More digits spell no smaller a number.
proof fn lemma_digits_value_grows(s: Seq<char>, upto: int)
    requires
        0 <= upto <= s.len(),
    ensures
        digits_value(s.take(upto)) <= digits_value(s),
    decreases s.len() - upto,
{
    if upto == s.len() {
        assert(s.take(upto) == s);
    } else {
        assert(s.take(upto + 1).drop_last() == s.take(upto));
        lemma_digits_value_grows(s, upto + 1);
    }
}

/// Reads a numeral.
pub fn parse_number(s: &str) -> (number: Option<usize>)
    ensures
        number == number_of(s@),
{
    let chars = chars_of(s);
    let start: usize = if chars.len() > 0 && chars[0] == '+' {
        1
    } else {
        0
    };
    let ghost digits = digits_of(chars@);
    assert(digits == chars@.skip(start as int));
    if start == chars.len() {
        return None;
    }
    let mut value: usize = 0;
    let mut i: usize = start;
    assert(digits.take(0) =~= Seq::<char>::empty());
    while i < chars.len()
        invariant
            start <= i <= chars.len(),
            chars@ == s@,
            digits == digits_of(chars@),
            digits == chars@.skip(start as int),
            all_digits(digits.take(i - start)),
            value == digits_value(digits.take(i - start)),
        decreases chars.len() - i,
    {
        let c = chars[i];
        proof {
            assert(digits[i - start] == c);
            assert(digits.take(i - start + 1).drop_last() == digits.take(i - start));
            assert(digits.take(i - start + 1).last() == c);
            lemma_digits_value_grows(digits, i - start + 1);
        }
        if !('0' <= c && c <= '9') {
            assert(!all_digits(digits));
            return None;
        }
        let digit: usize = ((c as u8) - 48u8) as usize;
        let next = match value.checked_mul(10) {
            Some(tens) => tens.checked_add(digit),
            None => None,
        };
        match next {
            Some(next) => {
                value = next;
            },
            None => {
                assert(digits_value(digits.take(i - start + 1)) == value * 10 + digit);
                assert(digits_value(digits) > usize::MAX);
                return None;
            },
        }
        assert forall|j: int| 0 <= j < i - start + 1 implies '0' <= #[trigger] digits.take(
            i - start + 1,
        )[j] <= '9' by {
            if j < i - start {
                assert(digits.take(i - start)[j] == digits[j]);
            }
        }
        i += 1;
    }
    assert(digits.take(i - start) == digits);
    Some(value)
}

/// What an answer to a question with a default means: the answer without
/// surrounding white space, or the default where that is empty.
pub open spec fn answer_of(input: Seq<char>, default: Seq<char>) -> Seq<char> {
    if trim_ws(input).len() == 0 {
        default
    } else {
        trim_ws(input)
    }
}

/// The choice that an answer makes among the numbers from `min` to `max`,
/// if it makes one.
pub open spec fn choice_of(input: Seq<char>, min: usize, max: usize) -> Option<usize> {
    match number_of(trim_ws(input)) {
        Some(n) => if min <= n <= max {
            Some(n)
        } else {
            None
        },
        None => None,
    }
}

/// The positions that a list of numerals names, counted from the first as
/// one: nothing if any of them is no numeral, or spells zero.
pub open spec fn positions_of(words: Seq<Seq<char>>) -> Option<Seq<int>>
    decreases words.len(),
{
    if words.len() == 0 {
        Some(Seq::<int>::empty())
    } else {
        match (positions_of(words.drop_last()), number_of(words.last())) {
            (Some(before), Some(n)) => if n >= 1 {
                Some(before.push(n - 1))
            } else {
                None
            },
            _ => None,
        }
    }
}

/// The new order that an answer gives to `count` entries: as many numbers
/// as there are entries, each the place of an entry, separated by white
/// space. Anything else is no order.
pub open spec fn order_of(input: Seq<char>, count: nat) -> Option<Seq<int>> {
    match positions_of(words_of(trim_ws(input))) {
        Some(positions) => if positions.len() == count && (forall|j: int|
            0 <= j < positions.len() ==> 0 <= #[trigger] positions[j] < count) {
            Some(positions)
        } else {
            None
        },
        None => None,
    }
}

/// The entries at the given positions, in the order of the positions.
pub open spec fn picked<T>(entries: Seq<T>, positions: Seq<int>) -> Seq<T> {
    Seq::new(positions.len(), |j: int| entries[positions[j]])
}

/// The positions of a sequence of indices.
pub open spec fn indices_view(indices: Seq<usize>) -> Seq<int> {
    indices.map_values(|i: usize| i as int)
}

/// What became of a request to reorder.
#[derive(Clone, Copy, Debug, PartialEq, Eq, Structural)]
pub enum Reordering {
    /// There are fewer than two entries: nothing to reorder.
    TooFew,
    /// The answer gave no order: the entries stay as they were.
    Invalid,
    /// The entries are in the new order.
    Reordered,
}

/// An answer, or the default.
pub fn answer_or_default(input: &str, default: &str) -> (answer: String)
    ensures
        answer@ == answer_of(input@, default@),
{
    let trimmed = trim(input);
    if trimmed.as_str().is_empty() {
        default.to_owned()
    } else {
        trimmed
    }
}

/// Reads a choice among the numbers from `min` to `max`.
pub fn parse_choice(input: &str, min: usize, max: usize) -> (choice: Option<usize>)
    ensures
        choice == choice_of(input@, min, max),
{
    match parse_number(trim(input).as_str()) {
        Some(n) => if min <= n && n <= max {
            Some(n)
        } else {
            None
        },
        None => None,
    }
}

/// Reads a new order for `count` entries.
pub fn parse_order(input: &str, count: usize) -> (order: Option<Vec<usize>>)
    ensures
        match order {
            Some(indices) => order_of(input@, count as nat) == Some(indices_view(indices@)),
            None => order_of(input@, count as nat) is None,
        },
{
    let words = split_words(trim(input).as_str());
    let ghost all = strings_view(words@);
    let mut indices: Vec<usize> = Vec::new();
    let mut in_range = true;
    let mut i: usize = 0;
    assert(all.take(0) =~= Seq::<Seq<char>>::empty());
    assert(indices_view(indices@) =~= Seq::<int>::empty());
    while i < words.len()
        invariant
            i <= words.len(),
            all == strings_view(words@),
            all == words_of(trim_ws(input@)),
            positions_of(all.take(i as int)) == Some(indices_view(indices@)),
            in_range == (forall|j: int|
                0 <= j < indices.len() ==> 0 <= #[trigger] indices_view(indices@)[j] < count),
        decreases words.len() - i,
    {
        proof {
            assert(all.take(i + 1).drop_last() == all.take(i as int));
            assert(all.take(i + 1).last() == words[i as int]@);
        }
        match parse_number(words[i].as_str()) {
            Some(n) => {
                if n < 1 {
                    proof {
                        lemma_positions_stay_none(all, i + 1);
                    }
                    return None;
                }
                let ghost before = indices_view(indices@);
                indices.push(n - 1);
                assert(indices_view(indices@) =~= before.push(n - 1));
                if n - 1 >= count {
                    in_range = false;
                    assert(!(0 <= indices_view(indices@)[indices.len() - 1] < count));
                }
                proof {
                    if n - 1 < count && in_range {
                        assert forall|j: int| 0 <= j < indices.len() implies 0
                            <= #[trigger] indices_view(indices@)[j] < count by {
                            if j < indices.len() - 1 {
                                assert(indices_view(indices@)[j] == before[j]);
                            }
                        }
                    } else if n - 1 < count {
                        let j = choose|j: int|
                            0 <= j < before.len() && !(0 <= #[trigger] before[j] < count);
                        assert(indices_view(indices@)[j] == before[j]);
                    }
                }
            },
            None => {
                proof {
                    lemma_positions_stay_none(all, i + 1);
                }
                return None;
            },
        }
        i += 1;
    }
    assert(all.take(i as int) == all);
    if indices.len() == count && in_range {
        Some(indices)
    } else {
        None
    }
}

/// Once a numeral is refused, the whole list is.
proof fn lemma_positions_stay_none(words: Seq<Seq<char>>, upto: int)
    requires
        0 <= upto <= words.len(),
        positions_of(words.take(upto)) is None,
    ensures
        positions_of(words) is None,
    decreases words.len() - upto,
{
    if upto == words.len() {
        assert(words.take(upto) == words);
    } else {
        assert(words.take(upto + 1).drop_last() == words.take(upto));
        lemma_positions_stay_none(words, upto + 1);
    }
}

/// A page under a new title, which also decides its id.
pub open spec fn item_retitled(item: DetectedItemView, title: Seq<char>) -> DetectedItemView {
    DetectedItemView { title, id: id_of(title), ..item }
}

/// A section under a new title, which also decides its id.
pub open spec fn section_retitled(section: DetectedSectionView, title: Seq<char>) -> DetectedSectionView {
    DetectedSectionView { title, id: id_of(title), ..section }
}

impl ConfigBuilder {
    /// A copy of a detected item, with all that is below it.
    pub fn duplicate_item(&self, item: &DetectedItem) -> (copy: DetectedItem)
        ensures
            copy@ == item@,
        decreases item,
    {
        let mut items: Vec<DetectedItem> = Vec::new();
        let mut i: usize = 0;
        while i < item.items.len()
            invariant
                i <= item.items.len(),
                items.len() == i,
                forall|j: int| 0 <= j < i ==> (#[trigger] items[j])@ == item.items[j]@,
            decreases item, item.items.len() - i,
        {
            items.push(self.duplicate_item(&item.items[i]));
            i += 1;
        }
        let copy = DetectedItem {
            title: item.title.clone(),
            id: item.id.clone(),
            file: match &item.file {
                Some(file) => Some(file.clone()),
                None => None,
            },
            original_filename: item.original_filename.clone(),
            items,
        };
        proof {
            lemma_detected_item_view(*item);
            lemma_detected_item_view(copy);
            assert(copy@.items =~= item@.items);
        }
        copy
    }

    /// A copy of a detected section, with all that is in it.
    pub fn duplicate_section(&self, section: &DetectedSection) -> (copy: DetectedSection)
        ensures
            copy@ == section@,
    {
        let mut items: Vec<DetectedItem> = Vec::new();
        let mut i: usize = 0;
        while i < section.items.len()
            invariant
                i <= section.items.len(),
                items.len() == i,
                forall|j: int| 0 <= j < i ==> (#[trigger] items[j])@ == section.items[j]@,
            decreases section.items.len() - i,
        {
            items.push(self.duplicate_item(&section.items[i]));
            i += 1;
        }
        assert(detected_items_view(items@) =~= detected_items_view(section.items@));
        DetectedSection {
            title: section.title.clone(),
            id: section.id.clone(),
            original_folder: section.original_folder.clone(),
            items,
        }
    }

    /// Gives the page at `index` the title `new_title`, and the id that
    /// goes with it, unless that is the title it has. Says whether anything
    /// changed. An index beyond the pages changes nothing.
    pub fn rename_page(&self, items: &mut Vec<DetectedItem>, index: usize, new_title: &str) -> (changed:
        bool)
        ensures
            changed == (index < old(items).len() && old(items)[index as int].title@ != new_title@),
            changed ==> detected_items_view(final(items)@) == detected_items_view(
                old(items)@,
            ).update(index as int, item_retitled(old(items)[index as int]@, new_title@)),
            !changed ==> final(items)@ == old(items)@,
    {
        if index >= items.len() {
            return false;
        }
        if str_eq(items[index].title.as_str(), new_title) {
            return false;
        }
        let ghost before = items@;
        let new_id = self.generate_id(new_title);
        items[index].title = new_title.to_owned();
        items[index].id = new_id;
        proof {
            assert(items[index as int]@.items =~= before[index as int]@.items);
            assert(detected_items_view(items@) =~= detected_items_view(before).update(
                index as int,
                item_retitled(before[index as int]@, new_title@),
            ));
        }
        true
    }

    /// Gives the section at `index` the title `new_title`, and the id that
    /// goes with it. Says whether there is such a section.
    pub fn rename_section(&self, config: &mut DetectedConfig, index: usize, new_title: &str) -> (renamed:
        bool)
        ensures
            renamed == (index < old(config).navigation.len()),
            final(config).title == old(config).title,
            final(config).description == old(config).description,
            renamed ==> final(config)@.navigation == old(config)@.navigation.update(
                index as int,
                section_retitled(old(config).navigation[index as int]@, new_title@),
            ),
            !renamed ==> final(config).navigation@ == old(config).navigation@,
    {
        if index >= config.navigation.len() {
            return false;
        }
        let ghost before = config.navigation@;
        let new_id = self.generate_id(new_title);
        config.navigation[index].title = new_title.to_owned();
        config.navigation[index].id = new_id;
        proof {
            assert(config@.navigation =~= before.map_values(|s: DetectedSection| s@).update(
                index as int,
                section_retitled(before[index as int]@, new_title@),
            ));
        }
        true
    }

    /// Takes the section at `index` out of the structure and hands it back.
    /// An index beyond the sections takes nothing out.
    pub fn remove_section(&self, config: &mut DetectedConfig, index: usize) -> (removed: Option<
        DetectedSection,
    >)
        ensures
            final(config).title == old(config).title,
            final(config).description == old(config).description,
            index < old(config).navigation.len() ==> removed == Some(
                old(config).navigation[index as int],
            ) && final(config).navigation@ == old(config).navigation@.remove(index as int),
            index >= old(config).navigation.len() ==> removed is None && final(config).navigation@
                == old(config).navigation@,
    {
        if index < config.navigation.len() {
            Some(config.navigation.remove(index))
        } else {
            None
        }
    }

    /// Puts the pages in the order that the answer `input` gives. Fewer than
    /// two pages, and an answer that gives no order, leave them as they are.
    pub fn reorder_pages(&self, items: Vec<DetectedItem>, input: &str) -> (out: (
        Vec<DetectedItem>,
        Reordering,
    ))
        ensures
            out.1 == if items.len() < 2 {
                Reordering::TooFew
            } else if order_of(input@, items.len() as nat) is Some {
                Reordering::Reordered
            } else {
                Reordering::Invalid
            },
            out.1 is Reordered ==> detected_items_view(out.0@) == picked(
                detected_items_view(items@),
                order_of(input@, items.len() as nat)->0,
            ),
            !(out.1 is Reordered) ==> out.0@ == items@,
    {
        if items.len() < 2 {
            return (items, Reordering::TooFew);
        }
        match parse_order(input, items.len()) {
            Some(indices) => {
                let mut reordered: Vec<DetectedItem> = Vec::new();
                let mut j: usize = 0;
                while j < indices.len()
                    invariant
                        j <= indices.len(),
                        reordered.len() == j,
                        forall|k: int|
                            0 <= k < indices.len() ==> 0 <= #[trigger] indices_view(indices@)[k]
                                < items.len(),
                        forall|k: int|
                            0 <= k < j ==> (#[trigger] reordered[k])@ == items[indices[k] as int]@,
                    decreases indices.len() - j,
                {
                    assert(indices_view(indices@)[j as int] == indices[j as int]);
                    reordered.push(self.duplicate_item(&items[indices[j]]));
                    j += 1;
                }
                let ghost views = detected_items_view(reordered@);
                let ghost wanted = picked(detected_items_view(items@), indices_view(indices@));
                assert(views =~= wanted) by {
                    assert forall|k: int| 0 <= k < indices.len() implies #[trigger] views[k]
                        == wanted[k] by {
                        assert(indices_view(indices@)[k] == indices[k]);
                    }
                }
                (reordered, Reordering::Reordered)
            },
            None => (items, Reordering::Invalid),
        }
    }

    /// Puts the sections in the order that the answer `input` gives. Fewer
    /// than two sections, and an answer that gives no order, leave them as
    /// they are.
    pub fn reorder_sections(&self, config: &mut DetectedConfig, input: &str) -> (outcome: Reordering)
        ensures
            final(config).title == old(config).title,
            final(config).description == old(config).description,
            outcome == if old(config).navigation.len() < 2 {
                Reordering::TooFew
            } else if order_of(input@, old(config).navigation.len() as nat) is Some {
                Reordering::Reordered
            } else {
                Reordering::Invalid
            },
            outcome is Reordered ==> final(config)@.navigation == picked(
                old(config)@.navigation,
                order_of(input@, old(config).navigation.len() as nat)->0,
            ),
            !(outcome is Reordered) ==> final(config).navigation@ == old(config).navigation@,
    {
        if config.navigation.len() < 2 {
            return Reordering::TooFew;
        }
        match parse_order(input, config.navigation.len()) {
            Some(indices) => {
                let ghost before = config.navigation@;
                let mut reordered: Vec<DetectedSection> = Vec::new();
                let mut j: usize = 0;
                while j < indices.len()
                    invariant
                        j <= indices.len(),
                        reordered.len() == j,
                        config.navigation@ == before,
                        forall|k: int|
                            0 <= k < indices.len() ==> 0 <= #[trigger] indices_view(indices@)[k]
                                < before.len(),
                        forall|k: int|
                            0 <= k < j ==> (#[trigger] reordered[k])@ == before[indices[k] as int]@,
                    decreases indices.len() - j,
                {
                    assert(indices_view(indices@)[j as int] == indices[j as int]);
                    reordered.push(self.duplicate_section(&config.navigation[indices[j]]));
                    j += 1;
                }
                let ghost views = reordered@.map_values(|s: DetectedSection| s@);
                let ghost wanted = picked(
                    before.map_values(|s: DetectedSection| s@),
                    indices_view(indices@),
                );
                assert(views =~= wanted) by {
                    assert forall|k: int| 0 <= k < indices.len() implies #[trigger] views[k]
                        == wanted[k] by {
                        assert(indices_view(indices@)[k] == indices[k]);
                    }
                }
                config.navigation = reordered;
                Reordering::Reordered
            },
            None => Reordering::Invalid,
        }
    }
}

} // verus!
