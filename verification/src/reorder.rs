//! Putting a list in an order that names some of its entries.

use crate::text::{str_eq, strings_view};
use vstd::prelude::*;

verus! {

/// The position of the first `name` among `names`; their number when none
/// of them is `name`.
pub open spec fn position_of(names: Seq<Seq<char>>, name: Seq<char>) -> int
    decreases names.len(),
{
    if names.len() == 0 {
        0
    } else if names[0] == name {
        0
    } else {
        1 + position_of(names.drop_first(), name)
    }
}

/// `items`, whose names are `names`, in the order that `order` asks for.
/// Each name of `order` in turn picks the first entry of that name that is
/// still there; a name that picks nothing is passed over; the entries that
/// no name picked follow, in the order that they had.
pub open spec fn reordered<T>(items: Seq<T>, names: Seq<Seq<char>>, order: Seq<Seq<char>>) -> Seq<
    T,
>
    decreases order.len(),
{
    if order.len() == 0 {
        items
    } else {
        let at = position_of(names, order[0]);
        if 0 <= at < names.len() && at < items.len() {
            seq![items[at]] + reordered(items.remove(at), names.remove(at), order.drop_first())
        } else {
            reordered(items, names, order.drop_first())
        }
    }
}

/// Reordering keeps every entry as it is: it commutes with any function
/// applied to each entry.
pub proof fn lemma_reordered_map<T, U>(
    items: Seq<T>,
    names: Seq<Seq<char>>,
    order: Seq<Seq<char>>,
    f: spec_fn(T) -> U,
)
    ensures
        reordered(items, names, order).map_values(f) == reordered(
            items.map_values(f),
            names,
            order,
        ),
    decreases order.len(),
{
    if order.len() == 0 {
    } else {
        let at = position_of(names, order[0]);
        if 0 <= at < names.len() && at < items.len() {
            lemma_reordered_map(items.remove(at), names.remove(at), order.drop_first(), f);
            assert(items.remove(at).map_values(f) =~= items.map_values(f).remove(at));
            assert((seq![items[at]] + reordered(
                items.remove(at),
                names.remove(at),
                order.drop_first(),
            )).map_values(f) =~= seq![f(items[at])] + reordered(
                items.remove(at),
                names.remove(at),
                order.drop_first(),
            ).map_values(f));
        } else {
            lemma_reordered_map(items, names, order.drop_first(), f);
        }
    }
}

/// The position of the first string of `names` that reads `name`.
pub fn find_name(names: &Vec<String>, name: &str) -> (at: usize)
    ensures
        at as int == position_of(strings_view(names@), name@),
        at <= names.len(),
{
    let mut i: usize = 0;
    assert(strings_view(names@).skip(0) == strings_view(names@));
    while i < names.len()
        invariant
            i <= names.len(),
            position_of(strings_view(names@), name@) == i + position_of(
                strings_view(names@).skip(i as int),
                name@,
            ),
        decreases names.len() - i,
    {
        proof {
            let rest = strings_view(names@).skip(i as int);
            assert(rest[0] == names[i as int]@);
            assert(rest.drop_first() == strings_view(names@).skip(i + 1));
        }
        if str_eq(names[i].as_str(), name) {
            return i;
        }
        i += 1;
    }
    i
}

/// Puts `items`, whose names are `names`, in the order that `order` asks for.
/// A name that stands where there is no item picks nothing.
pub fn reorder_by_name<T>(items: Vec<T>, names: Vec<String>, order: &Vec<String>) -> (result: Vec<
    T,
>)
    ensures
        result@ == reordered(items@, strings_view(names@), strings_view(order@)),
{
    let ghost all_items = items@;
    let ghost all_names = strings_view(names@);
    let ghost wanted = strings_view(order@);
    let mut items = items;
    let mut names = names;
    let mut picked: Vec<T> = Vec::new();
    let mut k: usize = 0;
    assert(wanted.skip(0) == wanted);
    assert(picked@ + reordered(items@, strings_view(names@), wanted) =~= reordered(
        items@,
        strings_view(names@),
        wanted,
    ));
    while k < order.len()
        invariant
            k <= order.len(),
            wanted == strings_view(order@),
            reordered(all_items, all_names, wanted) == picked@ + reordered(
                items@,
                strings_view(names@),
                wanted.skip(k as int),
            ),
        decreases order.len() - k,
    {
        let ghost before_items = items@;
        let ghost before_names = strings_view(names@);
        let ghost before_picked = picked@;
        proof {
            assert(wanted.skip(k as int)[0] == order[k as int]@);
            assert(wanted.skip(k as int).drop_first() == wanted.skip(k + 1));
        }
        let at = find_name(&names, order[k].as_str());
        if at < names.len() && at < items.len() {
            let item = items.remove(at);
            names.remove(at);
            picked.push(item);
            proof {
                assert(strings_view(names@) =~= before_names.remove(at as int));
                assert(picked@ + reordered(items@, strings_view(names@), wanted.skip(k + 1))
                    =~= before_picked + (seq![before_items[at as int]] + reordered(
                    before_items.remove(at as int),
                    before_names.remove(at as int),
                    wanted.skip(k + 1),
                )));
            }
        }
        k += 1;
    }
    assert(wanted.skip(k as int).len() == 0);
    picked.append(&mut items);
    picked
}

/// `v` back to front.
pub fn reversed<T>(v: Vec<T>) -> (r: Vec<T>)
    ensures
        r@ == v@.reverse(),
{
    let ghost all = v@;
    let mut rest = v;
    let mut r: Vec<T> = Vec::new();
    while rest.len() > 0
        invariant
            rest@ == all.take(rest.len() as int),
            r.len() + rest.len() == all.len(),
            forall|j: int| 0 <= j < r.len() ==> #[trigger] r[j] == all[all.len() - 1 - j],
        decreases rest.len(),
    {
        let x = rest.pop().unwrap();
        r.push(x);
    }
    assert(r@ =~= all.reverse());
    r
}

} // verus!
