//! The API collection document.

use vstd::prelude::*;

use crate::postman::{Info, Item, Variable};
use crate::text::{chars_eq, chars_of, spec_lowercase, to_lowercase};

verus! {

/// What identifies an item in the collection: its name and its method,
/// both lower-cased.
pub open spec fn item_key(it: Item) -> (Seq<char>, Seq<char>) {
    (spec_lowercase(it.name@), spec_lowercase(it.request.method@))
}

/// `p` is the first item with the same key as `it`.
pub open spec fn first_same_key(items: Seq<Item>, it: Item, p: int) -> bool {
    &&& 0 <= p < items.len()
    &&& item_key(items[p]) == item_key(it)
    &&& forall|j: int| 0 <= j < p ==> item_key(#[trigger] items[j]) != item_key(it)
}

/// The position of the first item with the same key as `it`, or `-1`.
pub open spec fn same_key_index(items: Seq<Item>, it: Item) -> int {
    if exists|p: int| first_same_key(items, it, p) {
        choose|p: int| first_same_key(items, it, p)
    } else {
        -1
    }
}

/// The items after adding `it`: an item with the same key leaves its place,
/// and `it` is appended.
pub open spec fn items_after_add(items: Seq<Item>, it: Item) -> Seq<Item> {
    let p = same_key_index(items, it);
    if p >= 0 {
        items.remove(p).push(it)
    } else {
        items.push(it)
    }
}

/// No two items share a key.
pub open spec fn unique_keys(items: Seq<Item>) -> bool {
    forall|i: int, j: int|
        0 <= i < items.len() && 0 <= j < items.len() && i != j ==> item_key(#[trigger] items[i])
            != item_key(#[trigger] items[j])
}

/// Adding an item keeps the keys of the collection unique: the added item
/// replaces the one with its name and method, and ends up last.
pub proof fn lemma_add_item_keeps_keys_unique(items: Seq<Item>, it: Item)
    requires
        unique_keys(items),
    ensures
        unique_keys(items_after_add(items, it)),
        items_after_add(items, it).last() == it,
        items_after_add(items, it).len() == (if same_key_index(items, it) >= 0 {
            items.len()
        } else {
            items.len() + 1
        }),
{
    let p = same_key_index(items, it);
    let n = items_after_add(items, it);
    if p >= 0 {
        assert(first_same_key(items, it, p));
        let r = items.remove(p);
        assert forall|i: int| 0 <= i < r.len() implies item_key(#[trigger] r[i]) != item_key(it) by {
            if i < p {
                assert(r[i] == items[i]);
            } else {
                assert(r[i] == items[i + 1]);
                assert(item_key(items[i + 1]) != item_key(items[p]));
            }
        }
        assert forall|i: int, j: int|
            0 <= i < n.len() && 0 <= j < n.len() && i != j implies item_key(#[trigger] n[i])
            != item_key(#[trigger] n[j]) by {
            if i < r.len() && j < r.len() {
                let oi = if i < p { i } else { i + 1 };
                let oj = if j < p { j } else { j + 1 };
                assert(r[i] == items[oi]);
                assert(r[j] == items[oj]);
            } else if i < r.len() {
                assert(n[i] == r[i]);
            } else if j < r.len() {
                assert(n[j] == r[j]);
            }
        }
    } else {
        assert forall|i: int| 0 <= i < items.len() implies item_key(#[trigger] items[i]) != item_key(it) by {
            if item_key(items[i]) == item_key(it) {
                lemma_same_key_exists(items, it, i);
            }
        }
        assert forall|i: int, j: int|
            0 <= i < n.len() && 0 <= j < n.len() && i != j implies item_key(#[trigger] n[i])
            != item_key(#[trigger] n[j]) by {
            if i < items.len() && j < items.len() {
                assert(n[i] == items[i]);
                assert(n[j] == items[j]);
            } else if i < items.len() {
                assert(n[i] == items[i]);
            } else if j < items.len() {
                assert(n[j] == items[j]);
            }
        }
    }
}

proof fn lemma_same_key_exists(items: Seq<Item>, it: Item, j: int)
    requires
        0 <= j < items.len(),
        item_key(items[j]) == item_key(it),
    ensures
        same_key_index(items, it) >= 0,
    decreases j,
{
    if forall|r: int| 0 <= r < j ==> item_key(#[trigger] items[r]) != item_key(it) {
        assert(first_same_key(items, it, j));
    } else {
        let r = choose|r: int| 0 <= r < j && item_key(#[trigger] items[r]) == item_key(it);
        lemma_same_key_exists(items, it, r);
    }
}

/// `p` is the first item named `name`.
pub open spec fn first_named(items: Seq<Item>, name: Seq<char>, p: int) -> bool {
    &&& 0 <= p < items.len()
    &&& items[p].name@ == name
    &&& forall|j: int| 0 <= j < p ==> (#[trigger] items[j]).name@ != name
}

/// The position of the first item named `name`, or `-1`.
pub open spec fn name_index(items: Seq<Item>, name: Seq<char>) -> int {
    if exists|p: int| first_named(items, name, p) {
        choose|p: int| first_named(items, name, p)
    } else {
        -1
    }
}

/// `m` is the folder `module` once `item` is filed in it: the folder found
/// at `p` among `items` with `item` appended, or, where `p` is `-1`, a new
/// folder that holds `item` alone.
pub open spec fn filed_under(m: Item, module: Seq<char>, p: int, items: Seq<Item>, item: Item) -> bool {
    &&& m.name@ == module
    &&& if p >= 0 {
        &&& m.name == items[p].name
        &&& m.request == items[p].request
        &&& m.item@ == items[p].item@.push(Box::new(item))
    } else {
        &&& m.request.blank()
        &&& m.item@ == seq![Box::new(item)]
    }
}

/// The API collection: its info, its variables and its items.
#[derive(Debug)]
pub struct ApiSchema {
    info: Info,
    variable: Vec<Variable>,
    item: Vec<Item>,
}

impl ApiSchema {
    /// The info of the collection.
    pub closed spec fn info_of(self) -> Info {
        self.info
    }

    /// The variables of the collection.
    pub closed spec fn variables(self) -> Seq<Variable> {
        self.variable@
    }

    /// The items of the collection.
    pub closed spec fn items(self) -> Seq<Item> {
        self.item@
    }

    /// A collection with the given name, no variable and no item.
    pub fn new(collection_name: String) -> (r: Self)
        ensures
            r.info_of().collection_name() == collection_name,
            r.info_of().schema_text() == crate::postman::default_schema(),
            r.variables().len() == 0,
            r.items().len() == 0,
    {
        ApiSchema { item: Vec::new(), variable: Vec::new(), info: Info::new(collection_name) }
    }

    /// Adds an item; an item with the same name and method (compared without
    /// case) is removed first.
    pub fn add_item(&mut self, item: Item)
        ensures
            final(self).items() == items_after_add(old(self).items(), item),
            final(self).variables() == old(self).variables(),
            final(self).info_of() == old(self).info_of(),
    {
        let name = to_lowercase(item.name.as_str());
        let name = chars_of(name.as_str());
        let method = to_lowercase(item.request.method.as_str());
        let method = chars_of(method.as_str());
        let mut i: usize = 0;
        while i < self.item.len()
            invariant
                i <= self.item@.len(),
                self.item@ == old(self).item@,
                self.variable@ == old(self).variable@,
                self.info == old(self).info,
                name@ == item_key(item).0,
                method@ == item_key(item).1,
                forall|j: int| 0 <= j < i ==> item_key(#[trigger] self.item@[j]) != item_key(item),
            decreases self.item@.len() - i,
        {
            let n = to_lowercase(self.item[i].name.as_str());
            let n = chars_of(n.as_str());
            let m = to_lowercase(self.item[i].request.method.as_str());
            let m = chars_of(m.as_str());
            if chars_eq(n.as_slice(), name.as_slice()) && chars_eq(m.as_slice(), method.as_slice()) {
                proof {
                    let p = same_key_index(old(self).item@, item);
                    assert(first_same_key(old(self).item@, item, i as int));
                    assert(first_same_key(old(self).item@, item, p));
                    if p < i {
                        assert(item_key(old(self).item@[p]) != item_key(item));
                    } else if (i as int) < p {
                        assert(item_key(old(self).item@[i as int]) != item_key(item));
                    }
                }
                self.item.remove(i);
                self.item.push(item);
                return;
            }
            i = i + 1;
        }
        assert forall|p: int| !first_same_key(old(self).item@, item, p) by {
            if first_same_key(old(self).item@, item, p) {
                assert(item_key(old(self).item@[p]) != item_key(item));
            }
        }
        self.item.push(item);
    }

    /// Adds a variable.
    pub fn add_variable(&mut self, key: String, val: String)
        ensures
            final(self).variables().len() == old(self).variables().len() + 1,
            final(self).variables().drop_last() == old(self).variables(),
            final(self).variables().last().key == key,
            final(self).variables().last().value == val,
            final(self).items() == old(self).items(),
            final(self).info_of() == old(self).info_of(),
    {
        self.variable.push(Variable::new(key, val));
    }

    /// Replaces the info of the collection.
    pub fn set_info(&mut self, info: Info)
        ensures
            final(self).info_of() == info,
            final(self).variables() == old(self).variables(),
            final(self).items() == old(self).items(),
    {
        self.info = info;
    }

    /// The info of the collection.
    pub fn info(&self) -> (r: &Info)
        ensures
            *r == self.info_of(),
    {
        &self.info
    }

    /// The variables of the collection.
    pub fn variable_list(&self) -> (r: &Vec<Variable>)
        ensures
            r@ == self.variables(),
    {
        &self.variable
    }

    /// The items of the collection.
    pub fn item_list(&self) -> (r: &Vec<Item>)
        ensures
            r@ == self.items(),
    {
        &self.item
    }

    /// Removes and returns the first item named `name`, if there is one.
    pub fn take_module(&mut self, name: &str) -> (r: Option<Item>)
        ensures
            ({
                let p = name_index(old(self).items(), name@);
                match r {
                    Some(it) => p >= 0 && it == old(self).items()[p] && final(self).items()
                        == old(self).items().remove(p),
                    None => p == -1 && final(self).items() == old(self).items(),
                }
            }),
            final(self).variables() == old(self).variables(),
            final(self).info_of() == old(self).info_of(),
    {
        let target = chars_of(name);
        let mut i: usize = 0;
        while i < self.item.len()
            invariant
                i <= self.item@.len(),
                self.item@ == old(self).item@,
                self.variable@ == old(self).variable@,
                self.info == old(self).info,
                target@ == name@,
                forall|j: int| 0 <= j < i ==> (#[trigger] self.item@[j]).name@ != name@,
            decreases self.item@.len() - i,
        {
            let n = chars_of(self.item[i].name.as_str());
            if chars_eq(n.as_slice(), target.as_slice()) {
                proof {
                    let p = name_index(old(self).item@, name@);
                    assert(first_named(old(self).item@, name@, i as int));
                    assert(first_named(old(self).item@, name@, p));
                    if p < i {
                        assert(old(self).item@[p].name@ != name@);
                    } else if (i as int) < p {
                        assert(old(self).item@[i as int].name@ != name@);
                    }
                }
                let it = self.item.remove(i);
                return Some(it);
            }
            i = i + 1;
        }
        assert forall|p: int| !first_named(old(self).item@, name@, p) by {
            if first_named(old(self).item@, name@, p) {
                assert(old(self).item@[p].name@ != name@);
            }
        }
        None
    }

    /// Documents a route's item: at the top of the collection when `module`
    /// is empty, else inside the folder named `module`, which is created
    /// when there is none and moves to the end of the collection.
    pub fn document(&mut self, item: Item, module: String)
        ensures
            module@.len() == 0 ==> final(self).items() == items_after_add(old(self).items(), item),
            module@.len() > 0 ==> ({
                let p = name_index(old(self).items(), module@);
                let rest = if p >= 0 {
                    old(self).items().remove(p)
                } else {
                    old(self).items()
                };
                exists|m: Item|
                    #[trigger] filed_under(m, module@, p, old(self).items(), item)
                        && final(self).items() == items_after_add(rest, m)
            }),
            final(self).variables() == old(self).variables(),
            final(self).info_of() == old(self).info_of(),
    {
        let mc = chars_of(module.as_str());
        if mc.len() == 0 {
            self.add_item(item);
            return;
        }
        let ghost before = self.items();
        let found = self.take_module(module.as_str());
        match found {
            Some(m) => {
                let mut m = m;
                m.item.push(Box::new(item));
                assert(filed_under(m, module@, name_index(before, module@), before, item));
                self.add_item(m);
            },
            None => {
                let mut m = Item::folder(module);
                m.item.push(Box::new(item));
                assert(m.item@ =~= seq![Box::new(item)]);
                assert(filed_under(m, mc@, name_index(before, mc@), before, item));
                self.add_item(m);
            },
        }
    }
}

} // verus!
