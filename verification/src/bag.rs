//! An id-keyed bag of named items: insertion with unique ids,
//! first-match lookup, renaming and name swapping.

use vstd::prelude::*;

verus! {

/// One entry of the bag: a numeric id and a display name.
pub struct Item {
    pub id: u32,
    pub name: String,
}

/// A sequence of items addressed by their ids; ids are kept unique by
/// `add_item`.
pub struct Bag {
    items: Vec<Item>,
}

impl View for Bag {
    type V = Seq<Item>;

    closed spec fn view(&self) -> Seq<Item> {
        self.items@
    }
}

/// Some item of the bag carries this id.
pub open spec fn has_id(s: Seq<Item>, id: u32) -> bool {
    exists|k: int| 0 <= k < s.len() && s[k].id == id
}

/// `k` is the first position of the bag carrying this id.
pub open spec fn is_first_with_id(s: Seq<Item>, id: u32, k: int) -> bool {
    &&& 0 <= k < s.len()
    &&& s[k].id == id
    &&& forall|m: int| 0 <= m < k ==> s[m].id != id
}

impl Bag {
    /// An empty bag.
    pub fn new() -> (r: Self)
        ensures
            r@.len() == 0,
    {
        Self { items: Vec::new() }
    }

    /// How many items the bag holds.
    pub fn len(&self) -> (r: usize)
        ensures
            r == self@.len(),
    {
        self.items.len()
    }

    /// Whether the bag holds nothing.
    pub fn is_empty(&self) -> (r: bool)
        ensures
            r == (self@.len() == 0),
    {
        self.items.is_empty()
    }
}

/// The first position carrying `id`, if any.
fn find_index_by_id(bag: &Bag, id: u32) -> (r: Option<usize>)
    ensures
        r is Some <==> has_id(bag@, id),
        r matches Some(k) ==> is_first_with_id(bag@, id, k as int),
{
    let len = bag.items.len();
    let mut k: usize = 0;
    while k < len
        invariant
            0 <= k <= len,
            len == bag@.len(),
            forall|m: int| 0 <= m < k ==> bag@[m].id != id,
        decreases len - k,
    {
        if bag.items[k].id == id {
            return Some(k);
        }
        k += 1;
    }
    None
}

/// Appends an item under a fresh id; an id already present leaves the
/// bag untouched and reports `false`.
pub fn add_item(bag: &mut Bag, id: u32, name: &str) -> (r: bool)
    ensures
        r == !has_id(old(bag)@, id),
        !r ==> final(bag)@ == old(bag)@,
        r ==> {
            &&& final(bag)@.len() == old(bag)@.len() + 1
            &&& final(bag)@[old(bag)@.len() as int].id == id
            &&& final(bag)@[old(bag)@.len() as int].name@ == name@
            &&& forall|m: int| 0 <= m < old(bag)@.len() ==> final(bag)@[m] == old(bag)@[m]
        },
{
    if find_index_by_id(bag, id).is_some() {
        return false;
    }
    let new_item = Item { id, name: name.to_owned() };
    bag.items.push(new_item);
    true
}

/// The name under `id`, borrowed from the first item carrying it.
pub fn get_name<'a>(bag: &'a Bag, id: u32) -> (r: Option<&'a str>)
    ensures
        r is Some <==> has_id(bag@, id),
        r matches Some(s) ==> exists|k: int| is_first_with_id(bag@, id, k) && s@ == bag@[k].name@,
{
    match find_index_by_id(bag, id) {
        Some(k) => Some(bag.items[k].name.as_str()),
        None => None,
    }
}

/// Replaces the name of the first item carrying `id`; reports whether
/// such an item exists.
pub fn rename_item(bag: &mut Bag, id: u32, new_name: &str) -> (r: bool)
    ensures
        r == has_id(old(bag)@, id),
        !r ==> final(bag)@ == old(bag)@,
        r ==> exists|k: int|
            {
                &&& is_first_with_id(old(bag)@, id, k)
                &&& final(bag)@.len() == old(bag)@.len()
                &&& final(bag)@[k].id == id
                &&& final(bag)@[k].name@ == new_name@
                &&& forall|m: int| 0 <= m < old(bag)@.len() && m != k ==> final(bag)@[m] == old(
                    bag,
                )@[m]
            },
{
    match find_index_by_id(bag, id) {
        Some(k) => {
            let item = Item { id, name: new_name.to_owned() };
            bag.items.set(k, item);
            true
        },
        None => false,
    }
}

/// Every id of the bag, in bag order.
pub fn id_list(bag: &Bag) -> (r: Vec<u32>)
    ensures
        r@.len() == bag@.len(),
        forall|k: int| 0 <= k < bag@.len() ==> r@[k] == bag@[k].id,
{
    let len = bag.items.len();
    let mut ids: Vec<u32> = Vec::new();
    let mut k: usize = 0;
    while k < len
        invariant
            0 <= k <= len,
            len == bag@.len(),
            ids@.len() == k,
            forall|m: int| 0 <= m < k ==> ids@[m] == bag@[m].id,
        decreases len - k,
    {
        ids.push(bag.items[k].id);
        k += 1;
    }
    ids
}

/// Consumes the bag and yields every name, in bag order.
pub fn into_names(bag: Bag) -> (r: Vec<String>)
    ensures
        r@.len() == bag@.len(),
        forall|k: int| 0 <= k < bag@.len() ==> r@[k]@ == bag@[k].name@,
{
    let len = bag.items.len();
    let mut names: Vec<String> = Vec::new();
    let mut k: usize = 0;
    while k < len
        invariant
            0 <= k <= len,
            len == bag@.len(),
            names@.len() == k,
            forall|m: int| 0 <= m < k ==> names@[m]@ == bag@[m].name@,
        decreases len - k,
    {
        names.push(bag.items[k].name.clone());
        k += 1;
    }
    names
}

/// An owned copy of the name under `id`, from the first item carrying
/// it.
pub fn get_name_owned(bag: &Bag, id: u32) -> (r: Option<String>)
    ensures
        r is Some <==> has_id(bag@, id),
        r matches Some(s) ==> exists|k: int| is_first_with_id(bag@, id, k) && s@ == bag@[k].name@,
{
    match find_index_by_id(bag, id) {
        Some(k) => Some(bag.items[k].name.clone()),
        None => None,
    }
}

/// Exchanges the names of the first items carrying the two ids; the
/// ids themselves stay where they are. Equal or missing ids leave the
/// bag untouched and report `false`.
pub fn swap_names(bag: &mut Bag, id1: u32, id2: u32) -> (r: bool)
    ensures
        r == (id1 != id2 && has_id(old(bag)@, id1) && has_id(old(bag)@, id2)),
        !r ==> final(bag)@ == old(bag)@,
        r ==> exists|k1: int, k2: int|
            {
                &&& is_first_with_id(old(bag)@, id1, k1)
                &&& is_first_with_id(old(bag)@, id2, k2)
                &&& final(bag)@.len() == old(bag)@.len()
                &&& final(bag)@[k1].id == id1
                &&& final(bag)@[k2].id == id2
                &&& final(bag)@[k1].name@ == old(bag)@[k2].name@
                &&& final(bag)@[k2].name@ == old(bag)@[k1].name@
                &&& forall|m: int|
                    0 <= m < old(bag)@.len() && m != k1 && m != k2 ==> final(bag)@[m] == old(
                        bag,
                    )@[m]
            },
{
    if id1 == id2 {
        return false;
    }
    let pos1 = find_index_by_id(bag, id1);
    let pos2 = find_index_by_id(bag, id2);
    match (pos1, pos2) {
        (Some(i1), Some(i2)) => {
            let name1 = bag.items[i1].name.clone();
            let name2 = bag.items[i2].name.clone();
            bag.items.set(i1, Item { id: id1, name: name2 });
            bag.items.set(i2, Item { id: id2, name: name1 });
            true
        },
        _ => false,
    }
}

} // verus!
