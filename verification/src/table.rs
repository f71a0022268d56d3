//! Tables from names to items.
//!
//! The items of a table stand in a vector, and a hash map finds the place of a name in it. One kind
//! of map so serves tables of every kind of item.
use dashmap::DashMap;
use vstd::prelude::*;

verus! {

/// `dashmap::DashMap`: a hash map.
#[verifier::external_type_specification]
#[verifier::external_body]
#[verifier::reject_recursive_types(K)]
#[verifier::reject_recursive_types(V)]
#[verifier::reject_recursive_types(S)]
pub struct ExDashMap<K, V, S>(DashMap<K, V, S>);

/// Which place a map holds for which name.
pub uninterp spec fn places_in(map: DashMap<String, usize>) -> Map<Seq<char>, usize>;

/// What a look-up of `key` finds.
pub open spec fn found<V>(contents: Map<Seq<char>, V>, key: Seq<char>) -> Option<V> {
    if contents.contains_key(key) {
        Some(contents[key])
    } else {
        None
    }
}

/// Calls `DashMap::new`: an empty map.
#[verifier::external_body]
fn new_places() -> (map: DashMap<String, usize>)
    ensures
        (places_in(map) == Map::<Seq<char>, usize>::empty()),
{
    DashMap::new()
}

/// Calls `DashMap::get`: the place held for the name, if there is one.
#[verifier::external_body]
fn get_place(map: &DashMap<String, usize>, name: &str) -> (place: Option<usize>)
    ensures
        place == found(places_in(*map), name@),
{
    map.get(name).map(|entry| *entry.value())
}

/// Calls `DashMap::insert`: the map holds the place for the name afterwards. What it held before
/// is dropped.
#[verifier::external_body]
fn insert_place(map: &mut DashMap<String, usize>, name: String, place: usize)
    ensures
        places_in(*final(map)) == places_in(*old(map)).insert(name@, place),
{
    map.insert(name, place);
}

/// Calls `DashMap::remove`: the map holds nothing for the name afterwards, and what it held
/// before is handed back.
#[verifier::external_body]
fn remove_place(map: &mut DashMap<String, usize>, name: &str) -> (place: Option<usize>)
    ensures
        places_in(*final(map)) == places_in(*old(map)).remove(name@),
        place == found(places_in(*old(map)), name@),
{
    map.remove(name).map(|entry| entry.1)
}

/// Calls `DashMap::clear`: the map is empty afterwards.
#[verifier::external_body]
fn clear_places(map: &mut DashMap<String, usize>)
    ensures
        (places_in(*final(map)) == Map::<Seq<char>, usize>::empty()),
{
    map.clear()
}

/// A table from names to items.
pub struct Table<T> {
    places: DashMap<String, usize>,
    names: Vec<String>,
    items: Vec<T>,
}

impl<T> View for Table<T> {
    type V = Map<Seq<char>, T>;

    /// Which item stands under which name.
    closed spec fn view(&self) -> Map<Seq<char>, T> {
        Map::new(
            |name: Seq<char>| places_in(self.places).contains_key(name),
            |name: Seq<char>| self.items@[places_in(self.places)[name] as int],
        )
    }
}

impl<T> Table<T> {
    /// The map of places and the list of names say the same.
    pub closed spec fn wf(self) -> bool {
        let places = places_in(self.places);
        &&& self.names@.len() == self.items@.len()
        &&& forall|i: int|
            0 <= i < self.names@.len() ==> #[trigger] places.contains_key(self.names@[i]@)
                && places[self.names@[i]@] == i
        &&& forall|name: Seq<char>| #[trigger]
            places.contains_key(name) ==> places[name] < self.names@.len()
                && self.names@[places[name] as int]@ == name
    }

    /// The names in the order in which they stand.
    pub closed spec fn order(self) -> Seq<Seq<char>> {
        Seq::new(self.names@.len(), |i: int| self.names@[i]@)
    }

    /// The order has each name of the table once and no other.
    pub proof fn order_lists_names(self)
        requires
            self.wf(),
        ensures
            self.order().no_duplicates(),
            forall|name: Seq<char>| #[trigger] self.order().contains(name) <==> self@.contains_key(name),
    {
        let places = places_in(self.places);
        assert forall|i: int, j: int| 0 <= i < j < self.order().len() implies self.order()[i]
            != self.order()[j] by {
            assert(places.contains_key(self.names@[i]@));
            assert(places.contains_key(self.names@[j]@));
        }
        assert forall|name: Seq<char>| #[trigger] self.order().contains(name) <==> self@.contains_key(name) by {
            if self@.contains_key(name) {
                assert(places.contains_key(name));
                assert(self.order()[places[name] as int] == name);
            }
            if self.order().contains(name) {
                let i = choose|i: int| 0 <= i < self.order().len() && self.order()[i] == name;
                assert(places.contains_key(self.names@[i]@));
            }
        }
    }

    /// An empty table.
    pub fn new() -> (table: Table<T>)
        ensures
            table.wf(),
            table@ == Map::<Seq<char>, T>::empty(),
    {
        Table { places: new_places(), names: Vec::new(), items: Vec::new() }
    }

    /// How many names there are.
    pub fn len(&self) -> (len: usize)
        requires
            self.wf(),
        ensures
            len == self.order().len(),
    {
        self.names.len()
    }

    /// The name at `place`.
    pub fn name_at(&self, place: usize) -> (name: &String)
        requires
            self.wf(),
            place < self.order().len(),
        ensures
            name@ == self.order()[place as int],
    {
        &self.names[place]
    }

    /// The item at `place`.
    pub fn item_at(&self, place: usize) -> (item: &T)
        requires
            self.wf(),
            place < self.order().len(),
        ensures
            *item == self@[self.order()[place as int]],
    {
        proof {
            assert(places_in(self.places).contains_key(self.names@[place as int]@));
        }
        &self.items[place]
    }

    /// Whether there is an item under `name`.
    pub fn contains_key(&self, name: &str) -> (known: bool)
        requires
            self.wf(),
        ensures
            known == self@.contains_key(name@),
    {
        get_place(&self.places, name).is_some()
    }

    /// The item under `name`.
    pub fn get(&self, name: &str) -> (item: Option<&T>)
        requires
            self.wf(),
        ensures
            match item {
                Some(item) => found(self@, name@) == Some(*item),
                None => found(self@, name@) is None,
            },
    {
        match get_place(&self.places, name) {
            Some(place) => Some(&self.items[place]),
            None => None,
        }
    }

    /// The item under `name`, to be changed in place.
    pub fn get_mut(&mut self, name: &str) -> (item: Option<&mut T>)
        requires
            old(self).wf(),
        ensures
            final(self).wf(),
            final(self).order() == old(self).order(),
            match item {
                Some(item) => {
                    &&& found(old(self)@, name@) == Some(*item)
                    &&& final(self)@ == old(self)@.insert(name@, *final(item))
                },
                None => {
                    &&& found(old(self)@, name@) is None
                    &&& final(self)@ == old(self)@
                },
            },
    {
        match get_place(&self.places, name) {
            Some(place) => Some(&mut self.items[place]),
            None => None,
        }
    }

    /// Puts an item under `name`, and hands back the one that stood there.
    pub fn insert(&mut self, name: &str, item: T) -> (previous: Option<T>)
        requires
            old(self).wf(),
        ensures
            final(self).wf(),
            final(self)@ == old(self)@.insert(name@, item),
            previous == found(old(self)@, name@),
    {
        let ghost before = *self;
        match get_place(&self.places, name) {
            Some(place) => {
                self.items.push(item);
                let previous = self.items.swap_remove(place);
                proof {
                    assert(self.items@ =~= before.items@.update(place as int, item));
                    assert forall|other: Seq<char>| self@.contains_key(other) && other != name@ implies self@[other] == before@[other] by {
                        let places = places_in(self.places);
                        assert(places.contains_key(other) && places.contains_key(name@));
                        assert(places[other] != places[name@]);
                    }
                    assert(self@ =~= before@.insert(name@, item));
                }
                Some(previous)
            },
            None => {
                let place: usize = self.items.len();
                insert_place(&mut self.places, name.to_owned(), place);
                self.names.push(name.to_owned());
                self.items.push(item);
                proof {
                    let places = places_in(self.places);
                    assert forall|i: int| 0 <= i < self.names@.len() implies #[trigger] places.contains_key(
                        self.names@[i]@,
                    ) && places[self.names@[i]@] == i by {
                        if i < before.names@.len() {
                            assert(places_in(before.places).contains_key(before.names@[i]@));
                        }
                    }
                    assert(self@ =~= before@.insert(name@, item));
                }
                None
            },
        }
    }

    /// Takes away the item under `name`, and hands it back.
    pub fn remove(&mut self, name: &str) -> (previous: Option<T>)
        requires
            old(self).wf(),
        ensures
            final(self).wf(),
            final(self)@ == old(self)@.remove(name@),
            previous == found(old(self)@, name@),
    {
        let ghost before = *self;
        match remove_place(&mut self.places, name) {
            Some(place) => {
                proof {
                    assert(places_in(before.places).contains_key(name@));
                }
                self.names.swap_remove(place);
                let previous = self.items.swap_remove(place);
                if place < self.names.len() {
                    let moved: String = self.names[place].clone();
                    insert_place(&mut self.places, moved, place);
                }
                proof {
                    let old_places = places_in(before.places);
                    let places = places_in(self.places);
                    let last = before.names@.len() - 1;
                    assert(old_places.contains_key(before.names@[last]@));
                    assert(self.names@ =~= before.names@.update(place as int, before.names@.last()).drop_last());
                    assert forall|i: int| 0 <= i < self.names@.len() implies #[trigger] places.contains_key(
                        self.names@[i]@,
                    ) && places[self.names@[i]@] == i by {
                        assert(old_places.contains_key(before.names@[i]@));
                    }
                    assert forall|other: Seq<char>| #[trigger]
                        places.contains_key(other) implies places[other] < self.names@.len()
                        && self.names@[places[other] as int]@ == other by {
                        assert(old_places.contains_key(other));
                    }
                    assert(self@ =~= before@.remove(name@));
                }
                Some(previous)
            },
            None => {
                proof {
                    assert(places_in(self.places) =~= places_in(before.places));
                    assert(self@ =~= before@.remove(name@));
                }
                None
            },
        }
    }

    /// Empties the table, and hands back each item that it had.
    pub fn drain(&mut self) -> (items: Vec<T>)
        requires
            old(self).wf(),
        ensures
            final(self).wf(),
            final(self)@ == Map::<Seq<char>, T>::empty(),
            items@ == old(self).order().map_values(|name: Seq<char>| old(self)@[name]),
    {
        let ghost before = *self;
        let mut items: Vec<T> = Vec::new();
        clear_places(&mut self.places);
        self.names.clear();
        items.append(&mut self.items);
        proof {
            assert forall|i: int| 0 <= i < before.items@.len() implies before.items@[i] == #[trigger] before@[before.order()[i]] by {
                assert(places_in(before.places).contains_key(before.names@[i]@));
            }
            assert(items@ =~= before.order().map_values(|name: Seq<char>| before@[name]));
            assert(self@ =~= Map::<Seq<char>, T>::empty());
        }
        items
    }
}

} // verus!
