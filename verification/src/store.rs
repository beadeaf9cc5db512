//! The store: the authoritative collection of items, keyed by identifier.
//!
//! The items sit in a vector whose entries carry pairwise distinct
//! identifiers; the abstract contents are the keyed map `self@`. Every
//! operation is specified against that map.

use vstd::prelude::*;

use crate::item::Item;
use crate::item::opt_text;
use crate::model::ItemModel;
use crate::model::updated_item_model;

verus! {

/// The contents of a sequence of records, read as a keyed map. A later
/// entry wins where two entries share an identifier; under `distinct_ids`
/// no two do.
pub open spec fn map_of(s: Seq<ItemModel>) -> Map<u128, ItemModel>
    decreases s.len(),
{
    if s.len() == 0 {
        Map::<u128, ItemModel>::empty()
    } else {
        map_of(s.drop_last()).insert(s.last().id, s.last())
    }
}

/// No two entries of `s` share an identifier.
pub open spec fn distinct_ids(s: Seq<ItemModel>) -> bool {
    forall|i: int, j: int| 0 <= i < j < s.len() ==> s[i].id != s[j].id
}

/// A key is in the map of a sequence exactly when some entry carries it.
pub proof fn lemma_map_of_contains(s: Seq<ItemModel>, id: u128)
    ensures
        map_of(s).contains_key(id) <==> exists|i: int| 0 <= i < s.len() && s[i].id == id,
    decreases s.len(),
{
    if s.len() > 0 {
        lemma_map_of_contains(s.drop_last(), id);
        if s.last().id == id {
            assert(s[s.len() - 1].id == id);
        } else {
            if map_of(s).contains_key(id) {
                let i = choose|i: int|
                    0 <= i < s.drop_last().len() && s.drop_last()[i].id == id;
                assert(s[i].id == id);
            }
            if exists|i: int| 0 <= i < s.len() && s[i].id == id {
                let i = choose|i: int| 0 <= i < s.len() && s[i].id == id;
                assert(s.drop_last()[i].id == id);
            }
        }
    }
}

proof fn lemma_distinct_drop_last(s: Seq<ItemModel>)
    requires
        distinct_ids(s),
        s.len() > 0,
    ensures
        distinct_ids(s.drop_last()),
{
    assert forall|i: int, j: int|
        0 <= i < j < s.drop_last().len() implies s.drop_last()[i].id != s.drop_last()[j].id by {
        assert(s.drop_last()[i] == s[i]);
        assert(s.drop_last()[j] == s[j]);
    }
}

/// Under distinct identifiers, each entry is the map's value at its own key.
pub proof fn lemma_map_of_index(s: Seq<ItemModel>, i: int)
    requires
        distinct_ids(s),
        0 <= i < s.len(),
    ensures
        map_of(s).contains_key(s[i].id),
        map_of(s)[s[i].id] == s[i],
    decreases s.len(),
{
    if i < s.len() - 1 {
        lemma_distinct_drop_last(s);
        lemma_map_of_index(s.drop_last(), i);
        assert(s.drop_last()[i] == s[i]);
        assert(s[i].id != s[s.len() - 1].id);
    }
}

/// Under distinct identifiers, the map has exactly one key per entry.
pub proof fn lemma_map_of_len(s: Seq<ItemModel>)
    requires
        distinct_ids(s),
    ensures
        map_of(s).dom().finite(),
        map_of(s).dom().len() == s.len(),
    decreases s.len(),
{
    if s.len() == 0 {
        assert(map_of(s).dom() =~= Set::<u128>::empty());
    } else {
        lemma_distinct_drop_last(s);
        lemma_map_of_len(s.drop_last());
        lemma_map_of_contains(s.drop_last(), s.last().id);
        assert(!map_of(s.drop_last()).contains_key(s.last().id)) by {
            if map_of(s.drop_last()).contains_key(s.last().id) {
                let i = choose|i: int|
                    0 <= i < s.drop_last().len() && s.drop_last()[i].id == s.last().id;
                assert(s[i].id == s[s.len() - 1].id);
            }
        };
        assert(map_of(s).dom() =~= map_of(s.drop_last()).dom().insert(s.last().id));
    }
}

/// Appending an entry inserts it into the map at its own key.
pub proof fn lemma_map_of_push(s: Seq<ItemModel>, it: ItemModel)
    ensures
        map_of(s.push(it)) == map_of(s).insert(it.id, it),
{
    assert(s.push(it).drop_last() =~= s);
    assert(s.push(it).last() == it);
    assert(map_of(s.push(it)) == map_of(s.push(it).drop_last()).insert(
        s.push(it).last().id,
        s.push(it).last(),
    ));
}

/// Replacing the entry at `i` by one with the same identifier inserts the
/// replacement into the map at that key.
pub proof fn lemma_map_of_update(s: Seq<ItemModel>, i: int, it: ItemModel)
    requires
        distinct_ids(s),
        0 <= i < s.len(),
        it.id == s[i].id,
    ensures
        map_of(s.update(i, it)) == map_of(s).insert(it.id, it),
    decreases s.len(),
{
    let t = s.update(i, it);
    if i == s.len() - 1 {
        assert(t.drop_last() =~= s.drop_last());
        assert(t.last() == it);
        assert(map_of(s.drop_last()).insert(s.last().id, s.last()).insert(it.id, it)
            =~= map_of(s.drop_last()).insert(it.id, it));
    } else {
        lemma_distinct_drop_last(s);
        lemma_map_of_update(s.drop_last(), i, it);
        assert(t.drop_last() =~= s.drop_last().update(i, it));
        assert(t.last() == s.last());
        assert(it.id != s.last().id);
        assert(map_of(s.drop_last()).insert(it.id, it).insert(s.last().id, s.last())
            =~= map_of(s.drop_last()).insert(s.last().id, s.last()).insert(it.id, it));
    }
}

/// Removing the entry at `i` removes its key from the map.
pub proof fn lemma_map_of_remove(s: Seq<ItemModel>, i: int)
    requires
        distinct_ids(s),
        0 <= i < s.len(),
    ensures
        map_of(s.remove(i)) == map_of(s).remove(s[i].id),
    decreases s.len(),
{
    let t = s.remove(i);
    if i == s.len() - 1 {
        assert(t =~= s.drop_last());
        lemma_distinct_drop_last(s);
        lemma_map_of_contains(s.drop_last(), s[i].id);
        assert(!map_of(s.drop_last()).contains_key(s[i].id)) by {
            if map_of(s.drop_last()).contains_key(s[i].id) {
                let j = choose|j: int|
                    0 <= j < s.drop_last().len() && s.drop_last()[j].id == s[i].id;
                assert(s[j].id == s[i].id);
            }
        };
        assert(map_of(s.drop_last()).insert(s.last().id, s.last()).remove(s[i].id)
            =~= map_of(s.drop_last()));
    } else {
        lemma_distinct_drop_last(s);
        lemma_map_of_remove(s.drop_last(), i);
        assert(t.drop_last() =~= s.drop_last().remove(i));
        assert(t.last() == s.last());
        assert(s[i].id != s.last().id);
        assert(map_of(s.drop_last()).remove(s[i].id).insert(s.last().id, s.last())
            =~= map_of(s.drop_last()).insert(s.last().id, s.last()).remove(s[i].id));
    }
}

/// The application state: the one shared collection of items.
pub struct AppState {
    pub items: Vec<Item>,
}

impl View for AppState {
    type V = Map<u128, ItemModel>;

    open spec fn view(&self) -> Map<u128, ItemModel> {
        map_of(self.models())
    }
}

impl AppState {
    /// The models of the stored items, in storage order.
    pub open spec fn models(&self) -> Seq<ItemModel> {
        self.items@.map_values(|it: Item| it@)
    }

    /// The store's invariant: no two stored items share an identifier.
    pub open spec fn wf(&self) -> bool {
        distinct_ids(self.models())
    }

    /// An empty store.
    pub fn new() -> (r: AppState)
        ensures
            r.wf(),
            r@ == Map::<u128, ItemModel>::empty(),
    {
        let r = AppState { items: Vec::new() };
        proof {
            assert(r.models() =~= Seq::<ItemModel>::empty());
        }
        r
    }

    /// The index of the item carrying `id`, if one is stored.
    fn find_index(&self, id: u128) -> (r: Option<usize>)
        ensures
            match r {
                Some(i) => i < self.models().len() && self.models()[i as int].id == id,
                None => forall|j: int| 0 <= j < self.models().len() ==> self.models()[j].id != id,
            },
    {
        let n = self.items.len();
        let mut i: usize = 0;
        while i < n
            invariant
                n == self.items@.len(),
                i <= n,
                forall|j: int| 0 <= j < i ==> self.models()[j].id != id,
            decreases n - i,
        {
            if self.items[i].id == id {
                return Some(i);
            }
            i += 1;
        }
        None
    }

    /// Adds a new item under its own identifier. The identifier must be
    /// fresh: the server generates it, so no error path exists here.
    pub fn insert(&mut self, item: Item)
        requires
            old(self).wf(),
            !old(self)@.contains_key(item@.id),
        ensures
            final(self).wf(),
            final(self)@ == old(self)@.insert(item@.id, item@),
    {
        let ghost im = item@;
        proof {
            lemma_map_of_contains(old(self).models(), im.id);
            lemma_map_of_push(old(self).models(), im);
        }
        self.items.push(item);
        proof {
            assert(self.models() =~= old(self).models().push(im));
            assert forall|i: int, j: int|
                0 <= i < j < self.models().len() implies self.models()[i].id
                != self.models()[j].id by {
                if j < self.models().len() - 1 {
                    assert(self.models()[i] == old(self).models()[i]);
                    assert(self.models()[j] == old(self).models()[j]);
                }
            }
        }
    }

    /// Looks the identifier up; returns the stored item or nothing, and
    /// never changes the store.
    pub fn get(&self, id: u128) -> (r: Option<&Item>)
        requires
            self.wf(),
        ensures
            match r {
                Some(it) => self@.contains_key(id) && it@ == self@[id],
                None => !self@.contains_key(id),
            },
    {
        match self.find_index(id) {
            Some(i) => {
                proof {
                    lemma_map_of_index(self.models(), i as int);
                }
                Some(&self.items[i])
            },
            None => {
                proof {
                    lemma_map_of_contains(self.models(), id);
                }
                None
            },
        }
    }

    /// Applies the supplied fields to the item under `id`, refreshes its
    /// update time, and returns the updated copy; absent `id`, changes
    /// nothing and returns nothing.
    pub fn update(
        &mut self,
        id: u128,
        name: Option<String>,
        description: Option<String>,
        now: i64,
    ) -> (r: Option<Item>)
        requires
            old(self).wf(),
        ensures
            final(self).wf(),
            old(self)@.contains_key(id) ==> {
                let m = updated_item_model(
                    old(self)@[id],
                    opt_text(name),
                    opt_text(description),
                    now as int,
                );
                &&& (r matches Some(it) && it@ == m)
                &&& final(self)@ == old(self)@.insert(id, m)
            },
            !old(self)@.contains_key(id) ==> r is None && final(self)@ == old(self)@,
    {
        match self.find_index(id) {
            Some(i) => {
                proof {
                    lemma_map_of_index(old(self).models(), i as int);
                }
                let cur_id = self.items[i].id;
                let cur_created = self.items[i].created_at;
                let new_name = match name {
                    Some(n) => n,
                    None => self.items[i].name.clone(),
                };
                let new_desc = match description {
                    Some(d) => Some(d),
                    None => match &self.items[i].description {
                        Some(d) => Some(d.clone()),
                        None => None,
                    },
                };
                let updated = Item {
                    id: cur_id,
                    name: new_name,
                    description: new_desc,
                    created_at: cur_created,
                    updated_at: now,
                };
                let r = updated.clone();
                let ghost um = updated@;
                proof {
                    lemma_map_of_update(old(self).models(), i as int, um);
                }
                self.items[i] = updated;
                proof {
                    assert(self.models() =~= old(self).models().update(i as int, um));
                    assert forall|p: int, q: int|
                        0 <= p < q < self.models().len() implies self.models()[p].id
                        != self.models()[q].id by {
                        assert(old(self).models()[p].id != old(self).models()[q].id);
                    }
                }
                Some(r)
            },
            None => {
                proof {
                    lemma_map_of_contains(old(self).models(), id);
                }
                None
            },
        }
    }

    /// Deletes the item under `id` if one is stored, and reports whether it
    /// existed; deleting an absent identifier changes nothing.
    pub fn remove(&mut self, id: u128) -> (r: bool)
        requires
            old(self).wf(),
        ensures
            final(self).wf(),
            r == old(self)@.contains_key(id),
            final(self)@ == old(self)@.remove(id),
    {
        match self.find_index(id) {
            Some(i) => {
                proof {
                    lemma_map_of_index(old(self).models(), i as int);
                    lemma_map_of_remove(old(self).models(), i as int);
                }
                self.items.remove(i);
                proof {
                    assert(self.models() =~= old(self).models().remove(i as int));
                    assert forall|p: int, q: int|
                        0 <= p < q < self.models().len() implies self.models()[p].id
                        != self.models()[q].id by {
                        let s = old(self).models();
                        let pp = if p < i { p } else { p + 1 };
                        let qq = if q < i { q } else { q + 1 };
                        assert(s[pp].id != s[qq].id);
                    }
                }
                true
            },
            None => {
                proof {
                    lemma_map_of_contains(old(self).models(), id);
                    assert(old(self)@.remove(id) =~= old(self)@);
                }
                false
            },
        }
    }

    /// A snapshot copy of all current items, one per stored identifier.
    pub fn list(&self) -> (r: Vec<Item>)
        requires
            self.wf(),
        ensures
            r@.map_values(|it: Item| it@) == self.models(),
            r@.len() == self@.dom().len(),
    {
        proof {
            lemma_map_of_len(self.models());
        }
        let n = self.items.len();
        let mut out: Vec<Item> = Vec::new();
        let mut i: usize = 0;
        while i < n
            invariant
                n == self.items@.len(),
                i <= n,
                out@.len() == i,
                forall|j: int| 0 <= j < i ==> out@[j]@ == self.models()[j],
            decreases n - i,
        {
            out.push(self.items[i].clone());
            i += 1;
        }
        proof {
            assert(out@.map_values(|it: Item| it@) =~= self.models());
        }
        out
    }
}

} // verus!
