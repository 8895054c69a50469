use vstd::prelude::*;

use crate::text::str_eq;

verus! {

/// The names held by a vector of strings, as character sequences.
pub open spec fn views(v: Seq<String>) -> Seq<Seq<char>> {
    v.map_values(|s: String| s@)
}

/// The set of names held by a vector of strings.
pub open spec fn name_set(v: Seq<String>) -> Set<Seq<char>> {
    views(v).to_set()
}

/// No name occurs twice.
pub open spec fn distinct(v: Seq<String>) -> bool {
    views(v).no_duplicates()
}

/// A vector without repeated names holds as many names as entries.
pub proof fn lemma_distinct_len(v: Seq<String>)
    requires
        distinct(v),
    ensures
        name_set(v).len() == v.len(),
        name_set(v).finite(),
{
    views(v).unique_seq_to_set();
    vstd::seq_lib::seq_to_set_is_finite(views(v));
}

/// Membership in the name set, by index.
pub proof fn lemma_name_set_contains(v: Seq<String>, x: Seq<char>)
    ensures
        name_set(v).contains(x) <==> exists|i: int| 0 <= i < v.len() && v[i]@ == x,
{
    if name_set(v).contains(x) {
        let i = choose|i: int| 0 <= i < views(v).len() && views(v)[i] == x;
        assert(v[i]@ == x);
    }
    if exists|i: int| 0 <= i < v.len() && v[i]@ == x {
        let i = choose|i: int| 0 <= i < v.len() && v[i]@ == x;
        assert(views(v)[i] == x);
    }
}

/// Position of `name` in `v`, if any.
pub fn index_of(v: &Vec<String>, name: &str) -> (r: Option<usize>)
    ensures
        match r {
            Some(i) => i < v.len() && v@[i as int]@ == name@,
            None => !name_set(v@).contains(name@),
        },
{
    let mut i: usize = 0;
    while i < v.len()
        invariant
            i <= v.len(),
            forall|j: int| 0 <= j < i ==> v@[j]@ != name@,
        decreases v.len() - i,
    {
        if str_eq(v[i].as_str(), name) {
            return Some(i);
        }
        i = i + 1;
    }
    proof {
        lemma_name_set_contains(v@, name@);
    }
    None
}

/// Whether `name` is in `v`.
pub fn has_name(v: &Vec<String>, name: &str) -> (r: bool)
    ensures
        r == name_set(v@).contains(name@),
{
    match index_of(v, name) {
        Some(i) => {
            proof {
                lemma_name_set_contains(v@, name@);
            }
            true
        },
        None => false,
    }
}

/// Add `name` to the set of names held by `v`.
pub fn insert_name(v: &mut Vec<String>, name: &str)
    requires
        distinct(old(v)@),
    ensures
        distinct(final(v)@),
        name_set(final(v)@) == name_set(old(v)@).insert(name@),
{
    match index_of(v, name) {
        Some(i) => {
            proof {
                lemma_name_set_contains(v@, name@);
                assert(name_set(v@).insert(name@) =~= name_set(v@));
            }
        },
        None => {
            let ghost before = v@;
            v.push(name.to_owned());
            proof {
                assert(views(v@) =~= views(before).push(name@));
                assert forall|x: Seq<char>| #[trigger]
                    name_set(v@).contains(x) == name_set(before).insert(name@).contains(x) by {
                    lemma_name_set_contains(v@, x);
                    lemma_name_set_contains(before, x);
                    if name_set(before).contains(x) {
                        let k = choose|k: int| 0 <= k < before.len() && before[k]@ == x;
                        assert(v@[k] == before[k]);
                    }
                    if x == name@ {
                        assert(v@[before.len() as int]@ == x);
                    }
                }
                assert(name_set(v@) =~= name_set(before).insert(name@));
                assert forall|a: int, b: int|
                    0 <= a < views(v@).len() && 0 <= b < views(v@).len() && a != b implies
                    views(v@)[a] != views(v@)[b] by {
                    if a == before.len() {
                        lemma_name_set_contains(before, name@);
                        assert(before[b]@ == views(v@)[b]);
                    } else if b == before.len() {
                        lemma_name_set_contains(before, name@);
                        assert(before[a]@ == views(v@)[a]);
                    } else {
                        assert(views(before)[a] == views(v@)[a]);
                        assert(views(before)[b] == views(v@)[b]);
                    }
                }
            }
        },
    }
}

/// Remove `name` from the set of names held by `v`.
pub fn remove_name(v: &mut Vec<String>, name: &str)
    requires
        distinct(old(v)@),
    ensures
        distinct(final(v)@),
        name_set(final(v)@) == name_set(old(v)@).remove(name@),
{
    match index_of(v, name) {
        Some(i) => {
            let ghost before = v@;
            v.remove(i);
            proof {
                assert(views(v@) =~= views(before).remove(i as int));
                assert forall|x: Seq<char>| #[trigger]
                    name_set(v@).contains(x) == name_set(before).remove(name@).contains(x) by {
                    lemma_name_set_contains(v@, x);
                    lemma_name_set_contains(before, x);
                    if name_set(v@).contains(x) {
                        let k = choose|k: int| 0 <= k < v@.len() && v@[k]@ == x;
                        if k < i {
                            assert(views(before)[k] == x);
                            assert(views(before)[i as int] == name@);
                        } else {
                            assert(views(before)[k + 1] == x);
                            assert(views(before)[i as int] == name@);
                        }
                    }
                    if name_set(before).contains(x) && x != name@ {
                        let k = choose|k: int| 0 <= k < before.len() && before[k]@ == x;
                        if k < i {
                            assert(v@[k] == before[k]);
                        } else {
                            assert(k != i);
                            assert(v@[k - 1] == before[k]);
                        }
                    }
                }
                assert(name_set(v@) =~= name_set(before).remove(name@));
                assert forall|a: int, b: int|
                    0 <= a < views(v@).len() && 0 <= b < views(v@).len() && a != b implies
                    views(v@)[a] != views(v@)[b] by {
                    let a2 = if a < i { a } else { a + 1 };
                    let b2 = if b < i { b } else { b + 1 };
                    assert(views(v@)[a] == views(before)[a2]);
                    assert(views(v@)[b] == views(before)[b2]);
                }
            }
        },
        None => {
            proof {
                assert(name_set(v@).remove(name@) =~= name_set(v@));
            }
        },
    }
}

/// Copy of a vector of names.
pub fn copy_names(v: &Vec<String>) -> (c: Vec<String>)
    ensures
        c@ == v@,
{
    let mut c: Vec<String> = Vec::new();
    let mut i: usize = 0;
    while i < v.len()
        invariant
            i <= v.len(),
            c@ == v@.subrange(0, i as int),
        decreases v.len() - i,
    {
        c.push(v[i].clone());
        assert(c@ =~= v@.subrange(0, i + 1));
        i = i + 1;
    }
    assert(c@ =~= v@);
    c
}


/// Keys of a vector of keyed entries, as character sequences.
pub open spec fn key_views<T>(v: Seq<(String, T)>) -> Seq<Seq<char>> {
    v.map_values(|e: (String, T)| e.0@)
}

/// No key occurs twice.
pub open spec fn keys_distinct<T>(v: Seq<(String, T)>) -> bool {
    key_views(v).no_duplicates()
}

/// Some entry has key `id`.
pub open spec fn has_key<T>(v: Seq<(String, T)>, id: Seq<char>) -> bool {
    exists|i: int| 0 <= i < v.len() && #[trigger] v[i].0@ == id
}

/// Index of the entry with key `id` (meaningful when `has_key`).
pub open spec fn key_pos<T>(v: Seq<(String, T)>, id: Seq<char>) -> int {
    choose|i: int| 0 <= i < v.len() && #[trigger] v[i].0@ == id
}

/// With distinct keys, an entry with key `id` sits at `key_pos`.
pub proof fn lemma_key_pos<T>(v: Seq<(String, T)>, i: int)
    requires
        keys_distinct(v),
        0 <= i < v.len(),
    ensures
        has_key(v, v[i].0@),
        key_pos(v, v[i].0@) == i,
{
    let id = v[i].0@;
    assert(v[i].0@ == id);
    let k = key_pos(v, id);
    assert(key_views(v)[k] == key_views(v)[i]);
}

/// Position of the entry with key `id`, if any.
pub fn find_key<T>(v: &Vec<(String, T)>, id: &str) -> (r: Option<usize>)
    requires
        keys_distinct(v@),
    ensures
        match r {
            Some(i) => i < v.len() && v@[i as int].0@ == id@ && has_key(v@, id@) && key_pos(v@, id@) == i,
            None => !has_key(v@, id@),
        },
{
    let mut i: usize = 0;
    while i < v.len()
        invariant
            keys_distinct(v@),
            i <= v.len(),
            forall|j: int| 0 <= j < i ==> v@[j].0@ != id@,
        decreases v.len() - i,
    {
        if str_eq(v[i].0.as_str(), id) {
            proof {
                lemma_key_pos(v@, i as int);
            }
            return Some(i);
        }
        i = i + 1;
    }
    None
}

/// Changing the value of one entry keeps the keys.
pub proof fn lemma_update_value_keys<T>(v: Seq<(String, T)>, i: int, e: (String, T))
    requires
        keys_distinct(v),
        0 <= i < v.len(),
        e.0@ == v[i].0@,
    ensures
        key_views(v.update(i, e)) == key_views(v),
        keys_distinct(v.update(i, e)),
        forall|id: Seq<char>| has_key(v.update(i, e), id) == has_key(v, id),
        forall|id: Seq<char>| has_key(v, id) ==> key_pos(v.update(i, e), id) == key_pos(v, id),
{
    assert(key_views(v.update(i, e)) =~= key_views(v));
    let w = v.update(i, e);
    assert forall|id: Seq<char>| has_key(w, id) == has_key(v, id) by {
        if has_key(w, id) {
            let k = choose|k: int| 0 <= k < w.len() && #[trigger] w[k].0@ == id;
            assert(key_views(w)[k] == key_views(v)[k]);
            assert(v[k].0@ == id);
        }
        if has_key(v, id) {
            let k = choose|k: int| 0 <= k < v.len() && #[trigger] v[k].0@ == id;
            assert(key_views(w)[k] == key_views(v)[k]);
            assert(w[k].0@ == id);
        }
    }
    assert forall|id: Seq<char>| has_key(v, id) implies key_pos(w, id) == key_pos(v, id) by {
        let k = key_pos(v, id);
        assert(key_views(w)[k] == key_views(v)[k]);
        assert(w[k].0@ == id);
        lemma_key_pos(w, k);
    }
}


/// Rooms of names: distinct room ids, and no name twice in a room.
pub open spec fn rooms_wf(v: Seq<(String, Vec<String>)>) -> bool {
    &&& keys_distinct(v)
    &&& forall|i: int| 0 <= i < v.len() ==> distinct(#[trigger] v[i].1@)
}

/// The names in room `id`, when it exists.
pub open spec fn room_of(v: Seq<(String, Vec<String>)>, id: Seq<char>) -> Option<Set<Seq<char>>> {
    if has_key(v, id) {
        Some(name_set(v[key_pos(v, id)].1@))
    } else {
        None
    }
}

/// Add `username` to (or remove it from) the room at index `i`; returns the new
/// number of names in that room.
pub fn edit_room(v: &mut Vec<(String, Vec<String>)>, i: usize, username: &str, add: bool) -> (count: usize)
    requires
        rooms_wf(old(v)@),
        i < old(v)@.len(),
    ensures
        rooms_wf(final(v)@),
        room_of(final(v)@, old(v)@[i as int].0@) == Some(
            if add {
                name_set(old(v)@[i as int].1@).insert(username@)
            } else {
                name_set(old(v)@[i as int].1@).remove(username@)
            },
        ),
        count == room_of(final(v)@, old(v)@[i as int].0@)->0.len(),
        forall|id: Seq<char>| id != old(v)@[i as int].0@ ==> room_of(final(v)@, id) == room_of(old(v)@, id),
{
    let ghost before = v@;
    let entry = &mut v[i];
    if add {
        insert_name(&mut entry.1, username);
    } else {
        remove_name(&mut entry.1, username);
    }
    let count = v[i].1.len();
    proof {
        let e = v@[i as int];
        assert(v@ == before.update(i as int, e));
        lemma_update_value_keys(before, i as int, e);
        lemma_key_pos(before, i as int);
        lemma_distinct_len(e.1@);
        assert forall|j: int| 0 <= j < v@.len() implies distinct(#[trigger] v@[j].1@) by {
            if j != i {
                assert(v@[j] == before[j]);
            }
        }
        assert forall|id: Seq<char>| id != before[i as int].0@ implies room_of(v@, id) == room_of(before, id) by {
            if has_key(before, id) {
                let k = key_pos(before, id);
                assert(k != i);
                assert(v@[k] == before[k]);
            }
        }
    }
    count
}

/// Remove the entry at `i` from a vector with distinct keys.
pub proof fn lemma_remove_entry<T>(v: Seq<(String, T)>, i: int)
    requires
        keys_distinct(v),
        0 <= i < v.len(),
    ensures
        keys_distinct(v.remove(i)),
        !has_key(v.remove(i), v[i].0@),
        forall|id: Seq<char>| id != v[i].0@ ==> (has_key(v.remove(i), id) == has_key(v, id)),
        forall|id: Seq<char>|
            id != v[i].0@ && has_key(v, id) ==> v.remove(i)[key_pos(v.remove(i), id)] == v[key_pos(v, id)],
{
    let w = v.remove(i);
    assert forall|a: int, b: int| 0 <= a < key_views(w).len() && 0 <= b < key_views(w).len() && a != b implies
        key_views(w)[a] != key_views(w)[b] by {
        let a2 = if a < i { a } else { a + 1 };
        let b2 = if b < i { b } else { b + 1 };
        assert(key_views(w)[a] == key_views(v)[a2]);
        assert(key_views(w)[b] == key_views(v)[b2]);
    }
    if has_key(w, v[i].0@) {
        let k = choose|k: int| 0 <= k < w.len() && #[trigger] w[k].0@ == v[i].0@;
        let k2 = if k < i { k } else { k + 1 };
        assert(key_views(v)[k2] == key_views(v)[i]);
    }
    assert forall|id: Seq<char>| id != v[i].0@ implies (has_key(w, id) == has_key(v, id)) by {
        if has_key(w, id) {
            let k = choose|k: int| 0 <= k < w.len() && #[trigger] w[k].0@ == id;
            let k2 = if k < i { k } else { k + 1 };
            assert(v[k2].0@ == id);
        }
        if has_key(v, id) {
            let k = choose|k: int| 0 <= k < v.len() && #[trigger] v[k].0@ == id;
            let k2 = if k < i { k } else { k - 1 };
            assert(w[k2].0@ == id);
        }
    }
    assert forall|id: Seq<char>| id != v[i].0@ && has_key(v, id) implies w[key_pos(w, id)] == v[key_pos(v, id)] by {
        let k = key_pos(v, id);
        let k2 = if k < i { k } else { k - 1 };
        assert(w[k2] == v[k]);
        lemma_key_pos(w, k2);
    }
}

/// Append an entry with a new key to a vector with distinct keys.
pub proof fn lemma_push_entry<T>(v: Seq<(String, T)>, e: (String, T))
    requires
        keys_distinct(v),
        !has_key(v, e.0@),
    ensures
        keys_distinct(v.push(e)),
        has_key(v.push(e), e.0@),
        key_pos(v.push(e), e.0@) == v.len(),
        forall|id: Seq<char>| id != e.0@ ==> (has_key(v.push(e), id) == has_key(v, id)),
        forall|id: Seq<char>| id != e.0@ && has_key(v, id) ==> key_pos(v.push(e), id) == key_pos(v, id),
{
    let w = v.push(e);
    assert forall|a: int, b: int| 0 <= a < key_views(w).len() && 0 <= b < key_views(w).len() && a != b implies
        key_views(w)[a] != key_views(w)[b] by {
        if a < v.len() && b < v.len() {
            assert(key_views(w)[a] == key_views(v)[a]);
            assert(key_views(w)[b] == key_views(v)[b]);
        } else if a < v.len() {
            assert(v[a].0@ != e.0@);
        } else if b < v.len() {
            assert(v[b].0@ != e.0@);
        }
    }
    lemma_key_pos(w, v.len() as int);
    assert forall|id: Seq<char>| id != e.0@ implies (has_key(w, id) == has_key(v, id)) by {
        if has_key(w, id) {
            let k = choose|k: int| 0 <= k < w.len() && #[trigger] w[k].0@ == id;
            assert(v[k].0@ == id);
        }
        if has_key(v, id) {
            let k = choose|k: int| 0 <= k < v.len() && #[trigger] v[k].0@ == id;
            assert(w[k].0@ == id);
        }
    }
    assert forall|id: Seq<char>| id != e.0@ && has_key(v, id) implies key_pos(w, id) == key_pos(v, id) by {
        let k = key_pos(v, id);
        assert(w[k] == v[k]);
        lemma_key_pos(w, k);
    }
}

/// Remove the entry with key `id`, if there is one; returns it.
pub fn remove_key<T>(v: &mut Vec<(String, T)>, id: &str) -> (r: Option<(String, T)>)
    requires
        keys_distinct(old(v)@),
    ensures
        keys_distinct(final(v)@),
        !has_key(final(v)@, id@),
        match r {
            Some(e) => has_key(old(v)@, id@) && e == old(v)@[key_pos(old(v)@, id@)],
            None => !has_key(old(v)@, id@) && final(v)@ == old(v)@,
        },
        forall|x: Seq<char>| x != id@ ==> (has_key(final(v)@, x) == has_key(old(v)@, x)),
        forall|x: Seq<char>|
            x != id@ && has_key(old(v)@, x) ==> final(v)@[key_pos(final(v)@, x)] == old(v)@[key_pos(old(v)@, x)],
{
    match find_key(v, id) {
        Some(i) => {
            let ghost before = v@;
            let e = v.remove(i);
            proof {
                lemma_remove_entry(before, i as int);
            }
            Some(e)
        },
        None => None,
    }
}

/// Set the entry with key `id` to `value`, replacing an entry with that key.
pub fn put_key<T>(v: &mut Vec<(String, T)>, id: &str, value: T)
    requires
        keys_distinct(old(v)@),
    ensures
        keys_distinct(final(v)@),
        has_key(final(v)@, id@),
        final(v)@[key_pos(final(v)@, id@)].1 == value,
        final(v)@[key_pos(final(v)@, id@)].0@ == id@,
        forall|x: Seq<char>| x != id@ ==> (has_key(final(v)@, x) == has_key(old(v)@, x)),
        forall|x: Seq<char>|
            x != id@ && has_key(old(v)@, x) ==> final(v)@[key_pos(final(v)@, x)] == old(v)@[key_pos(old(v)@, x)],
{
    let ghost before = v@;
    let _ = remove_key(v, id);
    let ghost middle = v@;
    let e = (id.to_owned(), value);
    v.push(e);
    proof {
        lemma_push_entry(middle, e);
        assert(v@ == middle.push(e));
    }
}


/// The entries of a vector with distinct keys, as a map from key to value.
pub open spec fn key_map<T>(v: Seq<(String, T)>) -> Map<Seq<char>, T> {
    Map::new(|id: Seq<char>| has_key(v, id), |id: Seq<char>| v[key_pos(v, id)].1)
}


/// A vector with distinct keys has as many entries as its map.
pub proof fn lemma_key_map_len<T>(v: Seq<(String, T)>)
    requires
        keys_distinct(v),
    ensures
        key_map(v).len() == v.len(),
        key_map(v).dom() == key_views(v).to_set(),
{
    assert forall|id: Seq<char>| key_map(v).dom().contains(id) == key_views(v).to_set().contains(id) by {
        if has_key(v, id) {
            let k = choose|k: int| 0 <= k < v.len() && #[trigger] v[k].0@ == id;
            assert(key_views(v)[k] == id);
        }
        if key_views(v).to_set().contains(id) {
            let k = choose|k: int| 0 <= k < key_views(v).len() && key_views(v)[k] == id;
            assert(v[k].0@ == id);
        }
    }
    assert(key_map(v).dom() =~= key_views(v).to_set());
    key_views(v).unique_seq_to_set();
}


/// Changing the value of the entry at `i` changes the map at its key only.
pub proof fn lemma_key_map_update<T>(v: Seq<(String, T)>, i: int, e: (String, T))
    requires
        keys_distinct(v),
        0 <= i < v.len(),
        e.0@ == v[i].0@,
    ensures
        keys_distinct(v.update(i, e)),
        key_map(v.update(i, e)) == key_map(v).insert(v[i].0@, e.1),
{
    lemma_update_value_keys(v, i, e);
    lemma_key_pos(v, i);
    lemma_key_pos(v.update(i, e), i);
    assert(key_map(v.update(i, e)) =~= key_map(v).insert(v[i].0@, e.1));
}

} // verus!
