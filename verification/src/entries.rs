//! Lists of named snapshots in which no name occurs twice, read as maps.

use crate::model::SnapshotView;
use vstd::prelude::*;

verus! {

/// A version as it is stored: its name and its snapshot.
pub type EntryView = (Seq<char>, SnapshotView);

/// No name occurs at two places of `entries`.
pub open spec fn distinct_names(entries: Seq<EntryView>) -> bool {
    forall|i: int, j: int|
        0 <= i < entries.len() && 0 <= j < entries.len() && i != j ==> entries[i].0 != entries[j].0
}

/// Some entry of `entries` is named `name`.
pub open spec fn has_name(entries: Seq<EntryView>, name: Seq<char>) -> bool {
    exists|i: int| 0 <= i < entries.len() && entries[i].0 == name
}

/// A place at which `entries` holds `name`, where there is one.
pub open spec fn index_of(entries: Seq<EntryView>, name: Seq<char>) -> int {
    choose|i: int| 0 <= i < entries.len() && entries[i].0 == name
}

/// The map that `entries` stands for: each name that occurs, to the snapshot
/// beside it.
pub open spec fn map_of(entries: Seq<EntryView>) -> Map<Seq<char>, SnapshotView> {
    Map::new(
        |name: Seq<char>| has_name(entries, name),
        |name: Seq<char>| entries[index_of(entries, name)].1,
    )
}

/// With distinct names, the map holds at each entry's name that entry's
/// snapshot.
pub proof fn lemma_map_of_at(entries: Seq<EntryView>, i: int)
    requires
        distinct_names(entries),
        0 <= i < entries.len(),
    ensures
        map_of(entries).contains_key(entries[i].0),
        map_of(entries)[entries[i].0] == entries[i].1,
        index_of(entries, entries[i].0) == i,
{
}

/// Appending an entry with a new name inserts it into the map.
pub proof fn lemma_map_of_push(entries: Seq<EntryView>, entry: EntryView)
    requires
        distinct_names(entries),
        !has_name(entries, entry.0),
    ensures
        distinct_names(entries.push(entry)),
        map_of(entries.push(entry)) == map_of(entries).insert(entry.0, entry.1),
{
    let pushed = entries.push(entry);
    let target = map_of(entries).insert(entry.0, entry.1);
    assert forall|name: Seq<char>| map_of(pushed).contains_key(name) <==> target.contains_key(
        name,
    ) by {
        if has_name(entries, name) {
            let i = index_of(entries, name);
            assert(pushed[i].0 == name);
        }
        if name == entry.0 {
            assert(pushed[entries.len() as int].0 == name);
        }
    }
}

/// Replacing the snapshot of an entry, under the same name, replaces it in
/// the map.
pub proof fn lemma_map_of_update(entries: Seq<EntryView>, i: int, entry: EntryView)
    requires
        distinct_names(entries),
        0 <= i < entries.len(),
        entries[i].0 == entry.0,
    ensures
        distinct_names(entries.update(i, entry)),
        map_of(entries.update(i, entry)) == map_of(entries).insert(entry.0, entry.1),
{
    let updated = entries.update(i, entry);
    let target = map_of(entries).insert(entry.0, entry.1);
    assert forall|name: Seq<char>| map_of(updated).contains_key(name) <==> target.contains_key(
        name,
    ) by {
        if has_name(entries, name) {
            let k = index_of(entries, name);
            assert(updated[k].0 == name);
        }
    }
}

/// Taking an entry out takes its name out of the map.
pub proof fn lemma_map_of_remove(entries: Seq<EntryView>, i: int)
    requires
        distinct_names(entries),
        0 <= i < entries.len(),
    ensures
        distinct_names(entries.remove(i)),
        map_of(entries.remove(i)) == map_of(entries).remove(entries[i].0),
{
    let rest = entries.remove(i);
    let target = map_of(entries).remove(entries[i].0);
    assert forall|name: Seq<char>| map_of(rest).contains_key(name) <==> target.contains_key(
        name,
    ) by {
        if has_name(entries, name) && name != entries[i].0 {
            let k0 = index_of(entries, name);
            let k = if k0 < i { k0 } else { k0 - 1 };
            assert(rest[k] == entries[k0]);
        }
    }
}

/// With distinct names, the map has as many keys as the list has entries.
pub proof fn lemma_map_of_len(entries: Seq<EntryView>)
    requires
        distinct_names(entries),
    ensures
        map_of(entries).dom().finite(),
        map_of(entries).len() == entries.len(),
    decreases entries.len(),
{
    if entries.len() == 0 {
        assert(map_of(entries) =~= Map::empty());
    } else {
        let front = entries.drop_last();
        let last = entries.last();
        lemma_map_of_len(front);
        lemma_map_of_push(front, last);
        assert(front.push(last) =~= entries);
    }
}

} // verus!
