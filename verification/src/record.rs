//! The snapshot record: the versions of one tracked file, the current one
//! among them, and the counter, with the operations that change them.

use crate::entries::{
    distinct_names, has_name, index_of, lemma_map_of_at, lemma_map_of_len, lemma_map_of_push,
    lemma_map_of_remove, lemma_map_of_update, map_of, EntryView,
};
use crate::error::StoreError;
use crate::model::{ListedView, RecordView, SnapshotView};
use vstd::prelude::*;

verus! {

/// A stored copy of the tracked file.
#[derive(Debug)]
pub struct Snapshot {
    /// The identifier, derived from the version's name.
    pub id: String,
    /// The text of the tracked file when the version was last written.
    pub content: String,
}

impl View for Snapshot {
    type V = SnapshotView;

    open spec fn view(&self) -> SnapshotView {
        SnapshotView { id: self.id@, content: self.content@ }
    }
}

impl Clone for Snapshot {
    fn clone(&self) -> (copy: Self)
        ensures
            copy == *self,
    {
        Snapshot { id: self.id.clone(), content: self.content.clone() }
    }
}

/// The named snapshots of `entries`, each by its view.
pub open spec fn entry_views(entries: Seq<(String, Snapshot)>) -> Seq<EntryView> {
    entries.map_values(|entry: (String, Snapshot)| (entry.0@, entry.1@))
}

/// An optional name, by its view.
pub open spec fn name_view(name: Option<String>) -> Option<Seq<char>> {
    match name {
        Some(name) => Some(name@),
        None => None,
    }
}

/// The parts `count`, `current` and `entries` make up a sound record: no name
/// occurs twice, the counter is not below the number of entries, and the
/// current version, if set, is among them.
pub open spec fn valid_parts(
    count: nat,
    current: Option<Seq<char>>,
    entries: Seq<EntryView>,
) -> bool {
    &&& distinct_names(entries)
    &&& entries.len() <= count
    &&& current matches Some(name) ==> has_name(entries, name)
}

/// The record that the parts make up, if they make up one.
pub open spec fn record_of_parts(
    count: nat,
    current: Option<Seq<char>>,
    entries: Seq<EntryView>,
) -> Option<RecordView> {
    if valid_parts(count, current, entries) {
        Some(
            RecordView {
                version_count: count,
                current_version: current,
                versions: map_of(entries),
            },
        )
    } else {
        None
    }
}

/// One line of a listing.
#[derive(Debug)]
pub struct ListedVersion {
    /// The version's name.
    pub name: String,
    /// The identifier of its snapshot.
    pub id: String,
    /// Whether it is the current version.
    pub current: bool,
}

impl View for ListedVersion {
    type V = ListedView;

    open spec fn view(&self) -> ListedView {
        ListedView { name: self.name@, id: self.id@, current: self.current }
    }
}

/// The lines of `listing`, each by its view.
pub open spec fn listed_views(listing: Seq<ListedVersion>) -> Seq<ListedView> {
    listing.map_values(|line: ListedVersion| line@)
}

/// A record that may be absent, by its view.
pub open spec fn record_view(record: Option<SnapshotRecord>) -> Option<RecordView> {
    match record {
        Some(record) => Some(record@),
        None => None,
    }
}

/// Whether no name occurs twice in `entries`.
fn names_distinct(entries: &Vec<(String, Snapshot)>) -> (distinct: bool)
    ensures
        distinct == distinct_names(entry_views(entries@)),
{
    let ghost views = entry_views(entries@);
    let mut i: usize = 0;
    while i < entries.len()
        invariant
            i <= entries@.len(),
            views == entry_views(entries@),
            forall|a: int, b: int| 0 <= a < b < i ==> views[a].0 != views[b].0,
        decreases entries@.len() - i,
    {
        let mut j: usize = 0;
        while j < i
            invariant
                j <= i < entries@.len(),
                views == entry_views(entries@),
                forall|a: int| 0 <= a < j ==> views[a].0 != views[i as int].0,
            decreases i - j,
        {
            if entries[j].0 == entries[i].0 {
                assert(views[j as int].0 == views[i as int].0);
                return false;
            }
            j += 1;
        }
        i += 1;
    }
    true
}

/// The record of one tracked file.
///
/// The versions are kept in the order in which their names were first added.
#[derive(Debug)]
pub struct SnapshotRecord {
    version_count: usize,
    current_version: Option<String>,
    entries: Vec<(String, Snapshot)>,
}

impl View for SnapshotRecord {
    type V = RecordView;

    closed spec fn view(&self) -> RecordView {
        RecordView {
            version_count: self.version_count as nat,
            current_version: name_view(self.current_version),
            versions: map_of(entry_views(self.entries@)),
        }
    }
}

impl SnapshotRecord {
    /// The record is sound: no name is stored twice, the counter is not below
    /// the number of versions, and the current version, once set, is stored.
    /// Every record that this module hands out is sound, and every operation
    /// keeps it so.
    pub closed spec fn wf(&self) -> bool {
        &&& distinct_names(entry_views(self.entries@))
        &&& self.entries@.len() <= self.version_count
        &&& self.current_version matches Some(name) ==> has_name(
            entry_views(self.entries@),
            name@,
        )
    }

    /// A sound record is sound as a model.
    pub proof fn lemma_view_wf(&self)
        requires
            self.wf(),
        ensures
            self@.wf(),
            self@.version_count <= usize::MAX,
    {
        lemma_map_of_len(entry_views(self.entries@));
    }

    /// The record without any version.
    pub fn empty() -> (record: SnapshotRecord)
        ensures
            record.wf(),
            record@ == RecordView::empty(),
    {
        let record = SnapshotRecord {
            version_count: 0,
            current_version: None,
            entries: Vec::new(),
        };
        assert(record@.versions =~= Map::empty());
        record
    }

    /// The place of `name` among the entries.
    fn position(&self, name: &String) -> (found: Option<usize>)
        ensures
            match found {
                Some(i) => i < self.entries@.len() && self.entries@[i as int].0@ == name@
                    && has_name(entry_views(self.entries@), name@),
                None => !has_name(entry_views(self.entries@), name@),
            },
    {
        let mut i: usize = 0;
        while i < self.entries.len()
            invariant
                i <= self.entries@.len(),
                forall|k: int| 0 <= k < i ==> entry_views(self.entries@)[k].0 != name@,
            decreases self.entries@.len() - i,
        {
            if self.entries[i].0 == *name {
                assert(entry_views(self.entries@)[i as int].0 == name@);
                return Some(i);
            }
            i += 1;
        }
        None
    }

    /// Puts a record together from its parts, as they were handed out by
    /// `version_count`, `current_version` and `entries`, or as they were read
    /// back from where they were kept. Parts that make up no sound record give
    /// `None`.
    pub fn from_parts(
        version_count: usize,
        current_version: Option<String>,
        entries: Vec<(String, Snapshot)>,
    ) -> (record: Option<SnapshotRecord>)
        ensures
            record_view(record) == record_of_parts(
                version_count as nat,
                name_view(current_version),
                entry_views(entries@),
            ),
            record matches Some(record) ==> record.wf(),
    {
        if !names_distinct(&entries) || entries.len() > version_count {
            return None;
        }
        let record = SnapshotRecord { version_count, current_version, entries };
        let known = match &record.current_version {
            Some(name) => record.position(name).is_some(),
            None => true,
        };
        if known {
            Some(record)
        } else {
            None
        }
    }

    /// The stored versions, each with its name, in the order in which the
    /// names were first added. Together with the counter and the current
    /// version they make up the record again.
    pub fn entries(&self) -> (entries: &Vec<(String, Snapshot)>)
        requires
            self.wf(),
        ensures
            record_of_parts(
                self@.version_count,
                self@.current_version,
                entry_views(entries@),
            ) == Some(self@),
    {
        &self.entries
    }

    /// The counter of versions.
    pub fn version_count(&self) -> (count: usize)
        ensures
            count == self@.version_count,
    {
        self.version_count
    }

    /// The name of the current version, once there is one.
    pub fn current_version(&self) -> (name: Option<&str>)
        ensures
            match name {
                Some(name) => self@.current_version == Some(name@),
                None => self@.current_version is None,
            },
    {
        match &self.current_version {
            Some(name) => Some(name.as_str()),
            None => None,
        }
    }

    /// The number of stored versions.
    pub fn len(&self) -> (len: usize)
        requires
            self.wf(),
        ensures
            len == self@.versions.len(),
    {
        proof {
            lemma_map_of_len(entry_views(self.entries@));
        }
        self.entries.len()
    }

    /// Whether a version named `name` is stored.
    pub fn contains(&self, name: &str) -> (found: bool)
        ensures
            found == self@.versions.contains_key(name@),
    {
        let key = name.to_owned();
        self.position(&key).is_some()
    }

    /// The snapshot stored under `name`.
    pub fn get(&self, name: &str) -> (snapshot: Option<&Snapshot>)
        requires
            self.wf(),
        ensures
            match snapshot {
                Some(snapshot) => self@.versions.contains_key(name@) && snapshot@
                    == self@.versions[name@],
                None => !self@.versions.contains_key(name@),
            },
    {
        let key = name.to_owned();
        match self.position(&key) {
            Some(i) => {
                proof {
                    lemma_map_of_at(entry_views(self.entries@), i as int);
                }
                Some(&self.entries[i].1)
            },
            None => None,
        }
    }

    /// Stores the text `content` under `name` with the identifier `id`, in
    /// place of an earlier snapshot of that name if there is one, counts one
    /// version more, and makes `name` the current version.
    pub fn add_version(&mut self, name: &str, id: String, content: String)
        requires
            old(self).wf(),
            old(self)@.version_count < usize::MAX,
        ensures
            final(self).wf(),
            final(self)@ == old(self)@.add_version(name@, id@, content@),
    {
        let key = name.to_owned();
        let snapshot = Snapshot { id, content };
        let ghost before = entry_views(self.entries@);
        let ghost entry = (key@, snapshot@);
        match self.position(&key) {
            Some(i) => {
                proof {
                    lemma_map_of_update(before, i as int, entry);
                }
                self.entries[i] = (key, snapshot);
                assert(entry_views(self.entries@) =~= before.update(i as int, entry));
                assert(has_name(entry_views(self.entries@), name@)) by {
                    assert(entry_views(self.entries@)[i as int].0 == name@);
                }
            },
            None => {
                proof {
                    lemma_map_of_push(before, entry);
                }
                self.entries.push((key, snapshot));
                assert(entry_views(self.entries@) =~= before.push(entry));
                assert(has_name(entry_views(self.entries@), name@)) by {
                    assert(entry_views(self.entries@)[before.len() as int].0 == name@);
                }
            },
        }
        self.version_count = self.version_count + 1;
        self.current_version = Some(name.to_owned());
    }

    /// Writes `content` into the current version's snapshot. Its identifier
    /// stays. Without a current version that is stored nothing changes.
    pub fn commit(&mut self, content: String) -> (done: Result<(), StoreError>)
        requires
            old(self).wf(),
        ensures
            final(self).wf(),
            old(self)@.can_commit() ==> done is Ok && final(self)@ == old(self)@.commit(content@),
            !old(self)@.can_commit() ==> done == Err::<(), StoreError>(
                StoreError::NoCurrentVersion,
            ) && final(self)@ == old(self)@,
    {
        let found = match &self.current_version {
            Some(name) => self.position(name),
            None => {
                return Err(StoreError::NoCurrentVersion);
            },
        };
        match found {
            Some(i) => {
                let ghost before = entry_views(self.entries@);
                let key = self.entries[i].0.clone();
                let id = self.entries[i].1.id.clone();
                let snapshot = Snapshot { id, content };
                proof {
                    lemma_map_of_at(before, i as int);
                    lemma_map_of_update(before, i as int, (key@, snapshot@));
                }
                self.entries[i] = (key, snapshot);
                assert(entry_views(self.entries@) =~= before.update(i as int, (key@, snapshot@)));
                assert(has_name(entry_views(self.entries@), key@)) by {
                    assert(entry_views(self.entries@)[i as int].0 == key@);
                }
                Ok(())
            },
            None => Err(StoreError::NoCurrentVersion),
        }
    }

    /// Makes `name` the current version and hands out the text stored under
    /// it, which the tracked file is to hold from now on.
    pub fn switch(&mut self, name: &str) -> (text: Result<String, StoreError>)
        requires
            old(self).wf(),
        ensures
            final(self).wf(),
            match text {
                Ok(text) => {
                    &&& old(self)@.versions.contains_key(name@)
                    &&& text@ == old(self)@.versions[name@].content
                    &&& final(self)@ == old(self)@.switch(name@)
                },
                Err(error) => {
                    &&& !old(self)@.versions.contains_key(name@)
                    &&& error == StoreError::VersionNotFound
                    &&& final(self)@ == old(self)@
                },
            },
    {
        let key = name.to_owned();
        match self.position(&key) {
            Some(i) => {
                proof {
                    lemma_map_of_at(entry_views(self.entries@), i as int);
                }
                let text = self.entries[i].1.content.clone();
                self.current_version = Some(key);
                Ok(text)
            },
            None => Err(StoreError::VersionNotFound),
        }
    }

    /// Removes the version `name`, unless it is the baseline, is not stored,
    /// or is the current version, in this order.
    pub fn remove(&mut self, name: &str) -> (done: Result<(), StoreError>)
        requires
            old(self).wf(),
        ensures
            final(self).wf(),
            match old(self)@.removal_error(name@) {
                Some(error) => done == Err::<(), StoreError>(error) && final(self)@ == old(self)@,
                None => done is Ok && final(self)@ == old(self)@.remove(name@),
            },
    {
        let key = name.to_owned();
        let baseline = "baseline".to_owned();
        if key == baseline {
            return Err(StoreError::BaselineProtected);
        }
        let i = match self.position(&key) {
            Some(i) => i,
            None => {
                return Err(StoreError::VersionNotFound);
            },
        };
        let is_current = match &self.current_version {
            Some(current) => *current == key,
            None => false,
        };
        if is_current {
            return Err(StoreError::CurrentVersion);
        }
        let ghost before = entry_views(self.entries@);
        proof {
            lemma_map_of_remove(before, i as int);
        }
        self.entries.remove(i);
        assert(entry_views(self.entries@) =~= before.remove(i as int));
        assert(self.current_version matches Some(current) ==> has_name(
            entry_views(self.entries@),
            current@,
        )) by {
            if let Some(current) = self.current_version {
                assert(map_of(before.remove(i as int)).contains_key(current@));
            }
        }
        self.version_count = self.version_count - 1;
        Ok(())
    }

    /// Lists the stored versions, in the order in which their names were
    /// first added.
    pub fn list(&self) -> (listing: Vec<ListedVersion>)
        requires
            self.wf(),
        ensures
            self@.listed_by(listed_views(listing@)),
    {
        let ghost views = entry_views(self.entries@);
        let mut listing: Vec<ListedVersion> = Vec::new();
        let mut i: usize = 0;
        while i < self.entries.len()
            invariant
                i <= self.entries@.len(),
                views == entry_views(self.entries@),
                listing@.len() == i,
                forall|k: int|
                    0 <= k < i ==> (#[trigger] listed_views(listing@)[k]) == (ListedView {
                        name: views[k].0,
                        id: views[k].1.id,
                        current: name_view(self.current_version) == Some(views[k].0),
                    }),
            decreases self.entries@.len() - i,
        {
            let current = match &self.current_version {
                Some(current) => *current == self.entries[i].0,
                None => false,
            };
            let line = ListedVersion {
                name: self.entries[i].0.clone(),
                id: self.entries[i].1.id.clone(),
                current,
            };
            let ghost earlier = listed_views(listing@);
            listing.push(line);
            assert(listed_views(listing@) =~= earlier.push(line@));
            i += 1;
        }
        proof {
            let lines = listed_views(listing@);
            assert forall|name: Seq<char>|
                self@.versions.contains_key(name) <==> exists|k: int|
                    0 <= k < lines.len() && #[trigger] lines[k].name == name by {
                if self@.versions.contains_key(name) {
                    let k = index_of(views, name);
                    assert(lines[k].name == name);
                }
            }
        }
        listing
    }
}

} // verus!
