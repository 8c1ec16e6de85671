//! The mathematical model of a snapshot record and of the operations on it.
//!
//! A record is a finite map from version names to snapshots, the name of the
//! version that is checked out, and a counter. Each operation of the store is
//! a function from a record to the record after it.

use crate::error::StoreError;
use vstd::prelude::*;

verus! {

/// A stored copy of the tracked file, as contracts see it.
pub struct SnapshotView {
    /// The identifier, derived from the version's name.
    pub id: Seq<char>,
    /// The text of the tracked file when the version was last written.
    pub content: Seq<char>,
}

/// The record of one tracked file, as contracts see it.
pub struct RecordView {
    /// The counter of versions.
    pub version_count: nat,
    /// The name of the version that is checked out, once there is one.
    pub current_version: Option<Seq<char>>,
    /// The stored versions, by name.
    pub versions: Map<Seq<char>, SnapshotView>,
}

/// One line of a listing: a stored version's name and identifier, and whether
/// it is the current one.
pub struct ListedView {
    /// The version's name.
    pub name: Seq<char>,
    /// The identifier of its snapshot.
    pub id: Seq<char>,
    /// Whether it is the current version.
    pub current: bool,
}

/// The name of the version that initialisation creates and that is never
/// removed.
pub open spec fn baseline_name() -> Seq<char> {
    "baseline"@
}

impl RecordView {
    /// The record without any version.
    pub open spec fn empty() -> RecordView {
        RecordView { version_count: 0, current_version: None, versions: Map::empty() }
    }

    /// What holds of every record that the store hands out: it has finitely
    /// many versions, the counter is not below their number, and the current
    /// version, once set, is one of them.
    pub open spec fn wf(self) -> bool {
        &&& self.versions.dom().finite()
        &&& self.versions.len() <= self.version_count
        &&& self.current_version matches Some(name) ==> self.versions.contains_key(name)
    }

    /// The counter equals the number of stored versions.
    pub open spec fn counted(self) -> bool {
        self.version_count == self.versions.len()
    }

    /// There is a current version, and it is stored.
    pub open spec fn current_stored(self) -> bool {
        self.current_version matches Some(name) && self.versions.contains_key(name)
    }

    /// The text of the current version, which is what the tracked file holds
    /// when an operation that writes or reads it has just gone through.
    pub open spec fn current_text(self) -> Seq<char> {
        self.versions[self.current_version.unwrap()].content
    }

    /// The baseline is stored.
    pub open spec fn has_baseline(self) -> bool {
        self.versions.contains_key(baseline_name())
    }

    /// The record after `name` was added with identifier `id` and text
    /// `content`: the snapshot is stored under `name`, replacing an earlier one
    /// of that name; the counter goes up by one in either case; `name` becomes
    /// the current version.
    pub open spec fn add_version(
        self,
        name: Seq<char>,
        id: Seq<char>,
        content: Seq<char>,
    ) -> RecordView {
        RecordView {
            version_count: self.version_count + 1,
            current_version: Some(name),
            versions: self.versions.insert(name, SnapshotView { id, content }),
        }
    }

    /// Whether there is a current version that is stored, so that a commit
    /// has a snapshot to write to.
    pub open spec fn can_commit(self) -> bool {
        self.current_stored()
    }

    /// The record after `content` was committed: the current version's text is
    /// `content`, its identifier and all else are unchanged.
    pub open spec fn commit(self, content: Seq<char>) -> RecordView {
        match self.current_version {
            Some(name) => RecordView {
                versions: self.versions.insert(
                    name,
                    SnapshotView { id: self.versions[name].id, content },
                ),
                ..self
            },
            None => self,
        }
    }

    /// The record after a switch to `name`: only the current version changes.
    pub open spec fn switch(self, name: Seq<char>) -> RecordView {
        RecordView { current_version: Some(name), ..self }
    }

    /// Why `name` cannot be removed, if it cannot: the baseline is protected,
    /// then the name must be stored, then it must not be the current version.
    pub open spec fn removal_error(self, name: Seq<char>) -> Option<StoreError> {
        if name == baseline_name() {
            Some(StoreError::BaselineProtected)
        } else if !self.versions.contains_key(name) {
            Some(StoreError::VersionNotFound)
        } else if self.current_version == Some(name) {
            Some(StoreError::CurrentVersion)
        } else {
            None
        }
    }

    /// The record after `name` was removed: its snapshot is gone and the
    /// counter is one lower.
    pub open spec fn remove(self, name: Seq<char>) -> RecordView {
        RecordView {
            version_count: (self.version_count - 1) as nat,
            versions: self.versions.remove(name),
            ..self
        }
    }

    /// `listing` lists the versions of the record: every stored version on
    /// exactly one line, with its identifier, and marked as current exactly if
    /// it is. The order of the lines is left open.
    pub open spec fn listed_by(self, listing: Seq<ListedView>) -> bool {
        &&& forall|i: int, j: int|
            0 <= i < listing.len() && 0 <= j < listing.len() && i != j ==> listing[i].name
                != listing[j].name
        &&& forall|name: Seq<char>|
            self.versions.contains_key(name) <==> exists|i: int|
                0 <= i < listing.len() && #[trigger] listing[i].name == name
        &&& forall|i: int|
            0 <= i < listing.len() ==> {
                &&& (#[trigger] listing[i]).id == self.versions[listing[i].name].id
                &&& listing[i].current == (self.current_version == Some(listing[i].name))
            }
    }

    /// The record of a store that was just initialised with the text
    /// `content`: the baseline alone, with identifier `id`.
    pub open spec fn initial(id: Seq<char>, content: Seq<char>) -> RecordView {
        RecordView::empty().add_version(baseline_name(), id, content)
    }
}

/// The store of one tracked file, as contracts see it.
pub struct StoreView {
    /// The canonical path of the tracked file.
    pub filepath: Seq<char>,
    /// The display name of the tracked file.
    pub filename: Seq<char>,
    /// Where the record is kept.
    pub cit_file_path: Seq<char>,
    /// Whether something is kept at that place already.
    pub record_exists: bool,
    /// The record, once the store is initialised.
    pub content: Option<RecordView>,
}

impl StoreView {
    /// What holds of every store: its record, if it has one, is sound and is
    /// kept at the store's place.
    pub open spec fn wf(self) -> bool {
        self.content matches Some(record) ==> record.wf() && self.record_exists
    }

    /// The store holds a record.
    pub open spec fn initialized(self) -> bool {
        self.content is Some
    }

    /// The store holds no record, or one whose counter equals the number of
    /// its versions.
    pub open spec fn counted(self) -> bool {
        self.content matches Some(record) ==> record.counted()
    }

    /// The store holds a record whose current version is set and stored.
    pub open spec fn current_stored(self) -> bool {
        self.content matches Some(record) && record.current_stored()
    }

    /// The store holds no record, or one that has the baseline.
    pub open spec fn has_baseline(self) -> bool {
        self.content matches Some(record) ==> record.has_baseline()
    }

    /// The counter can go up by one.
    pub open spec fn can_count(self) -> bool {
        self.content matches Some(record) ==> record.version_count < usize::MAX
    }

    /// The same store, holding `record`.
    pub open spec fn with_record(self, record: RecordView) -> StoreView {
        StoreView { content: Some(record), ..self }
    }

    /// Why `init` is declined, if it is: something is kept at the store's
    /// place already.
    pub open spec fn init_error(self) -> Option<StoreError> {
        if self.record_exists {
            Some(StoreError::AlreadyInitialized)
        } else {
            None
        }
    }

    /// The store after `init`, where the tracked file holds `content` and the
    /// baseline gets the identifier `id`: if nothing is kept yet, a record
    /// with the baseline alone; else the store as it was.
    pub open spec fn init(self, id: Seq<char>, content: Seq<char>) -> StoreView {
        if self.record_exists {
            self
        } else {
            StoreView {
                record_exists: true,
                content: Some(RecordView::initial(id, content)),
                ..self
            }
        }
    }

    /// The store after `add_version`: the record with the version added, if
    /// there is a record.
    pub open spec fn add_version(
        self,
        name: Seq<char>,
        id: Seq<char>,
        content: Seq<char>,
    ) -> StoreView {
        match self.content {
            Some(record) => self.with_record(record.add_version(name, id, content)),
            None => self,
        }
    }

    /// Why `commit` is declined, if it is.
    pub open spec fn commit_error(self) -> Option<StoreError> {
        match self.content {
            None => Some(StoreError::NotInitialized),
            Some(record) => if record.can_commit() {
                None
            } else {
                Some(StoreError::NoCurrentVersion)
            },
        }
    }

    /// The store after `commit`.
    pub open spec fn commit(self, content: Seq<char>) -> StoreView {
        match self.content {
            Some(record) => if record.can_commit() {
                self.with_record(record.commit(content))
            } else {
                self
            },
            None => self,
        }
    }

    /// Why `switch` to `name` is declined, if it is: the store must hold a
    /// record, then the version must be stored, then the confirmation, where
    /// one was asked for, must not have been refused.
    pub open spec fn switch_error(self, name: Seq<char>, refused: bool) -> Option<StoreError> {
        match self.content {
            None => Some(StoreError::NotInitialized),
            Some(record) => if !record.versions.contains_key(name) {
                Some(StoreError::VersionNotFound)
            } else if refused {
                Some(StoreError::Declined)
            } else {
                None
            },
        }
    }

    /// The text of the version `name`, which a switch to it puts into the
    /// tracked file.
    pub open spec fn switch_text(self, name: Seq<char>) -> Seq<char> {
        self.content.unwrap().versions[name].content
    }

    /// The store after `switch`.
    pub open spec fn switch(self, name: Seq<char>, refused: bool) -> StoreView {
        match self.content {
            Some(record) => if self.switch_error(name, refused) is None {
                self.with_record(record.switch(name))
            } else {
                self
            },
            None => self,
        }
    }

    /// Why `remove` of `name` is declined, if it is.
    pub open spec fn remove_error(self, name: Seq<char>) -> Option<StoreError> {
        match self.content {
            None => Some(StoreError::NotInitialized),
            Some(record) => record.removal_error(name),
        }
    }

    /// The store after `remove`.
    pub open spec fn remove(self, name: Seq<char>) -> StoreView {
        match self.content {
            Some(record) => if record.removal_error(name) is None {
                self.with_record(record.remove(name))
            } else {
                self
            },
            None => self,
        }
    }

    /// Why `clear` is declined: it always is.
    pub open spec fn clear_error(self) -> StoreError {
        if self.initialized() {
            StoreError::NotSupported
        } else {
            StoreError::NotInitialized
        }
    }
}

} // verus!
