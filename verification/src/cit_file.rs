//! The snapshot store of one tracked file.
//!
//! The store decides; its caller reads and writes. An operation that needs the
//! text of the tracked file is handed that text. An operation that goes
//! through hands out what is to be written, in the order in which it is to be
//! written; one that is declined hands out the reason, changes nothing and
//! leaves nothing to write.

use crate::action::{
    action_views, persist, persist_and_write, persist_only, persist_then_write, Action,
};
use crate::confirm::{declines, is_decline};
use crate::digest::{digest_hex, generate_hash};
use crate::error::StoreError;
use crate::locator::{build_cit_file_path, display_name, file_name, record_location};
use crate::model::{baseline_name, StoreView};
use crate::record::{listed_views, record_view, ListedVersion, SnapshotRecord};
use vstd::prelude::*;

verus! {

/// What `list_versions` hands out.
#[derive(Debug)]
pub struct Listing {
    /// The counter of versions.
    pub total: usize,
    /// One line for each stored version.
    pub versions: Vec<ListedVersion>,
}

/// The store of one tracked file: where the file and its record lie, and the
/// record itself once the store is initialised.
#[derive(Debug)]
pub struct CitFile {
    filepath: String,
    filename: String,
    cit_file_path: String,
    record_exists: bool,
    content: Option<SnapshotRecord>,
}

impl View for CitFile {
    type V = StoreView;

    closed spec fn view(&self) -> StoreView {
        StoreView {
            filepath: self.filepath@,
            filename: self.filename@,
            cit_file_path: self.cit_file_path@,
            record_exists: self.record_exists,
            content: record_view(self.content),
        }
    }
}

impl CitFile {
    /// The store is sound: its record, if it has one, is sound and is kept at
    /// the store's place. Every store that this module hands out is sound,
    /// and every operation keeps it so.
    pub closed spec fn wf(&self) -> bool {
        self.content matches Some(record) ==> record.wf() && self.record_exists
    }

    /// A sound store is sound as a model.
    pub proof fn lemma_view_wf(&self)
        requires
            self.wf(),
        ensures
            self@.wf(),
    {
        if let Some(record) = self.content {
            record.lemma_view_wf();
        }
    }

    /// The store of the file whose canonical path is `filepath`, with its
    /// record kept below `root`. Nothing has been loaded yet: the store is not
    /// initialised, and nothing is taken to be kept at its place.
    pub fn new(root: &str, filepath: &str) -> (store: CitFile)
        ensures
            store.wf(),
            store@ == (StoreView {
                filepath: filepath@,
                filename: display_name(filepath@),
                cit_file_path: record_location(root@, digest_hex(filepath@)),
                record_exists: false,
                content: None,
            }),
    {
        CitFile {
            filepath: filepath.to_owned(),
            filename: file_name(filepath),
            cit_file_path: build_cit_file_path(root, filepath),
            record_exists: false,
            content: None,
        }
    }

    /// Takes in what was found at the store's place: whether anything is kept
    /// there, and the record that was read from it, if one could be read.
    /// Tells whether the store is initialised now.
    pub fn load_cit_file(&mut self, present: bool, record: Option<SnapshotRecord>) -> (loaded: bool)
        requires
            record matches Some(record) ==> record.wf(),
        ensures
            final(self).wf(),
            final(self)@ == (StoreView {
                record_exists: present || record is Some,
                content: record_view(record),
                ..old(self)@
            }),
            loaded == (record is Some),
    {
        let loaded = record.is_some();
        self.record_exists = present || loaded;
        self.content = record;
        loaded
    }

    /// The canonical path of the tracked file.
    pub fn filepath(&self) -> (path: &str)
        ensures
            path@ == self@.filepath,
    {
        self.filepath.as_str()
    }

    /// The display name of the tracked file.
    pub fn filename(&self) -> (name: &str)
        ensures
            name@ == self@.filename,
    {
        self.filename.as_str()
    }

    /// Where the record is kept.
    pub fn cit_file_path(&self) -> (path: &str)
        ensures
            path@ == self@.cit_file_path,
    {
        self.cit_file_path.as_str()
    }

    /// Whether something is kept at the store's place.
    pub fn record_exists(&self) -> (present: bool)
        ensures
            present == self@.record_exists,
    {
        self.record_exists
    }

    /// Whether the store holds a record.
    pub fn is_initialized(&self) -> (initialized: bool)
        ensures
            initialized == self@.initialized(),
    {
        self.content.is_some()
    }

    /// The record, once the store is initialised.
    pub fn record(&self) -> (record: Option<&SnapshotRecord>)
        requires
            self.wf(),
        ensures
            match record {
                Some(record) => record.wf() && self@.content == Some(record@),
                None => self@.content is None,
            },
    {
        self.content.as_ref()
    }

    /// Initialises the store, where the tracked file holds `content`: the
    /// record gets the baseline, with that text, as its only and current
    /// version. Where something is kept at the store's place already, nothing
    /// changes.
    pub fn init(&mut self, content: String) -> (done: Result<Vec<Action>, StoreError>)
        requires
            old(self).wf(),
        ensures
            final(self).wf(),
            final(self)@ == old(self)@.init(digest_hex(baseline_name()), content@),
            match done {
                Ok(actions) => old(self)@.init_error() is None && action_views(actions@)
                    == persist_only(),
                Err(error) => old(self)@.init_error() == Some(error),
            },
    {
        if self.record_exists {
            return Err(StoreError::AlreadyInitialized);
        }
        let mut record = SnapshotRecord::empty();
        let id = generate_hash("baseline");
        record.add_version("baseline", id, content);
        self.content = Some(record);
        self.record_exists = true;
        Ok(persist())
    }

    /// Adds the version `version_name`, where the tracked file holds
    /// `content`: the text is stored under that name, in place of an earlier
    /// snapshot of that name if there is one, with the digest of the name as
    /// its identifier; the counter goes up by one; the version becomes the
    /// current one.
    pub fn add_version(&mut self, version_name: &str, content: String) -> (done: Result<
        Vec<Action>,
        StoreError,
    >)
        requires
            old(self).wf(),
            old(self)@.can_count(),
        ensures
            final(self).wf(),
            final(self)@ == old(self)@.add_version(
                version_name@,
                digest_hex(version_name@),
                content@,
            ),
            match done {
                Ok(actions) => old(self)@.initialized() && action_views(actions@)
                    == persist_only(),
                Err(error) => !old(self)@.initialized() && error == StoreError::NotInitialized,
            },
    {
        match &mut self.content {
            Some(record) => {
                let id = generate_hash(version_name);
                record.add_version(version_name, id, content);
                Ok(persist())
            },
            None => Err(StoreError::NotInitialized),
        }
    }

    /// Lists the stored versions: the counter, and for each version its name,
    /// its identifier and whether it is the current one.
    pub fn list_versions(&self) -> (listing: Result<Listing, StoreError>)
        requires
            self.wf(),
        ensures
            match listing {
                Ok(listing) => self@.content matches Some(record) && listing.total
                    == record.version_count && record.listed_by(listed_views(listing.versions@)),
                Err(error) => self@.content is None && error == StoreError::NotInitialized,
            },
    {
        match &self.content {
            Some(record) => Ok(Listing { total: record.version_count(), versions: record.list() }),
            None => Err(StoreError::NotInitialized),
        }
    }

    /// Commits the text `content` of the tracked file to the current version:
    /// its snapshot holds that text from now on, under the identifier it had.
    pub fn commit(&mut self, content: String) -> (done: Result<Vec<Action>, StoreError>)
        requires
            old(self).wf(),
        ensures
            final(self).wf(),
            final(self)@ == old(self)@.commit(content@),
            match done {
                Ok(actions) => old(self)@.commit_error() is None && action_views(actions@)
                    == persist_only(),
                Err(error) => old(self)@.commit_error() == Some(error),
            },
    {
        match &mut self.content {
            Some(record) => match record.commit(content) {
                Ok(()) => Ok(persist()),
                Err(error) => Err(error),
            },
            None => Err(StoreError::NotInitialized),
        }
    }

    /// Switches to the version `version`: it becomes the current one, the
    /// record is to be written, and then the tracked file is to get the
    /// version's text.
    ///
    /// With `prompt`, `answer` is what was replied to the question whether
    /// the switch may discard what the tracked file holds; the question is due
    /// only where the version is stored. Without `prompt`, `answer` is not
    /// looked at.
    pub fn switch(&mut self, version: &str, prompt: bool, answer: &str) -> (done: Result<
        Vec<Action>,
        StoreError,
    >)
        requires
            old(self).wf(),
        ensures
            final(self).wf(),
            final(self)@ == old(self)@.switch(version@, prompt && declines(answer@)),
            match done {
                Ok(actions) => {
                    &&& old(self)@.switch_error(version@, prompt && declines(answer@)) is None
                    &&& action_views(actions@) == persist_then_write(
                        old(self)@.switch_text(version@),
                    )
                },
                Err(error) => old(self)@.switch_error(version@, prompt && declines(answer@))
                    == Some(error),
            },
    {
        match &mut self.content {
            Some(record) => {
                if !record.contains(version) {
                    return Err(StoreError::VersionNotFound);
                }
                if prompt && is_decline(answer) {
                    return Err(StoreError::Declined);
                }
                match record.switch(version) {
                    Ok(text) => Ok(persist_and_write(text)),
                    Err(error) => Err(error),
                }
            },
            None => Err(StoreError::NotInitialized),
        }
    }

    /// Removes the version `version`, unless it is the baseline, is not
    /// stored, or is the current version.
    pub fn remove(&mut self, version: &str) -> (done: Result<Vec<Action>, StoreError>)
        requires
            old(self).wf(),
        ensures
            final(self).wf(),
            final(self)@ == old(self)@.remove(version@),
            match done {
                Ok(actions) => old(self)@.remove_error(version@) is None && action_views(
                    actions@,
                ) == persist_only(),
                Err(error) => old(self)@.remove_error(version@) == Some(error),
            },
    {
        match &mut self.content {
            Some(record) => match record.remove(version) {
                Ok(()) => Ok(persist()),
                Err(error) => Err(error),
            },
            None => Err(StoreError::NotInitialized),
        }
    }

    /// Would drop the record; does nothing yet, and says so.
    pub fn clear(&self) -> (done: Result<(), StoreError>)
        ensures
            done == Err::<(), StoreError>(self@.clear_error()),
    {
        if self.content.is_some() {
            Err(StoreError::NotSupported)
        } else {
            Err(StoreError::NotInitialized)
        }
    }
}

} // verus!
