//! What holds of the store whatever it is asked to do, stated over the model
//! and proved from the operations' definitions.

use crate::entries::{distinct_names, lemma_map_of_len, map_of, EntryView};
use crate::error::StoreError;
use crate::model::{baseline_name, RecordView, StoreView};
use crate::record::record_of_parts;
use vstd::prelude::*;

verus! {

/// A sound record is made up again by its counter, its current version and
/// any list that holds each of its versions once, in whatever order: what is
/// written out of a record and read back unchanged is the same record.
pub proof fn lemma_parts_make_up_the_record(record: RecordView, entries: Seq<EntryView>)
    requires
        record.wf(),
        distinct_names(entries),
        map_of(entries) == record.versions,
    ensures
        record_of_parts(record.version_count, record.current_version, entries) == Some(record),
{
    lemma_map_of_len(entries);
}

/// Initialising twice leaves the store as initialising once does: the second
/// `init` is declined and changes nothing, whatever the tracked file holds
/// by then.
pub proof fn lemma_init_idempotent(
    store: StoreView,
    id: Seq<char>,
    first: Seq<char>,
    second: Seq<char>,
)
    ensures
        store.init(id, first).init_error() == Some(StoreError::AlreadyInitialized),
        store.init(id, first).init(id, second) == store.init(id, first),
{
}

/// A store that holds no record is left as it is by every operation but
/// `init`, and each of them is declined for that reason; a store that holds a
/// record holds one after every operation.
pub proof fn lemma_only_init_initialises(
    store: StoreView,
    name: Seq<char>,
    id: Seq<char>,
    content: Seq<char>,
    refused: bool,
)
    ensures
        !store.initialized() ==> {
            &&& store.add_version(name, id, content) == store
            &&& store.commit(content) == store
            &&& store.switch(name, refused) == store
            &&& store.remove(name) == store
            &&& store.commit_error() == Some(StoreError::NotInitialized)
            &&& store.switch_error(name, refused) == Some(StoreError::NotInitialized)
            &&& store.remove_error(name) == Some(StoreError::NotInitialized)
            &&& store.clear_error() == StoreError::NotInitialized
        },
        store.initialized() ==> {
            &&& store.init(id, content).initialized()
            &&& store.add_version(name, id, content).initialized()
            &&& store.commit(content).initialized()
            &&& store.switch(name, refused).initialized()
            &&& store.remove(name).initialized()
        },
{
}

/// An operation that is declined changes nothing.
pub proof fn lemma_declined_changes_nothing(
    store: StoreView,
    name: Seq<char>,
    id: Seq<char>,
    content: Seq<char>,
    refused: bool,
)
    ensures
        store.init_error() is Some ==> store.init(id, content) == store,
        !store.initialized() ==> store.add_version(name, id, content) == store,
        store.commit_error() is Some ==> store.commit(content) == store,
        store.switch_error(name, refused) is Some ==> store.switch(name, refused) == store,
        store.remove_error(name) is Some ==> store.remove(name) == store,
{
}

/// The baseline is protected: removing it is declined for every store, and
/// leaves the versions, the counter and all else as they were.
pub proof fn lemma_baseline_protected(store: StoreView)
    ensures
        store.remove_error(baseline_name()) is Some,
        store.remove(baseline_name()) == store,
        store.content matches Some(record) ==> record.removal_error(baseline_name()) == Some(
            StoreError::BaselineProtected,
        ),
{
}

/// Once stored, the baseline stays: no operation takes it out of the record.
/// An `init` that went through leaves a record, which holds it.
pub proof fn lemma_baseline_stays(
    store: StoreView,
    name: Seq<char>,
    id: Seq<char>,
    content: Seq<char>,
    refused: bool,
)
    requires
        store.has_baseline(),
    ensures
        store.init(id, content).has_baseline(),
        store.init_error() is None ==> store.init(id, content).initialized(),
        store.add_version(name, id, content).has_baseline(),
        store.commit(content).has_baseline(),
        store.switch(name, refused).has_baseline(),
        store.remove(name).has_baseline(),
{
}

/// After an `add_version`, a `switch` or an `init` that went through, there
/// is a current version and it is stored.
pub proof fn lemma_current_version_stored(
    store: StoreView,
    name: Seq<char>,
    id: Seq<char>,
    content: Seq<char>,
    refused: bool,
)
    ensures
        store.initialized() ==> store.add_version(name, id, content).current_stored(),
        store.switch_error(name, refused) is None ==> store.switch(name, refused).current_stored(),
        store.init_error() is None ==> store.init(id, content).current_stored(),
{
}

/// After an `add_version`, an `init` or a `commit` that went through, the
/// current version holds the text that the tracked file was read to hold;
/// after a `switch` that went through, it holds the text that the tracked
/// file is given.
pub proof fn lemma_current_text_is_file_text(
    store: StoreView,
    name: Seq<char>,
    id: Seq<char>,
    content: Seq<char>,
    refused: bool,
)
    ensures
        store.switch_error(name, refused) is None ==> store.switch(
            name,
            refused,
        ).content.unwrap().current_text() == store.switch_text(name),
        store.initialized() ==> store.add_version(name, id, content).content.unwrap().current_text()
            == content,
        store.init_error() is None ==> store.init(id, content).content.unwrap().current_text()
            == content,
        store.commit_error() is None ==> store.commit(content).content.unwrap().current_text()
            == content,
{
}

/// Every operation keeps a sound store sound. In particular the current
/// version, once set, names a stored version after every operation.
pub proof fn lemma_operations_keep_wf(
    store: StoreView,
    name: Seq<char>,
    id: Seq<char>,
    content: Seq<char>,
    refused: bool,
)
    requires
        store.wf(),
    ensures
        store.init(id, content).wf(),
        store.add_version(name, id, content).wf(),
        store.commit(content).wf(),
        store.switch(name, refused).wf(),
        store.remove(name).wf(),
{
}

/// The counter equals the number of stored versions after every operation on
/// a store of which that held before, but for an `add_version` under a name
/// that is stored already.
pub proof fn lemma_count_kept(
    store: StoreView,
    name: Seq<char>,
    id: Seq<char>,
    content: Seq<char>,
    refused: bool,
)
    requires
        store.wf(),
        store.counted(),
    ensures
        store.init(id, content).counted(),
        (store.content matches Some(record) ==> !record.versions.contains_key(name))
            ==> store.add_version(name, id, content).counted(),
        store.commit(content).counted(),
        store.switch(name, refused).counted(),
        store.remove(name).counted(),
{
}

/// An `add_version` under a name that is stored already replaces the
/// snapshot and still counts one version more: from then on the counter
/// exceeds the number of stored versions.
pub proof fn lemma_add_again_overcounts(
    record: RecordView,
    name: Seq<char>,
    id: Seq<char>,
    content: Seq<char>,
)
    requires
        record.wf(),
        record.versions.contains_key(name),
    ensures
        record.add_version(name, id, content).versions.len() == record.versions.len(),
        record.add_version(name, id, content).version_count == record.version_count + 1,
        !record.add_version(name, id, content).counted(),
{
}

} // verus!
