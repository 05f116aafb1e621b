use vstd::prelude::*;

use crate::destinations::{destination_path, FileSystemDestinations};
use crate::model::{FileSystemError, MediaItemMetadata};
use crate::storage::{fresh_step, lemma_fresh_steps_compose, MediaItemMetadataStorageInternal};
use crate::thumbnail::ThumbnailsInternal;

verus! {

/// What the disk work of one batch item came to.
pub enum ItemOutcome {
    /// The item was not handled: its failure is reported and nothing changes.
    Failed(FileSystemError),
    /// The item's file is gone, and so is its thumbnail file, if it had one.
    Done(MediaItemMetadata),
    /// The item's file is gone, but deleting its thumbnail file failed.
    ThumbnailFailed(MediaItemMetadata, FileSystemError),
}

/// The state that a batch commits against: the index's items and paths, the
/// cache's entries and the failures so far.
pub type BatchState = (Map<u64, MediaItemMetadata>, Map<Seq<char>, u64>, Map<u64, Seq<char>>, Seq<FileSystemError>);

/// One item of a batch. A failed item only adds its failure. A handled item
/// leaves the index (where its path is still known); its cache entry goes
/// where its thumbnail file was deleted and stays, with the failure reported,
/// where deleting it failed. A missing cache entry is a failure of its own
/// only where the index still knew the path: otherwise the watcher has
/// already dropped item and thumbnail.
pub open spec fn commit_step(st: BatchState, o: ItemOutcome) -> BatchState {
    let (items, paths, entries, failures) = st;
    match o {
        ItemOutcome::Failed(e) => (items, paths, entries, failures.push(e)),
        ItemOutcome::Done(item) => {
            let known = paths.contains_key(item.path@);
            let items2 = if known { items.remove(paths[item.path@]) } else { items };
            let paths2 = if known { paths.remove(item.path@) } else { paths };
            if entries.contains_key(item.id) {
                (items2, paths2, entries.remove(item.id), failures)
            } else if known {
                (items2, paths2, entries, failures.push(FileSystemError::UnknownId(item.id)))
            } else {
                (items2, paths2, entries, failures)
            }
        },
        ItemOutcome::ThumbnailFailed(item, e) => {
            let known = paths.contains_key(item.path@);
            let items2 = if known { items.remove(paths[item.path@]) } else { items };
            let paths2 = if known { paths.remove(item.path@) } else { paths };
            (items2, paths2, entries, failures.push(e))
        },
    }
}

/// A whole batch, item after item.
pub open spec fn commit_all(st: BatchState, os: Seq<ItemOutcome>) -> BatchState
    decreases os.len(),
{
    if os.len() == 0 {
        st
    } else {
        commit_step(commit_all(st, os.drop_last()), os.last())
    }
}

/// An item to confirm, with the path it moves to.
pub struct ConfirmTarget {
    pub item: MediaItemMetadata,
    pub destination: String,
}

/// Looks up each requested id, in order.
pub fn lookup_all(storage: &MediaItemMetadataStorageInternal, ids: &Vec<u64>) -> (r: Vec<
    Result<MediaItemMetadata, FileSystemError>,
>)
    requires
        storage.wf(),
    ensures
        r.len() == ids.len(),
        forall|k: int| #![trigger r[k]]
            0 <= k < r.len() ==> match r[k] {
                Ok(item) => storage.items().contains_key(ids[k]) && item == storage.items()[ids[k]],
                Err(e) => !storage.items().contains_key(ids[k]) && e == FileSystemError::UnknownId(ids[k]),
            },
{
    let mut out: Vec<Result<MediaItemMetadata, FileSystemError>> = Vec::new();
    let mut i: usize = 0;
    while i < ids.len()
        invariant
            storage.wf(),
            i <= ids.len(),
            out.len() == i,
            forall|k: int| #![trigger out[k]]
                0 <= k < i ==> match out[k] {
                    Ok(item) => storage.items().contains_key(ids[k]) && item == storage.items()[ids[k]],
                    Err(e) => !storage.items().contains_key(ids[k]) && e == FileSystemError::UnknownId(ids[k]),
                },
        decreases ids.len() - i,
    {
        out.push(storage.get_item(ids[i]));
        i = i + 1;
    }
    out
}

/// The ids of all indexed items, for a batch over everything.
pub fn all_ids(storage: &MediaItemMetadataStorageInternal) -> (r: Vec<u64>)
    requires
        storage.wf(),
    ensures
        forall|k: int| 0 <= k < r.len() ==> storage.items().contains_key(#[trigger] r[k]),
        forall|id: u64| #[trigger] storage.items().contains_key(id) ==> exists|k: int| 0 <= k < r.len() && r[k] == id,
        forall|a: int, b: int| 0 <= a < r.len() && 0 <= b < r.len() && a != b ==> #[trigger] r[a] != #[trigger] r[b],
{
    let items = match storage.list() {
        Ok(v) => v,
        Err(_) => Vec::new(),
    };
    let mut out: Vec<u64> = Vec::new();
    let mut i: usize = 0;
    while i < items.len()
        invariant
            i <= items.len(),
            out.len() == i,
            forall|k: int| 0 <= k < i ==> #[trigger] out[k] == items[k].id,
        decreases items.len() - i,
    {
        out.push(items[i].id);
        i = i + 1;
    }
    proof {
        assert forall|id: u64| #[trigger] storage.items().contains_key(id) implies exists|k: int|
            0 <= k < out.len() && out[k] == id by {
            let k = choose|k: int| 0 <= k < items.len() && #[trigger] items[k].id == id;
            assert(out[k] == id);
        }
        assert forall|a: int, b: int| 0 <= a < out.len() && 0 <= b < out.len() && a != b
            implies #[trigger] out[a] != #[trigger] out[b] by {
            assert(out[a] == items[a].id);
            assert(out[b] == items[b].id);
        }
    }
    out
}

/// Looks up each requested id and the path it would be confirmed to.
pub fn plan_confirm(
    destinations: &FileSystemDestinations,
    storage: &MediaItemMetadataStorageInternal,
    destination_id: u64,
    ids: &Vec<u64>,
) -> (r: Vec<Result<ConfirmTarget, FileSystemError>>)
    requires
        storage.wf(),
    ensures
        r.len() == ids.len(),
        forall|k: int| #![trigger r[k]]
            0 <= k < r.len() ==> if !storage.items().contains_key(ids[k]) {
                r[k] == Err::<ConfirmTarget, FileSystemError>(FileSystemError::UnknownId(ids[k]))
            } else if destination_id >= destinations.entries().len() {
                r[k] == Err::<ConfirmTarget, FileSystemError>(FileSystemError::UnknownId(destination_id))
            } else {
                r[k] is Ok && r[k]->Ok_0.item == storage.items()[ids[k]] && r[k]->Ok_0.destination@
                    == destination_path(
                    destinations.entries()[destination_id as int].base_path@,
                    destinations.entries()[destination_id as int].dynamic_bp_suffix@,
                    storage.items()[ids[k]],
                )
            },
{
    let mut out: Vec<Result<ConfirmTarget, FileSystemError>> = Vec::new();
    let mut i: usize = 0;
    while i < ids.len()
        invariant
            storage.wf(),
            i <= ids.len(),
            out.len() == i,
            forall|k: int| #![trigger out[k]]
                0 <= k < i ==> if !storage.items().contains_key(ids[k]) {
                    out[k] == Err::<ConfirmTarget, FileSystemError>(FileSystemError::UnknownId(ids[k]))
                } else if destination_id >= destinations.entries().len() {
                    out[k] == Err::<ConfirmTarget, FileSystemError>(FileSystemError::UnknownId(destination_id))
                } else {
                    out[k] is Ok && out[k]->Ok_0.item == storage.items()[ids[k]] && out[k]->Ok_0.destination@
                        == destination_path(
                        destinations.entries()[destination_id as int].base_path@,
                        destinations.entries()[destination_id as int].dynamic_bp_suffix@,
                        storage.items()[ids[k]],
                    )
                },
        decreases ids.len() - i,
    {
        let entry = match storage.get_item(ids[i]) {
            Ok(item) => match destinations.derive_using(destination_id, &item) {
                Ok(destination) => Ok(ConfirmTarget { item, destination }),
                Err(e) => Err(e),
            },
            Err(e) => Err(e),
        };
        out.push(entry);
        i = i + 1;
    }
    out
}

/// A file can be discarded only where it is a regular file that exists.
pub fn check_discardable(item: &MediaItemMetadata, is_file: bool, exists: bool) -> (r: Result<(), FileSystemError>)
    ensures
        match r {
            Ok(()) => is_file && exists,
            Err(e) => !(is_file && exists) && e is FileNotFound && e->FileNotFound_0 == item.path,
        },
{
    if is_file && exists {
        Ok(())
    } else {
        Err(FileSystemError::FileNotFound(item.path.clone()))
    }
}

/// A file can be moved only where the source is a regular file and nothing
/// stands at the destination yet.
pub fn check_move(item: &MediaItemMetadata, destination: &str, source_is_file: bool, destination_exists: bool) -> (r:
    Result<(), FileSystemError>)
    ensures
        match r {
            Ok(()) => source_is_file && !destination_exists,
            Err(e) => !(source_is_file && !destination_exists) && e is InvalidParameters,
        },
{
    if source_is_file && !destination_exists {
        Ok(())
    } else {
        let msg = "cannot move '".to_string().concat(item.path.as_str()).concat("' to '").concat(destination).concat(
            "'",
        );
        Err(FileSystemError::InvalidParameters(msg))
    }
}

/// The directory that holds `path`: what precedes its last separator (the
/// root for a top-level entry), the empty path for a bare name, and nothing
/// for the root itself or the empty path. Unlike std's `Path::parent`, the
/// path is taken as written: a trailing `/`, `.` components and repeated
/// separators are not normalised. Destination paths end in an item's file
/// name and are joined with single separators, so they hold none of these.
pub open spec fn parent_of(path: Seq<char>) -> Option<Seq<char>> {
    let start = crate::watchdog::name_start(path, path.len() as int);
    if path.len() == 0 || path == seq!['/'] {
        None
    } else if start == 0 {
        Some(Seq::<char>::empty())
    } else if start == 1 {
        Some(seq!['/'])
    } else {
        Some(path.subrange(0, start - 1))
    }
}

/// The directory that holds `path`.
pub fn parent_dir(path: &str) -> (r: Option<String>)
    ensures
        crate::watchdog::opt_view(r) == parent_of(path@),
{
    let len = path.unicode_len();
    proof {
        reveal_strlit("/");
        assert("/"@ =~= seq!['/']);
        reveal_strlit("");
        assert(""@ =~= Seq::<char>::empty());
    }
    if len == 0 || crate::paths::same_text(path, "/") {
        return None;
    }
    let mut i: usize = len;
    while i > 0 && path.get_char(i - 1) != '/'
        invariant
            len == path@.len(),
            i <= len,
            crate::watchdog::name_start(path@, len as int) == crate::watchdog::name_start(path@, i as int),
        decreases i,
    {
        i = i - 1;
    }
    proof {
        if i > 0 {
            assert(crate::watchdog::name_start(path@, i as int) == i);
        }
    }
    if i == 0 {
        Some(String::from_str(""))
    } else if i == 1 {
        Some(String::from_str("/"))
    } else {
        Some(path.substring_char(0, i - 1).to_owned())
    }
}

/// Commits the outcome of one item of a batch.
fn commit_one(
    storage: &mut MediaItemMetadataStorageInternal,
    thumbnails: &mut ThumbnailsInternal,
    failures: &mut Vec<FileSystemError>,
    outcome: ItemOutcome,
)
    requires
        old(storage).wf(),
    ensures
        fresh_step(*old(storage), *final(storage)),
        final(storage).wf(),
        final(storage).next() == old(storage).next(),
        final(thumbnails).dir() == old(thumbnails).dir(),
        (final(storage).items(), final(storage).paths(), final(thumbnails).entries(), final(failures)@)
            == commit_step((old(storage).items(), old(storage).paths(), old(thumbnails).entries(), old(failures)@), outcome),
{
    match outcome {
        ItemOutcome::Failed(e) => {
            failures.push(e);
        },
        ItemOutcome::Done(item) => {
            let known = storage.is_path_known(item.path.as_str());
            storage.remove_if_known(item.path.as_str());
            match thumbnails.remove(item.id) {
                Ok(_) => {},
                Err(e) => {
                    if known {
                        failures.push(e);
                    }
                },
            }
        },
        ItemOutcome::ThumbnailFailed(item, e) => {
            storage.remove_if_known(item.path.as_str());
            failures.push(e);
        },
    }
}

/// Commits a batch, in order: each handled item leaves the index and, where
/// its thumbnail file was deleted, the cache; every failure is kept, one per
/// item and in the order of the items. Items that failed are left where they
/// are.
pub fn commit_batch(
    storage: &mut MediaItemMetadataStorageInternal,
    thumbnails: &mut ThumbnailsInternal,
    outcomes: Vec<ItemOutcome>,
) -> (r: Vec<FileSystemError>)
    requires
        old(storage).wf(),
    ensures
        fresh_step(*old(storage), *final(storage)),
        final(storage).wf(),
        final(storage).next() == old(storage).next(),
        final(thumbnails).dir() == old(thumbnails).dir(),
        (final(storage).items(), final(storage).paths(), final(thumbnails).entries(), r@) == commit_all(
            (old(storage).items(), old(storage).paths(), old(thumbnails).entries(), Seq::empty()),
            outcomes@,
        ),
{
    let ghost init: BatchState = (old(storage).items(), old(storage).paths(), old(thumbnails).entries(), Seq::empty());
    let mut failures: Vec<FileSystemError> = Vec::new();
    let ghost n = outcomes.len();
    let mut rest = outcomes;
    proof {
        assert(outcomes@.take(0) =~= Seq::<ItemOutcome>::empty());
    }
    while rest.len() > 0
        invariant
            storage.wf(),
            storage.next() == old(storage).next(),
            fresh_step(*old(storage), *storage),
            thumbnails.dir() == old(thumbnails).dir(),
            n == outcomes@.len(),
            rest.len() <= n,
            rest@ == outcomes@.subrange(n - rest.len(), n as int),
            (storage.items(), storage.paths(), thumbnails.entries(), failures@) == commit_all(
                init,
                outcomes@.take(n - rest.len()),
            ),
        decreases rest.len(),
    {
        let ghost done = n - rest.len();
        let ghost before = *storage;
        let o = rest.remove(0);
        proof {
            assert(o == outcomes@[done]);
            assert(outcomes@.take(done + 1).drop_last() =~= outcomes@.take(done));
            assert(outcomes@.take(done + 1).last() == outcomes@[done]);
        }
        commit_one(storage, thumbnails, &mut failures, o);
        proof {
            lemma_fresh_steps_compose(*old(storage), before, *storage);
        }
    }
    proof {
        assert(outcomes@.take(n as int) =~= outcomes@);
    }
    failures
}

/// The result of a batch: success where nothing failed, otherwise every
/// failure, in order.
pub fn aggregate(failures: Vec<FileSystemError>) -> (r: Result<(), FileSystemError>)
    ensures
        failures.len() == 0 <==> r is Ok,
        r is Err ==> r->Err_0 == FileSystemError::MultipleErrors(failures),
{
    if failures.len() == 0 {
        Ok(())
    } else {
        Err(FileSystemError::MultipleErrors(failures))
    }
}

/// An item whose handling failed (a refused move, a missing file) is left as
/// it is by its batch: its step changes neither the index nor the cache, and
/// only records the failure.
pub proof fn lemma_failed_item_untouched(st: BatchState, e: FileSystemError)
    ensures
        commit_step(st, ItemOutcome::Failed(e)).0 == st.0,
        commit_step(st, ItemOutcome::Failed(e)).1 == st.1,
        commit_step(st, ItemOutcome::Failed(e)).2 == st.2,
        commit_step(st, ItemOutcome::Failed(e)).3 == st.3.push(e),
{
}

} // verus!
