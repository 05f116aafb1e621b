use std::collections::HashMap;
use vstd::prelude::*;

use crate::paths::same_text;
use crate::model::{FileSystemError, MediaItemMetadata, Timestamp};

verus! {

broadcast use vstd::std_specs::hash::group_hash_axioms;

/// One entry of the path index: a path and the id of the item stored under it.
pub struct PathEntry {
    pub path: String,
    pub id: u64,
}

/// One change of the index hands out no id but fresh ones: the next id never
/// goes down, and every item that was not there before carries an id at or
/// above the old next id.
pub open spec fn fresh_step(pre: MediaItemMetadataStorageInternal, post: MediaItemMetadataStorageInternal) -> bool {
    &&& pre.next() <= post.next()
    &&& forall|id: u64| #[trigger]
        post.items().contains_key(id) && !pre.items().contains_key(id) ==> pre.next() <= id
}

/// The metadata index: items by id, and the path index that mirrors it.
pub struct MediaItemMetadataStorageInternal {
    files: HashMap<u64, MediaItemMetadata>,
    path_idx: Vec<PathEntry>,
    paths: Ghost<Map<Seq<char>, u64>>,
    next_id: u64,
}

impl MediaItemMetadataStorageInternal {
    /// The indexed items, by id.
    pub closed spec fn items(self) -> Map<u64, MediaItemMetadata> {
        self.files@
    }

    /// The path index: each known path with the id of its item.
    pub closed spec fn paths(self) -> Map<Seq<char>, u64> {
        self.paths@
    }

    /// The id that the next added item receives.
    pub closed spec fn next(self) -> u64 {
        self.next_id
    }

    pub closed spec fn wf(self) -> bool {
        &&& self.paths@.dom().finite()
        &&& forall|id: u64| #[trigger]
            self.files@.contains_key(id) ==> self.files@[id].id == id && id < self.next_id
        &&& forall|id: u64| #[trigger]
            self.files@.contains_key(id) ==> self.paths@.contains_key(self.files@[id].path@)
                && self.paths@[self.files@[id].path@] == id
        &&& forall|p: Seq<char>| #[trigger]
            self.paths@.contains_key(p) ==> self.files@.contains_key(self.paths@[p])
                && self.files@[self.paths@[p]].path@ == p
        &&& forall|i: int|
            0 <= i < self.path_idx.len() ==> self.paths@.contains_key(#[trigger] self.path_idx[i].path@)
                && self.paths@[self.path_idx[i].path@] == self.path_idx[i].id
        &&& forall|i: int, j: int|
            0 <= i < self.path_idx.len() && 0 <= j < self.path_idx.len() && i != j
                ==> #[trigger] self.path_idx[i].path@ != #[trigger] self.path_idx[j].path@
        &&& forall|p: Seq<char>| #[trigger]
            self.paths@.contains_key(p) ==> exists|i: int|
                0 <= i < self.path_idx.len() && #[trigger] self.path_idx[i].path@ == p
    }

    pub fn new() -> (r: Self)
        ensures
            r.wf(),
            r.items() == Map::<u64, MediaItemMetadata>::empty(),
            r.paths() == Map::<Seq<char>, u64>::empty(),
            r.next() == 0,
    {
        MediaItemMetadataStorageInternal {
            files: HashMap::new(),
            path_idx: Vec::new(),
            paths: Ghost(Map::empty()),
            next_id: 0,
        }
    }

    pub fn get_item(&self, id: u64) -> (r: Result<MediaItemMetadata, FileSystemError>)
        requires
            self.wf(),
        ensures
            match r {
                Ok(item) => self.items().contains_key(id) && item == self.items()[id],
                Err(e) => !self.items().contains_key(id) && e == FileSystemError::UnknownId(id),
            },
    {
        match self.files.get(&id) {
            Some(item) => Ok(item.duplicate()),
            None => Err(FileSystemError::UnknownId(id)),
        }
    }

    /// The position of `path` in the path index, if it is there.
    fn find_path(&self, path: &str) -> (r: Option<usize>)
        requires
            self.wf(),
        ensures
            match r {
                Some(i) => i < self.path_idx.len() && self.path_idx[i as int].path@ == path@,
                None => !self.paths().contains_key(path@),
            },
    {
        let mut i: usize = 0;
        while i < self.path_idx.len()
            invariant
                self.wf(),
                i <= self.path_idx.len(),
                forall|j: int| 0 <= j < i ==> self.path_idx[j].path@ != path@,
            decreases self.path_idx.len() - i,
        {
            if same_text(self.path_idx[i].path.as_str(), path) {
                return Some(i);
            }
            i = i + 1;
        }
        None
    }

    pub fn is_path_known(&self, path: &str) -> (r: bool)
        requires
            self.wf(),
        ensures
            r == self.paths().contains_key(path@),
    {
        match self.find_path(path) {
            Some(_) => true,
            None => false,
        }
    }
    /// The id stored under `path`, if the path is known.
    pub fn id_of_path(&self, path: &str) -> (r: Option<u64>)
        requires
            self.wf(),
        ensures
            match r {
                Some(id) => self.paths().contains_key(path@) && id == self.paths()[path@],
                None => !self.paths().contains_key(path@),
            },
    {
        match self.find_path(path) {
            Some(i) => Some(self.path_idx[i].id),
            None => None,
        }
    }

    /// Adds an item for a path that is not yet known, under the next id.
    /// Fails with `Other` only when the id space is used up.
    pub fn add(&mut self, path: &str, name: String, mime: String, creation_date: Timestamp) -> (r:
        Result<MediaItemMetadata, FileSystemError>)
        requires
            old(self).wf(),
            !old(self).paths().contains_key(path@),
        ensures
            fresh_step(*old(self), *final(self)),
            final(self).wf(),
            match r {
                Ok(item) => {
                    &&& old(self).next() < u64::MAX
                    &&& item.id == old(self).next()
                    &&& item.path@ == path@
                    &&& item.name == name
                    &&& item.mime == mime
                    &&& item.creation_date == creation_date
                    &&& !old(self).items().contains_key(item.id)
                    &&& final(self).items() == old(self).items().insert(item.id, item)
                    &&& final(self).paths() == old(self).paths().insert(path@, item.id)
                    &&& final(self).next() == old(self).next() + 1
                },
                Err(e) => {
                    &&& old(self).next() == u64::MAX
                    &&& e is Other
                    &&& final(self).items() == old(self).items()
                    &&& final(self).paths() == old(self).paths()
                    &&& final(self).next() == old(self).next()
                },
            },
    {
        if self.next_id == u64::MAX {
            return Err(FileSystemError::Other("the id space is exhausted".to_string()));
        }
        let id = self.next_id;
        self.next_id = self.next_id + 1;
        let value = MediaItemMetadata {
            id,
            name,
            mime,
            path: path.to_owned(),
            creation_date,
        };
        let stored = value.duplicate();
        self.files.insert(id, stored);
        self.path_idx.push(PathEntry { path: path.to_owned(), id });
        self.paths = Ghost(self.paths@.insert(path@, id));
        proof {
            let n = self.path_idx.len() - 1;
            assert(self.path_idx[n as int].path@ == path@);
            assert forall|i: int| 0 <= i < n implies self.path_idx[i] == old(self).path_idx[i] by {}
            assert forall|q: Seq<char>| #[trigger] self.paths@.contains_key(q) implies exists|i: int|
                0 <= i < self.path_idx.len() && #[trigger] self.path_idx[i].path@ == q by {
                if q != path@ {
                    let i = choose|i: int|
                        0 <= i < old(self).path_idx.len() && #[trigger] old(self).path_idx[i].path@ == q;
                    assert(self.path_idx[i].path@ == q);
                } else {
                    assert(self.path_idx[n as int].path@ == q);
                }
            }
        }
        Ok(value)
    }

    /// Removes the entry at position `i` of the path index, and its item.
    fn remove_at(&mut self, i: usize)
        requires
            old(self).wf(),
            i < old(self).path_idx.len(),
        ensures
            fresh_step(*old(self), *final(self)),
            final(self).wf(),
            old(self).paths().contains_key(old(self).path_idx[i as int].path@),
            old(self).paths()[old(self).path_idx[i as int].path@] == old(self).path_idx[i as int].id,
            final(self).items() == old(self).items().remove(old(self).path_idx[i as int].id),
            final(self).paths() == old(self).paths().remove(old(self).path_idx[i as int].path@),
            final(self).next() == old(self).next(),
    {
        let ghost p = self.path_idx[i as int].path@;
        let id = self.path_idx[i].id;
        let _ = self.files.remove(&id);
        let _ = self.path_idx.remove(i);
        self.paths = Ghost(self.paths@.remove(p));
        proof {
            let o = old(self).path_idx;
            let v = self.path_idx;
            assert forall|j: int| 0 <= j < v.len() implies #[trigger] v[j] == (if j < i { o[j] } else { o[j + 1] }) by {}
            assert forall|j: int| 0 <= j < v.len() implies self.paths@.contains_key(#[trigger] v[j].path@)
                && self.paths@[v[j].path@] == v[j].id by {
                let k = if j < i { j } else { j + 1 };
                assert(v[j] == o[k]);
                assert(o[k].path@ != o[i as int].path@);
            }
            assert forall|a: int, b: int| 0 <= a < v.len() && 0 <= b < v.len() && a != b
                implies #[trigger] v[a].path@ != #[trigger] v[b].path@ by {
                let ka = if a < i { a } else { a + 1 };
                let kb = if b < i { b } else { b + 1 };
                assert(v[a] == o[ka]);
                assert(v[b] == o[kb]);
            }
            assert forall|q: Seq<char>| #[trigger] self.paths@.contains_key(q) implies exists|j: int|
                0 <= j < v.len() && #[trigger] v[j].path@ == q by {
                let k = choose|k: int| 0 <= k < o.len() && #[trigger] o[k].path@ == q;
                assert(k != i);
                if k < i {
                    assert(v[k] == o[k]);
                } else {
                    assert(v[k - 1] == o[k]);
                }
            }
        }
    }

    /// Removes the item with the given id, and its path.
    pub fn remove(&mut self, id: u64) -> (r: Result<(), FileSystemError>)
        requires
            old(self).wf(),
        ensures
            fresh_step(*old(self), *final(self)),
            final(self).wf(),
            final(self).next() == old(self).next(),
            match r {
                Ok(()) => {
                    &&& old(self).items().contains_key(id)
                    &&& final(self).items() == old(self).items().remove(id)
                    &&& final(self).paths() == old(self).paths().remove(old(self).items()[id].path@)
                },
                Err(e) => {
                    &&& !old(self).items().contains_key(id)
                    &&& e == FileSystemError::UnknownId(id)
                    &&& final(self).items() == old(self).items()
                    &&& final(self).paths() == old(self).paths()
                },
            },
    {
        let found = match self.files.get(&id) {
            Some(item) => self.find_path(item.path.as_str()),
            None => {
                return Err(FileSystemError::UnknownId(id));
            },
        };
        match found {
            Some(i) => {
                self.remove_at(i);
                Ok(())
            },
            None => {
                proof {
                    assert(self.paths@.contains_key(self.files@[id].path@));
                }
                Err(FileSystemError::UnknownId(id))
            },
        }
    }

    /// Removes the item stored under the given path, and its id.
    pub fn remove_path(&mut self, path: &str) -> (r: Result<(), FileSystemError>)
        requires
            old(self).wf(),
        ensures
            fresh_step(*old(self), *final(self)),
            final(self).wf(),
            final(self).next() == old(self).next(),
            match r {
                Ok(()) => {
                    &&& old(self).paths().contains_key(path@)
                    &&& final(self).items() == old(self).items().remove(old(self).paths()[path@])
                    &&& final(self).paths() == old(self).paths().remove(path@)
                },
                Err(e) => {
                    &&& !old(self).paths().contains_key(path@)
                    &&& e is UnknownPath
                    &&& e->UnknownPath_0@ == path@
                    &&& final(self).items() == old(self).items()
                    &&& final(self).paths() == old(self).paths()
                },
            },
    {
        match self.find_path(path) {
            Some(i) => {
                self.remove_at(i);
                Ok(())
            },
            None => Err(FileSystemError::UnknownPath(path.to_owned())),
        }
    }

    /// Removes the item stored under the given path, where there is one.
    pub fn remove_if_known(&mut self, path: &str)
        requires
            old(self).wf(),
        ensures
            fresh_step(*old(self), *final(self)),
            final(self).wf(),
            final(self).next() == old(self).next(),
            old(self).paths().contains_key(path@) ==> final(self).items() == old(self).items().remove(
                old(self).paths()[path@],
            ),
            old(self).paths().contains_key(path@) ==> final(self).paths() == old(self).paths().remove(
                path@,
            ),
            !old(self).paths().contains_key(path@) ==> final(self).items() == old(self).items()
                && final(self).paths() == old(self).paths(),
    {
        if self.is_path_known(path) {
            let _ = self.remove_path(path);
        }
    }

    /// A snapshot of all items, each once, in no particular order.
    pub fn list(&self) -> (r: Result<Vec<MediaItemMetadata>, FileSystemError>)
        requires
            self.wf(),
        ensures
            r is Ok,
            forall|k: int| #![trigger r->Ok_0[k]]
                0 <= k < r->Ok_0.len() ==> self.items().contains_key(r->Ok_0[k].id)
                    && r->Ok_0[k] == self.items()[r->Ok_0[k].id],
            forall|id: u64| #[trigger]
                self.items().contains_key(id) ==> exists|k: int|
                    0 <= k < r->Ok_0.len() && #[trigger] r->Ok_0[k].id == id,
            forall|a: int, b: int|
                0 <= a < r->Ok_0.len() && 0 <= b < r->Ok_0.len() && a != b ==> #[trigger] r->Ok_0[a].id
                    != #[trigger] r->Ok_0[b].id,
    {
        let mut out: Vec<MediaItemMetadata> = Vec::new();
        let mut i: usize = 0;
        while i < self.path_idx.len()
            invariant
                self.wf(),
                i <= self.path_idx.len(),
                out.len() == i,
                forall|k: int| 0 <= k < i ==> self.files@.contains_key(#[trigger] self.path_idx[k].id),
                forall|k: int| 0 <= k < i ==> #[trigger] out@[k] == self.files@[self.path_idx[k].id],
            decreases self.path_idx.len() - i,
        {
            let id = self.path_idx[i].id;
            match self.files.get(&id) {
                Some(item) => {
                    let ghost before = out@;
                    out.push(item.duplicate());
                    proof {
                        assert(self.files@.contains_key(id));
                        assert(out@[i as int] == self.files@[id]);
                        assert forall|k: int| 0 <= k < i + 1 implies #[trigger] out@[k] == self.files@[self.path_idx[k].id] by {
                            if k < i {
                                assert(out@[k] == before[k]);
                            }
                        }
                    }
                },
                None => {
                    proof {
                        assert(self.paths@.contains_key(self.path_idx[i as int].path@));
                    }
                    return Err(FileSystemError::UnknownId(id));
                },
            }
            i = i + 1;
        }
        proof {
            assert forall|id: u64| #[trigger] self.files@.contains_key(id) implies exists|k: int|
                0 <= k < out.len() && #[trigger] out[k].id == id by {
                let p = self.files@[id].path@;
                assert(self.paths@.contains_key(p));
                let k = choose|k: int| 0 <= k < self.path_idx.len() && #[trigger] self.path_idx[k].path@ == p;
                assert(out[k].id == id);
            }
            let res: Result<Vec<MediaItemMetadata>, FileSystemError> = Ok(out);
            assert(res->Ok_0 == out);
            assert forall|a: int, b: int| 0 <= a < out.len() && 0 <= b < out.len() && a != b
                implies #[trigger] out[a].id != #[trigger] out[b].id by {
                assert(out[a] == self.files@[self.path_idx[a].id]);
                assert(out[b] == self.files@[self.path_idx[b].id]);
                assert(self.path_idx[a].path@ != self.path_idx[b].path@);
            }
        }
        Ok(out)
    }
}

/// Round trip between the two maps: the path of every indexed item leads back
/// to its id through the path index, and every indexed path leads to an item
/// stored under that very path. Both maps are finite and of the same size.
pub proof fn lemma_round_trip(s: MediaItemMetadataStorageInternal)
    requires
        s.wf(),
    ensures
        forall|id: u64| #[trigger]
            s.items().contains_key(id) ==> s.paths().contains_key(s.items()[id].path@)
                && s.paths()[s.items()[id].path@] == id,
        forall|p: Seq<char>| #[trigger]
            s.paths().contains_key(p) ==> s.items().contains_key(s.paths()[p]) && s.items()[s.paths()[p]].path@
                == p,
        s.items().dom().finite(),
        s.paths().dom().finite(),
        s.items().len() == s.paths().len(),
{
    let items = s.items();
    let f = |id: u64| items[id].path@;
    assert forall|a: u64, b: u64| items.dom().contains(a) && items.dom().contains(b) && #[trigger] f(a) == #[trigger] f(b)
        implies a == b by {
        assert(s.paths()[items[a].path@] == a);
        assert(s.paths()[items[b].path@] == b);
    }
    assert(vstd::relations::injective_on(f, items.dom()));
    assert(items.dom().map(f) =~= s.paths().dom()) by {
        assert forall|p: Seq<char>| #[trigger] s.paths().dom().contains(p) implies items.dom().map(f).contains(p) by {
            let id = s.paths()[p];
            assert(items.dom().contains(id) && f(id) == p);
        }
    }
    vstd::set_lib::lemma_map_size(items.dom(), s.paths().dom(), f);
}

/// Fresh steps compose: a run of index changes, each handing out fresh ids
/// only, hands out fresh ids only.
pub proof fn lemma_fresh_steps_compose(
    a: MediaItemMetadataStorageInternal,
    b: MediaItemMetadataStorageInternal,
    c: MediaItemMetadataStorageInternal,
)
    requires
        fresh_step(a, b),
        fresh_step(b, c),
    ensures
        fresh_step(a, c),
{
}

/// No id is given again after its item was removed: once an id that was in
/// use has left the index, no later state of the index holds it.
pub proof fn lemma_removed_id_not_reused(
    a: MediaItemMetadataStorageInternal,
    b: MediaItemMetadataStorageInternal,
    c: MediaItemMetadataStorageInternal,
    id: u64,
)
    requires
        a.wf(),
        fresh_step(a, b),
        fresh_step(b, c),
        a.items().contains_key(id),
        !b.items().contains_key(id),
    ensures
        !c.items().contains_key(id),
{
}

/// Ids are handed out once: each indexed item carries the id it is stored
/// under, and every id handed out so far lies below the next one. As `add`
/// hands out exactly `next` and raises it, and removals leave it alone, an id
/// is never shared and never given again after its item is removed.
pub proof fn lemma_ids_fresh(s: MediaItemMetadataStorageInternal)
    requires
        s.wf(),
    ensures
        forall|id: u64| #[trigger]
            s.items().contains_key(id) ==> s.items()[id].id == id && id < s.next(),
        !s.items().contains_key(s.next()),
{
}

} // verus!
