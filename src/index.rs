use vstd::prelude::*;
use crate::model::{InodeInfo, FileInfo, TrashFileInfo, clone_opt_string, opt_view};

verus! {

/// A stored identity record, keyed by `id` and unique by `(dev_id, inode)`.
#[derive(Debug)]
pub struct InodeRow {
    pub id: u64,
    pub info: InodeInfo,
}

/// A stored path record, unique by `(dir_path, file_name)`, pointing at one identity.
#[derive(Debug)]
pub struct FileRow {
    pub inode_id: u64,
    pub dir_path: String,
    pub file_name: String,
    pub file_extension: Option<String>,
    pub version: u64,
    pub scan_time: i64,
}

#[derive(Debug, PartialEq, Eq, Structural)]
pub enum IndexError {
    /// No record at the given key
    NotFound,
    /// No identifier is left for a new identity record
    IdExhausted,
    /// The record has no content digest
    MissingHash,
    /// The query's parameters do not fit together
    InvalidQuery,
    /// Stored rows break a uniqueness or reference rule
    InvalidRows,
}

/// The index store: identity records, path records and trash records, held in
/// memory; persisting them is the caller's business.
#[derive(Debug)]
pub struct DatabaseManager {
    pub inodes: Vec<InodeRow>,
    pub files: Vec<FileRow>,
    pub trash: Vec<TrashFileInfo>,
    /// Identifier for the next new identity record
    pub next_id: u64,
}

pub open spec fn ident_of(r: InodeRow) -> (u64, u64) {
    (r.info.dev_id, r.info.inode)
}

/// Device and inode number packed into one integer key.
pub open spec fn ident_pair(r: InodeRow) -> int {
    r.info.dev_id as int * 0x1_0000_0000_0000_0000 + r.info.inode as int
}

pub proof fn lemma_ident_pair(a: InodeRow, b: InodeRow)
    ensures
        (ident_pair(a) == ident_pair(b)) == (ident_of(a) == ident_of(b)),
{
    let (da, ia, db, ib) = (a.info.dev_id as int, a.info.inode as int, b.info.dev_id as int, b.info.inode as int);
    if da * 0x1_0000_0000_0000_0000 + ia == db * 0x1_0000_0000_0000_0000 + ib {
        assert(da == db && ia == ib) by (nonlinear_arith)
            requires
                da * 0x1_0000_0000_0000_0000 + ia == db * 0x1_0000_0000_0000_0000 + ib,
                0 <= ia < 0x1_0000_0000_0000_0000,
                0 <= ib < 0x1_0000_0000_0000_0000,
                0 <= da,
                0 <= db,
        ;
    }
}

pub open spec fn file_key(r: FileRow) -> (Seq<char>, Seq<char>) {
    (r.dir_path@, r.file_name@)
}

pub open spec fn trash_key(t: TrashFileInfo) -> (Seq<char>, Seq<char>) {
    (t.dir_path@, t.file_name@)
}

pub open spec fn unique_by<A, K>(s: Seq<A>, key: spec_fn(A) -> K) -> bool {
    forall|i: int, j: int| 0 <= i < j < s.len() ==> key(s[i]) != key(s[j])
}

/// Filtering keeps keys unique, and keeps only elements of the sequence filtered.
pub proof fn lemma_filter_unique<A, K>(s: Seq<A>, p: spec_fn(A) -> bool, key: spec_fn(A) -> K)
    requires
        unique_by(s, key),
    ensures
        unique_by(s.filter(p), key),
        forall|i: int|
            0 <= i < s.filter(p).len() ==> exists|m: int| 0 <= m < s.len() && s[m] == #[trigger] s.filter(p)[i],
    decreases s.len(),
{
    reveal(Seq::filter);
    if s.len() > 0 {
        let d = s.drop_last();
        assert(unique_by(d, key));
        lemma_filter_unique(d, p, key);
        let fd = d.filter(p);
        assert forall|i: int| 0 <= i < s.filter(p).len() implies exists|m: int|
            0 <= m < s.len() && s[m] == #[trigger] s.filter(p)[i] by {
            if i < fd.len() {
                let m = choose|m: int| 0 <= m < d.len() && d[m] == fd[i];
                assert(s[m] == s.filter(p)[i]);
            } else {
                assert(s[s.len() - 1] == s.filter(p)[i]);
            }
        }
        assert forall|i: int, j: int| 0 <= i < j < s.filter(p).len() implies key(s.filter(p)[i])
            != key(s.filter(p)[j]) by {
            if j < fd.len() {
                assert(s.filter(p)[i] == fd[i]);
                assert(s.filter(p)[j] == fd[j]);
            } else {
                let m = choose|m: int| 0 <= m < d.len() && d[m] == fd[i];
                assert(s.filter(p)[i] == d[m]);
                assert(s.filter(p)[j] == s[s.len() - 1]);
                assert(d[m] == s[m]);
            }
        }
    }
}

/// The path record that `f` is stored as, pointing at identity `id`.
pub open spec fn file_row_of(f: FileInfo, id: u64) -> FileRow {
    FileRow {
        inode_id: id,
        dir_path: f.dir_path,
        file_name: f.file_name,
        file_extension: f.file_extension,
        version: f.version,
        scan_time: f.scan_time,
    }
}

/// Insert-or-replace of a path record by its key.
pub open spec fn upsert_row(files: Seq<FileRow>, row: FileRow) -> Seq<FileRow> {
    if exists|k: int| 0 <= k < files.len() && file_key(files[k]) == file_key(row) {
        let k = choose|k: int| 0 <= k < files.len() && file_key(files[k]) == file_key(row);
        files.update(k, row)
    } else {
        files.push(row)
    }
}

/// The trash record that stored file `f` becomes when removed at `remove_time`.
pub open spec fn trash_of(f: FileInfo, remove_time: i64) -> TrashFileInfo {
    TrashFileInfo {
        dir_path: f.dir_path,
        file_name: f.file_name,
        file_extension: f.file_extension,
        remove_time,
        permissions: f.inode_info.permissions,
        uid: f.inode_info.uid,
        gid: f.inode_info.gid,
        created: f.inode_info.created,
        modified: f.inode_info.modified,
        md5: f.inode_info.md5->Some_0,
        size: f.inode_info.size,
    }
}

/// Insert-or-replace of a trash record by its key.
pub open spec fn upsert_trash(trash: Seq<TrashFileInfo>, t: TrashFileInfo) -> Seq<TrashFileInfo> {
    if exists|k: int| 0 <= k < trash.len() && trash_key(trash[k]) == trash_key(t) {
        let k = choose|k: int| 0 <= k < trash.len() && trash_key(trash[k]) == trash_key(t);
        trash.update(k, t)
    } else {
        trash.push(t)
    }
}

/// Trash records with digest `h`.
pub open spec fn has_digest(h: Seq<char>) -> spec_fn(TrashFileInfo) -> bool {
    |t: TrashFileInfo| t.md5@ == h
}

/// Trash records at another path than `key`.
pub open spec fn not_at(key: (Seq<char>, Seq<char>)) -> spec_fn(TrashFileInfo) -> bool {
    |t: TrashFileInfo| trash_key(t) != key
}

/// The number of trash records with digest `h`.
pub open spec fn trash_refs(trash: Seq<TrashFileInfo>, h: Seq<char>) -> nat {
    trash.filter(has_digest(h)).len()
}

/// `f` with its digest set to `h`.
pub open spec fn with_md5(f: FileInfo, h: String) -> FileInfo {
    FileInfo { inode_info: InodeInfo { md5: Some(h), ..f.inode_info }, ..f }
}

/// Path records that the scan with `version` leaves in place in directory `dir`:
/// those elsewhere, and those it confirmed.
pub open spec fn kept_after_scan(dir: Seq<char>, version: u64) -> spec_fn(FileRow) -> bool {
    |row: FileRow| !(row.dir_path@ == dir && row.version != version)
}

/// Identity records that some path record of `files` refers to.
pub open spec fn referenced_by(files: Seq<FileRow>) -> spec_fn(InodeRow) -> bool {
    |row: InodeRow| refers_to(files, row.id)
}

pub open spec fn id_present(inodes: Seq<InodeRow>, id: u64) -> bool {
    exists|j: int| 0 <= j < inodes.len() && inodes[j].id == id
}

/// The identity of a restored file: as on disk, with the trash record's digest.
pub open spec fn restored_identity(on_disk: InodeInfo, h: String) -> InodeInfo {
    InodeInfo { md5: Some(h), ..on_disk }
}

/// The path record of a restored file, at its trash record's path.
pub open spec fn restored_row(t: TrashFileInfo, id: u64, scan_time: i64) -> FileRow {
    FileRow {
        inode_id: id,
        dir_path: t.dir_path,
        file_name: t.file_name,
        file_extension: t.file_extension,
        version: 0,
        scan_time,
    }
}

/// The position where `upsert_row` put `row`.
pub proof fn lemma_upserted_at(files: Seq<FileRow>, row: FileRow) -> (k: int)
    requires
        unique_by(files, |r: FileRow| file_key(r)),
    ensures
        0 <= k < upsert_row(files, row).len(),
        upsert_row(files, row)[k] == row,
{
    if exists|k: int| 0 <= k < files.len() && file_key(files[k]) == file_key(row) {
        let k = choose|k: int| 0 <= k < files.len() && file_key(files[k]) == file_key(row);
        k
    } else {
        files.len() as int
    }
}

pub open spec fn refers_to(files: Seq<FileRow>, id: u64) -> bool {
    exists|j: int| 0 <= j < files.len() && files[j].inode_id == id
}


/// Keeps, in order, the elements on which `keep` answers true.
pub(crate) fn retain_by<T, F: Fn(&T) -> bool>(v: &mut Vec<T>, keep: F, Ghost(p): Ghost<spec_fn(T) -> bool>)
    requires
        forall|x: &T| #[trigger] keep.requires((x,)),
        forall|x: &T, b: bool| keep.ensures((x,), b) ==> b == p(*x),
    ensures
        final(v)@ == old(v)@.filter(p),
{
    let ghost s = v@;
    let mut i: usize = 0;
    let ghost mut j: int = 0;
    while i < v.len()
        invariant
            0 <= j <= s.len(),
            i <= v@.len(),
            v@ == s.subrange(0, j).filter(p) + s.subrange(j, s.len() as int),
            i == s.subrange(0, j).filter(p).len(),
            forall|x: &T| #[trigger] keep.requires((x,)),
            forall|x: &T, b: bool| keep.ensures((x,), b) ==> b == p(*x),
        decreases v@.len() - i,
    {
        let ghost t = s.subrange(0, j + 1);
        proof {
            reveal(Seq::filter);
            assert(t.drop_last() =~= s.subrange(0, j));
            assert(t.last() == s[j]);
            assert(v@[i as int] == s[j]);
        }
        let k = keep(&v[i]);
        if k {
            i = i + 1;
            proof {
                assert(t.filter(p) == s.subrange(0, j).filter(p).push(s[j]));
                assert(v@ =~= t.filter(p) + s.subrange(j + 1, s.len() as int));
            }
        } else {
            v.remove(i);
            proof {
                assert(t.filter(p) == s.subrange(0, j).filter(p));
                assert(v@ =~= t.filter(p) + s.subrange(j + 1, s.len() as int));
            }
        }
        proof {
            j = j + 1;
        }
    }
    proof {
        assert(s.subrange(0, s.len() as int) =~= s);
        assert(v@ =~= s.filter(p));
    }
}


/// Whether no two elements of `v` have the same key, `same` comparing keys.
pub(crate) fn all_distinct<T, F: Fn(&T, &T) -> bool>(v: &Vec<T>, same: F, Ghost(key): Ghost<spec_fn(T) -> int>) -> (r: bool)
    requires
        forall|a: &T, b: &T| #[trigger] same.requires((a, b)),
        forall|a: &T, b: &T, r: bool| same.ensures((a, b), r) ==> r == (key(*a) == key(*b)),
    ensures
        r == unique_by(v@, key),
{
    let mut i: usize = 0;
    while i < v.len()
        invariant
            i <= v@.len(),
            forall|a: int, b: int| 0 <= a < b < v@.len() && a < i ==> key(v@[a]) != key(v@[b]),
            forall|a: &T, b: &T| #[trigger] same.requires((a, b)),
            forall|a: &T, b: &T, r: bool| same.ensures((a, b), r) ==> r == (key(*a) == key(*b)),
        decreases v@.len() - i,
    {
        let mut j: usize = i + 1;
        while j < v.len()
            invariant
                i < v@.len(),
                i + 1 <= j <= v@.len(),
                forall|a: int, b: int| 0 <= a < b < v@.len() && a < i ==> key(v@[a]) != key(v@[b]),
                forall|b: int| i < b < j ==> key(v@[i as int]) != key(#[trigger] v@[b]),
                forall|a: &T, b: &T| #[trigger] same.requires((a, b)),
                forall|a: &T, b: &T, r: bool| same.ensures((a, b), r) ==> r == (key(*a) == key(*b)),
            decreases v@.len() - j,
        {
            if same(&v[i], &v[j]) {
                return false;
            }
            j = j + 1;
        }
        i = i + 1;
    }
    true
}

impl DatabaseManager {
    /// What storing `f` does to the identity and path records: `after` holds them
    /// once `insert_file_info` answered `r`.
    pub open spec fn insert_outcome(self, f: FileInfo, r: Result<(), IndexError>, after: DatabaseManager) -> bool {
        &&& (forall|k: int|
            0 <= k < self.inodes@.len() ==> ident_of(#[trigger] self.inodes@[k]) != (
            f.inode_info.dev_id,
            f.inode_info.inode,
            )) ==> if self.next_id == u64::MAX {
            &&& r == Err::<(), IndexError>(IndexError::IdExhausted)
            &&& after.inodes@ == self.inodes@
            &&& after.files@ == self.files@
            &&& after.next_id == self.next_id
        } else {
            &&& r == Ok::<(), IndexError>(())
            &&& after.inodes@ == self.inodes@.push(InodeRow { id: self.next_id, info: f.inode_info })
            &&& after.next_id == self.next_id + 1
            &&& after.files@ == upsert_row(self.files@, file_row_of(f, self.next_id))
        }
        &&& forall|k: int|
            0 <= k < self.inodes@.len() && ident_of(#[trigger] self.inodes@[k]) == (
            f.inode_info.dev_id,
            f.inode_info.inode,
            ) ==> {
                &&& r == Ok::<(), IndexError>(())
                &&& after.next_id == self.next_id
                &&& after.inodes@ == if self.inodes@[k].info.same_spec(&f.inode_info) {
                    self.inodes@
                } else {
                    self.inodes@.update(k, InodeRow { id: self.inodes@[k].id, info: f.inode_info })
                }
                &&& after.files@ == upsert_row(self.files@, file_row_of(f, self.inodes@[k].id))
            }
    }

    /// The path records once the one at `k` is removed.
    pub open spec fn files_after_remove(self, k: int) -> Seq<FileRow> {
        self.files@.remove(k)
    }

    /// The identity records once the path record at `k` is removed: its identity
    /// goes too when no other path refers to it.
    pub open spec fn inodes_after_remove(self, k: int) -> Seq<InodeRow> {
        let id = self.files@[k].inode_id;
        if refers_to(self.files@.remove(k), id) {
            self.inodes@
        } else {
            self.inodes@.filter(|row: InodeRow| row.id != id)
        }
    }

    pub open spec fn has_path(self, dir_path: Seq<char>, file_name: Seq<char>) -> bool {
        exists|k: int| 0 <= k < self.files@.len() && file_key(self.files@[k]) == (dir_path, file_name)
    }

    pub open spec fn has_inode_id(&self, id: u64) -> bool {
        exists|j: int| 0 <= j < self.inodes@.len() && self.inodes@[j].id == id
    }

    pub open spec fn wf(&self) -> bool {
        &&& unique_by(self.inodes@, |r: InodeRow| r.id)
        &&& unique_by(self.inodes@, |r: InodeRow| ident_of(r))
        &&& forall|i: int| 0 <= i < self.inodes@.len() ==> #[trigger] self.inodes@[i].id < self.next_id
        &&& unique_by(self.files@, |r: FileRow| file_key(r))
        &&& forall|i: int|
            0 <= i < self.files@.len() ==> self.has_inode_id(#[trigger] self.files@[i].inode_id)
        &&& unique_by(self.trash@, |t: TrashFileInfo| trash_key(t))
    }

    /// No identity record is left without a path record.
    pub open spec fn no_orphans(&self) -> bool {
        forall|i: int|
            0 <= i < self.inodes@.len() ==> refers_to(self.files@, #[trigger] self.inodes@[i].id)
    }

    /// The identity record with identifier `id`.
    pub open spec fn inode_of(&self, id: u64) -> InodeInfo {
        self.inodes@[choose|j: int| 0 <= j < self.inodes@.len() && self.inodes@[j].id == id].info
    }

    /// A path record joined with its identity.
    pub open spec fn joined(&self, r: FileRow) -> FileInfo {
        FileInfo {
            inode_info: self.inode_of(r.inode_id),
            dir_path: r.dir_path,
            file_name: r.file_name,
            file_extension: r.file_extension,
            version: r.version,
            scan_time: r.scan_time,
        }
    }

    pub fn new() -> (r: DatabaseManager)
        ensures
            r.wf(),
            r.no_orphans(),
            r.inodes@.len() == 0,
            r.files@.len() == 0,
            r.trash@.len() == 0,
    {
        DatabaseManager { inodes: Vec::new(), files: Vec::new(), trash: Vec::new(), next_id: 1 }
    }

    pub fn find_inode_by_identity(&self, dev_id: u64, inode: u64) -> (r: Option<usize>)
        ensures
            match r {
                Some(i) => i < self.inodes@.len() && ident_of(self.inodes@[i as int]) == (
                dev_id,
                inode,
                ),
                None => forall|i: int|
                    0 <= i < self.inodes@.len() ==> ident_of(#[trigger] self.inodes@[i]) != (
                    dev_id,
                    inode,
                    ),
            },
    {
        let mut i: usize = 0;
        while i < self.inodes.len()
            invariant
                i <= self.inodes@.len(),
                forall|k: int| 0 <= k < i ==> ident_of(#[trigger] self.inodes@[k]) != (dev_id, inode),
            decreases self.inodes@.len() - i,
        {
            if self.inodes[i].info.dev_id == dev_id && self.inodes[i].info.inode == inode {
                return Some(i);
            }
            i = i + 1;
        }
        None
    }

    pub fn find_inode_by_id(&self, id: u64) -> (r: Option<usize>)
        ensures
            match r {
                Some(i) => i < self.inodes@.len() && self.inodes@[i as int].id == id,
                None => !self.has_inode_id(id),
            },
    {
        let mut i: usize = 0;
        while i < self.inodes.len()
            invariant
                i <= self.inodes@.len(),
                forall|k: int| 0 <= k < i ==> (#[trigger] self.inodes@[k]).id != id,
            decreases self.inodes@.len() - i,
        {
            if self.inodes[i].id == id {
                return Some(i);
            }
            i = i + 1;
        }
        None
    }

    pub fn find_file(&self, dir_path: &String, file_name: &String) -> (r: Option<usize>)
        ensures
            match r {
                Some(i) => i < self.files@.len() && file_key(self.files@[i as int]) == (
                dir_path@,
                file_name@,
                ),
                None => forall|i: int|
                    0 <= i < self.files@.len() ==> file_key(#[trigger] self.files@[i]) != (
                    dir_path@,
                    file_name@,
                    ),
            },
    {
        let mut i: usize = 0;
        while i < self.files.len()
            invariant
                i <= self.files@.len(),
                forall|k: int|
                    0 <= k < i ==> file_key(#[trigger] self.files@[k]) != (dir_path@, file_name@),
            decreases self.files@.len() - i,
        {
            if self.files[i].dir_path == *dir_path && self.files[i].file_name == *file_name {
                return Some(i);
            }
            i = i + 1;
        }
        None
    }
    pub fn make_row(f: &FileInfo, id: u64) -> (r: FileRow)
        ensures
            r == file_row_of(*f, id),
    {
        FileRow {
            inode_id: id,
            dir_path: f.dir_path.clone(),
            file_name: f.file_name.clone(),
            file_extension: clone_opt_string(&f.file_extension),
            version: f.version,
            scan_time: f.scan_time,
        }
    }

    /// Insert-or-replace of a path record by `(dir_path, file_name)`.
    fn upsert_file_row(&mut self, row: FileRow)
        requires
            old(self).wf(),
            old(self).has_inode_id(row.inode_id),
        ensures
            final(self).wf(),
            final(self).files@ == upsert_row(old(self).files@, row),
            final(self).inodes@ == old(self).inodes@,
            final(self).trash@ == old(self).trash@,
            final(self).next_id == old(self).next_id,
    {
        let ghost old_files = self.files@;
        let ghost r = row;
        match self.find_file(&row.dir_path, &row.file_name) {
            Some(i) => {
                proof {
                    let k = choose|k: int|
                        0 <= k < old_files.len() && file_key(old_files[k]) == file_key(r);
                    assert(k == i as int);
                }
                self.files.set(i, row);
                assert(self.files@ == old_files.update(i as int, r));
                assert forall|a: int, b: int| 0 <= a < b < self.files@.len() implies file_key(
                    self.files@[a],
                ) != file_key(self.files@[b]) by {
                    assert(file_key(old_files[i as int]) == file_key(r));
                    if a != i && b != i {
                        assert(self.files@[a] == old_files[a]);
                        assert(self.files@[b] == old_files[b]);
                    }
                }
                assert forall|a: int| 0 <= a < self.files@.len() implies self.has_inode_id(
                    #[trigger] self.files@[a].inode_id,
                ) by {
                    if a != i {
                        assert(self.files@[a] == old_files[a]);
                    }
                }
            },
            None => {
                self.files.push(row);
                assert(self.files@ == old_files.push(r));
                assert forall|a: int, b: int| 0 <= a < b < self.files@.len() implies file_key(
                    self.files@[a],
                ) != file_key(self.files@[b]) by {
                    assert(self.files@[a] == old_files[a]);
                    if b < old_files.len() {
                        assert(self.files@[b] == old_files[b]);
                    }
                }
                assert forall|a: int| 0 <= a < self.files@.len() implies self.has_inode_id(
                    #[trigger] self.files@[a].inode_id,
                ) by {
                    if a < old_files.len() {
                        assert(self.files@[a] == old_files[a]);
                    }
                }
            },
        }
    }

    /// Stores a file: its identity record is inserted when new and replaced when it
    /// changed (every field but the digest compared), then its path record is
    /// inserted or replaced.
    pub fn insert_file_info(&mut self, f: &FileInfo) -> (r: Result<(), IndexError>)
        requires
            old(self).wf(),
        ensures
            final(self).wf(),
            final(self).trash@ == old(self).trash@,
            old(self).insert_outcome(*f, r, *final(self)),
    {
        let ghost old_inodes = self.inodes@;
        let id: u64;
        match self.find_inode_by_identity(f.inode_info.dev_id, f.inode_info.inode) {
            None => {
                if self.next_id == u64::MAX {
                    return Err(IndexError::IdExhausted);
                }
                id = self.next_id;
                self.inodes.push(InodeRow { id, info: f.inode_info.clone() });
                self.next_id = self.next_id + 1;
                assert forall|a: int, b: int| 0 <= a < b < self.inodes@.len() implies self.inodes@[a].id
                    != self.inodes@[b].id && ident_of(self.inodes@[a]) != ident_of(
                    self.inodes@[b],
                ) by {
                    assert(self.inodes@[a] == old_inodes[a]);
                    if b < old_inodes.len() {
                        assert(self.inodes@[b] == old_inodes[b]);
                    }
                }
                assert forall|a: int| 0 <= a < self.files@.len() implies self.has_inode_id(
                    #[trigger] self.files@[a].inode_id,
                ) by {
                    let j = choose|j: int|
                        0 <= j < old_inodes.len() && old_inodes[j].id == self.files@[a].inode_id;
                    assert(self.inodes@[j] == old_inodes[j]);
                }
                assert(self.inodes@[old_inodes.len() as int].id == id);
            },
            Some(k) => {
                id = self.inodes[k].id;
                if !self.inodes[k].info.same_as(&f.inode_info) {
                    let row = InodeRow { id, info: f.inode_info.clone() };
                    self.inodes.set(k, row);
                    assert(self.inodes@ == old_inodes.update(
                        k as int,
                        InodeRow { id, info: f.inode_info },
                    ));
                    assert forall|a: int, b: int| 0 <= a < b < self.inodes@.len() implies self.inodes@[a].id
                        != self.inodes@[b].id && ident_of(self.inodes@[a]) != ident_of(
                        self.inodes@[b],
                    ) by {
                        if a != k && b != k {
                            assert(self.inodes@[a] == old_inodes[a]);
                            assert(self.inodes@[b] == old_inodes[b]);
                        } else if a == k {
                            assert(self.inodes@[b] == old_inodes[b]);
                        } else {
                            assert(self.inodes@[a] == old_inodes[a]);
                        }
                    }
                    assert forall|a: int| 0 <= a < self.files@.len() implies self.has_inode_id(
                        #[trigger] self.files@[a].inode_id,
                    ) by {
                        let j = choose|j: int|
                            0 <= j < old_inodes.len() && old_inodes[j].id == self.files@[a].inode_id;
                        assert(self.inodes@[j].id == old_inodes[j].id);
                    }
                }
                assert(self.inodes@[k as int].id == id);
            },
        }
        let row = Self::make_row(f, id);
        self.upsert_file_row(row);
        Ok(())
    }
    /// Removes the path records in `dir_path` that the scan with `version` did not
    /// confirm; answers how many were removed.
    pub fn remove_deleted_files(&mut self, dir_path: &String, version: u64) -> (r: usize)
        requires
            old(self).wf(),
        ensures
            final(self).wf(),
            final(self).files@ == old(self).files@.filter(kept_after_scan(dir_path@, version)),
            r == old(self).files@.len() - final(self).files@.len(),
            final(self).inodes@ == old(self).inodes@,
            final(self).trash@ == old(self).trash@,
            final(self).next_id == old(self).next_id,
    {
        let ghost p = kept_after_scan(dir_path@, version);
        let ghost old_files = self.files@;
        let before = self.files.len();
        let keep = (|row: &FileRow| -> (b: bool)
            ensures
                b == !(row.dir_path@ == dir_path@ && row.version != version),
            { !(row.dir_path == *dir_path && row.version != version) });
        retain_by(&mut self.files, keep, Ghost(p));
        proof {
            self.lemma_files_filtered(old_files, p);
        }
        before - self.files.len()
    }

    proof fn lemma_files_filtered(&self, old_files: Seq<FileRow>, p: spec_fn(FileRow) -> bool)
        requires
            unique_by(old_files, |r: FileRow| file_key(r)),
            forall|i: int| 0 <= i < old_files.len() ==> self.has_inode_id(#[trigger] old_files[i].inode_id),
            self.files@ == old_files.filter(p),
            unique_by(self.inodes@, |r: InodeRow| r.id),
            unique_by(self.inodes@, |r: InodeRow| ident_of(r)),
            forall|i: int| 0 <= i < self.inodes@.len() ==> #[trigger] self.inodes@[i].id < self.next_id,
            unique_by(self.trash@, |t: TrashFileInfo| trash_key(t)),
        ensures
            self.wf(),
            self.files@.len() <= old_files.len(),
    {
        broadcast use vstd::seq_lib::group_filter_ensures;
        lemma_filter_unique(old_files, p, |r: FileRow| file_key(r));
        assert forall|a: int| 0 <= a < self.files@.len() implies self.has_inode_id(
            #[trigger] self.files@[a].inode_id,
        ) by {
            let m = choose|m: int| 0 <= m < old_files.len() && old_files[m] == old_files.filter(p)[a];
            assert(self.has_inode_id(old_files[m].inode_id));
        }
    }

    /// Removes every identity record that no path record refers to.
    pub fn remove_deleted_inodes(&mut self) -> (r: usize)
        requires
            old(self).wf(),
        ensures
            final(self).wf(),
            final(self).no_orphans(),
            final(self).inodes@ == old(self).inodes@.filter(referenced_by(old(self).files@)),
            r == old(self).inodes@.len() - final(self).inodes@.len(),
            final(self).files@ == old(self).files@,
            final(self).trash@ == old(self).trash@,
            final(self).next_id == old(self).next_id,
    {
        let ghost files = self.files@;
        let ghost p = |row: InodeRow| refers_to(files, row.id);
        let ghost old_inodes = self.inodes@;
        let before = self.inodes.len();
        let files_ref = &self.files;
        let mut kept: Vec<InodeRow> = Vec::new();
        std::mem::swap(&mut kept, &mut self.inodes);
        let keep = (|row: &InodeRow| -> (b: bool)
            ensures
                b == refers_to(files_ref@, row.id),
            { Self::is_referenced(files_ref, row.id) });
        retain_by(&mut kept, keep, Ghost(p));
        self.inodes = kept;
        proof {
            self.lemma_inodes_filtered(old_inodes, p);
            assert(p =~= referenced_by(files));
            broadcast use vstd::seq_lib::group_filter_ensures;
            assert forall|i: int| 0 <= i < self.inodes@.len() implies refers_to(
                self.files@,
                #[trigger] self.inodes@[i].id,
            ) by {
                assert(p(old_inodes.filter(p)[i]));
            }
        }
        before - self.inodes.len()
    }

    fn is_referenced(files: &Vec<FileRow>, id: u64) -> (r: bool)
        ensures
            r == refers_to(files@, id),
    {
        let mut i: usize = 0;
        while i < files.len()
            invariant
                i <= files@.len(),
                forall|k: int| 0 <= k < i ==> (#[trigger] files@[k]).inode_id != id,
            decreases files@.len() - i,
        {
            if files[i].inode_id == id {
                return true;
            }
            i = i + 1;
        }
        false
    }

    proof fn lemma_inodes_filtered(&self, old_inodes: Seq<InodeRow>, p: spec_fn(InodeRow) -> bool)
        requires
            unique_by(old_inodes, |r: InodeRow| r.id),
            unique_by(old_inodes, |r: InodeRow| ident_of(r)),
            forall|i: int| 0 <= i < old_inodes.len() ==> #[trigger] old_inodes[i].id < self.next_id,
            self.inodes@ == old_inodes.filter(p),
            unique_by(self.files@, |r: FileRow| file_key(r)),
            forall|i: int|
                0 <= i < self.files@.len() ==> exists|j: int|
                    0 <= j < old_inodes.len() && old_inodes[j].id == #[trigger] self.files@[i].inode_id
                        && p(old_inodes[j]),
            unique_by(self.trash@, |t: TrashFileInfo| trash_key(t)),
        ensures
            self.wf(),
    {
        broadcast use vstd::seq_lib::group_filter_ensures;
        lemma_filter_unique(old_inodes, p, |r: InodeRow| r.id);
        lemma_filter_unique(old_inodes, p, |r: InodeRow| ident_of(r));
        assert forall|a: int| 0 <= a < self.inodes@.len() implies #[trigger] self.inodes@[a].id
            < self.next_id by {
            let m = choose|m: int| 0 <= m < old_inodes.len() && old_inodes[m] == old_inodes.filter(p)[a];
        }
        assert forall|a: int| 0 <= a < self.files@.len() implies self.has_inode_id(
            #[trigger] self.files@[a].inode_id,
        ) by {
            let j = choose|j: int|
                0 <= j < old_inodes.len() && old_inodes[j].id == self.files@[a].inode_id && p(old_inodes[j]);
            assert(old_inodes.filter(p).contains(old_inodes[j]));
        }
    }
    /// The path record at `i` joined with its identity.
    pub fn joined_at(&self, i: usize) -> (r: FileInfo)
        requires
            self.wf(),
            i < self.files@.len(),
        ensures
            r == self.joined(self.files@[i as int]),
    {
        let id = self.files[i].inode_id;
        let found = self.find_inode_by_id(id);
        proof {
            assert(self.has_inode_id(self.files@[i as int].inode_id));
        }
        let j = found.unwrap();
        proof {
            let c = choose|c: int| 0 <= c < self.inodes@.len() && self.inodes@[c].id == id;
            assert(c == j as int);
        }
        let row = &self.files[i];
        FileInfo {
            inode_info: self.inodes[j].info.clone(),
            dir_path: row.dir_path.clone(),
            file_name: row.file_name.clone(),
            file_extension: clone_opt_string(&row.file_extension),
            version: row.version,
            scan_time: row.scan_time,
        }
    }

    /// The file stored at `(dir_path, file_name)`.
    pub fn get_file_by_path(&self, dir_path: &String, file_name: &String) -> (r: Result<
        FileInfo,
        IndexError,
    >)
        requires
            self.wf(),
        ensures
            (forall|k: int|
                0 <= k < self.files@.len() ==> file_key(#[trigger] self.files@[k]) != (
                dir_path@,
                file_name@,
                )) ==> r == Err::<FileInfo, IndexError>(IndexError::NotFound),
            forall|k: int|
                0 <= k < self.files@.len() && file_key(#[trigger] self.files@[k]) == (
                dir_path@,
                file_name@,
                ) ==> r == Ok::<FileInfo, IndexError>(self.joined(self.files@[k])),
    {
        match self.find_file(dir_path, file_name) {
            Some(i) => Ok(self.joined_at(i)),
            None => Err(IndexError::NotFound),
        }
    }

    /// Every stored file whose content digest is `md5`, in storage order.
    pub fn get_file_list_by_md5(&self, md5: &String) -> (r: Vec<FileInfo>)
        requires
            self.wf(),
        ensures
            r@ == self.files@.filter(|row: FileRow| self.inode_of(row.inode_id).has_md5(md5@)).map_values(
                |row: FileRow| self.joined(row),
            ),
    {
        let ghost p = |row: FileRow| self.inode_of(row.inode_id).has_md5(md5@);
        let ghost f = |row: FileRow| self.joined(row);
        let mut out: Vec<FileInfo> = Vec::new();
        let mut i: usize = 0;
        while i < self.files.len()
            invariant
                self.wf(),
                i <= self.files@.len(),
                out@ == self.files@.subrange(0, i as int).filter(p).map_values(f),
                p == (|row: FileRow| self.inode_of(row.inode_id).has_md5(md5@)),
                f == (|row: FileRow| self.joined(row)),
            decreases self.files@.len() - i,
        {
            let ghost t = self.files@.subrange(0, i + 1);
            proof {
                reveal(Seq::filter);
                assert(t.drop_last() =~= self.files@.subrange(0, i as int));
            }
            let info = self.joined_at(i);
            let hit = Self::md5_matches(&info.inode_info, md5);
            proof {
                assert(t.last() == self.files@[i as int]);
                assert(info.inode_info == self.inode_of(self.files@[i as int].inode_id));
                assert(hit == p(self.files@[i as int]));
            }
            if hit {
                out.push(info);
                proof {
                    assert(t.filter(p) == self.files@.subrange(0, i as int).filter(p).push(self.files@[i as int]));
                    assert(out@ =~= t.filter(p).map_values(f));
                }
            } else {
                proof {
                    assert(t.filter(p) == self.files@.subrange(0, i as int).filter(p));
                }
            }
            i = i + 1;
        }
        proof {
            assert(self.files@.subrange(0, self.files@.len() as int) =~= self.files@);
        }
        out
    }

    pub fn md5_matches(info: &InodeInfo, md5: &String) -> (r: bool)
        ensures
            r == info.has_md5(md5@),
    {
        match &info.md5 {
            Some(h) => h.eq(md5),
            None => false,
        }
    }

    /// Sets the version of the path record at `(dir_path, file_name)`; answers how
    /// many records changed.
    pub fn update_version(&mut self, dir_path: &String, file_name: &String, version: u64) -> (r:
        usize)
        requires
            old(self).wf(),
        ensures
            final(self).wf(),
            final(self).inodes@ == old(self).inodes@,
            final(self).trash@ == old(self).trash@,
            final(self).next_id == old(self).next_id,
            (forall|k: int|
                0 <= k < old(self).files@.len() ==> file_key(#[trigger] old(self).files@[k]) != (
                dir_path@,
                file_name@,
                )) ==> r == 0 && final(self).files@ == old(self).files@,
            forall|k: int|
                0 <= k < old(self).files@.len() && file_key(#[trigger] old(self).files@[k]) == (
                dir_path@,
                file_name@,
                ) ==> r == 1 && final(self).files@ == old(self).files@.update(
                    k,
                    FileRow { version, ..old(self).files@[k] },
                ),
    {
        match self.find_file(dir_path, file_name) {
            Some(i) => {
                let ghost old_files = self.files@;
                let old_row = &self.files[i];
                let row = FileRow {
                    inode_id: old_row.inode_id,
                    dir_path: old_row.dir_path.clone(),
                    file_name: old_row.file_name.clone(),
                    file_extension: clone_opt_string(&old_row.file_extension),
                    version,
                    scan_time: old_row.scan_time,
                };
                self.files.set(i, row);
                assert(self.files@ == old_files.update(i as int, FileRow { version, ..old_files[i as int] }));
                assert forall|a: int, b: int| 0 <= a < b < self.files@.len() implies file_key(
                    self.files@[a],
                ) != file_key(self.files@[b]) by {
                    if a != i && b != i {
                        assert(self.files@[a] == old_files[a]);
                        assert(self.files@[b] == old_files[b]);
                    } else if a == i {
                        assert(self.files@[b] == old_files[b]);
                    } else {
                        assert(self.files@[a] == old_files[a]);
                    }
                }
                assert forall|a: int| 0 <= a < self.files@.len() implies self.has_inode_id(
                    #[trigger] self.files@[a].inode_id,
                ) by {
                    if a != i {
                        assert(self.files@[a] == old_files[a]);
                    }
                }
                1
            },
            None => 0,
        }
    }
    /// Removes the path record at `(dir_path, file_name)`, and its identity record
    /// when no other path refers to it.
    pub fn remove_file_by_path(&mut self, dir_path: &String, file_name: &String) -> (r: Result<
        (),
        IndexError,
    >)
        requires
            old(self).wf(),
        ensures
            final(self).wf(),
            final(self).trash@ == old(self).trash@,
            final(self).next_id == old(self).next_id,
            !old(self).has_path(dir_path@, file_name@) ==> r == Err::<(), IndexError>(
                IndexError::NotFound,
            ) && final(self).files@ == old(self).files@ && final(self).inodes@ == old(self).inodes@,
            forall|k: int|
                0 <= k < old(self).files@.len() && file_key(#[trigger] old(self).files@[k]) == (
                dir_path@,
                file_name@,
                ) ==> {
                    &&& r == Ok::<(), IndexError>(())
                    &&& final(self).files@ == old(self).files_after_remove(k)
                    &&& final(self).inodes@ == old(self).inodes_after_remove(k)
                },
    {
        match self.find_file(dir_path, file_name) {
            None => Err(IndexError::NotFound),
            Some(i) => {
                let ghost old_self = *self;
                self.remove_file_at(i);
                proof {
                    assert forall|k: int|
                        0 <= k < old_self.files@.len() && file_key(
                            #[trigger] old_self.files@[k],
                        ) == (dir_path@, file_name@) implies k == i by {}
                }
                Ok(())
            },
        }
    }

    fn remove_file_at(&mut self, i: usize)
        requires
            old(self).wf(),
            i < old(self).files@.len(),
        ensures
            final(self).wf(),
            final(self).trash@ == old(self).trash@,
            final(self).next_id == old(self).next_id,
            final(self).files@ == old(self).files_after_remove(i as int),
            final(self).inodes@ == old(self).inodes_after_remove(i as int),
    {
        let ghost old_files = self.files@;
        let ghost old_inodes = self.inodes@;
        let id = self.files[i].inode_id;
        self.files.remove(i);
        assert(self.files@ == old_files.remove(i as int));
        assert forall|a: int, b: int| 0 <= a < b < self.files@.len() implies file_key(
            self.files@[a],
        ) != file_key(self.files@[b]) by {
            if a < i {
                assert(self.files@[a] == old_files[a]);
            } else {
                assert(self.files@[a] == old_files[a + 1]);
            }
            if b < i {
                assert(self.files@[b] == old_files[b]);
            } else {
                assert(self.files@[b] == old_files[b + 1]);
            }
        }
        assert forall|a: int| 0 <= a < self.files@.len() implies self.has_inode_id(
            #[trigger] self.files@[a].inode_id,
        ) by {
            if a < i {
                assert(self.files@[a] == old_files[a]);
            } else {
                assert(self.files@[a] == old_files[a + 1]);
            }
        }
        if !Self::is_referenced(&self.files, id) {
            let ghost p = |row: InodeRow| row.id != id;
            let mut kept: Vec<InodeRow> = Vec::new();
            std::mem::swap(&mut kept, &mut self.inodes);
            let keep = (|row: &InodeRow| -> (b: bool)
                ensures
                    b == (row.id != id),
                { row.id != id });
            retain_by(&mut kept, keep, Ghost(p));
            self.inodes = kept;
            proof {
                assert forall|a: int| 0 <= a < self.files@.len() implies exists|j: int|
                    0 <= j < old_inodes.len() && old_inodes[j].id == #[trigger] self.files@[a].inode_id
                        && p(old_inodes[j]) by {
                    let j = choose|j: int|
                        0 <= j < old_inodes.len() && old_inodes[j].id == self.files@[a].inode_id;
                    assert(self.files@[a].inode_id != id);
                }
                self.lemma_inodes_filtered(old_inodes, p);
            }
        }
    }

    /// Moves the stored file `f` to the trash records: its path record goes as in
    /// `remove_file_by_path`, and a trash record with its metadata and digest is
    /// inserted or replaced by `(dir_path, file_name)`.
    pub fn move_file_to_trash(&mut self, f: &FileInfo, remove_time: i64) -> (r: Result<(), IndexError>)
        requires
            old(self).wf(),
        ensures
            final(self).wf(),
            final(self).next_id == old(self).next_id,
            f.inode_info.md5 is None ==> r == Err::<(), IndexError>(IndexError::MissingHash),
            f.inode_info.md5 is Some && !old(self).has_path(f.dir_path@, f.file_name@) ==> r == Err::<
                (),
                IndexError,
            >(IndexError::NotFound),
            r is Err ==> final(self).files@ == old(self).files@ && final(self).inodes@ == old(
                self,
            ).inodes@ && final(self).trash@ == old(self).trash@,
            forall|k: int|
                0 <= k < old(self).files@.len() && file_key(#[trigger] old(self).files@[k]) == (
                f.dir_path@,
                f.file_name@,
                ) && f.inode_info.md5 is Some ==> {
                    &&& r == Ok::<(), IndexError>(())
                    &&& final(self).files@ == old(self).files_after_remove(k)
                    &&& final(self).inodes@ == old(self).inodes_after_remove(k)
                    &&& final(self).trash@ == upsert_trash(old(self).trash@, trash_of(*f, remove_time))
                },
    {
        let md5 = match &f.inode_info.md5 {
            Some(h) => h.clone(),
            None => {
                return Err(IndexError::MissingHash);
            },
        };
        let removed = self.remove_file_by_path(&f.dir_path, &f.file_name);
        if removed.is_err() {
            return Err(IndexError::NotFound);
        }
        let t = TrashFileInfo {
            dir_path: f.dir_path.clone(),
            file_name: f.file_name.clone(),
            file_extension: clone_opt_string(&f.file_extension),
            remove_time,
            permissions: f.inode_info.permissions,
            uid: f.inode_info.uid,
            gid: f.inode_info.gid,
            created: f.inode_info.created,
            modified: f.inode_info.modified,
            md5,
            size: f.inode_info.size,
        };
        self.upsert_trash_row(t);
        Ok(())
    }

    fn upsert_trash_row(&mut self, t: TrashFileInfo)
        requires
            old(self).wf(),
        ensures
            final(self).wf(),
            final(self).trash@ == upsert_trash(old(self).trash@, t),
            final(self).inodes@ == old(self).inodes@,
            final(self).files@ == old(self).files@,
            final(self).next_id == old(self).next_id,
    {
        let ghost old_trash = self.trash@;
        let ghost tt = t;
        match self.find_trash(&t.dir_path, &t.file_name) {
            Some(i) => {
                proof {
                    let k = choose|k: int|
                        0 <= k < old_trash.len() && trash_key(old_trash[k]) == trash_key(tt);
                    assert(k == i as int);
                }
                self.trash.set(i, t);
                assert(self.trash@ == old_trash.update(i as int, tt));
                assert forall|a: int, b: int| 0 <= a < b < self.trash@.len() implies trash_key(
                    self.trash@[a],
                ) != trash_key(self.trash@[b]) by {
                    assert(trash_key(old_trash[i as int]) == trash_key(tt));
                    if a != i && b != i {
                        assert(self.trash@[a] == old_trash[a]);
                        assert(self.trash@[b] == old_trash[b]);
                    }
                }
            },
            None => {
                self.trash.push(t);
                assert(self.trash@ == old_trash.push(tt));
                assert forall|a: int, b: int| 0 <= a < b < self.trash@.len() implies trash_key(
                    self.trash@[a],
                ) != trash_key(self.trash@[b]) by {
                    assert(self.trash@[a] == old_trash[a]);
                    if b < old_trash.len() {
                        assert(self.trash@[b] == old_trash[b]);
                    }
                }
            },
        }
    }

    pub fn find_trash(&self, dir_path: &String, file_name: &String) -> (r: Option<usize>)
        ensures
            match r {
                Some(i) => i < self.trash@.len() && trash_key(self.trash@[i as int]) == (
                dir_path@,
                file_name@,
                ),
                None => forall|i: int|
                    0 <= i < self.trash@.len() ==> trash_key(#[trigger] self.trash@[i]) != (
                    dir_path@,
                    file_name@,
                    ),
            },
    {
        let mut i: usize = 0;
        while i < self.trash.len()
            invariant
                i <= self.trash@.len(),
                forall|k: int|
                    0 <= k < i ==> trash_key(#[trigger] self.trash@[k]) != (dir_path@, file_name@),
            decreases self.trash@.len() - i,
        {
            if self.trash[i].dir_path == *dir_path && self.trash[i].file_name == *file_name {
                return Some(i);
            }
            i = i + 1;
        }
        None
    }

    /// The trash record at `(dir_path, file_name)`.
    pub fn get_trash_file_by_path(&self, dir_path: &String, file_name: &String) -> (r: Result<
        TrashFileInfo,
        IndexError,
    >)
        requires
            self.wf(),
        ensures
            (forall|k: int|
                0 <= k < self.trash@.len() ==> trash_key(#[trigger] self.trash@[k]) != (
                dir_path@,
                file_name@,
                )) ==> r == Err::<TrashFileInfo, IndexError>(IndexError::NotFound),
            forall|k: int|
                0 <= k < self.trash@.len() && trash_key(#[trigger] self.trash@[k]) == (
                dir_path@,
                file_name@,
                ) ==> r == Ok::<TrashFileInfo, IndexError>(self.trash@[k]),
    {
        match self.find_trash(dir_path, file_name) {
            Some(i) => Ok(self.trash[i].clone()),
            None => Err(IndexError::NotFound),
        }
    }

    /// Removes the trash record at `(dir_path, file_name)`; answers how many went.
    pub fn remove_trash_file_by_path(&mut self, dir_path: &String, file_name: &String) -> (r: usize)
        requires
            old(self).wf(),
        ensures
            final(self).wf(),
            final(self).trash@ == old(self).trash@.filter(not_at((dir_path@, file_name@))),
            r == old(self).trash@.len() - final(self).trash@.len(),
            final(self).inodes@ == old(self).inodes@,
            final(self).files@ == old(self).files@,
            final(self).next_id == old(self).next_id,
    {
        let ghost p = not_at((dir_path@, file_name@));
        let ghost old_trash = self.trash@;
        let before = self.trash.len();
        let keep = (|t: &TrashFileInfo| -> (b: bool)
            ensures
                b == (trash_key(*t) != (dir_path@, file_name@)),
            { !(t.dir_path == *dir_path && t.file_name == *file_name) });
        retain_by(&mut self.trash, keep, Ghost(p));
        proof {
            broadcast use vstd::seq_lib::group_filter_ensures;
            lemma_filter_unique(old_trash, p, |t: TrashFileInfo| trash_key(t));
        }
        before - self.trash.len()
    }

    /// Removes every trash record with digest `md5`; answers how many went.
    pub fn remove_trash_file_by_md5(&mut self, md5: &String) -> (r: usize)
        requires
            old(self).wf(),
        ensures
            final(self).wf(),
            final(self).trash@ == old(self).trash@.filter(|t: TrashFileInfo| t.md5@ != md5@),
            r == old(self).trash@.len() - final(self).trash@.len(),
            final(self).inodes@ == old(self).inodes@,
            final(self).files@ == old(self).files@,
            final(self).next_id == old(self).next_id,
    {
        let ghost p = |t: TrashFileInfo| t.md5@ != md5@;
        let ghost old_trash = self.trash@;
        let before = self.trash.len();
        let keep = (|t: &TrashFileInfo| -> (b: bool)
            ensures
                b == (t.md5@ != md5@),
            { !t.md5.eq(md5) });
        retain_by(&mut self.trash, keep, Ghost(p));
        proof {
            broadcast use vstd::seq_lib::group_filter_ensures;
            lemma_filter_unique(old_trash, p, |t: TrashFileInfo| trash_key(t));
        }
        before - self.trash.len()
    }

    /// How many trash records share the digest `md5`: the references to the one
    /// stored trash object of that content.
    pub fn count_trash_by_md5(&self, md5: &String) -> (r: usize)
        ensures
            r == trash_refs(self.trash@, md5@),
    {
        let mut n: usize = 0;
        let mut i: usize = 0;
        while i < self.trash.len()
            invariant
                i <= self.trash@.len(),
                n == trash_refs(self.trash@.subrange(0, i as int), md5@),
                n <= i,
            decreases self.trash@.len() - i,
        {
            proof {
                reveal(Seq::filter);
                assert(self.trash@.subrange(0, i + 1).drop_last() =~= self.trash@.subrange(0, i as int));
            }
            if self.trash[i].md5.eq(md5) {
                n = n + 1;
            }
            i = i + 1;
        }
        proof {
            assert(self.trash@.subrange(0, self.trash@.len() as int) =~= self.trash@);
        }
        n
    }
    /// Whether an identity record with device `dev` and inode number `ino` is stored.
    pub open spec fn has_ident(self, dev: u64, ino: u64) -> bool {
        exists|k: int| 0 <= k < self.inodes@.len() && ident_of(self.inodes@[k]) == (dev, ino)
    }

    /// The identifier that identity `(dev, ino)` has, or gets when new.
    pub open spec fn id_for(self, dev: u64, ino: u64) -> u64 {
        if self.has_ident(dev, ino) {
            self.inodes@[choose|k: int|
                0 <= k < self.inodes@.len() && ident_of(self.inodes@[k]) == (dev, ino)].id
        } else {
            self.next_id
        }
    }

    /// The identity records once `info` is put in: it replaces the record of its
    /// identity, keeping that record's identifier, or is added with the next one.
    pub open spec fn inodes_with(self, info: InodeInfo) -> Seq<InodeRow> {
        if self.has_ident(info.dev_id, info.inode) {
            let k = choose|k: int|
                0 <= k < self.inodes@.len() && ident_of(self.inodes@[k]) == (info.dev_id, info.inode);
            self.inodes@.update(k, InodeRow { id: self.inodes@[k].id, info })
        } else {
            self.inodes@.push(InodeRow { id: self.next_id, info })
        }
    }

    /// Puts identity `info` in, whatever was stored for it before; answers its
    /// identifier.
    fn put_identity(&mut self, info: InodeInfo) -> (r: Result<u64, IndexError>)
        requires
            old(self).wf(),
        ensures
            !old(self).has_ident(info.dev_id, info.inode) && old(self).next_id == u64::MAX ==> r
                == Err::<u64, IndexError>(IndexError::IdExhausted) && *final(self) == *old(self),
            !(!old(self).has_ident(info.dev_id, info.inode) && old(self).next_id == u64::MAX) ==> {
                &&& r == Ok::<u64, IndexError>(old(self).id_for(info.dev_id, info.inode))
                &&& final(self).wf()
                &&& final(self).inodes@ == old(self).inodes_with(info)
                &&& final(self).files@ == old(self).files@
                &&& final(self).trash@ == old(self).trash@
                &&& final(self).has_inode_id(r->Ok_0)
                &&& final(self).inode_of(r->Ok_0) == info
            },
    {
        let ghost old_self = *self;
        let ghost old_inodes = self.inodes@;
        let ghost gi = info;
        match self.find_inode_by_identity(info.dev_id, info.inode) {
            None => {
                if self.next_id == u64::MAX {
                    return Err(IndexError::IdExhausted);
                }
                let id = self.next_id;
                self.inodes.push(InodeRow { id, info });
                self.next_id = self.next_id + 1;
                assert forall|a: int, b: int| 0 <= a < b < self.inodes@.len() implies self.inodes@[a].id
                    != self.inodes@[b].id && ident_of(self.inodes@[a]) != ident_of(
                    self.inodes@[b],
                ) by {
                    assert(self.inodes@[a] == old_inodes[a]);
                    if b < old_inodes.len() {
                        assert(self.inodes@[b] == old_inodes[b]);
                    }
                }
                assert forall|a: int| 0 <= a < self.files@.len() implies self.has_inode_id(
                    #[trigger] self.files@[a].inode_id,
                ) by {
                    let j = choose|j: int|
                        0 <= j < old_inodes.len() && old_inodes[j].id == self.files@[a].inode_id;
                    assert(self.inodes@[j] == old_inodes[j]);
                }
                let ghost last = old_inodes.len() as int;
                assert(self.inodes@[last].id == id);
                let ghost c = choose|c: int| 0 <= c < self.inodes@.len() && self.inodes@[c].id == id;
                assert(c == last);
                assert(self.inodes@ == old_self.inodes_with(gi));
                Ok(id)
            },
            Some(k) => {
                let id = self.inodes[k].id;
                proof {
                    let c = choose|c: int|
                        0 <= c < old_inodes.len() && ident_of(old_inodes[c]) == (gi.dev_id, gi.inode);
                    assert(c == k as int);
                }
                self.inodes.set(k, InodeRow { id, info });
                assert(self.inodes@ == old_inodes.update(k as int, InodeRow { id, info: gi }));
                assert forall|a: int, b: int| 0 <= a < b < self.inodes@.len() implies self.inodes@[a].id
                    != self.inodes@[b].id && ident_of(self.inodes@[a]) != ident_of(
                    self.inodes@[b],
                ) by {
                    if a != k && b != k {
                        assert(self.inodes@[a] == old_inodes[a]);
                        assert(self.inodes@[b] == old_inodes[b]);
                    } else if a == k {
                        assert(self.inodes@[b] == old_inodes[b]);
                    } else {
                        assert(self.inodes@[a] == old_inodes[a]);
                    }
                }
                assert forall|a: int| 0 <= a < self.files@.len() implies self.has_inode_id(
                    #[trigger] self.files@[a].inode_id,
                ) by {
                    let j = choose|j: int|
                        0 <= j < old_inodes.len() && old_inodes[j].id == self.files@[a].inode_id;
                    assert(self.inodes@[j].id == old_inodes[j].id);
                }
                let ghost c = choose|c: int| 0 <= c < self.inodes@.len() && self.inodes@[c].id == id;
                assert(c == k as int);
                assert(self.inodes@[k as int].id == id);
                Ok(id)
            },
        }
    }

    /// Puts a restored file back at its trash record's path: `on_disk` is the
    /// identity of the file as now on disk, stored with the trash record's digest
    /// (no re-hash) whatever that identity held before; the path record is
    /// inserted or replaced, and the trash record goes. Answers whether the trash
    /// object of the content is to be removed: exactly when this record was its
    /// last reference.
    pub fn restore_trash_file_by_path(&mut self, t: &TrashFileInfo, on_disk: &InodeInfo, scan_time: i64) -> (r: Result<
        bool,
        IndexError,
    >)
        requires
            old(self).wf(),
        ensures
            final(self).wf(),
            r is Err <==> !old(self).has_ident(on_disk.dev_id, on_disk.inode) && old(self).next_id
                == u64::MAX,
            r is Err ==> r == Err::<bool, IndexError>(IndexError::IdExhausted) && *final(self) == *old(
                self,
            ),
            r is Ok ==> {
                let info = restored_identity(*on_disk, t.md5);
                &&& r->Ok_0 == (trash_refs(old(self).trash@, t.md5@) == 1)
                &&& final(self).trash@ == old(self).trash@.filter(not_at(trash_key(*t)))
                &&& final(self).inodes@ == old(self).inodes_with(info)
                &&& final(self).files@ == upsert_row(
                    old(self).files@,
                    restored_row(*t, old(self).id_for(on_disk.dev_id, on_disk.inode), scan_time),
                )
                &&& exists|k: int|
                    0 <= k < final(self).files@.len() && file_key(#[trigger] final(self).files@[k])
                        == trash_key(*t) && final(self).inode_of(final(self).files@[k].inode_id)
                        == info
            },
    {
        let last = self.count_trash_by_md5(&t.md5);
        let info = InodeInfo { md5: Some(t.md5.clone()), ..on_disk.clone() };
        assert(info == restored_identity(*on_disk, t.md5));
        let id = match self.put_identity(info) {
            Ok(id) => id,
            Err(e) => {
                return Err(e);
            },
        };
        let row = FileRow {
            inode_id: id,
            dir_path: t.dir_path.clone(),
            file_name: t.file_name.clone(),
            file_extension: clone_opt_string(&t.file_extension),
            version: 0,
            scan_time,
        };
        let ghost before_row = *self;
        let ghost grow = row;
        self.upsert_file_row(row);
        proof {
            let k = lemma_upserted_at(before_row.files@, grow);
            assert(self.inode_of(id) == before_row.inode_of(id));
            assert(file_key(self.files@[k]) == trash_key(*t));
        }
        self.remove_trash_file_by_path(&t.dir_path, &t.file_name);
        Ok(last == 1)
    }

    /// Removes trash record `t` for good; answers whether the stored trash object
    /// of its content is to be removed too, which holds exactly when `t` was its
    /// last reference.
    pub fn clear_trash_file(&mut self, t: &TrashFileInfo) -> (r: bool)
        requires
            old(self).wf(),
        ensures
            final(self).wf(),
            r == (trash_refs(old(self).trash@, t.md5@) == 1),
            final(self).trash@ == old(self).trash@.filter(not_at(trash_key(*t))),
            final(self).inodes@ == old(self).inodes@,
            final(self).files@ == old(self).files@,
    {
        let n = self.count_trash_by_md5(&t.md5);
        self.remove_trash_file_by_path(&t.dir_path, &t.file_name);
        n == 1
    }
    /// Rows that form an index: the uniqueness and reference rules hold, and an
    /// identifier is left for a new identity record.
    pub open spec fn rows_valid(inodes: Seq<InodeRow>, files: Seq<FileRow>, trash: Seq<TrashFileInfo>) -> bool {
        &&& forall|a: int, b: int| 0 <= a < b < inodes.len() ==> inodes[a].id != inodes[b].id
        &&& forall|a: int, b: int|
            0 <= a < b < inodes.len() ==> ident_of(inodes[a]) != ident_of(inodes[b])
        &&& forall|i: int| 0 <= i < inodes.len() ==> #[trigger] inodes[i].id < u64::MAX
        &&& forall|a: int, b: int| 0 <= a < b < files.len() ==> file_key(files[a]) != file_key(files[b])
        &&& forall|i: int| 0 <= i < files.len() ==> id_present(inodes, #[trigger] files[i].inode_id)
        &&& forall|a: int, b: int| 0 <= a < b < trash.len() ==> trash_key(trash[a]) != trash_key(trash[b])
    }

    /// An index holding the given rows, when they form one.
    pub fn from_rows(inodes: Vec<InodeRow>, files: Vec<FileRow>, trash: Vec<TrashFileInfo>) -> (r: Result<
        DatabaseManager,
        IndexError,
    >)
        ensures
            r is Ok <==> Self::rows_valid(inodes@, files@, trash@),
            r is Err ==> r == Err::<DatabaseManager, IndexError>(IndexError::InvalidRows),
            r is Ok ==> {
                &&& r->Ok_0.wf()
                &&& r->Ok_0.inodes@ == inodes@
                &&& r->Ok_0.files@ == files@
                &&& r->Ok_0.trash@ == trash@
            },
    {
        let mut next_id: u64 = 1;
        let mut i: usize = 0;
        while i < inodes.len()
            invariant
                i <= inodes@.len(),
                next_id >= 1,
                forall|k: int| 0 <= k < i ==> #[trigger] inodes@[k].id < next_id,
                forall|k: int| 0 <= k < i ==> #[trigger] inodes@[k].id < u64::MAX,
            decreases inodes@.len() - i,
        {
            if inodes[i].id == u64::MAX {
                return Err(IndexError::InvalidRows);
            }
            if inodes[i].id >= next_id {
                next_id = inodes[i].id + 1;
            }
            i = i + 1;
        }
        let ids_ok = all_distinct(
            &inodes,
            (|a: &InodeRow, b: &InodeRow| -> (r: bool)
                ensures
                    r == (a.id as int == b.id as int),
                { a.id == b.id }),
            Ghost(|r: InodeRow| r.id as int),
        );
        let idents_ok = all_distinct(
            &inodes,
            (|a: &InodeRow, b: &InodeRow| -> (r: bool)
                ensures
                    r == (ident_pair(*a) == ident_pair(*b)),
                { a.info.dev_id == b.info.dev_id && a.info.inode == b.info.inode }),
            Ghost(|r: InodeRow| ident_pair(r)),
        );
        let ghost rows = (inodes@, files@, trash@);
        let index = DatabaseManager { inodes, files, trash, next_id };
        if !ids_ok || !idents_ok {
            proof {
                assert(!unique_by(index.inodes@, |r: InodeRow| r.id) || !unique_by(index.inodes@, |r: InodeRow| ident_of(r))) by {
                    if !ids_ok {
                        let (a, b) = choose|a: int, b: int| 0 <= a < b < index.inodes@.len() && index.inodes@[a].id as int == index.inodes@[b].id as int;
                        assert(index.inodes@[a].id == index.inodes@[b].id);
                    } else {
                        let (a, b) = choose|a: int, b: int| 0 <= a < b < index.inodes@.len() && ident_pair(index.inodes@[a]) == ident_pair(index.inodes@[b]);
                        lemma_ident_pair(index.inodes@[a], index.inodes@[b]);
                    }
                }
            }
            return Err(IndexError::InvalidRows);
        }
        proof {
            assert forall|a: int, b: int| 0 <= a < b < index.inodes@.len() implies index.inodes@[a].id
                != index.inodes@[b].id && ident_of(index.inodes@[a]) != ident_of(index.inodes@[b]) by {
                assert(index.inodes@[a].id as int != index.inodes@[b].id as int);
                assert(ident_pair(index.inodes@[a]) != ident_pair(index.inodes@[b]));
                lemma_ident_pair(index.inodes@[a], index.inodes@[b]);
            }
        }
        let mut f: usize = 0;
        while f < index.files.len()
            invariant
                f <= index.files@.len(),
                rows == (index.inodes@, index.files@, index.trash@),
                rows == (inodes@, files@, trash@),
                forall|k: int| 0 <= k < f ==> index.has_inode_id(#[trigger] index.files@[k].inode_id),
                unique_by(index.inodes@, |r: InodeRow| r.id),
                unique_by(index.inodes@, |r: InodeRow| ident_of(r)),
                forall|k: int| 0 <= k < index.inodes@.len() ==> #[trigger] index.inodes@[k].id < u64::MAX,
                forall|k: int| 0 <= k < index.inodes@.len() ==> #[trigger] index.inodes@[k].id < index.next_id,
            decreases index.files@.len() - f,
        {
            if index.find_inode_by_id(index.files[f].inode_id).is_none() {
                proof {
                    assert(!index.has_inode_id(index.files@[f as int].inode_id));
                    assert(!id_present(index.inodes@, index.files@[f as int].inode_id));
                    assert(!Self::rows_valid(index.inodes@, index.files@, index.trash@)) by {
                        if Self::rows_valid(index.inodes@, index.files@, index.trash@) {
                            assert(id_present(index.inodes@, index.files@[f as int].inode_id));
                        }
                    }
                }
                return Err(IndexError::InvalidRows);
            }
            f = f + 1;
        }
        if !index.unique_paths() || !index.unique_trash_paths() {
            return Err(IndexError::InvalidRows);
        }
        proof {
            assert forall|k: int| 0 <= k < index.files@.len() implies id_present(
                index.inodes@,
                #[trigger] index.files@[k].inode_id,
            ) by {
                assert(index.has_inode_id(index.files@[k].inode_id));
            }
            assert(unique_by(index.inodes@, |r: InodeRow| r.id));
            assert(unique_by(index.inodes@, |r: InodeRow| ident_of(r)));
            assert(forall|i: int| 0 <= i < index.inodes@.len() ==> #[trigger] index.inodes@[i].id < u64::MAX);
            assert(unique_by(index.files@, |r: FileRow| file_key(r)));
            assert(unique_by(index.trash@, |t: TrashFileInfo| trash_key(t)));
            assert(Self::rows_valid(index.inodes@, index.files@, index.trash@));
        }
        Ok(index)
    }

    fn unique_paths(&self) -> (r: bool)
        ensures
            r == unique_by(self.files@, |r: FileRow| file_key(r)),
    {
        let mut i: usize = 0;
        while i < self.files.len()
            invariant
                i <= self.files@.len(),
                forall|a: int, b: int| 0 <= a < b < self.files@.len() && a < i ==> file_key(self.files@[a]) != file_key(self.files@[b]),
            decreases self.files@.len() - i,
        {
            let mut j: usize = i + 1;
            while j < self.files.len()
                invariant
                    i < self.files@.len(),
                    i + 1 <= j <= self.files@.len(),
                    forall|a: int, b: int| 0 <= a < b < self.files@.len() && a < i ==> file_key(self.files@[a]) != file_key(self.files@[b]),
                    forall|b: int| i < b < j ==> file_key(self.files@[i as int]) != file_key(#[trigger] self.files@[b]),
                decreases self.files@.len() - j,
            {
                if self.files[i].dir_path == self.files[j].dir_path && self.files[i].file_name == self.files[j].file_name {
                    return false;
                }
                j = j + 1;
            }
            i = i + 1;
        }
        true
    }

    fn unique_trash_paths(&self) -> (r: bool)
        ensures
            r == unique_by(self.trash@, |t: TrashFileInfo| trash_key(t)),
    {
        let mut i: usize = 0;
        while i < self.trash.len()
            invariant
                i <= self.trash@.len(),
                forall|a: int, b: int| 0 <= a < b < self.trash@.len() && a < i ==> trash_key(self.trash@[a]) != trash_key(self.trash@[b]),
            decreases self.trash@.len() - i,
        {
            let mut j: usize = i + 1;
            while j < self.trash.len()
                invariant
                    i < self.trash@.len(),
                    i + 1 <= j <= self.trash@.len(),
                    forall|a: int, b: int| 0 <= a < b < self.trash@.len() && a < i ==> trash_key(self.trash@[a]) != trash_key(self.trash@[b]),
                    forall|b: int| i < b < j ==> trash_key(self.trash@[i as int]) != trash_key(#[trigger] self.trash@[b]),
                decreases self.trash@.len() - j,
            {
                if self.trash[i].dir_path == self.trash[j].dir_path && self.trash[i].file_name == self.trash[j].file_name {
                    return false;
                }
                j = j + 1;
            }
            i = i + 1;
        }
        true
    }
    /// Removes every path record that the scan with `version` did not confirm;
    /// answers how many were removed.
    pub fn remove_deleted_files_by_version(&mut self, version: u64) -> (r: usize)
        requires
            old(self).wf(),
        ensures
            final(self).wf(),
            final(self).files@ == old(self).files@.filter(|row: FileRow| row.version == version),
            r == old(self).files@.len() - final(self).files@.len(),
            final(self).inodes@ == old(self).inodes@,
            final(self).trash@ == old(self).trash@,
            final(self).next_id == old(self).next_id,
    {
        let ghost p = |row: FileRow| row.version == version;
        let ghost old_files = self.files@;
        let before = self.files.len();
        let keep = (|row: &FileRow| -> (b: bool)
            ensures
                b == (row.version == version),
            { row.version == version });
        retain_by(&mut self.files, keep, Ghost(p));
        proof {
            self.lemma_files_filtered(old_files, p);
        }
        before - self.files.len()
    }
}

} // verus!
