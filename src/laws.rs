use vstd::prelude::*;
use crate::model::{FileInfo, TrashFileInfo};
use crate::query::{
    FileInfoWithMd5Count, ListSettings, selected_entries, row_selected, entry_of, group_count, scope_count,
    digest,
};
use crate::index::{
    DatabaseManager, InodeRow, FileRow, file_key, ident_of, trash_key, trash_refs, refers_to,
    upsert_row, upsert_trash, file_row_of, unique_by, lemma_filter_unique, not_at, has_digest, kept_after_scan, referenced_by, lemma_upserted_at,
};

verus! {

/// Right after a file is stored, scanning it again with the same metadata finds it
/// unchanged, so its digest is not computed again, and confirming it with the same
/// version leaves the path records as they are.
pub proof fn lemma_rescan_is_unchanged(before: DatabaseManager, after: DatabaseManager, f: FileInfo)
    requires
        before.wf(),
        after.wf(),
        before.insert_outcome(f, Ok(()), after),
    ensures
        exists|k: int|
            #[trigger] after.unchanged_at(k, f) && after.files@.update(
                k,
                FileRow { version: f.version, ..after.files@[k] },
            ) == after.files@,
{
    let key = (f.inode_info.dev_id, f.inode_info.inode);
    if exists|j: int| 0 <= j < before.inodes@.len() && ident_of(before.inodes@[j]) == key {
        let j = choose|j: int| 0 <= j < before.inodes@.len() && ident_of(before.inodes@[j]) == key;
        let id = before.inodes@[j].id;
        let k = lemma_upserted_at(before.files@, file_row_of(f, id));
        assert(after.inodes@[j].id == id);
        let c = choose|c: int| 0 <= c < after.inodes@.len() && after.inodes@[c].id == id;
        assert(c == j);
        assert(after.unchanged_at(k, f));
        assert(after.files@.update(k, FileRow { version: f.version, ..after.files@[k] }) =~= after.files@);
    } else {
        let id = before.next_id;
        let k = lemma_upserted_at(before.files@, file_row_of(f, id));
        let last = before.inodes@.len() as int;
        assert(after.inodes@[last].id == id);
        let c = choose|c: int| 0 <= c < after.inodes@.len() && after.inodes@[c].id == id;
        assert(c == last);
        assert(after.unchanged_at(k, f));
        assert(after.files@.update(k, FileRow { version: f.version, ..after.files@[k] }) =~= after.files@);
    }
}

/// Once a file is stored with digest `h`, and its identity was new or had changed,
/// the digest read back at its path is `h`.
pub proof fn lemma_stored_digest(before: DatabaseManager, after: DatabaseManager, f: FileInfo)
    requires
        before.wf(),
        after.wf(),
        before.insert_outcome(f, Ok(()), after),
        forall|j: int|
            0 <= j < before.inodes@.len() && ident_of(#[trigger] before.inodes@[j]) == (
            f.inode_info.dev_id,
            f.inode_info.inode,
            ) ==> !before.inodes@[j].info.same_spec(&f.inode_info),
    ensures
        exists|k: int|
            0 <= k < after.files@.len() && file_key(#[trigger] after.files@[k]) == (
            f.dir_path@,
            f.file_name@,
            ) && after.inode_of(after.files@[k].inode_id) == f.inode_info,
{
    let key = (f.inode_info.dev_id, f.inode_info.inode);
    if exists|j: int| 0 <= j < before.inodes@.len() && ident_of(before.inodes@[j]) == key {
        let j = choose|j: int| 0 <= j < before.inodes@.len() && ident_of(before.inodes@[j]) == key;
        let id = before.inodes@[j].id;
        let k = lemma_upserted_at(before.files@, file_row_of(f, id));
        assert(after.inodes@[j].id == id);
        let c = choose|c: int| 0 <= c < after.inodes@.len() && after.inodes@[c].id == id;
        assert(c == j);
        assert(after.inode_of(after.files@[k].inode_id) == f.inode_info);
    } else {
        let id = before.next_id;
        let k = lemma_upserted_at(before.files@, file_row_of(f, id));
        let last = before.inodes@.len() as int;
        assert(after.inodes@[last].id == id);
        let c = choose|c: int| 0 <= c < after.inodes@.len() && after.inodes@[c].id == id;
        assert(c == last);
        assert(after.inode_of(after.files@[k].inode_id) == f.inode_info);
    }
}

/// Two stored paths whose identities have the same device and inode number refer
/// to one and the same identity record.
pub proof fn lemma_hardlinks_share_record(index: DatabaseManager, a: int, b: int)
    requires
        index.wf(),
        0 <= a < index.files@.len(),
        0 <= b < index.files@.len(),
        index.inode_of(index.files@[a].inode_id).dev_id == index.inode_of(
            index.files@[b].inode_id,
        ).dev_id,
        index.inode_of(index.files@[a].inode_id).inode == index.inode_of(
            index.files@[b].inode_id,
        ).inode,
    ensures
        index.files@[a].inode_id == index.files@[b].inode_id,
{
    let ia = index.files@[a].inode_id;
    let ib = index.files@[b].inode_id;
    assert(index.has_inode_id(ia));
    assert(index.has_inode_id(ib));
    let ja = choose|j: int| 0 <= j < index.inodes@.len() && index.inodes@[j].id == ia;
    let jb = choose|j: int| 0 <= j < index.inodes@.len() && index.inodes@[j].id == ib;
    assert(ident_of(index.inodes@[ja]) == ident_of(index.inodes@[jb]));
    if ja != jb {
        if ja < jb {
            assert(ident_of(index.inodes@[ja]) != ident_of(index.inodes@[jb]));
        } else {
            assert(ident_of(index.inodes@[jb]) != ident_of(index.inodes@[ja]));
        }
    }
}

/// A file of directory `dir` that the scan with `version` did not confirm is gone
/// once the directory is reconciled and orphans are purged: its path record, and
/// its identity record when no other path refers to it.
pub proof fn lemma_deleted_file_purged(
    i0: DatabaseManager,
    i1: DatabaseManager,
    i2: DatabaseManager,
    dir: Seq<char>,
    version: u64,
    k: int,
)
    requires
        i0.wf(),
        0 <= k < i0.files@.len(),
        i0.files@[k].dir_path@ == dir,
        i0.files@[k].version != version,
        i1.files@ == i0.files@.filter(kept_after_scan(dir, version)),
        i2.files@ == i1.files@,
        i2.inodes@ == i1.inodes@.filter(referenced_by(i1.files@)),
    ensures
        !i2.has_path(i0.files@[k].dir_path@, i0.files@[k].file_name@),
        !refers_to(i1.files@, i0.files@[k].inode_id) ==> !i2.has_inode_id(i0.files@[k].inode_id),
{
    broadcast use vstd::seq_lib::group_filter_ensures;
    let p = kept_after_scan(dir, version);
    lemma_filter_unique(i0.files@, p, |r: FileRow| file_key(r));
    let gone = i0.files@[k];
    if i2.has_path(gone.dir_path@, gone.file_name@) {
        let m = choose|m: int|
            0 <= m < i2.files@.len() && file_key(i2.files@[m]) == (gone.dir_path@, gone.file_name@);
        let n = choose|n: int| 0 <= n < i0.files@.len() && i0.files@[n] == i0.files@.filter(p)[m];
        assert(p(i0.files@.filter(p)[m]));
        if n < k {
            assert(file_key(i0.files@[n]) != file_key(i0.files@[k]));
        } else if n > k {
            assert(file_key(i0.files@[k]) != file_key(i0.files@[n]));
        }
    }
    if !refers_to(i1.files@, gone.inode_id) && i2.has_inode_id(gone.inode_id) {
        let j = choose|j: int| 0 <= j < i2.inodes@.len() && i2.inodes@[j].id == gone.inode_id;
        let q = referenced_by(i1.files@);
        assert(q(i1.inodes@.filter(q)[j]));
    }
}

/// Every entry of a duplicate listing is a stored file that the query selects,
/// and its group count is the number of stored paths sharing its digest (within
/// the size filter); in scoped mode its second count is the number of those
/// under the directory of interest.
pub proof fn lemma_listed_group_counts(
    js: Seq<FileInfo>,
    q: ListSettings,
    ordered: Seq<FileInfoWithMd5Count>,
    i: int,
)
    requires
        ordered.to_multiset() == selected_entries(js, q).to_multiset(),
        0 <= i < ordered.len(),
    ensures
        row_selected(js, q, ordered[i].file_info),
        ordered[i].md5_count == group_count(js, q, digest(ordered[i].file_info)) as usize,
        q.scoped() ==> ordered[i].filter_md5_count == Some(
            scope_count(js, q, digest(ordered[i].file_info)) as usize,
        ),
        !q.scoped() ==> ordered[i].filter_md5_count is None,
{
    broadcast use vstd::seq_lib::group_to_multiset_ensures;
    broadcast use vstd::seq_lib::group_filter_ensures;
    let x = ordered[i];
    assert(ordered.to_multiset().count(x) > 0);
    assert(selected_entries(js, q).contains(x));
    let sel = |f: FileInfo| row_selected(js, q, f);
    let m = js.filter(sel);
    let k = choose|k: int| 0 <= k < selected_entries(js, q).len() && selected_entries(js, q)[k] == x;
    assert(x == entry_of(js, q, m[k]));
    assert(sel(m[k]));
}

/// Splitting a count by a second predicate.
proof fn lemma_filter_split<A>(s: Seq<A>, p: spec_fn(A) -> bool, q: spec_fn(A) -> bool)
    ensures
        s.filter(p).filter(q).len() + s.filter(|x: A| !p(x) && q(x)).len() == s.filter(q).len(),
    decreases s.len(),
{
    reveal(Seq::filter);
    if s.len() > 0 {
        let d = s.drop_last();
        lemma_filter_split(d, p, q);
        let x = s.last();
        let r = |x: A| !p(x) && q(x);
        if p(x) {
            assert(s.filter(p) == d.filter(p).push(x));
            assert(s.filter(p).drop_last() =~= d.filter(p));
        } else {
            assert(s.filter(p) == d.filter(p));
        }
    }
}

/// With unique keys, one record at most has a given key.
proof fn lemma_one_with_key(trash: Seq<TrashFileInfo>, k: int, h: Seq<char>)
    requires
        unique_by(trash, |t: TrashFileInfo| trash_key(t)),
        0 <= k < trash.len(),
        trash[k].md5@ == h,
    ensures
        trash.filter(
            |x: TrashFileInfo| !(trash_key(x) != trash_key(trash[k])) && x.md5@ == h,
        ).len() == 1,
    decreases trash.len(),
{
    reveal(Seq::filter);
    let key = trash_key(trash[k]);
    let r = |x: TrashFileInfo| !(trash_key(x) != key) && x.md5@ == h;
    let d = trash.drop_last();
    if k == trash.len() - 1 {
        assert forall|i: int| 0 <= i < d.len() implies !r(#[trigger] d[i]) by {
            assert(trash_key(trash[i]) != trash_key(trash[k]));
        }
        lemma_none_kept(d, r);
    } else {
        assert(unique_by(d, |t: TrashFileInfo| trash_key(t)));
        assert(d[k] == trash[k]);
        lemma_one_with_key(d, k, h);
        assert(trash_key(trash[k]) != trash_key(trash.last()));
    }
}

proof fn lemma_none_kept<A>(s: Seq<A>, p: spec_fn(A) -> bool)
    requires
        forall|i: int| 0 <= i < s.len() ==> !p(#[trigger] s[i]),
    ensures
        s.filter(p).len() == 0,
    decreases s.len(),
{
    reveal(Seq::filter);
    if s.len() > 0 {
        lemma_none_kept(s.drop_last(), p);
    }
}

/// Removing one trash record takes one reference off its content's trash object:
/// of two records sharing a digest, clearing one leaves one reference, so the
/// object stays, and clearing the other then finds the last reference.
pub proof fn lemma_trash_refs_after_clear(index: DatabaseManager, k: int)
    requires
        index.wf(),
        0 <= k < index.trash@.len(),
    ensures
        trash_refs(index.trash@.filter(not_at(trash_key(index.trash@[k]))), index.trash@[k].md5@) + 1
            == trash_refs(index.trash@, index.trash@[k].md5@),
{
    let t = index.trash@;
    let h = t[k].md5@;
    let p = not_at(trash_key(t[k]));
    let q = has_digest(h);
    lemma_filter_split(t, p, q);
    lemma_one_with_key(t, k, h);
    assert((|x: TrashFileInfo| !p(x) && q(x)) =~= (|x: TrashFileInfo| !(trash_key(x) != trash_key(t[k])) && x.md5@ == h));
    assert((|x: TrashFileInfo| !p(x) && q(x)) == (|x: TrashFileInfo| !(trash_key(x) != trash_key(t[k])) && x.md5@ == h));
}

/// Trashing a file whose path has no trash record adds one reference to the trash
/// object of its content.
pub proof fn lemma_trash_refs_after_move(trash: Seq<TrashFileInfo>, t: TrashFileInfo)
    requires
        forall|i: int| 0 <= i < trash.len() ==> trash_key(#[trigger] trash[i]) != trash_key(t),
    ensures
        trash_refs(upsert_trash(trash, t), t.md5@) == trash_refs(trash, t.md5@) + 1,
{
    reveal(Seq::filter);
    assert(upsert_trash(trash, t) == trash.push(t));
    assert(trash.push(t).drop_last() =~= trash);
}


/// A file that the filters leave out keeps its path record through the
/// reconciliation of its directory: the scan bumped its version, so the record is
/// among those that the scan leaves in place.
pub proof fn lemma_skipped_file_kept(files: Seq<FileRow>, k: int, dir: Seq<char>, version: u64)
    requires
        0 <= k < files.len(),
    ensures
        files.update(k, FileRow { version, ..files[k] }).filter(kept_after_scan(dir, version)).contains(
            FileRow { version, ..files[k] },
        ),
{
    broadcast use vstd::seq_lib::group_filter_ensures;
    let u = files.update(k, FileRow { version, ..files[k] });
    assert(kept_after_scan(dir, version)(u[k]));
    assert(u.filter(kept_after_scan(dir, version)).contains(u[k]));
}

/// `f` is stored, at its path, with its metadata (digest aside).
pub open spec fn stored_unchanged(index: DatabaseManager, f: FileInfo) -> bool {
    exists|k: int| #[trigger] index.unchanged_at(k, f)
}

/// Two sequences of path records that differ in versions alone.
pub open spec fn same_but_versions(a: Seq<FileRow>, b: Seq<FileRow>) -> bool {
    &&& a.len() == b.len()
    &&& forall|k: int|
        0 <= k < a.len() ==> (FileRow { version: 0, ..#[trigger] a[k] }) == (FileRow {
            version: 0,
            ..b[k]
        })
}

/// One call of `scan_file` on `f`, for a file stored unchanged, as its contract
/// states it: the identity records stay, and the stored path gets the version.
pub open spec fn rescan_step(before: DatabaseManager, after: DatabaseManager, f: FileInfo) -> bool {
    &&& after.wf()
    &&& after.inodes@ == before.inodes@
    &&& forall|k: int|
        #[trigger] before.unchanged_at(k, f) ==> after.files@ == before.files@.update(
            k,
            FileRow { version: f.version, ..before.files@[k] },
        )
}

/// Scanning again, file after file, a tree whose files are all stored unchanged
/// finds each of them unchanged (so no digest is computed), leaves the identity
/// records, digests included, as they were, and changes the path records in
/// their versions alone, every file seen now carrying the new version.
pub proof fn lemma_rescan_changes_versions_only(
    states: Seq<DatabaseManager>,
    seen: Seq<FileInfo>,
    version: u64,
)
    requires
        states.len() == seen.len() + 1,
        states[0].wf(),
        forall|i: int| 0 <= i < seen.len() ==> (#[trigger] seen[i]).version == version,
        forall|i: int|
            0 <= i < seen.len() ==> stored_unchanged(states[0], #[trigger] seen[i]),
        forall|i: int|
            0 <= i < seen.len() ==> rescan_step(states[i], states[i + 1], #[trigger] seen[i]),
    ensures
        forall|i: int|
            0 <= i < seen.len() ==> stored_unchanged(states[i], #[trigger] seen[i]),
        states[seen.len() as int].inodes@ == states[0].inodes@,
        same_but_versions(states[0].files@, states[seen.len() as int].files@),
        forall|i: int, k: int|
            #![trigger seen[i], states[seen.len() as int].files@[k]]
            0 <= i < seen.len() && 0 <= k < states[0].files@.len() && file_key(states[0].files@[k])
                == (seen[i].dir_path@, seen[i].file_name@) ==> states[seen.len() as int].files@[k].version
                == version,
{
    lemma_rescan_prefix(states, seen, version, seen.len() as int);
}

proof fn lemma_rescan_prefix(states: Seq<DatabaseManager>, seen: Seq<FileInfo>, version: u64, n: int)
    requires
        states.len() == seen.len() + 1,
        0 <= n <= seen.len(),
        states[0].wf(),
        forall|i: int| 0 <= i < seen.len() ==> (#[trigger] seen[i]).version == version,
        forall|i: int|
            0 <= i < seen.len() ==> stored_unchanged(states[0], #[trigger] seen[i]),
        forall|i: int|
            0 <= i < seen.len() ==> rescan_step(states[i], states[i + 1], #[trigger] seen[i]),
    ensures
        forall|i: int| 0 <= i < n ==> stored_unchanged(states[i], #[trigger] seen[i]),
        states[n].wf(),
        states[n].inodes@ == states[0].inodes@,
        same_but_versions(states[0].files@, states[n].files@),
        forall|i: int, k: int|
            #![trigger seen[i], states[n].files@[k]]
            0 <= i < n && 0 <= k < states[0].files@.len() && file_key(states[0].files@[k]) == (
            seen[i].dir_path@,
            seen[i].file_name@,
            ) ==> states[n].files@[k].version == version,
    decreases n,
{
    if n > 0 {
        let m = n - 1;
        lemma_rescan_prefix(states, seen, version, m);
        let (s0, sm, sn, f) = (states[0], states[m], states[n], seen[m]);
        assert(rescan_step(sm, sn, f));
        assert(stored_unchanged(s0, f));
        let k = choose|k: int| s0.unchanged_at(k, f);
        // the same position is unchanged in the current state
        assert(FileRow { version: 0, ..s0.files@[k] } == FileRow { version: 0, ..sm.files@[k] });
        assert(sm.files@[k].dir_path == s0.files@[k].dir_path);
        assert(sm.files@[k].inode_id == s0.files@[k].inode_id);
        assert(sm.inode_of(sm.files@[k].inode_id) == s0.inode_of(s0.files@[k].inode_id));
        assert(sm.unchanged_at(k, f));
        assert(sn.files@ == sm.files@.update(k, FileRow { version: f.version, ..sm.files@[k] }));
        assert forall|j: int| 0 <= j < s0.files@.len() implies (FileRow {
            version: 0,
            ..#[trigger] s0.files@[j]
        }) == (FileRow { version: 0, ..sn.files@[j] }) by {
            assert(FileRow { version: 0, ..s0.files@[j] } == FileRow { version: 0, ..sm.files@[j] });
        }
        assert forall|i: int, j: int|
            #![trigger seen[i], sn.files@[j]]
            0 <= i < n && 0 <= j < s0.files@.len() && file_key(s0.files@[j]) == (
                seen[i].dir_path@,
                seen[i].file_name@,
            ) implies sn.files@[j].version == version by {
            if i < m && j != k {
                assert(sn.files@[j] == sm.files@[j]);
            }
        }
        assert forall|i: int| 0 <= i < n implies stored_unchanged(states[i], #[trigger] seen[i]) by {
            if i == m {
                assert(states[i].unchanged_at(k, seen[i]));
            }
        }
    }
}


/// Trashing two files of the same content, at paths without trash records, adds
/// two references to the one trash object of that content.
pub proof fn lemma_two_trashed(trash: Seq<TrashFileInfo>, x: TrashFileInfo, y: TrashFileInfo)
    requires
        forall|i: int|
            0 <= i < trash.len() ==> trash_key(#[trigger] trash[i]) != trash_key(x) && trash_key(
                trash[i],
            ) != trash_key(y),
        trash_key(x) != trash_key(y),
        x.md5@ == y.md5@,
    ensures
        trash_refs(upsert_trash(upsert_trash(trash, x), y), x.md5@) == trash_refs(trash, x.md5@) + 2,
{
    lemma_trash_refs_after_move(trash, x);
    let t1 = upsert_trash(trash, x);
    assert(t1 == trash.push(x));
    assert forall|i: int| 0 <= i < t1.len() implies trash_key(#[trigger] t1[i]) != trash_key(y) by {
        if i < trash.len() {
            assert(t1[i] == trash[i]);
        }
    }
    lemma_trash_refs_after_move(t1, y);
}

} // verus!
