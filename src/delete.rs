use vstd::prelude::*;
use crate::model::{ErrorCode, FileInfo, InodeInfo, TrashFileInfo};
use crate::index::{DatabaseManager, trash_refs, trash_key, not_at};

verus! {

/// What deleting a stored file comes to, once the checks passed.
#[derive(Debug, Clone, Copy, PartialEq, Eq, Structural)]
pub enum DeletePlan {
    /// The file is gone from disk: only its index entry is purged
    PurgeStale,
    /// The file is removed for good, and its index entry purged
    RemovePermanently,
    /// No trash object holds its content yet: the file is moved to become it,
    /// and its index entry becomes a trash record
    MoveToTrash,
    /// A trash object already holds its content: the file is removed, and its
    /// index entry becomes a trash record
    DropIntoTrash,
}

/// Group member `g`, as it is on disk now (`now`), is a live duplicate of the
/// file at `target`'s path: another path, still there and unchanged.
pub open spec fn live_dup(target: FileInfo, g: FileInfo, now: Option<InodeInfo>) -> bool {
    &&& (g.dir_path@, g.file_name@) != (target.dir_path@, target.file_name@)
    &&& now is Some
    &&& now->Some_0.same_spec(&g.inode_info)
}

/// How many of `group` are live duplicates of `target`, `now[k]` being member
/// `k` as on disk.
pub open spec fn live_dups(target: FileInfo, group: Seq<FileInfo>, now: Seq<Option<InodeInfo>>) -> nat
    decreases group.len(),
{
    if group.len() == 0 || now.len() != group.len() {
        0
    } else {
        live_dups(target, group.drop_last(), now.drop_last()) + if live_dup(
            target,
            group.last(),
            now.last(),
        ) {
            1nat
        } else {
            0nat
        }
    }
}

/// Counts the live duplicates of `target` in its content group.
pub fn count_live_duplicates(target: &FileInfo, group: &Vec<FileInfo>, now: &Vec<Option<InodeInfo>>) -> (r: usize)
    requires
        group@.len() == now@.len(),
    ensures
        r == live_dups(*target, group@, now@),
{
    let mut n: usize = 0;
    let mut i: usize = 0;
    while i < group.len()
        invariant
            group@.len() == now@.len(),
            i <= group@.len(),
            n == live_dups(*target, group@.subrange(0, i as int), now@.subrange(0, i as int)),
            n <= i,
        decreases group@.len() - i,
    {
        proof {
            assert(group@.subrange(0, i + 1).drop_last() =~= group@.subrange(0, i as int));
            assert(now@.subrange(0, i + 1).drop_last() =~= now@.subrange(0, i as int));
        }
        let g = &group[i];
        let live = match &now[i] {
            Some(cur) => !(g.dir_path == target.dir_path && g.file_name == target.file_name)
                && cur.same_as(&g.inode_info),
            None => false,
        };
        if live {
            n = n + 1;
        }
        i = i + 1;
    }
    proof {
        assert(group@.subrange(0, group@.len() as int) =~= group@);
        assert(now@.subrange(0, now@.len() as int) =~= now@);
    }
    n
}

/// The checks before deleting `stored`, and what the deletion then does:
/// `on_disk` is the file as now on disk, `others_alive` the number of its live
/// duplicates, `force` the caller's override of the duplication rule,
/// `permanent` whether to delete for good rather than to the trash, and
/// `object_exists` whether a trash object already holds its content.
pub fn check_delete(
    stored: &FileInfo,
    on_disk: &Option<InodeInfo>,
    others_alive: usize,
    force: bool,
    permanent: bool,
    object_exists: bool,
) -> (r: Result<DeletePlan, ErrorCode>)
    ensures
        on_disk is None ==> r == Ok::<DeletePlan, ErrorCode>(DeletePlan::PurgeStale),
        on_disk is Some && !on_disk->Some_0.same_spec(&stored.inode_info) ==> r == Err::<
            DeletePlan,
            ErrorCode,
        >(ErrorCode::FileChanged),
        on_disk is Some && on_disk->Some_0.same_spec(&stored.inode_info) ==> r == if stored.inode_info.md5 is None {
            Err::<DeletePlan, ErrorCode>(ErrorCode::SystemError)
        } else if others_alive < 1 && !force {
            Err::<DeletePlan, ErrorCode>(ErrorCode::NotAllowDeleteFile)
        } else if permanent {
            Ok::<DeletePlan, ErrorCode>(DeletePlan::RemovePermanently)
        } else if object_exists {
            Ok::<DeletePlan, ErrorCode>(DeletePlan::DropIntoTrash)
        } else {
            Ok::<DeletePlan, ErrorCode>(DeletePlan::MoveToTrash)
        },
{
    match on_disk {
        None => Ok(DeletePlan::PurgeStale),
        Some(cur) => {
            if !cur.same_as(&stored.inode_info) {
                return Err(ErrorCode::FileChanged);
            }
            if stored.inode_info.md5.is_none() {
                return Err(ErrorCode::SystemError);
            }
            if others_alive < 1 && !force {
                return Err(ErrorCode::NotAllowDeleteFile);
            }
            if permanent {
                Ok(DeletePlan::RemovePermanently)
            } else if object_exists {
                Ok(DeletePlan::DropIntoTrash)
            } else {
                Ok(DeletePlan::MoveToTrash)
            }
        },
    }
}

impl DatabaseManager {
    /// The trash records removed at or before `cutoff`, in storage order.
    pub fn expired_trash(&self, cutoff: i64) -> (r: Vec<TrashFileInfo>)
        ensures
            r@ == self.trash@.filter(|t: TrashFileInfo| t.remove_time <= cutoff),
    {
        let ghost p = |t: TrashFileInfo| t.remove_time <= cutoff;
        let mut out: Vec<TrashFileInfo> = Vec::new();
        let mut i: usize = 0;
        while i < self.trash.len()
            invariant
                i <= self.trash@.len(),
                p == (|t: TrashFileInfo| t.remove_time <= cutoff),
                out@ == self.trash@.subrange(0, i as int).filter(p),
            decreases self.trash@.len() - i,
        {
            let ghost t = self.trash@.subrange(0, i + 1);
            proof {
                reveal(Seq::filter);
                assert(t.drop_last() =~= self.trash@.subrange(0, i as int));
            }
            if self.trash[i].remove_time <= cutoff {
                out.push(self.trash[i].clone());
            }
            i = i + 1;
        }
        proof {
            assert(self.trash@.subrange(0, self.trash@.len() as int) =~= self.trash@);
        }
        out
    }

    /// Removes trash record `t` for good, where `object_exists` tells whether the
    /// trash object of its content is on disk. Without the object every record of
    /// that content goes; with it, only `t`. Answers whether the object is to be
    /// removed: exactly when it exists and `t` was its last reference.
    pub fn clear_trash_entry(&mut self, t: &TrashFileInfo, object_exists: bool) -> (r: bool)
        requires
            old(self).wf(),
        ensures
            final(self).wf(),
            final(self).inodes@ == old(self).inodes@,
            final(self).files@ == old(self).files@,
            !object_exists ==> !r && final(self).trash@ == old(self).trash@.filter(
                |x: TrashFileInfo| x.md5@ != t.md5@,
            ),
            object_exists ==> r == (trash_refs(old(self).trash@, t.md5@) == 1) && final(self).trash@
                == old(self).trash@.filter(not_at(trash_key(*t))),
    {
        if !object_exists {
            self.remove_trash_file_by_md5(&t.md5);
            false
        } else {
            self.clear_trash_file(t)
        }
    }
}

/// The removal time before which trash records have expired, `interval_s`
/// seconds before `now`.
pub fn expiry_cutoff(now: i64, interval_s: u32) -> (r: i64)
    ensures
        r == if now - interval_s >= i64::MIN { now - interval_s } else { i64::MIN as int },
{
    if now >= i64::MIN + interval_s as i64 {
        now - interval_s as i64
    } else {
        i64::MIN
    }
}

} // verus!
