use vstd::prelude::*;
use crate::model::{FileInfo, opt_view, extension_of, raw_extension};
use crate::index::{DatabaseManager, IndexError, file_key};
use crate::text::list_contains;

verus! {

/// What a scan covers.
#[derive(Debug, Clone)]
pub struct ScanSettings {
    /// Root of the scan; blank means the default root
    pub scan_path: String,
    /// Extensions admitted, compared as written in the name; all when absent
    pub include_file_extensions: Option<Vec<String>>,
    /// Smallest size admitted (inclusive)
    pub min_file_size: Option<u64>,
    /// Largest size admitted (inclusive)
    pub max_file_size: Option<u64>,
}

/// The root scanned when none is given.
pub const DEFAULT_SCAN_PATH: &'static str = "data/";

impl Default for ScanSettings {
    fn default() -> (r: Self)
        ensures
            r.scan_path@ == DEFAULT_SCAN_PATH@,
            r.include_file_extensions is None,
            r.min_file_size is None,
            r.max_file_size is None,
    {
        ScanSettings {
            scan_path: DEFAULT_SCAN_PATH.to_owned(),
            include_file_extensions: None,
            min_file_size: None,
            max_file_size: None,
        }
    }
}

pub open spec fn is_blank_char(c: char) -> bool {
    c == ' ' || c == '\t' || c == '\n' || c == '\r'
}

/// Empty or made of spaces, tabs and line breaks only.
pub open spec fn is_blank(s: Seq<char>) -> bool {
    forall|i: int| 0 <= i < s.len() ==> is_blank_char(#[trigger] s[i])
}

pub fn blank(s: &String) -> (r: bool)
    ensures
        r == is_blank(s@),
{
    let cs = crate::text::chars_of(s);
    let mut i: usize = 0;
    while i < cs.len()
        invariant
            cs@ == s@,
            i <= cs@.len(),
            forall|k: int| 0 <= k < i ==> is_blank_char(#[trigger] s@[k]),
        decreases cs@.len() - i,
    {
        let c = cs[i];
        if !(c == ' ' || c == '\t' || c == '\n' || c == '\r') {
            return false;
        }
        i = i + 1;
    }
    true
}

impl ScanSettings {
    /// The root to scan: the given path, or the default one when it is blank.
    pub fn resolved_path(&self) -> (r: String)
        ensures
            is_blank(self.scan_path@) ==> r@ == DEFAULT_SCAN_PATH@,
            !is_blank(self.scan_path@) ==> r@ == self.scan_path@,
    {
        if blank(&self.scan_path) {
            DEFAULT_SCAN_PATH.to_owned()
        } else {
            self.scan_path.clone()
        }
    }

    /// Whether a file with extension `ext` (as written) and size `size` is indexed.
    pub open spec fn admits(&self, ext: Option<Seq<char>>, size: u64) -> bool {
        &&& self.include_file_extensions is Some ==> ext is Some && exists|k: int|
            0 <= k < self.include_file_extensions->Some_0@.len()
                && #[trigger] self.include_file_extensions->Some_0@[k]@ == ext->Some_0
        &&& self.min_file_size is Some ==> size >= self.min_file_size->Some_0
        &&& self.max_file_size is Some ==> size <= self.max_file_size->Some_0
    }

    pub fn file_admitted(&self, ext: &Option<String>, size: u64) -> (r: bool)
        ensures
            r == self.admits(opt_view(*ext), size),
    {
        let ext_ok = match &self.include_file_extensions {
            Some(list) => match ext {
                Some(e) => list_contains(list, e),
                None => false,
            },
            None => true,
        };
        let min_ok = match self.min_file_size {
            Some(m) => size >= m,
            None => true,
        };
        let max_ok = match self.max_file_size {
            Some(m) => size <= m,
            None => true,
        };
        ext_ok && min_ok && max_ok
    }
}

/// Progress of the current scan, as reported to callers.
#[derive(Debug)]
pub struct ScanStatus {
    pub scan_request: Option<ScanSettings>,
    pub started: bool,
    /// Seconds since the Unix epoch
    pub start_time: Option<i64>,
    pub scanned_file_count: usize,
    pub current_file_info: Option<FileInfo>,
}

impl ScanStatus {
    pub fn new() -> (r: ScanStatus)
        ensures
            r.scan_request is None,
            !r.started,
            r.start_time is None,
            r.scanned_file_count == 0,
            r.current_file_info is None,
    {
        ScanStatus {
            scan_request: None,
            started: false,
            start_time: None,
            scanned_file_count: 0,
            current_file_info: None,
        }
    }
}

#[derive(Debug, Clone, Copy, PartialEq, Eq, Structural)]
pub enum StartOutcome {
    /// The scan is now running
    Accepted,
    /// A scan is already running; nothing changed
    Conflict,
    /// The root does not exist; nothing changed
    PathNotFound,
}

/// The single-scan gate, the stop request and the progress of the running scan.
#[derive(Debug)]
pub struct ScanController {
    pub active: bool,
    pub stop_requested: bool,
    pub status: ScanStatus,
}

impl ScanController {
    pub fn new() -> (r: ScanController)
        ensures
            !r.active,
            !r.stop_requested,
            !r.status.started,
            r.status.scanned_file_count == 0,
    {
        ScanController { active: false, stop_requested: false, status: ScanStatus::new() }
    }

    /// Starts a scan of `settings` at time `now`, where `root_exists` tells whether
    /// its root is on disk. Only one scan runs at a time.
    pub fn start_scan(&mut self, settings: ScanSettings, root_exists: bool, now: i64) -> (r:
        StartOutcome)
        ensures
            old(self).active ==> r == StartOutcome::Conflict && *final(self) == *old(self),
            !old(self).active && !root_exists ==> r == StartOutcome::PathNotFound && *final(self)
                == *old(self),
            !old(self).active && root_exists ==> {
                &&& r == StartOutcome::Accepted
                &&& final(self).active
                &&& !final(self).stop_requested
                &&& final(self).status.started
                &&& final(self).status.start_time == Some(now)
                &&& final(self).status.scanned_file_count == 0
                &&& final(self).status.scan_request == Some(settings)
                &&& final(self).status.current_file_info is None
            },
    {
        if self.active {
            return StartOutcome::Conflict;
        }
        if !root_exists {
            return StartOutcome::PathNotFound;
        }
        self.active = true;
        self.stop_requested = false;
        self.status = ScanStatus {
            scan_request: Some(settings),
            started: true,
            start_time: Some(now),
            scanned_file_count: 0,
            current_file_info: None,
        };
        StartOutcome::Accepted
    }

    /// Asks the running scan to stop at its next entry.
    pub fn stop_scan(&mut self)
        ensures
            final(self).stop_requested,
            !final(self).status.started,
            final(self).active == old(self).active,
            final(self).status.scanned_file_count == old(self).status.scanned_file_count,
    {
        self.stop_requested = true;
        self.status.started = false;
    }

    /// Ends the running scan, however it ended; a new one may start.
    pub fn finish_scan(&mut self)
        ensures
            !final(self).active,
            !final(self).status.started,
            final(self).stop_requested == old(self).stop_requested,
            final(self).status.scanned_file_count == old(self).status.scanned_file_count,
    {
        self.active = false;
        self.status.started = false;
    }

    /// Counts one more indexed file and makes it the current one.
    pub fn record_file(&mut self, f: &FileInfo)
        ensures
            final(self).status.scanned_file_count == if old(self).status.scanned_file_count
                == usize::MAX {
                usize::MAX as int
            } else {
                old(self).status.scanned_file_count + 1
            },
            final(self).status.current_file_info == Some(*f),
            final(self).active == old(self).active,
            final(self).stop_requested == old(self).stop_requested,
            final(self).status.started == old(self).status.started,
    {
        if self.status.scanned_file_count < usize::MAX {
            self.status.scanned_file_count = self.status.scanned_file_count + 1;
        }
        self.status.current_file_info = Some(f.clone());
    }
}

#[derive(Debug, Clone, Copy, PartialEq, Eq, Structural)]
pub enum ScanFileOutcome {
    /// Left out by the scan's filters; the index is untouched
    Skipped,
    /// Stored and unchanged: only its version was bumped
    Unchanged,
    /// New or changed: its digest is to be computed, then it is stored
    NeedsHash,
}

impl DatabaseManager {
    /// Whether the stored file at `f`'s path has `f`'s metadata (digest aside).
    pub open spec fn unchanged_at(&self, k: int, f: FileInfo) -> bool {
        &&& 0 <= k < self.files@.len()
        &&& file_key(self.files@[k]) == (f.dir_path@, f.file_name@)
        &&& self.inode_of(self.files@[k].inode_id).same_spec(&f.inode_info)
    }

    /// The index side of scanning one file `f` (its metadata as now on disk):
    /// filtered by its extension as written and its size, counted, and either
    /// confirmed as unchanged with the scan's version, or reported as needing its
    /// digest. A file left out by the filters is not indexed, but a record it
    /// already has is kept: its version is bumped so that reconciling the
    /// directory does not purge it.
    pub fn scan_file(&mut self, ctl: &mut ScanController, settings: &ScanSettings, f: &FileInfo) -> (r:
        ScanFileOutcome)
        requires
            old(self).wf(),
        ensures
            final(self).wf(),
            final(self).inodes@ == old(self).inodes@,
            final(self).trash@ == old(self).trash@,
            !settings.admits(extension_of(f.file_name@), f.inode_info.size) ==> r == ScanFileOutcome::Skipped
                && *final(ctl) == *old(ctl),
            !settings.admits(extension_of(f.file_name@), f.inode_info.size) && (forall|k: int|
                0 <= k < old(self).files@.len() ==> file_key(#[trigger] old(self).files@[k]) != (
                f.dir_path@,
                f.file_name@,
                )) ==> final(self).files@ == old(self).files@,
            forall|k: int|
                0 <= k < old(self).files@.len() && file_key(#[trigger] old(self).files@[k]) == (
                f.dir_path@,
                f.file_name@,
                ) && !settings.admits(extension_of(f.file_name@), f.inode_info.size)
                    ==> final(self).files@ == old(self).files@.update(
                    k,
                    crate::index::FileRow { version: f.version, ..old(self).files@[k] },
                ),
            settings.admits(extension_of(f.file_name@), f.inode_info.size) ==> {
                &&& final(ctl).status.current_file_info == Some(*f)
                &&& final(ctl).status.scanned_file_count == if old(ctl).status.scanned_file_count
                    == usize::MAX {
                    usize::MAX as int
                } else {
                    old(ctl).status.scanned_file_count + 1
                }
                &&& final(ctl).active == old(ctl).active
                &&& final(ctl).stop_requested == old(ctl).stop_requested
                &&& final(ctl).status.started == old(ctl).status.started
            },
            forall|k: int|
                #[trigger] old(self).unchanged_at(k, *f) && settings.admits(extension_of(f.file_name@), f.inode_info.size)
                    ==> r == ScanFileOutcome::Unchanged && final(self).files@ == old(
                    self,
                ).files@.update(k, crate::index::FileRow { version: f.version, ..old(self).files@[k] }),
            settings.admits(extension_of(f.file_name@), f.inode_info.size) && (forall|k: int|
                !#[trigger] old(self).unchanged_at(k, *f)) ==> r == ScanFileOutcome::NeedsHash
                && final(self).files@ == old(self).files@,
    {
        let ext = raw_extension(&f.file_name);
        if !settings.file_admitted(&ext, f.inode_info.size) {
            self.update_version(&f.dir_path, &f.file_name, f.version);
            return ScanFileOutcome::Skipped;
        }
        ctl.record_file(f);
        match self.find_file(&f.dir_path, &f.file_name) {
            Some(i) => {
                let stored = self.joined_at(i);
                if stored.inode_info.same_as(&f.inode_info) {
                    assert(self.unchanged_at(i as int, *f));
                    self.update_version(&f.dir_path, &f.file_name, f.version);
                    ScanFileOutcome::Unchanged
                } else {
                    assert forall|k: int| !#[trigger] self.unchanged_at(k, *f) by {
                        if self.unchanged_at(k, *f) {
                            assert(k == i);
                        }
                    }
                    ScanFileOutcome::NeedsHash
                }
            },
            None => ScanFileOutcome::NeedsHash,
        }
    }
}

/// The work list of a running scan: directories still to be listed.
#[derive(Debug)]
pub struct ScanJob {
    pub queue: Vec<String>,
    /// Version stamp of this scan
    pub version: u64,
    /// The trash directory, never scanned
    pub trash_path: String,
}

#[derive(Debug, Clone, Copy, PartialEq, Eq, Structural)]
pub enum EntryAction {
    /// A stop was asked: orphan identities were purged and the scan ends now
    Stop,
    /// The subdirectory was queued
    Queued,
    /// The subdirectory is the trash directory and was left out
    Ignored,
}

impl ScanJob {
    /// A job rooted at `root`; nothing is queued when the root is the trash directory.
    pub fn new(root: String, version: u64, trash_path: String) -> (r: ScanJob)
        ensures
            r.version == version,
            r.trash_path@ == trash_path@,
            root@ == trash_path@ ==> r.queue@.len() == 0,
            root@ != trash_path@ ==> r.queue@ == seq![root],
    {
        let mut queue: Vec<String> = Vec::new();
        if !(root == trash_path) {
            queue.push(root);
        }
        ScanJob { queue, version, trash_path }
    }

    /// The next directory to list, last queued first.
    pub fn next_dir(&mut self) -> (r: Option<String>)
        ensures
            old(self).queue@.len() == 0 ==> r is None && final(self).queue@ == old(self).queue@,
            old(self).queue@.len() > 0 ==> r == Some(old(self).queue@.last()) && final(self).queue@
                == old(self).queue@.drop_last(),
            final(self).version == old(self).version,
            final(self).trash_path == old(self).trash_path,
    {
        self.queue.pop()
    }

    /// A subdirectory met while listing: queued unless it is the trash directory.
    pub fn on_subdir(&mut self, path: String) -> (r: EntryAction)
        ensures
            path@ == old(self).trash_path@ ==> r == EntryAction::Ignored && final(self).queue@
                == old(self).queue@,
            path@ != old(self).trash_path@ ==> r == EntryAction::Queued && final(self).queue@
                == old(self).queue@.push(path),
            final(self).version == old(self).version,
            final(self).trash_path == old(self).trash_path,
    {
        if path == self.trash_path {
            EntryAction::Ignored
        } else {
            self.queue.push(path);
            EntryAction::Queued
        }
    }

    /// Checks the stop request before an entry; on a stop, purges the identity
    /// records that no path refers to.
    pub fn check_stop(&self, ctl: &ScanController, index: &mut DatabaseManager) -> (r: bool)
        requires
            old(index).wf(),
        ensures
            r == ctl.stop_requested,
            final(index).wf(),
            r ==> final(index).no_orphans() && final(index).inodes@ == old(index).inodes@.filter(
                crate::index::referenced_by(old(index).files@),
            ),
            !r ==> *final(index) == *old(index),
            final(index).files@ == old(index).files@,
    {
        if ctl.stop_requested {
            index.remove_deleted_inodes();
            true
        } else {
            false
        }
    }

    /// After listing `dir`: removes the paths in it that this scan did not confirm.
    pub fn end_dir(&self, index: &mut DatabaseManager, dir: &String) -> (r: usize)
        requires
            old(index).wf(),
        ensures
            final(index).wf(),
            final(index).files@ == old(index).files@.filter(
                crate::index::kept_after_scan(dir@, self.version),
            ),
            final(index).inodes@ == old(index).inodes@,
            final(index).trash@ == old(index).trash@,
    {
        index.remove_deleted_files(dir, self.version)
    }

    /// Closes a completed or stopped scan: removes the identity records left
    /// without a path, and lets a new scan start.
    pub fn finish(&self, ctl: &mut ScanController, index: &mut DatabaseManager)
        requires
            old(index).wf(),
        ensures
            final(index).wf(),
            final(index).no_orphans(),
            final(index).inodes@ == old(index).inodes@.filter(
                crate::index::referenced_by(old(index).files@),
            ),
            final(index).files@ == old(index).files@,
            final(index).trash@ == old(index).trash@,
            !final(ctl).active,
            !final(ctl).status.started,
            final(ctl).status.scanned_file_count == old(ctl).status.scanned_file_count,
    {
        index.remove_deleted_inodes();
        ctl.finish_scan();
    }
}

} // verus!
