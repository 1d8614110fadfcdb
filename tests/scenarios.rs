use dup_file_remover::delete::{check_delete, count_live_duplicates, expiry_cutoff, DeletePlan};
use dup_file_remover::hash::{content_hash, ContentHasher};
use dup_file_remover::index::{FileRow, DatabaseManager, IndexError, InodeRow};
use dup_file_remover::model::{raw_extension, CustomDfsError, ErrorCode, FileInfo, InodeInfo};
use dup_file_remover::query::{ListSettings, SortField, TrashListSettings};
use dup_file_remover::scan::{
    EntryAction, ScanController, ScanFileOutcome, ScanJob, ScanSettings, StartOutcome,
};
use dup_file_remover::settings::{SystemSettings, UserSettings};
use dup_file_remover::text::contains_text;

const H1: &str = "5d41402abc4b2a76b9719d911017c592";
const H2: &str = "7d793037a0760186574b0282f2f435e7";

fn inode(ino: u64, size: u64, md5: Option<&str>) -> InodeInfo {
    InodeInfo {
        inode: ino,
        dev_id: 7,
        permissions: 0o100644,
        nlink: 1,
        uid: 1000,
        gid: 1000,
        created: 1_000,
        modified: 2_000,
        md5: md5.map(|s| s.to_string()),
        size,
    }
}

fn file(dir: &str, name: &str, ino: u64, size: u64, md5: Option<&str>) -> FileInfo {
    FileInfo::new(dir.to_string(), name.to_string(), inode(ino, size, md5), 1, 10)
}

fn dup_query() -> ListSettings {
    ListSettings { min_md5_count: Some(1), ..Default::default() }
}

#[test]
fn trash_and_restore_scenario() {
    let mut index = DatabaseManager::new();
    index.insert_file_info(&file("/data", "a.txt", 1, 5, Some(H1))).unwrap();
    index.insert_file_info(&file("/data", "b.txt", 2, 5, Some(H1))).unwrap();

    let listed = index.list_files(&ListSettings::default()).unwrap();
    assert_eq!(listed.total_count, 2);
    assert!(listed.file_info_list.iter().all(|e| e.md5_count == 2));

    // delete a.txt through the trash
    let a = index.get_file_by_path(&"/data".to_string(), &"a.txt".to_string()).unwrap();
    let group = index.get_file_list_by_md5(&H1.to_string());
    let now: Vec<Option<InodeInfo>> = group.iter().map(|g| Some(g.inode_info.clone())).collect();
    let alive = count_live_duplicates(&a, &group, &now);
    assert_eq!(alive, 1);
    assert_eq!(
        check_delete(&a, &Some(a.inode_info.clone()), alive, false, false, false),
        Ok(DeletePlan::MoveToTrash)
    );
    index.move_file_to_trash(&a, 500).unwrap();
    assert_eq!(index.trash.len(), 1);
    assert_eq!(index.count_trash_by_md5(&H1.to_string()), 1);
    let listed = index.list_files(&dup_query()).unwrap();
    assert_eq!(listed.total_count, 1);
    assert_eq!(listed.file_info_list[0].file_info.file_name, "b.txt");
    assert_eq!(listed.file_info_list[0].md5_count, 1);

    // b.txt is no longer duplicated
    let b = index.get_file_by_path(&"/data".to_string(), &"b.txt".to_string()).unwrap();
    let group = index.get_file_list_by_md5(&H1.to_string());
    let now: Vec<Option<InodeInfo>> = group.iter().map(|g| Some(g.inode_info.clone())).collect();
    let alive = count_live_duplicates(&b, &group, &now);
    assert_eq!(alive, 0);
    assert_eq!(
        check_delete(&b, &Some(b.inode_info.clone()), alive, false, false, true),
        Err(ErrorCode::NotAllowDeleteFile)
    );

    // restore a.txt: the trash object had one reference, so it goes
    let t = index.get_trash_file_by_path(&"/data".to_string(), &"a.txt".to_string()).unwrap();
    assert_eq!(t.permissions, 0o100644);
    let last_reference = index.restore_trash_file_by_path(&t, &inode(3, 5, None), 700).unwrap();
    assert!(last_reference);
    assert_eq!(index.trash.len(), 0);
    let back = index.get_file_by_path(&"/data".to_string(), &"a.txt".to_string()).unwrap();
    assert_eq!(back.inode_info.md5.as_deref(), Some(H1));
    assert_eq!(back.inode_info.inode, 3);
    let listed = index.list_files(&ListSettings::default()).unwrap();
    assert_eq!(listed.total_count, 2);
    assert!(listed.file_info_list.iter().all(|e| e.md5_count == 2));
}

#[test]
fn stop_before_any_file() {
    let mut index = DatabaseManager::new();
    let mut ctl = ScanController::new();
    assert_eq!(ctl.start_scan(ScanSettings::default(), true, 100), StartOutcome::Accepted);
    assert!(ctl.status.started);
    ctl.stop_scan();
    let job = ScanJob::new("/data".to_string(), 100, "/data/dfr_trash".to_string());
    assert!(job.check_stop(&ctl, &mut index));
    ctl.finish_scan();
    assert!(!ctl.status.started);
    assert!(!ctl.active);
    assert_eq!(index.files.len(), 0);
    assert_eq!(index.inodes.len(), 0);
}

#[test]
fn second_start_conflicts() {
    let mut ctl = ScanController::new();
    assert_eq!(ctl.start_scan(ScanSettings::default(), true, 100), StartOutcome::Accepted);
    assert_eq!(ctl.start_scan(ScanSettings::default(), true, 200), StartOutcome::Conflict);
    assert!(ctl.active);
    assert!(ctl.status.started);
    assert_eq!(ctl.status.start_time, Some(100));
    ctl.finish_scan();
    assert_eq!(ctl.start_scan(ScanSettings::default(), false, 300), StartOutcome::PathNotFound);
    assert!(!ctl.active);
}

#[test]
fn rescan_of_unchanged_file_needs_no_hash() {
    let mut index = DatabaseManager::new();
    let mut ctl = ScanController::new();
    let settings = ScanSettings::default();
    let seen = file("/data", "a.txt", 1, 5, None);
    assert_eq!(index.scan_file(&mut ctl, &settings, &seen), ScanFileOutcome::NeedsHash);
    let hashed = file("/data", "a.txt", 1, 5, Some(H1));
    index.insert_file_info(&hashed).unwrap();
    let files_before = format!("{:?}", index.files);
    let inodes_before = format!("{:?}", index.inodes);
    assert_eq!(index.scan_file(&mut ctl, &settings, &seen), ScanFileOutcome::Unchanged);
    assert_eq!(format!("{:?}", index.files), files_before);
    assert_eq!(format!("{:?}", index.inodes), inodes_before);
    assert_eq!(ctl.status.scanned_file_count, 2);
}

#[test]
fn scan_filters_skip_files() {
    let mut index = DatabaseManager::new();
    let mut ctl = ScanController::new();
    let settings = ScanSettings {
        scan_path: "/data".to_string(),
        include_file_extensions: Some(vec!["txt".to_string()]),
        min_file_size: Some(10),
        max_file_size: Some(100),
    };
    let small = file("/data", "a.txt", 1, 5, None);
    assert_eq!(index.scan_file(&mut ctl, &settings, &small), ScanFileOutcome::Skipped);
    let big = file("/data", "b.txt", 2, 101, None);
    assert_eq!(index.scan_file(&mut ctl, &settings, &big), ScanFileOutcome::Skipped);
    let edge = file("/data", "c.txt", 3, 100, None);
    assert_eq!(index.scan_file(&mut ctl, &settings, &edge), ScanFileOutcome::NeedsHash);
    let other = file("/data", "d.TXT", 4, 50, None);
    assert_eq!(index.scan_file(&mut ctl, &settings, &other), ScanFileOutcome::Skipped);
    assert_eq!(ctl.status.scanned_file_count, 1);
}

#[test]
fn hardlinks_share_one_record() {
    let mut index = DatabaseManager::new();
    index.insert_file_info(&file("/data", "a.txt", 9, 5, Some(H1))).unwrap();
    index.insert_file_info(&file("/data/x", "link.txt", 9, 5, Some(H1))).unwrap();
    assert_eq!(index.inodes.len(), 1);
    assert_eq!(index.files.len(), 2);
    assert_eq!(index.files[0].inode_id, index.files[1].inode_id);
    // removing one path keeps the record for the other
    index.remove_file_by_path(&"/data".to_string(), &"a.txt".to_string()).unwrap();
    assert_eq!(index.inodes.len(), 1);
    index.remove_file_by_path(&"/data/x".to_string(), &"link.txt".to_string()).unwrap();
    assert_eq!(index.inodes.len(), 0);
}

#[test]
fn deleted_file_detected_on_rescan() {
    let mut index = DatabaseManager::new();
    index.insert_file_info(&file("/data", "a.txt", 1, 5, Some(H1))).unwrap();
    index.insert_file_info(&file("/data", "b.txt", 2, 5, Some(H1))).unwrap();
    // the second scan (version 2) only confirms b.txt
    let removed_version = index.update_version(&"/data".to_string(), &"b.txt".to_string(), 2);
    assert_eq!(removed_version, 1);
    let job = ScanJob::new("/data".to_string(), 2, "/trash".to_string());
    assert_eq!(job.end_dir(&mut index, &"/data".to_string()), 1);
    assert_eq!(index.inodes.len(), 2);
    let mut ctl = ScanController::new();
    ctl.start_scan(ScanSettings::default(), true, 2);
    job.finish(&mut ctl, &mut index);
    assert!(!ctl.status.started);
    assert!(index.get_file_by_path(&"/data".to_string(), &"a.txt".to_string()).is_err());
    assert_eq!(index.files.len(), 1);
    assert_eq!(index.inodes.len(), 1);
}

#[test]
fn group_counts_follow_paths() {
    let mut index = DatabaseManager::new();
    index.insert_file_info(&file("/data", "a.txt", 1, 5, Some(H1))).unwrap();
    index.insert_file_info(&file("/data", "b.txt", 2, 5, Some(H1))).unwrap();
    index.insert_file_info(&file("/data/sub", "c.txt", 3, 5, Some(H1))).unwrap();
    index.insert_file_info(&file("/data", "d.txt", 4, 8, Some(H2))).unwrap();
    let listed = index.list_files(&ListSettings::default()).unwrap();
    assert_eq!(listed.total_count, 3);
    assert!(listed.file_info_list.iter().all(|e| e.md5_count == 3 && e.filter_md5_count.is_none()));

    // scoped to /data/sub: the files elsewhere that duplicate it show too
    let scoped = ListSettings {
        dir_path: Some("/data/sub".to_string()),
        filter_dup_file_by_dir_path: Some(true),
        ..Default::default()
    };
    let listed = index.list_files(&scoped).unwrap();
    assert_eq!(listed.total_count, 3);
    assert!(listed.file_info_list.iter().all(|e| e.filter_md5_count == Some(1)));

    // size ordering, ascending, with groups of one admitted
    let by_size = ListSettings {
        min_md5_count: None,
        order_by: Some(SortField::Size),
        order_asc: Some(true),
        ..Default::default()
    };
    let listed = index.list_files(&by_size).unwrap();
    assert_eq!(listed.total_count, 4);
    let sizes: Vec<u64> = listed.file_info_list.iter().map(|e| e.file_info.inode_info.size).collect();
    assert_eq!(sizes, vec![5, 5, 5, 8]);

    // page 2 of pages of 3
    let page2 = ListSettings { min_md5_count: None, page_no: 2, page_count: 3, ..Default::default() };
    let listed = index.list_files(&page2).unwrap();
    assert_eq!(listed.total_count, 4);
    assert_eq!(listed.file_info_list.len(), 1);
    assert_eq!(listed.file_info_list[0].file_info.file_name, "d.txt");
}

#[test]
fn list_filters_by_name_and_extension() {
    let mut index = DatabaseManager::new();
    index.insert_file_info(&file("/data", "Photo.JPG", 1, 5, Some(H1))).unwrap();
    index.insert_file_info(&file("/data", "photo-copy.jpg", 2, 5, Some(H1))).unwrap();
    index.insert_file_info(&file("/data", "notes.txt", 3, 5, Some(H1))).unwrap();
    let q = ListSettings {
        file_extension_list: Some(vec!["jpg".to_string()]),
        ..Default::default()
    };
    assert_eq!(index.list_files(&q).unwrap().total_count, 2);
    let q = ListSettings { file_name: Some("copy".to_string()), ..Default::default() };
    assert_eq!(index.list_files(&q).unwrap().total_count, 1);
    let q = ListSettings { md5: Some(H2.to_string()), ..Default::default() };
    assert_eq!(index.list_files(&q).unwrap().total_count, 0);
    let q = ListSettings { max_md5_count: Some(3), ..Default::default() };
    assert_eq!(index.list_files(&q).unwrap().total_count, 0);
}

#[test]
fn trash_reference_counting() {
    let mut index = DatabaseManager::new();
    index.insert_file_info(&file("/data", "a.txt", 1, 5, Some(H1))).unwrap();
    index.insert_file_info(&file("/data", "b.txt", 2, 5, Some(H1))).unwrap();
    index.insert_file_info(&file("/data", "c.txt", 3, 5, Some(H1))).unwrap();
    let a = index.get_file_by_path(&"/data".to_string(), &"a.txt".to_string()).unwrap();
    let b = index.get_file_by_path(&"/data".to_string(), &"b.txt".to_string()).unwrap();
    index.move_file_to_trash(&a, 100).unwrap();
    index.move_file_to_trash(&b, 100).unwrap();
    assert_eq!(index.trash.len(), 2);
    assert_eq!(index.count_trash_by_md5(&H1.to_string()), 2);
    let ta = index.trash[0].clone();
    let tb = index.trash[1].clone();
    assert!(!index.clear_trash_entry(&ta, true));
    assert_eq!(index.count_trash_by_md5(&H1.to_string()), 1);
    assert!(index.clear_trash_entry(&tb, true));
    assert_eq!(index.trash.len(), 0);
}

#[test]
fn missing_trash_object_drops_all_its_records() {
    let mut index = DatabaseManager::new();
    index.insert_file_info(&file("/data", "a.txt", 1, 5, Some(H1))).unwrap();
    index.insert_file_info(&file("/data", "b.txt", 2, 5, Some(H1))).unwrap();
    let a = index.get_file_by_path(&"/data".to_string(), &"a.txt".to_string()).unwrap();
    let b = index.get_file_by_path(&"/data".to_string(), &"b.txt".to_string()).unwrap();
    index.move_file_to_trash(&a, 100).unwrap();
    index.move_file_to_trash(&b, 100).unwrap();
    let ta = index.trash[0].clone();
    assert!(!index.clear_trash_entry(&ta, false));
    assert_eq!(index.trash.len(), 0);
}

#[test]
fn trash_listing_and_expiry() {
    let mut index = DatabaseManager::new();
    index.insert_file_info(&file("/data", "a.txt", 1, 50, Some(H1))).unwrap();
    index.insert_file_info(&file("/data", "b.txt", 2, 5, Some(H2))).unwrap();
    let a = index.get_file_by_path(&"/data".to_string(), &"a.txt".to_string()).unwrap();
    let b = index.get_file_by_path(&"/data".to_string(), &"b.txt".to_string()).unwrap();
    index.move_file_to_trash(&a, 100).unwrap();
    index.move_file_to_trash(&b, 300).unwrap();
    let all = index.list_trash_files(&TrashListSettings::default()).unwrap();
    assert_eq!(all.total_count, 2);
    assert_eq!(all.trash_file_info_list[0].file_name, "a.txt");
    let q = TrashListSettings { end_removed_time: Some(200), ..Default::default() };
    let old = index.list_trash_files(&q).unwrap();
    assert_eq!(old.total_count, 1);
    assert_eq!(old.trash_file_info_list[0].file_name, "a.txt");
    let q = TrashListSettings { order_by: Some(SortField::Size), order_asc: Some(true), ..Default::default() };
    let sorted = index.list_trash_files(&q).unwrap();
    assert_eq!(sorted.trash_file_info_list[0].file_name, "b.txt");
    let cutoff = expiry_cutoff(400, 150);
    assert_eq!(cutoff, 250);
    let expired = index.expired_trash(cutoff);
    assert_eq!(expired.len(), 1);
    assert_eq!(expired[0].file_name, "a.txt");
    assert_eq!(expiry_cutoff(i64::MIN + 5, 10), i64::MIN);
}

#[test]
fn index_error_variants() {
    let mut index = DatabaseManager::new();
    assert_eq!(
        index.get_file_by_path(&"/x".to_string(), &"y".to_string()).unwrap_err(),
        IndexError::NotFound
    );
    assert_eq!(
        index.remove_file_by_path(&"/x".to_string(), &"y".to_string()),
        Err(IndexError::NotFound)
    );
    let unhashed = file("/data", "a.txt", 1, 5, None);
    index.insert_file_info(&unhashed).unwrap();
    assert_eq!(index.move_file_to_trash(&unhashed, 1), Err(IndexError::MissingHash));
    let q = ListSettings { page_no: 0, ..Default::default() };
    assert!(matches!(index.list_files(&q), Err(IndexError::InvalidQuery)));
    let q = ListSettings { filter_dup_file_by_dir_path: Some(true), ..Default::default() };
    assert!(matches!(index.list_files(&q), Err(IndexError::InvalidQuery)));
    let q = TrashListSettings { page_count: 0, ..Default::default() };
    assert!(matches!(index.list_trash_files(&q), Err(IndexError::InvalidQuery)));
    index.next_id = u64::MAX;
    assert_eq!(
        index.insert_file_info(&file("/data", "b.txt", 2, 5, None)),
        Err(IndexError::IdExhausted)
    );
    assert_eq!(index.files.len(), 1);
}

#[test]
fn delete_checks() {
    let stored = file("/data", "a.txt", 1, 5, Some(H1));
    assert_eq!(check_delete(&stored, &None, 0, false, false, false), Ok(DeletePlan::PurgeStale));
    let changed = inode(1, 6, None);
    assert_eq!(
        check_delete(&stored, &Some(changed), 3, false, false, false),
        Err(ErrorCode::FileChanged)
    );
    let unhashed = file("/data", "a.txt", 1, 5, None);
    assert_eq!(
        check_delete(&unhashed, &Some(inode(1, 5, None)), 3, false, false, false),
        Err(ErrorCode::SystemError)
    );
    assert_eq!(
        check_delete(&stored, &Some(inode(1, 5, None)), 0, true, false, false),
        Ok(DeletePlan::MoveToTrash)
    );
    assert_eq!(
        check_delete(&stored, &Some(inode(1, 5, None)), 1, false, false, true),
        Ok(DeletePlan::DropIntoTrash)
    );
    assert_eq!(
        check_delete(&stored, &Some(inode(1, 5, None)), 1, false, true, true),
        Ok(DeletePlan::RemovePermanently)
    );
    let group = vec![stored.clone(), file("/data", "b.txt", 2, 5, Some(H1)), file("/data", "c.txt", 3, 5, Some(H1))];
    let now = vec![Some(inode(1, 5, None)), None, Some(inode(3, 9, None))];
    assert_eq!(count_live_duplicates(&stored, &group, &now), 0);
}

#[test]
fn error_codes_and_errors() {
    assert_eq!(ErrorCode::Success.code(), 0);
    assert_eq!(ErrorCode::SystemError.code(), 1);
    assert_eq!(ErrorCode::FilePathNotFound.code(), 11);
    assert_eq!(ErrorCode::NotAllowDeleteFile.code(), 21);
    assert_eq!(ErrorCode::FileChanged.code(), 22);
    let e = CustomDfsError::new(ErrorCode::FileChanged, "changed".to_string());
    assert_eq!(e.error_code, ErrorCode::FileChanged);
    assert_eq!(e.message, "changed");
}

#[test]
fn content_hash_is_md5() {
    assert_eq!(content_hash(b"hello"), H1);
    assert_eq!(content_hash(b""), "d41d8cd98f00b204e9800998ecf8427e");
    let mut h = ContentHasher::new();
    h.update(b"hel");
    h.update(b"lo");
    assert_eq!(h.finish(), H1);
}

#[test]
fn names_and_paths() {
    let f = file("/data", "Photo.JPG", 1, 5, None);
    assert_eq!(f.file_extension.as_deref(), Some("jpg"));
    assert_eq!(raw_extension(&f.file_name).as_deref(), Some("JPG"));
    assert_eq!(file("/data", "README", 1, 5, None).file_extension, None);
    assert_eq!(f.get_file_path(), "/data/Photo.JPG");
    assert!(contains_text(&"/data/sub/x".to_string(), &"sub".to_string()));
    assert!(!contains_text(&"/data".to_string(), &"sub".to_string()));
    assert!(contains_text(&"abc".to_string(), &"".to_string()));
}

#[test]
fn scan_job_queue() {
    let mut job = ScanJob::new("/data".to_string(), 5, "/data/trash".to_string());
    assert_eq!(job.on_subdir("/data/trash".to_string()), EntryAction::Ignored);
    assert_eq!(job.on_subdir("/data/a".to_string()), EntryAction::Queued);
    assert_eq!(job.next_dir(), Some("/data/a".to_string()));
    assert_eq!(job.next_dir(), Some("/data".to_string()));
    assert_eq!(job.next_dir(), None);
    let mut trash_root = ScanJob::new("/t".to_string(), 5, "/t".to_string());
    assert_eq!(trash_root.next_dir(), None);
}

#[test]
fn defaults() {
    let s = SystemSettings::default();
    assert_eq!(s.port, 8081);
    assert_eq!(s.trash_path, "data/dfr_trash");
    assert_eq!(s.clear_trash_interval_s, 2592000);
    assert_eq!(UserSettings::default().login_user_name, "admin");
    assert_eq!(ScanSettings::default().scan_path, "data/");
    let blank = ScanSettings { scan_path: "  \t".to_string(), ..Default::default() };
    assert_eq!(blank.resolved_path(), "data/");
    let given = ScanSettings { scan_path: "/srv".to_string(), ..Default::default() };
    assert_eq!(given.resolved_path(), "/srv");
    let l = ListSettings::default();
    assert_eq!((l.page_no, l.page_count, l.min_md5_count), (1, 20, Some(2)));
}

#[test]
fn default_order_breaks_ties_by_size() {
    let mut index = DatabaseManager::new();
    index.insert_file_info(&file("/data", "s1", 1, 5, Some(H1))).unwrap();
    index.insert_file_info(&file("/data", "s2", 2, 5, Some(H1))).unwrap();
    index.insert_file_info(&file("/data", "b1", 3, 9, Some(H2))).unwrap();
    index.insert_file_info(&file("/data", "b2", 4, 9, Some(H2))).unwrap();
    index.insert_file_info(&file("/data", "b3", 5, 9, Some(H2))).unwrap();
    index.insert_file_info(&file("/data", "x1", 6, 20, Some("ffffffffffffffffffffffffffffffff"))).unwrap();
    index.insert_file_info(&file("/data", "x2", 7, 20, Some("ffffffffffffffffffffffffffffffff"))).unwrap();
    let listed = index.list_files(&ListSettings::default()).unwrap();
    let got: Vec<(usize, u64)> = listed
        .file_info_list
        .iter()
        .map(|e| (e.md5_count, e.file_info.inode_info.size))
        .collect();
    assert_eq!(got, vec![(3, 9), (3, 9), (3, 9), (2, 20), (2, 20), (2, 5), (2, 5)]);
    let by_count_asc = ListSettings {
        order_by: Some(SortField::Md5Count),
        order_asc: Some(true),
        ..Default::default()
    };
    let listed = index.list_files(&by_count_asc).unwrap();
    let got: Vec<(usize, u64)> = listed
        .file_info_list
        .iter()
        .map(|e| (e.md5_count, e.file_info.inode_info.size))
        .collect();
    assert_eq!(got, vec![(2, 20), (2, 20), (2, 5), (2, 5), (3, 9), (3, 9), (3, 9)]);
}

#[test]
fn rows_are_checked_when_loaded() {
    let row = |id: u64, ino: u64| InodeRow { id, info: inode(ino, 5, Some(H1)) };
    let path = |id: u64, name: &str| FileRow {
        inode_id: id,
        dir_path: "/data".to_string(),
        file_name: name.to_string(),
        file_extension: None,
        version: 1,
        scan_time: 0,
    };
    let ok = DatabaseManager::from_rows(vec![row(4, 1), row(9, 2)], vec![path(4, "a"), path(9, "b")], vec![]).unwrap();
    assert_eq!(ok.next_id, 10);
    assert!(matches!(
        DatabaseManager::from_rows(vec![row(4, 1), row(4, 2)], vec![], vec![]),
        Err(IndexError::InvalidRows)
    ));
    assert!(matches!(
        DatabaseManager::from_rows(vec![row(4, 1), row(5, 1)], vec![], vec![]),
        Err(IndexError::InvalidRows)
    ));
    assert!(matches!(
        DatabaseManager::from_rows(vec![row(4, 1)], vec![path(7, "a")], vec![]),
        Err(IndexError::InvalidRows)
    ));
    assert!(matches!(
        DatabaseManager::from_rows(vec![row(4, 1)], vec![path(4, "a"), path(4, "a")], vec![]),
        Err(IndexError::InvalidRows)
    ));
    assert!(matches!(
        DatabaseManager::from_rows(vec![row(u64::MAX, 1)], vec![], vec![]),
        Err(IndexError::InvalidRows)
    ));
}

#[test]
fn stored_digest_is_content_digest() {
    let mut index = DatabaseManager::new();
    let mut hasher = ContentHasher::new();
    hasher.update(b"hello");
    index.insert_hashed(&file("/data", "a.txt", 1, 5, None), hasher).unwrap();
    let stored = index.get_file_by_path(&"/data".to_string(), &"a.txt".to_string()).unwrap();
    assert_eq!(stored.inode_info.md5, Some(content_hash(b"hello")));
}

#[test]
fn filtered_file_keeps_its_record() {
    let mut index = DatabaseManager::new();
    index.insert_file_info(&file("/data", "a.txt", 1, 5, Some(H1))).unwrap();
    let mut ctl = ScanController::new();
    let settings = ScanSettings {
        scan_path: "/data".to_string(),
        include_file_extensions: Some(vec!["jpg".to_string()]),
        min_file_size: None,
        max_file_size: None,
    };
    let mut seen = file("/data", "a.txt", 1, 5, None);
    seen.version = 2;
    assert_eq!(index.scan_file(&mut ctl, &settings, &seen), ScanFileOutcome::Skipped);
    assert_eq!(ctl.status.scanned_file_count, 0);
    let job = ScanJob::new("/data".to_string(), 2, "/trash".to_string());
    assert_eq!(job.end_dir(&mut index, &"/data".to_string()), 0);
    job.finish(&mut ctl, &mut index);
    let kept = index.get_file_by_path(&"/data".to_string(), &"a.txt".to_string()).unwrap();
    assert_eq!(kept.version, 2);
    assert_eq!(kept.inode_info.md5.as_deref(), Some(H1));
    assert_eq!(index.inodes.len(), 1);
}

#[test]
fn restore_replaces_a_stale_digest() {
    let mut index = DatabaseManager::new();
    index.insert_file_info(&file("/data", "a.txt", 1, 5, Some(H1))).unwrap();
    index.insert_file_info(&file("/data", "b.txt", 2, 5, Some(H1))).unwrap();
    let a = index.get_file_by_path(&"/data".to_string(), &"a.txt".to_string()).unwrap();
    index.move_file_to_trash(&a, 100).unwrap();
    let t = index.trash[0].clone();
    // the restored copy has the identity of a file stored with another digest
    index.insert_file_info(&file("/other", "c.txt", 9, 5, Some(H2))).unwrap();
    assert!(index.restore_trash_file_by_path(&t, &inode(9, 5, None), 5).unwrap());
    let back = index.get_file_by_path(&"/data".to_string(), &"a.txt".to_string()).unwrap();
    assert_eq!(back.inode_info.md5.as_deref(), Some(H1));
    assert_eq!(back.version, 0);
    assert_eq!(index.trash.len(), 0);
}

#[test]
fn rescanning_an_unchanged_tree_changes_versions_only() {
    let mut index = DatabaseManager::new();
    let mut ctl = ScanController::new();
    let settings = ScanSettings::default();
    let names = ["a.txt", "b.txt", "c.bin"];
    for (i, name) in names.iter().enumerate() {
        index.insert_file_info(&file("/data", name, 1 + i as u64, 5, Some(H1))).unwrap();
    }
    let inodes_before = format!("{:?}", index.inodes);
    for (i, name) in names.iter().enumerate() {
        let mut seen = file("/data", name, 1 + i as u64, 5, None);
        seen.version = 9;
        assert_eq!(index.scan_file(&mut ctl, &settings, &seen), ScanFileOutcome::Unchanged);
    }
    let job = ScanJob::new("/data".to_string(), 9, "/trash".to_string());
    assert_eq!(job.end_dir(&mut index, &"/data".to_string()), 0);
    job.finish(&mut ctl, &mut index);
    assert_eq!(format!("{:?}", index.inodes), inodes_before);
    assert!(index.files.iter().all(|f| f.version == 9));
    assert_eq!(index.files.len(), 3);
}
