use dup_file_remover::index::DatabaseManager;
use dup_file_remover::model::{FileInfo, InodeInfo};
use dup_file_remover::query::ListSettings;

fn sample_inode(inode: u64, size: u64, md5: Option<&str>) -> InodeInfo {
    InodeInfo {
        inode,
        dev_id: 2049,
        permissions: 0o100644,
        nlink: 1,
        uid: 1000,
        gid: 1000,
        created: 1_700_000_000,
        modified: 1_700_000_100,
        md5: md5.map(|s| s.to_string()),
        size,
    }
}

#[test]
fn test_create_sqlite() {
    let mut index = DatabaseManager::new();
    let file_info = FileInfo::new(
        "/work".to_string(),
        "dfremover.db".to_string(),
        sample_inode(11, 4096, Some("0123456789abcdef0123456789abcdef")),
        1,
        1_700_000_200,
    );
    assert!(index.insert_file_info(&file_info).is_ok());
    println!("file_name: {}", file_info.file_name);
    assert_eq!(index.files.len(), 1);
    assert_eq!(index.inodes.len(), 1);
    assert_eq!(file_info.file_extension.as_deref(), Some("db"));
}

#[test]
fn test_list_files() {
    let mut index = DatabaseManager::new();
    for (i, name) in ["a.txt", "b.txt"].iter().enumerate() {
        let f = FileInfo::new(
            "/data".to_string(),
            name.to_string(),
            sample_inode(20 + i as u64, 500, Some("aaaabbbbccccddddaaaabbbbccccdddd")),
            1,
            0,
        );
        index.insert_file_info(&f).unwrap();
    }
    let query_list_params = ListSettings {
        page_no: 1,
        page_count: 100,
        min_file_size: Some(100),
        max_file_size: Some(1000),
        ..Default::default()
    };
    let result = index.list_files(&query_list_params);
    assert!(result.is_ok());
    let files = result.unwrap();
    println!("Total file count: {}", files.total_count);
    for (index, file) in files.file_info_list.iter().enumerate() {
        println!(
            "DatabaseManager: {}, md5 count: {}, file info: {:?}",
            index, file.md5_count, file.file_info
        );
    }
    assert_eq!(files.total_count, 2);
}
