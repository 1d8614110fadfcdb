use vstd::prelude::*;
use crate::query::{ListSettings, TrashListSettings};

verus! {

/// Settings of the service around the index.
#[derive(Debug, Clone)]
pub struct SystemSettings {
    pub config_file_path: String,
    pub db_path: String,
    pub enable_ipv6: bool,
    pub port: u16,
    pub listen_addr_ipv4: String,
    pub listen_addr_ipv6: String,
    pub log_level: String,
    pub default_scan_path: String,
    /// How long a trash record is kept, in seconds
    pub clear_trash_interval_s: u32,
    /// Directory of the content-addressed trash objects
    pub trash_path: String,
}

impl Default for SystemSettings {
    fn default() -> (r: Self)
        ensures
            r.config_file_path@ == "conf/config"@,
            r.db_path@ == "conf/dfremover.db"@,
            r.enable_ipv6,
            r.port == 8081,
            r.listen_addr_ipv4@ == "0.0.0.0"@,
            r.listen_addr_ipv6@ == "::"@,
            r.log_level@ == "info"@,
            r.default_scan_path@ == "data/"@,
            r.clear_trash_interval_s == 2592000,
            r.trash_path@ == "data/dfr_trash"@,
    {
        SystemSettings {
            config_file_path: "conf/config".to_owned(),
            db_path: "conf/dfremover.db".to_owned(),
            enable_ipv6: true,
            port: 8081,
            listen_addr_ipv4: "0.0.0.0".to_owned(),
            listen_addr_ipv6: "::".to_owned(),
            log_level: "info".to_owned(),
            default_scan_path: "data/".to_owned(),
            clear_trash_interval_s: 2592000,
            trash_path: "data/dfr_trash".to_owned(),
        }
    }
}

/// The login of the service's single user.
#[derive(Debug, Clone)]
pub struct UserSettings {
    pub login_user_name: String,
    pub login_password: String,
}

impl Default for UserSettings {
    fn default() -> (r: Self)
        ensures
            r.login_user_name@ == "admin"@,
            r.login_password@ == "password"@,
    {
        UserSettings { login_user_name: "admin".to_owned(), login_password: "password".to_owned() }
    }
}

impl Default for ListSettings {
    /// First page of 20, groups of at least two.
    fn default() -> (r: Self)
        ensures
            r.page_no == 1,
            r.page_count == 20,
            r.min_file_size is None,
            r.max_file_size is None,
            r.dir_path is None,
            r.file_name is None,
            r.file_extension is None,
            r.file_extension_list is None,
            r.md5 is None,
            r.start_created_time is None,
            r.end_created_time is None,
            r.start_modified_time is None,
            r.end_modified_time is None,
            r.min_md5_count == Some(2i64),
            r.max_md5_count is None,
            r.order_by is None,
            r.order_asc is None,
            r.filter_dup_file_by_dir_path is None,
    {
        ListSettings {
            page_no: 1,
            page_count: 20,
            min_file_size: None,
            max_file_size: None,
            dir_path: None,
            file_name: None,
            file_extension: None,
            file_extension_list: None,
            md5: None,
            start_created_time: None,
            end_created_time: None,
            start_modified_time: None,
            end_modified_time: None,
            min_md5_count: Some(2),
            max_md5_count: None,
            order_by: None,
            order_asc: None,
            filter_dup_file_by_dir_path: None,
        }
    }
}

impl Default for TrashListSettings {
    /// First page of 20, no filter.
    fn default() -> (r: Self)
        ensures
            r.page_no == 1,
            r.page_count == 20,
            r.min_file_size is None,
            r.max_file_size is None,
            r.dir_path is None,
            r.file_name is None,
            r.file_extension is None,
            r.file_extension_list is None,
            r.md5 is None,
            r.start_created_time is None,
            r.end_created_time is None,
            r.start_modified_time is None,
            r.end_modified_time is None,
            r.start_removed_time is None,
            r.end_removed_time is None,
            r.order_by is None,
            r.order_asc is None,
    {
        TrashListSettings {
            page_no: 1,
            page_count: 20,
            min_file_size: None,
            max_file_size: None,
            dir_path: None,
            file_name: None,
            file_extension: None,
            file_extension_list: None,
            md5: None,
            start_created_time: None,
            end_created_time: None,
            start_modified_time: None,
            end_modified_time: None,
            start_removed_time: None,
            end_removed_time: None,
            order_by: None,
            order_asc: None,
        }
    }
}

} // verus!
