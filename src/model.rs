use vstd::prelude::*;

verus! {

/// Filesystem identity and metadata of one physical file.
/// Times are seconds since the Unix epoch.
#[derive(Debug)]
pub struct InodeInfo {
    /// Inode number
    pub inode: u64,
    /// Device ID
    pub dev_id: u64,
    pub permissions: u32,
    pub nlink: u64,
    pub uid: u32,
    pub gid: u32,
    pub created: i64,
    pub modified: i64,
    /// Hex digest of the file content, absent until computed
    pub md5: Option<String>,
    /// File size in bytes
    pub size: u64,
}

/// The view of an optional string: its characters, if present.
pub open spec fn opt_view(s: Option<String>) -> Option<Seq<char>> {
    match s {
        Some(v) => Some(v@),
        None => None,
    }
}

pub fn clone_opt_string(s: &Option<String>) -> (r: Option<String>)
    ensures
        r == *s,
{
    match s {
        Some(v) => Some(v.clone()),
        None => None,
    }
}

impl InodeInfo {
    /// Equality used to detect an unchanged file: every field but the digest.
    pub open spec fn same_spec(&self, o: &InodeInfo) -> bool {
        &&& self.inode == o.inode
        &&& self.dev_id == o.dev_id
        &&& self.permissions == o.permissions
        &&& self.nlink == o.nlink
        &&& self.uid == o.uid
        &&& self.gid == o.gid
        &&& self.created == o.created
        &&& self.modified == o.modified
        &&& self.size == o.size
    }

    pub fn same_as(&self, other: &InodeInfo) -> (r: bool)
        ensures
            r == self.same_spec(other),
    {
        self.inode == other.inode && self.size == other.size && self.dev_id == other.dev_id
            && self.permissions == other.permissions && self.nlink == other.nlink && self.uid
            == other.uid && self.gid == other.gid && self.created == other.created
            && self.modified == other.modified
    }

    pub open spec fn has_md5(&self, h: Seq<char>) -> bool {
        opt_view(self.md5) == Some(h)
    }
}

impl Clone for InodeInfo {
    fn clone(&self) -> (r: Self)
        ensures
            r == *self,
    {
        InodeInfo {
            inode: self.inode,
            dev_id: self.dev_id,
            permissions: self.permissions,
            nlink: self.nlink,
            uid: self.uid,
            gid: self.gid,
            created: self.created,
            modified: self.modified,
            md5: clone_opt_string(&self.md5),
            size: self.size,
        }
    }
}

/// A named location of a file, joined with the identity it points to.
#[derive(Debug)]
pub struct FileInfo {
    pub inode_info: InodeInfo,
    /// Directory containing the file
    pub dir_path: String,
    pub file_name: String,
    /// Lower-cased extension, if the name has one
    pub file_extension: Option<String>,
    /// Version stamp of the scan that last confirmed the path
    pub version: u64,
    /// When the path was last scanned
    pub scan_time: i64,
}

impl Clone for FileInfo {
    fn clone(&self) -> (r: Self)
        ensures
            r == *self,
    {
        FileInfo {
            inode_info: self.inode_info.clone(),
            dir_path: self.dir_path.clone(),
            file_name: self.file_name.clone(),
            file_extension: clone_opt_string(&self.file_extension),
            version: self.version,
            scan_time: self.scan_time,
        }
    }
}

/// A soft-deleted file: where it was, its metadata and its content digest.
#[derive(Debug)]
pub struct TrashFileInfo {
    pub dir_path: String,
    pub file_name: String,
    pub file_extension: Option<String>,
    pub remove_time: i64,
    pub permissions: u32,
    pub uid: u32,
    pub gid: u32,
    pub created: i64,
    pub modified: i64,
    pub md5: String,
    pub size: u64,
}

impl Clone for TrashFileInfo {
    fn clone(&self) -> (r: Self)
        ensures
            r == *self,
    {
        TrashFileInfo {
            dir_path: self.dir_path.clone(),
            file_name: self.file_name.clone(),
            file_extension: clone_opt_string(&self.file_extension),
            remove_time: self.remove_time,
            permissions: self.permissions,
            uid: self.uid,
            gid: self.gid,
            created: self.created,
            modified: self.modified,
            md5: self.md5.clone(),
            size: self.size,
        }
    }
}

/// The extension of a file name, as `std::path::Path::extension` finds it.
pub uninterp spec fn extension_of(name: Seq<char>) -> Option<Seq<char>>;

/// The lower-case form of a string, as `str::to_lowercase` gives it.
pub uninterp spec fn lower_of(s: Seq<char>) -> Seq<char>;

/// The path of `name` inside directory `dir`, as `PathBuf::push` forms it.
pub uninterp spec fn path_in(dir: Seq<char>, name: Seq<char>) -> Seq<char>;

/// Relies on `std::path::Path::extension`: the part of the name after its last
/// dot, if any.
#[verifier::external_body]
fn path_extension(name: &String) -> (r: Option<String>)
    ensures
        opt_view(r) == extension_of(name@),
{
    match std::path::Path::new(name.as_str()).extension() {
        Some(e) => Some(e.to_string_lossy().to_string()),
        None => None,
    }
}

/// Relies on `str::to_lowercase`, which depends on the characters alone.
#[verifier::external_body]
fn to_lower(s: &String) -> (r: String)
    ensures
        r@ == lower_of(s@),
{
    s.to_lowercase()
}

/// Relies on `std::path::PathBuf::push`: `name` joined under `dir`.
#[verifier::external_body]
fn join_path(dir: &String, name: &String) -> (r: String)
    ensures
        r@ == path_in(dir@, name@),
{
    let mut p = std::path::PathBuf::from(dir.as_str());
    p.push(name.as_str());
    p.to_string_lossy().to_string()
}

/// The extension of `name` as written.
pub fn raw_extension(name: &String) -> (r: Option<String>)
    ensures
        opt_view(r) == extension_of(name@),
{
    path_extension(name)
}

/// The lower-cased extension that a file named `name` is stored with.
pub open spec fn stored_extension(name: Seq<char>) -> Option<Seq<char>> {
    match extension_of(name) {
        Some(e) => Some(lower_of(e)),
        None => None,
    }
}

impl FileInfo {
    /// A file at `dir_path`/`file_name` with identity `inode_info`, seen by the
    /// scan with `version` at `scan_time`; its extension is lower-cased.
    pub fn new(
        dir_path: String,
        file_name: String,
        inode_info: InodeInfo,
        version: u64,
        scan_time: i64,
    ) -> (r: FileInfo)
        ensures
            r.inode_info == inode_info,
            r.dir_path == dir_path,
            r.file_name == file_name,
            opt_view(r.file_extension) == stored_extension(file_name@),
            r.version == version,
            r.scan_time == scan_time,
    {
        let file_extension = match path_extension(&file_name) {
            Some(e) => Some(to_lower(&e)),
            None => None,
        };
        FileInfo { inode_info, dir_path, file_name, file_extension, version, scan_time }
    }

    /// The full path of the file.
    pub fn get_file_path(&self) -> (r: String)
        ensures
            r@ == path_in(self.dir_path@, self.file_name@),
    {
        join_path(&self.dir_path, &self.file_name)
    }
}

impl TrashFileInfo {
    /// The path the file had before it was trashed.
    pub fn get_file_path(&self) -> (r: String)
        ensures
            r@ == path_in(self.dir_path@, self.file_name@),
    {
        join_path(&self.dir_path, &self.file_name)
    }
}

/// Machine-readable outcome codes reported to callers.
#[derive(Debug, Clone, Copy, PartialEq, Eq, Structural)]
pub enum ErrorCode {
    Success,
    SystemError,
    FilePathNotFound,
    NotAllowDeleteFile,
    FileChanged,
}

impl ErrorCode {
    pub open spec fn spec_code(self) -> i32 {
        match self {
            ErrorCode::Success => 0,
            ErrorCode::SystemError => 1,
            ErrorCode::FilePathNotFound => 11,
            ErrorCode::NotAllowDeleteFile => 21,
            ErrorCode::FileChanged => 22,
        }
    }

    /// The numeric code.
    pub fn code(&self) -> (r: i32)
        ensures
            r == self.spec_code(),
    {
        match self {
            ErrorCode::Success => 0,
            ErrorCode::SystemError => 1,
            ErrorCode::FilePathNotFound => 11,
            ErrorCode::NotAllowDeleteFile => 21,
            ErrorCode::FileChanged => 22,
        }
    }
}

/// An error with its code and a message for people.
#[derive(Debug)]
pub struct CustomDfsError {
    pub error_code: ErrorCode,
    pub message: String,
}

impl CustomDfsError {
    pub fn new(error_code: ErrorCode, message: String) -> (r: CustomDfsError)
        ensures
            r.error_code == error_code,
            r.message == message,
    {
        CustomDfsError { error_code, message }
    }
}

/// Request to delete one file.
#[derive(Debug, Clone)]
pub struct DeleteFileRequest {
    pub dir_path: String,
    pub file_name: String,
    /// Delete for good instead of moving to the trash
    pub delete_permanently: Option<bool>,
    /// Delete even when no live duplicate remains
    pub force_delete: Option<bool>,
}

#[derive(Debug, Clone)]
pub struct DeleteFilePath {
    pub dir_path: String,
    pub file_name: String,
}

#[derive(Debug, Clone)]
pub struct DeleteFilesRequest {
    pub files: Vec<DeleteFilePath>,
    pub delete_permanently: Option<bool>,
    pub force_delete: Option<bool>,
}

#[derive(Debug, Clone)]
pub struct DeleteTrashFileRequest {
    pub dir_path: String,
    pub file_name: String,
}

#[derive(Debug, Clone)]
pub struct DeleteTrashFilePath {
    pub dir_path: String,
    pub file_name: String,
}

#[derive(Debug, Clone)]
pub struct DeleteTrashFilesRequest {
    pub files: Vec<DeleteTrashFilePath>,
}

#[derive(Debug, Clone)]
pub struct RestoreTrashFileRequest {
    pub dir_path: String,
    pub file_name: String,
}

#[derive(Debug, Clone)]
pub struct RestoreTrashFilePath {
    pub dir_path: String,
    pub file_name: String,
}

#[derive(Debug, Clone)]
pub struct RestoreTrashFilesRequest {
    pub files: Vec<RestoreTrashFilePath>,
}

} // verus!
