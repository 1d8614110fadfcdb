use vstd::prelude::*;
use crate::model::{FileInfo, TrashFileInfo};
use crate::index::{DatabaseManager, IndexError};
use crate::text::{is_substring, contains_text, list_contains};
use crate::order::{sorted_by, strict_order, insert_sorted};

verus! {

#[derive(Debug, Clone, Copy, PartialEq, Eq, Structural)]
pub enum SortField {
    /// By size, then by group size, largest first
    Size,
    /// By group size, then by size, largest first
    Md5Count,
}

/// Filters, order and page of a duplicate listing.
#[derive(Debug)]
pub struct ListSettings {
    /// Page number, from 1
    pub page_no: i64,
    /// Page size, at least 1
    pub page_count: i64,
    /// Smallest size kept (inclusive)
    pub min_file_size: Option<i64>,
    /// Size bound (exclusive)
    pub max_file_size: Option<i64>,
    /// Substring of the directory path; in scoped mode, the directory of interest
    pub dir_path: Option<String>,
    /// Substring of the file name
    pub file_name: Option<String>,
    /// Substring of the extension
    pub file_extension: Option<String>,
    /// Extensions kept
    pub file_extension_list: Option<Vec<String>>,
    /// Content digest kept
    pub md5: Option<String>,
    pub start_created_time: Option<i64>,
    pub end_created_time: Option<i64>,
    pub start_modified_time: Option<i64>,
    pub end_modified_time: Option<i64>,
    /// Smallest group size kept (inclusive)
    pub min_md5_count: Option<i64>,
    /// Group size bound (exclusive)
    pub max_md5_count: Option<i64>,
    pub order_by: Option<SortField>,
    /// Ascending when true; descending by default
    pub order_asc: Option<bool>,
    /// Scoped mode: keep files, anywhere, whose group has a member under `dir_path`
    pub filter_dup_file_by_dir_path: Option<bool>,
}

/// A listed file with the size of its duplicate group, and in scoped mode the
/// number of group members under the directory of interest.
#[derive(Debug)]
pub struct FileInfoWithMd5Count {
    pub file_info: FileInfo,
    pub md5_count: usize,
    pub filter_md5_count: Option<usize>,
}

#[derive(Debug)]
pub struct FileInfoList {
    pub file_info_list: Vec<FileInfoWithMd5Count>,
    pub total_count: u64,
}

pub open spec fn size_in(min: Option<i64>, max: Option<i64>, size: u64) -> bool {
    &&& min is Some ==> size as int >= min->Some_0 as int
    &&& max is Some ==> (size as int) < max->Some_0 as int
}

pub open spec fn time_in(start: Option<i64>, end: Option<i64>, t: i64) -> bool {
    &&& start is Some ==> t >= start->Some_0
    &&& end is Some ==> t <= end->Some_0
}

pub open spec fn text_like(filter: Option<String>, field: Seq<char>) -> bool {
    filter is Some ==> is_substring(filter->Some_0@, field)
}

pub open spec fn ext_like(filter: Option<String>, ext: Option<String>) -> bool {
    filter is Some ==> ext is Some && is_substring(filter->Some_0@, ext->Some_0@)
}

pub open spec fn ext_listed(list: Option<Vec<String>>, ext: Option<String>) -> bool {
    list is Some ==> ext is Some && exists|k: int|
        0 <= k < list->Some_0@.len() && #[trigger] list->Some_0@[k]@ == ext->Some_0@
}

impl ListSettings {
    pub open spec fn scoped(&self) -> bool {
        self.filter_dup_file_by_dir_path == Some(true)
    }

    pub open spec fn valid(&self) -> bool {
        &&& self.page_no >= 1
        &&& self.page_count >= 1
        &&& self.scoped() ==> self.dir_path is Some
    }
}

/// Member of group `h` as counted: digest `h` and size within the size filter.
pub open spec fn in_group(q: ListSettings, h: Seq<char>, f: FileInfo) -> bool {
    f.inode_info.has_md5(h) && size_in(q.min_file_size, q.max_file_size, f.inode_info.size)
}

/// Member of group `h` under the directory of interest.
pub open spec fn in_scope(q: ListSettings, h: Seq<char>, f: FileInfo) -> bool {
    in_group(q, h, f) && is_substring(q.dir_path->Some_0@, f.dir_path@)
}

pub open spec fn group_count(js: Seq<FileInfo>, q: ListSettings, h: Seq<char>) -> nat {
    js.filter(|f: FileInfo| in_group(q, h, f)).len()
}

pub open spec fn scope_count(js: Seq<FileInfo>, q: ListSettings, h: Seq<char>) -> nat {
    js.filter(|f: FileInfo| in_scope(q, h, f)).len()
}

pub open spec fn digest(f: FileInfo) -> Seq<char> {
    f.inode_info.md5->Some_0@
}

/// Whether stored file `f` is listed by `q`, among all stored files `js`.
pub open spec fn row_selected(js: Seq<FileInfo>, q: ListSettings, f: FileInfo) -> bool {
    &&& f.inode_info.md5 is Some
    &&& size_in(q.min_file_size, q.max_file_size, f.inode_info.size)
    &&& if q.scoped() {
        scope_count(js, q, digest(f)) >= 1
    } else {
        text_like(q.dir_path, f.dir_path@)
    }
    &&& text_like(q.file_name, f.file_name@)
    &&& ext_like(q.file_extension, f.file_extension)
    &&& ext_listed(q.file_extension_list, f.file_extension)
    &&& q.md5 is Some ==> q.md5->Some_0@ == digest(f)
    &&& time_in(q.start_created_time, q.end_created_time, f.inode_info.created)
    &&& time_in(q.start_modified_time, q.end_modified_time, f.inode_info.modified)
    &&& q.min_md5_count is Some ==> group_count(js, q, digest(f)) >= q.min_md5_count->Some_0
    &&& q.max_md5_count is Some ==> group_count(js, q, digest(f)) < q.max_md5_count->Some_0
}

pub open spec fn entry_of(js: Seq<FileInfo>, q: ListSettings, f: FileInfo) -> FileInfoWithMd5Count {
    FileInfoWithMd5Count {
        file_info: f,
        md5_count: group_count(js, q, digest(f)) as usize,
        filter_md5_count: if q.scoped() {
            Some(scope_count(js, q, digest(f)) as usize)
        } else {
            None
        },
    }
}

/// Every listed entry, in storage order, before sorting and paging.
pub open spec fn selected_entries(js: Seq<FileInfo>, q: ListSettings) -> Seq<FileInfoWithMd5Count> {
    js.filter(|f: FileInfo| row_selected(js, q, f)).map_values(|f: FileInfo| entry_of(js, q, f))
}

/// Whether entry `a` is listed strictly before `b`. By default: larger group
/// first, then larger size. With a sort field, that field first, in the
/// direction asked (descending unless ascending is asked), then the other one,
/// largest first.
pub open spec fn entry_before(q: ListSettings, a: FileInfoWithMd5Count, b: FileInfoWithMd5Count) -> bool {
    let (sa, sb) = (a.file_info.inode_info.size as int, b.file_info.inode_info.size as int);
    let (ca, cb) = (a.md5_count as int, b.md5_count as int);
    let asc = q.order_asc == Some(true);
    match q.order_by {
        Some(SortField::Size) => if asc {
            sa < sb || (sa == sb && ca > cb)
        } else {
            sa > sb || (sa == sb && ca > cb)
        },
        Some(SortField::Md5Count) => if asc {
            ca < cb || (ca == cb && sa > sb)
        } else {
            ca > cb || (ca == cb && sa > sb)
        },
        None => ca > cb || (ca == cb && sa > sb),
    }
}

/// Page `page_no` (from 1) of `page_count` elements of `s`.
pub open spec fn page_of<A>(s: Seq<A>, page_no: int, page_count: int) -> Seq<A> {
    let start = (page_no - 1) * page_count;
    if start >= s.len() {
        Seq::empty()
    } else if start + page_count >= s.len() {
        s.subrange(start, s.len() as int)
    } else {
        s.subrange(start, start + page_count)
    }
}

fn page<A>(v: Vec<A>, page_no: i64, page_count: i64) -> (r: Vec<A>)
    requires
        page_no >= 1,
        page_count >= 1,
    ensures
        r@ == page_of(v@, page_no as int, page_count as int),
{
    let mut v = v;
    let a = (page_no - 1) as u128;
    let b = page_count as u128;
    assert(a * b <= 0x4000_0000_0000_0000_0000_0000_0000_0000u128) by (nonlinear_arith)
        requires
            a < 0x8000_0000_0000_0000u128,
            b < 0x8000_0000_0000_0000u128,
    ;
    let start: u128 = a * b;
    if start >= v.len() as u128 {
        return Vec::new();
    }
    let mut rest = v.split_off(start as usize);
    if start + page_count as u128 <= v.len() as u128 + rest.len() as u128 {
        rest.truncate(page_count as usize);
    }
    rest
}

impl DatabaseManager {
    /// Every path record joined with its identity, in storage order.
    pub open spec fn joined_all(&self) -> Seq<FileInfo> {
        self.files@.map_values(|r| self.joined(r))
    }

    pub fn all_joined(&self) -> (r: Vec<FileInfo>)
        requires
            self.wf(),
        ensures
            r@ == self.joined_all(),
    {
        let mut out: Vec<FileInfo> = Vec::new();
        let mut i: usize = 0;
        while i < self.files.len()
            invariant
                self.wf(),
                i <= self.files@.len(),
                out@ == self.files@.subrange(0, i as int).map_values(|r| self.joined(r)),
            decreases self.files@.len() - i,
        {
            let f = self.joined_at(i);
            out.push(f);
            i = i + 1;
            assert(out@ =~= self.files@.subrange(0, i as int).map_values(|r| self.joined(r)));
        }
        assert(self.files@.subrange(0, i as int) =~= self.files@);
        out
    }

    /// The duplicate listing: the page asked of every stored file that `q`
    /// selects, ordered as `entry_before` says, with its group counts, and the
    /// number of files selected.
    pub fn list_files(&self, q: &ListSettings) -> (r: Result<FileInfoList, IndexError>)
        requires
            self.wf(),
        ensures
            !q.valid() ==> r == Err::<FileInfoList, IndexError>(IndexError::InvalidQuery),
            q.valid() ==> r is Ok,
            r is Ok ==> {
                let m = selected_entries(self.joined_all(), *q);
                &&& r->Ok_0.total_count == m.len()
                &&& exists|ordered: Seq<FileInfoWithMd5Count>|
                    {
                        &&& ordered.to_multiset() == m.to_multiset()
                        &&& sorted_by(ordered, |a, b| entry_before(*q, a, b))
                        &&& r->Ok_0.file_info_list@ == page_of(
                            ordered,
                            q.page_no as int,
                            q.page_count as int,
                        )
                    }
            },
    {
        if q.page_no < 1 || q.page_count < 1 {
            return Err(IndexError::InvalidQuery);
        }
        let scoped = match q.filter_dup_file_by_dir_path {
            Some(b) => b,
            None => false,
        };
        if scoped && q.dir_path.is_none() {
            return Err(IndexError::InvalidQuery);
        }
        let js = self.all_joined();
        let ghost jv = js@;
        let ghost sel = |f: FileInfo| row_selected(jv, *q, f);
        let ghost ent = |f: FileInfo| entry_of(jv, *q, f);
        let ghost bf = |a, b| entry_before(*q, a, b);
        let mut sorted: Vec<FileInfoWithMd5Count> = Vec::new();
        proof {
            reveal(Seq::filter);
            broadcast use vstd::seq_lib::group_to_multiset_ensures;
            assert(jv.subrange(0, 0).filter(sel) =~= Seq::<FileInfo>::empty());
            assert(jv.subrange(0, 0).filter(sel).map_values(ent) =~= Seq::<FileInfoWithMd5Count>::empty());
            assert(sorted@ =~= Seq::<FileInfoWithMd5Count>::empty());
        }
        let mut i: usize = 0;
        while i < js.len()
            invariant
                js@ == jv,
                i <= jv.len(),
                q.valid(),
                scoped == q.scoped(),
                sel == (|f: FileInfo| row_selected(jv, *q, f)),
                ent == (|f: FileInfo| entry_of(jv, *q, f)),
                bf == (|a, b| entry_before(*q, a, b)),
                sorted@.to_multiset() == jv.subrange(0, i as int).filter(sel).map_values(ent).to_multiset(),
                sorted@.len() == jv.subrange(0, i as int).filter(sel).len(),
                sorted_by(sorted@, bf),
            decreases jv.len() - i,
        {
            let ghost t = jv.subrange(0, i + 1);
            let ghost prev = jv.subrange(0, i as int);
            proof {
                reveal(Seq::filter);
                assert(t.drop_last() =~= prev);
                assert(t.last() == jv[i as int]);
            }
            let f = &js[i];
            let picked = select_entry(&js, q, f, scoped);
            match picked {
                Some(e) => {
                    let ghost ee = e;
                    let cmp = (|a: &FileInfoWithMd5Count, b: &FileInfoWithMd5Count| -> (r: bool)
                        ensures
                            r == entry_before(*q, *a, *b),
                        { before_exec(q, a, b) });
                    insert_sorted(&mut sorted, e, cmp, Ghost(bf));
                    proof {
                        broadcast use vstd::seq_lib::group_to_multiset_ensures;
                        assert(t.filter(sel) == prev.filter(sel).push(jv[i as int]));
                        assert(t.filter(sel).map_values(ent) =~= prev.filter(sel).map_values(ent).push(ee));
                    }
                },
                None => {
                    proof {
                        assert(t.filter(sel) == prev.filter(sel));
                    }
                },
            }
            i = i + 1;
        }
        proof {
            assert(jv.subrange(0, jv.len() as int) =~= jv);
        }
        let total = sorted.len() as u64;
        let ghost ordered = sorted@;
        let list = page(sorted, q.page_no, q.page_count);
        Ok(FileInfoList { file_info_list: list, total_count: total })
    }
}

fn before_exec(q: &ListSettings, a: &FileInfoWithMd5Count, b: &FileInfoWithMd5Count) -> (r: bool)
    ensures
        r == entry_before(*q, *a, *b),
{
    let sa = a.file_info.inode_info.size;
    let sb = b.file_info.inode_info.size;
    let ca = a.md5_count;
    let cb = b.md5_count;
    let asc = match q.order_asc {
        Some(x) => x,
        None => false,
    };
    match q.order_by {
        Some(SortField::Size) => if asc {
            sa < sb || (sa == sb && ca > cb)
        } else {
            sa > sb || (sa == sb && ca > cb)
        },
        Some(SortField::Md5Count) => if asc {
            ca < cb || (ca == cb && sa > sb)
        } else {
            ca > cb || (ca == cb && sa > sb)
        },
        None => ca > cb || (ca == cb && sa > sb),
    }
}

/// Group size and, in scoped mode, in-scope group size of digest `h`.
fn count_group(js: &Vec<FileInfo>, q: &ListSettings, h: &String, scoped: bool) -> (r: (usize, usize))
    requires
        scoped ==> q.dir_path is Some,
    ensures
        r.0 == group_count(js@, *q, h@),
        scoped ==> r.1 == scope_count(js@, *q, h@),
{
    let ghost pg = |f: FileInfo| in_group(*q, h@, f);
    let ghost ps = |f: FileInfo| in_scope(*q, h@, f);
    let mut g: usize = 0;
    let mut s: usize = 0;
    let mut i: usize = 0;
    while i < js.len()
        invariant
            i <= js@.len(),
            scoped ==> q.dir_path is Some,
            pg == (|f: FileInfo| in_group(*q, h@, f)),
            ps == (|f: FileInfo| in_scope(*q, h@, f)),
            g == js@.subrange(0, i as int).filter(pg).len(),
            scoped ==> s == js@.subrange(0, i as int).filter(ps).len(),
            g <= i,
            s <= i,
        decreases js@.len() - i,
    {
        let ghost t = js@.subrange(0, i + 1);
        proof {
            reveal(Seq::filter);
            assert(t.drop_last() =~= js@.subrange(0, i as int));
            assert(t.last() == js@[i as int]);
        }
        let f = &js[i];
        let hit = DatabaseManager::md5_matches(&f.inode_info, h) && size_ok(q.min_file_size, q.max_file_size, f.inode_info.size);
        if hit {
            g = g + 1;
            if scoped {
                let d = match &q.dir_path {
                    Some(d) => d,
                    None => {
                        return (0, 0);
                    },
                };
                if contains_text(&f.dir_path, d) {
                    s = s + 1;
                }
            }
        }
        i = i + 1;
    }
    proof {
        assert(js@.subrange(0, js@.len() as int) =~= js@);
    }
    (g, s)
}

fn size_ok(min: Option<i64>, max: Option<i64>, size: u64) -> (r: bool)
    ensures
        r == size_in(min, max, size),
{
    let lo = match min {
        Some(m) => size as i128 >= m as i128,
        None => true,
    };
    let hi = match max {
        Some(m) => (size as i128) < m as i128,
        None => true,
    };
    lo && hi
}

fn time_ok(start: Option<i64>, end: Option<i64>, t: i64) -> (r: bool)
    ensures
        r == time_in(start, end, t),
{
    let lo = match start {
        Some(s) => t >= s,
        None => true,
    };
    let hi = match end {
        Some(e) => t <= e,
        None => true,
    };
    lo && hi
}

fn text_ok(filter: &Option<String>, field: &String) -> (r: bool)
    ensures
        r == text_like(*filter, field@),
{
    match filter {
        Some(x) => contains_text(field, x),
        None => true,
    }
}

fn ext_ok(filter: &Option<String>, list: &Option<Vec<String>>, ext: &Option<String>) -> (r: bool)
    ensures
        r == (ext_like(*filter, *ext) && ext_listed(*list, *ext)),
{
    let like = match filter {
        Some(x) => match ext {
            Some(e) => contains_text(e, x),
            None => false,
        },
        None => true,
    };
    let listed = match list {
        Some(l) => match ext {
            Some(e) => list_contains(l, e),
            None => false,
        },
        None => true,
    };
    like && listed
}

fn count_ok(min: Option<i64>, max: Option<i64>, n: usize) -> (r: bool)
    ensures
        r == ((min is Some ==> n >= min->Some_0) && (max is Some ==> n < max->Some_0)),
{
    let lo = match min {
        Some(m) => n as i128 >= m as i128,
        None => true,
    };
    let hi = match max {
        Some(m) => (n as i128) < m as i128,
        None => true,
    };
    lo && hi
}

/// The entry of `f` when `q` selects it.
fn select_entry(js: &Vec<FileInfo>, q: &ListSettings, f: &FileInfo, scoped: bool) -> (r: Option<
    FileInfoWithMd5Count,
>)
    requires
        scoped == q.scoped(),
        scoped ==> q.dir_path is Some,
    ensures
        r is Some <==> row_selected(js@, *q, *f),
        r is Some ==> r->Some_0 == entry_of(js@, *q, *f),
{
    let h = match &f.inode_info.md5 {
        Some(h) => h,
        None => {
            return None;
        },
    };
    if !size_ok(q.min_file_size, q.max_file_size, f.inode_info.size) {
        return None;
    }
    let (g, s) = count_group(js, q, h, scoped);
    if scoped {
        if s < 1 {
            return None;
        }
    } else if !text_ok(&q.dir_path, &f.dir_path) {
        return None;
    }
    if !text_ok(&q.file_name, &f.file_name) || !ext_ok(&q.file_extension, &q.file_extension_list, &f.file_extension) {
        return None;
    }
    let md5_ok = match &q.md5 {
        Some(m) => m.eq(h),
        None => true,
    };
    if !md5_ok || !time_ok(q.start_created_time, q.end_created_time, f.inode_info.created)
        || !time_ok(q.start_modified_time, q.end_modified_time, f.inode_info.modified)
        || !count_ok(q.min_md5_count, q.max_md5_count, g) {
        return None;
    }
    Some(
        FileInfoWithMd5Count {
            file_info: f.clone(),
            md5_count: g,
            filter_md5_count: if scoped {
                Some(s)
            } else {
                None
            },
        },
    )
}

/// Filters, order and page of a trash listing.
#[derive(Debug)]
pub struct TrashListSettings {
    pub page_no: i64,
    pub page_count: i64,
    pub min_file_size: Option<i64>,
    pub max_file_size: Option<i64>,
    pub dir_path: Option<String>,
    pub file_name: Option<String>,
    pub file_extension: Option<String>,
    pub file_extension_list: Option<Vec<String>>,
    pub md5: Option<String>,
    pub start_created_time: Option<i64>,
    pub end_created_time: Option<i64>,
    pub start_modified_time: Option<i64>,
    pub end_modified_time: Option<i64>,
    pub start_removed_time: Option<i64>,
    pub end_removed_time: Option<i64>,
    pub order_by: Option<SortField>,
    pub order_asc: Option<bool>,
}

#[derive(Debug)]
pub struct TrashFileInfoList {
    pub trash_file_info_list: Vec<TrashFileInfo>,
    pub total_count: u64,
}

pub open spec fn trash_selected(q: TrashListSettings, t: TrashFileInfo) -> bool {
    &&& size_in(q.min_file_size, q.max_file_size, t.size)
    &&& text_like(q.dir_path, t.dir_path@)
    &&& text_like(q.file_name, t.file_name@)
    &&& ext_like(q.file_extension, t.file_extension)
    &&& ext_listed(q.file_extension_list, t.file_extension)
    &&& q.md5 is Some ==> q.md5->Some_0@ == t.md5@
    &&& time_in(q.start_created_time, q.end_created_time, t.created)
    &&& time_in(q.start_modified_time, q.end_modified_time, t.modified)
    &&& time_in(q.start_removed_time, q.end_removed_time, t.remove_time)
}

/// Whether trash record `a` is listed strictly before `b`: by size when asked,
/// descending unless ascending is asked; otherwise storage order is kept (trash
/// records have no group size).
pub open spec fn trash_before(q: TrashListSettings, a: TrashFileInfo, b: TrashFileInfo) -> bool {
    match q.order_by {
        Some(SortField::Md5Count) => false,
        Some(SortField::Size) => if q.order_asc == Some(true) {
            a.size < b.size
        } else {
            a.size > b.size
        },
        None => false,
    }
}

impl TrashListSettings {
    pub open spec fn valid(&self) -> bool {
        self.page_no >= 1 && self.page_count >= 1
    }
}

fn trash_before_exec(q: &TrashListSettings, a: &TrashFileInfo, b: &TrashFileInfo) -> (r: bool)
    ensures
        r == trash_before(*q, *a, *b),
{
    match q.order_by {
        Some(SortField::Size) => {
            let asc = match q.order_asc {
                Some(x) => x,
                None => false,
            };
            if asc {
                a.size < b.size
            } else {
                a.size > b.size
            }
        },
        Some(SortField::Md5Count) => false,
        None => false,
    }
}

fn trash_selected_exec(q: &TrashListSettings, t: &TrashFileInfo) -> (r: bool)
    ensures
        r == trash_selected(*q, *t),
{
    let md5_ok = match &q.md5 {
        Some(m) => m.eq(&t.md5),
        None => true,
    };
    size_ok(q.min_file_size, q.max_file_size, t.size) && text_ok(&q.dir_path, &t.dir_path)
        && text_ok(&q.file_name, &t.file_name) && ext_ok(
        &q.file_extension,
        &q.file_extension_list,
        &t.file_extension,
    ) && md5_ok && time_ok(q.start_created_time, q.end_created_time, t.created) && time_ok(
        q.start_modified_time,
        q.end_modified_time,
        t.modified,
    ) && time_ok(q.start_removed_time, q.end_removed_time, t.remove_time)
}

impl DatabaseManager {
    /// The trash listing: the page asked of every trash record that `q` selects,
    /// ordered as `trash_before` says, and the number of records selected.
    pub fn list_trash_files(&self, q: &TrashListSettings) -> (r: Result<TrashFileInfoList, IndexError>)
        ensures
            !q.valid() ==> r == Err::<TrashFileInfoList, IndexError>(IndexError::InvalidQuery),
            q.valid() ==> r is Ok,
            r is Ok ==> {
                let m = self.trash@.filter(|t: TrashFileInfo| trash_selected(*q, t));
                &&& r->Ok_0.total_count == m.len()
                &&& exists|ordered: Seq<TrashFileInfo>|
                    {
                        &&& ordered.to_multiset() == m.to_multiset()
                        &&& sorted_by(ordered, |a, b| trash_before(*q, a, b))
                        &&& r->Ok_0.trash_file_info_list@ == page_of(
                            ordered,
                            q.page_no as int,
                            q.page_count as int,
                        )
                    }
                &&& q.order_by != Some(SortField::Size) ==> r->Ok_0.trash_file_info_list@ == page_of(
                    m,
                    q.page_no as int,
                    q.page_count as int,
                )
            },
    {
        if q.page_no < 1 || q.page_count < 1 {
            return Err(IndexError::InvalidQuery);
        }
        let ghost tv = self.trash@;
        let ghost sel = |t: TrashFileInfo| trash_selected(*q, t);
        let ghost bf = |a, b| trash_before(*q, a, b);
        let mut sorted: Vec<TrashFileInfo> = Vec::new();
        proof {
            reveal(Seq::filter);
            broadcast use vstd::seq_lib::group_to_multiset_ensures;
            assert(tv.subrange(0, 0).filter(sel) =~= Seq::<TrashFileInfo>::empty());
            assert(sorted@ =~= Seq::<TrashFileInfo>::empty());
        }
        let mut i: usize = 0;
        while i < self.trash.len()
            invariant
                self.trash@ == tv,
                i <= tv.len(),
                q.valid(),
                sel == (|t: TrashFileInfo| trash_selected(*q, t)),
                bf == (|a, b| trash_before(*q, a, b)),
                sorted@.to_multiset() == tv.subrange(0, i as int).filter(sel).to_multiset(),
                sorted@.len() == tv.subrange(0, i as int).filter(sel).len(),
                sorted_by(sorted@, bf),
                q.order_by != Some(SortField::Size) ==> sorted@ == tv.subrange(0, i as int).filter(sel),
            decreases tv.len() - i,
        {
            let ghost t = tv.subrange(0, i + 1);
            let ghost prev = tv.subrange(0, i as int);
            proof {
                reveal(Seq::filter);
                assert(t.drop_last() =~= prev);
                assert(t.last() == tv[i as int]);
            }
            if trash_selected_exec(q, &self.trash[i]) {
                let e = self.trash[i].clone();
                let cmp = (|a: &TrashFileInfo, b: &TrashFileInfo| -> (r: bool)
                    ensures
                        r == trash_before(*q, *a, *b),
                    { trash_before_exec(q, a, b) });
                insert_sorted(&mut sorted, e, cmp, Ghost(bf));
                proof {
                    broadcast use vstd::seq_lib::group_to_multiset_ensures;
                    assert(t.filter(sel) == prev.filter(sel).push(tv[i as int]));
                }
            } else {
                proof {
                    assert(t.filter(sel) == prev.filter(sel));
                }
            }
            i = i + 1;
        }
        proof {
            assert(tv.subrange(0, tv.len() as int) =~= tv);
        }
        let total = sorted.len() as u64;
        let list = page(sorted, q.page_no, q.page_count);
        Ok(TrashFileInfoList { trash_file_info_list: list, total_count: total })
    }
}

} // verus!
