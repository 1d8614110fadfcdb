use vstd::prelude::*;
use md5::Digest;
use crate::model::FileInfo;
use crate::index::{DatabaseManager, IndexError, with_md5};

verus! {

/// An MD5 hasher of the md-5 crate. Verus cannot take md-5's hasher type in a
/// declaration, so the hasher is held out of its sight.
#[verifier::external_body]
pub struct Md5State {
    inner: md5::Md5,
}

/// The bytes fed so far to an MD5 hasher.
pub uninterp spec fn md5_fed(h: Md5State) -> Seq<u8>;

/// Lower-case hex MD5 digest of `data`.
pub uninterp spec fn md5_hex(data: Seq<u8>) -> Seq<char>;

/// Relies on `Md5::new` (digest's `Digest::new`): a hasher that has been fed nothing.
#[verifier::external_body]
fn md5_new() -> (r: Md5State)
    ensures
        md5_fed(r) == Seq::<u8>::empty(),
{
    Md5State { inner: md5::Md5::new() }
}

/// Relies on `Md5::update` (digest's `Digest::update`): feeds `chunk` after what
/// the hasher already holds.
#[verifier::external_body]
fn md5_update(h: &mut Md5State, chunk: &[u8])
    ensures
        md5_fed(*final(h)) == md5_fed(*old(h)) + chunk@,
{
    h.inner.update(chunk)
}

/// Relies on `Md5::finalize` (digest's `Digest::finalize`) and on the `LowerHex`
/// format of its 16-byte output: the digest of everything fed, as 32 lower-case
/// hex digits.
#[verifier::external_body]
fn md5_finish(h: Md5State) -> (r: String)
    ensures
        r@ == md5_hex(md5_fed(h)),
        r@.len() == 32,
{
    format!("{:x}", h.inner.finalize())
}

/// Streams content through MD5 without holding it.
pub struct ContentHasher {
    state: Md5State,
}

impl ContentHasher {
    /// The content fed so far.
    pub closed spec fn fed(&self) -> Seq<u8> {
        md5_fed(self.state)
    }

    pub fn new() -> (r: ContentHasher)
        ensures
            r.fed() == Seq::<u8>::empty(),
    {
        ContentHasher { state: md5_new() }
    }

    pub fn update(&mut self, chunk: &[u8])
        ensures
            final(self).fed() == old(self).fed() + chunk@,
    {
        md5_update(&mut self.state, chunk);
    }

    /// The hex digest of the whole content fed.
    pub fn finish(self) -> (r: String)
        ensures
            r@ == md5_hex(self.fed()),
            r@.len() == 32,
    {
        md5_finish(self.state)
    }
}

/// The hex digest of `data` fed in one piece.
pub fn content_hash(data: &[u8]) -> (r: String)
    ensures
        r@ == md5_hex(data@),
        r@.len() == 32,
{
    let mut h = ContentHasher::new();
    h.update(data);
    assert(Seq::<u8>::empty() + data@ =~= data@);
    h.finish()
}

impl DatabaseManager {
    /// Stores file `f` with the digest of the content fed to `hasher` (the file's
    /// bytes, read after its metadata), as `insert_file_info` stores.
    pub fn insert_hashed(&mut self, f: &FileInfo, hasher: ContentHasher) -> (r: Result<(), IndexError>)
        requires
            old(self).wf(),
        ensures
            final(self).wf(),
            final(self).trash@ == old(self).trash@,
            exists|d: String|
                d@ == md5_hex(hasher.fed()) && #[trigger] old(self).insert_outcome(
                    with_md5(*f, d),
                    r,
                    *final(self),
                ),
    {
        let d = hasher.finish();
        let g = FileInfo {
            inode_info: crate::model::InodeInfo { md5: Some(d), ..f.inode_info.clone() },
            dir_path: f.dir_path.clone(),
            file_name: f.file_name.clone(),
            file_extension: crate::model::clone_opt_string(&f.file_extension),
            version: f.version,
            scan_time: f.scan_time,
        };
        assert(g == with_md5(*f, d));
        self.insert_file_info(&g)
    }
}

} // verus!
