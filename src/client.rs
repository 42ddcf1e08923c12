use crate::conn::{copy_bytes, DAOSConn, Handle};
use crate::enumerate::MAX_KEY_INDEX;
use crate::error::FsError;
use crate::record::{
    attrs_of, decode_inode, encode_inode, record_at, record_bytes, record_readable, root_attrs,
    root_attrs_spec, FileAttrs, InodeEntry, RECORD_BUF_LEN,
};
use crate::registry::{
    alloc_inum, insert_first, InodeCounter, InodeInfo, InodeRegistry, ObjectId, FIRST_FREE_INUM,
    ROOT_INODE_NUMBER,
};
use vstd::prelude::*;

verus! {

/// Index, in the container's reserved root-object list, of the object that
/// backs the root directory.
pub const ROOT_OID_SLOT: usize = 1;

/// Relies on libc::S_IFMT, the mask of the file-type bits of a mode.
#[verifier::external_body]
fn file_type_mask() -> (r: u32)
    ensures
        r == 0o170000,
{
    libc::S_IFMT
}

/// Relies on libc::S_IFREG, the file-type bits of a regular file.
#[verifier::external_body]
fn regular_file_type() -> (r: u32)
    ensures
        r == 0o100000,
{
    libc::S_IFREG
}

/// A mode that names a regular file.
pub open spec fn is_regular_mode(mode: u32) -> bool {
    mode & 0o170000u32 == 0o100000u32
}

/// What a single-value fetch of an entry's record returned.
#[derive(Debug)]
pub enum FetchOutcome {
    /// The store reported that no such key exists.
    Missing,
    /// The store reported any other failure.
    Failed,
    /// The fetch succeeded but filled in no value.
    NoValue,
    /// The fetch returned this value.
    Value(Vec<u8>),
}

/// The result that a fetch outcome gives: the decoded record, or an error.
pub open spec fn fetch_result(f: FetchOutcome) -> Result<InodeEntry, FsError> {
    match f {
        FetchOutcome::Missing => Err(FsError::NotFound),
        FetchOutcome::Failed => Err(FsError::Io),
        FetchOutcome::NoValue => Err(FsError::NotFound),
        FetchOutcome::Value(b) => if b@.len() > RECORD_BUF_LEN || !record_readable(b@) {
            Err(FsError::Io)
        } else {
            Ok(record_at(b@))
        },
    }
}

/// Where the attributes of an inode come from.
#[derive(Debug)]
pub enum AttrSource {
    /// The root directory, whose attributes are fixed.
    Root(FileAttrs),
    /// A record listed under `name` in the object `parent_oid`.
    Record { parent_oid: ObjectId, name: Vec<u8> },
}

/// How an open file is to be treated by the transport.
#[derive(Debug, Clone, Copy, PartialEq, Eq, Structural)]
pub struct OpenFlags {
    /// Reads bypass any cache.
    pub direct_io: bool,
    /// The file is not seekable.
    pub nonseekable: bool,
}

/// The registry entry that a sighting of record `rec` under key `name` of
/// directory object `dir` records.
pub open spec fn sighting_matches(info: InodeInfo, rec: InodeEntry, dir: ObjectId, name: Seq<u8>) -> bool {
    &&& info.oid == ObjectId { lo: rec.oid_lo, hi: rec.oid_hi }
    &&& info.parent_oid == dir
    &&& info.name@ == name
}

/// The record that `create` writes for a new entry.
pub open spec fn new_record(mode: u32, inum: u64, now: u64) -> InodeEntry {
    InodeEntry {
        mode,
        oid_lo: 0,
        oid_hi: 0,
        atime: now,
        mtime: now,
        ctime: now,
        crtime: now,
        uid: 0,
        gid: 0,
        inum,
        chunk_size: 0,
    }
}

/// Attributes of the entry whose record fetch gave `fetch`.
pub fn record_attrs(fetch: &FetchOutcome) -> (res: Result<FileAttrs, FsError>)
    ensures
        match fetch_result(*fetch) {
            Ok(rec) => res == Ok::<FileAttrs, FsError>(attrs_of(rec)),
            Err(e) => res == Err::<FileAttrs, FsError>(e),
        },
{
    let rec = fetched_entry(fetch)?;
    Ok(rec.to_attrs())
}

/// Maps a fetch outcome to the decoded record or an error. A value larger
/// than the fetch buffer, or one that does not decode, is an I/O fault.
pub fn fetched_entry(fetch: &FetchOutcome) -> (res: Result<InodeEntry, FsError>)
    ensures
        res == fetch_result(*fetch),
{
    match fetch {
        FetchOutcome::Missing => Err(FsError::NotFound),
        FetchOutcome::Failed => Err(FsError::Io),
        FetchOutcome::NoValue => Err(FsError::NotFound),
        FetchOutcome::Value(b) => {
            if b.len() > RECORD_BUF_LEN {
                return Err(FsError::Io);
            }
            match decode_inode(b.as_slice()) {
                Ok((rec, _)) => Ok(rec),
                Err(e) => Err(e),
            }
        },
    }
}

/// The filesystem state shared by all operations: the store connection, the
/// inode registry and the source of fresh inode numbers.
pub struct FUSEClient {
    daos_conn: Box<DAOSConn>,
    ino_obj_map: InodeRegistry,
    counter: InodeCounter,
}

impl FUSEClient {
    /// The inode registry.
    pub closed spec fn inodes(&self) -> Map<u64, InodeInfo> {
        self.ino_obj_map@
    }

    /// The number the next created entry receives.
    pub closed spec fn next_inum(&self) -> u64 {
        self.counter.next_inum()
    }

    pub closed spec fn conn(&self) -> DAOSConn {
        *self.daos_conn
    }

    pub closed spec fn wf(&self) -> bool {
        self.counter.wf()
    }

    pub fn new(daos_conn: Box<DAOSConn>) -> (c: FUSEClient)
        ensures
            c.wf(),
            c.inodes() == Map::<u64, InodeInfo>::empty(),
            c.next_inum() == FIRST_FREE_INUM,
            c.conn() == *daos_conn,
    {
        FUSEClient { daos_conn, ino_obj_map: InodeRegistry::new(), counter: InodeCounter::new() }
    }

    pub fn daos_conn(&self) -> (r: &DAOSConn)
        ensures
            *r == self.conn(),
    {
        &self.daos_conn
    }

    /// Gives up the connection's handles for release (container, then pool).
    pub fn release_connection(&mut self) -> (r: (Option<Handle>, Option<Handle>))
        ensures
            r == (old(self).conn().container(), old(self).conn().pool()),
            final(self).conn().pool() is None,
            final(self).conn().container() is None,
            final(self).inodes() == old(self).inodes(),
            final(self).next_inum() == old(self).next_inum(),
            final(self).wf() == old(self).wf(),
    {
        self.daos_conn.take_handles()
    }

    pub fn get_inode(&self, ino: u64) -> (r: Option<&InodeInfo>)
        ensures
            match r {
                Some(info) => self.inodes().contains_key(ino) && *info == self.inodes()[ino],
                None => !self.inodes().contains_key(ino),
            },
    {
        self.ino_obj_map.get(ino)
    }

    /// Records `info` for `ino` unless `ino` is already known.
    pub fn insert_inode(&mut self, ino: u64, info: InodeInfo) -> (inserted: bool)
        ensures
            final(self).inodes() == insert_first(old(self).inodes(), ino, info),
            inserted == !old(self).inodes().contains_key(ino),
            final(self).next_inum() == old(self).next_inum(),
            final(self).wf() == old(self).wf(),
            final(self).conn() == old(self).conn(),
    {
        self.ino_obj_map.insert(ino, info)
    }

    /// The root directory's object, when already known; `None` means the
    /// container's root-object list must be queried first.
    pub fn open_root(&self) -> (r: Option<ObjectId>)
        ensures
            r == (if self.inodes().contains_key(ROOT_INODE_NUMBER) {
                Some(self.inodes()[ROOT_INODE_NUMBER].oid)
            } else {
                None::<ObjectId>
            }),
    {
        match self.ino_obj_map.get(ROOT_INODE_NUMBER) {
            Some(info) => Some(info.oid),
            None => None,
        }
    }

    /// Takes the container's reserved root-object list and records the root
    /// directory's object, the second of the list, unless the root is
    /// already known. Returns the root's object.
    pub fn get_root_oid(&mut self, roots: &Vec<ObjectId>) -> (res: Result<ObjectId, FsError>)
        ensures
            final(self).next_inum() == old(self).next_inum(),
            final(self).wf() == old(self).wf(),
            final(self).conn() == old(self).conn(),
            old(self).inodes().contains_key(ROOT_INODE_NUMBER) ==> res == Ok::<ObjectId, FsError>(
                old(self).inodes()[ROOT_INODE_NUMBER].oid,
            ) && final(self).inodes() == old(self).inodes(),
            !old(self).inodes().contains_key(ROOT_INODE_NUMBER) ==> if roots@.len()
                > ROOT_OID_SLOT {
                &&& res == Ok::<ObjectId, FsError>(roots@[ROOT_OID_SLOT as int])
                &&& final(self).inodes().dom() == old(self).inodes().dom().insert(
                    ROOT_INODE_NUMBER,
                )
                &&& final(self).inodes() == old(self).inodes().insert(
                    ROOT_INODE_NUMBER,
                    final(self).inodes()[ROOT_INODE_NUMBER],
                )
                &&& final(self).inodes()[ROOT_INODE_NUMBER].oid == roots@[ROOT_OID_SLOT as int]
                &&& final(self).inodes()[ROOT_INODE_NUMBER].parent_oid == (ObjectId {
                    lo: 0,
                    hi: 0,
                })
                &&& final(self).inodes()[ROOT_INODE_NUMBER].name@ == seq![47u8]
            } else {
                res == Err::<ObjectId, FsError>(FsError::Io) && final(self).inodes()
                    == old(self).inodes()
            },
    {
        if let Some(oid) = self.open_root() {
            return Ok(oid);
        }
        if roots.len() <= ROOT_OID_SLOT {
            return Err(FsError::Io);
        }
        let root_oid = roots[ROOT_OID_SLOT];
        let mut name: Vec<u8> = Vec::new();
        name.push(47u8);
        let info = InodeInfo { oid: root_oid, parent_oid: ObjectId { lo: 0, hi: 0 }, name };
        self.ino_obj_map.insert(ROOT_INODE_NUMBER, info);
        Ok(root_oid)
    }

    /// The container in which objects are opened; without one, an open is an
    /// I/O fault.
    pub fn container_for_open(&self) -> (res: Result<Handle, FsError>)
        ensures
            match self.conn().container() {
                Some(h) => res == Ok::<Handle, FsError>(h),
                None => res == Err::<Handle, FsError>(FsError::Io),
            },
    {
        match self.daos_conn.get_coh() {
            Some(h) => Ok(h),
            None => Err(FsError::Io),
        }
    }

    /// Records a fetched record that was found listed under `name` in the
    /// directory object `dir_oid`, and returns it. A record whose inode
    /// number is already known leaves the registry as it was.
    pub fn record_sighting(&mut self, dir_oid: ObjectId, name: &[u8], fetch: &FetchOutcome) -> (res:
        Result<InodeEntry, FsError>)
        ensures
            res == fetch_result(*fetch),
            final(self).next_inum() == old(self).next_inum(),
            final(self).wf() == old(self).wf(),
            final(self).conn() == old(self).conn(),
            res is Err ==> final(self).inodes() == old(self).inodes(),
            res matches Ok(rec) ==> {
                &&& final(self).inodes().contains_key(rec.inum)
                &&& final(self).inodes() == insert_first(
                    old(self).inodes(),
                    rec.inum,
                    final(self).inodes()[rec.inum],
                )
                &&& !old(self).inodes().contains_key(rec.inum) ==> sighting_matches(
                    final(self).inodes()[rec.inum],
                    rec,
                    dir_oid,
                    name@,
                )
            },
    {
        let rec = fetched_entry(fetch)?;
        let info = InodeInfo {
            oid: ObjectId { lo: rec.oid_lo, hi: rec.oid_hi },
            parent_oid: dir_oid,
            name: copy_bytes(name),
        };
        self.ino_obj_map.insert(rec.inum, info);
        Ok(rec)
    }

    /// Only entries of the root directory can be looked up; any other parent
    /// is not found.
    pub fn lookup_check(parent: u64) -> (res: Result<(), FsError>)
        ensures
            parent == ROOT_INODE_NUMBER ==> res is Ok,
            parent != ROOT_INODE_NUMBER ==> res == Err::<(), FsError>(FsError::NotFound),
    {
        if parent != ROOT_INODE_NUMBER {
            return Err(FsError::NotFound);
        }
        Ok(())
    }

    /// Attributes of the entry listed under `name` in the root directory,
    /// from the fetch of its record; the entry is recorded in the registry.
    pub fn lookup_entry(&mut self, root_oid: ObjectId, name: &[u8], fetch: &FetchOutcome) -> (res:
        Result<FileAttrs, FsError>)
        ensures
            match fetch_result(*fetch) {
                Ok(rec) => {
                    &&& res == Ok::<FileAttrs, FsError>(attrs_of(rec))
                    &&& final(self).inodes().contains_key(rec.inum)
                    &&& final(self).inodes() == insert_first(
                        old(self).inodes(),
                        rec.inum,
                        final(self).inodes()[rec.inum],
                    )
                    &&& !old(self).inodes().contains_key(rec.inum) ==> sighting_matches(
                        final(self).inodes()[rec.inum],
                        rec,
                        root_oid,
                        name@,
                    )
                },
                Err(e) => {
                    &&& res == Err::<FileAttrs, FsError>(e)
                    &&& final(self).inodes() == old(self).inodes()
                },
            },
            final(self).next_inum() == old(self).next_inum(),
            final(self).wf() == old(self).wf(),
            final(self).conn() == old(self).conn(),
    {
        let rec = self.record_sighting(root_oid, name, fetch)?;
        Ok(rec.to_attrs())
    }

    /// Where the attributes of inode `ino` come from: fixed ones for the
    /// root, whatever the registry holds; else the record that the registry
    /// locates; an unknown inode is not found.
    pub fn getattr(&self, ino: u64) -> (res: Result<AttrSource, FsError>)
        ensures
            ino == ROOT_INODE_NUMBER ==> (res matches Ok(AttrSource::Root(a)) && a
                == root_attrs_spec()),
            ino != ROOT_INODE_NUMBER && !self.inodes().contains_key(ino) ==> res == Err::<
                AttrSource,
                FsError,
            >(FsError::NotFound),
            ino != ROOT_INODE_NUMBER && self.inodes().contains_key(ino) ==> (res matches Ok(
                AttrSource::Record { parent_oid, name },
            ) && parent_oid == self.inodes()[ino].parent_oid && name@ == self.inodes()[ino].name@),
    {
        if ino == ROOT_INODE_NUMBER {
            return Ok(AttrSource::Root(root_attrs()));
        }
        match self.ino_obj_map.get(ino) {
            Some(info) => Ok(
                AttrSource::Record {
                    parent_oid: info.parent_oid,
                    name: copy_bytes(info.name.as_slice()),
                },
            ),
            None => Err(FsError::NotFound),
        }
    }

    /// Checks the shape of a create request: only a regular file, and only
    /// in the root directory.
    pub fn create_check(parent: u64, mode: u32) -> (res: Result<(), FsError>)
        ensures
            res is Ok <==> (parent == ROOT_INODE_NUMBER && is_regular_mode(mode)),
            res is Err ==> res->Err_0 == FsError::NotSupported,
    {
        if parent != ROOT_INODE_NUMBER {
            return Err(FsError::NotSupported);
        }
        if mode & file_type_mask() != regular_file_type() {
            return Err(FsError::NotSupported);
        }
        Ok(())
    }

    /// Builds the record of a new empty regular file with a fresh inode
    /// number and all timestamps `now`, with its encoding. Fails, with an I/O
    /// fault, only when no inode number is left.
    pub fn new_entry(&mut self, mode: u32, now: u64) -> (res: Result<(InodeEntry, Vec<u8>), FsError>)
        requires
            old(self).wf(),
        ensures
            final(self).wf(),
            final(self).inodes() == old(self).inodes(),
            final(self).conn() == old(self).conn(),
            res matches Ok((rec, bytes)) ==> {
                &&& rec == new_record(mode, old(self).next_inum(), now)
                &&& rec.inum >= FIRST_FREE_INUM
                &&& final(self).next_inum() == old(self).next_inum() + 1
                &&& bytes@ == record_bytes(rec)
            },
            old(self).next_inum() == u64::MAX ==> res == Err::<(InodeEntry, Vec<u8>), FsError>(
                FsError::Io,
            ) && final(self).next_inum() == old(self).next_inum(),
            old(self).next_inum() < u64::MAX ==> final(self).next_inum() == old(self).next_inum()
                + 1 && res is Ok,
            res is Err ==> res->Err_0 == FsError::Io,
    {
        let inum = match alloc_inum(&mut self.counter) {
            Some(n) => n,
            None => return Err(FsError::Io),
        };
        let rec = InodeEntry {
            mode,
            oid_lo: 0,
            oid_hi: 0,
            atime: now,
            mtime: now,
            ctime: now,
            crtime: now,
            uid: 0,
            gid: 0,
            inum,
            chunk_size: 0,
        };
        let bytes = encode_inode(&rec)?;
        Ok((rec, bytes))
    }

    /// The reply to a create once the conditional insert of `rec` returned
    /// status `ret`: the new attributes and inode number, or, when the store
    /// refused (the name exists, or any other failure), an invalid argument.
    pub fn create_reply(rec: &InodeEntry, ret: i32) -> (res: Result<(FileAttrs, u64), FsError>)
        ensures
            ret == 0 ==> res == Ok::<(FileAttrs, u64), FsError>((attrs_of(*rec), rec.inum)),
            ret != 0 ==> res == Err::<(FileAttrs, u64), FsError>(FsError::InvalidArgument),
    {
        if ret != 0 {
            return Err(FsError::InvalidArgument);
        }
        Ok((rec.to_attrs(), rec.inum))
    }

    /// Opening any inode succeeds; reads are uncached and not seekable.
    pub fn open(ino: u64) -> (r: (u64, OpenFlags))
        ensures
            r == (ino, OpenFlags { direct_io: true, nonseekable: true }),
    {
        (ino, OpenFlags { direct_io: true, nonseekable: true })
    }
}

/// Maps the status of an object open to the handle, or to "not found".
pub fn open_obj_result(ret: i32, oh: Handle) -> (res: Result<Handle, FsError>)
    ensures
        ret == 0 ==> res == Ok::<Handle, FsError>(oh),
        ret != 0 ==> res == Err::<Handle, FsError>(FsError::NotFound),
{
    if ret != 0 {
        Err(FsError::NotFound)
    } else {
        Ok(oh)
    }
}

/// The byte range `(start, len)` that a read of `size` bytes at `offset`
/// returns from content of `content_len` bytes: fewer than `size` only at
/// the end of the content, none at or past it or at a negative offset.
pub fn read_window(content_len: u64, offset: i64, size: u32) -> (r: (u64, u64))
    ensures
        offset < 0 || offset as int >= content_len ==> r == (0u64, 0u64),
        0 <= offset < content_len ==> {
            &&& r.0 == offset as u64
            &&& r.1 as int == (if content_len - offset < size {
                content_len - offset
            } else {
                size as int
            })
        },
{
    if offset < 0 || offset as u64 >= content_len {
        return (0, 0);
    }
    let start = offset as u64;
    let avail = content_len - start;
    if avail < size as u64 {
        (start, avail)
    } else {
        (start, size as u64)
    }
}

/// The position reported with an entry of logical index `index`: where a
/// later listing resumes to continue after it.
pub fn resume_offset(index: u64) -> (r: i64)
    requires
        index <= MAX_KEY_INDEX,
    ensures
        r as int == index + 1,
{
    (index + 1) as i64
}

} // verus!
