use crate::error::FsError;
use vstd::bytes::{
    lemma_auto_spec_u32_to_from_le_bytes, lemma_auto_spec_u64_to_from_le_bytes,
    spec_u32_from_le_bytes, spec_u32_to_le_bytes, spec_u64_from_le_bytes, spec_u64_to_le_bytes,
};
use vstd::prelude::*;

verus! {

/// Size in bytes of an encoded metadata record.
pub const RECORD_LEN: usize = 80;

/// Largest record value that a fetch accepts.
pub const RECORD_BUF_LEN: usize = 512;

/// Permission bits reported for a regular file.
pub const FILE_PERM: u16 = 0o444;

/// Permission bits reported for the root directory.
pub const ROOT_PERM: u16 = 0o555;

/// The durable metadata of one filesystem entry.
#[derive(Debug, Clone, Copy, PartialEq, Eq, Structural)]
pub struct InodeEntry {
    pub mode: u32,
    pub oid_lo: u64,
    pub oid_hi: u64,
    pub atime: u64,
    pub mtime: u64,
    pub ctime: u64,
    pub crtime: u64,
    pub uid: u32,
    pub gid: u32,
    pub inum: u64,
    pub chunk_size: u64,
}

/// The kind of a filesystem entry as reported to the transport.
#[derive(Debug, Clone, Copy, PartialEq, Eq, Structural)]
pub enum FileKind {
    RegularFile,
    Directory,
}

/// Attributes reported for an entry; timestamps are seconds since the epoch.
#[derive(Debug, Clone, Copy, PartialEq, Eq, Structural)]
pub struct FileAttrs {
    pub ino: u64,
    pub size: u64,
    pub blocks: u64,
    pub atime: u64,
    pub mtime: u64,
    pub ctime: u64,
    pub crtime: u64,
    pub kind: FileKind,
    pub perm: u16,
    pub nlink: u32,
    pub uid: u32,
    pub gid: u32,
    pub rdev: u32,
    pub flags: u32,
    pub blksize: u32,
}

/// Four zero bytes that align the 64-bit fields after `mode`.
pub open spec fn pad4() -> Seq<u8> {
    seq![0u8, 0u8, 0u8, 0u8]
}

/// The little-endian wire layout of a record: each field in declaration
/// order, each 64-bit field aligned to 8 bytes.
pub open spec fn record_bytes(r: InodeEntry) -> Seq<u8> {
    spec_u32_to_le_bytes(r.mode) + pad4() + spec_u64_to_le_bytes(r.oid_lo) + spec_u64_to_le_bytes(
        r.oid_hi,
    ) + spec_u64_to_le_bytes(r.atime) + spec_u64_to_le_bytes(r.mtime) + spec_u64_to_le_bytes(
        r.ctime,
    ) + spec_u64_to_le_bytes(r.crtime) + spec_u32_to_le_bytes(r.uid) + spec_u32_to_le_bytes(r.gid)
        + spec_u64_to_le_bytes(r.inum) + spec_u64_to_le_bytes(r.chunk_size)
}

/// A buffer from which a record can be read: long enough, with zero padding.
pub open spec fn record_readable(b: Seq<u8>) -> bool {
    &&& b.len() >= 80
    &&& b[4] == 0
    &&& b[5] == 0
    &&& b[6] == 0
    &&& b[7] == 0
}

pub open spec fn u64_at(b: Seq<u8>, at: int) -> u64 {
    spec_u64_from_le_bytes(b.subrange(at, at + 8))
}

pub open spec fn u32_at(b: Seq<u8>, at: int) -> u32 {
    spec_u32_from_le_bytes(b.subrange(at, at + 4))
}

/// The record that the first 80 bytes of `b` hold.
pub open spec fn record_at(b: Seq<u8>) -> InodeEntry {
    InodeEntry {
        mode: u32_at(b, 0),
        oid_lo: u64_at(b, 8),
        oid_hi: u64_at(b, 16),
        atime: u64_at(b, 24),
        mtime: u64_at(b, 32),
        ctime: u64_at(b, 40),
        crtime: u64_at(b, 48),
        uid: u32_at(b, 56),
        gid: u32_at(b, 60),
        inum: u64_at(b, 64),
        chunk_size: u64_at(b, 72),
    }
}

/// Attributes of an entry backed by record `r`.
pub open spec fn attrs_of(r: InodeEntry) -> FileAttrs {
    FileAttrs {
        ino: r.inum,
        size: r.chunk_size,
        blocks: 0,
        atime: r.atime,
        mtime: r.mtime,
        ctime: r.ctime,
        crtime: r.crtime,
        kind: FileKind::RegularFile,
        perm: 0o444,
        nlink: 1,
        uid: r.uid,
        gid: r.gid,
        rdev: 0,
        flags: 0,
        blksize: 0,
    }
}

/// Attributes of the root directory, which has no backing record.
pub open spec fn root_attrs_spec() -> FileAttrs {
    FileAttrs {
        ino: 0,
        size: 0,
        blocks: 0,
        atime: 0,
        mtime: 0,
        ctime: 0,
        crtime: 0,
        kind: FileKind::Directory,
        perm: 0o555,
        nlink: 2,
        uid: 0,
        gid: 0,
        rdev: 0,
        flags: 0,
        blksize: 0,
    }
}

/// zvariant's error type, carried opaque out of the codec wrappers and mapped
/// to `FsError::Io`.
#[verifier::external_type_specification]
#[verifier::external_body]
pub struct ExZvariantError(zvariant::Error);

/// Relies on zvariant::to_bytes in the D-Bus format, little-endian, from
/// offset 0: a tuple of fixed-size integers is written field by field into an
/// in-memory buffer, each little-endian and preceded by zero padding up to its
/// own alignment; no step of that path can fail.
#[verifier::external_body]
fn to_wire(r: &InodeEntry) -> (res: Result<Vec<u8>, zvariant::Error>)
    ensures
        res is Ok,
        res is Ok ==> res->Ok_0@ == record_bytes(*r),
{
    let ctxt = zvariant::serialized::Context::new_dbus(zvariant::LE, 0);
    let fields = (
        r.mode, r.oid_lo, r.oid_hi, r.atime, r.mtime, r.ctime, r.crtime, r.uid, r.gid, r.inum,
        r.chunk_size,
    );
    zvariant::to_bytes(ctxt, &fields).map(|d| d.bytes().to_vec())
}

/// Relies on zvariant's `Data::deserialize` in the D-Bus format,
/// little-endian, from offset 0: it reads the same layout, fails when the
/// buffer is too short or a padding byte is not zero, and reports the number
/// of bytes it consumed.
#[verifier::external_body]
fn from_wire(b: &[u8]) -> (res: Result<(InodeEntry, usize), zvariant::Error>)
    ensures
        res is Ok <==> record_readable(b@),
        res is Ok ==> res->Ok_0 == (record_at(b@), 80usize),
{
    let ctxt = zvariant::serialized::Context::new_dbus(zvariant::LE, 0);
    let data = zvariant::serialized::Data::new(b, ctxt);
    let (f, n) = data.deserialize::<(u32, u64, u64, u64, u64, u64, u64, u32, u32, u64, u64)>()?;
    let (mode, oid_lo, oid_hi, atime, mtime, ctime, crtime, uid, gid, inum, chunk_size) = f;
    let r = InodeEntry { mode, oid_lo, oid_hi, atime, mtime, ctime, crtime, uid, gid, inum, chunk_size };
    Ok((r, n))
}

/// Encodes a record in its fixed 80-byte wire layout; this always succeeds.
pub fn encode_inode(inode: &InodeEntry) -> (res: Result<Vec<u8>, FsError>)
    ensures
        res is Ok,
        res is Ok ==> res->Ok_0@ == record_bytes(*inode),
        res is Ok ==> res->Ok_0@.len() == RECORD_LEN,
{
    proof {
        lemma_record_round_trip(*inode);
    }
    match to_wire(inode) {
        Ok(v) => Ok(v),
        Err(_) => Err(FsError::Io),
    }
}

/// Decodes a record from the start of `bytes`, with the number of bytes used.
pub fn decode_inode(bytes: &[u8]) -> (res: Result<(InodeEntry, usize), FsError>)
    ensures
        res is Ok <==> record_readable(bytes@),
        res is Ok ==> res->Ok_0 == (record_at(bytes@), RECORD_LEN),
        res is Err ==> res->Err_0 == FsError::Io,
{
    match from_wire(bytes) {
        Ok(p) => Ok(p),
        Err(_) => Err(FsError::Io),
    }
}

/// Decoding the encoding of any record gives back that record, having read
/// exactly the encoding's 80 bytes.
pub proof fn lemma_record_round_trip(r: InodeEntry)
    ensures
        record_bytes(r).len() == RECORD_LEN,
        record_readable(record_bytes(r)),
        record_at(record_bytes(r)) == r,
{
    lemma_auto_spec_u32_to_from_le_bytes();
    lemma_auto_spec_u64_to_from_le_bytes();
    let b = record_bytes(r);
    assert(b.subrange(0, 4) =~= spec_u32_to_le_bytes(r.mode));
    assert(b.subrange(8, 16) =~= spec_u64_to_le_bytes(r.oid_lo));
    assert(b.subrange(16, 24) =~= spec_u64_to_le_bytes(r.oid_hi));
    assert(b.subrange(24, 32) =~= spec_u64_to_le_bytes(r.atime));
    assert(b.subrange(32, 40) =~= spec_u64_to_le_bytes(r.mtime));
    assert(b.subrange(40, 48) =~= spec_u64_to_le_bytes(r.ctime));
    assert(b.subrange(48, 56) =~= spec_u64_to_le_bytes(r.crtime));
    assert(b.subrange(56, 60) =~= spec_u32_to_le_bytes(r.uid));
    assert(b.subrange(60, 64) =~= spec_u32_to_le_bytes(r.gid));
    assert(b.subrange(64, 72) =~= spec_u64_to_le_bytes(r.inum));
    assert(b.subrange(72, 80) =~= spec_u64_to_le_bytes(r.chunk_size));
}

/// Decoding reads exactly the canonical encoding: the record decoded from a
/// readable buffer encodes back to the 80 bytes it was read from.
pub proof fn lemma_decoded_reencodes(b: Seq<u8>)
    requires
        record_readable(b),
    ensures
        record_bytes(record_at(b)) == b.subrange(0, RECORD_LEN as int),
{
    lemma_auto_spec_u32_to_from_le_bytes();
    lemma_auto_spec_u64_to_from_le_bytes();
    let r = record_at(b);
    assert(spec_u32_to_le_bytes(r.mode) == b.subrange(0, 4));
    assert(spec_u64_to_le_bytes(r.oid_lo) == b.subrange(8, 16));
    assert(spec_u64_to_le_bytes(r.oid_hi) == b.subrange(16, 24));
    assert(spec_u64_to_le_bytes(r.atime) == b.subrange(24, 32));
    assert(spec_u64_to_le_bytes(r.mtime) == b.subrange(32, 40));
    assert(spec_u64_to_le_bytes(r.ctime) == b.subrange(40, 48));
    assert(spec_u64_to_le_bytes(r.crtime) == b.subrange(48, 56));
    assert(spec_u32_to_le_bytes(r.uid) == b.subrange(56, 60));
    assert(spec_u32_to_le_bytes(r.gid) == b.subrange(60, 64));
    assert(spec_u64_to_le_bytes(r.inum) == b.subrange(64, 72));
    assert(spec_u64_to_le_bytes(r.chunk_size) == b.subrange(72, 80));
    assert(pad4() == b.subrange(4, 8));
    assert(record_bytes(r) =~= b.subrange(0, 80));
}

impl InodeEntry {
    /// Attributes reported for the entry that this record describes.
    pub fn to_attrs(&self) -> (a: FileAttrs)
        ensures
            a == attrs_of(*self),
    {
        FileAttrs {
            ino: self.inum,
            size: self.chunk_size,
            blocks: 0,
            atime: self.atime,
            mtime: self.mtime,
            ctime: self.ctime,
            crtime: self.crtime,
            kind: FileKind::RegularFile,
            perm: FILE_PERM,
            nlink: 1,
            uid: self.uid,
            gid: self.gid,
            rdev: 0,
            flags: 0,
            blksize: 0,
        }
    }
}

/// Attributes of the root directory.
pub fn root_attrs() -> (a: FileAttrs)
    ensures
        a == root_attrs_spec(),
{
    FileAttrs {
        ino: 0,
        size: 0,
        blocks: 0,
        atime: 0,
        mtime: 0,
        ctime: 0,
        crtime: 0,
        kind: FileKind::Directory,
        perm: ROOT_PERM,
        nlink: 2,
        uid: 0,
        gid: 0,
        rdev: 0,
        flags: 0,
        blksize: 0,
    }
}

} // verus!
