use fsel::client::{fetched_entry, AttrSource, FUSEClient, FetchOutcome};
use fsel::conn::{DAOSConn, Handle};
use fsel::enumerate::{KEY_DESC_BUF_SIZE, KEY_DESC_NUM};
use fsel::readdir::{ReaddirAction, ReaddirEvent, ReaddirSession};
use fsel::error::FsError;
use fsel::record::{FileAttrs, FileKind};
use fsel::registry::ObjectId;
use std::collections::BTreeMap;

/// An in-memory stand-in for the object store: objects of sorted keys.
struct MemStore {
    objects: BTreeMap<(u64, u64), BTreeMap<Vec<u8>, Vec<u8>>>,
}

impl MemStore {
    fn fetch(&self, oid: ObjectId, key: &[u8]) -> FetchOutcome {
        match self.objects.get(&(oid.lo, oid.hi)).and_then(|o| o.get(key)) {
            Some(v) => FetchOutcome::Value(v.clone()),
            None => FetchOutcome::Missing,
        }
    }

    fn insert_if_absent(&mut self, oid: ObjectId, key: &[u8], value: Vec<u8>) -> i32 {
        let obj = self.objects.entry((oid.lo, oid.hi)).or_default();
        if obj.contains_key(key) {
            return -1004;
        }
        obj.insert(key.to_vec(), value);
        0
    }

    /// One listing call from `cursor`: at most `KEY_DESC_NUM` keys that fit
    /// `KEY_DESC_BUF_SIZE` bytes; returns lengths, buffer, next cursor, end.
    fn list(&self, oid: ObjectId, cursor: usize, page: usize) -> (Vec<u64>, Vec<u8>, usize, bool) {
        let keys: Vec<&Vec<u8>> = self.objects[&(oid.lo, oid.hi)].keys().collect();
        let mut lens = Vec::new();
        let mut buf = Vec::new();
        let mut c = cursor;
        while c < keys.len() && lens.len() < page.min(KEY_DESC_NUM)
            && buf.len() + keys[c].len() <= KEY_DESC_BUF_SIZE
        {
            lens.push(keys[c].len() as u64);
            buf.extend_from_slice(keys[c]);
            c += 1;
        }
        (lens, buf, c, c >= keys.len())
    }
}

struct Fs {
    client: FUSEClient,
    store: MemStore,
    roots: Vec<ObjectId>,
    now: u64,
}

const ROOT_OID: ObjectId = ObjectId { lo: 77, hi: 1 };

impl Fs {
    fn new() -> Fs {
        let conn =
            DAOSConn::new("pool1", "cont1", Ok(Handle { cookie: 1 }), Ok(Handle { cookie: 2 })).unwrap();
        let mut objects = BTreeMap::new();
        objects.insert((ROOT_OID.lo, ROOT_OID.hi), BTreeMap::new());
        Fs {
            client: FUSEClient::new(conn),
            store: MemStore { objects },
            roots: vec![ObjectId { lo: 5, hi: 5 }, ROOT_OID, ObjectId { lo: 6, hi: 6 }],
            now: 1_700_000_000,
        }
    }

    fn root(&mut self) -> ObjectId {
        match self.client.open_root() {
            Some(o) => o,
            None => self.client.get_root_oid(&self.roots).unwrap(),
        }
    }

    fn lookup(&mut self, parent: u64, name: &[u8]) -> Result<FileAttrs, FsError> {
        FUSEClient::lookup_check(parent)?;
        let root = self.root();
        let fetch = self.store.fetch(root, name);
        self.client.lookup_entry(root, name, &fetch)
    }

    fn getattr(&mut self, ino: u64) -> Result<FileAttrs, FsError> {
        match self.client.getattr(ino)? {
            AttrSource::Root(a) => Ok(a),
            AttrSource::Record { parent_oid, name } => {
                let fetch = self.store.fetch(parent_oid, &name);
                fetched_entry(&fetch).map(|r| r.to_attrs())
            }
        }
    }

    fn create(&mut self, parent: u64, name: &[u8], mode: u32) -> Result<(FileAttrs, u64), FsError> {
        FUSEClient::create_check(parent, mode)?;
        let root = self.root();
        let (rec, bytes) = self.client.new_entry(mode, self.now)?;
        let ret = self.store.insert_if_absent(root, name, bytes);
        FUSEClient::create_reply(&rec, ret)
    }

    /// Lists from `offset`, taking at most `room` entries, with pages of at
    /// most `page` keys.
    fn readdir(&mut self, offset: i64, room: usize, page: usize) -> Vec<(u64, i64, Vec<u8>)> {
        self.try_readdir(offset, room, page, false).unwrap()
    }

    fn try_readdir(
        &mut self,
        offset: i64,
        room: usize,
        page: usize,
        fail_listing: bool,
    ) -> Result<Vec<(u64, i64, Vec<u8>)>, FsError> {
        let root = self.root();
        let (mut session, mut action) = ReaddirSession::new(root, offset);
        let mut out = Vec::new();
        let mut cursor = 0;
        loop {
            let event = match action {
                ReaddirAction::ListKeys => {
                    if fail_listing {
                        ReaddirEvent::ListFailed
                    } else {
                        let (key_lens, key_buf, next, eof) = self.store.list(root, cursor, page);
                        cursor = next;
                        ReaddirEvent::Listed { key_lens, key_buf, eof }
                    }
                }
                ReaddirAction::Fetch { name } => ReaddirEvent::Fetched(self.store.fetch(root, &name)),
                ReaddirAction::Emit { ino, offset, name } => {
                    out.push((ino, offset, name));
                    ReaddirEvent::Emitted { full: out.len() == room }
                }
                ReaddirAction::Finish(r) => return r.map(|_| out),
            };
            action = session.step(&mut self.client, event);
        }
    }
}

#[test]
fn lookup_missing_is_not_found() {
    let mut fs = Fs::new();
    assert_eq!(fs.lookup(0, b"missing"), Err(FsError::NotFound));
}

#[test]
fn lookup_outside_root_is_not_found() {
    let mut fs = Fs::new();
    fs.create(0, b"a", 0o100644).unwrap();
    assert_eq!(fs.lookup(3, b"a"), Err(FsError::NotFound));
}

#[test]
fn create_directory_is_not_supported() {
    let mut fs = Fs::new();
    assert_eq!(fs.create(0, b"f", 0o040755), Err(FsError::NotSupported));
    assert_eq!(FUSEClient::create_check(0, 0o040755), Err(FsError::NotSupported));
    assert_eq!(FUSEClient::create_check(0, 0o120777), Err(FsError::NotSupported));
    assert_eq!(FUSEClient::create_check(4, 0o100644), Err(FsError::NotSupported));
    assert_eq!(FUSEClient::create_check(0, 0o100600), Ok(()));
}

#[test]
fn create_duplicate_is_invalid_and_keeps_first() {
    let mut fs = Fs::new();
    let (first, ino) = fs.create(0, b"dup", 0o100644).unwrap();
    fs.now += 50;
    assert_eq!(fs.create(0, b"dup", 0o100600), Err(FsError::InvalidArgument));
    let again = fs.lookup(0, b"dup").unwrap();
    assert_eq!(again, first);
    assert_eq!(again.ino, ino);
    assert_eq!(again.mtime, 1_700_000_000);
}

#[test]
fn getattr_root_is_fixed_directory() {
    let mut fs = Fs::new();
    for _ in 0..2 {
        let a = fs.getattr(0).unwrap();
        assert_eq!(a.kind, FileKind::Directory);
        assert_eq!(a.perm, 0o555);
        assert_eq!(a.nlink, 2);
        fs.create(0, b"x", 0o100644).ok();
        fs.lookup(0, b"x").unwrap();
    }
}

#[test]
fn getattr_unknown_inode_is_not_found() {
    let mut fs = Fs::new();
    assert_eq!(fs.getattr(12), Err(FsError::NotFound));
}

#[test]
fn create_lookup_getattr_scenario() {
    let mut fs = Fs::new();
    let (created, ino) = fs.create(0, b"a.txt", 0o100644).unwrap();
    assert!(ino >= 3);
    assert_eq!(created.ino, ino);
    assert_eq!(created.size, 0);
    let looked = fs.lookup(0, b"a.txt").unwrap();
    assert_eq!(looked.ino, ino);
    assert_eq!(looked.size, 0);
    let got = fs.getattr(ino).unwrap();
    assert_eq!((got.uid, got.gid), (created.uid, created.gid));
    assert_eq!(
        (got.atime, got.mtime, got.ctime, got.crtime),
        (created.atime, created.mtime, created.ctime, created.crtime)
    );
    assert_eq!(got.atime, 1_700_000_000);
}

#[test]
fn create_allocates_fresh_inodes() {
    let mut fs = Fs::new();
    let (_, a) = fs.create(0, b"a", 0o100644).unwrap();
    let (_, b) = fs.create(0, b"b", 0o100644).unwrap();
    assert_eq!((a, b), (3, 4));
}

#[test]
fn readdir_lists_every_entry_once_across_pages() {
    let mut fs = Fs::new();
    let mut names: Vec<Vec<u8>> = (0..40).map(|i| format!("file{:02}", i).into_bytes()).collect();
    for n in &names {
        fs.create(0, n, 0o100644).unwrap();
    }
    names.sort();
    for page in [1, 3, 16] {
        let listed = fs.readdir(0, 1000, page);
        let got: Vec<Vec<u8>> = listed.iter().map(|e| e.2.clone()).collect();
        assert_eq!(got, names);
        for (i, e) in listed.iter().enumerate() {
            assert_eq!(e.1, i as i64 + 1);
            assert_eq!(fs.getattr(e.0).unwrap().ino, e.0);
        }
    }
}

#[test]
fn readdir_resumes_from_offset() {
    let mut fs = Fs::new();
    for i in 0..20 {
        fs.create(0, format!("k{:02}", i).as_bytes(), 0o100644).unwrap();
    }
    let all = fs.readdir(0, 1000, 16);
    for m in 0..=20usize {
        let got = fs.readdir(m as i64, 1000, 7);
        assert_eq!(got, all[m..].to_vec());
    }
    let mut resumed = Vec::new();
    let mut offset = 0;
    loop {
        let part = fs.readdir(offset, 6, 16);
        if part.is_empty() {
            break;
        }
        offset = part.last().unwrap().1;
        resumed.extend(part);
    }
    assert_eq!(resumed, all);
}

#[test]
fn readdir_of_empty_root_is_empty() {
    let mut fs = Fs::new();
    assert_eq!(fs.readdir(0, 10, 16), Vec::new());
}

#[test]
fn readdir_listing_failure_is_io() {
    let mut fs = Fs::new();
    fs.create(0, b"a", 0o100644).unwrap();
    assert_eq!(fs.try_readdir(0, 10, 16, true), Err(FsError::Io));
}

#[test]
fn readdir_registers_listed_entries() {
    let mut fs = Fs::new();
    let (_, ino) = fs.create(0, b"seen", 0o100644).unwrap();
    assert_eq!(fs.getattr(ino), Err(FsError::NotFound));
    fs.readdir(0, 10, 16);
    assert_eq!(fs.getattr(ino).unwrap().ino, ino);
}

#[test]
fn readdir_session_reports_fetch_errors() {
    let mut fs = Fs::new();
    let root = fs.root();
    let (mut s, a) = ReaddirSession::new(root, 0);
    assert!(matches!(a, ReaddirAction::ListKeys));
    let a = s.step(
        &mut fs.client,
        ReaddirEvent::Listed { key_lens: vec![1], key_buf: b"z".to_vec(), eof: true },
    );
    match a {
        ReaddirAction::Fetch { name } => assert_eq!(name, b"z".to_vec()),
        other => panic!("unexpected {:?}", other),
    }
    let a = s.step(&mut fs.client, ReaddirEvent::Fetched(FetchOutcome::Missing));
    assert!(matches!(a, ReaddirAction::Finish(Err(FsError::NotFound))));
}

#[test]
fn readdir_session_rejects_overrunning_page() {
    let mut fs = Fs::new();
    let root = fs.root();
    let (mut s, _) = ReaddirSession::new(root, 0);
    let a = s.step(
        &mut fs.client,
        ReaddirEvent::Listed { key_lens: vec![9], key_buf: b"z".to_vec(), eof: true },
    );
    assert!(matches!(a, ReaddirAction::Finish(Err(FsError::Io))));
}

#[test]
fn readdir_stops_ok_when_reply_full() {
    let mut fs = Fs::new();
    for i in 0..10 {
        fs.create(0, format!("f{}", i).as_bytes(), 0o100644).unwrap();
    }
    let got = fs.try_readdir(0, 3, 16, false).unwrap();
    assert_eq!(got.len(), 3);
    assert_eq!(got[2].1, 3);
}
