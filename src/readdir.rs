use crate::client::{fetch_result, resume_offset, sighting_matches, FUSEClient, FetchOutcome};
use crate::enumerate::{indexed_from, listed_view, DirEnumerator, ListedKey, MAX_KEY_INDEX};
use crate::conn::copy_bytes;
use crate::error::FsError;
use crate::registry::{insert_first, ObjectId};
use vstd::prelude::*;

verus! {

/// What the store or the transport reported back to a directory listing.
#[derive(Debug)]
pub enum ReaddirEvent {
    /// One listing call returned these keys (lengths, then the keys back to
    /// back in a buffer) and said whether the listing is at its end.
    Listed { key_lens: Vec<u64>, key_buf: Vec<u8>, eof: bool },
    /// The listing call failed.
    ListFailed,
    /// The fetch of the current key's record returned this.
    Fetched(FetchOutcome),
    /// The current entry was handed to the reply, which says whether it is
    /// now full.
    Emitted { full: bool },
}

/// What a directory listing asks for next.
#[derive(Debug)]
pub enum ReaddirAction {
    /// Call the store's key listing once more, with the listing's cursor.
    ListKeys,
    /// Fetch the record stored under `name` in the directory.
    Fetch { name: Vec<u8> },
    /// Hand this entry to the reply; `offset` is where a later listing
    /// resumes to continue after it.
    Emit { ino: u64, offset: i64, name: Vec<u8> },
    /// The listing is over: release the directory handle, then reply.
    Finish(Result<(), FsError>),
}

/// Which report a listing waits for.
#[derive(Debug, Clone, Copy, PartialEq, Eq, Structural)]
pub enum Awaiting {
    Listing,
    Fetching,
    Emitting,
    Done,
}

/// The action that carries on a listing in state `s`: fetch the next key still
/// to hand out, else finish at the end of the listing, else list more keys.
pub open spec fn next_action(s: ReaddirSession, a: ReaddirAction) -> bool {
    if s.remaining().len() > 0 {
        a matches ReaddirAction::Fetch { name } && name@ == s.remaining()[0].1
    } else if s.eof() {
        a == ReaddirAction::Finish(Ok(()))
    } else {
        a is ListKeys
    }
}

/// Whether a listing waiting for `w` expects report `e`; a failed listing
/// call may come at any point.
pub open spec fn expected(w: Awaiting, e: ReaddirEvent) -> bool {
    match e {
        ReaddirEvent::Listed { .. } => w == Awaiting::Listing,
        ReaddirEvent::ListFailed => true,
        ReaddirEvent::Fetched(_) => w == Awaiting::Fetching,
        ReaddirEvent::Emitted { .. } => w == Awaiting::Emitting,
    }
}

/// One `readdir` call over a directory object: it lists keys page by page,
/// fetches the record of each key at or after the start offset, records the
/// entry in the registry, and hands it to the reply until the reply is full
/// or the listing ends.
pub struct ReaddirSession {
    dir_oid: ObjectId,
    enumerator: DirEnumerator,
    page: Vec<ListedKey>,
    pos: usize,
    eof: bool,
    awaiting: Awaiting,
    emitted: Ghost<Seq<(int, Seq<u8>)>>,
}

impl ReaddirSession {
    pub closed spec fn dir(&self) -> ObjectId {
        self.dir_oid
    }

    pub closed spec fn start(&self) -> int {
        self.enumerator.start()
    }

    /// Keys listed so far, in listing order.
    pub closed spec fn listed(&self) -> Seq<Seq<u8>> {
        self.enumerator.listed()
    }

    /// Entries handed to the reply so far, each with its logical index.
    pub closed spec fn emitted(&self) -> Seq<(int, Seq<u8>)> {
        self.emitted@
    }

    /// Entries of the keys listed so far that are still to be handed out.
    pub closed spec fn remaining(&self) -> Seq<(int, Seq<u8>)> {
        listed_view(self.page@).skip(self.pos as int)
    }

    pub closed spec fn eof(&self) -> bool {
        self.eof
    }

    pub closed spec fn awaiting(&self) -> Awaiting {
        self.awaiting
    }

    pub closed spec fn wf(&self) -> bool {
        &&& self.core_wf()
        &&& (self.awaiting == Awaiting::Fetching || self.awaiting == Awaiting::Emitting) ==> self.pos
            < self.page@.len()
        &&& self.awaiting == Awaiting::Listing ==> self.pos == self.page@.len() && !self.eof
    }

    /// The listing's bookkeeping, whatever report it waits for: what was
    /// handed out and what remains make up the enumeration of what was listed.
    pub closed spec fn core_wf(&self) -> bool {
        &&& self.enumerator.wf()
        &&& self.pos <= self.page@.len()
        &&& self.emitted@ + listed_view(self.page@).skip(self.pos as int) == indexed_from(
            self.enumerator.listed(),
            0,
            self.enumerator.start(),
        )
        &&& forall|i: int| 0 <= i < self.page@.len() ==> #[trigger] self.page@[i].index < MAX_KEY_INDEX
    }

    /// A listing of directory object `dir_oid` from logical index `offset`;
    /// its first action is a key listing.
    pub fn new(dir_oid: ObjectId, offset: i64) -> (r: (ReaddirSession, ReaddirAction))
        ensures
            r.0.wf(),
            r.0.dir() == dir_oid,
            r.0.start() == offset as int,
            r.0.listed() == Seq::<Seq<u8>>::empty(),
            r.0.emitted() == Seq::<(int, Seq<u8>)>::empty(),
            r.0.awaiting() == Awaiting::Listing,
            r.1 is ListKeys,
    {
        let s = ReaddirSession {
            dir_oid,
            enumerator: DirEnumerator::new(offset),
            page: Vec::new(),
            pos: 0,
            eof: false,
            awaiting: Awaiting::Listing,
            emitted: Ghost(Seq::empty()),
        };
        assert(listed_view(s.page@).skip(0) =~= Seq::<(int, Seq<u8>)>::empty());
        assert(indexed_from(Seq::<Seq<u8>>::empty(), 0, offset as int) =~= Seq::<
            (int, Seq<u8>),
        >::empty());
        (s, ReaddirAction::ListKeys)
    }

    /// The action after the current page position: fetch the next key of the
    /// page, else finish at the end of the listing, else list more keys.
    fn advance(&mut self) -> (a: ReaddirAction)
        requires
            old(self).core_wf(),
        ensures
            final(self).wf(),
            final(self).dir() == old(self).dir(),
            final(self).start() == old(self).start(),
            final(self).listed() == old(self).listed(),
            final(self).emitted() == old(self).emitted(),
            final(self).remaining() == old(self).remaining(),
            final(self).eof() == old(self).eof(),
            old(self).remaining().len() > 0 ==> (a matches ReaddirAction::Fetch { name } && name@
                == old(self).remaining()[0].1 && final(self).awaiting() == Awaiting::Fetching),
            old(self).remaining().len() == 0 && old(self).eof() ==> a == ReaddirAction::Finish(
                Ok(()),
            ) && final(self).awaiting() == Awaiting::Done,
            old(self).remaining().len() == 0 && !old(self).eof() ==> a is ListKeys && final(self).awaiting() == Awaiting::Listing,
    {
        if self.pos < self.page.len() {
            let name = copy_bytes(self.page[self.pos].name.as_slice());
            self.awaiting = Awaiting::Fetching;
            ReaddirAction::Fetch { name }
        } else if self.eof {
            self.awaiting = Awaiting::Done;
            ReaddirAction::Finish(Ok(()))
        } else {
            self.awaiting = Awaiting::Listing;
            ReaddirAction::ListKeys
        }
    }

    /// Takes the report of the last action and decides the next one.
    pub fn step(&mut self, client: &mut FUSEClient, event: ReaddirEvent) -> (a: ReaddirAction)
        requires
            old(self).wf(),
        ensures
            final(self).wf(),
            final(self).dir() == old(self).dir(),
            final(self).start() == old(self).start(),
            old(self).emitted().is_prefix_of(final(self).emitted()),
            old(self).listed().is_prefix_of(final(self).listed()),
            final(client).next_inum() == old(client).next_inum(),
            final(client).wf() == old(client).wf(),
            final(client).conn() == old(client).conn(),
            !expected(old(self).awaiting(), event) ==> a == ReaddirAction::Finish(Err(FsError::Io)),
            event is ListFailed ==> a == ReaddirAction::Finish(Err(FsError::Io)),
            old(self).awaiting() == Awaiting::Listing ==> match event {
                ReaddirEvent::Listed { key_lens, key_buf, eof } => if crate::enumerate::page_fits(
                    key_lens@,
                    key_buf@.len() as int,
                ) && old(self).listed().len() + key_lens@.len() <= MAX_KEY_INDEX {
                    next_action(*final(self), a)
                } else {
                    a == ReaddirAction::Finish(Err(FsError::Io))
                },
                _ => true,
            },
            old(self).awaiting() == Awaiting::Fetching ==> match event {
                ReaddirEvent::Fetched(f) => match fetch_result(f) {
                    Ok(rec) => a matches ReaddirAction::Emit { ino, .. } && ino == rec.inum,
                    Err(e) => a == ReaddirAction::Finish(Err(e)),
                },
                _ => true,
            },
            old(self).awaiting() == Awaiting::Emitting ==> match event {
                ReaddirEvent::Emitted { full } => if full {
                    a == ReaddirAction::Finish(Ok(()))
                } else {
                    next_action(*final(self), a)
                },
                _ => true,
            },
            a is ListKeys ==> final(self).awaiting() == Awaiting::Listing && final(self).remaining().len()
                == 0 && !final(self).eof(),
            old(self).awaiting() == Awaiting::Listing && !(a is Finish) ==> (event matches ReaddirEvent::Listed { key_lens, key_buf, eof }
                && final(self).listed() == old(self).listed() + crate::enumerate::page_keys(
                key_lens@,
                key_buf@,
            ) && final(self).eof() == eof),
            a matches ReaddirAction::Fetch { name } ==> final(self).awaiting() == Awaiting::Fetching
                && name@ == final(self).remaining()[0].1,
            a matches ReaddirAction::Emit { ino, offset, name } ==> {
                &&& final(self).awaiting() == Awaiting::Emitting
                &&& final(self).remaining()[0] == (offset - 1, name@)
                &&& event matches ReaddirEvent::Fetched(f) && fetch_result(f) matches Ok(rec)
                    && ino == rec.inum
            },
            a is Finish ==> final(self).awaiting() == Awaiting::Done,
            a == ReaddirAction::Finish(Ok(())) ==> (event matches ReaddirEvent::Emitted {
                full: true,
            }) || (final(self).eof() && final(self).emitted() == indexed_from(
                final(self).listed(),
                0,
                final(self).start(),
            )),
            a matches ReaddirAction::Finish(Err(e)) ==> match event {
                ReaddirEvent::Fetched(f) => fetch_result(f) == Err::<
                    crate::record::InodeEntry,
                    FsError,
                >(e) || (old(self).awaiting() != Awaiting::Fetching && e == FsError::Io),
                _ => e == FsError::Io,
            },
            old(self).awaiting() == Awaiting::Emitting && event is Emitted ==> final(self).emitted()
                == old(self).emitted().push(old(self).remaining()[0]),
            old(self).awaiting() == Awaiting::Fetching ==> match event {
                ReaddirEvent::Fetched(f) => match fetch_result(f) {
                    Ok(rec) => {
                        &&& final(client).inodes() == insert_first(
                            old(client).inodes(),
                            rec.inum,
                            final(client).inodes()[rec.inum],
                        )
                        &&& !old(client).inodes().contains_key(rec.inum) ==> sighting_matches(
                            final(client).inodes()[rec.inum],
                            rec,
                            old(self).dir(),
                            old(self).remaining()[0].1,
                        )
                    },
                    Err(_) => final(client).inodes() == old(client).inodes(),
                },
                _ => final(client).inodes() == old(client).inodes(),
            },
            old(self).awaiting() != Awaiting::Fetching ==> final(client).inodes() == old(
                client,
            ).inodes(),
    {
        let ghost before = *self;
        match event {
            ReaddirEvent::Listed { key_lens, key_buf, eof } => {
                if self.awaiting != Awaiting::Listing {
                    self.awaiting = Awaiting::Done;
                    return ReaddirAction::Finish(Err(FsError::Io));
                }
                let ghost base = self.enumerator.listed().len() as int;
                let ghost page_keys = crate::enumerate::page_keys(key_lens@, key_buf@);
                match self.enumerator.accept_page(&key_lens, &key_buf) {
                    Err(e) => {
                        self.awaiting = Awaiting::Done;
                        ReaddirAction::Finish(Err(e))
                    },
                    Ok(keys) => {
                        proof {
                            crate::enumerate::lemma_indexed_split(
                                before.enumerator.listed(),
                                page_keys,
                                0,
                                before.enumerator.start(),
                            );
                            assert(listed_view(before.page@).skip(before.pos as int)
                                =~= Seq::<(int, Seq<u8>)>::empty());
                            assert(self.emitted@ =~= indexed_from(before.enumerator.listed(), 0, before.enumerator.start()));
                            assert(listed_view(keys@).skip(0) =~= listed_view(keys@));
                            assert(page_keys.len() == key_lens@.len());
                            assert forall|i: int| 0 <= i < keys@.len() implies #[trigger] keys@[i].index
                                < MAX_KEY_INDEX by {
                                assert(listed_view(keys@)[i].0 == keys@[i].index);
                                assert(listed_view(keys@)[i] == indexed_from(
                                    page_keys,
                                    base,
                                    before.enumerator.start(),
                                )[i]);
                            }
                        }
                        self.page = keys;
                        self.pos = 0;
                        self.eof = eof;
                        assert(self.emitted@ + listed_view(self.page@).skip(self.pos as int)
                            =~= indexed_from(self.enumerator.listed(), 0, self.enumerator.start()));
                        self.advance()
                    },
                }
            },
            ReaddirEvent::ListFailed => {
                self.awaiting = Awaiting::Done;
                ReaddirAction::Finish(Err(FsError::Io))
            },
            ReaddirEvent::Fetched(f) => {
                if self.awaiting != Awaiting::Fetching {
                    self.awaiting = Awaiting::Done;
                    return ReaddirAction::Finish(Err(FsError::Io));
                }
                let key = &self.page[self.pos];
                assert(listed_view(self.page@).skip(self.pos as int)[0] == (
                    key.index as int,
                    key.name@,
                ));
                match client.record_sighting(self.dir_oid, key.name.as_slice(), &f) {
                    Err(e) => {
                        self.awaiting = Awaiting::Done;
                        ReaddirAction::Finish(Err(e))
                    },
                    Ok(rec) => {
                        let key = &self.page[self.pos];
                        let offset = resume_offset(key.index);
                        let name = copy_bytes(key.name.as_slice());
                        self.awaiting = Awaiting::Emitting;
                        ReaddirAction::Emit { ino: rec.inum, offset, name }
                    },
                }
            },
            ReaddirEvent::Emitted { full } => {
                if self.awaiting != Awaiting::Emitting {
                    self.awaiting = Awaiting::Done;
                    return ReaddirAction::Finish(Err(FsError::Io));
                }
                let page_len = self.page.len();
                assert(self.pos < page_len);
                let ghost head = listed_view(self.page@).skip(self.pos as int)[0];
                proof {
                    let rest = listed_view(self.page@).skip(self.pos as int);
                    assert(rest =~= seq![head] + listed_view(self.page@).skip(self.pos + 1));
                    assert(self.emitted@.push(head) + listed_view(self.page@).skip(self.pos + 1)
                        =~= self.emitted@ + rest);
                    self.emitted@ = self.emitted@.push(head);
                }
                self.pos = self.pos + 1;
                if full {
                    self.awaiting = Awaiting::Done;
                    ReaddirAction::Finish(Ok(()))
                } else {
                    self.awaiting = Awaiting::Fetching;
                    self.advance()
                }
            },
        }
    }
}

} // verus!
