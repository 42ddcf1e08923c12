use crate::error::FsError;
use vstd::prelude::*;

verus! {

/// Most key descriptors requested from the store per listing call.
pub const KEY_DESC_NUM: usize = 16;

/// Size of the buffer that receives the keys of one listing call.
pub const KEY_DESC_BUF_SIZE: usize = 256;

/// Largest logical index a directory entry may have, so that the position
/// after it still fits a signed 64-bit offset.
pub const MAX_KEY_INDEX: u64 = 0x7fff_ffff_ffff_fffe;

/// Sum of the first `i` key lengths: where key `i` starts in the page buffer.
pub open spec fn key_start(lens: Seq<u64>, i: int) -> int
    decreases i,
{
    if i <= 0 {
        0
    } else {
        key_start(lens, i - 1) + lens[i - 1]
    }
}

/// The keys of a page lie within its buffer.
pub open spec fn page_fits(lens: Seq<u64>, buf_len: int) -> bool {
    key_start(lens, lens.len() as int) <= buf_len
}

/// The keys of a page: consecutive slices of the buffer of the given lengths.
pub open spec fn page_keys(lens: Seq<u64>, buf: Seq<u8>) -> Seq<Seq<u8>> {
    Seq::new(lens.len(), |i: int| buf.subrange(key_start(lens, i), key_start(lens, i + 1)))
}

/// How many keys of a run that starts at logical index `base` lie before
/// `offset`.
pub open spec fn skipped(len: int, base: int, offset: int) -> int {
    if offset - base <= 0 {
        0
    } else if offset - base >= len {
        len
    } else {
        offset - base
    }
}

/// The keys of a run starting at logical index `base` whose index is at least
/// `offset`, each with its index, in order.
pub open spec fn indexed_from(keys: Seq<Seq<u8>>, base: int, offset: int) -> Seq<(int, Seq<u8>)> {
    let s = skipped(keys.len() as int, base, offset);
    Seq::new((keys.len() - s) as nat, |j: int| (base + s + j, keys[s + j]))
}

/// All keys of a listing, page after page.
pub open spec fn flatten_pages(pages: Seq<Seq<Seq<u8>>>) -> Seq<Seq<u8>>
    decreases pages.len(),
{
    if pages.len() == 0 {
        Seq::empty()
    } else {
        flatten_pages(pages.drop_last()) + pages.last()
    }
}

/// What an enumerator started at `offset` hands out over the given pages,
/// page by page, with a running index that is not reset between pages.
pub open spec fn enumerate_pages(pages: Seq<Seq<Seq<u8>>>, offset: int) -> Seq<(int, Seq<u8>)>
    decreases pages.len(),
{
    if pages.len() == 0 {
        Seq::empty()
    } else {
        enumerate_pages(pages.drop_last(), offset) + indexed_from(
            pages.last(),
            flatten_pages(pages.drop_last()).len() as int,
            offset,
        )
    }
}

/// A key that a listing yields, with its logical index in the directory.
#[derive(Debug)]
pub struct ListedKey {
    pub index: u64,
    pub name: Vec<u8>,
}

pub open spec fn listed_view(v: Seq<ListedKey>) -> Seq<(int, Seq<u8>)> {
    Seq::new(v.len(), |i: int| (v[i].index as int, v[i].name@))
}

/// Walks the keys of one directory listing, page by page, keeping the logical
/// index of each key across pages and handing out those at or after a start
/// offset.
pub struct DirEnumerator {
    offset: i64,
    key_idx: u64,
    listed: Ghost<Seq<Seq<u8>>>,
}

impl DirEnumerator {
    /// Keys seen so far, in listing order.
    pub closed spec fn listed(&self) -> Seq<Seq<u8>> {
        self.listed@
    }

    pub closed spec fn start(&self) -> int {
        self.offset as int
    }

    pub closed spec fn wf(&self) -> bool {
        &&& self.key_idx as int == self.listed@.len()
        &&& self.key_idx <= MAX_KEY_INDEX
    }

    pub fn new(offset: i64) -> (e: DirEnumerator)
        ensures
            e.wf(),
            e.listed() == Seq::<Seq<u8>>::empty(),
            e.start() == offset as int,
    {
        DirEnumerator { offset, key_idx: 0, listed: Ghost(Seq::empty()) }
    }

    /// Takes one page of the listing (key lengths, and the buffer that holds
    /// the keys back to back) and returns its keys whose logical index is at
    /// least the start offset. A page whose keys overrun the buffer, or that
    /// would carry the index past `MAX_KEY_INDEX`, is a store fault.
    pub fn accept_page(&mut self, key_lens: &Vec<u64>, key_buf: &Vec<u8>) -> (res: Result<
        Vec<ListedKey>,
        FsError,
    >)
        requires
            old(self).wf(),
        ensures
            final(self).wf(),
            final(self).start() == old(self).start(),
            res is Ok <==> (page_fits(key_lens@, key_buf@.len() as int) && old(self).listed().len()
                + key_lens@.len() <= MAX_KEY_INDEX),
            res is Ok ==> final(self).listed() == old(self).listed() + page_keys(
                key_lens@,
                key_buf@,
            ),
            res is Ok ==> listed_view(res->Ok_0@) == indexed_from(
                page_keys(key_lens@, key_buf@),
                old(self).listed().len() as int,
                old(self).start(),
            ),
            res is Err ==> res->Err_0 == FsError::Io && *final(self) == *old(self),
    {
        let keys = split_keys(key_lens, key_buf)?;
        assert(keys@.map_values(|k: Vec<u8>| k@).len() == keys@.len());
        if keys.len() as u64 > MAX_KEY_INDEX - self.key_idx {
            return Err(FsError::Io);
        }
        let ghost base = self.key_idx as int;
        let ghost page = keys@.map_values(|k: Vec<u8>| k@);
        let ghost s = skipped(page.len() as int, base, self.offset as int);
        let mut out: Vec<ListedKey> = Vec::new();
        let mut keys = keys;
        let mut rest: Vec<Vec<u8>> = Vec::new();
        // Take the keys out in reverse so each can be moved, then restore order.
        while keys.len() > 0
            invariant
                keys@.len() + rest@.len() == page.len(),
                forall|j: int| 0 <= j < keys@.len() ==> #[trigger] keys@[j]@ == page[j],
                forall|j: int|
                    0 <= j < rest@.len() ==> #[trigger] rest@[j]@ == page[page.len() - 1 - j],
            decreases keys.len(),
        {
            let k = keys.pop().unwrap();
            rest.push(k);
        }
        let mut idx: u64 = self.key_idx;
        while rest.len() > 0
            invariant
                rest@.len() + (idx - base) == page.len(),
                forall|t: int|
                    0 <= t < rest@.len() ==> #[trigger] rest@[t]@ == page[page.len() - 1 - t],
                base <= idx,
                base + page.len() <= MAX_KEY_INDEX,
                base == self.key_idx,
                0 <= s <= page.len(),
                s == skipped(page.len() as int, base, self.offset as int),
                out@.len() == (if idx - base >= s { idx - base - s } else { 0 }),
                forall|t: int|
                    0 <= t < out@.len() ==> (#[trigger] out@[t]).index == base + s + t
                        && out@[t].name@ == page[s + t],
            decreases rest.len(),
        {
            let k = rest.pop().unwrap();
            assert(k@ == page[idx - base]);
            if idx as i128 >= self.offset as i128 {
                out.push(ListedKey { index: idx, name: k });
            }
            idx = idx + 1;
        }
        assert(listed_view(out@) =~= indexed_from(page, base, self.offset as int));
        self.key_idx = idx;
        self.listed = Ghost(self.listed@ + page);
        Ok(out)
    }
}

/// Cuts a page buffer into its keys; `Err` when the lengths overrun it.
pub fn split_keys(key_lens: &Vec<u64>, key_buf: &Vec<u8>) -> (res: Result<Vec<Vec<u8>>, FsError>)
    ensures
        res is Ok <==> page_fits(key_lens@, key_buf@.len() as int),
        res is Ok ==> res->Ok_0@.map_values(|k: Vec<u8>| k@) == page_keys(key_lens@, key_buf@),
        res is Err ==> res->Err_0 == FsError::Io,
{
    let mut keys: Vec<Vec<u8>> = Vec::new();
    let mut start: usize = 0;
    let mut i: usize = 0;
    while i < key_lens.len()
        invariant
            i <= key_lens@.len(),
            start as int == key_start(key_lens@, i as int),
            start <= key_buf@.len(),
            keys@.len() == i,
            forall|t: int|
                0 <= t < i ==> #[trigger] keys@[t]@ == page_keys(key_lens@, key_buf@)[t],
        decreases key_lens.len() - i,
    {
        let len = key_lens[i];
        if len > (key_buf.len() - start) as u64 {
            proof {
                lemma_key_start_grows(key_lens@, i as int + 1, key_lens@.len() as int);
            }
            return Err(FsError::Io);
        }
        let end = start + len as usize;
        let mut key: Vec<u8> = Vec::new();
        let mut p: usize = start;
        while p < end
            invariant
                start <= p <= end,
                end <= key_buf@.len(),
                key@ =~= key_buf@.subrange(start as int, p as int),
            decreases end - p,
        {
            key.push(key_buf[p]);
            p = p + 1;
        }
        keys.push(key);
        start = end;
        i = i + 1;
    }
    assert(keys@.map_values(|k: Vec<u8>| k@) =~= page_keys(key_lens@, key_buf@));
    Ok(keys)
}

proof fn lemma_key_start_grows(lens: Seq<u64>, i: int, j: int)
    requires
        0 <= i <= j <= lens.len(),
    ensures
        key_start(lens, i) <= key_start(lens, j),
    decreases j - i,
{
    if i < j {
        lemma_key_start_grows(lens, i, j - 1);
    }
}

pub proof fn lemma_indexed_split(a: Seq<Seq<u8>>, b: Seq<Seq<u8>>, base: int, offset: int)
    ensures
        indexed_from(a + b, base, offset) =~= indexed_from(a, base, offset) + indexed_from(
            b,
            base + a.len(),
            offset,
        ),
{
}

/// An enumeration started at `offset` yields, over any split of the listing
/// into pages, exactly the keys whose logical index is at least `offset`,
/// each once, in listing order, with that index.
pub proof fn lemma_enumeration_pages(pages: Seq<Seq<Seq<u8>>>, offset: int)
    ensures
        enumerate_pages(pages, offset) == indexed_from(flatten_pages(pages), 0, offset),
    decreases pages.len(),
{
    if pages.len() > 0 {
        lemma_enumeration_pages(pages.drop_last(), offset);
        lemma_indexed_split(flatten_pages(pages.drop_last()), pages.last(), 0, offset);
    }
}

/// Two page splits of one listing yield the same enumeration.
pub proof fn lemma_enumeration_page_independent(
    pages_a: Seq<Seq<Seq<u8>>>,
    pages_b: Seq<Seq<Seq<u8>>>,
    offset: int,
)
    requires
        flatten_pages(pages_a) == flatten_pages(pages_b),
    ensures
        enumerate_pages(pages_a, offset) == enumerate_pages(pages_b, offset),
{
    lemma_enumeration_pages(pages_a, offset);
    lemma_enumeration_pages(pages_b, offset);
}

} // verus!
