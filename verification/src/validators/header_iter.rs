//! A source of the block headers from the genesis block up to a height, which holds no more
//! than one chunk of them in memory at a time.

use crate::blocks::BlockHeader;
use crate::chain_storage::{BlockchainBackend, ChainStorageError};
use vstd::arithmetic::div_mod::lemma_mod_add_multiples_vanish;
use vstd::prelude::*;

verus! {

/// Where a [`HeaderIter`] stands.
#[derive(Clone, Copy, Debug, PartialEq, Eq)]
pub enum SourceState {
    /// The buffer is empty and headers remain to be fetched: the next pull asks the store.
    Filling,
    /// The buffer holds headers: the next pull hands out the first of them.
    Draining,
    /// Every header up to the height has been handed out.
    Exhausted,
    /// A fetch has failed. Nothing more is handed out, and the store is not asked again.
    Errored,
}

/// How many heights beyond `start` one fetch asks for: `chunk_size`, or fewer where `height`
/// is nearer.
pub open spec fn chunk_span(start: int, chunk_size: int, height: int) -> int {
    if chunk_size < height - start {
        chunk_size
    } else {
        height - start
    }
}

/// The heights that one fetch asks for when `start` is the first height not yet fetched:
/// `start`, `start + 1`, ... up to `start + chunk_size`, but none beyond `height`.
pub open spec fn chunk_heights(start: int, chunk_size: int, height: int) -> Seq<u64> {
    if start > height {
        Seq::empty()
    } else {
        Seq::new((chunk_span(start, chunk_size, height) + 1) as nat, |i: int| (start + i) as u64)
    }
}

/// Hands out the headers of the heights `0..=height` in ascending order, fetching them from
/// the store a chunk at a time.
pub struct HeaderIter<'a, B> {
    chunk: Vec<BlockHeader>,
    chunk_size: usize,
    cursor: u64,
    fetched_all: bool,
    is_error: bool,
    height: u64,
    db: &'a B,
}

impl<'a, B: BlockchainBackend> HeaderIter<'a, B> {
    /// The store that the headers come from.
    pub closed spec fn db(&self) -> &B {
        self.db
    }

    /// The last height whose header is handed out.
    pub closed spec fn height(&self) -> u64 {
        self.height
    }

    /// One fetch asks for the headers of `chunk_size + 1` heights, or of those that remain.
    pub closed spec fn chunk_size(&self) -> usize {
        self.chunk_size
    }

    /// The number of headers that have been fetched, which is the first height not yet
    /// fetched.
    pub closed spec fn fetched(&self) -> int {
        if self.fetched_all {
            self.height + 1
        } else {
            self.cursor as int
        }
    }

    /// The headers that have been fetched and not yet handed out.
    pub closed spec fn buffered(&self) -> Seq<BlockHeader> {
        self.chunk@
    }

    /// Whether a fetch has failed.
    pub closed spec fn is_errored(&self) -> bool {
        self.is_error
    }

    /// Until every header has been fetched, the cursor is a height that remains to be
    /// fetched.
    pub closed spec fn cursor_in_range(&self) -> bool {
        !self.fetched_all ==> self.cursor <= self.height
    }

    /// The number of headers that have been handed out, which is the height of the header
    /// that comes next.
    pub open spec fn position(&self) -> int {
        self.fetched() - self.buffered().len()
    }

    /// The heights that the next fetch asks for; none once every header has been fetched.
    pub open spec fn pending_request(&self) -> Seq<u64> {
        chunk_heights(self.fetched(), self.chunk_size() as int, self.height() as int)
    }

    pub open spec fn spec_state(&self) -> SourceState {
        if self.is_errored() {
            SourceState::Errored
        } else if self.buffered().len() > 0 {
            SourceState::Draining
        } else if self.fetched() > self.height() {
            SourceState::Exhausted
        } else {
            SourceState::Filling
        }
    }

    /// The invariant of the source. Fetches start at multiples of `chunk_size + 1`, a failed
    /// fetch leaves the buffer empty, and where the store obeys its snapshot the buffer
    /// holds the headers of the heights from `position()` on.
    pub open spec fn wf(&self) -> bool {
        &&& self.cursor_in_range()
        &&& 0 <= self.position()
        &&& 0 <= self.fetched() <= self.height() + 1
        &&& self.is_errored() ==> self.buffered().len() == 0
        &&& self.fetched() <= self.height() ==> self.fetched() % (self.chunk_size() + 1) == 0
        &&& self.db().obeys_snapshot_spec() ==> forall|i: int|
            0 <= i < self.buffered().len() ==> #[trigger] self.buffered()[i] == self.db().header_at(
                (self.position() + i) as u64,
            )
    }

    /// What a run of pulls hands out from here until the end: headers in ascending order of
    /// height, starting at `position()`, then either nothing more, with all heights up to
    /// `height()` covered, or one error in the place of the first header of a chunk.
    pub open spec fn yields(&self, items: Seq<Result<BlockHeader, ChainStorageError>>) -> bool {
        if self.is_errored() {
            items.len() == 0
        } else {
            let headers = if items.len() > 0 && items.last() is Err {
                items.len() - 1
            } else {
                items.len() as int
            };
            &&& forall|i: int| 0 <= i < headers ==> (#[trigger] items[i]) is Ok
            &&& headers == items.len() ==> self.position() + headers == self.height() + 1
            &&& headers < items.len() ==> {
                &&& self.fetched() <= self.position() + headers <= self.height()
                &&& (self.position() + headers) % (self.chunk_size() + 1) == 0
            }
            &&& self.db().obeys_snapshot_spec() ==> forall|i: int|
                0 <= i < headers ==> #[trigger] items[i] == Ok::<BlockHeader, ChainStorageError>(
                    self.db().header_at((self.position() + i) as u64),
                )
        }
    }

    /// A source of the headers of the heights `0..=height` in `db`, which asks `db` for
    /// `chunk_size + 1` headers at a time.
    pub fn new(db: &'a B, height: u64, chunk_size: usize) -> (source: Self)
        ensures
            source.wf(),
            source.db() == db,
            source.height() == height,
            source.chunk_size() == chunk_size,
            source.fetched() == 0,
            source.position() == 0,
            source.spec_state() is Filling,
    {
        HeaderIter {
            db,
            chunk_size,
            cursor: 0,
            fetched_all: false,
            is_error: false,
            height,
            chunk: Vec::new(),
        }
    }

    /// Where the source stands.
    #[verifier::when_used_as_spec(spec_state)]
    pub fn state(&self) -> (state: SourceState)
        requires
            self.wf(),
        ensures
            state == self.spec_state(),
    {
        if self.is_error {
            SourceState::Errored
        } else if self.chunk.len() > 0 {
            SourceState::Draining
        } else if self.fetched_all {
            SourceState::Exhausted
        } else {
            SourceState::Filling
        }
    }

    /// How many heights beyond the cursor the next fetch asks for.
    fn pending_span(&self) -> (span: u64)
        requires
            self.wf(),
            !self.fetched_all,
        ensures
            span == chunk_span(self.cursor as int, self.chunk_size as int, self.height as int),
            self.cursor + span <= self.height,
    {
        let room: u64 = self.height - self.cursor;
        if (self.chunk_size as u64) < room {
            self.chunk_size as u64
        } else {
            room
        }
    }

    /// The heights that the next fetch asks for.
    pub fn next_chunk(&self) -> (heights: Vec<u64>)
        requires
            self.wf(),
        ensures
            heights@ == self.pending_request(),
    {
        let mut heights: Vec<u64> = Vec::new();
        if self.fetched_all {
            return heights;
        }
        let upper: u64 = self.cursor + self.pending_span();
        let mut next: u64 = self.cursor;
        while next < upper
            invariant
                self.cursor <= next <= upper,
                heights@ == Seq::new((next - self.cursor) as nat, |i: int| (self.cursor + i) as u64),
            decreases upper - next,
        {
            heights.push(next);
            next = next + 1;
        }
        heights.push(upper);
        heights
    }

    /// Takes the store's answer to the pending request and hands out the first item that
    /// follows from it.
    ///
    /// An error of the store is handed out as it is, and the source is at its end. So it
    /// is, with `UnexpectedResult`, where the store answers with another number of headers
    /// than it was asked for. Otherwise the first header of the answer is handed out and
    /// the others are buffered. A source that is not waiting for an answer drops `reply`.
    pub fn accept_chunk(&mut self, reply: Result<Vec<BlockHeader>, ChainStorageError>) -> (item: Option<
        Result<BlockHeader, ChainStorageError>,
    >)
        requires
            old(self).wf(),
            old(self).db().obeys_snapshot_spec() ==> (reply matches Ok(headers) ==> {
                &&& headers@.len() == old(self).pending_request().len()
                &&& forall|i: int|
                    0 <= i < headers@.len() ==> headers@[i] == old(self).db().header_at(
                        #[trigger] old(self).pending_request()[i],
                    )
            }),
        ensures
            final(self).wf(),
            final(self).db() == old(self).db(),
            final(self).height() == old(self).height(),
            final(self).chunk_size() == old(self).chunk_size(),
            !(old(self).spec_state() is Filling) ==> item is None && *final(self) == *old(self),
            old(self).spec_state() is Filling ==> match reply {
                Ok(headers) if headers@.len() == old(self).pending_request().len() => {
                    &&& item == Some(Ok::<BlockHeader, ChainStorageError>(headers@[0]))
                    &&& !final(self).is_errored()
                    &&& final(self).buffered() == headers@.skip(1)
                    &&& final(self).fetched() == old(self).fetched() + headers@.len()
                },
                Ok(_) => {
                    &&& item == Some(Err::<BlockHeader, ChainStorageError>(ChainStorageError::UnexpectedResult))
                    &&& final(self).is_errored()
                    &&& final(self).buffered() == old(self).buffered()
                    &&& final(self).fetched() == old(self).fetched()
                },
                Err(error) => {
                    &&& item == Some(Err::<BlockHeader, ChainStorageError>(error))
                    &&& final(self).is_errored()
                    &&& final(self).buffered() == old(self).buffered()
                    &&& final(self).fetched() == old(self).fetched()
                },
            },
    {
        if self.is_error || self.chunk.len() > 0 || self.fetched_all {
            return None;
        }
        match reply {
            Ok(mut headers) => {
                let span: u64 = self.pending_span();
                if headers.len() == 0 || ((headers.len() - 1) as u64) != span {
                    self.is_error = true;
                    return Some(Err(ChainStorageError::UnexpectedResult));
                }
                proof {
                    lemma_mod_add_multiples_vanish(self.cursor as int, self.chunk_size + 1);
                    if self.db.obeys_snapshot_spec() {
                        assert forall|i: int| 0 <= i < headers@.len() implies #[trigger] headers@[i]
                            == self.db.header_at((self.cursor + i) as u64) by {
                            assert(self.pending_request()[i] == (self.cursor + i) as u64);
                        }
                    }
                }
                let ghost fetched = headers@;
                let header = headers.remove(0);
                assert(headers@ =~= fetched.skip(1));
                if self.cursor + span == self.height {
                    self.fetched_all = true;
                } else {
                    self.cursor = self.cursor + span + 1;
                }
                self.chunk = headers;
                Some(Ok(header))
            },
            Err(error) => {
                self.is_error = true;
                Some(Err(error))
            },
        }
    }

    /// Hands out the next header, after fetching a chunk where the buffer is empty.
    ///
    /// `None` once every header has been handed out, or after a failure. Where the buffer
    /// is empty and headers remain, the store is asked for the heights of
    /// [`next_chunk`](HeaderIter::next_chunk), and what comes back goes through
    /// [`accept_chunk`](HeaderIter::accept_chunk).
    pub fn next(&mut self) -> (item: Option<Result<BlockHeader, ChainStorageError>>)
        requires
            old(self).wf(),
        ensures
            final(self).wf(),
            final(self).db() == old(self).db(),
            final(self).height() == old(self).height(),
            final(self).chunk_size() == old(self).chunk_size(),
            old(self).spec_state() is Errored || old(self).spec_state() is Exhausted ==> item is None,
            old(self).spec_state() is Draining ==> item == Some(
                Ok::<BlockHeader, ChainStorageError>(old(self).buffered()[0]),
            ),
            old(self).spec_state() is Filling ==> item is Some,
            item is None ==> *final(self) == *old(self),
            item matches Some(Ok(header)) ==> {
                &&& !final(self).is_errored()
                &&& final(self).position() == old(self).position() + 1
                &&& final(self).fetched() == old(self).fetched() + (if old(self).spec_state() is Filling {
                    old(self).pending_request().len()
                } else {
                    0
                })
                &&& old(self).db().obeys_snapshot_spec() ==> header == old(self).db().header_at(
                    old(self).position() as u64,
                )
            },
            item matches Some(Err(_)) ==> {
                &&& old(self).spec_state() is Filling
                &&& final(self).is_errored()
                &&& final(self).position() == old(self).position()
                &&& final(self).fetched() == old(self).fetched()
            },
    {
        if self.is_error {
            return None;
        }
        if self.chunk.len() == 0 {
            let block_nums = self.next_chunk();
            if block_nums.len() == 0 {
                return None;
            }
            let ghost request = block_nums@;
            let reply = self.db.fetch_headers(block_nums);
            proof {
                assert(request[0] == self.position() as u64);
            }
            return self.accept_chunk(reply);
        }
        let ghost before = self.chunk@;
        let header = self.chunk.remove(0);
        assert(self.chunk@ =~= before.skip(1));
        Some(Ok(header))
    }

    /// Pulls until the source is at its end, and returns all that was handed out.
    pub fn collect(self) -> (items: Vec<Result<BlockHeader, ChainStorageError>>)
        requires
            self.wf(),
        ensures
            self.yields(items@),
    {
        let mut source = self;
        let mut items: Vec<Result<BlockHeader, ChainStorageError>> = Vec::new();
        let mut done = false;
        while !done
            invariant
                source.wf(),
                self.wf(),
                source.db() == self.db(),
                source.height() == self.height(),
                source.chunk_size() == self.chunk_size(),
                source.fetched() >= self.fetched(),
                self.is_errored() ==> source.is_errored() && items@.len() == 0,
                done ==> source.spec_state() is Errored || source.spec_state() is Exhausted,
                !source.is_errored() ==> items@.len() == source.position() - self.position(),
                !self.is_errored() && source.is_errored() ==> {
                    &&& items@.len() == source.position() - self.position() + 1
                    &&& items@.last() is Err
                    &&& self.fetched() <= source.position() <= source.height()
                    &&& source.position() % (source.chunk_size() + 1) == 0
                },
                !self.is_errored() ==> forall|i: int|
                    0 <= i < source.position() - self.position() ==> (#[trigger] items@[i]) is Ok,
                !self.is_errored() && source.db().obeys_snapshot_spec() ==> forall|i: int|
                    0 <= i < source.position() - self.position() ==> #[trigger] items@[i] == Ok::<
                        BlockHeader,
                        ChainStorageError,
                    >(source.db().header_at((self.position() + i) as u64)),
            decreases
                    (if done {
                        0
                    } else if source.is_errored() {
                        1
                    } else {
                        source.height() + 3 - source.position()
                    }),
        {
            match source.next() {
                None => {
                    done = true;
                },
                Some(item) => {
                    items.push(item);
                },
            }
        }
        items
    }
}

/// A run from the start that meets no failure hands out exactly `height + 1` headers, and
/// on a store that obeys its snapshot they are the headers of the heights `0..=height`
/// in ascending order, whatever the chunk size.
pub proof fn lemma_complete_run<B: BlockchainBackend>(
    source: HeaderIter<'_, B>,
    items: Seq<Result<BlockHeader, ChainStorageError>>,
)
    requires
        source.wf(),
        source.position() == 0,
        !source.is_errored(),
        source.yields(items),
        forall|i: int| 0 <= i < items.len() ==> (#[trigger] items[i]) is Ok,
    ensures
        items.len() == source.height() + 1,
        source.db().obeys_snapshot_spec() ==> forall|i: int|
            0 <= i <= source.height() ==> #[trigger] items[i] == Ok::<BlockHeader, ChainStorageError>(
                source.db().header_at(i as u64),
            ),
{
}

/// Two runs from the start over the same store and up to the same height, neither of
/// which meets a failure, hand out the same headers, though their chunk sizes differ.
pub proof fn lemma_chunk_size_does_not_change_headers<B: BlockchainBackend>(
    one: HeaderIter<'_, B>,
    other: HeaderIter<'_, B>,
    items_of_one: Seq<Result<BlockHeader, ChainStorageError>>,
    items_of_other: Seq<Result<BlockHeader, ChainStorageError>>,
)
    requires
        one.wf(),
        other.wf(),
        one.db() == other.db(),
        one.db().obeys_snapshot_spec(),
        one.height() == other.height(),
        one.position() == 0 && !one.is_errored(),
        other.position() == 0 && !other.is_errored(),
        one.yields(items_of_one),
        other.yields(items_of_other),
        forall|i: int| 0 <= i < items_of_one.len() ==> (#[trigger] items_of_one[i]) is Ok,
        forall|i: int| 0 <= i < items_of_other.len() ==> (#[trigger] items_of_other[i]) is Ok,
    ensures
        items_of_one == items_of_other,
{
    lemma_complete_run(one, items_of_one);
    lemma_complete_run(other, items_of_other);
    assert(items_of_one =~= items_of_other);
}

/// A run from the start that meets a failure hands out the headers of the chunks that
/// were fetched before it, all of them whole, and then the one error.
pub proof fn lemma_failed_run<B: BlockchainBackend>(
    source: HeaderIter<'_, B>,
    items: Seq<Result<BlockHeader, ChainStorageError>>,
)
    requires
        source.wf(),
        source.position() == 0,
        !source.is_errored(),
        source.yields(items),
        exists|i: int| 0 <= i < items.len() && (#[trigger] items[i]) is Err,
    ensures
        items.len() >= 1,
        items.last() is Err,
        forall|i: int| 0 <= i < items.len() - 1 ==> (#[trigger] items[i]) is Ok,
        items.len() - 1 <= source.height(),
        (items.len() - 1) % (source.chunk_size() + 1) == 0,
        source.db().obeys_snapshot_spec() ==> forall|i: int|
            0 <= i < items.len() - 1 ==> #[trigger] items[i] == Ok::<BlockHeader, ChainStorageError>(
                source.db().header_at(i as u64),
            ),
{
}

} // verus!
