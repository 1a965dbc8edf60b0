//! Iterators over a database or a column family, and over the write-ahead log.
use vstd::prelude::*;

use crate::db_options::ReadOptions;
use crate::error::Error;
use crate::write_batch::WriteBatch;

verus! {

/// The engine's cursor over the keys of a database or column family, as the
/// engine gives it.  Nothing is assumed of what its methods report: the
/// iterators below decide on whatever comes back.
pub trait DBRawIteratorHandle: Sized {
    /// What the cursor may answer when asked whether it is at an entry.
    /// Like the three relations below, it relates the cursor to an answer;
    /// a cursor that says nothing of its answers keeps the default, which
    /// admits every answer.
    closed spec fn valid_answer(&self, b: bool) -> bool {
        true
    }

    /// What the cursor may report as its status.
    closed spec fn status_reply(&self, r: Result<(), String>) -> bool {
        true
    }

    /// What the cursor may give as the key it is at.
    closed spec fn key_answer(&self, k: Seq<u8>) -> bool {
        true
    }

    /// What the cursor may give as the value it is at.
    closed spec fn value_answer(&self, v: Seq<u8>) -> bool {
        true
    }

    /// What the cursor may be after the move `m`: a relation of the cursor
    /// before the move to the cursor after it.  Each move below is taken by
    /// this relation at the move it performs, so that a move cannot stand in
    /// for another; the default admits every cursor.
    closed spec fn moved(&self, m: CursorMove, after: Self) -> bool {
        true
    }

    /// Performs `rocksdb_iter_valid`.
    fn valid(&self) -> (b: bool)
        ensures
            self.valid_answer(b),
    ;

    /// Performs `rocksdb_iter_get_error`, giving back the message reported, if any.
    fn status(&self) -> (r: Result<(), String>)
        ensures
            self.status_reply(r),
    ;

    /// Performs `rocksdb_iter_seek_to_first`.
    fn seek_to_first(&mut self)
        ensures
            old(self).moved(CursorMove::SeekToFirst, *final(self)),
    ;

    /// Performs `rocksdb_iter_seek_to_last`.
    fn seek_to_last(&mut self)
        ensures
            old(self).moved(CursorMove::SeekToLast, *final(self)),
    ;

    /// Performs `rocksdb_iter_seek`.
    fn seek(&mut self, key: &[u8])
        ensures
            old(self).moved(CursorMove::Seek(key@), *final(self)),
    ;

    /// Performs `rocksdb_iter_seek_for_prev`.
    fn seek_for_prev(&mut self, key: &[u8])
        ensures
            old(self).moved(CursorMove::SeekForPrev(key@), *final(self)),
    ;

    /// Performs `rocksdb_iter_next`.
    fn next(&mut self)
        ensures
            old(self).moved(CursorMove::Next, *final(self)),
    ;

    /// Performs `rocksdb_iter_prev`.
    fn prev(&mut self)
        ensures
            old(self).moved(CursorMove::Prev, *final(self)),
    ;

    /// Performs `rocksdb_iter_key`; only called while the cursor is valid.
    fn key(&self) -> (k: &[u8])
        ensures
            self.key_answer(k@),
    ;

    /// Performs `rocksdb_iter_value`; only called while the cursor is valid.
    fn value(&self) -> (v: &[u8])
        ensures
            self.value_answer(v@),
    ;
}

/// The engine's cursor over the write-ahead log, as the engine gives it.
pub trait DBWalIteratorHandle {
    /// What the log cursor may answer when asked whether it is at a batch; a
    /// relation, whose default admits every answer.
    closed spec fn valid_answer(&self, b: bool) -> bool {
        true
    }

    /// What the log cursor may report as its status; a relation, whose
    /// default admits every answer.
    closed spec fn status_reply(&self, r: Result<(), String>) -> bool {
        true
    }

    /// Performs `rocksdb_wal_iter_valid`.
    fn valid(&self) -> (b: bool)
        ensures
            self.valid_answer(b),
    ;

    /// Performs `rocksdb_wal_iter_status`, giving back the message reported, if any.
    fn status(&self) -> (r: Result<(), String>)
        ensures
            self.status_reply(r),
    ;

    /// Performs `rocksdb_wal_iter_get_batch`: the sequence number and the batch
    /// at the cursor.
    fn get_batch(&self) -> (u64, WriteBatch);

    /// Performs `rocksdb_wal_iter_next`.
    fn next(&mut self);
}

/// `o` is what the library makes of the engine's report `raw`: the value
/// reported, or an error carrying the message reported.
pub open spec fn converted<T>(raw: Result<T, String>, o: Result<T, Error>) -> bool {
    match raw {
        Ok(v) => o == Ok::<T, Error>(v),
        Err(m) => o matches Err(e) && e.view() == m@,
    }
}

/// Turns what the engine reported into a result of the library.
pub fn engine_result<T>(r: Result<T, String>) -> (o: Result<T, Error>)
    ensures
        converted(r, o),
{
    match r {
        Ok(v) => Ok(v),
        Err(m) => Err(Error::new(m)),
    }
}

/// A move handed to the engine's cursor.
pub enum CursorMove {
    SeekToFirst,
    SeekToLast,
    Seek(Seq<u8>),
    SeekForPrev(Seq<u8>),
    Next,
    Prev,
}

/// An iterator over a database or column family, with specifiable
/// ranges and direction.
///
/// This iterator replicates the underlying iterator API within RocksDB itself.
pub struct DBRawIteratorWithThreadMode<'a, I: DBRawIteratorHandle> {
    inner: I,
    /// The read options the cursor was made with, kept alive as long as it.
    _readopts: ReadOptions,
    /// The moves handed to the engine's cursor, in order.
    moves: Ghost<Seq<CursorMove>>,
    /// The column family the cursor was asked to read (`None`: the default one).
    cf: Ghost<Option<u64>>,
    db: std::marker::PhantomData<&'a u8>,
}

impl<'a, I: DBRawIteratorHandle> DBRawIteratorWithThreadMode<'a, I> {
    /// The read options this iterator was made with.
    pub closed spec fn spec_readopts(&self) -> ReadOptions {
        self._readopts
    }

    /// The moves handed to the engine's cursor since it was wrapped, in order.
    pub closed spec fn spec_moves(&self) -> Seq<CursorMove> {
        self.moves@
    }

    /// `after` is this iterator once the engine's cursor made the move `m`:
    /// the move is recorded, and the cursor was moved by that very move.
    pub closed spec fn spec_stepped(&self, m: CursorMove, after: Self) -> bool {
        &&& after.moves@ == self.moves@.push(m)
        &&& self.inner.moved(m, after.inner)
        &&& after._readopts == self._readopts
        &&& after.cf@ == self.cf@
    }

    /// `after` is this iterator with its cursor left where it was.
    pub closed spec fn spec_unmoved(&self, after: Self) -> bool {
        after == *self
    }

    /// The column family the engine's cursor was asked to read, by its
    /// handle; `None` for the default column family.
    pub closed spec fn spec_cf(&self) -> Option<u64> {
        self.cf@
    }

    /// Wraps a cursor that the engine made with `readopts`.
    pub fn from_inner(inner: I, readopts: ReadOptions) -> (r: Self)
        ensures
            r.spec_readopts() == readopts,
            r.spec_moves() == Seq::<CursorMove>::empty(),
    {
        DBRawIteratorWithThreadMode {
            inner,
            _readopts: readopts,
            moves: Ghost(Seq::empty()),
            cf: Ghost(None),
            db: std::marker::PhantomData,
        }
    }

    /// Wraps a cursor that the engine made with `readopts` over the column
    /// family `cf` (`None`: the default one).
    pub(crate) fn from_inner_cf(inner: I, readopts: ReadOptions, cf: Ghost<Option<u64>>) -> (r: Self)
        ensures
            r.spec_readopts() == readopts,
            r.spec_moves() == Seq::<CursorMove>::empty(),
            r.spec_cf() == cf@,
    {
        DBRawIteratorWithThreadMode {
            inner,
            _readopts: readopts,
            moves: Ghost(Seq::empty()),
            cf,
            db: std::marker::PhantomData,
        }
    }

    /// Steps the cursor once in `direction`, where it is known to be valid.
    fn advance(&mut self, direction: Direction)
        ensures
            final(self).spec_readopts() == old(self).spec_readopts(),
            final(self).spec_cf() == old(self).spec_cf(),
            final(self).spec_moves() == old(self).spec_moves().push(step_of(direction)),
            old(self).spec_stepped(step_of(direction), *final(self)),
    {
        match direction {
            Direction::Forward => self.inner.next(),
            Direction::Reverse => self.inner.prev(),
        }
        proof {
            self.moves@ = self.moves@.push(step_of(direction));
        }
    }

    /// What the engine's cursor may answer when asked whether it is at an entry.
    pub closed spec fn spec_valid_answer(&self, b: bool) -> bool {
        self.inner.valid_answer(b)
    }

    /// What the engine's cursor may report as its status.
    pub closed spec fn spec_status_reply(&self, r: Result<(), String>) -> bool {
        self.inner.status_reply(r)
    }

    /// What the engine's cursor may give as the key it is at.
    pub closed spec fn spec_key_answer(&self, k: Seq<u8>) -> bool {
        self.inner.key_answer(k)
    }

    /// What the engine's cursor may give as the value it is at.
    pub closed spec fn spec_value_answer(&self, v: Seq<u8>) -> bool {
        self.inner.value_answer(v)
    }

    /// Returns `true` if the iterator is valid. An iterator is invalidated when
    /// it reaches the end of its defined range, or when it encounters an error.
    pub fn valid(&self) -> (b: bool)
        ensures
            self.spec_valid_answer(b),
    {
        self.inner.valid()
    }

    /// Returns an error `Result` if the iterator has encountered an error
    /// during operation.
    pub fn status(&self) -> (r: Result<(), Error>)
        ensures
            exists|raw: Result<(), String>| #[trigger] self.spec_status_reply(raw) && converted(raw, r),
    {
        let raw = self.inner.status();
        assert(self.spec_status_reply(raw));
        engine_result(raw)
    }

    /// Seeks to the first key in the database.
    pub fn seek_to_first(&mut self)
        ensures
            final(self).spec_readopts() == old(self).spec_readopts(),
            final(self).spec_cf() == old(self).spec_cf(),
            final(self).spec_moves() == old(self).spec_moves().push(CursorMove::SeekToFirst),
            old(self).spec_stepped(CursorMove::SeekToFirst, *final(self)),
    {
        self.inner.seek_to_first();
        proof {
            self.moves@ = self.moves@.push(CursorMove::SeekToFirst);
        }
    }

    /// Seeks to the last key in the database.
    pub fn seek_to_last(&mut self)
        ensures
            final(self).spec_readopts() == old(self).spec_readopts(),
            final(self).spec_cf() == old(self).spec_cf(),
            final(self).spec_moves() == old(self).spec_moves().push(CursorMove::SeekToLast),
            old(self).spec_stepped(CursorMove::SeekToLast, *final(self)),
    {
        self.inner.seek_to_last();
        proof {
            self.moves@ = self.moves@.push(CursorMove::SeekToLast);
        }
    }

    /// Seeks to the specified key or the first key that lexicographically follows it.
    pub fn seek(&mut self, key: &[u8])
        ensures
            final(self).spec_readopts() == old(self).spec_readopts(),
            final(self).spec_cf() == old(self).spec_cf(),
            final(self).spec_moves() == old(self).spec_moves().push(CursorMove::Seek(key@)),
            old(self).spec_stepped(CursorMove::Seek(key@), *final(self)),
    {
        self.inner.seek(key);
        proof {
            self.moves@ = self.moves@.push(CursorMove::Seek(key@));
        }
    }

    /// Seeks to the specified key, or the first key that lexicographically precedes it.
    pub fn seek_for_prev(&mut self, key: &[u8])
        ensures
            final(self).spec_readopts() == old(self).spec_readopts(),
            final(self).spec_cf() == old(self).spec_cf(),
            final(self).spec_moves() == old(self).spec_moves().push(CursorMove::SeekForPrev(key@)),
            old(self).spec_stepped(CursorMove::SeekForPrev(key@), *final(self)),
    {
        self.inner.seek_for_prev(key);
        proof {
            self.moves@ = self.moves@.push(CursorMove::SeekForPrev(key@));
        }
    }

    /// Seeks to the next key, if the iterator is valid.
    pub fn next(&mut self)
        ensures
            final(self).spec_readopts() == old(self).spec_readopts(),
            final(self).spec_cf() == old(self).spec_cf(),
            final(self).spec_moves() == old(self).spec_moves().push(CursorMove::Next)
                || final(self).spec_moves() == old(self).spec_moves(),
            exists|b: bool| #[trigger] old(self).spec_valid_answer(b) && (b ==> old(self).spec_stepped(
                CursorMove::Next,
                *final(self),
            )) && (!b ==> old(self).spec_unmoved(*final(self))),
    {
        if self.inner.valid() {
            self.inner.next();
            proof {
                self.moves@ = self.moves@.push(CursorMove::Next);
                assert(old(self).spec_valid_answer(true));
            }
        } else {
            proof {
                assert(old(self).spec_valid_answer(false));
            }
        }
    }

    /// Seeks to the previous key, if the iterator is valid.
    pub fn prev(&mut self)
        ensures
            final(self).spec_readopts() == old(self).spec_readopts(),
            final(self).spec_cf() == old(self).spec_cf(),
            final(self).spec_moves() == old(self).spec_moves().push(CursorMove::Prev)
                || final(self).spec_moves() == old(self).spec_moves(),
            exists|b: bool| #[trigger] old(self).spec_valid_answer(b) && (b ==> old(self).spec_stepped(
                CursorMove::Prev,
                *final(self),
            )) && (!b ==> old(self).spec_unmoved(*final(self))),
    {
        if self.inner.valid() {
            self.inner.prev();
            proof {
                self.moves@ = self.moves@.push(CursorMove::Prev);
                assert(old(self).spec_valid_answer(true));
            }
        } else {
            proof {
                assert(old(self).spec_valid_answer(false));
            }
        }
    }

    /// Returns a slice of the current key.
    pub fn key(&self) -> (r: Option<&[u8]>)
        ensures
            exists|b: bool| #[trigger] self.spec_valid_answer(b) && (r is Some <==> b),
            r matches Some(k) ==> self.spec_key_answer(k@),
    {
        let b = self.inner.valid();
        assert(self.spec_valid_answer(b));
        if b {
            Some(self.inner.key())
        } else {
            None
        }
    }

    /// Returns a slice of the current value.
    pub fn value(&self) -> (r: Option<&[u8]>)
        ensures
            exists|b: bool| #[trigger] self.spec_valid_answer(b) && (r is Some <==> b),
            r matches Some(v) ==> self.spec_value_answer(v@),
    {
        let b = self.inner.valid();
        assert(self.spec_valid_answer(b));
        if b {
            Some(self.inner.value())
        } else {
            None
        }
    }

    /// Returns pair with slice of the current key and current value.
    pub fn item(&self) -> (r: Option<(&[u8], &[u8])>)
        ensures
            exists|b: bool| #[trigger] self.spec_valid_answer(b) && (r is Some <==> b),
            r matches Some(kv) ==> self.spec_key_answer(kv.0@) && self.spec_value_answer(kv.1@),
    {
        let b = self.inner.valid();
        assert(self.spec_valid_answer(b));
        if b {
            Some((self.inner.key(), self.inner.value()))
        } else {
            None
        }
    }
}

#[derive(Debug, Copy, Clone, PartialEq, Eq, Structural)]
pub enum Direction {
    Forward,
    Reverse,
}

/// A key and a value, copied out of the database.
pub type KVBytes = (Vec<u8>, Vec<u8>);

#[derive(Copy, Clone)]
pub enum IteratorMode<'a> {
    Start,
    End,
    From(&'a [u8], Direction),
}

/// The seek that positions a cursor as `mode` says.
pub open spec fn seek_of(mode: IteratorMode) -> CursorMove {
    match mode {
        IteratorMode::Start => CursorMove::SeekToFirst,
        IteratorMode::End => CursorMove::SeekToLast,
        IteratorMode::From(key, Direction::Forward) => CursorMove::Seek(key@),
        IteratorMode::From(key, Direction::Reverse) => CursorMove::SeekForPrev(key@),
    }
}

/// The step that moves a cursor one key in `direction`.
pub open spec fn step_of(direction: Direction) -> CursorMove {
    match direction {
        Direction::Forward => CursorMove::Next,
        Direction::Reverse => CursorMove::Prev,
    }
}

/// The direction in which an iterator set to `mode` moves.
pub open spec fn mode_direction(mode: IteratorMode) -> Direction {
    match mode {
        IteratorMode::Start => Direction::Forward,
        IteratorMode::End => Direction::Reverse,
        IteratorMode::From(_, d) => d,
    }
}

/// An iterator over a database or column family, with specifiable
/// ranges and direction.  Once it has reported the end or an error, it
/// reports nothing more.
pub struct DBIteratorWithThreadMode<'a, I: DBRawIteratorHandle> {
    raw: DBRawIteratorWithThreadMode<'a, I>,
    direction: Direction,
    done: bool,
    /// What the steps read from the cursor, in order.
    seen: Ghost<Seq<CursorRead>>,
}

/// What a step of an iterator read from the engine's cursor.
pub enum CursorRead {
    /// The item at the cursor (`None`: the cursor was not valid).
    Item(Option<(Seq<u8>, Seq<u8>)>),
    /// The cursor's status: its error message, if any.
    Status(Option<Seq<char>>),
}

impl<'a, I: DBRawIteratorHandle> DBIteratorWithThreadMode<'a, I> {
    /// The direction in which the iterator moves.
    pub closed spec fn spec_direction(&self) -> Direction {
        self.direction
    }

    /// The iterator has reported its end or an error.
    pub closed spec fn spec_done(&self) -> bool {
        self.done
    }

    /// The read options the iterator was made with.
    pub closed spec fn spec_readopts(&self) -> ReadOptions {
        self.raw.spec_readopts()
    }

    /// The moves handed to the engine's cursor, in order.
    pub closed spec fn spec_moves(&self) -> Seq<CursorMove> {
        self.raw.spec_moves()
    }

    /// What the steps taken so far read from the engine's cursor, in order.
    pub closed spec fn spec_seen(&self) -> Seq<CursorRead> {
        self.seen@
    }

    /// The column family the engine's cursor reads; `None` for the default one.
    pub closed spec fn spec_cf(&self) -> Option<u64> {
        self.raw.spec_cf()
    }

    /// The raw iterator underneath.
    pub closed spec fn spec_raw(&self) -> DBRawIteratorWithThreadMode<'a, I> {
        self.raw
    }

    /// An iterator over `raw`, positioned as `mode` says.
    pub fn from_raw(raw: DBRawIteratorWithThreadMode<'a, I>, mode: IteratorMode) -> (r: Self)
        ensures
            !r.spec_done(),
            r.spec_direction() == mode_direction(mode),
            r.spec_readopts() == raw.spec_readopts(),
            r.spec_cf() == raw.spec_cf(),
            r.spec_moves() == raw.spec_moves().push(seek_of(mode)),
            raw.spec_stepped(seek_of(mode), r.spec_raw()),
            r.spec_seen() == Seq::<CursorRead>::empty(),
    {
        let mut rv = DBIteratorWithThreadMode {
            raw,
            direction: Direction::Forward,
            done: false,
            seen: Ghost(Seq::empty()),
        };
        rv.set_mode(mode);
        rv
    }

    /// Repositions the iterator as `mode` says, and lets it report again.
    pub fn set_mode(&mut self, mode: IteratorMode)
        ensures
            !final(self).spec_done(),
            final(self).spec_direction() == mode_direction(mode),
            final(self).spec_readopts() == old(self).spec_readopts(),
            final(self).spec_cf() == old(self).spec_cf(),
            final(self).spec_moves() == old(self).spec_moves().push(seek_of(mode)),
            old(self).spec_raw().spec_stepped(seek_of(mode), final(self).spec_raw()),
            final(self).spec_seen() == old(self).spec_seen(),
    {
        self.done = false;
        self.direction = match mode {
            IteratorMode::Start => {
                self.raw.seek_to_first();
                Direction::Forward
            },
            IteratorMode::End => {
                self.raw.seek_to_last();
                Direction::Reverse
            },
            IteratorMode::From(key, Direction::Forward) => {
                self.raw.seek(key);
                Direction::Forward
            },
            IteratorMode::From(key, Direction::Reverse) => {
                self.raw.seek_for_prev(key);
                Direction::Reverse
            },
        };
    }

    /// The next key and value, in the iterator's direction.
    ///
    /// When the cursor has no more items, the iterator is done: it reports the
    /// cursor's error if it has one, and from then on reports nothing.
    pub fn next(&mut self) -> (r: Option<Result<KVBytes, Error>>)
        ensures
            final(self).spec_direction() == old(self).spec_direction(),
            final(self).spec_readopts() == old(self).spec_readopts(),
            final(self).spec_cf() == old(self).spec_cf(),
            old(self).spec_done() ==> r is None && final(self).spec_done() && final(self).spec_moves()
                == old(self).spec_moves() && final(self).spec_seen() == old(self).spec_seen(),
            !old(self).spec_done() ==> match r {
                Some(Ok(kv)) => !final(self).spec_done() && final(self).spec_seen() == old(
                    self,
                ).spec_seen().push(CursorRead::Item(Some((kv.0@, kv.1@)))) && final(self).spec_moves()
                    == old(self).spec_moves().push(step_of(old(self).spec_direction())) && old(
                    self,
                ).spec_raw().spec_stepped(step_of(old(self).spec_direction()), final(self).spec_raw()),
                None => final(self).spec_done() && final(self).spec_moves() == old(self).spec_moves()
                    && final(self).spec_seen() == old(self).spec_seen().push(CursorRead::Item(None)).push(
                    CursorRead::Status(None),
                ),
                Some(Err(e)) => final(self).spec_done() && final(self).spec_moves() == old(
                    self,
                ).spec_moves() && final(self).spec_seen() == old(self).spec_seen().push(
                    CursorRead::Item(None),
                ).push(CursorRead::Status(Some(e.view()))),
            },
    {
        if self.done {
            None
        } else {
            let item = match self.raw.item() {
                Some((key, value)) => Some(
                    (vstd::slice::slice_to_vec(key), vstd::slice::slice_to_vec(value)),
                ),
                None => None,
            };
            match item {
                Some(kv) => {
                    proof {
                        self.seen@ = self.seen@.push(CursorRead::Item(Some((kv.0@, kv.1@))));
                    }
                    // the cursor gave an item, so it is valid: step past it
                    self.raw.advance(self.direction);
                    Some(Ok(kv))
                },
                None => {
                    self.done = true;
                    let status = self.raw.status();
                    proof {
                        let m: Option<Seq<char>> = match status {
                            Ok(()) => None,
                            Err(ref e) => Some(e.view()),
                        };
                        self.seen@ = self.seen@.push(CursorRead::Item(None)).push(CursorRead::Status(m));
                    }
                    match status {
                        Ok(()) => None,
                        Err(e) => Some(Err(e)),
                    }
                },
            }
        }
    }

    /// Gives back the raw iterator.
    pub fn into_raw(self) -> (r: DBRawIteratorWithThreadMode<'a, I>)
        ensures
            r.spec_readopts() == self.spec_readopts(),
            r.spec_moves() == self.spec_moves(),
            r.spec_cf() == self.spec_cf(),
    {
        self.raw
    }
}

/// What one step of a [`DBWALIterator`] came to.
pub enum WalStep {
    /// The log is exhausted.
    End,
    /// A batch at or before the requested sequence number was passed over.
    Skipped,
    /// The next item: a batch and its sequence number, or the error the
    /// engine reported.
    Item(Result<(u64, WriteBatch), Error>),
}

/// What the library asked of the engine's log cursor in one step, and what
/// the cursor answered.
pub enum WalEvent {
    /// The cursor was asked whether it is valid, and answered.
    Valid(bool),
    /// The batch at the cursor was read; it has this sequence number.
    Batch(u64),
    /// The cursor was stepped past its batch.
    Next,
    /// The cursor's status was read: its error message, if any.
    Status(Option<Seq<char>>),
}

/// What one step of a log iterator comes to, given what the cursor answered
/// during it (`events`) and the sequence number asked for (`start`): the
/// end when the cursor is invalid; a batch at or before `start` is passed
/// over and the cursor stepped; a later batch is the item, and the cursor
/// stepped past it, unless the cursor turned invalid, which ends the
/// iteration with the cursor's error, if it reports one.
pub open spec fn wal_step_told(start: u64, events: Seq<WalEvent>, s: WalStep) -> bool {
    if events.len() == 1 && events[0] == WalEvent::Valid(false) {
        s is End
    } else if events.len() == 3 && events[0] == WalEvent::Valid(true) && events[1] is Batch
        && events[2] == WalEvent::Next {
        events[1] matches WalEvent::Batch(seq) && seq <= start && s is Skipped
    } else if events.len() == 4 && events[0] == WalEvent::Valid(true) && events[1] is Batch
        && events[2] == WalEvent::Valid(true) && events[3] == WalEvent::Next {
        events[1] matches WalEvent::Batch(seq) && seq > start && (s matches WalStep::Item(Ok((n, _)))
            && n == seq)
    } else if events.len() == 4 && events[0] == WalEvent::Valid(true) && events[1] is Batch
        && events[2] == WalEvent::Valid(false) && events[3] is Status {
        events[1] matches WalEvent::Batch(seq) && seq > start && match events[3] {
            WalEvent::Status(None) => s is End,
            WalEvent::Status(Some(m)) => s matches WalStep::Item(Err(e)) && e.view() == m,
            _ => false,
        }
    } else {
        false
    }
}

/// Iterates the batches of writes since a given sequence number.
///
/// `DBWALIterator` is returned by `get_updates_since()`.  Its items are the
/// batches whose sequence number is greater than the one it was asked for:
/// [`DBWALIterator::next_step`] takes one step over the log.
pub struct DBWALIterator<W: DBWalIteratorHandle> {
    pub(crate) inner: W,
    pub(crate) start_seq_number: u64,
    /// What the steps asked of the cursor and what it answered, in order.
    trace: Ghost<Seq<WalEvent>>,
}

impl<W: DBWalIteratorHandle> DBWALIterator<W> {
    /// The sequence number the iterator was asked for.
    pub closed spec fn spec_start(&self) -> u64 {
        self.start_seq_number
    }

    /// What the steps taken so far asked of the cursor and what it answered.
    pub closed spec fn spec_trace(&self) -> Seq<WalEvent> {
        self.trace@
    }

    /// An iterator over `inner` that gives the batches after `start_seq_number`.
    pub fn new(inner: W, start_seq_number: u64) -> (r: Self)
        ensures
            r.spec_start() == start_seq_number,
            r.spec_trace() == Seq::<WalEvent>::empty(),
    {
        DBWALIterator { inner, start_seq_number, trace: Ghost(Seq::empty()) }
    }

    /// What the engine's log cursor may answer when asked whether it is at a batch.
    pub closed spec fn spec_valid_answer(&self, b: bool) -> bool {
        self.inner.valid_answer(b)
    }

    /// What the engine's log cursor may report as its status.
    pub closed spec fn spec_status_reply(&self, r: Result<(), String>) -> bool {
        self.inner.status_reply(r)
    }

    /// Returns `true` if the iterator is valid.
    pub fn valid(&self) -> (b: bool)
        ensures
            self.spec_valid_answer(b),
    {
        self.inner.valid()
    }

    /// Returns an error `Result` if the iterator has encountered an error.
    pub fn status(&self) -> (r: Result<(), Error>)
        ensures
            exists|raw: Result<(), String>| #[trigger] self.spec_status_reply(raw) && converted(raw, r),
    {
        let raw = self.inner.status();
        assert(self.spec_status_reply(raw));
        engine_result(raw)
    }

    /// The sequence number the iterator was asked for.
    pub fn start_seq_number(&self) -> (s: u64)
        ensures
            s == self.spec_start(),
    {
        self.start_seq_number
    }

    /// Whether a batch with sequence number `seq` is one of the iterator's
    /// items: only changes after the requested sequence number are given.
    pub fn accepts(&self, seq: u64) -> (b: bool)
        ensures
            b == (seq > self.spec_start()),
    {
        seq > self.start_seq_number
    }

    /// Takes one step over the log.  A batch at or before the requested
    /// sequence number is passed over (`Skipped`), and the caller steps again;
    /// a later batch is the next item, and the cursor moves past it.  The
    /// items are the batches after the requested sequence number: `next`
    /// of the iterator is this step repeated while it answers `Skipped`.
    pub fn next_step(&mut self) -> (s: WalStep)
        ensures
            final(self).spec_start() == old(self).spec_start(),
            final(self).spec_trace().len() >= old(self).spec_trace().len(),
            final(self).spec_trace().subrange(0, old(self).spec_trace().len() as int) == old(
                self,
            ).spec_trace(),
            wal_step_told(
                old(self).spec_start(),
                final(self).spec_trace().subrange(
                    old(self).spec_trace().len() as int,
                    final(self).spec_trace().len() as int,
                ),
                s,
            ),
    {
        let ghost t0 = self.trace@;
        let valid = self.inner.valid();
        proof {
            self.trace@ = self.trace@.push(WalEvent::Valid(valid));
        }
        if !valid {
            assert(self.trace@.subrange(t0.len() as int, self.trace@.len() as int) =~= seq![WalEvent::Valid(false)]);
            assert(self.trace@.subrange(0, t0.len() as int) =~= t0);
            return WalStep::End;
        }
        let (seq, batch) = self.inner.get_batch();
        proof {
            self.trace@ = self.trace@.push(WalEvent::Batch(seq));
        }
        if !self.accepts(seq) {
            // the batch the caller asked from, or an earlier one: only the
            // changes after it are given
            self.inner.next();
            proof {
                self.trace@ = self.trace@.push(WalEvent::Next);
                assert(self.trace@.subrange(t0.len() as int, self.trace@.len() as int) =~= seq![
                    WalEvent::Valid(true),
                    WalEvent::Batch(seq),
                    WalEvent::Next,
                ]);
                assert(self.trace@.subrange(0, t0.len() as int) =~= t0);
            }
            return WalStep::Skipped;
        }
        let still_valid = self.inner.valid();
        proof {
            self.trace@ = self.trace@.push(WalEvent::Valid(still_valid));
        }
        if !still_valid {
            let status = self.inner.status();
            proof {
                let m: Option<Seq<char>> = match status {
                    Ok(()) => None,
                    Err(ref e) => Some(e@),
                };
                self.trace@ = self.trace@.push(WalEvent::Status(m));
                assert(self.trace@.subrange(t0.len() as int, self.trace@.len() as int) =~= seq![
                    WalEvent::Valid(true),
                    WalEvent::Batch(seq),
                    WalEvent::Valid(false),
                    WalEvent::Status(m),
                ]);
                assert(self.trace@.subrange(0, t0.len() as int) =~= t0);
            }
            return match engine_result(status) {
                Err(e) => WalStep::Item(Err(e)),
                Ok(()) => WalStep::End,
            };
        }
        // Seek to the next write batch; the batch lives on without the cursor.
        self.inner.next();
        proof {
            self.trace@ = self.trace@.push(WalEvent::Next);
            assert(self.trace@.subrange(t0.len() as int, self.trace@.len() as int) =~= seq![
                WalEvent::Valid(true),
                WalEvent::Batch(seq),
                WalEvent::Valid(true),
                WalEvent::Next,
            ]);
            assert(self.trace@.subrange(0, t0.len() as int) =~= t0);
        }
        WalStep::Item(Ok((seq, batch)))
    }

    /// The engine's cursor.
    pub fn raw(&self) -> &W {
        &self.inner
    }

    /// The engine's cursor, to step it.
    pub fn raw_mut(&mut self) -> (r: &mut W)
        ensures
            final(self).spec_start() == old(self).spec_start(),
            final(self).spec_trace() == old(self).spec_trace(),
    {
        &mut self.inner
    }
}


/// Keys in the engine's default order, byte-wise lexicographic: `a` sorts
/// strictly before `b`.
pub open spec fn key_lt(a: Seq<u8>, b: Seq<u8>) -> bool
    decreases a.len(),
{
    if a.len() == 0 {
        b.len() > 0
    } else if b.len() == 0 {
        false
    } else if a[0] != b[0] {
        a[0] < b[0]
    } else {
        key_lt(a.drop_first(), b.drop_first())
    }
}

/// The keys are in strictly ascending order.
pub open spec fn keys_sorted(ks: Seq<Seq<u8>>) -> bool {
    forall|i: int, j: int| 0 <= i < j < ks.len() ==> key_lt(#[trigger] ks[i], #[trigger] ks[j])
}

/// The first index from `i` on whose key is not before `k`; `ks.len()` when
/// there is none.
pub open spec fn first_at_or_after(ks: Seq<Seq<u8>>, k: Seq<u8>, i: nat) -> int
    decreases ks.len() - i,
{
    if i >= ks.len() {
        ks.len() as int
    } else if !key_lt(ks[i as int], k) {
        i as int
    } else {
        first_at_or_after(ks, k, i + 1)
    }
}

/// The last index below `n` whose key is not after `k`; -1 when there is none.
pub open spec fn last_at_or_before(ks: Seq<Seq<u8>>, k: Seq<u8>, n: nat) -> int
    decreases n,
{
    if n == 0 {
        -1
    } else if !key_lt(k, ks[n - 1]) {
        n - 1
    } else {
        last_at_or_before(ks, k, (n - 1) as nat)
    }
}

/// Where a cursor over the keys `ks`, in the engine's order, stands after the
/// move `m` made at the index `at`: an index of `ks`, or one outside it when
/// the cursor is past either end.  A seek stands at the first key not
/// before the one sought, a seek for the previous at the last key not after
/// it, and a step goes to the neighbouring key.
pub open spec fn position_after(ks: Seq<Seq<u8>>, at: int, m: CursorMove) -> int {
    match m {
        CursorMove::SeekToFirst => 0,
        CursorMove::SeekToLast => ks.len() - 1,
        CursorMove::Seek(k) => first_at_or_after(ks, k, 0),
        CursorMove::SeekForPrev(k) => last_at_or_before(ks, k, ks.len()),
        CursorMove::Next => at + 1,
        CursorMove::Prev => at - 1,
    }
}

/// Where a cursor over `ks` stands after the moves `moves`, made from its
/// start, where it stands at no key.
pub open spec fn position_of(ks: Seq<Seq<u8>>, moves: Seq<CursorMove>) -> int
    decreases moves.len(),
{
    if moves.len() == 0 {
        -1
    } else {
        position_after(ks, position_of(ks, moves.drop_last()), moves.last())
    }
}

proof fn lemma_key_lt_irreflexive(a: Seq<u8>)
    ensures
        !key_lt(a, a),
    decreases a.len(),
{
    if a.len() > 0 {
        lemma_key_lt_irreflexive(a.drop_first());
    }
}

proof fn lemma_key_lt_asymmetric(a: Seq<u8>, b: Seq<u8>)
    ensures
        key_lt(a, b) ==> !key_lt(b, a),
    decreases a.len(),
{
    if a.len() > 0 && b.len() > 0 && a[0] == b[0] {
        lemma_key_lt_asymmetric(a.drop_first(), b.drop_first());
    }
}

proof fn lemma_first_at_or_after(ks: Seq<Seq<u8>>, k: Seq<u8>, i: nat)
    requires
        i <= ks.len(),
        forall|j: int| 0 <= j < i ==> key_lt(#[trigger] ks[j], k),
    ensures
        i <= first_at_or_after(ks, k, i) <= ks.len(),
        first_at_or_after(ks, k, i) < ks.len() ==> !key_lt(ks[first_at_or_after(ks, k, i)], k),
        forall|j: int| 0 <= j < first_at_or_after(ks, k, i) ==> key_lt(#[trigger] ks[j], k),
    decreases ks.len() - i,
{
    if i < ks.len() && key_lt(ks[i as int], k) {
        lemma_first_at_or_after(ks, k, i + 1);
    }
}

proof fn lemma_last_at_or_before(ks: Seq<Seq<u8>>, k: Seq<u8>, n: nat)
    requires
        n <= ks.len(),
        forall|j: int| n <= j < ks.len() ==> key_lt(k, #[trigger] ks[j]),
    ensures
        -1 <= last_at_or_before(ks, k, n) < n,
        last_at_or_before(ks, k, n) >= 0 ==> !key_lt(k, ks[last_at_or_before(ks, k, n)]),
        forall|j: int| last_at_or_before(ks, k, n) < j < ks.len() ==> key_lt(k, #[trigger] ks[j]),
    decreases n,
{
    if n > 0 && key_lt(k, ks[n - 1]) {
        lemma_last_at_or_before(ks, k, (n - 1) as nat);
    }
}

/// Where setting an iterator's mode puts it, and which way it then moves,
/// over any keys `ks` in the engine's order.  `Start` stands at the first key
/// and moves forward; `End` stands at the last key and moves back;
/// `From(k, Forward)` stands at the first key not before `k`, every earlier
/// key being before `k`, and moves forward; `From(k, Reverse)` stands at the
/// last key not after `k`, every later key being after `k`, and moves back,
/// so that it gives the keys not after `k`, greatest first.
pub proof fn law_set_mode_positions(ks: Seq<Seq<u8>>, mode: IteratorMode, at: int)
    ensures
        ({
            let p = position_after(ks, at, seek_of(mode));
            match mode {
                IteratorMode::Start => p == 0 && step_of(mode_direction(mode)) == CursorMove::Next,
                IteratorMode::End => p == ks.len() - 1 && step_of(mode_direction(mode))
                    == CursorMove::Prev,
                IteratorMode::From(k, Direction::Forward) => {
                    &&& 0 <= p <= ks.len()
                    &&& p < ks.len() ==> !key_lt(ks[p], k@)
                    &&& forall|j: int| 0 <= j < p ==> key_lt(#[trigger] ks[j], k@)
                    &&& step_of(mode_direction(mode)) == CursorMove::Next
                },
                IteratorMode::From(k, Direction::Reverse) => {
                    &&& -1 <= p < ks.len()
                    &&& p >= 0 ==> !key_lt(k@, ks[p])
                    &&& forall|j: int| p < j < ks.len() ==> key_lt(k@, #[trigger] ks[j])
                    &&& step_of(mode_direction(mode)) == CursorMove::Prev
                },
            }
        }),
{
    match mode {
        IteratorMode::From(k, Direction::Forward) => {
            lemma_first_at_or_after(ks, k@, 0);
        },
        IteratorMode::From(k, Direction::Reverse) => {
            lemma_last_at_or_before(ks, k@, ks.len());
        },
        _ => {},
    }
}

/// A step back moves the cursor of a raw iterator from the key it stands at
/// to the greatest key before it, and a step forward to the least key after
/// it: over keys `ks` in ascending order, whatever moves led there.
pub proof fn law_steps_go_to_neighbours<'a, I: DBRawIteratorHandle>(
    ks: Seq<Seq<u8>>,
    before: DBRawIteratorWithThreadMode<'a, I>,
    after: DBRawIteratorWithThreadMode<'a, I>,
    m: CursorMove,
)
    requires
        keys_sorted(ks),
        m == CursorMove::Prev || m == CursorMove::Next,
        before.spec_stepped(m, after),
        0 <= position_of(ks, before.spec_moves()) < ks.len(),
    ensures
        ({
            let q = position_of(ks, before.spec_moves());
            let p = position_of(ks, after.spec_moves());
            &&& m == CursorMove::Prev ==> p == q - 1 && (p >= 0 ==> key_lt(ks[p], ks[q])) && forall|j: int|
                0 <= j < ks.len() && key_lt(#[trigger] ks[j], ks[q]) ==> j <= p
            &&& m == CursorMove::Next ==> p == q + 1 && (p < ks.len() ==> key_lt(ks[q], ks[p])) && forall|
                j: int,
            | 0 <= j < ks.len() && key_lt(ks[q], #[trigger] ks[j]) ==> j >= p
        }),
{
    let q = position_of(ks, before.spec_moves());
    assert(after.spec_moves().drop_last() =~= before.spec_moves());
    lemma_key_lt_irreflexive(ks[q]);
    assert forall|j: int| 0 <= j < ks.len() && key_lt(#[trigger] ks[j], ks[q]) implies j < q by {
        if j > q {
            assert(key_lt(ks[q], ks[j]));
            lemma_key_lt_asymmetric(ks[q], ks[j]);
        }
    }
    assert forall|j: int| 0 <= j < ks.len() && key_lt(ks[q], #[trigger] ks[j]) implies j > q by {
        if j < q {
            assert(key_lt(ks[j], ks[q]));
            lemma_key_lt_asymmetric(ks[j], ks[q]);
        }
    }
}

} // verus!
