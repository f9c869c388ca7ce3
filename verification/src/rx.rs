//! The receiving end: it pulls whole snapshots of the shared buffer and serves
//! bytes out of the snapshot in hand.
//!
//! Nothing here waits. Where the buffer is empty and the sender is still
//! there, a call says so and returns; the caller decides whether to yield and
//! ask again.
//!
//! What the buffer and the sender's signal show is decided by another thread.
//! So `recv` and `read` are made of two parts: they ask, and they hand what
//! they found to `recv_with` and `read_with`, which say for every finding what
//! the answer is and how the receiver changes.
use crate::buf::Buf;
use crate::signal::ActiveSig;
use crate::signal::ActiveWatcher;
use std::sync::Arc;
use vstd::prelude::*;

verus! {

/// Why a receive can fail: the sender is gone and nothing it wrote is left.
#[derive(Debug, Clone, Copy, PartialEq, Eq, Structural)]
pub enum RxErr {
    TxClosed,
}

impl RxErr {
    /// The text of the error: the name of the variant.
    pub fn to_string(&self) -> (s: String)
        ensures
            s@ == "TxClosed"@,
    {
        "TxClosed".to_owned()
    }
}

/// What a receiver holds on its own side: the snapshot it took last, and how
/// many of its bytes it has handed out.
pub struct RxView {
    pub chunk: Seq<u8>,
    pub cursor: nat,
}

impl RxView {
    /// The cursor never runs past the end of the chunk.
    pub open spec fn wf(self) -> bool {
        self.cursor <= self.chunk.len()
    }

    /// A receiver that has taken nothing yet.
    pub open spec fn fresh() -> RxView {
        RxView { chunk: Seq::empty(), cursor: 0 }
    }

    /// Every byte of the chunk has been handed out.
    pub open spec fn exhausted(self) -> bool {
        self.cursor >= self.chunk.len()
    }

    /// The bytes of the chunk not handed out yet, in order.
    pub open spec fn pending(self) -> Seq<u8> {
        self.chunk.skip(self.cursor as int)
    }

    /// The view after `bytes` became the chunk in hand.
    pub open spec fn adopt(self, bytes: Seq<u8>) -> RxView {
        RxView { chunk: bytes, cursor: 0 }
    }

    /// The view after `n` more bytes were handed out.
    pub open spec fn advance(self, n: nat) -> RxView {
        RxView { chunk: self.chunk, cursor: self.cursor + n }
    }

    /// How many bytes a bulk read with `room` bytes of space is given: all that
    /// is pending, or as many as fit.
    pub open spec fn serve(self, room: nat) -> nat {
        if room <= self.pending().len() {
            room
        } else {
            self.pending().len()
        }
    }

    /// What a destination that held `dest` holds after a bulk read was served
    /// from this view: the served bytes in front, the rest untouched.
    pub open spec fn fill(self, dest: Seq<u8>) -> Seq<u8> {
        let n = self.serve(dest.len()) as int;
        self.pending().take(n) + dest.skip(n)
    }

    /// The outcome of one attempt to get a new chunk, for what the attempt
    /// found: `first` is what the first take handed over; `closed` says
    /// whether the sender was then seen gone; `second` is what the take after
    /// that handed over.
    ///
    /// Bytes from the first take become the chunk. With none, and the sender
    /// still there, nothing changes and the answer is `Ok(false)`. With none,
    /// and the sender gone, bytes from the second take become the chunk; with
    /// none there either, no byte will ever come and the answer is `TxClosed`.
    pub open spec fn refilled(self, first: Seq<u8>, closed: bool, second: Seq<u8>) -> (
        RxView,
        Result<bool, RxErr>,
    ) {
        if first.len() > 0 {
            (self.adopt(first), Ok(true))
        } else if !closed {
            (self, Ok(false))
        } else if second.len() > 0 {
            (self.adopt(second), Ok(true))
        } else {
            (self, Err(RxErr::TxClosed))
        }
    }

    /// The outcome of a receive. While the chunk has bytes left, the next of
    /// them is returned and what was found plays no part. Once it is used up,
    /// the first byte of the new chunk is returned if the attempt to get one
    /// succeeds, and the attempt's answer is handed on if it does not.
    pub open spec fn received(self, first: Seq<u8>, closed: bool, second: Seq<u8>) -> (
        RxView,
        Result<Option<u8>, RxErr>,
    ) {
        if !self.exhausted() {
            (self.advance(1), Ok(Some(self.pending()[0])))
        } else {
            let (got, refill) = self.refilled(first, closed, second);
            match refill {
                Ok(true) => (got.advance(1), Ok(Some(got.pending()[0]))),
                Ok(false) => (self, Ok(None)),
                Err(e) => (self, Err(e)),
            }
        }
    }

    /// The outcome of a bulk read into a destination that holds `dest`: the
    /// view afterwards, what the destination holds afterwards, and the count
    /// reported. While the chunk has bytes left, as many of them as fit are
    /// served and what was found plays no part. Once it is used up, the new
    /// chunk serves the read if the attempt to get one succeeds; `None` says
    /// that nothing is queued and the sender is still there, and `Some(0)`
    /// that the sender is gone and the stream is at its end.
    pub open spec fn read_out(
        self,
        dest: Seq<u8>,
        first: Seq<u8>,
        closed: bool,
        second: Seq<u8>,
    ) -> (RxView, Seq<u8>, Option<nat>) {
        if !self.exhausted() {
            let n = self.serve(dest.len());
            (self.advance(n), self.fill(dest), Some(n))
        } else {
            let (got, refill) = self.refilled(first, closed, second);
            match refill {
                Ok(true) => {
                    let n = got.serve(dest.len());
                    (got.advance(n), got.fill(dest), Some(n))
                },
                Ok(false) => (self, dest, None),
                Err(_) => (self, dest, Some(0nat)),
            }
        }
    }

    /// Whether a receive can turn `self` into `after` and return `out`.
    ///
    /// While the chunk has bytes left, there is one outcome: the next byte is
    /// returned and the cursor moves by one. Once it is used up, the outcome
    /// depends on what the buffer and the sender's signal show: a new,
    /// non-empty chunk is in hand and its first byte is returned; or nothing
    /// was queued and the sender is still there, `Ok(None)`; or the sender is
    /// gone and has left nothing, `TxClosed`. The last two leave the receiver
    /// as it was.
    pub open spec fn recv_step(self, after: RxView, out: Result<Option<u8>, RxErr>) -> bool {
        if !self.exhausted() {
            &&& out == Ok::<Option<u8>, RxErr>(Some(self.pending()[0]))
            &&& after == self.advance(1)
        } else {
            match out {
                Ok(Some(b)) => {
                    &&& after.chunk.len() > 0
                    &&& b == after.chunk[0]
                    &&& after == self.adopt(after.chunk).advance(1)
                },
                Ok(None) => after == self,
                Err(RxErr::TxClosed) => after == self,
            }
        }
    }

    /// Whether a bulk read into a destination that holds `dest` can turn
    /// `self` into `after`, leave `filled` in the destination and report
    /// `out` bytes.
    ///
    /// While the chunk has bytes left, there is one outcome: as many of them
    /// as fit are copied to the front of the destination and counted. Once it
    /// is used up, the read is served in the same way from a new, non-empty
    /// chunk; or nothing was queued and the sender is still there, `None`; or
    /// the sender is gone and has left nothing, `Some(0)`. The last two leave
    /// receiver and destination as they were.
    pub open spec fn read_step(
        self,
        after: RxView,
        dest: Seq<u8>,
        filled: Seq<u8>,
        out: Option<nat>,
    ) -> bool {
        if !self.exhausted() {
            &&& out == Some(self.serve(dest.len()))
            &&& after == self.advance(self.serve(dest.len()))
            &&& filled == self.fill(dest)
        } else {
            match out {
                None => after == self && filled == dest,
                Some(n) => {
                    ||| n == 0 && after == self && filled == dest
                    ||| {
                        let got = self.adopt(after.chunk);
                        &&& got.chunk.len() > 0
                        &&& n == got.serve(dest.len())
                        &&& after == got.advance(n)
                        &&& filled == got.fill(dest)
                    }
                },
            }
        }
    }
}

/// The count that a bulk read reports, as a number without a bound.
pub open spec fn count_of(r: Option<usize>) -> Option<nat> {
    match r {
        Some(n) => Some(n as nat),
        None => None,
    }
}

/// Copies into the front of `dest` as many bytes of `src`, from index `from`
/// on, as both sides allow, and says how many.
fn copy_prefix(src: &Vec<u8>, from: usize, dest: &mut [u8]) -> (n: usize)
    requires
        from <= src@.len(),
    ensures
        n == (RxView { chunk: src@, cursor: from as nat }).serve(old(dest)@.len()),
        final(dest)@ == (RxView { chunk: src@, cursor: from as nat }).fill(old(dest)@),
{
    let room: usize = dest.len();
    let left: usize = src.len() - from;
    let n: usize = if room <= left { room } else { left };
    let mut i: usize = 0;
    while i < n
        invariant
            i <= n,
            n <= room,
            from + n <= src@.len() <= usize::MAX,
            dest@.len() == room,
            room == old(dest)@.len(),
            dest@ == src@.subrange(from as int, from + i) + old(dest)@.skip(i as int),
        decreases n - i,
    {
        dest[i] = src[from + i];
        i += 1;
    }
    assert(src@.subrange(from as int, from + n) == src@.skip(from as int).take(n as int));
    n
}

/// The receiving handle of a channel.
#[derive(Debug)]
pub struct ByteRx {
    buf: Arc<Buf>,
    _rx_active: ActiveSig,
    tx_active: ActiveWatcher,
    curr: Vec<u8>,
    cursor: usize,
}

impl View for ByteRx {
    type V = RxView;

    closed spec fn view(&self) -> RxView {
        RxView { chunk: self.curr@, cursor: self.cursor as nat }
    }
}

impl ByteRx {
    #[verifier::type_invariant]
    spec fn cursor_in_chunk(self) -> bool {
        self.cursor <= self.curr@.len()
    }

    /// The buffer that this receiver takes from.
    pub closed spec fn shared_buf(&self) -> Arc<Buf> {
        self.buf
    }

    /// What every watcher of this receiver's own signal is equal to.
    pub closed spec fn own_id(&self) -> ActiveWatcher {
        self._rx_active.id()
    }

    /// The watcher through which this receiver looks at the sender.
    pub closed spec fn watches(&self) -> ActiveWatcher {
        self.tx_active
    }

    /// A receiver over `buf` that owns `rx_active` and watches the sender
    /// through `tx_active`. It starts with nothing in hand.
    pub(crate) fn new(buf: Arc<Buf>, rx_active: ActiveSig, tx_active: ActiveWatcher) -> (rx: ByteRx)
        ensures
            rx@ == RxView::fresh(),
            rx.shared_buf() == buf,
            rx.own_id() == rx_active.id(),
            rx.watches() == tx_active,
    {
        ByteRx { buf, _rx_active: rx_active, tx_active, curr: Vec::new(), cursor: 0 }
    }

    /// Whether the sender's handle is gone, as far as this call can see. The
    /// answer is for information only: bytes written before the sender went
    /// may still be waiting.
    pub fn tx_closed(&self) -> (closed: bool) {
        self.tx_active.sig_closed()
    }

    /// Makes `bytes` the chunk in hand, unless there are none. Says whether it
    /// did.
    fn adopt(&mut self, bytes: Vec<u8>) -> (adopted: bool)
        requires
            old(self)@.exhausted(),
        ensures
            adopted == (bytes@.len() > 0),
            final(self)@ == if adopted {
                old(self)@.adopt(bytes@)
            } else {
                old(self)@
            },
            final(self).shared_buf() == old(self).shared_buf(),
            final(self).own_id() == old(self).own_id(),
            final(self).watches() == old(self).watches(),
    {
        if bytes.is_empty() {
            false
        } else {
            self.cursor = 0;
            self.curr = bytes;
            true
        }
    }

    /// Asks the buffer and the sender's signal what there is, in the order
    /// that loses nothing: takes everything queued; if that is nothing, looks
    /// whether the sender is gone; and if it is, takes once more, since a
    /// write may have landed between the first take and that look. Returns
    /// the first take, whether the sender was seen gone, and the second take.
    /// A step that was not made is reported as "not gone" and as no bytes.
    fn probe(&self) -> (found: (Vec<u8>, bool, Vec<u8>))
        ensures
            found.0@.len() > 0 ==> !found.1 && found.2@.len() == 0,
            !found.1 ==> found.2@.len() == 0,
    {
        let first = self.buf.take();
        if !first.is_empty() {
            return (first, false, Vec::new());
        }
        if !self.tx_closed() {
            return (first, false, Vec::new());
        }
        let second = self.buf.take();
        (first, true, second)
    }

    /// Settles an attempt to get a new chunk, made when the one in hand is
    /// used up, for what the attempt found: `first` from the first take,
    /// `closed` from the look at the sender, `second` from the take after it.
    ///
    /// Returns `Ok(true)` with a new, non-empty chunk in hand, `Ok(false)`
    /// where nothing was queued and the sender is still there, and `TxClosed`
    /// where the sender is gone and both takes were empty. In the last two
    /// cases the receiver is left as it was.
    pub fn refill_with(&mut self, first: Vec<u8>, closed: bool, second: Vec<u8>) -> (r: Result<
        bool,
        RxErr,
    >)
        requires
            old(self)@.exhausted(),
        ensures
            (final(self)@, r) == old(self)@.refilled(first@, closed, second@),
            final(self).shared_buf() == old(self).shared_buf(),
            final(self).own_id() == old(self).own_id(),
            final(self).watches() == old(self).watches(),
    {
        if self.adopt(first) {
            Ok(true)
        } else if !closed {
            Ok(false)
        } else if self.adopt(second) {
            Ok(true)
        } else {
            Err(RxErr::TxClosed)
        }
    }

    /// The receive that follows from what was found: the next byte of the
    /// chunk in hand while it has one, and otherwise the outcome of the
    /// attempt to get a new chunk from `first`, `closed` and `second`.
    ///
    /// While the chunk in hand has bytes left, what is passed in plays no
    /// part and is dropped.
    pub fn recv_with(&mut self, first: Vec<u8>, closed: bool, second: Vec<u8>) -> (r: Result<
        Option<u8>,
        RxErr,
    >)
        ensures
            final(self)@.wf(),
            (final(self)@, r) == old(self)@.received(first@, closed, second@),
            final(self).shared_buf() == old(self).shared_buf(),
            final(self).own_id() == old(self).own_id(),
            final(self).watches() == old(self).watches(),
    {
        proof {
            use_type_invariant(&*self);
        }
        if self.cursor >= self.curr.len() {
            match self.refill_with(first, closed, second) {
                Ok(true) => {},
                Ok(false) => {
                    return Ok(None);
                },
                Err(e) => {
                    return Err(e);
                },
            }
        }
        proof {
            use_type_invariant(&*self);
        }
        let b = self.curr[self.cursor];
        self.cursor += 1;
        Ok(Some(b))
    }

    /// The bulk read that follows from what was found: served from the chunk
    /// in hand while it has bytes, and otherwise settled by the attempt to
    /// get a new chunk from `first`, `closed` and `second`.
    ///
    /// While the chunk in hand has bytes left, what is passed in plays no
    /// part and is dropped.
    pub fn read_with(
        &mut self,
        dest: &mut [u8],
        first: Vec<u8>,
        closed: bool,
        second: Vec<u8>,
    ) -> (r: Option<usize>)
        ensures
            final(self)@.wf(),
            (final(self)@, final(dest)@, count_of(r)) == old(self)@.read_out(
                old(dest)@,
                first@,
                closed,
                second@,
            ),
            final(self).shared_buf() == old(self).shared_buf(),
            final(self).own_id() == old(self).own_id(),
            final(self).watches() == old(self).watches(),
    {
        proof {
            use_type_invariant(&*self);
        }
        if self.cursor >= self.curr.len() {
            match self.refill_with(first, closed, second) {
                Ok(true) => {},
                Ok(false) => {
                    return None;
                },
                Err(_) => {
                    return Some(0);
                },
            }
        }
        proof {
            use_type_invariant(&*self);
        }
        let n = copy_prefix(&self.curr, self.cursor, dest);
        self.cursor += n;
        Some(n)
    }

    /// The next byte of the stream, if there is one to be had now.
    ///
    /// While the chunk in hand has bytes left, the next of them is returned and
    /// the call touches nothing shared. Otherwise one attempt is made to get a
    /// new chunk: its first byte is returned if that succeeds, `Ok(None)` if
    /// nothing is queued and the sender is still there, and `TxClosed` if the
    /// sender is gone and has left nothing behind.
    pub fn recv(&mut self) -> (r: Result<Option<u8>, RxErr>)
        ensures
            final(self)@.wf(),
            old(self)@.recv_step(final(self)@, r),
            final(self).shared_buf() == old(self).shared_buf(),
            final(self).own_id() == old(self).own_id(),
            final(self).watches() == old(self).watches(),
    {
        proof {
            use_type_invariant(&*self);
        }
        if self.cursor >= self.curr.len() {
            let (first, closed, second) = self.probe();
            self.recv_with(first, closed, second)
        } else {
            self.recv_with(Vec::new(), false, Vec::new())
        }
    }

    /// Reads into the front of `dest` what can be had now, and says how much.
    ///
    /// While the chunk in hand has bytes left, as many of them as fit are
    /// copied and counted; the call never waits for more. Otherwise one attempt
    /// is made to get a new chunk, and the read is served from it if that
    /// succeeds. `None` says that nothing is queued and the sender is still
    /// there. `Some(0)` from a read into a destination with room says that the
    /// sender is gone and the stream is at its end.
    pub fn read(&mut self, dest: &mut [u8]) -> (r: Option<usize>)
        ensures
            final(self)@.wf(),
            old(self)@.read_step(final(self)@, old(dest)@, final(dest)@, count_of(r)),
            final(self).shared_buf() == old(self).shared_buf(),
            final(self).own_id() == old(self).own_id(),
            final(self).watches() == old(self).watches(),
    {
        proof {
            use_type_invariant(&*self);
        }
        if self.cursor >= self.curr.len() {
            let (first, closed, second) = self.probe();
            self.read_with(dest, first, closed, second)
        } else {
            self.read_with(dest, Vec::new(), false, Vec::new())
        }
    }
}

} // verus!
