//! The channel as a whole, as a state machine over plain values, and the laws
//! that hold of it.
//!
//! A handle sees only its own side: what the shared buffer holds, and whether
//! the peer is still there, is decided by another thread. The model puts both
//! sides and the buffer into one value, lets the two sides take turns, and
//! states the guarantees of the channel over every order of turns.
//!
//! The receiver's part of a turn is what the methods of
//! [`ByteRx`](crate::rx::ByteRx) compute from what they find:
//! [`law_model_runs_the_code`] shows it, and [`law_model_meets_contract`],
//! [`law_recv_contract_within_model`] and [`law_read_contract_within_model`]
//! show that the model and the contracts of `recv` and `read` admit the same
//! outcomes. The buffer's and the watcher's part stands for what the lock and
//! the liveness token do at run time, which is taken on trust.
use crate::rx::RxErr;
use crate::rx::RxView;
use vstd::prelude::*;

verus! {

/// What the sender does while the receiver is between two of its steps: it
/// appends `bytes`, possibly none, and then, if `drops`, lets go of its handle.
pub struct TxMove {
    pub bytes: Seq<u8>,
    pub drops: bool,
}

impl TxMove {
    /// The sender does nothing.
    pub open spec fn idle() -> TxMove {
        TxMove { bytes: Seq::empty(), drops: false }
    }
}

/// The state of a channel.
pub struct Chan {
    /// Every byte ever written, in the order of writing.
    pub sent: Seq<u8>,
    /// Every byte ever handed to the reader, in the order of reading.
    pub delivered: Seq<u8>,
    /// What the shared buffer holds.
    pub queue: Seq<u8>,
    /// Whether the sender's handle still exists.
    pub tx_open: bool,
    /// Whether the receiver's handle still exists.
    pub rx_open: bool,
    /// The receiver's own side.
    pub rx: RxView,
}

/// One turn of either side.
pub enum Step {
    /// The sender writes these bytes.
    Write(Seq<u8>),
    /// The sender's handle is destroyed.
    DropTx,
    /// The receiver's handle is destroyed.
    DropRx,
    /// The receiver asks for one byte, while the sender makes this move.
    Recv(TxMove),
    /// The receiver reads into a destination of this length, while the sender
    /// makes this move.
    Read(nat, TxMove),
}

/// The bytes of `ws`, one write after the other.
pub open spec fn concat(ws: Seq<Seq<u8>>) -> Seq<u8>
    decreases ws.len(),
{
    if ws.len() == 0 {
        Seq::empty()
    } else {
        concat(ws.drop_last()) + ws.last()
    }
}

/// The count that a bulk read reports when it hands over `out`.
pub open spec fn reported(out: Option<Seq<u8>>) -> Option<nat> {
    match out {
        Some(bytes) => Some(bytes.len()),
        None => None,
    }
}

/// What a destination that held `dest` holds after a bulk read handed over
/// `out`.
pub open spec fn filled(dest: Seq<u8>, out: Option<Seq<u8>>) -> Seq<u8> {
    match out {
        Some(bytes) => bytes + dest.skip(bytes.len() as int),
        None => dest,
    }
}

impl Chan {
    /// A channel as it is made: nothing written, nothing read, sender there.
    pub open spec fn fresh() -> Chan {
        Chan {
            sent: Seq::empty(),
            delivered: Seq::empty(),
            queue: Seq::empty(),
            tx_open: true,
            rx_open: true,
            rx: RxView::fresh(),
        }
    }

    /// A channel that has delivered nothing yet, with this receiver's side,
    /// this buffer and this sender.
    pub open spec fn around(rx: RxView, queue: Seq<u8>, tx_open: bool) -> Chan {
        Chan {
            sent: rx.pending() + queue,
            delivered: Seq::empty(),
            queue,
            tx_open,
            rx_open: true,
            rx,
        }
    }

    /// The bytes written and not read yet, in the order in which they will be
    /// read: the rest of the receiver's chunk, then the buffer.
    pub open spec fn unread(self) -> Seq<u8> {
        self.rx.pending() + self.queue
    }

    /// Nothing written is left to read.
    pub open spec fn drained(self) -> bool {
        self.unread().len() == 0
    }

    /// What holds of every state a channel can reach: the bytes read so far,
    /// followed by the bytes still under way, are the bytes written.
    pub open spec fn inv(self) -> bool {
        &&& self.rx.wf()
        &&& self.sent == self.delivered + self.unread()
    }

    /// The sender appends `bytes`, whether or not anyone is left to read them.
    /// A sender that is gone appends nothing.
    pub open spec fn write(self, bytes: Seq<u8>) -> Chan {
        if self.tx_open {
            Chan { sent: self.sent + bytes, queue: self.queue + bytes, ..self }
        } else {
            self
        }
    }

    /// The sender's handle is destroyed.
    pub open spec fn drop_tx(self) -> Chan {
        Chan { tx_open: false, ..self }
    }

    /// The receiver's handle is destroyed.
    pub open spec fn drop_rx(self) -> Chan {
        Chan { rx_open: false, ..self }
    }

    /// The sender makes the move `m`.
    pub open spec fn tx_moves(self, m: TxMove) -> Chan {
        let written = self.write(m.bytes);
        if m.drops {
            written.drop_tx()
        } else {
            written
        }
    }

    /// The buffer is swapped for an empty one; its contents are handed over.
    pub open spec fn take(self) -> (Chan, Seq<u8>) {
        (Chan { queue: Seq::empty(), ..self }, self.queue)
    }

    /// The receiver hands out the first `n` of its pending bytes.
    pub open spec fn deliver(self, n: nat) -> Chan {
        Chan {
            delivered: self.delivered + self.rx.pending().take(n as int),
            rx: self.rx.advance(n),
            ..self
        }
    }

    /// What an attempt of the receiver to get a new chunk finds in this state,
    /// where the sender makes the move `race` right after the first take: what
    /// the buffer holds; whether the sender is gone after its move; and what
    /// the buffer holds then.
    pub open spec fn found(self, race: TxMove) -> (Seq<u8>, bool, Seq<u8>) {
        let raced = self.take().0.tx_moves(race);
        (self.queue, !raced.tx_open, raced.queue)
    }

    /// One attempt of the receiver to get a new chunk. The sender makes the
    /// move `race` after the first take has found nothing and before the
    /// receiver looks whether the sender is still there. Where the first take
    /// finds bytes, the attempt touches nothing shared after it, and what the
    /// sender does meanwhile is a turn of its own.
    pub open spec fn next_chunk(self, race: TxMove) -> (Chan, Result<bool, RxErr>) {
        let (taken, first) = self.take();
        if first.len() > 0 {
            (Chan { rx: taken.rx.adopt(first), ..taken }, Ok(true))
        } else {
            let raced = taken.tx_moves(race);
            if raced.tx_open {
                (raced, Ok(false))
            } else {
                let (retaken, second) = raced.take();
                if second.len() > 0 {
                    (Chan { rx: retaken.rx.adopt(second), ..retaken }, Ok(true))
                } else {
                    (retaken, Err(RxErr::TxClosed))
                }
            }
        }
    }

    /// The receiver asks for one byte.
    pub open spec fn recv(self, race: TxMove) -> (Chan, Result<Option<u8>, RxErr>) {
        if !self.rx.exhausted() {
            (self.deliver(1), Ok(Some(self.rx.pending()[0])))
        } else {
            let (next, refill) = self.next_chunk(race);
            match refill {
                Ok(true) => (next.deliver(1), Ok(Some(next.rx.pending()[0]))),
                Ok(false) => (next, Ok(None)),
                Err(e) => (next, Err(e)),
            }
        }
    }

    /// The receiver reads into a destination with room for `room` bytes. The
    /// result is the bytes it was given, if the call has an answer.
    pub open spec fn read(self, room: nat, race: TxMove) -> (Chan, Option<Seq<u8>>) {
        if !self.rx.exhausted() {
            let n = self.rx.serve(room);
            (self.deliver(n), Some(self.rx.pending().take(n as int)))
        } else {
            let (next, refill) = self.next_chunk(race);
            match refill {
                Ok(true) => {
                    let n = next.rx.serve(room);
                    (next.deliver(n), Some(next.rx.pending().take(n as int)))
                },
                Ok(false) => (next, None),
                Err(_) => (next, Some(Seq::empty())),
            }
        }
    }

    /// The state after one turn. A receiver that is gone takes no turn.
    pub open spec fn step(self, s: Step) -> Chan {
        match s {
            Step::Write(bytes) => self.write(bytes),
            Step::DropTx => self.drop_tx(),
            Step::DropRx => self.drop_rx(),
            Step::Recv(race) => if self.rx_open {
                self.recv(race).0
            } else {
                self
            },
            Step::Read(room, race) => if self.rx_open {
                self.read(room, race).0
            } else {
                self
            },
        }
    }

    /// The state after the turns `steps`, taken in order.
    pub open spec fn run(self, steps: Seq<Step>) -> Chan
        decreases steps.len(),
    {
        if steps.len() == 0 {
            self
        } else {
            self.run(steps.drop_last()).step(steps.last())
        }
    }

    /// The state after the sender has made the writes `ws`, in order.
    pub open spec fn write_all(self, ws: Seq<Seq<u8>>) -> Chan
        decreases ws.len(),
    {
        if ws.len() == 0 {
            self
        } else {
            self.write_all(ws.drop_last()).write(ws.last())
        }
    }

    /// The state after `n` receives in a row during which the sender does
    /// nothing.
    pub open spec fn drain(self, n: nat) -> Chan
        decreases n,
    {
        if n == 0 {
            self
        } else {
            self.drain((n - 1) as nat).recv(TxMove::idle()).0
        }
    }
}

/// A move of the sender keeps the invariant and leaves the receiver's side
/// alone; a sender that is gone moves nothing.
pub proof fn lemma_tx_move(c: Chan, m: TxMove)
    requires
        c.inv(),
    ensures
        c.tx_moves(m).inv(),
        c.tx_moves(m).rx == c.rx,
        c.tx_moves(m).delivered == c.delivered,
        !c.tx_open ==> c.tx_moves(m) == c,
{
    if c.tx_open {
        assert(c.sent + m.bytes == c.delivered + (c.rx.pending() + (c.queue + m.bytes)));
    }
}

/// Handing out `n` pending bytes keeps the invariant and adds exactly those
/// bytes, the first `n` unread ones, to the record of delivered bytes.
pub proof fn lemma_deliver(c: Chan, n: nat)
    requires
        c.inv(),
        n <= c.rx.pending().len(),
    ensures
        c.deliver(n).inv(),
        c.deliver(n).unread() == c.unread().skip(n as int),
        c.rx.pending().take(n as int) == c.unread().take(n as int),
        n == 1 ==> c.deliver(n).delivered == c.delivered.push(c.unread()[0]),
{
    let d = c.deliver(n);
    assert(d.delivered + d.unread() =~= c.delivered + c.unread());
}

/// An attempt to get a new chunk keeps the invariant whatever the sender does
/// meanwhile, hands nothing out, and reports `TxClosed` only where the sender
/// is gone and nothing is left to read.
pub proof fn lemma_next_chunk(c: Chan, race: TxMove)
    requires
        c.inv(),
        c.rx.exhausted(),
    ensures
        c.next_chunk(race).0.inv(),
        c.next_chunk(race).0.delivered == c.delivered,
        match c.next_chunk(race).1 {
            Ok(true) => !c.next_chunk(race).0.rx.exhausted() && c.next_chunk(race).0.rx
                == c.rx.adopt(c.next_chunk(race).0.rx.chunk),
            Ok(false) => c.next_chunk(race).0.tx_open && c.next_chunk(race).0.rx == c.rx,
            Err(_) => !c.next_chunk(race).0.tx_open && c.next_chunk(race).0.drained()
                && c.next_chunk(race).0.rx == c.rx,
        },
{
    let (next, refill) = c.next_chunk(race);
    if refill == Ok::<bool, RxErr>(true) {
        assert(next.rx.pending() =~= next.rx.chunk);
    }
}

/// A receive keeps the invariant. A byte that it returns is added to the
/// record of delivered bytes, and nothing else ever is.
pub proof fn lemma_recv(c: Chan, race: TxMove)
    requires
        c.inv(),
    ensures
        c.recv(race).0.inv(),
        match c.recv(race).1 {
            Ok(Some(b)) => c.recv(race).0.delivered == c.delivered.push(b),
            Ok(None) => c.recv(race).0.delivered == c.delivered && c.recv(race).0.tx_open,
            Err(_) => c.recv(race).0.delivered == c.delivered && !c.recv(race).0.tx_open
                && c.recv(race).0.drained(),
        },
{
    if !c.rx.exhausted() {
        lemma_deliver(c, 1);
    } else {
        lemma_next_chunk(c, race);
        let (next, refill) = c.next_chunk(race);
        if refill == Ok::<bool, RxErr>(true) {
            lemma_deliver(next, 1);
        }
    }
}

/// A bulk read keeps the invariant. The bytes that it hands over are added to
/// the record of delivered bytes, and nothing else is.
pub proof fn lemma_read(c: Chan, room: nat, race: TxMove)
    requires
        c.inv(),
    ensures
        c.read(room, race).0.inv(),
        match c.read(room, race).1 {
            Some(bytes) => c.read(room, race).0.delivered == c.delivered + bytes && bytes.len()
                <= room,
            None => c.read(room, race).0.delivered == c.delivered && c.read(room, race).0.tx_open,
        },
{
    if !c.rx.exhausted() {
        lemma_deliver(c, c.rx.serve(room));
    } else {
        lemma_next_chunk(c, race);
        let (next, refill) = c.next_chunk(race);
        if refill == Ok::<bool, RxErr>(true) {
            lemma_deliver(next, next.rx.serve(room));
        }
    }
}

/// Every turn of either side keeps the invariant.
pub proof fn lemma_step(c: Chan, s: Step)
    requires
        c.inv(),
    ensures
        c.step(s).inv(),
{
    match s {
        Step::Write(bytes) => {
            lemma_tx_move(c, TxMove { bytes, drops: false });
        },
        Step::DropTx => {},
        Step::DropRx => {},
        Step::Recv(race) => {
            lemma_recv(c, race);
        },
        Step::Read(room, race) => {
            lemma_read(c, room, race);
        },
    }
}

/// A receive on a channel whose sender is gone returns the first unread byte
/// if there is one, and `TxClosed` if there is none. It never finds "nothing
/// yet".
pub proof fn lemma_recv_after_close(c: Chan, race: TxMove)
    requires
        c.inv(),
        !c.tx_open,
    ensures
        !c.recv(race).0.tx_open,
        c.recv(race).0.sent == c.sent,
        !c.drained() ==> c.recv(race).1 == Ok::<Option<u8>, RxErr>(Some(c.unread()[0]))
            && c.recv(race).0.unread() == c.unread().skip(1),
        c.drained() ==> c.recv(race) == (c, Err::<Option<u8>, RxErr>(RxErr::TxClosed)),
{
    if c.rx.exhausted() {
        assert(c.rx.pending() =~= Seq::<u8>::empty());
    }
}

/// Ordering. After any turns of the two sides, in any order, the bytes read so
/// far followed by the bytes still under way are exactly the bytes written, in
/// the order of writing: what has been read is the front of what was written,
/// wherever the chunks happened to end. Once nothing is under way, what was
/// read is what was written.
pub proof fn law_ordering(steps: Seq<Step>)
    ensures
        Chan::fresh().run(steps).inv(),
        Chan::fresh().run(steps).sent == Chan::fresh().run(steps).delivered + Chan::fresh().run(
            steps,
        ).unread(),
        Chan::fresh().run(steps).drained() ==> Chan::fresh().run(steps).delivered
            == Chan::fresh().run(steps).sent,
    decreases steps.len(),
{
    if steps.len() > 0 {
        law_ordering(steps.drop_last());
        lemma_step(Chan::fresh().run(steps.drop_last()), steps.last());
    }
}

/// Ordering, one call at a time. A write puts its bytes behind everything
/// written before. The byte that a receive returns is the one that was written
/// right after those read before it, and the bytes that a bulk read hands over
/// are the ones written right after those read before it, whatever the sender
/// does during the call.
pub proof fn law_reads_follow_writes(c: Chan, bytes: Seq<u8>, room: nat, race: TxMove)
    requires
        c.inv(),
    ensures
        c.tx_open ==> c.write(bytes).sent == c.sent + bytes && c.write(bytes).unread()
            == c.unread() + bytes,
        c.recv(race).1 matches Ok(Some(b)) ==> c.delivered.len() < c.recv(race).0.sent.len() && b
            == c.recv(race).0.sent[c.delivered.len() as int],
        c.read(room, race).1 matches Some(got) ==> c.delivered.len() + got.len() <= c.read(
            room,
            race,
        ).0.sent.len() && got == c.read(room, race).0.sent.subrange(
            c.delivered.len() as int,
            (c.delivered.len() + got.len()) as int,
        ),
{
    lemma_recv(c, race);
    lemma_read(c, room, race);
}

/// Nothing is lost when the sender goes. A receive reports `TxClosed` only
/// where the sender is gone and every byte ever written has been read. This
/// holds also of bytes that the sender wrote just before it went, while the
/// receive was under way: where they landed after the first look into the
/// buffer, the same call still returns the first of them.
pub proof fn law_close_loses_nothing(c: Chan, race: TxMove)
    requires
        c.inv(),
    ensures
        c.recv(race).1 is Err ==> !c.recv(race).0.tx_open && c.recv(race).0.drained() && c.recv(
            race,
        ).0.delivered == c.recv(race).0.sent,
        c.drained() && c.tx_open && race.bytes.len() > 0 && race.drops ==> c.recv(race).1 == Ok::<
            Option<u8>,
            RxErr,
        >(Some(race.bytes[0])),
{
    lemma_recv(c, race);
}

/// Draining after the sender went. Once the sender is gone, receive number `i`
/// returns unread byte number `i`, until all of them are read; the receive
/// after the last of them, and no earlier one, reports `TxClosed`.
pub proof fn law_drain_before_close(c: Chan, i: nat)
    requires
        c.inv(),
        !c.tx_open,
        i <= c.unread().len(),
    ensures
        c.drain(i).inv(),
        !c.drain(i).tx_open,
        c.drain(i).sent == c.sent,
        c.drain(i).delivered == c.delivered + c.unread().take(i as int),
        c.drain(i).unread() == c.unread().skip(i as int),
        i < c.unread().len() ==> c.drain(i).recv(TxMove::idle()).1 == Ok::<Option<u8>, RxErr>(
            Some(c.unread()[i as int]),
        ),
        i == c.unread().len() ==> c.drain(i).recv(TxMove::idle()).1 == Err::<Option<u8>, RxErr>(
            RxErr::TxClosed,
        ),
    decreases i,
{
    let idle = TxMove::idle();
    if i > 0 {
        let j = (i - 1) as nat;
        law_drain_before_close(c, j);
        lemma_recv(c.drain(j), idle);
        lemma_recv_after_close(c.drain(j), idle);
    }
    lemma_recv_after_close(c.drain(i), idle);
}

/// Writes, then reads. For any sequence of writes to a new channel, what is
/// under way afterwards is their concatenation. Once the sender has gone,
/// receive number `i` returns byte number `i` of it, and the receive after the
/// last byte reports `TxClosed`: the reader gets exactly what was written, in
/// the order of writing, and only then learns of the close.
pub proof fn law_writes_then_reads(ws: Seq<Seq<u8>>)
    ensures
        Chan::fresh().write_all(ws).inv(),
        Chan::fresh().write_all(ws).tx_open,
        Chan::fresh().write_all(ws).sent == concat(ws),
        Chan::fresh().write_all(ws).unread() == concat(ws),
        forall|i: nat|
            i < concat(ws).len() ==> (#[trigger] Chan::fresh().write_all(ws).drop_tx().drain(
                i,
            )).recv(TxMove::idle()).1 == Ok::<Option<u8>, RxErr>(Some(concat(ws)[i as int])),
        Chan::fresh().write_all(ws).drop_tx().drain(concat(ws).len()).delivered == concat(ws),
        Chan::fresh().write_all(ws).drop_tx().drain(concat(ws).len()).recv(TxMove::idle()).1
            == Err::<Option<u8>, RxErr>(RxErr::TxClosed),
    decreases ws.len(),
{
    if ws.len() > 0 {
        law_writes_then_reads(ws.drop_last());
        let before = Chan::fresh().write_all(ws.drop_last());
        lemma_tx_move(before, TxMove { bytes: ws.last(), drops: false });
    }
    let closed = Chan::fresh().write_all(ws).drop_tx();
    assert forall|i: nat| i < concat(ws).len() implies (#[trigger] closed.drain(i)).recv(
        TxMove::idle(),
    ).1 == Ok::<Option<u8>, RxErr>(Some(concat(ws)[i as int])) by {
        law_drain_before_close(closed, i);
    }
    law_drain_before_close(closed, concat(ws).len());
}

/// Closure is terminal. No turn of either side brings a handle back: a sender
/// that is gone is gone after every further turn, and nothing more is ever
/// written; a receiver that is gone is gone after every further turn, and
/// nothing more is ever read.
pub proof fn law_closed_stays_closed(c: Chan, steps: Seq<Step>)
    ensures
        !c.tx_open ==> !c.run(steps).tx_open && c.run(steps).sent == c.sent,
        !c.rx_open ==> !c.run(steps).rx_open && c.run(steps).delivered == c.delivered,
    decreases steps.len(),
{
    if steps.len() > 0 {
        law_closed_stays_closed(c, steps.drop_last());
    }
}

/// Empty and closed fails at once. Where the sender is gone and nothing is
/// left to read, a receive reports `TxClosed` on the spot and a bulk read
/// reports zero bytes. Neither finds "nothing yet", so a caller that waits on
/// that answer does not wait here; and the state is left as it was, so every
/// later call ends the same way.
pub proof fn law_empty_closed_fails_at_once(c: Chan, room: nat, race: TxMove)
    requires
        c.inv(),
        !c.tx_open,
        c.drained(),
    ensures
        c.recv(race) == (c, Err::<Option<u8>, RxErr>(RxErr::TxClosed)),
        c.read(room, race) == (c, Some(Seq::<u8>::empty())),
{
    lemma_recv_after_close(c, race);
}

/// Zero means closed. A bulk read into a destination with room reports zero
/// bytes only where the sender is gone and every byte written has been read;
/// it never reports zero while a byte is left to read. Where the sender makes
/// no move during the call, it reports zero exactly where the sender was gone
/// and nothing was left.
pub proof fn law_zero_means_closed(c: Chan, room: nat, race: TxMove)
    requires
        c.inv(),
        room > 0,
    ensures
        reported(c.read(room, race).1) == Some(0nat) ==> !c.read(room, race).0.tx_open && c.read(
            room,
            race,
        ).0.drained() && c.read(room, race).0.delivered == c.read(room, race).0.sent,
        !c.drained() ==> reported(c.read(room, race).1) is Some && reported(
            c.read(room, race).1,
        )->Some_0 > 0,
        reported(c.read(room, TxMove::idle()).1) == Some(0nat) <==> !c.tx_open && c.drained(),
{
    lemma_read(c, room, race);
    lemma_read(c, room, TxMove::idle());
}

/// The model runs the code. What the model's receiver does in a turn is what
/// the handle's methods do with what they find: the model's attempt to get a
/// new chunk, its receive and its bulk read have the outcome that
/// [`RxView::refilled`], [`RxView::received`] and [`RxView::read_out`] give
/// for what the buffer and the sender of the model show. These three are what
/// `refill_with`, `recv_with` and `read_with` of the handle are proved to
/// compute, so every law here speaks of the code, for a buffer and a signal
/// that behave as the model's do.
pub proof fn law_model_runs_the_code(c: Chan, dest: Seq<u8>, race: TxMove)
    requires
        c.inv(),
    ensures
        (c.next_chunk(race).0.rx, c.next_chunk(race).1) == c.rx.refilled(
            c.found(race).0,
            c.found(race).1,
            c.found(race).2,
        ),
        (c.recv(race).0.rx, c.recv(race).1) == c.rx.received(
            c.found(race).0,
            c.found(race).1,
            c.found(race).2,
        ),
        (
            c.read(dest.len(), race).0.rx,
            filled(dest, c.read(dest.len(), race).1),
            reported(c.read(dest.len(), race).1),
        ) == c.rx.read_out(dest, c.found(race).0, c.found(race).1, c.found(race).2),
{
    if c.rx.exhausted() {
        assert(Seq::<u8>::empty() + dest.skip(0) =~= dest);
    }
}

/// The model's receiver is the receiver of the contracts: every receive and
/// every bulk read of the model, in any state and whatever the sender does
/// meanwhile, has an outcome that the contract of the handle's method admits.
pub proof fn law_model_meets_contract(c: Chan, dest: Seq<u8>, race: TxMove)
    requires
        c.inv(),
    ensures
        c.rx.recv_step(c.recv(race).0.rx, c.recv(race).1),
        c.rx.read_step(
            c.read(dest.len(), race).0.rx,
            dest,
            filled(dest, c.read(dest.len(), race).1),
            reported(c.read(dest.len(), race).1),
        ),
{
    if c.rx.exhausted() {
        lemma_next_chunk(c, race);
        assert(Seq::<u8>::empty() + dest.skip(0) =~= dest);
    }
}

/// The contract of a receive admits nothing that the model does not: for
/// every outcome that it admits, there is a buffer, a sender and a move of
/// that sender with which the model's receive has this outcome.
pub proof fn law_recv_contract_within_model(
    before: RxView,
    after: RxView,
    out: Result<Option<u8>, RxErr>,
)
    requires
        before.wf(),
        before.recv_step(after, out),
    ensures
        exists|c: Chan, race: TxMove|
            c.inv() && c.rx == before && (#[trigger] c.recv(race)).1 == out && c.recv(race).0.rx
                == after,
{
    let idle = TxMove::idle();
    let refilled = before.exhausted() && out is Ok && out->Ok_0 is Some;
    let queue = if refilled {
        after.chunk
    } else {
        Seq::<u8>::empty()
    };
    let c = Chan::around(before, queue, out is Ok);
    if out is Err {
        assert(c.next_chunk(idle).1 == Err::<bool, RxErr>(out->Err_0));
    }
    assert(c.recv(idle).1 == out);
}

/// The contract of a bulk read admits nothing that the model does not: for
/// every outcome that it admits, there is a buffer, a sender and a move of
/// that sender with which the model's read has this outcome.
pub proof fn law_read_contract_within_model(
    before: RxView,
    after: RxView,
    dest: Seq<u8>,
    left: Seq<u8>,
    out: Option<nat>,
)
    requires
        before.wf(),
        before.read_step(after, dest, left, out),
    ensures
        exists|c: Chan, race: TxMove|
            c.inv() && c.rx == before && reported((#[trigger] c.read(dest.len(), race)).1) == out
                && c.read(dest.len(), race).0.rx == after && filled(
                dest,
                c.read(dest.len(), race).1,
            ) == left,
{
    let ended = before.exhausted() && out == Some(0nat) && after == before;
    let refilled = before.exhausted() && out is Some && !ended;
    let queue = if refilled {
        after.chunk
    } else {
        Seq::<u8>::empty()
    };
    let c = Chan::around(before, queue, !ended);
    assert(reported(c.read(dest.len(), TxMove::idle()).1) == out);
}

} // verus!
