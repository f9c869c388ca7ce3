//! The sending end: it appends to the shared buffer and never waits.
use crate::buf::Buf;
use crate::signal::ActiveSig;
use crate::signal::ActiveWatcher;
use std::sync::Arc;
use vstd::prelude::*;

verus! {

/// The sending handle of a channel. Destroying it is the only way to tell the
/// receiver that the stream has ended.
#[derive(Debug)]
pub struct ByteTx {
    buf: Arc<Buf>,
    _tx_active: ActiveSig,
    rx_active: ActiveWatcher,
}

impl ByteTx {
    /// The buffer that this sender appends to.
    pub closed spec fn shared_buf(&self) -> Arc<Buf> {
        self.buf
    }

    /// What every watcher of this sender's own signal is equal to.
    pub closed spec fn own_id(&self) -> ActiveWatcher {
        self._tx_active.id()
    }

    /// The watcher through which this sender looks at the receiver.
    pub closed spec fn watches(&self) -> ActiveWatcher {
        self.rx_active
    }

    /// A sender over `buf` that owns `tx_active` and watches the receiver
    /// through `rx_active`.
    pub(crate) fn new(buf: Arc<Buf>, tx_active: ActiveSig, rx_active: ActiveWatcher) -> (tx:
        ByteTx)
        ensures
            tx.shared_buf() == buf,
            tx.own_id() == tx_active.id(),
            tx.watches() == rx_active,
    {
        ByteTx { buf, _tx_active: tx_active, rx_active }
    }

    /// Whether the receiver's handle is gone, as far as this call can see. The
    /// answer is for information only: writing goes on working either way.
    pub fn rx_closed(&self) -> (closed: bool) {
        self.rx_active.sig_closed()
    }

    /// Appends one byte to the stream. There is no way for this to fail.
    pub fn send(&self, b: u8) {
        self.buf.push(b)
    }

    /// Appends all of `bytes` to the stream, in order, and returns their
    /// number: a write is never partial.
    pub fn write(&mut self, bytes: &[u8]) -> (n: usize)
        ensures
            n == bytes@.len(),
            *final(self) == *old(self),
    {
        self.buf.append(bytes);
        bytes.len()
    }

    /// Does nothing: a byte is on its way as soon as it is written.
    pub fn flush(&mut self)
        ensures
            *final(self) == *old(self),
    {
    }
}

} // verus!
