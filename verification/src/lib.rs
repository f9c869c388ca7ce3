//! An in-process byte pipe between one producer and one consumer.
//!
//! The producer appends bytes to a shared buffer; the consumer takes the whole
//! buffer at a time and serves bytes out of what it took. Either end learns
//! that the other is gone by watching a token that dies with the handle.
pub mod buf;
pub mod model;
pub mod rx;
pub mod signal;
pub mod tx;

pub use buf::Buf;
pub use rx::ByteRx;
pub use rx::RxErr;
pub use rx::RxView;
pub use signal::ActiveSig;
pub use signal::ActiveWatcher;
pub use tx::ByteTx;

use vstd::prelude::*;

verus! {

/// A new channel: a sender and a receiver over one empty buffer, each owning
/// its own liveness signal and watching the other's.
pub fn byte_chan() -> (ends: (ByteTx, ByteRx))
    ensures
        ends.1@ == RxView::fresh(),
        ends.0.shared_buf() == ends.1.shared_buf(),
        ends.0.watches() == ends.1.own_id(),
        ends.1.watches() == ends.0.own_id(),
{
    let buf = Buf::new_arc();
    let tx_sig = ActiveSig::new();
    let tx_watcher = tx_sig.watcher();
    let rx_sig = ActiveSig::new();
    let rx_watcher = rx_sig.watcher();
    (ByteTx::new(buf.clone(), tx_sig, rx_watcher), ByteRx::new(buf, rx_sig, tx_watcher))
}

} // verus!
