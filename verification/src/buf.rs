//! The shared buffer: a growable byte queue behind a lock, owned jointly by
//! the two handles of a channel.
//!
//! Every operation holds the lock for one append or one swap and lets it go
//! before it returns, so no call ever finds the lock held by its own thread.
//! What the queue holds at any moment depends on what the other handle has
//! done, so these operations promise nothing that a single caller could check:
//! what the channel as a whole guarantees is stated over the model of it.
use parking_lot::lock_api;
use parking_lot::Mutex;
use parking_lot::RawMutex;
use std::sync::Arc;
use vstd::prelude::*;

verus! {

/// Trusted: declares `parking_lot::RawMutex`, the lock inside
/// `parking_lot::Mutex`, as an opaque type.
#[verifier::external_type_specification]
#[verifier::external_body]
pub struct ExRawMutex(RawMutex);

/// Trusted: declares `lock_api::Mutex`, of which `parking_lot::Mutex` is an
/// alias, as an opaque type.
#[verifier::external_type_specification]
#[verifier::external_body]
#[verifier::reject_recursive_types(R)]
#[verifier::reject_recursive_types(T)]
pub struct ExMutex<R, T: ?Sized>(lock_api::Mutex<R, T>);

/// The byte queue that sender and receiver share.
#[derive(Debug)]
pub struct Buf {
    inner: Mutex<Vec<u8>>,
}

impl Buf {
    /// Trusted: calls `parking_lot::Mutex::new` on an empty vector.
    #[verifier::external_body]
    fn new() -> (buf: Buf) {
        Buf { inner: Mutex::new(Vec::new()) }
    }

    /// An empty buffer, ready to be shared.
    pub fn new_arc() -> (buf: Arc<Buf>) {
        Arc::new(Buf::new())
    }

    /// Appends one byte at the tail.
    ///
    /// Trusted: calls `Mutex::lock` and pushes onto the locked vector.
    #[verifier::external_body]
    pub(crate) fn push(&self, b: u8) {
        self.inner.lock().push(b)
    }

    /// Appends `bytes` at the tail, in order, as one step.
    ///
    /// Trusted: calls `Mutex::lock` and extends the locked vector.
    #[verifier::external_body]
    pub(crate) fn append(&self, bytes: &[u8]) {
        self.inner.lock().extend_from_slice(bytes)
    }

    /// Hands over everything queued so far and leaves the queue empty, as one
    /// step.
    ///
    /// Trusted: calls `Mutex::lock` and swaps the locked vector for an empty
    /// one. What comes back is whatever was appended since the last `take`, so
    /// the contract promises nothing about it.
    #[verifier::external_body]
    pub fn take(&self) -> (bytes: Vec<u8>) {
        std::mem::take(&mut *self.inner.lock())
    }
}

} // verus!
