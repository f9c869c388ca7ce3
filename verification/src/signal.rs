//! Liveness signals: how one end of a channel learns that the other is gone.
//!
//! An [`ActiveSig`] is a token that lives inside a handle. An [`ActiveWatcher`]
//! observes a token without keeping it alive. No call ever closes a signal: it
//! closes when the handle that owns it is destroyed, and it never opens again.
//!
//! Which signal a watcher observes is fixed when it is made, and the contracts
//! say so. Whether that signal is still there is decided by whoever owns it,
//! often on another thread: a query promises nothing that its caller could
//! check, and the channel model states what the answers mean.
use std::sync::Arc;
use std::sync::Weak;
use vstd::prelude::*;

verus! {

/// The token whose existence says "this end is still here".
///
/// Beside the token the signal keeps an observer of it, made when the token
/// was. That observer is what tells one signal from another: every watcher
/// of this signal is equal to it.
#[derive(Debug)]
pub struct ActiveSig {
    inner: Arc<()>,
    me: ActiveWatcher,
}

/// A non-owning observer of an [`ActiveSig`]. Two watchers are equal where
/// they observe the same signal.
///
/// Trusted: the field is a `std::sync::Weak<()>`. That type has an allocator
/// parameter and cannot be declared to the verifier, so the struct as a whole
/// is opaque to it.
#[verifier::external_body]
#[derive(Debug)]
pub struct ActiveWatcher {
    inner: Weak<()>,
}

impl ActiveSig {
    /// What every watcher of this signal is equal to.
    pub closed spec fn id(&self) -> ActiveWatcher {
        self.me
    }

    /// A fresh signal, open for as long as the returned value exists.
    pub fn new() -> (sig: ActiveSig) {
        let inner = Arc::new(());
        let me = ActiveWatcher::downgrade(&inner);
        ActiveSig { inner, me }
    }

    /// An observer of this signal, and of no other.
    pub fn watcher(&self) -> (w: ActiveWatcher)
        ensures
            w == self.id(),
    {
        self.me.again()
    }
}

impl ActiveWatcher {
    /// Trusted: calls `Arc::downgrade` on `token` and keeps the weak reference
    /// that it returns. Nothing is claimed of the result.
    #[verifier::external_body]
    fn downgrade(token: &Arc<()>) -> (w: ActiveWatcher) {
        ActiveWatcher { inner: Arc::downgrade(token) }
    }

    /// Trusted: calls `Weak::clone`, which returns a weak reference to the
    /// allocation that this one points to. The contract claims that the
    /// result observes what this watcher observes.
    #[verifier::external_body]
    fn again(&self) -> (w: ActiveWatcher)
        ensures
            w == *self,
    {
        ActiveWatcher { inner: self.inner.clone() }
    }

    /// Trusted: calls `Weak::upgrade`, which returns the token if it still
    /// exists. Whether it does depends on what its owner has done by now, so
    /// nothing is claimed of the result, and two calls may differ.
    #[verifier::external_body]
    fn upgrade(&self) -> (token: Option<Arc<()>>) {
        self.inner.upgrade()
    }

    /// Whether the observed signal still exists, as far as this call can see.
    pub fn sig_open(&self) -> (open: bool) {
        self.upgrade().is_some()
    }

    /// Whether the observed signal is gone, as far as this call can see: the
    /// negation of what [`sig_open`](Self::sig_open) finds when this call asks.
    pub fn sig_closed(&self) -> (closed: bool) {
        !self.sig_open()
    }
}

} // verus!
