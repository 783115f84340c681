//! The forwarding engine: content conversion, the per-pair polling state
//! machines, and the registry of running pollers.

pub mod converter;
pub mod poller;

use crate::domain::ChannelEntryId;
use std::collections::HashMap;
use tokio_util::sync::CancellationToken;
use vstd::prelude::*;

verus! {

broadcast use vstd::std_specs::hash::group_hash_axioms;

/// Declares tokio_util's CancellationToken to the verifier: its values are
/// carried opaquely and handed back to the runtime side.
#[verifier::external_type_specification]
#[verifier::external_body]
pub struct ExCancellationToken(CancellationToken);

/// Relies on tokio_util's CancellationToken::cancel: requests cancellation
/// of every task listening on the token. The effect is on the runtime side;
/// nothing about it can be stated here.
#[verifier::external_body]
fn cancel_token(token: &CancellationToken) {
    token.cancel()
}

/// The live registry of running pollers: the cancellation handle of each
/// pair's polling task, keyed by the pair. The registry is a map, so it
/// holds at most one handle per pair; its owner is meant to be the single
/// writer.
pub struct PollerRegistry {
    pub tokens: HashMap<i32, CancellationToken>,
}

impl View for PollerRegistry {
    type V = Map<i32, CancellationToken>;

    open spec fn view(&self) -> Map<i32, CancellationToken> {
        self.tokens@
    }
}

impl PollerRegistry {
    /// A fresh registry with no pollers.
    pub fn new() -> (r: Self)
        ensures
            r@ == Map::<i32, CancellationToken>::empty(),
    {
        PollerRegistry { tokens: HashMap::new() }
    }

    /// Registers the cancellation handle of the task just spawned for a
    /// pair. A handle already registered under the same pair is replaced,
    /// so the pair keeps a single handle.
    pub fn register(&mut self, id: ChannelEntryId, token: CancellationToken)
        ensures
            final(self)@ == old(self)@.insert(id.0, token),
    {
        self.tokens.insert(id.0, token);
    }

    /// Stops the poller of one pair: its handle leaves the registry and is
    /// cancelled. Returns whether the pair had a registered poller; for an
    /// unknown pair nothing changes and `false` comes back.
    pub fn cancel_and_remove(&mut self, id: ChannelEntryId) -> (r: bool)
        ensures
            final(self)@ == old(self)@.remove(id.0),
            r == old(self)@.contains_key(id.0),
    {
        match self.tokens.remove(&id.0) {
            Some(token) => {
                cancel_token(&token);
                true
            },
            None => false,
        }
    }

    /// Whether a pair has a registered poller.
    pub fn contains(&self, id: ChannelEntryId) -> (r: bool)
        ensures
            r == self@.contains_key(id.0),
    {
        self.tokens.contains_key(&id.0)
    }

    /// Number of registered pollers.
    pub fn len(&self) -> (r: usize)
        ensures
            r == self@.len(),
    {
        self.tokens.len()
    }
}

} // verus!
