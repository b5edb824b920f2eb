//! The chain orchestrator: composes the word store and the peer registry.

use vstd::prelude::*;

use crate::clients::Client;
use crate::clients::ClientError;
use crate::random::random_index_below;
use crate::stores::Store;
use crate::stores::StoreError;

verus! {

/// Errors the orchestrator surfaces to transport adapters.
#[derive(Debug)]
pub enum CoreError<SE, CE> {
    StoreError(StoreError<SE>),
    NotFound(String),
    AlreadyExists(String),
    Empty,
    ServiceUnavailable,
    ClientError(ClientError<CE>),
    IndexError,
    NoConnectedServices,
}

/// The orchestrator: owns the word store and the registry of connected peers.
pub struct Core<S: Store, C: Client> {
    store: S,
    connected_services: Vec<C>,
}

impl<S: Store, C: Client> Core<S, C> {
    /// The words the store holds.
    pub closed spec fn words(&self) -> Seq<Seq<char>> {
        self.store.words()
    }

    /// The connected peers, in registry order.
    pub closed spec fn services(&self) -> Seq<C> {
        self.connected_services@
    }

    /// How many peers are connected.
    pub open spec fn num_services(&self) -> nat {
        self.services().len()
    }

    /// Well-formedness, inherited from the store.
    pub closed spec fn inv(&self) -> bool {
        self.store.inv()
    }

    pub fn new(store: S, connected_services: Vec<C>) -> (r: Core<S, C>)
        ensures
            r.words() == store.words(),
            r.services() == connected_services@,
            store.inv() ==> r.inv(),
    {
        Core { store, connected_services }
    }

    /// Probe every connected peer, failing fast with `ServiceUnavailable` on
    /// the first peer that reports unhealthy. With no peers connected there
    /// is nothing to probe and the check passes. Whether a peer answers is
    /// the network's affair; whatever the answers, no other error comes back
    /// and the rest of the state is untouched.
    pub fn health_check(&mut self) -> (r: Result<(), CoreError<S::E, C::E>>)
        requires
            old(self).inv(),
        ensures
            final(self).inv(),
            final(self).words() == old(self).words(),
            final(self).num_services() == old(self).num_services(),
            old(self).num_services() == 0 ==> r is Ok,
            r matches Err(e) ==> e is ServiceUnavailable,
    {
        let mut i: usize = 0;
        while i < self.connected_services.len()
            invariant
                self.inv(),
                self.words() == old(self).words(),
                self.num_services() == old(self).num_services(),
                i <= self.num_services(),
            decreases self.num_services() - i,
        {
            if self.connected_services[i].health().is_err() {
                return Err(CoreError::ServiceUnavailable);
            }
            i += 1;
        }
        Ok(())
    }

    /// Readiness never fails: the orchestrator is ready as soon as it exists.
    pub fn ready_check(&self) -> (r: Result<(), CoreError<S::E, C::E>>)
        ensures
            r is Ok,
    {
        Ok(())
    }

    /// Look a word up in the store; fails with `NotFound` exactly when the
    /// word is absent.
    pub fn get_word(&self, word: String) -> (r: Result<String, CoreError<S::E, C::E>>)
        requires
            self.inv(),
        ensures
            self.words().contains(word@) ==> (r matches Ok(w) && w@ == word@),
            !self.words().contains(word@) ==> (r matches Err(e)
                && e matches CoreError::NotFound(w) && w@ == word@),
    {
        match self.store.get_word(word) {
            Ok(w) => Ok(w),
            Err(err) => Err(
                match err {
                    StoreError::NotFound(w) => CoreError::NotFound(w),
                    _ => CoreError::StoreError(err),
                },
            ),
        }
    }

    /// Add a word to the store; fails with `AlreadyExists` exactly when the
    /// word is present, and then changes nothing.
    pub fn add_word(&mut self, word: String) -> (r: Result<(), CoreError<S::E, C::E>>)
        requires
            old(self).inv(),
        ensures
            final(self).inv(),
            final(self).services() == old(self).services(),
            old(self).words().contains(word@) ==> (r matches Err(e)
                && e matches CoreError::AlreadyExists(w) && w@ == word@
                && final(self).words() == old(self).words()),
            !old(self).words().contains(word@) ==> (r is Ok
                && final(self).words() == old(self).words().push(word@)),
    {
        match self.store.add_word(word) {
            Ok(()) => Ok(()),
            Err(err) => Err(
                match err {
                    StoreError::AlreadyExists(w) => CoreError::AlreadyExists(w),
                    _ => CoreError::StoreError(err),
                },
            ),
        }
    }

    /// Remove a word from the store; fails with `NotFound` exactly when the
    /// word is absent, and then changes nothing.
    pub fn delete_word(&mut self, word: String) -> (r: Result<(), CoreError<S::E, C::E>>)
        requires
            old(self).inv(),
        ensures
            final(self).inv(),
            final(self).services() == old(self).services(),
            !old(self).words().contains(word@) ==> (r matches Err(e)
                && e matches CoreError::NotFound(w) && w@ == word@
                && final(self).words() == old(self).words()),
            old(self).words().contains(word@) ==> (r is Ok
                && final(self).words()
                    == old(self).words().remove(old(self).words().index_of(word@))),
    {
        match self.store.remove_word(word) {
            Ok(()) => Ok(()),
            Err(err) => Err(
                match err {
                    StoreError::NotFound(w) => CoreError::NotFound(w),
                    _ => CoreError::StoreError(err),
                },
            ),
        }
    }

    /// Draw one word from the store with uniform probability; fails with
    /// `Empty` exactly when the store holds no words, and never returns a
    /// value outside the store.
    pub fn random_word(&self) -> (r: Result<String, CoreError<S::E, C::E>>)
        requires
            self.inv(),
        ensures
            self.words().len() == 0 ==> (r matches Err(e) && e is Empty),
            self.words().len() > 0 ==> (r matches Ok(w) && self.words().contains(w@)),
    {
        self.select_random_word()
    }

    /// Extend `chain` by one locally drawn word; with hops remaining, hand
    /// the extended chain to one uniformly chosen peer for the rest. An
    /// empty store fails with `Empty` before peers are considered; hops
    /// remaining with no peers connected fail with `NoConnectedServices`; a
    /// failing peer call comes back wrapped in `ClientError`. The store is
    /// never changed.
    pub fn chain(&mut self, chain: Vec<String>, count: u32) -> (r: Result<
        Vec<String>,
        CoreError<S::E, C::E>,
    >)
        requires
            old(self).inv(),
        ensures
            final(self).inv(),
            final(self).words() == old(self).words(),
            final(self).num_services() == old(self).num_services(),
            old(self).words().len() == 0 ==> (r matches Err(e) && e is Empty
                && final(self).services() == old(self).services()),
            old(self).words().len() > 0 && count == 0 ==> (r matches Ok(out)
                && out.deep_view().len() == chain.deep_view().len() + 1
                && (exists|w: Seq<char>|
                    #[trigger] old(self).words().contains(w)
                        && out.deep_view() == chain.deep_view().push(w))
                && final(self).services() == old(self).services()),
            old(self).words().len() > 0 && count > 0 && old(self).num_services() == 0
                ==> (r matches Err(e) && e is NoConnectedServices
                && final(self).services() == old(self).services()),
            old(self).words().len() > 0 && count > 0 && old(self).num_services() > 0
                ==> (r is Ok || (r matches Err(e) && e is ClientError)),
    {
        let random_word = match self.select_random_word() {
            Ok(w) => w,
            Err(e) => {
                return Err(e);
            }
        };
        let ghost picked: Seq<char> = random_word@;
        let mut new_chain = chain.clone();
        proof {
            assert(new_chain@ =~= chain@);
        }
        new_chain.push(random_word);
        proof {
            assert(new_chain.deep_view() =~= chain.deep_view().push(picked));
        }
        if count > 0 {
            if self.connected_services.len() == 0 {
                return Err(CoreError::NoConnectedServices);
            }
            self.chain_with_random_service(new_chain, count)
        } else {
            Ok(new_chain)
        }
    }

    /// Translate a peer's answer into the orchestrator's: what the peer
    /// returned passes through unchanged, and a peer failure is wrapped in
    /// `ClientError`.
    ///
    /// (Defined on the orchestrator so the answer's error type matches the
    /// orchestrator's own.)
    pub fn chain_resolve(peer_result: Result<Vec<String>, ClientError<C::E>>) -> (r: Result<
        Vec<String>,
        CoreError<S::E, C::E>,
    >)
        ensures
            peer_result matches Ok(c) ==> (r matches Ok(out) && out == c),
            peer_result matches Err(e) ==> (r matches Err(ce)
                && ce == CoreError::<S::E, C::E>::ClientError(e)),
    {
        match peer_result {
            Ok(c) => Ok(c),
            Err(e) => Err(CoreError::ClientError(e)),
        }
    }

    /// Draw one word from the store, mapping the store's `Empty` through.
    fn select_random_word(&self) -> (r: Result<String, CoreError<S::E, C::E>>)
        requires
            self.inv(),
        ensures
            self.words().len() == 0 ==> (r matches Err(e) && e is Empty),
            self.words().len() > 0 ==> (r matches Ok(w) && self.words().contains(w@)),
    {
        match self.store.get_random_word() {
            Ok(w) => Ok(w),
            Err(err) => Err(
                match err {
                    StoreError::Empty => CoreError::Empty,
                    _ => CoreError::StoreError(err),
                },
            ),
        }
    }

    /// Hand the chain to one peer picked uniformly at random from the
    /// registry, asking it for one hop fewer.
    fn chain_with_random_service(&mut self, chain: Vec<String>, count: u32) -> (r: Result<
        Vec<String>,
        CoreError<S::E, C::E>,
    >)
        requires
            old(self).inv(),
            old(self).num_services() > 0,
            count >= 1,
        ensures
            final(self).inv(),
            final(self).words() == old(self).words(),
            final(self).num_services() == old(self).num_services(),
            r is Ok || (r matches Err(e) && e is ClientError),
    {
        let num_connected_services = self.connected_services.len();
        let index = random_index_below(num_connected_services);
        let random_service = &mut self.connected_services[index];
        Self::chain_resolve(random_service.chain(chain, count - 1))
    }
}

/// The length a chain reaches when every hop of the protocol succeeds: the
/// hop appends one word, and with hops still owed it passes one hop fewer on.
pub open spec fn completed_chain_len(len: nat, count: nat) -> nat
    decreases count,
{
    if count == 0 {
        len + 1
    } else {
        completed_chain_len(len + 1, (count - 1) as nat)
    }
}

/// Across the whole distributed call there are exactly `count + 1` word
/// appends: a request entering with `len` words and `count` owed hops
/// completes, when every hop succeeds, with `len + count + 1` words.
pub proof fn lemma_completed_chain_len(len: nat, count: nat)
    ensures
        completed_chain_len(len, count) == len + count + 1,
    decreases count,
{
    if count > 0 {
        lemma_completed_chain_len(len + 1, (count - 1) as nat);
    }
}

} // verus!
