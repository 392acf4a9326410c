use vstd::prelude::*;

use crate::chain_id::ChainId;
use crate::error::SigningError;

verus! {

/// A signing backend (a software key, an HSM, a hardware wallet), bound to one
/// chain. The library never looks behind these two operations.
pub trait SigningCapability {
    /// Signs `bytes` with the key that `key` selects, or with the sole key
    /// when `key` is `None`.
    fn sign(&self, key: Option<&[u8]>, bytes: &[u8]) -> Result<Vec<u8>, SigningError>;

    /// The public identity of the key that `key` selects, or of the sole key
    /// when `key` is `None`.
    fn identity(&self, key: Option<&[u8]>) -> Result<Vec<u8>, SigningError>;
}

/// A chain together with the signing capability bound to it.
pub struct ChainContext<S> {
    /// The chain.
    pub chain_id: ChainId,
    /// The signing capability that holds the chain's key.
    pub signer: S,
}

/// Lookup from a chain identifier to the context of that chain. Each chain
/// appears at most once; entries are only added, never changed.
pub struct Registry<S> {
    chains: Vec<ChainContext<S>>,
}

impl<S> Registry<S> {
    /// The chain identifiers, in the order they were registered.
    pub closed spec fn ids(&self) -> Seq<Seq<char>> {
        self.chains@.map_values(|c: ChainContext<S>| c.chain_id@)
    }

    /// Whether the registry holds `id`.
    pub open spec fn contains(&self, id: Seq<char>) -> bool {
        self.ids().contains(id)
    }

    /// No identifier appears twice.
    pub closed spec fn wf(&self) -> bool {
        self.ids().no_duplicates()
    }

    /// An empty registry.
    pub fn new() -> (r: Registry<S>)
        ensures
            r.wf(),
            r.ids() == Seq::<Seq<char>>::empty(),
    {
        let r = Registry { chains: Vec::new() };
        assert(r.ids() =~= Seq::<Seq<char>>::empty());
        r
    }

    /// Number of registered chains.
    pub fn len(&self) -> (r: usize)
        ensures
            r == self.ids().len(),
    {
        self.chains.len()
    }

    /// Adds a chain; refused, and the registry left as it was, when the chain
    /// is already registered.
    pub fn register(&mut self, ctx: ChainContext<S>) -> (r: Result<(), ChainContext<S>>)
        requires
            old(self).wf(),
        ensures
            final(self).wf(),
            r is Ok <==> !old(self).contains(ctx.chain_id@),
            r is Ok ==> final(self).ids() == old(self).ids().push(ctx.chain_id@),
            r is Err ==> final(self).ids() == old(self).ids(),
    {
        if self.index_of(&ctx.chain_id).is_some() {
            return Err(ctx);
        }
        let ghost before = self.ids();
        let ghost id = ctx.chain_id@;
        self.chains.push(ctx);
        assert(self.ids() =~= before.push(id));
        Ok(())
    }

    /// Position of `id` in the registry, if it is there.
    fn index_of(&self, id: &ChainId) -> (r: Option<usize>)
        ensures
            r is None <==> !self.contains(id@),
            r matches Some(i) ==> i < self.ids().len() && self.ids()[i as int] == id@,
    {
        let mut i: usize = 0;
        while i < self.chains.len()
            invariant
                i <= self.chains@.len(),
                forall|j: int| 0 <= j < i ==> self.ids()[j] != id@,
            decreases self.chains@.len() - i,
        {
            if self.chains[i].chain_id.same_chain(id) {
                assert(self.ids()[i as int] == id@);
                return Some(i);
            }
            i = i + 1;
        }
        assert(!self.contains(id@)) by {
            if self.contains(id@) {
                let k = choose|k: int| 0 <= k < self.ids().len() && self.ids()[k] == id@;
                assert(self.ids()[k] != id@);
            }
        }
        None
    }

    /// The context registered for `id`, if any.
    pub fn get_chain(&self, id: &ChainId) -> (r: Option<&ChainContext<S>>)
        requires
            self.wf(),
        ensures
            r is None <==> !self.contains(id@),
            r matches Some(c) ==> c.chain_id@ == id@,
    {
        match self.index_of(id) {
            Some(i) => {
                assert(self.chains@[i as int].chain_id@ == self.ids()[i as int]);
                Some(&self.chains[i])
            },
            None => None,
        }
    }
}

} // verus!
