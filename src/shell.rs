//! The ledger shell: the application state that the consensus engine's
//! requests change. Persisting it and computing its Merkle root belong to
//! the storage layer; the shell records what those requests decide.

use vstd::prelude::*;

verus! {

/// The height of a block.
#[derive(Debug, Clone, Copy, PartialEq, Eq, Structural)]
pub struct BlockHeight(pub u64);

/// The hash of a block.
#[derive(Debug)]
pub struct BlockHash(pub Vec<u8>);

/// The root hash of the state's Merkle tree.
#[derive(Debug)]
pub struct MerkleRoot(pub Vec<u8>);

#[derive(Debug, Clone, Copy, PartialEq, Eq, Structural)]
pub enum MempoolTxType {
    /// A transaction that has not been validated by this node before.
    NewTransaction,
    /// A transaction that has been validated at some previous level that
    /// may need to be validated again.
    RecheckTransaction,
}

/// The balance every account starts the chain with, in order.
pub open spec fn genesis_accounts() -> Seq<(Seq<char>, u64)> {
    seq![("va"@, 10000u64), ("ba"@, 100u64)]
}

/// The state of the ledger application between consensus requests.
pub struct Shell {
    chain_id: Option<String>,
    accounts: Vec<(String, u64)>,
    block: Option<(Vec<u8>, u64)>,
    last_committed: Option<(Vec<u8>, u64)>,
}

impl Shell {
    /// The chain's identifier, once the chain is initialised.
    pub closed spec fn spec_chain_id(self) -> Option<Seq<char>> {
        match self.chain_id {
            Some(id) => Some(id@),
            None => None,
        }
    }

    /// The accounts and their balances.
    pub closed spec fn spec_accounts(self) -> Seq<(Seq<char>, u64)> {
        self.accounts@.map_values(|a: (String, u64)| (a.0@, a.1))
    }

    /// The hash and height of the block being applied, if any.
    pub closed spec fn spec_block(self) -> Option<(Seq<u8>, u64)> {
        match self.block {
            Some(b) => Some((b.0@, b.1)),
            None => None,
        }
    }

    /// The Merkle root and height of the last committed block, if any.
    pub closed spec fn spec_last_committed(self) -> Option<(Seq<u8>, u64)> {
        match self.last_committed {
            Some(c) => Some((c.0@, c.1)),
            None => None,
        }
    }

    /// A shell at genesis: the genesis accounts, no chain id, no block.
    pub fn new() -> (r: Self)
        ensures
            r.spec_accounts() == genesis_accounts(),
            r.spec_chain_id() is None,
            r.spec_block() is None,
            r.spec_last_committed() is None,
    {
        let mut accounts: Vec<(String, u64)> = Vec::new();
        accounts.push((String::from_str("va"), 10000));
        accounts.push((String::from_str("ba"), 100));
        let r = Shell { chain_id: None, accounts, block: None, last_committed: None };
        proof {
            assert(r.spec_accounts() =~= genesis_accounts());
        }
        r
    }

    /// Records the identifier of the chain.
    pub fn init_chain(&mut self, chain_id: String)
        ensures
            final(self).spec_chain_id() == Some(chain_id@),
            final(self).spec_accounts() == old(self).spec_accounts(),
            final(self).spec_block() == old(self).spec_block(),
            final(self).spec_last_committed() == old(self).spec_last_committed(),
    {
        self.chain_id = Some(chain_id);
    }

    /// Begins a new block.
    pub fn begin_block(&mut self, hash: BlockHash, height: BlockHeight)
        ensures
            final(self).spec_block() == Some((hash.0@, height.0)),
            final(self).spec_chain_id() == old(self).spec_chain_id(),
            final(self).spec_accounts() == old(self).spec_accounts(),
            final(self).spec_last_committed() == old(self).spec_last_committed(),
    {
        self.block = Some((hash.0, height.0));
    }

    /// Ends a block: nothing changes until it is committed.
    pub fn end_block(&mut self, _height: BlockHeight)
        ensures
            final(self).spec_chain_id() == old(self).spec_chain_id(),
            final(self).spec_accounts() == old(self).spec_accounts(),
            final(self).spec_block() == old(self).spec_block(),
            final(self).spec_last_committed() == old(self).spec_last_committed(),
    {
    }

    /// Commits the block being applied, whose state the storage layer
    /// persisted with the Merkle root `root`, and returns that root. With
    /// no block begun, nothing changes.
    pub fn commit(&mut self, root: Vec<u8>) -> (r: MerkleRoot)
        ensures
            r.0@ == root@,
            final(self).spec_last_committed() == (match old(self).spec_block() {
                Some(b) => Some((root@, b.1)),
                None => old(self).spec_last_committed(),
            }),
            final(self).spec_block() is None,
            final(self).spec_chain_id() == old(self).spec_chain_id(),
            final(self).spec_accounts() == old(self).spec_accounts(),
    {
        match self.block.take() {
            Some(b) => {
                self.last_committed = Some((root.clone(), b.1));
            },
            None => {},
        }
        MerkleRoot(root)
    }

    /// The Merkle root and height of the last committed block, if any.
    pub fn last_committed(&self) -> (r: Option<(MerkleRoot, BlockHeight)>)
        ensures
            r is Some <==> self.spec_last_committed() is Some,
            r matches Some(c) ==> self.spec_last_committed() == Some((c.0.0@, c.1.0)),
    {
        match &self.last_committed {
            Some(c) => Some((MerkleRoot(c.0.clone()), BlockHeight(c.1))),
            None => None,
        }
    }

    /// The balance of the account named `address`, if it exists.
    pub fn balance(&self, address: &String) -> (r: Option<u64>)
        ensures
            r is None <==> forall|i: int|
                0 <= i < self.spec_accounts().len() ==> self.spec_accounts()[i].0 != address@,
            r matches Some(b) ==> exists|i: int|
                0 <= i < self.spec_accounts().len() && self.spec_accounts()[i] == (address@, b),
    {
        let mut i: usize = 0;
        while i < self.accounts.len()
            invariant
                0 <= i <= self.accounts.len(),
                self.spec_accounts().len() == self.accounts.len(),
                forall|j: int| 0 <= j < i ==> self.spec_accounts()[j].0 != address@,
            decreases self.accounts.len() - i,
        {
            if self.accounts[i].0 == *address {
                assert(self.spec_accounts()[i as int] == (address@, self.accounts[i as int].1));
                return Some(self.accounts[i].1);
            }
            i = i + 1;
        }
        None
    }
}

} // verus!
