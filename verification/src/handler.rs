//! The ERC20-style resource handler: keeps the resource-to-contract
//! registry and the burnable-token registry, and answers deposits and
//! proposals with empty responses, leaving the token work to the chain
//! contracts.

use vstd::prelude::*;
use crate::bridge::{assoc_bytes32_get, assoc_flag_get};
use crate::traits::Handler;
use crate::types::{Address, Bytes32};

verus! {

/// Handler for ERC20 token transfers.
pub struct ERC20Handler {
    contract_address: Address,
    resource_contracts: Vec<(Bytes32, Address)>,
    burnable_contracts: Vec<(Address, bool)>,
}

impl ERC20Handler {
    /// The handler's own contract address.
    pub closed spec fn contract_address_spec(&self) -> Seq<u8> {
        self.contract_address@
    }

    /// The resource registry: which token contract a resource id maps to.
    pub closed spec fn resource_contract_of(&self, resource_id: Seq<u8>) -> Option<Address> {
        assoc_bytes32_get(self.resource_contracts@, resource_id)
    }

    /// The burnable-token registry.
    pub closed spec fn burnable_of(&self, token: Seq<u8>) -> Option<bool> {
        assoc_flag_get(self.burnable_contracts@, token)
    }

    /// A handler bound to its contract address, with empty registries.
    pub fn new(contract_address: Address) -> (r: ERC20Handler)
        ensures
            r.contract_address_spec() == contract_address@,
            forall|rid: Seq<u8>| r.resource_contract_of(rid) is None,
            forall|t: Seq<u8>| r.burnable_of(t) is None,
    {
        ERC20Handler {
            contract_address,
            resource_contracts: Vec::new(),
            burnable_contracts: Vec::new(),
        }
    }

    /// Reads the resource registry.
    pub fn resource_contract(&self, resource_id: &Bytes32) -> (r: Option<Address>)
        ensures
            r == self.resource_contract_of(resource_id@),
    {
        let mut i: usize = self.resource_contracts.len();
        proof {
            assert(self.resource_contracts@.take(i as int) =~= self.resource_contracts@);
        }
        while i > 0
            invariant
                i <= self.resource_contracts@.len(),
                assoc_bytes32_get(self.resource_contracts@, resource_id@) == assoc_bytes32_get(
                    self.resource_contracts@.take(i as int),
                    resource_id@,
                ),
            decreases i,
        {
            i = i - 1;
            let pair = &self.resource_contracts[i];
            proof {
                assert(self.resource_contracts@.take(i + 1).last()
                    == self.resource_contracts@[i as int]);
                assert(self.resource_contracts@.take(i + 1).drop_last()
                    =~= self.resource_contracts@.take(i as int));
            }
            if pair.0.eq_bytes(resource_id) {
                return Some(pair.1);
            }
        }
        proof {
            assert(self.resource_contracts@.take(0) =~= Seq::<(Bytes32, Address)>::empty());
        }
        None
    }

    /// Reads the burnable registry.
    pub fn is_burnable(&self, token_address: &Address) -> (r: bool)
        ensures
            r == (self.burnable_of(token_address@) == Some(true)),
    {
        let mut i: usize = self.burnable_contracts.len();
        proof {
            assert(self.burnable_contracts@.take(i as int) =~= self.burnable_contracts@);
        }
        while i > 0
            invariant
                i <= self.burnable_contracts@.len(),
                assoc_flag_get(self.burnable_contracts@, token_address@) == assoc_flag_get(
                    self.burnable_contracts@.take(i as int),
                    token_address@,
                ),
            decreases i,
        {
            i = i - 1;
            let pair = &self.burnable_contracts[i];
            proof {
                assert(self.burnable_contracts@.take(i + 1).last()
                    == self.burnable_contracts@[i as int]);
                assert(self.burnable_contracts@.take(i + 1).drop_last()
                    =~= self.burnable_contracts@.take(i as int));
            }
            if pair.0.eq_bytes(token_address) {
                return pair.1;
            }
        }
        proof {
            assert(self.burnable_contracts@.take(0) =~= Seq::<(Address, bool)>::empty());
        }
        false
    }
}

impl Handler for ERC20Handler {
    open spec fn set_resource_spec(
        &self,
        resource_id: Seq<u8>,
        contract_address: Seq<u8>,
        args: Seq<u8>,
    ) -> Result<(), Seq<char>> {
        Ok(())
    }

    /// Registration upserts resource id to token contract; nothing else
    /// of the handler changes.
    open spec fn set_resource_post(
        &self,
        resource_id: Seq<u8>,
        contract_address: Seq<u8>,
        args: Seq<u8>,
        post: Self,
    ) -> bool {
        &&& post.contract_address_spec() == self.contract_address_spec()
        &&& (post.resource_contract_of(resource_id) matches Some(a) && a@ == contract_address)
        &&& (forall|r: Seq<u8>|
            r != resource_id ==> post.resource_contract_of(r) == self.resource_contract_of(r))
        &&& (forall|t: Seq<u8>| post.burnable_of(t) == self.burnable_of(t))
    }

    open spec fn set_burnable_spec(&self, token_address: Seq<u8>) -> Result<(), Seq<char>> {
        Ok(())
    }

    /// Marking burnable upserts the token in the burnable registry;
    /// nothing else of the handler changes.
    open spec fn set_burnable_post(&self, token_address: Seq<u8>, post: Self) -> bool {
        &&& post.contract_address_spec() == self.contract_address_spec()
        &&& post.burnable_of(token_address) == Some(true)
        &&& (forall|t: Seq<u8>| t != token_address ==> post.burnable_of(t) == self.burnable_of(t))
        &&& (forall|r: Seq<u8>| post.resource_contract_of(r) == self.resource_contract_of(r))
    }

    open spec fn withdraw_spec(&self, data: Seq<u8>) -> Result<(), Seq<char>> {
        Ok(())
    }

    /// The withdrawal moves funds in the chain contracts this handler
    /// fronts; the handler's own registries do not change.
    open spec fn withdraw_post(&self, data: Seq<u8>, post: Self) -> bool {
        post == *self
    }

    open spec fn deposit_spec(&self, resource_id: Seq<u8>, sender: Seq<u8>, data: Seq<u8>) -> Result<
        Seq<u8>,
        Seq<char>,
    > {
        Ok(Seq::empty())
    }

    open spec fn execute_proposal_spec(&self, resource_id: Seq<u8>, data: Seq<u8>) -> Result<
        Seq<u8>,
        Seq<char>,
    > {
        Ok(Seq::empty())
    }

    fn set_resource(
        &mut self,
        resource_id: &Bytes32,
        contract_address: &Address,
        args: &Vec<u8>,
    ) -> (r: Result<(), String>) {
        self.resource_contracts.push((*resource_id, *contract_address));
        proof {
            assert(final(self).resource_contracts@.drop_last() =~= old(
                self,
            ).resource_contracts@);
        }
        Ok(())
    }

    fn set_burnable(&mut self, token_address: &Address) -> (r: Result<(), String>) {
        self.burnable_contracts.push((*token_address, true));
        proof {
            assert(final(self).burnable_contracts@.drop_last() =~= old(
                self,
            ).burnable_contracts@);
        }
        Ok(())
    }

    fn withdraw(&mut self, data: &Vec<u8>) -> (r: Result<(), String>) {
        Ok(())
    }

    fn deposit(&self, resource_id: &Bytes32, sender: &Address, data: &Vec<u8>) -> (r: Result<
        Vec<u8>,
        String,
    >) {
        Ok(Vec::new())
    }

    fn execute_proposal(&self, resource_id: &Bytes32, data: &Vec<u8>) -> (r: Result<
        Vec<u8>,
        String,
    >) {
        Ok(Vec::new())
    }
}

} // verus!
