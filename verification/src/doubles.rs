//! Verified test doubles for the pluggable contracts: a permissive and a
//! denying access-control backend, an echo handler, a handler that fails
//! on chosen data, and a fee handler that collects nothing.

use vstd::prelude::*;
use vstd::slice::slice_to_vec;
use crate::traits::{AccessControl, FeeHandler, Handler};
use crate::types::{Address, Bytes32, Uint256};

verus! {

/// Byte-vector equality.
pub fn vec_u8_eq(a: &Vec<u8>, b: &Vec<u8>) -> (r: bool)
    ensures
        r == (a@ == b@),
{
    if a.len() != b.len() {
        return false;
    }
    let mut i: usize = 0;
    while i < a.len()
        invariant
            i <= a.len(),
            a.len() == b.len(),
            forall|j: int| 0 <= j < i ==> a@[j] == b@[j],
        decreases a.len() - i,
    {
        if a[i] != b[i] {
            return false;
        }
        i += 1;
    }
    proof {
        assert(a@ =~= b@);
    }
    true
}

/// An access-control backend that authorizes every caller.
pub struct DummyAccessControl;

impl AccessControl for DummyAccessControl {
    open spec fn allows(&self, function_signature: Seq<u8>, caller: Seq<u8>) -> bool {
        true
    }

    fn has_access(&self, function_signature: [u8; 4], caller: &Address) -> (r: bool) {
        true
    }
}

/// An access-control backend that denies every caller.
pub struct DenyAllAccessControl;

impl AccessControl for DenyAllAccessControl {
    open spec fn allows(&self, function_signature: Seq<u8>, caller: Seq<u8>) -> bool {
        false
    }

    fn has_access(&self, function_signature: [u8; 4], caller: &Address) -> (r: bool) {
        false
    }
}

/// A handler that accepts every registration and echoes the deposit or
/// proposal data back as its response.
pub struct EchoHandler;

impl Handler for EchoHandler {
    open spec fn set_resource_spec(
        &self,
        resource_id: Seq<u8>,
        contract_address: Seq<u8>,
        args: Seq<u8>,
    ) -> Result<(), Seq<char>> {
        Ok(())
    }

    open spec fn set_resource_post(
        &self,
        resource_id: Seq<u8>,
        contract_address: Seq<u8>,
        args: Seq<u8>,
        post: Self,
    ) -> bool {
        post == *self
    }

    open spec fn set_burnable_spec(&self, token_address: Seq<u8>) -> Result<(), Seq<char>> {
        Ok(())
    }

    open spec fn set_burnable_post(&self, token_address: Seq<u8>, post: Self) -> bool {
        post == *self
    }

    open spec fn withdraw_spec(&self, data: Seq<u8>) -> Result<(), Seq<char>> {
        Ok(())
    }

    open spec fn withdraw_post(&self, data: Seq<u8>, post: Self) -> bool {
        post == *self
    }

    open spec fn deposit_spec(&self, resource_id: Seq<u8>, sender: Seq<u8>, data: Seq<u8>) -> Result<
        Seq<u8>,
        Seq<char>,
    > {
        Ok(data)
    }

    open spec fn execute_proposal_spec(&self, resource_id: Seq<u8>, data: Seq<u8>) -> Result<
        Seq<u8>,
        Seq<char>,
    > {
        Ok(data)
    }

    fn set_resource(
        &mut self,
        resource_id: &Bytes32,
        contract_address: &Address,
        args: &Vec<u8>,
    ) -> (r: Result<(), String>) {
        Ok(())
    }

    fn set_burnable(&mut self, token_address: &Address) -> (r: Result<(), String>) {
        Ok(())
    }

    fn withdraw(&mut self, data: &Vec<u8>) -> (r: Result<(), String>) {
        Ok(())
    }

    fn deposit(&self, resource_id: &Bytes32, sender: &Address, data: &Vec<u8>) -> (r: Result<
        Vec<u8>,
        String,
    >) {
        Ok(slice_to_vec(data.as_slice()))
    }

    fn execute_proposal(&self, resource_id: &Bytes32, data: &Vec<u8>) -> (r: Result<
        Vec<u8>,
        String,
    >) {
        Ok(slice_to_vec(data.as_slice()))
    }
}

/// A handler that echoes like [`EchoHandler`] but fails a proposal whose
/// data equals a configured pattern, with a configured message. With an
/// empty message and a pattern no proposal carries it never fails; it
/// stands in for an upstream that recovers between retries.
pub struct FailOnDataHandler {
    pub fail_data: Vec<u8>,
    pub message: String,
}

impl Handler for FailOnDataHandler {
    open spec fn set_resource_spec(
        &self,
        resource_id: Seq<u8>,
        contract_address: Seq<u8>,
        args: Seq<u8>,
    ) -> Result<(), Seq<char>> {
        Ok(())
    }

    open spec fn set_resource_post(
        &self,
        resource_id: Seq<u8>,
        contract_address: Seq<u8>,
        args: Seq<u8>,
        post: Self,
    ) -> bool {
        post == *self
    }

    open spec fn set_burnable_spec(&self, token_address: Seq<u8>) -> Result<(), Seq<char>> {
        Ok(())
    }

    open spec fn set_burnable_post(&self, token_address: Seq<u8>, post: Self) -> bool {
        post == *self
    }

    open spec fn withdraw_spec(&self, data: Seq<u8>) -> Result<(), Seq<char>> {
        Ok(())
    }

    open spec fn withdraw_post(&self, data: Seq<u8>, post: Self) -> bool {
        post == *self
    }

    open spec fn deposit_spec(&self, resource_id: Seq<u8>, sender: Seq<u8>, data: Seq<u8>) -> Result<
        Seq<u8>,
        Seq<char>,
    > {
        if data == self.fail_data@ {
            Err(self.message@)
        } else {
            Ok(data)
        }
    }

    open spec fn execute_proposal_spec(&self, resource_id: Seq<u8>, data: Seq<u8>) -> Result<
        Seq<u8>,
        Seq<char>,
    > {
        if data == self.fail_data@ {
            Err(self.message@)
        } else {
            Ok(data)
        }
    }

    fn set_resource(
        &mut self,
        resource_id: &Bytes32,
        contract_address: &Address,
        args: &Vec<u8>,
    ) -> (r: Result<(), String>) {
        Ok(())
    }

    fn set_burnable(&mut self, token_address: &Address) -> (r: Result<(), String>) {
        Ok(())
    }

    fn withdraw(&mut self, data: &Vec<u8>) -> (r: Result<(), String>) {
        Ok(())
    }

    fn deposit(&self, resource_id: &Bytes32, sender: &Address, data: &Vec<u8>) -> (r: Result<
        Vec<u8>,
        String,
    >) {
        if vec_u8_eq(data, &self.fail_data) {
            Err(self.message.clone())
        } else {
            Ok(slice_to_vec(data.as_slice()))
        }
    }

    fn execute_proposal(&self, resource_id: &Bytes32, data: &Vec<u8>) -> (r: Result<
        Vec<u8>,
        String,
    >) {
        if vec_u8_eq(data, &self.fail_data) {
            Err(self.message.clone())
        } else {
            Ok(slice_to_vec(data.as_slice()))
        }
    }
}

/// A fee handler that collects nothing and quotes a zero fee.
pub struct DummyFeeHandler;

impl FeeHandler for DummyFeeHandler {
    open spec fn collect_fee_spec(
        &self,
        sender: Seq<u8>,
        source_domain_id: u8,
        destination_domain_id: u8,
        resource_id: Seq<u8>,
        deposit_data: Seq<u8>,
        fee_data: Seq<u8>,
        value: nat,
    ) -> Result<(), Seq<char>> {
        Ok(())
    }

    open spec fn calculate_fee_spec(
        &self,
        source_domain_id: u8,
        destination_domain_id: u8,
        resource_id: Seq<u8>,
        deposit_data: Seq<u8>,
        fee_data: Seq<u8>,
    ) -> Result<nat, Seq<char>> {
        Ok(0)
    }

    fn collect_fee(
        &self,
        sender: &Address,
        source_domain_id: u8,
        destination_domain_id: u8,
        resource_id: &Bytes32,
        deposit_data: &Vec<u8>,
        fee_data: &Vec<u8>,
        value: &Uint256,
    ) -> (r: Result<(), String>) {
        Ok(())
    }

    fn calculate_fee(
        &self,
        source_domain_id: u8,
        destination_domain_id: u8,
        resource_id: &Bytes32,
        deposit_data: &Vec<u8>,
        fee_data: &Vec<u8>,
    ) -> (r: Result<Uint256, String>) {
        Ok(Uint256::zero())
    }
}

} // verus!
