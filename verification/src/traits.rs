//! The pluggable capability contracts around the coordinator: access
//! control, resource handlers and the fee handler. Each executable
//! method is pinned to a spec-level function of the implementing type,
//! so the coordinator's own contracts can speak about what a handler
//! returned.

use vstd::prelude::*;
use crate::types::{Address, Bytes32, Uint256};

verus! {

/// Relates an executable handler result to its spec-level counterpart:
/// same variant, same bytes or same error message.
pub open spec fn bytes_result_matches(
    r: Result<Vec<u8>, String>,
    s: Result<Seq<u8>, Seq<char>>,
) -> bool {
    match (r, s) {
        (Ok(v), Ok(sv)) => v@ == sv,
        (Err(m), Err(sm)) => m@ == sm,
        _ => false,
    }
}

/// Relates an executable unit result to its spec-level counterpart.
pub open spec fn unit_result_matches(r: Result<(), String>, s: Result<(), Seq<char>>) -> bool {
    match (r, s) {
        (Ok(_), Ok(_)) => true,
        (Err(m), Err(sm)) => m@ == sm,
        _ => false,
    }
}

/// Relates an executable fee amount result to its spec-level counterpart.
pub open spec fn amount_result_matches(
    r: Result<Uint256, String>,
    s: Result<nat, Seq<char>>,
) -> bool {
    match (r, s) {
        (Ok(v), Ok(n)) => v@ == n,
        (Err(m), Err(sm)) => m@ == sm,
        _ => false,
    }
}

/// Answers authorization queries for admin operations, keyed by a 4-byte
/// function selector and the caller identity. Expected to be fast and
/// side-effect-free.
pub trait AccessControl: Sized {
    /// Which (selector, caller) pairs this backend authorizes.
    spec fn allows(&self, function_signature: Seq<u8>, caller: Seq<u8>) -> bool;

    /// Checks whether `caller` may invoke the operation with this selector.
    fn has_access(&self, function_signature: [u8; 4], caller: &Address) -> (r: bool)
        ensures
            r == self.allows(function_signature@, caller@),
    ;
}

/// Performs the resource-specific deposit and execution work. Deposit
/// and execution answers are functions of the handler value and the
/// arguments; registration, the burnable registry and withdrawal may
/// change the handler's own state, which each implementation pins with
/// a post-state relation of its own.
pub trait Handler: Sized {
    /// Outcome of registering a resource with this handler.
    spec fn set_resource_spec(
        &self,
        resource_id: Seq<u8>,
        contract_address: Seq<u8>,
        args: Seq<u8>,
    ) -> Result<(), Seq<char>>;

    /// Which handler states may follow a registration.
    spec fn set_resource_post(
        &self,
        resource_id: Seq<u8>,
        contract_address: Seq<u8>,
        args: Seq<u8>,
        post: Self,
    ) -> bool;

    /// Outcome of marking a token burnable.
    spec fn set_burnable_spec(&self, token_address: Seq<u8>) -> Result<(), Seq<char>>;

    /// Which handler states may follow marking a token burnable.
    spec fn set_burnable_post(&self, token_address: Seq<u8>, post: Self) -> bool;

    /// Outcome of a withdrawal request.
    spec fn withdraw_spec(&self, data: Seq<u8>) -> Result<(), Seq<char>>;

    /// Which handler states may follow a withdrawal request.
    spec fn withdraw_post(&self, data: Seq<u8>, post: Self) -> bool;

    /// Outcome of a deposit: response bytes, or an error message.
    spec fn deposit_spec(&self, resource_id: Seq<u8>, sender: Seq<u8>, data: Seq<u8>) -> Result<
        Seq<u8>,
        Seq<char>,
    >;

    /// Outcome of executing a proposal: response bytes, or an error message.
    spec fn execute_proposal_spec(&self, resource_id: Seq<u8>, data: Seq<u8>) -> Result<
        Seq<u8>,
        Seq<char>,
    >;

    /// Registers a resource with this handler.
    fn set_resource(
        &mut self,
        resource_id: &Bytes32,
        contract_address: &Address,
        args: &Vec<u8>,
    ) -> (r: Result<(), String>)
        ensures
            unit_result_matches(
                r,
                old(self).set_resource_spec(resource_id@, contract_address@, args@),
            ),
            old(self).set_resource_post(resource_id@, contract_address@, args@, *final(self)),
    ;

    /// Marks a token as burnable in this handler's registry.
    fn set_burnable(&mut self, token_address: &Address) -> (r: Result<(), String>)
        ensures
            unit_result_matches(r, old(self).set_burnable_spec(token_address@)),
            old(self).set_burnable_post(token_address@, *final(self)),
    ;

    /// Performs a withdrawal from this handler's safe.
    fn withdraw(&mut self, data: &Vec<u8>) -> (r: Result<(), String>)
        ensures
            unit_result_matches(r, old(self).withdraw_spec(data@)),
            old(self).withdraw_post(data@, *final(self)),
    ;

    /// Handles a deposit for the resource.
    fn deposit(&self, resource_id: &Bytes32, sender: &Address, data: &Vec<u8>) -> (r: Result<
        Vec<u8>,
        String,
    >)
        ensures
            bytes_result_matches(r, self.deposit_spec(resource_id@, sender@, data@)),
    ;

    /// Applies a proposal for the resource.
    fn execute_proposal(&self, resource_id: &Bytes32, data: &Vec<u8>) -> (r: Result<
        Vec<u8>,
        String,
    >)
        ensures
            bytes_result_matches(r, self.execute_proposal_spec(resource_id@, data@)),
    ;
}

/// Collects and quotes fees on the deposit path. Both operations receive
/// the full deposit context; errors are surfaced by the coordinator.
pub trait FeeHandler: Sized {
    /// Outcome of collecting the fee for this deposit context.
    spec fn collect_fee_spec(
        &self,
        sender: Seq<u8>,
        source_domain_id: u8,
        destination_domain_id: u8,
        resource_id: Seq<u8>,
        deposit_data: Seq<u8>,
        fee_data: Seq<u8>,
        value: nat,
    ) -> Result<(), Seq<char>>;

    /// The fee quoted for this deposit context.
    spec fn calculate_fee_spec(
        &self,
        source_domain_id: u8,
        destination_domain_id: u8,
        resource_id: Seq<u8>,
        deposit_data: Seq<u8>,
        fee_data: Seq<u8>,
    ) -> Result<nat, Seq<char>>;

    /// Collects the fee for a cross-chain transaction.
    fn collect_fee(
        &self,
        sender: &Address,
        source_domain_id: u8,
        destination_domain_id: u8,
        resource_id: &Bytes32,
        deposit_data: &Vec<u8>,
        fee_data: &Vec<u8>,
        value: &Uint256,
    ) -> (r: Result<(), String>)
        ensures
            unit_result_matches(
                r,
                self.collect_fee_spec(
                    sender@,
                    source_domain_id,
                    destination_domain_id,
                    resource_id@,
                    deposit_data@,
                    fee_data@,
                    value@,
                ),
            ),
    ;

    /// Calculates the fee for a cross-chain transaction.
    fn calculate_fee(
        &self,
        source_domain_id: u8,
        destination_domain_id: u8,
        resource_id: &Bytes32,
        deposit_data: &Vec<u8>,
        fee_data: &Vec<u8>,
    ) -> (r: Result<Uint256, String>)
        ensures
            amount_result_matches(
                r,
                self.calculate_fee_spec(
                    source_domain_id,
                    destination_domain_id,
                    resource_id@,
                    deposit_data@,
                    fee_data@,
                ),
            ),
    ;
}

} // verus!
