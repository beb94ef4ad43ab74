//! The error taxonomy of the bridge core.

use vstd::prelude::*;
use crate::types::{Address, AdminOp};

verus! {

/// Everything a coordinator operation can fail with. Validation errors
/// short-circuit before any state change; handler errors inside a batch
/// are per-proposal and do not abort the batch.
#[derive(Clone, Debug)]
pub enum BridgeError {
    /// An admin operation was denied by Access Control.
    AccessNotAllowed { sender: Address, operation: AdminOp },
    /// Routing miss: no handler is mapped for the resource id.
    ResourceIDNotMappedToHandler,
    /// A deposit named this coordinator's own domain as destination.
    DepositToCurrentDomain,
    /// Signature verification over a proposal batch failed.
    InvalidProposalSigner,
    /// An empty proposal batch was submitted.
    EmptyProposalsArray,
    /// An admin tried to lower a deposit counter.
    NonceDecrementsNotAllowed,
    /// Keygen was started while the MPC signer slot is occupied.
    MPCAddressAlreadySet,
    /// An operation needed the MPC signer before it was installed.
    MPCAddressNotSet,
    /// Keygen tried to overwrite the write-once MPC signer slot.
    MPCAddressIsNotUpdatable,
    /// Keygen tried to install the zero address as MPC signer.
    MPCAddressZeroAddress,
    /// The pause gate rejected the operation.
    BridgePaused,
    /// A failure inside the crypto core.
    CryptoError(String),
    /// Reserved for the external chain listener collaborator.
    ChainConnectionError(String),
    /// An opaque failure from a resource handler or fee handler,
    /// surfaced with its string reason.
    HandlerExecutionFailed(String),
}

impl BridgeError {
    /// A human-readable description; for handler, crypto and connection
    /// failures it is the carried reason itself.
    pub fn message(&self) -> (r: String)
        ensures
            (match self {
                BridgeError::HandlerExecutionFailed(m) => r@ == m@,
                BridgeError::CryptoError(m) => r@ == m@,
                BridgeError::ChainConnectionError(m) => r@ == m@,
                BridgeError::AccessNotAllowed { .. } => r@ == "Access not allowed"@,
                BridgeError::ResourceIDNotMappedToHandler => r@ == "Resource ID not mapped to handler"@,
                BridgeError::DepositToCurrentDomain => r@ == "Cannot deposit to current domain"@,
                BridgeError::InvalidProposalSigner => r@ == "Invalid proposal signer"@,
                BridgeError::EmptyProposalsArray => r@ == "Empty proposals array"@,
                BridgeError::NonceDecrementsNotAllowed => r@ == "Nonce decrements are not allowed"@,
                BridgeError::MPCAddressAlreadySet => r@ == "MPC address already set"@,
                BridgeError::MPCAddressNotSet => r@ == "MPC address not set"@,
                BridgeError::MPCAddressIsNotUpdatable => r@ == "MPC address is not updatable"@,
                BridgeError::MPCAddressZeroAddress => r@ == "MPC address cannot be zero address"@,
                BridgeError::BridgePaused => r@ == "Bridge is paused"@,
            }),
    {
        match self {
            BridgeError::AccessNotAllowed { .. } => "Access not allowed".to_owned(),
            BridgeError::ResourceIDNotMappedToHandler => "Resource ID not mapped to handler".to_owned(),
            BridgeError::DepositToCurrentDomain => "Cannot deposit to current domain".to_owned(),
            BridgeError::InvalidProposalSigner => "Invalid proposal signer".to_owned(),
            BridgeError::EmptyProposalsArray => "Empty proposals array".to_owned(),
            BridgeError::NonceDecrementsNotAllowed => "Nonce decrements are not allowed".to_owned(),
            BridgeError::MPCAddressAlreadySet => "MPC address already set".to_owned(),
            BridgeError::MPCAddressNotSet => "MPC address not set".to_owned(),
            BridgeError::MPCAddressIsNotUpdatable => "MPC address is not updatable".to_owned(),
            BridgeError::MPCAddressZeroAddress => "MPC address cannot be zero address".to_owned(),
            BridgeError::BridgePaused => "Bridge is paused".to_owned(),
            BridgeError::CryptoError(m) => m.clone(),
            BridgeError::ChainConnectionError(m) => m.clone(),
            BridgeError::HandlerExecutionFailed(m) => m.clone(),
        }
    }
}

} // verus!
