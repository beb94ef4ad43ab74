//! The bridge coordinator: per-domain deposit counters, the
//! resource-to-handler routing table, the replay-protection bitmap,
//! pause gating, admin access control, and the proposal execution
//! engine.

use vstd::prelude::*;
use vstd::hash_map::HashMapWithView;
use crate::bitmap::NonceBitmap;
use crate::crypto::{domain_sep_preimage, recovered_signer, sha256_of, typed_data_digest, BridgeCrypto};
use vstd::string::StringSliceAdditionalSpecFns;
use crate::error::BridgeError;
use crate::events::{broadcast_channel, broadcast_send, broadcast_subscribe, now_timestamp};
use crate::pausable::Pausable;
use crate::traits::{AccessControl, FeeHandler, Handler};
use crate::types::{
    Address, AdminOp, Bytes32, ChainConfig, DepositRecord, DepositStatus, ExecutionRecord,
    Proposal, Uint256,
};

verus! {

broadcast use vstd::std_specs::hash::group_hash_axioms;

/// Last-wins lookup in an association list keyed by 32-byte values.
pub open spec fn assoc_bytes32_get<H>(s: Seq<(Bytes32, H)>, k: Seq<u8>) -> Option<H>
    decreases s.len(),
{
    if s.len() == 0 {
        None
    } else if s.last().0@ == k {
        Some(s.last().1)
    } else {
        assoc_bytes32_get(s.drop_last(), k)
    }
}

/// Last-wins lookup in an association list keyed by addresses.
pub open spec fn assoc_flag_get(s: Seq<(Address, bool)>, k: Seq<u8>) -> Option<bool>
    decreases s.len(),
{
    if s.len() == 0 {
        None
    } else if s.last().0@ == k {
        Some(s.last().1)
    } else {
        assoc_flag_get(s.drop_last(), k)
    }
}

/// What one batch record promises of an appended [`ExecutionRecord`]:
/// identity, status and error message; the timestamp is the clock's.
pub struct BatchRecord {
    pub origin_domain_id: u8,
    pub deposit_nonce: u64,
    pub resource_id: Seq<u8>,
    pub success: bool,
    pub error_message: Option<Seq<char>>,
}

/// Whether an appended execution record carries what the batch outcome
/// promised for it.
pub open spec fn execution_record_matches(r: ExecutionRecord, s: BatchRecord) -> bool {
    &&& r.origin_domain_id == s.origin_domain_id
    &&& r.deposit_nonce == s.deposit_nonce
    &&& r.resource_id@ == s.resource_id
    &&& r.status == (if s.success {
        DepositStatus::Executed
    } else {
        DepositStatus::Failed
    })
    &&& (match (r.error_message, s.error_message) {
        (Some(m), Some(sm)) => m@ == sm,
        (None, None) => true,
        _ => false,
    })
    &&& (s.success ==> r.execution_transaction_hash is Some)
    &&& (!s.success ==> r.execution_transaction_hash is None)
}

/// What a proposal batch does, computed proposal by proposal: whether it
/// aborts on a routing miss, the concatenated successful responses, the
/// replay set after the batch, and the records appended in attempt order.
pub struct BatchOutcome {
    pub ok: bool,
    pub output: Seq<u8>,
    pub executed: Set<(u8, u64)>,
    pub records: Seq<BatchRecord>,
}

/// What one deposit record promises when a deposit commits.
pub open spec fn deposit_record_matches(
    r: DepositRecord,
    dest: u8,
    rid: Seq<u8>,
    nonce: u64,
    sender: Seq<u8>,
) -> bool {
    &&& r.destination_domain_id == dest
    &&& r.resource_id@ == rid
    &&& r.deposit_nonce == nonce
    &&& r.sender@ == sender
    &&& r.token_address is None
    &&& r.amount is None
    &&& r.status == DepositStatus::Pending
}

/// The coordinator. It owns every table; collaborators are the
/// access-control backend `A`, the resource handlers `H` and the
/// optional fee handler `F`.
pub struct Bridge<A: AccessControl, H: Handler, F: FeeHandler> {
    domain_id: u8,
    pausable: Pausable,
    crypto: BridgeCrypto,
    access_control: A,
    fee_handler: Option<F>,
    resource_handlers: Vec<(Bytes32, H)>,
    deposit_counts: HashMapWithView<u8, u64>,
    valid_forwarders: Vec<(Address, bool)>,
    used_nonces: NonceBitmap,
    deposits: Vec<DepositRecord>,
    executions: Vec<ExecutionRecord>,
    deposit_events: tokio::sync::broadcast::Sender<DepositRecord>,
    execution_events: tokio::sync::broadcast::Sender<ExecutionRecord>,
    chain_configs: HashMapWithView<u8, ChainConfig>,
}

impl<A: AccessControl, H: Handler, F: FeeHandler> Bridge<A, H, F> {
    /// The domain this coordinator serves.
    pub closed spec fn domain_view(self) -> u8 {
        self.domain_id
    }

    /// Whether transfers are paused.
    pub closed spec fn paused(self) -> bool {
        self.pausable.is_paused_spec()
    }

    /// The pauser identity.
    pub closed spec fn pauser_view(self) -> Seq<u8> {
        self.pausable.pauser_spec()
    }

    /// The installed MPC signer, if any.
    pub closed spec fn mpc_view(self) -> Option<Seq<u8>> {
        self.crypto.mpc_view()
    }

    /// The typed-data domain separator.
    pub closed spec fn domain_separator_view(self) -> Seq<u8> {
        self.crypto.domain_separator_spec()
    }

    /// The access-control backend.
    pub closed spec fn access_view(self) -> A {
        self.access_control
    }

    /// The installed fee handler, if any.
    pub closed spec fn fee_view(self) -> Option<F> {
        self.fee_handler
    }

    /// The routing table as an association list.
    pub closed spec fn handlers_view(self) -> Seq<(Bytes32, H)> {
        self.resource_handlers@
    }

    /// The handler mapped for a resource id, if any.
    pub open spec fn handler_of(self, rid: Seq<u8>) -> Option<H> {
        assoc_bytes32_get(self.handlers_view(), rid)
    }

    /// The deposit counter of a destination domain; zero when absent.
    pub closed spec fn count_of(self, domain: u8) -> u64 {
        if self.deposit_counts@.contains_key(domain) {
            self.deposit_counts@[domain]
        } else {
            0
        }
    }

    /// Whether the replay bit for (origin domain, nonce) is set.
    pub closed spec fn executed(self, domain: u8, nonce: u64) -> bool {
        self.used_nonces.is_set(domain, nonce)
    }

    /// The executed pairs as a set.
    pub open spec fn executed_set(self) -> Set<(u8, u64)> {
        Set::new(|p: (u8, u64)| self.executed(p.0, p.1))
    }

    /// The forwarders table.
    pub closed spec fn forwarder_of(self, addr: Seq<u8>) -> Option<bool> {
        assoc_flag_get(self.valid_forwarders@, addr)
    }

    /// The append-only deposit records.
    pub closed spec fn deposits_view(self) -> Seq<DepositRecord> {
        self.deposits@
    }

    /// The append-only execution records.
    pub closed spec fn executions_view(self) -> Seq<ExecutionRecord> {
        self.executions@
    }

    /// The chain configuration registered for a domain, if any.
    pub closed spec fn config_of(self, domain: u8) -> Option<ChainConfig> {
        if self.chain_configs@.contains_key(domain) {
            Some(self.chain_configs@[domain])
        } else {
            None
        }
    }

    /// Whether Access Control authorizes `sender` for `op`.
    pub open spec fn allows(self, op: AdminOp, sender: Address) -> bool {
        self.access_view().allows(op.selector_spec(), sender@)
    }

    /// A coordinator for `domain_id`: paused, no MPC identity, no
    /// resource mappings, no fee handler, empty tables and records.
    pub fn new(domain_id: u8, access_control: A, initial_pauser: Address) -> (r: Self)
        ensures
            r.domain_view() == domain_id,
            r.paused(),
            r.pauser_view() == initial_pauser@,
            r.mpc_view() is None,
            r.access_view() == access_control,
            r.fee_view() is None,
            forall|rid: Seq<u8>| r.handler_of(rid) is None,
            forall|d: u8| r.count_of(d) == 0,
            forall|d: u8, n: u64| !r.executed(d, n),
            forall|a: Seq<u8>| r.forwarder_of(a) is None,
            r.deposits_view().len() == 0,
            r.executions_view().len() == 0,
            forall|d: u8| r.config_of(d) is None,
            r.domain_separator_view() == sha256_of(
                domain_sep_preimage("Bridge".spec_bytes(), "3.1.0".spec_bytes()),
            ),
    {
        let (deposit_tx, _deposit_rx) = broadcast_channel::<DepositRecord>(100);
        let (execution_tx, _execution_rx) = broadcast_channel::<ExecutionRecord>(100);
        Bridge {
            domain_id,
            pausable: Pausable::new(initial_pauser, true),
            crypto: BridgeCrypto::new("Bridge", "3.1.0"),
            access_control,
            fee_handler: None,
            resource_handlers: Vec::new(),
            deposit_counts: HashMapWithView::new(),
            valid_forwarders: Vec::new(),
            used_nonces: NonceBitmap::new(),
            deposits: Vec::new(),
            executions: Vec::new(),
            deposit_events: deposit_tx,
            execution_events: execution_tx,
            chain_configs: HashMapWithView::new(),
        }
    }

    /// Registers a chain configuration under its domain id.
    pub fn add_chain_config(&mut self, config: ChainConfig)
        requires
            config.wf(),
        ensures
            final(self).config_of(config.domain_id) == Some(config),
            forall|d: u8|
                d != config.domain_id ==> final(self).config_of(d) == old(self).config_of(d),
            final(self).domain_view() == old(self).domain_view(),
            final(self).paused() == old(self).paused(),
            final(self).pauser_view() == old(self).pauser_view(),
            final(self).mpc_view() == old(self).mpc_view(),
            final(self).access_view() == old(self).access_view(),
            final(self).fee_view() == old(self).fee_view(),
            final(self).handlers_view() == old(self).handlers_view(),
            forall|d: u8| final(self).count_of(d) == old(self).count_of(d),
            forall|d: u8, n: u64| final(self).executed(d, n) == old(self).executed(d, n),
            forall|a: Seq<u8>| final(self).forwarder_of(a) == old(self).forwarder_of(a),
            final(self).deposits_view() == old(self).deposits_view(),
            final(self).executions_view() == old(self).executions_view(),
    {
        let domain = config.domain_id;
        self.chain_configs.insert(domain, config);
    }

    /// Installs or replaces the fee handler.
    pub fn set_fee_handler(&mut self, fee_handler: F)
        ensures
            final(self).fee_view() == Some(fee_handler),
            Self::same_state_except_fee(*old(self), *final(self)),
    {
        self.fee_handler = Some(fee_handler);
    }

    /// Everything but the fee handler slot.
    pub open spec fn same_state_except_fee(pre: Self, post: Self) -> bool {
        &&& post.domain_view() == pre.domain_view()
        &&& post.paused() == pre.paused()
        &&& post.pauser_view() == pre.pauser_view()
        &&& post.mpc_view() == pre.mpc_view()
        &&& post.domain_separator_view() == pre.domain_separator_view()
        &&& post.access_view() == pre.access_view()
        &&& post.handlers_view() == pre.handlers_view()
        &&& (forall|d: u8| post.count_of(d) == pre.count_of(d))
        &&& (forall|d: u8, n: u64| post.executed(d, n) == pre.executed(d, n))
        &&& (forall|a: Seq<u8>| post.forwarder_of(a) == pre.forwarder_of(a))
        &&& post.deposits_view() == pre.deposits_view()
        &&& post.executions_view() == pre.executions_view()
        &&& (forall|d: u8| post.config_of(d) == pre.config_of(d))
    }

    /// Pauses transfers. Requires authorization and the pauser identity.
    pub fn admin_pause_transfers(&mut self, sender: Address) -> (r: Result<(), BridgeError>)
        ensures
            !old(self).allows(AdminOp::PauseTransfers, sender) ==> (r matches Err(e)
                && e matches BridgeError::AccessNotAllowed { sender: s, operation: op }
                && s == sender && op == AdminOp::PauseTransfers && *final(self) == *old(self)),
            old(self).allows(AdminOp::PauseTransfers, sender) && sender@ == old(self).pauser_view()
                ==> (r is Ok && final(self).paused() && Self::same_state_except_pause(
                *old(self),
                *final(self),
            )),
            old(self).allows(AdminOp::PauseTransfers, sender) && sender@ != old(self).pauser_view()
                ==> (r matches Err(e) && e matches BridgeError::HandlerExecutionFailed(m) && m@
                == "Only pauser can pause"@ && *final(self) == *old(self)),
    {
        if !self.access_control.has_access(AdminOp::PauseTransfers.selector(), &sender) {
            return Err(
                BridgeError::AccessNotAllowed { sender, operation: AdminOp::PauseTransfers },
            );
        }
        match self.pausable.pause(sender) {
            Ok(_) => Ok(()),
            Err(m) => Err(BridgeError::HandlerExecutionFailed(m.to_owned())),
        }
    }

    /// Everything but the pause flag.
    pub open spec fn same_state_except_pause(pre: Self, post: Self) -> bool {
        &&& post.domain_view() == pre.domain_view()
        &&& post.pauser_view() == pre.pauser_view()
        &&& post.mpc_view() == pre.mpc_view()
        &&& post.domain_separator_view() == pre.domain_separator_view()
        &&& post.access_view() == pre.access_view()
        &&& post.fee_view() == pre.fee_view()
        &&& post.handlers_view() == pre.handlers_view()
        &&& (forall|d: u8| post.count_of(d) == pre.count_of(d))
        &&& (forall|d: u8, n: u64| post.executed(d, n) == pre.executed(d, n))
        &&& (forall|a: Seq<u8>| post.forwarder_of(a) == pre.forwarder_of(a))
        &&& post.deposits_view() == pre.deposits_view()
        &&& post.executions_view() == pre.executions_view()
        &&& (forall|d: u8| post.config_of(d) == pre.config_of(d))
    }

    /// Unpauses transfers. Requires authorization, an installed MPC
    /// signer, and the pauser identity.
    pub fn admin_unpause_transfers(&mut self, sender: Address) -> (r: Result<(), BridgeError>)
        ensures
            !old(self).allows(AdminOp::UnpauseTransfers, sender) ==> (r matches Err(e)
                && e matches BridgeError::AccessNotAllowed { sender: s, operation: op }
                && s == sender && op == AdminOp::UnpauseTransfers && *final(self) == *old(self)),
            old(self).allows(AdminOp::UnpauseTransfers, sender) && old(self).mpc_view() is None
                ==> (r matches Err(e) && e matches BridgeError::MPCAddressNotSet && *final(self)
                == *old(self)),
            old(self).allows(AdminOp::UnpauseTransfers, sender) && old(self).mpc_view() is Some
                && sender@ == old(self).pauser_view() ==> (r is Ok && !final(self).paused()
                && Self::same_state_except_pause(*old(self), *final(self))),
            old(self).allows(AdminOp::UnpauseTransfers, sender) && old(self).mpc_view() is Some
                && sender@ != old(self).pauser_view() ==> (r matches Err(e)
                && e matches BridgeError::HandlerExecutionFailed(m) && m@
                == "Only pauser can unpause"@ && *final(self) == *old(self)),
    {
        if !self.access_control.has_access(AdminOp::UnpauseTransfers.selector(), &sender) {
            return Err(
                BridgeError::AccessNotAllowed { sender, operation: AdminOp::UnpauseTransfers },
            );
        }
        if self.crypto.get_mpc_address().is_none() {
            return Err(BridgeError::MPCAddressNotSet);
        }
        match self.pausable.unpause(sender) {
            Ok(_) => Ok(()),
            Err(m) => Err(BridgeError::HandlerExecutionFailed(m.to_owned())),
        }
    }

    /// Registers `resource_id` with the handler, then installs the
    /// resource-to-handler mapping; on handler failure nothing is
    /// installed.
    pub fn admin_set_resource(
        &mut self,
        sender: Address,
        handler: H,
        resource_id: Bytes32,
        contract_address: Address,
        args: Vec<u8>,
    ) -> (r: Result<(), BridgeError>)
        ensures
            !old(self).allows(AdminOp::SetResource, sender) ==> (r matches Err(e)
                && e matches BridgeError::AccessNotAllowed { sender: s, operation: op }
                && s == sender && op == AdminOp::SetResource && *final(self) == *old(self)),
            old(self).allows(AdminOp::SetResource, sender) ==> (handler.set_resource_spec(
                resource_id@,
                contract_address@,
                args@,
            ) matches Err(m) ==> (r matches Err(e)
                && e matches BridgeError::HandlerExecutionFailed(em) && em@ == m && *final(self)
                == *old(self))),
            old(self).allows(AdminOp::SetResource, sender) && handler.set_resource_spec(
                resource_id@,
                contract_address@,
                args@,
            ) is Ok ==> (r is Ok && final(self).handlers_view().len() == old(
                self,
            ).handlers_view().len() + 1 && final(self).handlers_view().drop_last() == old(
                self,
            ).handlers_view() && final(self).handlers_view().last().0 == resource_id
                && handler.set_resource_post(
                resource_id@,
                contract_address@,
                args@,
                final(self).handlers_view().last().1,
            ) && final(self).handler_of(resource_id@) == Some(final(self).handlers_view().last().1)
                && (forall|rid: Seq<u8>|
                rid != resource_id@ ==> final(self).handler_of(rid) == old(self).handler_of(rid))
                && Self::same_state_except_handlers(*old(self), *final(self))),
    {
        if !self.access_control.has_access(AdminOp::SetResource.selector(), &sender) {
            return Err(BridgeError::AccessNotAllowed { sender, operation: AdminOp::SetResource });
        }
        let mut registered = handler;
        match registered.set_resource(&resource_id, &contract_address, &args) {
            Ok(_) => {},
            Err(m) => {
                return Err(BridgeError::HandlerExecutionFailed(m));
            },
        }
        self.resource_handlers.push((resource_id, registered));
        proof {
            assert(final(self).handlers_view().drop_last() =~= old(self).handlers_view());
        }
        Ok(())
    }

    /// Everything but the routing table.
    pub open spec fn same_state_except_handlers(pre: Self, post: Self) -> bool {
        &&& post.domain_view() == pre.domain_view()
        &&& post.paused() == pre.paused()
        &&& post.pauser_view() == pre.pauser_view()
        &&& post.mpc_view() == pre.mpc_view()
        &&& post.domain_separator_view() == pre.domain_separator_view()
        &&& post.access_view() == pre.access_view()
        &&& post.fee_view() == pre.fee_view()
        &&& (forall|d: u8| post.count_of(d) == pre.count_of(d))
        &&& (forall|d: u8, n: u64| post.executed(d, n) == pre.executed(d, n))
        &&& (forall|a: Seq<u8>| post.forwarder_of(a) == pre.forwarder_of(a))
        &&& post.deposits_view() == pre.deposits_view()
        &&& post.executions_view() == pre.executions_view()
        &&& (forall|d: u8| post.config_of(d) == pre.config_of(d))
    }

    /// Forwards the token to the handler's burnable registry, behind
    /// authorization; the effect lives in the handler, and no
    /// coordinator table changes.
    pub fn admin_set_burnable(
        &mut self,
        sender: Address,
        handler: &mut H,
        token_address: Address,
    ) -> (r: Result<(), BridgeError>)
        ensures
            !old(self).allows(AdminOp::SetBurnable, sender) ==> (r matches Err(e)
                && e matches BridgeError::AccessNotAllowed { sender: s, operation: op }
                && s == sender && op == AdminOp::SetBurnable && *final(handler) == *old(handler)),
            old(self).allows(AdminOp::SetBurnable, sender) ==> (old(handler).set_burnable_post(
                token_address@,
                *final(handler),
            ) && (match old(handler).set_burnable_spec(token_address@) {
                Result::Ok(_) => r is Ok,
                Result::Err(m) => r matches Err(e)
                    && e matches BridgeError::HandlerExecutionFailed(em) && em@ == m,
            })),
            *final(self) == *old(self),
    {
        if !self.access_control.has_access(AdminOp::SetBurnable.selector(), &sender) {
            return Err(BridgeError::AccessNotAllowed { sender, operation: AdminOp::SetBurnable });
        }
        match handler.set_burnable(&token_address) {
            Ok(_) => Ok(()),
            Err(m) => Err(BridgeError::HandlerExecutionFailed(m)),
        }
    }

    /// Replaces the deposit counter of a domain with a strictly greater
    /// value; used to skip over ranges claimed on chain but not here.
    pub fn admin_set_deposit_nonce(&mut self, sender: Address, domain_id: u8, nonce: u64) -> (r:
        Result<(), BridgeError>)
        ensures
            !old(self).allows(AdminOp::SetDepositNonce, sender) ==> (r matches Err(e)
                && e matches BridgeError::AccessNotAllowed { sender: s, operation: op }
                && s == sender && op == AdminOp::SetDepositNonce && *final(self) == *old(self)),
            old(self).allows(AdminOp::SetDepositNonce, sender) && nonce <= old(self).count_of(
                domain_id,
            ) ==> (r matches Err(e) && e matches BridgeError::NonceDecrementsNotAllowed
                && *final(self) == *old(self)),
            old(self).allows(AdminOp::SetDepositNonce, sender) && nonce > old(self).count_of(
                domain_id,
            ) ==> (r is Ok && final(self).count_of(domain_id) == nonce && (forall|d: u8|
                d != domain_id ==> final(self).count_of(d) == old(self).count_of(d))
                && Self::same_state_except_counts(*old(self), *final(self))),
    {
        if !self.access_control.has_access(AdminOp::SetDepositNonce.selector(), &sender) {
            return Err(
                BridgeError::AccessNotAllowed { sender, operation: AdminOp::SetDepositNonce },
            );
        }
        let current: u64 = match self.deposit_counts.get(&domain_id) {
            Some(c) => *c,
            None => 0,
        };
        if nonce <= current {
            return Err(BridgeError::NonceDecrementsNotAllowed);
        }
        self.deposit_counts.insert(domain_id, nonce);
        Ok(())
    }

    /// Everything but the deposit counters.
    pub open spec fn same_state_except_counts(pre: Self, post: Self) -> bool {
        &&& post.domain_view() == pre.domain_view()
        &&& post.paused() == pre.paused()
        &&& post.pauser_view() == pre.pauser_view()
        &&& post.mpc_view() == pre.mpc_view()
        &&& post.domain_separator_view() == pre.domain_separator_view()
        &&& post.access_view() == pre.access_view()
        &&& post.fee_view() == pre.fee_view()
        &&& post.handlers_view() == pre.handlers_view()
        &&& (forall|d: u8, n: u64| post.executed(d, n) == pre.executed(d, n))
        &&& (forall|a: Seq<u8>| post.forwarder_of(a) == pre.forwarder_of(a))
        &&& post.deposits_view() == pre.deposits_view()
        &&& post.executions_view() == pre.executions_view()
        &&& (forall|d: u8| post.config_of(d) == pre.config_of(d))
    }

    /// Upserts (forwarder, valid) in the forwarders table.
    pub fn admin_set_forwarder(&mut self, sender: Address, forwarder: Address, valid: bool) -> (r:
        Result<(), BridgeError>)
        ensures
            !old(self).allows(AdminOp::SetForwarder, sender) ==> (r matches Err(e)
                && e matches BridgeError::AccessNotAllowed { sender: s, operation: op }
                && s == sender && op == AdminOp::SetForwarder && *final(self) == *old(self)),
            old(self).allows(AdminOp::SetForwarder, sender) ==> (r is Ok && final(self).forwarder_of(forwarder@) == Some(valid) && (forall|a: Seq<u8>|
                a != forwarder@ ==> final(self).forwarder_of(a) == old(self).forwarder_of(a))
                && Self::same_state_except_forwarders(*old(self), *final(self))),
    {
        if !self.access_control.has_access(AdminOp::SetForwarder.selector(), &sender) {
            return Err(BridgeError::AccessNotAllowed { sender, operation: AdminOp::SetForwarder });
        }
        self.valid_forwarders.push((forwarder, valid));
        proof {
            assert(final(self).valid_forwarders@.drop_last() =~= old(self).valid_forwarders@);
        }
        Ok(())
    }

    /// Everything but the forwarders table.
    pub open spec fn same_state_except_forwarders(pre: Self, post: Self) -> bool {
        &&& post.domain_view() == pre.domain_view()
        &&& post.paused() == pre.paused()
        &&& post.pauser_view() == pre.pauser_view()
        &&& post.mpc_view() == pre.mpc_view()
        &&& post.domain_separator_view() == pre.domain_separator_view()
        &&& post.access_view() == pre.access_view()
        &&& post.fee_view() == pre.fee_view()
        &&& post.handlers_view() == pre.handlers_view()
        &&& (forall|d: u8| post.count_of(d) == pre.count_of(d))
        &&& (forall|d: u8, n: u64| post.executed(d, n) == pre.executed(d, n))
        &&& post.deposits_view() == pre.deposits_view()
        &&& post.executions_view() == pre.executions_view()
        &&& (forall|d: u8| post.config_of(d) == pre.config_of(d))
    }

    /// Swaps the access-control backend; subsequent authorizations use
    /// the new one.
    pub fn admin_change_access_control(&mut self, sender: Address, new_access_control: A) -> (r:
        Result<(), BridgeError>)
        ensures
            !old(self).allows(AdminOp::ChangeAccessControl, sender) ==> (r matches Err(e)
                && e matches BridgeError::AccessNotAllowed { sender: s, operation: op }
                && s == sender && op == AdminOp::ChangeAccessControl && *final(self) == *old(self)),
            old(self).allows(AdminOp::ChangeAccessControl, sender) ==> (r is Ok && final(self).access_view() == new_access_control && Self::same_state_except_access(
                *old(self),
                *final(self),
            )),
    {
        if !self.access_control.has_access(AdminOp::ChangeAccessControl.selector(), &sender) {
            return Err(
                BridgeError::AccessNotAllowed { sender, operation: AdminOp::ChangeAccessControl },
            );
        }
        self.access_control = new_access_control;
        Ok(())
    }

    /// Everything but the access-control backend.
    pub open spec fn same_state_except_access(pre: Self, post: Self) -> bool {
        &&& post.domain_view() == pre.domain_view()
        &&& post.paused() == pre.paused()
        &&& post.pauser_view() == pre.pauser_view()
        &&& post.mpc_view() == pre.mpc_view()
        &&& post.domain_separator_view() == pre.domain_separator_view()
        &&& post.fee_view() == pre.fee_view()
        &&& post.handlers_view() == pre.handlers_view()
        &&& (forall|d: u8| post.count_of(d) == pre.count_of(d))
        &&& (forall|d: u8, n: u64| post.executed(d, n) == pre.executed(d, n))
        &&& (forall|a: Seq<u8>| post.forwarder_of(a) == pre.forwarder_of(a))
        &&& post.deposits_view() == pre.deposits_view()
        &&& post.executions_view() == pre.executions_view()
        &&& (forall|d: u8| post.config_of(d) == pre.config_of(d))
    }

    /// Installs or replaces the fee handler, behind authorization.
    pub fn admin_change_fee_handler(&mut self, sender: Address, new_fee_handler: F) -> (r: Result<
        (),
        BridgeError,
    >)
        ensures
            !old(self).allows(AdminOp::ChangeFeeHandler, sender) ==> (r matches Err(e)
                && e matches BridgeError::AccessNotAllowed { sender: s, operation: op }
                && s == sender && op == AdminOp::ChangeFeeHandler && *final(self) == *old(self)),
            old(self).allows(AdminOp::ChangeFeeHandler, sender) ==> (r is Ok && final(self).fee_view() == Some(new_fee_handler) && Self::same_state_except_fee(
                *old(self),
                *final(self),
            )),
    {
        if !self.access_control.has_access(AdminOp::ChangeFeeHandler.selector(), &sender) {
            return Err(
                BridgeError::AccessNotAllowed { sender, operation: AdminOp::ChangeFeeHandler },
            );
        }
        self.fee_handler = Some(new_fee_handler);
        Ok(())
    }

    /// Forwards opaque data to the handler's withdrawal entry point,
    /// behind authorization; the effect lives in the handler, and no
    /// coordinator table changes.
    pub fn admin_withdraw(&mut self, sender: Address, handler: &mut H, data: Vec<u8>) -> (r: Result<
        (),
        BridgeError,
    >)
        ensures
            !old(self).allows(AdminOp::Withdraw, sender) ==> (r matches Err(e)
                && e matches BridgeError::AccessNotAllowed { sender: s, operation: op }
                && s == sender && op == AdminOp::Withdraw && *final(handler) == *old(handler)),
            old(self).allows(AdminOp::Withdraw, sender) ==> (old(handler).withdraw_post(
                data@,
                *final(handler),
            ) && (match old(handler).withdraw_spec(data@) {
                Result::Ok(_) => r is Ok,
                Result::Err(m) => r matches Err(e)
                    && e matches BridgeError::HandlerExecutionFailed(em) && em@ == m,
            })),
            *final(self) == *old(self),
    {
        if !self.access_control.has_access(AdminOp::Withdraw.selector(), &sender) {
            return Err(BridgeError::AccessNotAllowed { sender, operation: AdminOp::Withdraw });
        }
        match handler.withdraw(&data) {
            Ok(_) => Ok(()),
            Err(m) => Err(BridgeError::HandlerExecutionFailed(m)),
        }
    }

    /// Emits the keygen intent; fails when the MPC signer slot is
    /// already occupied. No internal state changes.
    pub fn start_keygen(&mut self, sender: Address) -> (r: Result<(), BridgeError>)
        ensures
            !old(self).allows(AdminOp::StartKeygen, sender) ==> (r matches Err(e)
                && e matches BridgeError::AccessNotAllowed { sender: s, operation: op }
                && s == sender && op == AdminOp::StartKeygen),
            old(self).allows(AdminOp::StartKeygen, sender) && old(self).mpc_view() is Some ==> (
            r matches Err(e) && e matches BridgeError::MPCAddressAlreadySet),
            old(self).allows(AdminOp::StartKeygen, sender) && old(self).mpc_view() is None ==> r
                is Ok,
            *final(self) == *old(self),
    {
        if !self.access_control.has_access(AdminOp::StartKeygen.selector(), &sender) {
            return Err(BridgeError::AccessNotAllowed { sender, operation: AdminOp::StartKeygen });
        }
        if self.crypto.get_mpc_address().is_some() {
            return Err(BridgeError::MPCAddressAlreadySet);
        }
        Ok(())
    }

    /// Ends keygen: installs the MPC signer and unpauses, in one step.
    /// Rejects the zero address and any overwrite of the write-once slot.
    pub fn end_keygen(&mut self, sender: Address, mpc_address: Address) -> (r: Result<
        (),
        BridgeError,
    >)
        ensures
            !old(self).allows(AdminOp::EndKeygen, sender) ==> (r matches Err(e)
                && e matches BridgeError::AccessNotAllowed { sender: s, operation: op }
                && s == sender && op == AdminOp::EndKeygen && *final(self) == *old(self)),
            old(self).allows(AdminOp::EndKeygen, sender) && mpc_address.is_zero_spec() ==> (
            r matches Err(e) && e matches BridgeError::MPCAddressZeroAddress && *final(self)
                == *old(self)),
            old(self).allows(AdminOp::EndKeygen, sender) && !mpc_address.is_zero_spec() && old(self).mpc_view() is Some ==> (r matches Err(e)
                && e matches BridgeError::MPCAddressIsNotUpdatable && *final(self) == *old(self)),
            old(self).allows(AdminOp::EndKeygen, sender) && !mpc_address.is_zero_spec() && old(self).mpc_view() is None ==> (r is Ok && final(self).mpc_view() == Some(mpc_address@)
                && !final(self).paused() && Self::same_state_except_keygen(
                *old(self),
                *final(self),
            )),
    {
        if !self.access_control.has_access(AdminOp::EndKeygen.selector(), &sender) {
            return Err(BridgeError::AccessNotAllowed { sender, operation: AdminOp::EndKeygen });
        }
        if mpc_address.is_zero() {
            return Err(BridgeError::MPCAddressZeroAddress);
        }
        if self.crypto.get_mpc_address().is_some() {
            return Err(BridgeError::MPCAddressIsNotUpdatable);
        }
        self.crypto.set_mpc_address(mpc_address);
        self.pausable.force_unpause();
        Ok(())
    }

    /// Everything but the MPC slot and the pause flag.
    pub open spec fn same_state_except_keygen(pre: Self, post: Self) -> bool {
        &&& post.domain_view() == pre.domain_view()
        &&& post.pauser_view() == pre.pauser_view()
        &&& post.domain_separator_view() == pre.domain_separator_view()
        &&& post.access_view() == pre.access_view()
        &&& post.fee_view() == pre.fee_view()
        &&& post.handlers_view() == pre.handlers_view()
        &&& (forall|d: u8| post.count_of(d) == pre.count_of(d))
        &&& (forall|d: u8, n: u64| post.executed(d, n) == pre.executed(d, n))
        &&& (forall|a: Seq<u8>| post.forwarder_of(a) == pre.forwarder_of(a))
        &&& post.deposits_view() == pre.deposits_view()
        &&& post.executions_view() == pre.executions_view()
        &&& (forall|d: u8| post.config_of(d) == pre.config_of(d))
    }

    /// Emits a key-refresh observation; no internal state change.
    pub fn refresh_key(&mut self, sender: Address, hash: String) -> (r: Result<(), BridgeError>)
        ensures
            !old(self).allows(AdminOp::RefreshKey, sender) ==> (r matches Err(e)
                && e matches BridgeError::AccessNotAllowed { sender: s, operation: op }
                && s == sender && op == AdminOp::RefreshKey),
            old(self).allows(AdminOp::RefreshKey, sender) ==> r is Ok,
            *final(self) == *old(self),
    {
        if !self.access_control.has_access(AdminOp::RefreshKey.selector(), &sender) {
            return Err(BridgeError::AccessNotAllowed { sender, operation: AdminOp::RefreshKey });
        }
        let _ = hash;
        Ok(())
    }

    /// Emits a retry observation; no internal state change.
    pub fn retry(&mut self, sender: Address, tx_hash: String) -> (r: Result<(), BridgeError>)
        ensures
            !old(self).allows(AdminOp::Retry, sender) ==> (r matches Err(e)
                && e matches BridgeError::AccessNotAllowed { sender: s, operation: op }
                && s == sender && op == AdminOp::Retry),
            old(self).allows(AdminOp::Retry, sender) ==> r is Ok,
            *final(self) == *old(self),
    {
        if !self.access_control.has_access(AdminOp::Retry.selector(), &sender) {
            return Err(BridgeError::AccessNotAllowed { sender, operation: AdminOp::Retry });
        }
        let _ = tx_hash;
        Ok(())
    }

    /// Whether the replay bit for (domain, nonce) is set.
    pub fn is_proposal_executed(&self, domain_id: u8, deposit_nonce: u64) -> (r: Result<
        bool,
        BridgeError,
    >)
        ensures
            r matches Ok(v) && v == self.executed(domain_id, deposit_nonce),
    {
        Ok(self.used_nonces.get(domain_id, deposit_nonce))
    }

    /// A fresh subscriber to deposit events.
    pub fn subscribe_to_deposits(&self) -> tokio::sync::broadcast::Receiver<DepositRecord> {
        broadcast_subscribe(&self.deposit_events)
    }

    /// A fresh subscriber to execution events.
    pub fn subscribe_to_executions(&self) -> tokio::sync::broadcast::Receiver<ExecutionRecord> {
        broadcast_subscribe(&self.execution_events)
    }

    /// The domain this coordinator serves.
    pub fn get_domain_id(&self) -> (r: u8)
        ensures
            r == self.domain_view(),
    {
        self.domain_id
    }

    /// The installed MPC signer, if any.
    pub fn get_mpc_address(&self) -> (r: Option<Address>)
        ensures
            (match r {
                Some(a) => self.mpc_view() == Some(a@),
                None => self.mpc_view() is None,
            }),
    {
        self.crypto.get_mpc_address()
    }

    /// The deposit counter of a domain; zero when none was recorded.
    pub fn get_deposit_count(&self, domain_id: u8) -> (r: u64)
        ensures
            r == self.count_of(domain_id),
    {
        match self.deposit_counts.get(&domain_id) {
            Some(c) => *c,
            None => 0,
        }
    }

    /// The append-only deposit records.
    pub fn deposit_records(&self) -> (r: &Vec<DepositRecord>)
        ensures
            r@ == self.deposits_view(),
    {
        &self.deposits
    }

    /// Once a proposal pair is executed, it stays executed through any
    /// batch this coordinator later runs: batches never clear a replay
    /// bit that was set when they began.
    pub proof fn lemma_executed_is_forever(pre: Self, ps: Seq<Proposal>, domain: u8, nonce: u64)
        requires
            pre.executed(domain, nonce),
        ensures
            batch_step(pre.handlers_view(), ps, pre.executed_set()).executed.contains(
                (domain, nonce),
            ),
    {
        assert(pre.executed_set().contains((domain, nonce)));
        lemma_batch_executed_monotonic(pre.handlers_view(), ps, pre.executed_set(), (domain, nonce));
    }

    /// What a batch returns equals the ordered concatenation of the
    /// successful handler responses it produced, and nothing else.
    pub proof fn lemma_batch_output_is_concat(pre: Self, ps: Seq<Proposal>)
        ensures
            batch_step(pre.handlers_view(), ps, pre.executed_set()).output == concat_bytes(
                successful_responses(pre.handlers_view(), ps, pre.executed_set()),
            ),
    {
        lemma_output_is_concat_of_successes(pre.handlers_view(), ps, pre.executed_set());
    }

    /// The append-only execution records.
    pub fn execution_records(&self) -> (r: &Vec<ExecutionRecord>)
        ensures
            r@ == self.executions_view(),
    {
        &self.executions
    }

    /// The index of the handler mapped for a resource id, scanning the
    /// association list from the most recent entry.
    fn find_handler_index(&self, resource_id: &Bytes32) -> (r: Option<usize>)
        ensures
            (match r {
                Some(i) => i < self.handlers_view().len() && self.handlers_view()[i as int].0@
                    == resource_id@ && self.handler_of(resource_id@) == Some(
                    self.handlers_view()[i as int].1,
                ),
                None => self.handler_of(resource_id@) is None,
            }),
    {
        let mut i: usize = self.resource_handlers.len();
        proof {
            assert(self.handlers_view().take(i as int) =~= self.handlers_view());
        }
        while i > 0
            invariant
                i <= self.resource_handlers@.len(),
                assoc_bytes32_get(self.handlers_view(), resource_id@) == assoc_bytes32_get(
                    self.handlers_view().take(i as int),
                    resource_id@,
                ),
            decreases i,
        {
            i = i - 1;
            let pair = &self.resource_handlers[i];
            proof {
                assert(self.handlers_view().take(i + 1).last() == self.handlers_view()[i as int]);
                assert(self.handlers_view().take(i + 1).drop_last() =~= self.handlers_view().take(
                    i as int,
                ));
            }
            if pair.0.eq_bytes(resource_id) {
                return Some(i);
            }
        }
        proof {
            assert(self.handlers_view().take(0) =~= Seq::<(Bytes32, H)>::empty());
        }
        None
    }

    /// What the fee step decides for a deposit: the installed fee
    /// handler's outcome, or a failure when value is nonzero with no fee
    /// handler installed.
    pub open spec fn fee_outcome(
        self,
        sender: Seq<u8>,
        dest: u8,
        rid: Seq<u8>,
        data: Seq<u8>,
        fee_data: Seq<u8>,
        value: nat,
    ) -> Result<(), Seq<char>> {
        match self.fee_view() {
            Some(f) => f.collect_fee_spec(
                sender,
                self.domain_view(),
                dest,
                rid,
                data,
                fee_data,
                value,
            ),
            None => if value > 0 {
                Err("No FeeHandler, value must be zero"@)
            } else {
                Ok(())
            },
        }
    }

    /// The gates a deposit passes before any state is written: not
    /// paused, not the coordinator's own domain, and the fee step
    /// succeeded.
    pub open spec fn deposit_pre_ok(
        self,
        sender: Seq<u8>,
        dest: u8,
        rid: Seq<u8>,
        data: Seq<u8>,
        fee_data: Seq<u8>,
        value: nat,
    ) -> bool {
        &&& !self.paused()
        &&& dest != self.domain_view()
        &&& self.fee_outcome(sender, dest, rid, data, fee_data, value) is Ok
    }

    /// Everything a deposit leaves alone: all tables except the counter
    /// of the destination domain and the deposit records.
    pub open spec fn deposit_frame(pre: Self, post: Self, dest: u8) -> bool {
        &&& post.domain_view() == pre.domain_view()
        &&& post.paused() == pre.paused()
        &&& post.pauser_view() == pre.pauser_view()
        &&& post.mpc_view() == pre.mpc_view()
        &&& post.domain_separator_view() == pre.domain_separator_view()
        &&& post.access_view() == pre.access_view()
        &&& post.fee_view() == pre.fee_view()
        &&& post.handlers_view() == pre.handlers_view()
        &&& (forall|d: u8| d != dest ==> post.count_of(d) == pre.count_of(d))
        &&& (forall|d: u8, n: u64| post.executed(d, n) == pre.executed(d, n))
        &&& (forall|a: Seq<u8>| post.forwarder_of(a) == pre.forwarder_of(a))
        &&& post.executions_view() == pre.executions_view()
        &&& (forall|d: u8| post.config_of(d) == pre.config_of(d))
    }

    /// Initiates a deposit to another chain. Gated on the pause flag, the
    /// destination domain and the fee step; routes to the mapped handler;
    /// pre-increments the destination counter and returns the new value
    /// as the deposit nonce. On handler failure the nonce is consumed and
    /// no record is appended; on success a Pending record is appended and
    /// broadcast.
    pub fn deposit(
        &mut self,
        sender: Address,
        destination_domain_id: u8,
        resource_id: Bytes32,
        deposit_data: Vec<u8>,
        fee_data: Vec<u8>,
        value: Uint256,
    ) -> (r: Result<(u64, Vec<u8>), BridgeError>)
        requires
            old(self).count_of(destination_domain_id) < u64::MAX,
        ensures
            old(self).paused() ==> (r matches Err(e) && e matches BridgeError::BridgePaused
                && *final(self) == *old(self)),
            !old(self).paused() && destination_domain_id == old(self).domain_view() ==> (
            r matches Err(e) && e matches BridgeError::DepositToCurrentDomain && *final(self)
                == *old(self)),
            !old(self).paused() && destination_domain_id != old(self).domain_view() ==> (old(self).fee_outcome(
                sender@,
                destination_domain_id,
                resource_id@,
                deposit_data@,
                fee_data@,
                value@,
            ) matches Err(m) ==> (r matches Err(e)
                && e matches BridgeError::HandlerExecutionFailed(em) && em@ == m && *final(self)
                == *old(self))),
            old(self).deposit_pre_ok(
                sender@,
                destination_domain_id,
                resource_id@,
                deposit_data@,
                fee_data@,
                value@,
            ) && old(self).handler_of(resource_id@) is None ==> (r matches Err(e)
                && e matches BridgeError::ResourceIDNotMappedToHandler && *final(self) == *old(self)),
            old(self).deposit_pre_ok(
                sender@,
                destination_domain_id,
                resource_id@,
                deposit_data@,
                fee_data@,
                value@,
            ) ==> (old(self).handler_of(resource_id@) matches Some(h) ==> ({
                let n = old(self).count_of(destination_domain_id) + 1;
                match h.deposit_spec(resource_id@, sender@, deposit_data@) {
                    Result::Ok(resp) => r matches Ok(out) && out.0 == n && out.1@ == resp
                        && final(self).count_of(destination_domain_id) == n && final(self).deposits_view().len() == old(self).deposits_view().len() + 1 && final(self).deposits_view().take(old(self).deposits_view().len() as int) == old(self).deposits_view() && deposit_record_matches(
                        final(self).deposits_view().last(),
                        destination_domain_id,
                        resource_id@,
                        n as u64,
                        sender@,
                    ) && Self::deposit_frame(*old(self), *final(self), destination_domain_id),
                    Result::Err(m) => r matches Err(e)
                        && e matches BridgeError::HandlerExecutionFailed(em) && em@ == m && final(self).count_of(destination_domain_id) == n && final(self).deposits_view() == old(self).deposits_view() && Self::deposit_frame(
                        *old(self),
                        *final(self),
                        destination_domain_id,
                    ),
                }
            })),
    {
        if self.pausable.is_paused() {
            return Err(BridgeError::BridgePaused);
        }
        if destination_domain_id == self.domain_id {
            return Err(BridgeError::DepositToCurrentDomain);
        }
        match &self.fee_handler {
            Some(f) => {
                match f.collect_fee(
                    &sender,
                    self.domain_id,
                    destination_domain_id,
                    &resource_id,
                    &deposit_data,
                    &fee_data,
                    &value,
                ) {
                    Ok(_) => {},
                    Err(m) => {
                        return Err(BridgeError::HandlerExecutionFailed(m));
                    },
                }
            },
            None => {
                if !value.is_zero() {
                    return Err(
                        BridgeError::HandlerExecutionFailed(
                            "No FeeHandler, value must be zero".to_owned(),
                        ),
                    );
                }
            },
        }
        let idx = match self.find_handler_index(&resource_id) {
            Some(i) => i,
            None => {
                return Err(BridgeError::ResourceIDNotMappedToHandler);
            },
        };
        let current: u64 = match self.deposit_counts.get(&destination_domain_id) {
            Some(c) => *c,
            None => 0,
        };
        let deposit_nonce = current + 1;
        self.deposit_counts.insert(destination_domain_id, deposit_nonce);
        let pair = &self.resource_handlers[idx];
        let handler_response = match pair.1.deposit(&resource_id, &sender, &deposit_data) {
            Ok(resp) => resp,
            Err(m) => {
                return Err(BridgeError::HandlerExecutionFailed(m));
            },
        };
        let record = DepositRecord {
            destination_domain_id,
            resource_id,
            deposit_nonce,
            sender,
            receiver: Address::zero(),
            token_address: None,
            amount: None,
            timestamp: now_timestamp(),
            transaction_hash: Bytes32::zero(),
            status: DepositStatus::Pending,
        };
        let bus_record = record.clone();
        self.deposits.push(record);
        broadcast_send(&self.deposit_events, bus_record);
        proof {
            assert(final(self).deposits_view().take(old(self).deposits_view().len() as int)
                =~= old(self).deposits_view());
        }
        Ok((deposit_nonce, handler_response))
    }

    /// Everything a batch leaves alone: all tables except the replay
    /// bitmap and the execution records.
    pub open spec fn batch_frame(pre: Self, post: Self) -> bool {
        &&& post.domain_view() == pre.domain_view()
        &&& post.paused() == pre.paused()
        &&& post.pauser_view() == pre.pauser_view()
        &&& post.mpc_view() == pre.mpc_view()
        &&& post.domain_separator_view() == pre.domain_separator_view()
        &&& post.access_view() == pre.access_view()
        &&& post.fee_view() == pre.fee_view()
        &&& post.handlers_view() == pre.handlers_view()
        &&& (forall|d: u8| post.count_of(d) == pre.count_of(d))
        &&& (forall|a: Seq<u8>| post.forwarder_of(a) == pre.forwarder_of(a))
        &&& post.deposits_view() == pre.deposits_view()
        &&& (forall|d: u8| post.config_of(d) == pre.config_of(d))
    }

    /// Runs the proposals from position `i` on, as [`batch_step`] says.
    fn run_batch(&mut self, proposals: &Vec<Proposal>, i: usize, results: &mut Vec<u8>) -> (r:
        Result<(), BridgeError>)
        requires
            i <= proposals@.len(),
        ensures
            ({
                let o = batch_step(
                    old(self).handlers_view(),
                    proposals@.skip(i as int),
                    old(self).executed_set(),
                );
                &&& (o.ok ==> (r is Ok && final(results)@ == old(results)@ + o.output))
                &&& (!o.ok ==> (r matches Err(e)
                    && e matches BridgeError::ResourceIDNotMappedToHandler))
                &&& (forall|d: u8, n: u64|
                    final(self).executed(d, n) == o.executed.contains((d, n)))
                &&& final(self).executions_view().len() == old(self).executions_view().len()
                    + o.records.len()
                &&& final(self).executions_view().take(old(self).executions_view().len() as int)
                    == old(self).executions_view()
                &&& (forall|j: int|
                    0 <= j < o.records.len() ==> execution_record_matches(
                        final(self).executions_view()[old(self).executions_view().len() + j],
                        o.records[j],
                    ))
                &&& Self::batch_frame(*old(self), *final(self))
            }),
        decreases proposals@.len() - i,
    {
        let ghost rest_ps = proposals@.skip(i as int);
        let ghost o = batch_step(old(self).handlers_view(), rest_ps, old(self).executed_set());
        if i == proposals.len() {
            proof {
                assert(rest_ps =~= Seq::<Proposal>::empty());
                assert(final(results)@ =~= old(results)@ + o.output);
                assert(final(self).executions_view().take(
                    old(self).executions_view().len() as int,
                ) =~= old(self).executions_view());
                assert forall|d: u8, n: u64|
                    final(self).executed(d, n) == o.executed.contains((d, n)) by {
                    assert(o.executed == old(self).executed_set());
                }
            }
            return Ok(());
        }
        let p = &proposals[i];
        proof {
            assert(rest_ps[0] == proposals@[i as int]);
            assert(rest_ps.skip(1) =~= proposals@.skip(i as int + 1));
        }
        let ghost key = (p.origin_domain_id, p.deposit_nonce);
        if self.used_nonces.get(p.origin_domain_id, p.deposit_nonce) {
            proof {
                assert(old(self).executed_set().contains(key));
            }
            let r = self.run_batch(proposals, i + 1, results);
            return r;
        }
        proof {
            assert(!old(self).executed_set().contains(key));
        }
        let idx = match self.find_handler_index(&p.resource_id) {
            Some(ix) => ix,
            None => {
                proof {
                    assert(!o.ok);
                    assert(final(self).executions_view().take(
                        old(self).executions_view().len() as int,
                    ) =~= old(self).executions_view());
                    assert forall|d: u8, n: u64|
                        final(self).executed(d, n) == o.executed.contains((d, n)) by {
                        assert(o.executed == old(self).executed_set());
                    }
                }
                return Err(BridgeError::ResourceIDNotMappedToHandler);
            },
        };
        self.used_nonces.set_bit(p.origin_domain_id, p.deposit_nonce);
        proof {
            assert(self.executed_set() =~= old(self).executed_set().insert(key));
        }
        let pair = &self.resource_handlers[idx];
        let exec_result = pair.1.execute_proposal(&p.resource_id, &p.data);
        match exec_result {
            Ok(response) => {
                let record = ExecutionRecord {
                    origin_domain_id: p.origin_domain_id,
                    deposit_nonce: p.deposit_nonce,
                    resource_id: p.resource_id,
                    status: DepositStatus::Executed,
                    execution_transaction_hash: Some(Bytes32::zero()),
                    execution_timestamp: Some(now_timestamp()),
                    error_message: None,
                };
                let bus_record = record.clone();
                self.executions.push(record);
                broadcast_send(&self.execution_events, bus_record);
                let mut response_vec = response;
                let ghost response_view = response_vec@;
                results.append(&mut response_vec);
                let ghost mid = *self;
                let ghost mid_results = results@;
                let r = self.run_batch(proposals, i + 1, results);
                proof {
                    let o_sub = batch_step(
                        mid.handlers_view(),
                        proposals@.skip(i as int + 1),
                        mid.executed_set(),
                    );
                    let handler = old(self).handlers_view()[idx as int].1;
                    let spec_r = handler.execute_proposal_spec(
                        rest_ps[0].resource_id@,
                        rest_ps[0].data@,
                    );
                    assert(spec_r is Ok && spec_r->Ok_0 == response_view);
                    assert(mid.handlers_view() == old(self).handlers_view());
                    assert(mid.executed_set() == old(self).executed_set().insert(key));
                    assert(proposals@.skip(i as int + 1) == rest_ps.skip(1));
                    let rest = batch_step(
                        old(self).handlers_view(),
                        rest_ps.skip(1),
                        old(self).executed_set().insert(key),
                    );
                    assert(rest == o_sub);
                    assert(o.ok == rest.ok && o.output == response_view + rest.output
                        && o.executed == rest.executed);
                    assert(o.output =~= response_view + o_sub.output);
                    assert(o.records =~= seq![
                        BatchRecord {
                            origin_domain_id: p.origin_domain_id,
                            deposit_nonce: p.deposit_nonce,
                            resource_id: p.resource_id@,
                            success: true,
                            error_message: None,
                        },
                    ] + o_sub.records);
                    assert(o.executed == o_sub.executed);
                    if o.ok {
                        assert(final(results)@ =~= old(results)@ + o.output);
                    }
                    assert(final(self).executions_view().take(
                        old(self).executions_view().len() as int,
                    ) =~= old(self).executions_view());
                    assert forall|j: int|
                        0 <= j < o.records.len() implies execution_record_matches(
                        final(self).executions_view()[old(self).executions_view().len() + j],
                        o.records[j],
                    ) by {
                        if j == 0 {
                            assert(final(self).executions_view()[old(self).executions_view().len() as int] == mid.executions_view()[old(self).executions_view().len() as int]);
                        } else {
                            assert(o.records[j] == o_sub.records[j - 1]);
                        }
                    }
                }
                r
            },
            Err(message) => {
                self.used_nonces.clear_bit(p.origin_domain_id, p.deposit_nonce);
                proof {
                    assert(self.executed_set() =~= old(self).executed_set());
                }
                let ghost message_view = message@;
                let record = ExecutionRecord {
                    origin_domain_id: p.origin_domain_id,
                    deposit_nonce: p.deposit_nonce,
                    resource_id: p.resource_id,
                    status: DepositStatus::Failed,
                    execution_transaction_hash: None,
                    execution_timestamp: Some(now_timestamp()),
                    error_message: Some(message),
                };
                let bus_record = record.clone();
                self.executions.push(record);
                broadcast_send(&self.execution_events, bus_record);
                let ghost mid = *self;
                let r = self.run_batch(proposals, i + 1, results);
                proof {
                    let o_sub = batch_step(
                        mid.handlers_view(),
                        proposals@.skip(i as int + 1),
                        mid.executed_set(),
                    );
                    let handler = old(self).handlers_view()[idx as int].1;
                    let spec_r = handler.execute_proposal_spec(
                        rest_ps[0].resource_id@,
                        rest_ps[0].data@,
                    );
                    assert(spec_r is Err && spec_r->Err_0 == message_view);
                    assert(mid.handlers_view() == old(self).handlers_view());
                    assert(mid.executed_set() == old(self).executed_set());
                    assert(proposals@.skip(i as int + 1) == rest_ps.skip(1));
                    let rest = batch_step(
                        old(self).handlers_view(),
                        rest_ps.skip(1),
                        old(self).executed_set(),
                    );
                    assert(rest == o_sub);
                    assert(o.ok == rest.ok && o.output == rest.output
                        && o.executed == rest.executed);
                    assert(o.output =~= o_sub.output);
                    assert(o.records =~= seq![
                        BatchRecord {
                            origin_domain_id: p.origin_domain_id,
                            deposit_nonce: p.deposit_nonce,
                            resource_id: p.resource_id@,
                            success: false,
                            error_message: Some(message_view),
                        },
                    ] + o_sub.records);
                    assert(o.executed == o_sub.executed);
                    assert(final(self).executions_view().take(
                        old(self).executions_view().len() as int,
                    ) =~= old(self).executions_view());
                    assert forall|j: int|
                        0 <= j < o.records.len() implies execution_record_matches(
                        final(self).executions_view()[old(self).executions_view().len() + j],
                        o.records[j],
                    ) by {
                        if j == 0 {
                            assert(final(self).executions_view()[old(self).executions_view().len() as int] == mid.executions_view()[old(self).executions_view().len() as int]);
                        } else {
                            assert(o.records[j] == o_sub.records[j - 1]);
                        }
                    }
                }
                r
            },
        }
    }

    /// Executes a batch of proposals. Gated on the pause flag, a
    /// non-empty batch and signature verification; then each proposal is
    /// attempted in order as [`batch_step`] says: replays are skipped
    /// silently, a routing miss aborts the batch, handler failures clear
    /// the replay bit and are recorded, successes are recorded and their
    /// responses concatenated.
    pub fn execute_proposals(&mut self, proposals: Vec<Proposal>, signature: Vec<u8>) -> (r: Result<
        Vec<u8>,
        BridgeError,
    >)
        ensures
            old(self).paused() ==> (r matches Err(e) && e matches BridgeError::BridgePaused
                && *final(self) == *old(self)),
            !old(self).paused() && proposals@.len() == 0 ==> (r matches Err(e)
                && e matches BridgeError::EmptyProposalsArray && *final(self) == *old(self)),
            !old(self).paused() && proposals@.len() > 0 && old(self).mpc_view() is None ==> (
            r matches Err(e) && e matches BridgeError::MPCAddressNotSet && *final(self) == *old(self)),
            !old(self).paused() && proposals@.len() > 0 ==> (old(self).mpc_view() matches Some(m)
                ==> ({
                let verified = recovered_signer(
                    typed_data_digest(old(self).domain_separator_view(), proposals@),
                    signature@,
                ) == Some(m);
                &&& (!verified ==> (r matches Err(e)
                    && e matches BridgeError::InvalidProposalSigner && *final(self) == *old(self)))
                &&& (verified ==> ({
                    let o = batch_step(
                        old(self).handlers_view(),
                        proposals@,
                        old(self).executed_set(),
                    );
                    &&& (o.ok ==> (r matches Ok(out) && out@ == o.output))
                    &&& (!o.ok ==> (r matches Err(e)
                        && e matches BridgeError::ResourceIDNotMappedToHandler))
                    &&& (forall|d: u8, n: u64|
                        final(self).executed(d, n) == o.executed.contains((d, n)))
                    &&& final(self).executions_view().len() == old(self).executions_view().len()
                        + o.records.len()
                    &&& final(self).executions_view().take(
                        old(self).executions_view().len() as int,
                    ) == old(self).executions_view()
                    &&& (forall|j: int|
                        0 <= j < o.records.len() ==> execution_record_matches(
                            final(self).executions_view()[old(self).executions_view().len() + j],
                            o.records[j],
                        ))
                    &&& Self::batch_frame(*old(self), *final(self))
                }))
            })),
    {
        if self.pausable.is_paused() {
            return Err(BridgeError::BridgePaused);
        }
        if proposals.len() == 0 {
            return Err(BridgeError::EmptyProposalsArray);
        }
        let verified = match self.crypto.verify(&proposals, &signature) {
            Ok(v) => v,
            Err(e) => {
                return Err(e);
            },
        };
        if !verified {
            return Err(BridgeError::InvalidProposalSigner);
        }
        let mut results: Vec<u8> = Vec::new();
        proof {
            assert(proposals@.skip(0) =~= proposals@);
        }
        let r = self.run_batch(&proposals, 0, &mut results);
        match r {
            Ok(_) => Ok(results),
            Err(e) => Err(e),
        }
    }

    /// Executes one proposal: a convenience over a singleton batch, with
    /// the same gating and the same per-proposal semantics.
    pub fn execute_proposal(&mut self, proposal: Proposal, signature: Vec<u8>) -> (r: Result<
        Vec<u8>,
        BridgeError,
    >)
        ensures
            old(self).paused() ==> (r matches Err(e) && e matches BridgeError::BridgePaused
                && *final(self) == *old(self)),
            !old(self).paused() && old(self).mpc_view() is None ==> (r matches Err(e)
                && e matches BridgeError::MPCAddressNotSet && *final(self) == *old(self)),
            !old(self).paused() ==> (old(self).mpc_view() matches Some(m) ==> ({
                let verified = recovered_signer(
                    typed_data_digest(old(self).domain_separator_view(), seq![proposal]),
                    signature@,
                ) == Some(m);
                &&& (!verified ==> (r matches Err(e)
                    && e matches BridgeError::InvalidProposalSigner && *final(self) == *old(self)))
                &&& (verified ==> ({
                    let o = batch_step(
                        old(self).handlers_view(),
                        seq![proposal],
                        old(self).executed_set(),
                    );
                    &&& (o.ok ==> (r matches Ok(out) && out@ == o.output))
                    &&& (!o.ok ==> (r matches Err(e)
                        && e matches BridgeError::ResourceIDNotMappedToHandler))
                    &&& (forall|d: u8, n: u64|
                        final(self).executed(d, n) == o.executed.contains((d, n)))
                    &&& final(self).executions_view().len() == old(self).executions_view().len()
                        + o.records.len()
                    &&& final(self).executions_view().take(
                        old(self).executions_view().len() as int,
                    ) == old(self).executions_view()
                    &&& (forall|j: int|
                        0 <= j < o.records.len() ==> execution_record_matches(
                            final(self).executions_view()[old(self).executions_view().len() + j],
                            o.records[j],
                        ))
                    &&& Self::batch_frame(*old(self), *final(self))
                }))
            })),
    {
        let mut proposals: Vec<Proposal> = Vec::new();
        proposals.push(proposal);
        proof {
            assert(proposals@ =~= seq![proposal]);
        }
        self.execute_proposals(proposals, signature)
    }
}

/// What a batch of proposals does, proposal by proposal, over a fixed
/// routing table and a starting replay set: already-executed pairs are
/// skipped without a record; a routing miss aborts the whole batch,
/// keeping what was already committed; a success reserves the replay bit
/// and appends its response; a failure leaves the replay bit clear and
/// records the handler's message.
pub open spec fn batch_step<H: Handler>(
    handlers: Seq<(Bytes32, H)>,
    ps: Seq<Proposal>,
    executed: Set<(u8, u64)>,
) -> BatchOutcome
    decreases ps.len(),
{
    if ps.len() == 0 {
        BatchOutcome { ok: true, output: Seq::empty(), executed, records: Seq::empty() }
    } else {
        let p = ps[0];
        let key = (p.origin_domain_id, p.deposit_nonce);
        if executed.contains(key) {
            batch_step(handlers, ps.skip(1), executed)
        } else {
            match assoc_bytes32_get(handlers, p.resource_id@) {
                Option::None => BatchOutcome {
                    ok: false,
                    output: Seq::empty(),
                    executed,
                    records: Seq::empty(),
                },
                Option::Some(h) => match h.execute_proposal_spec(p.resource_id@, p.data@) {
                    Result::Ok(resp) => {
                        let rest = batch_step(handlers, ps.skip(1), executed.insert(key));
                        BatchOutcome {
                            ok: rest.ok,
                            output: resp + rest.output,
                            executed: rest.executed,
                            records: seq![
                                BatchRecord {
                                    origin_domain_id: p.origin_domain_id,
                                    deposit_nonce: p.deposit_nonce,
                                    resource_id: p.resource_id@,
                                    success: true,
                                    error_message: None,
                                },
                            ] + rest.records,
                        }
                    },
                    Result::Err(msg) => {
                        let rest = batch_step(handlers, ps.skip(1), executed);
                        BatchOutcome {
                            ok: rest.ok,
                            output: rest.output,
                            executed: rest.executed,
                            records: seq![
                                BatchRecord {
                                    origin_domain_id: p.origin_domain_id,
                                    deposit_nonce: p.deposit_nonce,
                                    resource_id: p.resource_id@,
                                    success: false,
                                    error_message: Some(msg),
                                },
                            ] + rest.records,
                        }
                    },
                },
            }
        }
    }
}

/// The successful handler responses of a batch, in attempt order.
pub open spec fn successful_responses<H: Handler>(
    handlers: Seq<(Bytes32, H)>,
    ps: Seq<Proposal>,
    executed: Set<(u8, u64)>,
) -> Seq<Seq<u8>>
    decreases ps.len(),
{
    if ps.len() == 0 {
        Seq::empty()
    } else {
        let p = ps[0];
        let key = (p.origin_domain_id, p.deposit_nonce);
        if executed.contains(key) {
            successful_responses(handlers, ps.skip(1), executed)
        } else {
            match assoc_bytes32_get(handlers, p.resource_id@) {
                Option::None => Seq::empty(),
                Option::Some(h) => match h.execute_proposal_spec(p.resource_id@, p.data@) {
                    Result::Ok(resp) => seq![resp] + successful_responses(
                        handlers,
                        ps.skip(1),
                        executed.insert(key),
                    ),
                    Result::Err(_) => successful_responses(handlers, ps.skip(1), executed),
                },
            }
        }
    }
}

/// Concatenation of a list of byte strings, in order.
pub open spec fn concat_bytes(l: Seq<Seq<u8>>) -> Seq<u8>
    decreases l.len(),
{
    if l.len() == 0 {
        Seq::empty()
    } else {
        l[0] + concat_bytes(l.skip(1))
    }
}

/// The bytes a batch returns are the ordered concatenation of the
/// successful handler responses, and nothing else.
pub proof fn lemma_output_is_concat_of_successes<H: Handler>(
    handlers: Seq<(Bytes32, H)>,
    ps: Seq<Proposal>,
    executed: Set<(u8, u64)>,
)
    ensures
        batch_step(handlers, ps, executed).output == concat_bytes(
            successful_responses(handlers, ps, executed),
        ),
    decreases ps.len(),
{
    if ps.len() == 0 {
    } else {
        let p = ps[0];
        let key = (p.origin_domain_id, p.deposit_nonce);
        if executed.contains(key) {
            lemma_output_is_concat_of_successes(handlers, ps.skip(1), executed);
        } else {
            match assoc_bytes32_get(handlers, p.resource_id@) {
                Option::None => {},
                Option::Some(h) => match h.execute_proposal_spec(p.resource_id@, p.data@) {
                    Result::Ok(resp) => {
                        lemma_output_is_concat_of_successes(
                            handlers,
                            ps.skip(1),
                            executed.insert(key),
                        );
                        let tail = successful_responses(handlers, ps.skip(1), executed.insert(key));
                        assert((seq![resp] + tail).skip(1) =~= tail);
                        assert((seq![resp] + tail)[0] == resp);
                    },
                    Result::Err(_) => {
                        lemma_output_is_concat_of_successes(handlers, ps.skip(1), executed);
                    },
                },
            }
        }
    }
}

/// A pair that is executed before a batch stays executed through it:
/// once the first successful execution has committed, `is_executed`
/// holds forever after.
pub proof fn lemma_batch_executed_monotonic<H: Handler>(
    handlers: Seq<(Bytes32, H)>,
    ps: Seq<Proposal>,
    executed: Set<(u8, u64)>,
    pair: (u8, u64),
)
    requires
        executed.contains(pair),
    ensures
        batch_step(handlers, ps, executed).executed.contains(pair),
    decreases ps.len(),
{
    if ps.len() == 0 {
    } else {
        let p = ps[0];
        let key = (p.origin_domain_id, p.deposit_nonce);
        if executed.contains(key) {
            lemma_batch_executed_monotonic(handlers, ps.skip(1), executed, pair);
        } else {
            match assoc_bytes32_get(handlers, p.resource_id@) {
                Option::None => {},
                Option::Some(h) => match h.execute_proposal_spec(p.resource_id@, p.data@) {
                    Result::Ok(_) => {
                        lemma_batch_executed_monotonic(
                            handlers,
                            ps.skip(1),
                            executed.insert(key),
                            pair,
                        );
                    },
                    Result::Err(_) => {
                        lemma_batch_executed_monotonic(handlers, ps.skip(1), executed, pair);
                    },
                },
            }
        }
    }
}

/// A batch appends no record for a pair that was already executed when
/// it began: replayed proposals are skipped silently.
pub proof fn lemma_no_record_for_executed<H: Handler>(
    handlers: Seq<(Bytes32, H)>,
    ps: Seq<Proposal>,
    executed: Set<(u8, u64)>,
)
    ensures
        forall|j: int|
            0 <= j < batch_step(handlers, ps, executed).records.len() ==> !executed.contains(
                (
                    batch_step(handlers, ps, executed).records[j].origin_domain_id,
                    batch_step(handlers, ps, executed).records[j].deposit_nonce,
                ),
            ),
    decreases ps.len(),
{
    if ps.len() == 0 {
    } else {
        let p = ps[0];
        let key = (p.origin_domain_id, p.deposit_nonce);
        let o = batch_step(handlers, ps, executed);
        if executed.contains(key) {
            lemma_no_record_for_executed(handlers, ps.skip(1), executed);
        } else {
            match assoc_bytes32_get(handlers, p.resource_id@) {
                Option::None => {},
                Option::Some(h) => match h.execute_proposal_spec(p.resource_id@, p.data@) {
                    Result::Ok(_) => {
                        lemma_no_record_for_executed(handlers, ps.skip(1), executed.insert(key));
                        let rest = batch_step(handlers, ps.skip(1), executed.insert(key));
                        assert forall|j: int| 0 <= j < o.records.len() implies !executed.contains(
                            (o.records[j].origin_domain_id, o.records[j].deposit_nonce),
                        ) by {
                            if j > 0 {
                                assert(o.records[j] == rest.records[j - 1]);
                                assert(!executed.insert(key).contains(
                                    (
                                        rest.records[j - 1].origin_domain_id,
                                        rest.records[j - 1].deposit_nonce,
                                    ),
                                ));
                            }
                        }
                    },
                    Result::Err(_) => {
                        lemma_no_record_for_executed(handlers, ps.skip(1), executed);
                        let rest = batch_step(handlers, ps.skip(1), executed);
                        assert forall|j: int| 0 <= j < o.records.len() implies !executed.contains(
                            (o.records[j].origin_domain_id, o.records[j].deposit_nonce),
                        ) by {
                            if j > 0 {
                                assert(o.records[j] == rest.records[j - 1]);
                            }
                        }
                    },
                },
            }
        }
    }
}

/// A replayed singleton batch does nothing: it succeeds with empty
/// output, leaves the replay set as it was, and appends no record.
pub proof fn lemma_replay_skipped<H: Handler>(
    handlers: Seq<(Bytes32, H)>,
    p: Proposal,
    executed: Set<(u8, u64)>,
)
    requires
        executed.contains((p.origin_domain_id, p.deposit_nonce)),
    ensures
        ({
            let o = batch_step(handlers, seq![p], executed);
            o.ok && o.output == Seq::<u8>::empty() && o.executed == executed && o.records.len()
                == 0
        }),
{
    assert(seq![p].skip(1) =~= Seq::<Proposal>::empty());
    assert(seq![p][0] == p);
    let empty_o = batch_step(handlers, Seq::<Proposal>::empty(), executed);
    assert(empty_o.ok && empty_o.output == Seq::<u8>::empty() && empty_o.executed == executed
        && empty_o.records.len() == 0);
}

/// A handler failure consumes no replay bit: when the batch's next
/// proposal is unexecuted, routed, and its handler fails with `msg`, the
/// attempt contributes exactly one Failed record carrying `msg`, no
/// output bytes, and the rest of the batch proceeds from the unchanged
/// replay set -- so a retry of the pair may succeed.
pub proof fn lemma_failure_clears_bit<H: Handler>(
    handlers: Seq<(Bytes32, H)>,
    ps: Seq<Proposal>,
    executed: Set<(u8, u64)>,
    h: H,
    msg: Seq<char>,
)
    requires
        ps.len() > 0,
        !executed.contains((ps[0].origin_domain_id, ps[0].deposit_nonce)),
        assoc_bytes32_get(handlers, ps[0].resource_id@) == Some(h),
        h.execute_proposal_spec(ps[0].resource_id@, ps[0].data@) == Result::<
            Seq<u8>,
            Seq<char>,
        >::Err(msg),
    ensures
        ({
            let o = batch_step(handlers, ps, executed);
            let rest = batch_step(handlers, ps.skip(1), executed);
            &&& o.ok == rest.ok
            &&& o.output == rest.output
            &&& o.executed == rest.executed
            &&& o.records.len() == rest.records.len() + 1
            &&& o.records[0] == (BatchRecord {
                origin_domain_id: ps[0].origin_domain_id,
                deposit_nonce: ps[0].deposit_nonce,
                resource_id: ps[0].resource_id@,
                success: false,
                error_message: Some(msg),
            })
            &&& o.records.skip(1) == rest.records
        }),
{
    let o = batch_step(handlers, ps, executed);
    let rest = batch_step(handlers, ps.skip(1), executed);
    let head = BatchRecord {
        origin_domain_id: ps[0].origin_domain_id,
        deposit_nonce: ps[0].deposit_nonce,
        resource_id: ps[0].resource_id@,
        success: false,
        error_message: Some(msg),
    };
    assert(o.records == seq![head] + rest.records);
    assert((seq![head] + rest.records)[0] == head);
    assert((seq![head] + rest.records).skip(1) =~= rest.records);
}

} // verus!
