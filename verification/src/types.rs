//! Plain data types of the bridge core: fixed-length byte strings,
//! 256-bit amounts, proposals, admin operations and the deposit /
//! execution records.

use vstd::prelude::*;

verus! {

/// A 32-byte opaque value: resource identifiers and transaction hashes.
#[derive(Clone, Copy, Debug)]
pub struct Bytes32 {
    pub bytes: [u8; 32],
}

impl View for Bytes32 {
    type V = Seq<u8>;

    open spec fn view(&self) -> Seq<u8> {
        self.bytes@
    }
}

impl Bytes32 {
    /// The all-zero 32-byte value.
    pub fn zero() -> (r: Bytes32)
        ensures
            r@ == Seq::new(32, |i: int| 0u8),
    {
        let r = Bytes32 { bytes: [0u8; 32] };
        proof {
            assert(r@ =~= Seq::new(32, |i: int| 0u8));
        }
        r
    }

    /// Byte-for-byte equality.
    pub fn eq_bytes(&self, other: &Bytes32) -> (r: bool)
        ensures
            r == (self@ == other@),
    {
        let mut i: usize = 0;
        while i < 32
            invariant
                i <= 32,
                forall|j: int| 0 <= j < i ==> self.bytes[j] == other.bytes[j],
            decreases 32 - i,
        {
            if self.bytes[i] != other.bytes[i] {
                assert(self@[i as int] != other@[i as int]);
                return false;
            }
            i += 1;
        }
        proof {
            assert(self@ =~= other@);
        }
        true
    }
}

/// A 20-byte account identity. The all-zero address is distinguished
/// and rejected where the coordinator's contracts say so.
#[derive(Clone, Copy, Debug)]
pub struct Address {
    pub bytes: [u8; 20],
}

impl View for Address {
    type V = Seq<u8>;

    open spec fn view(&self) -> Seq<u8> {
        self.bytes@
    }
}

impl Address {
    /// Whether this is the distinguished zero address.
    pub open spec fn is_zero_spec(&self) -> bool {
        forall|i: int| 0 <= i < 20 ==> self@[i] == 0u8
    }

    /// The all-zero address.
    pub fn zero() -> (r: Address)
        ensures
            r.is_zero_spec(),
    {
        Address { bytes: [0u8; 20] }
    }

    /// Tests for the distinguished zero address.
    pub fn is_zero(&self) -> (r: bool)
        ensures
            r == self.is_zero_spec(),
    {
        let mut i: usize = 0;
        while i < 20
            invariant
                i <= 20,
                forall|j: int| 0 <= j < i ==> self.bytes[j] == 0u8,
            decreases 20 - i,
        {
            if self.bytes[i] != 0u8 {
                assert(self@[i as int] != 0u8);
                return false;
            }
            i += 1;
        }
        true
    }

    /// Byte-for-byte equality.
    pub fn eq_bytes(&self, other: &Address) -> (r: bool)
        ensures
            r == (self@ == other@),
    {
        let mut i: usize = 0;
        while i < 20
            invariant
                i <= 20,
                forall|j: int| 0 <= j < i ==> self.bytes[j] == other.bytes[j],
            decreases 20 - i,
        {
            if self.bytes[i] != other.bytes[i] {
                assert(self@[i as int] != other@[i as int]);
                return false;
            }
            i += 1;
        }
        proof {
            assert(self@ =~= other@);
        }
        true
    }
}

/// An unsigned 256-bit amount, four 64-bit limbs, least significant first.
#[derive(Clone, Copy, Debug)]
pub struct Uint256 {
    pub limbs: [u64; 4],
}

impl View for Uint256 {
    type V = nat;

    open spec fn view(&self) -> nat {
        (self.limbs@[0] + self.limbs@[1] * 0x1_0000_0000_0000_0000
            + self.limbs@[2] * 0x1_0000_0000_0000_0000_0000_0000_0000_0000
            + self.limbs@[3]
            * 0x1_0000_0000_0000_0000_0000_0000_0000_0000_0000_0000_0000_0000) as nat
    }
}

impl Uint256 {
    /// The zero amount.
    pub fn zero() -> (r: Uint256)
        ensures
            r@ == 0,
    {
        Uint256 { limbs: [0u64; 4] }
    }

    /// An amount small enough for one limb.
    pub fn from_u64(v: u64) -> (r: Uint256)
        ensures
            r@ == v,
    {
        Uint256 { limbs: [v, 0u64, 0u64, 0u64] }
    }

    /// Tests whether the amount is zero.
    pub fn is_zero(&self) -> (r: bool)
        ensures
            r == (self@ == 0),
    {
        self.limbs[0] == 0 && self.limbs[1] == 0 && self.limbs[2] == 0 && self.limbs[3] == 0
    }
}

/// A request to apply a previously emitted deposit on this chain,
/// identified by (origin domain, deposit nonce).
#[derive(Clone, Debug)]
pub struct Proposal {
    pub origin_domain_id: u8,
    pub deposit_nonce: u64,
    pub resource_id: Bytes32,
    pub data: Vec<u8>,
}

/// Status of a deposit or execution record.
#[derive(Clone, Copy, Debug, PartialEq, Eq, Structural)]
pub enum DepositStatus {
    Pending,
    Executed,
    Failed,
}

/// Record of an outgoing deposit, appended when the coordinator commits it.
#[derive(Clone, Debug)]
pub struct DepositRecord {
    pub destination_domain_id: u8,
    pub resource_id: Bytes32,
    pub deposit_nonce: u64,
    pub sender: Address,
    pub receiver: Address,
    pub token_address: Option<Address>,
    pub amount: Option<Uint256>,
    pub timestamp: u64,
    pub transaction_hash: Bytes32,
    pub status: DepositStatus,
}

/// Record of an attempted proposal execution, appended per attempt.
#[derive(Clone, Debug)]
pub struct ExecutionRecord {
    pub origin_domain_id: u8,
    pub deposit_nonce: u64,
    pub resource_id: Bytes32,
    pub status: DepositStatus,
    pub execution_transaction_hash: Option<Bytes32>,
    pub execution_timestamp: Option<u64>,
    pub error_message: Option<String>,
}

/// Configuration of a chain connected to the bridge, indexed by domain.
/// The handler table maps handler names to addresses; its invariant is
/// [`ChainConfig::wf`].
#[derive(Clone, Debug)]
pub struct ChainConfig {
    pub domain_id: u8,
    pub name: String,
    pub rpc_url: String,
    pub bridge_address: Address,
    pub chain_id: u64,
    pub confirmations: u64,
    pub gas_limit: Uint256,
    pub max_gas_price: Uint256,
    pub handlers: Vec<(String, Address)>,
}

impl ChainConfig {
    /// The handler table's invariant: handler names are unique, as a
    /// name-keyed map guarantees.
    pub open spec fn wf(&self) -> bool {
        forall|i: int, j: int|
            0 <= i < j < self.handlers@.len() ==> self.handlers@[i].0@ != self.handlers@[j].0@
    }

    /// Checks the handler table's invariant.
    pub fn handlers_unique(&self) -> (r: bool)
        ensures
            r == self.wf(),
    {
        let mut i: usize = 0;
        while i < self.handlers.len()
            invariant
                i <= self.handlers@.len(),
                forall|a: int, b: int|
                    0 <= a < b < i ==> self.handlers@[a].0@ != self.handlers@[b].0@,
            decreases self.handlers.len() - i,
        {
            let mut j: usize = 0;
            while j < i
                invariant
                    j <= i < self.handlers@.len(),
                    forall|b: int| 0 <= b < j ==> self.handlers@[b].0@ != self.handlers@[i as int].0@,
                decreases i - j,
            {
                if self.handlers[j].0 == self.handlers[i].0 {
                    return false;
                }
                j += 1;
            }
            i += 1;
        }
        true
    }
}

/// The admin operations, each with its fixed 4-byte authorization selector.
#[derive(Clone, Copy, Debug, PartialEq, Eq, Structural)]
pub enum AdminOp {
    PauseTransfers,
    UnpauseTransfers,
    SetResource,
    SetBurnable,
    SetDepositNonce,
    SetForwarder,
    ChangeAccessControl,
    ChangeFeeHandler,
    Withdraw,
    StartKeygen,
    EndKeygen,
    RefreshKey,
    Retry,
}

impl AdminOp {
    /// The 4-byte function selector consulted for this operation,
    /// part of the public contract and stable across deployments.
    pub open spec fn selector_spec(&self) -> Seq<u8> {
        match self {
            AdminOp::PauseTransfers => seq![0x80u8, 0xf0u8, 0x1au8, 0xc8u8],
            AdminOp::UnpauseTransfers => seq![0x70u8, 0xbcu8, 0xacu8, 0x5du8],
            AdminOp::SetResource => seq![0xc8u8, 0x81u8, 0xf5u8, 0x40u8],
            AdminOp::SetBurnable => seq![0x5au8, 0x1cu8, 0xb1u8, 0x01u8],
            AdminOp::SetDepositNonce => seq![0x7fu8, 0xb8u8, 0x75u8, 0xbeu8],
            AdminOp::SetForwarder => seq![0x45u8, 0xb8u8, 0x3cu8, 0x61u8],
            AdminOp::ChangeAccessControl => seq![0x9du8, 0xdeu8, 0xbcu8, 0xa4u8],
            AdminOp::ChangeFeeHandler => seq![0x4bu8, 0x05u8, 0x44u8, 0xc6u8],
            AdminOp::Withdraw => seq![0x0du8, 0x29u8, 0xd2u8, 0x32u8],
            AdminOp::StartKeygen => seq![0x67u8, 0x54u8, 0x19u8, 0xb1u8],
            AdminOp::EndKeygen => seq![0x63u8, 0x7fu8, 0x7au8, 0x1eu8],
            AdminOp::RefreshKey => seq![0x76u8, 0x88u8, 0x72u8, 0x82u8],
            AdminOp::Retry => seq![0x8cu8, 0xc9u8, 0x87u8, 0xf8u8],
        }
    }

    /// The selector as executable bytes.
    pub fn selector(&self) -> (r: [u8; 4])
        ensures
            r@ == self.selector_spec(),
    {
        let r: [u8; 4] = match self {
            AdminOp::PauseTransfers => [0x80u8, 0xf0u8, 0x1au8, 0xc8u8],
            AdminOp::UnpauseTransfers => [0x70u8, 0xbcu8, 0xacu8, 0x5du8],
            AdminOp::SetResource => [0xc8u8, 0x81u8, 0xf5u8, 0x40u8],
            AdminOp::SetBurnable => [0x5au8, 0x1cu8, 0xb1u8, 0x01u8],
            AdminOp::SetDepositNonce => [0x7fu8, 0xb8u8, 0x75u8, 0xbeu8],
            AdminOp::SetForwarder => [0x45u8, 0xb8u8, 0x3cu8, 0x61u8],
            AdminOp::ChangeAccessControl => [0x9du8, 0xdeu8, 0xbcu8, 0xa4u8],
            AdminOp::ChangeFeeHandler => [0x4bu8, 0x05u8, 0x44u8, 0xc6u8],
            AdminOp::Withdraw => [0x0du8, 0x29u8, 0xd2u8, 0x32u8],
            AdminOp::StartKeygen => [0x67u8, 0x54u8, 0x19u8, 0xb1u8],
            AdminOp::EndKeygen => [0x63u8, 0x7fu8, 0x7au8, 0x1eu8],
            AdminOp::RefreshKey => [0x76u8, 0x88u8, 0x72u8, 0x82u8],
            AdminOp::Retry => [0x8cu8, 0xc9u8, 0x87u8, 0xf8u8],
        };
        proof {
            assert(r@ =~= self.selector_spec());
        }
        r
    }
}

} // verus!
